//! The comment-chained error of the runtime: a short stage description plus
//! the wrapped underlying cause, either an operating-system errno or a text.

use vstd::prelude::*;
use crate::dec::{dec_chars, dec_string};

verus! {

/// The underlying cause of a failure.
#[derive(Debug)]
pub enum Cause {
    /// A system call failed with this errno.
    Os(i32),
    /// Some other failure, described in words.
    Text(String),
}

/// A setup or control error: what stage failed, and why.
#[derive(Debug)]
pub struct Error {
    pub comment: String,
    pub cause: Option<Cause>,
}

impl Error {
    /// An error with a wrapped cause.
    pub fn new(comment: String, cause: Cause) -> (r: Error)
        ensures
            r.comment == comment,
            r.cause == Some(cause),
    {
        Error { comment, cause: Some(cause) }
    }

    /// An error that is only its description.
    pub fn simple(comment: &str) -> (r: Error)
        ensures
            r.comment@ == comment@,
            r.cause is None,
    {
        Error { comment: comment.to_owned(), cause: None }
    }

    /// Renders the error as `comment: cause`, or the comment alone.
    pub fn message(&self) -> (r: String)
        ensures
            r@ == self.spec_message(),
    {
        match &self.cause {
            Option::None => {
                let r = self.comment.clone();
                proof {
                    assert(r@ =~= self.spec_message());
                }
                r
            },
            Option::Some(Cause::Text(t)) => {
                let r = self.comment.clone().concat(": ").concat(t.as_str());
                proof {
                    assert(r@ =~= self.spec_message());
                }
                r
            },
            Option::Some(Cause::Os(e)) => {
                let n: u64 = if *e >= 0 {
                    *e as u64
                } else {
                    0
                };
                let r = self.comment.clone().concat(": os error ").concat(
                    dec_string(n).as_str(),
                );
                proof {
                    assert(r@ =~= self.spec_message());
                }
                r
            },
        }
    }

    /// What `message` renders; an errno below zero never arises and shows
    /// as zero.
    pub open spec fn spec_message(self) -> Seq<char> {
        match self.cause {
            Option::None => self.comment@,
            Option::Some(Cause::Text(t)) => self.comment@ + ": "@ + t@,
            Option::Some(Cause::Os(e)) => self.comment@ + ": os error "@ + dec_chars(
                if e >= 0 {
                    e as nat
                } else {
                    0
                },
            ),
        }
    }
}

/// Attaching a stage description to a failed result, keeping the cause.
pub trait CommentError<T>: Sized {
    /// The success value, if this result holds one.
    spec fn ok_of(&self) -> Option<T>;

    /// The cause an error of this result wraps.
    spec fn cause_of(&self) -> Cause;

    /// Wraps the error case in an [`Error`] whose comment is `comment`.
    fn comment_error(self, comment: &str) -> (r: Result<T, Error>)
        ensures
            self.ok_of() is Some <==> r is Ok,
            r is Ok ==> self.ok_of() == Some(r->Ok_0),
            r is Err ==> r->Err_0.comment@ == comment@ && r->Err_0.cause == Some(
                self.cause_of(),
            ),
    ;
}

impl<T> CommentError<T> for Result<T, i32> {
    open spec fn ok_of(&self) -> Option<T> {
        match *self {
            Result::Ok(ref t) => Some(*t),
            Result::Err(_) => None,
        }
    }

    open spec fn cause_of(&self) -> Cause {
        match *self {
            Result::Ok(_) => Cause::Os(0),
            Result::Err(e) => Cause::Os(e),
        }
    }

    fn comment_error(self, comment: &str) -> (r: Result<T, Error>) {
        match self {
            Result::Ok(t) => Result::Ok(t),
            Result::Err(e) => Result::Err(Error::new(comment.to_owned(), Cause::Os(e))),
        }
    }
}

impl<T> CommentError<T> for Result<T, Cause> {
    open spec fn ok_of(&self) -> Option<T> {
        match *self {
            Result::Ok(ref t) => Some(*t),
            Result::Err(_) => None,
        }
    }

    open spec fn cause_of(&self) -> Cause {
        match *self {
            Result::Ok(_) => Cause::Os(0),
            Result::Err(ref c) => *c,
        }
    }

    fn comment_error(self, comment: &str) -> (r: Result<T, Error>) {
        match self {
            Result::Ok(t) => Result::Ok(t),
            Result::Err(c) => Result::Err(Error::new(comment.to_owned(), c)),
        }
    }
}

/// Unwrapping a result that the caller has shown cannot be an error.
pub trait Check<T>: Sized {
    /// Whether this result holds a success value.
    spec fn holds_value(&self) -> bool;

    /// The held success value.
    spec fn held_value(self) -> T;

    /// Returns the success value; the caller must rule the error case out.
    fn check(self, msg: &str) -> (r: T)
        requires
            self.holds_value(),
        ensures
            r == self.held_value(),
    ;
}

impl<T> Check<T> for Result<T, Error> {
    open spec fn holds_value(&self) -> bool {
        *self is Ok
    }

    open spec fn held_value(self) -> T {
        self->Ok_0
    }

    fn check(self, msg: &str) -> (r: T) {
        match self {
            Result::Ok(t) => t,
            Result::Err(_) => vstd::pervasive::unreached(),
        }
    }
}

} // verus!
