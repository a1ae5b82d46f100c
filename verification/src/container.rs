//! The container handle: what a caller holds to control a container after
//! creation or re-attachment — signal delivery, blocking wait, and the
//! cleanup plan — with the two deliberate error downgrades: a process that
//! is already gone is no failure of `cancel` or `connect`, and an exit
//! record already consumed is no failure of the wait.

use vstd::prelude::*;
use crate::cgroup::cgroup_delete;
use crate::dec::{dec_chars, parse_number, parse_spec};
use crate::paths::{container_dir, dir_suf_chars};
use crate::process::{RawProcess, ECHILD, ESRCH};
use crate::result::{CommentError, Cause, Error};

verus! {

/// What suppressing `no such process` leaves of a signal delivery's result.
pub open spec fn spec_suppress_esrch(res: Result<(), i32>) -> Result<(), i32> {
    match res {
        Result::Ok(()) => Result::Ok(()),
        Result::Err(e) => if e == ESRCH {
            Result::Ok(())
        } else {
            Result::Err(e)
        },
    }
}

/// Turns `no such process` into success: the target's natural exit is an
/// expected outcome at the places this is applied, not a fault.
pub fn suppress_esrch(res: Result<(), i32>) -> (r: Result<(), i32>)
    ensures
        r == spec_suppress_esrch(res),
{
    match res {
        Result::Ok(()) => Result::Ok(()),
        Result::Err(e) => if e == ESRCH {
            Result::Ok(())
        } else {
            Result::Err(e)
        },
    }
}

/// What downgrading `no child processes` leaves of a wait's result: the
/// record was already reaped, which counts as a clean exit.
pub open spec fn spec_downgrade_no_children(res: Result<i32, i32>) -> Result<i32, i32> {
    match res {
        Result::Ok(c) => Result::Ok(c),
        Result::Err(e) => if e == ECHILD {
            Result::Ok(0)
        } else {
            Result::Err(e)
        },
    }
}

/// Turns `no child processes` into a synthetic exit code of zero.
pub fn downgrade_no_children(res: Result<i32, i32>) -> (r: Result<i32, i32>)
    ensures
        r == spec_downgrade_no_children(res),
{
    match res {
        Result::Ok(c) => Result::Ok(c),
        Result::Err(e) => if e == ECHILD {
            Result::Ok(0)
        } else {
            Result::Err(e)
        },
    }
}

/// A signal sent to a process that already exited, and a wait whose exit
/// record was already consumed, both read as success: the cleanup that
/// follows a wait therefore runs on a normal exit and on a `no children`
/// report alike, and neither downgrade ever lets its errno surface.
pub proof fn lemma_gone_process_is_no_error(sig_res: Result<(), i32>, wait_res: Result<i32, i32>)
    ensures
        sig_res == Result::<(), i32>::Err(ESRCH) ==> spec_suppress_esrch(sig_res) is Ok,
        spec_suppress_esrch(sig_res) is Err ==> spec_suppress_esrch(sig_res)->Err_0 != ESRCH,
        wait_res == Result::<i32, i32>::Err(ECHILD) ==> spec_downgrade_no_children(wait_res)
            == Result::<i32, i32>::Ok(0),
        forall|c: i32|
            wait_res == Result::<i32, i32>::Ok(c) ==> spec_downgrade_no_children(wait_res)
                == Result::<i32, i32>::Ok(c),
        spec_downgrade_no_children(wait_res) is Err ==> spec_downgrade_no_children(wait_res)->Err_0
            != ECHILD,
{
}

/// A handle on a running or previously started container.
#[derive(Debug)]
pub struct Container {
    process: RawProcess,
    is_daemon: bool,
}

impl Container {
    /// The container's id: the host-visible id of its init process.
    pub closed spec fn id(&self) -> int {
        self.process.id()
    }

    /// The persisted daemon flag this handle was built from.
    pub closed spec fn daemon(&self) -> bool {
        self.is_daemon
    }

    /// A handle fresh from the factory, which knows both fields.
    pub fn new(process: RawProcess, is_daemon: bool) -> (r: Container)
        ensures
            r.id() == process.id(),
            r.daemon() == is_daemon,
    {
        Container { process, is_daemon }
    }

    /// Re-attaches to container `id` from its persisted daemon record, the
    /// content of the info record's daemon file. A record that does not
    /// parse is an error with no underlying cause; a trace-attach failure
    /// other than `no such process` — which only means the container already
    /// exited, and is suppressed — carries its errno.
    pub fn connect(id: i32, daemon_record: &[u8]) -> (r: Result<Container, Error>)
        requires
            id >= 0,
        ensures
            parse_spec(daemon_record@) is None <==> r is Err && r->Err_0.cause is None,
            r is Ok ==> (parse_spec(daemon_record@) matches Some(v) && r->Ok_0.id() == id
                && r->Ok_0.daemon() == (v != 0)),
            r is Err ==> (r->Err_0.cause matches Some(Cause::Os(e)) ==> e != ESRCH),
            r is Err && r->Err_0.cause is None ==> r->Err_0.comment@ == "Parsing daemon file"@,
            r is Err && r->Err_0.cause is Some ==> r->Err_0.comment@ == "Ptrace"@,
    {
        let v = match parse_number(daemon_record) {
            Option::Some(v) => v,
            Option::None => {
                return Err(Error::simple("Parsing daemon file"));
            },
        };
        let res = Container { process: RawProcess::from_pid(id), is_daemon: v != 0 };
        match suppress_esrch(res.process.ptrace()).comment_error("Ptrace") {
            Result::Ok(()) => Ok(res),
            Result::Err(e) => Err(e),
        }
    }

    /// Delivers `signal` to the container's init process. A container that
    /// already exited is not an error: `no such process` never surfaces
    /// here, so any reported failure is a real one.
    pub fn cancel(&self, signal: i32) -> (r: Result<(), Error>)
        ensures
            r is Err ==> (r->Err_0.cause matches Some(Cause::Os(e)) && e != ESRCH),
            r is Err ==> r->Err_0.comment@ == "Error killing process"@,
    {
        suppress_esrch(self.process.signal(signal)).comment_error("Error killing process")
    }

    /// Blocks for the init process's exit and returns its exit code. An exit
    /// record that was already reaped reads as code zero: `no children`
    /// never surfaces, so the cleanup a caller runs after a successful wait
    /// is reached on both outcomes.
    pub fn wait(self) -> (r: Result<i32, Error>)
        ensures
            r is Ok ==> 0 <= r->Ok_0 <= 255,
            r is Err ==> (r->Err_0.cause matches Some(Cause::Os(e)) && e != ECHILD),
            r is Err ==> r->Err_0.comment@ == "Waiting for process to finish"@,
    {
        let Container { process, is_daemon: _ } = self;
        downgrade_no_children(process.wait()).comment_error("Waiting for process to finish")
    }

    /// The container's id.
    pub fn get_id(&self) -> (r: i32)
        ensures
            r == self.id(),
            r >= 0,
    {
        self.process.get_pid()
    }

    /// Whether the container was started as a daemon.
    pub fn is_daemon(&self) -> (r: bool)
        ensures
            r == self.daemon(),
    {
        self.is_daemon
    }
}

/// What clearing a container after its exit performs, in order: the
/// privileged helper deletes the cgroup, then the container's directory is
/// removed recursively. The plan is the same whether the exit was observed
/// or the record was already gone.
pub fn clear_plan(util: &Vec<String>, cont_id: i32) -> (r: (Vec<String>, String))
    requires
        cont_id >= 0,
    ensures
        r.0.deep_view() =~= seq!["sudo"@] + util.deep_view() + seq![
            dec_chars(cont_id as nat),
            "delete"@,
        ],
        r.1@ == dir_suf_chars(cont_id as int, ""@),
{
    (cgroup_delete(util, cont_id), container_dir(cont_id))
}

} // verus!
