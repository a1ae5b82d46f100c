//! The synchronization channel: a unidirectional pipe that carries exactly
//! one message per container — the decimal host process id, written by the
//! parent and block-read by the child before it proceeds.

use vstd::prelude::*;
use crate::dec::{dec_bytes, parse_number};
use crate::result::Cause;

verus! {

/// Relies on nix::unistd::pipe2 with close-on-exec: a fresh unidirectional
/// channel whose descriptors do not survive the container's final exec; on
/// success the read end and the write end as raw descriptors, else the errno.
#[verifier::external_body]
fn sys_pipe() -> (r: Result<(i32, i32), i32>) {
    match nix::unistd::pipe2(nix::fcntl::OFlag::O_CLOEXEC) {
        Ok((rfd, wfd)) => Ok((rfd, wfd)),
        Err(e) => Err(e as i32),
    }
}

/// Relies on nix::unistd::write: hands the buffer's bytes from `offset` on to
/// the descriptor and reports how many were accepted — never more than were
/// handed over.
#[verifier::external_body]
fn sys_write(fd: i32, data: &[u8], offset: usize) -> (r: Result<usize, i32>)
    requires
        offset <= data@.len(),
    ensures
        r matches Ok(n) ==> offset + n <= data@.len(),
{
    match nix::unistd::write(fd, &data[offset..]) {
        Ok(n) => Ok(n),
        Err(e) => Err(e as i32),
    }
}

/// Relies on nix::unistd::read: blocks for data on the descriptor and
/// returns the bytes that arrived, at most `max` of them.
#[verifier::external_body]
fn sys_read(fd: i32, max: usize) -> (r: Result<Vec<u8>, i32>)
    ensures
        r matches Ok(v) ==> v@.len() <= max,
{
    let mut buf = vec![0u8; max];
    match nix::unistd::read(fd, &mut buf) {
        Ok(n) => {
            buf.truncate(n);
            Ok(buf)
        },
        Err(e) => Err(e as i32),
    }
}

/// Relies on nix::unistd::close.
#[verifier::external_body]
fn sys_close(fd: i32) -> (r: Result<(), i32>) {
    match nix::unistd::close(fd) {
        Ok(()) => Ok(()),
        Err(e) => Err(e as i32),
    }
}

/// What one write attempt decides: accepted bytes are progress, a write that
/// accepted none is the channel's own failure — it would never progress —
/// and a failed write surfaces as its errno.
pub fn write_step(res: Result<usize, i32>) -> (r: Result<usize, Cause>)
    ensures
        r is Ok <==> (res matches Ok(n) && n > 0),
        r matches Ok(m) ==> res == Result::<usize, i32>::Ok(m) && m > 0,
        res == Result::<usize, i32>::Ok(0usize) ==> (r matches Err(c) && c matches Cause::Text(t)
            && t@ == "pipe accepted no bytes"@),
        res matches Err(e) ==> r == Result::<usize, Cause>::Err(Cause::Os(e)),
{
    match res {
        Result::Ok(written) => {
            if written == 0 {
                Err(Cause::Text("pipe accepted no bytes".to_owned()))
            } else {
                Ok(written)
            }
        },
        Result::Err(e) => Err(Cause::Os(e)),
    }
}

/// A unidirectional byte pipe; both ends are inherited across a clone, which
/// is what lets the parent release the child.
pub struct Pipe {
    read_fd: i32,
    write_fd: i32,
}

impl Pipe {
    /// Allocates the channel.
    pub fn new() -> (r: Result<Pipe, i32>) {
        match sys_pipe() {
            Ok((read_fd, write_fd)) => Ok(Pipe { read_fd, write_fd }),
            Err(e) => Err(e),
        }
    }

    /// Writes the decimal rendering of `pid` into the channel, the one
    /// message it ever carries. A short write is continued; a write that was
    /// interrupted or accepted nothing surfaces as an error, decided by
    /// `write_step` for every outcome of the underlying write.
    pub fn send_pid(&mut self, pid: i32) -> (r: Result<(), Cause>)
        requires
            pid >= 0,
        ensures
            r is Err ==> (r->Err_0 matches Cause::Os(_) || (r->Err_0 matches Cause::Text(t) && t@
                == "pipe accepted no bytes"@)),
    {
        let msg = dec_bytes(pid as u64);
        let n = msg.len();
        let mut off: usize = 0;
        while off < n
            invariant
                0 <= off <= n,
                n == msg@.len(),
            decreases n - off,
        {
            match write_step(sys_write(self.write_fd, msg.as_slice(), off)) {
                Result::Ok(written) => {
                    proof {
                        assert(off + written <= n);
                    }
                    off += written;
                },
                Result::Err(c) => {
                    return Err(c);
                },
            }
        }
        Ok(())
    }

    /// Block-reads the handshake message and parses the process id from it.
    /// The value is producer-controlled, so bytes that do not parse are a
    /// broken handshake, reported in words; a failed read surfaces as its
    /// errno. A parsed id is never negative: the codec carries no sign.
    pub fn read_number(&mut self) -> (r: Result<i64, Cause>)
        ensures
            r is Ok ==> r->Ok_0 >= 0,
    {
        match sys_read(self.read_fd, 20) {
            Ok(bytes) => {
                match parse_number(bytes.as_slice()) {
                    Option::Some(v) => {
                        proof {
                            let t = crate::dec::trimmed(bytes@);
                            assert(crate::dec::digits_val(t) >= 0);
                        }
                        Ok(v)
                    },
                    Option::None => Err(Cause::Text("handshake did not hold a number".to_owned())),
                }
            },
            Err(e) => Err(Cause::Os(e)),
        }
    }

    /// Releases both ends; a close failure at teardown is deliberately
    /// ignored, as nothing can be done with it.
    pub fn close(self) {
        let _ = sys_close(self.read_fd);
        let _ = sys_close(self.write_fd);
    }
}

} // verus!
