//! The process handle: clone-with-namespaces classification, signal
//! delivery, blocking wait, trace-attach, namespace paths, and the writes
//! that install a uid/gid mapping.

use vstd::prelude::*;
use crate::dec::{dec_chars, dec_string};
use crate::idmap::{map_file_chars, IdMapFactory};
use crate::action::FileWrite;
use nix::sys::wait::WaitStatus;

verus! {

/// `no such process`.
pub const ESRCH: i32 = 3;

/// `no child processes`.
pub const ECHILD: i32 = 10;

/// `interrupted system call`.
pub const EINTR: i32 = 4;

/// Deliver the child-exited signal on termination.
pub const SIGCHLD: i32 = 17;

/// New mount namespace.
pub const CLONE_NEWNS: i32 = 0x20000;

/// New cgroup namespace.
pub const CLONE_NEWCGROUP: i32 = 0x2000000;

/// New UTS (hostname) namespace.
pub const CLONE_NEWUTS: i32 = 0x4000000;

/// New IPC namespace.
pub const CLONE_NEWIPC: i32 = 0x8000000;

/// New user namespace.
pub const CLONE_NEWUSER: i32 = 0x10000000;

/// New pid namespace.
pub const CLONE_NEWPID: i32 = 0x20000000;

/// New network namespace.
pub const CLONE_NEWNET: i32 = 0x40000000;

/// The namespace set a container is cloned with: mount, user, UTS, IPC, pid
/// and network. The cgroup namespace is deliberately absent: the init
/// sequence unshares it later, once the new cgroup root exists.
pub const CONTAINER_CLONE_FLAGS: i32 = SIGCHLD | CLONE_NEWNS | CLONE_NEWUSER | CLONE_NEWUTS
    | CLONE_NEWIPC | CLONE_NEWPID | CLONE_NEWNET;

/// What a clone returns: in the parent, a handle on the new process; in the
/// child, the indication that this is the new process itself.
pub enum CloneOutcome {
    Parent(RawProcess),
    Child,
}

/// Classifies the raw return value of the clone primitive. Exactly one of
/// three things holds: zero is the child branch, a positive id is the parent
/// branch holding the new process's handle, and a negative value is the
/// kernel's failure, surfaced as the errno the host read.
pub fn classify_clone(ret: i64, err: i32) -> (r: Result<CloneOutcome, i32>)
    requires
        ret <= i32::MAX,
    ensures
        ret == 0 <==> r matches Ok(CloneOutcome::Child),
        ret > 0 <==> (r matches Ok(CloneOutcome::Parent(p)) && p.id() == ret),
        ret < 0 <==> r == Result::<CloneOutcome, i32>::Err(err),
{
    if ret == 0 {
        Ok(CloneOutcome::Child)
    } else if ret > 0 {
        Ok(CloneOutcome::Parent(RawProcess::from_pid(ret as i32)))
    } else {
        Err(err)
    }
}

/// The clone primitive's report resolves to exactly one branch: a parent
/// handle, the child indication, or a failure — never two of them, never
/// none.
pub proof fn lemma_clone_branches_exclusive(ret: i64, err: i32, r: Result<CloneOutcome, i32>)
    requires
        ret <= i32::MAX,
        ret == 0 <==> r matches Ok(CloneOutcome::Child),
        ret > 0 <==> (r matches Ok(CloneOutcome::Parent(p)) && p.id() == ret),
        ret < 0 <==> r is Err,
    ensures
        (r matches Ok(CloneOutcome::Child)) ==> !(r matches Ok(CloneOutcome::Parent(p))) && !(r
            is Err),
        (r matches Ok(CloneOutcome::Parent(p))) ==> !(r matches Ok(CloneOutcome::Child)) && !(r
            is Err),
        (r matches Ok(CloneOutcome::Child)) || (r matches Ok(CloneOutcome::Parent(p))) || r is Err,
{
}

/// What a blocking wait reported of the process.
pub enum WaitOutcome {
    /// The process exited with this code.
    Exited(i32),
    /// The process was terminated by this signal.
    Signaled(i32),
    /// The process stopped under a signal.
    Stopped,
    /// A tracing stop was reported.
    PtraceEvent,
    /// A syscall tracing stop was reported.
    PtraceSyscall,
    /// The process resumed.
    Continued,
    /// Nothing changed state.
    StillAlive,
}

/// The exit code a wait report reduces to: the exit code itself for a
/// process that exited on its own, and zero for every other report — the
/// same reduction the kernel's raw status arithmetic gives for a signaled
/// child.
pub open spec fn spec_exit_code(w: WaitOutcome) -> int {
    match w {
        WaitOutcome::Exited(c) => c as int,
        _ => 0,
    }
}

/// Reduces a wait report to the exit code the caller receives.
pub fn exit_code(w: &WaitOutcome) -> (r: i32)
    ensures
        r == spec_exit_code(*w),
        w matches WaitOutcome::Exited(c) ==> r == c,
        !(w matches WaitOutcome::Exited(c)) ==> r == 0,
{
    match w {
        WaitOutcome::Exited(c) => *c,
        _ => 0,
    }
}

/// Relies on nix::sys::signal::kill: delivers `signum` to process `pid` (a
/// zero `signum` only checks that the process exists; a number outside the
/// named signal set is reported as an error, not delivered) and reports the
/// errno on failure.
#[verifier::external_body]
fn sys_kill(pid: i32, signum: i32) -> (r: Result<(), i32>) {
    let sig = if signum == 0 {
        None
    } else {
        match nix::sys::signal::Signal::try_from(signum) {
            Ok(s) => Some(s),
            Err(e) => return Err(e as i32),
        }
    };
    match nix::sys::signal::kill(nix::unistd::Pid::from_raw(pid), sig) {
        Ok(()) => Ok(()),
        Err(e) => Err(e as i32),
    }
}

/// Relies on nix::sys::wait::waitpid with no flags: blocks until the process
/// changes state and reports what happened; an exit code always lies in
/// 0..=255, as it is read from the low byte of the raw status.
#[verifier::external_body]
fn sys_waitpid(pid: i32) -> (r: Result<WaitOutcome, i32>)
    ensures
        r matches Ok(WaitOutcome::Exited(c)) ==> 0 <= c <= 255,
{
    match nix::sys::wait::waitpid(nix::unistd::Pid::from_raw(pid), None) {
        Ok(WaitStatus::Exited(_, code)) => Ok(WaitOutcome::Exited(code)),
        Ok(WaitStatus::Signaled(_, sig, _)) => Ok(WaitOutcome::Signaled(sig as i32)),
        Ok(WaitStatus::Stopped(_, _)) => Ok(WaitOutcome::Stopped),
        Ok(WaitStatus::PtraceEvent(_, _, _)) => Ok(WaitOutcome::PtraceEvent),
        Ok(WaitStatus::PtraceSyscall(_)) => Ok(WaitOutcome::PtraceSyscall),
        Ok(WaitStatus::Continued(_)) => Ok(WaitOutcome::Continued),
        Ok(WaitStatus::StillAlive) => Ok(WaitOutcome::StillAlive),
        Err(e) => Err(e as i32),
    }
}

/// Relies on nix::sys::ptrace::seize with no options: attaches to the process
/// as a tracer without stopping it and reports the errno on failure.
#[verifier::external_body]
fn sys_ptrace_seize(pid: i32) -> (r: Result<(), i32>) {
    match nix::sys::ptrace::seize(nix::unistd::Pid::from_raw(pid), nix::sys::ptrace::Options::empty())
    {
        Ok(()) => Ok(()),
        Err(e) => Err(e as i32),
    }
}

/// Relies on nix::unistd::getuid: the real user id of the calling process.
#[verifier::external_body]
pub fn host_uid() -> (r: u32) {
    nix::unistd::getuid().as_raw()
}

/// Relies on nix::unistd::getgid: the real group id of the calling process.
#[verifier::external_body]
pub fn host_gid() -> (r: u32) {
    nix::unistd::getgid().as_raw()
}

/// Relies on nix::unistd::getpid: the id of the calling process; process ids
/// are nonnegative.
#[verifier::external_body]
pub fn getpid() -> (r: i32)
    ensures
        r >= 0,
{
    nix::unistd::getpid().as_raw()
}

/// A handle on a kernel process, wrapping its host-visible id.
#[derive(Debug)]
pub struct RawProcess {
    pid: i32,
}

impl RawProcess {
    /// The host-visible process id this handle wraps.
    pub closed spec fn id(&self) -> int {
        self.pid as int
    }

    #[verifier::type_invariant]
    spec fn wf(&self) -> bool {
        self.pid >= 0
    }

    /// Wraps an already known process id.
    pub fn from_pid(pid: i32) -> (r: RawProcess)
        requires
            pid >= 0,
        ensures
            r.id() == pid,
    {
        RawProcess { pid }
    }

    /// The wrapped process id.
    pub fn get_pid(&self) -> (r: i32)
        ensures
            r == self.id(),
            r >= 0,
    {
        proof {
            use_type_invariant(self);
        }
        self.pid
    }

    /// Delivers `signum` to the process; any failure surfaces as the errno.
    pub fn signal(&self, signum: i32) -> (r: Result<(), i32>) {
        sys_kill(self.get_pid(), signum)
    }

    /// Attaches to the process as a tracer, only to establish that it is real
    /// and reachable; any failure surfaces as the errno.
    pub fn ptrace(&self) -> (r: Result<(), i32>) {
        sys_ptrace_seize(self.get_pid())
    }

    /// Blocks until the process exits and reduces the report to its exit
    /// code, by `exit_code` exactly; consumes the handle.
    pub fn wait(self) -> (r: Result<i32, i32>)
        ensures
            r is Ok ==> 0 <= r->Ok_0 <= 255,
    {
        match sys_waitpid(self.get_pid()) {
            Ok(w) => Ok(exit_code(&w)),
            Err(e) => Err(e),
        }
    }

    /// The path of one of the process's namespace files.
    pub fn ns_path(&self, ns_name: &str) -> (r: String)
        ensures
            r@ == "/proc/"@ + dec_chars(self.id() as nat) + "/ns/"@ + ns_name@,
    {
        let r = "/proc/".to_owned().concat(dec_string(self.get_pid() as u64).as_str()).concat(
            "/ns/",
        ).concat(ns_name);
        proof {
            use_type_invariant(self);
            assert(r@ =~= "/proc/"@ + dec_chars(self.id() as nat) + "/ns/"@ + ns_name@);
        }
        r
    }

    /// The write that installs a uid mapping into the process's user
    /// namespace; an empty map asks for nothing.
    pub fn uid_map(&self, map: IdMapFactory) -> (r: Option<FileWrite>)
        ensures
            map@.len() == 0 <==> r is None,
            r matches Some(w) ==> w.path@ == "/proc/"@ + dec_chars(self.id() as nat) + "/uid_map"@
                && w.content@ == map_file_chars(map@),
    {
        proof {
            use_type_invariant(self);
        }
        let path = "/proc/".to_owned().concat(dec_string(self.get_pid() as u64).as_str()).concat(
            "/uid_map",
        );
        proof {
            assert(path@ =~= "/proc/"@ + dec_chars(self.id() as nat) + "/uid_map"@);
        }
        match map.render() {
            Option::Some(content) => Some(FileWrite::new(path, content)),
            Option::None => None,
        }
    }

    /// The writes that install a gid mapping: first the marker that denies
    /// further group changes — without it the kernel rejects a non-trivial
    /// mapping — then the map itself, which an empty map omits.
    pub fn gid_map(&self, map: IdMapFactory) -> (r: Vec<FileWrite>)
        ensures
            r@.len() >= 1,
            r@[0].path@ == "/proc/"@ + dec_chars(self.id() as nat) + "/setgroups"@,
            r@[0].content@ == "deny"@,
            map@.len() == 0 <==> r@.len() == 1,
            map@.len() > 0 ==> r@.len() == 2 && r@[1].path@ == "/proc/"@ + dec_chars(
                self.id() as nat,
            ) + "/gid_map"@ && r@[1].content@ == map_file_chars(map@),
    {
        proof {
            use_type_invariant(self);
        }
        let pid_str = dec_string(self.get_pid() as u64);
        let deny_path = "/proc/".to_owned().concat(pid_str.as_str()).concat("/setgroups");
        let map_path = "/proc/".to_owned().concat(pid_str.as_str()).concat("/gid_map");
        proof {
            assert(deny_path@ =~= "/proc/"@ + dec_chars(self.id() as nat) + "/setgroups"@);
            assert(map_path@ =~= "/proc/"@ + dec_chars(self.id() as nat) + "/gid_map"@);
        }
        let mut r: Vec<FileWrite> = Vec::new();
        r.push(FileWrite::new(deny_path, "deny".to_owned()));
        match map.render() {
            Option::Some(content) => {
                r.push(FileWrite::new(map_path, content));
            },
            Option::None => {},
        }
        r
    }
}

} // verus!
