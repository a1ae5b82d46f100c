use aucont::container::{clear_plan, downgrade_no_children, suppress_esrch, Container};
use aucont::process::{getpid, RawProcess, ECHILD, EINTR, ESRCH, SIGCHLD};
use aucont::result::{Cause, CommentError, Error};

// a pid at the upper end of the default pid space, which no process in this
// environment occupies
const GONE_PID: i32 = 4_194_303;

#[test]
fn errno_constants_match_the_platform() {
    assert_eq!(ESRCH, libc::ESRCH);
    assert_eq!(ECHILD, libc::ECHILD);
    assert_eq!(EINTR, libc::EINTR);
    assert_eq!(SIGCHLD as i32, libc::SIGCHLD);
}

#[test]
fn no_such_process_is_suppressed() {
    assert_eq!(suppress_esrch(Ok(())), Ok(()));
    assert_eq!(suppress_esrch(Err(ESRCH)), Ok(()));
    assert_eq!(suppress_esrch(Err(1)), Err(1));
}

#[test]
fn no_children_reads_as_exit_zero() {
    assert_eq!(downgrade_no_children(Ok(7)), Ok(7));
    assert_eq!(downgrade_no_children(Err(ECHILD)), Ok(0));
    assert_eq!(downgrade_no_children(Err(EINTR)), Err(EINTR));
}

#[test]
fn cancel_of_a_live_process_succeeds() {
    // signal 0 only checks reachability; the target is this very process
    let container = Container::new(RawProcess::from_pid(getpid()), false);
    assert!(container.cancel(0).is_ok());
}

#[test]
fn cancel_of_an_exited_container_is_not_an_error() {
    let container = Container::new(RawProcess::from_pid(GONE_PID), true);
    assert!(container.cancel(15).is_ok());
    assert!(container.cancel(0).is_ok());
}

#[test]
fn wait_on_a_consumed_exit_record_reads_as_zero() {
    // process 1 exists but is no child of this process, so the wait reports
    // `no children`, which the handle downgrades to a clean exit
    let container = Container::new(RawProcess::from_pid(1), false);
    assert_eq!(container.wait().expect("downgraded"), 0);
}

#[test]
fn handle_reports_id_and_daemon_flag() {
    let container = Container::new(RawProcess::from_pid(4321), true);
    assert_eq!(container.get_id(), 4321);
    assert!(container.is_daemon());
}

#[test]
fn connect_to_an_exited_container_succeeds() {
    // the trace-attach hits `no such process`, which connect suppresses
    let container = Container::connect(GONE_PID, b"1\n").expect("connected");
    assert_eq!(container.get_id(), GONE_PID);
    assert!(container.is_daemon());

    let container = Container::connect(GONE_PID, b"0\n").expect("connected");
    assert!(!container.is_daemon());
}

#[test]
fn connect_rejects_a_broken_daemon_record() {
    let r = Container::connect(GONE_PID, b"not a number");
    assert!(r.is_err());
    assert_eq!(r.unwrap_err().message(), "Parsing daemon file");
}

#[test]
fn clear_plan_names_cgroup_and_directory() {
    let (cmd, dir) = clear_plan(&vec!["/u/cg".to_string()], 44);
    assert_eq!(cmd, vec!["sudo", "/u/cg", "44", "delete"]);
    assert_eq!(dir, "/tmp/aucont/containers/44");
}

#[test]
fn error_messages_carry_comment_and_cause() {
    assert_eq!(Error::simple("stage failed").message(), "stage failed");
    let e = Error::new("stage".to_string(), Cause::Text("why".to_string()));
    assert_eq!(e.message(), "stage: why");
    let e = Error::new("stage".to_string(), Cause::Os(3));
    assert_eq!(e.message(), "stage: os error 3");
}

#[test]
fn comment_error_wraps_the_failure_only() {
    let ok: Result<u8, i32> = Ok(3);
    assert_eq!(ok.comment_error("stage").expect("kept"), 3);
    let err: Result<u8, i32> = Err(5);
    let e = err.comment_error("stage").unwrap_err();
    assert_eq!(e.message(), "stage: os error 5");
    let err: Result<u8, Cause> = Err(Cause::Text("cause".to_string()));
    let e = err.comment_error("stage").unwrap_err();
    assert_eq!(e.message(), "stage: cause");
}
