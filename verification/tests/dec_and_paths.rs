use aucont::dec::{dec_bytes, dec_string, parse_number};
use aucont::paths::{
    container_dir, container_dir_suf, container_info_dir, container_info_file, container_root_fs,
    CONTAINERS_DIR,
};
use aucont::pipe::Pipe;

#[test]
fn dec_renders_zero_and_large_numbers() {
    assert_eq!(dec_string(0), "0");
    assert_eq!(dec_string(7), "7");
    assert_eq!(dec_string(10), "10");
    assert_eq!(dec_string(12345), "12345");
    assert_eq!(dec_string(u64::MAX), "18446744073709551615");
}

#[test]
fn dec_bytes_matches_dec_string() {
    assert_eq!(dec_bytes(0), b"0".to_vec());
    assert_eq!(dec_bytes(90807), b"90807".to_vec());
}

#[test]
fn parse_accepts_trimmed_digits() {
    assert_eq!(parse_number(b"123"), Some(123));
    assert_eq!(parse_number(b"  42\n"), Some(42));
    assert_eq!(parse_number(b"\t0\r\n"), Some(0));
    assert_eq!(parse_number(b"007"), Some(7));
}

#[test]
fn parse_rejects_what_is_not_a_number() {
    assert_eq!(parse_number(b""), None);
    assert_eq!(parse_number(b"   "), None);
    assert_eq!(parse_number(b"12a"), None);
    assert_eq!(parse_number(b"-5"), None);
    assert_eq!(parse_number(b"1 2"), None);
    // one past the largest signed 64-bit value
    assert_eq!(parse_number(b"9223372036854775808"), None);
    assert_eq!(parse_number(b"9223372036854775807"), Some(i64::MAX));
}

#[test]
fn container_paths_are_keyed_by_pid() {
    assert_eq!(CONTAINERS_DIR, "/tmp/aucont/containers");
    assert_eq!(container_dir(17), "/tmp/aucont/containers/17");
    assert_eq!(container_dir_suf(17, "/x"), "/tmp/aucont/containers/17/x");
    assert_eq!(container_info_dir(17), "/tmp/aucont/containers/17/info");
    assert_eq!(
        container_info_file(17, "stdin"),
        "/tmp/aucont/containers/17/info/stdin"
    );
    assert_eq!(container_root_fs(17), "/tmp/aucont/containers/17/rootfs");
    assert_ne!(container_dir(17), container_dir(171));
}

#[test]
fn pipe_carries_the_pid_handshake() {
    let mut pipe = Pipe::new().expect("pipe");
    pipe.send_pid(424_242).expect("send");
    let got = pipe.read_number().expect("read");
    assert_eq!(got, 424_242);
    pipe.close();
}

#[test]
fn pipe_handshake_round_trips_zero() {
    let mut pipe = Pipe::new().expect("pipe");
    pipe.send_pid(0).expect("send");
    assert_eq!(pipe.read_number().expect("read"), 0);
    pipe.close();
}
