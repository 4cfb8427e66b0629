use iroh_transport::stream::{StreamCore, StreamError, StreamErrorKind};

#[test]
fn fresh_stream_allows_both_halves() {
    let s = StreamCore::new();
    assert!(s.send_gate().is_ok());
    assert!(s.recv_gate().is_ok());
}

#[test]
fn close_then_write_is_broken_pipe_while_reading_continues() {
    let mut s = StreamCore::new();
    let finish_now = s.close_send();
    assert!(finish_now);

    let write_err = s.send_gate().unwrap_err();
    assert!(matches!(write_err.kind, StreamErrorKind::Write(m) if m == "stream sender closed"));

    // The receive half is untouched: reading continues to be allowed.
    assert!(s.recv_gate().is_ok());
}

#[test]
fn close_is_idempotent() {
    let mut s = StreamCore::new();
    assert!(s.close_send());
    // A second close is a no-op and must not finish the half again.
    assert!(!s.close_send());
    assert!(!s.close_send());
    assert!(s.recv_gate().is_ok());
}

#[test]
fn stream_error_constructors_carry_kind_and_message() {
    let e = StreamError::read("r".to_string());
    assert!(matches!(&e.kind, StreamErrorKind::Read(m) if m.as_str() == "r"));
    assert_eq!(e.message(), "r");

    let e = StreamError::write("w".to_string());
    assert!(matches!(&e.kind, StreamErrorKind::Write(m) if m.as_str() == "w"));
    assert_eq!(e.message(), "w");

    let e = StreamError::connection("c".to_string());
    assert!(matches!(&e.kind, StreamErrorKind::Connection(m) if m.as_str() == "c"));
    assert_eq!(e.message(), "c");
}
