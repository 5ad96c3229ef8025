use conpty::error::Error;
use conpty::io::{needs_peek, read_gate};

#[test]
fn blocking_reader_always_reads() {
    assert!(read_gate(true, 0).is_ok());
    assert!(read_gate(true, 17).is_ok());
}

#[test]
fn non_blocking_reader_on_empty_pipe_would_block() {
    assert!(matches!(read_gate(false, 0), Err(Error::WouldBlock)));
}

#[test]
fn non_blocking_reader_reads_available_bytes() {
    assert!(read_gate(false, 1).is_ok());
    assert!(read_gate(false, u32::MAX).is_ok());
}

#[test]
fn sibling_reader_mode_does_not_matter() {
    // Two readers of one pipe holding data: one put in non-blocking mode,
    // the other left blocking; neither is refused.
    let available = 128;
    assert!(read_gate(false, available).is_ok());
    assert!(read_gate(true, available).is_ok());
}

#[test]
fn only_non_blocking_readers_peek() {
    assert!(needs_peek(false));
    assert!(!needs_peek(true));
}
