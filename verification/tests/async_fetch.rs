use bytelines::from_tokio;
use bytelines::AsyncByteLines;
use bytelines::ReadError;

// The split-phase fetch is driven here exactly as a suspending loop drives
// it, with the read itself played by hand.

#[test]
fn split_phase_fetch_strips_the_delimiter() {
    let mut lines = from_tokio("a suspending reader stands here");
    let mut buf = lines.begin_fetch();
    assert!(buf.is_empty());
    buf.extend_from_slice(b"hi\r\n");
    let step = lines.finish_fetch(Ok(4), buf);
    assert_eq!(step.unwrap().unwrap(), 2);
    assert_eq!(lines.line(), b"hi");
}

#[test]
fn split_phase_fetch_reports_end_of_stream() {
    let mut lines = AsyncByteLines::new(());
    let buf = lines.begin_fetch();
    let step = lines.finish_fetch(Ok(0), buf);
    assert!(step.is_none());
    assert_eq!(lines.line(), b"");
}

#[test]
fn split_phase_fetch_passes_a_failure_through() {
    let mut lines = AsyncByteLines::new(());
    let mut buf = lines.begin_fetch();
    buf.extend_from_slice(b"partial");
    let step = lines.finish_fetch(
        Err(ReadError { message: "interrupted".to_string() }),
        buf,
    );
    let failure = step.unwrap().unwrap_err();
    assert_eq!(failure.message, "interrupted");
    assert_eq!(lines.line(), b"");
}

#[test]
fn split_phase_fetch_clears_the_buffer_between_lines() {
    let mut lines = AsyncByteLines::new(());
    let mut buf = lines.begin_fetch();
    buf.extend_from_slice(b"first line\n");
    assert_eq!(lines.finish_fetch(Ok(11), buf).unwrap().unwrap(), 10);
    assert_eq!(lines.line(), b"first line");
    let mut buf = lines.begin_fetch();
    assert!(buf.is_empty());
    buf.extend_from_slice(b"x\n");
    assert_eq!(lines.finish_fetch(Ok(2), buf).unwrap().unwrap(), 1);
    assert_eq!(lines.line(), b"x");
}

#[test]
fn reader_is_held_for_the_caller() {
    let mut lines = from_tokio(7u32);
    *lines.reader() += 1;
    assert_eq!(*lines.reader(), 8);
}
