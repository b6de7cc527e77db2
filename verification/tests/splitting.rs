use bytelines::from_std;
use bytelines::handle_line;
use bytelines::ByteLinesReader;
use bytelines::MemSource;
use bytelines::ReadError;

fn views_of(data: &[u8]) -> Vec<Vec<u8>> {
    let mut lines = from_std(MemSource::new(data.to_vec()));
    let mut views = Vec::new();
    while let Some(step) = lines.next() {
        step.unwrap();
        views.push(lines.line().to_vec());
    }
    views
}

#[test]
fn trailing_newline_excluded() {
    assert_eq!(views_of(b"abc\n"), vec![b"abc".to_vec()]);
}

#[test]
fn trailing_carriage_return_newline_excluded() {
    assert_eq!(views_of(b"abc\r\n"), vec![b"abc".to_vec()]);
}

#[test]
fn lone_carriage_return_preserved() {
    assert_eq!(views_of(b"abc\r"), vec![b"abc\r".to_vec()]);
    assert_eq!(views_of(b"a\rb\n"), vec![b"a\rb".to_vec()]);
    assert_eq!(views_of(b"a\r\rb\n"), vec![b"a\r\rb".to_vec()]);
}

#[test]
fn bare_delimiter_pairs_yield_empty_views() {
    assert_eq!(views_of(b"\r\n"), vec![b"".to_vec()]);
    assert_eq!(views_of(b"\r"), vec![b"\r".to_vec()]);
    assert_eq!(
        views_of(b"a\n\r\nb\n"),
        vec![b"a".to_vec(), b"".to_vec(), b"b".to_vec()]
    );
}

#[test]
fn consecutive_delimiters_yield_empty_line() {
    assert_eq!(
        views_of(b"a\n\nb\n"),
        vec![b"a".to_vec(), b"".to_vec(), b"b".to_vec()]
    );
}

#[test]
fn final_line_without_delimiter_yielded_whole() {
    assert_eq!(views_of(b"abc"), vec![b"abc".to_vec()]);
    assert_eq!(
        views_of(b"a\nbc"),
        vec![b"a".to_vec(), b"bc".to_vec()]
    );
}

#[test]
fn numbers_yield_views_in_order() {
    let mut lines = from_std(MemSource::new(b"0\n1\n2\n3\n4\n5\n6\n7\n8\n".to_vec()));
    for i in 0..9 {
        let step = lines.next().expect("a line is owed").unwrap();
        assert_eq!(step, 1);
        assert_eq!(lines.line(), format!("{}", i).as_bytes());
    }
    assert!(lines.next().is_none());
}

#[test]
fn empty_input_is_end_of_stream_at_once() {
    let mut lines = from_std(MemSource::new(Vec::new()));
    assert!(lines.next().is_none());
}

#[test]
fn single_delimiter_yields_one_empty_view() {
    let mut lines = from_std(MemSource::new(b"\n".to_vec()));
    let step = lines.next().expect("one empty line is owed").unwrap();
    assert_eq!(step, 0);
    assert_eq!(lines.line(), b"");
    assert!(lines.next().is_none());
}

#[test]
fn exhaustion_is_idempotent() {
    let mut lines = from_std(MemSource::new(b"a\n".to_vec()));
    assert!(lines.next().is_some());
    for _ in 0..4 {
        assert!(lines.next().is_none());
    }
}

#[test]
fn failure_surfaced_on_its_call_and_retry_works() {
    let mut source = MemSource::new(b"x\ny\n".to_vec());
    source.inject_failure();
    let mut lines = from_std(source);
    let step = lines.next().expect("the failure is an item");
    let failure = step.expect_err("the staged failure is owed");
    assert_eq!(failure.message, "staged failure");
    assert_eq!(lines.line(), b"");
    // the staged failure left the data unread: the retry serves the line
    let step = lines.next().expect("a line is owed").unwrap();
    assert_eq!(step, 1);
    assert_eq!(lines.line(), b"x");
    let step = lines.next().expect("a line is owed").unwrap();
    assert_eq!(step, 1);
    assert_eq!(lines.line(), b"y");
    assert!(lines.next().is_none());
}

#[test]
fn owned_copies_match_borrowed_views() {
    let data = b"0\n1\n2\n3\n4\n5\n6\n7\n8\n9\n";
    let borrowed = views_of(data);
    let mut owned: Vec<Vec<u8>> = Vec::new();
    let mut iter = from_std(MemSource::new(data.to_vec())).into_iter();
    while let Some(item) = iter.next() {
        owned.push(item.unwrap());
    }
    assert_eq!(owned.len(), 10);
    assert_eq!(owned, borrowed);
}

#[test]
fn iterator_ends_after_yielding_a_failure() {
    let mut source = MemSource::new(b"x\n".to_vec());
    source.inject_failure();
    let mut iter = from_std(source).into_iter();
    let step = iter.next().expect("the failure is the terminal item");
    assert!(step.is_err());
    // no further items, although the wrapped splitter itself permits a retry
    assert!(iter.next().is_none());
    assert!(iter.next().is_none());
}

#[test]
fn byte_lines_on_any_source() {
    let mut lines = MemSource::new(b"one\ntwo\n".to_vec()).byte_lines();
    assert_eq!(lines.next().unwrap().unwrap(), 3);
    assert_eq!(lines.line(), b"one");
    assert_eq!(lines.next().unwrap().unwrap(), 3);
    assert_eq!(lines.line(), b"two");
    assert!(lines.next().is_none());
}

#[test]
fn handle_line_classifies_the_read_outcome() {
    let empty: Vec<u8> = Vec::new();
    assert!(handle_line::<u32>(Ok(0), &empty).is_none());

    let buffer = b"ab\r\n".to_vec();
    assert_eq!(handle_line::<u32>(Ok(4), &buffer).unwrap().unwrap(), 2);

    let buffer = b"ab\n".to_vec();
    assert_eq!(handle_line::<u32>(Ok(3), &buffer).unwrap().unwrap(), 2);

    let buffer = b"\n".to_vec();
    assert_eq!(handle_line::<u32>(Ok(1), &buffer).unwrap().unwrap(), 0);

    // a carriage return is stripped only together with a line feed
    let buffer = b"ab\r".to_vec();
    assert_eq!(handle_line::<u32>(Ok(3), &buffer).unwrap().unwrap(), 3);

    let buffer = b"abc".to_vec();
    let failure = handle_line(
        Err::<usize, ReadError>(ReadError { message: "gone".to_string() }),
        &buffer,
    );
    assert_eq!(failure.unwrap().unwrap_err().message, "gone");
}
