use std::io::{self, BufRead, Read};

use archivindex::lines::{
    LineContext, LineFailure, LineStep, Lines, EXCERPT_CHAR_LIMIT, MAX_LINE_BYTES, MAX_READ_BYTES,
};

/// Why reading a line failed: the location, and the refused line's failure, or `None` when the
/// source itself could not be read.
type Failure = (LineContext, Option<LineFailure>);

/// Read the next non-blank line, with its owned location and content, by reading physical lines
/// from the source until the line source decides.
fn next_content<R: BufRead>(lines: &mut Lines<R>) -> Result<Option<(LineContext, String)>, Failure> {
    loop {
        // A fused source, after a failure or the end of the stream, yields nothing further.
        let Some(mut buffer) = lines.next_buffer() else {
            return Ok(None);
        };
        let read = match lines
            .underlying_mut()
            .by_ref()
            .take(MAX_READ_BYTES as u64)
            .read_until(b'\n', &mut buffer)
        {
            Ok(read) => read,
            Err(_) => return Err((lines.on_read_failure(), None)),
        };
        match lines.on_read(buffer, read) {
            LineStep::End => return Ok(None),
            LineStep::Skip => {}
            LineStep::Content => {
                let (location, content) = lines.content();
                return Ok(Some((location.into_owned(), content.to_owned())));
            }
            LineStep::Fail(context, failure) => return Err((context, Some(failure))),
        }
    }
}

struct FailingReader;

impl Read for FailingReader {
    fn read(&mut self, _buffer: &mut [u8]) -> io::Result<usize> {
        Err(io::Error::other("failed"))
    }
}

impl BufRead for FailingReader {
    fn fill_buf(&mut self) -> io::Result<&[u8]> {
        Err(io::Error::other("failed"))
    }

    fn consume(&mut self, _amount: usize) {}
}

fn source<'a>(input: &'a [u8], name: &str) -> Lines<&'a [u8]> {
    Lines::with_source(input, name.to_owned())
}

#[test]
fn next_content_skips_blanks_and_counts_lines() {
    let mut lines = source(b"first\r\n\n \nsecond", "test");

    let (location, line_text) = next_content(&mut lines).unwrap().expect("first line");
    assert_eq!((location.line, line_text.as_str()), (1, "first"));
    // The blank second line is skipped but counted; the third holds a space.
    let (location, line_text) = next_content(&mut lines).unwrap().expect("third line");
    assert_eq!((location.line, line_text.as_str()), (3, " "));
    let (location, line_text) = next_content(&mut lines).unwrap().expect("fourth line");
    assert_eq!((location.line, line_text.as_str()), (4, "second"));
    assert!(next_content(&mut lines).unwrap().is_none());
}

#[test]
fn blank_lines_are_rejected_when_the_source_is_strict() {
    let mut lines = source(b"first\n\nsecond\n", "test").rejecting_blank_lines();

    let (location, line_text) = next_content(&mut lines).expect("a line").expect("first line");
    assert_eq!((location.line, line_text.as_str()), (1, "first"));
    let (context, failure) = next_content(&mut lines).expect_err("the blank second line");
    assert_eq!((context.line, failure), (2, Some(LineFailure::Blank)));
    assert!(next_content(&mut lines).expect("fused source").is_none());
}

/// A file that simply ends with a line ending has no blank line to reject.
#[test]
fn a_trailing_line_ending_is_not_a_blank_line() {
    let mut lines = source(b"only\r\n", "test").rejecting_blank_lines();

    assert_eq!(
        next_content(&mut lines).unwrap().map(|(_, text)| text),
        Some("only".to_owned())
    );
    assert!(next_content(&mut lines).unwrap().is_none());
}

#[test]
fn over_long_and_invalid_lines_are_rejected() {
    let mut input = vec![b'a'; MAX_LINE_BYTES];
    input.extend_from_slice(b"\r\n");
    input.extend_from_slice(&vec![b'b'; MAX_LINE_BYTES + 1]);
    input.push(b'\n');
    let mut lines = source(&input, "long.jsonl");

    let (location, line_text) = next_content(&mut lines)
        .expect("a line at the limit")
        .expect("l");
    assert_eq!((location.line, line_text.len()), (1, MAX_LINE_BYTES));
    let (context, failure) = next_content(&mut lines).expect_err("one byte over the limit");
    assert_eq!((context.line, failure), (2, Some(LineFailure::TooLong)));
    assert!(next_content(&mut lines).expect("fused source").is_none());

    let mut lines = source(b"\xff\n", "bad.jsonl");
    let (_, failure) = next_content(&mut lines).expect_err("invalid UTF-8");
    assert_eq!(failure, Some(LineFailure::InvalidUtf8));
}

#[test]
fn limit_sized_crlf_line_does_not_leave_a_blank_line() {
    let mut input = vec![b'a'; MAX_LINE_BYTES];
    input.extend_from_slice(b"\r\nnext\n");
    let mut lines = source(&input, "limit.jsonl").rejecting_blank_lines();

    let (location, content) = next_content(&mut lines).unwrap().expect("line at the limit");
    assert_eq!((location.line, content.len()), (1, MAX_LINE_BYTES));
    let (location, content) = next_content(&mut lines).unwrap().expect("following line");
    assert_eq!((location.line, content.as_str()), (2, "next"));
    assert!(next_content(&mut lines).unwrap().is_none());
}

#[test]
fn carriage_returns_at_the_limit_cannot_split_a_physical_line() {
    let mut input = vec![b'a'; MAX_LINE_BYTES];
    input.extend_from_slice(b"\r\rmore\n");
    let mut lines = source(&input, "long.jsonl");

    let (context, failure) = next_content(&mut lines).expect_err("overlong physical line");
    assert_eq!(context.line, 1);
    assert_eq!(failure, Some(LineFailure::TooLong));
    assert!(next_content(&mut lines).expect("fused source").is_none());
}

#[test]
fn an_io_failure_fuses_the_line_source() {
    let mut lines = Lines::with_source(FailingReader, "broken.cdxj".to_owned());

    let (context, failure) = next_content(&mut lines).expect_err("the first read fails");
    assert_eq!(context.source, "broken.cdxj");
    assert_eq!(context.line, 1);
    assert_eq!(context.excerpt, None);
    assert_eq!(failure, None);
    assert!(next_content(&mut lines).expect("fused source").is_none());
}

#[test]
fn owned_context_survives_later_reads() {
    let input = format!("{}\nnext\n", "日".repeat(EXCERPT_CHAR_LIMIT + 1));
    let mut lines = source(input.as_bytes(), "unicode.jsonl");
    let (context, _) = next_content(&mut lines).unwrap().expect("first line");
    assert_eq!(
        next_content(&mut lines).unwrap().map(|(_, text)| text),
        Some("next".to_owned())
    );
    drop(lines);
    assert_eq!(context.source, "unicode.jsonl");
    assert_eq!(context.line, 1);
    assert_eq!(
        context.excerpt,
        Some(format!("{}…", "日".repeat(EXCERPT_CHAR_LIMIT)))
    );
}

/// Every non-blank line is returned once, in order, under its own line number, and each
/// carries an excerpt bounded by a character count rather than a byte count.
#[test]
fn content_lines_are_returned_with_their_numbers() {
    let long = "é".repeat(EXCERPT_CHAR_LIMIT + 5);
    let text = format!("a\r\n\n{long}\n\t\"\n日\u{1f600}");
    let mut lines = source(text.as_bytes(), "test.jsonl");
    let mut read = Vec::new();
    while let Some((context, content)) = next_content(&mut lines).unwrap() {
        let excerpt = context.excerpt.clone().expect("content has an excerpt");
        if let Some(prefix) = excerpt.strip_suffix('\u{2026}') {
            assert_eq!(prefix.chars().count(), EXCERPT_CHAR_LIMIT);
            assert!(content.starts_with(prefix));
            assert!(content.chars().count() > EXCERPT_CHAR_LIMIT);
        } else {
            assert_eq!(excerpt, content);
        }
        assert_eq!(context.source, "test.jsonl");
        read.push((context.line, content));
    }

    assert_eq!(
        read,
        vec![
            (1, "a".to_owned()),
            (3, long),
            (4, "\t\"".to_owned()),
            (5, "日\u{1f600}".to_owned()),
        ]
    );
}

#[test]
fn a_context_is_displayed_with_its_excerpt() {
    let mut lines = source(b"x\n", "file.cdxj");
    let (context, _) = next_content(&mut lines).unwrap().expect("a line");

    assert_eq!(context.to_string(), "file.cdxj:1: x");

    let mut broken = Lines::with_source(FailingReader, "broken".to_owned());
    let (context, _) = next_content(&mut broken).expect_err("a failed read");
    assert_eq!(context.to_string(), "broken:1");
}

#[test]
fn the_end_of_the_stream_fuses_the_source() {
    let mut lines = source(b"", "empty");

    assert!(next_content(&mut lines).unwrap().is_none());
    assert!(lines.is_fused());
    assert_eq!(lines.line_number(), 0);
}

#[test]
fn a_fused_source_hands_out_no_buffer() {
    let mut lines = Lines::with_source(FailingReader, "broken".to_owned());
    assert!(next_content(&mut lines).is_err());

    assert!(lines.next_buffer().is_none());
    assert!(lines.is_fused());
    assert_eq!(lines.line_number(), 0);
}

#[test]
fn a_refused_line_can_still_be_described() {
    let mut lines = source(b"ok\n\xff\xfe\r\n", "bad.jsonl");
    assert!(next_content(&mut lines).unwrap().is_some());

    let (context, failure) = next_content(&mut lines).expect_err("invalid UTF-8");
    assert_eq!((context.line, failure), (2, Some(LineFailure::InvalidUtf8)));
    assert_eq!(lines.line_bytes(), b"\xff\xfe");
    assert!(std::str::from_utf8(lines.line_bytes()).is_err());
}
