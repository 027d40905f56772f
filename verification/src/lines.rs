//! Line-oriented reading with bounded lines and source diagnostics.
//!
//! Archive formats that store one record per line all need the same reader operations: trimming
//! line endings, counting lines, refusing to buffer an unbounded line from a hostile file, and
//! reporting where a failure happened. [`Lines`] holds a line source and decides, for each
//! physical line read from it, whether it is content, a blank line to skip, the end of the
//! stream, or a failure; [`LineContext`] is a reported location.

use vstd::prelude::*;
use vstd::utf8::{decode_utf8, valid_utf8};
use vstd::string::StrSliceExecFns;

use crate::text::{decimal, push_decimal};

verus! {

broadcast use {vstd::seq::group_seq_axioms, vstd::string::group_string_axioms};

/// The longest excerpt [`LineContext`] retains, in characters.
pub const EXCERPT_CHAR_LIMIT: usize = 160;

/// The longest line accepted from a source, excluding its line ending.
///
/// Records can carry extracted full text, so the bound is generous; it exists so that a hostile
/// file cannot make the reader buffer an unbounded line.
pub const MAX_LINE_BYTES: usize = 16777216;

/// The most bytes one physical line read may take from the source: a line at the limit followed
/// by both bytes of CRLF.
pub const MAX_READ_BYTES: usize = 16777218;

/// Whether a byte belongs to a line ending.
pub open spec fn is_line_ending(byte: u8) -> bool {
    byte == 13u8 || byte == 10u8
}

/// The length of a physical line once its trailing carriage returns and line feeds are removed.
pub open spec fn trimmed_len(line: Seq<u8>) -> nat
    decreases line.len(),
{
    if line.len() == 0 {
        0
    } else if is_line_ending(line.last()) {
        trimmed_len(line.drop_last())
    } else {
        line.len()
    }
}

proof fn lemma_trimmed_len_bound(line: Seq<u8>)
    ensures
        trimmed_len(line) <= line.len(),
        trimmed_len(line) < line.len() ==> is_line_ending(line[trimmed_len(line) as int]),
        trimmed_len(line) > 0 ==> !is_line_ending(line[trimmed_len(line) - 1]),
        forall|k: int| trimmed_len(line) <= k < line.len() ==> #[trigger] is_line_ending(line[k]),
    decreases line.len(),
{
    if line.len() > 0 && is_line_ending(line.last()) {
        lemma_trimmed_len_bound(line.drop_last());
        assert forall|k: int| trimmed_len(line) <= k < line.len() implies #[trigger] is_line_ending(line[k]) by {
            if k < line.len() - 1 {
                assert(line[k] == line.drop_last()[k]);
            }
        }
    }
}

/// The excerpt of a line's content that a [`LineContext`] retains: at most
/// [`EXCERPT_CHAR_LIMIT`] characters, followed by an ellipsis when the content is longer.
pub open spec fn excerpt_of(content: Seq<char>) -> Seq<char> {
    if content.len() > EXCERPT_CHAR_LIMIT {
        content.take(EXCERPT_CHAR_LIMIT as int) + seq!['\u{2026}']
    } else {
        content
    }
}

/// Bounded source context for an error on one line.
#[derive(Clone, Debug, Eq, PartialEq)]
pub struct LineContext {
    /// Member path or caller-supplied stream name.
    pub source: String,
    /// One-based line number.
    pub line: usize,
    /// A bounded excerpt, absent when reading failed before content was available.
    pub excerpt: Option<String>,
}

impl LineContext {
    /// The location as it is displayed: `source:line`, followed by `: excerpt` when there is
    /// one.
    pub fn to_string(&self) -> (text: String)
        ensures
            text@ == self.source@ + seq![':'] + decimal(self.line as nat) + match self.excerpt {
                Some(excerpt) => seq![':', ' '] + excerpt@,
                None => Seq::<char>::empty(),
            },
    {
        proof {
            reveal_strlit(":");
            reveal_strlit(": ");
        }
        let mut text = self.source.clone();
        text.append(":");
        push_decimal(self.line as u64, &mut text);
        match &self.excerpt {
            Some(excerpt) => {
                text.append(": ");
                text.append(excerpt.as_str());
            },
            None => {},
        }
        assert(text@ =~= self.source@ + seq![':'] + decimal(self.line as nat) + match self.excerpt {
            Some(excerpt) => seq![':', ' '] + excerpt@,
            None => Seq::<char>::empty(),
        });
        text
    }
}

/// Build the bounded context of a line whose content was read.
fn context(source: &str, line: usize, content: &str) -> (context: LineContext)
    ensures
        context.source@ == source@,
        context.line == line,
        context.excerpt matches Some(excerpt) && excerpt@ == excerpt_of(content@),
{
    proof {
        reveal_strlit("\u{2026}");
        assert("\u{2026}"@ =~= seq!['\u{2026}']);
    }
    let length = content.unicode_len();
    let excerpt = if length > EXCERPT_CHAR_LIMIT {
        let mut excerpt = String::from_str(content.substring_char(0, EXCERPT_CHAR_LIMIT));
        excerpt.append("\u{2026}");
        excerpt
    } else {
        String::from_str(content)
    };
    assert(excerpt@ =~= excerpt_of(content@));
    LineContext { source: String::from_str(source), line, excerpt: Some(excerpt) }
}

/// Borrowed source context for a successfully read line.
///
/// Reading this context does not allocate diagnostic strings. Call [`Self::into_owned`]
/// when retaining a location, for example when parsing the accompanying content fails.
#[derive(Clone, Copy, Debug, Eq, PartialEq)]
pub struct LineContextRef<'a> {
    /// Member path or caller-supplied stream name.
    pub source: &'a str,
    /// One-based line number.
    pub line: usize,
    content: &'a str,
}

impl<'a> LineContextRef<'a> {
    /// The content of the line this context locates.
    pub closed spec fn content_spec(self) -> Seq<char> {
        self.content@
    }

    /// The source name of the located line.
    pub closed spec fn source_name(self) -> Seq<char> {
        self.source@
    }

    /// The one-based number of the located line.
    pub closed spec fn line_spec(self) -> usize {
        self.line
    }

    /// Detach this location from the reader, constructing its bounded excerpt.
    pub fn into_owned(self) -> (context: LineContext)
        ensures
            context.source@ == self.source_name(),
            context.line == self.line_spec(),
            context.excerpt matches Some(excerpt) && excerpt@ == excerpt_of(self.content_spec()),
    {
        context(self.source, self.line, self.content)
    }
}

/// Why a physical line was refused.
#[derive(Clone, Copy, Debug, Eq, PartialEq, Structural)]
pub enum LineFailure {
    /// The line is longer than [`MAX_LINE_BYTES`].
    TooLong,
    /// The line is blank and the source rejects blank lines.
    Blank,
    /// The line is not valid UTF-8.
    InvalidUtf8,
}

/// What the reader makes of one physical line read from the source.
#[derive(Debug)]
pub enum LineStep {
    /// The source is exhausted; nothing further is read.
    End,
    /// A blank line was counted and skipped; the next line should be read.
    Skip,
    /// A line of content was read; [`Lines::content`] returns it.
    Content,
    /// The line is refused, and the source yields nothing further.
    Fail(LineContext, LineFailure),
}

/// A line source that trims line endings, tracks line numbers, and either skips or rejects blank
/// lines.
pub struct Lines<R> {
    underlying: R,
    /// Scratch buffer reused across lines; returned content is only valid until the next read.
    line: Vec<u8>,
    line_number: usize,
    source: String,
    reject_blanks: bool,
    fused: bool,
    content_len: usize,
    /// Every physical line read so far, with the number of bytes its read took.
    reads: Ghost<Seq<(Seq<u8>, nat)>>,
}

/// The failure, if any, of the physical line `line` that a read of `read` bytes took from the
/// source.
pub open spec fn step_kind(line: Seq<u8>, read: nat, reject_blanks: bool) -> Option<LineFailure> {
    let trimmed = trimmed_len(line);
    if trimmed > MAX_LINE_BYTES || (read == MAX_READ_BYTES && !(line.len() > 0 && line.last() == 10u8)) {
        Some(LineFailure::TooLong)
    } else if trimmed == 0 && reject_blanks {
        Some(LineFailure::Blank)
    } else if trimmed > 0 && !valid_utf8(line.take(trimmed as int)) {
        Some(LineFailure::InvalidUtf8)
    } else {
        None
    }
}

/// The content lines that reading the physical lines `reads` (each with the number of bytes its
/// read took) yields one after another, after `number` lines: each non-blank line's content
/// under its own line number, until the stream ends or a line is refused.
pub open spec fn contents_read(reads: Seq<(Seq<u8>, nat)>, rejects_blanks: bool, number: nat) -> Seq<(nat, Seq<u8>)>
    decreases reads.len(),
{
    if reads.len() == 0 || reads[0].1 == 0 {
        Seq::empty()
    } else {
        match step_kind(reads[0].0, reads[0].1, rejects_blanks) {
            Some(_) => Seq::empty(),
            None => {
                let trimmed = trimmed_len(reads[0].0);
                let rest = contents_read(reads.drop_first(), rejects_blanks, number + 1);
                if trimmed == 0 {
                    rest
                } else {
                    seq![(number + 1, reads[0].0.take(trimmed as int))] + rest
                }
            },
        }
    }
}

/// Whether every read of `reads` took bytes and gave a line that is not refused.
pub open spec fn reads_accepted(reads: Seq<(Seq<u8>, nat)>, rejects_blanks: bool) -> bool {
    forall|i: int| 0 <= i < reads.len() ==> #[trigger] reads[i].1 > 0
        && step_kind(reads[i].0, reads[i].1, rejects_blanks) is None
}

/// The content line, if any, that one more read of `read` bytes giving `line` yields as line
/// `number + 1`.
pub open spec fn content_of_read(line: Seq<u8>, read: nat, rejects_blanks: bool, number: nat) -> Seq<(nat, Seq<u8>)> {
    if read == 0 || step_kind(line, read, rejects_blanks) is Some || trimmed_len(line) == 0 {
        Seq::empty()
    } else {
        seq![((number + 1) as nat, line.take(trimmed_len(line) as int))]
    }
}

/// After accepted reads, one more read adds at most its own content line to what was read.
proof fn lemma_contents_read_push(reads: Seq<(Seq<u8>, nat)>, next: (Seq<u8>, nat), rejects_blanks: bool, number: nat)
    requires
        reads_accepted(reads, rejects_blanks),
    ensures
        contents_read(reads.push(next), rejects_blanks, number) == contents_read(reads, rejects_blanks, number)
            + content_of_read(next.0, next.1, rejects_blanks, number + reads.len()),
    decreases reads.len(),
{
    let pushed = reads.push(next);
    if reads.len() == 0 {
        assert(pushed.drop_first() =~= Seq::<(Seq<u8>, nat)>::empty());
        assert(contents_read(pushed.drop_first(), rejects_blanks, number + 1) == Seq::<(nat, Seq<u8>)>::empty());
        assert(contents_read(pushed, rejects_blanks, number) =~= content_of_read(next.0, next.1, rejects_blanks, number));
    } else {
        let rest = reads.drop_first();
        assert(pushed.drop_first() =~= rest.push(next));
        assert(pushed[0] == reads[0]);
        assert(reads[0].1 > 0 && step_kind(reads[0].0, reads[0].1, rejects_blanks) is None);
        assert forall|i: int| 0 <= i < rest.len() implies #[trigger] rest[i].1 > 0
            && step_kind(rest[i].0, rest[i].1, rejects_blanks) is None by {
            assert(rest[i] == reads[i + 1]);
        }
        lemma_contents_read_push(rest, next, rejects_blanks, number + 1);
        assert(contents_read(pushed, rejects_blanks, number) =~= contents_read(reads, rejects_blanks, number)
            + content_of_read(next.0, next.1, rejects_blanks, number + reads.len()));
    }
}

/// A physical line under its line number, with its line ending removed.
pub open spec fn numbered(reads: Seq<(Seq<u8>, nat)>, number: nat) -> Seq<(nat, Seq<u8>)> {
    Seq::new(reads.len(), |i: int| ((number + i + 1) as nat, reads[i].0.take(trimmed_len(reads[i].0) as int)))
}

/// Whether a numbered line has content.
pub open spec fn has_content(line: (nat, Seq<u8>)) -> bool {
    line.1.len() > 0
}

/// Every non-blank line is returned once, in order, under its own line number: when no physical
/// line is refused, the content lines read are the non-blank lines numbered by their position.
pub proof fn lemma_lines_are_returned_with_their_numbers(reads: Seq<(Seq<u8>, nat)>, rejects_blanks: bool, number: nat)
    requires
        forall|i: int| 0 <= i < reads.len() ==> #[trigger] reads[i].1 > 0
            && step_kind(reads[i].0, reads[i].1, rejects_blanks) is None,
    ensures
        contents_read(reads, rejects_blanks, number) == numbered(reads, number).filter(|line: (nat, Seq<u8>)| has_content(line)),
    decreases reads.len(),
{
    let keep = |line: (nat, Seq<u8>)| has_content(line);
    if reads.len() == 0 {
        assert(numbered(reads, number) =~= Seq::empty());
        assert(numbered(reads, number).filter(keep) =~= Seq::empty());
    } else {
        let rest = reads.drop_first();
        assert forall|i: int| 0 <= i < rest.len() implies #[trigger] rest[i].1 > 0
            && step_kind(rest[i].0, rest[i].1, rejects_blanks) is None by {
            assert(rest[i] == reads[i + 1]);
        }
        lemma_lines_are_returned_with_their_numbers(rest, rejects_blanks, number + 1);
        assert(reads[0].1 > 0);
        let first = ((number + 1) as nat, reads[0].0.take(trimmed_len(reads[0].0) as int));
        assert(numbered(reads, number) =~= seq![first] + numbered(rest, number + 1));
        numbered(rest, number + 1).lemma_filter_prepend(first, keep);
        lemma_trimmed_len_bound(reads[0].0);
        if trimmed_len(reads[0].0) == 0 {
            assert(!has_content(first));
        } else {
            assert(has_content(first));
        }
    }
}

/// The length of a physical line once its trailing carriage returns and line feeds are removed.
fn trimmed_length(line: &[u8]) -> (trimmed: usize)
    ensures
        trimmed == trimmed_len(line@),
{
    let n = line.len();
    let mut trimmed = n;
    proof {
        lemma_trimmed_len_bound(line@);
        assert(line@.take(n as int) =~= line@);
    }
    while trimmed > 0 && (line[trimmed - 1] == 13u8 || line[trimmed - 1] == 10u8)
        invariant
            n == line@.len(),
            trimmed <= n,
            trimmed_len(line@) == trimmed_len(line@.take(trimmed as int)),
        decreases trimmed,
    {
        let ghost prefix = line@.take(trimmed as int);
        assert(prefix.drop_last() =~= line@.take(trimmed - 1));
        trimmed = trimmed - 1;
    }
    proof {
        let prefix = line@.take(trimmed as int);
        if trimmed > 0 {
            assert(prefix.last() == line@[trimmed - 1]);
            assert(!is_line_ending(prefix.last()));
        } else {
            assert(prefix =~= Seq::<u8>::empty());
        }
        assert(trimmed_len(prefix) == trimmed);
    }
    trimmed
}

/// The content lines a source has handed out, one per [`LineStep::Content`] of
/// [`Lines::on_read`] (which extends `contents_read` of its reads by exactly that line, and
/// leaves it as it is on a skip), are the non-blank physical lines read so far, in order, each
/// under its own line number.
pub proof fn lemma_contents_so_far<R>(lines: &Lines<R>)
    requires
        lines.consistent(),
        !lines.fused_spec(),
    ensures
        contents_read(lines.reads_spec(), lines.rejects_blanks_spec(), 0) == numbered(lines.reads_spec(), 0).filter(
            |line: (nat, Seq<u8>)| has_content(line),
        ),
{
    lemma_lines_are_returned_with_their_numbers(lines.reads_spec(), lines.rejects_blanks_spec(), 0);
}

/// A UTF-8 text, or `None` when the bytes are not valid UTF-8 (`std::str::from_utf8`).
#[verifier::external_body]
fn utf8_text(bytes: &[u8]) -> (text: Option<&str>)
    ensures
        text is Some <==> valid_utf8(bytes@),
        text matches Some(t) ==> t@ == decode_utf8(bytes@),
{
    std::str::from_utf8(bytes).ok()
}

impl<R> Lines<R> {
    /// The underlying source.
    pub closed spec fn underlying_spec(&self) -> R {
        self.underlying
    }

    /// The number of physical lines read so far.
    pub closed spec fn line_number_spec(&self) -> usize {
        self.line_number
    }

    /// The source name used in diagnostics.
    pub closed spec fn source_spec(&self) -> Seq<char> {
        self.source@
    }

    /// Whether blank lines are refused rather than skipped.
    pub closed spec fn rejects_blanks_spec(&self) -> bool {
        self.reject_blanks
    }

    /// Whether the source yields nothing further.
    pub closed spec fn fused_spec(&self) -> bool {
        self.fused
    }

    /// The bytes of the last physical line read.
    pub closed spec fn line_spec(&self) -> Seq<u8> {
        self.line@
    }

    /// The length of the content of the last line read, without its line ending.
    pub closed spec fn content_len_spec(&self) -> nat {
        self.content_len as nat
    }

    /// Every physical line read so far, with the number of bytes its read took.
    pub closed spec fn reads_spec(&self) -> Seq<(Seq<u8>, nat)> {
        self.reads@
    }

    /// Whether the source's count and history agree: unless it is fused, it has counted each
    /// physical line read, and accepted every one of them.
    pub open spec fn consistent(&self) -> bool {
        ||| self.fused_spec()
        ||| {
            &&& self.line_number_spec() == self.reads_spec().len()
            &&& reads_accepted(self.reads_spec(), self.rejects_blanks_spec())
        }
    }

    /// Create a line source carrying a member path or other source name for diagnostics.
    pub fn with_source(underlying: R, source: String) -> (lines: Self)
        ensures
            lines.underlying_spec() == underlying,
            lines.source_spec() == source@,
            lines.line_number_spec() == 0,
            !lines.rejects_blanks_spec(),
            !lines.fused_spec(),
            lines.reads_spec() == Seq::<(Seq<u8>, nat)>::empty(),
            lines.consistent(),
    {
        Lines {
            underlying,
            line: Vec::new(),
            line_number: 0,
            source,
            reject_blanks: false,
            fused: false,
            content_len: 0,
            reads: Ghost(Seq::empty()),
        }
    }

    /// Report blank lines as invalid data instead of skipping them.
    pub fn rejecting_blank_lines(self) -> (lines: Self)
        ensures
            lines.rejects_blanks_spec(),
            lines.underlying_spec() == self.underlying_spec(),
            lines.source_spec() == self.source_spec(),
            lines.line_number_spec() == self.line_number_spec(),
            lines.fused_spec() == self.fused_spec(),
            lines.reads_spec() == self.reads_spec(),
            self.consistent() && self.reads_spec().len() == 0 ==> lines.consistent(),
    {
        let mut lines = self;
        lines.reject_blanks = true;
        lines
    }

    /// Whether the source yields nothing further.
    pub fn is_fused(&self) -> (fused: bool)
        ensures
            fused == self.fused_spec(),
    {
        self.fused
    }

    /// The number of physical lines read so far.
    pub fn line_number(&self) -> (number: usize)
        ensures
            number == self.line_number_spec(),
    {
        self.line_number
    }

    /// The underlying source, to read the next physical line from.
    pub fn underlying_mut(&mut self) -> (underlying: &mut R)
        ensures
            *underlying == old(self).underlying_spec(),
            final(self).underlying_spec() == *final(underlying),
            final(self).line_spec() == old(self).line_spec(),
            final(self).line_number_spec() == old(self).line_number_spec(),
            final(self).source_spec() == old(self).source_spec(),
            final(self).rejects_blanks_spec() == old(self).rejects_blanks_spec(),
            final(self).fused_spec() == old(self).fused_spec(),
            final(self).content_len_spec() == old(self).content_len_spec(),
            final(self).reads_spec() == old(self).reads_spec(),
    {
        &mut self.underlying
    }

    /// The scratch buffer, emptied, for the next physical line to be read into; or `None` once
    /// the source is fused, after a failure or the end of the stream, when nothing further is
    /// read and the source stays as it is.
    pub fn next_buffer(&mut self) -> (buffer: Option<Vec<u8>>)
        ensures
            old(self).fused_spec() ==> buffer is None && *final(self) == *old(self),
            !old(self).fused_spec() ==> (buffer matches Some(b) && b@ == Seq::<u8>::empty()),
            !old(self).fused_spec() ==> {
                &&& final(self).line_spec() == Seq::<u8>::empty()
                &&& final(self).underlying_spec() == old(self).underlying_spec()
                &&& final(self).line_number_spec() == old(self).line_number_spec()
                &&& final(self).source_spec() == old(self).source_spec()
                &&& final(self).rejects_blanks_spec() == old(self).rejects_blanks_spec()
                &&& !final(self).fused_spec()
                &&& final(self).reads_spec() == old(self).reads_spec()
            },
    {
        if self.fused {
            return None;
        }
        let mut buffer = Vec::new();
        std::mem::swap(&mut buffer, &mut self.line);
        buffer.clear();
        self.content_len = 0;
        Some(buffer)
    }

    /// Record that reading the next physical line failed, fusing the source, and describe where.
    pub fn on_read_failure(&mut self) -> (context: LineContext)
        requires
            old(self).line_number_spec() < usize::MAX,
        ensures
            context.source@ == old(self).source_spec(),
            context.line == old(self).line_number_spec() + 1,
            context.excerpt is None,
            final(self).fused_spec(),
            final(self).line_number_spec() == old(self).line_number_spec(),
            final(self).source_spec() == old(self).source_spec(),
            final(self).rejects_blanks_spec() == old(self).rejects_blanks_spec(),
            final(self).underlying_spec() == old(self).underlying_spec(),
            final(self).reads_spec() == old(self).reads_spec(),
    {
        self.fused = true;
        LineContext { source: self.source.clone(), line: self.line_number + 1, excerpt: None }
    }

    /// Decide what the physical line `line`, read as `read` bytes from the source, is.
    ///
    /// A read of no bytes ends the stream. Otherwise the line is counted; it fails when its
    /// content is longer than [`MAX_LINE_BYTES`] or the read filled [`MAX_READ_BYTES`] without
    /// reaching a line feed, when it is blank and blank lines are refused, or when its content
    /// is not UTF-8. A failure or the end fuses the source. A blank line is skipped; any other
    /// line is content, which [`Self::content`] then returns.
    #[verifier::loop_isolation(false)]
    pub fn on_read(&mut self, line: Vec<u8>, read: usize) -> (step: LineStep)
        requires
            !old(self).fused_spec(),
            old(self).line_number_spec() < usize::MAX,
        ensures
            final(self).line_spec() == line@,
            final(self).source_spec() == old(self).source_spec(),
            final(self).rejects_blanks_spec() == old(self).rejects_blanks_spec(),
            final(self).underlying_spec() == old(self).underlying_spec(),
            final(self).reads_spec() == old(self).reads_spec().push((line@, read as nat)),
            old(self).consistent() ==> final(self).consistent(),
            old(self).consistent() && step is Skip ==> contents_read(
                final(self).reads_spec(),
                final(self).rejects_blanks_spec(),
                0,
            ) == contents_read(old(self).reads_spec(), old(self).rejects_blanks_spec(), 0),
            old(self).consistent() && step is Content ==> contents_read(
                final(self).reads_spec(),
                final(self).rejects_blanks_spec(),
                0,
            ) == contents_read(old(self).reads_spec(), old(self).rejects_blanks_spec(), 0).push(
                (final(self).line_number_spec() as nat, line@.take(trimmed_len(line@) as int)),
            ),
            read == 0 ==> step is End && final(self).fused_spec()
                && final(self).line_number_spec() == old(self).line_number_spec(),
            read > 0 ==> final(self).line_number_spec() == old(self).line_number_spec() + 1,
            read > 0 ==> match step_kind(line@, read as nat, old(self).rejects_blanks_spec()) {
                Some(failure) => final(self).fused_spec() && match step {
                    LineStep::Fail(context, f) => f == failure
                        && context.source@ == old(self).source_spec()
                        && context.line == final(self).line_number_spec()
                        && context.excerpt is None,
                    _ => false,
                },
                None => !final(self).fused_spec() && if trimmed_len(line@) == 0 {
                    step is Skip
                } else {
                    step is Content && final(self).content_len_spec() == trimmed_len(line@)
                },
            },
    {
        proof {
            if reads_accepted(self.reads@, self.reject_blanks) {
                lemma_contents_read_push(self.reads@, (line@, read as nat), self.reject_blanks, 0);
            }
        }
        self.reads = Ghost(self.reads@.push((line@, read as nat)));
        self.line = line;
        self.content_len = 0;
        if read == 0 {
            self.fused = true;
            return LineStep::End;
        }
        self.line_number = self.line_number + 1;
        let n = self.line.len();
        let trimmed = trimmed_length(self.line.as_slice());
        proof {
            lemma_trimmed_len_bound(self.line@);
            assert(self.line@ == line@);
        }
        let ends_with_line_feed = n > 0 && self.line[n - 1] == 10u8;
        assert(ends_with_line_feed == (line@.len() > 0 && line@.last() == 10u8));
        if trimmed > MAX_LINE_BYTES || (read == MAX_READ_BYTES && !ends_with_line_feed) {
            self.fused = true;
            let context = LineContext {
                source: self.source.clone(),
                line: self.line_number,
                excerpt: None,
            };
            return LineStep::Fail(context, LineFailure::TooLong);
        }
        if trimmed == 0 && self.reject_blanks {
            self.fused = true;
            let context = LineContext {
                source: self.source.clone(),
                line: self.line_number,
                excerpt: None,
            };
            return LineStep::Fail(context, LineFailure::Blank);
        }
        if trimmed == 0 {
            return LineStep::Skip;
        }
        let content = vstd::slice::slice_subrange(self.line.as_slice(), 0, trimmed);
        assert(content@ =~= self.line@.take(trimmed as int));
        match utf8_text(content) {
            Some(_) => {
                self.content_len = trimmed;
                LineStep::Content
            },
            None => {
                self.fused = true;
                let context = LineContext {
                    source: self.source.clone(),
                    line: self.line_number,
                    excerpt: None,
                };
                LineStep::Fail(context, LineFailure::InvalidUtf8)
            },
        }
    }

    /// The last physical line read, with its line ending removed, as bytes, which need not be
    /// UTF-8; for describing why a line was refused.
    pub fn line_bytes(&self) -> (bytes: &[u8])
        ensures
            bytes@ == self.line_spec().take(trimmed_len(self.line_spec()) as int),
    {
        let trimmed = trimmed_length(self.line.as_slice());
        proof {
            lemma_trimmed_len_bound(self.line@);
        }
        let bytes = vstd::slice::slice_subrange(self.line.as_slice(), 0, trimmed);
        assert(bytes@ =~= self.line@.take(trimmed as int));
        bytes
    }

    /// The location and content of the line that [`Self::on_read`] found to be content, with its
    /// line ending removed.
    pub fn content(&self) -> (located: (LineContextRef<'_>, &str))
        requires
            0 < self.content_len_spec() <= self.line_spec().len(),
            valid_utf8(self.line_spec().take(self.content_len_spec() as int)),
        ensures
            located.0.source_name() == self.source_spec(),
            located.0.line_spec() == self.line_number_spec(),
            located.0.content_spec() == located.1@,
            located.1@ == decode_utf8(self.line_spec().take(self.content_len_spec() as int)),
    {
        let bytes = vstd::slice::slice_subrange(self.line.as_slice(), 0, self.content_len);
        assert(bytes@ =~= self.line@.take(self.content_len as int));
        let text = match utf8_text(bytes) {
            Some(text) => text,
            None => "",
        };
        let location = LineContextRef { source: self.source.as_str(), line: self.line_number, content: text };
        (location, text)
    }
}

} // verus!
