//! The request framing and response building of the scripted loopback HTTP test servers.
//!
//! A server reads the header section of an HTTP/1.1 request and the number of body bytes that
//! `Content-Length` declares, then answers with a scripted reply. If the client disconnects
//! early, the request retains the bytes received before disconnection.

use vstd::prelude::*;
use vstd::string::{StrSliceExecFns, StringSliceAdditionalSpecFns};
use vstd::utf8::{decode_utf8, encode_utf8, valid_utf8};

use crate::text::{
    decimal, eq_ignore_ascii_case, eq_ignore_ascii_case_spec, find_char, find_from,
    lemma_find_from_bounds, lemma_skip_white_bounds, parse_usize, parse_usize_spec, push_decimal,
    trim_bounds, trim_range,
};

verus! {

broadcast use {vstd::seq::group_seq_axioms, vstd::string::group_string_axioms};

/// Whether the blank line that ends a header section, `\r\n\r\n`, starts at `p`.
pub open spec fn is_blank_line_at(bytes: Seq<u8>, p: int) -> bool {
    &&& 0 <= p
    &&& p + 4 <= bytes.len()
    &&& bytes[p] == 13u8
    &&& bytes[p + 1] == 10u8
    &&& bytes[p + 2] == 13u8
    &&& bytes[p + 3] == 10u8
}

/// The index just after the first blank line at or after `p`.
pub open spec fn head_end_from(bytes: Seq<u8>, p: int) -> Option<int>
    decreases bytes.len() - p,
{
    if p < 0 || p + 4 > bytes.len() {
        None
    } else if is_blank_line_at(bytes, p) {
        Some(p + 4)
    } else {
        head_end_from(bytes, p + 1)
    }
}

/// The index after the blank line that ends the header section, if one was received.
pub open spec fn head_end_spec(bytes: Seq<u8>) -> Option<int> {
    head_end_from(bytes, 0)
}

proof fn lemma_head_end_bounds(bytes: Seq<u8>, p: int)
    requires
        0 <= p,
    ensures
        head_end_from(bytes, p) matches Some(end) ==> p + 4 <= end <= bytes.len(),
    decreases bytes.len() - p,
{
    if p + 4 <= bytes.len() && !is_blank_line_at(bytes, p) {
        lemma_head_end_bounds(bytes, p + 1);
    }
}

/// The index after the blank line that ends the header section.
fn head_end(bytes: &[u8]) -> (end: Option<usize>)
    ensures
        end matches Some(e) ==> head_end_spec(bytes@) == Some(e as int),
        end is None ==> head_end_spec(bytes@) is None,
{
    let n = bytes.len();
    let mut p: usize = 0;
    while n >= 4 && p <= n - 4
        invariant
            n == bytes@.len(),
            head_end_spec(bytes@) == head_end_from(bytes@, p as int),
        decreases n - p,
    {
        if bytes[p] == 13u8 && bytes[p + 1] == 10u8 && bytes[p + 2] == 13u8 && bytes[p + 3] == 10u8 {
            return Some(p + 4);
        }
        p = p + 1;
    }
    None
}

/// The bounds, within `head`, of the trimmed value of the first line at or after `pos` that
/// holds a colon and whose field before the colon names `name`, ignoring ASCII case.
///
/// Lines end at a line feed, which a carriage return may precede, as `str::lines` splits them.
pub open spec fn header_from(head: Seq<char>, name: Seq<char>, pos: int) -> Option<(int, int)>
    decreases head.len() - pos,
{
    if pos < 0 || pos >= head.len() {
        None
    } else {
        let e = find_from(head, '\n', pos);
        let line_end = if e < head.len() && e > pos && head[e - 1] == '\r' {
            e - 1
        } else {
            e
        };
        let colon = find_from(head, ':', pos);
        if colon < line_end && eq_ignore_ascii_case_spec(head.subrange(pos, colon), name) {
            Some(trim_bounds(head, colon + 1, line_end))
        } else if e < head.len() {
            proof {
                lemma_find_from_bounds(head, '\n', pos);
            }
            header_from(head, name, e + 1)
        } else {
            None
        }
    }
}

/// The trimmed value of the first header line whose field names `name`, ignoring ASCII case.
pub open spec fn header_value_spec(head: Seq<char>, name: Seq<char>) -> Option<Seq<char>> {
    match header_from(head, name, 0) {
        Some(bounds) => Some(head.subrange(bounds.0, bounds.1)),
        None => None,
    }
}

/// The declared body length: the value of `Content-Length`, or zero if it is absent or is not
/// an unsigned integer.
pub open spec fn content_length_spec(head: Seq<char>) -> nat {
    match header_value_spec(head, "content-length"@) {
        Some(value) => match parse_usize_spec(value) {
            Some(length) => length,
            None => 0,
        },
        None => 0,
    }
}

proof fn lemma_header_from_bounds(head: Seq<char>, name: Seq<char>, pos: int)
    ensures
        header_from(head, name, pos) matches Some(bounds) ==> 0 <= bounds.0 <= bounds.1
            <= head.len(),
    decreases head.len() - pos,
{
    if 0 <= pos < head.len() {
        let e = find_from(head, '\n', pos);
        lemma_find_from_bounds(head, '\n', pos);
        lemma_find_from_bounds(head, ':', pos);
        let line_end = if e < head.len() && e > pos && head[e - 1] == '\r' {
            e - 1
        } else {
            e
        };
        let colon = find_from(head, ':', pos);
        if colon < line_end {
            lemma_skip_white_bounds(head, colon + 1, line_end);
            let start = crate::text::skip_white_from(head, colon + 1, line_end);
            lemma_skip_white_bounds(head, start, line_end);
        }
        if e < head.len() {
            lemma_header_from_bounds(head, name, e + 1);
        }
    }
}

/// The trimmed value of the first header line whose field names `name`, ignoring ASCII case.
fn header_value<'a>(head: &'a str, name: &str) -> (value: Option<&'a str>)
    ensures
        value matches Some(v) ==> header_value_spec(head@, name@) == Some(v@),
        value is None ==> header_value_spec(head@, name@) is None,
{
    let n = head.unicode_len();
    let mut pos: usize = 0;
    while pos < n
        invariant
            n == head@.len(),
            pos <= n,
            header_from(head@, name@, 0) == header_from(head@, name@, pos as int),
        decreases n - pos,
    {
        let e = find_char(head, n, '\n', pos);
        let line_end = if e < n && e > pos && head.get_char(e - 1) == '\r' {
            e - 1
        } else {
            e
        };
        let colon = find_char(head, n, ':', pos);
        if colon < line_end && eq_ignore_ascii_case(head.substring_char(pos, colon), name) {
            let (start, end) = trim_range(head, colon + 1, line_end);
            return Some(head.substring_char(start, end));
        }
        if e < n {
            pos = e + 1;
        } else {
            return None;
        }
    }
    None
}

/// The declared body length, or zero if `Content-Length` is absent or invalid.
fn content_length(head: &str) -> (length: usize)
    ensures
        length as nat == content_length_spec(head@),
{
    match header_value(head, "content-length") {
        Some(value) => {
            let n = value.unicode_len();
            assert(value@.subrange(0, n as int) =~= value@);
            match parse_usize(value, 0, n) {
                Some(length) => length,
                None => 0,
            }
        },
        None => 0,
    }
}

/// The characters `String::from_utf8_lossy` makes of some bytes, invalid sequences replaced by
/// U+FFFD.
pub uninterp spec fn utf8_lossy(bytes: Seq<u8>) -> Seq<char>;

/// `String::from_utf8_lossy`: the bytes decoded as UTF-8, invalid sequences replaced by
/// U+FFFD; valid UTF-8 is decoded unchanged.
#[verifier::external_body]
fn decode_lossy(bytes: &[u8]) -> (text: String)
    ensures
        text@ == utf8_lossy(bytes@),
        valid_utf8(bytes@) ==> text@ == decode_utf8(bytes@),
{
    String::from_utf8_lossy(bytes).into_owned()
}

/// The bytes a request retains of the bytes `input` that a client sent, and where its body
/// starts: everything through the header section and the declared body when the header section
/// was received, and everything received otherwise.
pub open spec fn framed(input: Seq<u8>) -> (Seq<u8>, int) {
    match head_end_spec(input) {
        Some(end) => {
            let total = end + content_length_spec(utf8_lossy(input.take(end)));
            (if total <= input.len() { input.take(total) } else { input }, end)
        },
        None => (input, input.len() as int),
    }
}

/// Whether a server has read all that it reads of a request: the header section and the body
/// that it declares.
pub open spec fn complete(input: Seq<u8>) -> bool {
    match head_end_spec(input) {
        Some(end) => end + content_length_spec(utf8_lossy(input.take(end))) <= input.len(),
        None => false,
    }
}

/// Whether the bytes `received` so far hold the whole request, so that the server stops reading.
pub fn is_complete(received: &[u8]) -> (done: bool)
    ensures
        done == complete(received@),
{
    match head_end(received) {
        Some(end) => {
            proof {
                lemma_head_end_bounds(received@, 0);
            }
            let head_bytes = vstd::slice::slice_subrange(received, 0, end);
            assert(head_bytes@ =~= received@.take(end as int));
            let head = decode_lossy(head_bytes);
            let length = content_length(head.as_str());
            length <= received.len() - end
        },
        None => false,
    }
}

proof fn lemma_head_end_extends(bytes: Seq<u8>, more: Seq<u8>, p: int)
    requires
        0 <= p,
        head_end_from(bytes, p) is Some,
    ensures
        head_end_from(bytes + more, p) == head_end_from(bytes, p),
    decreases bytes.len() - p,
{
    lemma_head_end_bounds(bytes, p);
    let extended = bytes + more;
    if is_blank_line_at(bytes, p) {
        assert(is_blank_line_at(extended, p));
    } else {
        assert(!is_blank_line_at(extended, p));
        lemma_head_end_extends(bytes, more, p + 1);
    }
}

/// Reading more of a connection after a request is complete changes nothing of it: the request
/// framed from the longer input is the one framed from the complete input.
pub proof fn lemma_complete_requests_are_final(input: Seq<u8>, more: Seq<u8>)
    requires
        complete(input),
    ensures
        framed(input + more) == framed(input),
{
    lemma_head_end_extends(input, more, 0);
    let end = head_end_spec(input)->0;
    lemma_head_end_bounds(input, 0);
    assert((input + more).take(end) =~= input.take(end));
    let total = end + content_length_spec(utf8_lossy(input.take(end)));
    assert((input + more).take(total) =~= input.take(total));
}

/// An HTTP/1.1 request captured by a server.
///
/// The server reads the header section and the number of body bytes declared by
/// `Content-Length`. If the client disconnects early, the request retains the bytes received
/// before disconnection.
#[derive(Debug, Eq, PartialEq)]
pub struct Request {
    bytes: Vec<u8>,
    head: String,
    body_start: usize,
}

impl Clone for Request {
    fn clone(&self) -> (copy: Self)
        ensures
            copy.bytes_spec() == self.bytes_spec(),
            copy.body_start_spec() == self.body_start_spec(),
    {
        proof {
            use_type_invariant(self);
        }
        let bytes = self.bytes.clone();
        assert(bytes@ =~= self.bytes@);
        Request { bytes, head: self.head.clone(), body_start: self.body_start }
    }
}

impl Request {
    /// The raw request bytes captured by the server.
    pub closed spec fn bytes_spec(self) -> Seq<u8> {
        self.bytes@
    }

    /// Where the body starts in the captured bytes.
    pub closed spec fn body_start_spec(self) -> int {
        self.body_start as int
    }

    /// The header section decoded as UTF-8, replacing invalid byte sequences.
    pub open spec fn head_spec(self) -> Seq<char> {
        utf8_lossy(self.bytes_spec().take(self.body_start_spec()))
    }

    #[verifier::type_invariant]
    closed spec fn well_formed(self) -> bool {
        &&& self.body_start <= self.bytes@.len()
        &&& self.head@ == utf8_lossy(self.bytes@.take(self.body_start as int))
    }

    /// Frame the request that a client sent as `input`, up to the point where the server stops
    /// reading: through the body that `Content-Length` declares, or to the end of the input when
    /// the client stopped sending first.
    pub fn read(input: &[u8]) -> (request: Self)
        ensures
            request.bytes_spec() == framed(input@).0,
            request.body_start_spec() == framed(input@).1,
            valid_utf8(request.bytes_spec().take(request.body_start_spec())) ==> request.head_spec()
                == decode_utf8(request.bytes_spec().take(request.body_start_spec())),
    {
        let n = input.len();
        match head_end(input) {
            Some(end) => {
                proof {
                    lemma_head_end_bounds(input@, 0);
                }
                let head_bytes = vstd::slice::slice_subrange(input, 0, end);
                assert(head_bytes@ =~= input@.take(end as int));
                let head = decode_lossy(head_bytes);
                let total = end.saturating_add(content_length(head.as_str()));
                let kept = if total <= n { total } else { n };
                assert(end <= kept);
                let bytes = vstd::slice::slice_to_vec(vstd::slice::slice_subrange(input, 0, kept));
                assert(bytes@.take(end as int) =~= input@.take(end as int));
                proof {
                    if total <= n {
                    } else {
                        assert(input@.take(n as int) =~= input@);
                    }
                }
                assert(head@ == utf8_lossy(bytes@.take(end as int)));
                Request { bytes, head, body_start: end }
            },
            None => {
                let bytes = vstd::slice::slice_to_vec(input);
                let head = decode_lossy(input);
                assert(bytes@.take(n as int) =~= bytes@);
                assert(head@ == utf8_lossy(bytes@.take(n as int)));
                Request { bytes, head, body_start: n }
            },
        }
    }

    /// The raw request bytes captured by the server.
    pub fn bytes(&self) -> (bytes: &[u8])
        ensures
            bytes@ == self.bytes_spec(),
    {
        self.bytes.as_slice()
    }

    /// The header section decoded as UTF-8, replacing invalid byte sequences.
    ///
    /// The terminating blank line is included when it was received.
    pub fn head(&self) -> (head: &str)
        ensures
            head@ == self.head_spec(),
    {
        proof {
            use_type_invariant(self);
        }
        self.head.as_str()
    }

    /// The body declared by `Content-Length`.
    ///
    /// This is empty if the header section is incomplete or `Content-Length` is absent or
    /// invalid.
    pub fn body(&self) -> (body: &[u8])
        ensures
            body@ == self.bytes_spec().skip(self.body_start_spec()),
    {
        proof {
            use_type_invariant(self);
        }
        let body = vstd::slice::slice_subrange(self.bytes.as_slice(), self.body_start, self.bytes.len());
        assert(body@ =~= self.bytes@.skip(self.body_start as int));
        body
    }

    /// The request method, or an empty string if none was received.
    pub fn method(&self) -> (method: &str)
        ensures
            method@ == self.head_spec().take(find_from(self.head_spec(), ' ', 0)),
    {
        proof {
            use_type_invariant(self);
        }
        let head = self.head.as_str();
        let n = head.unicode_len();
        let end = find_char(head, n, ' ', 0);
        head.substring_char(0, end)
    }

    /// The request target, or `/` if it is unavailable.
    pub fn path(&self) -> (path: &str)
        ensures
            ({
                let head = self.head_spec();
                let first = find_from(head, ' ', 0);
                path@ == if first < head.len() {
                    head.subrange(first + 1, find_from(head, ' ', first + 1))
                } else {
                    "/"@
                }
            }),
    {
        proof {
            use_type_invariant(self);
        }
        let head = self.head.as_str();
        let n = head.unicode_len();
        let first = find_char(head, n, ' ', 0);
        if first < n {
            let end = find_char(head, n, ' ', first + 1);
            head.substring_char(first + 1, end)
        } else {
            "/"
        }
    }

    /// The trimmed value of the first matching header.
    ///
    /// Header names are compared case-insensitively.
    pub fn header(&self, name: &str) -> (value: Option<&str>)
        ensures
            value matches Some(v) ==> header_value_spec(self.head_spec(), name@) == Some(v@),
            value is None ==> header_value_spec(self.head_spec(), name@) is None,
    {
        proof {
            use_type_invariant(self);
        }
        header_value(self.head.as_str(), name)
    }
}

/// A scripted response with an optional delay before the connection closes.
///
/// Delaying closure lets tests verify that a client respects response framing instead of
/// waiting for the server to close the connection.
#[derive(Clone, Debug, Eq, PartialEq)]
pub struct Reply {
    bytes: Vec<u8>,
    linger: Option<std::time::Duration>,
}

impl Reply {
    /// The bytes written to the client.
    pub closed spec fn bytes_spec(self) -> Seq<u8> {
        self.bytes@
    }

    /// How long the connection stays open after the reply is written, if at all.
    pub closed spec fn linger_spec(self) -> Option<std::time::Duration> {
        self.linger
    }

    /// A reply that closes the connection immediately after `bytes` are written.
    pub fn new(bytes: Vec<u8>) -> (reply: Self)
        ensures
            reply.bytes_spec() == bytes@,
            reply.linger_spec() is None,
    {
        Reply { bytes, linger: None }
    }

    /// Delay closing the connection for `linger` after the reply is written.
    pub fn lingering(self, linger: std::time::Duration) -> (reply: Self)
        ensures
            reply.bytes_spec() == self.bytes_spec(),
            reply.linger_spec() == Some(linger),
    {
        Reply { bytes: self.bytes, linger: Some(linger) }
    }

    /// The bytes written to the client.
    pub fn bytes(&self) -> (bytes: &[u8])
        ensures
            bytes@ == self.bytes_spec(),
    {
        self.bytes.as_slice()
    }

    /// How long the connection stays open after the reply is written; `None` closes it at once.
    pub fn linger(&self) -> (linger: Option<std::time::Duration>)
        ensures
            linger == self.linger_spec(),
    {
        self.linger
    }
}

impl Default for Reply {
    fn default() -> (reply: Self)
        ensures
            reply.bytes_spec() == Seq::<u8>::empty(),
            reply.linger_spec() is None,
    {
        Reply { bytes: Vec::new(), linger: None }
    }
}

impl From<Vec<u8>> for Reply {
    fn from(bytes: Vec<u8>) -> (reply: Self) {
        Reply { bytes, linger: None }
    }
}

impl vstd::std_specs::convert::FromSpecImpl<Vec<u8>> for Reply {
    open spec fn obeys_from_spec() -> bool {
        true
    }

    closed spec fn from_spec(bytes: Vec<u8>) -> Reply {
        Reply { bytes, linger: None }
    }
}

/// The header lines of a response: each `name: value` followed by CRLF, in order.
pub open spec fn header_lines(headers: Seq<(Seq<char>, Seq<char>)>) -> Seq<char>
    decreases headers.len(),
{
    if headers.len() == 0 {
        Seq::empty()
    } else {
        header_lines(headers.drop_last()) + headers.last().0 + ": "@ + headers.last().1 + "\r\n"@
    }
}

/// The text of an HTTP/1.1 response with the given status line, headers and body, followed by
/// `content-length` and `connection: close` headers.
pub open spec fn response_text(status: Seq<char>, headers: Seq<(Seq<char>, Seq<char>)>, body: Seq<char>) -> Seq<char> {
    "HTTP/1.1 "@ + status + "\r\n"@ + header_lines(headers) + "content-length: "@
        + decimal(encode_utf8(body).len()) + "\r\nconnection: close\r\n\r\n"@ + body
}

/// The UTF-8 encoding of two texts one after the other is the encoding of the first followed by
/// that of the second.
proof fn lemma_encode_utf8_append(first: Seq<char>, second: Seq<char>)
    ensures
        encode_utf8(first + second) == encode_utf8(first) + encode_utf8(second),
    decreases first.len(),
{
    if first.len() == 0 {
        assert(first + second =~= second);
        assert(encode_utf8(first) =~= Seq::<u8>::empty());
        assert(encode_utf8(first) + encode_utf8(second) =~= encode_utf8(second));
    } else {
        assert((first + second).drop_first() =~= first.drop_first() + second);
        assert((first + second)[0] == first[0]);
        lemma_encode_utf8_append(first.drop_first(), second);
        assert(encode_utf8(first + second) =~= encode_utf8(first) + encode_utf8(second));
    }
}

/// A response declares in its `content-length` header the number of bytes of its body, counted
/// in UTF-8 bytes rather than characters: the bytes end with the body's bytes, right after the
/// `content-length` and `connection: close` headers and the blank line, and the declared number
/// is the count of those trailing bytes.
pub proof fn lemma_response_declares_its_body_length(
    status: Seq<char>,
    headers: Seq<(Seq<char>, Seq<char>)>,
    body: Seq<char>,
)
    ensures
        ({
            let bytes = encode_utf8(response_text(status, headers, body));
            let trailing = encode_utf8(body);
            let declared = encode_utf8(
                "content-length: "@ + decimal(trailing.len()) + "\r\nconnection: close\r\n\r\n"@,
            );
            &&& trailing.len() + declared.len() <= bytes.len()
            &&& bytes.skip(bytes.len() - trailing.len()) == trailing
            &&& bytes.subrange(bytes.len() - trailing.len() - declared.len(), bytes.len() - trailing.len())
                == declared
        }),
{
    let trailing = encode_utf8(body);
    let start = "HTTP/1.1 "@ + status + "\r\n"@ + header_lines(headers);
    let framing = "content-length: "@ + decimal(trailing.len()) + "\r\nconnection: close\r\n\r\n"@;
    assert(response_text(status, headers, body) =~= start + framing + body);
    lemma_encode_utf8_append(start + framing, body);
    lemma_encode_utf8_append(start, framing);
    let bytes = encode_utf8(response_text(status, headers, body));
    let declared = encode_utf8(framing);
    assert(bytes == encode_utf8(start) + declared + trailing);
    assert(bytes.skip(bytes.len() - trailing.len()) =~= trailing);
    assert(bytes.subrange(bytes.len() - trailing.len() - declared.len(), bytes.len() - trailing.len())
        =~= declared);
}

/// The characters of a slice of header names and values.
pub open spec fn headers_view(headers: Seq<(&str, &str)>) -> Seq<(Seq<char>, Seq<char>)> {
    headers.map_values(|header: (&str, &str)| (header.0@, header.1@))
}

/// Build an HTTP/1.1 text response with `Content-Length` and `Connection: close` headers.
pub fn response(status: &str, headers: &[(&str, &str)], body: &str) -> (bytes: Vec<u8>)
    ensures
        bytes@ == encode_utf8(response_text(status@, headers_view(headers@), body@)),
{
    let mut text = String::from_str("HTTP/1.1 ");
    text.append(status);
    text.append("\r\n");
    let ghost prefix = text@;
    let mut i: usize = 0;
    while i < headers.len()
        invariant
            i <= headers@.len(),
            prefix == "HTTP/1.1 "@ + status@ + "\r\n"@,
            text@ == prefix + header_lines(headers_view(headers@).take(i as int)),
        decreases headers@.len() - i,
    {
        let (name, value) = headers[i];
        text.append(name);
        text.append(": ");
        text.append(value);
        text.append("\r\n");
        proof {
            let taken = headers_view(headers@).take(i + 1);
            assert(taken.drop_last() =~= headers_view(headers@).take(i as int));
            assert(taken.last() == (name@, value@));
        }
        i = i + 1;
    }
    assert(headers_view(headers@).take(headers@.len() as int) =~= headers_view(headers@));
    let ghost before = text@;
    assert(before == "HTTP/1.1 "@ + status@ + "\r\n"@ + header_lines(headers_view(headers@)));
    text.append("content-length: ");
    let length = body.as_bytes().len();
    assert(length == encode_utf8(body@).len());
    push_decimal(length as u64, &mut text);
    assert(text@ == before + "content-length: "@ + decimal(encode_utf8(body@).len()));
    text.append("\r\nconnection: close\r\n\r\n");
    text.append(body);
    assert(text@ =~= response_text(status@, headers_view(headers@), body@));
    vstd::slice::slice_to_vec(text.as_str().as_bytes())
}

} // verus!
