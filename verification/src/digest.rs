//! Text encodings shared by fixed-size digest newtypes.
//!
//! Archive formats write the same twenty or thirty-two digest bytes in different ways: the
//! Wayback Machine's CDX index uses unpadded uppercase Base32, while WACZ manifests use lowercase
//! hexadecimal behind a `sha256:` label. A [`Format`] describes one convention, and [`encode`]
//! and [`decode`] write and read digests under it, keeping the length checks, the
//! permissive-input rules, and the error taxonomy in one place. The encodings themselves are
//! those of the `data-encoding` crate.

use vstd::prelude::*;
use vstd::utf8::{encode_utf8, is_ascii_chars};
use vstd::string::StringSliceAdditionalSpecFns;

use crate::text::{ascii_lower, eq_ignore_ascii_case_spec, strip_prefix};

verus! {

broadcast use {vstd::seq::group_seq_axioms, vstd::string::group_string_axioms};

/// A predefined encoding of the `data-encoding` crate that digests are written or read in.
#[derive(Clone, Copy, Debug, Eq, PartialEq, Structural)]
pub enum Codec {
    /// `data_encoding::BASE32`: padded uppercase RFC 4648 Base32.
    Base32,
    /// `data_encoding::BASE32_NOPAD`: unpadded uppercase RFC 4648 Base32.
    Base32NoPad,
    /// `data_encoding::BASE64`: padded RFC 4648 Base64.
    Base64,
    /// `data_encoding::BASE64_NOPAD`: unpadded RFC 4648 Base64.
    Base64NoPad,
    /// `data_encoding::HEXLOWER`: lowercase hexadecimal.
    HexLower,
    /// `data_encoding::HEXLOWER_PERMISSIVE`: lowercase hexadecimal, read in either case.
    HexLowerPermissive,
    /// `data_encoding::HEXUPPER`: uppercase hexadecimal.
    HexUpper,
    /// `data_encoding::HEXUPPER_PERMISSIVE`: uppercase hexadecimal, read in either case.
    HexUpperPermissive,
}

/// The number of bits one symbol of an encoding carries.
pub open spec fn bit_width(encoding: Codec) -> nat {
    match encoding {
        Codec::Base32 | Codec::Base32NoPad => 5,
        Codec::Base64 | Codec::Base64NoPad => 6,
        _ => 4,
    }
}

/// Whether an encoding pads its output to whole blocks.
pub open spec fn is_padded(encoding: Codec) -> bool {
    encoding == Codec::Base32 || encoding == Codec::Base64
}

/// The number of bytes in one block of an encoding.
pub open spec fn block_bytes(encoding: Codec) -> nat {
    match encoding {
        Codec::Base32 | Codec::Base32NoPad => 5,
        Codec::Base64 | Codec::Base64NoPad => 3,
        _ => 1,
    }
}

/// The number of symbols in one block of an encoding.
pub open spec fn block_symbols(encoding: Codec) -> nat {
    block_bytes(encoding) * 8 / bit_width(encoding)
}

/// `x / m`, rounded up.
pub open spec fn div_ceil(x: nat, m: nat) -> nat {
    ((x + m - 1) as nat) / m
}

/// The length of the encoding of `n` bytes (`Encoding::encode_len`).
pub open spec fn encode_len_spec(encoding: Codec, n: nat) -> nat {
    if is_padded(encoding) {
        div_ceil(n, block_bytes(encoding)) * block_symbols(encoding)
    } else {
        div_ceil(8 * n, bit_width(encoding))
    }
}

/// No encoding writes more than two symbols a byte, plus one padded block.
proof fn lemma_encode_len_bound(encoding: Codec, n: nat)
    ensures
        encode_len_spec(encoding, n) <= 2 * n + 8,
{
    if is_padded(encoding) {
        let b = block_bytes(encoding);
        let q = div_ceil(n, b);
        assert(q * b <= n + b - 1) by (nonlinear_arith)
            requires q == ((n + b - 1) as nat) / b, b >= 1;
        if encoding == Codec::Base32 {
            assert(q * 8 <= 2 * n + 8) by (nonlinear_arith) requires q * 5 <= n + 4;
        } else {
            assert(q * 4 <= 2 * n + 8) by (nonlinear_arith) requires q * 3 <= n + 2;
        }
    } else {
        let w = bit_width(encoding);
        let q = div_ceil(8 * n, w);
        assert(q * w <= 8 * n + w - 1) by (nonlinear_arith)
            requires q == ((8 * n + w - 1) as nat) / w, w >= 1;
        assert(q <= 2 * n + 8) by (nonlinear_arith) requires q * w <= 8 * n + w - 1, w >= 4;
    }
}

/// The number of bytes an encoded input of `len` symbols decodes to, or `None` when no output
/// of the encoding has that length (`Encoding::decode_len`).
pub open spec fn decode_len_spec(encoding: Codec, len: nat) -> Option<nat> {
    if is_padded(encoding) {
        if len % block_symbols(encoding) == 0 {
            Some(len / block_symbols(encoding) * block_bytes(encoding))
        } else {
            None
        }
    } else {
        if (bit_width(encoding) * len % 8) / bit_width(encoding) == 0 {
            Some(bit_width(encoding) * len / 8)
        } else {
            None
        }
    }
}

/// The encoding whose output an encoding writes: permissive encodings write what their strict
/// counterparts do.
pub open spec fn written_form(encoding: Codec) -> Codec {
    match encoding {
        Codec::HexLowerPermissive => Codec::HexLower,
        Codec::HexUpperPermissive => Codec::HexUpper,
        other => other,
    }
}

/// The text an encoding writes for some bytes (`Encoding::encode_write`).
pub uninterp spec fn encoded_text(encoding: Codec, input: Seq<u8>) -> Seq<char>;

/// The bytes an encoded input decodes to, or `None` when it is not valid
/// (`Encoding::decode_mut`).
pub uninterp spec fn decoded_bytes(encoding: Codec, input: Seq<u8>) -> Option<Seq<u8>>;

/// `Encoding::encode_len`: the length of the encoding of `n` bytes, which panics above
/// `usize::MAX / 512`.
#[verifier::external_body]
fn encoded_len(encoding: Codec, n: usize) -> (len: usize)
    requires
        n <= usize::MAX / 512,
    ensures
        len == encode_len_spec(encoding, n as nat),
{
    let encoding = match encoding {
        Codec::Base32 => data_encoding::BASE32,
        Codec::Base32NoPad => data_encoding::BASE32_NOPAD,
        Codec::Base64 => data_encoding::BASE64,
        Codec::Base64NoPad => data_encoding::BASE64_NOPAD,
        Codec::HexLower => data_encoding::HEXLOWER,
        Codec::HexLowerPermissive => data_encoding::HEXLOWER_PERMISSIVE,
        Codec::HexUpper => data_encoding::HEXUPPER,
        Codec::HexUpperPermissive => data_encoding::HEXUPPER_PERMISSIVE,
    };
    encoding.encode_len(n)
}

/// Whether an encoding reads letters in either case.
pub open spec fn case_blind(encoding: Codec) -> bool {
    encoding == Codec::HexLowerPermissive || encoding == Codec::HexUpperPermissive
}

/// `Encoding::encode_write` into a `String`, which accepts every write: append the encoding of
/// `input` to `output`. The text is ASCII, as long as `encode_len` says, the same as the strict
/// counterpart of a permissive encoding writes, and decodes back to `input` under any encoding
/// that writes the same text; an encoding that reads letters in either case also decodes it back
/// with any of its letters in the other case.
#[verifier::external_body]
fn encode_write(encoding: Codec, input: &[u8], output: &mut String)
    ensures
        final(output)@ == old(output)@ + encoded_text(written_form(encoding), input@),
        is_ascii_chars(final(output)@.skip(old(output)@.len() as int)),
        final(output)@.len() == old(output)@.len() + encode_len_spec(encoding, input@.len()),
        forall|decoding: Codec| written_form(decoding) == written_form(encoding) ==>
            #[trigger] decoded_bytes(decoding, encode_utf8(final(output)@.skip(old(output)@.len() as int)))
                == Some(input@),
        forall|decoding: Codec, other: Seq<char>|
            written_form(decoding) == written_form(encoding) && case_blind(decoding)
                && eq_ignore_ascii_case_spec(other, final(output)@.skip(old(output)@.len() as int))
                ==> #[trigger] decoded_bytes(decoding, encode_utf8(other)) == Some(input@),
{
    let encoding = match encoding {
        Codec::Base32 => data_encoding::BASE32,
        Codec::Base32NoPad => data_encoding::BASE32_NOPAD,
        Codec::Base64 => data_encoding::BASE64,
        Codec::Base64NoPad => data_encoding::BASE64_NOPAD,
        Codec::HexLower => data_encoding::HEXLOWER,
        Codec::HexLowerPermissive => data_encoding::HEXLOWER_PERMISSIVE,
        Codec::HexUpper => data_encoding::HEXUPPER,
        Codec::HexUpperPermissive => data_encoding::HEXUPPER_PERMISSIVE,
    };
    let _ = encoding.encode_write(input, output);
}

/// `Encoding::decode_mut`: decode `input` into `output`, whose length must be the one
/// `decode_len` gives for the input, returning how many bytes were written, or `None` when
/// the input is not valid.
#[verifier::external_body]
fn decode_into(encoding: Codec, input: &[u8], output: &mut Vec<u8>) -> (written: Option<usize>)
    requires
        input@.len() <= usize::MAX / 8,
        decode_len_spec(encoding, input@.len()) == Some(old(output)@.len()),
    ensures
        final(output)@.len() == old(output)@.len(),
        match written {
            Some(w) => w <= old(output)@.len() && decoded_bytes(encoding, input@) == Some(final(output)@.take(w as int)),
            None => decoded_bytes(encoding, input@) is None,
        },
{
    let encoding = match encoding {
        Codec::Base32 => data_encoding::BASE32,
        Codec::Base32NoPad => data_encoding::BASE32_NOPAD,
        Codec::Base64 => data_encoding::BASE64,
        Codec::Base64NoPad => data_encoding::BASE64_NOPAD,
        Codec::HexLower => data_encoding::HEXLOWER,
        Codec::HexLowerPermissive => data_encoding::HEXLOWER_PERMISSIVE,
        Codec::HexUpper => data_encoding::HEXUPPER,
        Codec::HexUpperPermissive => data_encoding::HEXUPPER_PERMISSIVE,
    };
    encoding.decode_mut(input, output.as_mut_slice()).ok()
}

/// How one kind of digest is written as text: a fixed label, the encoding it is written in, and
/// the encoding it is read in.
///
/// A format names a convention, not a hash algorithm: the same digest bytes may be written under
/// several formats.
#[derive(Clone, Copy, Debug)]
pub struct Format {
    /// A fixed label written before the encoded digest, empty when the format has none.
    ///
    /// [`decode`] requires the prefix and [`encode`] writes it, so a format that labels its
    /// algorithm (as WACZ does with `sha256:`) never silently accepts an unlabelled value.
    pub prefix: &'static str,
    /// The encoding digests are written in.
    ///
    /// This also fixes the encoded length [`decode`] accepts.
    pub encoding: Codec,
    /// The encoding digests are read in, such as [`Codec::HexLowerPermissive`] for a format
    /// written as lowercase hexadecimal.
    pub decoding: Codec,
}

impl Format {
    /// A format that reads digests in the encoding it writes them in.
    pub fn new(prefix: &'static str, encoding: Codec) -> (format: Self)
        ensures
            format.prefix@ == prefix@,
            format.encoding == encoding,
            format.decoding == encoding,
    {
        Format { prefix, encoding, decoding: encoding }
    }

    /// This format, reading digests in `decoding` instead.
    pub fn with_decoding(self, decoding: Codec) -> (format: Self)
        ensures
            format.prefix@ == self.prefix@,
            format.encoding == self.encoding,
            format.decoding == decoding,
    {
        Format { decoding, ..self }
    }
}

/// Whether `n`-byte digests can be read under a format: its encoded length is within the
/// encoding's limit, and the reading encoding decodes that many symbols to `n` bytes.
pub open spec fn readable(format: Format, n: nat) -> bool {
    &&& n <= usize::MAX / 512
    &&& decode_len_spec(format.decoding, encode_len_spec(format.encoding, n)) == Some(n)
}

/// A digest string does not match the format it was read under.
#[derive(Clone, Debug, Eq, PartialEq)]
pub enum ParseError {
    /// The value does not begin with the format's prefix.
    MissingPrefix {
        /// The prefix the format requires.
        prefix: &'static str,
        /// The value as it was read, including the missing prefix.
        value: String,
    },
    /// The encoded digest is not the length the format writes.
    InvalidLength {
        /// The number of characters the format writes, excluding the prefix.
        expected: usize,
        /// The value as it was read, without the prefix.
        value: String,
    },
    /// The value is the right length but does not decode to the expected digest bytes.
    ///
    /// A padded encoding reaches this case as well as an out-of-alphabet one: a Base32 value of
    /// twenty-four characters followed by eight `=` characters is the right length but decodes
    /// to fewer bytes than a digest holds.
    InvalidEncoding(String),
}

/// The mathematical value of a [`ParseError`].
pub enum ParseErrorView {
    MissingPrefix { prefix: Seq<char>, value: Seq<char> },
    InvalidLength { expected: nat, value: Seq<char> },
    InvalidEncoding(Seq<char>),
}

impl View for ParseError {
    type V = ParseErrorView;

    open spec fn view(&self) -> ParseErrorView {
        match self {
            ParseError::MissingPrefix { prefix, value } => ParseErrorView::MissingPrefix { prefix: prefix@, value: value@ },
            ParseError::InvalidLength { expected, value } => ParseErrorView::InvalidLength { expected: *expected as nat, value: value@ },
            ParseError::InvalidEncoding(value) => ParseErrorView::InvalidEncoding(value@),
        }
    }
}

/// The `n` digest bytes that `input` encodes under `format`, or why it does not.
pub open spec fn decode_spec(format: Format, input: Seq<char>, n: nat) -> Result<Seq<u8>, ParseErrorView> {
    let prefix = format.prefix@;
    if !prefix.is_prefix_of(input) {
        Err(ParseErrorView::MissingPrefix { prefix, value: input })
    } else {
        let encoded = input.skip(prefix.len() as int);
        let expected = encode_len_spec(format.encoding, n);
        if encode_utf8(encoded).len() != expected {
            Err(ParseErrorView::InvalidLength { expected, value: encoded })
        } else {
            decoded_digest(encoded, decoded_bytes(format.decoding, encode_utf8(encoded)), n)
        }
    }
}

/// The digest that a decoding of the encoded part `encoded` of a value produced: the decoded
/// bytes when there are exactly `n` of them, and otherwise an invalid encoding.
pub open spec fn decoded_digest(encoded: Seq<char>, decoded: Option<Seq<u8>>, n: nat) -> Result<Seq<u8>, ParseErrorView> {
    match decoded {
        Some(bytes) => if bytes.len() == n {
            Ok(bytes)
        } else {
            Err(ParseErrorView::InvalidEncoding(encoded))
        },
        None => Err(ParseErrorView::InvalidEncoding(encoded)),
    }
}

/// The bytes a decoding produced, if any.
pub open spec fn decoded_view(decoded: Option<Vec<u8>>) -> Option<Seq<u8>> {
    match decoded {
        Some(bytes) => Some(bytes@),
        None => None,
    }
}

/// Accept what decoding the encoded part `encoded` of a value produced as an `n`-byte digest.
///
/// A padded encoding can fill fewer bytes than it has room for, which is not a digest.
pub fn accept_decoded(encoded: &str, decoded: Option<Vec<u8>>, n: usize) -> (digest: Result<Vec<u8>, ParseError>)
    ensures
        match digest {
            Ok(bytes) => decoded_digest(encoded@, decoded_view(decoded), n as nat) == Ok::<Seq<u8>, ParseErrorView>(bytes@),
            Err(error) => decoded_digest(encoded@, decoded_view(decoded), n as nat) == Err::<Seq<u8>, ParseErrorView>(error@),
        },
{
    match decoded {
        Some(bytes) => {
            if bytes.len() == n {
                Ok(bytes)
            } else {
                Err(ParseError::InvalidEncoding(encoded.to_owned()))
            }
        },
        None => Err(ParseError::InvalidEncoding(encoded.to_owned())),
    }
}

/// Write `bytes` in `format`'s encoding, behind `format`'s prefix, appending to `output`.
pub fn encode(format: &Format, bytes: &[u8], output: &mut String)
    ensures
        final(output)@ == old(output)@ + format.prefix@ + encoded_text(written_form(format.encoding), bytes@),
        written_form(format.decoding) == written_form(format.encoding) ==> decode_spec(
            *format,
            final(output)@.skip(old(output)@.len() as int),
            bytes@.len(),
        ) == Ok::<Seq<u8>, ParseErrorView>(bytes@),
        case_blind(format.decoding) && written_form(format.decoding) == written_form(format.encoding)
            ==> forall|other: Seq<char>| eq_ignore_ascii_case_spec(
                other,
                encoded_text(written_form(format.encoding), bytes@),
            ) ==> #[trigger] decode_spec(*format, format.prefix@ + other, bytes@.len())
                == Ok::<Seq<u8>, ParseErrorView>(bytes@),
{
    let ghost start = output@.len();
    output.append(format.prefix);
    let ghost middle = output@.len();
    encode_write(format.encoding, bytes, output);
    proof {
        let written = output@.skip(start as int);
        let text = output@.skip(middle as int);
        assert(written =~= format.prefix@ + text);
        assert(format.prefix@.is_prefix_of(written));
        assert(written.skip(format.prefix@.len() as int) =~= text);
        vstd::utf8::is_ascii_chars_encode_utf8(text);
        if written_form(format.decoding) == written_form(format.encoding) {
            assert(decoded_bytes(format.decoding, encode_utf8(text)) == Some(bytes@));
        }
        assert(text =~= encoded_text(written_form(format.encoding), bytes@));
        if case_blind(format.decoding) && written_form(format.decoding) == written_form(format.encoding) {
            assert forall|other: Seq<char>| eq_ignore_ascii_case_spec(other, encoded_text(written_form(format.encoding), bytes@))
                implies #[trigger] decode_spec(*format, format.prefix@ + other, bytes@.len())
                    == Ok::<Seq<u8>, ParseErrorView>(bytes@) by {
                lemma_case_variants_are_ascii(other, text);
                vstd::utf8::is_ascii_chars_encode_utf8(other);
                let input = format.prefix@ + other;
                assert(format.prefix@.is_prefix_of(input));
                assert(input.skip(format.prefix@.len() as int) =~= other);
                assert(decoded_bytes(format.decoding, encode_utf8(other)) == Some(bytes@));
            }
        }
    }
}

/// A text that equals an ASCII text up to the case of its letters is ASCII too.
proof fn lemma_case_variants_are_ascii(other: Seq<char>, text: Seq<char>)
    requires
        is_ascii_chars(text),
        eq_ignore_ascii_case_spec(other, text),
    ensures
        is_ascii_chars(other),
{
    assert forall|i: int| 0 <= i < other.len() implies '\0' <= #[trigger] other[i] <= '\u{7f}' by {
        assert(ascii_lower(other[i]) == ascii_lower(text[i]));
        assert('\0' <= text[i] <= '\u{7f}');
    }
}

/// Read the `n` digest bytes `input` encodes under `format`.
///
/// Fails with [`ParseError::MissingPrefix`] if `input` does not begin with the format's prefix,
/// [`ParseError::InvalidLength`] if the rest is not as long as the format writes an `n`-byte
/// digest, and [`ParseError::InvalidEncoding`] if it does not decode to exactly `n` bytes.
pub fn decode(format: &Format, input: &str, n: usize) -> (digest: Result<Vec<u8>, ParseError>)
    requires
        readable(*format, n as nat),
    ensures
        match digest {
            Ok(bytes) => decode_spec(*format, input@, n as nat) == Ok::<Seq<u8>, ParseErrorView>(bytes@),
            Err(error) => decode_spec(*format, input@, n as nat) == Err::<Seq<u8>, ParseErrorView>(error@),
        },
{
    let encoded = match strip_prefix(input, format.prefix) {
        Some(encoded) => encoded,
        None => {
            return Err(ParseError::MissingPrefix { prefix: format.prefix, value: input.to_owned() });
        },
    };
    let expected = encoded_len(format.encoding, n);
    let encoded_bytes = encoded.as_bytes();
    if encoded_bytes.len() != expected {
        return Err(ParseError::InvalidLength { expected, value: encoded.to_owned() });
    }
    let mut bytes: Vec<u8> = Vec::new();
    let mut i: usize = 0;
    while i < n
        invariant
            i <= n,
            bytes@.len() == i,
        decreases n - i,
    {
        bytes.push(0u8);
        i = i + 1;
    }
    proof {
        lemma_encode_len_bound(format.encoding, n as nat);
    }
    match decode_into(format.decoding, encoded_bytes, &mut bytes) {
        Some(written) => {
            bytes.truncate(written);
            accept_decoded(encoded, Some(bytes), n)
        },
        None => accept_decoded(encoded, None, n),
    }
}

impl ParseError {
    /// The error message.
    pub fn to_string(&self) -> (text: String)
        ensures
            text@ == match self@ {
                ParseErrorView::MissingPrefix { prefix, value } => "missing `"@ + prefix + "` digest prefix: "@ + value,
                ParseErrorView::InvalidLength { expected, value } => "invalid digest string length: expected "@
                    + crate::text::decimal(expected) + ", found `"@ + value + "`"@,
                ParseErrorView::InvalidEncoding(value) => "invalid digest encoding: "@ + value,
            },
    {
        match self {
            ParseError::MissingPrefix { prefix, value } => {
                let mut text = String::from_str("missing `");
                text.append(prefix);
                text.append("` digest prefix: ");
                text.append(value.as_str());
                text
            },
            ParseError::InvalidLength { expected, value } => {
                let mut text = String::from_str("invalid digest string length: expected ");
                crate::text::push_decimal(*expected as u64, &mut text);
                text.append(", found `");
                text.append(value.as_str());
                text.append("`");
                text
            },
            ParseError::InvalidEncoding(value) => {
                let mut text = String::from_str("invalid digest encoding: ");
                text.append(value.as_str());
                text
            },
        }
    }
}

} // verus!
