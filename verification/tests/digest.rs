use archivindex::digest::{accept_decoded, decode, encode, Codec, Format, ParseError};

/// The unpadded uppercase Base32 the Wayback Machine's CDX index writes SHA-1 digests in.
fn base32_sha1() -> Format {
    Format::new("", Codec::Base32)
}

/// The labelled lowercase hexadecimal WACZ manifests write SHA-256 digests in.
fn prefixed_sha256() -> Format {
    Format::new("sha256:", Codec::HexLower).with_decoding(Codec::HexLowerPermissive)
}

fn encoded(format: &Format, bytes: &[u8]) -> String {
    let mut text = String::new();
    encode(format, bytes, &mut text);
    text
}

#[test]
fn round_trips_a_known_value() {
    // The Base32 SHA-1 digest of the empty input, as the CDX index writes it.
    const EMPTY: &str = "3I42H3S6NNFQ2MSVX7XZKYAYSCX5QBYJ";

    let bytes = decode(&base32_sha1(), EMPTY, 20).expect("a digest");

    assert_eq!(encoded(&base32_sha1(), &bytes), EMPTY);
}

#[test]
fn a_prefix_is_written_and_required() {
    let text = encoded(&prefixed_sha256(), &[0; 32]);

    assert!(text.starts_with("sha256:"));
    assert_eq!(decode(&prefixed_sha256(), &text, 32), Ok(vec![0; 32]));
    assert_eq!(
        decode(&prefixed_sha256(), text.trim_start_matches("sha256:"), 32),
        Err(ParseError::MissingPrefix {
            prefix: "sha256:",
            value: text[7..].to_owned(),
        })
    );
}

#[test]
fn permissive_decoding_accepts_input_encoding_never_writes() {
    let text = encoded(&prefixed_sha256(), &[0xab; 32]);

    assert_eq!(
        decode(
            &prefixed_sha256(),
            &text.to_uppercase().replace("SHA256", "sha256"),
            32
        ),
        Ok(vec![0xab; 32])
    );
}

#[test]
fn the_wrong_length_is_rejected_before_decoding() {
    assert_eq!(
        decode(&base32_sha1(), "AAAA", 20),
        Err(ParseError::InvalidLength {
            expected: 32,
            value: "AAAA".to_owned(),
        })
    );
}

#[test]
fn padding_that_shortens_the_digest_is_rejected() {
    // Twenty-four Base32 characters carry fifteen bytes; the padding makes up the length.
    let padded = format!("{}========", "A".repeat(24));

    assert_eq!(
        decode(&base32_sha1(), &padded, 20),
        Err(ParseError::InvalidEncoding(padded))
    );
}

#[test]
fn characters_outside_the_alphabet_are_rejected() {
    let outside = "1".repeat(32);

    assert_eq!(
        decode(&base32_sha1(), &outside, 20),
        Err(ParseError::InvalidEncoding(outside))
    );
}

/// Every digest survives a round trip under both formats, and neither accepts the other's
/// output.
#[test]
fn digests_round_trip_under_their_own_format() {
    let samples: [[u8; 20]; 4] = [
        [0; 20],
        [0xff; 20],
        *b"0123456789abcdefghij",
        [7, 0, 200, 13, 255, 1, 2, 3, 99, 100, 128, 127, 64, 32, 16, 8, 4, 2, 1, 0],
    ];
    for bytes in samples {
        let base32 = encoded(&base32_sha1(), &bytes);
        let hex = encoded(&prefixed_sha256(), &bytes);

        assert_eq!(decode(&base32_sha1(), &base32, 20), Ok(bytes.to_vec()));
        assert_eq!(decode(&prefixed_sha256(), &hex, 20), Ok(bytes.to_vec()));
        assert!(decode(&prefixed_sha256(), &base32, 20).is_err());
        assert!(decode(&base32_sha1(), &hex, 20).is_err());
    }
}

#[test]
fn encoding_appends_behind_the_prefix() {
    let mut text = "digest=".to_owned();
    encode(&prefixed_sha256(), &[0xde, 0xad, 0xbe, 0xef], &mut text);

    assert_eq!(text, "digest=sha256:deadbeef");
}

#[test]
fn each_encoding_writes_its_own_alphabet() {
    let bytes = [0xfb, 0xff, 0x00];
    assert_eq!(encoded(&Format::new("", Codec::Base32NoPad), &bytes), "7P7QA");
    assert_eq!(encoded(&Format::new("", Codec::Base32), &bytes), "7P7QA===");
    assert_eq!(encoded(&Format::new("", Codec::Base64), &bytes), "+/8A");
    assert_eq!(encoded(&Format::new("", Codec::Base64NoPad), &bytes[..2]), "+/8");
    assert_eq!(encoded(&Format::new("", Codec::HexUpper), &bytes), "FBFF00");
    assert_eq!(encoded(&Format::new("", Codec::HexUpperPermissive), &bytes), "FBFF00");
    assert_eq!(encoded(&Format::new("", Codec::HexLowerPermissive), &bytes), "fbff00");
}

#[test]
fn errors_describe_the_value() {
    assert_eq!(
        ParseError::MissingPrefix { prefix: "sha256:", value: "abc".to_owned() }.to_string(),
        "missing `sha256:` digest prefix: abc"
    );
    assert_eq!(
        ParseError::InvalidLength { expected: 32, value: "AAAA".to_owned() }.to_string(),
        "invalid digest string length: expected 32, found `AAAA`"
    );
    assert_eq!(
        ParseError::InvalidEncoding("11".to_owned()).to_string(),
        "invalid digest encoding: 11"
    );
}

#[test]
fn a_short_decoding_is_not_a_digest() {

    assert_eq!(accept_decoded("AB", Some(vec![1, 2]), 2), Ok(vec![1, 2]));
    assert_eq!(
        accept_decoded("AB", Some(vec![1]), 2),
        Err(ParseError::InvalidEncoding("AB".to_owned()))
    );
    assert_eq!(
        accept_decoded("AB", None, 2),
        Err(ParseError::InvalidEncoding("AB".to_owned()))
    );
}

#[test]
fn permissive_decoding_reads_either_letter_case() {
    let lower = Format::new("", Codec::HexLower).with_decoding(Codec::HexLowerPermissive);
    let upper = Format::new("", Codec::HexUpper).with_decoding(Codec::HexUpperPermissive);

    assert_eq!(decode(&lower, "DeAdBeEf", 4), Ok(vec![0xde, 0xad, 0xbe, 0xef]));
    assert_eq!(decode(&upper, "deadBEEF", 4), Ok(vec![0xde, 0xad, 0xbe, 0xef]));
    assert_eq!(
        decode(&Format::new("", Codec::HexLower), "DEADBEEF", 4),
        Err(ParseError::InvalidEncoding("DEADBEEF".to_owned()))
    );
}

#[test]
fn long_inputs_are_encoded_whole() {
    let bytes = vec![0x5a; 5000];
    let text = encoded(&Format::new("", Codec::HexLower), &bytes);

    assert_eq!(text, "5a".repeat(5000));
}
