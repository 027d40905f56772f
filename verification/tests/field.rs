use std::borrow::Cow;

use archivindex::field::Field;

fn canonical_fields() -> Vec<(&'static str, Field<'static>)> {
    vec![
        ("urlkey", Field::UrlKey),
        ("timestamp", Field::Timestamp),
        ("url", Field::Url),
        ("mime", Field::Mime),
        ("status", Field::Status),
        ("digest", Field::Digest),
        ("redirect", Field::Redirect),
        ("robotflags", Field::RobotFlags),
        ("length", Field::Length),
        ("offset", Field::Offset),
        ("filename", Field::Filename),
        ("recordDigest", Field::RecordDigest),
        ("orig.length", Field::OriginalLength),
        ("orig.offset", Field::OriginalOffset),
        ("orig.filename", Field::OriginalFilename),
    ]
}

#[test]
fn named_aliases_resolve_to_canonical_fields() {
    let aliases = [
        ("original", Field::Url),
        ("mimetype", Field::Mime),
        ("statuscode", Field::Status),
        ("meta", Field::RobotFlags),
    ];

    for (name, expected) in canonical_fields().into_iter().chain(aliases) {
        assert_eq!(Field::named(name), expected);
        assert_eq!(expected.as_name(), expected.to_string());
    }
}

#[test]
fn classic_aliases_resolve_to_canonical_fields() {
    let cases = [
        ("N", Field::UrlKey),
        ("A", Field::UrlKey),
        ("b", Field::Timestamp),
        ("a", Field::Url),
        ("m", Field::Mime),
        ("s", Field::Status),
        ("k", Field::Digest),
        ("R", Field::Redirect),
        ("r", Field::Redirect),
        ("M", Field::RobotFlags),
        ("S", Field::Length),
        ("V", Field::Offset),
        ("g", Field::Filename),
    ];

    for (marker, expected) in cases {
        assert_eq!(Field::classic(marker), expected);
    }
}

#[test]
fn ownership_conversion_preserves_every_field() {
    for (_, field) in canonical_fields() {
        assert_eq!(field.clone().into_owned(), field);
    }

    let field = Field::Other(Cow::Borrowed("custom"));
    assert_eq!(
        field.into_owned(),
        Field::Other(Cow::Owned("custom".to_owned()))
    );
}

#[test]
fn canonical_names_are_the_names_fields_are_written_under() {
    for (name, field) in canonical_fields() {
        assert_eq!(field.as_name(), name);
    }
    assert_eq!(Field::Other(Cow::Borrowed("custom")).as_name(), "custom");
    assert_eq!(Field::Other(Cow::Owned("custom".to_owned())).as_name(), "custom");
}

#[test]
fn unmodeled_names_are_kept_verbatim() {
    assert!(matches!(Field::named("Original"), Field::Other(Cow::Borrowed("Original"))));
    assert!(matches!(Field::named(""), Field::Other(Cow::Borrowed(""))));
    assert!(matches!(Field::classic("urlkey"), Field::Other(Cow::Borrowed("urlkey"))));
    assert!(matches!(Field::classic("z"), Field::Other(Cow::Borrowed("z"))));
    assert!(matches!(
        Field::named("custom").into_owned(),
        Field::Other(Cow::Owned(name)) if name == "custom"
    ));
}

/// Aliases resolve to a canonical name that names the same field.
#[test]
fn names_are_canonical() {
    for name in [
        "original", "mimetype", "statuscode", "meta", "url", "urlkey", "recordDigest", "custom",
        "", "orig.offset", "ORIGINAL", "日本",
    ] {
        let field = Field::named(name);
        assert_eq!(Field::named(field.as_name()), field);
    }
}

#[test]
fn classic_markers_are_canonical() {
    for marker in [
        "N", "A", "b", "a", "m", "s", "k", "R", "r", "M", "S", "V", "g", "c", "e", "n", "z",
    ] {
        let field = Field::classic(marker);
        assert_eq!(Field::named(field.as_name()), field);
    }
}
