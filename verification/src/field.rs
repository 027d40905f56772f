//! Canonical field names shared by CDX representations.

use std::borrow::Cow;

use vstd::prelude::*;

use crate::text::str_eq;

verus! {

broadcast use vstd::string::group_string_axioms;

/// A semantic CDX field name.
///
/// Known aliases from CDXJ, the CDX Server API, and classic CDX legends map to dedicated
/// variants. Any other name or legend marker is retained verbatim, borrowed from the input it
/// was read from until [`Field::into_owned`] detaches it.
#[derive(Debug, Eq, Hash, Ord, PartialEq, PartialOrd)]
pub enum Field<'a> {
    /// Searchable URL key (`urlkey`, classic `N` or `A`).
    UrlKey,
    /// Capture timestamp (`timestamp`, classic `b`).
    Timestamp,
    /// Original captured URL (`url` or `original`, classic `a`).
    Url,
    /// Response media type (`mime` or `mimetype`, classic `m`).
    Mime,
    /// HTTP response status (`status` or `statuscode`, classic `s`).
    Status,
    /// Payload digest (`digest`, classic `k`).
    Digest,
    /// Redirect target (`redirect`, classic `r`).
    Redirect,
    /// Robots or AIF meta flags (`robotflags`, classic `M`).
    RobotFlags,
    /// Stored record length (`length`, classic `S`).
    Length,
    /// Stored record offset (`offset`, classic `V`).
    Offset,
    /// Archive filename (`filename`, classic `g`).
    Filename,
    /// Digest of the complete stored record (`recordDigest`).
    RecordDigest,
    /// Resolved revisit record length (`orig.length`).
    OriginalLength,
    /// Resolved revisit record offset (`orig.offset`).
    OriginalOffset,
    /// Resolved revisit archive filename (`orig.filename`).
    OriginalFilename,
    /// A field that is not modeled, under the name or legend marker it appeared with.
    Other(Cow<'a, str>),
}

/// The mathematical value of a [`Field`]: the same variants, with an unmodeled name held as its
/// characters.
pub enum FieldView {
    UrlKey,
    Timestamp,
    Url,
    Mime,
    Status,
    Digest,
    Redirect,
    RobotFlags,
    Length,
    Offset,
    Filename,
    RecordDigest,
    OriginalLength,
    OriginalOffset,
    OriginalFilename,
    Other(Seq<char>),
}

impl<'a> View for Field<'a> {
    type V = FieldView;

    open spec fn view(&self) -> FieldView {
        match self {
            Field::UrlKey => FieldView::UrlKey,
            Field::Timestamp => FieldView::Timestamp,
            Field::Url => FieldView::Url,
            Field::Mime => FieldView::Mime,
            Field::Status => FieldView::Status,
            Field::Digest => FieldView::Digest,
            Field::Redirect => FieldView::Redirect,
            Field::RobotFlags => FieldView::RobotFlags,
            Field::Length => FieldView::Length,
            Field::Offset => FieldView::Offset,
            Field::Filename => FieldView::Filename,
            Field::RecordDigest => FieldView::RecordDigest,
            Field::OriginalLength => FieldView::OriginalLength,
            Field::OriginalOffset => FieldView::OriginalOffset,
            Field::OriginalFilename => FieldView::OriginalFilename,
            Field::Other(name) => FieldView::Other(name@),
        }
    }
}

impl<'a> Clone for Field<'a> {
    /// The same field, borrowing an unmodeled name from where this one does, or copying an owned
    /// one.
    fn clone(&self) -> (copy: Self)
        ensures
            copy@ == self@,
    {
        match self {
            Field::UrlKey => Field::UrlKey,
            Field::Timestamp => Field::Timestamp,
            Field::Url => Field::Url,
            Field::Mime => Field::Mime,
            Field::Status => Field::Status,
            Field::Digest => Field::Digest,
            Field::Redirect => Field::Redirect,
            Field::RobotFlags => Field::RobotFlags,
            Field::Length => Field::Length,
            Field::Offset => Field::Offset,
            Field::Filename => Field::Filename,
            Field::RecordDigest => Field::RecordDigest,
            Field::OriginalLength => Field::OriginalLength,
            Field::OriginalOffset => Field::OriginalOffset,
            Field::OriginalFilename => Field::OriginalFilename,
            Field::Other(Cow::Borrowed(name)) => Field::Other(Cow::Borrowed(name)),
            Field::Other(Cow::Owned(name)) => Field::Other(Cow::Owned(name.clone())),
        }
    }
}

/// The field a CDXJ or CDX Server name denotes.
pub open spec fn named_spec(name: Seq<char>) -> FieldView {
    if name == "urlkey"@ {
        FieldView::UrlKey
    } else if name == "timestamp"@ {
        FieldView::Timestamp
    } else if name == "url"@ || name == "original"@ {
        FieldView::Url
    } else if name == "mime"@ || name == "mimetype"@ {
        FieldView::Mime
    } else if name == "status"@ || name == "statuscode"@ {
        FieldView::Status
    } else if name == "digest"@ {
        FieldView::Digest
    } else if name == "redirect"@ {
        FieldView::Redirect
    } else if name == "robotflags"@ || name == "meta"@ {
        FieldView::RobotFlags
    } else if name == "length"@ {
        FieldView::Length
    } else if name == "offset"@ {
        FieldView::Offset
    } else if name == "filename"@ {
        FieldView::Filename
    } else if name == "recordDigest"@ {
        FieldView::RecordDigest
    } else if name == "orig.length"@ {
        FieldView::OriginalLength
    } else if name == "orig.offset"@ {
        FieldView::OriginalOffset
    } else if name == "orig.filename"@ {
        FieldView::OriginalFilename
    } else {
        FieldView::Other(name)
    }
}

/// The field a classic CDX legend marker denotes.
pub open spec fn classic_spec(marker: Seq<char>) -> FieldView {
    if marker == "N"@ || marker == "A"@ {
        FieldView::UrlKey
    } else if marker == "b"@ {
        FieldView::Timestamp
    } else if marker == "a"@ {
        FieldView::Url
    } else if marker == "m"@ {
        FieldView::Mime
    } else if marker == "s"@ {
        FieldView::Status
    } else if marker == "k"@ {
        FieldView::Digest
    } else if marker == "R"@ || marker == "r"@ {
        FieldView::Redirect
    } else if marker == "M"@ {
        FieldView::RobotFlags
    } else if marker == "S"@ {
        FieldView::Length
    } else if marker == "V"@ {
        FieldView::Offset
    } else if marker == "g"@ {
        FieldView::Filename
    } else {
        FieldView::Other(marker)
    }
}

/// The canonical CDXJ and CDX Server name of a field, or the name an unmodeled field appeared
/// with.
pub open spec fn name_spec(field: FieldView) -> Seq<char> {
    match field {
        FieldView::UrlKey => "urlkey"@,
        FieldView::Timestamp => "timestamp"@,
        FieldView::Url => "url"@,
        FieldView::Mime => "mime"@,
        FieldView::Status => "status"@,
        FieldView::Digest => "digest"@,
        FieldView::Redirect => "redirect"@,
        FieldView::RobotFlags => "robotflags"@,
        FieldView::Length => "length"@,
        FieldView::Offset => "offset"@,
        FieldView::Filename => "filename"@,
        FieldView::RecordDigest => "recordDigest"@,
        FieldView::OriginalLength => "orig.length"@,
        FieldView::OriginalOffset => "orig.offset"@,
        FieldView::OriginalFilename => "orig.filename"@,
        FieldView::Other(name) => name,
    }
}

impl<'a> Field<'a> {
    /// Interpret a named CDXJ or CDX Server field.
    ///
    /// An unmodeled name is borrowed from `name`, not copied.
    pub fn named(name: &'a str) -> (field: Self)
        ensures
            field@ == named_spec(name@),
            field@ is Other ==> field == Field::Other(Cow::Borrowed(name)),
    {
        if str_eq(name, "urlkey") {
            Field::UrlKey
        } else if str_eq(name, "timestamp") {
            Field::Timestamp
        } else if str_eq(name, "url") || str_eq(name, "original") {
            Field::Url
        } else if str_eq(name, "mime") || str_eq(name, "mimetype") {
            Field::Mime
        } else if str_eq(name, "status") || str_eq(name, "statuscode") {
            Field::Status
        } else if str_eq(name, "digest") {
            Field::Digest
        } else if str_eq(name, "redirect") {
            Field::Redirect
        } else if str_eq(name, "robotflags") || str_eq(name, "meta") {
            Field::RobotFlags
        } else if str_eq(name, "length") {
            Field::Length
        } else if str_eq(name, "offset") {
            Field::Offset
        } else if str_eq(name, "filename") {
            Field::Filename
        } else if str_eq(name, "recordDigest") {
            Field::RecordDigest
        } else if str_eq(name, "orig.length") {
            Field::OriginalLength
        } else if str_eq(name, "orig.offset") {
            Field::OriginalOffset
        } else if str_eq(name, "orig.filename") {
            Field::OriginalFilename
        } else {
            Field::Other(Cow::Borrowed(name))
        }
    }

    /// Interpret a marker from a classic CDX legend.
    ///
    /// An unmodeled marker is borrowed from `marker`, not copied.
    pub fn classic(marker: &'a str) -> (field: Self)
        ensures
            field@ == classic_spec(marker@),
            field@ is Other ==> field == Field::Other(Cow::Borrowed(marker)),
    {
        if str_eq(marker, "N") || str_eq(marker, "A") {
            Field::UrlKey
        } else if str_eq(marker, "b") {
            Field::Timestamp
        } else if str_eq(marker, "a") {
            Field::Url
        } else if str_eq(marker, "m") {
            Field::Mime
        } else if str_eq(marker, "s") {
            Field::Status
        } else if str_eq(marker, "k") {
            Field::Digest
        } else if str_eq(marker, "R") || str_eq(marker, "r") {
            Field::Redirect
        } else if str_eq(marker, "M") {
            Field::RobotFlags
        } else if str_eq(marker, "S") {
            Field::Length
        } else if str_eq(marker, "V") {
            Field::Offset
        } else if str_eq(marker, "g") {
            Field::Filename
        } else {
            Field::Other(Cow::Borrowed(marker))
        }
    }

    /// The canonical field name used by CDXJ and CDX Server JSON, or the name an unmodeled
    /// field appeared with.
    pub fn as_name(&self) -> (name: &str)
        ensures
            name@ == name_spec(self@),
    {
        match self {
            Field::UrlKey => "urlkey",
            Field::Timestamp => "timestamp",
            Field::Url => "url",
            Field::Mime => "mime",
            Field::Status => "status",
            Field::Digest => "digest",
            Field::Redirect => "redirect",
            Field::RobotFlags => "robotflags",
            Field::Length => "length",
            Field::Offset => "offset",
            Field::Filename => "filename",
            Field::RecordDigest => "recordDigest",
            Field::OriginalLength => "orig.length",
            Field::OriginalOffset => "orig.offset",
            Field::OriginalFilename => "orig.filename",
            Field::Other(Cow::Borrowed(name)) => name,
            Field::Other(Cow::Owned(name)) => name.as_str(),
        }
    }

    /// Detach this field name from borrowed input: the same field, with an unmodeled name held
    /// as an owned string.
    pub fn into_owned(self) -> (field: Field<'static>)
        ensures
            field@ == self@,
            field@ is Other ==> field matches Field::Other(Cow::Owned(_)),
    {
        match self {
            Field::Other(Cow::Borrowed(value)) => Field::Other(Cow::Owned(value.to_owned())),
            Field::Other(Cow::Owned(value)) => Field::Other(Cow::Owned(value)),
            Field::UrlKey => Field::UrlKey,
            Field::Timestamp => Field::Timestamp,
            Field::Url => Field::Url,
            Field::Mime => Field::Mime,
            Field::Status => Field::Status,
            Field::Digest => Field::Digest,
            Field::Redirect => Field::Redirect,
            Field::RobotFlags => Field::RobotFlags,
            Field::Length => Field::Length,
            Field::Offset => Field::Offset,
            Field::Filename => Field::Filename,
            Field::RecordDigest => Field::RecordDigest,
            Field::OriginalLength => Field::OriginalLength,
            Field::OriginalOffset => Field::OriginalOffset,
            Field::OriginalFilename => Field::OriginalFilename,
        }
    }

    /// The canonical name as an owned string, which is how the field is displayed.
    pub fn to_string(&self) -> (text: String)
        ensures
            text@ == name_spec(self@),
    {
        self.as_name().to_owned()
    }
}

/// Whether a name is one of the canonical names or aliases that [`Field::named`] models.
pub open spec fn is_modeled_name(name: Seq<char>) -> bool {
    name == "urlkey"@ || name == "timestamp"@ || name == "url"@ || name == "original"@
        || name == "mime"@ || name == "mimetype"@ || name == "status"@ || name == "statuscode"@
        || name == "digest"@ || name == "redirect"@ || name == "robotflags"@ || name == "meta"@
        || name == "length"@ || name == "offset"@ || name == "filename"@ || name == "recordDigest"@
        || name == "orig.length"@ || name == "orig.offset"@ || name == "orig.filename"@
}

/// Every name resolves to a field whose canonical name resolves to that same field: aliases are
/// canonicalized, and any other name is kept verbatim, so that it is also its own canonical name.
///
/// [`Field::named`] gives `named_spec` (borrowing an unmodeled name), and [`Field::as_name`] and
/// [`Field::to_string`] give `name_spec`, so `Field::named(f.as_name()) == f` for
/// `f = Field::named(name)`.
pub proof fn lemma_names_are_canonical(name: Seq<char>)
    ensures
        named_spec(name_spec(named_spec(name))) == named_spec(name),
        named_spec(name) is Other <==> !is_modeled_name(name),
        !is_modeled_name(name) ==> named_spec(name) == FieldView::Other(name) && name_spec(
            named_spec(name),
        ) == name,
{
    reveal_strlit("urlkey");
    assert("urlkey"@ =~= seq!['u', 'r', 'l', 'k', 'e', 'y']);
    reveal_strlit("timestamp");
    assert("timestamp"@ =~= seq!['t', 'i', 'm', 'e', 's', 't', 'a', 'm', 'p']);
    reveal_strlit("url");
    assert("url"@ =~= seq!['u', 'r', 'l']);
    reveal_strlit("original");
    assert("original"@ =~= seq!['o', 'r', 'i', 'g', 'i', 'n', 'a', 'l']);
    reveal_strlit("mime");
    assert("mime"@ =~= seq!['m', 'i', 'm', 'e']);
    reveal_strlit("mimetype");
    assert("mimetype"@ =~= seq!['m', 'i', 'm', 'e', 't', 'y', 'p', 'e']);
    reveal_strlit("status");
    assert("status"@ =~= seq!['s', 't', 'a', 't', 'u', 's']);
    reveal_strlit("statuscode");
    assert("statuscode"@ =~= seq!['s', 't', 'a', 't', 'u', 's', 'c', 'o', 'd', 'e']);
    reveal_strlit("digest");
    assert("digest"@ =~= seq!['d', 'i', 'g', 'e', 's', 't']);
    reveal_strlit("redirect");
    assert("redirect"@ =~= seq!['r', 'e', 'd', 'i', 'r', 'e', 'c', 't']);
    reveal_strlit("robotflags");
    assert("robotflags"@ =~= seq!['r', 'o', 'b', 'o', 't', 'f', 'l', 'a', 'g', 's']);
    reveal_strlit("meta");
    assert("meta"@ =~= seq!['m', 'e', 't', 'a']);
    reveal_strlit("length");
    assert("length"@ =~= seq!['l', 'e', 'n', 'g', 't', 'h']);
    reveal_strlit("offset");
    assert("offset"@ =~= seq!['o', 'f', 'f', 's', 'e', 't']);
    reveal_strlit("filename");
    assert("filename"@ =~= seq!['f', 'i', 'l', 'e', 'n', 'a', 'm', 'e']);
    reveal_strlit("recordDigest");
    assert("recordDigest"@ =~= seq!['r', 'e', 'c', 'o', 'r', 'd', 'D', 'i', 'g', 'e', 's', 't']);
    reveal_strlit("orig.length");
    assert("orig.length"@ =~= seq!['o', 'r', 'i', 'g', '.', 'l', 'e', 'n', 'g', 't', 'h']);
    reveal_strlit("orig.offset");
    assert("orig.offset"@ =~= seq!['o', 'r', 'i', 'g', '.', 'o', 'f', 'f', 's', 'e', 't']);
    reveal_strlit("orig.filename");
    assert("orig.filename"@ =~= seq!['o', 'r', 'i', 'g', '.', 'f', 'i', 'l', 'e', 'n', 'a', 'm', 'e']);
}

/// Whether a marker is one of the classic CDX legend markers that [`Field::classic`] models: `N`,
/// `A`, `b`, `a`, `m`, `s`, `k`, `R`, `r`, `M`, `S`, `V` and `g`.
pub open spec fn is_modeled_marker(marker: Seq<char>) -> bool {
    marker == "N"@ || marker == "A"@ || marker == "b"@ || marker == "a"@ || marker == "m"@
        || marker == "s"@ || marker == "k"@ || marker == "R"@ || marker == "r"@ || marker == "M"@
        || marker == "S"@ || marker == "V"@ || marker == "g"@
}

/// Only the modeled legend markers resolve to a modeled field: every other marker, such as `v`
/// (the uncompressed offset) or `e` (the IP address), is kept verbatim as an unmodeled field.
pub proof fn lemma_only_modeled_markers_resolve(marker: Seq<char>)
    ensures
        is_modeled_marker(marker) <==> !(classic_spec(marker) is Other),
        !is_modeled_marker(marker) ==> classic_spec(marker) == FieldView::Other(marker),
{
}

/// A classic legend marker of one character resolves to a field whose canonical name resolves to
/// that same field.
pub proof fn lemma_classic_markers_are_canonical(marker: Seq<char>)
    requires
        marker.len() == 1,
    ensures
        named_spec(name_spec(classic_spec(marker))) == classic_spec(marker),
{
    reveal_strlit("N");
    assert("N"@ =~= seq!['N']);
    reveal_strlit("A");
    assert("A"@ =~= seq!['A']);
    reveal_strlit("b");
    assert("b"@ =~= seq!['b']);
    reveal_strlit("a");
    assert("a"@ =~= seq!['a']);
    reveal_strlit("m");
    assert("m"@ =~= seq!['m']);
    reveal_strlit("s");
    assert("s"@ =~= seq!['s']);
    reveal_strlit("k");
    assert("k"@ =~= seq!['k']);
    reveal_strlit("R");
    assert("R"@ =~= seq!['R']);
    reveal_strlit("r");
    assert("r"@ =~= seq!['r']);
    reveal_strlit("M");
    assert("M"@ =~= seq!['M']);
    reveal_strlit("S");
    assert("S"@ =~= seq!['S']);
    reveal_strlit("V");
    assert("V"@ =~= seq!['V']);
    reveal_strlit("g");
    assert("g"@ =~= seq!['g']);
    reveal_strlit("urlkey");
    assert("urlkey"@.len() == 6);
    reveal_strlit("timestamp");
    assert("timestamp"@.len() == 9);
    reveal_strlit("url");
    assert("url"@.len() == 3);
    reveal_strlit("original");
    assert("original"@.len() == 8);
    reveal_strlit("mime");
    assert("mime"@.len() == 4);
    reveal_strlit("mimetype");
    assert("mimetype"@.len() == 8);
    reveal_strlit("status");
    assert("status"@.len() == 6);
    reveal_strlit("statuscode");
    assert("statuscode"@.len() == 10);
    reveal_strlit("digest");
    assert("digest"@.len() == 6);
    reveal_strlit("redirect");
    assert("redirect"@.len() == 8);
    reveal_strlit("robotflags");
    assert("robotflags"@.len() == 10);
    reveal_strlit("meta");
    assert("meta"@.len() == 4);
    reveal_strlit("length");
    assert("length"@.len() == 6);
    reveal_strlit("offset");
    assert("offset"@.len() == 6);
    reveal_strlit("filename");
    assert("filename"@.len() == 8);
    reveal_strlit("recordDigest");
    assert("recordDigest"@.len() == 12);
    reveal_strlit("orig.length");
    assert("orig.length"@.len() == 11);
    reveal_strlit("orig.offset");
    assert("orig.offset"@.len() == 11);
    reveal_strlit("orig.filename");
    assert("orig.filename"@.len() == 13);
    if !(classic_spec(marker) is Other) {
        lemma_modeled_names_resolve(classic_spec(marker));
    }
}

/// The canonical name of a modeled field resolves to that field.
pub proof fn lemma_modeled_names_resolve(field: FieldView)
    requires
        !(field is Other),
    ensures
        named_spec(name_spec(field)) == field,
{
    reveal_strlit("urlkey");
    assert("urlkey"@ =~= seq!['u', 'r', 'l', 'k', 'e', 'y']);
    reveal_strlit("timestamp");
    assert("timestamp"@ =~= seq!['t', 'i', 'm', 'e', 's', 't', 'a', 'm', 'p']);
    reveal_strlit("url");
    assert("url"@ =~= seq!['u', 'r', 'l']);
    reveal_strlit("original");
    assert("original"@ =~= seq!['o', 'r', 'i', 'g', 'i', 'n', 'a', 'l']);
    reveal_strlit("mime");
    assert("mime"@ =~= seq!['m', 'i', 'm', 'e']);
    reveal_strlit("mimetype");
    assert("mimetype"@ =~= seq!['m', 'i', 'm', 'e', 't', 'y', 'p', 'e']);
    reveal_strlit("status");
    assert("status"@ =~= seq!['s', 't', 'a', 't', 'u', 's']);
    reveal_strlit("statuscode");
    assert("statuscode"@ =~= seq!['s', 't', 'a', 't', 'u', 's', 'c', 'o', 'd', 'e']);
    reveal_strlit("digest");
    assert("digest"@ =~= seq!['d', 'i', 'g', 'e', 's', 't']);
    reveal_strlit("redirect");
    assert("redirect"@ =~= seq!['r', 'e', 'd', 'i', 'r', 'e', 'c', 't']);
    reveal_strlit("robotflags");
    assert("robotflags"@ =~= seq!['r', 'o', 'b', 'o', 't', 'f', 'l', 'a', 'g', 's']);
    reveal_strlit("meta");
    assert("meta"@ =~= seq!['m', 'e', 't', 'a']);
    reveal_strlit("length");
    assert("length"@ =~= seq!['l', 'e', 'n', 'g', 't', 'h']);
    reveal_strlit("offset");
    assert("offset"@ =~= seq!['o', 'f', 'f', 's', 'e', 't']);
    reveal_strlit("filename");
    assert("filename"@ =~= seq!['f', 'i', 'l', 'e', 'n', 'a', 'm', 'e']);
    reveal_strlit("recordDigest");
    assert("recordDigest"@ =~= seq!['r', 'e', 'c', 'o', 'r', 'd', 'D', 'i', 'g', 'e', 's', 't']);
    reveal_strlit("orig.length");
    assert("orig.length"@ =~= seq!['o', 'r', 'i', 'g', '.', 'l', 'e', 'n', 'g', 't', 'h']);
    reveal_strlit("orig.offset");
    assert("orig.offset"@ =~= seq!['o', 'r', 'i', 'g', '.', 'o', 'f', 'f', 's', 'e', 't']);
    reveal_strlit("orig.filename");
    assert("orig.filename"@ =~= seq!['o', 'r', 'i', 'g', '.', 'f', 'i', 'l', 'e', 'n', 'a', 'm', 'e']);
}

} // verus!
