//! The query model of the CDX server protocol.

use vstd::prelude::*;

use crate::text::str_eq;

verus! {

broadcast use vstd::string::group_string_axioms;

/// The scope used to match a requested URL.
#[derive(Clone, Copy, Debug, Eq, Hash, Ord, PartialEq, PartialOrd, Structural)]
pub enum MatchType {
    /// Return captures of exactly the requested URL.
    Exact,
    /// Return captures whose URLs begin with the requested URL.
    Prefix,
    /// Return captures from the requested host.
    Host,
    /// Return captures from the requested host and its subdomains.
    Domain,
}

/// The value of the CDX server's `matchType` parameter for a scope.
pub open spec fn match_type_name(match_type: MatchType) -> Seq<char> {
    match match_type {
        MatchType::Exact => "exact"@,
        MatchType::Prefix => "prefix"@,
        MatchType::Host => "host"@,
        MatchType::Domain => "domain"@,
    }
}

/// The scope a `matchType` value names, if any.
pub open spec fn match_type_of(value: Seq<char>) -> Option<MatchType> {
    if value == "exact"@ {
        Some(MatchType::Exact)
    } else if value == "prefix"@ {
        Some(MatchType::Prefix)
    } else if value == "host"@ {
        Some(MatchType::Host)
    } else if value == "domain"@ {
        Some(MatchType::Domain)
    } else {
        None
    }
}

/// A value is not one of the match scopes supported by the CDX server.
#[derive(Clone, Debug, Eq, PartialEq)]
pub struct InvalidMatchType(pub String);

impl InvalidMatchType {
    /// The error message, naming the rejected value.
    pub fn to_string(&self) -> (text: String)
        ensures
            text@ == "invalid CDX match type: "@ + self.0@,
    {
        let mut text = String::from_str("invalid CDX match type: ");
        text.append(self.0.as_str());
        text
    }
}

impl MatchType {
    /// The value accepted by the CDX server's `matchType` parameter.
    pub fn as_str(self) -> (value: &'static str)
        ensures
            value@ == match_type_name(self),
    {
        match self {
            MatchType::Exact => "exact",
            MatchType::Prefix => "prefix",
            MatchType::Host => "host",
            MatchType::Domain => "domain",
        }
    }

    /// The protocol value as an owned string, which is how the scope is displayed.
    pub fn to_string(self) -> (text: String)
        ensures
            text@ == match_type_name(self),
    {
        self.as_str().to_owned()
    }

    /// Read a `matchType` value, rejecting any value that names no supported scope.
    pub fn parse(value: &str) -> (parsed: Result<MatchType, InvalidMatchType>)
        ensures
            match parsed {
                Ok(match_type) => match_type_of(value@) == Some(match_type),
                Err(error) => match_type_of(value@) is None && error.0@ == value@,
            },
    {
        if str_eq(value, "exact") {
            Ok(MatchType::Exact)
        } else if str_eq(value, "prefix") {
            Ok(MatchType::Prefix)
        } else if str_eq(value, "host") {
            Ok(MatchType::Host)
        } else if str_eq(value, "domain") {
            Ok(MatchType::Domain)
        } else {
            Err(InvalidMatchType(value.to_owned()))
        }
    }
}

impl std::str::FromStr for MatchType {
    type Err = InvalidMatchType;

    fn from_str(value: &str) -> (parsed: Result<MatchType, InvalidMatchType>)
        ensures
            match parsed {
                Ok(match_type) => match_type_of(value@) == Some(match_type),
                Err(error) => match_type_of(value@) is None && error.0@ == value@,
            },
    {
        MatchType::parse(value)
    }
}

/// Every scope is read back from its protocol value, and a value names at most one scope.
pub proof fn lemma_match_type_round_trip(match_type: MatchType, value: Seq<char>)
    ensures
        match_type_of(match_type_name(match_type)) == Some(match_type),
        match_type_of(value) == Some(match_type) ==> value == match_type_name(match_type),
{
    reveal_strlit("exact");
    reveal_strlit("prefix");
    reveal_strlit("host");
    reveal_strlit("domain");
    assert("exact"@ =~= seq!['e', 'x', 'a', 'c', 't']);
    assert("prefix"@ =~= seq!['p', 'r', 'e', 'f', 'i', 'x']);
    assert("host"@ =~= seq!['h', 'o', 's', 't']);
    assert("domain"@ =~= seq!['d', 'o', 'm', 'a', 'i', 'n']);
}

/// Parameters for one CDX server query.
#[derive(Clone, Debug, Eq, PartialEq)]
pub struct Request {
    /// The URL or URL prefix to look up.
    pub url: String,
    /// The scope of URL matches to return.
    pub match_type: MatchType,
    /// Whether the server should use its faster latest-results lookup.
    pub fast_latest: bool,
    /// The maximum number of results. A negative value requests the last N results.
    ///
    /// When absent, the query leaves the limit up to the CDX server.
    pub limit: Option<i64>,
}

impl Request {
    /// Construct one CDX server request.
    pub fn new(url: String, match_type: MatchType, fast_latest: bool, limit: Option<i64>) -> (
        request: Self)
        ensures
            request.url@ == url@,
            request.match_type == match_type,
            request.fast_latest == fast_latest,
            request.limit == limit,
    {
        Request { url, match_type, fast_latest, limit }
    }
}

} // verus!
