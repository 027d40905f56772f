use archivindex::query::{InvalidMatchType, MatchType, Request};

#[test]
fn match_types_round_trip_through_their_protocol_values() {
    for match_type in [
        MatchType::Exact,
        MatchType::Prefix,
        MatchType::Host,
        MatchType::Domain,
    ] {
        assert_eq!(match_type.to_string(), match_type.as_str());
        assert_eq!(match_type.as_str().parse::<MatchType>(), Ok(match_type));
    }
}

#[test]
fn an_unknown_scope_is_rejected() {
    assert_eq!(
        "everything".parse::<MatchType>(),
        Err(InvalidMatchType("everything".to_owned()))
    );
}

#[test]
fn match_types_have_their_protocol_values() {
    assert_eq!(MatchType::Exact.as_str(), "exact");
    assert_eq!(MatchType::Prefix.as_str(), "prefix");
    assert_eq!(MatchType::Host.as_str(), "host");
    assert_eq!(MatchType::Domain.as_str(), "domain");
}

#[test]
fn protocol_values_are_matched_exactly() {
    assert_eq!(
        MatchType::parse("Prefix"),
        Err(InvalidMatchType("Prefix".to_owned()))
    );
    assert_eq!(MatchType::parse(""), Err(InvalidMatchType(String::new())));
    assert_eq!(
        InvalidMatchType("everything".to_owned()).to_string(),
        "invalid CDX match type: everything"
    );
}

#[test]
fn a_request_keeps_what_it_was_built_with() {
    let request = Request::new("example.com/docs/".to_owned(), MatchType::Prefix, true, Some(-5));

    assert_eq!(request.url, "example.com/docs/");
    assert_eq!(request.match_type, MatchType::Prefix);
    assert!(request.fast_latest);
    assert_eq!(request.limit, Some(-5));

    let unlimited = Request::new("example.com".to_owned(), MatchType::Exact, false, None);
    assert_eq!(unlimited.limit, None);
}
