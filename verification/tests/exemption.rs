use archivindex::workspace::exemption::Rule;

#[test]
fn exemptable_rules_are_named_by_their_manifest_keys() {
    assert_eq!(Rule::parse("lints.workspace"), Some(Rule::Lints));
    assert_eq!(Rule::parse("package.license"), Some(Rule::Package("license")));
    assert_eq!(Rule::parse("package.authors"), Some(Rule::Package("authors")));
    assert_eq!(
        Rule::parse("dependencies.serde"),
        Some(Rule::Dependency("serde".to_owned()))
    );
}

#[test]
fn other_names_are_not_exemptable() {
    for name in [
        "package.version",
        "package.",
        "dependencies.",
        "workspace.resolver",
        "lints",
        "",
    ] {
        assert_eq!(Rule::parse(name), None, "{name}");
    }
}

#[test]
fn rule_names_round_trip() {
    for rule in [
        Rule::Lints,
        Rule::Package("license"),
        Rule::Package("authors"),
        Rule::Dependency("fixture-helper".to_owned()),
    ] {
        assert_eq!(Rule::parse(&rule.to_string()), Some(rule));
    }
}
