use std::collections::BTreeMap;

use archivindex::workspace::check::{config_paths, project};
use archivindex::workspace::document::{parse, TomlItem};
use archivindex::workspace::{violations_summary, Member, Package, Project, Violation};

const ROOT: &str = r#"[workspace]
members = ["helper", "member"]
resolver = "3"

[workspace.package]
authors = ["Archivindex developers"]
repository = "https://example.com/project"
edition = "2024"
rust-version = "1.88"
readme = "README.md"
license = "MIT OR Apache-2.0"
version = "0.1.0"

[workspace.dependencies]
fixture-helper = { path = "helper" }

[workspace.lints.rust]
missing_docs = "deny"
rust_2018_idioms = { level = "warn", priority = -1 }
unsafe_code = "forbid"

[workspace.lints.clippy]
all = { level = "warn", priority = -1 }
pedantic = { level = "warn", priority = -1 }
nursery = { level = "warn", priority = -1 }
missing_errors_doc = "allow"
"#;

const HELPER: &str = r#"[package]
name = "fixture-helper"
authors.workspace = true
repository.workspace = true
edition.workspace = true
rust-version.workspace = true
license.workspace = true
version.workspace = true
publish = false

[lints]
workspace = true
"#;

const MEMBER: &str = r#"[package]
name = "fixture-member"
description = "A fixture"
authors.workspace = true
repository.workspace = true
edition.workspace = true
rust-version.workspace = true
readme.workspace = true
license.workspace = true
version.workspace = true

[package.metadata.docs.rs]
all-features = true
rustdoc-args = ["--cfg", "docsrs"]

[lints]
workspace = true

[dependencies]
fixture-helper.workspace = true
"#;

const DENY: &str = r#"[graph]
all-features = true

[advisories]
version = 2

[bans]
multiple-versions = "warn"
wildcards = "deny"

[licenses]
version = 2
allow = ["MIT"]

[sources]
unknown-registry = "deny"
unknown-git = "deny"
"#;

/// The directory the fixture workspace lives in.
const DIRECTORY: &str = "/fixture";

/// A workspace that starts out conforming and can then be broken in one way: its files, and
/// the members that the workspace metadata lists.
struct Fixture {
    files: BTreeMap<String, String>,
    members: Vec<(String, String, bool)>,
}

fn path(relative: &str) -> String {
    format!("{DIRECTORY}/{relative}")
}

impl Fixture {
    fn new() -> Self {
        let mut fixture = Self {
            files: BTreeMap::new(),
            members: vec![
                ("fixture-helper".to_owned(), "helper/Cargo.toml".to_owned(), false),
                ("fixture-member".to_owned(), "member/Cargo.toml".to_owned(), true),
            ],
        };

        fixture.write("Cargo.toml", ROOT);
        fixture.write("helper/Cargo.toml", HELPER);
        fixture.write("member/Cargo.toml", MEMBER);
        fixture.write("deny.toml", DENY);
        fixture.write(
            "rustfmt.toml",
            "group_imports = \"StdExternalCrate\"\nimports_granularity = \"Module\"\n",
        );
        fixture.write(
            ".taplo.toml",
            "exclude = [\"target/**\"]\n\n[formatting]\ncolumn_width = 100\n",
        );
        fixture
    }

    fn write(&mut self, relative: &str, contents: &str) {
        self.files.insert(relative.to_owned(), contents.to_owned());
    }

    fn read(&self, relative: &str) -> String {
        self.files[relative].clone()
    }

    fn remove(&mut self, relative: &str) {
        self.files.remove(relative).expect("the fixture file must exist");
    }

    /// Replace the first occurrence of `original` in a fixture file.
    fn replace(&mut self, relative: &str, original: &str, replacement: &str) {
        let contents = self.read(relative);
        assert!(contents.contains(original), "{relative} has no {original:?}");
        self.write(relative, &contents.replacen(original, replacement, 1));
    }

    fn document(&self, relative: &str) -> Option<TomlItem> {
        self.files.get(relative).map(|text| {
            parse(&path(relative), text).expect("the fixture file must be valid TOML")
        })
    }

    fn check(&self) -> Vec<Violation> {
        let workspace = Project {
            root: DIRECTORY.to_owned(),
            root_manifest: path("Cargo.toml"),
            members: self
                .members
                .iter()
                .map(|(name, manifest, publishable)| Member {
                    name: name.clone(),
                    manifest_path: path(manifest),
                    publishable: *publishable,
                })
                .collect(),
        };
        let root = self.document("Cargo.toml").expect("a root manifest");
        let members: Vec<TomlItem> = self
            .members
            .iter()
            .map(|(_, manifest, _)| self.document(manifest).expect("a member manifest"))
            .collect();
        let rustfmt = self.document("rustfmt.toml");
        let taplo = self.document(".taplo.toml");
        let deny = self.document("deny.toml");

        project(
            &workspace,
            &root,
            &members,
            rustfmt.as_ref(),
            taplo.as_ref(),
            deny.as_ref(),
        )
    }

    /// The messages reported for one fixture file.
    fn messages(&self, relative: &str) -> Vec<String> {
        let path = path(relative);
        self.check()
            .into_iter()
            .filter(|violation| violation.path == path)
            .map(|violation| violation.message)
            .collect()
    }
}

/// Whether any message contains `text`.
fn mentions(messages: &[String], text: &str) -> bool {
    messages.iter().any(|message| message.contains(text))
}

/// Declare an exemption of `package` from `rule` in the fixture's root manifest.
fn exempt(fixture: &mut Fixture, package: &str, rule: &str) {
    let root = fixture.read("Cargo.toml");
    fixture.write(
        "Cargo.toml",
        &format!(
            "{root}\n[workspace.metadata.archivindex-build]\nexemptions = [\
             {{ package = \"{package}\", rule = \"{rule}\", reason = \"Because.\" }}]\n"
        ),
    );
}

#[test]
fn accepts_a_conforming_project() {
    let fixture = Fixture::new();
    let violations = fixture.check();
    assert!(violations.is_empty(), "{violations:#?}");
}

#[test]
fn reports_workspace_metadata_and_lints() {
    let mut fixture = Fixture::new();
    // The members inherit from `[workspace.package]`, so a root stripped of it needs none.
    fixture.write("Cargo.toml", "[workspace]\nmembers = []\n");
    fixture.members.clear();
    let messages = fixture.messages("Cargo.toml");

    assert!(mentions(&messages, "workspace.resolver"));
    assert!(mentions(&messages, "[workspace.package] must define `license`"));
    assert!(mentions(&messages, "[workspace.package] must define `readme`"));
    assert!(mentions(&messages, "workspace.lints.rust.unsafe_code"));
}

#[test]
fn reports_a_missing_configuration_file() {
    for file in ["deny.toml", "rustfmt.toml", ".taplo.toml"] {
        let mut fixture = Fixture::new();
        fixture.remove(file);
        assert_eq!(fixture.messages(file), ["file is missing"]);
    }
}

#[test]
fn reports_a_permissive_deny_configuration() {
    let mut fixture = Fixture::new();
    fixture.replace("deny.toml", "wildcards = \"deny\"", "wildcards = \"allow\"");
    fixture.replace("deny.toml", "all-features = true", "all-features = false");
    let messages = fixture.messages("deny.toml");

    assert!(mentions(&messages, "`bans.wildcards` must be \"deny\""));
    assert!(mentions(&messages, "`graph.all-features` must be true"));
}

#[test]
fn reports_an_unsorted_dependency_table() {
    let mut fixture = Fixture::new();
    fixture.replace(
        "Cargo.toml",
        "fixture-helper = { path = \"helper\" }",
        "zzz = { path = \"helper\", package = \"fixture-helper\" }\nfixture-helper = { path = \"helper\" }",
    );

    assert!(mentions(
        &fixture.messages("Cargo.toml"),
        "`fixture-helper` must precede `zzz`"
    ));
}

#[test]
fn reports_an_unused_workspace_dependency() {
    let mut fixture = Fixture::new();
    fixture.replace("member/Cargo.toml", "fixture-helper.workspace = true", "");

    assert!(mentions(
        &fixture.messages("Cargo.toml"),
        "`workspace.dependencies.fixture-helper` is not used by any member"
    ));
}

#[test]
fn reports_a_dependency_that_does_not_inherit() {
    let mut fixture = Fixture::new();
    fixture.replace(
        "member/Cargo.toml",
        "fixture-helper.workspace = true",
        "fixture-helper = { path = \"../helper\" }",
    );

    assert!(mentions(
        &fixture.messages("member/Cargo.toml"),
        "`fixture-helper` has a workspace entry"
    ));
}

#[test]
fn reports_incomplete_metadata_only_on_publishable_packages() {
    let mut fixture = Fixture::new();
    fixture.replace("member/Cargo.toml", "description = \"A fixture\"\n", "");
    fixture.replace("member/Cargo.toml", "readme.workspace = true\n", "");
    fixture.replace("member/Cargo.toml", "all-features = true", "all-features = false");
    let messages = fixture.messages("member/Cargo.toml");

    assert!(mentions(&messages, "[package] must define `description`"));
    assert!(mentions(&messages, "[package] must define `readme`"));
    assert!(mentions(&messages, "docs.rs.all-features"));
    // The helper is `publish = false`, and declares none of this.
    assert!(fixture.messages("helper/Cargo.toml").is_empty());
}

#[test]
fn an_exemption_excuses_the_rule_it_names() {
    let mut fixture = Fixture::new();
    fixture.replace("member/Cargo.toml", "license.workspace = true", "license = \"MIT\"");
    assert!(mentions(
        &fixture.messages("member/Cargo.toml"),
        "package.license.workspace"
    ));

    exempt(&mut fixture, "fixture-member", "package.license");
    assert!(fixture.check().is_empty(), "{:#?}", fixture.check());
}

#[test]
fn a_dependency_exemption_names_the_dependency() {
    let mut fixture = Fixture::new();
    fixture.replace(
        "member/Cargo.toml",
        "fixture-helper.workspace = true",
        "fixture-helper = { path = \"../helper\" }",
    );

    exempt(&mut fixture, "fixture-member", "dependencies.other");
    assert!(mentions(
        &fixture.messages("member/Cargo.toml"),
        "has a workspace entry"
    ));

    fixture.replace("Cargo.toml", "dependencies.other", "dependencies.fixture-helper");
    assert!(fixture.check().is_empty(), "{:#?}", fixture.check());
}

#[test]
fn reports_an_exemption_that_excuses_nothing() {
    let mut fixture = Fixture::new();
    exempt(&mut fixture, "fixture-member", "package.license");

    assert!(mentions(
        &fixture.messages("Cargo.toml"),
        "the exemption of `fixture-member` from `package.license` is no longer needed"
    ));
}

#[test]
fn an_exemption_covers_only_the_fields_a_fork_carries() {
    let mut fixture = Fixture::new();
    fixture.replace("member/Cargo.toml", "\nversion.workspace = true", "\nversion = \"0.1.0\"");
    exempt(&mut fixture, "fixture-member", "package.version");

    assert!(mentions(
        &fixture.messages("Cargo.toml"),
        "names `package.version`, which is not an exemptable rule"
    ));
    assert!(mentions(
        &fixture.messages("member/Cargo.toml"),
        "`package.version.workspace` must be true"
    ));
}

#[test]
fn reports_an_unusable_exemption() {
    let mut fixture = Fixture::new();
    exempt(&mut fixture, "fixture-member", "workspace.resolver");
    let messages = fixture.messages("Cargo.toml");

    assert!(mentions(
        &messages,
        "names `workspace.resolver`, which is not an exemptable rule"
    ));

    fixture.replace("Cargo.toml", ", reason = \"Because.\"", "");
    assert!(mentions(
        &fixture.messages("Cargo.toml"),
        "must set `reason` to a non-empty string"
    ));
}

#[test]
fn an_exemption_can_be_a_table() {
    let mut fixture = Fixture::new();
    fixture.replace("member/Cargo.toml", "license.workspace = true", "license = \"MIT\"");

    let root = fixture.read("Cargo.toml");
    fixture.write(
        "Cargo.toml",
        &format!(
            "{root}\n[[workspace.metadata.archivindex-build.exemptions]]\n\
             package = \"fixture-member\"\nrule = \"package.license\"\n\
             reason = \"Because.\"\n"
        ),
    );

    assert!(fixture.check().is_empty(), "{:#?}", fixture.check());
}

#[test]
fn violations_are_displayed_with_their_file() {
    let violation = Violation { path: "/w/Cargo.toml".to_owned(), message: "bad".to_owned() };

    assert_eq!(violation.to_string(), "/w/Cargo.toml: bad");
}

#[test]
fn an_invalid_manifest_names_its_file() {
    let failure = parse("/w/Cargo.toml", "[workspace\n").expect_err("not TOML");

    assert_eq!(failure.path, "/w/Cargo.toml");
    assert!(failure.to_string().starts_with("failed to parse /w/Cargo.toml: "));
}

#[test]
fn members_are_the_listed_workspace_packages_ordered_by_manifest() {

    let package = |name: &str, manifest: &str, member: bool, publish: Option<Vec<String>>| Package {
        name: name.to_owned(),
        manifest_path: manifest.to_owned(),
        workspace_member: member,
        publish,
    };
    let project = Project::from_metadata(
        "/w".to_owned(),
        vec![
            package("b", "/w/b/Cargo.toml", true, None),
            package("outside", "/deps/x/Cargo.toml", false, None),
            package("b-c", "/w/b-c/Cargo.toml", true, Some(vec!["crates-io".to_owned()])),
            package("a", "/w/a/Cargo.toml", true, Some(Vec::new())),
        ],
    );

    assert_eq!(project.root, "/w");
    assert_eq!(project.root_manifest, "/w/Cargo.toml");
    let members: Vec<(&str, &str, bool)> = project
        .members
        .iter()
        .map(|member| (member.name.as_str(), member.manifest_path.as_str(), member.publishable))
        .collect();
    // Paths are ordered by component, so `b` comes before `b-c`.
    assert_eq!(
        members,
        [
            ("a", "/w/a/Cargo.toml", false),
            ("b", "/w/b/Cargo.toml", true),
            ("b-c", "/w/b-c/Cargo.toml", true),
        ]
    );
}

#[test]
fn the_summary_counts_the_violations() {

    assert_eq!(violations_summary(0), None);
    assert_eq!(violations_summary(1), Some("1 policy violation found".to_owned()));
    assert_eq!(violations_summary(3), Some("3 policy violations found".to_owned()));
}

#[test]
fn configuration_files_are_read_from_the_workspace_root() {
    let (rustfmt, taplo, deny) = config_paths("/w");

    assert_eq!(rustfmt, "/w/rustfmt.toml");
    assert_eq!(taplo, "/w/.taplo.toml");
    assert_eq!(deny, "/w/deny.toml");
    assert_eq!(config_paths("/w/").0, "/w/rustfmt.toml");
}
