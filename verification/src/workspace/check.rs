//! The policy checks of a workspace's manifests and tool configuration.
//!
//! The enforced policy requires Cargo resolver version 3; shared workspace package metadata;
//! the Archivindex Rust and Clippy workspace lints; workspace lint and package metadata
//! inheritance in member packages; a sorted `[workspace.dependencies]` table with no unused
//! entry and no member restating an entry; `description`, `readme` and docs.rs metadata on
//! packages that can reach a registry; the shared `rustfmt.toml` and `.taplo.toml` settings; and
//! the `deny.toml` settings that decide how strict a `cargo deny` run is.

use vstd::prelude::*;

use crate::text::{is_less, push_signed_decimal, signed_decimal, str_less};
use crate::workspace::document::{
    as_array_spec, as_bool_spec, as_integer_spec, as_str_spec, get, get_array, get_bool,
    get_integer, get_path, get_spec, get_str, path_view, table_entries, Entry, TomlItem, TomlValue,
};
use crate::workspace::exemption::{
    declared_tables, first_match, marked, read_spec, table_name, unused_reports, EntryView,
    Exemptions, RuleView,
};
use crate::workspace::{join, joined_path, push, violation_views, Member, Project, Violation};

verus! {

broadcast use {vstd::seq::group_seq_axioms, vstd::string::group_string_axioms};

/// A violation: the file it is in, and its message.
pub type Report = (Seq<char>, Seq<char>);

/// The keys of a path joined by dots, as messages name a setting.
pub open spec fn dotted(path: Seq<Seq<char>>) -> Seq<char>
    decreases path.len(),
{
    if path.len() == 0 {
        Seq::empty()
    } else if path.len() == 1 {
        path[0]
    } else {
        dotted(path.drop_last()) + "."@ + path.last()
    }
}

/// The keys of a path joined by dots.
pub fn dotted_path(path: &[&str]) -> (text: String)
    ensures
        text@ == dotted(path_view(path@)),
{
    let mut text = String::new();
    let mut i: usize = 0;
    while i < path.len()
        invariant
            i <= path@.len(),
            text@ == dotted(path_view(path@).take(i as int)),
        decreases path@.len() - i,
    {
        let ghost taken = path_view(path@).take(i + 1);
        assert(taken.drop_last() =~= path_view(path@).take(i as int));
        if i > 0 {
            text.append(".");
        }
        text.append(path[i]);
        proof {
            if i == 0 {
                assert(path_view(path@).take(0) =~= Seq::<Seq<char>>::empty());
            }
        }
        i = i + 1;
    }
    assert(path_view(path@).take(path@.len() as int) =~= path_view(path@));
    text
}

/// The report that the string setting at `path` is not `expected`.
pub open spec fn string_report(document: TomlItem, path: Seq<Seq<char>>, expected: Seq<char>, file: Seq<char>) -> Seq<Report> {
    if as_str_spec(get_path(document, path)) == Some(expected) {
        Seq::empty()
    } else {
        seq![(file, "`"@ + dotted(path) + "` must be \""@ + expected + "\""@)]
    }
}

/// The report that the setting at `path` is not `true`.
pub open spec fn true_report(document: TomlItem, path: Seq<Seq<char>>, file: Seq<char>) -> Seq<Report> {
    if as_bool_spec(get_path(document, path)) == Some(true) {
        Seq::empty()
    } else {
        seq![(file, "`"@ + dotted(path) + "` must be true"@)]
    }
}

/// The report that the integer setting at `path` is not `expected`.
pub open spec fn integer_report(document: TomlItem, path: Seq<Seq<char>>, expected: i64, file: Seq<char>) -> Seq<Report> {
    if as_integer_spec(get_path(document, path)) == Some(expected) {
        Seq::empty()
    } else {
        seq![(file, "`"@ + dotted(path) + "` must be "@ + signed_decimal(expected as int))]
    }
}

/// The report `message` when nothing is defined at `path`.
pub open spec fn defined_report(document: TomlItem, path: Seq<Seq<char>>, file: Seq<char>, message: Seq<char>) -> Seq<Report> {
    if get_path(document, path) is None {
        seq![(file, message)]
    } else {
        Seq::empty()
    }
}

/// Report the string setting at `path` unless it is `expected`.
pub fn check_string(document: &TomlItem, path: &[&str], expected: &str, file: &str, violations: &mut Vec<Violation>)
    ensures
        violation_views(final(violations)@) == violation_views(old(violations)@)
            + string_report(*document, path_view(path@), expected@, file@),
{
    let matches = match get_str(document, path) {
        Some(value) => crate::text::str_eq(value, expected),
        None => false,
    };
    if !matches {
        let mut message = String::from_str("`");
        message.append(dotted_path(path).as_str());
        message.append("` must be \"");
        message.append(expected);
        message.append("\"");
        push(violations, file, message);
    } else {
        assert(violation_views(violations@) =~= violation_views(old(violations)@) + Seq::<Report>::empty());
    }
}

/// Report the setting at `path` unless it is `true`.
pub fn check_true(document: &TomlItem, path: &[&str], file: &str, violations: &mut Vec<Violation>)
    ensures
        violation_views(final(violations)@) == violation_views(old(violations)@)
            + true_report(*document, path_view(path@), file@),
{
    if get_bool(document, path) != Some(true) {
        let mut message = String::from_str("`");
        message.append(dotted_path(path).as_str());
        message.append("` must be true");
        push(violations, file, message);
    } else {
        assert(violation_views(violations@) =~= violation_views(old(violations)@) + Seq::<Report>::empty());
    }
}

/// Report the integer setting at `path` unless it is `expected`.
pub fn check_integer(document: &TomlItem, path: &[&str], expected: i64, file: &str, violations: &mut Vec<Violation>)
    ensures
        violation_views(final(violations)@) == violation_views(old(violations)@)
            + integer_report(*document, path_view(path@), expected, file@),
{
    if get_integer(document, path) != Some(expected) {
        let mut message = String::from_str("`");
        message.append(dotted_path(path).as_str());
        message.append("` must be ");
        push_signed_decimal(expected, &mut message);
        push(violations, file, message);
    } else {
        assert(violation_views(violations@) =~= violation_views(old(violations)@) + Seq::<Report>::empty());
    }
}

/// Report `message` when nothing is defined at `path`.
fn require_defined(document: &TomlItem, path: &[&str], file: &str, message: String, violations: &mut Vec<Violation>)
    ensures
        violation_views(final(violations)@) == violation_views(old(violations)@)
            + defined_report(*document, path_view(path@), file@, message@),
{
    if get(document, path).is_none() {
        push(violations, file, message);
    } else {
        assert(violation_views(violations@) =~= violation_views(old(violations)@) + Seq::<Report>::empty());
    }
}

/// The reports of every workspace lint whose level is not the one the policy requires.
pub open spec fn lint_level_reports(document: TomlItem, file: Seq<char>) -> Seq<Report> {
    string_report(document, seq!["workspace"@, "lints"@, "rust"@, "missing_docs"@], "deny"@, file)
        + string_report(document, seq!["workspace"@, "lints"@, "rust"@, "rust_2018_idioms"@, "level"@], "warn"@, file)
        + string_report(document, seq!["workspace"@, "lints"@, "rust"@, "unsafe_code"@], "forbid"@, file)
        + string_report(document, seq!["workspace"@, "lints"@, "clippy"@, "all"@, "level"@], "warn"@, file)
        + string_report(document, seq!["workspace"@, "lints"@, "clippy"@, "pedantic"@, "level"@], "warn"@, file)
        + string_report(document, seq!["workspace"@, "lints"@, "clippy"@, "nursery"@, "level"@], "warn"@, file)
        + string_report(document, seq!["workspace"@, "lints"@, "clippy"@, "missing_errors_doc"@], "allow"@, file)
}

/// Report every workspace lint whose level is not the one the policy requires.
#[verifier::spinoff_prover]
#[verifier::rlimit(40)]
fn lint_levels(document: &TomlItem, file: &str, violations: &mut Vec<Violation>)
    ensures
        violation_views(final(violations)@) == violation_views(old(violations)@) + lint_level_reports(*document, file@),
{
    let ghost start = violation_views(violations@);
    let path0: [&str; 4] = ["workspace", "lints", "rust", "missing_docs"];
    assert(path_view(path0@) =~= seq!["workspace"@, "lints"@, "rust"@, "missing_docs"@]);
    check_string(document, path0.as_slice(), "deny", file, violations);
    let ghost mut reported = start;
    proof {
        reported = reported + string_report(*document, seq!["workspace"@, "lints"@, "rust"@, "missing_docs"@], "deny"@, file@);
    }
    assert(violation_views(violations@) =~= reported);
    let path1: [&str; 5] = ["workspace", "lints", "rust", "rust_2018_idioms", "level"];
    assert(path_view(path1@) =~= seq!["workspace"@, "lints"@, "rust"@, "rust_2018_idioms"@, "level"@]);
    check_string(document, path1.as_slice(), "warn", file, violations);
    proof {
        reported = reported + string_report(*document, seq!["workspace"@, "lints"@, "rust"@, "rust_2018_idioms"@, "level"@], "warn"@, file@);
    }
    assert(violation_views(violations@) =~= reported);
    let path2: [&str; 4] = ["workspace", "lints", "rust", "unsafe_code"];
    assert(path_view(path2@) =~= seq!["workspace"@, "lints"@, "rust"@, "unsafe_code"@]);
    check_string(document, path2.as_slice(), "forbid", file, violations);
    proof {
        reported = reported + string_report(*document, seq!["workspace"@, "lints"@, "rust"@, "unsafe_code"@], "forbid"@, file@);
    }
    assert(violation_views(violations@) =~= reported);
    let path3: [&str; 5] = ["workspace", "lints", "clippy", "all", "level"];
    assert(path_view(path3@) =~= seq!["workspace"@, "lints"@, "clippy"@, "all"@, "level"@]);
    check_string(document, path3.as_slice(), "warn", file, violations);
    proof {
        reported = reported + string_report(*document, seq!["workspace"@, "lints"@, "clippy"@, "all"@, "level"@], "warn"@, file@);
    }
    assert(violation_views(violations@) =~= reported);
    let path4: [&str; 5] = ["workspace", "lints", "clippy", "pedantic", "level"];
    assert(path_view(path4@) =~= seq!["workspace"@, "lints"@, "clippy"@, "pedantic"@, "level"@]);
    check_string(document, path4.as_slice(), "warn", file, violations);
    proof {
        reported = reported + string_report(*document, seq!["workspace"@, "lints"@, "clippy"@, "pedantic"@, "level"@], "warn"@, file@);
    }
    assert(violation_views(violations@) =~= reported);
    let path5: [&str; 5] = ["workspace", "lints", "clippy", "nursery", "level"];
    assert(path_view(path5@) =~= seq!["workspace"@, "lints"@, "clippy"@, "nursery"@, "level"@]);
    check_string(document, path5.as_slice(), "warn", file, violations);
    proof {
        reported = reported + string_report(*document, seq!["workspace"@, "lints"@, "clippy"@, "nursery"@, "level"@], "warn"@, file@);
    }
    assert(violation_views(violations@) =~= reported);
    let path6: [&str; 4] = ["workspace", "lints", "clippy", "missing_errors_doc"];
    assert(path_view(path6@) =~= seq!["workspace"@, "lints"@, "clippy"@, "missing_errors_doc"@]);
    check_string(document, path6.as_slice(), "allow", file, violations);
    proof {
        reported = reported + string_report(*document, seq!["workspace"@, "lints"@, "clippy"@, "missing_errors_doc"@], "allow"@, file@);
    }
    assert(violation_views(violations@) =~= reported);
    assert(violation_views(violations@) =~= start + lint_level_reports(*document, file@));
}

/// The reports of every lint group that the workspace does not give priority -1.
pub open spec fn lint_priority_reports(document: TomlItem, file: Seq<char>) -> Seq<Report> {
    integer_report(document, seq!["workspace"@, "lints"@, "rust"@, "rust_2018_idioms"@, "priority"@], -1i64, file)
        + integer_report(document, seq!["workspace"@, "lints"@, "clippy"@, "all"@, "priority"@], -1i64, file)
        + integer_report(document, seq!["workspace"@, "lints"@, "clippy"@, "pedantic"@, "priority"@], -1i64, file)
        + integer_report(document, seq!["workspace"@, "lints"@, "clippy"@, "nursery"@, "priority"@], -1i64, file)
}

/// Report every lint group that the workspace does not give priority -1.
#[verifier::spinoff_prover]
#[verifier::rlimit(40)]
fn lint_priorities(document: &TomlItem, file: &str, violations: &mut Vec<Violation>)
    ensures
        violation_views(final(violations)@) == violation_views(old(violations)@) + lint_priority_reports(*document, file@),
{
    let ghost start = violation_views(violations@);
    let path0: [&str; 5] = ["workspace", "lints", "rust", "rust_2018_idioms", "priority"];
    assert(path_view(path0@) =~= seq!["workspace"@, "lints"@, "rust"@, "rust_2018_idioms"@, "priority"@]);
    check_integer(document, path0.as_slice(), -1, file, violations);
    let ghost mut reported = start;
    proof {
        reported = reported + integer_report(*document, seq!["workspace"@, "lints"@, "rust"@, "rust_2018_idioms"@, "priority"@], -1i64, file@);
    }
    assert(violation_views(violations@) =~= reported);
    let path1: [&str; 5] = ["workspace", "lints", "clippy", "all", "priority"];
    assert(path_view(path1@) =~= seq!["workspace"@, "lints"@, "clippy"@, "all"@, "priority"@]);
    check_integer(document, path1.as_slice(), -1, file, violations);
    proof {
        reported = reported + integer_report(*document, seq!["workspace"@, "lints"@, "clippy"@, "all"@, "priority"@], -1i64, file@);
    }
    assert(violation_views(violations@) =~= reported);
    let path2: [&str; 5] = ["workspace", "lints", "clippy", "pedantic", "priority"];
    assert(path_view(path2@) =~= seq!["workspace"@, "lints"@, "clippy"@, "pedantic"@, "priority"@]);
    check_integer(document, path2.as_slice(), -1, file, violations);
    proof {
        reported = reported + integer_report(*document, seq!["workspace"@, "lints"@, "clippy"@, "pedantic"@, "priority"@], -1i64, file@);
    }
    assert(violation_views(violations@) =~= reported);
    let path3: [&str; 5] = ["workspace", "lints", "clippy", "nursery", "priority"];
    assert(path_view(path3@) =~= seq!["workspace"@, "lints"@, "clippy"@, "nursery"@, "priority"@]);
    check_integer(document, path3.as_slice(), -1, file, violations);
    proof {
        reported = reported + integer_report(*document, seq!["workspace"@, "lints"@, "clippy"@, "nursery"@, "priority"@], -1i64, file@);
    }
    assert(violation_views(violations@) =~= reported);
    assert(violation_views(violations@) =~= start + lint_priority_reports(*document, file@));
}

/// The reports of every shared package field that `[workspace.package]` does not define.
pub open spec fn workspace_package_reports(document: TomlItem, file: Seq<char>) -> Seq<Report> {
    defined_report(document, seq!["workspace"@, "package"@, "authors"@], file, "[workspace.package] must define `authors`"@)
        + defined_report(document, seq!["workspace"@, "package"@, "repository"@], file, "[workspace.package] must define `repository`"@)
        + defined_report(document, seq!["workspace"@, "package"@, "edition"@], file, "[workspace.package] must define `edition`"@)
        + defined_report(document, seq!["workspace"@, "package"@, "rust-version"@], file, "[workspace.package] must define `rust-version`"@)
        + defined_report(document, seq!["workspace"@, "package"@, "readme"@], file, "[workspace.package] must define `readme`"@)
        + defined_report(document, seq!["workspace"@, "package"@, "license"@], file, "[workspace.package] must define `license`"@)
        + defined_report(document, seq!["workspace"@, "package"@, "version"@], file, "[workspace.package] must define `version`"@)
}

/// Report every shared package field that `[workspace.package]` does not define.
#[verifier::spinoff_prover]
#[verifier::rlimit(40)]
fn workspace_package(document: &TomlItem, file: &str, violations: &mut Vec<Violation>)
    ensures
        violation_views(final(violations)@) == violation_views(old(violations)@) + workspace_package_reports(*document, file@),
{
    let ghost start = violation_views(violations@);
    let path0: [&str; 3] = ["workspace", "package", "authors"];
    assert(path_view(path0@) =~= seq!["workspace"@, "package"@, "authors"@]);
    require_defined(document, path0.as_slice(), file, String::from_str("[workspace.package] must define `authors`"), violations);
    let ghost mut reported = start;
    proof {
        reported = reported + defined_report(*document, seq!["workspace"@, "package"@, "authors"@], file@, "[workspace.package] must define `authors`"@);
    }
    assert(violation_views(violations@) =~= reported);
    let path1: [&str; 3] = ["workspace", "package", "repository"];
    assert(path_view(path1@) =~= seq!["workspace"@, "package"@, "repository"@]);
    require_defined(document, path1.as_slice(), file, String::from_str("[workspace.package] must define `repository`"), violations);
    proof {
        reported = reported + defined_report(*document, seq!["workspace"@, "package"@, "repository"@], file@, "[workspace.package] must define `repository`"@);
    }
    assert(violation_views(violations@) =~= reported);
    let path2: [&str; 3] = ["workspace", "package", "edition"];
    assert(path_view(path2@) =~= seq!["workspace"@, "package"@, "edition"@]);
    require_defined(document, path2.as_slice(), file, String::from_str("[workspace.package] must define `edition`"), violations);
    proof {
        reported = reported + defined_report(*document, seq!["workspace"@, "package"@, "edition"@], file@, "[workspace.package] must define `edition`"@);
    }
    assert(violation_views(violations@) =~= reported);
    let path3: [&str; 3] = ["workspace", "package", "rust-version"];
    assert(path_view(path3@) =~= seq!["workspace"@, "package"@, "rust-version"@]);
    require_defined(document, path3.as_slice(), file, String::from_str("[workspace.package] must define `rust-version`"), violations);
    proof {
        reported = reported + defined_report(*document, seq!["workspace"@, "package"@, "rust-version"@], file@, "[workspace.package] must define `rust-version`"@);
    }
    assert(violation_views(violations@) =~= reported);
    let path4: [&str; 3] = ["workspace", "package", "readme"];
    assert(path_view(path4@) =~= seq!["workspace"@, "package"@, "readme"@]);
    require_defined(document, path4.as_slice(), file, String::from_str("[workspace.package] must define `readme`"), violations);
    proof {
        reported = reported + defined_report(*document, seq!["workspace"@, "package"@, "readme"@], file@, "[workspace.package] must define `readme`"@);
    }
    assert(violation_views(violations@) =~= reported);
    let path5: [&str; 3] = ["workspace", "package", "license"];
    assert(path_view(path5@) =~= seq!["workspace"@, "package"@, "license"@]);
    require_defined(document, path5.as_slice(), file, String::from_str("[workspace.package] must define `license`"), violations);
    proof {
        reported = reported + defined_report(*document, seq!["workspace"@, "package"@, "license"@], file@, "[workspace.package] must define `license`"@);
    }
    assert(violation_views(violations@) =~= reported);
    let path6: [&str; 3] = ["workspace", "package", "version"];
    assert(path_view(path6@) =~= seq!["workspace"@, "package"@, "version"@]);
    require_defined(document, path6.as_slice(), file, String::from_str("[workspace.package] must define `version`"), violations);
    proof {
        reported = reported + defined_report(*document, seq!["workspace"@, "package"@, "version"@], file@, "[workspace.package] must define `version`"@);
    }
    assert(violation_views(violations@) =~= reported);
    assert(violation_views(violations@) =~= start + workspace_package_reports(*document, file@));
}

/// The reports of every `rustfmt.toml` setting that differs from the shared one.
pub open spec fn rustfmt_reports(document: TomlItem, file: Seq<char>) -> Seq<Report> {
    string_report(document, seq!["group_imports"@], "StdExternalCrate"@, file)
        + string_report(document, seq!["imports_granularity"@], "Module"@, file)
}

/// A present `rustfmt.toml` is reported for each shared setting it does not hold, and for nothing
/// else: `group_imports` must be `StdExternalCrate` and `imports_granularity` must be `Module`.
#[verifier::spinoff_prover]
#[verifier::rlimit(80)]
pub proof fn lemma_rustfmt_reports_each_setting(document: TomlItem, file: Seq<char>)
    ensures
        rustfmt_reports(document, file).contains((file, "`group_imports` must be \"StdExternalCrate\""@))
            <==> as_str_spec(get_path(document, seq!["group_imports"@])) != Some("StdExternalCrate"@),
        rustfmt_reports(document, file).contains((file, "`imports_granularity` must be \"Module\""@))
            <==> as_str_spec(get_path(document, seq!["imports_granularity"@])) != Some("Module"@),
        forall|i: int| 0 <= i < rustfmt_reports(document, file).len() ==> {
            ||| #[trigger] rustfmt_reports(document, file)[i] == (file, "`group_imports` must be \"StdExternalCrate\""@)
            ||| rustfmt_reports(document, file)[i] == (file, "`imports_granularity` must be \"Module\""@)
        },
{
    let group = "`group_imports` must be \"StdExternalCrate\""@;
    let granularity = "`imports_granularity` must be \"Module\""@;
    reveal_strlit("`group_imports` must be \"StdExternalCrate\"");
    reveal_strlit("`imports_granularity` must be \"Module\"");
    reveal_strlit("`");
    reveal_strlit("` must be \"");
    reveal_strlit("\"");
    reveal_strlit("group_imports");
    reveal_strlit("StdExternalCrate");
    reveal_strlit("imports_granularity");
    reveal_strlit("Module");
    assert(group =~= "`"@ + "group_imports"@ + "` must be \""@ + "StdExternalCrate"@ + "\""@);
    assert(granularity =~= "`"@ + "imports_granularity"@ + "` must be \""@ + "Module"@ + "\""@);
    lemma_string_report_message(seq!["group_imports"@], "StdExternalCrate"@, group);
    lemma_string_report_message(seq!["imports_granularity"@], "Module"@, granularity);
    assert(group[1] != granularity[1]);
    let first = string_report(document, seq!["group_imports"@], "StdExternalCrate"@, file);
    let second = string_report(document, seq!["imports_granularity"@], "Module"@, file);
    let reports = rustfmt_reports(document, file);
    assert(reports == first + second);
    if first.len() > 0 {
        assert(reports[0] == (file, group));
    }
    if second.len() > 0 {
        assert(reports[first.len() as int] == (file, granularity));
    }
}

/// The message of a string setting at a one-key path.
proof fn lemma_string_report_message(path: Seq<Seq<char>>, expected: Seq<char>, message: Seq<char>)
    requires
        path.len() == 1,
        message == "`"@ + path[0] + "` must be \""@ + expected + "\""@,
    ensures
        "`"@ + dotted(path) + "` must be \""@ + expected + "\""@ == message,
{
}

/// Report every `rustfmt.toml` setting that differs from the shared one.
#[verifier::spinoff_prover]
#[verifier::rlimit(40)]
fn rustfmt_settings(document: &TomlItem, file: &str, violations: &mut Vec<Violation>)
    ensures
        violation_views(final(violations)@) == violation_views(old(violations)@) + rustfmt_reports(*document, file@),
{
    let ghost start = violation_views(violations@);
    let path0: [&str; 1] = ["group_imports"];
    assert(path_view(path0@) =~= seq!["group_imports"@]);
    check_string(document, path0.as_slice(), "StdExternalCrate", file, violations);
    let ghost mut reported = start;
    proof {
        reported = reported + string_report(*document, seq!["group_imports"@], "StdExternalCrate"@, file@);
    }
    assert(violation_views(violations@) =~= reported);
    let path1: [&str; 1] = ["imports_granularity"];
    assert(path_view(path1@) =~= seq!["imports_granularity"@]);
    check_string(document, path1.as_slice(), "Module", file, violations);
    proof {
        reported = reported + string_report(*document, seq!["imports_granularity"@], "Module"@, file@);
    }
    assert(violation_views(violations@) =~= reported);
    assert(violation_views(violations@) =~= start + rustfmt_reports(*document, file@));
}

/// The reports of every `deny.toml` setting that does not make a `cargo deny` run strict.
pub open spec fn deny_reports(document: TomlItem, file: Seq<char>) -> Seq<Report> {
    string_report(document, seq!["bans"@, "multiple-versions"@], "warn"@, file)
        + string_report(document, seq!["bans"@, "wildcards"@], "deny"@, file)
        + string_report(document, seq!["sources"@, "unknown-registry"@], "deny"@, file)
        + string_report(document, seq!["sources"@, "unknown-git"@], "deny"@, file)
        + integer_report(document, seq!["advisories"@, "version"@], 2i64, file)
        + integer_report(document, seq!["licenses"@, "version"@], 2i64, file)
        + true_report(document, seq!["graph"@, "all-features"@], file)
}

/// Report every `deny.toml` setting that does not make a `cargo deny` run strict.
#[verifier::spinoff_prover]
#[verifier::rlimit(40)]
fn deny_settings(document: &TomlItem, file: &str, violations: &mut Vec<Violation>)
    ensures
        violation_views(final(violations)@) == violation_views(old(violations)@) + deny_reports(*document, file@),
{
    let ghost start = violation_views(violations@);
    let path0: [&str; 2] = ["bans", "multiple-versions"];
    assert(path_view(path0@) =~= seq!["bans"@, "multiple-versions"@]);
    check_string(document, path0.as_slice(), "warn", file, violations);
    let ghost mut reported = start;
    proof {
        reported = reported + string_report(*document, seq!["bans"@, "multiple-versions"@], "warn"@, file@);
    }
    assert(violation_views(violations@) =~= reported);
    let path1: [&str; 2] = ["bans", "wildcards"];
    assert(path_view(path1@) =~= seq!["bans"@, "wildcards"@]);
    check_string(document, path1.as_slice(), "deny", file, violations);
    proof {
        reported = reported + string_report(*document, seq!["bans"@, "wildcards"@], "deny"@, file@);
    }
    assert(violation_views(violations@) =~= reported);
    let path2: [&str; 2] = ["sources", "unknown-registry"];
    assert(path_view(path2@) =~= seq!["sources"@, "unknown-registry"@]);
    check_string(document, path2.as_slice(), "deny", file, violations);
    proof {
        reported = reported + string_report(*document, seq!["sources"@, "unknown-registry"@], "deny"@, file@);
    }
    assert(violation_views(violations@) =~= reported);
    let path3: [&str; 2] = ["sources", "unknown-git"];
    assert(path_view(path3@) =~= seq!["sources"@, "unknown-git"@]);
    check_string(document, path3.as_slice(), "deny", file, violations);
    proof {
        reported = reported + string_report(*document, seq!["sources"@, "unknown-git"@], "deny"@, file@);
    }
    assert(violation_views(violations@) =~= reported);
    let path4: [&str; 2] = ["advisories", "version"];
    assert(path_view(path4@) =~= seq!["advisories"@, "version"@]);
    check_integer(document, path4.as_slice(), 2, file, violations);
    proof {
        reported = reported + integer_report(*document, seq!["advisories"@, "version"@], 2i64, file@);
    }
    assert(violation_views(violations@) =~= reported);
    let path5: [&str; 2] = ["licenses", "version"];
    assert(path_view(path5@) =~= seq!["licenses"@, "version"@]);
    check_integer(document, path5.as_slice(), 2, file, violations);
    proof {
        reported = reported + integer_report(*document, seq!["licenses"@, "version"@], 2i64, file@);
    }
    assert(violation_views(violations@) =~= reported);
    let path6: [&str; 2] = ["graph", "all-features"];
    assert(path_view(path6@) =~= seq!["graph"@, "all-features"@]);
    check_true(document, path6.as_slice(), file, violations);
    proof {
        reported = reported + true_report(*document, seq!["graph"@, "all-features"@], file@);
    }
    assert(violation_views(violations@) =~= reported);
    assert(violation_views(violations@) =~= start + deny_reports(*document, file@));
}

/// The reports of the metadata a published package lacks, apart from its rustdoc arguments.
pub open spec fn published_field_reports(document: TomlItem, file: Seq<char>) -> Seq<Report> {
    defined_report(document, seq!["package"@, "description"@], file, "[package] must define `description`"@)
        + defined_report(document, seq!["package"@, "readme"@], file, "[package] must define `readme`"@)
        + true_report(document, seq!["package"@, "metadata"@, "docs"@, "rs"@, "all-features"@], file)
}

/// Report the metadata a published package lacks, apart from its rustdoc arguments.
#[verifier::spinoff_prover]
#[verifier::rlimit(40)]
fn published_fields(document: &TomlItem, file: &str, violations: &mut Vec<Violation>)
    ensures
        violation_views(final(violations)@) == violation_views(old(violations)@) + published_field_reports(*document, file@),
{
    let ghost start = violation_views(violations@);
    let path0: [&str; 2] = ["package", "description"];
    assert(path_view(path0@) =~= seq!["package"@, "description"@]);
    require_defined(document, path0.as_slice(), file, String::from_str("[package] must define `description`"), violations);
    let ghost mut reported = start;
    proof {
        reported = reported + defined_report(*document, seq!["package"@, "description"@], file@, "[package] must define `description`"@);
    }
    assert(violation_views(violations@) =~= reported);
    let path1: [&str; 2] = ["package", "readme"];
    assert(path_view(path1@) =~= seq!["package"@, "readme"@]);
    require_defined(document, path1.as_slice(), file, String::from_str("[package] must define `readme`"), violations);
    proof {
        reported = reported + defined_report(*document, seq!["package"@, "readme"@], file@, "[package] must define `readme`"@);
    }
    assert(violation_views(violations@) =~= reported);
    let path2: [&str; 5] = ["package", "metadata", "docs", "rs", "all-features"];
    assert(path_view(path2@) =~= seq!["package"@, "metadata"@, "docs"@, "rs"@, "all-features"@]);
    check_true(document, path2.as_slice(), file, violations);
    proof {
        reported = reported + true_report(*document, seq!["package"@, "metadata"@, "docs"@, "rs"@, "all-features"@], file@);
    }
    assert(violation_views(violations@) =~= reported);
    assert(violation_views(violations@) =~= start + published_field_reports(*document, file@));
}

/// The reports of every workspace lint that is not configured as the policy requires.
pub open spec fn lint_reports(document: TomlItem, file: Seq<char>) -> Seq<Report> {
    lint_level_reports(document, file) + lint_priority_reports(document, file)
}

/// Report every workspace lint that is not configured as the policy requires.
fn lints(document: &TomlItem, file: &str, violations: &mut Vec<Violation>)
    ensures
        violation_views(final(violations)@) == violation_views(old(violations)@) + lint_reports(*document, file@),
{
    let ghost start = violation_views(violations@);
    lint_levels(document, file, violations);
    lint_priorities(document, file, violations);
    assert(violation_views(violations@) =~= start + lint_reports(*document, file@));
}

/// Whether a value is the string `s`.
pub open spec fn is_str_value(value: TomlValue, s: Seq<char>) -> bool {
    match value {
        TomlValue::Str(v) => v@ == s,
        _ => false,
    }
}

/// Whether the docs.rs rustdoc arguments are exactly `--cfg docsrs`.
pub open spec fn rustdoc_args_ok(document: TomlItem) -> bool {
    match as_array_spec(get_path(document, seq!["package"@, "metadata"@, "docs"@, "rs"@, "rustdoc-args"@])) {
        Some(values) => values.len() == 2 && is_str_value(values[0], "--cfg"@) && is_str_value(values[1], "docsrs"@),
        None => false,
    }
}

/// The reports of the metadata that a published package lacks.
pub open spec fn published_reports(document: TomlItem, file: Seq<char>) -> Seq<Report> {
    published_field_reports(document, file) + if rustdoc_args_ok(document) {
        Seq::<Report>::empty()
    } else {
        seq![(file, "`package.metadata.docs.rs.rustdoc-args` must be [\"--cfg\", \"docsrs\"]"@)]
    }
}

/// Whether a value is the string `s`.
fn value_is_str(value: &TomlValue, s: &str) -> (is: bool)
    ensures
        is == is_str_value(*value, s@),
{
    match value {
        TomlValue::Str(v) => crate::text::str_eq(v.as_str(), s),
        _ => false,
    }
}

/// Check the metadata that only a published crate needs.
fn published(document: &TomlItem, file: &str, violations: &mut Vec<Violation>)
    ensures
        violation_views(final(violations)@) == violation_views(old(violations)@) + published_reports(*document, file@),
{
    let ghost start = violation_views(violations@);
    published_fields(document, file, violations);
    let path: [&str; 5] = ["package", "metadata", "docs", "rs", "rustdoc-args"];
    assert(path_view(path@) =~= seq!["package"@, "metadata"@, "docs"@, "rs"@, "rustdoc-args"@]);
    let arguments = match get_array(document, path.as_slice()) {
        Some(values) => values.len() == 2 && value_is_str(&values[0], "--cfg") && value_is_str(&values[1], "docsrs"),
        None => false,
    };
    if !arguments {
        push(violations, file, String::from_str("`package.metadata.docs.rs.rustdoc-args` must be [\"--cfg\", \"docsrs\"]"));
    }
    assert(violation_views(violations@) =~= start + published_reports(*document, file@));
}

/// Check the shared `rustfmt.toml` settings.
pub fn rustfmt(document: Option<&TomlItem>, file: &str, violations: &mut Vec<Violation>)
    ensures
        violation_views(final(violations)@) == violation_views(old(violations)@) + match document {
            Some(d) => rustfmt_reports(*d, file@),
            None => seq![(file@, "file is missing"@)],
        },
{
    match document {
        Some(document) => rustfmt_settings(document, file, violations),
        None => push(violations, file, String::from_str("file is missing")),
    }
}

/// Whether one of `values` is the string `s`.
pub open spec fn has_str_value(values: Seq<TomlValue>, s: Seq<char>) -> bool {
    exists|i: int| 0 <= i < values.len() && is_str_value(#[trigger] values[i], s)
}

/// Whether the `exclude` array of a taplo configuration holds `target/**`.
pub open spec fn excludes_target(document: TomlItem) -> bool {
    match as_array_spec(get_path(document, seq!["exclude"@])) {
        Some(values) => has_str_value(values, "target/**"@),
        None => false,
    }
}

/// The reports of the shared `.taplo.toml` settings that a configuration lacks.
pub open spec fn taplo_reports(document: TomlItem, file: Seq<char>) -> Seq<Report> {
    (if excludes_target(document) {
        Seq::<Report>::empty()
    } else {
        seq![(file, "`exclude` must contain \"target/**\""@)]
    }) + integer_report(document, seq!["formatting"@, "column_width"@], 100i64, file)
}

/// Whether one of `values` is the string `s`.
fn contains_str(values: &Vec<TomlValue>, s: &str) -> (found: bool)
    ensures
        found == has_str_value(values@, s@),
{
    let mut i: usize = 0;
    while i < values.len()
        invariant
            i <= values@.len(),
            forall|k: int| 0 <= k < i ==> !is_str_value(#[trigger] values@[k], s@),
        decreases values@.len() - i,
    {
        if value_is_str(&values[i], s) {
            return true;
        }
        i = i + 1;
    }
    false
}

/// Check the shared `.taplo.toml` settings.
pub fn taplo(document: Option<&TomlItem>, file: &str, violations: &mut Vec<Violation>)
    ensures
        violation_views(final(violations)@) == violation_views(old(violations)@) + match document {
            Some(d) => taplo_reports(*d, file@),
            None => seq![(file@, "file is missing"@)],
        },
{
    let document = match document {
        Some(document) => document,
        None => {
            push(violations, file, String::from_str("file is missing"));
            return;
        },
    };
    let ghost start = violation_views(violations@);
    let exclude: [&str; 1] = ["exclude"];
    assert(path_view(exclude@) =~= seq!["exclude"@]);
    let excludes = match get_array(document, exclude.as_slice()) {
        Some(values) => {
            let found = contains_str(values, "target/**");
            found
        },
        None => false,
    };
    assert(excludes == excludes_target(*document));
    if !excludes {
        push(violations, file, String::from_str("`exclude` must contain \"target/**\""));
    }
    let width: [&str; 2] = ["formatting", "column_width"];
    assert(path_view(width@) =~= seq!["formatting"@, "column_width"@]);
    check_integer(document, width.as_slice(), 100, file, violations);
    assert(violation_views(violations@) =~= start + taplo_reports(*document, file@));
}

/// Check that `cargo deny` is configured, and configured to be strict.
///
/// What it allows is a project's own decision and is left alone; this is only the part of the
/// configuration that decides whether a run means anything.
pub fn deny(document: Option<&TomlItem>, file: &str, violations: &mut Vec<Violation>)
    ensures
        violation_views(final(violations)@) == violation_views(old(violations)@) + match document {
            Some(d) => deny_reports(*d, file@),
            None => seq![(file@, "file is missing"@)],
        },
{
    match document {
        Some(document) => deny_settings(document, file, violations),
        None => push(violations, file, String::from_str("file is missing")),
    }
}

/// The first index `i` from `from` on at which the names of entries `i` and `i + 1` are out of
/// order.
pub open spec fn first_unsorted(entries: Seq<Entry>, from: int) -> Option<int>
    decreases entries.len() - from,
{
    if from < 0 || from + 1 >= entries.len() {
        None
    } else if str_less(entries[from + 1].0@, entries[from].0@) {
        Some(from)
    } else {
        first_unsorted(entries, from + 1)
    }
}

/// The report of the first pair of `[workspace.dependencies]` entries that is out of order.
pub open spec fn sorted_reports(document: TomlItem, file: Seq<char>) -> Seq<Report> {
    match get_path(document, seq!["workspace"@, "dependencies"@]) {
        Some(table) => match table_entries(table) {
            Some(entries) => match first_unsorted(entries, 0) {
                Some(i) => seq![(file, "[workspace.dependencies] must be sorted: `"@ + entries[i + 1].0@
                    + "` must precede `"@ + entries[i].0@ + "`"@)],
                None => Seq::empty(),
            },
            None => Seq::empty(),
        },
        None => Seq::empty(),
    }
}

proof fn lemma_first_unsorted_bounds(entries: Seq<Entry>, from: int)
    requires
        0 <= from,
    ensures
        first_unsorted(entries, from) matches Some(i) ==> from <= i && i + 1 < entries.len(),
    decreases entries.len() - from,
{
    if from + 1 < entries.len() && !str_less(entries[from + 1].0@, entries[from].0@) {
        lemma_first_unsorted_bounds(entries, from + 1);
    }
}

/// Report the first pair of `[workspace.dependencies]` entries that is out of order.
///
/// Cargo does not care about the order and `taplo` does not impose one, so a table that is only
/// mostly sorted is the usual outcome of adding dependencies over time. Reporting one pair at a
/// time is enough, because `sync` sorts the whole table.
#[verifier::loop_isolation(false)]
pub fn sorted_dependencies(document: &TomlItem, file: &str, violations: &mut Vec<Violation>)
    ensures
        violation_views(final(violations)@) == violation_views(old(violations)@) + sorted_reports(*document, file@),
{
    let path: [&str; 2] = ["workspace", "dependencies"];
    assert(path_view(path@) =~= seq!["workspace"@, "dependencies"@]);
    let entries = match get(document, path.as_slice()) {
        Some(table) => match table.as_table_like() {
            Some(entries) => entries,
            None => {
                assert(violation_views(violations@) =~= violation_views(old(violations)@) + Seq::<Report>::empty());
                return;
            },
        },
        None => {
            assert(violation_views(violations@) =~= violation_views(old(violations)@) + Seq::<Report>::empty());
            return;
        },
    };
    let mut i: usize = 0;
    while entries.len() > 0 && i < entries.len() - 1
        invariant
            first_unsorted(entries@, 0) == first_unsorted(entries@, i as int),
            violations@ == old(violations)@,
        decreases entries@.len() - i,
    {
        if is_less(entries[i + 1].0.as_str(), entries[i].0.as_str()) {
            let mut message = String::from_str("[workspace.dependencies] must be sorted: `");
            message.append(entries[i + 1].0.as_str());
            message.append("` must precede `");
            message.append(entries[i].0.as_str());
            message.append("`");
            push(violations, file, message);
            assert(first_unsorted(entries@, 0) == Some(i as int));
            return;
        }
        i = i + 1;
    }
    assert(violation_views(violations@) =~= violation_views(old(violations)@) + Seq::<Report>::empty());
}

/// The reports of the root manifest's own settings.
pub open spec fn root_reports(document: TomlItem, file: Seq<char>) -> Seq<Report> {
    string_report(document, seq!["workspace"@, "resolver"@], "3"@, file)
        + workspace_package_reports(document, file)
        + sorted_reports(document, file)
        + lint_reports(document, file)
}

/// Check the root manifest's own settings: the resolver, the shared package metadata, the
/// order of the workspace dependencies, and the workspace lints.
pub fn root(document: &TomlItem, file: &str, violations: &mut Vec<Violation>)
    ensures
        violation_views(final(violations)@) == violation_views(old(violations)@) + root_reports(*document, file@),
{
    let ghost start = violation_views(violations@);
    let resolver: [&str; 2] = ["workspace", "resolver"];
    assert(path_view(resolver@) =~= seq!["workspace"@, "resolver"@]);
    check_string(document, resolver.as_slice(), "3", file, violations);
    workspace_package(document, file, violations);
    sorted_dependencies(document, file, violations);
    lints(document, file, violations);
    assert(violation_views(violations@) =~= start + root_reports(*document, file@));
}

/// The entries of the table under `section`, if it holds one.
pub open spec fn section_entries(item: TomlItem, section: Seq<char>) -> Seq<Entry> {
    match get_spec(item, section) {
        Some(table) => match table_entries(table) {
            Some(entries) => entries,
            None => Seq::empty(),
        },
        None => Seq::empty(),
    }
}

/// The normal, development and build dependencies that a manifest or a target table declares.
pub open spec fn declared_in(item: TomlItem) -> Seq<Entry> {
    section_entries(item, "dependencies"@) + section_entries(item, "dev-dependencies"@)
        + section_entries(item, "build-dependencies"@)
}

/// The dependencies declared under each target table, in order.
pub open spec fn target_dependencies(targets: Seq<Entry>) -> Seq<Entry>
    decreases targets.len(),
{
    if targets.len() == 0 {
        Seq::empty()
    } else {
        target_dependencies(targets.drop_last()) + declared_in(targets.last().1)
    }
}

/// Every dependency a manifest declares, with its specification: normal, development and build
/// dependencies, both the unconditional ones and those under a `[target.'cfg(...)']` table,
/// because a workspace entry applies to all of them.
pub open spec fn dependency_entries(document: TomlItem) -> Seq<Entry> {
    declared_in(document) + match get_spec(document, "target"@) {
        Some(targets) => match table_entries(targets) {
            Some(entries) => target_dependencies(entries),
            None => Seq::empty(),
        },
        None => Seq::empty(),
    }
}

/// The entries that references point to.
pub open spec fn entries_of(references: Seq<&Entry>) -> Seq<Entry> {
    references.map_values(|entry: &Entry| *entry)
}

/// Append the entries of the table under `section` to `out`.
fn push_section<'a>(item: &'a TomlItem, section: &str, out: &mut Vec<&'a Entry>)
    ensures
        entries_of(final(out)@) == entries_of(old(out)@) + section_entries(*item, section@),
{
    let entries = match item.get(section) {
        Some(table) => match table.as_table_like() {
            Some(entries) => entries,
            None => {
                assert(entries_of(out@) =~= entries_of(old(out)@) + Seq::<Entry>::empty());
                return;
            },
        },
        None => {
            assert(entries_of(out@) =~= entries_of(old(out)@) + Seq::<Entry>::empty());
            return;
        },
    };
    let mut i: usize = 0;
    while i < entries.len()
        invariant
            i <= entries@.len(),
            section_entries(*item, section@) == entries@,
            entries_of(out@) == entries_of(old(out)@) + entries@.take(i as int),
        decreases entries@.len() - i,
    {
        let ghost before = out@;
        out.push(&entries[i]);
        assert(out@ == before.push(&entries[i as int]));
        assert(entries_of(out@) =~= entries_of(before).push(entries@[i as int]));
        assert(entries@.take(i + 1) =~= entries@.take(i as int).push(entries@[i as int]));
        assert(entries_of(out@) =~= entries_of(old(out)@) + entries@.take(i + 1));
        i = i + 1;
    }
    assert(entries@.take(entries@.len() as int) =~= entries@);
}

/// Append the dependencies that a manifest or a target table declares to `out`.
fn push_declared<'a>(item: &'a TomlItem, out: &mut Vec<&'a Entry>)
    ensures
        entries_of(final(out)@) == entries_of(old(out)@) + declared_in(*item),
{
    let ghost start = entries_of(out@);
    push_section(item, "dependencies", out);
    push_section(item, "dev-dependencies", out);
    push_section(item, "build-dependencies", out);
    assert(entries_of(out@) =~= start + declared_in(*item));
}

/// Every dependency a manifest declares, with its specification, in declaration order.
pub fn dependencies(document: &TomlItem) -> (found: Vec<&Entry>)
    ensures
        entries_of(found@) == dependency_entries(*document),
{
    let mut found: Vec<&Entry> = Vec::new();
    assert(entries_of(found@) =~= Seq::<Entry>::empty());
    push_declared(document, &mut found);
    let targets = match document.get("target") {
        Some(targets) => match targets.as_table_like() {
            Some(targets) => targets,
            None => {
                assert(entries_of(found@) =~= dependency_entries(*document));
                return found;
            },
        },
        None => {
            assert(entries_of(found@) =~= dependency_entries(*document));
            return found;
        },
    };
    let ghost declared = entries_of(found@);
    let mut i: usize = 0;
    while i < targets.len()
        invariant
            i <= targets@.len(),
            declared == declared_in(*document),
            get_spec(*document, "target"@) matches Some(t) && table_entries(t) == Some(targets@),
            entries_of(found@) == declared + target_dependencies(targets@.take(i as int)),
        decreases targets@.len() - i,
    {
        push_declared(&targets[i].1, &mut found);
        assert(targets@.take(i + 1).drop_last() =~= targets@.take(i as int));
        assert(entries_of(found@) =~= declared + target_dependencies(targets@.take(i + 1)));
        i = i + 1;
    }
    assert(targets@.take(targets@.len() as int) =~= targets@);
    found
}

/// The characters of each name.
pub open spec fn names_view(names: Seq<String>) -> Seq<Seq<char>> {
    names.map_values(|name: String| name@)
}

/// Whether names are in strictly increasing order, so that each occurs once.
pub open spec fn strictly_sorted(names: Seq<Seq<char>>) -> bool {
    forall|i: int| 0 <= i < names.len() - 1 ==> str_less(#[trigger] names[i], names[i + 1])
}

/// The names of the entries of the `[workspace.dependencies]` table.
pub open spec fn workspace_dependency_names(document: TomlItem) -> Set<Seq<char>> {
    match get_path(document, seq!["workspace"@, "dependencies"@]) {
        Some(table) => match table_entries(table) {
            Some(entries) => entries.map_values(|entry: Entry| entry.0@).to_set(),
            None => Set::empty(),
        },
        None => Set::empty(),
    }
}

/// Insert `name` into strictly sorted `names`, unless it is there already.
fn insert_sorted(names: &mut Vec<String>, name: &str)
    requires
        strictly_sorted(names_view(old(names)@)),
    ensures
        strictly_sorted(names_view(final(names)@)),
        names_view(final(names)@).to_set() == names_view(old(names)@).to_set().insert(name@),
{
    let ghost old_names = names_view(names@);
    let mut p: usize = 0;
    while p < names.len() && is_less(names[p].as_str(), name)
        invariant
            p <= names@.len(),
            names_view(names@) == old_names,
            forall|k: int| 0 <= k < p ==> str_less(#[trigger] old_names[k], name@),
        decreases names@.len() - p,
    {
        p = p + 1;
    }
    if p < names.len() && crate::text::str_eq(names[p].as_str(), name) {
        assert(old_names.to_set().insert(name@) =~= old_names.to_set()) by {
            assert(old_names[p as int] == name@);
        }
        return;
    }
    proof {
        if p < names@.len() {
            crate::text::lemma_str_less_total(old_names[p as int], name@);
        }
    }
    names.insert(p, name.to_owned());
    proof {
        let new_names = names_view(names@);
        assert(new_names =~= old_names.insert(p as int, name@));
        assert forall|i: int| 0 <= i < new_names.len() - 1 implies str_less(#[trigger] new_names[i], new_names[i + 1]) by {
            if i < p as int - 1 {
                assert(new_names[i] == old_names[i] && new_names[i + 1] == old_names[i + 1]);
            } else if i == p as int - 1 {
            } else if i == p as int {
            } else {
                assert(new_names[i] == old_names[i - 1] && new_names[i + 1] == old_names[i]);
            }
        }
        assert(new_names.to_set() =~= old_names.to_set().insert(name@)) by {
            assert forall|x: Seq<char>| new_names.to_set().contains(x) implies old_names.to_set().insert(name@).contains(x) by {
                let i = choose|i: int| 0 <= i < new_names.len() && new_names[i] == x;
                if i < p {
                    assert(old_names[i] == x);
                } else if i > p {
                    assert(old_names[i - 1] == x);
                }
            }
            assert forall|x: Seq<char>| old_names.to_set().insert(name@).contains(x) implies new_names.to_set().contains(x) by {
                if x == name@ {
                    assert(new_names[p as int] == x);
                } else {
                    let i = choose|i: int| 0 <= i < old_names.len() && old_names[i] == x;
                    if i < p {
                        assert(new_names[i] == x);
                    } else {
                        assert(new_names[i + 1] == x);
                    }
                }
            }
        }
    }
}

/// The names declared in `[workspace.dependencies]`, sorted, each once.
pub fn workspace_names(document: &TomlItem) -> (names: Vec<String>)
    ensures
        strictly_sorted(names_view(names@)),
        names_view(names@).to_set() == workspace_dependency_names(*document),
{
    let mut names: Vec<String> = Vec::new();
    assert(names_view(names@) =~= Seq::<Seq<char>>::empty());
    let path: [&str; 2] = ["workspace", "dependencies"];
    assert(path_view(path@) =~= seq!["workspace"@, "dependencies"@]);
    let entries = match get(document, path.as_slice()) {
        Some(table) => match table.as_table_like() {
            Some(entries) => entries,
            None => {
                assert(names_view(names@).to_set() =~= Set::<Seq<char>>::empty());
                return names;
            },
        },
        None => {
            assert(names_view(names@).to_set() =~= Set::<Seq<char>>::empty());
            return names;
        },
    };
    let ghost keys = entries@.map_values(|entry: Entry| entry.0@);
    let mut i: usize = 0;
    while i < entries.len()
        invariant
            i <= entries@.len(),
            keys == entries@.map_values(|entry: Entry| entry.0@),
            strictly_sorted(names_view(names@)),
            names_view(names@).to_set() == keys.take(i as int).to_set(),
        decreases entries@.len() - i,
    {
        insert_sorted(&mut names, entries[i].0.as_str());
        assert(keys.take(i + 1) =~= keys.take(i as int).push(keys[i as int]));
        proof {
            keys.take(i as int).lemma_push_to_set_commute(keys[i as int]);
        }
        i = i + 1;
    }
    assert(keys.take(entries@.len() as int) =~= keys);
    names
}

/// The declared exemptions, and the violations found so far.
pub type CheckState = (Seq<EntryView>, Seq<Report>);

/// The state after a rule is checked for `package`: nothing changes when it is followed; when it
/// is broken, the first exemption that waives it is marked as used, and without one the
/// violation is reported.
///
/// An exemption is only consulted once a rule has actually been broken, so that an entry which
/// excuses nothing stays visibly unused.
pub open spec fn waive_or_report(state: CheckState, package: Seq<char>, broken: bool, rule: RuleView, file: Seq<char>, message: Seq<char>) -> CheckState {
    if !broken {
        state
    } else if first_match(state.0, package, rule, 0) < state.0.len() {
        (marked(state.0, package, rule), state.1)
    } else {
        (state.0, state.1.push((file, message)))
    }
}

/// The package fields a member inherits from `[workspace.package]`.
pub open spec fn inherited_fields() -> Seq<Seq<char>> {
    seq!["authors"@, "repository"@, "edition"@, "rust-version"@, "license"@, "version"@]
}

/// Whether a member states `field` for itself instead of inheriting it.
pub open spec fn field_broken(document: TomlItem, field: Seq<char>) -> bool {
    as_bool_spec(get_path(document, seq!["package"@, field, "workspace"@])) != Some(true)
}

/// The message for a field a member does not inherit.
pub open spec fn field_message(field: Seq<char>) -> Seq<char> {
    "`package."@ + field + ".workspace` must be true"@
}

/// The state after each of `fields` is checked for inheritance, in order.
pub open spec fn fields_state(state: CheckState, document: TomlItem, package: Seq<char>, fields: Seq<Seq<char>>, file: Seq<char>) -> CheckState
    decreases fields.len(),
{
    if fields.len() == 0 {
        state
    } else {
        waive_or_report(
            fields_state(state, document, package, fields.drop_last(), file),
            package,
            field_broken(document, fields.last()),
            RuleView::Package(fields.last()),
            file,
            field_message(fields.last()),
        )
    }
}

/// Whether a dependency that has a workspace entry is stated without inheriting it.
pub open spec fn dependency_broken(names: Set<Seq<char>>, dependency: Entry) -> bool {
    names.contains(dependency.0@) && as_bool_spec(get_spec(dependency.1, "workspace"@)) != Some(true)
}

/// The message for a dependency that does not inherit its workspace entry.
pub open spec fn dependency_message(name: Seq<char>) -> Seq<char> {
    "`"@ + name + "` has a workspace entry, so it must be `workspace = true`"@
}

/// The state after each of `dependencies` is checked for inheritance, in order.
pub open spec fn dependencies_state(state: CheckState, dependencies: Seq<Entry>, package: Seq<char>, names: Set<Seq<char>>, file: Seq<char>) -> CheckState
    decreases dependencies.len(),
{
    if dependencies.len() == 0 {
        state
    } else {
        waive_or_report(
            dependencies_state(state, dependencies.drop_last(), package, names, file),
            package,
            dependency_broken(names, dependencies.last()),
            RuleView::Dependency(dependencies.last().0@),
            file,
            dependency_message(dependencies.last().0@),
        )
    }
}

/// The state after a member manifest is checked: workspace lint inheritance, package field
/// inheritance, the metadata of a publishable package, and dependency inheritance.
pub open spec fn member_state(state: CheckState, document: TomlItem, member: Member, names: Set<Seq<char>>) -> CheckState {
    let package = member.name@;
    let file = member.manifest_path@;
    let lints = waive_or_report(
        state,
        package,
        as_bool_spec(get_path(document, seq!["lints"@, "workspace"@])) != Some(true),
        RuleView::Lints,
        file,
        "`lints.workspace` must be true"@,
    );
    let fields = fields_state(lints, document, package, inherited_fields(), file);
    let published = if member.publishable {
        (fields.0, fields.1 + published_reports(document, file))
    } else {
        fields
    };
    dependencies_state(published, dependency_entries(document), package, names, file)
}

/// Whether `name` is one of `names`.
fn contains_name(names: &Vec<String>, name: &str) -> (found: bool)
    ensures
        found == names_view(names@).contains(name@),
{
    let mut i: usize = 0;
    while i < names.len()
        invariant
            i <= names@.len(),
            forall|k: int| 0 <= k < i ==> names_view(names@)[k] != name@,
        decreases names@.len() - i,
    {
        if crate::text::str_eq(names[i].as_str(), name) {
            assert(names_view(names@)[i as int] == name@);
            return true;
        }
        i = i + 1;
    }
    false
}

/// Check a member manifest: workspace lint inheritance, package field inheritance, the
/// metadata of a publishable package, and dependency inheritance.
pub fn member(
    document: &TomlItem,
    member: &Member,
    workspace_dependencies: &Vec<String>,
    exemptions: &mut Exemptions,
    violations: &mut Vec<Violation>,
)
    requires
        old(exemptions).wf(),
    ensures
        final(exemptions).wf(),
        (final(exemptions).entries_spec(), violation_views(final(violations)@)) == member_state(
            (old(exemptions).entries_spec(), violation_views(old(violations)@)),
            *document,
            *member,
            names_view(workspace_dependencies@).to_set(),
        ),
{
    let package = member.name.as_str();
    let file = member.manifest_path.as_str();
    let names = Ghost(names_view(workspace_dependencies@).to_set());
    let ghost start = (exemptions.entries_spec(), violation_views(violations@));
    let lints_path: [&str; 2] = ["lints", "workspace"];
    assert(path_view(lints_path@) =~= seq!["lints"@, "workspace"@]);
    if get_bool(document, lints_path.as_slice()) != Some(true) && !exemptions.allows_lints(package) {
        push(violations, file, String::from_str("`lints.workspace` must be true"));
    }
    let fields: [&str; 6] = ["authors", "repository", "edition", "rust-version", "license", "version"];
    let ghost fields_seq = fields@.map_values(|field: &str| field@);
    assert(fields_seq =~= inherited_fields());
    let ghost lints_state = (exemptions.entries_spec(), violation_views(violations@));
    let mut i: usize = 0;
    assert(fields_seq.take(0) =~= Seq::<Seq<char>>::empty());
    while i < 6
        invariant
            i <= 6,
            fields_seq == fields@.map_values(|field: &str| field@),
            exemptions.wf(),
            (exemptions.entries_spec(), violation_views(violations@)) == fields_state(lints_state, *document, package@, fields_seq.take(i as int), file@),
        decreases 6 - i,
    {
        let field = fields[i];
        let path: [&str; 3] = ["package", field, "workspace"];
        assert(path_view(path@) =~= seq!["package"@, field@, "workspace"@]);
        assert(fields_seq.take(i + 1).drop_last() =~= fields_seq.take(i as int));
        assert(fields_seq[i as int] == field@);
        if get_bool(document, path.as_slice()) != Some(true) && !exemptions.allows_package_field(package, field) {
            let mut message = String::from_str("`package.");
            message.append(field);
            message.append(".workspace` must be true");
            push(violations, file, message);
        }
        i = i + 1;
    }
    assert(fields_seq.take(6) =~= fields_seq);
    if member.publishable {
        published(document, file, violations);
    }
    let ghost published_state = (exemptions.entries_spec(), violation_views(violations@));
    let dependencies = dependencies(document);
    let mut j: usize = 0;
    assert(entries_of(dependencies@).take(0) =~= Seq::<Entry>::empty());
    while j < dependencies.len()
        invariant
            j <= dependencies@.len(),
            names@ == names_view(workspace_dependencies@).to_set(),
            exemptions.wf(),
            entries_of(dependencies@) == dependency_entries(*document),
            (exemptions.entries_spec(), violation_views(violations@)) == dependencies_state(published_state, entries_of(dependencies@).take(j as int), package@, names@, file@),
        decreases dependencies@.len() - j,
    {
        let (name, specification) = dependencies[j];
        let name = name.as_str();
        assert(entries_of(dependencies@).take(j + 1).drop_last() =~= entries_of(dependencies@).take(j as int));
        let inherits = match specification.get("workspace") {
            Some(TomlItem::Value(TomlValue::Boolean(inherits))) => *inherits,
            _ => false,
        };
        assert(entries_of(dependencies@)[j as int] == *dependencies@[j as int]);
        assert(inherits == (as_bool_spec(get_spec(*specification, "workspace"@)) == Some(true)));
        let declared = contains_name(workspace_dependencies, name);
        assert(declared == names@.contains(name@));
        assert((declared && !inherits) == dependency_broken(names@, entries_of(dependencies@)[j as int]));
        if declared && !inherits && !exemptions.allows_dependency(package, name) {
            let mut message = String::from_str("`");
            message.append(name);
            message.append("` has a workspace entry, so it must be `workspace = true`");
            push(violations, file, message);
        }
        j = j + 1;
    }
    assert(entries_of(dependencies@).take(dependencies@.len() as int) =~= entries_of(dependencies@));
}

/// The names of the dependencies that any of the member manifests declares.
pub open spec fn used_names(documents: Seq<TomlItem>) -> Set<Seq<char>>
    decreases documents.len(),
{
    if documents.len() == 0 {
        Set::empty()
    } else {
        used_names(documents.drop_last()).union(
            dependency_entries(documents.last()).map_values(|entry: Entry| entry.0@).to_set(),
        )
    }
}

/// The state after each member manifest is checked, in order.
pub open spec fn members_state(state: CheckState, documents: Seq<TomlItem>, members: Seq<Member>, names: Set<Seq<char>>) -> CheckState
    decreases documents.len(),
{
    if documents.len() == 0 || members.len() == 0 {
        state
    } else {
        member_state(
            members_state(state, documents.drop_last(), members.drop_last(), names),
            documents.last(),
            members.last(),
            names,
        )
    }
}

/// The reports of each workspace dependency in `order` that no member uses.
pub open spec fn unused_dependency_reports(order: Seq<Seq<char>>, used: Set<Seq<char>>, file: Seq<char>) -> Seq<Report>
    decreases order.len(),
{
    if order.len() == 0 {
        Seq::empty()
    } else {
        let earlier = unused_dependency_reports(order.drop_last(), used, file);
        if used.contains(order.last()) {
            earlier
        } else {
            earlier.push((file, "`workspace.dependencies."@ + order.last() + "` is not used by any member"@))
        }
    }
}

/// Every element of each of two report sequences is among their concatenation.
proof fn lemma_reports_concat(first: Seq<Report>, second: Seq<Report>, report: Report)
    ensures
        first.contains(report) ==> (first + second).contains(report),
        second.contains(report) ==> (first + second).contains(report),
{
    if first.contains(report) {
        let k = choose|k: int| 0 <= k < first.len() && first[k] == report;
        assert((first + second)[k] == report);
    }
    if second.contains(report) {
        let k = choose|k: int| 0 <= k < second.len() && second[k] == report;
        assert((first + second)[first.len() + k] == report);
    }
}

/// A present `.taplo.toml` is reported when its `exclude` list lacks `target/**`, and when its
/// `formatting.column_width` is not 100.
#[verifier::spinoff_prover]
#[verifier::rlimit(80)]
pub proof fn lemma_taplo_reports_each_setting(document: TomlItem, file: Seq<char>)
    ensures
        !excludes_target(document) ==> taplo_reports(document, file).contains((file, "`exclude` must contain \"target/**\""@)),
        as_integer_spec(get_path(document, seq!["formatting"@, "column_width"@])) != Some(100i64) ==> taplo_reports(document, file).contains((file, "`formatting.column_width` must be "@ + signed_decimal(100))),
{
    reveal_strlit(".");
    reveal_strlit("`");
    reveal_strlit("` must be ");
    reveal_strlit("`formatting.column_width` must be ");
    reveal_strlit("column_width");
    reveal_strlit("formatting");
    assert(seq!["formatting"@, "column_width"@].drop_last() =~= seq!["formatting"@]);
    assert(seq!["formatting"@, "column_width"@].last() == "column_width"@);
    assert(dotted(seq!["formatting"@, "column_width"@]) == dotted(seq!["formatting"@]) + "."@ + "column_width"@);
    assert(dotted(seq!["formatting"@, "column_width"@]) =~= "formatting"@ + "."@ + "column_width"@);
    let reports = taplo_reports(document, file);
    assert(reports == (if excludes_target(document) { Seq::<Report>::empty() } else { seq![(file, "`exclude` must contain \"target/**\""@)] }) + integer_report(document, seq!["formatting"@, "column_width"@], 100i64, file));
    if !excludes_target(document) {
        assert((if excludes_target(document) { Seq::<Report>::empty() } else { seq![(file, "`exclude` must contain \"target/**\""@)] })[0] == (file, "`exclude` must contain \"target/**\""@));
        assert((if excludes_target(document) { Seq::<Report>::empty() } else { seq![(file, "`exclude` must contain \"target/**\""@)] }).contains((file, "`exclude` must contain \"target/**\""@)));
        lemma_reports_concat((if excludes_target(document) { Seq::<Report>::empty() } else { seq![(file, "`exclude` must contain \"target/**\""@)] }), integer_report(document, seq!["formatting"@, "column_width"@], 100i64, file), (file, "`exclude` must contain \"target/**\""@));
    }
    if as_integer_spec(get_path(document, seq!["formatting"@, "column_width"@])) != Some(100i64) {
        assert("`formatting.column_width` must be "@ + signed_decimal(100) =~= "`"@ + dotted(seq!["formatting"@, "column_width"@]) + "` must be "@ + signed_decimal(100i64 as int));
        assert(integer_report(document, seq!["formatting"@, "column_width"@], 100i64, file)[0] == (file, "`formatting.column_width` must be "@ + signed_decimal(100)));
        assert(integer_report(document, seq!["formatting"@, "column_width"@], 100i64, file).contains((file, "`formatting.column_width` must be "@ + signed_decimal(100))));
        lemma_reports_concat((if excludes_target(document) { Seq::<Report>::empty() } else { seq![(file, "`exclude` must contain \"target/**\""@)] }), integer_report(document, seq!["formatting"@, "column_width"@], 100i64, file), (file, "`formatting.column_width` must be "@ + signed_decimal(100)));
    }
}

/// A present `deny.toml` is reported for each setting that does not make a `cargo deny` run strict:
/// `bans.multiple-versions` must be `warn`, `bans.wildcards`, `sources.unknown-registry` and
/// `sources.unknown-git` must be `deny`, `advisories.version` and `licenses.version` must be 2, and
/// `graph.all-features` must be true.
#[verifier::spinoff_prover]
#[verifier::rlimit(80)]
pub proof fn lemma_deny_reports_each_setting(document: TomlItem, file: Seq<char>)
    ensures
        as_str_spec(get_path(document, seq!["bans"@, "multiple-versions"@])) != Some("warn"@) ==> deny_reports(document, file).contains((file, "`bans.multiple-versions` must be \"warn\""@)),
        as_str_spec(get_path(document, seq!["bans"@, "wildcards"@])) != Some("deny"@) ==> deny_reports(document, file).contains((file, "`bans.wildcards` must be \"deny\""@)),
        as_str_spec(get_path(document, seq!["sources"@, "unknown-registry"@])) != Some("deny"@) ==> deny_reports(document, file).contains((file, "`sources.unknown-registry` must be \"deny\""@)),
        as_str_spec(get_path(document, seq!["sources"@, "unknown-git"@])) != Some("deny"@) ==> deny_reports(document, file).contains((file, "`sources.unknown-git` must be \"deny\""@)),
        as_integer_spec(get_path(document, seq!["advisories"@, "version"@])) != Some(2i64) ==> deny_reports(document, file).contains((file, "`advisories.version` must be "@ + signed_decimal(2))),
        as_integer_spec(get_path(document, seq!["licenses"@, "version"@])) != Some(2i64) ==> deny_reports(document, file).contains((file, "`licenses.version` must be "@ + signed_decimal(2))),
        as_bool_spec(get_path(document, seq!["graph"@, "all-features"@])) != Some(true) ==> deny_reports(document, file).contains((file, "`graph.all-features` must be true"@)),
{
    reveal_strlit("\"");
    reveal_strlit(".");
    reveal_strlit("`");
    reveal_strlit("` must be ");
    reveal_strlit("` must be \"");
    reveal_strlit("` must be true");
    reveal_strlit("`advisories.version` must be ");
    reveal_strlit("`bans.multiple-versions` must be \"warn\"");
    reveal_strlit("`bans.wildcards` must be \"deny\"");
    reveal_strlit("`graph.all-features` must be true");
    reveal_strlit("`licenses.version` must be ");
    reveal_strlit("`sources.unknown-git` must be \"deny\"");
    reveal_strlit("`sources.unknown-registry` must be \"deny\"");
    reveal_strlit("advisories");
    reveal_strlit("all-features");
    reveal_strlit("bans");
    reveal_strlit("deny");
    reveal_strlit("graph");
    reveal_strlit("licenses");
    reveal_strlit("multiple-versions");
    reveal_strlit("sources");
    reveal_strlit("unknown-git");
    reveal_strlit("unknown-registry");
    reveal_strlit("version");
    reveal_strlit("warn");
    reveal_strlit("wildcards");
    assert(seq!["bans"@, "multiple-versions"@].drop_last() =~= seq!["bans"@]);
    assert(seq!["bans"@, "multiple-versions"@].last() == "multiple-versions"@);
    assert(dotted(seq!["bans"@, "multiple-versions"@]) == dotted(seq!["bans"@]) + "."@ + "multiple-versions"@);
    assert(dotted(seq!["bans"@, "multiple-versions"@]) =~= "bans"@ + "."@ + "multiple-versions"@);
    assert(seq!["bans"@, "wildcards"@].drop_last() =~= seq!["bans"@]);
    assert(seq!["bans"@, "wildcards"@].last() == "wildcards"@);
    assert(dotted(seq!["bans"@, "wildcards"@]) == dotted(seq!["bans"@]) + "."@ + "wildcards"@);
    assert(dotted(seq!["bans"@, "wildcards"@]) =~= "bans"@ + "."@ + "wildcards"@);
    assert(seq!["sources"@, "unknown-registry"@].drop_last() =~= seq!["sources"@]);
    assert(seq!["sources"@, "unknown-registry"@].last() == "unknown-registry"@);
    assert(dotted(seq!["sources"@, "unknown-registry"@]) == dotted(seq!["sources"@]) + "."@ + "unknown-registry"@);
    assert(dotted(seq!["sources"@, "unknown-registry"@]) =~= "sources"@ + "."@ + "unknown-registry"@);
    assert(seq!["sources"@, "unknown-git"@].drop_last() =~= seq!["sources"@]);
    assert(seq!["sources"@, "unknown-git"@].last() == "unknown-git"@);
    assert(dotted(seq!["sources"@, "unknown-git"@]) == dotted(seq!["sources"@]) + "."@ + "unknown-git"@);
    assert(dotted(seq!["sources"@, "unknown-git"@]) =~= "sources"@ + "."@ + "unknown-git"@);
    assert(seq!["advisories"@, "version"@].drop_last() =~= seq!["advisories"@]);
    assert(seq!["advisories"@, "version"@].last() == "version"@);
    assert(dotted(seq!["advisories"@, "version"@]) == dotted(seq!["advisories"@]) + "."@ + "version"@);
    assert(dotted(seq!["advisories"@, "version"@]) =~= "advisories"@ + "."@ + "version"@);
    assert(seq!["licenses"@, "version"@].drop_last() =~= seq!["licenses"@]);
    assert(seq!["licenses"@, "version"@].last() == "version"@);
    assert(dotted(seq!["licenses"@, "version"@]) == dotted(seq!["licenses"@]) + "."@ + "version"@);
    assert(dotted(seq!["licenses"@, "version"@]) =~= "licenses"@ + "."@ + "version"@);
    assert(seq!["graph"@, "all-features"@].drop_last() =~= seq!["graph"@]);
    assert(seq!["graph"@, "all-features"@].last() == "all-features"@);
    assert(dotted(seq!["graph"@, "all-features"@]) == dotted(seq!["graph"@]) + "."@ + "all-features"@);
    assert(dotted(seq!["graph"@, "all-features"@]) =~= "graph"@ + "."@ + "all-features"@);
    let reports = deny_reports(document, file);
    assert(reports == string_report(document, seq!["bans"@, "multiple-versions"@], "warn"@, file) + string_report(document, seq!["bans"@, "wildcards"@], "deny"@, file) + string_report(document, seq!["sources"@, "unknown-registry"@], "deny"@, file) + string_report(document, seq!["sources"@, "unknown-git"@], "deny"@, file) + integer_report(document, seq!["advisories"@, "version"@], 2i64, file) + integer_report(document, seq!["licenses"@, "version"@], 2i64, file) + true_report(document, seq!["graph"@, "all-features"@], file));
    if as_str_spec(get_path(document, seq!["bans"@, "multiple-versions"@])) != Some("warn"@) {
        assert("`bans.multiple-versions` must be \"warn\""@ =~= "`"@ + dotted(seq!["bans"@, "multiple-versions"@]) + "` must be \""@ + "warn"@ + "\""@);
        assert(string_report(document, seq!["bans"@, "multiple-versions"@], "warn"@, file)[0] == (file, "`bans.multiple-versions` must be \"warn\""@));
        assert(string_report(document, seq!["bans"@, "multiple-versions"@], "warn"@, file).contains((file, "`bans.multiple-versions` must be \"warn\""@)));
        lemma_reports_concat(string_report(document, seq!["bans"@, "multiple-versions"@], "warn"@, file), string_report(document, seq!["bans"@, "wildcards"@], "deny"@, file), (file, "`bans.multiple-versions` must be \"warn\""@));
        lemma_reports_concat((string_report(document, seq!["bans"@, "multiple-versions"@], "warn"@, file)) + string_report(document, seq!["bans"@, "wildcards"@], "deny"@, file), string_report(document, seq!["sources"@, "unknown-registry"@], "deny"@, file), (file, "`bans.multiple-versions` must be \"warn\""@));
        lemma_reports_concat(((string_report(document, seq!["bans"@, "multiple-versions"@], "warn"@, file)) + string_report(document, seq!["bans"@, "wildcards"@], "deny"@, file)) + string_report(document, seq!["sources"@, "unknown-registry"@], "deny"@, file), string_report(document, seq!["sources"@, "unknown-git"@], "deny"@, file), (file, "`bans.multiple-versions` must be \"warn\""@));
        lemma_reports_concat((((string_report(document, seq!["bans"@, "multiple-versions"@], "warn"@, file)) + string_report(document, seq!["bans"@, "wildcards"@], "deny"@, file)) + string_report(document, seq!["sources"@, "unknown-registry"@], "deny"@, file)) + string_report(document, seq!["sources"@, "unknown-git"@], "deny"@, file), integer_report(document, seq!["advisories"@, "version"@], 2i64, file), (file, "`bans.multiple-versions` must be \"warn\""@));
        lemma_reports_concat(((((string_report(document, seq!["bans"@, "multiple-versions"@], "warn"@, file)) + string_report(document, seq!["bans"@, "wildcards"@], "deny"@, file)) + string_report(document, seq!["sources"@, "unknown-registry"@], "deny"@, file)) + string_report(document, seq!["sources"@, "unknown-git"@], "deny"@, file)) + integer_report(document, seq!["advisories"@, "version"@], 2i64, file), integer_report(document, seq!["licenses"@, "version"@], 2i64, file), (file, "`bans.multiple-versions` must be \"warn\""@));
        lemma_reports_concat((((((string_report(document, seq!["bans"@, "multiple-versions"@], "warn"@, file)) + string_report(document, seq!["bans"@, "wildcards"@], "deny"@, file)) + string_report(document, seq!["sources"@, "unknown-registry"@], "deny"@, file)) + string_report(document, seq!["sources"@, "unknown-git"@], "deny"@, file)) + integer_report(document, seq!["advisories"@, "version"@], 2i64, file)) + integer_report(document, seq!["licenses"@, "version"@], 2i64, file), true_report(document, seq!["graph"@, "all-features"@], file), (file, "`bans.multiple-versions` must be \"warn\""@));
    }
    if as_str_spec(get_path(document, seq!["bans"@, "wildcards"@])) != Some("deny"@) {
        assert("`bans.wildcards` must be \"deny\""@ =~= "`"@ + dotted(seq!["bans"@, "wildcards"@]) + "` must be \""@ + "deny"@ + "\""@);
        assert(string_report(document, seq!["bans"@, "wildcards"@], "deny"@, file)[0] == (file, "`bans.wildcards` must be \"deny\""@));
        assert(string_report(document, seq!["bans"@, "wildcards"@], "deny"@, file).contains((file, "`bans.wildcards` must be \"deny\""@)));
        lemma_reports_concat(string_report(document, seq!["bans"@, "multiple-versions"@], "warn"@, file), string_report(document, seq!["bans"@, "wildcards"@], "deny"@, file), (file, "`bans.wildcards` must be \"deny\""@));
        lemma_reports_concat((string_report(document, seq!["bans"@, "multiple-versions"@], "warn"@, file)) + string_report(document, seq!["bans"@, "wildcards"@], "deny"@, file), string_report(document, seq!["sources"@, "unknown-registry"@], "deny"@, file), (file, "`bans.wildcards` must be \"deny\""@));
        lemma_reports_concat(((string_report(document, seq!["bans"@, "multiple-versions"@], "warn"@, file)) + string_report(document, seq!["bans"@, "wildcards"@], "deny"@, file)) + string_report(document, seq!["sources"@, "unknown-registry"@], "deny"@, file), string_report(document, seq!["sources"@, "unknown-git"@], "deny"@, file), (file, "`bans.wildcards` must be \"deny\""@));
        lemma_reports_concat((((string_report(document, seq!["bans"@, "multiple-versions"@], "warn"@, file)) + string_report(document, seq!["bans"@, "wildcards"@], "deny"@, file)) + string_report(document, seq!["sources"@, "unknown-registry"@], "deny"@, file)) + string_report(document, seq!["sources"@, "unknown-git"@], "deny"@, file), integer_report(document, seq!["advisories"@, "version"@], 2i64, file), (file, "`bans.wildcards` must be \"deny\""@));
        lemma_reports_concat(((((string_report(document, seq!["bans"@, "multiple-versions"@], "warn"@, file)) + string_report(document, seq!["bans"@, "wildcards"@], "deny"@, file)) + string_report(document, seq!["sources"@, "unknown-registry"@], "deny"@, file)) + string_report(document, seq!["sources"@, "unknown-git"@], "deny"@, file)) + integer_report(document, seq!["advisories"@, "version"@], 2i64, file), integer_report(document, seq!["licenses"@, "version"@], 2i64, file), (file, "`bans.wildcards` must be \"deny\""@));
        lemma_reports_concat((((((string_report(document, seq!["bans"@, "multiple-versions"@], "warn"@, file)) + string_report(document, seq!["bans"@, "wildcards"@], "deny"@, file)) + string_report(document, seq!["sources"@, "unknown-registry"@], "deny"@, file)) + string_report(document, seq!["sources"@, "unknown-git"@], "deny"@, file)) + integer_report(document, seq!["advisories"@, "version"@], 2i64, file)) + integer_report(document, seq!["licenses"@, "version"@], 2i64, file), true_report(document, seq!["graph"@, "all-features"@], file), (file, "`bans.wildcards` must be \"deny\""@));
    }
    if as_str_spec(get_path(document, seq!["sources"@, "unknown-registry"@])) != Some("deny"@) {
        assert("`sources.unknown-registry` must be \"deny\""@ =~= "`"@ + dotted(seq!["sources"@, "unknown-registry"@]) + "` must be \""@ + "deny"@ + "\""@);
        assert(string_report(document, seq!["sources"@, "unknown-registry"@], "deny"@, file)[0] == (file, "`sources.unknown-registry` must be \"deny\""@));
        assert(string_report(document, seq!["sources"@, "unknown-registry"@], "deny"@, file).contains((file, "`sources.unknown-registry` must be \"deny\""@)));
        lemma_reports_concat((string_report(document, seq!["bans"@, "multiple-versions"@], "warn"@, file)) + string_report(document, seq!["bans"@, "wildcards"@], "deny"@, file), string_report(document, seq!["sources"@, "unknown-registry"@], "deny"@, file), (file, "`sources.unknown-registry` must be \"deny\""@));
        lemma_reports_concat(((string_report(document, seq!["bans"@, "multiple-versions"@], "warn"@, file)) + string_report(document, seq!["bans"@, "wildcards"@], "deny"@, file)) + string_report(document, seq!["sources"@, "unknown-registry"@], "deny"@, file), string_report(document, seq!["sources"@, "unknown-git"@], "deny"@, file), (file, "`sources.unknown-registry` must be \"deny\""@));
        lemma_reports_concat((((string_report(document, seq!["bans"@, "multiple-versions"@], "warn"@, file)) + string_report(document, seq!["bans"@, "wildcards"@], "deny"@, file)) + string_report(document, seq!["sources"@, "unknown-registry"@], "deny"@, file)) + string_report(document, seq!["sources"@, "unknown-git"@], "deny"@, file), integer_report(document, seq!["advisories"@, "version"@], 2i64, file), (file, "`sources.unknown-registry` must be \"deny\""@));
        lemma_reports_concat(((((string_report(document, seq!["bans"@, "multiple-versions"@], "warn"@, file)) + string_report(document, seq!["bans"@, "wildcards"@], "deny"@, file)) + string_report(document, seq!["sources"@, "unknown-registry"@], "deny"@, file)) + string_report(document, seq!["sources"@, "unknown-git"@], "deny"@, file)) + integer_report(document, seq!["advisories"@, "version"@], 2i64, file), integer_report(document, seq!["licenses"@, "version"@], 2i64, file), (file, "`sources.unknown-registry` must be \"deny\""@));
        lemma_reports_concat((((((string_report(document, seq!["bans"@, "multiple-versions"@], "warn"@, file)) + string_report(document, seq!["bans"@, "wildcards"@], "deny"@, file)) + string_report(document, seq!["sources"@, "unknown-registry"@], "deny"@, file)) + string_report(document, seq!["sources"@, "unknown-git"@], "deny"@, file)) + integer_report(document, seq!["advisories"@, "version"@], 2i64, file)) + integer_report(document, seq!["licenses"@, "version"@], 2i64, file), true_report(document, seq!["graph"@, "all-features"@], file), (file, "`sources.unknown-registry` must be \"deny\""@));
    }
    if as_str_spec(get_path(document, seq!["sources"@, "unknown-git"@])) != Some("deny"@) {
        assert("`sources.unknown-git` must be \"deny\""@ =~= "`"@ + dotted(seq!["sources"@, "unknown-git"@]) + "` must be \""@ + "deny"@ + "\""@);
        assert(string_report(document, seq!["sources"@, "unknown-git"@], "deny"@, file)[0] == (file, "`sources.unknown-git` must be \"deny\""@));
        assert(string_report(document, seq!["sources"@, "unknown-git"@], "deny"@, file).contains((file, "`sources.unknown-git` must be \"deny\""@)));
        lemma_reports_concat(((string_report(document, seq!["bans"@, "multiple-versions"@], "warn"@, file)) + string_report(document, seq!["bans"@, "wildcards"@], "deny"@, file)) + string_report(document, seq!["sources"@, "unknown-registry"@], "deny"@, file), string_report(document, seq!["sources"@, "unknown-git"@], "deny"@, file), (file, "`sources.unknown-git` must be \"deny\""@));
        lemma_reports_concat((((string_report(document, seq!["bans"@, "multiple-versions"@], "warn"@, file)) + string_report(document, seq!["bans"@, "wildcards"@], "deny"@, file)) + string_report(document, seq!["sources"@, "unknown-registry"@], "deny"@, file)) + string_report(document, seq!["sources"@, "unknown-git"@], "deny"@, file), integer_report(document, seq!["advisories"@, "version"@], 2i64, file), (file, "`sources.unknown-git` must be \"deny\""@));
        lemma_reports_concat(((((string_report(document, seq!["bans"@, "multiple-versions"@], "warn"@, file)) + string_report(document, seq!["bans"@, "wildcards"@], "deny"@, file)) + string_report(document, seq!["sources"@, "unknown-registry"@], "deny"@, file)) + string_report(document, seq!["sources"@, "unknown-git"@], "deny"@, file)) + integer_report(document, seq!["advisories"@, "version"@], 2i64, file), integer_report(document, seq!["licenses"@, "version"@], 2i64, file), (file, "`sources.unknown-git` must be \"deny\""@));
        lemma_reports_concat((((((string_report(document, seq!["bans"@, "multiple-versions"@], "warn"@, file)) + string_report(document, seq!["bans"@, "wildcards"@], "deny"@, file)) + string_report(document, seq!["sources"@, "unknown-registry"@], "deny"@, file)) + string_report(document, seq!["sources"@, "unknown-git"@], "deny"@, file)) + integer_report(document, seq!["advisories"@, "version"@], 2i64, file)) + integer_report(document, seq!["licenses"@, "version"@], 2i64, file), true_report(document, seq!["graph"@, "all-features"@], file), (file, "`sources.unknown-git` must be \"deny\""@));
    }
    if as_integer_spec(get_path(document, seq!["advisories"@, "version"@])) != Some(2i64) {
        assert("`advisories.version` must be "@ + signed_decimal(2) =~= "`"@ + dotted(seq!["advisories"@, "version"@]) + "` must be "@ + signed_decimal(2i64 as int));
        assert(integer_report(document, seq!["advisories"@, "version"@], 2i64, file)[0] == (file, "`advisories.version` must be "@ + signed_decimal(2)));
        assert(integer_report(document, seq!["advisories"@, "version"@], 2i64, file).contains((file, "`advisories.version` must be "@ + signed_decimal(2))));
        lemma_reports_concat((((string_report(document, seq!["bans"@, "multiple-versions"@], "warn"@, file)) + string_report(document, seq!["bans"@, "wildcards"@], "deny"@, file)) + string_report(document, seq!["sources"@, "unknown-registry"@], "deny"@, file)) + string_report(document, seq!["sources"@, "unknown-git"@], "deny"@, file), integer_report(document, seq!["advisories"@, "version"@], 2i64, file), (file, "`advisories.version` must be "@ + signed_decimal(2)));
        lemma_reports_concat(((((string_report(document, seq!["bans"@, "multiple-versions"@], "warn"@, file)) + string_report(document, seq!["bans"@, "wildcards"@], "deny"@, file)) + string_report(document, seq!["sources"@, "unknown-registry"@], "deny"@, file)) + string_report(document, seq!["sources"@, "unknown-git"@], "deny"@, file)) + integer_report(document, seq!["advisories"@, "version"@], 2i64, file), integer_report(document, seq!["licenses"@, "version"@], 2i64, file), (file, "`advisories.version` must be "@ + signed_decimal(2)));
        lemma_reports_concat((((((string_report(document, seq!["bans"@, "multiple-versions"@], "warn"@, file)) + string_report(document, seq!["bans"@, "wildcards"@], "deny"@, file)) + string_report(document, seq!["sources"@, "unknown-registry"@], "deny"@, file)) + string_report(document, seq!["sources"@, "unknown-git"@], "deny"@, file)) + integer_report(document, seq!["advisories"@, "version"@], 2i64, file)) + integer_report(document, seq!["licenses"@, "version"@], 2i64, file), true_report(document, seq!["graph"@, "all-features"@], file), (file, "`advisories.version` must be "@ + signed_decimal(2)));
    }
    if as_integer_spec(get_path(document, seq!["licenses"@, "version"@])) != Some(2i64) {
        assert("`licenses.version` must be "@ + signed_decimal(2) =~= "`"@ + dotted(seq!["licenses"@, "version"@]) + "` must be "@ + signed_decimal(2i64 as int));
        assert(integer_report(document, seq!["licenses"@, "version"@], 2i64, file)[0] == (file, "`licenses.version` must be "@ + signed_decimal(2)));
        assert(integer_report(document, seq!["licenses"@, "version"@], 2i64, file).contains((file, "`licenses.version` must be "@ + signed_decimal(2))));
        lemma_reports_concat(((((string_report(document, seq!["bans"@, "multiple-versions"@], "warn"@, file)) + string_report(document, seq!["bans"@, "wildcards"@], "deny"@, file)) + string_report(document, seq!["sources"@, "unknown-registry"@], "deny"@, file)) + string_report(document, seq!["sources"@, "unknown-git"@], "deny"@, file)) + integer_report(document, seq!["advisories"@, "version"@], 2i64, file), integer_report(document, seq!["licenses"@, "version"@], 2i64, file), (file, "`licenses.version` must be "@ + signed_decimal(2)));
        lemma_reports_concat((((((string_report(document, seq!["bans"@, "multiple-versions"@], "warn"@, file)) + string_report(document, seq!["bans"@, "wildcards"@], "deny"@, file)) + string_report(document, seq!["sources"@, "unknown-registry"@], "deny"@, file)) + string_report(document, seq!["sources"@, "unknown-git"@], "deny"@, file)) + integer_report(document, seq!["advisories"@, "version"@], 2i64, file)) + integer_report(document, seq!["licenses"@, "version"@], 2i64, file), true_report(document, seq!["graph"@, "all-features"@], file), (file, "`licenses.version` must be "@ + signed_decimal(2)));
    }
    if as_bool_spec(get_path(document, seq!["graph"@, "all-features"@])) != Some(true) {
        assert("`graph.all-features` must be true"@ =~= "`"@ + dotted(seq!["graph"@, "all-features"@]) + "` must be true"@);
        assert(true_report(document, seq!["graph"@, "all-features"@], file)[0] == (file, "`graph.all-features` must be true"@));
        assert(true_report(document, seq!["graph"@, "all-features"@], file).contains((file, "`graph.all-features` must be true"@)));
        lemma_reports_concat((((((string_report(document, seq!["bans"@, "multiple-versions"@], "warn"@, file)) + string_report(document, seq!["bans"@, "wildcards"@], "deny"@, file)) + string_report(document, seq!["sources"@, "unknown-registry"@], "deny"@, file)) + string_report(document, seq!["sources"@, "unknown-git"@], "deny"@, file)) + integer_report(document, seq!["advisories"@, "version"@], 2i64, file)) + integer_report(document, seq!["licenses"@, "version"@], 2i64, file), true_report(document, seq!["graph"@, "all-features"@], file), (file, "`graph.all-features` must be true"@));
    }
}

/// The root manifest is reported for each workspace lint whose level differs from the policy:
/// `missing_docs` deny, `rust_2018_idioms` warn, `unsafe_code` forbid, clippy `all`, `pedantic` and
/// `nursery` warn, and `missing_errors_doc` allow.
#[verifier::spinoff_prover]
#[verifier::rlimit(80)]
pub proof fn lemma_lint_level_reports_each_setting(document: TomlItem, file: Seq<char>)
    ensures
        as_str_spec(get_path(document, seq!["workspace"@, "lints"@, "rust"@, "missing_docs"@])) != Some("deny"@) ==> lint_level_reports(document, file).contains((file, "`workspace.lints.rust.missing_docs` must be \"deny\""@)),
        as_str_spec(get_path(document, seq!["workspace"@, "lints"@, "rust"@, "rust_2018_idioms"@, "level"@])) != Some("warn"@) ==> lint_level_reports(document, file).contains((file, "`workspace.lints.rust.rust_2018_idioms.level` must be \"warn\""@)),
        as_str_spec(get_path(document, seq!["workspace"@, "lints"@, "rust"@, "unsafe_code"@])) != Some("forbid"@) ==> lint_level_reports(document, file).contains((file, "`workspace.lints.rust.unsafe_code` must be \"forbid\""@)),
        as_str_spec(get_path(document, seq!["workspace"@, "lints"@, "clippy"@, "all"@, "level"@])) != Some("warn"@) ==> lint_level_reports(document, file).contains((file, "`workspace.lints.clippy.all.level` must be \"warn\""@)),
        as_str_spec(get_path(document, seq!["workspace"@, "lints"@, "clippy"@, "pedantic"@, "level"@])) != Some("warn"@) ==> lint_level_reports(document, file).contains((file, "`workspace.lints.clippy.pedantic.level` must be \"warn\""@)),
        as_str_spec(get_path(document, seq!["workspace"@, "lints"@, "clippy"@, "nursery"@, "level"@])) != Some("warn"@) ==> lint_level_reports(document, file).contains((file, "`workspace.lints.clippy.nursery.level` must be \"warn\""@)),
        as_str_spec(get_path(document, seq!["workspace"@, "lints"@, "clippy"@, "missing_errors_doc"@])) != Some("allow"@) ==> lint_level_reports(document, file).contains((file, "`workspace.lints.clippy.missing_errors_doc` must be \"allow\""@)),
{
    reveal_strlit("\"");
    reveal_strlit(".");
    reveal_strlit("`");
    reveal_strlit("` must be \"");
    reveal_strlit("`workspace.lints.clippy.all.level` must be \"warn\"");
    reveal_strlit("`workspace.lints.clippy.missing_errors_doc` must be \"allow\"");
    reveal_strlit("`workspace.lints.clippy.nursery.level` must be \"warn\"");
    reveal_strlit("`workspace.lints.clippy.pedantic.level` must be \"warn\"");
    reveal_strlit("`workspace.lints.rust.missing_docs` must be \"deny\"");
    reveal_strlit("`workspace.lints.rust.rust_2018_idioms.level` must be \"warn\"");
    reveal_strlit("`workspace.lints.rust.unsafe_code` must be \"forbid\"");
    reveal_strlit("all");
    reveal_strlit("allow");
    reveal_strlit("clippy");
    reveal_strlit("deny");
    reveal_strlit("forbid");
    reveal_strlit("level");
    reveal_strlit("lints");
    reveal_strlit("missing_docs");
    reveal_strlit("missing_errors_doc");
    reveal_strlit("nursery");
    reveal_strlit("pedantic");
    reveal_strlit("rust");
    reveal_strlit("rust_2018_idioms");
    reveal_strlit("unsafe_code");
    reveal_strlit("warn");
    reveal_strlit("workspace");
    assert(seq!["workspace"@, "lints"@].drop_last() =~= seq!["workspace"@]);
    assert(seq!["workspace"@, "lints"@].last() == "lints"@);
    assert(dotted(seq!["workspace"@, "lints"@]) == dotted(seq!["workspace"@]) + "."@ + "lints"@);
    assert(seq!["workspace"@, "lints"@, "rust"@].drop_last() =~= seq!["workspace"@, "lints"@]);
    assert(seq!["workspace"@, "lints"@, "rust"@].last() == "rust"@);
    assert(dotted(seq!["workspace"@, "lints"@, "rust"@]) == dotted(seq!["workspace"@, "lints"@]) + "."@ + "rust"@);
    assert(seq!["workspace"@, "lints"@, "rust"@, "missing_docs"@].drop_last() =~= seq!["workspace"@, "lints"@, "rust"@]);
    assert(seq!["workspace"@, "lints"@, "rust"@, "missing_docs"@].last() == "missing_docs"@);
    assert(dotted(seq!["workspace"@, "lints"@, "rust"@, "missing_docs"@]) == dotted(seq!["workspace"@, "lints"@, "rust"@]) + "."@ + "missing_docs"@);
    assert(dotted(seq!["workspace"@, "lints"@, "rust"@, "missing_docs"@]) =~= "workspace"@ + "."@ + "lints"@ + "."@ + "rust"@ + "."@ + "missing_docs"@);
    assert(seq!["workspace"@, "lints"@, "rust"@, "rust_2018_idioms"@].drop_last() =~= seq!["workspace"@, "lints"@, "rust"@]);
    assert(seq!["workspace"@, "lints"@, "rust"@, "rust_2018_idioms"@].last() == "rust_2018_idioms"@);
    assert(dotted(seq!["workspace"@, "lints"@, "rust"@, "rust_2018_idioms"@]) == dotted(seq!["workspace"@, "lints"@, "rust"@]) + "."@ + "rust_2018_idioms"@);
    assert(seq!["workspace"@, "lints"@, "rust"@, "rust_2018_idioms"@, "level"@].drop_last() =~= seq!["workspace"@, "lints"@, "rust"@, "rust_2018_idioms"@]);
    assert(seq!["workspace"@, "lints"@, "rust"@, "rust_2018_idioms"@, "level"@].last() == "level"@);
    assert(dotted(seq!["workspace"@, "lints"@, "rust"@, "rust_2018_idioms"@, "level"@]) == dotted(seq!["workspace"@, "lints"@, "rust"@, "rust_2018_idioms"@]) + "."@ + "level"@);
    assert(dotted(seq!["workspace"@, "lints"@, "rust"@, "rust_2018_idioms"@, "level"@]) =~= "workspace"@ + "."@ + "lints"@ + "."@ + "rust"@ + "."@ + "rust_2018_idioms"@ + "."@ + "level"@);
    assert(seq!["workspace"@, "lints"@, "rust"@, "unsafe_code"@].drop_last() =~= seq!["workspace"@, "lints"@, "rust"@]);
    assert(seq!["workspace"@, "lints"@, "rust"@, "unsafe_code"@].last() == "unsafe_code"@);
    assert(dotted(seq!["workspace"@, "lints"@, "rust"@, "unsafe_code"@]) == dotted(seq!["workspace"@, "lints"@, "rust"@]) + "."@ + "unsafe_code"@);
    assert(dotted(seq!["workspace"@, "lints"@, "rust"@, "unsafe_code"@]) =~= "workspace"@ + "."@ + "lints"@ + "."@ + "rust"@ + "."@ + "unsafe_code"@);
    assert(seq!["workspace"@, "lints"@, "clippy"@].drop_last() =~= seq!["workspace"@, "lints"@]);
    assert(seq!["workspace"@, "lints"@, "clippy"@].last() == "clippy"@);
    assert(dotted(seq!["workspace"@, "lints"@, "clippy"@]) == dotted(seq!["workspace"@, "lints"@]) + "."@ + "clippy"@);
    assert(seq!["workspace"@, "lints"@, "clippy"@, "all"@].drop_last() =~= seq!["workspace"@, "lints"@, "clippy"@]);
    assert(seq!["workspace"@, "lints"@, "clippy"@, "all"@].last() == "all"@);
    assert(dotted(seq!["workspace"@, "lints"@, "clippy"@, "all"@]) == dotted(seq!["workspace"@, "lints"@, "clippy"@]) + "."@ + "all"@);
    assert(seq!["workspace"@, "lints"@, "clippy"@, "all"@, "level"@].drop_last() =~= seq!["workspace"@, "lints"@, "clippy"@, "all"@]);
    assert(seq!["workspace"@, "lints"@, "clippy"@, "all"@, "level"@].last() == "level"@);
    assert(dotted(seq!["workspace"@, "lints"@, "clippy"@, "all"@, "level"@]) == dotted(seq!["workspace"@, "lints"@, "clippy"@, "all"@]) + "."@ + "level"@);
    assert(dotted(seq!["workspace"@, "lints"@, "clippy"@, "all"@, "level"@]) =~= "workspace"@ + "."@ + "lints"@ + "."@ + "clippy"@ + "."@ + "all"@ + "."@ + "level"@);
    assert(seq!["workspace"@, "lints"@, "clippy"@, "pedantic"@].drop_last() =~= seq!["workspace"@, "lints"@, "clippy"@]);
    assert(seq!["workspace"@, "lints"@, "clippy"@, "pedantic"@].last() == "pedantic"@);
    assert(dotted(seq!["workspace"@, "lints"@, "clippy"@, "pedantic"@]) == dotted(seq!["workspace"@, "lints"@, "clippy"@]) + "."@ + "pedantic"@);
    assert(seq!["workspace"@, "lints"@, "clippy"@, "pedantic"@, "level"@].drop_last() =~= seq!["workspace"@, "lints"@, "clippy"@, "pedantic"@]);
    assert(seq!["workspace"@, "lints"@, "clippy"@, "pedantic"@, "level"@].last() == "level"@);
    assert(dotted(seq!["workspace"@, "lints"@, "clippy"@, "pedantic"@, "level"@]) == dotted(seq!["workspace"@, "lints"@, "clippy"@, "pedantic"@]) + "."@ + "level"@);
    assert(dotted(seq!["workspace"@, "lints"@, "clippy"@, "pedantic"@, "level"@]) =~= "workspace"@ + "."@ + "lints"@ + "."@ + "clippy"@ + "."@ + "pedantic"@ + "."@ + "level"@);
    assert(seq!["workspace"@, "lints"@, "clippy"@, "nursery"@].drop_last() =~= seq!["workspace"@, "lints"@, "clippy"@]);
    assert(seq!["workspace"@, "lints"@, "clippy"@, "nursery"@].last() == "nursery"@);
    assert(dotted(seq!["workspace"@, "lints"@, "clippy"@, "nursery"@]) == dotted(seq!["workspace"@, "lints"@, "clippy"@]) + "."@ + "nursery"@);
    assert(seq!["workspace"@, "lints"@, "clippy"@, "nursery"@, "level"@].drop_last() =~= seq!["workspace"@, "lints"@, "clippy"@, "nursery"@]);
    assert(seq!["workspace"@, "lints"@, "clippy"@, "nursery"@, "level"@].last() == "level"@);
    assert(dotted(seq!["workspace"@, "lints"@, "clippy"@, "nursery"@, "level"@]) == dotted(seq!["workspace"@, "lints"@, "clippy"@, "nursery"@]) + "."@ + "level"@);
    assert(dotted(seq!["workspace"@, "lints"@, "clippy"@, "nursery"@, "level"@]) =~= "workspace"@ + "."@ + "lints"@ + "."@ + "clippy"@ + "."@ + "nursery"@ + "."@ + "level"@);
    assert(seq!["workspace"@, "lints"@, "clippy"@, "missing_errors_doc"@].drop_last() =~= seq!["workspace"@, "lints"@, "clippy"@]);
    assert(seq!["workspace"@, "lints"@, "clippy"@, "missing_errors_doc"@].last() == "missing_errors_doc"@);
    assert(dotted(seq!["workspace"@, "lints"@, "clippy"@, "missing_errors_doc"@]) == dotted(seq!["workspace"@, "lints"@, "clippy"@]) + "."@ + "missing_errors_doc"@);
    assert(dotted(seq!["workspace"@, "lints"@, "clippy"@, "missing_errors_doc"@]) =~= "workspace"@ + "."@ + "lints"@ + "."@ + "clippy"@ + "."@ + "missing_errors_doc"@);
    let reports = lint_level_reports(document, file);
    assert(reports == string_report(document, seq!["workspace"@, "lints"@, "rust"@, "missing_docs"@], "deny"@, file) + string_report(document, seq!["workspace"@, "lints"@, "rust"@, "rust_2018_idioms"@, "level"@], "warn"@, file) + string_report(document, seq!["workspace"@, "lints"@, "rust"@, "unsafe_code"@], "forbid"@, file) + string_report(document, seq!["workspace"@, "lints"@, "clippy"@, "all"@, "level"@], "warn"@, file) + string_report(document, seq!["workspace"@, "lints"@, "clippy"@, "pedantic"@, "level"@], "warn"@, file) + string_report(document, seq!["workspace"@, "lints"@, "clippy"@, "nursery"@, "level"@], "warn"@, file) + string_report(document, seq!["workspace"@, "lints"@, "clippy"@, "missing_errors_doc"@], "allow"@, file));
    if as_str_spec(get_path(document, seq!["workspace"@, "lints"@, "rust"@, "missing_docs"@])) != Some("deny"@) {
        assert("`workspace.lints.rust.missing_docs` must be \"deny\""@ =~= "`"@ + dotted(seq!["workspace"@, "lints"@, "rust"@, "missing_docs"@]) + "` must be \""@ + "deny"@ + "\""@);
        assert(string_report(document, seq!["workspace"@, "lints"@, "rust"@, "missing_docs"@], "deny"@, file)[0] == (file, "`workspace.lints.rust.missing_docs` must be \"deny\""@));
        assert(string_report(document, seq!["workspace"@, "lints"@, "rust"@, "missing_docs"@], "deny"@, file).contains((file, "`workspace.lints.rust.missing_docs` must be \"deny\""@)));
        lemma_reports_concat(string_report(document, seq!["workspace"@, "lints"@, "rust"@, "missing_docs"@], "deny"@, file), string_report(document, seq!["workspace"@, "lints"@, "rust"@, "rust_2018_idioms"@, "level"@], "warn"@, file), (file, "`workspace.lints.rust.missing_docs` must be \"deny\""@));
        lemma_reports_concat((string_report(document, seq!["workspace"@, "lints"@, "rust"@, "missing_docs"@], "deny"@, file)) + string_report(document, seq!["workspace"@, "lints"@, "rust"@, "rust_2018_idioms"@, "level"@], "warn"@, file), string_report(document, seq!["workspace"@, "lints"@, "rust"@, "unsafe_code"@], "forbid"@, file), (file, "`workspace.lints.rust.missing_docs` must be \"deny\""@));
        lemma_reports_concat(((string_report(document, seq!["workspace"@, "lints"@, "rust"@, "missing_docs"@], "deny"@, file)) + string_report(document, seq!["workspace"@, "lints"@, "rust"@, "rust_2018_idioms"@, "level"@], "warn"@, file)) + string_report(document, seq!["workspace"@, "lints"@, "rust"@, "unsafe_code"@], "forbid"@, file), string_report(document, seq!["workspace"@, "lints"@, "clippy"@, "all"@, "level"@], "warn"@, file), (file, "`workspace.lints.rust.missing_docs` must be \"deny\""@));
        lemma_reports_concat((((string_report(document, seq!["workspace"@, "lints"@, "rust"@, "missing_docs"@], "deny"@, file)) + string_report(document, seq!["workspace"@, "lints"@, "rust"@, "rust_2018_idioms"@, "level"@], "warn"@, file)) + string_report(document, seq!["workspace"@, "lints"@, "rust"@, "unsafe_code"@], "forbid"@, file)) + string_report(document, seq!["workspace"@, "lints"@, "clippy"@, "all"@, "level"@], "warn"@, file), string_report(document, seq!["workspace"@, "lints"@, "clippy"@, "pedantic"@, "level"@], "warn"@, file), (file, "`workspace.lints.rust.missing_docs` must be \"deny\""@));
        lemma_reports_concat(((((string_report(document, seq!["workspace"@, "lints"@, "rust"@, "missing_docs"@], "deny"@, file)) + string_report(document, seq!["workspace"@, "lints"@, "rust"@, "rust_2018_idioms"@, "level"@], "warn"@, file)) + string_report(document, seq!["workspace"@, "lints"@, "rust"@, "unsafe_code"@], "forbid"@, file)) + string_report(document, seq!["workspace"@, "lints"@, "clippy"@, "all"@, "level"@], "warn"@, file)) + string_report(document, seq!["workspace"@, "lints"@, "clippy"@, "pedantic"@, "level"@], "warn"@, file), string_report(document, seq!["workspace"@, "lints"@, "clippy"@, "nursery"@, "level"@], "warn"@, file), (file, "`workspace.lints.rust.missing_docs` must be \"deny\""@));
        lemma_reports_concat((((((string_report(document, seq!["workspace"@, "lints"@, "rust"@, "missing_docs"@], "deny"@, file)) + string_report(document, seq!["workspace"@, "lints"@, "rust"@, "rust_2018_idioms"@, "level"@], "warn"@, file)) + string_report(document, seq!["workspace"@, "lints"@, "rust"@, "unsafe_code"@], "forbid"@, file)) + string_report(document, seq!["workspace"@, "lints"@, "clippy"@, "all"@, "level"@], "warn"@, file)) + string_report(document, seq!["workspace"@, "lints"@, "clippy"@, "pedantic"@, "level"@], "warn"@, file)) + string_report(document, seq!["workspace"@, "lints"@, "clippy"@, "nursery"@, "level"@], "warn"@, file), string_report(document, seq!["workspace"@, "lints"@, "clippy"@, "missing_errors_doc"@], "allow"@, file), (file, "`workspace.lints.rust.missing_docs` must be \"deny\""@));
    }
    if as_str_spec(get_path(document, seq!["workspace"@, "lints"@, "rust"@, "rust_2018_idioms"@, "level"@])) != Some("warn"@) {
        assert("`workspace.lints.rust.rust_2018_idioms.level` must be \"warn\""@ =~= "`"@ + dotted(seq!["workspace"@, "lints"@, "rust"@, "rust_2018_idioms"@, "level"@]) + "` must be \""@ + "warn"@ + "\""@);
        assert(string_report(document, seq!["workspace"@, "lints"@, "rust"@, "rust_2018_idioms"@, "level"@], "warn"@, file)[0] == (file, "`workspace.lints.rust.rust_2018_idioms.level` must be \"warn\""@));
        assert(string_report(document, seq!["workspace"@, "lints"@, "rust"@, "rust_2018_idioms"@, "level"@], "warn"@, file).contains((file, "`workspace.lints.rust.rust_2018_idioms.level` must be \"warn\""@)));
        lemma_reports_concat(string_report(document, seq!["workspace"@, "lints"@, "rust"@, "missing_docs"@], "deny"@, file), string_report(document, seq!["workspace"@, "lints"@, "rust"@, "rust_2018_idioms"@, "level"@], "warn"@, file), (file, "`workspace.lints.rust.rust_2018_idioms.level` must be \"warn\""@));
        lemma_reports_concat((string_report(document, seq!["workspace"@, "lints"@, "rust"@, "missing_docs"@], "deny"@, file)) + string_report(document, seq!["workspace"@, "lints"@, "rust"@, "rust_2018_idioms"@, "level"@], "warn"@, file), string_report(document, seq!["workspace"@, "lints"@, "rust"@, "unsafe_code"@], "forbid"@, file), (file, "`workspace.lints.rust.rust_2018_idioms.level` must be \"warn\""@));
        lemma_reports_concat(((string_report(document, seq!["workspace"@, "lints"@, "rust"@, "missing_docs"@], "deny"@, file)) + string_report(document, seq!["workspace"@, "lints"@, "rust"@, "rust_2018_idioms"@, "level"@], "warn"@, file)) + string_report(document, seq!["workspace"@, "lints"@, "rust"@, "unsafe_code"@], "forbid"@, file), string_report(document, seq!["workspace"@, "lints"@, "clippy"@, "all"@, "level"@], "warn"@, file), (file, "`workspace.lints.rust.rust_2018_idioms.level` must be \"warn\""@));
        lemma_reports_concat((((string_report(document, seq!["workspace"@, "lints"@, "rust"@, "missing_docs"@], "deny"@, file)) + string_report(document, seq!["workspace"@, "lints"@, "rust"@, "rust_2018_idioms"@, "level"@], "warn"@, file)) + string_report(document, seq!["workspace"@, "lints"@, "rust"@, "unsafe_code"@], "forbid"@, file)) + string_report(document, seq!["workspace"@, "lints"@, "clippy"@, "all"@, "level"@], "warn"@, file), string_report(document, seq!["workspace"@, "lints"@, "clippy"@, "pedantic"@, "level"@], "warn"@, file), (file, "`workspace.lints.rust.rust_2018_idioms.level` must be \"warn\""@));
        lemma_reports_concat(((((string_report(document, seq!["workspace"@, "lints"@, "rust"@, "missing_docs"@], "deny"@, file)) + string_report(document, seq!["workspace"@, "lints"@, "rust"@, "rust_2018_idioms"@, "level"@], "warn"@, file)) + string_report(document, seq!["workspace"@, "lints"@, "rust"@, "unsafe_code"@], "forbid"@, file)) + string_report(document, seq!["workspace"@, "lints"@, "clippy"@, "all"@, "level"@], "warn"@, file)) + string_report(document, seq!["workspace"@, "lints"@, "clippy"@, "pedantic"@, "level"@], "warn"@, file), string_report(document, seq!["workspace"@, "lints"@, "clippy"@, "nursery"@, "level"@], "warn"@, file), (file, "`workspace.lints.rust.rust_2018_idioms.level` must be \"warn\""@));
        lemma_reports_concat((((((string_report(document, seq!["workspace"@, "lints"@, "rust"@, "missing_docs"@], "deny"@, file)) + string_report(document, seq!["workspace"@, "lints"@, "rust"@, "rust_2018_idioms"@, "level"@], "warn"@, file)) + string_report(document, seq!["workspace"@, "lints"@, "rust"@, "unsafe_code"@], "forbid"@, file)) + string_report(document, seq!["workspace"@, "lints"@, "clippy"@, "all"@, "level"@], "warn"@, file)) + string_report(document, seq!["workspace"@, "lints"@, "clippy"@, "pedantic"@, "level"@], "warn"@, file)) + string_report(document, seq!["workspace"@, "lints"@, "clippy"@, "nursery"@, "level"@], "warn"@, file), string_report(document, seq!["workspace"@, "lints"@, "clippy"@, "missing_errors_doc"@], "allow"@, file), (file, "`workspace.lints.rust.rust_2018_idioms.level` must be \"warn\""@));
    }
    if as_str_spec(get_path(document, seq!["workspace"@, "lints"@, "rust"@, "unsafe_code"@])) != Some("forbid"@) {
        assert("`workspace.lints.rust.unsafe_code` must be \"forbid\""@ =~= "`"@ + dotted(seq!["workspace"@, "lints"@, "rust"@, "unsafe_code"@]) + "` must be \""@ + "forbid"@ + "\""@);
        assert(string_report(document, seq!["workspace"@, "lints"@, "rust"@, "unsafe_code"@], "forbid"@, file)[0] == (file, "`workspace.lints.rust.unsafe_code` must be \"forbid\""@));
        assert(string_report(document, seq!["workspace"@, "lints"@, "rust"@, "unsafe_code"@], "forbid"@, file).contains((file, "`workspace.lints.rust.unsafe_code` must be \"forbid\""@)));
        lemma_reports_concat((string_report(document, seq!["workspace"@, "lints"@, "rust"@, "missing_docs"@], "deny"@, file)) + string_report(document, seq!["workspace"@, "lints"@, "rust"@, "rust_2018_idioms"@, "level"@], "warn"@, file), string_report(document, seq!["workspace"@, "lints"@, "rust"@, "unsafe_code"@], "forbid"@, file), (file, "`workspace.lints.rust.unsafe_code` must be \"forbid\""@));
        lemma_reports_concat(((string_report(document, seq!["workspace"@, "lints"@, "rust"@, "missing_docs"@], "deny"@, file)) + string_report(document, seq!["workspace"@, "lints"@, "rust"@, "rust_2018_idioms"@, "level"@], "warn"@, file)) + string_report(document, seq!["workspace"@, "lints"@, "rust"@, "unsafe_code"@], "forbid"@, file), string_report(document, seq!["workspace"@, "lints"@, "clippy"@, "all"@, "level"@], "warn"@, file), (file, "`workspace.lints.rust.unsafe_code` must be \"forbid\""@));
        lemma_reports_concat((((string_report(document, seq!["workspace"@, "lints"@, "rust"@, "missing_docs"@], "deny"@, file)) + string_report(document, seq!["workspace"@, "lints"@, "rust"@, "rust_2018_idioms"@, "level"@], "warn"@, file)) + string_report(document, seq!["workspace"@, "lints"@, "rust"@, "unsafe_code"@], "forbid"@, file)) + string_report(document, seq!["workspace"@, "lints"@, "clippy"@, "all"@, "level"@], "warn"@, file), string_report(document, seq!["workspace"@, "lints"@, "clippy"@, "pedantic"@, "level"@], "warn"@, file), (file, "`workspace.lints.rust.unsafe_code` must be \"forbid\""@));
        lemma_reports_concat(((((string_report(document, seq!["workspace"@, "lints"@, "rust"@, "missing_docs"@], "deny"@, file)) + string_report(document, seq!["workspace"@, "lints"@, "rust"@, "rust_2018_idioms"@, "level"@], "warn"@, file)) + string_report(document, seq!["workspace"@, "lints"@, "rust"@, "unsafe_code"@], "forbid"@, file)) + string_report(document, seq!["workspace"@, "lints"@, "clippy"@, "all"@, "level"@], "warn"@, file)) + string_report(document, seq!["workspace"@, "lints"@, "clippy"@, "pedantic"@, "level"@], "warn"@, file), string_report(document, seq!["workspace"@, "lints"@, "clippy"@, "nursery"@, "level"@], "warn"@, file), (file, "`workspace.lints.rust.unsafe_code` must be \"forbid\""@));
        lemma_reports_concat((((((string_report(document, seq!["workspace"@, "lints"@, "rust"@, "missing_docs"@], "deny"@, file)) + string_report(document, seq!["workspace"@, "lints"@, "rust"@, "rust_2018_idioms"@, "level"@], "warn"@, file)) + string_report(document, seq!["workspace"@, "lints"@, "rust"@, "unsafe_code"@], "forbid"@, file)) + string_report(document, seq!["workspace"@, "lints"@, "clippy"@, "all"@, "level"@], "warn"@, file)) + string_report(document, seq!["workspace"@, "lints"@, "clippy"@, "pedantic"@, "level"@], "warn"@, file)) + string_report(document, seq!["workspace"@, "lints"@, "clippy"@, "nursery"@, "level"@], "warn"@, file), string_report(document, seq!["workspace"@, "lints"@, "clippy"@, "missing_errors_doc"@], "allow"@, file), (file, "`workspace.lints.rust.unsafe_code` must be \"forbid\""@));
    }
    if as_str_spec(get_path(document, seq!["workspace"@, "lints"@, "clippy"@, "all"@, "level"@])) != Some("warn"@) {
        assert("`workspace.lints.clippy.all.level` must be \"warn\""@ =~= "`"@ + dotted(seq!["workspace"@, "lints"@, "clippy"@, "all"@, "level"@]) + "` must be \""@ + "warn"@ + "\""@);
        assert(string_report(document, seq!["workspace"@, "lints"@, "clippy"@, "all"@, "level"@], "warn"@, file)[0] == (file, "`workspace.lints.clippy.all.level` must be \"warn\""@));
        assert(string_report(document, seq!["workspace"@, "lints"@, "clippy"@, "all"@, "level"@], "warn"@, file).contains((file, "`workspace.lints.clippy.all.level` must be \"warn\""@)));
        lemma_reports_concat(((string_report(document, seq!["workspace"@, "lints"@, "rust"@, "missing_docs"@], "deny"@, file)) + string_report(document, seq!["workspace"@, "lints"@, "rust"@, "rust_2018_idioms"@, "level"@], "warn"@, file)) + string_report(document, seq!["workspace"@, "lints"@, "rust"@, "unsafe_code"@], "forbid"@, file), string_report(document, seq!["workspace"@, "lints"@, "clippy"@, "all"@, "level"@], "warn"@, file), (file, "`workspace.lints.clippy.all.level` must be \"warn\""@));
        lemma_reports_concat((((string_report(document, seq!["workspace"@, "lints"@, "rust"@, "missing_docs"@], "deny"@, file)) + string_report(document, seq!["workspace"@, "lints"@, "rust"@, "rust_2018_idioms"@, "level"@], "warn"@, file)) + string_report(document, seq!["workspace"@, "lints"@, "rust"@, "unsafe_code"@], "forbid"@, file)) + string_report(document, seq!["workspace"@, "lints"@, "clippy"@, "all"@, "level"@], "warn"@, file), string_report(document, seq!["workspace"@, "lints"@, "clippy"@, "pedantic"@, "level"@], "warn"@, file), (file, "`workspace.lints.clippy.all.level` must be \"warn\""@));
        lemma_reports_concat(((((string_report(document, seq!["workspace"@, "lints"@, "rust"@, "missing_docs"@], "deny"@, file)) + string_report(document, seq!["workspace"@, "lints"@, "rust"@, "rust_2018_idioms"@, "level"@], "warn"@, file)) + string_report(document, seq!["workspace"@, "lints"@, "rust"@, "unsafe_code"@], "forbid"@, file)) + string_report(document, seq!["workspace"@, "lints"@, "clippy"@, "all"@, "level"@], "warn"@, file)) + string_report(document, seq!["workspace"@, "lints"@, "clippy"@, "pedantic"@, "level"@], "warn"@, file), string_report(document, seq!["workspace"@, "lints"@, "clippy"@, "nursery"@, "level"@], "warn"@, file), (file, "`workspace.lints.clippy.all.level` must be \"warn\""@));
        lemma_reports_concat((((((string_report(document, seq!["workspace"@, "lints"@, "rust"@, "missing_docs"@], "deny"@, file)) + string_report(document, seq!["workspace"@, "lints"@, "rust"@, "rust_2018_idioms"@, "level"@], "warn"@, file)) + string_report(document, seq!["workspace"@, "lints"@, "rust"@, "unsafe_code"@], "forbid"@, file)) + string_report(document, seq!["workspace"@, "lints"@, "clippy"@, "all"@, "level"@], "warn"@, file)) + string_report(document, seq!["workspace"@, "lints"@, "clippy"@, "pedantic"@, "level"@], "warn"@, file)) + string_report(document, seq!["workspace"@, "lints"@, "clippy"@, "nursery"@, "level"@], "warn"@, file), string_report(document, seq!["workspace"@, "lints"@, "clippy"@, "missing_errors_doc"@], "allow"@, file), (file, "`workspace.lints.clippy.all.level` must be \"warn\""@));
    }
    if as_str_spec(get_path(document, seq!["workspace"@, "lints"@, "clippy"@, "pedantic"@, "level"@])) != Some("warn"@) {
        assert("`workspace.lints.clippy.pedantic.level` must be \"warn\""@ =~= "`"@ + dotted(seq!["workspace"@, "lints"@, "clippy"@, "pedantic"@, "level"@]) + "` must be \""@ + "warn"@ + "\""@);
        assert(string_report(document, seq!["workspace"@, "lints"@, "clippy"@, "pedantic"@, "level"@], "warn"@, file)[0] == (file, "`workspace.lints.clippy.pedantic.level` must be \"warn\""@));
        assert(string_report(document, seq!["workspace"@, "lints"@, "clippy"@, "pedantic"@, "level"@], "warn"@, file).contains((file, "`workspace.lints.clippy.pedantic.level` must be \"warn\""@)));
        lemma_reports_concat((((string_report(document, seq!["workspace"@, "lints"@, "rust"@, "missing_docs"@], "deny"@, file)) + string_report(document, seq!["workspace"@, "lints"@, "rust"@, "rust_2018_idioms"@, "level"@], "warn"@, file)) + string_report(document, seq!["workspace"@, "lints"@, "rust"@, "unsafe_code"@], "forbid"@, file)) + string_report(document, seq!["workspace"@, "lints"@, "clippy"@, "all"@, "level"@], "warn"@, file), string_report(document, seq!["workspace"@, "lints"@, "clippy"@, "pedantic"@, "level"@], "warn"@, file), (file, "`workspace.lints.clippy.pedantic.level` must be \"warn\""@));
        lemma_reports_concat(((((string_report(document, seq!["workspace"@, "lints"@, "rust"@, "missing_docs"@], "deny"@, file)) + string_report(document, seq!["workspace"@, "lints"@, "rust"@, "rust_2018_idioms"@, "level"@], "warn"@, file)) + string_report(document, seq!["workspace"@, "lints"@, "rust"@, "unsafe_code"@], "forbid"@, file)) + string_report(document, seq!["workspace"@, "lints"@, "clippy"@, "all"@, "level"@], "warn"@, file)) + string_report(document, seq!["workspace"@, "lints"@, "clippy"@, "pedantic"@, "level"@], "warn"@, file), string_report(document, seq!["workspace"@, "lints"@, "clippy"@, "nursery"@, "level"@], "warn"@, file), (file, "`workspace.lints.clippy.pedantic.level` must be \"warn\""@));
        lemma_reports_concat((((((string_report(document, seq!["workspace"@, "lints"@, "rust"@, "missing_docs"@], "deny"@, file)) + string_report(document, seq!["workspace"@, "lints"@, "rust"@, "rust_2018_idioms"@, "level"@], "warn"@, file)) + string_report(document, seq!["workspace"@, "lints"@, "rust"@, "unsafe_code"@], "forbid"@, file)) + string_report(document, seq!["workspace"@, "lints"@, "clippy"@, "all"@, "level"@], "warn"@, file)) + string_report(document, seq!["workspace"@, "lints"@, "clippy"@, "pedantic"@, "level"@], "warn"@, file)) + string_report(document, seq!["workspace"@, "lints"@, "clippy"@, "nursery"@, "level"@], "warn"@, file), string_report(document, seq!["workspace"@, "lints"@, "clippy"@, "missing_errors_doc"@], "allow"@, file), (file, "`workspace.lints.clippy.pedantic.level` must be \"warn\""@));
    }
    if as_str_spec(get_path(document, seq!["workspace"@, "lints"@, "clippy"@, "nursery"@, "level"@])) != Some("warn"@) {
        assert("`workspace.lints.clippy.nursery.level` must be \"warn\""@ =~= "`"@ + dotted(seq!["workspace"@, "lints"@, "clippy"@, "nursery"@, "level"@]) + "` must be \""@ + "warn"@ + "\""@);
        assert(string_report(document, seq!["workspace"@, "lints"@, "clippy"@, "nursery"@, "level"@], "warn"@, file)[0] == (file, "`workspace.lints.clippy.nursery.level` must be \"warn\""@));
        assert(string_report(document, seq!["workspace"@, "lints"@, "clippy"@, "nursery"@, "level"@], "warn"@, file).contains((file, "`workspace.lints.clippy.nursery.level` must be \"warn\""@)));
        lemma_reports_concat(((((string_report(document, seq!["workspace"@, "lints"@, "rust"@, "missing_docs"@], "deny"@, file)) + string_report(document, seq!["workspace"@, "lints"@, "rust"@, "rust_2018_idioms"@, "level"@], "warn"@, file)) + string_report(document, seq!["workspace"@, "lints"@, "rust"@, "unsafe_code"@], "forbid"@, file)) + string_report(document, seq!["workspace"@, "lints"@, "clippy"@, "all"@, "level"@], "warn"@, file)) + string_report(document, seq!["workspace"@, "lints"@, "clippy"@, "pedantic"@, "level"@], "warn"@, file), string_report(document, seq!["workspace"@, "lints"@, "clippy"@, "nursery"@, "level"@], "warn"@, file), (file, "`workspace.lints.clippy.nursery.level` must be \"warn\""@));
        lemma_reports_concat((((((string_report(document, seq!["workspace"@, "lints"@, "rust"@, "missing_docs"@], "deny"@, file)) + string_report(document, seq!["workspace"@, "lints"@, "rust"@, "rust_2018_idioms"@, "level"@], "warn"@, file)) + string_report(document, seq!["workspace"@, "lints"@, "rust"@, "unsafe_code"@], "forbid"@, file)) + string_report(document, seq!["workspace"@, "lints"@, "clippy"@, "all"@, "level"@], "warn"@, file)) + string_report(document, seq!["workspace"@, "lints"@, "clippy"@, "pedantic"@, "level"@], "warn"@, file)) + string_report(document, seq!["workspace"@, "lints"@, "clippy"@, "nursery"@, "level"@], "warn"@, file), string_report(document, seq!["workspace"@, "lints"@, "clippy"@, "missing_errors_doc"@], "allow"@, file), (file, "`workspace.lints.clippy.nursery.level` must be \"warn\""@));
    }
    if as_str_spec(get_path(document, seq!["workspace"@, "lints"@, "clippy"@, "missing_errors_doc"@])) != Some("allow"@) {
        assert("`workspace.lints.clippy.missing_errors_doc` must be \"allow\""@ =~= "`"@ + dotted(seq!["workspace"@, "lints"@, "clippy"@, "missing_errors_doc"@]) + "` must be \""@ + "allow"@ + "\""@);
        assert(string_report(document, seq!["workspace"@, "lints"@, "clippy"@, "missing_errors_doc"@], "allow"@, file)[0] == (file, "`workspace.lints.clippy.missing_errors_doc` must be \"allow\""@));
        assert(string_report(document, seq!["workspace"@, "lints"@, "clippy"@, "missing_errors_doc"@], "allow"@, file).contains((file, "`workspace.lints.clippy.missing_errors_doc` must be \"allow\""@)));
        lemma_reports_concat((((((string_report(document, seq!["workspace"@, "lints"@, "rust"@, "missing_docs"@], "deny"@, file)) + string_report(document, seq!["workspace"@, "lints"@, "rust"@, "rust_2018_idioms"@, "level"@], "warn"@, file)) + string_report(document, seq!["workspace"@, "lints"@, "rust"@, "unsafe_code"@], "forbid"@, file)) + string_report(document, seq!["workspace"@, "lints"@, "clippy"@, "all"@, "level"@], "warn"@, file)) + string_report(document, seq!["workspace"@, "lints"@, "clippy"@, "pedantic"@, "level"@], "warn"@, file)) + string_report(document, seq!["workspace"@, "lints"@, "clippy"@, "nursery"@, "level"@], "warn"@, file), string_report(document, seq!["workspace"@, "lints"@, "clippy"@, "missing_errors_doc"@], "allow"@, file), (file, "`workspace.lints.clippy.missing_errors_doc` must be \"allow\""@));
    }
}

/// The root manifest is reported for each lint group (`rust_2018_idioms` and clippy `all`,
/// `pedantic`, `nursery`) that is not given priority -1.
#[verifier::spinoff_prover]
#[verifier::rlimit(80)]
pub proof fn lemma_lint_priority_reports_each_setting(document: TomlItem, file: Seq<char>)
    ensures
        as_integer_spec(get_path(document, seq!["workspace"@, "lints"@, "rust"@, "rust_2018_idioms"@, "priority"@])) != Some(-1i64) ==> lint_priority_reports(document, file).contains((file, "`workspace.lints.rust.rust_2018_idioms.priority` must be "@ + signed_decimal(-1))),
        as_integer_spec(get_path(document, seq!["workspace"@, "lints"@, "clippy"@, "all"@, "priority"@])) != Some(-1i64) ==> lint_priority_reports(document, file).contains((file, "`workspace.lints.clippy.all.priority` must be "@ + signed_decimal(-1))),
        as_integer_spec(get_path(document, seq!["workspace"@, "lints"@, "clippy"@, "pedantic"@, "priority"@])) != Some(-1i64) ==> lint_priority_reports(document, file).contains((file, "`workspace.lints.clippy.pedantic.priority` must be "@ + signed_decimal(-1))),
        as_integer_spec(get_path(document, seq!["workspace"@, "lints"@, "clippy"@, "nursery"@, "priority"@])) != Some(-1i64) ==> lint_priority_reports(document, file).contains((file, "`workspace.lints.clippy.nursery.priority` must be "@ + signed_decimal(-1))),
{
    reveal_strlit(".");
    reveal_strlit("`");
    reveal_strlit("` must be ");
    reveal_strlit("`workspace.lints.clippy.all.priority` must be ");
    reveal_strlit("`workspace.lints.clippy.nursery.priority` must be ");
    reveal_strlit("`workspace.lints.clippy.pedantic.priority` must be ");
    reveal_strlit("`workspace.lints.rust.rust_2018_idioms.priority` must be ");
    reveal_strlit("all");
    reveal_strlit("clippy");
    reveal_strlit("lints");
    reveal_strlit("nursery");
    reveal_strlit("pedantic");
    reveal_strlit("priority");
    reveal_strlit("rust");
    reveal_strlit("rust_2018_idioms");
    reveal_strlit("workspace");
    assert(seq!["workspace"@, "lints"@].drop_last() =~= seq!["workspace"@]);
    assert(seq!["workspace"@, "lints"@].last() == "lints"@);
    assert(dotted(seq!["workspace"@, "lints"@]) == dotted(seq!["workspace"@]) + "."@ + "lints"@);
    assert(seq!["workspace"@, "lints"@, "rust"@].drop_last() =~= seq!["workspace"@, "lints"@]);
    assert(seq!["workspace"@, "lints"@, "rust"@].last() == "rust"@);
    assert(dotted(seq!["workspace"@, "lints"@, "rust"@]) == dotted(seq!["workspace"@, "lints"@]) + "."@ + "rust"@);
    assert(seq!["workspace"@, "lints"@, "rust"@, "rust_2018_idioms"@].drop_last() =~= seq!["workspace"@, "lints"@, "rust"@]);
    assert(seq!["workspace"@, "lints"@, "rust"@, "rust_2018_idioms"@].last() == "rust_2018_idioms"@);
    assert(dotted(seq!["workspace"@, "lints"@, "rust"@, "rust_2018_idioms"@]) == dotted(seq!["workspace"@, "lints"@, "rust"@]) + "."@ + "rust_2018_idioms"@);
    assert(seq!["workspace"@, "lints"@, "rust"@, "rust_2018_idioms"@, "priority"@].drop_last() =~= seq!["workspace"@, "lints"@, "rust"@, "rust_2018_idioms"@]);
    assert(seq!["workspace"@, "lints"@, "rust"@, "rust_2018_idioms"@, "priority"@].last() == "priority"@);
    assert(dotted(seq!["workspace"@, "lints"@, "rust"@, "rust_2018_idioms"@, "priority"@]) == dotted(seq!["workspace"@, "lints"@, "rust"@, "rust_2018_idioms"@]) + "."@ + "priority"@);
    assert(dotted(seq!["workspace"@, "lints"@, "rust"@, "rust_2018_idioms"@, "priority"@]) =~= "workspace"@ + "."@ + "lints"@ + "."@ + "rust"@ + "."@ + "rust_2018_idioms"@ + "."@ + "priority"@);
    assert(seq!["workspace"@, "lints"@, "clippy"@].drop_last() =~= seq!["workspace"@, "lints"@]);
    assert(seq!["workspace"@, "lints"@, "clippy"@].last() == "clippy"@);
    assert(dotted(seq!["workspace"@, "lints"@, "clippy"@]) == dotted(seq!["workspace"@, "lints"@]) + "."@ + "clippy"@);
    assert(seq!["workspace"@, "lints"@, "clippy"@, "all"@].drop_last() =~= seq!["workspace"@, "lints"@, "clippy"@]);
    assert(seq!["workspace"@, "lints"@, "clippy"@, "all"@].last() == "all"@);
    assert(dotted(seq!["workspace"@, "lints"@, "clippy"@, "all"@]) == dotted(seq!["workspace"@, "lints"@, "clippy"@]) + "."@ + "all"@);
    assert(seq!["workspace"@, "lints"@, "clippy"@, "all"@, "priority"@].drop_last() =~= seq!["workspace"@, "lints"@, "clippy"@, "all"@]);
    assert(seq!["workspace"@, "lints"@, "clippy"@, "all"@, "priority"@].last() == "priority"@);
    assert(dotted(seq!["workspace"@, "lints"@, "clippy"@, "all"@, "priority"@]) == dotted(seq!["workspace"@, "lints"@, "clippy"@, "all"@]) + "."@ + "priority"@);
    assert(dotted(seq!["workspace"@, "lints"@, "clippy"@, "all"@, "priority"@]) =~= "workspace"@ + "."@ + "lints"@ + "."@ + "clippy"@ + "."@ + "all"@ + "."@ + "priority"@);
    assert(seq!["workspace"@, "lints"@, "clippy"@, "pedantic"@].drop_last() =~= seq!["workspace"@, "lints"@, "clippy"@]);
    assert(seq!["workspace"@, "lints"@, "clippy"@, "pedantic"@].last() == "pedantic"@);
    assert(dotted(seq!["workspace"@, "lints"@, "clippy"@, "pedantic"@]) == dotted(seq!["workspace"@, "lints"@, "clippy"@]) + "."@ + "pedantic"@);
    assert(seq!["workspace"@, "lints"@, "clippy"@, "pedantic"@, "priority"@].drop_last() =~= seq!["workspace"@, "lints"@, "clippy"@, "pedantic"@]);
    assert(seq!["workspace"@, "lints"@, "clippy"@, "pedantic"@, "priority"@].last() == "priority"@);
    assert(dotted(seq!["workspace"@, "lints"@, "clippy"@, "pedantic"@, "priority"@]) == dotted(seq!["workspace"@, "lints"@, "clippy"@, "pedantic"@]) + "."@ + "priority"@);
    assert(dotted(seq!["workspace"@, "lints"@, "clippy"@, "pedantic"@, "priority"@]) =~= "workspace"@ + "."@ + "lints"@ + "."@ + "clippy"@ + "."@ + "pedantic"@ + "."@ + "priority"@);
    assert(seq!["workspace"@, "lints"@, "clippy"@, "nursery"@].drop_last() =~= seq!["workspace"@, "lints"@, "clippy"@]);
    assert(seq!["workspace"@, "lints"@, "clippy"@, "nursery"@].last() == "nursery"@);
    assert(dotted(seq!["workspace"@, "lints"@, "clippy"@, "nursery"@]) == dotted(seq!["workspace"@, "lints"@, "clippy"@]) + "."@ + "nursery"@);
    assert(seq!["workspace"@, "lints"@, "clippy"@, "nursery"@, "priority"@].drop_last() =~= seq!["workspace"@, "lints"@, "clippy"@, "nursery"@]);
    assert(seq!["workspace"@, "lints"@, "clippy"@, "nursery"@, "priority"@].last() == "priority"@);
    assert(dotted(seq!["workspace"@, "lints"@, "clippy"@, "nursery"@, "priority"@]) == dotted(seq!["workspace"@, "lints"@, "clippy"@, "nursery"@]) + "."@ + "priority"@);
    assert(dotted(seq!["workspace"@, "lints"@, "clippy"@, "nursery"@, "priority"@]) =~= "workspace"@ + "."@ + "lints"@ + "."@ + "clippy"@ + "."@ + "nursery"@ + "."@ + "priority"@);
    let reports = lint_priority_reports(document, file);
    assert(reports == integer_report(document, seq!["workspace"@, "lints"@, "rust"@, "rust_2018_idioms"@, "priority"@], -1i64, file) + integer_report(document, seq!["workspace"@, "lints"@, "clippy"@, "all"@, "priority"@], -1i64, file) + integer_report(document, seq!["workspace"@, "lints"@, "clippy"@, "pedantic"@, "priority"@], -1i64, file) + integer_report(document, seq!["workspace"@, "lints"@, "clippy"@, "nursery"@, "priority"@], -1i64, file));
    if as_integer_spec(get_path(document, seq!["workspace"@, "lints"@, "rust"@, "rust_2018_idioms"@, "priority"@])) != Some(-1i64) {
        assert("`workspace.lints.rust.rust_2018_idioms.priority` must be "@ + signed_decimal(-1) =~= "`"@ + dotted(seq!["workspace"@, "lints"@, "rust"@, "rust_2018_idioms"@, "priority"@]) + "` must be "@ + signed_decimal(-1i64 as int));
        assert(integer_report(document, seq!["workspace"@, "lints"@, "rust"@, "rust_2018_idioms"@, "priority"@], -1i64, file)[0] == (file, "`workspace.lints.rust.rust_2018_idioms.priority` must be "@ + signed_decimal(-1)));
        assert(integer_report(document, seq!["workspace"@, "lints"@, "rust"@, "rust_2018_idioms"@, "priority"@], -1i64, file).contains((file, "`workspace.lints.rust.rust_2018_idioms.priority` must be "@ + signed_decimal(-1))));
        lemma_reports_concat(integer_report(document, seq!["workspace"@, "lints"@, "rust"@, "rust_2018_idioms"@, "priority"@], -1i64, file), integer_report(document, seq!["workspace"@, "lints"@, "clippy"@, "all"@, "priority"@], -1i64, file), (file, "`workspace.lints.rust.rust_2018_idioms.priority` must be "@ + signed_decimal(-1)));
        lemma_reports_concat((integer_report(document, seq!["workspace"@, "lints"@, "rust"@, "rust_2018_idioms"@, "priority"@], -1i64, file)) + integer_report(document, seq!["workspace"@, "lints"@, "clippy"@, "all"@, "priority"@], -1i64, file), integer_report(document, seq!["workspace"@, "lints"@, "clippy"@, "pedantic"@, "priority"@], -1i64, file), (file, "`workspace.lints.rust.rust_2018_idioms.priority` must be "@ + signed_decimal(-1)));
        lemma_reports_concat(((integer_report(document, seq!["workspace"@, "lints"@, "rust"@, "rust_2018_idioms"@, "priority"@], -1i64, file)) + integer_report(document, seq!["workspace"@, "lints"@, "clippy"@, "all"@, "priority"@], -1i64, file)) + integer_report(document, seq!["workspace"@, "lints"@, "clippy"@, "pedantic"@, "priority"@], -1i64, file), integer_report(document, seq!["workspace"@, "lints"@, "clippy"@, "nursery"@, "priority"@], -1i64, file), (file, "`workspace.lints.rust.rust_2018_idioms.priority` must be "@ + signed_decimal(-1)));
    }
    if as_integer_spec(get_path(document, seq!["workspace"@, "lints"@, "clippy"@, "all"@, "priority"@])) != Some(-1i64) {
        assert("`workspace.lints.clippy.all.priority` must be "@ + signed_decimal(-1) =~= "`"@ + dotted(seq!["workspace"@, "lints"@, "clippy"@, "all"@, "priority"@]) + "` must be "@ + signed_decimal(-1i64 as int));
        assert(integer_report(document, seq!["workspace"@, "lints"@, "clippy"@, "all"@, "priority"@], -1i64, file)[0] == (file, "`workspace.lints.clippy.all.priority` must be "@ + signed_decimal(-1)));
        assert(integer_report(document, seq!["workspace"@, "lints"@, "clippy"@, "all"@, "priority"@], -1i64, file).contains((file, "`workspace.lints.clippy.all.priority` must be "@ + signed_decimal(-1))));
        lemma_reports_concat(integer_report(document, seq!["workspace"@, "lints"@, "rust"@, "rust_2018_idioms"@, "priority"@], -1i64, file), integer_report(document, seq!["workspace"@, "lints"@, "clippy"@, "all"@, "priority"@], -1i64, file), (file, "`workspace.lints.clippy.all.priority` must be "@ + signed_decimal(-1)));
        lemma_reports_concat((integer_report(document, seq!["workspace"@, "lints"@, "rust"@, "rust_2018_idioms"@, "priority"@], -1i64, file)) + integer_report(document, seq!["workspace"@, "lints"@, "clippy"@, "all"@, "priority"@], -1i64, file), integer_report(document, seq!["workspace"@, "lints"@, "clippy"@, "pedantic"@, "priority"@], -1i64, file), (file, "`workspace.lints.clippy.all.priority` must be "@ + signed_decimal(-1)));
        lemma_reports_concat(((integer_report(document, seq!["workspace"@, "lints"@, "rust"@, "rust_2018_idioms"@, "priority"@], -1i64, file)) + integer_report(document, seq!["workspace"@, "lints"@, "clippy"@, "all"@, "priority"@], -1i64, file)) + integer_report(document, seq!["workspace"@, "lints"@, "clippy"@, "pedantic"@, "priority"@], -1i64, file), integer_report(document, seq!["workspace"@, "lints"@, "clippy"@, "nursery"@, "priority"@], -1i64, file), (file, "`workspace.lints.clippy.all.priority` must be "@ + signed_decimal(-1)));
    }
    if as_integer_spec(get_path(document, seq!["workspace"@, "lints"@, "clippy"@, "pedantic"@, "priority"@])) != Some(-1i64) {
        assert("`workspace.lints.clippy.pedantic.priority` must be "@ + signed_decimal(-1) =~= "`"@ + dotted(seq!["workspace"@, "lints"@, "clippy"@, "pedantic"@, "priority"@]) + "` must be "@ + signed_decimal(-1i64 as int));
        assert(integer_report(document, seq!["workspace"@, "lints"@, "clippy"@, "pedantic"@, "priority"@], -1i64, file)[0] == (file, "`workspace.lints.clippy.pedantic.priority` must be "@ + signed_decimal(-1)));
        assert(integer_report(document, seq!["workspace"@, "lints"@, "clippy"@, "pedantic"@, "priority"@], -1i64, file).contains((file, "`workspace.lints.clippy.pedantic.priority` must be "@ + signed_decimal(-1))));
        lemma_reports_concat((integer_report(document, seq!["workspace"@, "lints"@, "rust"@, "rust_2018_idioms"@, "priority"@], -1i64, file)) + integer_report(document, seq!["workspace"@, "lints"@, "clippy"@, "all"@, "priority"@], -1i64, file), integer_report(document, seq!["workspace"@, "lints"@, "clippy"@, "pedantic"@, "priority"@], -1i64, file), (file, "`workspace.lints.clippy.pedantic.priority` must be "@ + signed_decimal(-1)));
        lemma_reports_concat(((integer_report(document, seq!["workspace"@, "lints"@, "rust"@, "rust_2018_idioms"@, "priority"@], -1i64, file)) + integer_report(document, seq!["workspace"@, "lints"@, "clippy"@, "all"@, "priority"@], -1i64, file)) + integer_report(document, seq!["workspace"@, "lints"@, "clippy"@, "pedantic"@, "priority"@], -1i64, file), integer_report(document, seq!["workspace"@, "lints"@, "clippy"@, "nursery"@, "priority"@], -1i64, file), (file, "`workspace.lints.clippy.pedantic.priority` must be "@ + signed_decimal(-1)));
    }
    if as_integer_spec(get_path(document, seq!["workspace"@, "lints"@, "clippy"@, "nursery"@, "priority"@])) != Some(-1i64) {
        assert("`workspace.lints.clippy.nursery.priority` must be "@ + signed_decimal(-1) =~= "`"@ + dotted(seq!["workspace"@, "lints"@, "clippy"@, "nursery"@, "priority"@]) + "` must be "@ + signed_decimal(-1i64 as int));
        assert(integer_report(document, seq!["workspace"@, "lints"@, "clippy"@, "nursery"@, "priority"@], -1i64, file)[0] == (file, "`workspace.lints.clippy.nursery.priority` must be "@ + signed_decimal(-1)));
        assert(integer_report(document, seq!["workspace"@, "lints"@, "clippy"@, "nursery"@, "priority"@], -1i64, file).contains((file, "`workspace.lints.clippy.nursery.priority` must be "@ + signed_decimal(-1))));
        lemma_reports_concat(((integer_report(document, seq!["workspace"@, "lints"@, "rust"@, "rust_2018_idioms"@, "priority"@], -1i64, file)) + integer_report(document, seq!["workspace"@, "lints"@, "clippy"@, "all"@, "priority"@], -1i64, file)) + integer_report(document, seq!["workspace"@, "lints"@, "clippy"@, "pedantic"@, "priority"@], -1i64, file), integer_report(document, seq!["workspace"@, "lints"@, "clippy"@, "nursery"@, "priority"@], -1i64, file), (file, "`workspace.lints.clippy.nursery.priority` must be "@ + signed_decimal(-1)));
    }
}

/// The root manifest is reported for each shared package field that `[workspace.package]` does not
/// define: `authors`, `repository`, `edition`, `rust-version`, `readme`, `license` and `version`.
#[verifier::spinoff_prover]
#[verifier::rlimit(80)]
pub proof fn lemma_workspace_package_reports_each_setting(document: TomlItem, file: Seq<char>)
    ensures
        get_path(document, seq!["workspace"@, "package"@, "authors"@]) is None ==> workspace_package_reports(document, file).contains((file, "[workspace.package] must define `authors`"@)),
        get_path(document, seq!["workspace"@, "package"@, "repository"@]) is None ==> workspace_package_reports(document, file).contains((file, "[workspace.package] must define `repository`"@)),
        get_path(document, seq!["workspace"@, "package"@, "edition"@]) is None ==> workspace_package_reports(document, file).contains((file, "[workspace.package] must define `edition`"@)),
        get_path(document, seq!["workspace"@, "package"@, "rust-version"@]) is None ==> workspace_package_reports(document, file).contains((file, "[workspace.package] must define `rust-version`"@)),
        get_path(document, seq!["workspace"@, "package"@, "readme"@]) is None ==> workspace_package_reports(document, file).contains((file, "[workspace.package] must define `readme`"@)),
        get_path(document, seq!["workspace"@, "package"@, "license"@]) is None ==> workspace_package_reports(document, file).contains((file, "[workspace.package] must define `license`"@)),
        get_path(document, seq!["workspace"@, "package"@, "version"@]) is None ==> workspace_package_reports(document, file).contains((file, "[workspace.package] must define `version`"@)),
{
    reveal_strlit("authors");
    reveal_strlit("edition");
    reveal_strlit("license");
    reveal_strlit("package");
    reveal_strlit("readme");
    reveal_strlit("repository");
    reveal_strlit("rust-version");
    reveal_strlit("version");
    reveal_strlit("workspace");
    let reports = workspace_package_reports(document, file);
    assert(reports == defined_report(document, seq!["workspace"@, "package"@, "authors"@], file, "[workspace.package] must define `authors`"@) + defined_report(document, seq!["workspace"@, "package"@, "repository"@], file, "[workspace.package] must define `repository`"@) + defined_report(document, seq!["workspace"@, "package"@, "edition"@], file, "[workspace.package] must define `edition`"@) + defined_report(document, seq!["workspace"@, "package"@, "rust-version"@], file, "[workspace.package] must define `rust-version`"@) + defined_report(document, seq!["workspace"@, "package"@, "readme"@], file, "[workspace.package] must define `readme`"@) + defined_report(document, seq!["workspace"@, "package"@, "license"@], file, "[workspace.package] must define `license`"@) + defined_report(document, seq!["workspace"@, "package"@, "version"@], file, "[workspace.package] must define `version`"@));
    if get_path(document, seq!["workspace"@, "package"@, "authors"@]) is None {
        assert(defined_report(document, seq!["workspace"@, "package"@, "authors"@], file, "[workspace.package] must define `authors`"@)[0] == (file, "[workspace.package] must define `authors`"@));
        assert(defined_report(document, seq!["workspace"@, "package"@, "authors"@], file, "[workspace.package] must define `authors`"@).contains((file, "[workspace.package] must define `authors`"@)));
        lemma_reports_concat(defined_report(document, seq!["workspace"@, "package"@, "authors"@], file, "[workspace.package] must define `authors`"@), defined_report(document, seq!["workspace"@, "package"@, "repository"@], file, "[workspace.package] must define `repository`"@), (file, "[workspace.package] must define `authors`"@));
        lemma_reports_concat((defined_report(document, seq!["workspace"@, "package"@, "authors"@], file, "[workspace.package] must define `authors`"@)) + defined_report(document, seq!["workspace"@, "package"@, "repository"@], file, "[workspace.package] must define `repository`"@), defined_report(document, seq!["workspace"@, "package"@, "edition"@], file, "[workspace.package] must define `edition`"@), (file, "[workspace.package] must define `authors`"@));
        lemma_reports_concat(((defined_report(document, seq!["workspace"@, "package"@, "authors"@], file, "[workspace.package] must define `authors`"@)) + defined_report(document, seq!["workspace"@, "package"@, "repository"@], file, "[workspace.package] must define `repository`"@)) + defined_report(document, seq!["workspace"@, "package"@, "edition"@], file, "[workspace.package] must define `edition`"@), defined_report(document, seq!["workspace"@, "package"@, "rust-version"@], file, "[workspace.package] must define `rust-version`"@), (file, "[workspace.package] must define `authors`"@));
        lemma_reports_concat((((defined_report(document, seq!["workspace"@, "package"@, "authors"@], file, "[workspace.package] must define `authors`"@)) + defined_report(document, seq!["workspace"@, "package"@, "repository"@], file, "[workspace.package] must define `repository`"@)) + defined_report(document, seq!["workspace"@, "package"@, "edition"@], file, "[workspace.package] must define `edition`"@)) + defined_report(document, seq!["workspace"@, "package"@, "rust-version"@], file, "[workspace.package] must define `rust-version`"@), defined_report(document, seq!["workspace"@, "package"@, "readme"@], file, "[workspace.package] must define `readme`"@), (file, "[workspace.package] must define `authors`"@));
        lemma_reports_concat(((((defined_report(document, seq!["workspace"@, "package"@, "authors"@], file, "[workspace.package] must define `authors`"@)) + defined_report(document, seq!["workspace"@, "package"@, "repository"@], file, "[workspace.package] must define `repository`"@)) + defined_report(document, seq!["workspace"@, "package"@, "edition"@], file, "[workspace.package] must define `edition`"@)) + defined_report(document, seq!["workspace"@, "package"@, "rust-version"@], file, "[workspace.package] must define `rust-version`"@)) + defined_report(document, seq!["workspace"@, "package"@, "readme"@], file, "[workspace.package] must define `readme`"@), defined_report(document, seq!["workspace"@, "package"@, "license"@], file, "[workspace.package] must define `license`"@), (file, "[workspace.package] must define `authors`"@));
        lemma_reports_concat((((((defined_report(document, seq!["workspace"@, "package"@, "authors"@], file, "[workspace.package] must define `authors`"@)) + defined_report(document, seq!["workspace"@, "package"@, "repository"@], file, "[workspace.package] must define `repository`"@)) + defined_report(document, seq!["workspace"@, "package"@, "edition"@], file, "[workspace.package] must define `edition`"@)) + defined_report(document, seq!["workspace"@, "package"@, "rust-version"@], file, "[workspace.package] must define `rust-version`"@)) + defined_report(document, seq!["workspace"@, "package"@, "readme"@], file, "[workspace.package] must define `readme`"@)) + defined_report(document, seq!["workspace"@, "package"@, "license"@], file, "[workspace.package] must define `license`"@), defined_report(document, seq!["workspace"@, "package"@, "version"@], file, "[workspace.package] must define `version`"@), (file, "[workspace.package] must define `authors`"@));
    }
    if get_path(document, seq!["workspace"@, "package"@, "repository"@]) is None {
        assert(defined_report(document, seq!["workspace"@, "package"@, "repository"@], file, "[workspace.package] must define `repository`"@)[0] == (file, "[workspace.package] must define `repository`"@));
        assert(defined_report(document, seq!["workspace"@, "package"@, "repository"@], file, "[workspace.package] must define `repository`"@).contains((file, "[workspace.package] must define `repository`"@)));
        lemma_reports_concat(defined_report(document, seq!["workspace"@, "package"@, "authors"@], file, "[workspace.package] must define `authors`"@), defined_report(document, seq!["workspace"@, "package"@, "repository"@], file, "[workspace.package] must define `repository`"@), (file, "[workspace.package] must define `repository`"@));
        lemma_reports_concat((defined_report(document, seq!["workspace"@, "package"@, "authors"@], file, "[workspace.package] must define `authors`"@)) + defined_report(document, seq!["workspace"@, "package"@, "repository"@], file, "[workspace.package] must define `repository`"@), defined_report(document, seq!["workspace"@, "package"@, "edition"@], file, "[workspace.package] must define `edition`"@), (file, "[workspace.package] must define `repository`"@));
        lemma_reports_concat(((defined_report(document, seq!["workspace"@, "package"@, "authors"@], file, "[workspace.package] must define `authors`"@)) + defined_report(document, seq!["workspace"@, "package"@, "repository"@], file, "[workspace.package] must define `repository`"@)) + defined_report(document, seq!["workspace"@, "package"@, "edition"@], file, "[workspace.package] must define `edition`"@), defined_report(document, seq!["workspace"@, "package"@, "rust-version"@], file, "[workspace.package] must define `rust-version`"@), (file, "[workspace.package] must define `repository`"@));
        lemma_reports_concat((((defined_report(document, seq!["workspace"@, "package"@, "authors"@], file, "[workspace.package] must define `authors`"@)) + defined_report(document, seq!["workspace"@, "package"@, "repository"@], file, "[workspace.package] must define `repository`"@)) + defined_report(document, seq!["workspace"@, "package"@, "edition"@], file, "[workspace.package] must define `edition`"@)) + defined_report(document, seq!["workspace"@, "package"@, "rust-version"@], file, "[workspace.package] must define `rust-version`"@), defined_report(document, seq!["workspace"@, "package"@, "readme"@], file, "[workspace.package] must define `readme`"@), (file, "[workspace.package] must define `repository`"@));
        lemma_reports_concat(((((defined_report(document, seq!["workspace"@, "package"@, "authors"@], file, "[workspace.package] must define `authors`"@)) + defined_report(document, seq!["workspace"@, "package"@, "repository"@], file, "[workspace.package] must define `repository`"@)) + defined_report(document, seq!["workspace"@, "package"@, "edition"@], file, "[workspace.package] must define `edition`"@)) + defined_report(document, seq!["workspace"@, "package"@, "rust-version"@], file, "[workspace.package] must define `rust-version`"@)) + defined_report(document, seq!["workspace"@, "package"@, "readme"@], file, "[workspace.package] must define `readme`"@), defined_report(document, seq!["workspace"@, "package"@, "license"@], file, "[workspace.package] must define `license`"@), (file, "[workspace.package] must define `repository`"@));
        lemma_reports_concat((((((defined_report(document, seq!["workspace"@, "package"@, "authors"@], file, "[workspace.package] must define `authors`"@)) + defined_report(document, seq!["workspace"@, "package"@, "repository"@], file, "[workspace.package] must define `repository`"@)) + defined_report(document, seq!["workspace"@, "package"@, "edition"@], file, "[workspace.package] must define `edition`"@)) + defined_report(document, seq!["workspace"@, "package"@, "rust-version"@], file, "[workspace.package] must define `rust-version`"@)) + defined_report(document, seq!["workspace"@, "package"@, "readme"@], file, "[workspace.package] must define `readme`"@)) + defined_report(document, seq!["workspace"@, "package"@, "license"@], file, "[workspace.package] must define `license`"@), defined_report(document, seq!["workspace"@, "package"@, "version"@], file, "[workspace.package] must define `version`"@), (file, "[workspace.package] must define `repository`"@));
    }
    if get_path(document, seq!["workspace"@, "package"@, "edition"@]) is None {
        assert(defined_report(document, seq!["workspace"@, "package"@, "edition"@], file, "[workspace.package] must define `edition`"@)[0] == (file, "[workspace.package] must define `edition`"@));
        assert(defined_report(document, seq!["workspace"@, "package"@, "edition"@], file, "[workspace.package] must define `edition`"@).contains((file, "[workspace.package] must define `edition`"@)));
        lemma_reports_concat((defined_report(document, seq!["workspace"@, "package"@, "authors"@], file, "[workspace.package] must define `authors`"@)) + defined_report(document, seq!["workspace"@, "package"@, "repository"@], file, "[workspace.package] must define `repository`"@), defined_report(document, seq!["workspace"@, "package"@, "edition"@], file, "[workspace.package] must define `edition`"@), (file, "[workspace.package] must define `edition`"@));
        lemma_reports_concat(((defined_report(document, seq!["workspace"@, "package"@, "authors"@], file, "[workspace.package] must define `authors`"@)) + defined_report(document, seq!["workspace"@, "package"@, "repository"@], file, "[workspace.package] must define `repository`"@)) + defined_report(document, seq!["workspace"@, "package"@, "edition"@], file, "[workspace.package] must define `edition`"@), defined_report(document, seq!["workspace"@, "package"@, "rust-version"@], file, "[workspace.package] must define `rust-version`"@), (file, "[workspace.package] must define `edition`"@));
        lemma_reports_concat((((defined_report(document, seq!["workspace"@, "package"@, "authors"@], file, "[workspace.package] must define `authors`"@)) + defined_report(document, seq!["workspace"@, "package"@, "repository"@], file, "[workspace.package] must define `repository`"@)) + defined_report(document, seq!["workspace"@, "package"@, "edition"@], file, "[workspace.package] must define `edition`"@)) + defined_report(document, seq!["workspace"@, "package"@, "rust-version"@], file, "[workspace.package] must define `rust-version`"@), defined_report(document, seq!["workspace"@, "package"@, "readme"@], file, "[workspace.package] must define `readme`"@), (file, "[workspace.package] must define `edition`"@));
        lemma_reports_concat(((((defined_report(document, seq!["workspace"@, "package"@, "authors"@], file, "[workspace.package] must define `authors`"@)) + defined_report(document, seq!["workspace"@, "package"@, "repository"@], file, "[workspace.package] must define `repository`"@)) + defined_report(document, seq!["workspace"@, "package"@, "edition"@], file, "[workspace.package] must define `edition`"@)) + defined_report(document, seq!["workspace"@, "package"@, "rust-version"@], file, "[workspace.package] must define `rust-version`"@)) + defined_report(document, seq!["workspace"@, "package"@, "readme"@], file, "[workspace.package] must define `readme`"@), defined_report(document, seq!["workspace"@, "package"@, "license"@], file, "[workspace.package] must define `license`"@), (file, "[workspace.package] must define `edition`"@));
        lemma_reports_concat((((((defined_report(document, seq!["workspace"@, "package"@, "authors"@], file, "[workspace.package] must define `authors`"@)) + defined_report(document, seq!["workspace"@, "package"@, "repository"@], file, "[workspace.package] must define `repository`"@)) + defined_report(document, seq!["workspace"@, "package"@, "edition"@], file, "[workspace.package] must define `edition`"@)) + defined_report(document, seq!["workspace"@, "package"@, "rust-version"@], file, "[workspace.package] must define `rust-version`"@)) + defined_report(document, seq!["workspace"@, "package"@, "readme"@], file, "[workspace.package] must define `readme`"@)) + defined_report(document, seq!["workspace"@, "package"@, "license"@], file, "[workspace.package] must define `license`"@), defined_report(document, seq!["workspace"@, "package"@, "version"@], file, "[workspace.package] must define `version`"@), (file, "[workspace.package] must define `edition`"@));
    }
    if get_path(document, seq!["workspace"@, "package"@, "rust-version"@]) is None {
        assert(defined_report(document, seq!["workspace"@, "package"@, "rust-version"@], file, "[workspace.package] must define `rust-version`"@)[0] == (file, "[workspace.package] must define `rust-version`"@));
        assert(defined_report(document, seq!["workspace"@, "package"@, "rust-version"@], file, "[workspace.package] must define `rust-version`"@).contains((file, "[workspace.package] must define `rust-version`"@)));
        lemma_reports_concat(((defined_report(document, seq!["workspace"@, "package"@, "authors"@], file, "[workspace.package] must define `authors`"@)) + defined_report(document, seq!["workspace"@, "package"@, "repository"@], file, "[workspace.package] must define `repository`"@)) + defined_report(document, seq!["workspace"@, "package"@, "edition"@], file, "[workspace.package] must define `edition`"@), defined_report(document, seq!["workspace"@, "package"@, "rust-version"@], file, "[workspace.package] must define `rust-version`"@), (file, "[workspace.package] must define `rust-version`"@));
        lemma_reports_concat((((defined_report(document, seq!["workspace"@, "package"@, "authors"@], file, "[workspace.package] must define `authors`"@)) + defined_report(document, seq!["workspace"@, "package"@, "repository"@], file, "[workspace.package] must define `repository`"@)) + defined_report(document, seq!["workspace"@, "package"@, "edition"@], file, "[workspace.package] must define `edition`"@)) + defined_report(document, seq!["workspace"@, "package"@, "rust-version"@], file, "[workspace.package] must define `rust-version`"@), defined_report(document, seq!["workspace"@, "package"@, "readme"@], file, "[workspace.package] must define `readme`"@), (file, "[workspace.package] must define `rust-version`"@));
        lemma_reports_concat(((((defined_report(document, seq!["workspace"@, "package"@, "authors"@], file, "[workspace.package] must define `authors`"@)) + defined_report(document, seq!["workspace"@, "package"@, "repository"@], file, "[workspace.package] must define `repository`"@)) + defined_report(document, seq!["workspace"@, "package"@, "edition"@], file, "[workspace.package] must define `edition`"@)) + defined_report(document, seq!["workspace"@, "package"@, "rust-version"@], file, "[workspace.package] must define `rust-version`"@)) + defined_report(document, seq!["workspace"@, "package"@, "readme"@], file, "[workspace.package] must define `readme`"@), defined_report(document, seq!["workspace"@, "package"@, "license"@], file, "[workspace.package] must define `license`"@), (file, "[workspace.package] must define `rust-version`"@));
        lemma_reports_concat((((((defined_report(document, seq!["workspace"@, "package"@, "authors"@], file, "[workspace.package] must define `authors`"@)) + defined_report(document, seq!["workspace"@, "package"@, "repository"@], file, "[workspace.package] must define `repository`"@)) + defined_report(document, seq!["workspace"@, "package"@, "edition"@], file, "[workspace.package] must define `edition`"@)) + defined_report(document, seq!["workspace"@, "package"@, "rust-version"@], file, "[workspace.package] must define `rust-version`"@)) + defined_report(document, seq!["workspace"@, "package"@, "readme"@], file, "[workspace.package] must define `readme`"@)) + defined_report(document, seq!["workspace"@, "package"@, "license"@], file, "[workspace.package] must define `license`"@), defined_report(document, seq!["workspace"@, "package"@, "version"@], file, "[workspace.package] must define `version`"@), (file, "[workspace.package] must define `rust-version`"@));
    }
    if get_path(document, seq!["workspace"@, "package"@, "readme"@]) is None {
        assert(defined_report(document, seq!["workspace"@, "package"@, "readme"@], file, "[workspace.package] must define `readme`"@)[0] == (file, "[workspace.package] must define `readme`"@));
        assert(defined_report(document, seq!["workspace"@, "package"@, "readme"@], file, "[workspace.package] must define `readme`"@).contains((file, "[workspace.package] must define `readme`"@)));
        lemma_reports_concat((((defined_report(document, seq!["workspace"@, "package"@, "authors"@], file, "[workspace.package] must define `authors`"@)) + defined_report(document, seq!["workspace"@, "package"@, "repository"@], file, "[workspace.package] must define `repository`"@)) + defined_report(document, seq!["workspace"@, "package"@, "edition"@], file, "[workspace.package] must define `edition`"@)) + defined_report(document, seq!["workspace"@, "package"@, "rust-version"@], file, "[workspace.package] must define `rust-version`"@), defined_report(document, seq!["workspace"@, "package"@, "readme"@], file, "[workspace.package] must define `readme`"@), (file, "[workspace.package] must define `readme`"@));
        lemma_reports_concat(((((defined_report(document, seq!["workspace"@, "package"@, "authors"@], file, "[workspace.package] must define `authors`"@)) + defined_report(document, seq!["workspace"@, "package"@, "repository"@], file, "[workspace.package] must define `repository`"@)) + defined_report(document, seq!["workspace"@, "package"@, "edition"@], file, "[workspace.package] must define `edition`"@)) + defined_report(document, seq!["workspace"@, "package"@, "rust-version"@], file, "[workspace.package] must define `rust-version`"@)) + defined_report(document, seq!["workspace"@, "package"@, "readme"@], file, "[workspace.package] must define `readme`"@), defined_report(document, seq!["workspace"@, "package"@, "license"@], file, "[workspace.package] must define `license`"@), (file, "[workspace.package] must define `readme`"@));
        lemma_reports_concat((((((defined_report(document, seq!["workspace"@, "package"@, "authors"@], file, "[workspace.package] must define `authors`"@)) + defined_report(document, seq!["workspace"@, "package"@, "repository"@], file, "[workspace.package] must define `repository`"@)) + defined_report(document, seq!["workspace"@, "package"@, "edition"@], file, "[workspace.package] must define `edition`"@)) + defined_report(document, seq!["workspace"@, "package"@, "rust-version"@], file, "[workspace.package] must define `rust-version`"@)) + defined_report(document, seq!["workspace"@, "package"@, "readme"@], file, "[workspace.package] must define `readme`"@)) + defined_report(document, seq!["workspace"@, "package"@, "license"@], file, "[workspace.package] must define `license`"@), defined_report(document, seq!["workspace"@, "package"@, "version"@], file, "[workspace.package] must define `version`"@), (file, "[workspace.package] must define `readme`"@));
    }
    if get_path(document, seq!["workspace"@, "package"@, "license"@]) is None {
        assert(defined_report(document, seq!["workspace"@, "package"@, "license"@], file, "[workspace.package] must define `license`"@)[0] == (file, "[workspace.package] must define `license`"@));
        assert(defined_report(document, seq!["workspace"@, "package"@, "license"@], file, "[workspace.package] must define `license`"@).contains((file, "[workspace.package] must define `license`"@)));
        lemma_reports_concat(((((defined_report(document, seq!["workspace"@, "package"@, "authors"@], file, "[workspace.package] must define `authors`"@)) + defined_report(document, seq!["workspace"@, "package"@, "repository"@], file, "[workspace.package] must define `repository`"@)) + defined_report(document, seq!["workspace"@, "package"@, "edition"@], file, "[workspace.package] must define `edition`"@)) + defined_report(document, seq!["workspace"@, "package"@, "rust-version"@], file, "[workspace.package] must define `rust-version`"@)) + defined_report(document, seq!["workspace"@, "package"@, "readme"@], file, "[workspace.package] must define `readme`"@), defined_report(document, seq!["workspace"@, "package"@, "license"@], file, "[workspace.package] must define `license`"@), (file, "[workspace.package] must define `license`"@));
        lemma_reports_concat((((((defined_report(document, seq!["workspace"@, "package"@, "authors"@], file, "[workspace.package] must define `authors`"@)) + defined_report(document, seq!["workspace"@, "package"@, "repository"@], file, "[workspace.package] must define `repository`"@)) + defined_report(document, seq!["workspace"@, "package"@, "edition"@], file, "[workspace.package] must define `edition`"@)) + defined_report(document, seq!["workspace"@, "package"@, "rust-version"@], file, "[workspace.package] must define `rust-version`"@)) + defined_report(document, seq!["workspace"@, "package"@, "readme"@], file, "[workspace.package] must define `readme`"@)) + defined_report(document, seq!["workspace"@, "package"@, "license"@], file, "[workspace.package] must define `license`"@), defined_report(document, seq!["workspace"@, "package"@, "version"@], file, "[workspace.package] must define `version`"@), (file, "[workspace.package] must define `license`"@));
    }
    if get_path(document, seq!["workspace"@, "package"@, "version"@]) is None {
        assert(defined_report(document, seq!["workspace"@, "package"@, "version"@], file, "[workspace.package] must define `version`"@)[0] == (file, "[workspace.package] must define `version`"@));
        assert(defined_report(document, seq!["workspace"@, "package"@, "version"@], file, "[workspace.package] must define `version`"@).contains((file, "[workspace.package] must define `version`"@)));
        lemma_reports_concat((((((defined_report(document, seq!["workspace"@, "package"@, "authors"@], file, "[workspace.package] must define `authors`"@)) + defined_report(document, seq!["workspace"@, "package"@, "repository"@], file, "[workspace.package] must define `repository`"@)) + defined_report(document, seq!["workspace"@, "package"@, "edition"@], file, "[workspace.package] must define `edition`"@)) + defined_report(document, seq!["workspace"@, "package"@, "rust-version"@], file, "[workspace.package] must define `rust-version`"@)) + defined_report(document, seq!["workspace"@, "package"@, "readme"@], file, "[workspace.package] must define `readme`"@)) + defined_report(document, seq!["workspace"@, "package"@, "license"@], file, "[workspace.package] must define `license`"@), defined_report(document, seq!["workspace"@, "package"@, "version"@], file, "[workspace.package] must define `version`"@), (file, "[workspace.package] must define `version`"@));
    }
}

/// A publishable package is reported when it lacks `description` or `readme`, or does not set
/// `package.metadata.docs.rs.all-features` to true.
#[verifier::spinoff_prover]
#[verifier::rlimit(80)]
pub proof fn lemma_published_field_reports_each_setting(document: TomlItem, file: Seq<char>)
    ensures
        get_path(document, seq!["package"@, "description"@]) is None ==> published_field_reports(document, file).contains((file, "[package] must define `description`"@)),
        get_path(document, seq!["package"@, "readme"@]) is None ==> published_field_reports(document, file).contains((file, "[package] must define `readme`"@)),
        as_bool_spec(get_path(document, seq!["package"@, "metadata"@, "docs"@, "rs"@, "all-features"@])) != Some(true) ==> published_field_reports(document, file).contains((file, "`package.metadata.docs.rs.all-features` must be true"@)),
{
    reveal_strlit(".");
    reveal_strlit("`");
    reveal_strlit("` must be true");
    reveal_strlit("`package.metadata.docs.rs.all-features` must be true");
    reveal_strlit("all-features");
    reveal_strlit("description");
    reveal_strlit("docs");
    reveal_strlit("metadata");
    reveal_strlit("package");
    reveal_strlit("readme");
    reveal_strlit("rs");
    assert(seq!["package"@, "metadata"@].drop_last() =~= seq!["package"@]);
    assert(seq!["package"@, "metadata"@].last() == "metadata"@);
    assert(dotted(seq!["package"@, "metadata"@]) == dotted(seq!["package"@]) + "."@ + "metadata"@);
    assert(seq!["package"@, "metadata"@, "docs"@].drop_last() =~= seq!["package"@, "metadata"@]);
    assert(seq!["package"@, "metadata"@, "docs"@].last() == "docs"@);
    assert(dotted(seq!["package"@, "metadata"@, "docs"@]) == dotted(seq!["package"@, "metadata"@]) + "."@ + "docs"@);
    assert(seq!["package"@, "metadata"@, "docs"@, "rs"@].drop_last() =~= seq!["package"@, "metadata"@, "docs"@]);
    assert(seq!["package"@, "metadata"@, "docs"@, "rs"@].last() == "rs"@);
    assert(dotted(seq!["package"@, "metadata"@, "docs"@, "rs"@]) == dotted(seq!["package"@, "metadata"@, "docs"@]) + "."@ + "rs"@);
    assert(seq!["package"@, "metadata"@, "docs"@, "rs"@, "all-features"@].drop_last() =~= seq!["package"@, "metadata"@, "docs"@, "rs"@]);
    assert(seq!["package"@, "metadata"@, "docs"@, "rs"@, "all-features"@].last() == "all-features"@);
    assert(dotted(seq!["package"@, "metadata"@, "docs"@, "rs"@, "all-features"@]) == dotted(seq!["package"@, "metadata"@, "docs"@, "rs"@]) + "."@ + "all-features"@);
    assert(dotted(seq!["package"@, "metadata"@, "docs"@, "rs"@, "all-features"@]) =~= "package"@ + "."@ + "metadata"@ + "."@ + "docs"@ + "."@ + "rs"@ + "."@ + "all-features"@);
    let reports = published_field_reports(document, file);
    assert(reports == defined_report(document, seq!["package"@, "description"@], file, "[package] must define `description`"@) + defined_report(document, seq!["package"@, "readme"@], file, "[package] must define `readme`"@) + true_report(document, seq!["package"@, "metadata"@, "docs"@, "rs"@, "all-features"@], file));
    if get_path(document, seq!["package"@, "description"@]) is None {
        assert(defined_report(document, seq!["package"@, "description"@], file, "[package] must define `description`"@)[0] == (file, "[package] must define `description`"@));
        assert(defined_report(document, seq!["package"@, "description"@], file, "[package] must define `description`"@).contains((file, "[package] must define `description`"@)));
        lemma_reports_concat(defined_report(document, seq!["package"@, "description"@], file, "[package] must define `description`"@), defined_report(document, seq!["package"@, "readme"@], file, "[package] must define `readme`"@), (file, "[package] must define `description`"@));
        lemma_reports_concat((defined_report(document, seq!["package"@, "description"@], file, "[package] must define `description`"@)) + defined_report(document, seq!["package"@, "readme"@], file, "[package] must define `readme`"@), true_report(document, seq!["package"@, "metadata"@, "docs"@, "rs"@, "all-features"@], file), (file, "[package] must define `description`"@));
    }
    if get_path(document, seq!["package"@, "readme"@]) is None {
        assert(defined_report(document, seq!["package"@, "readme"@], file, "[package] must define `readme`"@)[0] == (file, "[package] must define `readme`"@));
        assert(defined_report(document, seq!["package"@, "readme"@], file, "[package] must define `readme`"@).contains((file, "[package] must define `readme`"@)));
        lemma_reports_concat(defined_report(document, seq!["package"@, "description"@], file, "[package] must define `description`"@), defined_report(document, seq!["package"@, "readme"@], file, "[package] must define `readme`"@), (file, "[package] must define `readme`"@));
        lemma_reports_concat((defined_report(document, seq!["package"@, "description"@], file, "[package] must define `description`"@)) + defined_report(document, seq!["package"@, "readme"@], file, "[package] must define `readme`"@), true_report(document, seq!["package"@, "metadata"@, "docs"@, "rs"@, "all-features"@], file), (file, "[package] must define `readme`"@));
    }
    if as_bool_spec(get_path(document, seq!["package"@, "metadata"@, "docs"@, "rs"@, "all-features"@])) != Some(true) {
        assert("`package.metadata.docs.rs.all-features` must be true"@ =~= "`"@ + dotted(seq!["package"@, "metadata"@, "docs"@, "rs"@, "all-features"@]) + "` must be true"@);
        assert(true_report(document, seq!["package"@, "metadata"@, "docs"@, "rs"@, "all-features"@], file)[0] == (file, "`package.metadata.docs.rs.all-features` must be true"@));
        assert(true_report(document, seq!["package"@, "metadata"@, "docs"@, "rs"@, "all-features"@], file).contains((file, "`package.metadata.docs.rs.all-features` must be true"@)));
        lemma_reports_concat((defined_report(document, seq!["package"@, "description"@], file, "[package] must define `description`"@)) + defined_report(document, seq!["package"@, "readme"@], file, "[package] must define `readme`"@), true_report(document, seq!["package"@, "metadata"@, "docs"@, "rs"@, "all-features"@], file), (file, "`package.metadata.docs.rs.all-features` must be true"@));
    }
}

/// The root manifest is reported when its resolver is not `3`, and for everything its shared
/// package metadata, the order of its workspace dependencies and its workspace lints are
/// reported for: the level and the priority of each lint.
#[verifier::spinoff_prover]
#[verifier::rlimit(80)]
pub proof fn lemma_root_reports_everything(document: TomlItem, file: Seq<char>, report: Report)
    ensures
        as_str_spec(get_path(document, seq!["workspace"@, "resolver"@])) != Some("3"@) ==> root_reports(
            document,
            file,
        ).contains((file, "`workspace.resolver` must be \"3\""@)),
        workspace_package_reports(document, file).contains(report) ==> root_reports(document, file).contains(report),
        sorted_reports(document, file).contains(report) ==> root_reports(document, file).contains(report),
        lint_level_reports(document, file).contains(report) ==> root_reports(document, file).contains(report),
        lint_priority_reports(document, file).contains(report) ==> root_reports(document, file).contains(report),
{
    let resolver = string_report(document, seq!["workspace"@, "resolver"@], "3"@, file);
    let package = workspace_package_reports(document, file);
    let sorted = sorted_reports(document, file);
    let levels = lint_level_reports(document, file);
    let priorities = lint_priority_reports(document, file);
    assert(root_reports(document, file) == resolver + package + sorted + (levels + priorities));
    lemma_reports_concat(levels, priorities, report);
    lemma_reports_concat(resolver, package, report);
    lemma_reports_concat(resolver + package, sorted, report);
    lemma_reports_concat(resolver + package + sorted, levels + priorities, report);
    reveal_strlit("`workspace.resolver` must be \"3\"");
    reveal_strlit("`");
    reveal_strlit("` must be \"");
    reveal_strlit("\"");
    reveal_strlit(".");
    reveal_strlit("workspace");
    reveal_strlit("resolver");
    reveal_strlit("3");
    assert(seq!["workspace"@, "resolver"@].drop_last() =~= seq!["workspace"@]);
    assert(seq!["workspace"@, "resolver"@].last() == "resolver"@);
    assert(dotted(seq!["workspace"@, "resolver"@]) == dotted(seq!["workspace"@]) + "."@ + "resolver"@);
    assert(dotted(seq!["workspace"@, "resolver"@]) =~= "workspace"@ + "."@ + "resolver"@);
    let message = "`workspace.resolver` must be \"3\""@;
    if as_str_spec(get_path(document, seq!["workspace"@, "resolver"@])) != Some("3"@) {
        assert(message =~= "`"@ + dotted(seq!["workspace"@, "resolver"@]) + "` must be \""@ + "3"@ + "\""@);
        assert(resolver[0] == (file, message));
        assert(resolver.contains((file, message)));
        lemma_reports_concat(resolver, package, (file, message));
        lemma_reports_concat(resolver + package, sorted, (file, message));
        lemma_reports_concat(resolver + package + sorted, levels + priorities, (file, message));
    }
}

/// A publishable package is reported for each metadata field it lacks, and when its docs.rs
/// rustdoc arguments are not exactly `--cfg docsrs`.
pub proof fn lemma_published_reports_everything(document: TomlItem, file: Seq<char>, report: Report)
    ensures
        published_field_reports(document, file).contains(report) ==> published_reports(document, file).contains(report),
        !rustdoc_args_ok(document) ==> published_reports(document, file).contains(
            (file, "`package.metadata.docs.rs.rustdoc-args` must be [\"--cfg\", \"docsrs\"]"@),
        ),
{
    let fields = published_field_reports(document, file);
    let message = "`package.metadata.docs.rs.rustdoc-args` must be [\"--cfg\", \"docsrs\"]"@;
    let arguments = if rustdoc_args_ok(document) {
        Seq::<Report>::empty()
    } else {
        seq![(file, message)]
    };
    assert(published_reports(document, file) == fields + arguments);
    lemma_reports_concat(fields, arguments, report);
    if !rustdoc_args_ok(document) {
        assert(arguments[0] == (file, message));
        lemma_reports_concat(fields, arguments, (file, message));
    }
}

/// Whether `section` names one of the tables a manifest declares dependencies in: normal,
/// development or build dependencies.
pub open spec fn is_dependency_section(section: Seq<char>) -> bool {
    section == "dependencies"@ || section == "dev-dependencies"@ || section == "build-dependencies"@
}

/// Whether the `section` table of `item` holds `entry`.
pub open spec fn declares(item: TomlItem, section: Seq<char>, entry: Entry) -> bool {
    match get_spec(item, section) {
        Some(table) => match table_entries(table) {
            Some(entries) => entries.contains(entry),
            None => false,
        },
        None => false,
    }
}

proof fn lemma_declared_in_holds(item: TomlItem, section: Seq<char>, entry: Entry)
    requires
        is_dependency_section(section),
        declares(item, section, entry),
    ensures
        declared_in(item).contains(entry),
{
    reveal_strlit("dependencies");
    reveal_strlit("dev-dependencies");
    reveal_strlit("build-dependencies");
    let normal = section_entries(item, "dependencies"@);
    let development = section_entries(item, "dev-dependencies"@);
    let build = section_entries(item, "build-dependencies"@);
    let all = declared_in(item);
    assert(all == normal + development + build);
    let k = choose|k: int| 0 <= k < section_entries(item, section).len() && section_entries(item, section)[k] == entry;
    if section == "dependencies"@ {
        assert(all[k] == entry);
    } else if section == "dev-dependencies"@ {
        assert(all[normal.len() + k] == entry);
    } else {
        assert(all[normal.len() + development.len() + k] == entry);
    }
}

proof fn lemma_target_dependencies_hold(targets: Seq<Entry>, k: int, entry: Entry)
    requires
        0 <= k < targets.len(),
        declared_in(targets[k].1).contains(entry),
    ensures
        target_dependencies(targets).contains(entry),
    decreases targets.len(),
{
    let earlier = target_dependencies(targets.drop_last());
    let last = declared_in(targets.last().1);
    assert(target_dependencies(targets) == earlier + last);
    if k == targets.len() - 1 {
        let j = choose|j: int| 0 <= j < last.len() && last[j] == entry;
        assert((earlier + last)[earlier.len() + j] == entry);
    } else {
        assert(targets.drop_last()[k] == targets[k]);
        lemma_target_dependencies_hold(targets.drop_last(), k, entry);
        let j = choose|j: int| 0 <= j < earlier.len() && earlier[j] == entry;
        assert((earlier + last)[j] == entry);
    }
}

/// Every dependency a manifest declares is visited: each entry of its `[dependencies]`,
/// `[dev-dependencies]` and `[build-dependencies]` tables, and of those tables under each
/// `[target.'cfg(...)']` table, is among the dependencies checked and counted as used.
pub proof fn lemma_every_declared_dependency_is_visited(document: TomlItem, section: Seq<char>, entry: Entry)
    requires
        is_dependency_section(section),
    ensures
        declares(document, section, entry) ==> dependency_entries(document).contains(entry),
        (match get_spec(document, "target"@) {
            Some(targets) => match table_entries(targets) {
                Some(tables) => exists|k: int| 0 <= k < tables.len() && declares(#[trigger] tables[k].1, section, entry),
                None => false,
            },
            None => false,
        }) ==> dependency_entries(document).contains(entry),
{
    let own = declared_in(document);
    let under_targets = match get_spec(document, "target"@) {
        Some(targets) => match table_entries(targets) {
            Some(entries) => target_dependencies(entries),
            None => Seq::empty(),
        },
        None => Seq::empty(),
    };
    assert(dependency_entries(document) == own + under_targets);
    if declares(document, section, entry) {
        lemma_declared_in_holds(document, section, entry);
        let j = choose|j: int| 0 <= j < own.len() && own[j] == entry;
        assert((own + under_targets)[j] == entry);
    }
    if let Some(targets) = get_spec(document, "target"@) {
        if let Some(tables) = table_entries(targets) {
            if exists|k: int| 0 <= k < tables.len() && declares(#[trigger] tables[k].1, section, entry) {
                let k = choose|k: int| 0 <= k < tables.len() && declares(#[trigger] tables[k].1, section, entry);
                lemma_declared_in_holds(tables[k].1, section, entry);
                lemma_target_dependencies_hold(tables, k, entry);
                let j = choose|j: int| 0 <= j < under_targets.len() && under_targets[j] == entry;
                assert((own + under_targets)[own.len() + j] == entry);
            }
        }
    }
}

/// A dependency that some member manifest declares counts as a use of its name.
pub proof fn lemma_declared_dependencies_are_used(documents: Seq<TomlItem>, i: int, entry: Entry)
    requires
        0 <= i < documents.len(),
        dependency_entries(documents[i]).contains(entry),
    ensures
        used_names(documents).contains(entry.0@),
    decreases documents.len(),
{
    let last = dependency_entries(documents.last()).map_values(|e: Entry| e.0@);
    if i == documents.len() - 1 {
        let j = choose|j: int| 0 <= j < dependency_entries(documents.last()).len()
            && dependency_entries(documents.last())[j] == entry;
        assert(last[j] == entry.0@);
        assert(last.to_set().contains(entry.0@));
    } else {
        assert(documents.drop_last()[i] == documents[i]);
        lemma_declared_dependencies_are_used(documents.drop_last(), i, entry);
    }
}

/// The report that a workspace dependency is not used by any member.
pub open spec fn unused_dependency_message(name: Seq<char>) -> Seq<char> {
    "`workspace.dependencies."@ + name + "` is not used by any member"@
}

/// A workspace dependency that is used is never reported as unused, and one that is not used is.
pub proof fn lemma_unused_dependency_reports(order: Seq<Seq<char>>, used: Set<Seq<char>>, file: Seq<char>, name: Seq<char>)
    requires
        order.contains(name),
    ensures
        unused_dependency_reports(order, used, file).contains((file, unused_dependency_message(name)))
            <==> !used.contains(name),
    decreases order.len(),
{
    let target = (file, unused_dependency_message(name));
    let rest = order.drop_last();
    let earlier = unused_dependency_reports(rest, used, file);
    let reports = unused_dependency_reports(order, used, file);
    let last = order.last();
    let pushed = earlier.push((file, unused_dependency_message(last)));
    if rest.contains(name) {
        lemma_unused_dependency_reports(rest, used, file, name);
    } else {
        assert(last == name) by {
            let k = choose|k: int| 0 <= k < order.len() && order[k] == name;
            if k < order.len() - 1 {
                assert(rest[k] == name);
            }
        }
        assert(!earlier.contains(target)) by {
            if earlier.contains(target) {
                let k = choose|k: int| 0 <= k < earlier.len() && earlier[k] == target;
                lemma_unused_reports_name(rest, used, file, k);
                let other = choose|other: Seq<char>| rest.contains(other)
                    && earlier[k] == (file, unused_dependency_message(other));
                lemma_unused_message_injective(other, name);
            }
        }
    }
    if used.contains(last) {
        assert(reports == earlier);
        if last == name {
            assert(!earlier.contains(target)) by {
                if earlier.contains(target) {
                    let k = choose|k: int| 0 <= k < earlier.len() && earlier[k] == target;
                    lemma_unused_reports_name(rest, used, file, k);
                    let other = choose|other: Seq<char>| rest.contains(other)
                        && earlier[k] == (file, unused_dependency_message(other));
                    lemma_unused_message_injective(other, name);
                    assert(rest.contains(name));
                    lemma_unused_dependency_reports(rest, used, file, name);
                }
            }
        }
    } else {
        assert(reports == pushed);
        assert(pushed[earlier.len() as int] == (file, unused_dependency_message(last)));
        if last == name {
            assert(pushed.contains(target));
        } else {
            assert(pushed.contains(target) <==> earlier.contains(target)) by {
                if pushed.contains(target) {
                    let k = choose|k: int| 0 <= k < pushed.len() && pushed[k] == target;
                    if k == earlier.len() {
                        lemma_unused_message_injective(last, name);
                    } else {
                        assert(earlier[k] == target);
                    }
                }
                if earlier.contains(target) {
                    let k = choose|k: int| 0 <= k < earlier.len() && earlier[k] == target;
                    assert(pushed[k] == target);
                }
            }
        }
    }
}

/// Each unused report names one of the names it was made from.
proof fn lemma_unused_reports_name(order: Seq<Seq<char>>, used: Set<Seq<char>>, file: Seq<char>, k: int)
    requires
        0 <= k < unused_dependency_reports(order, used, file).len(),
    ensures
        exists|other: Seq<char>| order.contains(other)
            && unused_dependency_reports(order, used, file)[k] == (file, unused_dependency_message(other)),
    decreases order.len(),
{
    let rest = order.drop_last();
    let earlier = unused_dependency_reports(rest, used, file);
    let reports = unused_dependency_reports(order, used, file);
    if k < earlier.len() {
        lemma_unused_reports_name(rest, used, file, k);
        let other = choose|other: Seq<char>| rest.contains(other)
            && earlier[k] == (file, unused_dependency_message(other));
        let j = choose|j: int| 0 <= j < rest.len() && rest[j] == other;
        assert(order[j] == other);
        assert(order.contains(other));
        if used.contains(order.last()) {
            assert(reports == earlier);
        } else {
            assert(reports == earlier.push((file, unused_dependency_message(order.last()))));
            assert(reports[k] == earlier[k]);
        }
    } else {
        if used.contains(order.last()) {
            assert(reports == earlier);
            assert(false);
        }
        assert(reports == earlier.push((file, unused_dependency_message(order.last()))));
        assert(order[order.len() - 1] == order.last());
        assert(order.contains(order.last()));
        assert(reports[k] == (file, unused_dependency_message(order.last())));
    }
}

/// Two names with the same unused report are the same name.
proof fn lemma_unused_message_injective(first: Seq<char>, second: Seq<char>)
    requires
        unused_dependency_message(first) == unused_dependency_message(second),
    ensures
        first == second,
{
    let prefix = "`workspace.dependencies."@;
    let suffix = "` is not used by any member"@;
    let a = unused_dependency_message(first);
    assert(a.len() == prefix.len() + first.len() + suffix.len());
    assert(first =~= a.subrange(prefix.len() as int, (prefix.len() + first.len()) as int));
    assert(second =~= unused_dependency_message(second).subrange(prefix.len() as int, (prefix.len() + second.len()) as int));
}

/// The exemptions that the root manifest declares, and the reports of those that are unusable.
pub open spec fn exemptions_state(root: TomlItem, file: Seq<char>) -> CheckState {
    match declared_tables(root) {
        Some(tables) => read_spec(tables, file),
        None => (Seq::empty(), seq![(file, "`"@ + table_name() + "` must be an array of tables"@)]),
    }
}

/// The reports of an optional configuration file's settings, or of its absence.
pub open spec fn optional_reports(document: Option<TomlItem>, file: Seq<char>, reports: spec_fn(TomlItem, Seq<char>) -> Seq<Report>) -> Seq<Report> {
    match document {
        Some(d) => reports(d, file),
        None => seq![(file, "file is missing"@)],
    }
}

/// Every policy violation of a workspace, given its manifests, with the workspace dependencies
/// taken in `order`.
pub open spec fn project_reports(
    project: Project,
    root: TomlItem,
    documents: Seq<TomlItem>,
    order: Seq<Seq<char>>,
    rustfmt: (Seq<char>, Option<TomlItem>),
    taplo: (Seq<char>, Option<TomlItem>),
    deny: (Seq<char>, Option<TomlItem>),
) -> Seq<Report> {
    let file = project.root_manifest@;
    let read = exemptions_state(root, file);
    let rooted = (read.0, read.1 + root_reports(root, file));
    let checked = members_state(rooted, documents, project.members@, workspace_dependency_names(root));
    checked.1 + unused_dependency_reports(order, used_names(documents), file)
        + unused_reports(checked.0, file)
        + optional_reports(rustfmt.1, rustfmt.0, |d: TomlItem, f: Seq<char>| rustfmt_reports(d, f))
        + optional_reports(taplo.1, taplo.0, |d: TomlItem, f: Seq<char>| taplo_reports(d, f))
        + optional_reports(deny.1, deny.0, |d: TomlItem, f: Seq<char>| deny_reports(d, f))
}

/// The document of an optional configuration file.
pub open spec fn optional_view(document: Option<&TomlItem>) -> Option<TomlItem> {
    match document {
        Some(d) => Some(*d),
        None => None,
    }
}

/// The paths of the shared configuration files of the workspace rooted at `root`:
/// `rustfmt.toml`, `.taplo.toml` and `deny.toml`, each joined to the root.
pub fn config_paths(root: &str) -> (paths: (String, String, String))
    ensures
        paths.0@ == joined_path(root@, "rustfmt.toml"@),
        paths.1@ == joined_path(root@, ".taplo.toml"@),
        paths.2@ == joined_path(root@, "deny.toml"@),
{
    (join(root, "rustfmt.toml"), join(root, ".taplo.toml"), join(root, "deny.toml"))
}

/// Check a workspace: its exemptions, its root manifest, each member manifest, the use of each
/// workspace dependency, the need for each exemption, and the shared `rustfmt.toml`,
/// `.taplo.toml` and `deny.toml` settings, in that order.
///
/// `member_documents` holds the manifest of each of `workspace.members`, and each configuration
/// document is the file of [`config_paths`] in the workspace root, or `None` when there is none.
pub fn project(
    workspace: &Project,
    root_document: &TomlItem,
    member_documents: &Vec<TomlItem>,
    rustfmt_document: Option<&TomlItem>,
    taplo_document: Option<&TomlItem>,
    deny_document: Option<&TomlItem>,
) -> (violations: Vec<Violation>)
    requires
        member_documents@.len() == workspace.members@.len(),
    ensures
        exists|order: Seq<Seq<char>>| {
            &&& strictly_sorted(order)
            &&& order.to_set() == workspace_dependency_names(*root_document)
            &&& violation_views(violations@) == project_reports(
                *workspace,
                *root_document,
                member_documents@,
                order,
                (joined_path(workspace.root@, "rustfmt.toml"@), optional_view(rustfmt_document)),
                (joined_path(workspace.root@, ".taplo.toml"@), optional_view(taplo_document)),
                (joined_path(workspace.root@, "deny.toml"@), optional_view(deny_document)),
            )
        },
{
    let file = workspace.root_manifest.as_str();
    let mut violations: Vec<Violation> = Vec::new();
    assert(violation_views(violations@) =~= Seq::<Report>::empty());
    let mut exemptions = Exemptions::read(root_document, file, &mut violations);
    proof {
        let read = exemptions_state(*root_document, file@);
        assert(exemptions.entries_spec() == read.0);
        assert(violation_views(violations@) =~= read.1);
    }
    let names = workspace_names(root_document);
    root(root_document, file, &mut violations);
    let ghost rooted = (exemptions.entries_spec(), violation_views(violations@));
    let ghost names_set = workspace_dependency_names(*root_document);
    let mut used: Vec<String> = Vec::new();
    let mut i: usize = 0;
    assert(member_documents@.take(0) =~= Seq::<TomlItem>::empty());
    assert(names_view(used@).to_set() =~= Set::<Seq<char>>::empty());
    while i < member_documents.len()
        invariant
            i <= member_documents@.len(),
            member_documents@.len() == workspace.members@.len(),
            names_view(names@).to_set() == names_set,
            exemptions.wf(),
            (exemptions.entries_spec(), violation_views(violations@)) == members_state(rooted, member_documents@.take(i as int), workspace.members@.take(i as int), names_set),
            names_view(used@).to_set() == used_names(member_documents@.take(i as int)),
        decreases member_documents@.len() - i,
    {
        let document = &member_documents[i];
        let declared = dependencies(document);
        let ghost used_before = names_view(used@);
        let mut j: usize = 0;
        let ghost declared_names = dependency_entries(*document).map_values(|entry: Entry| entry.0@);
        while j < declared.len()
            invariant
                j <= declared@.len(),
                entries_of(declared@) == dependency_entries(*document),
                declared_names == dependency_entries(*document).map_values(|entry: Entry| entry.0@),
                names_view(used@) == used_before + declared_names.take(j as int),
            decreases declared@.len() - j,
        {
            assert(entries_of(declared@)[j as int] == *declared@[j as int]);
            let ghost previous = used@;
            let name = declared[j].0.clone();
            assert(name@ == declared_names[j as int]);
            used.push(name);
            assert(names_view(used@) =~= names_view(previous).push(declared_names[j as int]));
            assert(declared_names.take(j + 1) =~= declared_names.take(j as int).push(declared_names[j as int]));
            assert(names_view(used@) =~= used_before + declared_names.take(j + 1));
            j = j + 1;
        }
        proof {
            assert(declared_names.take(declared@.len() as int) =~= declared_names);
            vstd::seq_lib::seq_to_set_distributes_over_add(used_before, declared_names);
            assert(member_documents@.take(i + 1).drop_last() =~= member_documents@.take(i as int));
            assert(names_view(used@).to_set() =~= used_names(member_documents@.take(i + 1)));
        }
        member(document, &workspace.members[i], &names, &mut exemptions, &mut violations);
        proof {
            assert(workspace.members@.take(i + 1).drop_last() =~= workspace.members@.take(i as int));
        }
        i = i + 1;
    }
    assert(member_documents@.take(member_documents@.len() as int) =~= member_documents@);
    assert(workspace.members@.take(workspace.members@.len() as int) =~= workspace.members@);
    let ghost checked = (exemptions.entries_spec(), violation_views(violations@));
    let ghost order = names_view(names@);
    let mut k: usize = 0;
    assert(order.take(0) =~= Seq::<Seq<char>>::empty());
    assert(violation_views(violations@) =~= checked.1 + unused_dependency_reports(order.take(0), used_names(member_documents@), file@));
    while k < names.len()
        invariant
            k <= names@.len(),
            order == names_view(names@),
            names_view(used@).to_set() == used_names(member_documents@),
            violation_views(violations@) == checked.1 + unused_dependency_reports(order.take(k as int), used_names(member_documents@), file@),
        decreases names@.len() - k,
    {
        assert(order.take(k + 1).drop_last() =~= order.take(k as int));
        assert(order[k as int] == names@[k as int]@);
        if !contains_name(&used, names[k].as_str()) {
            let mut message = String::from_str("`workspace.dependencies.");
            message.append(names[k].as_str());
            message.append("` is not used by any member");
            push(&mut violations, file, message);
        }
        k = k + 1;
    }
    assert(order.take(names@.len() as int) =~= order);
    exemptions.report_unused(file, &mut violations);
    let (rustfmt_path, taplo_path, deny_path) = config_paths(workspace.root.as_str());
    rustfmt(rustfmt_document, rustfmt_path.as_str(), &mut violations);
    taplo(taplo_document, taplo_path.as_str(), &mut violations);
    deny(deny_document, deny_path.as_str(), &mut violations);
    assert(violation_views(violations@) =~= project_reports(
        *workspace,
        *root_document,
        member_documents@,
        order,
        (rustfmt_path@, optional_view(rustfmt_document)),
        (taplo_path@, optional_view(taplo_document)),
        (deny_path@, optional_view(deny_document)),
    ));
    violations
}

} // verus!
