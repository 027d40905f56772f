//! Exemptions that waive one policy rule for one package.
//!
//! A rule that some package legitimately cannot follow is waived in the root manifest, under
//! `workspace.metadata.archivindex-build.exemptions`. Every entry names a package, an exemptable
//! rule and a non-empty reason; a malformed entry is reported rather than ignored, and an entry
//! that excuses nothing is reported too, so the list cannot outlive its reasons.

use vstd::prelude::*;

use crate::text::{decimal, push_decimal, str_eq, strip_prefix};
use crate::workspace::document::{self, get, get_path, path_view, TomlItem, TomlValue};
use crate::workspace::{push, violation_views, Violation};

verus! {

broadcast use {vstd::seq::group_seq_axioms, vstd::string::group_string_axioms};

/// The root manifest table that holds the exemption list.
pub open spec fn table_path() -> Seq<Seq<char>> {
    seq!["workspace"@, "metadata"@, "archivindex-build"@, "exemptions"@]
}

/// The name of the exemption table, as messages write it.
pub open spec fn table_name() -> Seq<char> {
    "workspace.metadata.archivindex-build.exemptions"@
}

/// A policy rule that a single package may be excused from.
///
/// The set is deliberately closed, and covers only the deviations that have turned out to be
/// necessary: a package that carries its own authorship or license, a package that cannot
/// inherit the workspace lints because it must relax one of them, and a dependency that must be
/// configured per package rather than through `[workspace.dependencies]`.
#[derive(Debug, Eq, PartialEq)]
pub enum Rule {
    /// The package states the named field for itself instead of inheriting the workspace value.
    Package(&'static str),
    /// The package configures its own lints instead of inheriting the workspace lints.
    Lints,
    /// The package depends on the named crate without workspace inheritance.
    Dependency(String),
}

/// The mathematical value of a [`Rule`].
pub enum RuleView {
    Package(Seq<char>),
    Lints,
    Dependency(Seq<char>),
}

impl View for Rule {
    type V = RuleView;

    open spec fn view(&self) -> RuleView {
        match self {
            Rule::Package(field) => RuleView::Package(field@),
            Rule::Lints => RuleView::Lints,
            Rule::Dependency(name) => RuleView::Dependency(name@),
        }
    }
}

impl Clone for Rule {
    fn clone(&self) -> (copy: Self)
        ensures
            copy@ == self@,
    {
        match self {
            Rule::Package(field) => Rule::Package(field),
            Rule::Lints => Rule::Lints,
            Rule::Dependency(name) => Rule::Dependency(name.clone()),
        }
    }
}

/// The name an exemption entry gives a rule.
pub open spec fn rule_name(rule: RuleView) -> Seq<char> {
    match rule {
        RuleView::Package(field) => "package."@ + field,
        RuleView::Lints => "lints.workspace"@,
        RuleView::Dependency(name) => "dependencies."@ + name,
    }
}

/// The rule an exemption entry names, or `None` if no exemptable rule has that name.
///
/// Only `authors` and `license` can be stated by a package for itself.
pub open spec fn parse_rule(name: Seq<char>) -> Option<RuleView> {
    if name == "lints.workspace"@ {
        Some(RuleView::Lints)
    } else if "package."@.is_prefix_of(name) {
        let field = name.skip("package."@.len() as int);
        if field == "authors"@ || field == "license"@ {
            Some(RuleView::Package(field))
        } else {
            None
        }
    } else if "dependencies."@.is_prefix_of(name) && name.len() > "dependencies."@.len() {
        Some(RuleView::Dependency(name.skip("dependencies."@.len() as int)))
    } else {
        None
    }
}

/// Whether a rule is one that an exemption can name.
pub open spec fn is_exemptable(rule: RuleView) -> bool {
    match rule {
        RuleView::Package(field) => field == "authors"@ || field == "license"@,
        RuleView::Lints => true,
        RuleView::Dependency(name) => name.len() > 0,
    }
}

impl Rule {
    /// The rule an exemption entry names, or `None` if no exemptable rule has that name.
    pub fn parse(name: &str) -> (rule: Option<Self>)
        ensures
            match rule {
                Some(r) => parse_rule(name@) == Some(r@),
                None => parse_rule(name@) is None,
            },
    {
        if str_eq(name, "lints.workspace") {
            return Some(Rule::Lints);
        }
        if let Some(field) = strip_prefix(name, "package.") {
            return if str_eq(field, "authors") {
                Some(Rule::Package("authors"))
            } else if str_eq(field, "license") {
                Some(Rule::Package("license"))
            } else {
                None
            };
        }
        match strip_prefix(name, "dependencies.") {
            Some(dependency) => {
                if dependency.unicode_len() == 0 {
                    None
                } else {
                    Some(Rule::Dependency(dependency.to_owned()))
                }
            },
            None => None,
        }
    }

    /// The rule's name, which is how it is displayed.
    pub fn to_string(&self) -> (name: String)
        ensures
            name@ == rule_name(self@),
    {
        match self {
            Rule::Package(field) => {
                let mut name = String::from_str("package.");
                name.append(field);
                name
            },
            Rule::Lints => String::from_str("lints.workspace"),
            Rule::Dependency(dependency) => {
                let mut name = String::from_str("dependencies.");
                name.append(dependency.as_str());
                name
            },
        }
    }
}

/// Every exemptable rule is read back from its name.
pub proof fn lemma_rule_names_parse(rule: RuleView)
    requires
        is_exemptable(rule),
    ensures
        parse_rule(rule_name(rule)) == Some(rule),
{
    reveal_strlit("lints.workspace");
    reveal_strlit("package.");
    reveal_strlit("dependencies.");
    reveal_strlit("authors");
    reveal_strlit("license");
    assert("lints.workspace"@ =~= seq!['l', 'i', 'n', 't', 's', '.', 'w', 'o', 'r', 'k', 's', 'p', 'a', 'c', 'e']);
    assert("package."@ =~= seq!['p', 'a', 'c', 'k', 'a', 'g', 'e', '.']);
    assert("dependencies."@ =~= seq!['d', 'e', 'p', 'e', 'n', 'd', 'e', 'n', 'c', 'i', 'e', 's', '.']);
    let name = rule_name(rule);
    match rule {
        RuleView::Package(field) => {
            assert(name[0] == 'p');
            assert(name.skip(8) =~= field);
        },
        RuleView::Lints => {},
        RuleView::Dependency(dependency) => {
            assert(name[0] == 'd');
            assert(!"package."@.is_prefix_of(name));
            assert(name.skip(13) =~= dependency);
        },
    }
}

/// A rule that an exemption is consulted for.
enum Wanted<'a> {
    Package(&'a str),
    Lints,
    Dependency(&'a str),
}

impl<'a> View for Wanted<'a> {
    type V = RuleView;

    closed spec fn view(&self) -> RuleView {
        match self {
            Wanted::Package(field) => RuleView::Package(field@),
            Wanted::Lints => RuleView::Lints,
            Wanted::Dependency(name) => RuleView::Dependency(name@),
        }
    }
}

/// One declared exemption, and whether anything has needed it.
pub struct EntryView {
    pub package: Seq<char>,
    pub rule: RuleView,
    pub used: bool,
}

/// One declared exemption.
#[derive(Debug)]
struct Entry {
    package: String,
    rule: Rule,
}

/// The exemptions a project declares in its root manifest.
///
/// Reading an exemption records that it was needed, so [`Exemptions::report_unused`] can flag
/// entries that no longer excuse anything and would otherwise outlive their reason.
#[derive(Debug)]
pub struct Exemptions {
    entries: Vec<Entry>,
    used: Vec<bool>,
}

/// Whether an entry waives `rule` for `package`.
pub open spec fn entry_matches(entry: EntryView, package: Seq<char>, rule: RuleView) -> bool {
    entry.package == package && entry.rule == rule
}

/// The first entry at or after `from` that waives `rule` for `package`, or the number of entries.
pub open spec fn first_match(entries: Seq<EntryView>, package: Seq<char>, rule: RuleView, from: int) -> int
    decreases entries.len() - from,
{
    if from < 0 || from >= entries.len() {
        entries.len() as int
    } else if entry_matches(entries[from], package, rule) {
        from
    } else {
        first_match(entries, package, rule, from + 1)
    }
}

proof fn lemma_first_match_bounds(entries: Seq<EntryView>, package: Seq<char>, rule: RuleView, from: int)
    requires
        0 <= from <= entries.len(),
    ensures
        from <= first_match(entries, package, rule, from) <= entries.len(),
    decreases entries.len() - from,
{
    if from < entries.len() && !entry_matches(entries[from], package, rule) {
        lemma_first_match_bounds(entries, package, rule, from + 1);
    }
}

/// The entries after the first one that waives `rule` for `package` is marked as used.
pub open spec fn marked(entries: Seq<EntryView>, package: Seq<char>, rule: RuleView) -> Seq<EntryView> {
    let i = first_match(entries, package, rule, 0);
    if i < entries.len() {
        entries.update(i, EntryView { used: true, ..entries[i] })
    } else {
        entries
    }
}

/// An exemption waives a rule only for the package it names: the entry that a query for `rule`
/// of `package` finds names that package and that rule, it is the first such entry, and a query
/// finds one exactly when some entry names both.
pub proof fn lemma_waivers_name_their_package(entries: Seq<EntryView>, package: Seq<char>, rule: RuleView)
    ensures
        ({
            let i = first_match(entries, package, rule, 0);
            &&& i < entries.len() ==> entries[i].package == package && entries[i].rule == rule
            &&& forall|j: int| 0 <= j < i && j < entries.len() ==> !(#[trigger] entries[j].package == package
                && entries[j].rule == rule)
            &&& i < entries.len() <==> exists|j: int| 0 <= j < entries.len() && #[trigger] entries[j].package
                == package && entries[j].rule == rule
        }),
{
    lemma_first_match_finds(entries, package, rule, 0);
}

proof fn lemma_first_match_finds(entries: Seq<EntryView>, package: Seq<char>, rule: RuleView, from: int)
    requires
        0 <= from <= entries.len(),
    ensures
        ({
            let i = first_match(entries, package, rule, from);
            &&& from <= i <= entries.len()
            &&& i < entries.len() ==> entries[i].package == package && entries[i].rule == rule
            &&& forall|j: int| from <= j < i ==> !(#[trigger] entries[j].package == package && entries[j].rule
                == rule)
            &&& i == entries.len() ==> forall|j: int| from <= j < entries.len() ==> !(#[trigger] entries[j].package
                == package && entries[j].rule == rule)
        }),
    decreases entries.len() - from,
{
    if from < entries.len() && !entry_matches(entries[from], package, rule) {
        lemma_first_match_finds(entries, package, rule, from + 1);
    }
}

/// Asking whether a rule is waived only ever records use: the entries keep their packages and
/// rules, an entry once used stays used, and the entry that waives the rule is used afterwards,
/// so it is not reported as no longer needed.
pub proof fn lemma_queries_record_use(entries: Seq<EntryView>, package: Seq<char>, rule: RuleView)
    ensures
        marked(entries, package, rule).len() == entries.len(),
        forall|j: int| 0 <= j < entries.len() ==> {
            &&& (#[trigger] marked(entries, package, rule)[j]).package == entries[j].package
            &&& marked(entries, package, rule)[j].rule == entries[j].rule
            &&& (entries[j].used ==> marked(entries, package, rule)[j].used)
        },
        first_match(entries, package, rule, 0) < entries.len() ==> marked(entries, package, rule)[first_match(
            entries,
            package,
            rule,
            0,
        )].used,
{
    lemma_first_match_bounds(entries, package, rule, 0);
}

/// The message reporting that an exemption excused nothing.
pub open spec fn unused_message(entry: EntryView) -> Seq<char> {
    "the exemption of `"@ + entry.package + "` from `"@ + rule_name(entry.rule) + "` is no longer needed"@
}

/// The violations of `path` reporting each entry that excused nothing, in order.
pub open spec fn unused_reports(entries: Seq<EntryView>, path: Seq<char>) -> Seq<(Seq<char>, Seq<char>)>
    decreases entries.len(),
{
    if entries.len() == 0 {
        Seq::empty()
    } else {
        let earlier = unused_reports(entries.drop_last(), path);
        if entries.last().used {
            earlier
        } else {
            earlier.push((path, unused_message(entries.last())))
        }
    }
}

/// The message that an entry of the exemption table is not usable, or the package and rule it
/// waives.
pub open spec fn entry_spec(table: Option<Seq<document::Entry>>) -> Result<(Seq<char>, RuleView), Seq<char>> {
    match table {
        None => Err("must be a table"@),
        Some(entries) => {
            let package = field_value(entries, "package"@);
            let rule = field_value(entries, "rule"@);
            let reason = field_value(entries, "reason"@);
            if package is None {
                Err(field_message("package"@))
            } else if rule is None {
                Err(field_message("rule"@))
            } else if reason is None {
                Err(field_message("reason"@))
            } else {
                match parse_rule(rule.unwrap()) {
                    Some(r) => Ok((package.unwrap(), r)),
                    None => Err("names `"@ + rule.unwrap() + "`, which is not an exemptable rule"@),
                }
            }
        },
    }
}

/// The non-empty string that a table holds under `name`.
pub open spec fn field_value(entries: Seq<document::Entry>, name: Seq<char>) -> Option<Seq<char>> {
    match document::lookup_from(entries, name, 0) {
        Some(TomlItem::Value(TomlValue::Str(s))) => if s@.len() > 0 { Some(s@) } else { None },
        _ => None,
    }
}

/// The message for a missing or empty field of an entry.
pub open spec fn field_message(name: Seq<char>) -> Seq<char> {
    "must set `"@ + name + "` to a non-empty string"@
}

/// The entries of the exemption table, each as a table when it is one, or `None` when the
/// exemption table is not an array of tables.
pub open spec fn declared_tables(document: TomlItem) -> Option<Seq<Option<Seq<document::Entry>>>> {
    match get_path(document, table_path()) {
        None => Some(Seq::empty()),
        Some(TomlItem::ArrayOfTables(tables)) => Some(tables@.map_values(|t: Vec<document::Entry>| Some(t@))),
        Some(TomlItem::Value(TomlValue::Array(values))) => Some(values@.map_values(|v: TomlValue| match v {
            TomlValue::InlineTable(t) => Some(t@),
            _ => None,
        })),
        _ => None,
    }
}

/// The entries that the declared tables establish, and the reports of those that are unusable.
pub open spec fn read_spec(tables: Seq<Option<Seq<document::Entry>>>, path: Seq<char>) -> (Seq<EntryView>, Seq<(Seq<char>, Seq<char>)>)
    decreases tables.len(),
{
    if tables.len() == 0 {
        (Seq::empty(), Seq::empty())
    } else {
        let (entries, reports) = read_spec(tables.drop_last(), path);
        match entry_spec(tables.last()) {
            Ok((package, rule)) => (entries.push(EntryView { package, rule, used: false }), reports),
            Err(message) => (entries, reports.push((path, "exemption "@ + decimal((tables.len() - 1) as nat) + " in `"@ + table_name() + "` "@ + message))),
        }
    }
}

/// The string that a table holds under `name`, when it is not empty.
fn field<'a>(entries: &'a Vec<document::Entry>, name: &str) -> (value: Result<&'a str, String>)
    ensures
        match value {
            Ok(v) => field_value(entries@, name@) == Some(v@),
            Err(message) => field_value(entries@, name@) is None && message@ == field_message(name@),
        },
{
    let found = match document::lookup(entries, name) {
        Some(TomlItem::Value(TomlValue::Str(s))) => if s.as_str().unicode_len() > 0 {
            Some(s.as_str())
        } else {
            None
        },
        _ => None,
    };
    match found {
        Some(v) => Ok(v),
        None => {
            let mut message = String::from_str("must set `");
            message.append(name);
            message.append("` to a non-empty string");
            Err(message)
        },
    }
}

/// The entries of a table, if there is one.
pub open spec fn table_view(table: Option<&Vec<document::Entry>>) -> Option<Seq<document::Entry>> {
    match table {
        Some(t) => Some(t@),
        None => None,
    }
}

/// Parse one exemption entry, or describe why it is not usable.
fn entry(table: Option<&Vec<document::Entry>>) -> (parsed: Result<Entry, String>)
    ensures
        match parsed {
            Ok(e) => entry_spec(table_view(table)) == Ok::<(Seq<char>, RuleView), Seq<char>>((e.package@, e.rule@)),
            Err(message) => entry_spec(table_view(table)) == Err::<(Seq<char>, RuleView), Seq<char>>(message@),
        },
{
    let table = match table {
        Some(table) => table,
        None => return Err(String::from_str("must be a table")),
    };
    let package = match field(table, "package") {
        Ok(package) => package,
        Err(message) => return Err(message),
    };
    let rule = match field(table, "rule") {
        Ok(rule) => rule,
        Err(message) => return Err(message),
    };
    // The reason is never read, but requiring it keeps the justification next to the entry
    // instead of in a comment that the next edit can separate from it.
    match field(table, "reason") {
        Ok(_) => {},
        Err(message) => return Err(message),
    }
    match Rule::parse(rule) {
        Some(rule) => Ok(Entry { package: package.to_owned(), rule }),
        None => {
            let mut message = String::from_str("names `");
            message.append(rule);
            message.append("`, which is not an exemptable rule");
            Err(message)
        },
    }
}

impl Exemptions {
    /// Whether every entry has a record of its use.
    pub closed spec fn wf(self) -> bool {
        self.entries.len() == self.used.len()
    }

    /// The declared exemptions, in order, and whether each has been needed.
    pub closed spec fn entries_spec(self) -> Seq<EntryView> {
        Seq::new(self.entries@.len(), |i: int| EntryView {
            package: self.entries@[i].package@,
            rule: self.entries@[i].rule@,
            used: self.used@[i],
        })
    }

    /// No exemptions.
    pub fn empty() -> (exemptions: Self)
        ensures
            exemptions.wf(),
            exemptions.entries_spec() == Seq::<EntryView>::empty(),
    {
        let exemptions = Exemptions { entries: Vec::new(), used: Vec::new() };
        assert(exemptions.entries_spec() =~= Seq::<EntryView>::empty());
        exemptions
    }

    /// Read the exemptions declared by a root manifest.
    ///
    /// Either TOML spelling of an array of tables is accepted, since a reason long enough to be
    /// worth reading rarely fits on one inline line. Malformed and unrecognized entries are
    /// reported as violations of `path` and then ignored, so a typo in an exemption fails the
    /// check rather than silently disabling a rule.
    pub fn read(document: &TomlItem, path: &str, violations: &mut Vec<Violation>) -> (exemptions: Self)
        ensures
            exemptions.wf(),
            match declared_tables(*document) {
                Some(tables) => {
                    &&& exemptions.entries_spec() == read_spec(tables, path@).0
                    &&& violation_views(final(violations)@) == violation_views(old(violations)@)
                        + read_spec(tables, path@).1
                },
                None => {
                    &&& exemptions.entries_spec() == Seq::<EntryView>::empty()
                    &&& violation_views(final(violations)@) == violation_views(old(violations)@)
                        .push((path@, "`"@ + table_name() + "` must be an array of tables"@))
                },
            },
    {
        let table_path_keys: [&str; 4] = ["workspace", "metadata", "archivindex-build", "exemptions"];
        assert(path_view(table_path_keys@) =~= table_path());
        let item = match get(document, table_path_keys.as_slice()) {
            Some(item) => item,
            None => {
                assert(violation_views(old(violations)@) + read_spec(Seq::empty(), path@).1 =~= violation_views(old(violations)@));
                return Exemptions::empty();
            },
        };
        let count = match item {
            TomlItem::ArrayOfTables(tables) => tables.len(),
            TomlItem::Value(TomlValue::Array(values)) => values.len(),
            _ => {
                let mut message = String::from_str("`");
                message.append("workspace.metadata.archivindex-build.exemptions");
                message.append("` must be an array of tables");
                push(violations, path, message);
                return Exemptions::empty();
            },
        };
        let ghost tables = declared_tables(*document).unwrap();
        let mut exemptions = Exemptions::empty();
        let mut index: usize = 0;
        assert(tables.take(0) =~= Seq::<Option<Seq<document::Entry>>>::empty());
        assert(violation_views(old(violations)@) + read_spec(tables.take(0), path@).1 =~= violation_views(old(violations)@));
        while index < count
            invariant
                index <= count,
                count == tables.len(),
                declared_tables(*document) == Some(tables),
                get_path(*document, table_path()) == Some(*item),
                exemptions.wf(),
                exemptions.entries_spec() == read_spec(tables.take(index as int), path@).0,
                violation_views(violations@) == violation_views(old(violations)@) + read_spec(tables.take(index as int), path@).1,
            decreases count - index,
        {
            let table = match item {
                TomlItem::ArrayOfTables(tables) => Some(&tables[index]),
                TomlItem::Value(TomlValue::Array(values)) => match &values[index] {
                    TomlValue::InlineTable(entries) => Some(entries),
                    _ => None,
                },
                _ => None,
            };
            assert(table_view(table) == tables[index as int]);
            assert(tables.take(index + 1).drop_last() =~= tables.take(index as int));
            let ghost before = exemptions.entries_spec();
            match entry(table) {
                Ok(entry) => {
                    let ghost parsed = entry;
                    exemptions.entries.push(entry);
                    exemptions.used.push(false);
                    assert(exemptions.entries_spec() =~= before.push(EntryView { package: parsed.package@, rule: parsed.rule@, used: false }));
                },
                Err(message) => {
                    let mut text = String::from_str("exemption ");
                    push_decimal(index as u64, &mut text);
                    text.append(" in `");
                    text.append("workspace.metadata.archivindex-build.exemptions");
                    text.append("` ");
                    text.append(message.as_str());
                    push(violations, path, text);
                },
            }
            index = index + 1;
        }
        assert(tables.take(count as int) =~= tables);
        exemptions
    }

    /// Mark the first entry that waives `wanted` for `package` as used, and report whether one
    /// did.
    fn mark(&mut self, package: &str, wanted: Wanted) -> (found: bool)
        requires
            old(self).wf(),
        ensures
            final(self).wf(),
            found == (first_match(old(self).entries_spec(), package@, wanted@, 0) < old(self).entries_spec().len()),
            final(self).entries_spec() == marked(old(self).entries_spec(), package@, wanted@),
    {
        let ghost entries = self.entries_spec();
        let mut i: usize = 0;
        while i < self.entries.len()
            invariant
                self.entries.len() == self.used.len(),
                entries == self.entries_spec(),
                entries == old(self).entries_spec(),
                i <= entries.len(),
                first_match(entries, package@, wanted@, 0) == first_match(entries, package@, wanted@, i as int),
            decreases entries.len() - i,
        {
            let entry = &self.entries[i];
            let matches = str_eq(entry.package.as_str(), package) && match (&entry.rule, &wanted) {
                (Rule::Lints, Wanted::Lints) => true,
                (Rule::Package(field), Wanted::Package(wanted_field)) => str_eq(field, wanted_field),
                (Rule::Dependency(name), Wanted::Dependency(wanted_name)) => str_eq(name.as_str(), wanted_name),
                _ => false,
            };
            assert(matches == entry_matches(entries[i as int], package@, wanted@));
            if matches {
                proof {
                    lemma_first_match_bounds(entries, package@, wanted@, 0);
                }
                self.used.set(i, true);
                assert(self.entries_spec() =~= marked(entries, package@, wanted@));
                return true;
            }
            i = i + 1;
        }
        assert(self.entries_spec() =~= marked(entries, package@, wanted@));
        false
    }

    /// Whether `package` is excused from inheriting the workspace lints.
    pub fn allows_lints(&mut self, package: &str) -> (allowed: bool)
        requires
            old(self).wf(),
        ensures
            final(self).wf(),
            allowed == (first_match(old(self).entries_spec(), package@, RuleView::Lints, 0) < old(self).entries_spec().len()),
            final(self).entries_spec() == marked(old(self).entries_spec(), package@, RuleView::Lints),
    {
        self.mark(package, Wanted::Lints)
    }

    /// Whether `package` is excused from inheriting `field` from `[workspace.package]`.
    pub fn allows_package_field(&mut self, package: &str, field: &str) -> (allowed: bool)
        requires
            old(self).wf(),
        ensures
            final(self).wf(),
            allowed == (first_match(old(self).entries_spec(), package@, RuleView::Package(field@), 0) < old(self).entries_spec().len()),
            final(self).entries_spec() == marked(old(self).entries_spec(), package@, RuleView::Package(field@)),
    {
        self.mark(package, Wanted::Package(field))
    }

    /// Whether `package` is excused from inheriting `dependency` from the workspace.
    pub fn allows_dependency(&mut self, package: &str, dependency: &str) -> (allowed: bool)
        requires
            old(self).wf(),
        ensures
            final(self).wf(),
            allowed == (first_match(old(self).entries_spec(), package@, RuleView::Dependency(dependency@), 0) < old(self).entries_spec().len()),
            final(self).entries_spec() == marked(old(self).entries_spec(), package@, RuleView::Dependency(dependency@)),
    {
        self.mark(package, Wanted::Dependency(dependency))
    }

    /// Report every exemption that excused nothing.
    pub fn report_unused(&self, path: &str, violations: &mut Vec<Violation>)
        requires
            self.wf(),
        ensures
            violation_views(final(violations)@) == violation_views(old(violations)@) + unused_reports(self.entries_spec(), path@),
    {
        let ghost entries = self.entries_spec();
        let mut i: usize = 0;
        while i < self.entries.len()
            invariant
                self.entries.len() == self.used.len(),
                entries == self.entries_spec(),
                i <= entries.len(),
                violation_views(violations@) == violation_views(old(violations)@) + unused_reports(entries.take(i as int), path@),
            decreases entries.len() - i,
        {
            assert(entries.take(i + 1).drop_last() =~= entries.take(i as int));
            if !self.used[i] {
                let entry = &self.entries[i];
                let mut message = String::from_str("the exemption of `");
                message.append(entry.package.as_str());
                message.append("` from `");
                let rule = entry.rule.to_string();
                message.append(rule.as_str());
                message.append("` is no longer needed");
                push(violations, path, message);
            }
            i = i + 1;
        }
        assert(entries.take(entries.len() as int) =~= entries);
    }
}

} // verus!
