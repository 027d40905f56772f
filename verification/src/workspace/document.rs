//! The TOML documents the policy is checked against, as the values that the checks read.
//!
//! A document is a table of items in document order, as `toml_edit` parses it. Floats and
//! date-times, which no check reads, are kept only as [`TomlValue::Other`].

use vstd::prelude::*;

use crate::text::str_eq;

verus! {

/// An entry of a TOML table: its key and its item.
pub type Entry = (String, TomlItem);

/// An item of a TOML document.
///
/// Entries without a value are not part of a document's tables.
#[derive(Debug)]
pub enum TomlItem {
    /// A value.
    Value(TomlValue),
    /// A table in its own section.
    Table(Vec<Entry>),
    /// An array of tables, each in its own section.
    ArrayOfTables(Vec<Vec<Entry>>),
}

/// A TOML value.
#[derive(Debug)]
pub enum TomlValue {
    /// A string.
    Str(String),
    /// An integer.
    Integer(i64),
    /// A boolean.
    Boolean(bool),
    /// An array of values.
    Array(Vec<TomlValue>),
    /// A table written inline.
    InlineTable(Vec<Entry>),
    /// A float or a date-time, which no check reads.
    Other,
}

/// The item that the first entry named `key` holds, from index `from` on.
pub open spec fn lookup_from(entries: Seq<Entry>, key: Seq<char>, from: int) -> Option<TomlItem>
    decreases entries.len() - from,
{
    if from < 0 || from >= entries.len() {
        None
    } else if entries[from].0@ == key {
        Some(entries[from].1)
    } else {
        lookup_from(entries, key, from + 1)
    }
}

/// The entries of a table or an inline table.
pub open spec fn table_entries(item: TomlItem) -> Option<Seq<Entry>> {
    match item {
        TomlItem::Table(entries) => Some(entries@),
        TomlItem::Value(TomlValue::InlineTable(entries)) => Some(entries@),
        _ => None,
    }
}

/// The item under `key` in a table or an inline table (`toml_edit::Item::get`).
pub open spec fn get_spec(item: TomlItem, key: Seq<char>) -> Option<TomlItem> {
    match table_entries(item) {
        Some(entries) => lookup_from(entries, key, 0),
        None => None,
    }
}

/// The item at a path of keys below `item`.
pub open spec fn get_path(item: TomlItem, path: Seq<Seq<char>>) -> Option<TomlItem>
    decreases path.len(),
{
    if path.len() == 0 {
        Some(item)
    } else {
        match get_spec(item, path[0]) {
            Some(child) => get_path(child, path.drop_first()),
            None => None,
        }
    }
}

/// The characters of each key of a path.
pub open spec fn path_view(path: Seq<&str>) -> Seq<Seq<char>> {
    path.map_values(|key: &str| key@)
}

/// The string an item holds, if it is a string value.
pub open spec fn as_str_spec(item: Option<TomlItem>) -> Option<Seq<char>> {
    match item {
        Some(TomlItem::Value(TomlValue::Str(s))) => Some(s@),
        _ => None,
    }
}

/// The integer an item holds, if it is an integer value.
pub open spec fn as_integer_spec(item: Option<TomlItem>) -> Option<i64> {
    match item {
        Some(TomlItem::Value(TomlValue::Integer(i))) => Some(i),
        _ => None,
    }
}

/// The boolean an item holds, if it is a boolean value.
pub open spec fn as_bool_spec(item: Option<TomlItem>) -> Option<bool> {
    match item {
        Some(TomlItem::Value(TomlValue::Boolean(b))) => Some(b),
        _ => None,
    }
}

/// The values of an item, if it is an array value.
pub open spec fn as_array_spec(item: Option<TomlItem>) -> Option<Seq<TomlValue>> {
    match item {
        Some(TomlItem::Value(TomlValue::Array(values))) => Some(values@),
        _ => None,
    }
}

/// The entry named `key` among `entries`.
pub(crate) fn lookup<'a>(entries: &'a Vec<Entry>, key: &str) -> (found: Option<&'a TomlItem>)
    ensures
        match found {
            Some(item) => lookup_from(entries@, key@, 0) == Some(*item),
            None => lookup_from(entries@, key@, 0) is None,
        },
{
    let mut i: usize = 0;
    while i < entries.len()
        invariant
            i <= entries@.len(),
            lookup_from(entries@, key@, 0) == lookup_from(entries@, key@, i as int),
        decreases entries@.len() - i,
    {
        if str_eq(entries[i].0.as_str(), key) {
            return Some(&entries[i].1);
        }
        i = i + 1;
    }
    None
}

impl TomlItem {
    /// The item under `key` when this is a table or an inline table.
    pub fn get(&self, key: &str) -> (found: Option<&TomlItem>)
        ensures
            match found {
                Some(item) => get_spec(*self, key@) == Some(*item),
                None => get_spec(*self, key@) is None,
            },
    {
        let entries = match self {
            TomlItem::Table(entries) => entries,
            TomlItem::Value(TomlValue::InlineTable(entries)) => entries,
            _ => return None,
        };
        lookup(entries, key)
    }

    /// The entries of a table or an inline table.
    pub fn as_table_like(&self) -> (entries: Option<&Vec<Entry>>)
        ensures
            match entries {
                Some(e) => table_entries(*self) == Some(e@),
                None => table_entries(*self) is None,
            },
    {
        match self {
            TomlItem::Table(entries) => Some(entries),
            TomlItem::Value(TomlValue::InlineTable(entries)) => Some(entries),
            _ => None,
        }
    }
}

/// The item at `path` below `item`.
pub fn get<'a>(item: &'a TomlItem, path: &[&str]) -> (found: Option<&'a TomlItem>)
    ensures
        match found {
            Some(f) => get_path(*item, path_view(path@)) == Some(*f),
            None => get_path(*item, path_view(path@)) is None,
        },
{
    let mut current = item;
    let mut i: usize = 0;
    assert(path_view(path@).skip(0) =~= path_view(path@));
    while i < path.len()
        invariant
            i <= path@.len(),
            get_path(*item, path_view(path@)) == get_path(*current, path_view(path@).skip(i as int)),
        decreases path@.len() - i,
    {
        let ghost rest = path_view(path@).skip(i as int);
        assert(rest.drop_first() =~= path_view(path@).skip(i + 1));
        assert(rest[0] == path[i as int]@);
        match current.get(path[i]) {
            Some(child) => {
                current = child;
            },
            None => {
                return None;
            },
        }
        i = i + 1;
    }
    assert(path_view(path@).skip(i as int) =~= Seq::<Seq<char>>::empty());
    Some(current)
}

/// The string at `path`, if it is a string value.
pub fn get_str<'a>(item: &'a TomlItem, path: &[&str]) -> (found: Option<&'a str>)
    ensures
        match found {
            Some(s) => as_str_spec(get_path(*item, path_view(path@))) == Some(s@),
            None => as_str_spec(get_path(*item, path_view(path@))) is None,
        },
{
    match get(item, path) {
        Some(TomlItem::Value(TomlValue::Str(s))) => Some(s.as_str()),
        _ => None,
    }
}

/// The integer at `path`, if it is an integer value.
pub fn get_integer(item: &TomlItem, path: &[&str]) -> (found: Option<i64>)
    ensures
        found == as_integer_spec(get_path(*item, path_view(path@))),
{
    match get(item, path) {
        Some(TomlItem::Value(TomlValue::Integer(i))) => Some(*i),
        _ => None,
    }
}

/// The boolean at `path`, if it is a boolean value.
pub fn get_bool(item: &TomlItem, path: &[&str]) -> (found: Option<bool>)
    ensures
        found == as_bool_spec(get_path(*item, path_view(path@))),
{
    match get(item, path) {
        Some(TomlItem::Value(TomlValue::Boolean(b))) => Some(*b),
        _ => None,
    }
}

/// The values at `path`, if it is an array value.
pub fn get_array<'a>(item: &'a TomlItem, path: &[&str]) -> (found: Option<&'a Vec<TomlValue>>)
    ensures
        match found {
            Some(values) => as_array_spec(get_path(*item, path_view(path@))) == Some(values@),
            None => as_array_spec(get_path(*item, path_view(path@))) is None,
        },
{
    match get(item, path) {
        Some(TomlItem::Value(TomlValue::Array(values))) => Some(values),
        _ => None,
    }
}

/// The document that `toml_edit` parses from a text, as the items the checks read, or `None`
/// when the text is not a TOML document.
pub uninterp spec fn toml_document(text: Seq<char>) -> Option<TomlItem>;

/// How `toml_edit` describes why a text is not a TOML document.
pub uninterp spec fn toml_error(text: Seq<char>) -> Seq<char>;

/// The items of a parsed table, in document order.
#[verifier::external_body]
fn table_of(table: &toml_edit::Table) -> Vec<Entry> {
    table.iter().map(|(key, item)| (key.to_owned(), item_of(item))).collect()
}

/// The items of a parsed inline table, in document order.
#[verifier::external_body]
fn inline_table_of(table: &toml_edit::InlineTable) -> Vec<Entry> {
    table.iter().map(|(key, value)| (key.to_owned(), TomlItem::Value(value_of(value)))).collect()
}

/// A parsed item. Tables skip the empty items that only `toml_edit` keeps.
#[verifier::external_body]
fn item_of(item: &toml_edit::Item) -> TomlItem {
    match item {
        toml_edit::Item::Value(value) => TomlItem::Value(value_of(value)),
        toml_edit::Item::Table(table) => TomlItem::Table(table_of(table)),
        toml_edit::Item::ArrayOfTables(tables) => TomlItem::ArrayOfTables(tables.iter().map(table_of).collect()),
        toml_edit::Item::None => TomlItem::Value(TomlValue::Other),
    }
}

/// A parsed value.
#[verifier::external_body]
fn value_of(value: &toml_edit::Value) -> TomlValue {
    match value {
        toml_edit::Value::String(text) => TomlValue::Str(text.value().to_owned()),
        toml_edit::Value::Integer(number) => TomlValue::Integer(*number.value()),
        toml_edit::Value::Boolean(flag) => TomlValue::Boolean(*flag.value()),
        toml_edit::Value::Array(values) => TomlValue::Array(values.iter().map(value_of).collect()),
        toml_edit::Value::InlineTable(table) => TomlValue::InlineTable(inline_table_of(table)),
        toml_edit::Value::Float(_) | toml_edit::Value::Datetime(_) => TomlValue::Other,
    }
}

/// `toml_edit::DocumentMut::from_str`: the document a text holds, or the description of why it
/// holds none.
#[verifier::external_body]
fn parse_toml(text: &str) -> (parsed: Result<TomlItem, String>)
    ensures
        match parsed {
            Ok(document) => toml_document(text@) == Some(document),
            Err(message) => toml_document(text@) is None && message@ == toml_error(text@),
        },
{
    match text.parse::<toml_edit::DocumentMut>() {
        Ok(document) => Ok(TomlItem::Table(table_of(document.as_table()))),
        Err(error) => Err(error.to_string()),
    }
}

/// A project file that is not valid TOML.
#[derive(Clone, Debug, Eq, PartialEq)]
pub struct ParseFailure {
    /// The file that could not be parsed.
    pub path: String,
    /// The reason the file could not be parsed.
    pub message: String,
}

impl ParseFailure {
    /// The failure as it is displayed: `failed to parse {path}: {message}`.
    pub fn to_string(&self) -> (text: String)
        ensures
            text@ == "failed to parse "@ + self.path@ + ": "@ + self.message@,
    {
        let mut text = String::from_str("failed to parse ");
        text.append(self.path.as_str());
        text.append(": ");
        text.append(self.message.as_str());
        text
    }
}

/// Parse the contents `source` of the project file at `path`.
pub fn parse(path: &str, source: &str) -> (document: Result<TomlItem, ParseFailure>)
    ensures
        match document {
            Ok(item) => toml_document(source@) == Some(item),
            Err(failure) => toml_document(source@) is None && failure.path@ == path@
                && failure.message@ == toml_error(source@),
        },
{
    match parse_toml(source) {
        Ok(item) => Ok(item),
        Err(message) => Err(ParseFailure { path: path.to_owned(), message }),
    }
}

} // verus!
