//! The manifest of a project: a TOML document whose `dependencies` table
//! gains entries. Reading, changing and writing TOML is the work of the
//! `toml` crate; what is verified here is which calls are made, in what
//! order, and what each failure comes to.

use vstd::prelude::*;

verus! {

/// `toml::Value`, a value of a TOML document. Nothing is known of what is
/// inside one.
#[verifier::external_type_specification]
#[verifier::external_body]
pub struct ExValue(toml::Value);

/// `toml::map::Map`, the table of a TOML document. Nothing is known of what
/// is inside one.
#[verifier::external_type_specification]
#[verifier::external_body]
#[verifier::reject_recursive_types(K)]
#[verifier::reject_recursive_types(V)]
pub struct ExMap<K, V>(toml::map::Map<K, V>);

/// The table that `toml::Value::from_str` reads from the document `text`;
/// none where `text` is no TOML document.
pub uninterp spec fn parsed(text: Seq<char>) -> Option<toml::value::Table>;

/// What `Map::remove` leaves of `table` when the entry `key` is taken out,
/// and the table that stood under `key`; none where nothing stood under
/// `key`, or something that is no table.
pub uninterp spec fn taken(table: toml::value::Table, key: Seq<char>) -> (
    toml::value::Table,
    Option<toml::value::Table>,
);

/// What `Map::insert` makes of `table` when `value` is put under `key`.
pub uninterp spec fn inserted(
    table: toml::value::Table,
    key: Seq<char>,
    value: toml::Value,
) -> toml::value::Table;

/// The TOML string `Value::String` with the characters `text`.
pub uninterp spec fn string_value(text: Seq<char>) -> toml::Value;

/// The TOML value `Value::Table` that holds `table`.
pub uninterp spec fn table_value(table: toml::value::Table) -> toml::Value;

/// The text that `toml::to_string` writes for the document `table`; none
/// where it writes none.
pub uninterp spec fn rendered(table: toml::value::Table) -> Option<Seq<char>>;

/// What goes under a key of a table.
enum Entry {
    Text(String),
    Table(toml::value::Table),
}

/// What a project asks of a dependency.
#[derive(Clone, Debug)]
pub enum Requirement {
    /// Any release that fits the version requirement.
    Version(String),
    /// The keys of a dependency table, written as a TOML document: the
    /// version, and features and other settings.
    Detailed(String),
}

/// A requirement, its text as a character sequence.
pub enum RequirementView {
    Version(Seq<char>),
    Detailed(Seq<char>),
}

impl View for Requirement {
    type V = RequirementView;

    open spec fn view(&self) -> RequirementView {
        match self {
            Requirement::Version(version) => RequirementView::Version(version@),
            Requirement::Detailed(keys) => RequirementView::Detailed(keys@),
        }
    }
}

/// Why a manifest did not get a dependency.
#[derive(Clone, Copy, Debug, PartialEq, Eq, Structural)]
pub enum ManifestError {
    /// The manifest is no TOML document.
    Malformed,
    /// The manifest has no table `dependencies`.
    NoDependencies,
    /// The keys of a detailed requirement are no TOML document.
    MalformedRequirement,
    /// The changed manifest could not be written as TOML.
    Unrenderable,
}

/// The key of the table that holds the dependencies.
pub const DEPENDENCIES: &'static str = "dependencies";

/// The TOML value that stands for `requirement`; none where the keys of a
/// detailed requirement are no TOML document.
pub open spec fn requirement_value(requirement: RequirementView) -> Option<toml::Value> {
    match requirement {
        RequirementView::Version(version) => Some(string_value(version)),
        RequirementView::Detailed(keys) => match parsed(keys) {
            Some(table) => Some(table_value(table)),
            None => None,
        },
    }
}

/// The manifest `manifest` with the dependency `name` set to `requirement`:
/// the document is read, the table `dependencies` is taken out of it, gets
/// the entry `name`, in the place of an old entry of that name, and is put
/// back, and the document is written again.
pub open spec fn manifest_with(
    manifest: Seq<char>,
    name: Seq<char>,
    requirement: RequirementView,
) -> Result<Seq<char>, ManifestError> {
    match parsed(manifest) {
        None => Err(ManifestError::Malformed),
        Some(document) => match taken(document, DEPENDENCIES@) {
            (_, None) => Err(ManifestError::NoDependencies),
            (rest, Some(dependencies)) => match requirement_value(requirement) {
                None => Err(ManifestError::MalformedRequirement),
                Some(value) => match rendered(
                    inserted(
                        rest,
                        DEPENDENCIES@,
                        table_value(inserted(dependencies, name, value)),
                    ),
                ) {
                    Some(text) => Ok(text),
                    None => Err(ManifestError::Unrenderable),
                },
            },
        },
    }
}

/// Calls `toml::Value::from_str`, which reads a whole document, and hands on
/// the table that it read. The table depends on the text alone.
#[verifier::external_body]
fn parse(text: &str) -> (table: Option<toml::value::Table>)
    ensures
        table == parsed(text@),
{
    match text.parse::<toml::Value>() {
        Ok(toml::Value::Table(table)) => Some(table),
        _ => None,
    }
}

/// Calls `Map::remove`, which takes the entry under `key` out of the table;
/// the entry is handed on where it is a table. What is left and what comes
/// out depend on the table and on the key alone.
#[verifier::external_body]
fn take_table(table: &mut toml::value::Table, key: &str) -> (found: Option<toml::value::Table>)
    ensures
        (*final(table), found) == taken(*old(table), key@),
{
    match table.remove(key) {
        Some(toml::Value::Table(found)) => Some(found),
        _ => None,
    }
}

/// Calls `Map::insert`, which puts a value under `key`, in the place of what
/// stood there: a text goes in as `Value::String`, a table as `Value::Table`.
/// The table that results depends on the table, the key and the value alone.
#[verifier::external_body]
fn put(table: &mut toml::value::Table, key: &str, entry: Entry)
    ensures
        *final(table) == inserted(
            *old(table),
            key@,
            match entry {
                Entry::Text(text) => string_value(text@),
                Entry::Table(inner) => table_value(inner),
            },
        ),
{
    let value = match entry {
        Entry::Text(text) => toml::Value::String(text),
        Entry::Table(table) => toml::Value::Table(table),
    };
    table.insert(key.to_owned(), value);
}

/// Calls `toml::to_string` on the document `table`, as a `Value::Table`. The
/// text depends on the table alone.
#[verifier::external_body]
fn render(table: toml::value::Table) -> (text: Option<String>)
    ensures
        match text {
            Some(written) => rendered(table) == Some(written@),
            None => rendered(table) is None,
        },
{
    toml::to_string(&toml::Value::Table(table)).ok()
}

/// The text of the manifest `manifest` once the dependency `name` is set to
/// `requirement` in it.
pub fn upsert_dependency(manifest: &str, name: &str, requirement: &Requirement) -> (result: Result<
    String,
    ManifestError,
>)
    ensures
        match manifest_with(manifest@, name@, requirement@) {
            Ok(text) => result matches Ok(written) && written@ == text,
            Err(error) => result matches Err(e) && e == error,
        },
{
    let mut document = match parse(manifest) {
        Some(document) => document,
        None => {
            return Err(ManifestError::Malformed);
        },
    };
    let mut dependencies = match take_table(&mut document, DEPENDENCIES) {
        Some(dependencies) => dependencies,
        None => {
            return Err(ManifestError::NoDependencies);
        },
    };
    let entry = match requirement {
        Requirement::Version(version) => Entry::Text(version.clone()),
        Requirement::Detailed(keys) => match parse(keys.as_str()) {
            Some(table) => Entry::Table(table),
            None => {
                return Err(ManifestError::MalformedRequirement);
            },
        },
    };
    put(&mut dependencies, name, entry);
    put(&mut document, DEPENDENCIES, Entry::Table(dependencies));
    match render(document) {
        Some(written) => Ok(written),
        None => Err(ManifestError::Unrenderable),
    }
}

} // verus!
