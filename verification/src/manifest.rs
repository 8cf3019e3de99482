use vstd::prelude::*;

verus! {

/// The map type of the `toml` crate, whose `Table` is a map from keys to values.
#[verifier::external_type_specification]
#[verifier::external_body]
#[verifier::reject_recursive_types(K)]
#[verifier::reject_recursive_types(V)]
pub struct ExTomlMap<K, V>(toml::map::Map<K, V>);

/// A TOML value of the `toml` crate.
#[verifier::external_type_specification]
#[verifier::external_body]
pub struct ExTomlValue(toml::Value);

/// The parse error of the `toml` crate.
#[verifier::external_type_specification]
#[verifier::external_body]
pub struct ExTomlError(toml::de::Error);

/// Name for what a TOML table holds at its top level: each key, with the
/// text of its value where that value is a string, and `None` where it is
/// a value of another kind.
pub uninterp spec fn table_string_entries(t: toml::Table) -> Map<Seq<char>, Option<Seq<char>>>;

/// Name for what the `toml` crate reads from a text as a table: `None`
/// where the text is not a TOML document, else the top level of the table
/// in the form that `table_string_entries` gives.
pub uninterp spec fn toml_document(raw: Seq<char>) -> Option<Map<Seq<char>, Option<Seq<char>>>>;

/// Calls `<toml::Table as FromStr>::from_str` (`str::parse`). The parse fails
/// exactly where `toml_document` has no table, and otherwise the table
/// holds what `toml_document` names; what a table holds beyond its
/// top-level strings is left unsaid.
#[verifier::external_body]
fn parse_table(raw: &str) -> (res: Result<toml::Table, toml::de::Error>)
    ensures
        res is Ok <==> toml_document(raw@) is Some,
        res matches Ok(t) ==> toml_document(raw@) == Some(table_string_entries(t)),
{
    raw.parse::<toml::Table>()
}

/// Calls `toml::map::Map::get` and then `toml::Value::as_str` on what it
/// finds: `None` where the key is absent, `Some(None)` where its value is
/// not a string, and `Some(Some(text))` where it is the string `text`.
#[verifier::external_body]
fn table_string_value(t: &toml::Table, key: &str) -> (res: Option<Option<String>>)
    ensures
        res.deep_view() == if table_string_entries(*t).dom().contains(key@) {
            Some(table_string_entries(*t)[key@])
        } else {
            None::<Option<Seq<char>>>
        },
{
    t.get(key).map(|v| v.as_str().map(|s| s.to_owned()))
}

/// Why a workspace manifest could not be read.
#[derive(Clone, Copy, Debug, PartialEq, Eq, Structural)]
pub enum ManifestError {
    /// The text is not a TOML document.
    NotToml,
}

/// The workspace that a manifest's top level names: the string under the
/// key `workspace`, where there is one.
pub open spec fn workspace_entry(entries: Map<Seq<char>, Option<Seq<char>>>) -> Option<Seq<char>> {
    if entries.dom().contains("workspace"@) {
        entries["workspace"@]
    } else {
        None
    }
}

/// The workspace that a parsed manifest names: the value under `workspace`
/// where that value is a string, else none.
pub fn workspace_from_table(table: &toml::Table) -> (res: Option<String>)
    ensures
        res.deep_view() == workspace_entry(table_string_entries(*table)),
{
    match table_string_value(table, "workspace") {
        Some(Some(w)) => Some(w),
        _ => None,
    }
}

/// Reads the workspace name from the text of a `scampi.toml` manifest.
pub fn workspace_from_manifest(raw: &str) -> (res: Result<Option<String>, ManifestError>)
    ensures
        match toml_document(raw@) {
            None => res == Err::<Option<String>, ManifestError>(ManifestError::NotToml),
            Some(entries) => res is Ok && res->Ok_0.deep_view() == workspace_entry(entries),
        },
{
    match parse_table(raw) {
        Ok(table) => Ok(workspace_from_table(&table)),
        Err(_) => Err(ManifestError::NotToml),
    }
}

} // verus!
