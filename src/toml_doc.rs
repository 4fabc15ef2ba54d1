//! The parts of the `toml` crate that the configuration logic relies on.
//!
//! A document is seen through its top-level fields: each key maps to the text
//! of its value where that value is a string, and to `None` where it is of
//! another kind (a number, a table, ...).
use vstd::prelude::*;

verus! {

#[verifier::external_type_specification]
#[verifier::external_body]
#[verifier::reject_recursive_types(K)]
#[verifier::reject_recursive_types(V)]
pub struct ExTomlMap<K, V>(toml::map::Map<K, V>);

#[verifier::external_type_specification]
#[verifier::external_body]
pub struct ExTomlValue(toml::Value);

#[verifier::external_type_specification]
#[verifier::external_body]
pub struct ExTomlDeError(toml::de::Error);

#[verifier::external_type_specification]
#[verifier::external_body]
pub struct ExTomlSerError(toml::ser::Error);

/// The top-level fields of a table (string values as text, other kinds as `None`).
pub uninterp spec fn table_fields(t: toml::Table) -> Map<Seq<char>, Option<Seq<char>>>;

/// The top-level fields of a text read as a TOML document, or `None` where the
/// text is not one.
pub uninterp spec fn parsed_fields(text: Seq<char>) -> Option<Map<Seq<char>, Option<Seq<char>>>>;

/// The pretty text that `toml` writes for a table of string fields.
pub uninterp spec fn pretty_text(fields: Map<Seq<char>, Option<Seq<char>>>) -> Seq<char>;

/// Relies on `toml::Table::new`: a table with no fields.
#[verifier::external_body]
pub(crate) fn new_table() -> (r: toml::Table)
    ensures
        table_fields(r) =~= Map::empty(),
{
    toml::Table::new()
}

/// Relies on `toml::Table::insert`: the key now holds the string, the other
/// fields are kept.
#[verifier::external_body]
pub(crate) fn put_string(t: &mut toml::Table, key: &str, value: &str)
    ensures
        table_fields(*final(t)) == table_fields(*old(t)).insert(key@, Some(value@)),
{
    t.insert(key.to_string(), toml::Value::String(value.to_string()));
}

/// Relies on `toml::Table::get`: what the key holds, if anything, told apart
/// by whether it is a string.
#[verifier::external_body]
pub(crate) fn field(t: &toml::Table, key: &str) -> (r: Option<Option<String>>)
    ensures
        r is Some <==> table_fields(*t).contains_key(key@),
        r is Some ==> (match r->Some_0 {
            Some(s) => table_fields(*t)[key@] == Some(s@),
            None => table_fields(*t)[key@] is None,
        }),
{
    match t.get(key) {
        None => None,
        Some(toml::Value::String(s)) => Some(Some(s.clone())),
        Some(_) => Some(None),
    }
}

/// Relies on `toml::from_str`, read into a table: it succeeds exactly on the
/// texts that are TOML documents, and the table holds their fields.
#[verifier::external_body]
pub(crate) fn parse_table(text: &str) -> (r: Result<toml::Table, toml::de::Error>)
    ensures
        r is Ok <==> parsed_fields(text@) is Some,
        r is Ok ==> table_fields(r->Ok_0) == parsed_fields(text@)->Some_0,
{
    toml::from_str::<toml::Table>(text)
}

/// Relies on `toml::de::Error::message`: the reason a text was refused.
#[verifier::external_body]
pub(crate) fn parse_error_message(e: &toml::de::Error) -> (r: String) {
    e.message().to_string()
}

/// Relies on `toml::to_string_pretty` on a table whose values are all strings:
/// such a table is always written, according to its fields alone.
#[verifier::external_body]
pub(crate) fn to_pretty(t: &toml::Table) -> (r: Result<String, toml::ser::Error>)
    requires
        forall|k: Seq<char>| #[trigger] table_fields(*t).contains_key(k) ==> table_fields(*t)[k] is Some,
    ensures
        r is Ok,
        r is Ok ==> r->Ok_0@ == pretty_text(table_fields(*t)),
{
    toml::to_string_pretty(t)
}

} // verus!
