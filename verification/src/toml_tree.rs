//! A plain tree of configuration values, and the trusted parser that builds
//! one from TOML text.
//!
//! The tree holds only what the schema logic reads: strings, integers,
//! booleans, arrays and tables.  Values of other kinds (floats, datetimes)
//! are carried as [`ConfigValue::Other`] and rejected wherever a typed field
//! is expected.
use vstd::prelude::*;

verus! {

/// One parsed configuration value.
#[derive(Debug)]
pub enum ConfigValue {
    /// A string.
    Text(String),
    /// An integer.
    Integer(i64),
    /// A boolean.
    Boolean(bool),
    /// An array of values.
    Array(Vec<ConfigValue>),
    /// A table: key-value pairs in the order the parser hands them back.
    /// TOML guarantees the keys of one table are distinct.
    Table(Vec<(String, ConfigValue)>),
    /// A value of a kind the schema never reads (float, datetime).
    Other,
}

/// The first value bound to `key`, scanning entries front to back.
pub open spec fn spec_table_get(entries: Seq<(String, ConfigValue)>, key: Seq<char>) -> Option<
    ConfigValue,
>
    decreases entries.len(),
{
    if entries.len() == 0 {
        None
    } else if entries[0].0@ == key {
        Some(entries[0].1)
    } else {
        spec_table_get(entries.drop_first(), key)
    }
}

/// Looks `key` up in a table's entries.
pub fn table_get<'a>(entries: &'a Vec<(String, ConfigValue)>, key: &str) -> (r: Option<
    &'a ConfigValue,
>)
    ensures
        match r {
            Some(v) => spec_table_get(entries@, key@) == Some(*v),
            None => spec_table_get(entries@, key@) is None,
        },
{
    let n = entries.len();
    let mut i: usize = 0;
    proof {
        assert(entries@.skip(0) =~= entries@);
    }
    while i < n
        invariant
            i <= n,
            n == entries@.len(),
            spec_table_get(entries@, key@) == spec_table_get(entries@.skip(i as int), key@),
        decreases n - i,
    {
        proof {
            assert(entries@.skip(i as int)[0] == entries@[i as int]);
        }
        if crate::strutil::str_eq(entries[i].0.as_str(), key) {
            return Some(&entries[i].1);
        }
        proof {
            assert(entries@.skip(i as int).drop_first() =~= entries@.skip(i + 1));
        }
        i = i + 1;
    }
    proof {
        assert(entries@.skip(n as int) =~= Seq::<(String, ConfigValue)>::empty());
    }
    None
}

/// What parsing a TOML document yields: the converted tree on success, the
/// parser's message on failure.  A TOML parse is a function of the text
/// alone.
pub uninterp spec fn toml_document(text: Seq<char>) -> Result<ConfigValue, Seq<char>>;

#[verifier::external_type_specification]
#[verifier::external_body]
pub struct ExTomlValue(toml::Value);

/// Relies on toml::Value's variants: each arm moves one payload into the
/// matching tree constructor.
#[verifier::external_body]
fn tree_of_toml_value(v: toml::Value) -> ConfigValue {
    match v {
        toml::Value::String(s) => ConfigValue::Text(s),
        toml::Value::Integer(i) => ConfigValue::Integer(i),
        toml::Value::Boolean(b) => ConfigValue::Boolean(b),
        toml::Value::Array(items) => ConfigValue::Array(
            items.into_iter().map(tree_of_toml_value).collect(),
        ),
        toml::Value::Table(entries) => ConfigValue::Table(
            entries.into_iter().map(|(k, v)| (k, tree_of_toml_value(v))).collect(),
        ),
        _ => ConfigValue::Other,
    }
}

/// Relies on toml::from_str::<toml::Table>: parses a TOML document into a
/// table of values, deterministically in the text; on failure its error
/// message is deterministic in the text as well.
#[verifier::external_body]
pub fn parse_toml_document(text: &str) -> (r: Result<ConfigValue, String>)
    ensures
        r matches Ok(v) ==> toml_document(text@) matches Ok(w) && w == v && v is Table,
        r matches Err(m) ==> toml_document(text@) matches Err(w) && w == m@,
{
    match toml::from_str::<toml::Table>(text) {
        Ok(table) => Ok(ConfigValue::Table(
            table.into_iter().map(|(k, v)| (k, tree_of_toml_value(v))).collect(),
        )),
        Err(err) => Err(err.to_string()),
    }
}

} // verus!
