//! Read-only access to a TOML document through the `toml` crate.
//!
//! A parsed document is a `toml::Value`.  The logic sees a value through its view: a
//! string, a boolean, a table (its entries in the order in which the table hands them
//! out) or anything else.  A view holds no hash state, so the same text always reads
//! to the same view.
use vstd::prelude::*;

verus! {

#[verifier::external_type_specification]
#[verifier::external_body]
pub struct ExTomlValue(toml::Value);

#[verifier::external_type_specification]
#[verifier::external_body]
#[verifier::reject_recursive_types(K)]
#[verifier::reject_recursive_types(V)]
pub struct ExTomlMap<K, V>(toml::map::Map<K, V>);

/// What the logic can tell about a TOML value.
pub enum TomlView {
    /// `Value::String`, with its text.
    Str(Seq<char>),
    /// `Value::Boolean`.
    Bool(bool),
    /// `Value::Table` (a standard or an inline table), with its entries in the order in
    /// which the table hands them out.
    Table(Seq<(Seq<char>, TomlView)>),
    /// Any other kind of value (number, date, array).
    Other,
}

/// The view of the document that `toml::from_str::<toml::Value>` reads from `text`;
/// `None` where it reports an error.
pub uninterp spec fn toml_read_view(text: Seq<char>) -> Option<TomlView>;

/// The view of a `toml::Value`.
pub uninterp spec fn value_view(v: toml::Value) -> TomlView;

/// The entries of a `toml::Table`, as views, in the order in which the table hands them
/// out.
pub uninterp spec fn map_view(t: toml::Table) -> Seq<(Seq<char>, TomlView)>;

/// The value stored under the first entry with key `k`.
pub open spec fn lookup_value(es: Seq<(Seq<char>, TomlView)>, k: Seq<char>) -> Option<TomlView>
    decreases es.len(),
{
    if es.len() == 0 {
        None
    } else if es[0].0 == k {
        Some(es[0].1)
    } else {
        lookup_value(es.drop_first(), k)
    }
}

/// `Value::get` with a string index: the entry of a table, `None` for any other value.
pub open spec fn value_get(v: TomlView, k: Seq<char>) -> Option<TomlView> {
    match v {
        TomlView::Table(es) => lookup_value(es, k),
        _ => None,
    }
}

/// `Option::and_then(|v| v.get(k))`.
pub open spec fn get_in(v: Option<TomlView>, k: Seq<char>) -> Option<TomlView> {
    match v {
        Some(x) => value_get(x, k),
        None => None,
    }
}

/// The text of a string value.
pub open spec fn str_of(v: Option<TomlView>) -> Option<Seq<char>> {
    match v {
        Some(TomlView::Str(s)) => Some(s),
        _ => None,
    }
}

/// The truth value of a boolean value.
pub open spec fn bool_of(v: Option<TomlView>) -> Option<bool> {
    match v {
        Some(TomlView::Bool(b)) => Some(b),
        _ => None,
    }
}

/// The entries of a table value.
pub open spec fn table_of(v: Option<TomlView>) -> Option<Seq<(Seq<char>, TomlView)>> {
    match v {
        Some(TomlView::Table(es)) => Some(es),
        _ => None,
    }
}

/// The view of an optional value.
pub open spec fn opt_value_view(v: Option<&toml::Value>) -> Option<TomlView> {
    match v {
        Some(x) => Some(value_view(*x)),
        None => None,
    }
}

/// Parses `text` as a TOML document with `toml::from_str::<toml::Value>`, dropping the
/// error.  What it reads is the view named `toml_read_view`.
#[verifier::external_body]
pub(crate) fn parse_value(text: &str) -> (r: Option<toml::Value>)
    ensures
        match r {
            Some(v) => toml_read_view(text@) == Some(value_view(v)),
            None => toml_read_view(text@) is None,
        },
{
    toml::from_str::<toml::Value>(text).ok()
}

/// `Value::get(key)`: the value under `key` when `v` is a table, `None` otherwise
/// (the crate's `Index for str` matches `Value::Table` and looks the key up).
#[verifier::external_body]
pub(crate) fn get<'a>(v: &'a toml::Value, key: &str) -> (r: Option<&'a toml::Value>)
    ensures
        opt_value_view(r) == value_get(value_view(*v), key@),
{
    v.get(key)
}

/// `Value::as_str`: the text of a `Value::String`, `None` for any other value.
#[verifier::external_body]
pub(crate) fn as_str<'a>(v: &'a toml::Value) -> (r: Option<&'a str>)
    ensures
        match value_view(*v) {
            TomlView::Str(s) => r matches Some(y) && y@ == s,
            _ => r is None,
        },
{
    v.as_str()
}

/// `Value::as_bool`: the truth value of a `Value::Boolean`, `None` for any other value.
#[verifier::external_body]
pub(crate) fn as_bool(v: &toml::Value) -> (r: Option<bool>)
    ensures
        match value_view(*v) {
            TomlView::Bool(b) => r == Some(b),
            _ => r is None,
        },
{
    v.as_bool()
}

/// `Value::as_table`: the table of a `Value::Table`, `None` for any other value.
#[verifier::external_body]
pub(crate) fn as_table<'a>(v: &'a toml::Value) -> (r: Option<&'a toml::Table>)
    ensures
        match value_view(*v) {
            TomlView::Table(es) => r matches Some(y) && map_view(*y) == es,
            _ => r is None,
        },
{
    v.as_table()
}

/// The keys of a table, in the order of `Map::iter` (each key converted to a `String`).
/// A map holds each key once.
#[verifier::external_body]
pub(crate) fn keys(t: &toml::Table) -> (r: Vec<String>)
    ensures
        r@.len() == map_view(*t).len(),
        forall|i: int| 0 <= i < r@.len() ==> #[trigger] r@[i]@ == map_view(*t)[i].0,
        forall|i: int, j: int| 0 <= i < j < r@.len() ==> r@[i]@ != r@[j]@,
{
    t.iter().map(|(k, _)| k.to_string()).collect()
}

/// `Map::get(key)`: the value stored under `key`.
#[verifier::external_body]
pub(crate) fn table_get<'a>(t: &'a toml::Table, key: &str) -> (r: Option<&'a toml::Value>)
    ensures
        opt_value_view(r) == lookup_value(map_view(*t), key@),
{
    t.get(key)
}

} // verus!
