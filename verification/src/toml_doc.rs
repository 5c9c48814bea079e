//! Editing a TOML document through `toml_edit`, which keeps the layout of the text
//! (comments, spacing, order) that it does not touch.
//!
//! The model of a `toml_edit::Table` is the sequence of its stored entries, each the
//! key's text, an `Item` and the stored `Key` (which carries the key's formatting), in
//! the table's order; a stored entry may hold `Item::None`, which the table's readers
//! skip.  An `Item` is seen through its shape.  What lies outside this model (the
//! decor of tables, positions, trailing text) is named but not described.
//!
//! Two parses of one text give documents whose tables differ in their hash state, so
//! a parse is named as a relation between the text and the document, not as a
//! function of the text.
use vstd::prelude::*;

verus! {

#[verifier::external_type_specification]
#[verifier::external_body]
pub struct ExDocumentMut(toml_edit::DocumentMut);

#[verifier::external_type_specification]
#[verifier::external_body]
pub struct ExTable(toml_edit::Table);

#[verifier::external_type_specification]
#[verifier::external_body]
pub struct ExItem(toml_edit::Item);

#[verifier::external_type_specification]
#[verifier::external_body]
pub struct ExKey(toml_edit::Key);

/// What the logic can tell about a `toml_edit::Item`.
pub enum ItemShape {
    /// `Item::None`: a stored slot that readers skip.
    Empty,
    /// `Item::Value(Value::String(..))`, with its text.
    Str(Seq<char>),
    /// `Item::Value(Value::Boolean(..))`, with its truth value.
    Bool(bool),
    /// `Item::Table(..)`, with the table.
    Table(toml_edit::Table),
    /// `Item::ArrayOfTables(..)`.
    ArrayOfTables,
    /// `Item::Value(Value::InlineTable(..))`, with the standard table that
    /// `Item::into_table` makes of it (the same entries, with their formatting reset).
    InlineTable(toml_edit::Table),
    /// Any other `Item::Value` (number, date, array).
    OtherValue,
}

/// The stored entries of a table: each the key's text, the item, and the stored key
/// (which carries the key's formatting).
pub type Entries = Seq<(Seq<char>, toml_edit::Item, toml_edit::Key)>;

/// Keys with the items to set under them, in order.
pub type Pairs = Seq<(Seq<char>, toml_edit::Item)>;

/// The message of the error that `text.parse::<DocumentMut>()` reports for `text`, or
/// `None` where the text parses.
pub uninterp spec fn toml_edit_error(text: Seq<char>) -> Option<Seq<char>>;

/// Whether `d` is one of the documents that `text.parse::<DocumentMut>()` gives for
/// `text`.  Two parses of one text give documents whose tables differ in their hash
/// state, so the parse is named as a relation; nothing else is claimed of it.
pub uninterp spec fn parsed_from(text: Seq<char>, d: toml_edit::DocumentMut) -> bool;

/// The text that `DocumentMut::to_string` writes for a document.
pub uninterp spec fn toml_edit_render(d: toml_edit::DocumentMut) -> Seq<char>;

/// The root table of a document.
pub uninterp spec fn doc_root(d: toml_edit::DocumentMut) -> toml_edit::Table;

/// The whitespace and comments after the last element of a document.
pub uninterp spec fn doc_trailing(d: toml_edit::DocumentMut) -> Seq<char>;

/// The stored entries of a table, in the table's order.
pub uninterp spec fn table_entries(t: toml_edit::Table) -> Entries;

/// A table with its entries left out: its decor, position and flags.
pub uninterp spec fn table_frame(t: toml_edit::Table) -> toml_edit::Table;

/// The shape of an item.
pub uninterp spec fn item_shape(i: toml_edit::Item) -> ItemShape;

/// The key that `Key::new(k)` makes: the text `k`, with no formatting of its own.  A
/// table stores it for an entry that `table[k] = ..` or `Table::insert` adds.
pub uninterp spec fn new_key(k: Seq<char>) -> toml_edit::Key;

/// The key `key` after `Key::fmt`: its representation and decor reset.
pub uninterp spec fn refreshed_key(key: toml_edit::Key) -> toml_edit::Key;

/// The item that `toml_edit::value(s)` builds for a string `s`.
pub uninterp spec fn string_item(s: Seq<char>) -> toml_edit::Item;

/// The item that `toml_edit::value(b)` builds for a boolean `b`.
pub uninterp spec fn boolean_item(b: bool) -> toml_edit::Item;

/// The entries of a document's root table.
pub open spec fn doc_entries(d: toml_edit::DocumentMut) -> Entries {
    table_entries(doc_root(d))
}

/// No table of `es`, nor any table stored under one of its keys, holds a key twice (a
/// table keeps its entries in an `IndexMap`).
pub open spec fn tables_distinct(es: Entries) -> bool {
    &&& distinct_keys(es)
    &&& forall|k: Seq<char>|
        #[trigger] table_like(get_live(es, k)) matches Some(t) ==> distinct_keys(table_entries(t))
}

/// `d` is a document that `text` parses to.
pub open spec fn parses_to(text: Seq<char>, d: toml_edit::DocumentMut) -> bool {
    &&& toml_edit_error(text) is None
    &&& parsed_from(text, d)
    &&& tables_distinct(doc_entries(d))
}

/// The table of a table item, standard or inline (as `Item::into_table` gives it).
pub open spec fn table_like(i: Option<toml_edit::Item>) -> Option<toml_edit::Table> {
    match i {
        Some(x) => match item_shape(x) {
            ItemShape::Table(t) => Some(t),
            ItemShape::InlineTable(t) => Some(t),
            _ => None,
        },
        None => None,
    }
}

/// Two documents that differ at most in the entries of their root table.
pub open spec fn same_frame(d1: toml_edit::DocumentMut, d2: toml_edit::DocumentMut) -> bool {
    &&& doc_trailing(d1) == doc_trailing(d2)
    &&& table_frame(doc_root(d1)) == table_frame(doc_root(d2))
}

/// An item that readers see (anything but `Item::None`).
pub open spec fn is_live(i: toml_edit::Item) -> bool {
    !(item_shape(i) is Empty)
}

/// The item of the first entry with key `k`.
pub open spec fn lookup(es: Entries, k: Seq<char>) -> Option<toml_edit::Item>
    decreases es.len(),
{
    if es.len() == 0 {
        None
    } else if es[0].0 == k {
        Some(es[0].1)
    } else {
        lookup(es.drop_first(), k)
    }
}

/// What `Table::get(k)` gives: the item under `k`, unless it is `Item::None`.
pub open spec fn get_live(es: Entries, k: Seq<char>) -> Option<toml_edit::Item> {
    match lookup(es, k) {
        Some(i) => if is_live(i) {
            Some(i)
        } else {
            None
        },
        None => None,
    }
}

/// `es` without its entries with key `k` (`Table::remove`).
pub open spec fn without_key(es: Entries, k: Seq<char>) -> Entries
    decreases es.len(),
{
    if es.len() == 0 {
        es
    } else if es[0].0 == k {
        without_key(es.drop_first(), k)
    } else {
        seq![es[0]] + without_key(es.drop_first(), k)
    }
}

/// `es` with the item under `k` replaced by `x` in place, or `k` and `x` appended with
/// a new key when no entry has key `k`; a replaced entry's stored key is kept, or
/// reformatted where `refresh` holds.
pub open spec fn set_entry(es: Entries, k: Seq<char>, x: toml_edit::Item, refresh: bool) -> Entries
    decreases es.len(),
{
    if es.len() == 0 {
        seq![(k, x, new_key(k))]
    } else if es[0].0 == k {
        es.update(
            0,
            (
                k,
                x,
                if refresh {
                    refreshed_key(es[0].2)
                } else {
                    es[0].2
                },
            ),
        )
    } else {
        seq![es[0]] + set_entry(es.drop_first(), k, x, refresh)
    }
}

/// The stored key of the first entry with key `k`.
pub open spec fn stored_key(es: Entries, k: Seq<char>) -> Option<toml_edit::Key>
    decreases es.len(),
{
    if es.len() == 0 {
        None
    } else if es[0].0 == k {
        Some(es[0].2)
    } else {
        stored_key(es.drop_first(), k)
    }
}

/// `table[k] = x`: the stored key of a replaced entry is kept.
pub open spec fn with_key(es: Entries, k: Seq<char>, x: toml_edit::Item) -> Entries {
    set_entry(es, k, x, false)
}

/// `Table::insert(k, x)`: the stored key of a replaced entry is reformatted.
pub open spec fn with_key_refreshed(es: Entries, k: Seq<char>, x: toml_edit::Item) -> Entries {
    set_entry(es, k, x, true)
}

/// The keys of the entries that readers see, in order (what `Table::iter` walks).
pub open spec fn live_keys(es: Entries) -> Seq<Seq<char>>
    decreases es.len(),
{
    if es.len() == 0 {
        seq![]
    } else if is_live(es[0].1) {
        seq![es[0].0] + live_keys(es.drop_first())
    } else {
        live_keys(es.drop_first())
    }
}

/// Some entry is seen by readers (`!Table::is_empty()`).
pub open spec fn has_live(es: Entries) -> bool {
    exists|i: int| 0 <= i < es.len() && is_live(#[trigger] es[i].1)
}

/// No two entries share a key.
pub open spec fn distinct_keys(es: Entries) -> bool {
    forall|i: int, j: int| 0 <= i < j < es.len() ==> es[i].0 != es[j].0
}

/// `es` after removing the keys of `ks` one after the other.
pub open spec fn without_keys(es: Entries, ks: Seq<Seq<char>>) -> Entries
    decreases ks.len(),
{
    if ks.len() == 0 {
        es
    } else {
        without_key(without_keys(es, ks.drop_last()), ks.last())
    }
}

/// `es` after inserting each pair of `ps` in turn (`Table::insert`).
pub open spec fn put_all(es: Entries, ps: Pairs) -> Entries
    decreases ps.len(),
{
    if ps.len() == 0 {
        es
    } else {
        let p = ps.last();
        with_key_refreshed(put_all(es, ps.drop_last()), p.0, p.1)
    }
}

/// The text of a string item.
pub open spec fn str_item_text(i: Option<toml_edit::Item>) -> Option<Seq<char>> {
    match i {
        Some(x) => match item_shape(x) {
            ItemShape::Str(s) => Some(s),
            _ => None,
        },
        None => None,
    }
}

/// The table of a table item.
pub open spec fn table_item(i: Option<toml_edit::Item>) -> Option<toml_edit::Table> {
    match i {
        Some(x) => match item_shape(x) {
            ItemShape::Table(t) => Some(t),
            _ => None,
        },
        None => None,
    }
}

/// `after` is `before` with the item under `k` replaced by a table that holds `es` and
/// has the frame `frame`.
pub open spec fn set_to_table(
    before: Entries,
    after: Entries,
    k: Seq<char>,
    es: Entries,
    frame: toml_edit::Table,
) -> bool {
    set_to_table_by(before, after, k, es, frame, false)
}

/// Like `set_to_table`, with the stored key of a replaced entry reformatted where
/// `refresh` holds (`Table::insert`).
pub open spec fn set_to_table_by(
    before: Entries,
    after: Entries,
    k: Seq<char>,
    es: Entries,
    frame: toml_edit::Table,
    refresh: bool,
) -> bool {
    &&& lookup(after, k) is Some
    &&& after == set_entry(before, k, lookup(after, k)->0, refresh)
    &&& table_item(lookup(after, k)) is Some
    &&& table_entries(table_item(lookup(after, k))->0) == es
    &&& table_frame(table_item(lookup(after, k))->0) == frame
}

// ---------------------------------------------------------------------------------
// Wrappers of toml_edit.
// ---------------------------------------------------------------------------------

/// `text.parse::<DocumentMut>()`, with the error turned into its message.  The tables
/// of a document keep their entries in `IndexMap`s, so no table holds a key twice.
#[verifier::external_body]
pub(crate) fn parse_document(text: &str) -> (r: Result<toml_edit::DocumentMut, String>)
    ensures
        match r {
            Ok(d) => toml_edit_error(text@) is None && parsed_from(text@, d) && tables_distinct(
                doc_entries(d),
            ),
            Err(m) => toml_edit_error(text@) == Some(m@),
        },
{
    text.parse::<toml_edit::DocumentMut>().map_err(|e| e.to_string())
}

/// `DocumentMut::to_string`.
#[verifier::external_body]
pub(crate) fn render_document(d: &toml_edit::DocumentMut) -> (r: String)
    ensures
        r@ == toml_edit_render(*d),
{
    d.to_string()
}

/// `Table::get` on the root table of a document.
#[verifier::external_body]
pub(crate) fn doc_get<'a>(d: &'a toml_edit::DocumentMut, key: &str) -> (r: Option<&'a toml_edit::Item>)
    ensures
        match get_live(table_entries(doc_root(*d)), key@) {
            Some(x) => r matches Some(y) && *y == x,
            None => r is None,
        },
{
    d.get(key)
}

/// `Table::remove` on the root table of a document.
#[verifier::external_body]
pub(crate) fn doc_remove(d: &mut toml_edit::DocumentMut, key: &str)
    ensures
        table_entries(doc_root(*final(d))) == without_key(table_entries(doc_root(*old(d))), key@),
        doc_trailing(*final(d)) == doc_trailing(*old(d)),
        table_frame(doc_root(*final(d))) == table_frame(doc_root(*old(d))),
{
    d.remove(key);
}

/// `doc[key] = item`: replaces the stored item under `key` in place, or appends the
/// entry.
#[verifier::external_body]
pub(crate) fn doc_set(d: &mut toml_edit::DocumentMut, key: &str, item: toml_edit::Item)
    ensures
        table_entries(doc_root(*final(d))) == with_key(table_entries(doc_root(*old(d))), key@, item),
        stored_key(table_entries(doc_root(*final(d))), key@) == Some(
            match stored_key(table_entries(doc_root(*old(d))), key@) {
                Some(k) => k,
                None => new_key(key@),
            },
        ),
        doc_trailing(*final(d)) == doc_trailing(*old(d)),
        table_frame(doc_root(*final(d))) == table_frame(doc_root(*old(d))),
{
    d[key] = item;
}

/// `Table::insert` on the root table of a document: like `doc_set`, and it also
/// reformats the key of an entry that was there.
#[verifier::external_body]
pub(crate) fn doc_insert(d: &mut toml_edit::DocumentMut, key: &str, item: toml_edit::Item)
    ensures
        table_entries(doc_root(*final(d))) == with_key_refreshed(
            table_entries(doc_root(*old(d))),
            key@,
            item,
        ),
        stored_key(table_entries(doc_root(*final(d))), key@) == Some(
            match stored_key(table_entries(doc_root(*old(d))), key@) {
                Some(k) => refreshed_key(k),
                None => new_key(key@),
            },
        ),
        doc_trailing(*final(d)) == doc_trailing(*old(d)),
        table_frame(doc_root(*final(d))) == table_frame(doc_root(*old(d))),
{
    d.insert(key, item);
}

/// The keys that `DocumentMut::iter` walks, in order.  A table holds each key once.
#[verifier::external_body]
pub(crate) fn doc_keys(d: &toml_edit::DocumentMut) -> (r: Vec<String>)
    ensures
        r@.len() == live_keys(table_entries(doc_root(*d))).len(),
        forall|i: int| 0 <= i < r@.len() ==> #[trigger] r@[i]@ == live_keys(
            table_entries(doc_root(*d)),
        )[i],
        forall|i: int, j: int| 0 <= i < j < r@.len() ==> r@[i]@ != r@[j]@,
{
    d.iter().map(|(k, _)| k.to_string()).collect()
}

/// `Table::new()`.
#[verifier::external_body]
pub(crate) fn table_new() -> (r: toml_edit::Table)
    ensures
        table_entries(r) == Seq::<(Seq<char>, toml_edit::Item, toml_edit::Key)>::empty(),
{
    toml_edit::Table::new()
}

/// `Table::get`.
#[verifier::external_body]
pub(crate) fn table_get<'a>(t: &'a toml_edit::Table, key: &str) -> (r: Option<&'a toml_edit::Item>)
    ensures
        match get_live(table_entries(*t), key@) {
            Some(x) => r matches Some(y) && *y == x,
            None => r is None,
        },
{
    t.get(key)
}

/// `Table::remove`.
#[verifier::external_body]
pub(crate) fn table_remove(t: &mut toml_edit::Table, key: &str)
    ensures
        table_entries(*final(t)) == without_key(table_entries(*old(t)), key@),
        table_frame(*final(t)) == table_frame(*old(t)),
{
    t.remove(key);
}

/// `table[key] = item`.
#[verifier::external_body]
pub(crate) fn table_set(t: &mut toml_edit::Table, key: &str, item: toml_edit::Item)
    ensures
        table_entries(*final(t)) == with_key(table_entries(*old(t)), key@, item),
        table_frame(*final(t)) == table_frame(*old(t)),
{
    t[key] = item;
}

/// The keys that `Table::iter` walks, in order.  A table holds each key once.
#[verifier::external_body]
pub(crate) fn table_keys(t: &toml_edit::Table) -> (r: Vec<String>)
    ensures
        r@.len() == live_keys(table_entries(*t)).len(),
        forall|i: int| 0 <= i < r@.len() ==> #[trigger] r@[i]@ == live_keys(table_entries(*t))[i],
        forall|i: int, j: int| 0 <= i < j < r@.len() ==> r@[i]@ != r@[j]@,
{
    t.iter().map(|(k, _)| k.to_string()).collect()
}

/// `Table::is_empty`: no entry that readers see.
#[verifier::external_body]
pub(crate) fn table_is_empty(t: &toml_edit::Table) -> (r: bool)
    ensures
        r == !has_live(table_entries(*t)),
{
    t.is_empty()
}

/// `Item::as_table`: the table of a standard table item; `None` for any other item,
/// an inline table among them.
#[verifier::external_body]
pub(crate) fn item_as_table(i: &toml_edit::Item) -> (r: Option<&toml_edit::Table>)
    ensures
        match item_shape(*i) {
            ItemShape::Table(t) => r matches Some(y) && *y == t,
            _ => r is None,
        },
{
    i.as_table()
}

/// `Item::as_str`: the text of a string value.
#[verifier::external_body]
pub(crate) fn item_as_str(i: &toml_edit::Item) -> (r: Option<&str>)
    ensures
        match item_shape(*i) {
            ItemShape::Str(s) => r matches Some(y) && y@ == s,
            _ => r is None,
        },
{
    i.as_str()
}

/// `Item::into_table`: the table of a table item, the standard table made of an inline
/// table, the item itself otherwise.
#[verifier::external_body]
pub(crate) fn item_into_table(i: toml_edit::Item) -> (r: Result<toml_edit::Table, toml_edit::Item>)
    ensures
        match table_like(Some(i)) {
            Some(t) => r == Ok::<toml_edit::Table, toml_edit::Item>(t),
            None => r == Err::<toml_edit::Table, toml_edit::Item>(i),
        },
{
    i.into_table()
}

/// `Item::Table(t)`.
#[verifier::external_body]
pub(crate) fn item_from_table(t: toml_edit::Table) -> (r: toml_edit::Item)
    ensures
        item_shape(r) == ItemShape::Table(t),
{
    toml_edit::Item::Table(t)
}

/// `Item::clone`: a deep copy.
#[verifier::external_body]
pub(crate) fn item_clone(i: &toml_edit::Item) -> (r: toml_edit::Item)
    ensures
        r == *i,
{
    i.clone()
}

/// `toml_edit::value(s)` for a string: a string value.
#[verifier::external_body]
pub(crate) fn str_value(s: &str) -> (r: toml_edit::Item)
    ensures
        r == string_item(s@),
        item_shape(r) == ItemShape::Str(s@),
{
    toml_edit::value(s)
}

/// `toml_edit::value(b)` for a boolean: a boolean value.
#[verifier::external_body]
pub(crate) fn bool_value(b: bool) -> (r: toml_edit::Item)
    ensures
        r == boolean_item(b),
        item_shape(r) == ItemShape::Bool(b),
{
    toml_edit::value(b)
}

// ---------------------------------------------------------------------------------
// Facts about the entry model.
// ---------------------------------------------------------------------------------

pub proof fn lemma_lookup_set_entry(
    es: Entries,
    k: Seq<char>,
    x: toml_edit::Item,
    refresh: bool,
    q: Seq<char>,
)
    ensures
        lookup(set_entry(es, k, x, refresh), q) == if q == k {
            Some(x)
        } else {
            lookup(es, q)
        },
    decreases es.len(),
{
    let r = set_entry(es, k, x, refresh);
    if es.len() == 0 {
        assert(r[0].0 == k && r[0].1 == x);
        assert(r.drop_first().len() == 0);
        assert(lookup(r.drop_first(), q) is None);
    } else if es[0].0 == k {
        assert(r[0].0 == k && r[0].1 == x);
        if q != k {
            assert(r.drop_first() =~= es.drop_first());
        }
    } else {
        lemma_lookup_set_entry(es.drop_first(), k, x, refresh, q);
        assert(r[0] == es[0]);
        assert(r.drop_first() =~= set_entry(es.drop_first(), k, x, refresh));
    }
}

pub proof fn lemma_lookup_with_key(es: Entries, k: Seq<char>, x: toml_edit::Item, q: Seq<char>)
    ensures
        lookup(with_key(es, k, x), q) == if q == k {
            Some(x)
        } else {
            lookup(es, q)
        },
{
    lemma_lookup_set_entry(es, k, x, false, q);
}

pub proof fn lemma_lookup_with_key_refreshed(
    es: Entries,
    k: Seq<char>,
    x: toml_edit::Item,
    q: Seq<char>,
)
    ensures
        lookup(with_key_refreshed(es, k, x), q) == if q == k {
            Some(x)
        } else {
            lookup(es, q)
        },
{
    lemma_lookup_set_entry(es, k, x, true, q);
}

pub proof fn lemma_lookup_without_key(es: Entries, k: Seq<char>, q: Seq<char>)
    ensures
        lookup(without_key(es, k), q) == if q == k {
            None
        } else {
            lookup(es, q)
        },
    decreases es.len(),
{
    if es.len() == 0 {
    } else if es[0].0 == k {
        lemma_lookup_without_key(es.drop_first(), k, q);
    } else {
        lemma_lookup_without_key(es.drop_first(), k, q);
        let r = without_key(es, k);
        assert(r[0] == es[0]);
        assert(r.drop_first() =~= without_key(es.drop_first(), k));
    }
}

pub proof fn lemma_lookup_without_keys(es: Entries, ks: Seq<Seq<char>>, q: Seq<char>)
    ensures
        lookup(without_keys(es, ks), q) == if ks.contains(q) {
            None
        } else {
            lookup(es, q)
        },
    decreases ks.len(),
{
    if ks.len() > 0 {
        lemma_lookup_without_keys(es, ks.drop_last(), q);
        lemma_lookup_without_key(without_keys(es, ks.drop_last()), ks.last(), q);
        if ks.contains(q) && q != ks.last() {
            let i = choose|i: int| 0 <= i < ks.len() && ks[i] == q;
            assert(ks.drop_last()[i] == q);
        }
        if ks.drop_last().contains(q) {
            let i = choose|i: int| 0 <= i < ks.drop_last().len() && ks.drop_last()[i] == q;
            assert(ks[i] == q);
        }
        if q == ks.last() {
            assert(ks[ks.len() - 1] == q);
        }
    }
}

/// The lookup of a key in `es` after setting the pairs `ps`: the last pair with that
/// key, if any.
pub open spec fn last_put(es: Entries, ps: Pairs, q: Seq<char>) -> Option<toml_edit::Item>
    decreases ps.len(),
{
    if ps.len() == 0 {
        lookup(es, q)
    } else if ps.last().0 == q {
        Some(ps.last().1)
    } else {
        last_put(es, ps.drop_last(), q)
    }
}

pub proof fn lemma_lookup_put_all(es: Entries, ps: Pairs, q: Seq<char>)
    ensures
        lookup(put_all(es, ps), q) == last_put(es, ps, q),
    decreases ps.len(),
{
    if ps.len() > 0 {
        lemma_lookup_put_all(es, ps.drop_last(), q);
        lemma_lookup_with_key_refreshed(put_all(es, ps.drop_last()), ps.last().0, ps.last().1, q);
    }
}

/// Every live key is the key of some entry.
pub proof fn lemma_live_keys_from_entries(es: Entries, q: Seq<char>)
    requires
        live_keys(es).contains(q),
    ensures
        exists|i: int| 0 <= i < es.len() && (#[trigger] es[i]).0 == q,
    decreases es.len(),
{
    let rest = live_keys(es.drop_first());
    if is_live(es[0].1) && es[0].0 == q {
        assert(es[0].0 == q);
    } else {
        if is_live(es[0].1) {
            let l = live_keys(es);
            assert(l =~= seq![es[0].0] + rest);
            let i = choose|i: int| 0 <= i < l.len() && l[i] == q;
            assert(i > 0);
            assert(rest[i - 1] == q);
        }
        lemma_live_keys_from_entries(es.drop_first(), q);
        let j = choose|j: int| 0 <= j < es.drop_first().len() && (#[trigger] es.drop_first()[j]).0 == q;
        assert(es[j + 1] == es.drop_first()[j]);
    }
}

/// In a table whose keys are distinct, a key is seen by readers exactly when it is
/// among the live keys.
pub proof fn lemma_live_keys(es: Entries, q: Seq<char>)
    requires
        distinct_keys(es),
    ensures
        live_keys(es).contains(q) <==> get_live(es, q) is Some,
    decreases es.len(),
{
    if es.len() > 0 {
        let t = es.drop_first();
        assert(distinct_keys(t)) by {
            assert forall|i: int, j: int| 0 <= i < j < t.len() implies t[i].0 != t[j].0 by {
                assert(t[i] == es[i + 1] && t[j] == es[j + 1]);
            }
        }
        lemma_live_keys(t, q);
        let rest = live_keys(t);
        let l = live_keys(es);
        if is_live(es[0].1) {
            assert(l =~= seq![es[0].0] + rest);
            if rest.contains(q) {
                let i = choose|i: int| 0 <= i < rest.len() && rest[i] == q;
                assert(l[i + 1] == q);
            }
            if l.contains(q) && es[0].0 != q {
                let i = choose|i: int| 0 <= i < l.len() && l[i] == q;
                assert(i > 0);
                assert(rest[i - 1] == q);
            }
            if es[0].0 == q {
                assert(l[0] == q);
            }
        } else if es[0].0 == q {
            if rest.contains(q) {
                lemma_live_keys_from_entries(t, q);
                let j = choose|j: int| 0 <= j < t.len() && (#[trigger] t[j]).0 == q;
                assert(es[j + 1] == t[j]);
                assert(es[0].0 != es[j + 1].0);
            }
        }
    }
}

/// Setting a key that no entry has appends the entry.
pub proof fn lemma_with_key_absent(es: Entries, k: Seq<char>, x: toml_edit::Item)
    requires
        lookup(es, k) is None,
    ensures
        with_key(es, k, x) == es.push((k, x, new_key(k))),
    decreases es.len(),
{
    if es.len() > 0 {
        lemma_with_key_absent(es.drop_first(), k, x);
        assert(with_key(es, k, x) =~= es.push((k, x, new_key(k))));
    } else {
        assert(with_key(es, k, x) =~= es.push((k, x, new_key(k))));
    }
}

/// A key that is found is the key of some entry, with the item found.
pub proof fn lemma_lookup_found(es: Entries, k: Seq<char>)
    requires
        lookup(es, k) is Some,
    ensures
        exists|j: int| 0 <= j < es.len() && (#[trigger] es[j]).0 == k && es[j].1 == lookup(es, k)->0,
    decreases es.len(),
{
    if es[0].0 == k {
        assert(es[0].1 == lookup(es, k)->0);
    } else {
        lemma_lookup_found(es.drop_first(), k);
        let j = choose|j: int| 0 <= j < es.drop_first().len() && (#[trigger] es.drop_first()[j]).0 == k && es.drop_first()[j].1 == lookup(es, k)->0;
        assert(es[j + 1] == es.drop_first()[j]);
    }
}

/// A table in which some key reads is not empty.
pub proof fn lemma_get_live_has_live(es: Entries, k: Seq<char>)
    requires
        get_live(es, k) is Some,
    ensures
        has_live(es),
{
    lemma_lookup_found(es, k);
    let j = choose|j: int| 0 <= j < es.len() && (#[trigger] es[j]).0 == k && es[j].1 == lookup(es, k)->0;
    assert(is_live(es[j].1));
}

} // verus!
