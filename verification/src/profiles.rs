//! Building the two mode profiles from a configuration text, and carrying the common
//! settings from one configuration into another.
use vstd::prelude::*;
use crate::routing::{
    BASE_URL_KEY, BEARER_TOKEN_KEY, EXTERNAL_MODEL, EXTERNAL_PROVIDER_ID, EXTERNAL_URL,
    MODEL_PROVIDERS_KEY, MODEL_PROVIDER_KEY, OFFICIAL_PROVIDER_ID, REQUIRES_AUTH_KEY,
};
use crate::text::str_eq;
use crate::toml_doc::{
    bool_value, boolean_item, doc_entries, doc_get, doc_insert, doc_keys, doc_remove, doc_set,
    get_live, has_live, item_as_str, item_as_table, item_shape, ItemShape, item_clone, item_from_table, item_into_table,
    lemma_lookup_with_key, lemma_lookup_with_key_refreshed, lemma_with_key_absent, live_keys,
    lookup, new_key, parse_document, parses_to, put_all, render_document, same_frame,
    set_to_table, set_to_table_by, str_item_text, str_value, string_item, table_entries,
    table_frame, table_get, table_is_empty, table_item, table_keys, table_like, table_new,
    table_remove, table_set, toml_edit_error, toml_edit_render, with_key, with_key_refreshed,
    without_key, without_keys, Entries, Pairs,
};

verus! {

/// The top-level key that may reroute the official provider to another endpoint.
pub const OPENAI_BASE_URL_KEY: &'static str = "openai_base_url";

/// The top-level model key.
pub const MODEL_KEY: &'static str = "model";

/// The top-level review model key.
pub const REVIEW_MODEL_KEY: &'static str = "review_model";

/// The views of a sequence of strings.
pub open spec fn views(v: Seq<String>) -> Seq<Seq<char>> {
    v.map_values(|s: String| s@)
}

/// `prefix` followed by `m`.
pub fn prefixed(prefix: &str, m: &str) -> (r: String)
    ensures
        r@ == prefix@ + m@,
{
    let mut s = prefix.to_owned();
    s.append(m);
    s
}

/// A provider definition that this application manages: the one with the managed id,
/// or any standard table whose `base_url` is the external endpoint.
pub open spec fn spec_is_external_provider_item(id: Seq<char>, item: toml_edit::Item) -> bool {
    id == EXTERNAL_PROVIDER_ID@ || match item_shape(item) {
        ItemShape::Table(t) => str_item_text(get_live(table_entries(t), BASE_URL_KEY@)) == Some(
            EXTERNAL_URL@,
        ),
        _ => false,
    }
}

/// The keys of the managed provider definitions of a provider table, in its order.
pub open spec fn managed_keys(es: Entries) -> Seq<Seq<char>> {
    external_keys_among(es, live_keys(es))
}

/// An item that is a standard table.
pub open spec fn is_standard_table(i: Option<toml_edit::Item>) -> bool {
    match i {
        Some(x) => item_shape(x) is Table,
        None => false,
    }
}

/// An inline provider table that holds no managed definition: the removals leave it as
/// it is.
pub open spec fn untouched_inline(i: Option<toml_edit::Item>) -> bool {
    match i {
        Some(x) => match item_shape(x) {
            ItemShape::InlineTable(t) => managed_keys(table_entries(t)).len() == 0,
            _ => false,
        },
        None => false,
    }
}

/// The keys among `ks` whose items in `es` are managed provider definitions.
pub open spec fn external_keys_among(es: Entries, ks: Seq<Seq<char>>) -> Seq<Seq<char>>
    decreases ks.len(),
{
    if ks.len() == 0 {
        seq![]
    } else {
        let r = external_keys_among(es, ks.drop_last());
        let k = ks.last();
        match get_live(es, k) {
            Some(i) => if spec_is_external_provider_item(k, i) {
                r.push(k)
            } else {
                r
            },
            None => r,
        }
    }
}

/// The entries of a provider table without the managed provider definitions.
pub open spec fn without_external(es: Entries) -> Entries {
    without_keys(es, managed_keys(es))
}

/// `after` is `before` once the managed provider definitions are taken out of its
/// `model_providers` table (an inline one becomes a standard table), and the table
/// itself where nothing else is left in it.
pub open spec fn providers_cleaned(before: Entries, after: Entries) -> bool {
    if untouched_inline(get_live(before, MODEL_PROVIDERS_KEY@)) {
        after == before
    } else {
        providers_stripped(before, after)
    }
}

/// `after` is `before` with the managed definitions taken out of its providers table, as
/// a standard table, or without that table where nothing else is left in it.
pub open spec fn providers_stripped(before: Entries, after: Entries) -> bool {
    match table_like(get_live(before, MODEL_PROVIDERS_KEY@)) {
        Some(mp) => {
            let kept = without_external(table_entries(mp));
            if has_live(kept) {
                set_to_table(before, after, MODEL_PROVIDERS_KEY@, kept, table_frame(mp))
            } else {
                after == without_key(before, MODEL_PROVIDERS_KEY@)
            }
        },
        None => after == before,
    }
}

/// `es` without the top-level reroute to the external endpoint and without a
/// top-level bearer token.
pub open spec fn reroute_cleaned(es: Entries) -> Entries {
    let es1 = if str_item_text(get_live(es, OPENAI_BASE_URL_KEY@)) == Some(EXTERNAL_URL@) {
        without_key(es, OPENAI_BASE_URL_KEY@)
    } else {
        es
    };
    without_key(es1, BEARER_TOKEN_KEY@)
}

/// The Plus profile of a configuration: no managed provider, no reroute, and the
/// official provider selected.
pub open spec fn plus_profile_of(before: Entries, after: Entries) -> bool {
    exists|mid: Entries|
        #![trigger providers_cleaned(before, mid)]
        providers_cleaned(before, mid) && after == with_key(
            reroute_cleaned(mid),
            MODEL_PROVIDER_KEY@,
            string_item(OFFICIAL_PROVIDER_ID@),
        )
}

/// Whether `(id, item)` is a managed provider definition.
pub fn is_external_provider_item(id: &str, item: &toml_edit::Item) -> (r: bool)
    ensures
        r == spec_is_external_provider_item(id@, *item),
{
    if str_eq(id, EXTERNAL_PROVIDER_ID) {
        return true;
    }
    match item_as_table(item) {
        Some(t) => match table_get(t, BASE_URL_KEY) {
            Some(b) => match item_as_str(b) {
                Some(s) => str_eq(s, EXTERNAL_URL),
                None => false,
            },
            None => false,
        },
        None => false,
    }
}

/// Removes the managed provider definitions from a provider table, and tells whether
/// there was any.
pub fn remove_external_entries(t: &mut toml_edit::Table) -> (r: bool)
    ensures
        table_entries(*final(t)) == without_external(table_entries(*old(t))),
        table_frame(*final(t)) == table_frame(*old(t)),
        r == (managed_keys(table_entries(*old(t))).len() > 0),
{
    let ghost es = table_entries(*t);
    let ks = table_keys(t);
    let ghost lk = live_keys(es);
    let mut doomed: Vec<String> = Vec::new();
    let n = ks.len();
    let mut i: usize = 0;
    while i < n
        invariant
            n == ks@.len(),
            n == lk.len(),
            lk == live_keys(es),
            es == table_entries(*t),
            forall|j: int| 0 <= j < n ==> #[trigger] ks@[j]@ == lk[j],
            i <= n,
            views(doomed@) == external_keys_among(es, lk.take(i as int)),
        decreases n - i,
    {
        let k = &ks[i];
        proof {
            assert(lk.take(i + 1).drop_last() =~= lk.take(i as int));
            assert(lk.take(i + 1).last() == k@);
        }
        match table_get(t, k.as_str()) {
            Some(item) => {
                if is_external_provider_item(k.as_str(), item) {
                    doomed.push(k.clone());
                    assert(views(doomed@) =~= external_keys_among(es, lk.take(i as int)).push(k@));
                }
            },
            None => {},
        }
        i = i + 1;
    }
    assert(lk.take(n as int) =~= lk);
    let ghost dk = views(doomed@);
    let m = doomed.len();
    let mut j: usize = 0;
    assert(without_keys(es, dk.take(0)) == es) by {
        assert(dk.take(0).len() == 0);
    }
    while j < m
        invariant
            m == doomed@.len(),
            dk == views(doomed@),
            j <= m,
            table_entries(*t) == without_keys(es, dk.take(j as int)),
            table_frame(*t) == table_frame(*old(t)),
        decreases m - j,
    {
        proof {
            assert(dk.take(j + 1).drop_last() =~= dk.take(j as int));
            assert(dk.take(j + 1).last() == doomed@[j as int]@);
        }
        table_remove(t, doomed[j].as_str());
        j = j + 1;
    }
    assert(dk.take(m as int) =~= dk);
    m > 0
}

/// Removes every managed provider definition from `model_providers`, and the table
/// itself when nothing is left in it.  An inline table becomes a standard one, unless it
/// holds no managed definition, in which case it is left as it is.
pub fn remove_external_provider_tables(doc: &mut toml_edit::DocumentMut)
    ensures
        providers_cleaned(doc_entries(*old(doc)), doc_entries(*final(doc))),
        same_frame(*old(doc), *final(doc)),
{
    let (mp_item, standard) = match doc_get(doc, MODEL_PROVIDERS_KEY) {
        Some(i) => (
            item_clone(i),
            match item_as_table(i) {
                Some(_) => true,
                None => false,
            },
        ),
        None => return ,
    };
    let ghost es = doc_entries(*doc);
    match item_into_table(mp_item) {
        Ok(mut mp) => {
            let removed = remove_external_entries(&mut mp);
            if !standard && !removed {
                return ;
            }
            if table_is_empty(&mp) {
                doc_remove(doc, MODEL_PROVIDERS_KEY);
            } else {
                let it = item_from_table(mp);
                doc_set(doc, MODEL_PROVIDERS_KEY, it);
                proof {
                    lemma_lookup_with_key(es, MODEL_PROVIDERS_KEY@, it, MODEL_PROVIDERS_KEY@);
                }
            }
        },
        Err(_) => {},
    }
}

/// Removes a top-level `openai_base_url` that points at the external endpoint, and any
/// top-level bearer token.
pub fn remove_external_top_level_reroute(doc: &mut toml_edit::DocumentMut)
    ensures
        doc_entries(*final(doc)) == reroute_cleaned(doc_entries(*old(doc))),
        same_frame(*old(doc), *final(doc)),
{
    let should_remove = match doc_get(doc, OPENAI_BASE_URL_KEY) {
        Some(i) => match item_as_str(i) {
            Some(s) => str_eq(s, EXTERNAL_URL),
            None => false,
        },
        None => false,
    };
    if should_remove {
        doc_remove(doc, OPENAI_BASE_URL_KEY);
    }
    doc_remove(doc, BEARER_TOKEN_KEY);
}

/// Turns a configuration into its Plus profile.
pub fn make_plus_profile(doc: &mut toml_edit::DocumentMut)
    ensures
        plus_profile_of(doc_entries(*old(doc)), doc_entries(*final(doc))),
        same_frame(*old(doc), *final(doc)),
{
    remove_external_provider_tables(doc);
    let ghost mid = doc_entries(*doc);
    remove_external_top_level_reroute(doc);
    doc_set(doc, MODEL_PROVIDER_KEY, str_value(OFFICIAL_PROVIDER_ID));
    assert(providers_cleaned(doc_entries(*old(doc)), mid));
}

/// The documents that `make_plus_profile` may make of `d`.
pub open spec fn plus_document_of(d: toml_edit::DocumentMut, d2: toml_edit::DocumentMut) -> bool {
    plus_profile_of(doc_entries(d), doc_entries(d2)) && same_frame(d, d2)
}

/// The view of a text result.
pub open spec fn text_result(r: Result<String, String>) -> Result<Seq<char>, Seq<char>> {
    match r {
        Ok(s) => Ok(s@),
        Err(e) => Err(e@),
    }
}

/// What `apply_plus` gives for `text`.
pub open spec fn plus_result(text: Seq<char>, r: Result<Seq<char>, Seq<char>>) -> bool {
    match toml_edit_error(text) {
        Some(m) => r == Err::<Seq<char>, Seq<char>>("Plus 配置解析失败: "@ + m),
        None => r is Ok && exists|d: toml_edit::DocumentMut, d2: toml_edit::DocumentMut|
            #![trigger plus_document_of(d, d2)]
            parses_to(text, d) && plus_document_of(d, d2) && r->Ok_0 == toml_edit_render(d2),
    }
}

/// The Plus profile of a configuration text; a text that does not parse is refused
/// with the parser's message.
pub fn apply_plus(text: &str) -> (r: Result<String, String>)
    ensures
        plus_result(text@, text_result(r)),
{
    let mut doc = match parse_document(text) {
        Ok(d) => d,
        Err(e) => return Err(prefixed("Plus 配置解析失败: ", e.as_str())),
    };
    let ghost d0 = doc;
    make_plus_profile(&mut doc);
    let s = render_document(&doc);
    assert(plus_document_of(d0, doc) && s@ == toml_edit_render(doc));
    Ok(s)
}

/// What `validate_toml` gives for `text`.
pub open spec fn validate_result(text: Seq<char>, r: Result<(), String>) -> bool {
    match toml_edit_error(text) {
        Some(m) => r matches Err(e) && e@ == "TOML 校验失败: "@ + m,
        None => r is Ok,
    }
}

/// Checks that a text is a TOML document.
pub fn validate_toml(text: &str) -> (r: Result<(), String>)
    ensures
        validate_result(text@, r),
{
    match parse_document(text) {
        Ok(_) => Ok(()),
        Err(e) => Err(prefixed("TOML 校验失败: ", e.as_str())),
    }
}

/// The display name of the managed provider.
pub const EXTERNAL_PROVIDER_NAME: &'static str = "External API";

/// The wire protocol of the managed provider.
pub const EXTERNAL_WIRE_API: &'static str = "responses";

/// The provider field that holds the display name.
pub const NAME_KEY: &'static str = "name";

/// The provider field that holds the wire protocol.
pub const WIRE_API_KEY: &'static str = "wire_api";

/// The entries of the managed provider's table, with the bearer token where one is given.
pub open spec fn provider_entries(key: Option<Seq<char>>) -> Entries {
    let head = seq![
        (NAME_KEY@, string_item(EXTERNAL_PROVIDER_NAME@), new_key(NAME_KEY@)),
        (BASE_URL_KEY@, string_item(EXTERNAL_URL@), new_key(BASE_URL_KEY@)),
        (WIRE_API_KEY@, string_item(EXTERNAL_WIRE_API@), new_key(WIRE_API_KEY@)),
    ];
    let token = match key {
        Some(k) => seq![(BEARER_TOKEN_KEY@, string_item(k), new_key(BEARER_TOKEN_KEY@))],
        None => Seq::<(Seq<char>, toml_edit::Item, toml_edit::Key)>::empty(),
    };
    head + token + seq![(REQUIRES_AUTH_KEY@, boolean_item(true), new_key(REQUIRES_AUTH_KEY@))]
}

/// `after` is `before` with a table under `k` that holds no entry, in place of what was
/// there.
pub open spec fn set_to_fresh_table(before: Entries, after: Entries, k: Seq<char>) -> bool {
    &&& lookup(after, k) is Some
    &&& after == with_key(before, k, lookup(after, k)->0)
    &&& table_item(lookup(after, k)) is Some
    &&& table_entries(table_item(lookup(after, k))->0) == Seq::<
        (Seq<char>, toml_edit::Item, toml_edit::Key),
    >::empty()
}

/// `after` is `before` (whose `model_providers` is a standard or an inline table) with
/// the managed provider set in that table, as a table that holds
/// `provider_entries(key)`; the providers table is then a standard one.
pub open spec fn provider_installed(before: Entries, after: Entries, key: Option<Seq<char>>) -> bool {
    let pt = table_like(get_live(before, MODEL_PROVIDERS_KEY@))->0;
    let fin = table_entries(table_item(lookup(after, MODEL_PROVIDERS_KEY@))->0);
    let x = lookup(fin, EXTERNAL_PROVIDER_ID@)->0;
    &&& set_to_table(
        before,
        after,
        MODEL_PROVIDERS_KEY@,
        with_key(table_entries(pt), EXTERNAL_PROVIDER_ID@, x),
        table_frame(pt),
    )
    &&& lookup(fin, EXTERNAL_PROVIDER_ID@) is Some
    &&& table_item(Some(x)) is Some
    &&& table_entries(table_item(Some(x))->0) == provider_entries(key)
}

/// `before` with the managed provider selected, and the external model set.
pub open spec fn external_selected(es: Entries) -> Entries {
    let m3 = with_key(es, MODEL_PROVIDER_KEY@, string_item(EXTERNAL_PROVIDER_ID@));
    let m4 = with_key(m3, MODEL_KEY@, string_item(EXTERNAL_MODEL@));
    with_key(m4, REVIEW_MODEL_KEY@, string_item(EXTERNAL_MODEL@))
}

/// `after` is `m5` with a `model_providers` table (the one there, standard or inline,
/// or a new empty one where there is none) in which the managed provider is set.
pub open spec fn providers_with_external(m5: Entries, after: Entries, key: Option<Seq<char>>) -> bool {
    exists|m6: Entries|
        #![trigger provider_installed(m6, after, key)]
        (if table_like(get_live(m5, MODEL_PROVIDERS_KEY@)) is Some {
            m6 == m5
        } else {
            set_to_fresh_table(m5, m6, MODEL_PROVIDERS_KEY@)
        }) && table_like(get_live(m6, MODEL_PROVIDERS_KEY@)) is Some && provider_installed(
            m6,
            after,
            key,
        )
}

/// The External profile of a configuration: no other managed provider, no reroute,
/// the managed provider and the external model selected, and the managed provider
/// defined, with the bearer token `key` where one is given.
pub open spec fn external_profile_of(before: Entries, after: Entries, key: Option<Seq<char>>) -> bool {
    exists|m1: Entries|
        #![trigger providers_cleaned(before, m1)]
        providers_cleaned(before, m1) && providers_with_external(
            external_selected(reroute_cleaned(m1)),
            after,
            key,
        )
}

/// The documents that `make_external_profile` may make of `d`.
pub open spec fn external_document_of(
    d: toml_edit::DocumentMut,
    d2: toml_edit::DocumentMut,
    key: Option<Seq<char>>,
) -> bool {
    external_profile_of(doc_entries(d), doc_entries(d2), key) && same_frame(d, d2)
}

/// The view of an optional string slice.
pub open spec fn opt_str_view(o: Option<&str>) -> Option<Seq<char>> {
    match o {
        Some(s) => Some(s@),
        None => None,
    }
}

pub proof fn lemma_provider_keys_distinct_pub()
    ensures
        NAME_KEY@ != BASE_URL_KEY@,
        NAME_KEY@ != WIRE_API_KEY@,
        NAME_KEY@ != BEARER_TOKEN_KEY@,
        NAME_KEY@ != REQUIRES_AUTH_KEY@,
        BASE_URL_KEY@ != WIRE_API_KEY@,
        BASE_URL_KEY@ != BEARER_TOKEN_KEY@,
        BASE_URL_KEY@ != REQUIRES_AUTH_KEY@,
        WIRE_API_KEY@ != BEARER_TOKEN_KEY@,
        WIRE_API_KEY@ != REQUIRES_AUTH_KEY@,
        BEARER_TOKEN_KEY@ != REQUIRES_AUTH_KEY@,
{
    reveal_strlit("name");
    reveal_strlit("base_url");
    reveal_strlit("wire_api");
    reveal_strlit("experimental_bearer_token");
    reveal_strlit("requires_openai_auth");
    assert(NAME_KEY@.len() != BASE_URL_KEY@.len());
    assert(NAME_KEY@.len() != WIRE_API_KEY@.len());
    assert(NAME_KEY@.len() != BEARER_TOKEN_KEY@.len());
    assert(NAME_KEY@.len() != REQUIRES_AUTH_KEY@.len());
    assert(BASE_URL_KEY@[0] != WIRE_API_KEY@[0]);
    assert(BASE_URL_KEY@.len() != BEARER_TOKEN_KEY@.len());
    assert(BASE_URL_KEY@.len() != REQUIRES_AUTH_KEY@.len());
    assert(WIRE_API_KEY@.len() != BEARER_TOKEN_KEY@.len());
    assert(WIRE_API_KEY@.len() != REQUIRES_AUTH_KEY@.len());
    assert(BEARER_TOKEN_KEY@.len() != REQUIRES_AUTH_KEY@.len());
}

/// The table of the managed provider, with the bearer token `key` where one is given.
pub fn external_provider_table(key: Option<&str>) -> (t: toml_edit::Table)
    ensures
        table_entries(t) == provider_entries(opt_str_view(key)),
{
    proof {
        lemma_provider_keys_distinct_pub();
    }
    let mut provider = table_new();
    let ghost e0 = table_entries(provider);
    table_set(&mut provider, NAME_KEY, str_value(EXTERNAL_PROVIDER_NAME));
    proof {
        lemma_with_key_absent(e0, NAME_KEY@, string_item(EXTERNAL_PROVIDER_NAME@));
    }
    let ghost e1 = table_entries(provider);
    table_set(&mut provider, BASE_URL_KEY, str_value(EXTERNAL_URL));
    proof {
        lemma_lookup_with_key(e0, NAME_KEY@, string_item(EXTERNAL_PROVIDER_NAME@), BASE_URL_KEY@);
        lemma_with_key_absent(e1, BASE_URL_KEY@, string_item(EXTERNAL_URL@));
    }
    let ghost e2 = table_entries(provider);
    table_set(&mut provider, WIRE_API_KEY, str_value(EXTERNAL_WIRE_API));
    proof {
        lemma_lookup_with_key(e0, NAME_KEY@, string_item(EXTERNAL_PROVIDER_NAME@), WIRE_API_KEY@);
        lemma_lookup_with_key(e1, BASE_URL_KEY@, string_item(EXTERNAL_URL@), WIRE_API_KEY@);
        lemma_with_key_absent(e2, WIRE_API_KEY@, string_item(EXTERNAL_WIRE_API@));
    }
    let ghost e3 = table_entries(provider);
    assert(e3 =~= seq![
        (NAME_KEY@, string_item(EXTERNAL_PROVIDER_NAME@), new_key(NAME_KEY@)),
        (BASE_URL_KEY@, string_item(EXTERNAL_URL@), new_key(BASE_URL_KEY@)),
        (WIRE_API_KEY@, string_item(EXTERNAL_WIRE_API@), new_key(WIRE_API_KEY@)),
    ]);
    match key {
        Some(k) => {
            table_set(&mut provider, BEARER_TOKEN_KEY, str_value(k));
            proof {
                lemma_lookup_with_key(e0, NAME_KEY@, string_item(EXTERNAL_PROVIDER_NAME@), BEARER_TOKEN_KEY@);
                lemma_lookup_with_key(e1, BASE_URL_KEY@, string_item(EXTERNAL_URL@), BEARER_TOKEN_KEY@);
                lemma_lookup_with_key(e2, WIRE_API_KEY@, string_item(EXTERNAL_WIRE_API@), BEARER_TOKEN_KEY@);
                lemma_with_key_absent(e3, BEARER_TOKEN_KEY@, string_item(k@));
            }
        },
        None => {},
    }
    let ghost e4 = table_entries(provider);
    table_set(&mut provider, REQUIRES_AUTH_KEY, bool_value(true));
    proof {
        lemma_lookup_with_key(e0, NAME_KEY@, string_item(EXTERNAL_PROVIDER_NAME@), REQUIRES_AUTH_KEY@);
        lemma_lookup_with_key(e1, BASE_URL_KEY@, string_item(EXTERNAL_URL@), REQUIRES_AUTH_KEY@);
        lemma_lookup_with_key(e2, WIRE_API_KEY@, string_item(EXTERNAL_WIRE_API@), REQUIRES_AUTH_KEY@);
        if let Some(k) = key {
            lemma_lookup_with_key(e3, BEARER_TOKEN_KEY@, string_item(k@), REQUIRES_AUTH_KEY@);
        }
        lemma_with_key_absent(e4, REQUIRES_AUTH_KEY@, boolean_item(true));
    }
    assert(table_entries(provider) =~= provider_entries(opt_str_view(key)));
    provider
}

/// Turns a configuration into its External profile, with the bearer token `key` where
/// one is given.
pub fn make_external_profile(doc: &mut toml_edit::DocumentMut, key: Option<&str>)
    ensures
        external_profile_of(doc_entries(*old(doc)), doc_entries(*final(doc)), opt_str_view(key)),
        same_frame(*old(doc), *final(doc)),
{
    let ghost e0 = doc_entries(*doc);
    remove_external_provider_tables(doc);
    let ghost m1 = doc_entries(*doc);
    remove_external_top_level_reroute(doc);
    doc_set(doc, MODEL_PROVIDER_KEY, str_value(EXTERNAL_PROVIDER_ID));
    doc_set(doc, MODEL_KEY, str_value(EXTERNAL_MODEL));
    doc_set(doc, REVIEW_MODEL_KEY, str_value(EXTERNAL_MODEL));
    let ghost m5 = doc_entries(*doc);
    assert(m5 == external_selected(reroute_cleaned(m1)));
    let has_table = match doc_get(doc, MODEL_PROVIDERS_KEY) {
        Some(i) => match item_into_table(item_clone(i)) {
            Ok(_) => true,
            Err(_) => false,
        },
        None => false,
    };
    if !has_table {
        let it = item_from_table(table_new());
        doc_set(doc, MODEL_PROVIDERS_KEY, it);
        proof {
            lemma_lookup_with_key(m5, MODEL_PROVIDERS_KEY@, it, MODEL_PROVIDERS_KEY@);
        }
    }
    let ghost m6 = doc_entries(*doc);
    assert(table_like(get_live(m6, MODEL_PROVIDERS_KEY@)) is Some);
    let provider = external_provider_table(key);
    let mp_item = match doc_get(doc, MODEL_PROVIDERS_KEY) {
        Some(i) => item_clone(i),
        None => {
            assert(false);
            return ;
        },
    };
    let mut mp = match item_into_table(mp_item) {
        Ok(t) => t,
        Err(_) => {
            assert(false);
            return ;
        },
    };
    let ghost pt = mp;
    let pi = item_from_table(provider);
    table_set(&mut mp, EXTERNAL_PROVIDER_ID, pi);
    let mi = item_from_table(mp);
    doc_set(doc, MODEL_PROVIDERS_KEY, mi);
    proof {
        lemma_lookup_with_key(m6, MODEL_PROVIDERS_KEY@, mi, MODEL_PROVIDERS_KEY@);
        lemma_lookup_with_key(table_entries(pt), EXTERNAL_PROVIDER_ID@, pi, EXTERNAL_PROVIDER_ID@);
        assert(provider_installed(m6, doc_entries(*doc), opt_str_view(key)));
        assert(providers_with_external(m5, doc_entries(*doc), opt_str_view(key)));
        assert(providers_cleaned(e0, m1));
    }
}

/// What `apply_external` gives for `text` and the token `key`.
pub open spec fn external_result(
    text: Seq<char>,
    key: Option<Seq<char>>,
    r: Result<Seq<char>, Seq<char>>,
) -> bool {
    match toml_edit_error(text) {
        Some(m) => r == Err::<Seq<char>, Seq<char>>("External 配置解析失败: "@ + m),
        None => r is Ok && exists|d: toml_edit::DocumentMut, d2: toml_edit::DocumentMut|
            #![trigger external_document_of(d, d2, key)]
            parses_to(text, d) && external_document_of(d, d2, key) && r->Ok_0 == toml_edit_render(
                d2,
            ),
    }
}

/// The External profile of a configuration text, with the bearer token `key` where one
/// is given; a text that does not parse is refused with the parser's message.
pub fn apply_external(text: &str, key: Option<&str>) -> (r: Result<String, String>)
    ensures
        external_result(text@, opt_str_view(key), text_result(r)),
{
    let mut doc = match parse_document(text) {
        Ok(d) => d,
        Err(e) => return Err(prefixed("External 配置解析失败: ", e.as_str())),
    };
    let ghost d0 = doc;
    make_external_profile(&mut doc, key);
    let s = render_document(&doc);
    assert(external_document_of(d0, doc, opt_str_view(key)));
    Ok(s)
}

/// `after` is `before` with the bearer token taken out of the managed provider's table
/// in `model_providers`, where both tables are there (standard or inline; an inline one
/// becomes a standard table).  Where either is inline and the provider holds no token,
/// nothing changes.
pub open spec fn secret_removed(before: Entries, after: Entries) -> bool {
    match table_like(get_live(before, MODEL_PROVIDERS_KEY@)) {
        Some(mp) => match table_like(get_live(table_entries(mp), EXTERNAL_PROVIDER_ID@)) {
            Some(p) => if !(is_standard_table(get_live(before, MODEL_PROVIDERS_KEY@))
                && is_standard_table(get_live(table_entries(mp), EXTERNAL_PROVIDER_ID@)))
                && get_live(table_entries(p), BEARER_TOKEN_KEY@) is None {
                after == before
            } else {
                let fin = table_entries(table_item(lookup(after, MODEL_PROVIDERS_KEY@))->0);
                let x = lookup(fin, EXTERNAL_PROVIDER_ID@)->0;
                &&& set_to_table(
                    before,
                    after,
                    MODEL_PROVIDERS_KEY@,
                    with_key(table_entries(mp), EXTERNAL_PROVIDER_ID@, x),
                    table_frame(mp),
                )
                &&& lookup(fin, EXTERNAL_PROVIDER_ID@) is Some
                &&& table_item(Some(x)) is Some
                &&& table_entries(table_item(Some(x))->0) == without_key(
                    table_entries(p),
                    BEARER_TOKEN_KEY@,
                )
                &&& table_frame(table_item(Some(x))->0) == table_frame(p)
            },
            None => after == before,
        },
        None => after == before,
    }
}

/// The documents that `remove_external_secret` may make of `d`.
pub open spec fn secret_free_document_of(d: toml_edit::DocumentMut, d2: toml_edit::DocumentMut) -> bool {
    secret_removed(doc_entries(d), doc_entries(d2)) && same_frame(d, d2)
}

/// Takes the bearer token out of the managed provider's definition.
pub fn remove_external_secret(doc: &mut toml_edit::DocumentMut)
    ensures
        secret_removed(doc_entries(*old(doc)), doc_entries(*final(doc))),
        same_frame(*old(doc), *final(doc)),
{
    let ghost e0 = doc_entries(*doc);
    let (mp_item, mp_standard) = match doc_get(doc, MODEL_PROVIDERS_KEY) {
        Some(i) => (
            item_clone(i),
            match item_as_table(i) {
                Some(_) => true,
                None => false,
            },
        ),
        None => return ,
    };
    let mut mp = match item_into_table(mp_item) {
        Ok(t) => t,
        Err(_) => return ,
    };
    let ghost mp0 = mp;
    let (p_item, p_standard) = match table_get(&mp, EXTERNAL_PROVIDER_ID) {
        Some(i) => (
            item_clone(i),
            match item_as_table(i) {
                Some(_) => true,
                None => false,
            },
        ),
        None => return ,
    };
    let mut p = match item_into_table(p_item) {
        Ok(t) => t,
        Err(_) => return ,
    };
    if !(mp_standard && p_standard) {
        match table_get(&p, BEARER_TOKEN_KEY) {
            Some(_) => {},
            None => return ,
        }
    }
    table_remove(&mut p, BEARER_TOKEN_KEY);
    let pi = item_from_table(p);
    table_set(&mut mp, EXTERNAL_PROVIDER_ID, pi);
    let mi = item_from_table(mp);
    doc_set(doc, MODEL_PROVIDERS_KEY, mi);
    proof {
        lemma_lookup_with_key(e0, MODEL_PROVIDERS_KEY@, mi, MODEL_PROVIDERS_KEY@);
        lemma_lookup_with_key(table_entries(mp0), EXTERNAL_PROVIDER_ID@, pi, EXTERNAL_PROVIDER_ID@);
    }
}

/// What `strip_external_secret` gives for `text`.
pub open spec fn strip_result(text: Seq<char>, r: Result<Seq<char>, Seq<char>>) -> bool {
    match toml_edit_error(text) {
        Some(m) => r == Err::<Seq<char>, Seq<char>>("External profile 解析失败: "@ + m),
        None => r is Ok && exists|d: toml_edit::DocumentMut, d2: toml_edit::DocumentMut|
            #![trigger secret_free_document_of(d, d2)]
            parses_to(text, d) && secret_free_document_of(d, d2) && r->Ok_0 == toml_edit_render(d2),
    }
}

/// A profile text without the managed provider's bearer token; a text that does not
/// parse is refused with the parser's message.
pub fn strip_external_secret(text: &str) -> (r: Result<String, String>)
    ensures
        strip_result(text@, text_result(r)),
{
    let mut doc = match parse_document(text) {
        Ok(d) => d,
        Err(e) => return Err(prefixed("External profile 解析失败: ", e.as_str())),
    };
    let ghost d0 = doc;
    remove_external_secret(&mut doc);
    let s = render_document(&doc);
    assert(secret_free_document_of(d0, doc));
    Ok(s)
}

/// The keys that each mode sets for itself and that are never carried over as common
/// settings.
pub open spec fn is_owned(k: Seq<char>) -> bool {
    k == MODEL_PROVIDER_KEY@ || k == MODEL_KEY@ || k == REVIEW_MODEL_KEY@ || k
        == MODEL_PROVIDERS_KEY@
}

/// The keys of `ks` that are not owned by a mode.
pub open spec fn unowned(ks: Seq<Seq<char>>) -> Seq<Seq<char>>
    decreases ks.len(),
{
    if ks.len() == 0 {
        ks
    } else if is_owned(ks.last()) {
        unowned(ks.drop_last())
    } else {
        unowned(ks.drop_last()).push(ks.last())
    }
}

/// The keys of `ks` that `other` does not hold.
pub open spec fn missing_from(ks: Seq<Seq<char>>, other: Seq<Seq<char>>) -> Seq<Seq<char>>
    decreases ks.len(),
{
    if ks.len() == 0 {
        ks
    } else if other.contains(ks.last()) {
        missing_from(ks.drop_last(), other)
    } else {
        missing_from(ks.drop_last(), other).push(ks.last())
    }
}

/// The entries of `es` under the keys `ks`, each with the item that readers see.
pub open spec fn pairs_for(es: Entries, ks: Seq<Seq<char>>) -> Pairs
    decreases ks.len(),
{
    if ks.len() == 0 {
        Seq::<(Seq<char>, toml_edit::Item)>::empty()
    } else {
        let r = pairs_for(es, ks.drop_last());
        match get_live(es, ks.last()) {
            Some(i) => r.push((ks.last(), i)),
            None => r,
        }
    }
}

/// The target's entries once its common settings are those of the source: the
/// target's common keys that the source lacks are removed, then each common entry of
/// the source is set, in the source's order.
pub open spec fn synced_common(src: Entries, tgt: Entries) -> Entries {
    let sk = unowned(live_keys(src));
    let tk = unowned(live_keys(tgt));
    put_all(without_keys(tgt, missing_from(tk, sk)), pairs_for(src, sk))
}

/// `after` is `b` with the source's `model_providers` in place: without the managed
/// provider definitions, and absent where the source has none or nothing else is left;
/// an inline table that holds no managed definition is carried over as it is.
pub open spec fn providers_synced(src: Entries, b: Entries, after: Entries) -> bool {
    match get_live(src, MODEL_PROVIDERS_KEY@) {
        None => after == without_key(b, MODEL_PROVIDERS_KEY@),
        Some(item) => if untouched_inline(Some(item)) {
            after == with_key_refreshed(b, MODEL_PROVIDERS_KEY@, item)
        } else {
            match table_like(Some(item)) {
            Some(t) => {
                let kept = without_external(table_entries(t));
                if has_live(kept) {
                    set_to_table_by(b, after, MODEL_PROVIDERS_KEY@, kept, table_frame(t), true)
                } else {
                    after == without_key(b, MODEL_PROVIDERS_KEY@)
                }
            },
            None => after == with_key_refreshed(b, MODEL_PROVIDERS_KEY@, item),
            }
        },
    }
}

/// The entries of the target after its common settings are synced from the source.
pub open spec fn sync_of(src: Entries, tgt: Entries, after: Entries) -> bool {
    providers_synced(src, synced_common(src, tgt), after)
}

/// The documents that `sync_common_settings` may make of the target `t`.
pub open spec fn synced_document_of(
    s: toml_edit::DocumentMut,
    t: toml_edit::DocumentMut,
    t2: toml_edit::DocumentMut,
) -> bool {
    sync_of(doc_entries(s), doc_entries(t), doc_entries(t2)) && same_frame(t, t2)
}

/// Whether `k` is owned by a mode.
pub fn is_owned_key(k: &str) -> (r: bool)
    ensures
        r == is_owned(k@),
{
    str_eq(k, MODEL_PROVIDER_KEY) || str_eq(k, MODEL_KEY) || str_eq(k, REVIEW_MODEL_KEY) || str_eq(
        k,
        MODEL_PROVIDERS_KEY,
    )
}

/// Whether `v` holds `k`.
pub fn contains_str(v: &Vec<String>, k: &str) -> (r: bool)
    ensures
        r == views(v@).contains(k@),
{
    let n = v.len();
    let mut i: usize = 0;
    while i < n
        invariant
            n == v@.len(),
            i <= n,
            forall|j: int| 0 <= j < i ==> v@[j]@ != k@,
        decreases n - i,
    {
        if str_eq(v[i].as_str(), k) {
            assert(views(v@)[i as int] == k@);
            return true;
        }
        i = i + 1;
    }
    proof {
        if views(v@).contains(k@) {
            let j = choose|j: int| 0 <= j < views(v@).len() && views(v@)[j] == k@;
            assert(v@[j]@ == k@);
        }
    }
    false
}

/// The keys of `ks` that no mode owns.
fn unowned_keys(ks: &Vec<String>) -> (r: Vec<String>)
    ensures
        views(r@) == unowned(views(ks@)),
{
    let ghost kv = views(ks@);
    let mut r: Vec<String> = Vec::new();
    let n = ks.len();
    let mut i: usize = 0;
    while i < n
        invariant
            n == ks@.len(),
            kv == views(ks@),
            i <= n,
            views(r@) == unowned(kv.take(i as int)),
        decreases n - i,
    {
        proof {
            assert(kv.take(i + 1).drop_last() =~= kv.take(i as int));
            assert(kv.take(i + 1).last() == ks@[i as int]@);
        }
        if !is_owned_key(ks[i].as_str()) {
            r.push(ks[i].clone());
            assert(views(r@) =~= unowned(kv.take(i as int)).push(ks@[i as int]@));
        }
        i = i + 1;
    }
    assert(kv.take(n as int) =~= kv);
    r
}

/// The live keys of a document, as the views of a vector.
fn live_doc_keys(d: &toml_edit::DocumentMut) -> (r: Vec<String>)
    ensures
        views(r@) == live_keys(doc_entries(*d)),
{
    let r = doc_keys(d);
    assert(views(r@) =~= live_keys(doc_entries(*d)));
    r
}

/// Makes the common settings of `target` those of `source`: every key that no mode
/// owns is carried over (and removed from the target where the source lacks it), and
/// the source's provider definitions replace the target's, without the managed one (an
/// inline providers table that holds no managed definition is carried over as it is).
pub fn sync_common_settings(source: &toml_edit::DocumentMut, target: &mut toml_edit::DocumentMut)
    ensures
        sync_of(doc_entries(*source), doc_entries(*old(target)), doc_entries(*final(target))),
        same_frame(*old(target), *final(target)),
{
    let ghost src = doc_entries(*source);
    let ghost tgt = doc_entries(*target);
    let source_keys = unowned_keys(&live_doc_keys(source));
    let target_keys = unowned_keys(&live_doc_keys(target));
    let ghost sk = views(source_keys@);
    let ghost tk = views(target_keys@);
    let n = target_keys.len();
    let mut i: usize = 0;
    assert(missing_from(tk.take(0), sk) =~= Seq::<Seq<char>>::empty());
    while i < n
        invariant
            n == target_keys@.len(),
            tk == views(target_keys@),
            sk == views(source_keys@),
            i <= n,
            doc_entries(*target) == without_keys(tgt, missing_from(tk.take(i as int), sk)),
            same_frame(*old(target), *target),
        decreases n - i,
    {
        let ghost before = missing_from(tk.take(i as int), sk);
        proof {
            assert(tk.take(i + 1).drop_last() =~= tk.take(i as int));
            assert(tk.take(i + 1).last() == target_keys@[i as int]@);
        }
        if !contains_str(&source_keys, target_keys[i].as_str()) {
            doc_remove(target, target_keys[i].as_str());
            assert(missing_from(tk.take(i + 1), sk) =~= before.push(target_keys@[i as int]@));
            assert(before.push(target_keys@[i as int]@).drop_last() =~= before);
        }
        i = i + 1;
    }
    assert(tk.take(n as int) =~= tk);
    let ghost base = doc_entries(*target);
    let m = source_keys.len();
    let mut j: usize = 0;
    assert(pairs_for(src, sk.take(0)) =~= Seq::<(Seq<char>, toml_edit::Item)>::empty());
    while j < m
        invariant
            m == source_keys@.len(),
            sk == views(source_keys@),
            src == doc_entries(*source),
            j <= m,
            doc_entries(*target) == put_all(base, pairs_for(src, sk.take(j as int))),
            same_frame(*old(target), *target),
        decreases m - j,
    {
        let ghost ps = pairs_for(src, sk.take(j as int));
        proof {
            assert(sk.take(j + 1).drop_last() =~= sk.take(j as int));
            assert(sk.take(j + 1).last() == source_keys@[j as int]@);
        }
        match doc_get(source, source_keys[j].as_str()) {
            Some(item) => {
                let it = item_clone(item);
                doc_insert(target, source_keys[j].as_str(), it);
                assert(pairs_for(src, sk.take(j + 1)) =~= ps.push((source_keys@[j as int]@, it)));
                assert(ps.push((source_keys@[j as int]@, it)).drop_last() =~= ps);
            },
            None => {},
        }
        j = j + 1;
    }
    assert(sk.take(m as int) =~= sk);
    let ghost b = doc_entries(*target);
    assert(b == synced_common(src, tgt));
    match doc_get(source, MODEL_PROVIDERS_KEY) {
        None => {
            doc_remove(target, MODEL_PROVIDERS_KEY);
        },
        Some(i) => {
            let item = item_clone(i);
            let standard = match item_as_table(i) {
                Some(_) => true,
                None => false,
            };
            match item_into_table(item) {
                Ok(mut t) => {
                    let removed = remove_external_entries(&mut t);
                    if !standard && !removed {
                        doc_insert(target, MODEL_PROVIDERS_KEY, item_clone(i));
                        return ;
                    }
                    if table_is_empty(&t) {
                        doc_remove(target, MODEL_PROVIDERS_KEY);
                    } else {
                        let it = item_from_table(t);
                        doc_insert(target, MODEL_PROVIDERS_KEY, it);
                        proof {
                            lemma_lookup_with_key_refreshed(b, MODEL_PROVIDERS_KEY@, it, MODEL_PROVIDERS_KEY@);
                        }
                    }
                },
                Err(it) => {
                    doc_insert(target, MODEL_PROVIDERS_KEY, it);
                },
            }
        },
    }
}

/// What `sync_common` gives for a source and a target text.
pub open spec fn sync_result(src: Seq<char>, tgt: Seq<char>, r: Result<Seq<char>, Seq<char>>) -> bool {
    match toml_edit_error(src) {
        Some(m) => r == Err::<Seq<char>, Seq<char>>("当前配置解析失败: "@ + m),
        None => match toml_edit_error(tgt) {
            Some(m) => r == Err::<Seq<char>, Seq<char>>("目标配置解析失败: "@ + m),
            None => r is Ok && exists|
                sd: toml_edit::DocumentMut,
                td: toml_edit::DocumentMut,
                d2: toml_edit::DocumentMut,
            |
                #![trigger synced_document_of(sd, td, d2)]
                parses_to(src, sd) && parses_to(tgt, td) && synced_document_of(sd, td, d2)
                    && r->Ok_0 == toml_edit_render(d2),
        },
    }
}

/// The target configuration with its common settings synced from the source; a text
/// that does not parse is refused with the parser's message.
pub fn sync_common(source_text: &str, target_text: &str) -> (r: Result<String, String>)
    ensures
        sync_result(source_text@, target_text@, text_result(r)),
{
    let source = match parse_document(source_text) {
        Ok(d) => d,
        Err(e) => return Err(prefixed("当前配置解析失败: ", e.as_str())),
    };
    let mut target = match parse_document(target_text) {
        Ok(d) => d,
        Err(e) => return Err(prefixed("目标配置解析失败: ", e.as_str())),
    };
    let ghost t0 = target;
    sync_common_settings(&source, &mut target);
    let s = render_document(&target);
    assert(synced_document_of(source, t0, target));
    Ok(s)
}

} // verus!
