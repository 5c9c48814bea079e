//! What holds of every profile that the library builds, and of every sync.
use vstd::prelude::*;
use crate::profiles::{
    external_keys_among, external_profile_of, is_owned, missing_from, pairs_for, plus_profile_of,
    provider_entries, providers_cleaned, providers_synced, providers_with_external,
    provider_installed, reroute_cleaned, secret_removed, set_to_fresh_table,
    spec_is_external_provider_item, sync_of, synced_common, unowned, without_external,
    external_selected, plus_result, plus_document_of, sync_result, synced_document_of, MODEL_KEY, OPENAI_BASE_URL_KEY,
    REVIEW_MODEL_KEY,
};
use crate::routing::{
    BEARER_TOKEN_KEY, EXTERNAL_MODEL, EXTERNAL_PROVIDER_ID, EXTERNAL_URL, MODEL_PROVIDERS_KEY,
    MODEL_PROVIDER_KEY, OFFICIAL_PROVIDER_ID,
};
use crate::toml_doc::{
    distinct_keys, get_live, is_live, last_put, lemma_live_keys, lemma_lookup_put_all,
    lemma_get_live_has_live, lemma_lookup_with_key, lemma_lookup_with_key_refreshed, with_key_refreshed, lemma_lookup_without_key,
    lemma_lookup_without_keys, live_keys, lookup,
    str_item_text, string_item, table_entries, table_item, table_like, doc_entries, parses_to, with_key, without_key,
    without_keys, toml_edit_render, item_shape, ItemShape, Entries,
};

verus! {

/// The top-level keys that the profiles touch are distinct.
pub proof fn lemma_top_keys_distinct()
    ensures
        MODEL_PROVIDERS_KEY@ != MODEL_PROVIDER_KEY@,
        MODEL_PROVIDERS_KEY@ != MODEL_KEY@,
        MODEL_PROVIDERS_KEY@ != REVIEW_MODEL_KEY@,
        MODEL_PROVIDERS_KEY@ != BEARER_TOKEN_KEY@,
        MODEL_PROVIDERS_KEY@ != OPENAI_BASE_URL_KEY@,
        MODEL_PROVIDER_KEY@ != MODEL_KEY@,
        MODEL_PROVIDER_KEY@ != REVIEW_MODEL_KEY@,
        MODEL_PROVIDER_KEY@ != BEARER_TOKEN_KEY@,
        MODEL_PROVIDER_KEY@ != OPENAI_BASE_URL_KEY@,
        MODEL_KEY@ != REVIEW_MODEL_KEY@,
        MODEL_KEY@ != BEARER_TOKEN_KEY@,
        MODEL_KEY@ != OPENAI_BASE_URL_KEY@,
        REVIEW_MODEL_KEY@ != BEARER_TOKEN_KEY@,
        REVIEW_MODEL_KEY@ != OPENAI_BASE_URL_KEY@,
        BEARER_TOKEN_KEY@ != OPENAI_BASE_URL_KEY@,
{
    reveal_strlit("model_providers");
    reveal_strlit("model_provider");
    reveal_strlit("model");
    reveal_strlit("review_model");
    reveal_strlit("experimental_bearer_token");
    reveal_strlit("openai_base_url");
    assert(MODEL_PROVIDERS_KEY@.len() != MODEL_PROVIDER_KEY@.len());
    assert(MODEL_PROVIDERS_KEY@.len() != MODEL_KEY@.len());
    assert(MODEL_PROVIDERS_KEY@.len() != REVIEW_MODEL_KEY@.len());
    assert(MODEL_PROVIDERS_KEY@.len() != BEARER_TOKEN_KEY@.len());
    assert(MODEL_PROVIDERS_KEY@[0] != OPENAI_BASE_URL_KEY@[0]);
    assert(MODEL_PROVIDER_KEY@.len() != MODEL_KEY@.len());
    assert(MODEL_PROVIDER_KEY@[0] != REVIEW_MODEL_KEY@[0]);
    assert(MODEL_PROVIDER_KEY@.len() != BEARER_TOKEN_KEY@.len());
    assert(MODEL_PROVIDER_KEY@[0] != OPENAI_BASE_URL_KEY@[0]);
    assert(MODEL_KEY@.len() != REVIEW_MODEL_KEY@.len());
    assert(MODEL_KEY@.len() != BEARER_TOKEN_KEY@.len());
    assert(MODEL_KEY@.len() != OPENAI_BASE_URL_KEY@.len());
    assert(REVIEW_MODEL_KEY@.len() != BEARER_TOKEN_KEY@.len());
    assert(REVIEW_MODEL_KEY@[0] != OPENAI_BASE_URL_KEY@[0]);
    assert(BEARER_TOKEN_KEY@.len() != OPENAI_BASE_URL_KEY@.len());
}

/// `get_live` after a replacement under another key, or under the same key.
pub proof fn lemma_get_live_with_key(es: Entries, k: Seq<char>, x: toml_edit::Item, q: Seq<char>)
    ensures
        get_live(with_key(es, k, x), q) == if q == k {
            if is_live(x) {
                Some(x)
            } else {
                None
            }
        } else {
            get_live(es, q)
        },
{
    lemma_lookup_with_key(es, k, x, q);
}

/// `get_live` after an insertion under another key, or under the same key.
pub proof fn lemma_get_live_with_key_refreshed(
    es: Entries,
    k: Seq<char>,
    x: toml_edit::Item,
    q: Seq<char>,
)
    ensures
        get_live(with_key_refreshed(es, k, x), q) == if q == k {
            if is_live(x) {
                Some(x)
            } else {
                None
            }
        } else {
            get_live(es, q)
        },
{
    lemma_lookup_with_key_refreshed(es, k, x, q);
}

/// `get_live` after a removal.
pub proof fn lemma_get_live_without_key(es: Entries, k: Seq<char>, q: Seq<char>)
    ensures
        get_live(without_key(es, k), q) == if q == k {
            None
        } else {
            get_live(es, q)
        },
{
    lemma_lookup_without_key(es, k, q);
}

/// The keys that `external_keys_among` collects.
pub proof fn lemma_external_keys_among(es: Entries, ks: Seq<Seq<char>>, q: Seq<char>)
    ensures
        external_keys_among(es, ks).contains(q) <==> ks.contains(q) && get_live(es, q) is Some
            && spec_is_external_provider_item(q, get_live(es, q)->0),
    decreases ks.len(),
{
    if ks.len() > 0 {
        lemma_external_keys_among(es, ks.drop_last(), q);
        let r = external_keys_among(es, ks.drop_last());
        let k = ks.last();
        if ks.contains(q) && q != k {
            let i = choose|i: int| 0 <= i < ks.len() && ks[i] == q;
            assert(ks.drop_last()[i] == q);
        }
        if ks.drop_last().contains(q) {
            let i = choose|i: int| 0 <= i < ks.drop_last().len() && ks.drop_last()[i] == q;
            assert(ks[i] == q);
        }
        if q == k {
            assert(ks[ks.len() - 1] == q);
        }
        if r.contains(q) {
            let i = choose|i: int| 0 <= i < r.len() && r[i] == q;
            assert(r.push(k)[i] == q);
        }
        if r.push(k).contains(q) && q != k {
            let i = choose|i: int| 0 <= i < r.push(k).len() && r.push(k)[i] == q;
            assert(r[i] == q);
        }
        if q == k {
            assert(r.push(k)[r.len() as int] == q);
        }
    }
}

/// What is left of a provider table once the managed definitions are taken out: no
/// managed definition, and every other definition as it was.
pub proof fn lemma_without_external(es: Entries, q: Seq<char>)
    requires
        distinct_keys(es),
    ensures
        get_live(without_external(es), q) matches Some(i) ==> !spec_is_external_provider_item(q, i),
        get_live(es, q) matches Some(i) && !spec_is_external_provider_item(q, i) ==> get_live(
            without_external(es),
            q,
        ) == get_live(es, q),
        get_live(es, q) is None ==> get_live(without_external(es), q) is None,
{
    let ek = external_keys_among(es, live_keys(es));
    lemma_lookup_without_keys(es, ek, q);
    lemma_external_keys_among(es, live_keys(es), q);
    lemma_live_keys(es, q);
}

/// The providers table of a configuration.
pub open spec fn providers_of(es: Entries) -> Option<toml_edit::Table> {
    table_like(get_live(es, MODEL_PROVIDERS_KEY@))
}

/// The tables of a configuration hold each key once: the root table and its providers
/// table.
pub open spec fn well_formed(es: Entries) -> bool {
    &&& distinct_keys(es)
    &&& providers_of(es) matches Some(t) ==> distinct_keys(table_entries(t))
}

/// Every document that a text parses to is well formed, so the laws below apply to the
/// documents that the profile and sync functions parse.
pub proof fn lemma_parsed_well_formed(text: Seq<char>, d: toml_edit::DocumentMut)
    requires
        parses_to(text, d),
    ensures
        well_formed(doc_entries(d)),
{
    assert(table_like(get_live(doc_entries(d), MODEL_PROVIDERS_KEY@)) == providers_of(
        doc_entries(d),
    ));
}

/// After the managed provider definitions are removed, no managed definition is left in
/// `model_providers`, and every other key reads as it did.
pub proof fn lemma_providers_cleaned(before: Entries, after: Entries, q: Seq<char>, k: Seq<char>)
    requires
        well_formed(before),
        providers_cleaned(before, after),
    ensures
        providers_of(after) matches Some(t) ==> (get_live(table_entries(t), k) matches Some(i)
            ==> !spec_is_external_provider_item(k, i)),
        q != MODEL_PROVIDERS_KEY@ ==> get_live(after, q) == get_live(before, q),
{
    match providers_of(before) {
        Some(mp) => {
            lemma_without_external(table_entries(mp), k);
            let kept = without_external(table_entries(mp));
            if crate::toml_doc::has_live(kept) {
                let x = lookup(after, MODEL_PROVIDERS_KEY@)->0;
                lemma_get_live_with_key(before, MODEL_PROVIDERS_KEY@, x, q);
                lemma_get_live_with_key(before, MODEL_PROVIDERS_KEY@, x, MODEL_PROVIDERS_KEY@);
            } else {
                lemma_get_live_without_key(before, MODEL_PROVIDERS_KEY@, q);
                lemma_get_live_without_key(before, MODEL_PROVIDERS_KEY@, MODEL_PROVIDERS_KEY@);
            }
        },
        None => {
            if get_live(before, MODEL_PROVIDERS_KEY@) is Some {
                // a providers entry that is not a table stays as it is
            }
        },
    }
}

/// The providers table of `es` defines `k` with a definition that is not managed.
pub open spec fn kept_definition(es: Entries, k: Seq<char>) -> bool {
    providers_of(es) matches Some(t) && (get_live(table_entries(t), k) matches Some(i)
        && !spec_is_external_provider_item(k, i))
}

/// `after` has a providers table that defines `k` as `before`'s does.
pub open spec fn keeps_definition(before: Entries, after: Entries, k: Seq<char>) -> bool {
    providers_of(after) matches Some(t) && get_live(table_entries(t), k) == get_live(
        table_entries(providers_of(before)->0),
        k,
    )
}

/// Taking the managed provider definitions out keeps every other definition, and with
/// it the providers table.
pub proof fn lemma_providers_cleaned_keeps(before: Entries, after: Entries, k: Seq<char>)
    requires
        well_formed(before),
        providers_cleaned(before, after),
        kept_definition(before, k),
    ensures
        keeps_definition(before, after, k),
{
    let mp = providers_of(before)->0;
    lemma_without_external(table_entries(mp), k);
    let kept = without_external(table_entries(mp));
    lemma_get_live_has_live(kept, k);
    let x = lookup(after, MODEL_PROVIDERS_KEY@)->0;
    lemma_lookup_with_key(before, MODEL_PROVIDERS_KEY@, x, MODEL_PROVIDERS_KEY@);
}

/// A Plus profile selects the official provider, keeps no top-level bearer token and
/// no reroute to the external endpoint, and defines no managed provider; every other
/// setting, any other reroute and every provider definition that is not managed are
/// kept as they were.
pub proof fn law_plus_profile_is_official(
    before: Entries,
    after: Entries,
    k: Seq<char>,
    q: Seq<char>,
)
    requires
        well_formed(before),
        plus_profile_of(before, after),
    ensures
        lookup(after, MODEL_PROVIDER_KEY@) == Some(string_item(OFFICIAL_PROVIDER_ID@)),
        get_live(after, BEARER_TOKEN_KEY@) is None,
        str_item_text(get_live(after, OPENAI_BASE_URL_KEY@)) != Some(EXTERNAL_URL@),
        providers_of(after) matches Some(t) ==> (get_live(table_entries(t), k) matches Some(i)
            ==> !spec_is_external_provider_item(k, i)),
        kept_definition(before, k) ==> keeps_definition(before, after, k),
        q != MODEL_PROVIDER_KEY@ && q != MODEL_PROVIDERS_KEY@ && q != BEARER_TOKEN_KEY@ && q
            != OPENAI_BASE_URL_KEY@ ==> get_live(after, q) == get_live(before, q),
        str_item_text(get_live(before, OPENAI_BASE_URL_KEY@)) != Some(EXTERNAL_URL@) ==> get_live(
            after,
            OPENAI_BASE_URL_KEY@,
        ) == get_live(before, OPENAI_BASE_URL_KEY@),
{
    let mid = choose|mid: Entries|
        #![trigger providers_cleaned(before, mid)]
        providers_cleaned(before, mid) && after == with_key(
            reroute_cleaned(mid),
            MODEL_PROVIDER_KEY@,
            string_item(OFFICIAL_PROVIDER_ID@),
        );
    lemma_top_keys_distinct();
    lemma_providers_cleaned(before, mid, MODEL_PROVIDER_KEY@, k);
    let x = string_item(OFFICIAL_PROVIDER_ID@);
    let r = reroute_cleaned(mid);
    let es1 = if str_item_text(get_live(mid, OPENAI_BASE_URL_KEY@)) == Some(EXTERNAL_URL@) {
        without_key(mid, OPENAI_BASE_URL_KEY@)
    } else {
        mid
    };
    lemma_lookup_with_key(r, MODEL_PROVIDER_KEY@, x, MODEL_PROVIDER_KEY@);
    lemma_get_live_with_key(r, MODEL_PROVIDER_KEY@, x, BEARER_TOKEN_KEY@);
    lemma_get_live_with_key(r, MODEL_PROVIDER_KEY@, x, OPENAI_BASE_URL_KEY@);
    lemma_get_live_with_key(r, MODEL_PROVIDER_KEY@, x, MODEL_PROVIDERS_KEY@);
    lemma_get_live_without_key(es1, BEARER_TOKEN_KEY@, BEARER_TOKEN_KEY@);
    lemma_get_live_without_key(es1, BEARER_TOKEN_KEY@, OPENAI_BASE_URL_KEY@);
    lemma_get_live_without_key(es1, BEARER_TOKEN_KEY@, MODEL_PROVIDERS_KEY@);
    lemma_get_live_without_key(mid, OPENAI_BASE_URL_KEY@, OPENAI_BASE_URL_KEY@);
    lemma_get_live_without_key(mid, OPENAI_BASE_URL_KEY@, MODEL_PROVIDERS_KEY@);
    // Every other setting reads as before.
    lemma_providers_cleaned(before, mid, q, k);
    lemma_providers_cleaned(before, mid, OPENAI_BASE_URL_KEY@, k);
    lemma_get_live_with_key(r, MODEL_PROVIDER_KEY@, x, q);
    lemma_get_live_without_key(es1, BEARER_TOKEN_KEY@, q);
    lemma_get_live_without_key(mid, OPENAI_BASE_URL_KEY@, q);
    if kept_definition(before, k) {
        lemma_providers_cleaned_keeps(before, mid, k);
    }
}

/// The managed provider's definition in a configuration: its table, when
/// `model_providers` is a table that defines it as a table.
pub open spec fn managed_provider_of(es: Entries) -> Option<toml_edit::Table> {
    match providers_of(es) {
        Some(t) => table_like(get_live(table_entries(t), EXTERNAL_PROVIDER_ID@)),
        None => None,
    }
}

/// An External profile selects the managed provider and the external model, keeps no
/// top-level bearer token and no reroute, and defines the managed provider (endpoint,
/// wire protocol, the official login kept, and the bearer token exactly when one is
/// given) as the only managed definition in `model_providers`; every other setting,
/// any other reroute and every provider definition that is not managed are kept as
/// they were.
pub proof fn law_external_profile_routes_externally(
    before: Entries,
    after: Entries,
    key: Option<Seq<char>>,
    k: Seq<char>,
    q: Seq<char>,
)
    requires
        well_formed(before),
        external_profile_of(before, after, key),
    ensures
        lookup(after, MODEL_PROVIDER_KEY@) == Some(string_item(EXTERNAL_PROVIDER_ID@)),
        lookup(after, MODEL_KEY@) == Some(string_item(EXTERNAL_MODEL@)),
        lookup(after, REVIEW_MODEL_KEY@) == Some(string_item(EXTERNAL_MODEL@)),
        get_live(after, BEARER_TOKEN_KEY@) is None,
        str_item_text(get_live(after, OPENAI_BASE_URL_KEY@)) != Some(EXTERNAL_URL@),
        providers_of(after) is Some,
        lookup(table_entries(providers_of(after)->0), EXTERNAL_PROVIDER_ID@) is Some,
        table_item(lookup(table_entries(providers_of(after)->0), EXTERNAL_PROVIDER_ID@)) matches Some(p)
            && table_entries(p) == provider_entries(key),
        k != EXTERNAL_PROVIDER_ID@ ==> (get_live(table_entries(providers_of(after)->0), k) matches Some(
            i,
        ) ==> !spec_is_external_provider_item(k, i)),
        kept_definition(before, k) ==> keeps_definition(before, after, k),
        q != MODEL_PROVIDER_KEY@ && q != MODEL_PROVIDERS_KEY@ && q != MODEL_KEY@ && q
            != REVIEW_MODEL_KEY@ && q != BEARER_TOKEN_KEY@ && q != OPENAI_BASE_URL_KEY@
            ==> get_live(after, q) == get_live(before, q),
        str_item_text(get_live(before, OPENAI_BASE_URL_KEY@)) != Some(EXTERNAL_URL@) ==> get_live(
            after,
            OPENAI_BASE_URL_KEY@,
        ) == get_live(before, OPENAI_BASE_URL_KEY@),
{
    let m1 = choose|m1: Entries|
        #![trigger providers_cleaned(before, m1)]
        providers_cleaned(before, m1) && providers_with_external(
            external_selected(reroute_cleaned(m1)),
            after,
            key,
        );
    lemma_top_keys_distinct();
    lemma_providers_cleaned(before, m1, MODEL_PROVIDER_KEY@, k);
    let r = reroute_cleaned(m1);
    let es1 = if str_item_text(get_live(m1, OPENAI_BASE_URL_KEY@)) == Some(EXTERNAL_URL@) {
        without_key(m1, OPENAI_BASE_URL_KEY@)
    } else {
        m1
    };
    let xp = string_item(EXTERNAL_PROVIDER_ID@);
    let xm = string_item(EXTERNAL_MODEL@);
    let m3 = with_key(r, MODEL_PROVIDER_KEY@, xp);
    let m4 = with_key(m3, MODEL_KEY@, xm);
    let m5 = with_key(m4, REVIEW_MODEL_KEY@, xm);
    let m6 = choose|m6: Entries|
        #![trigger provider_installed(m6, after, key)]
        (if table_like(get_live(m5, MODEL_PROVIDERS_KEY@)) is Some {
            m6 == m5
        } else {
            set_to_fresh_table(m5, m6, MODEL_PROVIDERS_KEY@)
        }) && table_like(get_live(m6, MODEL_PROVIDERS_KEY@)) is Some && provider_installed(
            m6,
            after,
            key,
        );
    let y = lookup(after, MODEL_PROVIDERS_KEY@)->0;
    // Every key but model_providers reads in `after` as in m5.
    assert forall|q: Seq<char>| q != MODEL_PROVIDERS_KEY@ implies lookup(after, q) == lookup(m5, q)
        && get_live(after, q) == get_live(m5, q) by {
        lemma_lookup_with_key(m6, MODEL_PROVIDERS_KEY@, y, q);
        if table_like(get_live(m5, MODEL_PROVIDERS_KEY@)) is None {
            lemma_lookup_with_key(m5, MODEL_PROVIDERS_KEY@, lookup(m6, MODEL_PROVIDERS_KEY@)->0, q);
        }
    }
    lemma_lookup_with_key(m4, REVIEW_MODEL_KEY@, xm, REVIEW_MODEL_KEY@);
    lemma_lookup_with_key(m4, REVIEW_MODEL_KEY@, xm, MODEL_KEY@);
    lemma_lookup_with_key(m4, REVIEW_MODEL_KEY@, xm, MODEL_PROVIDER_KEY@);
    lemma_lookup_with_key(m3, MODEL_KEY@, xm, MODEL_KEY@);
    lemma_lookup_with_key(m3, MODEL_KEY@, xm, MODEL_PROVIDER_KEY@);
    lemma_lookup_with_key(r, MODEL_PROVIDER_KEY@, xp, MODEL_PROVIDER_KEY@);
    lemma_get_live_with_key(m4, REVIEW_MODEL_KEY@, xm, BEARER_TOKEN_KEY@);
    lemma_get_live_with_key(m3, MODEL_KEY@, xm, BEARER_TOKEN_KEY@);
    lemma_get_live_with_key(r, MODEL_PROVIDER_KEY@, xp, BEARER_TOKEN_KEY@);
    lemma_get_live_with_key(m4, REVIEW_MODEL_KEY@, xm, OPENAI_BASE_URL_KEY@);
    lemma_get_live_with_key(m3, MODEL_KEY@, xm, OPENAI_BASE_URL_KEY@);
    lemma_get_live_with_key(r, MODEL_PROVIDER_KEY@, xp, OPENAI_BASE_URL_KEY@);
    lemma_get_live_with_key(m4, REVIEW_MODEL_KEY@, xm, MODEL_PROVIDERS_KEY@);
    lemma_get_live_with_key(m3, MODEL_KEY@, xm, MODEL_PROVIDERS_KEY@);
    lemma_get_live_with_key(r, MODEL_PROVIDER_KEY@, xp, MODEL_PROVIDERS_KEY@);
    lemma_get_live_without_key(es1, BEARER_TOKEN_KEY@, BEARER_TOKEN_KEY@);
    lemma_get_live_without_key(es1, BEARER_TOKEN_KEY@, OPENAI_BASE_URL_KEY@);
    lemma_get_live_without_key(es1, BEARER_TOKEN_KEY@, MODEL_PROVIDERS_KEY@);
    lemma_get_live_without_key(m1, OPENAI_BASE_URL_KEY@, OPENAI_BASE_URL_KEY@);
    lemma_get_live_without_key(m1, OPENAI_BASE_URL_KEY@, MODEL_PROVIDERS_KEY@);
    // The providers table of `after`.
    lemma_lookup_with_key(m6, MODEL_PROVIDERS_KEY@, y, MODEL_PROVIDERS_KEY@);
    let pt = table_like(get_live(m6, MODEL_PROVIDERS_KEY@))->0;
    let fin = table_entries(table_item(lookup(after, MODEL_PROVIDERS_KEY@))->0);
    let x = lookup(fin, EXTERNAL_PROVIDER_ID@)->0;
    assert(providers_of(after) == table_item(Some(y)));
    lemma_lookup_with_key(table_entries(pt), EXTERNAL_PROVIDER_ID@, x, k);
    if table_like(get_live(m5, MODEL_PROVIDERS_KEY@)) is Some {
        // the providers table of m5 is the cleaned one
        assert(get_live(m5, MODEL_PROVIDERS_KEY@) == get_live(m1, MODEL_PROVIDERS_KEY@));
    } else {
        // a fresh table holds nothing
        lemma_lookup_with_key(m5, MODEL_PROVIDERS_KEY@, lookup(m6, MODEL_PROVIDERS_KEY@)->0, MODEL_PROVIDERS_KEY@);
    }
    // Every other setting reads as before.
    lemma_providers_cleaned(before, m1, q, k);
    lemma_providers_cleaned(before, m1, OPENAI_BASE_URL_KEY@, k);
    lemma_get_live_with_key(m4, REVIEW_MODEL_KEY@, xm, q);
    lemma_get_live_with_key(m3, MODEL_KEY@, xm, q);
    lemma_get_live_with_key(r, MODEL_PROVIDER_KEY@, xp, q);
    lemma_get_live_without_key(es1, BEARER_TOKEN_KEY@, q);
    lemma_get_live_without_key(m1, OPENAI_BASE_URL_KEY@, q);
    if kept_definition(before, k) {
        lemma_providers_cleaned_keeps(before, m1, k);
        assert(k != EXTERNAL_PROVIDER_ID@);
    }
}

/// The bearer token is the only difference between an External profile with a token
/// and one without: taking the token out of the provider's entries gives those of a
/// profile made with none.
pub proof fn law_secret_is_the_only_difference(key: Seq<char>)
    ensures
        without_key(provider_entries(Some(key)), BEARER_TOKEN_KEY@) == provider_entries(None),
{
    crate::profiles::lemma_provider_keys_distinct_pub();
    let e = provider_entries(Some(key));
    let t = BEARER_TOKEN_KEY@;
    let e5 = e.drop_first();
    let e4 = e5.drop_first();
    let e3 = e4.drop_first();
    let e2 = e3.drop_first();
    let e1 = e2.drop_first();
    assert(e1.len() == 0);
    assert(without_key(e1, t) =~= e1);
    assert(without_key(e2, t) =~= e2);
    assert(without_key(e3, t) =~= e2);
    assert(without_key(e4, t) =~= e4.take(1) + e2);
    assert(without_key(e5, t) =~= e5.take(2) + e2);
    assert(without_key(e, t) =~= provider_entries(None));
}

/// Once the secret is removed, the managed provider defines no bearer token, and keeps
/// every other field.
pub proof fn law_secret_removed(before: Entries, after: Entries, q: Seq<char>)
    requires
        secret_removed(before, after),
        managed_provider_of(before) is Some,
    ensures
        providers_of(after) is Some,
        table_like(get_live(table_entries(providers_of(after)->0), EXTERNAL_PROVIDER_ID@)) matches Some(
            p,
        ) && get_live(table_entries(p), BEARER_TOKEN_KEY@) is None && (q != BEARER_TOKEN_KEY@
            ==> get_live(table_entries(p), q) == get_live(
            table_entries(managed_provider_of(before)->0),
            q,
        )),
{
    let mp0 = providers_of(before)->0;
    if !(crate::profiles::is_standard_table(get_live(before, MODEL_PROVIDERS_KEY@))
        && crate::profiles::is_standard_table(get_live(table_entries(mp0), EXTERNAL_PROVIDER_ID@)))
        && get_live(table_entries(managed_provider_of(before)->0), BEARER_TOKEN_KEY@) is None {
        return;
    }
    let y = lookup(after, MODEL_PROVIDERS_KEY@)->0;
    let mp = providers_of(before)->0;
    lemma_lookup_with_key(before, MODEL_PROVIDERS_KEY@, y, MODEL_PROVIDERS_KEY@);
    let fin = table_entries(table_item(lookup(after, MODEL_PROVIDERS_KEY@))->0);
    let x = lookup(fin, EXTERNAL_PROVIDER_ID@)->0;
    let p = table_item(Some(x))->0;
    assert(providers_of(after) == table_item(Some(y)));
    assert(is_live(x));
    assert(get_live(fin, EXTERNAL_PROVIDER_ID@) == Some(x));
    assert(table_like(Some(x)) == Some(p));
    lemma_get_live_without_key(
        table_entries(managed_provider_of(before)->0),
        BEARER_TOKEN_KEY@,
        q,
    );
    lemma_get_live_without_key(
        table_entries(managed_provider_of(before)->0),
        BEARER_TOKEN_KEY@,
        BEARER_TOKEN_KEY@,
    );
}

/// Membership in `unowned`.
pub proof fn lemma_unowned(ks: Seq<Seq<char>>, q: Seq<char>)
    ensures
        unowned(ks).contains(q) <==> ks.contains(q) && !is_owned(q),
    decreases ks.len(),
{
    if ks.len() > 0 {
        lemma_unowned(ks.drop_last(), q);
        lemma_contains_last(ks, q);
        let r = unowned(ks.drop_last());
        lemma_contains_push(r, ks.last(), q);
    }
}

/// Membership in `missing_from`.
pub proof fn lemma_missing_from(ks: Seq<Seq<char>>, other: Seq<Seq<char>>, q: Seq<char>)
    ensures
        missing_from(ks, other).contains(q) <==> ks.contains(q) && !other.contains(q),
    decreases ks.len(),
{
    if ks.len() > 0 {
        lemma_missing_from(ks.drop_last(), other, q);
        lemma_contains_last(ks, q);
        let r = missing_from(ks.drop_last(), other);
        lemma_contains_push(r, ks.last(), q);
    }
}

/// Membership in a non-empty sequence, split at its last element.
pub proof fn lemma_contains_last(ks: Seq<Seq<char>>, q: Seq<char>)
    requires
        ks.len() > 0,
    ensures
        ks.contains(q) <==> ks.drop_last().contains(q) || ks.last() == q,
{
    if ks.contains(q) && ks.last() != q {
        let i = choose|i: int| 0 <= i < ks.len() && ks[i] == q;
        assert(ks.drop_last()[i] == q);
    }
    if ks.drop_last().contains(q) {
        let i = choose|i: int| 0 <= i < ks.drop_last().len() && ks.drop_last()[i] == q;
        assert(ks[i] == q);
    }
    if ks.last() == q {
        assert(ks[ks.len() - 1] == q);
    }
}

/// Membership after a push.
pub proof fn lemma_contains_push(r: Seq<Seq<char>>, k: Seq<char>, q: Seq<char>)
    ensures
        r.push(k).contains(q) <==> r.contains(q) || k == q,
{
    lemma_contains_last(r.push(k), q);
    assert(r.push(k).drop_last() =~= r);
}

/// Looking a key up after the pairs of `pairs_for` are set.
pub proof fn lemma_last_put_pairs_for(es: Entries, src: Entries, ks: Seq<Seq<char>>, q: Seq<char>)
    ensures
        last_put(es, pairs_for(src, ks), q) == if ks.contains(q) && get_live(src, q) is Some {
            get_live(src, q)
        } else {
            lookup(es, q)
        },
    decreases ks.len(),
{
    if ks.len() > 0 {
        lemma_last_put_pairs_for(es, src, ks.drop_last(), q);
        lemma_contains_last(ks, q);
        let r = pairs_for(src, ks.drop_last());
        match get_live(src, ks.last()) {
            Some(i) => {
                assert(r.push((ks.last(), i)).drop_last() =~= r);
            },
            None => {},
        }
    }
}

/// A sync carries every common setting over from the source: each key that no mode
/// owns reads in the result as it reads in the source.
pub proof fn law_sync_carries_common_settings(src: Entries, tgt: Entries, after: Entries, q: Seq<char>)
    requires
        distinct_keys(src),
        distinct_keys(tgt),
        sync_of(src, tgt, after),
        !is_owned(q),
    ensures
        get_live(after, q) == get_live(src, q),
{
    let sk = unowned(live_keys(src));
    let tk = unowned(live_keys(tgt));
    let a = without_keys(tgt, missing_from(tk, sk));
    let b = synced_common(src, tgt);
    assert(q != MODEL_PROVIDERS_KEY@);
    lemma_sync_providers_other_keys(src, b, after, q);
    lemma_lookup_put_all(a, pairs_for(src, sk), q);
    lemma_last_put_pairs_for(a, src, sk, q);
    lemma_unowned(live_keys(src), q);
    lemma_unowned(live_keys(tgt), q);
    lemma_missing_from(tk, sk, q);
    lemma_live_keys(src, q);
    lemma_live_keys(tgt, q);
    lemma_lookup_without_keys(tgt, missing_from(tk, sk), q);
}

/// A sync leaves the settings that a mode owns (but the providers) as the target had
/// them.
pub proof fn law_sync_keeps_owned_settings(src: Entries, tgt: Entries, after: Entries, q: Seq<char>)
    requires
        sync_of(src, tgt, after),
        is_owned(q),
        q != MODEL_PROVIDERS_KEY@,
    ensures
        get_live(after, q) == get_live(tgt, q),
{
    let sk = unowned(live_keys(src));
    let tk = unowned(live_keys(tgt));
    let a = without_keys(tgt, missing_from(tk, sk));
    let b = synced_common(src, tgt);
    lemma_sync_providers_other_keys(src, b, after, q);
    lemma_lookup_put_all(a, pairs_for(src, sk), q);
    lemma_last_put_pairs_for(a, src, sk, q);
    lemma_unowned(live_keys(src), q);
    lemma_unowned(live_keys(tgt), q);
    lemma_missing_from(tk, sk, q);
    lemma_lookup_without_keys(tgt, missing_from(tk, sk), q);
}

/// A sync never carries a managed provider definition over: the result's providers
/// table holds none, and holds every other definition of the source's table.
pub proof fn law_sync_never_leaks_managed_provider(
    src: Entries,
    tgt: Entries,
    after: Entries,
    k: Seq<char>,
)
    requires
        well_formed(src),
        sync_of(src, tgt, after),
        providers_of(src) is Some,
    ensures
        providers_of(after) matches Some(t) ==> (get_live(table_entries(t), k) matches Some(i)
            ==> !spec_is_external_provider_item(k, i)),
        get_live(table_entries(providers_of(src)->0), k) is Some && !spec_is_external_provider_item(
            k,
            get_live(table_entries(providers_of(src)->0), k)->0,
        ) ==> providers_of(after) is Some && get_live(table_entries(providers_of(after)->0), k)
            == get_live(table_entries(providers_of(src)->0), k),
{
    let b = synced_common(src, tgt);
    let mp = providers_of(src)->0;
    lemma_without_external(table_entries(mp), k);
    let kept = without_external(table_entries(mp));
    if crate::profiles::untouched_inline(get_live(src, MODEL_PROVIDERS_KEY@)) {
        let item = get_live(src, MODEL_PROVIDERS_KEY@)->0;
        lemma_get_live_with_key_refreshed(b, MODEL_PROVIDERS_KEY@, item, MODEL_PROVIDERS_KEY@);
        assert(kept == table_entries(mp));
    } else if crate::toml_doc::has_live(kept) {
        let x = lookup(after, MODEL_PROVIDERS_KEY@)->0;
        lemma_get_live_with_key_refreshed(b, MODEL_PROVIDERS_KEY@, x, MODEL_PROVIDERS_KEY@);
    } else {
        lemma_get_live_without_key(b, MODEL_PROVIDERS_KEY@, MODEL_PROVIDERS_KEY@);
        if get_live(table_entries(mp), k) matches Some(i) && !spec_is_external_provider_item(k, i) {
            crate::toml_doc::lemma_get_live_has_live(kept, k);
        }
    }
}

/// Away from `model_providers`, the last step of a sync changes nothing.
pub proof fn lemma_sync_providers_other_keys(src: Entries, b: Entries, after: Entries, q: Seq<char>)
    requires
        providers_synced(src, b, after),
        q != MODEL_PROVIDERS_KEY@,
    ensures
        get_live(after, q) == get_live(b, q),
{
    lemma_get_live_without_key(b, MODEL_PROVIDERS_KEY@, q);
    if lookup(after, MODEL_PROVIDERS_KEY@) is Some {
        lemma_get_live_with_key_refreshed(b, MODEL_PROVIDERS_KEY@, lookup(after, MODEL_PROVIDERS_KEY@)->0, q);
    }
    match get_live(src, MODEL_PROVIDERS_KEY@) {
        Some(item) => {
            lemma_get_live_with_key_refreshed(b, MODEL_PROVIDERS_KEY@, item, q);
        },
        None => {},
    }
}


/// The setting names that each mode keeps for itself, written out.
pub open spec fn mode_setting(q: Seq<char>) -> bool {
    q == "model_provider"@ || q == "model"@ || q == "review_model"@
}

/// A sync keeps the target's `model_provider`, `model` and `review_model` exactly as the
/// target had them, whatever the source holds.
pub proof fn law_sync_keeps_mode_settings(src: Entries, tgt: Entries, after: Entries, q: Seq<char>)
    requires
        sync_of(src, tgt, after),
        mode_setting(q),
    ensures
        get_live(after, q) == get_live(tgt, q),
{
    reveal_strlit("model_provider");
    reveal_strlit("model");
    reveal_strlit("review_model");
    reveal_strlit("model_providers");
    lemma_top_keys_distinct();
    law_sync_keeps_owned_settings(src, tgt, after, q);
}

/// A sync carries every top-level setting but `model_provider`, `model`, `review_model`
/// and `model_providers` over from the source, as the source has it (absent where the
/// source lacks it).
pub proof fn law_sync_carries_other_settings(src: Entries, tgt: Entries, after: Entries, q: Seq<char>)
    requires
        distinct_keys(src),
        distinct_keys(tgt),
        sync_of(src, tgt, after),
        !mode_setting(q),
        q != "model_providers"@,
    ensures
        get_live(after, q) == get_live(src, q),
{
    reveal_strlit("model_provider");
    reveal_strlit("model");
    reveal_strlit("review_model");
    reveal_strlit("model_providers");
    law_sync_carries_common_settings(src, tgt, after, q);
}

/// What `sync_common` returns is the rendering of the target document in which
/// `model_provider`, `model` and `review_model` read as in the target, and every other
/// setting but `model_providers` reads as in the source.
pub proof fn law_sync_common_text(source: Seq<char>, target: Seq<char>, s: Seq<char>)
    requires
        sync_result(source, target, Ok(s)),
    ensures
        exists|sd: toml_edit::DocumentMut, td: toml_edit::DocumentMut, d2: toml_edit::DocumentMut|
            {
                &&& parses_to(source, sd)
                &&& parses_to(target, td)
                &&& s == toml_edit_render(d2)
                &&& forall|q: Seq<char>|
                    #![trigger get_live(doc_entries(d2), q)]
                    mode_setting(q) ==> get_live(doc_entries(d2), q) == get_live(doc_entries(td), q)
                &&& forall|q: Seq<char>|
                    #![trigger get_live(doc_entries(d2), q)]
                    !mode_setting(q) && q != "model_providers"@ ==> get_live(doc_entries(d2), q)
                        == get_live(doc_entries(sd), q)
            },
{
    let (sd, td, d2) = choose|sd: toml_edit::DocumentMut, td: toml_edit::DocumentMut, d2: toml_edit::DocumentMut|
        parses_to(source, sd) && parses_to(target, td) && synced_document_of(sd, td, d2) && s
            == toml_edit_render(d2);
    assert forall|q: Seq<char>| mode_setting(q) implies #[trigger] get_live(doc_entries(d2), q)
        == get_live(doc_entries(td), q) by {
        law_sync_keeps_mode_settings(doc_entries(sd), doc_entries(td), doc_entries(d2), q);
    }
    assert forall|q: Seq<char>| !mode_setting(q) && q != "model_providers"@ implies #[trigger] get_live(
        doc_entries(d2),
        q,
    ) == get_live(doc_entries(sd), q) by {
        law_sync_carries_other_settings(doc_entries(sd), doc_entries(td), doc_entries(d2), q);
    }
}


/// A provider definition is managed exactly when its id is `ExternalAPI`, or when it is
/// a standard table whose `base_url` is the string `https://code.adinsolution.link`;
/// its other fields (a token among them) play no part.
pub proof fn law_managed_provider(id: Seq<char>, item: toml_edit::Item)
    ensures
        spec_is_external_provider_item(id, item) <==> (id == "ExternalAPI"@ || (item_shape(item) matches ItemShape::Table(t)
            && str_item_text(get_live(table_entries(t), "base_url"@)) == Some(
            "https://code.adinsolution.link"@,
        ))),
{
    reveal_strlit("ExternalAPI");
    reveal_strlit("base_url");
    reveal_strlit("https://code.adinsolution.link");
}

/// The providers table of `es` defines `k` with a definition that is neither
/// `ExternalAPI` nor a standard table at the external endpoint.
pub open spec fn foreign_definition(es: Entries, k: Seq<char>) -> bool {
    &&& k != "ExternalAPI"@
    &&& providers_of(es) matches Some(t) && (get_live(table_entries(t), k) matches Some(i) && !(
    item_shape(i) matches ItemShape::Table(u) && str_item_text(get_live(table_entries(u), "base_url"@))
        == Some("https://code.adinsolution.link"@)))
}

/// A Plus profile keeps every foreign provider definition as it was, whatever fields it
/// holds.
pub proof fn law_plus_keeps_foreign_providers(before: Entries, after: Entries, k: Seq<char>)
    requires
        well_formed(before),
        plus_profile_of(before, after),
        foreign_definition(before, k),
    ensures
        keeps_definition(before, after, k),
{
    let i = get_live(table_entries(providers_of(before)->0), k)->0;
    law_managed_provider(k, i);
    law_plus_profile_is_official(before, after, k, k);
}

/// An External profile keeps every foreign provider definition as it was, whatever
/// fields it holds.
pub proof fn law_external_keeps_foreign_providers(
    before: Entries,
    after: Entries,
    key: Option<Seq<char>>,
    k: Seq<char>,
)
    requires
        well_formed(before),
        external_profile_of(before, after, key),
        foreign_definition(before, k),
    ensures
        keeps_definition(before, after, k),
{
    let i = get_live(table_entries(providers_of(before)->0), k)->0;
    law_managed_provider(k, i);
    law_external_profile_routes_externally(before, after, key, k, k);
}

/// What `apply_plus` returns is the rendering of a document that keeps every foreign
/// provider definition of the parsed input.
pub proof fn law_apply_plus_keeps_foreign_providers(text: Seq<char>, s: Seq<char>, k: Seq<char>)
    requires
        plus_result(text, Ok(s)),
    ensures
        exists|d: toml_edit::DocumentMut, d2: toml_edit::DocumentMut|
            #![trigger parses_to(text, d), toml_edit_render(d2)]
            {
                &&& parses_to(text, d)
                &&& s == toml_edit_render(d2)
                &&& foreign_definition(doc_entries(d), k) ==> keeps_definition(
                    doc_entries(d),
                    doc_entries(d2),
                    k,
                )
            },
{
    let (d, d2) = choose|d: toml_edit::DocumentMut, d2: toml_edit::DocumentMut|
        parses_to(text, d) && plus_document_of(d, d2) && s == toml_edit_render(d2);
    lemma_parsed_well_formed(text, d);
    if foreign_definition(doc_entries(d), k) {
        law_plus_keeps_foreign_providers(doc_entries(d), doc_entries(d2), k);
    }
    assert(parses_to(text, d) && s == toml_edit_render(d2) && (foreign_definition(doc_entries(d), k)
        ==> keeps_definition(doc_entries(d), doc_entries(d2), k)));
}

} // verus!
