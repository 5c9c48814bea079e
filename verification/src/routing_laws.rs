//! What the mode of a configuration and its external routing mean, stated on what the
//! `toml` crate reads from the text, with the keys and values written out.
use vstd::prelude::*;
use crate::flows::spec_routing_ok;
use crate::routing::{
    external_token_of, first_external_token, spec_detect_mode, spec_find_external_bearer_token, Mode,
    BASE_URL_KEY, BEARER_TOKEN_KEY, EXTERNAL_PROVIDER_ID, EXTERNAL_URL, MODEL_PROVIDERS_KEY,
    OFFICIAL_PROVIDER_ID,
};
use crate::text::is_blank;
use crate::toml_read::{bool_of, get_in, lookup_value, str_of, table_of, toml_read_view, TomlView};

verus! {

/// The string under `model_provider` in the document read from `text`.
pub open spec fn selected_provider(text: Seq<char>) -> Option<Seq<char>> {
    str_of(get_in(toml_read_view(text), "model_provider"@))
}

/// The field `field` of the definition `model_providers.<id>` in the document read from
/// `text`.
pub open spec fn definition_field(text: Seq<char>, id: Seq<char>, field: Seq<char>) -> Option<
    TomlView,
> {
    get_in(get_in(get_in(toml_read_view(text), "model_providers"@), id), field)
}

/// The selected provider's definition points at the external endpoint.
pub open spec fn routed_externally(text: Seq<char>, p: Seq<char>) -> bool {
    str_of(definition_field(text, p, "base_url"@)) == Some("https://code.adinsolution.link"@)
}

/// The mode of a configuration: External when it selects `ExternalAPI` or a provider
/// whose definition's `base_url` is the external endpoint; otherwise Plus when it
/// selects `openai` or nothing, and Unknown when it selects any other provider.
pub proof fn law_detect_mode(text: Seq<char>)
    ensures
        selected_provider(text) == Some("ExternalAPI"@) ==> spec_detect_mode(text) == Mode::External,
        selected_provider(text) matches Some(p) && routed_externally(text, p) ==> spec_detect_mode(text)
            == Mode::External,
        selected_provider(text) is None ==> spec_detect_mode(text) == Mode::Plus,
        selected_provider(text) == Some("openai"@) && !routed_externally(text, "openai"@)
            ==> spec_detect_mode(text) == Mode::Plus,
        selected_provider(text) matches Some(p) && p != "ExternalAPI"@ && p != "openai"@
            && !routed_externally(text, p) ==> spec_detect_mode(text) == Mode::Unknown,
{
    reveal_strlit("model_provider");
    reveal_strlit("model_providers");
    reveal_strlit("base_url");
    reveal_strlit("ExternalAPI");
    reveal_strlit("openai");
    reveal_strlit("https://code.adinsolution.link");
    assert(EXTERNAL_PROVIDER_ID@ == "ExternalAPI"@);
    assert(OFFICIAL_PROVIDER_ID@ == "openai"@);
    assert(EXTERNAL_URL@ == "https://code.adinsolution.link"@);
}

/// A live configuration routes externally as it should exactly when it selects
/// `ExternalAPI`, and `model_providers.ExternalAPI` points at the external endpoint,
/// holds a bearer token that is not blank, and has `requires_openai_auth` set to the
/// boolean `true`.
pub proof fn law_routing_ok(live: Seq<char>)
    ensures
        spec_routing_ok(live) <==> {
            &&& selected_provider(live) == Some("ExternalAPI"@)
            &&& routed_externally(live, "ExternalAPI"@)
            &&& str_of(definition_field(live, "ExternalAPI"@, "experimental_bearer_token"@)) matches Some(t)
                && !is_blank(t)
            &&& bool_of(definition_field(live, "ExternalAPI"@, "requires_openai_auth"@)) == Some(true)
        },
{
    reveal_strlit("model_provider");
    reveal_strlit("model_providers");
    reveal_strlit("base_url");
    reveal_strlit("ExternalAPI");
    reveal_strlit("experimental_bearer_token");
    reveal_strlit("requires_openai_auth");
    reveal_strlit("https://code.adinsolution.link");
}


/// A provider definition `(id, v)` from which the external token is taken: a table,
/// with id `ExternalAPI` or `base_url` the external endpoint, holding a
/// `experimental_bearer_token` string that is not blank.
pub open spec fn token_source(id: Seq<char>, v: TomlView) -> bool {
    v matches TomlView::Table(fs) && (id == "ExternalAPI"@ || str_of(lookup_value(fs, "base_url"@))
        == Some("https://code.adinsolution.link"@)) && (str_of(
        lookup_value(fs, "experimental_bearer_token"@),
    ) matches Some(t) && !is_blank(t))
}

/// The token of a definition.
pub open spec fn token_of(v: TomlView) -> Option<Seq<char>> {
    match v {
        TomlView::Table(fs) => str_of(lookup_value(fs, "experimental_bearer_token"@)),
        _ => None,
    }
}

proof fn lemma_token_of_entry(id: Seq<char>, v: TomlView)
    ensures
        external_token_of(id, v) == if token_source(id, v) {
            token_of(v)
        } else {
            None
        },
{
    reveal_strlit("ExternalAPI");
    reveal_strlit("base_url");
    reveal_strlit("experimental_bearer_token");
    reveal_strlit("https://code.adinsolution.link");
    assert(EXTERNAL_PROVIDER_ID@ == "ExternalAPI"@);
    assert(EXTERNAL_URL@ == "https://code.adinsolution.link"@);
    assert(BASE_URL_KEY@ == "base_url"@);
    assert(BEARER_TOKEN_KEY@ == "experimental_bearer_token"@);
}

proof fn lemma_first_token(es: Seq<(Seq<char>, TomlView)>)
    ensures
        first_external_token(es) matches Some(t) ==> exists|i: int|
            0 <= i < es.len() && token_source(es[i].0, es[i].1) && token_of(#[trigger] es[i].1)
                == Some(t),
        (exists|i: int| 0 <= i < es.len() && #[trigger] token_source(es[i].0, es[i].1))
            ==> first_external_token(es) is Some,
    decreases es.len(),
{
    if es.len() > 0 {
        let r = es.drop_first();
        lemma_first_token(r);
        lemma_token_of_entry(es[0].0, es[0].1);
        if let Some(t) = first_external_token(es) {
            if external_token_of(es[0].0, es[0].1) is None {
                let i = choose|i: int|
                    0 <= i < r.len() && token_source(r[i].0, r[i].1) && token_of(#[trigger] r[i].1)
                        == Some(t);
                assert(es[i + 1] == r[i]);
            } else {
                assert(token_of(es[0].1) == Some(t));
            }
        }
        if exists|i: int| 0 <= i < es.len() && #[trigger] token_source(es[i].0, es[i].1) {
            let i = choose|i: int| 0 <= i < es.len() && #[trigger] token_source(es[i].0, es[i].1);
            if i > 0 {
                assert(r[i - 1] == es[i]);
                assert(token_source(r[i - 1].0, r[i - 1].1));
            }
        }
    }
}

/// The external token of a configuration is the token of one of its external provider
/// definitions (by id or by endpoint) that is not blank, of the first such definition in
/// table order; there is one exactly when some such definition exists.
pub proof fn law_external_token(text: Seq<char>)
    ensures
        table_of(get_in(toml_read_view(text), "model_providers"@)) matches Some(es) && {
            &&& spec_find_external_bearer_token(text) matches Some(t) ==> exists|i: int|
                0 <= i < es.len() && token_source(es[i].0, es[i].1) && token_of(#[trigger] es[i].1)
                    == Some(t) && forall|j: int|
                    0 <= j < i ==> !#[trigger] token_source(es[j].0, es[j].1)
            &&& (exists|i: int| 0 <= i < es.len() && #[trigger] token_source(es[i].0, es[i].1))
                <==> spec_find_external_bearer_token(text) is Some
        } || (table_of(get_in(toml_read_view(text), "model_providers"@)) is None
            && spec_find_external_bearer_token(text) is None),
{
    reveal_strlit("model_providers");
    assert(MODEL_PROVIDERS_KEY@ == "model_providers"@);
    if let Some(es) = table_of(get_in(toml_read_view(text), "model_providers"@)) {
        lemma_first_token(es);
        lemma_first_token_is_first(es);
    }
}

proof fn lemma_first_token_is_first(es: Seq<(Seq<char>, TomlView)>)
    ensures
        first_external_token(es) matches Some(t) ==> exists|i: int|
            0 <= i < es.len() && token_source(es[i].0, es[i].1) && token_of(#[trigger] es[i].1)
                == Some(t) && forall|j: int| 0 <= j < i ==> !#[trigger] token_source(es[j].0, es[j].1),
    decreases es.len(),
{
    if es.len() > 0 {
        let r = es.drop_first();
        lemma_first_token_is_first(r);
        lemma_token_of_entry(es[0].0, es[0].1);
        if let Some(t) = first_external_token(es) {
            if external_token_of(es[0].0, es[0].1) is None {
                let i = choose|i: int|
                    0 <= i < r.len() && token_source(r[i].0, r[i].1) && token_of(#[trigger] r[i].1)
                        == Some(t) && forall|j: int| 0 <= j < i ==> !#[trigger] token_source(r[j].0, r[j].1);
                assert(es[i + 1] == r[i]);
                assert forall|j: int| 0 <= j < i + 1 implies !#[trigger] token_source(es[j].0, es[j].1) by {
                    if j > 0 {
                        assert(es[j] == r[j - 1]);
                    }
                }
            } else {
                assert(token_of(es[0].1) == Some(t));
            }
        }
    }
}

} // verus!
