//! Reading the routing of a live configuration: which provider it selects, where
//! that provider sends requests, and which mode the configuration is in.
use vstd::prelude::*;
use crate::text::{blank, is_blank, str_eq};
use crate::toml_read::{
    as_bool, as_str, as_table, bool_of, get, get_in, keys, lookup_value, map_view,
    opt_value_view, parse_value, str_of, table_get, table_of, toml_read_view, value_view,
    TomlView,
};

verus! {

/// The id of the provider that this application manages.
pub const EXTERNAL_PROVIDER_ID: &'static str = "ExternalAPI";

/// The endpoint of the external provider.
pub const EXTERNAL_URL: &'static str = "https://code.adinsolution.link";

/// The model served by the external provider.
pub const EXTERNAL_MODEL: &'static str = "gpt-5.5";

/// The provider id of the official login.
pub const OFFICIAL_PROVIDER_ID: &'static str = "openai";

/// The top-level key that selects the provider.
pub const MODEL_PROVIDER_KEY: &'static str = "model_provider";

/// The top-level table of provider definitions.
pub const MODEL_PROVIDERS_KEY: &'static str = "model_providers";

/// The provider field that holds the endpoint.
pub const BASE_URL_KEY: &'static str = "base_url";

/// The provider field that holds the bearer token.
pub const BEARER_TOKEN_KEY: &'static str = "experimental_bearer_token";

/// The provider field that keeps the official login alive.
pub const REQUIRES_AUTH_KEY: &'static str = "requires_openai_auth";

/// The two modes the application switches between, and the case where the live
/// configuration is in neither.
#[derive(PartialEq, Eq, Structural, Clone, Copy, Debug)]
pub enum Mode {
    Plus,
    External,
    Unknown,
}

/// The view of an optional string.
pub open spec fn opt_view(o: Option<String>) -> Option<Seq<char>> {
    match o {
        Some(s) => Some(s@),
        None => None,
    }
}

/// The `model_provider` string of a configuration text.
pub open spec fn spec_model_provider(text: Seq<char>) -> Option<Seq<char>> {
    str_of(get_in(toml_read_view(text), MODEL_PROVIDER_KEY@))
}

/// The field `field` of the provider `id` under `model_providers`.
pub open spec fn provider_field(text: Seq<char>, id: Seq<char>, field: Seq<char>) -> Option<
    TomlView,
> {
    get_in(get_in(get_in(toml_read_view(text), MODEL_PROVIDERS_KEY@), id), field)
}

/// A string that is not blank.
pub open spec fn non_blank(s: Option<Seq<char>>) -> Option<Seq<char>> {
    match s {
        Some(t) => if is_blank(t) {
            None
        } else {
            Some(t)
        },
        None => None,
    }
}

pub open spec fn spec_provider_base_url(text: Seq<char>, id: Seq<char>) -> Option<Seq<char>> {
    str_of(provider_field(text, id, BASE_URL_KEY@))
}

pub open spec fn spec_provider_bearer_token(text: Seq<char>, id: Seq<char>) -> Option<Seq<char>> {
    non_blank(str_of(provider_field(text, id, BEARER_TOKEN_KEY@)))
}

pub open spec fn spec_provider_requires_auth(text: Seq<char>, id: Seq<char>) -> Option<bool> {
    bool_of(provider_field(text, id, REQUIRES_AUTH_KEY@))
}

/// The token that the provider `(id, provider)` holds, if it is the external provider
/// (by id or by endpoint) and its token is not blank.
pub open spec fn external_token_of(id: Seq<char>, provider: TomlView) -> Option<Seq<char>> {
    match provider {
        TomlView::Table(es) => {
            if id == EXTERNAL_PROVIDER_ID@ || str_of(lookup_value(es, BASE_URL_KEY@)) == Some(
                EXTERNAL_URL@,
            ) {
                non_blank(str_of(lookup_value(es, BEARER_TOKEN_KEY@)))
            } else {
                None
            }
        },
        _ => None,
    }
}

/// The token of the first provider, in table order, that `external_token_of` accepts.
pub open spec fn first_external_token(es: Seq<(Seq<char>, TomlView)>) -> Option<Seq<char>>
    decreases es.len(),
{
    if es.len() == 0 {
        None
    } else {
        match external_token_of(es[0].0, es[0].1) {
            Some(t) => Some(t),
            None => first_external_token(es.drop_first()),
        }
    }
}

/// The external token of a parsed document: that of the first external provider
/// definition, in table order, that holds a non-blank token.
pub open spec fn external_token_of_doc(doc: Option<TomlView>) -> Option<Seq<char>> {
    match table_of(get_in(doc, MODEL_PROVIDERS_KEY@)) {
        Some(es) => first_external_token(es),
        None => None,
    }
}

pub open spec fn spec_find_external_bearer_token(text: Seq<char>) -> Option<Seq<char>> {
    external_token_of_doc(toml_read_view(text))
}

/// The mode of a configuration text.
pub open spec fn spec_detect_mode(text: Seq<char>) -> Mode {
    mode_of_doc(toml_read_view(text))
}

/// The mode of a parsed document (`None` for a text that did not parse).
pub open spec fn mode_of_doc(doc: Option<TomlView>) -> Mode {
    let provider = str_of(get_in(doc, MODEL_PROVIDER_KEY@));
    if provider == Some(EXTERNAL_PROVIDER_ID@) {
        Mode::External
    } else if provider is Some && str_of(
        get_in(get_in(get_in(doc, MODEL_PROVIDERS_KEY@), provider->0), BASE_URL_KEY@),
    ) == Some(EXTERNAL_URL@) {
        Mode::External
    } else if provider == Some(OFFICIAL_PROVIDER_ID@) || provider is None {
        Mode::Plus
    } else {
        Mode::Unknown
    }
}

fn str_of_value(v: Option<&toml::Value>) -> (r: Option<String>)
    ensures
        opt_view(r) == str_of(opt_value_view(v)),
{
    match v {
        Some(x) => match as_str(x) {
            Some(s) => Some(s.to_owned()),
            None => None,
        },
        None => None,
    }
}

fn provider_value<'a>(doc: &'a Option<toml::Value>, id: &str, field: &str) -> (r: Option<
    &'a toml::Value,
>)
    ensures
        opt_value_view(r) == get_in(
            get_in(
                get_in(
                    match doc {
                        Some(v) => Some(value_view(*v)),
                        None => None,
                    },
                    MODEL_PROVIDERS_KEY@,
                ),
                id@,
            ),
            field@,
        ),
{
    match doc {
        Some(v) => match get(v, MODEL_PROVIDERS_KEY) {
            Some(providers) => match get(providers, id) {
                Some(p) => get(p, field),
                None => None,
            },
            None => None,
        },
        None => None,
    }
}

/// The `model_provider` string of the configuration, if the text is TOML and the key
/// holds a string.
pub fn model_provider(text: &str) -> (r: Option<String>)
    ensures
        opt_view(r) == spec_model_provider(text@),
{
    let doc = parse_value(text);
    match &doc {
        Some(v) => str_of_value(get(v, MODEL_PROVIDER_KEY)),
        None => None,
    }
}

/// The `base_url` string of the provider `provider_id`.
pub fn provider_base_url(text: &str, provider_id: &str) -> (r: Option<String>)
    ensures
        opt_view(r) == spec_provider_base_url(text@, provider_id@),
{
    let doc = parse_value(text);
    str_of_value(provider_value(&doc, provider_id, BASE_URL_KEY))
}

/// The bearer token of the provider `provider_id`, unless it is blank.
pub fn provider_bearer_token(text: &str, provider_id: &str) -> (r: Option<String>)
    ensures
        opt_view(r) == spec_provider_bearer_token(text@, provider_id@),
{
    let doc = parse_value(text);
    match str_of_value(provider_value(&doc, provider_id, BEARER_TOKEN_KEY)) {
        Some(s) => if blank(s.as_str()) {
            None
        } else {
            Some(s)
        },
        None => None,
    }
}

/// The `requires_openai_auth` flag of the provider `provider_id`.
pub fn provider_requires_auth(text: &str, provider_id: &str) -> (r: Option<bool>)
    ensures
        r == spec_provider_requires_auth(text@, provider_id@),
{
    let doc = parse_value(text);
    match provider_value(&doc, provider_id, REQUIRES_AUTH_KEY) {
        Some(v) => as_bool(v),
        None => None,
    }
}

/// The token of the first external provider definition (by id or by endpoint) that
/// holds a non-blank token, in the order in which the table of providers is walked.
pub fn find_external_bearer_token(text: &str) -> (r: Option<String>)
    ensures
        opt_view(r) == spec_find_external_bearer_token(text@),
{
    let doc = parse_value(text);
    match &doc {
        Some(v) => external_token_in(v),
        None => None,
    }
}

/// The token of the first external provider definition (by id or by endpoint) of a
/// parsed document that holds a non-blank token, in the order in which its table of
/// providers is walked.
pub fn external_token_in(v: &toml::Value) -> (r: Option<String>)
    ensures
        opt_view(r) == external_token_of_doc(Some(value_view(*v))),
{
    let providers_value = match get(v, MODEL_PROVIDERS_KEY) {
        Some(p) => p,
        None => return None,
    };
    let providers = match as_table(providers_value) {
        Some(t) => t,
        None => return None,
    };
    let ids = keys(providers);
    let ghost es = map_view(*providers);
    let n = ids.len();
    let mut i: usize = 0;
    assert(es.skip(0) =~= es);
    assert forall|a: int, b: int| 0 <= a < b < n implies es[a].0 != es[b].0 by {
        assert(ids@[a]@ == es[a].0 && ids@[b]@ == es[b].0);
    }
    while i < n
        invariant
            n == ids@.len(),
            n == es.len(),
            es == map_view(*providers),
            external_token_of_doc(Some(value_view(*v))) == first_external_token(es),
            forall|j: int| 0 <= j < n ==> #[trigger] ids@[j]@ == es[j].0,
            forall|a: int, b: int| 0 <= a < b < n ==> es[a].0 != es[b].0,
            i <= n,
            first_external_token(es) == first_external_token(es.skip(i as int)),
        decreases n - i,
    {
        let id = &ids[i];
        proof {
            assert(es.skip(i as int).drop_first() =~= es.skip(i + 1));
            assert(es.skip(i as int)[0] == es[i as int]);
            assert forall|j: int| 0 <= j < i implies (#[trigger] es[j]).0 != es[i as int].0 by {
                assert(ids@[j]@ == es[j].0);
            }
            lemma_lookup_value_at(es, i as int);
        }
        let provider = table_get(providers, id.as_str());
        let provider = provider.unwrap();
        match as_table(provider) {
            Some(t) => {
                let is_external = str_eq(id.as_str(), EXTERNAL_PROVIDER_ID) || match str_of_value(
                    table_get(t, BASE_URL_KEY),
                ) {
                    Some(url) => str_eq(url.as_str(), EXTERNAL_URL),
                    None => false,
                };
                if is_external {
                    match str_of_value(table_get(t, BEARER_TOKEN_KEY)) {
                        Some(token) => {
                            if !blank(token.as_str()) {
                                return Some(token);
                            }
                        },
                        None => {},
                    }
                }
            },
            None => {},
        }
        i = i + 1;
    }
    None
}

/// Looking up the key of entry `i` finds entry `i` when no earlier entry has that key.
pub proof fn lemma_lookup_value_at(es: Seq<(Seq<char>, TomlView)>, i: int)
    requires
        0 <= i < es.len(),
        forall|j: int| 0 <= j < i ==> (#[trigger] es[j]).0 != es[i].0,
    ensures
        lookup_value(es, es[i].0) == Some(es[i].1),
    decreases i,
{
    if i > 0 {
        let t = es.drop_first();
        assert(es[0].0 != es[i].0);
        assert forall|j: int| 0 <= j < i - 1 implies (#[trigger] t[j]).0 != t[i - 1].0 by {
            assert(t[j] == es[j + 1]);
        }
        lemma_lookup_value_at(t, i - 1);
    }
}

/// The mode of a configuration text: External when it selects the managed provider or
/// any provider whose endpoint is the external one, Plus when it selects the official
/// provider or none, Unknown otherwise.
pub fn detect_mode(text: &str) -> (m: Mode)
    ensures
        m == spec_detect_mode(text@),
{
    let doc = parse_value(text);
    detect_mode_in(&doc)
}

/// The mode of a parsed document (`None` for a text that did not parse): External when
/// it selects the managed provider or any provider whose endpoint is the external one,
/// Plus when it selects the official provider or none, Unknown otherwise.
pub fn detect_mode_in(doc: &Option<toml::Value>) -> (m: Mode)
    ensures
        m == mode_of_doc(
            match doc {
                Some(v) => Some(value_view(*v)),
                None => None,
            },
        ),
{
    let provider = match doc {
        Some(v) => str_of_value(get(v, MODEL_PROVIDER_KEY)),
        None => None,
    };
    match &provider {
        Some(p) => {
            if str_eq(p.as_str(), EXTERNAL_PROVIDER_ID) {
                return Mode::External;
            }
            match str_of_value(provider_value(doc, p.as_str(), BASE_URL_KEY)) {
                Some(url) => {
                    if str_eq(url.as_str(), EXTERNAL_URL) {
                        return Mode::External;
                    }
                },
                None => {},
            }
            if str_eq(p.as_str(), OFFICIAL_PROVIDER_ID) {
                Mode::Plus
            } else {
                Mode::Unknown
            }
        },
        None => Mode::Plus,
    }
}

} // verus!
