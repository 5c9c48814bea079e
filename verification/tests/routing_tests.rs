use codex_switch_lite::routing::{
    detect_mode, detect_mode_in, external_token_in, find_external_bearer_token, model_provider, provider_base_url,
    provider_bearer_token, provider_requires_auth, Mode,
};

const EXTERNAL_LIVE: &str = r#"
model_provider = "ExternalAPI"
model = "gpt-5.5"

[model_providers.ExternalAPI]
name = "External API"
base_url = "https://code.adinsolution.link"
wire_api = "responses"
experimental_bearer_token = "sk-test"
requires_openai_auth = true
"#;

#[test]
fn model_provider_reads_top_level_string() {
    assert_eq!(model_provider(EXTERNAL_LIVE), Some("ExternalAPI".to_string()));
    assert_eq!(model_provider("model = \"x\"\n"), None);
    assert_eq!(model_provider("model_provider = 3\n"), None);
    assert_eq!(model_provider("this is = = not toml"), None);
}

#[test]
fn provider_fields_are_read_per_provider() {
    assert_eq!(
        provider_base_url(EXTERNAL_LIVE, "ExternalAPI"),
        Some("https://code.adinsolution.link".to_string())
    );
    assert_eq!(provider_base_url(EXTERNAL_LIVE, "other"), None);
    assert_eq!(
        provider_bearer_token(EXTERNAL_LIVE, "ExternalAPI"),
        Some("sk-test".to_string())
    );
    assert_eq!(provider_requires_auth(EXTERNAL_LIVE, "ExternalAPI"), Some(true));
}

#[test]
fn blank_bearer_token_counts_as_none() {
    let text = "[model_providers.ExternalAPI]\nexperimental_bearer_token = \" \\t \"\n";
    assert_eq!(provider_bearer_token(text, "ExternalAPI"), None);
    assert_eq!(find_external_bearer_token(text), None);
}

#[test]
fn inline_provider_tables_are_read_too() {
    let text = "model_providers = { p = { base_url = \"u\" } }\n";
    assert_eq!(provider_base_url(text, "p"), Some("u".to_string()));
}

#[test]
fn external_token_found_by_id_or_by_endpoint() {
    let by_url = r#"
[model_providers.mine]
base_url = "https://code.adinsolution.link"
experimental_bearer_token = "tok-url"
"#;
    assert_eq!(find_external_bearer_token(by_url), Some("tok-url".to_string()));
    let other = r#"
[model_providers.mine]
base_url = "https://example.com"
experimental_bearer_token = "tok"
"#;
    assert_eq!(find_external_bearer_token(other), None);
    assert_eq!(find_external_bearer_token(EXTERNAL_LIVE), Some("sk-test".to_string()));
}

#[test]
fn external_token_first_in_key_order() {
    let text = r#"
[model_providers.zeta]
base_url = "https://code.adinsolution.link"
experimental_bearer_token = "from-zeta"

[model_providers.ExternalAPI]
experimental_bearer_token = "from-external"
"#;
    // The providers are walked in key order: "ExternalAPI" < "zeta".
    assert_eq!(find_external_bearer_token(text), Some("from-external".to_string()));
}

#[test]
fn detect_mode_cases() {
    assert_eq!(detect_mode(EXTERNAL_LIVE), Mode::External);
    let by_url = "model_provider = \"mine\"\n[model_providers.mine]\nbase_url = \"https://code.adinsolution.link\"\n";
    assert_eq!(detect_mode(by_url), Mode::External);
    assert_eq!(detect_mode("model_provider = \"openai\"\n"), Mode::Plus);
    assert_eq!(detect_mode(""), Mode::Plus);
    assert_eq!(detect_mode("model_provider = \"azure\"\n"), Mode::Unknown);
    // A text that is not TOML selects no provider.
    assert_eq!(detect_mode("= broken"), Mode::Plus);
}

#[test]
fn parsed_documents_are_read_like_texts() {
    let v: toml::Value = toml::from_str(EXTERNAL_LIVE).unwrap();
    assert_eq!(external_token_in(&v), Some("sk-test".to_string()));
    assert_eq!(detect_mode_in(&Some(v)), Mode::External);
    let routed: toml::Value = toml::from_str(
        "model_provider = \"p\"\n[model_providers.p]\nbase_url = \"https://code.adinsolution.link\"\n",
    )
    .unwrap();
    assert_eq!(detect_mode_in(&Some(routed)), Mode::External);
    let other: toml::Value = toml::from_str("model_provider = \"azure\"\n").unwrap();
    assert_eq!(detect_mode_in(&Some(other)), Mode::Unknown);
    assert_eq!(detect_mode_in(&None), Mode::Plus);
    let none: toml::Value = toml::from_str("[model_providers.azure]\nexperimental_bearer_token = \"x\"\n").unwrap();
    assert_eq!(external_token_in(&none), None);
}
