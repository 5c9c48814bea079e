use codex_switch_lite::profiles::{
    apply_external, apply_plus, strip_external_secret, sync_common, validate_toml,
};
use codex_switch_lite::routing::{detect_mode, Mode};

const MIXED: &str = r#"# my settings
model_provider = "ExternalAPI"
model = "gpt-5.5"
openai_base_url = "https://code.adinsolution.link"
experimental_bearer_token = "top-secret"
approval_policy = "never"

[model_providers.ExternalAPI]
name = "External API"
base_url = "https://code.adinsolution.link"
experimental_bearer_token = "sk-old"

[model_providers.proxy]
base_url = "https://code.adinsolution.link"

[model_providers.azure]
name = "Azure"
base_url = "https://azure.example.com"

[mcp_servers.docs]
command = "docs-server"
"#;

fn parse(text: &str) -> toml::Value {
    toml::from_str::<toml::Value>(text).unwrap()
}

#[test]
fn plus_profile_selects_official_provider() {
    let out = apply_plus(MIXED).unwrap();
    let v = parse(&out);
    assert_eq!(v["model_provider"].as_str(), Some("openai"));
    assert!(v.get("openai_base_url").is_none());
    assert!(v.get("experimental_bearer_token").is_none());
    let providers = v["model_providers"].as_table().unwrap();
    assert!(providers.get("ExternalAPI").is_none());
    assert!(providers.get("proxy").is_none());
    assert_eq!(providers["azure"]["base_url"].as_str(), Some("https://azure.example.com"));
    assert_eq!(v["mcp_servers"]["docs"]["command"].as_str(), Some("docs-server"));
    // Unrelated settings, and the comment, stay.
    assert_eq!(v["model"].as_str(), Some("gpt-5.5"));
    assert!(out.contains("# my settings"));
    assert_eq!(detect_mode(&out), Mode::Plus);
}

#[test]
fn plus_profile_drops_empty_provider_table() {
    let text = "model_provider = \"ExternalAPI\"\n[model_providers.ExternalAPI]\nname = \"x\"\n";
    let out = apply_plus(text).unwrap();
    let v = parse(&out);
    assert!(v.get("model_providers").is_none());
    assert_eq!(v["model_provider"].as_str(), Some("openai"));
}

#[test]
fn plus_profile_keeps_other_reroute() {
    let text = "openai_base_url = \"https://example.com\"\n";
    let v = parse(&apply_plus(text).unwrap());
    assert_eq!(v["openai_base_url"].as_str(), Some("https://example.com"));
}

#[test]
fn profiles_refuse_text_that_is_not_toml() {
    let e = apply_plus("a = = 1").unwrap_err();
    assert!(e.starts_with("Plus 配置解析失败: "));
    let e = apply_external("a = = 1", None).unwrap_err();
    assert!(e.starts_with("External 配置解析失败: "));
    let e = strip_external_secret("a = = 1").unwrap_err();
    assert!(e.starts_with("External profile 解析失败: "));
    let e = validate_toml("a = = 1").unwrap_err();
    assert!(e.starts_with("TOML 校验失败: "));
    assert!(validate_toml("a = 1\n").is_ok());
}

#[test]
fn external_profile_routes_to_the_external_endpoint() {
    let out = apply_external(MIXED, Some("sk-new")).unwrap();
    let v = parse(&out);
    assert_eq!(v["model_provider"].as_str(), Some("ExternalAPI"));
    assert_eq!(v["model"].as_str(), Some("gpt-5.5"));
    assert_eq!(v["review_model"].as_str(), Some("gpt-5.5"));
    assert!(v.get("openai_base_url").is_none());
    assert!(v.get("experimental_bearer_token").is_none());
    let providers = v["model_providers"].as_table().unwrap();
    assert!(providers.get("proxy").is_none());
    assert!(providers.get("azure").is_some());
    let p = providers["ExternalAPI"].as_table().unwrap();
    assert_eq!(p["name"].as_str(), Some("External API"));
    assert_eq!(p["base_url"].as_str(), Some("https://code.adinsolution.link"));
    assert_eq!(p["wire_api"].as_str(), Some("responses"));
    assert_eq!(p["experimental_bearer_token"].as_str(), Some("sk-new"));
    assert_eq!(p["requires_openai_auth"].as_bool(), Some(true));
    assert_eq!(p.len(), 5);
    assert_eq!(detect_mode(&out), Mode::External);
}

#[test]
fn external_profile_without_key_has_no_token() {
    let out = apply_external("", None).unwrap();
    let v = parse(&out);
    let p = v["model_providers"]["ExternalAPI"].as_table().unwrap();
    assert!(p.get("experimental_bearer_token").is_none());
    assert_eq!(p.len(), 4);
}

#[test]
fn external_profile_replaces_non_table_providers() {
    let text = "model_providers = 3\n";
    let v = parse(&apply_external(text, None).unwrap());
    assert!(v["model_providers"]["ExternalAPI"].is_table());
}

#[test]
fn secret_is_the_only_difference() {
    let with_key = apply_external(MIXED, Some("sk-new")).unwrap();
    let without = apply_external(MIXED, None).unwrap();
    let stripped = strip_external_secret(&with_key).unwrap();
    assert_eq!(parse(&stripped), parse(&strip_external_secret(&without).unwrap()));
    assert_eq!(parse(&stripped), parse(&without));
}

#[test]
fn strip_removes_only_the_managed_token() {
    let out = strip_external_secret(MIXED).unwrap();
    let v = parse(&out);
    assert!(v["model_providers"]["ExternalAPI"].get("experimental_bearer_token").is_none());
    assert_eq!(v["model_providers"]["ExternalAPI"]["name"].as_str(), Some("External API"));
    // The top-level token is not the provider's.
    assert_eq!(v["experimental_bearer_token"].as_str(), Some("top-secret"));
    // Nothing to strip: the text is unchanged.
    assert_eq!(strip_external_secret("a = 1\n").unwrap(), "a = 1\n");
}

#[test]
fn sync_carries_common_settings() {
    let source = r#"model_provider = "ExternalAPI"
model = "gpt-5.5"
approval_policy = "never"
sandbox = "workspace-write"

[model_providers.ExternalAPI]
base_url = "https://code.adinsolution.link"

[model_providers.azure]
base_url = "https://azure.example.com"
"#;
    let target = r#"model_provider = "openai"
model = "o3"
approval_policy = "on-request"
old_setting = true
"#;
    let out = sync_common(source, target).unwrap();
    let v = parse(&out);
    // Owned keys stay as the target had them.
    assert_eq!(v["model_provider"].as_str(), Some("openai"));
    assert_eq!(v["model"].as_str(), Some("o3"));
    // Common keys come from the source; keys the source lacks go.
    assert_eq!(v["approval_policy"].as_str(), Some("never"));
    assert_eq!(v["sandbox"].as_str(), Some("workspace-write"));
    assert!(v.get("old_setting").is_none());
    // Providers come from the source, without the managed one.
    let providers = v["model_providers"].as_table().unwrap();
    assert!(providers.get("ExternalAPI").is_none());
    assert_eq!(providers["azure"]["base_url"].as_str(), Some("https://azure.example.com"));
}

#[test]
fn sync_removes_providers_the_source_lacks() {
    let out = sync_common("a = 1\n", "[model_providers.azure]\nname = \"x\"\n").unwrap();
    assert!(parse(&out).get("model_providers").is_none());
    let out = sync_common(
        "[model_providers.ExternalAPI]\nname = \"x\"\n",
        "[model_providers.azure]\nname = \"x\"\n",
    )
    .unwrap();
    assert!(parse(&out).get("model_providers").is_none());
}

#[test]
fn sync_reports_which_text_is_broken() {
    let e = sync_common("= x", "a = 1").unwrap_err();
    assert!(e.starts_with("当前配置解析失败: "));
    let e = sync_common("a = 1", "= x").unwrap_err();
    assert!(e.starts_with("目标配置解析失败: "));
}

const INLINE: &str = r#"model_provider = "openai"
model_providers = { foo = { base_url = "https://x.example" }, ExternalAPI = { name = "old", experimental_bearer_token = "sk-old" }, proxy = { base_url = "https://code.adinsolution.link" } }
"#;

#[test]
fn external_profile_keeps_inline_provider_definitions() {
    let text = "model_providers = { foo = { base_url = 'https://x.example' } }\n";
    let v = parse(&apply_external(text, None).unwrap());
    assert_eq!(v["model_providers"]["foo"]["base_url"].as_str(), Some("https://x.example"));
    assert_eq!(v["model_providers"]["ExternalAPI"]["base_url"].as_str(), Some("https://code.adinsolution.link"));
}

#[test]
fn plus_profile_strips_managed_inline_definitions() {
    let v = parse(&apply_plus(INLINE).unwrap());
    let providers = v["model_providers"].as_table().unwrap();
    assert_eq!(providers["foo"]["base_url"].as_str(), Some("https://x.example"));
    assert!(providers.get("ExternalAPI").is_none());
    // An inline definition at the external endpoint is not a managed one.
    assert_eq!(providers["proxy"]["base_url"].as_str(), Some("https://code.adinsolution.link"));
}

#[test]
fn inline_providers_without_managed_definitions_stay_inline() {
    let text = "model_provider = \"foo\"\nmodel_providers = { foo = { base_url = \"https://x.example\" } }\n";
    let out = apply_plus(text).unwrap();
    assert!(out.contains("model_providers = { foo = { base_url = \"https://x.example\" } }"));
    let out = sync_common(text, "model = \"o3\"\n").unwrap();
    assert!(out.contains("model_providers = { foo = { base_url = \"https://x.example\" } }"));
    let stripped = strip_external_secret(text).unwrap();
    assert_eq!(stripped, text);
}

#[test]
fn strip_reaches_an_inline_managed_provider() {
    let v = parse(&strip_external_secret(INLINE).unwrap());
    let p = &v["model_providers"]["ExternalAPI"];
    assert!(p.get("experimental_bearer_token").is_none());
    assert_eq!(p["name"].as_str(), Some("old"));
}

#[test]
fn sync_never_leaks_an_inline_managed_provider() {
    let out = sync_common(INLINE, "model = \"o3\"\n").unwrap();
    let v = parse(&out);
    let providers = v["model_providers"].as_table().unwrap();
    assert!(providers.get("ExternalAPI").is_none());
    assert_eq!(providers["proxy"]["base_url"].as_str(), Some("https://code.adinsolution.link"));
    assert_eq!(providers["foo"]["base_url"].as_str(), Some("https://x.example"));
    assert_eq!(v["model"].as_str(), Some("o3"));
}
