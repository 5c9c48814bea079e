use codex_switch_lite::flows::{
    check_restored_text, ensure_initialized, key_to_migrate, get_status, pick_backup, read_live_or_empty,
    restored_message, save_external_key, save_step, switch_mode, switch_step, Effect, Input,
    SaveState, StatusFacts, SwitchState,
};
use codex_switch_lite::profiles::{apply_external, apply_plus};
use codex_switch_lite::routing::{detect_mode, Mode};

const PLUS_LIVE: &str = "model_provider = \"openai\"\napproval_policy = \"never\"\n";

/// Runs a switch against in-memory files and returns the effects it asked for.
fn run_switch(
    mode: &str,
    live: Option<&str>,
    plus_profile: &str,
    external_profile: &str,
    key: Option<&str>,
    fail_live_write: bool,
) -> (Vec<String>, Result<String, String>, Option<String>) {
    let mut log = Vec::new();
    let mut live_text = live.map(|s| s.to_string());
    let mut plus = plus_profile.to_string();
    let mut external = external_profile.to_string();
    let mut backup = String::new();
    let (mut state, mut effect) = switch_mode(mode);
    loop {
        let input = match effect {
            Effect::ReadLive => {
                log.push("read-live".to_string());
                Input::Live(live_text.clone().map(Ok))
            }
            Effect::WriteProfile { mode, text } => {
                log.push(format!("write-profile {:?}", mode));
                if mode == Mode::Plus { plus = text } else { external = text }
                Input::Written(Ok(()))
            }
            Effect::ReadProfile { mode } => {
                log.push(format!("read-profile {:?}", mode));
                Input::Text(Ok(if mode == Mode::Plus { plus.clone() } else { external.clone() }))
            }
            Effect::GetKey => {
                log.push("get-key".to_string());
                Input::Key(key.map(|k| k.to_string()))
            }
            Effect::Backup { live } => {
                log.push("backup".to_string());
                backup = live;
                Input::Saved(Ok("/b/config-1.toml".to_string()))
            }
            Effect::WriteLive { text } => {
                log.push("write-live".to_string());
                if fail_live_write {
                    Input::Written(Err("disk full".to_string()))
                } else {
                    live_text = Some(text);
                    Input::Written(Ok(()))
                }
            }
            Effect::ReadBackup { path } => {
                log.push(format!("read-backup {path}"));
                Input::Text(Ok(backup.clone()))
            }
            Effect::RestoreLive { text } => {
                log.push("restore-live".to_string());
                live_text = Some(text);
                Input::Written(Ok(()))
            }
            Effect::WriteState { mode } => {
                log.push(format!("write-state {:?}", mode));
                Input::Written(Ok(()))
            }
            Effect::Restart => {
                log.push("restart".to_string());
                Input::Written(Ok(()))
            }
            Effect::SetKey { .. } => unreachable!(),
            Effect::Finish { result } => {
                return (log, result.map(|a| a.message), live_text);
            }
        };
        let next = switch_step(state, input);
        state = next.0;
        effect = next.1;
    }
}

#[test]
fn switch_to_external_routes_live_config() {
    let plus = apply_plus(PLUS_LIVE).unwrap();
    let external = "model_provider = \"ExternalAPI\"\n";
    let (log, result, live) = run_switch("external", Some(PLUS_LIVE), &plus, external, Some("sk-9"), false);
    assert_eq!(
        log,
        vec![
            "read-live",
            "write-profile Plus",
            "read-profile External",
            "get-key",
            "backup",
            "write-live",
            "write-profile External",
            "write-state External",
            "restart"
        ]
    );
    assert_eq!(
        result.unwrap(),
        "已切到 External API，Codex Desktop 已重启。请新建聊天；旧线程不会原地换 Provider。"
    );
    let live = live.unwrap();
    assert_eq!(detect_mode(&live), Mode::External);
    let v: toml::Value = toml::from_str(&live).unwrap();
    assert_eq!(v["model_providers"]["ExternalAPI"]["experimental_bearer_token"].as_str(), Some("sk-9"));
    assert_eq!(v["approval_policy"].as_str(), Some("never"));
}

#[test]
fn switch_to_external_needs_a_key() {
    let (log, result, _) = run_switch("external", Some(PLUS_LIVE), PLUS_LIVE, "", None, false);
    assert_eq!(result.unwrap_err(), "请先保存 External API Key");
    assert!(!log.contains(&"write-live".to_string()));
}

#[test]
fn switch_rejects_unknown_mode() {
    let (log, result, _) = run_switch("gemini", Some(PLUS_LIVE), "", "", None, false);
    assert!(log.is_empty());
    assert_eq!(result.unwrap_err(), "未知模式");
}

#[test]
fn failed_live_write_is_rolled_back() {
    let ext_live = apply_external(PLUS_LIVE, Some("k")).unwrap();
    let (log, result, live) = run_switch("plus", Some(&ext_live), PLUS_LIVE, "", None, true);
    assert_eq!(result.unwrap_err(), "切换写入失败，已回滚：disk full");
    assert_eq!(log[log.len() - 2], "read-backup /b/config-1.toml");
    assert_eq!(log[log.len() - 1], "restore-live");
    assert_eq!(live.unwrap(), ext_live);
}

#[test]
fn switch_from_unknown_mode_saves_no_profile() {
    let live = "model_provider = \"azure\"\n";
    let (log, result, live_after) = run_switch("plus", Some(live), PLUS_LIVE, "", None, false);
    assert!(result.is_ok());
    assert_eq!(log[1], "read-profile Plus");
    assert_eq!(detect_mode(&live_after.unwrap()), Mode::Plus);
}

#[test]
fn missing_live_config_reads_as_empty() {
    assert_eq!(read_live_or_empty(None).unwrap(), "");
    assert_eq!(read_live_or_empty(Some(Err("io".to_string()))).unwrap_err(), "io");
    let (_, result, _) = run_switch("plus", None, PLUS_LIVE, "", None, false);
    assert!(result.is_ok());
}

#[test]
fn restart_failure_is_reported_but_switch_succeeds() {
    let (mut state, mut effect) = switch_mode("plus");
    let mut out = None;
    for _ in 0..20 {
        let input = match &effect {
            Effect::ReadLive => Input::Live(Some(Ok(PLUS_LIVE.to_string()))),
            Effect::ReadProfile { .. } => Input::Text(Ok(PLUS_LIVE.to_string())),
            Effect::Backup { .. } => Input::Saved(Ok("b".to_string())),
            Effect::Restart => Input::Written(Err("gone".to_string())),
            Effect::Finish { .. } => break,
            _ => Input::Written(Ok(())),
        };
        let next = switch_step(state, input);
        state = next.0;
        effect = next.1;
        if let Effect::Finish { result } = &effect {
            out = Some(result.as_ref().map(|a| a.message.clone()).map_err(|e| e.clone()));
        }
    }
    assert_eq!(
        out.unwrap().unwrap(),
        "配置已切到 ChatGPT Plus，但自动重启 Codex 失败：gone。请手动完全退出并重新打开 Codex，然后新建聊天。"
    );
}

fn run_save(key: &str, live: &str, fail_write: bool) -> (Vec<String>, Result<String, String>) {
    let mut log = Vec::new();
    let (mut state, mut effect) = save_external_key(key);
    loop {
        let input = match effect {
            Effect::SetKey { key } => {
                log.push(format!("set-key {key}"));
                Input::Written(Ok(()))
            }
            Effect::ReadLive => Input::Live(Some(Ok(live.to_string()))),
            Effect::Backup { .. } => {
                log.push("backup".to_string());
                Input::Saved(Ok("bk".to_string()))
            }
            Effect::WriteLive { text } => {
                log.push(format!("write-live {}", detect_mode(&text) == Mode::External));
                Input::Written(if fail_write { Err("ro".to_string()) } else { Ok(()) })
            }
            Effect::ReadBackup { .. } => Input::Text(Ok(live.to_string())),
            Effect::RestoreLive { .. } => {
                log.push("restore".to_string());
                Input::Written(Ok(()))
            }
            Effect::Restart => {
                log.push("restart".to_string());
                Input::Written(Ok(()))
            }
            Effect::Finish { result } => return (log, result.map(|a| a.message)),
            _ => unreachable!(),
        };
        let next = save_step(state, input);
        state = next.0;
        effect = next.1;
    }
}

#[test]
fn saving_a_blank_key_is_refused() {
    let (state, effect) = save_external_key("   ");
    assert!(matches!(state, SaveState::Finished));
    match effect {
        Effect::Finish { result } => assert_eq!(result.err().unwrap(), "API Key 不能为空"),
        _ => panic!(),
    }
}

#[test]
fn saving_the_key_in_plus_mode_only_stores_it() {
    let (log, result) = run_save(" sk-1 ", PLUS_LIVE, false);
    assert_eq!(log, vec!["set-key sk-1"]);
    assert_eq!(result.unwrap(), "External API Key 已保存到 macOS Keychain。");
}

#[test]
fn saving_the_key_in_external_mode_updates_live_config() {
    let live = apply_external(PLUS_LIVE, Some("old")).unwrap();
    let (log, result) = run_save("sk-2", &live, false);
    assert_eq!(log, vec!["set-key sk-2", "backup", "write-live true", "restart"]);
    assert_eq!(result.unwrap(), "Key 已保存并更新到 External live config；Codex 已重启，请新建聊天。");
    let (log, result) = run_save("sk-2", &live, true);
    assert_eq!(log, vec!["set-key sk-2", "backup", "write-live true", "restore"]);
    assert_eq!(result.unwrap_err(), "更新 External live config 失败，已回滚：ro");
}

#[test]
fn first_run_builds_both_profiles() {
    let live = apply_external(PLUS_LIVE, Some("sk-live")).unwrap();
    let plan = ensure_initialized(false, false, Ok(live.clone()), None, None).unwrap().unwrap();
    assert_eq!(plan.live_mode, Mode::External);
    assert_eq!(detect_mode(&plan.plus_text), Mode::Plus);
    let ext = plan.external_text.unwrap();
    let v: toml::Value = toml::from_str(&ext).unwrap();
    assert!(v["model_providers"]["ExternalAPI"].get("experimental_bearer_token").is_none());
    assert_eq!(plan.migrate_key, Some("sk-live".to_string()));
    assert!(ensure_initialized(true, true, Err("x".to_string()), None, None).unwrap().is_none());
    assert_eq!(ensure_initialized(true, false, Err("x".to_string()), None, None).err().unwrap(), "x");
}

#[test]
fn first_run_prefers_old_profiles() {
    let old_plus = "model_provider = \"openai\"\nold = 1\n".to_string();
    let plan = ensure_initialized(false, true, Ok(String::new()), Some(old_plus), None)
        .unwrap()
        .unwrap();
    let v: toml::Value = toml::from_str(&plan.plus_text).unwrap();
    assert_eq!(v["old"].as_integer(), Some(1));
    assert_eq!(plan.migrate_key, None);
    let e = ensure_initialized(false, false, Ok(String::new()), Some("= x".to_string()), None)
        .err()
        .unwrap();
    assert!(e.starts_with("Plus 配置解析失败: "));
}

#[test]
fn status_of_an_external_config() {
    let live = apply_external(PLUS_LIVE, Some("k")).unwrap();
    let facts = |recorded, auth| StatusFacts {
        live: Ok(live.clone()),
        initialized: true,
        auth_exists: auth,
        key_saved: true,
        recorded_mode: recorded,
        config_path: Ok("/c".to_string()),
        last_backup: Ok(Some("/b".to_string())),
    };
    let st = get_status(facts(Some(Mode::External), true)).unwrap();
    assert_eq!(st.mode, Mode::External);
    assert!(st.routing_ok);
    assert_eq!(st.live_provider, Some("ExternalAPI".to_string()));
    assert!(st.warning.is_none());
    let st = get_status(facts(Some(Mode::Plus), true)).unwrap();
    assert_eq!(st.warning.unwrap(), "状态记录与 live config 不一致；以 live config 为准，建议重新切换一次。");
    let st = get_status(facts(None, false)).unwrap();
    assert_eq!(st.warning.unwrap(), "未检测到官方 auth.json；初始化前建议先确认 Codex Desktop 已登录 ChatGPT。");
    let st = get_status(facts(Some(Mode::Unknown), false)).unwrap();
    assert_eq!(
        st.warning.unwrap(),
        "未检测到 ~/.codex/auth.json；如果你希望保留 ChatGPT Plus，请先在 Codex Desktop 完成官方登录。"
    );
}

#[test]
fn status_flags_incomplete_routing() {
    let live = apply_external(PLUS_LIVE, None).unwrap();
    let st = get_status(StatusFacts {
        live: Ok(live),
        initialized: false,
        auth_exists: true,
        key_saved: false,
        recorded_mode: Some(Mode::External),
        config_path: Ok("/c".to_string()),
        last_backup: Ok(None),
    })
    .unwrap();
    assert!(!st.routing_ok);
    assert!(st.warning.unwrap().starts_with("External 模式配置不完整"));
}

#[test]
fn restore_steps() {
    assert_eq!(pick_backup(Ok(None)).unwrap_err(), "没有可恢复的备份");
    assert_eq!(pick_backup(Ok(Some("p".to_string()))).unwrap(), "p");
    assert_eq!(check_restored_text(PLUS_LIVE).unwrap(), Mode::Plus);
    assert!(check_restored_text("= x").unwrap_err().starts_with("TOML 校验失败: "));
    assert_eq!(restored_message("/b/c.toml").message, "已恢复最近备份：/b/c.toml。Codex 已尝试重启。");
}

#[test]
fn a_key_is_migrated_only_into_an_empty_keychain() {
    assert_eq!(key_to_migrate(None, Some("sk".to_string())), Some("sk".to_string()));
    assert_eq!(key_to_migrate(Some("old".to_string()), Some("sk".to_string())), None);
    assert_eq!(key_to_migrate(None, None), None);
}
