use codex_switch_lite::keychain::{
    keychain_account, keychain_get, keychain_get_command, keychain_set, keychain_set_command,
    open_codex_command, quit_codex_command, restart_codex, CommandOutput,
};
use codex_switch_lite::text::{blank, trim};

#[test]
fn keychain_commands() {
    let c = keychain_set_command("me", "sk-1");
    assert_eq!(c.program, "security");
    assert_eq!(
        c.args,
        vec!["add-generic-password", "-U", "-a", "me", "-s", "CodexSwitchLite.ExternalAPI", "-w", "sk-1"]
    );
    let c = keychain_get_command("me");
    assert_eq!(c.args, vec!["find-generic-password", "-a", "me", "-s", "CodexSwitchLite.ExternalAPI", "-w"]);
    assert_eq!(quit_codex_command().args, vec!["-e", "tell application \"Codex\" to quit"]);
    assert_eq!(open_codex_command().program, "open");
    assert_eq!(keychain_account(None), "codex-user");
    assert_eq!(keychain_account(Some("alice".to_string())), "alice");
}

#[test]
fn keychain_set_outcomes() {
    assert!(keychain_set(Ok(CommandOutput { success: true, stdout: None, stderr: String::new() })).is_ok());
    let e = keychain_set(Ok(CommandOutput {
        success: false,
        stdout: None,
        stderr: "  denied \n".to_string(),
    }))
    .unwrap_err();
    assert_eq!(e, "denied");
    let e = keychain_set(Err("not found".to_string())).unwrap_err();
    assert_eq!(e, "调用 macOS Keychain 失败: not found");
}

#[test]
fn keychain_get_outcomes() {
    let out = |success: bool, stdout: Option<&str>| {
        Some(CommandOutput { success, stdout: stdout.map(|s| s.to_string()), stderr: String::new() })
    };
    assert_eq!(keychain_get(out(true, Some("sk-abc\n"))), Some("sk-abc".to_string()));
    assert_eq!(keychain_get(out(true, Some("  \n"))), None);
    assert_eq!(keychain_get(out(false, Some("sk-abc"))), None);
    assert_eq!(keychain_get(out(true, None)), None);
    assert_eq!(keychain_get(None), None);
}

#[test]
fn restart_outcome() {
    assert!(restart_codex(Ok(())).is_ok());
    assert_eq!(restart_codex(Err("no app".to_string())).unwrap_err(), "重新打开 Codex 失败: no app");
}

#[test]
fn trimming_like_str_trim() {
    for s in ["", " ", "a", "  a b  ", "\u{3000}x\u{a0}", "\t\n key \r\n", "\u{200b}x"] {
        assert_eq!(trim(s), s.trim(), "{s:?}");
        assert_eq!(blank(s), s.trim().is_empty(), "{s:?}");
    }
}
