use codex_switch_lite::backups::{
    backups_to_prune, has_toml_extension, latest_backup, list_backups, select_backups, str_lt,
    KEEP_BACKUPS,
};
use codex_switch_lite::paths::{
    app_dir, auth_path, backup_file_name, backups_dir, codex_dir, external_profile_path,
    live_config_path, old_profile_candidates, path_join, plus_profile_path, state_path,
};

#[test]
fn paths_under_home() {
    let h = Some("/Users/me");
    assert_eq!(codex_dir(h).unwrap(), "/Users/me/.codex");
    assert_eq!(live_config_path(h).unwrap(), "/Users/me/.codex/config.toml");
    assert_eq!(auth_path(h).unwrap(), "/Users/me/.codex/auth.json");
    assert_eq!(app_dir(h).unwrap(), "/Users/me/.codex/codex-switch-lite");
    assert_eq!(plus_profile_path(h).unwrap(), "/Users/me/.codex/codex-switch-lite/plus.toml");
    assert_eq!(
        external_profile_path(h).unwrap(),
        "/Users/me/.codex/codex-switch-lite/external.toml"
    );
    assert_eq!(state_path(h).unwrap(), "/Users/me/.codex/codex-switch-lite/state.json");
    assert_eq!(backups_dir(h).unwrap(), "/Users/me/.codex/codex-switch-lite/backups");
}

#[test]
fn unknown_home_is_an_error() {
    assert_eq!(codex_dir(None).unwrap_err(), "无法确定用户 Home 目录");
    assert_eq!(state_path(None).unwrap_err(), "无法确定用户 Home 目录");
    assert!(old_profile_candidates(None).is_err());
}

#[test]
fn join_like_pathbuf() {
    assert_eq!(path_join("/a/", "b"), "/a/b");
    assert_eq!(path_join("/a", "b"), "/a/b");
    assert_eq!(path_join("", "b"), "b");
    assert_eq!(
        std::path::Path::new("/a/").join("b").to_str().unwrap(),
        path_join("/a/", "b")
    );
}

#[test]
fn old_candidates_in_order() {
    let (plus, external) = old_profile_candidates(Some("/h")).unwrap();
    assert_eq!(plus, vec!["/h/.codex/external-api-switcher/config.plus.toml".to_string()]);
    assert_eq!(
        external,
        vec![
            "/h/.codex/external-api-switcher/config.api.toml".to_string(),
            "/h/.codex/external-api-switcher/config.external.toml".to_string()
        ]
    );
}

#[test]
fn backup_names() {
    assert_eq!(backup_file_name(0), "config-0.toml");
    assert_eq!(backup_file_name(1725029869), "config-1725029869.toml");
    assert_eq!(backup_file_name(u64::MAX), format!("config-{}.toml", u64::MAX));
}

#[test]
fn toml_extension_like_path() {
    for name in ["a.toml", ".toml", "x..toml", "toml", "a.toml.tmp", "a.TOML", "ab.toml"] {
        let expected = std::path::Path::new(name).extension().and_then(|s| s.to_str()) == Some("toml");
        assert_eq!(has_toml_extension(name), expected, "{name}");
    }
}

#[test]
fn string_order_is_byte_order() {
    assert!(str_lt("a", "b"));
    assert!(str_lt("a", "ab"));
    assert!(!str_lt("ab", "ab"));
    assert!(str_lt("Z", "a"));
    assert!(str_lt("config-9.toml", "config-a.toml"));
    assert!(!str_lt("é", "e"));
}

#[test]
fn backups_sorted_and_filtered() {
    let names = vec![
        "config-3.toml".to_string(),
        "notes.txt".to_string(),
        "config-1.toml".to_string(),
        "config-2.toml".to_string(),
        ".toml".to_string(),
    ];
    let sorted = select_backups(&names);
    assert_eq!(sorted, vec!["config-1.toml", "config-2.toml", "config-3.toml"]);
    assert_eq!(latest_backup(Some(Ok(names.clone()))).unwrap(), Some("config-3.toml".to_string()));
    assert_eq!(latest_backup(None).unwrap(), None);
    assert_eq!(latest_backup(Some(Ok(vec![]))).unwrap(), None);
    let e = list_backups(Some(Err("denied".to_string()))).unwrap_err();
    assert_eq!(e, "读取备份目录失败: denied");
}

#[test]
fn prune_keeps_the_newest() {
    let all: Vec<String> = (0..25).map(|i| format!("config-{:02}.toml", i)).collect();
    let doomed = backups_to_prune(&all, KEEP_BACKUPS);
    assert_eq!(doomed.len(), 5);
    assert_eq!(doomed[0], "config-00.toml");
    assert_eq!(doomed[4], "config-04.toml");
    assert!(backups_to_prune(&all[..20].to_vec(), KEEP_BACKUPS).is_empty());
}
