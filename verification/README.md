# codex_switch_lite

Switches a Codex Desktop configuration (`~/.codex/config.toml`) between two modes:
ChatGPT Plus (the official provider) and one external provider, keeping both modes'
profiles, the common settings they share, timestamped backups and the external key in
the macOS Keychain.

- `src/` is the verified library (Verus): reading the routing of a configuration
  (`routing`), building the Plus and External profiles and syncing common settings
  with `toml_edit` (`profiles`, laws in `profile_laws`), the file layout (`paths`),
  backup selection (`backups`), the Keychain and restart commands (`keychain`), and
  the decisions of each command as state machines (`flows`, laws in `flow_laws`).
- `app/` is the Tauri shell: it performs the file, process and Keychain work that
  the library's machines ask for.
- `tests/` runs the library on concrete configurations.
