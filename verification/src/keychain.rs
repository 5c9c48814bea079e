//! The commands that keep the external key in the macOS Keychain and restart Codex,
//! and how their outcomes are read.
use vstd::prelude::*;
use crate::text::{trim, trimmed};
use crate::profiles::prefixed;

verus! {

/// The Keychain service under which the external key is kept.
pub const KEYCHAIN_SERVICE: &'static str = "CodexSwitchLite.ExternalAPI";

/// The account used where the user name is unknown.
pub const DEFAULT_ACCOUNT: &'static str = "codex-user";

/// The message of `keychain_set` where the Keychain is not available.
pub const KEYCHAIN_UNSUPPORTED: &'static str = "Codex Switch Lite 当前只支持 macOS";

/// The message of `restart_codex` where restarting is not available.
pub const RESTART_UNSUPPORTED: &'static str = "自动重启 Codex 当前只支持 macOS";

/// A program to run, with its arguments.
pub struct Command {
    pub program: String,
    pub args: Vec<String>,
}

/// What a finished command reported: whether it succeeded, its standard output (where
/// it is UTF-8) and its standard error (decoded leniently).
pub struct CommandOutput {
    pub success: bool,
    pub stdout: Option<String>,
    pub stderr: String,
}

/// The views of a command's arguments.
pub open spec fn arg_views(c: Command) -> Seq<Seq<char>> {
    c.args@.map_values(|s: String| s@)
}

fn owned(s: &str) -> (r: String)
    ensures
        r@ == s@,
{
    s.to_owned()
}

/// The account that the Keychain entry belongs to: the user's name, or the default.
pub fn keychain_account(user: Option<String>) -> (r: String)
    ensures
        r@ == match user {
            Some(u) => u@,
            None => DEFAULT_ACCOUNT@,
        },
{
    match user {
        Some(u) => u,
        None => owned(DEFAULT_ACCOUNT),
    }
}

/// `security add-generic-password -U -a <account> -s <service> -w <key>`.
pub fn keychain_set_command(account: &str, key: &str) -> (c: Command)
    ensures
        c.program@ == "security"@,
        arg_views(c) == seq![
            "add-generic-password"@,
            "-U"@,
            "-a"@,
            account@,
            "-s"@,
            KEYCHAIN_SERVICE@,
            "-w"@,
            key@,
        ],
{
    let mut args: Vec<String> = Vec::new();
    args.push(owned("add-generic-password"));
    args.push(owned("-U"));
    args.push(owned("-a"));
    args.push(owned(account));
    args.push(owned("-s"));
    args.push(owned(KEYCHAIN_SERVICE));
    args.push(owned("-w"));
    args.push(owned(key));
    let c = Command { program: owned("security"), args };
    assert(arg_views(c) =~= seq![
        "add-generic-password"@,
        "-U"@,
        "-a"@,
        account@,
        "-s"@,
        KEYCHAIN_SERVICE@,
        "-w"@,
        key@,
    ]);
    c
}

/// `security find-generic-password -a <account> -s <service> -w`.
pub fn keychain_get_command(account: &str) -> (c: Command)
    ensures
        c.program@ == "security"@,
        arg_views(c) == seq![
            "find-generic-password"@,
            "-a"@,
            account@,
            "-s"@,
            KEYCHAIN_SERVICE@,
            "-w"@,
        ],
{
    let mut args: Vec<String> = Vec::new();
    args.push(owned("find-generic-password"));
    args.push(owned("-a"));
    args.push(owned(account));
    args.push(owned("-s"));
    args.push(owned(KEYCHAIN_SERVICE));
    args.push(owned("-w"));
    let c = Command { program: owned("security"), args };
    assert(arg_views(c) =~= seq![
        "find-generic-password"@,
        "-a"@,
        account@,
        "-s"@,
        KEYCHAIN_SERVICE@,
        "-w"@,
    ]);
    c
}

/// The outcome of storing the key: the error of a command that could not run, the
/// trimmed standard error of one that failed.
pub fn keychain_set(run: Result<CommandOutput, String>) -> (r: Result<(), String>)
    ensures
        match run {
            Err(e) => r matches Err(m) && m@ == "调用 macOS Keychain 失败: "@ + e@,
            Ok(out) => if out.success {
                r is Ok
            } else {
                r matches Err(m) && m@ == trimmed(out.stderr@)
            },
        },
{
    match run {
        Err(e) => Err(prefixed("调用 macOS Keychain 失败: ", e.as_str())),
        Ok(out) => if out.success {
            Ok(())
        } else {
            Err(trim(out.stderr.as_str()))
        },
    }
}

/// The stored key: the trimmed standard output of a successful lookup, unless it is
/// empty or not UTF-8; nothing when the command could not run or failed.
pub fn keychain_get(run: Option<CommandOutput>) -> (r: Option<String>)
    ensures
        match run {
            Some(out) if out.success && out.stdout is Some && trimmed(out.stdout->0@).len() > 0 => r matches Some(k)
                && k@ == trimmed(out.stdout->0@),
            _ => r is None,
        },
{
    match run {
        Some(out) => {
            if !out.success {
                return None;
            }
            match out.stdout {
                Some(s) => {
                    let v = trim(s.as_str());
                    if v.as_str().unicode_len() == 0 {
                        None
                    } else {
                        Some(v)
                    }
                },
                None => None,
            }
        },
        None => None,
    }
}

/// `osascript -e 'tell application "Codex" to quit'`, whose outcome is ignored.
pub fn quit_codex_command() -> (c: Command)
    ensures
        c.program@ == "osascript"@,
        arg_views(c) == seq!["-e"@, "tell application \"Codex\" to quit"@],
{
    let mut args: Vec<String> = Vec::new();
    args.push(owned("-e"));
    args.push(owned("tell application \"Codex\" to quit"));
    let c = Command { program: owned("osascript"), args };
    assert(arg_views(c) =~= seq!["-e"@, "tell application \"Codex\" to quit"@]);
    c
}

/// How long to wait between quitting and reopening Codex, in milliseconds.
pub const RESTART_PAUSE_MS: u64 = 1200;

/// `open -a Codex`, started and not waited for.
pub fn open_codex_command() -> (c: Command)
    ensures
        c.program@ == "open"@,
        arg_views(c) == seq!["-a"@, "Codex"@],
{
    let mut args: Vec<String> = Vec::new();
    args.push(owned("-a"));
    args.push(owned("Codex"));
    let c = Command { program: owned("open"), args };
    assert(arg_views(c) =~= seq!["-a"@, "Codex"@]);
    c
}

/// The outcome of a restart: the error of reopening Codex, if it could not be started.
pub fn restart_codex(spawned: Result<(), String>) -> (r: Result<(), String>)
    ensures
        match spawned {
            Ok(()) => r is Ok,
            Err(e) => r matches Err(m) && m@ == "重新打开 Codex 失败: "@ + e@,
        },
{
    match spawned {
        Ok(()) => Ok(()),
        Err(e) => Err(prefixed("重新打开 Codex 失败: ", e.as_str())),
    }
}

} // verus!
