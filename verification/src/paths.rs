//! Where the application keeps its files, and which backups it keeps.
//!
//! Paths are strings, joined as `PathBuf::join` joins a relative name on Unix: with a
//! `/` in between unless the base is empty or already ends with one.
use vstd::prelude::*;
use crate::text::{decimal, push_decimal};

verus! {

/// The message when the home directory is unknown.
pub const NO_HOME_MESSAGE: &'static str = "无法确定用户 Home 目录";

/// `base` joined with the relative name `name`.
pub open spec fn joined(base: Seq<char>, name: Seq<char>) -> Seq<char> {
    if base.len() == 0 {
        name
    } else if base.last() == '/' {
        base + name
    } else {
        base + seq!['/'] + name
    }
}

/// The directory that Codex keeps its configuration in.
pub open spec fn codex_dir_of(home: Seq<char>) -> Seq<char> {
    joined(home, ".codex"@)
}

/// The directory that this application keeps its files in.
pub open spec fn app_dir_of(home: Seq<char>) -> Seq<char> {
    joined(codex_dir_of(home), "codex-switch-lite"@)
}

/// A path under the home directory, or the error for an unknown home.
pub open spec fn under_home(home: Option<&str>, f: spec_fn(Seq<char>) -> Seq<char>, r: Result<String, String>) -> bool {
    match home {
        Some(h) => r matches Ok(p) && p@ == f(h@),
        None => r matches Err(e) && e@ == NO_HOME_MESSAGE@,
    }
}

/// `base` joined with `name`.
pub fn path_join(base: &str, name: &str) -> (r: String)
    ensures
        r@ == joined(base@, name@),
{
    let n = base.unicode_len();
    let mut r = base.to_owned();
    if n > 0 && base.get_char(n - 1) != '/' {
        r.append("/");
        proof {
            reveal_strlit("/");
        }
    }
    r.append(name);
    proof {
        if n > 0 && base@.last() != '/' {
            assert(r@ =~= base@ + seq!['/'] + name@);
        }
    }
    r
}

fn no_home() -> (r: String)
    ensures
        r@ == NO_HOME_MESSAGE@,
{
    NO_HOME_MESSAGE.to_owned()
}

/// `~/.codex`.
pub fn codex_dir(home: Option<&str>) -> (r: Result<String, String>)
    ensures
        under_home(home, |h: Seq<char>| codex_dir_of(h), r),
{
    match home {
        Some(h) => Ok(path_join(h, ".codex")),
        None => Err(no_home()),
    }
}

/// `~/.codex/config.toml`, the live configuration.
pub fn live_config_path(home: Option<&str>) -> (r: Result<String, String>)
    ensures
        under_home(home, |h: Seq<char>| joined(codex_dir_of(h), "config.toml"@), r),
{
    let d = codex_dir(home)?;
    Ok(path_join(d.as_str(), "config.toml"))
}

/// `~/.codex/auth.json`, the official login (only tested for existence).
pub fn auth_path(home: Option<&str>) -> (r: Result<String, String>)
    ensures
        under_home(home, |h: Seq<char>| joined(codex_dir_of(h), "auth.json"@), r),
{
    let d = codex_dir(home)?;
    Ok(path_join(d.as_str(), "auth.json"))
}

/// `~/.codex/codex-switch-lite`.
pub fn app_dir(home: Option<&str>) -> (r: Result<String, String>)
    ensures
        under_home(home, |h: Seq<char>| app_dir_of(h), r),
{
    let d = codex_dir(home)?;
    Ok(path_join(d.as_str(), "codex-switch-lite"))
}

/// The Plus profile.
pub fn plus_profile_path(home: Option<&str>) -> (r: Result<String, String>)
    ensures
        under_home(home, |h: Seq<char>| joined(app_dir_of(h), "plus.toml"@), r),
{
    let d = app_dir(home)?;
    Ok(path_join(d.as_str(), "plus.toml"))
}

/// The External profile.
pub fn external_profile_path(home: Option<&str>) -> (r: Result<String, String>)
    ensures
        under_home(home, |h: Seq<char>| joined(app_dir_of(h), "external.toml"@), r),
{
    let d = app_dir(home)?;
    Ok(path_join(d.as_str(), "external.toml"))
}

/// The recorded mode.
pub fn state_path(home: Option<&str>) -> (r: Result<String, String>)
    ensures
        under_home(home, |h: Seq<char>| joined(app_dir_of(h), "state.json"@), r),
{
    let d = app_dir(home)?;
    Ok(path_join(d.as_str(), "state.json"))
}

/// The directory of the automatic backups.
pub fn backups_dir(home: Option<&str>) -> (r: Result<String, String>)
    ensures
        under_home(home, |h: Seq<char>| joined(app_dir_of(h), "backups"@), r),
{
    let d = app_dir(home)?;
    Ok(path_join(d.as_str(), "backups"))
}

/// The profiles of the earlier switcher that a first run imports: the Plus candidates,
/// then the External candidates, each list in the order in which they are tried.
pub fn old_profile_candidates(home: Option<&str>) -> (r: Result<(Vec<String>, Vec<String>), String>)
    ensures
        match home {
            Some(h) => r matches Ok((plus, external)) && {
                let old = joined(codex_dir_of(h@), "external-api-switcher"@);
                &&& plus@.len() == 1
                &&& plus@[0]@ == joined(old, "config.plus.toml"@)
                &&& external@.len() == 2
                &&& external@[0]@ == joined(old, "config.api.toml"@)
                &&& external@[1]@ == joined(old, "config.external.toml"@)
            },
            None => r matches Err(e) && e@ == NO_HOME_MESSAGE@,
        },
{
    let d = codex_dir(home)?;
    let old = path_join(d.as_str(), "external-api-switcher");
    let mut plus: Vec<String> = Vec::new();
    plus.push(path_join(old.as_str(), "config.plus.toml"));
    let mut external: Vec<String> = Vec::new();
    external.push(path_join(old.as_str(), "config.api.toml"));
    external.push(path_join(old.as_str(), "config.external.toml"));
    Ok((plus, external))
}

/// The file name of the backup taken at `stamp` (seconds since the Unix epoch).
pub open spec fn backup_name_of(stamp: nat) -> Seq<char> {
    "config-"@ + decimal(stamp) + ".toml"@
}

/// `config-{stamp}.toml`.
pub fn backup_file_name(stamp: u64) -> (r: String)
    ensures
        r@ == backup_name_of(stamp as nat),
{
    let mut r = "config-".to_owned();
    push_decimal(&mut r, stamp);
    r.append(".toml");
    r
}

} // verus!
