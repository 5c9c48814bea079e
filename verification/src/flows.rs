//! The decisions of the application's commands.
//!
//! Each command alternates file and process work with decisions.  The decisions stand
//! here: a command starts in a state and asks for an effect; the caller performs the
//! effect and hands back what came of it; the step function gives the next state and
//! effect, until the effect is `Finish`.
use vstd::prelude::*;
use crate::profiles::{
    apply_external, apply_plus, external_result, plus_result, prefixed, strip_external_secret,
    strip_result, sync_common, sync_result, text_result, validate_toml,
};
use crate::routing::{
    detect_mode, find_external_bearer_token, model_provider, opt_view, provider_base_url,
    provider_bearer_token, provider_requires_auth, spec_detect_mode,
    spec_find_external_bearer_token, spec_model_provider, spec_provider_base_url,
    spec_provider_bearer_token, spec_provider_requires_auth, Mode, EXTERNAL_PROVIDER_ID,
    EXTERNAL_URL,
};
use crate::text::{str_eq, trim, trimmed};
use crate::toml_doc::toml_edit_error;

verus! {

/// What a command reports to the user.
pub struct ActionResult {
    pub ok: bool,
    pub message: String,
}

/// The work that a command asks its caller to do next.
pub enum Effect {
    /// Read the live configuration; answer `Input::Live`.
    ReadLive,
    /// Write a mode profile; answer `Input::Written`.
    WriteProfile { mode: Mode, text: String },
    /// Read a mode profile; answer `Input::Text`.
    ReadProfile { mode: Mode },
    /// Look the external key up in the Keychain; answer `Input::Key`.
    GetKey,
    /// Store the external key in the Keychain; answer `Input::Written`.
    SetKey { key: String },
    /// Back the live configuration up; answer `Input::Saved` with the backup's path.
    Backup { live: String },
    /// Replace the live configuration; answer `Input::Written`.
    WriteLive { text: String },
    /// Read a backup; answer `Input::Text`.
    ReadBackup { path: String },
    /// Put the backed-up text back as the live configuration; answer `Input::Written`
    /// (its outcome is not looked at).
    RestoreLive { text: String },
    /// Record the mode; answer `Input::Written`.
    WriteState { mode: Mode },
    /// Restart Codex; answer `Input::Written`.
    Restart,
    /// The command is over.
    Finish { result: Result<ActionResult, String> },
}

/// What came of an effect.
pub enum Input {
    /// The live configuration: `None` where the file does not exist.
    Live(Option<Result<String, String>>),
    /// The text that was read.
    Text(Result<String, String>),
    /// The key in the Keychain, if any.
    Key(Option<String>),
    /// The path of the backup that was written.
    Saved(Result<String, String>),
    /// The outcome of a write, a Keychain update or a restart.
    Written(Result<(), String>),
}

/// The view of what `read_live_or_empty` gives.
pub open spec fn live_result(l: Option<Result<String, String>>) -> Result<Seq<char>, Seq<char>> {
    match l {
        None => Ok(Seq::<char>::empty()),
        Some(r) => text_result(r),
    }
}

/// The live configuration: its text, the empty text where the file does not exist, or
/// the error of reading it.
pub fn read_live_or_empty(live: Option<Result<String, String>>) -> (r: Result<String, String>)
    ensures
        text_result(r) == live_result(live),
{
    match live {
        Some(r) => r,
        None => Ok(String::new()),
    }
}

/// The user-facing name of a mode.
pub open spec fn mode_label(m: Mode) -> Seq<char> {
    match m {
        Mode::Plus => "ChatGPT Plus"@,
        Mode::External => "External API"@,
        Mode::Unknown => "未知"@,
    }
}

fn label(m: Mode) -> (r: String)
    ensures
        r@ == mode_label(m),
{
    match m {
        Mode::Plus => "ChatGPT Plus".to_owned(),
        Mode::External => "External API".to_owned(),
        Mode::Unknown => "未知".to_owned(),
    }
}

fn concat3(a: &str, b: &str, c: &str) -> (r: String)
    ensures
        r@ == a@ + b@ + c@,
{
    let mut r = a.to_owned();
    r.append(b);
    r.append(c);
    r
}

fn text(s: &str) -> (r: String)
    ensures
        r@ == s@,
{
    s.to_owned()
}

// ---------------------------------------------------------------------------------
// First run: the two profiles.
// ---------------------------------------------------------------------------------

/// What a first run writes: the Plus profile, the External profile (or the error that
/// stops the run once the Plus profile is written), a key to move into the Keychain if
/// it holds none, and the mode of the live configuration.
pub struct InitPlan {
    pub plus_text: String,
    pub external_text: Result<String, String>,
    pub migrate_key: Option<String>,
    pub live_mode: Mode,
}

/// The first of two optional texts, else the second.
pub open spec fn or_else(a: Option<Seq<char>>, b: Seq<char>) -> Seq<char> {
    match a {
        Some(x) => x,
        None => b,
    }
}

/// What `ensure_initialized` gives once the profiles' seeds are known.
pub open spec fn init_result(
    live: Seq<char>,
    old_plus: Option<Seq<char>>,
    old_external: Option<Seq<char>>,
    r: Result<InitPlan, String>,
) -> bool {
    let plus_seed = or_else(old_plus, live);
    let external_seed = or_else(old_external, live);
    let imported = spec_find_external_bearer_token(external_seed);
    match r {
        Err(e) => plus_result(plus_seed, Err(e@)) || (exists|p: Seq<char>|
            #[trigger] plus_result(plus_seed, Ok(p)) && external_result(
                external_seed,
                imported,
                Err(e@),
            )),
        Ok(plan) => {
            &&& plus_result(plus_seed, Ok(plan.plus_text@))
            &&& exists|ext: Seq<char>|
                #![trigger external_result(external_seed, imported, Ok(ext))]
                {
                    &&& external_result(external_seed, imported, Ok(ext))
                    &&& strip_result(ext, text_result(plan.external_text))
                    &&& opt_view(plan.migrate_key) == match spec_find_external_bearer_token(ext) {
                        Some(k) => Some(k),
                        None => spec_find_external_bearer_token(live),
                    }
                }
            &&& plan.live_mode == spec_detect_mode(live)
        },
    }
}

fn opt_as_str(o: &Option<String>) -> (r: Option<&str>)
    ensures
        match o {
            Some(s) => r matches Some(t) && t@ == s@,
            None => r is None,
        },
{
    match o {
        Some(s) => Some(s.as_str()),
        None => None,
    }
}

/// The first run: nothing to do where both profiles exist; otherwise the profiles made
/// from the earlier switcher's profiles, or from the live configuration where there are
/// none.  `live` is what reading the live configuration gave.
pub fn ensure_initialized(
    plus_exists: bool,
    external_exists: bool,
    live: Result<String, String>,
    old_plus: Option<String>,
    old_external: Option<String>,
) -> (r: Result<Option<InitPlan>, String>)
    ensures
        plus_exists && external_exists ==> r matches Ok(None),
        !(plus_exists && external_exists) ==> match live {
            Err(e) => r matches Err(m) && m@ == e@,
            Ok(l) => match r {
                Ok(Some(plan)) => init_result(l@, opt_view(old_plus), opt_view(old_external), Ok(plan)),
                Ok(None) => false,
                Err(m) => init_result(
                    l@,
                    opt_view(old_plus),
                    opt_view(old_external),
                    Err(m),
                ),
            },
        },
{
    if plus_exists && external_exists {
        return Ok(None);
    }
    let live = live?;
    let live_mode = detect_mode(live.as_str());
    let plus_seed = match old_plus {
        Some(s) => s,
        None => live.clone(),
    };
    let external_seed = match old_external {
        Some(s) => s,
        None => live.clone(),
    };
    let plus_text = apply_plus(plus_seed.as_str())?;
    let imported = find_external_bearer_token(external_seed.as_str());
    let with_key = match apply_external(external_seed.as_str(), opt_as_str(&imported)) {
        Ok(t) => t,
        Err(e) => {
            assert(exists|p: Seq<char>| #[trigger] plus_result(plus_seed@, Ok(p)) && external_result(
                external_seed@,
                opt_view(imported),
                Err(e@),
            )) by {
                assert(plus_result(plus_seed@, Ok(plus_text@)));
            }
            return Err(e);
        },
    };
    let migrate_key = match find_external_bearer_token(with_key.as_str()) {
        Some(k) => Some(k),
        None => find_external_bearer_token(live.as_str()),
    };
    let external_text = strip_external_secret(with_key.as_str());
    let plan = InitPlan { plus_text, external_text, migrate_key, live_mode };
    assert(external_result(external_seed@, opt_view(imported), Ok(with_key@)));
    Ok(Some(plan))
}

/// The key that a first run stores in the Keychain: the plan's key, and only where the
/// Keychain holds none yet (`stored` is what the lookup gave).
pub fn key_to_migrate(stored: Option<String>, candidate: Option<String>) -> (r: Option<String>)
    ensures
        stored is None ==> opt_view(r) == opt_view(candidate),
        stored is Some ==> r is None,
{
    match stored {
        Some(_) => None,
        None => candidate,
    }
}

/// The message of a first run.
pub fn initialize_profiles_message() -> (r: ActionResult)
    ensures
        r.ok,
        r.message@ == "初始化完成：Plus / External 两套模式档案已建立，auth.json 未修改。"@,
{
    ActionResult { ok: true, message: text("初始化完成：Plus / External 两套模式档案已建立，auth.json 未修改。") }
}

// ---------------------------------------------------------------------------------
// Switching modes.
// ---------------------------------------------------------------------------------

/// Where a switch stands.
pub enum SwitchState {
    /// The live configuration is asked for.
    AwaitLive { target: Mode },
    /// The live configuration's own profile is being saved.
    AwaitSaved { target: Mode, live: String },
    /// The target's profile is asked for.
    AwaitSeed { target: Mode, live: String },
    /// The external key is asked for.
    AwaitKey { target: Mode, live: String, synced: String },
    /// The live configuration is being backed up.
    AwaitBackup { target: Mode, final_text: String },
    /// The live configuration is being replaced.
    AwaitLiveWrite { target: Mode, final_text: String, backup: String },
    /// The backup is asked for, to undo a failed replacement.
    AwaitRollbackRead { error: String },
    /// The backup is being put back.
    AwaitRollbackWrite { error: String },
    /// The target's profile is being updated.
    AwaitProfileWrite { target: Mode },
    /// The mode is being recorded.
    AwaitStateWrite { target: Mode },
    /// Codex is being restarted.
    AwaitRestart { target: Mode },
    /// The switch is over.
    Finished,
}

/// The input that a switch state waits for.
pub open spec fn switch_input_fits(s: SwitchState, i: Input) -> bool {
    match s {
        SwitchState::AwaitLive { .. } => i is Live,
        SwitchState::AwaitSeed { .. } => i is Text,
        SwitchState::AwaitKey { .. } => i is Key,
        SwitchState::AwaitBackup { .. } => i is Saved,
        SwitchState::AwaitRollbackRead { .. } => i is Text,
        SwitchState::Finished => false,
        _ => i is Written,
    }
}

/// The command ends with the error `m`.
pub open spec fn fails_with(n: SwitchState, e: Effect, m: Seq<char>) -> bool {
    &&& n is Finished
    &&& e matches Effect::Finish { result: Err(x) } && x@ == m
}

/// The command ends with the message `m`.
pub open spec fn succeeds_with(e: Effect, m: Seq<char>) -> bool {
    e matches Effect::Finish { result: Ok(a) } && a.ok && a.message@ == m
}

/// What follows once the final text of the live configuration is known.
pub open spec fn after_final(target: Mode, fin: Seq<char>, live: Seq<char>, n: SwitchState, e: Effect) -> bool {
    match toml_edit_error(fin) {
        Some(m) => fails_with(n, e, "TOML 校验失败: "@ + m),
        None => {
            &&& e matches Effect::Backup { live: l } && l@ == live
            &&& n matches SwitchState::AwaitBackup { target: t, final_text: f } && t == target && f@
                == fin
        },
    }
}

/// The profile that the live configuration saves before it is left.
pub open spec fn saved_profile(current: Mode, live: Seq<char>, r: Result<Seq<char>, Seq<char>>) -> bool {
    match current {
        Mode::Plus => plus_result(live, r),
        _ => match r {
            Ok(t) => exists|x: Seq<char>|
                #![trigger external_result(live, None, Ok(x))]
                external_result(live, None, Ok(x)) && strip_result(x, Ok(t)),
            Err(m) => external_result(live, None, Err(m)) || exists|x: Seq<char>|
                #![trigger external_result(live, None, Ok(x))]
                external_result(live, None, Ok(x)) && strip_result(x, Err(m)),
        },
    }
}

/// The profile that a switch keeps of the new live configuration.
pub open spec fn kept_profile(target: Mode, fin: Seq<char>, r: Result<Seq<char>, Seq<char>>) -> bool {
    match target {
        Mode::Plus => plus_result(fin, r),
        _ => strip_result(fin, r),
    }
}

/// The messages of a finished switch.
pub open spec fn switched_message(target: Mode) -> Seq<char> {
    "已切到 "@ + mode_label(target) + "，Codex Desktop 已重启。请新建聊天；旧线程不会原地换 Provider。"@
}

pub open spec fn switched_restart_failed_message(target: Mode, err: Seq<char>) -> Seq<char> {
    "配置已切到 "@ + mode_label(target) + "，但自动重启 Codex 失败："@ + err
        + "。请手动完全退出并重新打开 Codex，然后新建聊天。"@
}

/// The steps of a switch: from state `s` and input `i`, the next state `n` and the
/// effect `e`.
pub open spec fn switch_next(s: SwitchState, i: Input, n: SwitchState, e: Effect) -> bool {
    match s {
        SwitchState::AwaitLive { target } => match i {
            Input::Live(l) => match live_result(l) {
                Err(m) => fails_with(n, e, m),
                Ok(live) => {
                    let current = spec_detect_mode(live);
                    if current == Mode::Unknown {
                        &&& e matches Effect::ReadProfile { mode } && mode == target
                        &&& n matches SwitchState::AwaitSeed { target: t, live: l2 } && t == target
                            && l2@ == live
                    } else {
                        ||| (e matches Effect::Finish { result: Err(x) } && n is Finished
                            && saved_profile(current, live, Err(x@)))
                        ||| {
                            &&& e matches Effect::WriteProfile { mode, text } && mode == current
                                && saved_profile(current, live, Ok(text@))
                            &&& n matches SwitchState::AwaitSaved { target: t, live: l2 } && t
                                == target && l2@ == live
                        }
                    }
                },
            },
            _ => false,
        },
        SwitchState::AwaitSaved { target, live } => match i {
            Input::Written(Err(m)) => fails_with(n, e, m@),
            Input::Written(Ok(())) => {
                &&& e matches Effect::ReadProfile { mode } && mode == target
                &&& n matches SwitchState::AwaitSeed { target: t, live: l2 } && t == target && l2@
                    == live@
            },
            _ => false,
        },
        SwitchState::AwaitSeed { target, live } => match i {
            Input::Text(Err(m)) => fails_with(n, e, m@),
            Input::Text(Ok(seed)) => {
                ||| (e matches Effect::Finish { result: Err(x) } && n is Finished && (sync_result(
                    live@,
                    seed@,
                    Err(x@),
                ) || (target == Mode::Plus && exists|y: Seq<char>|
                    #![trigger sync_result(live@, seed@, Ok(y))]
                    sync_result(live@, seed@, Ok(y)) && plus_result(y, Err(x@)))))
                ||| (exists|y: Seq<char>|
                    #![trigger sync_result(live@, seed@, Ok(y))]
                    sync_result(live@, seed@, Ok(y)) && if target == Mode::Plus {
                        exists|f: Seq<char>|
                            #![trigger plus_result(y, Ok(f))]
                            plus_result(y, Ok(f)) && after_final(target, f, live@, n, e)
                    } else {
                        &&& e is GetKey
                        &&& n matches SwitchState::AwaitKey { target: t, live: l2, synced: y2 } && t
                            == target && l2@ == live@ && y2@ == y
                    })
            },
            _ => false,
        },
        SwitchState::AwaitKey { target, live, synced } => match i {
            Input::Key(None) => fails_with(n, e, "请先保存 External API Key"@),
            Input::Key(Some(key)) => {
                ||| (e matches Effect::Finish { result: Err(x) } && n is Finished && external_result(
                    synced@,
                    Some(key@),
                    Err(x@),
                ))
                ||| (exists|f: Seq<char>|
                    #![trigger external_result(synced@, Some(key@), Ok(f))]
                    external_result(synced@, Some(key@), Ok(f)) && after_final(
                        target,
                        f,
                        live@,
                        n,
                        e,
                    ))
            },
            _ => false,
        },
        SwitchState::AwaitBackup { target, final_text } => match i {
            Input::Saved(Err(m)) => fails_with(n, e, m@),
            Input::Saved(Ok(path)) => {
                &&& e matches Effect::WriteLive { text } && text@ == final_text@
                &&& n matches SwitchState::AwaitLiveWrite { target: t, final_text: f, backup: b }
                    && t == target && f@ == final_text@ && b@ == path@
            },
            _ => false,
        },
        SwitchState::AwaitLiveWrite { target, final_text, backup } => match i {
            Input::Written(Err(err)) => {
                &&& e matches Effect::ReadBackup { path } && path@ == backup@
                &&& n matches SwitchState::AwaitRollbackRead { error } && error@ == err@
            },
            Input::Written(Ok(())) => {
                ||| (e matches Effect::Finish { result: Err(x) } && n is Finished && kept_profile(
                    target,
                    final_text@,
                    Err(x@),
                ))
                ||| {
                    &&& e matches Effect::WriteProfile { mode, text } && mode == target
                        && kept_profile(target, final_text@, Ok(text@))
                    &&& n matches SwitchState::AwaitProfileWrite { target: t } && t == target
                }
            },
            _ => false,
        },
        SwitchState::AwaitRollbackRead { error } => match i {
            Input::Text(Err(m)) => fails_with(n, e, m@),
            Input::Text(Ok(orig)) => {
                &&& e matches Effect::RestoreLive { text } && text@ == orig@
                &&& n matches SwitchState::AwaitRollbackWrite { error: er } && er@ == error@
            },
            _ => false,
        },
        SwitchState::AwaitRollbackWrite { error } => match i {
            Input::Written(_) => fails_with(n, e, "切换写入失败，已回滚："@ + error@),
            _ => false,
        },
        SwitchState::AwaitProfileWrite { target } => match i {
            Input::Written(Err(m)) => fails_with(n, e, m@),
            Input::Written(Ok(())) => {
                &&& e matches Effect::WriteState { mode } && mode == target
                &&& n matches SwitchState::AwaitStateWrite { target: t } && t == target
            },
            _ => false,
        },
        SwitchState::AwaitStateWrite { target } => match i {
            Input::Written(Err(m)) => fails_with(n, e, m@),
            Input::Written(Ok(())) => {
                &&& e is Restart
                &&& n matches SwitchState::AwaitRestart { target: t } && t == target
            },
            _ => false,
        },
        SwitchState::AwaitRestart { target } => match i {
            Input::Written(Err(err)) => n is Finished && succeeds_with(
                e,
                switched_restart_failed_message(target, err@),
            ),
            Input::Written(Ok(())) => n is Finished && succeeds_with(e, switched_message(target)),
            _ => false,
        },
        SwitchState::Finished => false,
    }
}

/// The mode named by a switch request.
pub open spec fn requested_mode(mode: Seq<char>) -> Option<Mode> {
    if mode == "plus"@ {
        Some(Mode::Plus)
    } else if mode == "external"@ {
        Some(Mode::External)
    } else {
        None
    }
}

/// Starts a switch to the mode named `mode` ("plus" or "external"), once the profiles
/// exist.
pub fn switch_mode(mode: &str) -> (r: (SwitchState, Effect))
    ensures
        match requested_mode(mode@) {
            None => fails_with(r.0, r.1, "未知模式"@),
            Some(target) => r.1 is ReadLive && r.0 == (SwitchState::AwaitLive { target }),
        },
{
    if str_eq(mode, "plus") {
        (SwitchState::AwaitLive { target: Mode::Plus }, Effect::ReadLive)
    } else if str_eq(mode, "external") {
        (SwitchState::AwaitLive { target: Mode::External }, Effect::ReadLive)
    } else {
        (SwitchState::Finished, Effect::Finish { result: Err(text("未知模式")) })
    }
}

fn finish_err(m: String) -> (r: (SwitchState, Effect))
    ensures
        fails_with(r.0, r.1, m@),
{
    (SwitchState::Finished, Effect::Finish { result: Err(m) })
}

/// What follows once the final text is known: it is checked, then the live
/// configuration is backed up.
fn continue_with_final(target: Mode, fin: String, live: String) -> (r: (SwitchState, Effect))
    ensures
        after_final(target, fin@, live@, r.0, r.1),
{
    match validate_toml(fin.as_str()) {
        Err(m) => finish_err(m),
        Ok(()) => (SwitchState::AwaitBackup { target, final_text: fin }, Effect::Backup { live }),
    }
}

/// One step of a switch.
pub fn switch_step(s: SwitchState, i: Input) -> (r: (SwitchState, Effect))
    requires
        switch_input_fits(s, i),
    ensures
        switch_next(s, i, r.0, r.1),
{
    match s {
        SwitchState::AwaitLive { target } => {
            let l = match i {
                Input::Live(l) => l,
                _ => {
                    assert(false);
                    return finish_err(String::new());
                },
            };
            let live = match read_live_or_empty(l) {
                Ok(t) => t,
                Err(m) => return finish_err(m),
            };
            let current = detect_mode(live.as_str());
            match current {
                Mode::Plus => match apply_plus(live.as_str()) {
                    Ok(t) => (
                        SwitchState::AwaitSaved { target, live },
                        Effect::WriteProfile { mode: Mode::Plus, text: t },
                    ),
                    Err(m) => finish_err(m),
                },
                Mode::External => {
                    let with_none = match apply_external(live.as_str(), None) {
                        Ok(x) => x,
                        Err(m) => return finish_err(m),
                    };
                    match strip_external_secret(with_none.as_str()) {
                        Ok(t) => (
                            SwitchState::AwaitSaved { target, live },
                            Effect::WriteProfile { mode: Mode::External, text: t },
                        ),
                        Err(m) => finish_err(m),
                    }
                },
                Mode::Unknown => (
                    SwitchState::AwaitSeed { target, live },
                    Effect::ReadProfile { mode: target },
                ),
            }
        },
        SwitchState::AwaitSaved { target, live } => match i {
            Input::Written(Err(m)) => finish_err(m),
            _ => (SwitchState::AwaitSeed { target, live }, Effect::ReadProfile { mode: target }),
        },
        SwitchState::AwaitSeed { target, live } => {
            let seed = match i {
                Input::Text(Ok(t)) => t,
                Input::Text(Err(m)) => return finish_err(m),
                _ => {
                    assert(false);
                    return finish_err(String::new());
                },
            };
            let synced = match sync_common(live.as_str(), seed.as_str()) {
                Ok(y) => y,
                Err(m) => return finish_err(m),
            };
            match target {
                Mode::Plus => match apply_plus(synced.as_str()) {
                    Ok(f) => continue_with_final(target, f, live),
                    Err(m) => finish_err(m),
                },
                _ => (SwitchState::AwaitKey { target, live, synced }, Effect::GetKey),
            }
        },
        SwitchState::AwaitKey { target, live, synced } => {
            let key = match i {
                Input::Key(Some(k)) => k,
                Input::Key(None) => return finish_err(text("请先保存 External API Key")),
                _ => {
                    assert(false);
                    return finish_err(String::new());
                },
            };
            match apply_external(synced.as_str(), Some(key.as_str())) {
                Ok(f) => continue_with_final(target, f, live),
                Err(m) => finish_err(m),
            }
        },
        SwitchState::AwaitBackup { target, final_text } => match i {
            Input::Saved(Ok(path)) => {
                let t = final_text.clone();
                (
                    SwitchState::AwaitLiveWrite { target, final_text, backup: path },
                    Effect::WriteLive { text: t },
                )
            },
            Input::Saved(Err(m)) => finish_err(m),
            _ => {
                assert(false);
                finish_err(String::new())
            },
        },
        SwitchState::AwaitLiveWrite { target, final_text, backup } => match i {
            Input::Written(Err(err)) => (
                SwitchState::AwaitRollbackRead { error: err },
                Effect::ReadBackup { path: backup },
            ),
            _ => {
                let kept = match target {
                    Mode::Plus => apply_plus(final_text.as_str()),
                    _ => strip_external_secret(final_text.as_str()),
                };
                match kept {
                    Ok(t) => (
                        SwitchState::AwaitProfileWrite { target },
                        Effect::WriteProfile { mode: target, text: t },
                    ),
                    Err(m) => finish_err(m),
                }
            },
        },
        SwitchState::AwaitRollbackRead { error } => match i {
            Input::Text(Ok(orig)) => (
                SwitchState::AwaitRollbackWrite { error },
                Effect::RestoreLive { text: orig },
            ),
            Input::Text(Err(m)) => finish_err(m),
            _ => {
                assert(false);
                finish_err(String::new())
            },
        },
        SwitchState::AwaitRollbackWrite { error } => finish_err(
            prefixed("切换写入失败，已回滚：", error.as_str()),
        ),
        SwitchState::AwaitProfileWrite { target } => match i {
            Input::Written(Err(m)) => finish_err(m),
            _ => (SwitchState::AwaitStateWrite { target }, Effect::WriteState { mode: target }),
        },
        SwitchState::AwaitStateWrite { target } => match i {
            Input::Written(Err(m)) => finish_err(m),
            _ => (SwitchState::AwaitRestart { target }, Effect::Restart),
        },
        SwitchState::AwaitRestart { target } => {
            let l = label(target);
            let message = match i {
                Input::Written(Err(err)) => {
                    let head = concat3("配置已切到 ", l.as_str(), "，但自动重启 Codex 失败：");
                    concat3(head.as_str(), err.as_str(), "。请手动完全退出并重新打开 Codex，然后新建聊天。")
                },
                _ => concat3("已切到 ", l.as_str(), "，Codex Desktop 已重启。请新建聊天；旧线程不会原地换 Provider。"),
            };
            (SwitchState::Finished, Effect::Finish { result: Ok(ActionResult { ok: true, message }) })
        },
        SwitchState::Finished => {
            assert(false);
            finish_err(String::new())
        },
    }
}

// ---------------------------------------------------------------------------------
// Saving the external key.
// ---------------------------------------------------------------------------------

/// Where saving the key stands.
pub enum SaveState {
    /// The key is being stored in the Keychain.
    AwaitKeySet { key: String },
    /// The live configuration is asked for.
    AwaitLive { key: String },
    /// The live configuration is being backed up.
    AwaitBackup { key: String, live: String },
    /// The live configuration is being replaced.
    AwaitLiveWrite { backup: String },
    /// The backup is asked for, to undo a failed update.
    AwaitRollbackRead { error: String },
    /// The backup is being put back.
    AwaitRollbackWrite { error: String },
    /// Codex is being restarted.
    AwaitRestart,
    /// Saving is over.
    Finished,
}

/// The input that a saving state waits for.
pub open spec fn save_input_fits(s: SaveState, i: Input) -> bool {
    match s {
        SaveState::AwaitLive { .. } => i is Live,
        SaveState::AwaitBackup { .. } => i is Saved,
        SaveState::AwaitRollbackRead { .. } => i is Text,
        SaveState::Finished => false,
        _ => i is Written,
    }
}

/// Saving ends with the error `m`.
pub open spec fn save_fails_with(n: SaveState, e: Effect, m: Seq<char>) -> bool {
    &&& n is Finished
    &&& e matches Effect::Finish { result: Err(x) } && x@ == m
}

/// The step into the rollback of a failed update of the live configuration.
pub open spec fn save_rolls_back(n: SaveState, e: Effect, backup: Seq<char>, err: Seq<char>) -> bool {
    &&& e matches Effect::ReadBackup { path } && path@ == backup
    &&& n matches SaveState::AwaitRollbackRead { error } && error@ == err
}

/// The steps of saving the key.
pub open spec fn save_next(s: SaveState, i: Input, n: SaveState, e: Effect) -> bool {
    match s {
        SaveState::AwaitKeySet { key } => match i {
            Input::Written(Err(m)) => save_fails_with(n, e, m@),
            Input::Written(Ok(())) => {
                &&& e is ReadLive
                &&& n matches SaveState::AwaitLive { key: k } && k@ == key@
            },
            _ => false,
        },
        SaveState::AwaitLive { key } => match i {
            Input::Live(l) => match live_result(l) {
                Err(m) => save_fails_with(n, e, m),
                Ok(live) => if spec_detect_mode(live) == Mode::External {
                    &&& e matches Effect::Backup { live: l2 } && l2@ == live
                    &&& n matches SaveState::AwaitBackup { key: k, live: l3 } && k@ == key@ && l3@
                        == live
                } else {
                    &&& n is Finished
                    &&& e matches Effect::Finish { result: Ok(a) } && a.ok && a.message@
                        == "External API Key 已保存到 macOS Keychain。"@
                },
            },
            _ => false,
        },
        SaveState::AwaitBackup { key, live } => match i {
            Input::Saved(Err(m)) => save_fails_with(n, e, m@),
            Input::Saved(Ok(path)) => {
                ||| (exists|t: Seq<char>|
                    #![trigger external_result(live@, Some(key@), Ok(t))]
                    {
                        &&& external_result(live@, Some(key@), Ok(t))
                        &&& e matches Effect::WriteLive { text } && text@ == t
                        &&& n matches SaveState::AwaitLiveWrite { backup } && backup@ == path@
                    })
                ||| (exists|err: Seq<char>|
                    #![trigger external_result(live@, Some(key@), Err(err))]
                    external_result(live@, Some(key@), Err(err)) && save_rolls_back(
                        n,
                        e,
                        path@,
                        err,
                    ))
            },
            _ => false,
        },
        SaveState::AwaitLiveWrite { backup } => match i {
            Input::Written(Err(err)) => save_rolls_back(n, e, backup@, err@),
            Input::Written(Ok(())) => e is Restart && n is AwaitRestart,
            _ => false,
        },
        SaveState::AwaitRollbackRead { error } => match i {
            Input::Text(Err(m)) => save_fails_with(n, e, m@),
            Input::Text(Ok(orig)) => {
                &&& e matches Effect::RestoreLive { text } && text@ == orig@
                &&& n matches SaveState::AwaitRollbackWrite { error: er } && er@ == error@
            },
            _ => false,
        },
        SaveState::AwaitRollbackWrite { error } => match i {
            Input::Written(_) => save_fails_with(
                n,
                e,
                "更新 External live config 失败，已回滚："@ + error@,
            ),
            _ => false,
        },
        SaveState::AwaitRestart => match i {
            Input::Written(Err(m)) => save_fails_with(n, e, m@),
            Input::Written(Ok(())) => {
                &&& n is Finished
                &&& e matches Effect::Finish { result: Ok(a) } && a.ok && a.message@
                    == "Key 已保存并更新到 External live config；Codex 已重启，请新建聊天。"@
            },
            _ => false,
        },
        SaveState::Finished => false,
    }
}

/// Starts saving the external key: a blank key is refused; otherwise the trimmed key
/// goes to the Keychain.
pub fn save_external_key(key: &str) -> (r: (SaveState, Effect))
    ensures
        trimmed(key@).len() == 0 ==> save_fails_with(r.0, r.1, "API Key 不能为空"@),
        trimmed(key@).len() > 0 ==> (r.1 matches Effect::SetKey { key: k } && k@ == trimmed(key@)),
        trimmed(key@).len() > 0 ==> (r.0 matches SaveState::AwaitKeySet { key: k } && k@ == trimmed(
            key@,
        )),
{
    let k = trim(key);
    if k.as_str().unicode_len() == 0 {
        return (SaveState::Finished, Effect::Finish { result: Err(text("API Key 不能为空")) });
    }
    let k2 = k.clone();
    (SaveState::AwaitKeySet { key: k }, Effect::SetKey { key: k2 })
}

fn save_finish_err(m: String) -> (r: (SaveState, Effect))
    ensures
        save_fails_with(r.0, r.1, m@),
{
    (SaveState::Finished, Effect::Finish { result: Err(m) })
}

/// One step of saving the key.
pub fn save_step(s: SaveState, i: Input) -> (r: (SaveState, Effect))
    requires
        save_input_fits(s, i),
    ensures
        save_next(s, i, r.0, r.1),
{
    match s {
        SaveState::AwaitKeySet { key } => match i {
            Input::Written(Err(m)) => save_finish_err(m),
            _ => (SaveState::AwaitLive { key }, Effect::ReadLive),
        },
        SaveState::AwaitLive { key } => {
            let l = match i {
                Input::Live(l) => l,
                _ => {
                    assert(false);
                    return save_finish_err(String::new());
                },
            };
            let live = match read_live_or_empty(l) {
                Ok(t) => t,
                Err(m) => return save_finish_err(m),
            };
            match detect_mode(live.as_str()) {
                Mode::External => {
                    let l2 = live.clone();
                    (SaveState::AwaitBackup { key, live }, Effect::Backup { live: l2 })
                },
                _ => (
                    SaveState::Finished,
                    Effect::Finish {
                        result: Ok(
                            ActionResult {
                                ok: true,
                                message: text("External API Key 已保存到 macOS Keychain。"),
                            },
                        ),
                    },
                ),
            }
        },
        SaveState::AwaitBackup { key, live } => match i {
            Input::Saved(Ok(path)) => match apply_external(live.as_str(), Some(key.as_str())) {
                Ok(t) => (SaveState::AwaitLiveWrite { backup: path }, Effect::WriteLive { text: t }),
                Err(err) => (
                    SaveState::AwaitRollbackRead { error: err },
                    Effect::ReadBackup { path },
                ),
            },
            Input::Saved(Err(m)) => save_finish_err(m),
            _ => {
                assert(false);
                save_finish_err(String::new())
            },
        },
        SaveState::AwaitLiveWrite { backup } => match i {
            Input::Written(Err(err)) => (
                SaveState::AwaitRollbackRead { error: err },
                Effect::ReadBackup { path: backup },
            ),
            _ => (SaveState::AwaitRestart, Effect::Restart),
        },
        SaveState::AwaitRollbackRead { error } => match i {
            Input::Text(Ok(orig)) => (
                SaveState::AwaitRollbackWrite { error },
                Effect::RestoreLive { text: orig },
            ),
            Input::Text(Err(m)) => save_finish_err(m),
            _ => {
                assert(false);
                save_finish_err(String::new())
            },
        },
        SaveState::AwaitRollbackWrite { error } => save_finish_err(
            prefixed("更新 External live config 失败，已回滚：", error.as_str()),
        ),
        SaveState::AwaitRestart => match i {
            Input::Written(Err(m)) => save_finish_err(m),
            _ => (
                SaveState::Finished,
                Effect::Finish {
                    result: Ok(
                        ActionResult {
                            ok: true,
                            message: text(
                                "Key 已保存并更新到 External live config；Codex 已重启，请新建聊天。",
                            ),
                        },
                    ),
                },
            ),
        },
        SaveState::Finished => {
            assert(false);
            save_finish_err(String::new())
        },
    }
}

// ---------------------------------------------------------------------------------
// Restoring the latest backup.
// ---------------------------------------------------------------------------------

/// The backup to restore: the latest one, or an error where there is none.
pub fn pick_backup(latest: Result<Option<String>, String>) -> (r: Result<String, String>)
    ensures
        match latest {
            Err(e) => r matches Err(m) && m@ == e@,
            Ok(None) => r matches Err(m) && m@ == "没有可恢复的备份"@,
            Ok(Some(p)) => r matches Ok(q) && q@ == p@,
        },
{
    match latest {
        Err(e) => Err(e),
        Ok(None) => Err(text("没有可恢复的备份")),
        Ok(Some(p)) => Ok(p),
    }
}

/// A backup's text is restored only if it is TOML; the mode to record is its mode.
pub fn check_restored_text(restored: &str) -> (r: Result<Mode, String>)
    ensures
        match toml_edit_error(restored@) {
            Some(m) => r matches Err(e) && e@ == "TOML 校验失败: "@ + m,
            None => r == Ok::<Mode, String>(spec_detect_mode(restored@)),
        },
{
    validate_toml(restored)?;
    Ok(detect_mode(restored))
}

/// The message of a restore of the backup at `path`.
pub fn restored_message(path: &str) -> (r: ActionResult)
    ensures
        r.ok,
        r.message@ == "已恢复最近备份："@ + path@ + "。Codex 已尝试重启。"@,
{
    ActionResult { ok: true, message: concat3("已恢复最近备份：", path, "。Codex 已尝试重启。") }
}

// ---------------------------------------------------------------------------------
// Status.
// ---------------------------------------------------------------------------------

/// What the status command reports.
pub struct Status {
    pub initialized: bool,
    pub mode: Mode,
    pub live_provider: Option<String>,
    pub auth_exists: bool,
    pub key_saved: bool,
    pub routing_ok: bool,
    pub config_path: String,
    pub last_backup: Option<String>,
    pub warning: Option<String>,
}

/// What the status command reads before it decides: the live configuration, whether
/// both profiles and the official login exist, whether a key is stored, the recorded
/// mode, the live configuration's path and the latest backup.
pub struct StatusFacts {
    pub live: Result<String, String>,
    pub initialized: bool,
    pub auth_exists: bool,
    pub key_saved: bool,
    pub recorded_mode: Option<Mode>,
    pub config_path: Result<String, String>,
    pub last_backup: Result<Option<String>, String>,
}

/// The live configuration routes every request to the external endpoint with a token
/// while keeping the official login.
pub open spec fn spec_routing_ok(live: Seq<char>) -> bool {
    &&& spec_detect_mode(live) == Mode::External
    &&& spec_model_provider(live) == Some(EXTERNAL_PROVIDER_ID@)
    &&& spec_provider_base_url(live, EXTERNAL_PROVIDER_ID@) == Some(EXTERNAL_URL@)
    &&& spec_provider_bearer_token(live, EXTERNAL_PROVIDER_ID@) is Some
    &&& spec_provider_requires_auth(live, EXTERNAL_PROVIDER_ID@) == Some(true)
}

pub open spec fn mismatch_warning() -> Seq<char> {
    "状态记录与 live config 不一致；以 live config 为准，建议重新切换一次。"@
}

pub open spec fn incomplete_warning() -> Seq<char> {
    "External 模式配置不完整：Provider / endpoint / bearer token / OAuth 保留项至少有一项未闭环。"@
}

pub open spec fn no_auth_warning() -> Seq<char> {
    "未检测到 ~/.codex/auth.json；如果你希望保留 ChatGPT Plus，请先在 Codex Desktop 完成官方登录。"@
}

pub open spec fn no_auth_first_warning() -> Seq<char> {
    "未检测到官方 auth.json；初始化前建议先确认 Codex Desktop 已登录 ChatGPT。"@
}

/// The warning of the status: a recorded mode that the live configuration
/// contradicts, an incomplete External routing, or a missing official login.
pub open spec fn spec_warning(recorded: Option<Mode>, mode: Mode, routing_ok: bool, auth_exists: bool) -> Option<Seq<char>> {
    match recorded {
        Some(saved) => if saved != mode && saved != Mode::Unknown && mode != Mode::Unknown {
            Some(mismatch_warning())
        } else if mode == Mode::External && !routing_ok {
            Some(incomplete_warning())
        } else if !auth_exists {
            Some(no_auth_warning())
        } else {
            None
        },
        None => if !auth_exists {
            Some(no_auth_first_warning())
        } else {
            None
        },
    }
}

/// Whether the live configuration routes externally as it should.
pub fn routing_ok(live: &str) -> (r: bool)
    ensures
        r == spec_routing_ok(live@),
{
    if detect_mode(live) != Mode::External {
        return false;
    }
    let provider_ok = match model_provider(live) {
        Some(p) => str_eq(p.as_str(), EXTERNAL_PROVIDER_ID),
        None => false,
    };
    if !provider_ok {
        return false;
    }
    let url_ok = match provider_base_url(live, EXTERNAL_PROVIDER_ID) {
        Some(u) => str_eq(u.as_str(), EXTERNAL_URL),
        None => false,
    };
    url_ok && provider_bearer_token(live, EXTERNAL_PROVIDER_ID).is_some() && provider_requires_auth(
        live,
        EXTERNAL_PROVIDER_ID,
    ) == Some(true)
}

/// The warning of the status.
pub fn warning(recorded: Option<Mode>, mode: Mode, routing_ok: bool, auth_exists: bool) -> (r: Option<String>)
    ensures
        opt_view(r) == spec_warning(recorded, mode, routing_ok, auth_exists),
{
    match recorded {
        Some(saved) => if saved != mode && saved != Mode::Unknown && mode != Mode::Unknown {
            Some(text("状态记录与 live config 不一致；以 live config 为准，建议重新切换一次。"))
        } else if mode == Mode::External && !routing_ok {
            Some(
                text(
                    "External 模式配置不完整：Provider / endpoint / bearer token / OAuth 保留项至少有一项未闭环。",
                ),
            )
        } else if !auth_exists {
            Some(
                text(
                    "未检测到 ~/.codex/auth.json；如果你希望保留 ChatGPT Plus，请先在 Codex Desktop 完成官方登录。",
                ),
            )
        } else {
            None
        },
        None => if !auth_exists {
            Some(text("未检测到官方 auth.json；初始化前建议先确认 Codex Desktop 已登录 ChatGPT。"))
        } else {
            None
        },
    }
}

/// The status of the application, from what was read: the mode and provider of the
/// live configuration, whether it routes externally as it should, and a warning.
pub fn get_status(facts: StatusFacts) -> (r: Result<Status, String>)
    ensures
        match facts.live {
            Err(e) => r matches Err(m) && m@ == e@,
            Ok(live) => match facts.config_path {
                Err(e) => r matches Err(m) && m@ == e@,
                Ok(path) => match facts.last_backup {
                    Err(e) => r matches Err(m) && m@ == e@,
                    Ok(last) => r matches Ok(st) && {
                        &&& st.initialized == facts.initialized
                        &&& st.mode == spec_detect_mode(live@)
                        &&& opt_view(st.live_provider) == spec_model_provider(live@)
                        &&& st.auth_exists == facts.auth_exists
                        &&& st.key_saved == facts.key_saved
                        &&& st.routing_ok == spec_routing_ok(live@)
                        &&& st.config_path@ == path@
                        &&& opt_view(st.last_backup) == opt_view(last)
                        &&& opt_view(st.warning) == spec_warning(
                            facts.recorded_mode,
                            spec_detect_mode(live@),
                            spec_routing_ok(live@),
                            facts.auth_exists,
                        )
                    },
                },
            },
        },
{
    let live = facts.live?;
    let mode = detect_mode(live.as_str());
    let provider = model_provider(live.as_str());
    let ok = routing_ok(live.as_str());
    let w = warning(facts.recorded_mode, mode, ok, facts.auth_exists);
    let config_path = facts.config_path?;
    let last_backup = facts.last_backup?;
    Ok(
        Status {
            initialized: facts.initialized,
            mode,
            live_provider: provider,
            auth_exists: facts.auth_exists,
            key_saved: facts.key_saved,
            routing_ok: ok,
            config_path,
            last_backup,
            warning: w,
        },
    )
}

} // verus!
