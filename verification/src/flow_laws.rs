//! What every switch and every key update keeps, whatever comes of their effects.
use vstd::prelude::*;
use crate::flows::{
    fails_with, init_result, or_else, spec_warning, save_next, switch_next, Effect, InitPlan, Input, SaveState,
    SwitchState,
};
use crate::profile_laws::{
    law_external_profile_routes_externally, lemma_parsed_well_formed, managed_provider_of,
};
use crate::profiles::{external_document_of, external_result, provider_entries, strip_result};
use crate::routing::{opt_view, spec_find_external_bearer_token, Mode};
use crate::toml_doc::{doc_entries, parses_to, toml_edit_error, toml_edit_render};

verus! {

/// The texts that a switch holds as the next live configuration are TOML documents.
pub open spec fn switch_inv(s: SwitchState) -> bool {
    match s {
        SwitchState::AwaitBackup { final_text, .. } => toml_edit_error(final_text@) is None,
        SwitchState::AwaitLiveWrite { final_text, .. } => toml_edit_error(final_text@) is None,
        _ => true,
    }
}

/// A switch starts in a state that keeps the invariant, and every step keeps it.
pub proof fn law_switch_invariant(s: SwitchState, i: Input, n: SwitchState, e: Effect)
    requires
        switch_inv(s),
        switch_next(s, i, n, e),
    ensures
        switch_inv(n),
        switch_inv(SwitchState::AwaitLive { target: Mode::Plus }),
        switch_inv(SwitchState::AwaitLive { target: Mode::External }),
{
}

/// A switch replaces the live configuration only right after the backup was written,
/// and only with a text that parses as TOML.
pub proof fn law_switch_writes_live_only_checked_text(s: SwitchState, i: Input, n: SwitchState, e: Effect)
    requires
        switch_inv(s),
        switch_next(s, i, n, e),
        e is WriteLive,
    ensures
        s is AwaitBackup,
        i matches Input::Saved(Ok(_)),
        e matches Effect::WriteLive { text } && toml_edit_error(text@) is None,
{
}

/// A failed replacement of the live configuration is undone: the backup is read, its
/// text is put back, and the switch ends with the rollback error.
pub proof fn law_switch_rolls_back_failed_write(
    s0: SwitchState,
    err: String,
    s1: SwitchState,
    e1: Effect,
    orig: String,
    s2: SwitchState,
    e2: Effect,
    w: Result<(), String>,
    s3: SwitchState,
    e3: Effect,
)
    requires
        s0 is AwaitLiveWrite,
        switch_next(s0, Input::Written(Err(err)), s1, e1),
        switch_next(s1, Input::Text(Ok(orig)), s2, e2),
        switch_next(s2, Input::Written(w), s3, e3),
    ensures
        e1 matches Effect::ReadBackup { path } && path@ == s0->AwaitLiveWrite_backup@,
        e2 matches Effect::RestoreLive { text } && text@ == orig@,
        fails_with(s3, e3, "切换写入失败，已回滚："@ + err@),
{
}

/// The External profile that a switch writes is a profile without the bearer token.
pub proof fn law_switch_external_profile_is_secret_free(s: SwitchState, i: Input, n: SwitchState, e: Effect)
    requires
        switch_next(s, i, n, e),
        e matches Effect::WriteProfile { mode, .. } && mode == Mode::External,
    ensures
        exists|x: Seq<char>| #[trigger] strip_result(x, Ok(e->WriteProfile_text@)),
{
    match s {
        SwitchState::AwaitLive { target } => {
            match i {
                Input::Live(l) => {
                    let x = choose|x: Seq<char>|
                        #![trigger external_result(crate::flows::live_result(l)->Ok_0, None, Ok(x))]
                        external_result(crate::flows::live_result(l)->Ok_0, None, Ok(x)) && strip_result(
                            x,
                            Ok(e->WriteProfile_text@),
                        );
                    assert(strip_result(x, Ok(e->WriteProfile_text@)));
                },
                _ => {},
            }
        },
        SwitchState::AwaitLiveWrite { target, final_text, .. } => {
            assert(strip_result(final_text@, Ok(e->WriteProfile_text@)));
        },
        _ => {},
    }
}

/// Updating the key writes the live configuration only with the External profile of
/// the live configuration that carries the new key.
pub proof fn law_save_writes_key_into_live(s: SaveState, i: Input, n: SaveState, e: Effect)
    requires
        save_next(s, i, n, e),
        e is WriteLive,
    ensures
        s matches SaveState::AwaitBackup { key, live } && external_result(
            live@,
            Some(key@),
            Ok(e->WriteLive_text@),
        ),
{
}

/// A failed update of the live configuration with the new key is undone from the
/// backup and reported.
pub proof fn law_save_rolls_back_failed_update(
    s0: SaveState,
    i0: Input,
    s1: SaveState,
    e1: Effect,
    orig: String,
    s2: SaveState,
    e2: Effect,
    w: Result<(), String>,
    s3: SaveState,
    e3: Effect,
)
    requires
        save_next(s0, i0, s1, e1),
        s1 is AwaitRollbackRead,
        save_next(s1, Input::Text(Ok(orig)), s2, e2),
        save_next(s2, Input::Written(w), s3, e3),
    ensures
        e1 is ReadBackup,
        e2 matches Effect::RestoreLive { text } && text@ == orig@,
        s3 is Finished,
        e3 matches Effect::Finish { result: Err(m) } && m@ == "更新 External live config 失败，已回滚："@
            + s1->AwaitRollbackRead_error@,
{
}


/// On a first run the key to move into the Keychain comes from the External profile
/// made of the external seed (the first old External profile, else the live
/// configuration), whose managed provider holds exactly the seed's own token; only where
/// that profile yields no token is the live configuration consulted.
pub proof fn law_first_run_key(
    live: Seq<char>,
    old_plus: Option<Seq<char>>,
    old_external: Option<Seq<char>>,
    plan: InitPlan,
)
    requires
        init_result(live, old_plus, old_external, Ok(plan)),
    ensures
        exists|d: toml_edit::DocumentMut, d2: toml_edit::DocumentMut|
            #![trigger parses_to(or_else(old_external, live), d), toml_edit_render(d2)]
            {
                let seed = or_else(old_external, live);
                let ext = toml_edit_render(d2);
                &&& parses_to(seed, d)
                &&& external_document_of(d, d2, spec_find_external_bearer_token(seed))
                &&& managed_provider_of(doc_entries(d2)) matches Some(p) && crate::toml_doc::table_entries(
                    p,
                ) == provider_entries(spec_find_external_bearer_token(seed))
                &&& spec_find_external_bearer_token(ext) is Some ==> opt_view(plan.migrate_key)
                    == spec_find_external_bearer_token(ext)
                &&& spec_find_external_bearer_token(ext) is None ==> opt_view(plan.migrate_key)
                    == spec_find_external_bearer_token(live)
            },
{
    let seed = or_else(old_external, live);
    let key = spec_find_external_bearer_token(seed);
    let ext = choose|ext: Seq<char>|
        #![trigger external_result(seed, key, Ok(ext))]
        {
            &&& external_result(seed, key, Ok(ext))
            &&& crate::profiles::strip_result(ext, crate::profiles::text_result(plan.external_text))
            &&& opt_view(plan.migrate_key) == match spec_find_external_bearer_token(ext) {
                Some(k) => Some(k),
                None => spec_find_external_bearer_token(live),
            }
        };
    let (d, d2) = choose|d: toml_edit::DocumentMut, d2: toml_edit::DocumentMut|
        #![trigger external_document_of(d, d2, key)]
        parses_to(seed, d) && external_document_of(d, d2, key) && ext == toml_edit_render(d2);
    lemma_parsed_well_formed(seed, d);
    law_external_profile_routes_externally(doc_entries(d), doc_entries(d2), key, seq![], seq![]);
    assert(parses_to(seed, d) && toml_edit_render(d2) == ext);
}


/// The warning of the status: a recorded mode that contradicts the live configuration
/// (both known) comes first; then, with a recorded mode, an External configuration
/// that does not route as it should; then a missing official login.  With no recorded
/// mode only the missing login is reported; otherwise there is no warning.
pub proof fn law_status_warning(recorded: Option<Mode>, mode: Mode, routing_ok: bool, auth_exists: bool)
    ensures
        recorded matches Some(saved) && saved != mode && saved != Mode::Unknown && mode
            != Mode::Unknown ==> spec_warning(recorded, mode, routing_ok, auth_exists) == Some(
            "状态记录与 live config 不一致；以 live config 为准，建议重新切换一次。"@,
        ),
        recorded matches Some(saved) && !(saved != mode && saved != Mode::Unknown && mode
            != Mode::Unknown) && mode == Mode::External && !routing_ok ==> spec_warning(
            recorded,
            mode,
            routing_ok,
            auth_exists,
        ) == Some(
            "External 模式配置不完整：Provider / endpoint / bearer token / OAuth 保留项至少有一项未闭环。"@,
        ),
        recorded matches Some(saved) && !(saved != mode && saved != Mode::Unknown && mode
            != Mode::Unknown) && !(mode == Mode::External && !routing_ok) && !auth_exists
            ==> spec_warning(recorded, mode, routing_ok, auth_exists) == Some(
            "未检测到 ~/.codex/auth.json；如果你希望保留 ChatGPT Plus，请先在 Codex Desktop 完成官方登录。"@,
        ),
        recorded is None && !auth_exists ==> spec_warning(recorded, mode, routing_ok, auth_exists)
            == Some("未检测到官方 auth.json；初始化前建议先确认 Codex Desktop 已登录 ChatGPT。"@),
        spec_warning(recorded, mode, routing_ok, auth_exists) is None <==> auth_exists && match recorded {
            Some(saved) => !(saved != mode && saved != Mode::Unknown && mode != Mode::Unknown) && !(
            mode == Mode::External && !routing_ok),
            None => true,
        },
{
}

} // verus!
