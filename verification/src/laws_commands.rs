//! What each command does.

use crate::app::AppV;
use crate::auth;
use crate::bus::{AuthStatus, Cmd, CommandConfigAction, PermissionAskReply};
use crate::commands;
use crate::effect::{Effect, EffectV, Locale, TranscriptOp};
use crate::laws_asks::answers;
use crate::laws_sessions::{sends, writes};
use crate::picker::PickerKind;
use crate::presets;
use crate::seqs;
use crate::session::{self, RunState, SlotV};
use crate::slash::skill_named;
use crate::tabs;
use crate::text;
use crate::theme;
use vstd::prelude::*;

verus! {

/// The commands have different names.
proof fn lemma_command_words()
    ensures
        "help"@.len() == 4 && "help"@[0] == 'h',
        "keys"@.len() == 4 && "keys"@[0] == 'k',
        "lang"@.len() == 4 && "lang"@[0] == 'l',
        "clear"@.len() == 5 && "clear"@[0] == 'c' && "clear"@[2] == 'e',
        "quit"@.len() == 4 && "quit"@[0] == 'q',
        "liang"@.len() == 5 && "liang"@[0] == 'l' && "liang"@[2] == 'a',
        "theme"@.len() == 5 && "theme"@[0] == 't' && "theme"@[2] == 'e',
        "vim"@.len() == 3 && "vim"@[0] == 'v',
        "ui"@.len() == 2,
        "plugins"@.len() == 7 && "plugins"@[0] == 'p',
        "cordis-plugins"@.len() == 14,
        "model"@.len() == 5 && "model"@[0] == 'm' && "model"@[2] == 'd',
        "agent"@.len() == 5 && "agent"@[0] == 'a' && "agent"@[2] == 'e',
        "new"@.len() == 3 && "new"@[0] == 'n',
        "close"@.len() == 5 && "close"@[0] == 'c' && "close"@[2] == 'o',
        "session"@.len() == 7 && "session"@[0] == 's',
        "status"@.len() == 6 && "status"@[0] == 's',
        "auth"@.len() == 4 && "auth"@[0] == 'a',
        "resume"@.len() == 6 && "resume"@[0] == 'r',
        "effort"@.len() == 6 && "effort"@[0] == 'e',
        "permission"@.len() == 10,
        "plan"@.len() == 4 && "plan"@[0] == 'p',
        "image"@.len() == 5 && "image"@[0] == 'i' && "image"@[2] == 'a',
        "clip"@.len() == 4 && "clip"@[0] == 'c',
{
    reveal_strlit("help");
    reveal_strlit("keys");
    reveal_strlit("lang");
    reveal_strlit("clear");
    reveal_strlit("quit");
    reveal_strlit("liang");
    reveal_strlit("theme");
    reveal_strlit("vim");
    reveal_strlit("ui");
    reveal_strlit("plugins");
    reveal_strlit("cordis-plugins");
    reveal_strlit("model");
    reveal_strlit("agent");
    reveal_strlit("new");
    reveal_strlit("close");
    reveal_strlit("session");
    reveal_strlit("status");
    reveal_strlit("auth");
    reveal_strlit("resume");
    reveal_strlit("effort");
    reveal_strlit("permission");
    reveal_strlit("plan");
    reveal_strlit("image");
    reveal_strlit("clip");
}

/// Nothing is left but a remark: no session, list, choice or setting is
/// touched.
pub open spec fn only_remarked(a: AppV, b: AppV) -> bool {
    &&& b.live == a.live
    &&& b.conn == a.conn
    &&& b.tabs == a.tabs
    &&& b.state == a.state
    &&& b.menu == a.menu
    &&& b.theme == a.theme
    &&& b.plugins == a.plugins
    &&& b.resume == a.resume
    &&& b.base == a.base
    &&& b.cfg == a.cfg
    &&& b.counts == a.counts
    &&& b.status.quit == a.status.quit
}

// --- closing a tab -----------------------------------------------------------------------

/// A session is forgotten.
pub open spec fn forgets(e: EffectV) -> bool {
    e matches Effect::Send(c) && c is ForgetSession
}

/// No tab shows the session.
pub open spec fn without_tab(a: AppV, id: Seq<char>) -> bool {
    &&& a.live.id != id
    &&& forall|k: int| 0 <= k < a.tabs.parked.len() ==> (#[trigger] a.tabs.parked[k]).id != id
}

/// Of what is asked for beyond `before`, one thing forgets a session, and it
/// is this session.
pub open spec fn forgets_one(before: Seq<EffectV>, after: Seq<EffectV>, id: Seq<char>) -> bool {
    &&& before.len() <= after.len()
    &&& after.take(before.len() as int) == before
    &&& exists|j: int|
        before.len() <= j < after.len() && #[trigger] after[j] == sends(
            Cmd::ForgetSession { session_id: id },
        ) && forall|k: int|
            before.len() <= k < after.len() && k != j ==> !forgets(#[trigger] after[k])
}

/// Something is told to a plugin.
pub open spec fn tells_plugin(e: EffectV) -> bool {
    e matches Effect::Send(c) && c is PluginOverlayEvent
}

/// The popups of plugins close. Their plugins are told, and nobody else.
proof fn lemma_overlays_close(a: AppV)
    ensures
        ({
            let c = a.without_plugin_overlays();
            &&& c.out.len() >= a.out.len()
            &&& c.out.take(a.out.len() as int) == a.out
            &&& forall|k: int| a.out.len() <= k < c.out.len() ==> tells_plugin(#[trigger] c.out[k])
            &&& c.live.id == a.live.id
            &&& c.live.asks == a.live.asks
            &&& c.tabs == a.tabs
        }),
{
    reveal(AppV::without_plugin_overlays);
    reveal(AppV::without_plugin_view);
    reveal(AppV::without_slider);
    reveal(AppV::without_select);
    assert(a.without_plugin_overlays().out.take(a.out.len() as int) =~= a.out);
}

/// What closing a tab asks for, in order.
proof fn lemma_closing_out(a: AppV)
    requires
        a.tabs.parked.len() > 0,
    ensures
        a.close_tab().out == (a.without_plugin_overlays().out + tabs::cancelled(a.live.asks)).push(
            sends(Cmd::ForgetSession { session_id: a.live.id }),
        ).push(Effect::ResetVim),
{
    lemma_overlays_close(a);
    reveal(AppV::close_tab);
    reveal(AppV::at_neighbour);
    reveal(AppV::dropping);
    reveal(AppV::giving_up);
    reveal(AppV::switched);
}

/// Closing the viewed tab forgets the session in it and no other. Where every
/// tab has its own session, no session that still has a tab is forgotten.
pub proof fn law_closing_forgets_the_viewed_session(a: AppV, arg: Seq<char>)
    requires
        a.tabs.parked.len() > 0,
    ensures
        forgets_one(a.out, a.run("close"@, arg).out, a.live.id),
        (forall|k: int|
            0 <= k < a.tabs.parked.len() ==> (#[trigger] a.tabs.parked[k]).id != a.live.id)
            ==> without_tab(a.run("close"@, arg), a.live.id),
{
    lemma_command_words();
    reveal(AppV::run);
    lemma_overlays_close(a);
    lemma_closing_out(a);
    let b = a.run("close"@, arg);
    let j = b.out.len() - 2;
    assert(b.out[j] == sends(Cmd::ForgetSession { session_id: a.live.id }));
    let c = a.without_plugin_overlays();
    assert forall|k: int| a.out.len() <= k < b.out.len() && k != j implies !forgets(
        #[trigger] b.out[k],
    ) by {
        if k < c.out.len() {
            assert(b.out[k] == c.out[k] && tells_plugin(c.out[k]));
        }
    }
    assert(c.out.take(a.out.len() as int) == a.out);
    assert(b.out.take(a.out.len() as int) =~= c.out.take(a.out.len() as int));
    if forall|k: int|
        0 <= k < a.tabs.parked.len() ==> (#[trigger] a.tabs.parked[k]).id != a.live.id {
        reveal(AppV::close_tab);
        reveal(AppV::at_neighbour);
        reveal(AppV::dropping);
        reveal(AppV::giving_up);
        reveal(AppV::switched);
    }
}

/// The last tab stays, and no session is forgotten.
pub proof fn law_last_tab_is_not_closed(a: AppV, arg: Seq<char>)
    requires
        a.tabs.parked.len() == 0,
    ensures
        only_remarked(a, a.run("close"@, arg)),
        a.run("close"@, arg).out == a.out,
{
    lemma_command_words();
    reveal(AppV::run);
    reveal(AppV::close_tab);
}

/// The tab to the right comes into view, the tab to the left where none stands
/// to the right, with its conversation, queue, draft and requests; the others
/// stay as they are.
pub proof fn law_closing_shows_a_neighbour(a: AppV, arg: Seq<char>)
    requires
        0 < a.tabs.parked.len(),
        a.tabs.current <= a.tabs.parked.len(),
    ensures
        ({
            let b = a.run("close"@, arg);
            let at = if a.tabs.current < a.tabs.parked.len() {
                a.tabs.current as int
            } else {
                a.tabs.parked.len() - 1
            };
            let s = a.tabs.parked[at];
            &&& b.live.id == s.id
            &&& b.live.title == s.title
            &&& b.live.chat == s.chat
            &&& b.live.queue == s.queue
            &&& b.live.draft == s.draft
            &&& b.live.asks == s.asks
            &&& b.live.models == s.models
            &&& b.live.modes == s.modes
            &&& b.live.agents == s.agents
            &&& b.live.catalog == s.catalog
            &&& b.live.bound == s.bound
            &&& b.tabs.parked == a.tabs.parked.remove(at)
            &&& b.tabs.current == at
            &&& b.menu.picker is None
            &&& (s.connection is Some ==> b.conn == s.connection->0)
            &&& (b.state == RunState::Running <==> s.run.running || s.run.pending)
            &&& (b.state == RunState::Idle <==> !s.run.running && !s.run.pending)
        }),
{
    lemma_command_words();
    reveal(AppV::run);
    reveal(AppV::close_tab);
    reveal(AppV::without_plugin_overlays);
    reveal(AppV::without_plugin_view);
    reveal(AppV::without_slider);
    reveal(AppV::without_select);
    reveal(AppV::at_neighbour);
    reveal(AppV::dropping);
    reveal(AppV::giving_up);
    reveal(AppV::switched);
}

/// Closing a tab answers what waits in it: its permission request is cancelled
/// and its form is closed without an answer.
pub proof fn law_closing_answers_what_waits(a: AppV, arg: Seq<char>)
    requires
        0 < a.tabs.parked.len(),
    ensures
        ({
            let b = a.run("close"@, arg);
            &&& a.live.asks.permission matches Some(p) ==> b.out.contains(
                answers(p.reply, PermissionAskReply::Cancelled),
            )
            &&& a.live.asks.form matches Some(f) ==> b.out.contains(closes_form(f.reply))
        }),
{
    lemma_command_words();
    reveal(AppV::run);
    lemma_overlays_close(a);
    lemma_closing_out(a);
    let b = a.run("close"@, arg);
    let n = b.out.len() as int;
    if a.live.asks.form is Some {
        assert(b.out[n - 3] == closes_form(a.live.asks.form->0.reply));
        if a.live.asks.permission is Some {
            assert(b.out[n - 4] == answers(
                a.live.asks.permission->0.reply,
                PermissionAskReply::Cancelled,
            ));
        }
    } else if a.live.asks.permission is Some {
        assert(b.out[n - 3] == answers(
            a.live.asks.permission->0.reply,
            PermissionAskReply::Cancelled,
        ));
    }
}

/// A form is closed without an answer.
pub open spec fn closes_form(reply: u64) -> EffectV {
    Effect::CancelForm { reply }
}

// --- presets, models and efforts -----------------------------------------------------------

/// The spellings of the stock permission presets.
pub open spec fn spells(arg: Seq<char>, preset: Seq<char>) -> bool {
    let t = text::ascii_lower(text::trimmed(arg));
    ||| preset == "read-only"@ && (t == "read-only"@ || t == "readonly"@ || t == "read"@ || t
        == "ro"@)
    ||| preset == "workspace-write"@ && (t == "workspace-write"@ || t == "workspace"@ || t
        == "write"@ || t == "ws"@ || t == "safe"@ || t == "sandbox"@)
    ||| preset == "danger-full-access"@ && (t == "danger-full-access"@ || t == "full-access"@ || t
        == "full"@ || t == "danger"@ || t == "yolo"@)
}

/// The spellings of the permission presets differ.
proof fn lemma_permission_words()
    ensures
        "read-only"@.len() == 9 && "read-only"@[0] == 'r',
        "readonly"@.len() == 8,
        "read"@.len() == 4 && "read"@[0] == 'r',
        "ro"@.len() == 2 && "ro"@[0] == 'r',
        "workspace-write"@.len() == 15,
        "workspace"@.len() == 9 && "workspace"@[0] == 'w',
        "write"@.len() == 5,
        "ws"@.len() == 2 && "ws"@[0] == 'w',
        "safe"@.len() == 4 && "safe"@[0] == 's',
        "sandbox"@.len() == 7,
        "danger-full-access"@.len() == 18,
        "full-access"@.len() == 11,
        "full"@.len() == 4 && "full"@[0] == 'f',
        "danger"@.len() == 6,
        "yolo"@.len() == 4 && "yolo"@[0] == 'y',
{
    reveal_strlit("read-only");
    reveal_strlit("readonly");
    reveal_strlit("read");
    reveal_strlit("ro");
    reveal_strlit("workspace-write");
    reveal_strlit("workspace");
    reveal_strlit("write");
    reveal_strlit("ws");
    reveal_strlit("safe");
    reveal_strlit("sandbox");
    reveal_strlit("danger-full-access");
    reveal_strlit("full-access");
    reveal_strlit("full");
    reveal_strlit("danger");
    reveal_strlit("yolo");
}

/// A permission preset is asked of the viewed session: one command goes out,
/// with the preset that was meant. Nothing goes out where it is in effect.
pub open spec fn asks_for_permission(a: AppV, b: AppV, preset: Seq<char>) -> bool {
    &&& only_remarked(a, b)
    &&& a.live.modes.permission == Some(preset) ==> b.out == a.out
    &&& a.live.modes.permission != Some(preset) ==> b.out == a.out.push(
        sends(Cmd::SetPermission { session_id: a.live.id, preset }),
    )
}

/// `/permission` with a spelling of a stock preset asks for that preset.
pub proof fn law_permission_is_asked_by_its_name(a: AppV, arg: Seq<char>, preset: Seq<char>)
    requires
        arg.len() > 0,
        spells(arg, preset),
    ensures
        asks_for_permission(a, a.run("permission"@, arg), preset),
{
    lemma_command_words();
    lemma_permission_words();
    reveal(AppV::run);
    reveal(AppV::permission_command);
    reveal(AppV::ask_permission);
}

/// `/permission` with anything else asks for a preset of that name.
pub proof fn law_permission_is_asked_as_it_is_spelt(a: AppV, arg: Seq<char>)
    requires
        arg.len() > 0,
        forall|preset: Seq<char>| !spells(arg, preset),
    ensures
        asks_for_permission(a, a.run("permission"@, arg), arg),
{
    lemma_command_words();
    reveal(AppV::run);
    reveal(AppV::permission_command);
    reveal(AppV::ask_permission);
    assert(!spells(arg, "read-only"@));
    assert(!spells(arg, "workspace-write"@));
    assert(!spells(arg, "danger-full-access"@));
}

/// `/permission` alone lists the presets to choose from, those of the agent
/// where it has any, the stock ones otherwise, and sends nothing.
pub proof fn law_permissions_are_listed(a: AppV)
    ensures
        ({
            let b = a.run("permission"@, Seq::empty());
            let mine = a.live.catalog.permissions;
            &&& b.out == a.out
            &&& b.live == a.live
            &&& b.tabs == a.tabs
            &&& b.menu.picker is Some
            &&& b.menu.picker->0.kind == PickerKind::Permission
            &&& (mine.len() > 0 ==> b.menu.picker->0.items.len() == mine.len() && forall|i: int|
                0 <= i < mine.len() ==> (#[trigger] b.menu.picker->0.items[i]).id == mine[i].id)
            &&& (mine.len() == 0 ==> b.menu.picker->0.items.len() == 3
                && b.menu.picker->0.items[0].id == "read-only"@ && b.menu.picker->0.items[1].id
                == "workspace-write"@ && b.menu.picker->0.items[2].id == "danger-full-access"@)
        }),
{
    lemma_command_words();
    reveal(AppV::run);
    reveal(AppV::permission_command);
    reveal(AppV::open_permissions);
}

/// `/agent` with a name asks the viewed session for that preset, and for its
/// skills. Nothing goes out where the preset is in effect.
pub proof fn law_agent_preset_is_asked(a: AppV, preset: Seq<char>)
    requires
        preset.len() > 0,
    ensures
        ({
            let b = a.run("agent"@, preset);
            &&& only_remarked(a, b)
            &&& a.live.modes.agent_preset == Some(preset) ==> b.out == a.out
            &&& a.live.modes.agent_preset != Some(preset) ==> b.out == a.out.push(
                sends(Cmd::SetPreset { session_id: a.live.id, preset }),
            ).push(sends(Cmd::FetchSkills { session_id: a.live.id }))
        }),
{
    lemma_command_words();
    reveal(AppV::run);
    reveal(AppV::ask_mode);
}

/// `/agent` alone asks for the catalog of the viewed session and lists the
/// presets that are known of it.
pub proof fn law_agent_presets_are_listed(a: AppV)
    requires
        !a.base.demo,
    ensures
        ({
            let b = a.run("agent"@, Seq::empty());
            let mine = a.live.catalog.presets;
            &&& b.out == a.out.push(sends(Cmd::FetchCatalog { session_id: a.live.id }))
            &&& b.live == a.live
            &&& b.menu.picker is Some
            &&& b.menu.picker->0.kind == PickerKind::Mode
            &&& b.menu.picker->0.items.len() == mine.len()
            &&& forall|i: int|
                0 <= i < mine.len() ==> (#[trigger] b.menu.picker->0.items[i]).id == mine[i].id
        }),
{
    lemma_command_words();
    reveal(AppV::run);
    reveal(AppV::open_agents_list);
}

/// `/model` with a name other than the configured one selects that model for
/// the viewed session, and it counts as the model picked. The provider and the
/// effort are left to the agent. Nothing happens where it is configured.
pub proof fn law_model_is_asked(a: AppV, model: Seq<char>)
    requires
        model.len() > 0,
    ensures
        ({
            let b = a.run("model"@, model);
            &&& model == a.cfg.model ==> b == a
            &&& model != a.cfg.model ==> {
                &&& b.out == a.out.push(
                    sends(
                        Cmd::SelectModel {
                            session_id: a.live.id,
                            provider: None,
                            model: Some(model),
                            effort: None,
                        },
                    ),
                )
                &&& b.cfg.model == model
                &&& b.cfg.provider == a.cfg.provider
                &&& b.live.models.selected == Some(model)
                &&& b.live.models.last == a.live.models.last
                &&& b.live.models.session == a.live.models.session
                &&& b.live.id == a.live.id
                &&& b.live.modes == a.live.modes
                &&& b.tabs == a.tabs
            }
        }),
{
    lemma_command_words();
    reveal(AppV::run);
    reveal(AppV::ask_model);
}

/// `/model` alone asks for the catalog of the viewed session and lists models,
/// the one in effect among them.
pub proof fn law_models_to_choose_from(a: AppV)
    ensures
        ({
            let b = a.run("model"@, Seq::empty());
            let now = if a.live.models.selected is Some {
                a.live.models.selected->0
            } else if a.live.models.last is Some {
                a.live.models.last->0
            } else {
                a.cfg.model
            };
            &&& b.out == a.out.push(sends(Cmd::FetchCatalog { session_id: a.live.id }))
            &&& b.live == a.live
            &&& b.cfg == a.cfg
            &&& b.menu.picker is Some
            &&& b.menu.picker->0.kind == PickerKind::Model
            &&& exists|i: int|
                0 <= i < b.menu.picker->0.items.len() && (#[trigger] b.menu.picker->0.items[i]).id
                    == now
            &&& forall|i: int|
                0 <= i < a.menu.host_models.len() ==> exists|j: int|
                    0 <= j < b.menu.picker->0.items.len() && (
                    #[trigger] b.menu.picker->0.items[j]).id == #[trigger] a.menu.host_models[i]
        }),
{
    lemma_command_words();
    reveal(AppV::run);
    reveal(AppV::open_models);
    let b = a.run("model"@, Seq::empty());
    let ids = a.known_models();
    let rows = b.menu.picker->0.items;
    let now = a.model_now();
    assert(ids.contains(now)) by {
        let host = if a.menu.host_models.len() > 0 {
            a.menu.host_models
        } else {
            presets::model_table()
        };
        if !host.contains(now) {
            assert((seq![now] + host)[0] == now);
        }
    }
    let i = choose|i: int| 0 <= i < ids.len() && ids[i] == now;
    assert(rows[i].id == now);
    assert forall|i: int| 0 <= i < a.menu.host_models.len() implies exists|j: int|
        0 <= j < rows.len() && (#[trigger] rows[j]).id == #[trigger] a.menu.host_models[i] by {
        let host = a.menu.host_models;
        if host.contains(now) {
            assert(rows[i].id == host[i]);
        } else {
            assert((seq![now] + host)[i + 1] == host[i]);
            assert(rows[i + 1].id == host[i]);
        }
    }
}

/// `/effort` with a name selects that effort for the viewed session and leaves
/// its model alone; without one it asks what efforts the configured model has.
pub proof fn law_effort_is_asked(a: AppV, effort: Seq<char>)
    ensures
        ({
            let b = a.run("effort"@, effort);
            &&& effort.len() == 0 ==> b == (AppV {
                out: a.out.push(
                    sends(
                        Cmd::FetchEfforts {
                            session_id: a.live.id,
                            provider: a.cfg.provider,
                            model: a.cfg.model,
                        },
                    ),
                ),
                ..a
            })
            &&& effort.len() > 0 ==> {
                &&& b.out == a.out.push(
                    sends(
                        Cmd::SelectModel {
                            session_id: a.live.id,
                            provider: None,
                            model: None,
                            effort: Some(effort),
                        },
                    ),
                )
                &&& b.live.modes.effort == Some(effort)
                &&& b.live.modes.permission == a.live.modes.permission
                &&& b.live.modes.agent_preset == a.live.modes.agent_preset
                &&& b.live.modes.plan == a.live.modes.plan
                &&& b.live.models == a.live.models
                &&& b.live.id == a.live.id
                &&& b.cfg == a.cfg
                &&& b.tabs == a.tabs
            }
        }),
{
    lemma_command_words();
    reveal(AppV::run);
    reveal(AppV::effort_command);
}

/// Where the agent offers `plan` as a switch, `/plan` sets it: on with `on` or
/// out of plan mode, off with `off` or in plan mode. It is never sent as text.
pub proof fn law_plan_is_switched(
    a: AppV,
    i: int,
    arg: Seq<char>,
    action: CommandConfigAction<Seq<char>>,
    reset: Seq<char>,
)
    requires
        0 <= i < a.live.catalog.skills.len(),
        a.live.catalog.skills[i].name == "plan"@,
        forall|k: int| 0 <= k < i ==> (#[trigger] a.live.catalog.skills[k]).name != "plan"@,
        a.live.catalog.skills[i].config_action == Some(action),
        action.reset_value == Some(reset),
        arg.len() == 0 || arg == "on"@ || arg == "off"@,
    ensures
        a.run("plan"@, arg) == (AppV {
            out: a.out.push(
                sends(
                    Cmd::SetConfigOption {
                        session_id: a.live.id,
                        config_id: action.config_id,
                        value: if arg == "on"@ || (arg.len() == 0 && !a.live.modes.plan) {
                            action.value
                        } else {
                            reset
                        },
                    },
                ),
            ),
            ..a
        }),
{
    lemma_command_words();
    reveal_strlit("on");
    reveal_strlit("off");
    reveal(AppV::run);
    reveal(AppV::plan_command);
    seqs::lemma_first_index_is(a.live.catalog.skills, skill_named("plan"@), i);
}

// --- images ------------------------------------------------------------------------------

/// `/clip` reads the clipboard, with what stands behind it for a caption.
pub proof fn law_clipboard_is_read(a: AppV, caption: Seq<char>)
    ensures
        a.run("clip"@, caption) == (AppV {
            out: a.out.push(reads_clipboard(caption)),
            ..a
        }),
{
    lemma_command_words();
    reveal(AppV::run);
}

pub open spec fn reads_clipboard(caption: Seq<char>) -> EffectV {
    Effect::ReadClipboard { caption }
}

pub open spec fn reads_image(path: Seq<char>, media_type: Seq<char>, caption: Seq<char>) -> EffectV {
    Effect::ReadImage { path, media_type, caption }
}

/// `/image` reads the file that is named first, and the rest is its caption.
/// What is no image is not read.
pub proof fn law_image_is_read(a: AppV, path: Seq<char>, caption: Seq<char>)
    requires
        path.len() > 0,
        forall|k: int| 0 <= k < path.len() ==> !text::white_space(#[trigger] path[k]),
    ensures
        ({
            let b = a.run("image"@, path + seq![' '] + caption);
            &&& presets::media_type_of(path) matches Some(t) ==> b == (AppV {
                out: a.out.push(reads_image(path, t, text::trimmed(caption))),
                ..a
            })
            &&& presets::media_type_of(path) is None ==> b.out == a.out && only_remarked(a, b)
        }),
        ({
            let b = a.run("image"@, path);
            &&& presets::media_type_of(path) matches Some(t) ==> b == (AppV {
                out: a.out.push(reads_image(path, t, Seq::empty())),
                ..a
            })
            &&& presets::media_type_of(path) is None ==> b.out == a.out && only_remarked(a, b)
        }),
{
    lemma_command_words();
    reveal(AppV::run);
    reveal(AppV::image_command);
    let white = |c: char| text::white_space(c);
    let line = path + seq![' '] + caption;
    assert forall|k: int| 0 <= k < path.len() implies !white(#[trigger] line[k]) by {
        assert(line[k] == path[k]);
    }
    assert(white(line[path.len() as int]));
    seqs::lemma_first_index_is(line, white, path.len() as int);
    seqs::lemma_first_index_is(path, white, path.len() as int);
    assert(line.take(path.len() as int) =~= path);
    assert(line.skip(path.len() as int + 1) =~= caption);
}

/// What an image is, by the end of its name, in lower or upper case.
pub proof fn law_images_by_their_name(stem: Seq<char>, ext: Seq<char>)
    requires
        forall|k: int| 0 <= k < ext.len() ==> #[trigger] ext[k] != '.',
    ensures
        ({
            let t = presets::media_type_of(stem + seq!['.'] + ext);
            let e = text::ascii_lower(ext);
            &&& e == "png"@ ==> t == Some("image/png"@)
            &&& e == "jpg"@ || e == "jpeg"@ ==> t == Some("image/jpeg"@)
            &&& e == "webp"@ ==> t == Some("image/webp"@)
            &&& e == "gif"@ ==> t == Some("image/gif"@)
            &&& e != "png"@ && e != "jpg"@ && e != "jpeg"@ && e != "webp"@ && e != "gif"@ ==> t
                is None
        }),
{
    let s = stem + seq!['.'] + ext;
    lemma_extension_words();
    lemma_last_part(stem, ext);
}

proof fn lemma_extension_words()
    ensures
        "png"@.len() == 3 && "png"@[0] == 'p',
        "jpg"@.len() == 3 && "jpg"@[0] == 'j',
        "jpeg"@.len() == 4 && "jpeg"@[0] == 'j',
        "webp"@.len() == 4 && "webp"@[0] == 'w',
        "gif"@.len() == 3 && "gif"@[0] == 'g',
{
    reveal_strlit("png");
    reveal_strlit("jpg");
    reveal_strlit("jpeg");
    reveal_strlit("webp");
    reveal_strlit("gif");
}

// --- the language, the editor and other settings -----------------------------------------------

/// `/lang` turns the client and every transcript to a language, and saves that.
pub proof fn law_language_is_chosen(a: AppV, arg: Seq<char>, l: Locale)
    requires
        (text::trimmed(arg) == "zh"@ && l == Locale::Zh) || (text::trimmed(arg) == "en"@ && l
            == Locale::En) || (text::trimmed(arg).len() == 0 && l != a.base.locale),
    ensures
        ({
            let b = a.run("lang"@, arg);
            &&& b.base.locale == l
            &&& b.live == a.live
            &&& b.tabs == a.tabs
            &&& b.out.last() == saves()
            &&& b.out.contains(writes(a.live.chat.transcript, TranscriptOp::Speak(l)))
            &&& forall|k: int|
                0 <= k < a.live.agents.views.len() ==> b.out.contains(
                    writes(
                        (#[trigger] a.live.agents.views[k]).transcript,
                        TranscriptOp::Speak(l),
                    ),
                )
            &&& forall|k: int|
                0 <= k < a.tabs.parked.len() ==> b.out.contains(
                    writes(
                        (#[trigger] a.tabs.parked[k]).chat.transcript,
                        TranscriptOp::Speak(l),
                    ),
                )
        }),
{
    lemma_command_words();
    reveal_strlit("zh");
    reveal_strlit("en");
    reveal(AppV::run);
    reveal(AppV::choose_locale);
    reveal(AppV::speak_in);
    let b = a.run("lang"@, arg);
    let n = a.out.len() as int;
    let there = commands::slots_speak(a.tabs.parked, l);
    let here = commands::views_speak(a.live.agents.views, l);
    assert(b == a.choose_locale(arg));
    if text::trimmed(arg).len() == 0 {
        assert(commands::other_locale(a.base.locale) == l) by {
            match a.base.locale {
                Locale::En => {},
                Locale::Zh => {},
            }
        }
    } else if text::trimmed(arg) == "zh"@ {
        assert(commands::locale_meant(arg) == Some(Locale::Zh));
    } else {
        assert("zh"@[0] != "en"@[0]);
        assert(commands::locale_meant(arg) == Some(Locale::En));
    }
    assert(b == a.speak_in(l));
    assert(b.out == (a.out + (seq![commands::speak(a.live.chat.transcript, l)] + there + here)).push(
        saves(),
    ));
    assert(b.out[n] == writes(a.live.chat.transcript, TranscriptOp::Speak(l)));
    assert forall|k: int| 0 <= k < a.live.agents.views.len() implies b.out.contains(
        writes((#[trigger] a.live.agents.views[k]).transcript, TranscriptOp::Speak(l)),
    ) by {
        assert(b.out[n + 1 + there.len() + k] == writes(
            a.live.agents.views[k].transcript,
            TranscriptOp::Speak(l),
        ));
    }
    assert forall|k: int| 0 <= k < a.tabs.parked.len() implies b.out.contains(
        writes((#[trigger] a.tabs.parked[k]).chat.transcript, TranscriptOp::Speak(l)),
    ) by {
        let at = lemma_slots_speak(a.tabs.parked, l, k);
        assert(b.out[n + 1 + at] == there[at]);
    }
}

pub open spec fn saves() -> EffectV {
    Effect::SaveSettings
}

proof fn lemma_slots_speak(v: Seq<SlotV>, l: Locale, k: int) -> (at: int)
    requires
        0 <= k < v.len(),
    ensures
        0 <= at < commands::slots_speak(v, l).len(),
        commands::slots_speak(v, l)[at] == writes(v[k].chat.transcript, TranscriptOp::Speak(l)),
    decreases v.len(),
{
    let before = commands::slots_speak(v.drop_last(), l);
    if k == v.len() - 1 {
        assert(commands::slots_speak(v, l)[before.len() as int] == writes(
            v[k].chat.transcript,
            TranscriptOp::Speak(l),
        ));
        before.len() as int
    } else {
        let at = lemma_slots_speak(v.drop_last(), l, k);
        assert(commands::slots_speak(v, l)[at] == before[at]);
        at
    }
}

/// A language that is not known changes nothing.
pub proof fn law_unknown_language_changes_nothing(a: AppV, arg: Seq<char>)
    requires
        text::trimmed(arg).len() > 0,
        text::trimmed(arg) != "zh"@,
        text::trimmed(arg) != "en"@,
    ensures
        only_remarked(a, a.run("lang"@, arg)),
        a.run("lang"@, arg).out == a.out,
{
    lemma_command_words();
    reveal(AppV::run);
    reveal(AppV::choose_locale);
}

/// `/vim` turns the modal editor on or off as it is told, and over where it is
/// not told.
pub proof fn law_editor_is_chosen(a: AppV, arg: Seq<char>)
    ensures
        ({
            let b = a.run("vim"@, arg);
            let on = if arg == "on"@ || arg == "1"@ {
                true
            } else if arg == "off"@ || arg == "0"@ {
                false
            } else {
                !a.base.vim
            };
            &&& b.base.vim == on
            &&& b.out == a.out.push(sets_vim(on))
            &&& b.live == a.live
            &&& b.tabs == a.tabs
            &&& b.base.locale == a.base.locale
        }),
{
    lemma_command_words();
    reveal(AppV::run);
    reveal(AppV::choose_editor);
}

pub open spec fn sets_vim(on: bool) -> EffectV {
    Effect::SetVim(on)
}

/// `/liang` shows or hides the pet as it is told, and over where it is not
/// told. Nothing goes out.
pub proof fn law_pet_is_called(a: AppV, arg: Seq<char>)
    ensures
        ({
            let b = a.run("liang"@, arg);
            &&& arg == "on"@ || arg == "show"@ ==> b.base.pet_visible
            &&& arg == "off"@ || arg == "hide"@ ==> !b.base.pet_visible
            &&& arg.len() == 0 ==> b.base.pet_visible == !a.base.pet_visible
            &&& b.out == a.out
            &&& b.live == a.live
            &&& b.tabs == a.tabs
        }),
{
    lemma_command_words();
    lemma_switch_words();
    reveal(AppV::run);
    reveal(AppV::call_pet);
}

proof fn lemma_switch_words()
    ensures
        "on"@.len() == 2,
        "off"@.len() == 3,
        "show"@.len() == 4 && "show"@[0] == 's',
        "hide"@.len() == 4 && "hide"@[0] == 'h',
{
    reveal_strlit("on");
    reveal_strlit("off");
    reveal_strlit("show");
    reveal_strlit("hide");
}

/// `/ui` with the name of a plugin chooses it, alone it lists them; a name that
/// is not known chooses nothing.
pub proof fn law_ui_is_chosen(a: AppV, arg: Seq<char>)
    ensures
        ({
            let b = a.run("ui"@, arg);
            let known = exists|k: int|
                0 <= k < a.plugins.ui.len() && (#[trigger] a.plugins.ui[k]).id == arg;
            &&& arg.len() > 0 && known ==> b == (AppV {
                out: a.out.push(sends(Cmd::PluginUiSelected { agent_id: a.live.id, id: arg })),
                ..a
            })
            &&& arg.len() > 0 && !known ==> b.out == a.out && only_remarked(a, b)
            &&& arg.len() == 0 ==> {
                &&& b.out == a.out
                &&& b.live == a.live
                &&& b.menu.picker is Some
                &&& b.menu.picker->0.kind == PickerKind::UiPlugin
                &&& b.menu.picker->0.items.len() == a.plugins.ui.len()
                &&& forall|k: int|
                    0 <= k < a.plugins.ui.len() ==> (#[trigger] b.menu.picker->0.items[k]).id
                        == a.plugins.ui[k].id
            }
        }),
{
    lemma_command_words();
    reveal(AppV::run);
    reveal(AppV::choose_ui);
    reveal(AppV::open_ui_list);
    let p = crate::lists::ui_named(arg);
    seqs::lemma_first_index(a.plugins.ui, p);
    if forall|k: int| 0 <= k < a.plugins.ui.len() ==> (#[trigger] a.plugins.ui[k]).id != arg {
        seqs::lemma_first_index_is(a.plugins.ui, p, a.plugins.ui.len() as int);
    }
}

/// `/clear` empties the transcript in view and says so there; `/quit` ends the
/// client; `/keys` asks for the key bindings; the plugin commands ask the host.
pub proof fn law_plain_commands(a: AppV, arg: Seq<char>)
    ensures
        ({
            let b = a.run("clear"@, arg);
            &&& b.out.len() == a.out.len() + 2
            &&& b.out.take(a.out.len() as int) == a.out
            &&& b.out[a.out.len() as int] == writes(a.live.chat.transcript, TranscriptOp::Clear)
            &&& b.live == a.live
            &&& b.tabs == a.tabs
            &&& b.pointer.sel is None
        }),
        a.run("quit"@, arg).status.quit,
        a.run("quit"@, arg).out == a.out,
        a.run("quit"@, arg).live == a.live,
        a.run("keys"@, arg) == (AppV { out: a.out.push(shows_keys()), ..a }),
        a.run("plugins"@, arg).out == a.out.push(sends(Cmd::FetchStaticPlugins)),
        only_remarked(a, a.run("plugins"@, arg)),
        a.run("cordis-plugins"@, arg).out == a.out.push(
            sends(Cmd::FetchCordisPlugins { agent_id: a.live.id }),
        ),
        only_remarked(a, a.run("cordis-plugins"@, arg)),
{
    lemma_command_words();
    reveal(AppV::run);
    reveal(AppV::clear_chat);
    assert(a.run("clear"@, arg).out.take(a.out.len() as int) =~= a.out);
}

pub open spec fn shows_keys() -> EffectV {
    Effect::ShowKeys
}

/// A name that is no command is told in the transcript, and does nothing.
pub proof fn law_unknown_commands_do_nothing(a: AppV, name: Seq<char>, arg: Seq<char>)
    requires
        forall|i: int|
            0 <= i < presets::slash_table().len() ==> (#[trigger] presets::slash_table()[i]).name
                != name,
        name != "status"@,
    ensures
        only_remarked(a, a.run(name, arg)),
        a.run(name, arg).out.len() == a.out.len() + 1,
        a.run(name, arg).out.take(a.out.len() as int) == a.out,
        a.run(name, arg).out.last() is Transcript,
{
    reveal(AppV::run);
    let t = presets::slash_table();
    assert(t[0].name == "agent"@);
    assert(t[1].name == "auth"@);
    assert(t[2].name == "clear"@);
    assert(t[3].name == "clip"@);
    assert(t[4].name == "close"@);
    assert(t[5].name == "cordis-plugins"@);
    assert(t[6].name == "effort"@);
    assert(t[7].name == "help"@);
    assert(t[8].name == "image"@);
    assert(t[9].name == "keys"@);
    assert(t[10].name == "lang"@);
    assert(t[11].name == "liang"@);
    assert(t[12].name == "model"@);
    assert(t[13].name == "new"@);
    assert(t[14].name == "permission"@);
    assert(t[15].name == "plan"@);
    assert(t[16].name == "plugins"@);
    assert(t[17].name == "quit"@);
    assert(t[18].name == "resume"@);
    assert(t[19].name == "session"@);
    assert(t[20].name == "theme"@);
    assert(t[21].name == "ui"@);
    assert(t[22].name == "vim"@);
    assert(a.run(name, arg).out.take(a.out.len() as int) =~= a.out);
}

// --- sessions ------------------------------------------------------------------------------

/// `/session` alone, or with `view`, asks for the figures of the session; a
/// word that it does not know changes nothing.
pub proof fn law_session_is_shown(a: AppV, arg: Seq<char>)
    ensures
        arg.len() == 0 || arg == "view"@ ==> a.run("session"@, arg) == (AppV {
            out: a.out.push(shows_session()),
            ..a
        }),
        arg.len() > 0 && arg != "view"@ && arg != "prev"@ && arg != "next"@ ==> only_remarked(
            a,
            a.run("session"@, arg),
        ) && a.run("session"@, arg).out == a.out,
{
    lemma_command_words();
    reveal(AppV::run);
    reveal(AppV::session_command);
}

pub open spec fn shows_session() -> EffectV {
    Effect::ShowSessionInfo
}

/// `/new` asks the agent for a session and waits for it in a tab, with the
/// name that the agent is to answer to.
pub proof fn law_new_session_is_asked(a: AppV, arg: Seq<char>)
    requires
        !a.base.demo,
    ensures
        ({
            let b = a.run("new"@, arg);
            &&& b.out.last() == sends(
                Cmd::NewSession { requester: Some(b.live.id), retry_auth: None },
            )
            &&& !b.live.bound
            &&& b.live.queue.prompts.len() == 0
            &&& b.live.asks.permission is None
            &&& b.live.asks.form is None
            &&& b.state == RunState::Idle
            &&& b.tabs.awaiting.len() > 0
            &&& b.tabs.awaiting.last().id == b.live.id
            &&& b.tabs.awaiting.last().open
        }),
{
    lemma_command_words();
    reveal(AppV::run);
    reveal(AppV::new_session);
    reveal(AppV::new_tab);
    reveal(AppV::abandoned);
    reveal(AppV::replaced);
    reveal(AppV::open_tab);
    reveal(AppV::switched);
    reveal(AppV::dropping);
}

/// Nothing was said in the viewed tab, and nothing waits or runs in it.
pub open spec fn unused(a: AppV) -> bool {
    &&& a.state != RunState::Running
    &&& !a.live.run.pending
    &&& a.live.queue.prompts.len() == 0
    &&& a.live.chat.only_notices
}

/// `/new` in a tab that is in use opens another at the end of the row. The one
/// that was in view is parked, and no session is forgotten.
pub proof fn law_new_session_opens_a_tab(a: AppV, arg: Seq<char>)
    requires
        !a.base.demo,
        !unused(a),
        a.tabs.current <= a.tabs.parked.len() < usize::MAX,
    ensures
        ({
            let b = a.run("new"@, arg);
            &&& b.tabs.parked.len() == a.tabs.parked.len() + 1
            &&& b.tabs.parked[a.tabs.current as int].id == a.live.id
            &&& b.tabs.parked[a.tabs.current as int].queue == a.live.queue
            &&& b.tabs.parked[a.tabs.current as int].draft == a.live.draft
            &&& b.tabs.parked[a.tabs.current as int].asks == a.live.asks
            &&& b.tabs.parked.remove(a.tabs.current as int) == a.tabs.parked
            &&& b.tabs.current == b.tabs.parked.len()
            &&& forall|k: int|
                a.out.len() <= k < b.out.len() ==> !forgets(#[trigger] b.out[k])
        }),
{
    lemma_command_words();
    reveal(AppV::run);
    reveal(AppV::new_session);
    reveal(AppV::new_tab);
    reveal(AppV::open_tab);
    reveal(AppV::switched);
    let b = a.run("new"@, arg);
    assert(b.tabs.parked.remove(a.tabs.current as int) =~= a.tabs.parked);
}

/// `/new` in a tab that is not in use takes the place of its session, which is
/// forgotten, and no other. The draft stays.
pub proof fn law_new_session_replaces_an_unused_one(a: AppV, arg: Seq<char>)
    requires
        !a.base.demo,
        unused(a),
    ensures
        ({
            let b = a.run("new"@, arg);
            &&& b.tabs.parked == a.tabs.parked
            &&& b.tabs.current == a.tabs.current
            &&& b.live.draft.input == a.live.draft.input
            &&& b.live.draft.images == a.live.draft.images
            &&& forgets_one(a.out, b.out, a.live.id)
        }),
{
    lemma_command_words();
    reveal(AppV::run);
    reveal(AppV::new_session);
    reveal(AppV::new_tab);
    reveal(AppV::abandoned);
    reveal(AppV::replaced);
    reveal(AppV::switched);
    reveal(AppV::dropping);
    let b = a.run("new"@, arg);
    let j = a.out.len() as int;
    assert(b.out[j] == sends(Cmd::ForgetSession { session_id: a.live.id }));
    assert(b.out.take(j) =~= a.out);
}

/// `/resume` lists sessions to choose from: those of the agent where it lists
/// any, otherwise those logged on this machine. A number says how many.
pub proof fn law_resuming_lists_sessions(a: AppV)
    requires
        !a.base.demo,
    ensures
        ({
            let b = a.run("resume"@, Seq::empty());
            &&& b.live == a.live
            &&& b.tabs == a.tabs
            &&& a.conn.list_session ==> b.out == a.out.push(
                sends(
                    Cmd::ListSessions {
                        requester_session_id: a.live.id,
                        prefix: None,
                        limit: 50,
                    },
                ),
            )
            &&& !a.conn.list_session ==> b.out == a.out.push(lists_logs(50, false))
        }),
{
    lemma_command_words();
    reveal(AppV::run);
    reveal(AppV::resume_command);
    reveal(AppV::open_resume);
}

pub open spec fn lists_logs(limit: usize, via_agent: bool) -> EffectV {
    Effect::ListForPicker { limit, via_agent }
}

/// `/resume` with the beginning of an id looks for that session: among those
/// that the agent lists, or by asking the agent for it, or among the logs.
pub proof fn law_resuming_by_id(a: AppV, id: Seq<char>)
    requires
        !a.base.demo,
        id.len() > 0,
        text::parsed_number(id, usize::MAX as nat) is None,
    ensures
        ({
            let b = a.run("resume"@, id);
            &&& a.conn.list_session ==> b.out == a.out.push(
                sends(
                    Cmd::ListSessions {
                        requester_session_id: a.live.id,
                        prefix: Some(id),
                        limit: usize::MAX,
                    },
                ),
            ) && only_remarked(a, b)
            &&& !a.conn.list_session && (a.conn.resume_session || a.conn.load_session)
                && without_tab(a, id) ==> {
                &&& b.out.last() == sends(Cmd::ResumeSession { session_id: id })
                &&& b.live.id == id
                &&& !b.live.bound
                &&& b.tabs.awaiting.last().id == id
                &&& b.tabs.awaiting.last().open
                &&& b.tabs.parked.len() == a.tabs.parked.len() + 1
            }
            &&& !a.conn.list_session && !a.conn.resume_session && !a.conn.load_session
                && a.resume.candidates.len() == 0 ==> b.out == a.out.push(
                lists_logs_for(id),
            )
        }),
{
    lemma_command_words();
    reveal(AppV::run);
    reveal(AppV::resume_command);
    reveal(AppV::resume_agent);
    reveal(AppV::resume_log);
    reveal(AppV::open_tab);
    reveal(AppV::switched);
    if without_tab(a, id) {
        seqs::lemma_first_index_is(
            a.tabs.parked,
            session::with_id(id),
            a.tabs.parked.len() as int,
        );
    }
}

pub open spec fn lists_logs_for(prefix: Seq<char>) -> EffectV {
    Effect::ListForResume { prefix }
}

/// `/auth` asks nothing of the agent while a sign-in is under way or none is
/// offered; with more than one method to choose from it lists them; otherwise
/// the method named, or else the one in use, is looked into.
pub proof fn law_signing_in(a: AppV, arg: Seq<char>)
    requires
        !a.base.demo,
    ensures
        ({
            let b = a.run("auth"@, arg);
            let ms = a.conn.auth.methods;
            let busy = a.conn.auth.status == AuthStatus::SigningIn;
            &&& b.conn == a.conn
            &&& b.live == a.live
            &&& b.tabs == a.tabs
            &&& busy ==> b.out == a.out && b.menu == a.menu
            &&& !busy && ms.len() == 0 ==> b.out.len() == a.out.len() + 1 && b.out.last()
                is Transcript && b.menu == a.menu
            &&& !busy && ms.len() > 1 && text::trimmed(arg).len() == 0 ==> {
                &&& b.out == a.out
                &&& b.menu.picker is Some
                &&& b.menu.picker->0.kind == PickerKind::Auth
                &&& b.menu.picker->0.items.len() == ms.len()
                &&& forall|i: int|
                    0 <= i < ms.len() ==> (#[trigger] b.menu.picker->0.items[i]).id == ms[i].id
            }
            &&& !busy && ms.len() == 1 && text::trimmed(arg).len() == 0
                && a.conn.auth.method_id is None && ms[0].id.len() > 0 ==> b.out == a.out.push(
                chooses_auth(ms[0].id, Seq::empty()),
            ) && b.menu == a.menu
        }),
{
    lemma_command_words();
    reveal(AppV::run);
    reveal(AppV::sign_in);
    reveal(AppV::open_methods);
    let t = text::trimmed(arg);
    if t.len() == 0 {
        assert(t =~= Seq::empty());
        let white = |c: char| text::white_space(c);
        seqs::lemma_first_index_is(t, white, 0);
        if a.conn.auth.methods.len() == 1 && a.conn.auth.methods[0].id.len() > 0 {
            seqs::lemma_first_index_is(a.conn.auth.methods, auth::method_named(t), 1);
        }
    }
}

pub open spec fn chooses_auth(method_id: Seq<char>, rest: Seq<char>) -> EffectV {
    Effect::ChooseAuth { method_id, rest }
}

/// `/auth` with the name of a method looks into that method, with what stands
/// behind the name.
pub proof fn law_signing_in_with(a: AppV, i: int, rest: Seq<char>, arg: Seq<char>)
    requires
        !a.base.demo,
        a.conn.auth.status != AuthStatus::SigningIn,
        0 <= i < a.conn.auth.methods.len(),
        a.conn.auth.methods[i].id.len() > 0,
        forall|k: int|
            0 <= k < a.conn.auth.methods[i].id.len() ==> !text::white_space(
                #[trigger] a.conn.auth.methods[i].id[k],
            ),
        text::trimmed(arg) == a.conn.auth.methods[i].id + seq![' '] + rest,
    ensures
        a.run("auth"@, arg) == (AppV {
            out: a.out.push(chooses_auth(a.conn.auth.methods[i].id, text::trimmed(rest))),
            ..a
        }),
{
    lemma_command_words();
    reveal(AppV::run);
    reveal(AppV::sign_in);
    let id = a.conn.auth.methods[i].id;
    let line = id + seq![' '] + rest;
    let white = |c: char| text::white_space(c);
    assert forall|k: int| 0 <= k < id.len() implies !white(#[trigger] line[k]) by {
        assert(line[k] == id[k]);
    }
    assert(white(line[id.len() as int]));
    seqs::lemma_first_index_is(line, white, id.len() as int);
    assert(line.take(id.len() as int) =~= id);
    assert(line.skip(id.len() as int + 1) =~= rest);
    seqs::lemma_first_index(a.conn.auth.methods, auth::method_named(id));
}

/// `/theme` with a palette that is loaded paints it at once and tells the host.
pub proof fn law_theme_is_chosen(a: AppV, i: int)
    requires
        0 <= i < a.theme.palettes.len(),
        forall|k: int|
            0 <= k < i ==> (#[trigger] a.theme.palettes[k]).id != a.theme.palettes[i].id,
        a.theme.palettes[i].loaded,
        a.theme.palettes[i].id.len() > 0,
        a.theme.palettes[i].id != "toggle"@,
    ensures
        ({
            let p = a.theme.palettes[i];
            let b = a.run("theme"@, p.id);
            &&& b.theme.active == p.id
            &&& b.theme.painted == p.colors
            &&& b.theme.preview is None
            &&& b.theme.pending is None
            &&& b.theme.mode == a.theme.mode
            &&& b.theme.palettes == a.theme.palettes
            &&& b.out == a.out.push(
                sends(Cmd::PluginThemeSelected { agent_id: a.live.id, id: p.id }),
            )
            &&& b.live == a.live
        }),
{
    lemma_command_words();
    reveal_strlit("");
    reveal(AppV::run);
    reveal(AppV::theme_command);
    reveal(AppV::pick_palette);
    reveal(AppV::activate);
    let p = a.theme.palettes[i];
    seqs::lemma_first_index_is(a.theme.palettes, theme::pack_named(p.id), i);
}

/// `/theme toggle` turns light to dark and dark to light and saves that.
pub proof fn law_theme_is_toggled(a: AppV)
    ensures
        a.run("theme"@, "toggle"@).theme.mode != a.theme.mode,
        a.run("theme"@, "toggle"@).theme.active == a.theme.active,
        a.run("theme"@, "toggle"@).theme.palettes == a.theme.palettes,
        a.run("theme"@, "toggle"@).out == a.out.push(saves()),
        a.run("theme"@, "toggle"@).live == a.live,
{
    lemma_command_words();
    reveal_strlit("");
    reveal_strlit("toggle");
    reveal(AppV::run);
    reveal(AppV::theme_command);
    reveal(AppV::toggle_mode);
}

/// The list of palettes has them all, in order, and paints none.
pub proof fn law_themes_are_listed(a: AppV)
    ensures
        ({
            let b = a.run("theme"@, ""@);
            &&& b.out == a.out
            &&& b.theme == a.theme
            &&& b.menu.picker is Some
            &&& b.menu.picker->0.kind == PickerKind::Theme
            &&& b.menu.picker->0.items.len() == a.theme.palettes.len()
            &&& forall|i: int|
                0 <= i < a.theme.palettes.len() ==> (#[trigger] b.menu.picker->0.items[i]).id
                    == a.theme.palettes[i].id
        }),
{
    lemma_command_words();
    reveal(AppV::run);
    reveal(AppV::theme_command);
    reveal(AppV::open_themes);
}

/// The part behind the last dot.
proof fn lemma_last_part(stem: Seq<char>, ext: Seq<char>)
    requires
        forall|k: int| 0 <= k < ext.len() ==> #[trigger] ext[k] != '.',
    ensures
        text::split_on(stem + seq!['.'] + ext, '.').last() == ext,
    decreases ext.len(),
{
    let s = stem + seq!['.'] + ext;
    if ext.len() == 0 {
        assert(s.last() == '.');
    } else {
        let shorter = ext.drop_last();
        assert forall|k: int| 0 <= k < shorter.len() implies #[trigger] shorter[k] != '.' by {
            assert(shorter[k] == ext[k]);
        }
        lemma_last_part(stem, shorter);
        assert(s.drop_last() =~= stem + seq!['.'] + shorter);
        assert(s.last() == ext.last() && ext[ext.len() - 1] != '.');
        assert(shorter.push(ext.last()) =~= ext);
    }
}

} // verus!
