//! What the agent, the runtime, the pointer and time keep of a state that makes
//! sense.

use crate::app::AppV;
use crate::bus::{
    self, AppEvent, AuthNotice, AuthV, CatalogModel, CatalogPreset, ConnectionV, CtlEvent,
};
use crate::effect::NoticeLevel;
use crate::events::EventV;
use crate::input::MouseEvent;
use crate::json::Json;
use crate::mouse::{MouseInput, PromptPlace};
use crate::replies::{Log, LogLine, Reply};
use crate::screen::SelPoint;
use crate::sense_menus;
use crate::sense_prompts;
use crate::sense_sessions;
use crate::session::{self, Edit};
use crate::sound;
use vstd::prelude::*;

verus! {

pub(crate) broadcast proof fn lemma_branch_sought(a: AppV, force: bool)
    requires
        a.wf(),
    ensures
        (#[trigger] a.branch_sought(force)).wf(),
{
    reveal(AppV::branch_sought);
}

pub(crate) broadcast proof fn lemma_spun(a: AppV, streaming: bool)
    requires
        a.wf(),
    ensures
        (#[trigger] a.spun(streaming)).wf(),
{
    reveal(AppV::spun);
}

pub(crate) broadcast proof fn lemma_tip_aged(a: AppV)
    requires
        a.wf(),
    ensures
        (#[trigger] a.tip_aged()).wf(),
{
    reveal(AppV::tip_aged);
}

pub(crate) broadcast proof fn lemma_flash_aged(a: AppV)
    requires
        a.wf(),
    ensures
        (#[trigger] a.flash_aged()).wf(),
{
    reveal(AppV::flash_aged);
}

pub(crate) broadcast proof fn lemma_hints_turned(a: AppV, tips: usize)
    requires
        a.wf(),
    ensures
        (#[trigger] a.hints_turned(tips)).wf(),
{
    reveal(AppV::hints_turned);
}

pub(crate) broadcast proof fn lemma_chord_aged(a: AppV)
    requires
        a.wf(),
    ensures
        (#[trigger] a.chord_aged()).wf(),
{
    reveal(AppV::chord_aged);
}

pub(crate) broadcast proof fn lemma_ticked(a: AppV, streaming: bool, tips: usize)
    requires
        a.wf(),
    ensures
        (#[trigger] a.ticked(streaming, tips)).wf(),
{
    reveal(AppV::ticked);
    broadcast use {lemma_branch_sought, lemma_spun, lemma_tip_aged, lemma_flash_aged, lemma_hints_turned, lemma_chord_aged};
}

pub(crate) broadcast proof fn lemma_notice_to(a: AppV, id: Seq<char>, level: NoticeLevel, t: Seq<char>)
    requires
        a.wf(),
    ensures
        (#[trigger] a.notice_to(id, level, t)).wf(),
{
    reveal(AppV::notice_to);
    broadcast use sense_sessions::lemma_index;
}

pub(crate) broadcast proof fn lemma_session_failed(a: AppV, id: Seq<char>, t: Seq<char>)
    requires
        a.wf(),
    ensures
        (#[trigger] a.session_failed(id, t)).wf(),
{
    broadcast use sound::group_sound;

    reveal(AppV::session_failed);
    broadcast use sense_sessions::lemma_index;
}

pub(crate) broadcast proof fn lemma_bind_failed_to(a: AppV, previous: Seq<char>, t: Seq<char>)
    requires
        a.wf(),
    ensures
        (#[trigger] a.bind_failed_to(previous, t)).wf(),
{
    broadcast use sound::group_sound;

    reveal(AppV::bind_failed_to);
    broadcast use {lemma_session_failed};
    broadcast use sense_sessions::lemma_index;
}

pub(crate) broadcast proof fn lemma_connected(a: AppV, id: Seq<char>, c: ConnectionV)
    requires
        a.wf(),
    ensures
        (#[trigger] a.connected(id, c)).wf(),
{
    broadcast use sound::group_sound;

    reveal(AppV::connected);
    broadcast use sense_sessions::lemma_index;
}

pub(crate) broadcast proof fn lemma_runtime_starting(a: AppV, runtime: Seq<char>)
    requires
        a.wf(),
    ensures
        (#[trigger] a.runtime_starting(runtime)).wf(),
{
    reveal(AppV::runtime_starting);
}

pub(crate) broadcast proof fn lemma_ready(a: AppV, server: Seq<char>)
    requires
        a.wf(),
    ensures
        (#[trigger] a.ready(server)).wf(),
{
    reveal(AppV::ready);
}

pub(crate) broadcast proof fn lemma_unreachable(a: AppV, target: Seq<char>, error: Seq<char>)
    requires
        a.wf(),
    ensures
        (#[trigger] a.unreachable(target, error)).wf(),
{
    reveal(AppV::unreachable);
}

pub(crate) broadcast proof fn lemma_accepted(a: AppV, id: Option<Seq<char>>)
    requires
        a.wf(),
    ensures
        (#[trigger] a.accepted(id)).wf(),
{
    broadcast use sound::group_sound;

    reveal(AppV::accepted);
    broadcast use sense_sessions::lemma_index;
}

pub(crate) broadcast proof fn lemma_failed(a: AppV, t: Seq<char>)
    requires
        a.wf(),
    ensures
        (#[trigger] a.failed(t)).wf(),
{
    reveal(AppV::failed);
    broadcast use {sense_prompts::lemma_send_next};
}

pub(crate) broadcast proof fn lemma_switch_refused(a: AppV, id: Seq<char>, model: Option<Seq<char>>, effort: Option<Seq<char>>, t: Seq<char>)
    requires
        a.wf(),
    ensures
        (#[trigger] a.switch_refused(id, model, effort, t)).wf(),
{
    broadcast use sound::group_sound;

    reveal(AppV::switch_refused);
    broadcast use sense_sessions::lemma_index;
}

pub(crate) broadcast proof fn lemma_bind_failed(a: AppV, t: Seq<char>)
    requires
        a.wf(),
    ensures
        (#[trigger] a.bind_failed(t)).wf(),
{
    reveal(AppV::bind_failed);
    broadcast use {lemma_notice_to};
}

pub(crate) broadcast proof fn lemma_cancelling(a: AppV, id: Seq<char>)
    requires
        a.wf(),
    ensures
        (#[trigger] a.cancelling(id)).wf(),
{
    broadcast use sound::group_sound;

    reveal(AppV::cancelling);
    broadcast use sense_sessions::lemma_index;
}

pub(crate) broadcast proof fn lemma_interrupted(a: AppV, id: Seq<char>)
    requires
        a.wf(),
    ensures
        (#[trigger] a.interrupted(id)).wf(),
{
    reveal(AppV::interrupted);
    broadcast use {sense_prompts::lemma_send_next_of, sound::group_sound};
    broadcast use sense_sessions::lemma_index;
}

pub(crate) broadcast proof fn lemma_skills_told(a: AppV, id: Option<Seq<char>>, v: Seq<bus::SkillInfo<Seq<char>>>)
    requires
        a.wf(),
    ensures
        (#[trigger] a.skills_told(id, v)).wf(),
{
    broadcast use sound::group_sound;

    reveal(AppV::skills_told);
    broadcast use sense_sessions::lemma_index;
}

pub(crate) broadcast proof fn lemma_catalog_told(a: AppV, id: Option<Seq<char>>, models: Seq<CatalogModel<Seq<char>>>, presets: Seq<CatalogPreset<Seq<char>>>)
    requires
        a.wf(),
    ensures
        (#[trigger] a.catalog_told(id, models, presets)).wf(),
{
    broadcast use sound::group_sound;

    reveal(AppV::catalog_told);
    broadcast use sense_sessions::lemma_index;
}

pub(crate) broadcast proof fn lemma_modes_told(a: AppV, id: Option<Seq<char>>, modes: Seq<CatalogPreset<Seq<char>>>, current: Option<Seq<char>>)
    requires
        a.wf(),
    ensures
        (#[trigger] a.modes_told(id, modes, current)).wf(),
{
    broadcast use sound::group_sound;

    reveal(AppV::modes_told);
    broadcast use sense_sessions::lemma_index;
}

pub(crate) broadcast proof fn lemma_efforts_told(a: AppV, id: Option<Seq<char>>, efforts: Seq<Seq<char>>, default: Option<Seq<char>>)
    requires
        a.wf(),
    ensures
        (#[trigger] a.efforts_told(id, efforts, default)).wf(),
{
    broadcast use sound::group_sound;

    reveal(AppV::efforts_told);
    broadcast use {sense_menus::lemma_open_efforts};
    broadcast use sense_sessions::lemma_index;
}

pub(crate) broadcast proof fn lemma_preset_told(a: AppV, id: Seq<char>, preset: Seq<char>)
    requires
        a.wf(),
    ensures
        (#[trigger] a.preset_told(id, preset)).wf(),
{
    broadcast use sound::group_sound;

    reveal(AppV::preset_told);
    broadcast use sense_sessions::lemma_index;
}

pub(crate) broadcast proof fn lemma_op_done(a: AppV, t: Seq<char>)
    requires
        a.wf(),
    ensures
        (#[trigger] a.op_done(t)).wf(),
{
    reveal(AppV::op_done);
}

pub(crate) broadcast proof fn lemma_session_auth(a: AppV, id: Seq<char>, snap: AuthV, n: Option<AuthNotice<Seq<char>>>, open: bool)
    requires
        a.wf(),
    ensures
        (#[trigger] a.session_auth(id, snap, n, open)).wf(),
{
    broadcast use sound::group_sound;

    reveal(AppV::session_auth);
    broadcast use {sense_sessions::lemma_auth_heard, sense_sessions::lemma_sign_in_needed};
    broadcast use sense_sessions::lemma_index;
}

pub(crate) broadcast proof fn lemma_ctl_session(a: AppV, e: CtlEvent)
    requires
        a.wf(),
    ensures
        (#[trigger] a.ctl_session(e)).wf(),
{
    reveal(AppV::ctl_session);
    broadcast use {sense_sessions::lemma_new_session, sense_sessions::lemma_bind_to, lemma_bind_failed_to, lemma_connected, sense_sessions::lemma_bind, lemma_bind_failed, lemma_accepted, sense_prompts::lemma_settling, lemma_failed, lemma_notice_to, lemma_switch_refused, lemma_session_failed, lemma_cancelling, lemma_interrupted};
}

pub(crate) broadcast proof fn lemma_ctl_choice(a: AppV, e: CtlEvent)
    requires
        a.wf(),
    ensures
        (#[trigger] a.ctl_choice(e)).wf(),
{
    reveal(AppV::ctl_choice);
    broadcast use {lemma_skills_told, sense_menus::lemma_open_inventory, sense_menus::lemma_open_dynamic_list, lemma_catalog_told, lemma_modes_told, lemma_efforts_told, lemma_preset_told, sense_sessions::lemma_agent_listed, sense_sessions::lemma_agent_cannot_list, lemma_ctl_session};
}

pub(crate) broadcast proof fn lemma_ctl(a: AppV, e: CtlEvent)
    requires
        a.wf(),
    ensures
        (#[trigger] a.ctl(e)).wf(),
{
    reveal(AppV::ctl);
    match e {
        CtlEvent::Starting { runtime } => {
            lemma_runtime_starting(a, runtime@);
        },
        CtlEvent::Initialized { .. } => {},
        CtlEvent::Ready { server } => {
            lemma_ready(a, server@);
        },
        CtlEvent::ConnectionFailed { target, error } => {
            lemma_unreachable(a, target@, error@);
        },
        CtlEvent::TuiOpDone(t) => {
            lemma_op_done(a, t@);
        },
        CtlEvent::TuiOpFailed(_) => {},
        CtlEvent::Auth { snapshot, notice } => {
            sense_sessions::lemma_auth_heard(a, snapshot@, bus::opt_notice_view(notice));
        },
        CtlEvent::SessionAuth { session_id, snapshot, notice, open } => {
            lemma_session_auth(a, session_id@, snapshot@, bus::opt_notice_view(notice), open);
        },
        CtlEvent::OpenAuth => {
            sense_sessions::lemma_sign_in_needed(a);
        },
        CtlEvent::AgentCaps { .. } => {},
        _ => {
            lemma_ctl_choice(a, e);
        },
    }
}

pub(crate) broadcast proof fn lemma_navigated(a: AppV, params: Json)
    requires
        a.wf(),
    ensures
        (#[trigger] a.navigated(params)).wf(),
{
    reveal(AppV::navigated);
    broadcast use {sense_sessions::lemma_begin_walk, sense_sessions::lemma_step_walk, sense_sessions::lemma_confirm_walk, sense_sessions::lemma_cancel_walk};
}

pub(crate) broadcast proof fn lemma_agent_picked(a: AppV, params: Json)
    requires
        a.wf(),
    ensures
        (#[trigger] a.agent_picked(params)).wf(),
{
    reveal(AppV::agent_picked);
    broadcast use {sense_sessions::lemma_show_agent};
}

pub(crate) broadcast proof fn lemma_rpc(a: AppV, method: Seq<char>, params: Json)
    requires
        a.wf(),
    ensures
        (#[trigger] a.rpc(method, params)).wf(),
{
    reveal(AppV::rpc);
    broadcast use {lemma_navigated, lemma_agent_picked, sense_menus::lemma_drop_pack, lemma_hear_all};
}

pub(crate) broadcast proof fn lemma_runtime_gone(a: AppV, code: Option<i32>)
    requires
        a.wf(),
    ensures
        (#[trigger] a.runtime_gone(code)).wf(),
{
    reveal(AppV::runtime_gone);
    reveal(session::slots_sound);
    broadcast use sound::group_sound;
}

pub(crate) broadcast proof fn lemma_shell_over(a: AppV, id: u64, code: Option<i32>, output: Seq<char>)
    requires
        a.wf(),
    ensures
        (#[trigger] a.shell_over(id, code, output)).wf(),
{
    reveal(AppV::shell_over);
    broadcast use {lemma_branch_sought};
    broadcast use sense_sessions::lemma_index;
}

pub(crate) broadcast proof fn lemma_paste_draft(a: AppV, t: Seq<char>)
    requires
        a.wf(),
    ensures
        (#[trigger] a.paste_draft(t)).wf(),
{
    reveal(AppV::paste_draft);
    broadcast use {sense_prompts::lemma_reconciled_images};
}

pub(crate) broadcast proof fn lemma_pasted(a: AppV, t: Seq<char>)
    requires
        a.wf(),
    ensures
        (#[trigger] a.pasted(t)).wf(),
{
    reveal(AppV::pasted);
    broadcast use {lemma_paste_draft};
    broadcast use sense_menus::lemma_reconciled;
}

pub(crate) broadcast proof fn lemma_taken(a: AppV, e: AppEvent)
    requires
        a.wf(),
    ensures
        (#[trigger] a.taken(e)).wf(),
{
    reveal(AppV::taken);
    broadcast use {lemma_pasted, sense_sessions::lemma_hear, lemma_rpc, lemma_runtime_gone, lemma_ctl, sense_sessions::lemma_open_ask, sense_sessions::lemma_open_form, sense_sessions::lemma_withdraw, lemma_shell_over};
}

pub(crate) broadcast proof fn lemma_queue_reported(a: AppV, before: AppV)
    requires
        a.wf(),
    ensures
        (#[trigger] a.queue_reported(before)).wf(),
{
    reveal(AppV::queue_reported);
}

pub(crate) broadcast proof fn lemma_agents_reported(a: AppV, before: AppV)
    requires
        a.wf(),
    ensures
        (#[trigger] a.agents_reported(before)).wf(),
{
    reveal(AppV::agents_reported);
}

pub(crate) broadcast proof fn lemma_session_reported(a: AppV, before: AppV)
    requires
        a.wf(),
    ensures
        (#[trigger] a.session_reported(before)).wf(),
{
    reveal(AppV::session_reported);
}

pub(crate) broadcast proof fn lemma_checked(a: AppV, before: AppV)
    requires
        a.wf(),
    ensures
        (#[trigger] a.checked(before)).wf(),
{
    reveal(AppV::checked);
    broadcast use {sense_menus::lemma_preview_checked, lemma_queue_reported, lemma_agents_reported, lemma_session_reported};
}

pub(crate) broadcast proof fn lemma_handled(a: AppV, e: AppEvent)
    requires
        a.wf(),
    ensures
        (#[trigger] a.handled(e)).wf(),
{
    reveal(AppV::handled);
    broadcast use {lemma_taken, lemma_checked};
}

pub(crate) broadcast proof fn lemma_wheel(a: AppV, up: bool)
    requires
        a.wf(),
    ensures
        (#[trigger] a.wheel(up)).wf(),
{
    reveal(AppV::wheel);
    broadcast use {sense_sessions::lemma_form_wheel, sense_sessions::lemma_ask_scrolled, sense_menus::lemma_tree_wheel, sense_menus::lemma_select_key, sense_menus::lemma_picker_wheel, sense_prompts::lemma_scrolled_by};
}

pub(crate) broadcast proof fn lemma_click_tab(a: AppV, tab: usize)
    requires
        a.wf(),
    ensures
        (#[trigger] a.click_tab(tab)).wf(),
{
    reveal(AppV::click_tab);
    broadcast use {sense_sessions::lemma_view_tab};
}

pub(crate) broadcast proof fn lemma_click_draft(a: AppV, m: MouseInput)
    requires
        a.wf(),
    ensures
        (#[trigger] a.click_draft(m)).wf(),
{
    reveal(AppV::click_draft);
    broadcast use {sense_prompts::lemma_browse_files};
}

pub(crate) broadcast proof fn lemma_select_word(a: AppV, p: SelPoint)
    requires
        a.wf(),
    ensures
        (#[trigger] a.select_word(p)).wf(),
{
    reveal(AppV::select_word);
}

pub(crate) broadcast proof fn lemma_click_chat(a: AppV, p: SelPoint, col: u16, row: u16)
    requires
        a.wf(),
    ensures
        (#[trigger] a.click_chat(p, col, row)).wf(),
{
    reveal(AppV::click_chat);
    broadcast use {lemma_select_word};
}

pub(crate) broadcast proof fn lemma_click_below(a: AppV, m: MouseInput)
    requires
        a.wf(),
    ensures
        (#[trigger] a.click_below(m)).wf(),
{
    reveal(AppV::click_below);
    broadcast use {lemma_click_draft, lemma_click_chat};
}

pub(crate) broadcast proof fn lemma_clicked(a: AppV, m: MouseInput)
    requires
        a.wf(),
    ensures
        (#[trigger] a.clicked(m)).wf(),
{
    reveal(AppV::clicked);
    broadcast use {lemma_click_tab, lemma_click_below};
}

pub(crate) broadcast proof fn lemma_dragged(a: AppV, m: MouseEvent)
    requires
        a.wf(),
    ensures
        (#[trigger] a.dragged(m)).wf(),
{
    reveal(AppV::dragged);
    broadcast use {sense_prompts::lemma_scrolled_by};
}

pub(crate) broadcast proof fn lemma_selection_done(a: AppV)
    requires
        a.wf(),
    ensures
        (#[trigger] a.selection_done()).wf(),
{
    reveal(AppV::selection_done);
}

pub(crate) broadcast proof fn lemma_input_selection_done(a: AppV, range: Option<(usize, usize)>)
    requires
        a.wf(),
    ensures
        (#[trigger] a.input_selection_done(range)).wf(),
{
    reveal(AppV::input_selection_done);
}

pub(crate) broadcast proof fn lemma_hovered(a: AppV, col: u16, row: u16)
    requires
        a.wf(),
    ensures
        (#[trigger] a.hovered(col, row)).wf(),
{
    reveal(AppV::hovered);
}

pub(crate) broadcast proof fn lemma_mouse(a: AppV, m: MouseInput)
    requires
        a.wf(),
    ensures
        (#[trigger] a.mouse(m)).wf(),
{
    reveal(AppV::mouse);
    broadcast use {lemma_wheel, lemma_clicked, lemma_dragged, lemma_selection_done, lemma_input_selection_done, lemma_hovered};
}

pub(crate) broadcast proof fn lemma_jumped(a: AppV, p: PromptPlace, total: int)
    requires
        a.wf(),
    ensures
        (#[trigger] a.jumped(p, total)).wf(),
{
    reveal(AppV::jumped);
}

pub(crate) broadcast proof fn lemma_located(a: AppV, users: Seq<PromptPlace>, lines: usize)
    requires
        a.wf(),
    ensures
        (#[trigger] a.located(users, lines)).wf(),
{
    reveal(AppV::located);
    broadcast use {lemma_jumped};
    broadcast use sense_sessions::lemma_index;
}

pub(crate) broadcast proof fn lemma_copied(a: AppV, t: Seq<char>, done: bool)
    requires
        a.wf(),
    ensures
        (#[trigger] a.copied(t, done)).wf(),
{
    reveal(AppV::copied);
}

pub(crate) broadcast proof fn lemma_interrupt_tried(a: AppV, done: bool)
    requires
        a.wf(),
    ensures
        (#[trigger] a.interrupt_tried(done)).wf(),
{
    reveal(AppV::interrupt_tried);
}

pub(crate) broadcast proof fn lemma_token_found(a: AppV, token: Option<Seq<char>>)
    requires
        a.wf(),
    ensures
        (#[trigger] a.token_found(token)).wf(),
{
    reveal(AppV::token_found);
}

pub(crate) broadcast proof fn lemma_file_settled(a: AppV, e: Edit)
    requires
        a.wf(),
    ensures
        (#[trigger] a.file_settled(e)).wf(),
{
    reveal(AppV::file_settled);
    broadcast use {sense_prompts::lemma_reconciled_images};
}

pub(crate) broadcast proof fn lemma_transcript_noted(a: AppV, id: u64, last: Option<Seq<char>>, only_notices: bool)
    requires
        a.wf(),
    ensures
        (#[trigger] a.transcript_noted(id, last, only_notices)).wf(),
{
    broadcast use sound::group_sound;

    reveal(AppV::transcript_noted);
    broadcast use sense_sessions::lemma_index;
}

pub(crate) broadcast proof fn lemma_replay_failed(a: AppV, file: Seq<char>, error: Seq<char>)
    requires
        a.wf(),
    ensures
        (#[trigger] a.replay_failed(file, error)).wf(),
{
    reveal(AppV::replay_failed);
}

pub(crate) broadcast proof fn lemma_emptied(a: AppV, id: Seq<char>)
    requires
        a.wf(),
    ensures
        (#[trigger] a.emptied(id)).wf(),
{
    broadcast use sound::group_sound;

    reveal(AppV::emptied);
}

pub(crate) broadcast proof fn lemma_replay_line(a: AppV, id: Seq<char>, l: LogLine)
    requires
        a.wf(),
    ensures
        (#[trigger] a.replay_line(id, l)).wf(),
{
    reveal(AppV::replay_line);
    broadcast use {lemma_rpc, lemma_checked};
}

pub(crate) broadcast proof fn lemma_filled(a: AppV, log: Log)
    requires
        a.wf(),
    ensures
        (#[trigger] a.filled(log)).wf(),
{
    reveal(AppV::filled);
    broadcast use {lemma_replay_lines};
}

pub(crate) broadcast proof fn lemma_replay(a: AppV, log: Log)
    requires
        a.wf(),
    ensures
        (#[trigger] a.replay(log)).wf(),
{
    reveal(AppV::replay);
    broadcast use {lemma_emptied, lemma_filled, sense_sessions::lemma_view_tab, sense_sessions::lemma_open_tab};
    broadcast use sense_sessions::lemma_index;
}

pub(crate) broadcast proof fn lemma_replied(a: AppV, r: Reply)
    requires
        a.wf(),
    ensures
        (#[trigger] a.replied(r)).wf(),
{
    reveal(AppV::replied);
    broadcast use {sense_prompts::lemma_key_pressed, lemma_mouse, sense_menus::lemma_plugin_told, lemma_located, lemma_copied, lemma_interrupt_tried, sense_menus::lemma_stage, sense_menus::lemma_image_failed, sense_sessions::lemma_sign_in_with, sense_sessions::lemma_logs_listed, sense_sessions::lemma_logs_found, sense_sessions::lemma_rows_described, lemma_replay, lemma_replay_failed, lemma_token_found, lemma_file_settled, sense_menus::lemma_show_keys, sense_menus::lemma_show_session, sense_menus::lemma_hosted, lemma_transcript_noted};
}

pub(crate) broadcast proof fn lemma_answered(a: AppV, r: Reply)
    requires
        a.wf(),
    ensures
        (#[trigger] a.answered(r)).wf(),
{
    reveal(AppV::answered);
    broadcast use {lemma_replied, lemma_checked};
}

pub(crate) broadcast proof fn lemma_hear_all(a: AppV, events: Seq<EventV>)
    requires
        a.wf(),
    ensures
        (#[trigger] a.hear_all(events)).wf(),
    decreases events.len(),
{
    broadcast use sense_sessions::lemma_hear;

    if events.len() > 0 {
        lemma_hear_all(a, events.drop_last());
    }
}

pub(crate) broadcast proof fn lemma_replay_lines(a: AppV, id: Seq<char>, lines: Seq<LogLine>)
    requires
        a.wf(),
    ensures
        (#[trigger] a.replay_lines(id, lines)).wf(),
    decreases lines.len(),
{
    broadcast use lemma_replay_line;

    if lines.len() > 0 {
        lemma_replay_lines(a, id, lines.drop_last());
    }
}

} // verus!
