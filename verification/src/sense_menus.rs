//! What commands, lists and popups keep of a state that makes sense.

use crate::app::AppV;
use crate::draft::AttachmentV;
use crate::effect::Locale;
use crate::info::{Figures, Stats, Usage};
use crate::input::KeyEvent;
use crate::json::Json;
use crate::lists::Row;
use crate::picker::PickerKind;
use crate::plugins::{PluginOverlay, PluginUpdate};
use crate::select::{self, SelectV};
use crate::sense_prompts;
use crate::sense_sessions;
use crate::slash::EntryV;
use crate::sound;
use crate::theme::PackV;
use vstd::prelude::*;

verus! {

pub(crate) broadcast proof fn lemma_recall_earlier(a: AppV)
    requires
        a.wf(),
    ensures
        (#[trigger] a.recall_earlier()).wf(),
{
    reveal(AppV::recall_earlier);
}

pub(crate) broadcast proof fn lemma_recall_from_draft(a: AppV)
    requires
        a.wf(),
    ensures
        (#[trigger] a.recall_from_draft()).wf(),
{
    reveal(AppV::recall_from_draft);
}

pub(crate) broadcast proof fn lemma_recall_later(a: AppV)
    requires
        a.wf(),
    ensures
        (#[trigger] a.recall_later()).wf(),
{
    reveal(AppV::recall_later);
}

pub(crate) broadcast proof fn lemma_speak_in(a: AppV, l: Locale)
    requires
        a.wf(),
    ensures
        (#[trigger] a.speak_in(l)).wf(),
{
    reveal(AppV::speak_in);
}

pub(crate) broadcast proof fn lemma_choose_locale(a: AppV, arg: Seq<char>)
    requires
        a.wf(),
    ensures
        (#[trigger] a.choose_locale(arg)).wf(),
{
    reveal(AppV::choose_locale);
    broadcast use {lemma_speak_in};
}

pub(crate) broadcast proof fn lemma_clear_chat(a: AppV)
    requires
        a.wf(),
    ensures
        (#[trigger] a.clear_chat()).wf(),
{
    reveal(AppV::clear_chat);
}

pub(crate) broadcast proof fn lemma_call_pet(a: AppV, arg: Seq<char>)
    requires
        a.wf(),
    ensures
        (#[trigger] a.call_pet(arg)).wf(),
{
    reveal(AppV::call_pet);
}

pub(crate) broadcast proof fn lemma_choose_editor(a: AppV, arg: Seq<char>)
    requires
        a.wf(),
    ensures
        (#[trigger] a.choose_editor(arg)).wf(),
{
    reveal(AppV::choose_editor);
}

pub(crate) broadcast proof fn lemma_open_ui_list(a: AppV)
    requires
        a.wf(),
    ensures
        (#[trigger] a.open_ui_list()).wf(),
{
    reveal(AppV::open_ui_list);
}

pub(crate) broadcast proof fn lemma_choose_ui(a: AppV, arg: Seq<char>)
    requires
        a.wf(),
    ensures
        (#[trigger] a.choose_ui(arg)).wf(),
{
    reveal(AppV::choose_ui);
    broadcast use {lemma_open_ui_list};
}

pub(crate) broadcast proof fn lemma_session_command(a: AppV, arg: Seq<char>)
    requires
        a.wf(),
    ensures
        (#[trigger] a.session_command(arg)).wf(),
{
    reveal(AppV::session_command);
    broadcast use {sense_sessions::lemma_view_tab};
}

pub(crate) broadcast proof fn lemma_resume_command(a: AppV, arg: Seq<char>)
    requires
        a.wf(),
    ensures
        (#[trigger] a.resume_command(arg)).wf(),
{
    reveal(AppV::resume_command);
    broadcast use {sense_sessions::lemma_open_resume, sense_sessions::lemma_resume_agent, sense_sessions::lemma_resume_log};
}

pub(crate) broadcast proof fn lemma_effort_command(a: AppV, arg: Seq<char>)
    requires
        a.wf(),
    ensures
        (#[trigger] a.effort_command(arg)).wf(),
{
    reveal(AppV::effort_command);
}

pub(crate) broadcast proof fn lemma_open_permissions(a: AppV)
    requires
        a.wf(),
    ensures
        (#[trigger] a.open_permissions()).wf(),
{
    reveal(AppV::open_permissions);
}

pub(crate) broadcast proof fn lemma_ask_permission(a: AppV, preset: Seq<char>)
    requires
        a.wf(),
    ensures
        (#[trigger] a.ask_permission(preset)).wf(),
{
    reveal(AppV::ask_permission);
}

pub(crate) broadcast proof fn lemma_permission_command(a: AppV, arg: Seq<char>)
    requires
        a.wf(),
    ensures
        (#[trigger] a.permission_command(arg)).wf(),
{
    reveal(AppV::permission_command);
    broadcast use {lemma_open_permissions, lemma_ask_permission};
}

pub(crate) broadcast proof fn lemma_plan_command(a: AppV, arg: Seq<char>)
    requires
        a.wf(),
    ensures
        (#[trigger] a.plan_command(arg)).wf(),
{
    reveal(AppV::plan_command);
    broadcast use {sense_prompts::lemma_send_text};
}

pub(crate) broadcast proof fn lemma_image_command(a: AppV, arg: Seq<char>)
    requires
        a.wf(),
    ensures
        (#[trigger] a.image_command(arg)).wf(),
{
    reveal(AppV::image_command);
}

pub(crate) broadcast proof fn lemma_show_help(a: AppV)
    requires
        a.wf(),
    ensures
        (#[trigger] a.show_help()).wf(),
{
    reveal(AppV::show_help);
}

pub(crate) broadcast proof fn lemma_open_themes(a: AppV)
    requires
        a.wf(),
    ensures
        (#[trigger] a.open_themes()).wf(),
{
    reveal(AppV::open_themes);
}

pub(crate) broadcast proof fn lemma_toggle_mode(a: AppV)
    requires
        a.wf(),
    ensures
        (#[trigger] a.toggle_mode()).wf(),
{
    reveal(AppV::toggle_mode);
}

pub(crate) broadcast proof fn lemma_activate(a: AppV, id: Seq<char>)
    requires
        a.wf(),
    ensures
        (#[trigger] a.activate(id)).wf(),
{
    reveal(AppV::activate);
}

pub(crate) broadcast proof fn lemma_painting_ahead(a: AppV, id: Seq<char>, colors: u64)
    requires
        a.wf(),
    ensures
        (#[trigger] a.painting_ahead(id, colors)).wf(),
{
    reveal(AppV::painting_ahead);
}

pub(crate) broadcast proof fn lemma_pick_palette(a: AppV, id: Seq<char>)
    requires
        a.wf(),
    ensures
        (#[trigger] a.pick_palette(id)).wf(),
{
    reveal(AppV::pick_palette);
    broadcast use {lemma_activate, lemma_painting_ahead};
}

pub(crate) broadcast proof fn lemma_theme_command(a: AppV, arg: Seq<char>)
    requires
        a.wf(),
    ensures
        (#[trigger] a.theme_command(arg)).wf(),
{
    reveal(AppV::theme_command);
    broadcast use {lemma_open_themes, lemma_toggle_mode, lemma_pick_palette};
}

pub(crate) broadcast proof fn lemma_open_models(a: AppV)
    requires
        a.wf(),
    ensures
        (#[trigger] a.open_models()).wf(),
{
    reveal(AppV::open_models);
}

pub(crate) broadcast proof fn lemma_ask_model(a: AppV, model: Seq<char>)
    requires
        a.wf(),
    ensures
        (#[trigger] a.ask_model(model)).wf(),
{
    reveal(AppV::ask_model);
}

pub(crate) broadcast proof fn lemma_open_agents_list(a: AppV)
    requires
        a.wf(),
    ensures
        (#[trigger] a.open_agents_list()).wf(),
{
    reveal(AppV::open_agents_list);
}

pub(crate) broadcast proof fn lemma_ask_mode(a: AppV, preset: Seq<char>)
    requires
        a.wf(),
    ensures
        (#[trigger] a.ask_mode(preset)).wf(),
{
    reveal(AppV::ask_mode);
}

pub(crate) broadcast proof fn lemma_show_status(a: AppV)
    requires
        a.wf(),
    ensures
        (#[trigger] a.show_status()).wf(),
{
    reveal(AppV::show_status);
}

pub(crate) broadcast proof fn lemma_run(a: AppV, name: Seq<char>, arg: Seq<char>)
    requires
        a.wf(),
    ensures
        (#[trigger] a.run(name, arg)).wf(),
{
    reveal(AppV::run);
    broadcast use {lemma_show_help, lemma_choose_locale, lemma_clear_chat, lemma_call_pet, lemma_theme_command, lemma_choose_editor, lemma_choose_ui, lemma_open_models, lemma_ask_model, lemma_open_agents_list, lemma_ask_mode, sense_sessions::lemma_new_session, sense_sessions::lemma_close_tab, lemma_session_command, lemma_show_status, sense_sessions::lemma_sign_in, lemma_resume_command, lemma_effort_command, lemma_permission_command, lemma_plan_command, lemma_image_command};
}

pub(crate) broadcast proof fn lemma_submit_command(a: AppV, line: Seq<char>, name: Seq<char>, arg: Seq<char>)
    requires
        a.wf(),
    ensures
        (#[trigger] a.submit_command(line, name, arg)).wf(),
{
    reveal(AppV::submit_command);
    broadcast use {sense_sessions::lemma_put_away, sense_prompts::lemma_send_text, lemma_run};
}

pub(crate) broadcast proof fn lemma_submit_images(a: AppV)
    requires
        a.wf(),
    ensures
        (#[trigger] a.submit_images()).wf(),
{
    reveal(AppV::submit_images);
    broadcast use {sense_prompts::lemma_unstaged, sense_prompts::lemma_send_blocks};
}

pub(crate) broadcast proof fn lemma_submitted(a: AppV)
    requires
        a.wf(),
    ensures
        (#[trigger] a.submitted()).wf(),
{
    reveal(AppV::submitted);
    broadcast use {lemma_submit_command, sense_sessions::lemma_put_away, sense_prompts::lemma_run_shell, lemma_submit_images, sense_prompts::lemma_send_text};
}

pub(crate) broadcast proof fn lemma_prompted(a: AppV, t: Seq<char>)
    requires
        a.wf(),
    ensures
        (#[trigger] a.prompted(t)).wf(),
{
    reveal(AppV::prompted);
    broadcast use {lemma_submitted};
}

pub(crate) broadcast proof fn lemma_take_entry(a: AppV, e: EntryV)
    requires
        a.wf(),
    ensures
        (#[trigger] a.take_entry(e)).wf(),
{
    reveal(AppV::take_entry);
    broadcast use {sense_sessions::lemma_put_away, lemma_submitted, lemma_run};
}

pub(crate) broadcast proof fn lemma_stage(a: AppV, att: AttachmentV, caption: Seq<char>)
    requires
        a.wf(),
    ensures
        (#[trigger] a.stage(att, caption)).wf(),
{
    reveal(AppV::stage);
}

pub(crate) broadcast proof fn lemma_image_failed(a: AppV, path: Seq<char>, error: Seq<char>)
    requires
        a.wf(),
    ensures
        (#[trigger] a.image_failed(path, error)).wf(),
{
    reveal(AppV::image_failed);
}

pub(crate) broadcast proof fn lemma_cut_chip(a: AppV, cursor: int, backward: bool)
    requires
        a.wf(),
    ensures
        (#[trigger] a.cut_chip(cursor, backward)).wf(),
{
    reveal(AppV::cut_chip);
}

pub(crate) broadcast proof fn lemma_open_efforts(a: AppV, efforts: Seq<Seq<char>>, default: Option<Seq<char>>)
    requires
        a.wf(),
    ensures
        (#[trigger] a.open_efforts(efforts, default)).wf(),
{
    reveal(AppV::open_efforts);
}

pub(crate) broadcast proof fn lemma_open_inventory(a: AppV)
    requires
        a.wf(),
    ensures
        (#[trigger] a.open_inventory()).wf(),
{
    reveal(AppV::open_inventory);
}

pub(crate) broadcast proof fn lemma_open_dynamic_list(a: AppV)
    requires
        a.wf(),
    ensures
        (#[trigger] a.open_dynamic_list()).wf(),
{
    reveal(AppV::open_dynamic_list);
}

pub(crate) broadcast proof fn lemma_without_pack(a: AppV, id: Seq<char>)
    requires
        a.wf(),
    ensures
        (#[trigger] a.without_pack(id)).wf(),
{
    reveal(AppV::without_pack);
}

pub(crate) broadcast proof fn lemma_drop_pack(a: AppV, params: Json)
    requires
        a.wf(),
    ensures
        (#[trigger] a.drop_pack(params)).wf(),
{
    reveal(AppV::drop_pack);
    broadcast use {lemma_activate, lemma_without_pack};
}

pub(crate) broadcast proof fn lemma_without_preview(a: AppV)
    requires
        a.wf(),
    ensures
        (#[trigger] a.without_preview()).wf(),
{
    reveal(AppV::without_preview);
}

pub(crate) broadcast proof fn lemma_preview_checked(a: AppV)
    requires
        a.wf(),
    ensures
        (#[trigger] a.preview_checked()).wf(),
{
    reveal(AppV::preview_checked);
    broadcast use {lemma_without_preview};
}

pub(crate) broadcast proof fn lemma_show_keys(a: AppV, t: Seq<char>)
    requires
        a.wf(),
    ensures
        (#[trigger] a.show_keys(t)).wf(),
{
    reveal(AppV::show_keys);
}

pub(crate) broadcast proof fn lemma_hosted(a: AppV, raw: Option<Seq<char>>)
    requires
        a.wf(),
    ensures
        (#[trigger] a.hosted(raw)).wf(),
{
    reveal(AppV::hosted);
}

pub(crate) broadcast proof fn lemma_show_session(
    a: AppV,
    u: Usage,
    s: Stats,
    f: Figures<Seq<char>>,
)
    requires
        a.wf(),
    ensures
        (#[trigger] a.show_session(u, s, f)).wf(),
{
    reveal(AppV::show_session);
}

pub(crate) broadcast proof fn lemma_snapped(a: AppV)
    requires
        a.wf(),
    ensures
        (#[trigger] a.snapped()).wf(),
{
    reveal(AppV::snapped);
}

pub(crate) broadcast proof fn lemma_next_mode(a: AppV)
    requires
        a.wf(),
    ensures
        (#[trigger] a.next_mode()).wf(),
{
    reveal(AppV::next_mode);
    broadcast use {lemma_ask_mode};
}

pub(crate) broadcast proof fn lemma_next_permission(a: AppV)
    requires
        a.wf(),
    ensures
        (#[trigger] a.next_permission()).wf(),
{
    reveal(AppV::next_permission);
    broadcast use {lemma_ask_permission};
}

pub(crate) broadcast proof fn lemma_try_palette(a: AppV, id: Seq<char>)
    requires
        a.wf(),
    ensures
        (#[trigger] a.try_palette(id)).wf(),
{
    reveal(AppV::try_palette);
    broadcast use {lemma_without_preview};
}

pub(crate) broadcast proof fn lemma_try_slash_theme(a: AppV)
    requires
        a.wf(),
    ensures
        (#[trigger] a.try_slash_theme()).wf(),
{
    reveal(AppV::try_slash_theme);
    broadcast use {lemma_try_palette};
}

pub(crate) broadcast proof fn lemma_view_key(a: AppV, key: KeyEvent)
    requires
        a.wf(),
    ensures
        (#[trigger] a.view_key(key)).wf(),
{
    reveal(AppV::view_key);
}

pub(crate) broadcast proof fn lemma_select_key(a: AppV, key: KeyEvent)
    requires
        a.wf(),
    ensures
        (#[trigger] a.select_key(key)).wf(),
{
    reveal(AppV::select_key);
    broadcast use {lemma_reconciled, lemma_shown, sense_sessions::lemma_index};
}

pub(crate) broadcast proof fn lemma_slider_key(a: AppV, key: KeyEvent, slide: Option<Json>)
    requires
        a.wf(),
    ensures
        (#[trigger] a.slider_key(key, slide)).wf(),
{
    reveal(AppV::slider_key);
}

pub(crate) broadcast proof fn lemma_choose_model(a: AppV, model: Seq<char>, provider: Option<Seq<char>>)
    requires
        a.wf(),
    ensures
        (#[trigger] a.choose_model(model, provider)).wf(),
{
    reveal(AppV::choose_model);
}

pub(crate) broadcast proof fn lemma_choose_effort(a: AppV, effort: Seq<char>)
    requires
        a.wf(),
    ensures
        (#[trigger] a.choose_effort(effort)).wf(),
{
    reveal(AppV::choose_effort);
}

pub(crate) broadcast proof fn lemma_open_approval(a: AppV, request: Seq<char>)
    requires
        a.wf(),
    ensures
        (#[trigger] a.open_approval(request)).wf(),
{
    reveal(AppV::open_approval);
}

pub(crate) broadcast proof fn lemma_manage_plugin(a: AppV, id: Seq<char>)
    requires
        a.wf(),
    ensures
        (#[trigger] a.manage_plugin(id)).wf(),
{
    reveal(AppV::manage_plugin);
    broadcast use {lemma_open_approval};
}

pub(crate) broadcast proof fn lemma_choose_row(a: AppV, kind: PickerKind, item: Row)
    requires
        a.wf(),
    ensures
        (#[trigger] a.choose_row(kind, item)).wf(),
{
    reveal(AppV::choose_row);
    broadcast use {lemma_choose_model, lemma_ask_mode, lemma_pick_palette, lemma_ask_permission, sense_sessions::lemma_resume_agent, sense_sessions::lemma_resume_log, lemma_choose_effort, sense_sessions::lemma_sign_in, lemma_manage_plugin, sense_sessions::lemma_show_agent};
}

pub(crate) broadcast proof fn lemma_try_picker_theme(a: AppV)
    requires
        a.wf(),
    ensures
        (#[trigger] a.try_picker_theme()).wf(),
{
    reveal(AppV::try_picker_theme);
    broadcast use {lemma_try_palette};
}

pub(crate) broadcast proof fn lemma_at_row(a: AppV, sel: usize)
    requires
        a.wf(),
    ensures
        (#[trigger] a.at_row(sel)).wf(),
{
    reveal(AppV::at_row);
    broadcast use {lemma_try_picker_theme};
}

pub(crate) broadcast proof fn lemma_picker_key(a: AppV, key: KeyEvent, toggles: bool)
    requires
        a.wf(),
    ensures
        (#[trigger] a.picker_key(key, toggles)).wf(),
{
    reveal(AppV::picker_key);
    broadcast use {lemma_toggle_mode, lemma_choose_row, lemma_at_row};
}

pub(crate) broadcast proof fn lemma_tree_key(a: AppV, key: KeyEvent)
    requires
        a.wf(),
    ensures
        (#[trigger] a.tree_key(key)).wf(),
{
    reveal(AppV::tree_key);
}

pub(crate) broadcast proof fn lemma_tree_wheel(a: AppV, up: bool, lines: int)
    requires
        a.wf(),
    ensures
        (#[trigger] a.tree_wheel(up, lines)).wf(),
{
    reveal(AppV::tree_wheel);
}

pub(crate) broadcast proof fn lemma_picker_wheel(a: AppV, delta: int)
    requires
        a.wf(),
    ensures
        (#[trigger] a.picker_wheel(delta)).wf(),
{
    reveal(AppV::picker_wheel);
    broadcast use {lemma_at_row};
}

pub(crate) broadcast proof fn lemma_take_overlay(a: AppV, o: Option<PluginOverlay>)
    requires
        a.wf(),
    ensures
        (#[trigger] a.take_overlay(o)).wf(),
{
    reveal(AppV::take_overlay);
    broadcast use {lemma_reconciled, sense_sessions::lemma_index};
}

pub(crate) broadcast proof fn lemma_merge_pack(a: AppV, pack: PackV, activate: bool)
    requires
        a.wf(),
    ensures
        (#[trigger] a.merge_pack(pack, activate)).wf(),
{
    reveal(AppV::merge_pack);
    broadcast use {lemma_activate};
}

pub(crate) broadcast proof fn lemma_plugin_told(a: AppV, u: PluginUpdate)
    requires
        a.wf(),
    ensures
        (#[trigger] a.plugin_told(u)).wf(),
{
    broadcast use sound::group_sound;

    reveal(AppV::plugin_told);
    broadcast use {lemma_merge_pack, lemma_take_overlay};
}

pub(crate) broadcast proof fn lemma_reconciled(s: SelectV)
    requires
        s.sel < s.options.len(),
    ensures
        (#[trigger] select::reconciled(s)).sel < s.options.len(),
{
    if select::visible(s).len() > 0 {
        select::lemma_visible(s, s.options.len() as int, 0);
    }
}

pub(crate) broadcast proof fn lemma_shown(s: SelectV, i: int)
    requires
        0 <= i < select::visible(s).len(),
    ensures
        (#[trigger] select::visible(s)[i]) < s.options.len(),
{
    select::lemma_visible(s, s.options.len() as int, i);
}

} // verus!
