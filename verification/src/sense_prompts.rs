//! What drafts, queues and keys keep of a state that makes sense.

use crate::app::AppV;
use crate::compose;
use crate::draft::BlockV;
use crate::effect::FileMenuOp;
use crate::keys::{Action, KeyPress};
use crate::queue;
use crate::sense_menus;
use crate::sense_sessions;
use crate::seqs;
use crate::session::{self, ClientQueuedPrompt, Edit, QueueV, QueuedV};
use crate::sound;
use vstd::prelude::*;

verus! {

pub(crate) broadcast proof fn lemma_send_next(a: AppV)
    requires
        a.wf(),
    ensures
        (#[trigger] a.send_next()).wf(),
{
    broadcast use sound::group_sound;

    reveal(AppV::send_next);
}

pub(crate) broadcast proof fn lemma_send_next_of(a: AppV, session: Seq<char>)
    requires
        a.wf(),
    ensures
        (#[trigger] a.send_next_of(session)).wf(),
{
    broadcast use sound::group_sound;

    reveal(AppV::send_next_of);
    broadcast use {lemma_send_next};
    broadcast use sense_sessions::lemma_index;
}

pub(crate) broadcast proof fn lemma_send_text(a: AppV, t: Seq<char>)
    requires
        a.wf(),
    ensures
        (#[trigger] a.send_text(t)).wf(),
{
    reveal(AppV::send_text);
    broadcast use lemma_queueing;
}

pub(crate) broadcast proof fn lemma_reconciled_images(a: AppV)
    requires
        a.wf(),
    ensures
        (#[trigger] a.reconciled_images()).wf(),
{
    reveal(AppV::reconciled_images);
}

pub(crate) broadcast proof fn lemma_unstaged(a: AppV)
    requires
        a.wf(),
    ensures
        (#[trigger] a.unstaged()).wf(),
{
    reveal(AppV::unstaged);
    broadcast use {lemma_reconciled_images};
}

/// A prompt that goes into a turn may have this number.
pub open spec fn spares(a: AppV, id: u64) -> bool {
    !a.counts.again ==> sound::spare(a.live.queue, id, a.counts.next_prompt)
}

pub(crate) broadcast proof fn lemma_numbered(a: AppV)
    requires
        a.wf(),
    ensures
        (#[trigger] a.numbered()).wf(),
        spares(a.numbered(), a.counts.next_prompt),
{
    broadcast use sound::lemma_numbers_grow;

    let b = a.numbered();
    sound::lemma_parked_grow(
        a.tabs.parked,
        a.counts.next_prompt,
        b.counts.next_prompt,
        a.counts.again,
        b.counts.again,
    );
    if !b.counts.again {
        sound::lemma_number_is_spare(a.live.queue, a.counts.next_prompt);
    }
}

pub(crate) broadcast proof fn lemma_queueing(a: AppV, blocks: Seq<BlockV>)
    requires
        a.wf(),
    ensures
        (#[trigger] a.queueing(blocks)).wf(),
{
    broadcast use {sound::group_sound, sound::lemma_with_prompt};

    let b = a.queueing(blocks);
    sound::lemma_parked_grow(
        a.tabs.parked,
        a.counts.next_prompt,
        b.counts.next_prompt,
        a.counts.again,
        b.counts.again,
    );
}

pub(crate) broadcast proof fn lemma_steering_with(a: AppV, message_id: u64, blocks: Seq<BlockV>, front: bool)
    requires
        a.wf(),
        spares(a, message_id),
    ensures
        (#[trigger] a.steering_with(message_id, blocks, front)).wf(),
{
    reveal(AppV::steering_with);
    broadcast use sound::group_sound;
}

pub(crate) broadcast proof fn lemma_emit_staged(a: AppV, blocks: Seq<BlockV>, steer: Option<u64>)
    requires
        a.wf(),
        steer matches Some(id) ==> spares(a, id),
    ensures
        (#[trigger] a.emit_staged(blocks, steer)).wf(),
{
    reveal(AppV::emit_staged);
    broadcast use {lemma_steering_with};
}

pub(crate) broadcast proof fn lemma_send_blocks(a: AppV, blocks: Seq<BlockV>)
    requires
        a.wf(),
    ensures
        (#[trigger] a.send_blocks(blocks)).wf(),
{
    reveal(AppV::send_blocks);
    broadcast use {lemma_emit_staged, lemma_queueing};
}

pub(crate) broadcast proof fn lemma_run_shell(a: AppV, command: Seq<char>)
    requires
        a.wf(),
    ensures
        (#[trigger] a.run_shell(command)).wf(),
{
    reveal(AppV::run_shell);
}

pub(crate) broadcast proof fn lemma_head_steered(a: AppV, p: QueuedV)
    requires
        a.wf(),
        spares(a, p.id),
    ensures
        (#[trigger] a.head_steered(p)).wf(),
{
    reveal(AppV::head_steered);
    broadcast use lemma_steering_with;
}

pub(crate) broadcast proof fn lemma_head_prompted(a: AppV, p: QueuedV)
    requires
        a.wf(),
    ensures
        (#[trigger] a.head_prompted(p)).wf(),
{
    reveal(AppV::head_prompted);
}

pub(crate) broadcast proof fn lemma_send_head_now(a: AppV)
    requires
        a.wf(),
    ensures
        (#[trigger] a.send_head_now()).wf(),
{
    reveal(AppV::send_head_now);
    broadcast use {lemma_head_steered, lemma_head_prompted, sound::group_sound};

    let q = a.live.queue;
    if q.prompts.len() > 0 && !a.counts.again {
        sound::lemma_without_head(q, a.counts.next_prompt);
    }
}

pub(crate) broadcast proof fn lemma_browse_queue(a: AppV)
    requires
        a.wf(),
    ensures
        (#[trigger] a.browse_queue()).wf(),
{
    broadcast use sound::group_sound;

    reveal(AppV::browse_queue);
}

pub(crate) broadcast proof fn lemma_selecting_prompt(a: AppV, selection: Option<usize>)
    requires
        a.wf(),
    ensures
        (#[trigger] a.selecting_prompt(selection)).wf(),
{
    broadcast use sound::group_sound;

    reveal(AppV::selecting_prompt);
}

pub(crate) broadcast proof fn lemma_with_prompt_in_draft(a: AppV, index: int)
    requires
        a.wf(),
    ensures
        (#[trigger] a.with_prompt_in_draft(index)).wf(),
{
    broadcast use sound::group_sound;

    reveal(AppV::with_prompt_in_draft);
}

pub(crate) broadcast proof fn lemma_edit_prompt(a: AppV, index: int)
    requires
        a.wf(),
    ensures
        (#[trigger] a.edit_prompt(index)).wf(),
{
    broadcast use sound::group_sound;

    reveal(AppV::edit_prompt);
    broadcast use {lemma_selecting_prompt, lemma_with_prompt_in_draft};
}

pub(crate) broadcast proof fn lemma_edit_done(a: AppV, en: (Seq<char>, Seq<char>), zh: (Seq<char>, Seq<char>), index: int)
    requires
        a.wf(),
    ensures
        (#[trigger] a.edit_done(en, zh, index)).wf(),
{
    broadcast use sound::group_sound;

    reveal(AppV::edit_done);
    broadcast use {lemma_reconciled_images, lemma_send_next};
}

pub(crate) broadcast proof fn lemma_delete_edit(a: AppV)
    requires
        a.wf(),
    ensures
        (#[trigger] a.delete_edit()).wf(),
{
    reveal(AppV::delete_edit);
    broadcast use {lemma_edit_done, sound::group_sound};

    let q = a.live.queue;
    if let Some(edit) = q.edit {
        let at = seqs::first_index(q.prompts, compose::prompt_numbered(edit.prompt_id));
        seqs::lemma_first_index(q.prompts, compose::prompt_numbered(edit.prompt_id));
        if at < q.prompts.len() && !a.counts.again {
            let r = QueueV { prompts: q.prompts.remove(at), ..q };
            sound::lemma_removed_prompt(q, r, at, a.counts.next_prompt);
        }
    }
}

pub(crate) broadcast proof fn lemma_save_blocks(a: AppV, id: u64, blocks: Seq<BlockV>)
    requires
        a.wf(),
    ensures
        (#[trigger] a.save_blocks(id, blocks)).wf(),
{
    reveal(AppV::save_blocks);
    broadcast use {lemma_edit_done, sound::group_sound};

    let q = a.live.queue;
    let at = seqs::first_index(q.prompts, compose::prompt_numbered(id));
    seqs::lemma_first_index(q.prompts, compose::prompt_numbered(id));
    if at < q.prompts.len() && !a.counts.again {
        let p = ClientQueuedPrompt { blocks, ..q.prompts[at] };
        let r = QueueV { prompts: q.prompts.update(at, p), ..q };
        sound::lemma_changed_prompt(q, r, at, p, a.counts.next_prompt);
    }
}

pub(crate) broadcast proof fn lemma_save_edit(a: AppV)
    requires
        a.wf(),
    ensures
        (#[trigger] a.save_edit()).wf(),
{
    reveal(AppV::save_edit);
    broadcast use {lemma_delete_edit, lemma_save_blocks, lemma_unstaged};
}

pub(crate) broadcast proof fn lemma_send_now_images(a: AppV, blocks: Seq<BlockV>, running: bool)
    requires
        a.wf(),
    ensures
        (#[trigger] a.send_now_images(blocks, running)).wf(),
{
    reveal(AppV::send_now_images);
    broadcast use {lemma_emit_staged, lemma_numbered};
}

pub(crate) broadcast proof fn lemma_steer_text(a: AppV, t: Seq<char>)
    requires
        a.wf(),
    ensures
        (#[trigger] a.steer_text(t)).wf(),
{
    reveal(AppV::steer_text);
    broadcast use {lemma_steering_with, lemma_numbered};
}

pub(crate) broadcast proof fn lemma_prompt_text(a: AppV, t: Seq<char>)
    requires
        a.wf(),
    ensures
        (#[trigger] a.prompt_text(t)).wf(),
{
    reveal(AppV::prompt_text);
}

pub(crate) broadcast proof fn lemma_held_back(a: AppV, blocks: Seq<BlockV>)
    requires
        a.wf(),
    ensures
        (#[trigger] a.held_back(blocks)).wf(),
{
    reveal(AppV::held_back);
    broadcast use lemma_queueing;
}

pub(crate) broadcast proof fn lemma_send_now_text(a: AppV, t: Seq<char>, running: bool)
    requires
        a.wf(),
    ensures
        (#[trigger] a.send_now_text(t, running)).wf(),
{
    reveal(AppV::send_now_text);
    broadcast use {lemma_steer_text, lemma_prompt_text};
}

pub(crate) broadcast proof fn lemma_send_now_blocks(a: AppV, blocks: Seq<BlockV>)
    requires
        a.wf(),
    ensures
        (#[trigger] a.send_now_blocks(blocks)).wf(),
{
    reveal(AppV::send_now_blocks);
    broadcast use {sense_sessions::lemma_put_away, lemma_send_now_images, lemma_send_now_text, lemma_held_back};
}

pub(crate) broadcast proof fn lemma_send_draft_now(a: AppV)
    requires
        a.wf(),
    ensures
        (#[trigger] a.send_draft_now()).wf(),
{
    reveal(AppV::send_draft_now);
    broadcast use {lemma_send_now_blocks, lemma_unstaged};
}

pub(crate) broadcast proof fn lemma_settling(a: AppV, message_id: u64, deferred: bool)
    requires
        a.wf(),
    ensures
        (#[trigger] a.settling(message_id, deferred)).wf(),
{
    broadcast use sound::group_sound;

    reveal(AppV::settling);
    seqs::lemma_first_index(a.tabs.parked, queue::steering(message_id));
}

pub(crate) broadcast proof fn lemma_scrolled_by(a: AppV, delta: int)
    requires
        a.wf(),
    ensures
        (#[trigger] a.scrolled_by(delta)).wf(),
{
    reveal(AppV::scrolled_by);
}

pub(crate) broadcast proof fn lemma_toggle_expand(a: AppV)
    requires
        a.wf(),
    ensures
        (#[trigger] a.toggle_expand()).wf(),
{
    reveal(AppV::toggle_expand);
}

pub(crate) broadcast proof fn lemma_draft_cleared(a: AppV)
    requires
        a.wf(),
    ensures
        (#[trigger] a.draft_cleared()).wf(),
{
    reveal(AppV::draft_cleared);
    broadcast use {sense_sessions::lemma_put_away, lemma_reconciled_images};
}

pub(crate) broadcast proof fn lemma_edit_cancelled(a: AppV)
    requires
        a.wf(),
    ensures
        (#[trigger] a.edit_cancelled()).wf(),
{
    broadcast use sound::group_sound;

    reveal(AppV::edit_cancelled);
    broadcast use {lemma_reconciled_images, lemma_send_next};
}

pub(crate) broadcast proof fn lemma_escape_edit(a: AppV)
    requires
        a.wf(),
    ensures
        (#[trigger] a.escape_edit()).wf(),
{
    broadcast use sound::group_sound;

    reveal(AppV::escape_edit);
    broadcast use {lemma_edit_cancelled};
}

pub(crate) broadcast proof fn lemma_escape_turn(a: AppV)
    requires
        a.wf(),
    ensures
        (#[trigger] a.escape_turn()).wf(),
{
    reveal(AppV::escape_turn);
    broadcast use {lemma_draft_cleared};
}

pub(crate) broadcast proof fn lemma_escape_draft(a: AppV)
    requires
        a.wf(),
    ensures
        (#[trigger] a.escape_draft()).wf(),
{
    reveal(AppV::escape_draft);
    broadcast use {lemma_escape_edit, lemma_escape_turn};
}

pub(crate) broadcast proof fn lemma_escape(a: AppV)
    requires
        a.wf(),
    ensures
        (#[trigger] a.escape()).wf(),
{
    reveal(AppV::escape);
    broadcast use {sense_sessions::lemma_answer_ask, lemma_escape_draft};
}

pub(crate) broadcast proof fn lemma_ctrl_c(a: AppV)
    requires
        a.wf(),
    ensures
        (#[trigger] a.ctrl_c()).wf(),
{
    reveal(AppV::ctrl_c);
    broadcast use {lemma_draft_cleared};
}

pub(crate) broadcast proof fn lemma_browse_files(a: AppV)
    requires
        a.wf(),
    ensures
        (#[trigger] a.browse_files()).wf(),
{
    reveal(AppV::browse_files);
}

pub(crate) broadcast proof fn lemma_enter(a: AppV)
    requires
        a.wf(),
    ensures
        (#[trigger] a.enter()).wf(),
{
    reveal(AppV::enter);
    broadcast use {sense_menus::lemma_take_entry, lemma_save_edit, lemma_send_head_now, sense_menus::lemma_submitted};
}

pub(crate) broadcast proof fn lemma_complete_line(a: AppV)
    requires
        a.wf(),
    ensures
        (#[trigger] a.complete_line()).wf(),
{
    reveal(AppV::complete_line);
    broadcast use {sense_menus::lemma_snapped};
}

pub(crate) broadcast proof fn lemma_cursor_up(a: AppV, e: Edit)
    requires
        a.wf(),
    ensures
        (#[trigger] a.cursor_up(e)).wf(),
{
    reveal(AppV::cursor_up);
    broadcast use {sense_menus::lemma_recall_from_draft};
}

pub(crate) broadcast proof fn lemma_delete_char(a: AppV, e: Edit, backward: bool)
    requires
        a.wf(),
    ensures
        (#[trigger] a.delete_char(e, backward)).wf(),
{
    reveal(AppV::delete_char);
    broadcast use {sense_menus::lemma_cut_chip};
}

pub(crate) broadcast proof fn lemma_copy_selection(a: AppV, k: KeyPress)
    requires
        a.wf(),
    ensures
        (#[trigger] a.copy_selection(k)).wf(),
{
    reveal(AppV::copy_selection);
}

pub(crate) broadcast proof fn lemma_cut_selection(a: AppV, k: KeyPress)
    requires
        a.wf(),
    ensures
        (#[trigger] a.cut_selection(k)).wf(),
{
    reveal(AppV::cut_selection);
}

pub(crate) broadcast proof fn lemma_act(a: AppV, action: Action, k: KeyPress)
    requires
        a.wf(),
    ensures
        (#[trigger] a.act(action, k)).wf(),
{
    reveal(AppV::act);
    broadcast use {lemma_enter, lemma_complete_line, lemma_escape, lemma_ctrl_c, sense_menus::lemma_clear_chat, sense_menus::lemma_toggle_mode, lemma_toggle_expand, lemma_send_draft_now, lemma_browse_queue, sense_menus::lemma_open_models, sense_menus::lemma_next_mode, sense_menus::lemma_next_permission, sense_menus::lemma_recall_earlier, sense_menus::lemma_recall_later, lemma_scrolled_by, sense_menus::lemma_snapped, lemma_cursor_up, lemma_delete_char, lemma_copy_selection, lemma_cut_selection};
}

pub(crate) broadcast proof fn lemma_browser_key(a: AppV, op: FileMenuOp)
    requires
        a.wf(),
    ensures
        (#[trigger] a.browser_key(op)).wf(),
{
    reveal(AppV::browser_key);
}

pub(crate) broadcast proof fn lemma_leave_queue(a: AppV)
    requires
        a.wf(),
    ensures
        (#[trigger] a.leave_queue()).wf(),
{
    reveal(AppV::leave_queue);
    broadcast use {lemma_selecting_prompt, lemma_send_next};
}

pub(crate) broadcast proof fn lemma_menu_arrow(a: AppV, up: bool)
    requires
        a.wf(),
    ensures
        (#[trigger] a.menu_arrow(up)).wf(),
{
    reveal(AppV::menu_arrow);
    broadcast use {sense_menus::lemma_try_slash_theme};
}

pub(crate) broadcast proof fn lemma_composer_key(a: AppV, k: KeyPress)
    requires
        a.wf(),
    ensures
        (#[trigger] a.composer_key(k)).wf(),
{
    broadcast use sound::group_sound;

    reveal(AppV::composer_key);
    broadcast use {lemma_selecting_prompt, lemma_edit_prompt, lemma_leave_queue, sense_sessions::lemma_begin_walk, lemma_menu_arrow, sense_menus::lemma_recall_from_draft, sense_menus::lemma_recall_later, lemma_act, lemma_reconciled_images, lemma_browse_files};
}

pub(crate) broadcast proof fn lemma_main_key(a: AppV, k: KeyPress)
    requires
        a.wf(),
    ensures
        (#[trigger] a.main_key(k)).wf(),
{
    reveal(AppV::main_key);
    broadcast use {sense_sessions::lemma_step_walk, sense_sessions::lemma_confirm_walk, sense_sessions::lemma_cancel_walk, lemma_escape, sense_sessions::lemma_begin_walk, lemma_act, lemma_reconciled_images, lemma_browse_files, lemma_browser_key, lemma_composer_key};
}

pub(crate) broadcast proof fn lemma_surface_key(a: AppV, k: KeyPress)
    requires
        a.wf(),
    ensures
        (#[trigger] a.surface_key(k)).wf(),
{
    reveal(AppV::surface_key);
    broadcast use {sense_sessions::lemma_form_key, sense_sessions::lemma_ask_key, sense_menus::lemma_view_key, sense_menus::lemma_select_key, sense_menus::lemma_slider_key, sense_menus::lemma_picker_key, sense_menus::lemma_tree_key, lemma_main_key};
}

pub(crate) broadcast proof fn lemma_key_pressed(a: AppV, k: KeyPress)
    requires
        a.wf(),
    ensures
        (#[trigger] a.key_pressed(k)).wf(),
{
    reveal(AppV::key_pressed);
    broadcast use {lemma_surface_key};
}

} // verus!
