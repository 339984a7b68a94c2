//! Keys: which of the open surfaces takes one, and what it does there.

use crate::agents;
use crate::app::{self, App, AppV, ClockV, CtrlCQuitChord, FrameV, StatusV};
use crate::asks::{self, row_above, row_below, shifted, FormStep};
use crate::bus::{Cmd, PermissionAskReply};
use crate::effect::{Effect, FileMenuOp, TranscriptOp};
use crate::input::{KeyCode, KeyEvent, KeyModifiers};
use crate::json::JsonValue;
use crate::overlays::{is_plain, no_modifiers, only_control};
use crate::screen::ChatViewV;
use crate::session::{
    self, AgentsV, AsksV, Chat, ComposerV, Edit, QueueEditState, QueueV, RunState, SlotV,
};
use crate::slash;
use crate::text;
use vstd::prelude::*;

verus! {

/// What a key means in the composer.
#[derive(Debug, Clone, Copy, PartialEq, Eq, Structural)]
pub enum Action {
    Insert(char),
    Newline,
    Enter,
    TabComplete,
    Esc,
    CtrlC,
    Quit,
    ClearScrollback,
    ToggleTheme,
    ToggleExpandAll,
    SendNow,
    EditQueuedPrompt,
    AttachClipboard,
    ModelPicker,
    CycleAgent,
    CyclePermission,
    HistoryPrev,
    HistoryNext,
    ScrollHalfUp,
    ScrollHalfDown,
    PageUp,
    PageDown,
    JumpTop,
    JumpTail,
    CursorLeft,
    CursorRight,
    CursorUp,
    CursorDown,
    WordLeft,
    WordRight,
    LineStart,
    LineEnd,
    Backspace,
    DeleteForward,
    DeleteWordBack,
    KillToEnd,
    KillToStart,
    KillLine,
    Undo,
    Redo,
    YankPaste,
    SelectLeft,
    SelectRight,
    SelectUp,
    SelectDown,
    SelectWordLeft,
    SelectWordRight,
    SelectLineStart,
    SelectLineEnd,
    CopySelection,
    CutSelection,
}

/// A key, with what the editors would make of it.
#[derive(Debug, PartialEq)]
pub struct KeyPress {
    pub key: KeyEvent,
    /// What it means in the composer as it stands.
    pub action: Option<Action>,
    /// What it means while a transcript is only read.
    pub viewer_action: Option<Action>,
    /// What modal editing makes of it, where it takes it.
    pub vim: Option<Edit>,
    /// What the editor makes of the action.
    pub edit: Edit,
    /// The text selected with the keyboard.
    pub selected: Option<String>,
    /// The characters selected with the mouse.
    pub range: Option<(usize, usize)>,
    /// What an open form makes of it.
    pub form: FormStep,
    /// Where an open slider comes to stand.
    pub slide: Option<JsonValue>,
    /// How the modifiers and the key are called, where keys are shown.
    pub debug: Option<(String, String)>,
}

/// The actions that change the text or its selection.
pub open spec fn is_edit(a: Action) -> bool {
    match a {
        Action::Insert(_) | Action::Newline | Action::Backspace | Action::DeleteForward
        | Action::DeleteWordBack | Action::KillToEnd | Action::KillToStart | Action::KillLine
        | Action::Undo | Action::Redo | Action::YankPaste | Action::SelectLeft
        | Action::SelectRight | Action::SelectUp | Action::SelectDown | Action::SelectWordLeft
        | Action::SelectWordRight | Action::SelectLineStart | Action::SelectLineEnd => true,
        _ => false,
    }
}

fn edits(a: Action) -> (r: bool)
    ensures
        r == is_edit(a),
{
    match a {
        Action::Insert(_) | Action::Newline | Action::Backspace | Action::DeleteForward
        | Action::DeleteWordBack | Action::KillToEnd | Action::KillToStart | Action::KillLine
        | Action::Undo | Action::Redo | Action::YankPaste | Action::SelectLeft
        | Action::SelectRight | Action::SelectUp | Action::SelectDown | Action::SelectWordLeft
        | Action::SelectWordRight | Action::SelectLineStart | Action::SelectLineEnd => true,
        _ => false,
    }
}

/// The actions that a transcript takes while it is only read.
pub open spec fn is_viewing(a: Action) -> bool {
    match a {
        Action::Esc | Action::Quit | Action::ToggleTheme | Action::ScrollHalfUp
        | Action::ScrollHalfDown | Action::PageUp | Action::PageDown | Action::JumpTop
        | Action::JumpTail => true,
        _ => false,
    }
}

fn views(a: Action) -> (r: bool)
    ensures
        r == is_viewing(a),
{
    match a {
        Action::Esc | Action::Quit | Action::ToggleTheme | Action::ScrollHalfUp
        | Action::ScrollHalfDown | Action::PageUp | Action::PageDown | Action::JumpTop
        | Action::JumpTail => true,
        _ => false,
    }
}

pub open spec fn only_alt() -> KeyModifiers {
    KeyModifiers { alt: true, ..no_modifiers() }
}

/// The decision that a key stands for.
pub open spec fn decision(key: KeyEvent) -> Option<Seq<char>> {
    if key.modifiers != only_alt() {
        None
    } else {
        match key.code {
            KeyCode::Char(c) => if c == '1' {
                Some("allow-version"@)
            } else if c == '2' {
                Some("allow-future"@)
            } else if c == '3' {
                Some("reject"@)
            } else {
                None
            },
            _ => None,
        }
    }
}

fn decide(key: KeyEvent) -> (r: Option<&'static str>)
    ensures
        text::opt_str_view(r) == decision(key),
{
    let m = key.modifiers;
    if !(m.alt && !m.shift && !m.control && !m.command && !m.hyper && !m.meta) {
        return None;
    }
    match key.code {
        KeyCode::Char(c) => if c == '1' {
            Some("allow-version")
        } else if c == '2' {
            Some("allow-future")
        } else if c == '3' {
            Some("reject")
        } else {
            None
        },
        _ => None,
    }
}

/// What a key asks of the open file browser.
pub open spec fn browser_op(key: KeyEvent) -> Option<FileMenuOp> {
    if key.modifiers == only_control() && key.code == KeyCode::Char('h') {
        Some(FileMenuOp::ToggleHidden)
    } else if key.modifiers != no_modifiers() {
        None
    } else {
        match key.code {
            KeyCode::Up => Some(FileMenuOp::Up),
            KeyCode::Down => Some(FileMenuOp::Down),
            KeyCode::Home => Some(FileMenuOp::Home),
            KeyCode::End => Some(FileMenuOp::End),
            KeyCode::PageUp => Some(FileMenuOp::PageUp),
            KeyCode::PageDown => Some(FileMenuOp::PageDown),
            KeyCode::Left => Some(FileMenuOp::Left),
            KeyCode::Right | KeyCode::Tab => Some(FileMenuOp::Drill),
            KeyCode::Enter => Some(FileMenuOp::Settle),
            KeyCode::Esc => Some(FileMenuOp::Dismiss),
            _ => None,
        }
    }
}

fn is_control_char(key: KeyEvent, c: char) -> (r: bool)
    ensures
        r == (key.modifiers == only_control() && key.code == KeyCode::Char(c)),
{
    let m = key.modifiers;
    let control = m.control && !m.alt && !m.shift && !m.command && !m.hyper && !m.meta;
    match key.code {
        KeyCode::Char(x) => control && x == c,
        _ => false,
    }
}

fn op_of_browser(key: KeyEvent) -> (r: Option<FileMenuOp>)
    ensures
        r == browser_op(key),
{
    if is_control_char(key, 'h') {
        return Some(FileMenuOp::ToggleHidden);
    }
    if !is_plain(key.modifiers) {
        return None;
    }
    match key.code {
        KeyCode::Up => Some(FileMenuOp::Up),
        KeyCode::Down => Some(FileMenuOp::Down),
        KeyCode::Home => Some(FileMenuOp::Home),
        KeyCode::End => Some(FileMenuOp::End),
        KeyCode::PageUp => Some(FileMenuOp::PageUp),
        KeyCode::PageDown => Some(FileMenuOp::PageDown),
        KeyCode::Left => Some(FileMenuOp::Left),
        KeyCode::Right | KeyCode::Tab => Some(FileMenuOp::Drill),
        KeyCode::Enter => Some(FileMenuOp::Settle),
        KeyCode::Esc => Some(FileMenuOp::Dismiss),
        _ => None,
    }
}

pub open spec fn toggles(a: Option<Action>) -> bool {
    a == Some(Action::ToggleTheme)
}

fn is_toggle(a: Option<Action>) -> (r: bool)
    ensures
        r == toggles(a),
{
    match a {
        Some(Action::ToggleTheme) => true,
        _ => false,
    }
}

impl AppV {
    /// The draft as the editor left it.
    pub open spec fn edited(self, e: Edit) -> AppV {
        self.with_input(ComposerV { buf: e.buf@, cursor: e.cursor, ..self.live.draft.input })
    }

    /// The chat moves by lines, away from the tail or back to it.
    #[verifier::opaque]
    pub open spec fn scrolled_by(self, delta: int) -> AppV {
        let cur = if self.live.chat.scroll_up == usize::MAX {
            if self.frame.chat.total >= self.frame.chat.area.height {
                (self.frame.chat.total - self.frame.chat.area.height) as usize
            } else {
                0
            }
        } else {
            self.live.chat.scroll_up
        };
        self.scrolled_to(shifted(cur, delta)).unpinned().redrawn()
    }

    /// The chat no longer stays at the line where the user reads.
    pub open spec fn unpinned(self) -> AppV {
        AppV {
            frame: FrameV {
                chat: ChatViewV { manual_top: None, ..self.frame.chat },
                ..self.frame
            },
            ..self
        }
    }

    #[verifier::opaque]
    pub open spec fn toggle_expand(self) -> AppV {
        let on = !self.live.chat.expand_all;
        self.with_live(
            SlotV { chat: Chat { expand_all: on, ..self.live.chat }, ..self.live },
        ).write(self.live.chat.transcript, TranscriptOp::ExpandAll(on)).tip(
            if on {
                self.says("expanded all thoughts and tool results"@, "已展开全部思考与工具输出"@)
            } else {
                self.says("collapsed all thoughts and tool results"@, "已折叠全部思考与工具输出"@)
            },
        )
    }

    #[verifier::opaque]
    pub open spec fn draft_cleared(self) -> AppV {
        self.put_away(self.live.draft.input.buf).reconciled_images().tell(
            "draft cleared — ↑ recalls it"@,
            "草稿已清空 —— ↑ 可找回"@,
        )
    }

    pub open spec fn without_form(self) -> AppV {
        match self.live.asks.form {
            Some(f) => self.with_asks(AsksV { form: None, ..self.live.asks }).emit(
                Effect::CancelForm { reply: f.reply },
            ),
            None => self,
        }
    }

    pub open spec fn with_delete_asked(self, asked: bool) -> AppV {
        match self.live.queue.edit {
            Some(e) => self.with_queue(
                QueueV {
                    edit: Some(QueueEditState { delete_confirm: asked, ..e }),
                    ..self.live.queue
                },
            ),
            None => self,
        }
    }

    /// The edit of a queued prompt is given up.
    #[verifier::opaque]
    pub open spec fn edit_cancelled(self) -> AppV {
        let a = self.edit_over().without_input_sel().dismissing(false).reconciled_images().tell(
            "queued prompt edit cancelled"@,
            "已取消编辑排队消息"@,
        );
        if self.state == RunState::Idle {
            a.send_next()
        } else {
            a
        }
    }

    #[verifier::opaque]
    pub open spec fn escape_edit(self) -> AppV {
        if agents::delete_asked(self.live.queue) {
            self.with_delete_asked(false).tell(
                "delete cancelled · still editing queued prompt"@,
                "已取消删除 · 仍在编辑这条排队消息"@,
            )
        } else {
            self.edit_cancelled()
        }
    }

    /// Escape with nothing open: a running turn is interrupted, an idle draft
    /// put away.
    #[verifier::opaque]
    pub open spec fn escape_turn(self) -> AppV {
        if self.state != RunState::Idle {
            self.emit(Effect::TryInterrupt)
        } else if self.live.draft.input.buf.len() > 0 {
            self.draft_cleared()
        } else {
            self.tell(
                "esc — idle · a running turn is interrupted with esc"@,
                "esc — 空闲 · 运行中的轮次用 esc 中断"@,
            )
        }
    }

    pub open spec fn without_selections(self) -> AppV {
        self.without_sel().without_input_sel()
    }

    #[verifier::opaque]
    pub open spec fn escape_draft(self) -> AppV {
        let had = self.pointer.sel is Some || self.pointer.input_sel is Some;
        let a = self.without_selections();
        if had && self.state == RunState::Idle {
            a.redrawn()
        } else if a.slash_open() {
            a.dismissing(true)
        } else if a.live.queue.edit is Some {
            a.escape_edit()
        } else {
            a.escape_turn()
        }
    }

    pub open spec fn back_to_root(self) -> AppV {
        self.with_agents(AgentsV { active: None, ..self.live.agents }).scrolled_to(
            0,
        ).without_sel().redrawn()
    }

    /// Escape closes what is on top.
    #[verifier::opaque]
    pub open spec fn escape(self) -> AppV {
        if self.live.asks.form is Some {
            self.without_form().redrawn()
        } else if self.live.asks.permission is Some {
            self.answer_ask(PermissionAskReply::Cancelled)
        } else if self.menu.picker is Some {
            self.with_picker(None)
        } else if self.live.agents.active is Some {
            self.back_to_root()
        } else {
            self.escape_draft()
        }
    }

    pub open spec fn harness_switching(self) -> bool {
        self.state == RunState::Starting && self.live.run.note == "switching Harness"@
    }

    pub open spec fn with_chord(self, c: Option<CtrlCQuitChord>) -> AppV {
        AppV { clock: ClockV { ctrl_c: c, ..self.clock }, ..self }
    }

    pub open spec fn quitting(self) -> AppV {
        AppV { status: StatusV { quit: true, ..self.status }, ..self }
    }

    pub open spec fn chord_after(self) -> CtrlCQuitChord {
        match self.clock.ctrl_c {
            Some(c) => CtrlCQuitChord {
                presses: if c.presses < u8::MAX {
                    (c.presses + 1) as u8
                } else {
                    c.presses
                },
                ..c
            },
            None => CtrlCQuitChord { started: self.clock.now, presses: 1, required: 2 },
        }
    }

    /// Ctrl+C clears a draft; pressed twice without one, it quits.
    #[verifier::opaque]
    pub open spec fn ctrl_c(self) -> AppV {
        let c = self.chord_after();
        if self.harness_switching() {
            self.with_chord(None).tip("Harness is switching — Ctrl+C ignored"@)
        } else if self.live.draft.input.buf.len() > 0 {
            self.with_chord(None).without_input_sel().draft_cleared()
        } else if c.presses >= c.required {
            self.with_chord(None).quitting()
        } else {
            self.with_chord(Some(c)).tip(
                if c.required - c.presses == 1 {
                    self.says("press ctrl+c again to exit"@, "再按一次 ctrl+c 退出"@)
                } else {
                    app::said1(
                        self.base.locale,
                        ("press ctrl+c "@, " more times to exit while the agent is running"@),
                        ("Agent 运行中，再按 "@, " 次 ctrl+c 退出"@),
                        text::decimal((c.required - c.presses) as nat),
                    )
                },
            )
        }
    }

    /// The file browser follows the draft.
    #[verifier::opaque]
    pub open spec fn browse_files(self) -> AppV {
        if (self.base.vim && self.base.vim_normal) || self.slash_open() {
            self.without_file_menu()
        } else {
            self.emit(Effect::FileMenu(FileMenuOp::Scan))
        }
    }

    #[verifier::opaque]
    pub open spec fn enter(self) -> AppV {
        let a = self.without_input_sel();
        if a.slash_open() {
            a.take_entry(a.slash_menu()[a.slash_line()])
        } else if a.live.queue.edit is Some {
            a.save_edit()
        } else if a.live.draft.input.buf.len() == 0 && a.live.draft.images.len() == 0
            && a.live.queue.prompts.len() > 0 {
            a.send_head_now()
        } else {
            a.submitted()
        }
    }

    #[verifier::opaque]
    pub open spec fn complete_line(self) -> AppV {
        let a = self.dismissing(false).without_input_sel();
        if a.slash_menu().len() == 0 {
            a
        } else {
            let e = a.slash_menu()[a.slash_line()];
            if e.disabled {
                a
            } else {
                a.with_input(
                    a.live.draft.input.with_text(
                        text::text_or(e.completion, "/"@ + e.name + " "@),
                    ),
                ).snapped()
            }
        }
    }

    #[verifier::opaque]
    pub open spec fn cursor_up(self, e: Edit) -> AppV {
        let a = self.edited(e);
        if self.live.queue.edit is None && e.cursor == self.live.draft.input.cursor {
            a.recall_from_draft()
        } else {
            a
        }
    }

    #[verifier::opaque]
    pub open spec fn delete_char(self, e: Edit, backward: bool) -> AppV {
        let cursor = self.live.draft.input.cursor as int;
        if self.chip_at(cursor, backward) is Some {
            self.cut_chip(cursor, backward)
        } else {
            self.edited(e)
        }
    }

    /// The text between two characters of the draft.
    pub open spec fn text_between(self, range: (usize, usize)) -> Seq<char> {
        let buf = self.live.draft.input.buf;
        if range.0 <= range.1 <= buf.len() {
            buf.subrange(range.0 as int, range.1 as int)
        } else {
            Seq::empty()
        }
    }

    pub open spec fn copied_if_any(self, t: Seq<char>) -> AppV {
        if text::trimmed(t).len() > 0 {
            self.emit(Effect::Copy(t))
        } else {
            self
        }
    }

    #[verifier::opaque]
    pub open spec fn copy_selection(self, k: KeyPress) -> AppV {
        match k.selected {
            Some(t) => self.copied_if_any(t@),
            None => match k.range {
                Some(r) => self.copied_if_any(self.text_between(r)),
                None => self,
            },
        }
    }

    pub open spec fn nothing_to_cut(self) -> AppV {
        self.tell(
            "nothing to cut — select with shift+arrows"@,
            "无可剪切 —— 用 shift+方向键先选中文本"@,
        )
    }

    #[verifier::opaque]
    pub open spec fn cut_selection(self, k: KeyPress) -> AppV {
        match k.selected {
            Some(t) => if text::trimmed(t@).len() > 0 {
                self.edited(k.edit).emit(Effect::Copy(t@))
            } else {
                self.nothing_to_cut()
            },
            None => match k.range {
                Some(r) => if text::trimmed(self.text_between(r)).len() > 0 {
                    self.with_input(
                        self.live.draft.input.without_range(r.0 as int, r.1 as int),
                    ).without_input_sel().emit(Effect::Copy(self.text_between(r)))
                } else {
                    self.nothing_to_cut()
                },
                None => self.nothing_to_cut(),
            },
        }
    }

    /// Actions on the text alone.
    pub open spec fn do_edit(self, action: Action, k: KeyPress) -> AppV {
        match action {
            Action::Insert(_) => self.edited(k.edit).snapped(),
            Action::CursorUp => self.cursor_up(k.edit),
            Action::Backspace => self.delete_char(k.edit, true),
            Action::DeleteForward => self.delete_char(k.edit, false),
            Action::CopySelection => self.copy_selection(k),
            Action::CutSelection => self.cut_selection(k),
            _ => self.edited(k.edit),
        }
    }

    /// What an action does.
    #[verifier::opaque]
    pub open spec fn act(self, action: Action, k: KeyPress) -> AppV {
        let a = if is_edit(action) {
            self.dismissing(false).without_input_sel()
        } else {
            self
        };
        match action {
            Action::Enter => a.enter(),
            Action::TabComplete => a.complete_line(),
            Action::Esc => a.escape(),
            Action::CtrlC => a.ctrl_c(),
            Action::Quit => a.quitting(),
            Action::ClearScrollback => a.clear_chat(),
            Action::ToggleTheme => a.toggle_mode(),
            Action::ToggleExpandAll => a.toggle_expand(),
            Action::SendNow => a.send_draft_now(),
            Action::EditQueuedPrompt => a.browse_queue(),
            Action::AttachClipboard => a.emit(Effect::ReadClipboard { caption: ""@ }),
            Action::ModelPicker => a.open_models(),
            Action::CycleAgent => a.next_mode(),
            Action::CyclePermission => a.next_permission(),
            Action::HistoryPrev => a.recall_earlier(),
            Action::HistoryNext => a.recall_later(),
            Action::ScrollHalfUp => a.scrolled_by(10),
            Action::ScrollHalfDown => a.scrolled_by(-10),
            Action::PageUp => a.scrolled_by(20),
            Action::PageDown => a.scrolled_by(-20),
            Action::JumpTop => a.scrolled_to(usize::MAX).unpinned(),
            Action::JumpTail => a.scrolled_to(0).unpinned(),
            _ => a.do_edit(action, k),
        }
    }

    /// A key while one walks among the subagents.
    pub open spec fn walk_key(self, key: KeyEvent) -> AppV {
        if key.modifiers != no_modifiers() {
            self
        } else {
            match key.code {
                KeyCode::Left => self.step_walk(false),
                KeyCode::Right => self.step_walk(true),
                KeyCode::Enter => self.confirm_walk(),
                KeyCode::Esc => self.cancel_walk(),
                _ => self,
            }
        }
    }

    /// A key while the transcript of a subagent is read.
    pub open spec fn viewer_key(self, k: KeyPress) -> AppV {
        if k.key.modifiers == no_modifiers() && k.key.code == KeyCode::Char('q') {
            self.escape()
        } else if k.key.modifiers == no_modifiers() && k.key.code == KeyCode::Down {
            self.begin_walk()
        } else {
            match k.viewer_action {
                Some(action) => if is_viewing(action) {
                    self.act(action, k)
                } else {
                    self
                },
                None => self,
            }
        }
    }

    #[verifier::opaque]
    pub open spec fn browser_key(self, op: FileMenuOp) -> AppV {
        if op == FileMenuOp::Dismiss {
            self.without_file_menu().emit(Effect::FileMenu(op))
        } else {
            self.emit(Effect::FileMenu(op))
        }
    }

    #[verifier::opaque]
    pub open spec fn leave_queue(self) -> AppV {
        let a = self.selecting_prompt(None).tell("queue selection closed"@, "队列选择已关闭"@);
        if self.state == RunState::Idle {
            a.send_next()
        } else {
            a
        }
    }

    /// A key while a queued prompt is chosen.
    pub open spec fn queue_key(self, key: KeyEvent, sel: usize) -> AppV {
        let n = self.live.queue.prompts.len();
        if n == 0 {
            self.selecting_prompt(None)
        } else if key.modifiers != no_modifiers() {
            self
        } else {
            match key.code {
                KeyCode::Up => self.selecting_prompt(Some(row_above(sel, n))),
                KeyCode::Down => self.selecting_prompt(Some(row_below(sel, n))),
                KeyCode::Enter => self.edit_prompt(if sel < n {
                    sel as int
                } else {
                    n - 1
                }),
                KeyCode::Esc => self.leave_queue(),
                _ => self,
            }
        }
    }

    pub open spec fn ask_delete(self) -> AppV {
        self.with_delete_asked(true).dismissing(true).tell(
            "delete queued prompt? · enter confirm · esc back"@,
            "删除这条排队消息？· enter 确认 · esc 返回"@,
        )
    }

    /// Whether the down arrow opens the walk among the subagents.
    pub open spec fn walks_down(self, key: KeyEvent) -> bool {
        key.code == KeyCode::Down && key.modifiers == no_modifiers()
            && self.live.draft.input.buf.len() == 0 && self.live.draft.input.hist_pos is None
            && self.live.agents.views.len() > 0
    }

    pub open spec fn is_arrow(self, key: KeyEvent) -> bool {
        key.modifiers == no_modifiers() && (key.code == KeyCode::Up || key.code == KeyCode::Down)
    }

    #[verifier::opaque]
    pub open spec fn menu_arrow(self, up: bool) -> AppV {
        let n = self.slash_menu().len();
        self.with_slash_sel(
            if up {
                row_above(self.menu.slash_sel, n)
            } else {
                row_below(self.menu.slash_sel, n)
            },
        ).try_slash_theme()
    }

    /// A key for the composer itself.
    #[verifier::opaque]
    pub open spec fn composer_key(self, k: KeyPress) -> AppV {
        if self.live.queue.selection is Some {
            self.queue_key(k.key, self.live.queue.selection->0)
        } else if k.key.modifiers == only_control() && k.key.code == KeyCode::Char('d')
            && self.live.queue.edit is Some {
            self.ask_delete()
        } else if self.walks_down(k.key) {
            self.begin_walk()
        } else if self.is_arrow(k.key) && self.slash_open() {
            self.menu_arrow(k.key.code == KeyCode::Up)
        } else if self.is_arrow(k.key) && self.menu.slash_dismissed && self.live.queue.edit is None {
            if k.key.code == KeyCode::Up {
                self.recall_from_draft()
            } else {
                self.recall_later()
            }
        } else {
            (match k.action {
                Some(action) => self.act(action, k),
                None => self,
            }).reconciled_images().browse_files()
        }
    }

    /// Whether modal editing sees the key.
    pub open spec fn vim_listens(self) -> bool {
        self.base.vim && self.live.asks.form is None && self.live.queue.edit is None
            && !self.slash_open()
    }

    /// A key with no popup open.
    #[verifier::opaque]
    pub open spec fn main_key(self, k: KeyPress) -> AppV {
        if self.live.agents.selection is Some {
            self.walk_key(k.key)
        } else if self.live.agents.active is Some {
            self.viewer_key(k)
        } else if self.vim_listens() && k.vim is Some {
            self.edited(k.vim->0).reconciled_images().browse_files()
        } else if self.live.draft.file_menu && browser_op(k.key) is Some {
            self.browser_key(browser_op(k.key)->0)
        } else {
            self.composer_key(k)
        }
    }

    /// A key goes to the surface on top.
    #[verifier::opaque]
    pub open spec fn surface_key(self, k: KeyPress) -> AppV {
        if self.plugins.approvals.len() > 0 && decision(k.key) is Some {
            self.send(
                Cmd::RespondCordisApproval {
                    request_id: self.plugins.approvals[0].request_id,
                    decision: decision(k.key)->0,
                },
            )
        } else if self.live.asks.form is Some {
            self.form_key(k.key, k.form)
        } else if self.live.asks.permission is Some {
            self.ask_key(k.key)
        } else if self.live.popups.view is Some {
            self.view_key(k.key)
        } else if self.menu.select is Some {
            self.select_key(k.key)
        } else if self.menu.slider is Some {
            self.slider_key(k.key, crate::bus::opt_value_view(k.slide))
        } else if self.menu.picker is Some {
            self.picker_key(k.key, toggles(k.action))
        } else if self.live.popups.tree is Some {
            self.tree_key(k.key)
        } else {
            self.main_key(k)
        }
    }

    pub open spec fn key_shown(self, debug: Option<(String, String)>) -> AppV {
        match debug {
            Some((modifiers, code)) => self.tip(
                app::said2(
                    self.base.locale,
                    ("key: "@, " + "@, ""@),
                    ("按键："@, " + "@, ""@),
                    modifiers@,
                    code@,
                ),
            ),
            None => self,
        }
    }

    #[verifier::opaque]
    pub open spec fn key_pressed(self, k: KeyPress) -> AppV {
        self.redrawn().key_shown(k.debug).surface_key(k)
    }
}

impl App {
    pub(crate) fn accept_edit(&mut self, e: &Edit)
        ensures
            final(self)@ == old(self)@.edited(*e),
    {
        proof {
            reveal(session::slot_view);
        }
        self.live.draft.input.accept(Edit { buf: e.buf.clone(), cursor: e.cursor });
    }

    fn scroll_up(&self) -> (r: usize)
        ensures
            r == self@.live.chat.scroll_up,
    {
        proof {
            reveal(session::slot_view);
        }
        self.live.chat.scroll_up
    }

    fn unpin(&mut self)
        ensures
            final(self)@ == old(self)@.unpinned(),
    {
        self.frame.chat.manual_top = None;
    }

    /// Moves the chat by lines, away from the tail or back to it.
    pub fn scroll_by(&mut self, delta: i64)
        ensures
            final(self)@ == old(self)@.scrolled_by(delta as int),
    {
        proof {
            reveal(AppV::scrolled_by);
        }
        let at = self.scroll_up();
        let height: usize = self.frame.chat.area.height as usize;
        let cur: usize = if at == usize::MAX {
            if self.frame.chat.total >= height {
                self.frame.chat.total - height
            } else {
                0
            }
        } else {
            at
        };
        self.scroll_to(asks::shift(cur, delta));
        self.unpin();
        self.redraw();
    }

    fn flip_expand(&mut self) -> (r: bool)
        ensures
            r == !old(self)@.live.chat.expand_all,
            final(self)@ == old(self)@.with_live(
                SlotV {
                    chat: Chat { expand_all: r, ..old(self)@.live.chat },
                    ..old(self)@.live
                },
            ),
    {
        proof {
            reveal(session::slot_view);
        }
        self.live.chat.expand_all = !self.live.chat.expand_all;
        self.live.chat.expand_all
    }

    fn toggle_expand_all(&mut self)
        ensures
            final(self)@ == old(self)@.toggle_expand(),
    {
        proof {
            reveal(AppV::toggle_expand);
        }
        let transcript = self.live_transcript();
        let on = self.flip_expand();
        self.write(transcript, TranscriptOp::ExpandAll(on));
        if on {
            self.tell("expanded all thoughts and tool results", "已展开全部思考与工具输出");
        } else {
            self.tell("collapsed all thoughts and tool results", "已折叠全部思考与工具输出");
        }
    }

    fn put_draft_aside(&mut self)
        ensures
            final(self)@ == old(self)@.draft_cleared(),
    {
        proof {
            reveal(AppV::draft_cleared);
        }
        let t = self.draft_text();
        self.put_draft_away(t);
        self.reconcile_attachments();
        self.tell("draft cleared — ↑ recalls it", "草稿已清空 —— ↑ 可找回");
    }

    fn cancel_form(&mut self)
        ensures
            final(self)@ == old(self)@.without_form(),
    {
        if let Some(reply) = self.take_form() {
            self.emit(Effect::CancelForm { reply });
        }
    }

    fn set_delete_asked(&mut self, asked: bool)
        ensures
            final(self)@ == old(self)@.with_delete_asked(asked),
    {
        proof {
            reveal(session::slot_view);
        }
        if let Some(e) = &mut self.live.queue.edit {
            e.delete_confirm = asked;
        }
    }

    fn cancel_edit(&mut self)
        ensures
            final(self)@ == old(self)@.edit_cancelled(),
    {
        proof {
            reveal(AppV::edit_cancelled);
        }
        let idle = matches!(self.state, RunState::Idle);
        self.end_edit();
        self.clear_input_sel();
        self.dismiss_slash(false);
        self.reconcile_attachments();
        self.tell("queued prompt edit cancelled", "已取消编辑排队消息");
        if idle {
            self.dispatch_next_queued();
        }
    }

    fn escape_queue_edit(&mut self)
        ensures
            final(self)@ == old(self)@.escape_edit(),
    {
        proof {
            reveal(AppV::escape_edit);
        }
        if self.queue_delete_confirming() {
            self.set_delete_asked(false);
            self.tell(
                "delete cancelled · still editing queued prompt",
                "已取消删除 · 仍在编辑这条排队消息",
            );
        } else {
            self.cancel_edit();
        }
    }

    fn escape_run(&mut self)
        ensures
            final(self)@ == old(self)@.escape_turn(),
    {
        proof {
            reveal(AppV::escape_turn);
        }
        if !matches!(self.state, RunState::Idle) {
            self.emit(Effect::TryInterrupt);
        } else if !self.draft_is_empty() {
            self.put_draft_aside();
        } else {
            self.tell(
                "esc — idle · a running turn is interrupted with esc",
                "esc — 空闲 · 运行中的轮次用 esc 中断",
            );
        }
    }

    fn escape_composer(&mut self)
        ensures
            final(self)@ == old(self)@.escape_draft(),
    {
        proof {
            reveal(AppV::escape_draft);
        }
        let had = self.pointer.sel.is_some() || self.pointer.input_sel.is_some();
        self.clear_chat_sel();
        self.clear_input_sel();
        if had && matches!(self.state, RunState::Idle) {
            self.redraw();
        } else if self.slash_completion_open() {
            self.dismiss_slash(true);
        } else if self.queue_editing() {
            self.escape_queue_edit();
        } else {
            self.escape_run();
        }
    }

    fn leave_agent(&mut self)
        ensures
            final(self)@ == old(self)@.back_to_root(),
    {
        proof {
            reveal(session::slot_view);
        }
        self.live.agents.active = None;
        self.live.chat.scroll_up = 0;
        self.pointer.sel = None;
        self.status.redraw = true;
    }

    fn agent_is_shown(&self) -> (r: bool)
        ensures
            r == (self@.live.agents.active is Some),
    {
        proof {
            reveal(session::slot_view);
        }
        self.live.agents.active.is_some()
    }

    pub(crate) fn handle_esc(&mut self)
        ensures
            final(self)@ == old(self)@.escape(),
    {
        proof {
            reveal(AppV::escape);
        }
        if self.has_form() {
            self.cancel_form();
            self.redraw();
        } else if self.has_ask() {
            self.finish_permission_ask(PermissionAskReply::Cancelled);
        } else if self.menu.picker.is_some() {
            self.menu.picker = None;
        } else if self.agent_is_shown() {
            self.leave_agent();
        } else {
            self.escape_composer();
        }
    }

    /// Whether another Harness is being brought up.
    pub fn harness_switch_in_progress(&self) -> (r: bool)
        ensures
            r == self@.harness_switching(),
    {
        proof {
            reveal(session::slot_view);
        }
        matches!(self.state, RunState::Starting) && text::same(
            self.live.run.note.as_str(),
            "switching Harness",
        )
    }

    fn set_chord(&mut self, c: Option<CtrlCQuitChord>)
        ensures
            final(self)@ == old(self)@.with_chord(c),
    {
        self.clock.ctrl_c = c;
    }

    fn next_chord(&self) -> (r: CtrlCQuitChord)
        ensures
            r == self@.chord_after(),
    {
        match self.clock.ctrl_c {
            Some(c) => CtrlCQuitChord {
                started: c.started,
                presses: if c.presses < u8::MAX {
                    c.presses + 1
                } else {
                    c.presses
                },
                required: c.required,
            },
            None => CtrlCQuitChord { started: self.clock.now, presses: 1, required: 2 },
        }
    }

    pub(crate) fn handle_ctrl_c(&mut self)
        ensures
            final(self)@ == old(self)@.ctrl_c(),
    {
        proof {
            reveal(AppV::ctrl_c);
        }
        let c = self.next_chord();
        if self.harness_switch_in_progress() {
            self.set_chord(None);
            self.show_tip("Harness is switching — Ctrl+C ignored".to_owned());
            return;
        }
        if !self.draft_is_empty() {
            self.set_chord(None);
            self.clear_input_sel();
            self.put_draft_aside();
            return;
        }
        if c.presses >= c.required {
            self.set_chord(None);
            self.status.quit = true;
            return;
        }
        self.set_chord(Some(c));
        let left: u8 = c.required - c.presses;
        if left == 1 {
            self.tell("press ctrl+c again to exit", "再按一次 ctrl+c 退出");
        } else {
            let n = text::decimal_string(left as u64);
            self.tell1(
                ("press ctrl+c ", " more times to exit while the agent is running"),
                ("Agent 运行中，再按 ", " 次 ctrl+c 退出"),
                n.as_str(),
            );
        }
    }

    pub(crate) fn refresh_file_menu(&mut self)
        ensures
            final(self)@ == old(self)@.browse_files(),
    {
        proof {
            reveal(AppV::browse_files);
        }
        if (self.base.vim && self.base.vim_normal) || self.slash_completion_open() {
            self.close_file_menu();
        } else {
            self.emit(Effect::FileMenu(FileMenuOp::Scan));
        }
    }

    fn press_enter(&mut self)
        ensures
            final(self)@ == old(self)@.enter(),
    {
        proof {
            reveal(AppV::enter);
        }
        self.clear_input_sel();
        let entry = self.highlighted_slash();
        if !self.menu.slash_dismissed {
            if let Some(e) = entry {
                self.accept_slash(&e);
                return;
            }
        }
        if self.queue_editing() {
            self.save_queue_edit();
        } else if self.draft_is_empty() && self.image_count() == 0 && self.queue_len() > 0 {
            self.send_queue_head_now();
        } else {
            self.submit();
        }
    }

    fn complete_slash(&mut self)
        ensures
            final(self)@ == old(self)@.complete_line(),
    {
        proof {
            reveal(AppV::complete_line);
        }
        self.dismiss_slash(false);
        self.clear_input_sel();
        if let Some(e) = self.highlighted_slash() {
            if !e.disabled {
                let t = match e.completion {
                    Some(c) => c,
                    None => text::concat3("/", e.name.as_str(), " "),
                };
                self.set_draft(t);
                self.snap_slash_sel();
            }
        }
    }

    fn move_up(&mut self, e: &Edit)
        ensures
            final(self)@ == old(self)@.cursor_up(*e),
    {
        proof {
            reveal(AppV::cursor_up);
        }
        let stays = e.cursor == self.caret();
        let editing = self.queue_editing();
        self.accept_edit(e);
        if !editing && stays {
            self.history_prev_from_draft();
        }
    }

    fn delete_one(&mut self, e: &Edit, backward: bool)
        ensures
            final(self)@ == old(self)@.delete_char(*e, backward),
    {
        proof {
            reveal(AppV::delete_char);
            reveal(AppV::cut_chip);
        }
        let cursor = self.caret();
        if !self.delete_token_at(cursor, backward) {
            self.accept_edit(e);
        }
    }

    pub(crate) fn between(&self, r: (usize, usize)) -> (t: String)
        ensures
            t@ == self@.text_between(r),
    {
        proof {
            reveal(session::slot_view);
        }
        let v = text::chars_of(self.live.draft.input.buf.as_str());
        if r.0 <= r.1 && r.1 <= v.len() {
            text::string_of_range(&v, r.0, r.1)
        } else {
            text::empty()
        }
    }

    fn copy_if_any(&mut self, t: String)
        ensures
            final(self)@ == old(self)@.copied_if_any(t@),
    {
        let trimmed = text::trim(t.as_str());
        if !trimmed.as_str().is_empty() {
            self.emit(Effect::Copy(t));
        }
    }

    fn copy_selected(&mut self, k: &KeyPress)
        ensures
            final(self)@ == old(self)@.copy_selection(*k),
    {
        proof {
            reveal(AppV::copy_selection);
        }
        match &k.selected {
            Some(t) => self.copy_if_any(t.clone()),
            None => if let Some(r) = k.range {
                let t = self.between(r);
                self.copy_if_any(t);
            },
        }
    }

    fn say_nothing_to_cut(&mut self)
        ensures
            final(self)@ == old(self)@.nothing_to_cut(),
    {
        self.tell("nothing to cut — select with shift+arrows", "无可剪切 —— 用 shift+方向键先选中文本");
    }

    fn delete_range(&mut self, r: (usize, usize))
        requires
            r.0 <= r.1 <= old(self)@.live.draft.input.buf.len(),
        ensures
            final(self)@ == old(self)@.with_input(
                old(self)@.live.draft.input.without_range(r.0 as int, r.1 as int),
            ),
    {
        proof {
            reveal(session::slot_view);
        }
        self.live.draft.input.delete_char_range(r.0, r.1);
    }

    fn cut_range(&mut self, r: (usize, usize))
        ensures
            final(self)@ == (if text::trimmed(old(self)@.text_between(r)).len() > 0 {
                old(self)@.with_input(
                    old(self)@.live.draft.input.without_range(r.0 as int, r.1 as int),
                ).without_input_sel().emit(Effect::Copy(old(self)@.text_between(r)))
            } else {
                old(self)@.nothing_to_cut()
            }),
    {
        let t = self.between(r);
        let trimmed = text::trim(t.as_str());
        if trimmed.as_str().is_empty() {
            self.say_nothing_to_cut();
        } else {
            proof {
                if !(r.0 <= r.1 <= self@.live.draft.input.buf.len()) {
                    assert(text::trimmed(Seq::<char>::empty()).len() == 0);
                }
            }
            self.delete_range(r);
            self.clear_input_sel();
            self.emit(Effect::Copy(t));
        }
    }

    fn cut_selected(&mut self, k: &KeyPress)
        ensures
            final(self)@ == old(self)@.cut_selection(*k),
    {
        proof {
            reveal(AppV::cut_selection);
        }
        match &k.selected {
            Some(t) => {
                let trimmed = text::trim(t.as_str());
                if trimmed.as_str().is_empty() {
                    self.say_nothing_to_cut();
                } else {
                    self.accept_edit(&k.edit);
                    self.emit(Effect::Copy(t.clone()));
                }
            },
            None => match k.range {
                Some(r) => self.cut_range(r),
                None => self.say_nothing_to_cut(),
            },
        }
    }

    fn edit(&mut self, action: Action, k: &KeyPress)
        ensures
            final(self)@ == old(self)@.do_edit(action, *k),
    {
        match action {
            Action::Insert(_) => {
                self.accept_edit(&k.edit);
                self.snap_slash_sel();
            },
            Action::CursorUp => self.move_up(&k.edit),
            Action::Backspace => self.delete_one(&k.edit, true),
            Action::DeleteForward => self.delete_one(&k.edit, false),
            Action::CopySelection => self.copy_selected(k),
            Action::CutSelection => self.cut_selected(k),
            _ => self.accept_edit(&k.edit),
        }
    }

    pub(crate) fn dispatch(&mut self, action: Action, k: &KeyPress)
        ensures
            final(self)@ == old(self)@.act(action, *k),
    {
        proof {
            reveal(AppV::act);
        }
        if edits(action) {
            self.dismiss_slash(false);
            self.clear_input_sel();
        }
        match action {
            Action::Enter => self.press_enter(),
            Action::TabComplete => self.complete_slash(),
            Action::Esc => self.handle_esc(),
            Action::CtrlC => self.handle_ctrl_c(),
            Action::Quit => {
                self.status.quit = true;
            },
            Action::ClearScrollback => self.clear_scrollback(),
            Action::ToggleTheme => self.toggle_theme_mode(),
            Action::ToggleExpandAll => self.toggle_expand_all(),
            Action::SendNow => self.send_now(),
            Action::EditQueuedPrompt => self.open_queue_selector(),
            Action::AttachClipboard => self.emit(Effect::ReadClipboard { caption: "".to_owned() }),
            Action::ModelPicker => self.open_model_picker(),
            Action::CycleAgent => self.cycle_agent(),
            Action::CyclePermission => self.cycle_permission(),
            Action::HistoryPrev => self.history_prev(),
            Action::HistoryNext => self.history_next(),
            Action::ScrollHalfUp => self.scroll_by(10),
            Action::ScrollHalfDown => self.scroll_by(-10),
            Action::PageUp => self.scroll_by(20),
            Action::PageDown => self.scroll_by(-20),
            Action::JumpTop => {
                self.scroll_to(usize::MAX);
                self.unpin();
            },
            Action::JumpTail => {
                self.scroll_to(0);
                self.unpin();
            },
            _ => self.edit(action, k),
        }
    }

    fn handle_walk_key(&mut self, key: KeyEvent)
        ensures
            final(self)@ == old(self)@.walk_key(key),
    {
        if !is_plain(key.modifiers) {
            return;
        }
        match key.code {
            KeyCode::Left => self.move_agent_selection(false),
            KeyCode::Right => self.move_agent_selection(true),
            KeyCode::Enter => self.confirm_agent_selection(),
            KeyCode::Esc => self.cancel_agent_selection(),
            _ => {},
        }
    }

    fn handle_viewer_key(&mut self, k: &KeyPress)
        ensures
            final(self)@ == old(self)@.viewer_key(*k),
    {
        let plain = is_plain(k.key.modifiers);
        let is_q = match k.key.code {
            KeyCode::Char(c) => c == 'q',
            _ => false,
        };
        if plain && is_q {
            self.handle_esc();
        } else if plain && matches!(k.key.code, KeyCode::Down) {
            self.begin_agent_navigation();
        } else if let Some(action) = k.viewer_action {
            if views(action) {
                self.dispatch(action, k);
            }
        }
    }

    fn handle_browser_key(&mut self, op: FileMenuOp)
        ensures
            final(self)@ == old(self)@.browser_key(op),
    {
        proof {
            reveal(AppV::browser_key);
        }
        if matches!(op, FileMenuOp::Dismiss) {
            self.close_file_menu();
        }
        self.emit(Effect::FileMenu(op));
    }

    fn close_queue(&mut self)
        ensures
            final(self)@ == old(self)@.leave_queue(),
    {
        proof {
            reveal(AppV::leave_queue);
        }
        let idle = matches!(self.state, RunState::Idle);
        self.select_prompt(None);
        self.tell("queue selection closed", "队列选择已关闭");
        if idle {
            self.dispatch_next_queued();
        }
    }

    fn handle_queue_key(&mut self, key: KeyEvent, sel: usize)
        ensures
            final(self)@ == old(self)@.queue_key(key, sel),
    {
        let n = self.queue_len();
        if n == 0 {
            self.select_prompt(None);
            return;
        }
        if !is_plain(key.modifiers) {
            return;
        }
        match key.code {
            KeyCode::Up => self.select_prompt(Some(asks::above(sel, n))),
            KeyCode::Down => self.select_prompt(Some(asks::below(sel, n))),
            KeyCode::Enter => self.begin_queue_edit_at(if sel < n { sel } else { n - 1 }),
            KeyCode::Esc => self.close_queue(),
            _ => {},
        }
    }

    fn ask_to_delete(&mut self)
        ensures
            final(self)@ == old(self)@.ask_delete(),
    {
        self.set_delete_asked(true);
        self.dismiss_slash(true);
        self.tell(
            "delete queued prompt? · enter confirm · esc back",
            "删除这条排队消息？· enter 确认 · esc 返回",
        );
    }

    fn goes_walking(&self, key: KeyEvent) -> (r: bool)
        ensures
            r == self@.walks_down(key),
    {
        proof {
            reveal(session::slot_view);
        }
        matches!(key.code, KeyCode::Down) && is_plain(key.modifiers)
            && self.live.draft.input.is_empty() && self.live.draft.input.hist_pos.is_none()
            && self.live.agents.views.len() > 0
    }

    fn move_in_menu(&mut self, up: bool)
        ensures
            final(self)@ == old(self)@.menu_arrow(up),
    {
        proof {
            reveal(AppV::menu_arrow);
        }
        let v = self.slash_matches();
        let n = v.len();
        assert(slash::entries_view(v@).len() == n);
        let sel = if up {
            asks::above(self.menu.slash_sel, n)
        } else {
            asks::below(self.menu.slash_sel, n)
        };
        self.set_slash_sel(sel);
        self.preview_slash_theme();
    }

    fn queue_choice(&self) -> (r: Option<usize>)
        ensures
            r == self@.live.queue.selection,
    {
        proof {
            reveal(session::slot_view);
        }
        self.live.queue.selection
    }

    fn handle_composer_key(&mut self, k: &KeyPress)
        ensures
            final(self)@ == old(self)@.composer_key(*k),
    {
        proof {
            reveal(AppV::composer_key);
        }
        if let Some(sel) = self.queue_choice() {
            self.handle_queue_key(k.key, sel);
            return;
        }
        let editing = self.queue_editing();
        if is_control_char(k.key, 'd') && editing {
            self.ask_to_delete();
            return;
        }
        if self.goes_walking(k.key) {
            self.begin_agent_navigation();
            return;
        }
        let up = matches!(k.key.code, KeyCode::Up);
        let arrow = is_plain(k.key.modifiers) && (up || matches!(k.key.code, KeyCode::Down));
        if arrow && self.slash_completion_open() {
            self.move_in_menu(up);
            return;
        }
        if arrow && self.menu.slash_dismissed && !editing {
            if up {
                self.history_prev_from_draft();
            } else {
                self.history_next();
            }
            return;
        }
        if let Some(action) = k.action {
            self.dispatch(action, k);
        }
        self.reconcile_attachments();
        self.refresh_file_menu();
    }

    /// Whether modal editing is to see the next key.
    pub fn wants_vim(&self) -> (r: bool)
        ensures
            r == self@.vim_listens(),
    {
        self.base.vim && !self.has_form() && !self.queue_editing() && !self.slash_completion_open()
    }

    fn is_walking(&self) -> (r: bool)
        ensures
            r == (self@.live.agents.selection is Some),
    {
        proof {
            reveal(session::slot_view);
        }
        self.live.agents.selection.is_some()
    }

    pub(crate) fn is_browsing(&self) -> (r: bool)
        ensures
            r == self@.live.draft.file_menu,
    {
        proof {
            reveal(session::slot_view);
        }
        self.live.draft.file_menu
    }

    fn handle_main_key(&mut self, k: &KeyPress)
        ensures
            final(self)@ == old(self)@.main_key(*k),
    {
        proof {
            reveal(AppV::main_key);
        }
        if self.is_walking() {
            self.handle_walk_key(k.key);
            return;
        }
        if self.agent_is_shown() {
            self.handle_viewer_key(k);
            return;
        }
        if self.wants_vim() {
            if let Some(e) = &k.vim {
                self.accept_edit(e);
                self.reconcile_attachments();
                self.refresh_file_menu();
                return;
            }
        }
        if self.is_browsing() {
            if let Some(op) = op_of_browser(k.key) {
                self.handle_browser_key(op);
                return;
            }
        }
        self.handle_composer_key(k);
    }

    fn decide_first(&mut self, decision: &str)
        requires
            old(self)@.plugins.approvals.len() > 0,
        ensures
            final(self)@ == old(self)@.send(
                Cmd::RespondCordisApproval {
                    request_id: old(self)@.plugins.approvals[0].request_id,
                    decision: decision@,
                },
            ),
    {
        assert(self@.plugins.approvals[0] == self.plugins.approvals@[0]@);
        let request_id = self.plugins.approvals[0].request_id.clone();
        self.send(Cmd::RespondCordisApproval { request_id, decision: decision.to_owned() });
    }

    fn handle_surface_key(&mut self, k: KeyPress)
        ensures
            final(self)@ == old(self)@.surface_key(k),
    {
        proof {
            reveal(AppV::surface_key);
        }
        assert(self@.plugins.approvals.len() == self.plugins.approvals@.len());
        if self.plugins.approvals.len() > 0 {
            if let Some(d) = decide(k.key) {
                self.decide_first(d);
                return;
            }
        }
        if self.has_form() {
            self.handle_elicitation_key(k.key, k.form);
        } else if self.has_ask() {
            self.handle_permission_ask_key(k.key);
        } else if self.has_view() {
            self.handle_view_key(k.key);
        } else if self.menu.select.is_some() {
            self.handle_select_key(k.key);
        } else if self.menu.slider.is_some() {
            self.handle_slider_key(k.key, k.slide);
        } else if self.menu.picker.is_some() {
            self.handle_picker_key(k.key, is_toggle(k.action));
        } else if self.has_tree() {
            self.handle_plugin_tree_key(k.key);
        } else {
            self.handle_main_key(&k);
        }
    }

    fn show_key(&mut self, debug: &Option<(String, String)>)
        ensures
            final(self)@ == old(self)@.key_shown(*debug),
    {
        if let Some(d) = debug {
            let t = app::say2(
                self.base.locale,
                ("key: ", " + ", ""),
                ("按键：", " + ", ""),
                d.0.as_str(),
                d.1.as_str(),
            );
            self.show_tip(t);
        }
    }

    /// Takes a key.
    pub(crate) fn handle_key(&mut self, k: KeyPress)
        ensures
            final(self)@ == old(self)@.key_pressed(k),
    {
        proof {
            reveal(AppV::key_pressed);
        }
        self.redraw();
        self.show_key(&k.debug);
        self.handle_surface_key(k);
    }
}

} // verus!
