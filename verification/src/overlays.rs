//! Keys and the wheel over popups and lists.

use crate::app::{self, App, AppV, MenuV, SliderOverlay, SliderV};
use crate::asks::{self, moved_within, row_above, row_below, shifted};
use crate::bus::{Cmd, CmdV, CordisPluginItem};
use crate::effect::NoticeLevel;
use crate::input::{KeyCode, KeyEvent, KeyModifiers};
use crate::json::{self, Json, JsonValue};
use crate::lists::Row;
use crate::picker::{Picker, PickerItem, PickerKind};
use crate::select::{self, SelectOption, SelectOverlay, SelectV};
use crate::seqs;
use crate::session::{self, Modes, PopupsV, SlotV, ViewOverlay};
use crate::text;
use crate::tree::{PluginTreeV, tree_after_key, tree_scrolled};
use vstd::prelude::*;

verus! {

pub open spec fn no_modifiers() -> KeyModifiers {
    KeyModifiers {
        shift: false,
        alt: false,
        control: false,
        command: false,
        hyper: false,
        meta: false,
    }
}

pub open spec fn only_shift() -> KeyModifiers {
    KeyModifiers { shift: true, ..no_modifiers() }
}

pub open spec fn only_control() -> KeyModifiers {
    KeyModifiers { control: true, ..no_modifiers() }
}

pub(crate) fn is_plain(m: KeyModifiers) -> (r: bool)
    ensures
        r == (m == no_modifiers()),
{
    !m.shift && !m.alt && !m.control && !m.command && !m.hyper && !m.meta
}

fn is_only_shift(m: KeyModifiers) -> (r: bool)
    ensures
        r == (m == only_shift()),
{
    m.shift && !m.alt && !m.control && !m.command && !m.hyper && !m.meta
}

fn is_only_control(m: KeyModifiers) -> (r: bool)
    ensures
        r == (m == only_control()),
{
    m.control && !m.shift && !m.alt && !m.command && !m.hyper && !m.meta
}

pub open spec fn overlay_event(id: Seq<char>, event: Seq<char>, value: Option<Json>) -> CmdV {
    Cmd::PluginOverlayEvent { id, event, value }
}

// --- the choice of a plugin ---------------------------------------------------------

/// How many characters a search can hold.
pub const QUERY_LIMIT: usize = 256;

/// The query after a key that edits it.
pub open spec fn query_after(q: Seq<char>, key: KeyEvent) -> Option<Seq<char>> {
    match key.code {
        KeyCode::Char(c) => if c == 'u' && key.modifiers == only_control() {
            Some(Seq::empty())
        } else if (key.modifiers == no_modifiers() || key.modifiers == only_shift())
            && !text::control(c) {
            Some(if q.len() < QUERY_LIMIT {
                q.push(c)
            } else {
                q
            })
        } else {
            None
        },
        KeyCode::Backspace => if key.modifiers == no_modifiers() {
            Some(if q.len() > 0 {
                q.drop_last()
            } else {
                q
            })
        } else {
            None
        },
        _ => None,
    }
}

fn edit_query(q: &str, key: KeyEvent) -> (r: Option<String>)
    ensures
        text::opt_view(r) == query_after(q@, key),
{
    match key.code {
        KeyCode::Char(c) => if c == 'u' && is_only_control(key.modifiers) {
            Some(text::empty())
        } else if (is_plain(key.modifiers) || is_only_shift(key.modifiers)) && !text::is_control(
            c,
        ) {
            let mut v = text::chars_of(q);
            if v.len() < QUERY_LIMIT {
                v.push(c);
            }
            Some(text::string_of(&v))
        } else {
            None
        },
        KeyCode::Backspace => if is_plain(key.modifiers) {
            let v = text::chars_of(q);
            let n: usize = if v.len() > 0 {
                v.len() - 1
            } else {
                0
            };
            let t = text::string_of_range(&v, 0, n);
            assert(t@ =~= (if q@.len() > 0 {
                q@.drop_last()
            } else {
                q@
            }));
            Some(t)
        } else {
            None
        },
        _ => None,
    }
}

pub open spec fn selected_option(s: SelectV) -> Option<SelectOption<Seq<char>>> {
    if s.sel < s.options.len() {
        Some(s.options[s.sel as int])
    } else {
        None
    }
}

pub open spec fn can_delete(s: SelectV) -> bool {
    select::visible(s).len() > 0 && selected_option(s) is Some && selected_option(s)->0.deletable
        && !selected_option(s)->0.disabled
}

pub open spec fn can_submit(s: SelectV) -> bool {
    select::visible(s).len() > 0 && selected_option(s) is Some && !selected_option(s)->0.disabled
}

pub open spec fn is_number(n: usize) -> spec_fn(usize) -> bool {
    |x: usize| x == n
}

/// The row that a key moves the selection to.
pub open spec fn row_after_key(s: SelectV, code: KeyCode) -> Option<usize> {
    let rows = select::visible(s);
    let found = seqs::first_index(rows, is_number(s.sel));
    let at = if found < rows.len() {
        found
    } else {
        0
    };
    if rows.len() == 0 {
        None
    } else {
        match code {
            KeyCode::Up => Some(rows[if at > 0 {
                at - 1
            } else {
                0
            }]),
            KeyCode::Down => Some(rows[if at + 1 < rows.len() {
                at + 1
            } else {
                at
            }]),
            KeyCode::Home => Some(rows[0]),
            KeyCode::End => Some(rows[rows.len() - 1]),
            _ => None,
        }
    }
}

pub open spec fn select_moved(s: SelectV, sel: usize) -> SelectV {
    let m = SelectOverlay { sel, ..s };
    SelectOverlay { value: select::selected_value(m), ..m }
}

fn find_number(v: &Vec<usize>, n: usize) -> (r: usize)
    ensures
        r == seqs::first_index(v@, is_number(n)),
        r <= v@.len(),
{
    let mut i: usize = 0;
    while i < v.len() && v[i] != n
        invariant
            i <= v@.len(),
            forall|k: int| 0 <= k < i ==> !is_number(n)(#[trigger] v@[k]),
        decreases v@.len() - i,
    {
        i = i + 1;
    }
    proof {
        seqs::lemma_first_index_is(v@, is_number(n), i as int);
    }
    i
}

fn next_row(s: &SelectOverlay, code: KeyCode) -> (r: Option<usize>)
    ensures
        r == row_after_key(s@, code),
{
    let rows = s.visible_indices();
    if rows.len() == 0 {
        return None;
    }
    let found = find_number(&rows, s.sel);
    let at: usize = if found < rows.len() {
        found
    } else {
        0
    };
    match code {
        KeyCode::Up => Some(rows[if at > 0 { at - 1 } else { 0 }]),
        KeyCode::Down => Some(rows[if at < rows.len() - 1 { at + 1 } else { at }]),
        KeyCode::Home => Some(rows[0]),
        KeyCode::End => Some(rows[rows.len() - 1]),
        _ => None,
    }
}

fn may_delete(s: &SelectOverlay) -> (r: bool)
    ensures
        r == can_delete(s@),
{
    let rows = s.visible_indices();
    if rows.len() == 0 || s.sel >= s.options.len() {
        return false;
    }
    assert(s@.options[s.sel as int] == s.options@[s.sel as int]@);
    s.options[s.sel].deletable && !s.options[s.sel].disabled
}

fn may_submit(s: &SelectOverlay) -> (r: bool)
    ensures
        r == can_submit(s@),
{
    let rows = s.visible_indices();
    if rows.len() == 0 || s.sel >= s.options.len() {
        return false;
    }
    assert(s@.options[s.sel as int] == s.options@[s.sel as int]@);
    !s.options[s.sel].disabled
}

// --- lists ----------------------------------------------------------------------------

pub open spec fn plugin_named(id: Seq<char>) -> spec_fn(CordisPluginItem<Seq<char>>) -> bool {
    |p: CordisPluginItem<Seq<char>>| p.id == id
}

fn find_dynamic(v: &Vec<CordisPluginItem>, id: &str) -> (r: usize)
    ensures
        r == seqs::first_index(app::dynamic_view(v@), plugin_named(id@)),
        r <= v@.len(),
{
    let ghost all = app::dynamic_view(v@);
    let mut i: usize = 0;
    while i < v.len() && !text::same(v[i].id.as_str(), id)
        invariant
            i <= v@.len(),
            all == app::dynamic_view(v@),
            forall|k: int| 0 <= k < i ==> !plugin_named(id@)(#[trigger] all[k]),
        decreases v@.len() - i,
    {
        assert(all[i as int] == v@[i as int]@);
        i = i + 1;
    }
    proof {
        seqs::lemma_first_index_is(all, plugin_named(id@), i as int);
    }
    i
}

/// The row that a key moves to in a list with `len` rows, `page` of them in
/// sight. Only the arrows go round.
pub open spec fn list_row(sel: usize, len: nat, page: int, code: KeyCode) -> Option<usize> {
    match code {
        KeyCode::Up => Some(row_above(sel, len)),
        KeyCode::Down => Some(row_below(sel, len)),
        KeyCode::PageUp => Some(shifted(sel, -page)),
        KeyCode::PageDown => Some(moved_within(sel, page, len)),
        KeyCode::Home => Some(0),
        KeyCode::End => Some(if len > 0 {
            (len - 1) as usize
        } else {
            0
        }),
        _ => None,
    }
}

fn row_by_key(sel: usize, len: usize, page: usize, code: KeyCode) -> (r: Option<usize>)
    ensures
        r == list_row(sel, len as nat, page as int, code),
{
    let last: usize = if len > 0 {
        len - 1
    } else {
        0
    };
    match code {
        KeyCode::Up => Some(asks::above(sel, len)),
        KeyCode::Down => Some(asks::below(sel, len)),
        KeyCode::PageUp => Some(if sel < page { 0 } else { sel - page }),
        KeyCode::PageDown => {
            let far: usize = if sel > usize::MAX - page {
                usize::MAX
            } else {
                sel + page
            };
            Some(if far <= last { far } else { last })
        },
        KeyCode::Home => Some(0),
        KeyCode::End => Some(last),
        _ => None,
    }
}

impl AppV {
    pub open spec fn with_select(self, s: Option<SelectV>) -> AppV {
        AppV { menu: MenuV { select: s, ..self.menu }, ..self }
    }

    pub open spec fn with_slider(self, s: Option<SliderV>) -> AppV {
        AppV { menu: MenuV { slider: s, ..self.menu }, ..self }
    }

    pub open spec fn select_done(self, s: SelectV, event: Seq<char>) -> AppV {
        self.with_select(None).send(
            overlay_event(s.id, event, Some(Json::Str(select::selected_value(s)))),
        )
    }

    pub open spec fn select_steps(self, s: SelectV, code: KeyCode) -> AppV {
        match row_after_key(s, code) {
            Some(row) => if row == s.sel {
                self
            } else {
                self.with_select(Some(select_moved(s, row))).send(
                    overlay_event(
                        s.id,
                        "change"@,
                        Some(Json::Str(select_moved(s, row).value)),
                    ),
                )
            },
            None => self,
        }
    }

    /// A key over the choice of a plugin.
    #[verifier::opaque]
    pub open spec fn select_key(self, key: KeyEvent) -> AppV {
        match self.menu.select {
            None => self,
            Some(s) => if s.searchable && query_after(s.query, key) is Some {
                self.with_select(
                    Some(
                        select::reconciled(
                            SelectOverlay { query: query_after(s.query, key)->0, ..s },
                        ),
                    ),
                )
            } else if key.modifiers != no_modifiers() {
                self
            } else {
                match key.code {
                    KeyCode::Delete | KeyCode::Backspace => if can_delete(s) {
                        self.select_done(s, "delete"@)
                    } else {
                        self
                    },
                    KeyCode::Enter => if can_submit(s) {
                        self.select_done(s, "submit"@)
                    } else {
                        self
                    },
                    KeyCode::Esc => self.select_done(s, "cancel"@),
                    _ => self.select_steps(s, key.code),
                }
            },
        }
    }

    /// A key over a slider. `slide` is where it comes to stand.
    #[verifier::opaque]
    pub open spec fn slider_key(self, key: KeyEvent, slide: Option<Json>) -> AppV {
        match self.menu.slider {
            None => self,
            Some(s) => if key.modifiers != no_modifiers() {
                self
            } else {
                match key.code {
                    KeyCode::Enter => self.with_slider(None).send(
                        overlay_event(
                            s.id,
                            "submit"@,
                            Some(match slide {
                                Some(v) => v,
                                None => s.value,
                            }),
                        ),
                    ),
                    KeyCode::Esc => self.with_slider(None).send(
                        overlay_event(s.id, "cancel"@, Some(s.value)),
                    ),
                    KeyCode::Left | KeyCode::Right => match slide {
                        Some(v) => self.with_slider(Some(SliderV { id: s.id, value: v })).send(
                            overlay_event(s.id, "change"@, Some(v)),
                        ),
                        None => self,
                    },
                    _ => self,
                }
            },
        }
    }

    pub open spec fn view_at(self, scroll: usize) -> AppV {
        match self.live.popups.view {
            Some(v) => self.with_view(Some(ViewOverlay { scroll, ..v })).redrawn(),
            None => self,
        }
    }

    pub open spec fn view_scrolled(self, delta: int) -> AppV {
        match self.live.popups.view {
            Some(v) => self.view_at(shifted(v.scroll, delta)),
            None => self,
        }
    }

    pub open spec fn view_done(self, event: Seq<char>) -> AppV {
        match self.live.popups.view {
            Some(v) => if v.notify_plugin {
                self.with_view(None).send(overlay_event(v.id, event, None))
            } else {
                self.with_view(None)
            },
            None => self,
        }
    }

    /// A key over a popup that is only read.
    #[verifier::opaque]
    pub open spec fn view_key(self, key: KeyEvent) -> AppV {
        match key.code {
            KeyCode::Up => self.view_scrolled(-1),
            KeyCode::Down => self.view_scrolled(1),
            KeyCode::PageUp => self.view_scrolled(-5),
            KeyCode::PageDown => self.view_scrolled(5),
            KeyCode::Home => self.view_at(0),
            KeyCode::End => self.view_at(usize::MAX),
            KeyCode::Esc => if key.modifiers == no_modifiers() {
                self.view_done("cancel"@)
            } else {
                self
            },
            KeyCode::Enter => if key.modifiers == no_modifiers() {
                self.view_done("submit"@)
            } else {
                self
            },
            _ => self,
        }
    }

    pub open spec fn with_tree(self, t: Option<PluginTreeV>) -> AppV {
        self.with_live(SlotV { popups: PopupsV { tree: t, ..self.live.popups }, ..self.live })
    }

    pub open spec fn tree_page(self) -> int {
        if self.frame.tree_rows > 0 {
            self.frame.tree_rows as int
        } else {
            1
        }
    }

    /// A key over the inventory of plugins.
    #[verifier::opaque]
    pub open spec fn tree_key(self, key: KeyEvent) -> AppV {
        if key.modifiers != no_modifiers() {
            self
        } else if key.code == KeyCode::Esc {
            self.with_tree(None)
        } else {
            match self.live.popups.tree {
                Some(t) => self.with_tree(
                    Some(
                        PluginTreeV { tree: tree_after_key(t.tree, key.code, self.tree_page()), ..t },
                    ),
                ),
                None => self,
            }
        }
    }

    #[verifier::opaque]
    pub open spec fn tree_wheel(self, up: bool, lines: int) -> AppV {
        match self.live.popups.tree {
            Some(t) => self.with_tree(
                Some(PluginTreeV { tree: tree_scrolled(t.tree, up, lines), ..t }),
            ),
            None => self,
        }
    }

    pub open spec fn picker_page(self) -> int {
        if self.frame.picker_rows > 0 {
            self.frame.picker_rows as int
        } else {
            1
        }
    }

    /// The highlight of a list moves; a palette under it is tried out.
    #[verifier::opaque]
    pub open spec fn at_row(self, sel: usize) -> AppV {
        match self.menu.picker {
            Some(p) => {
                let a = self.with_picker(Some(Picker { sel, ..p }));
                if p.kind == PickerKind::Theme && sel != p.sel {
                    a.try_picker_theme()
                } else {
                    a
                }
            },
            None => self,
        }
    }

    #[verifier::opaque]
    pub open spec fn picker_wheel(self, delta: int) -> AppV {
        match self.menu.picker {
            Some(p) => self.redrawn().at_row(moved_within(p.sel, delta, p.items.len())),
            None => self,
        }
    }

    #[verifier::opaque]
    pub open spec fn choose_effort(self, effort: Seq<char>) -> AppV {
        self.with_live(
            SlotV { modes: Modes { effort: Some(effort), ..self.live.modes }, ..self.live },
        ).send(
            Cmd::SelectModel {
                session_id: self.live.id,
                provider: None,
                model: None,
                effort: Some(effort),
            },
        ).notice(
            NoticeLevel::Info,
            app::said1(
                self.base.locale,
                ("reasoning effort → "@, ""@),
                ("推理强度 → "@, ""@),
                effort,
            ),
        )
    }

    /// A dynamic plugin is started, stopped or decided on.
    #[verifier::opaque]
    pub open spec fn manage_plugin(self, id: Seq<char>) -> AppV {
        match seqs::first(self.plugins.dynamic, plugin_named(id)) {
            None => self,
            Some(p) => match p.approval_request_id {
                Some(request) => self.open_approval(request),
                None => if p.status == "starting-host"@ || p.status == "client-pending"@ {
                    self.tell1(
                        ("plugin "@, " is already starting"@),
                        ("插件 "@, " 已在启动中"@),
                        p.id,
                    )
                } else if p.status == "running"@ || p.status == "waiting"@ {
                    self.send(
                        Cmd::SetCordisPluginEnabled {
                            agent_id: self.live.id,
                            plugin_id: p.id,
                            enabled: false,
                        },
                    ).tell1(("stopping plugin "@, "…"@), ("正在停止插件 "@, "…"@), p.id)
                } else {
                    self.send(
                        Cmd::SetCordisPluginEnabled {
                            agent_id: self.live.id,
                            plugin_id: p.id,
                            enabled: true,
                        },
                    ).tell1(("restoring plugin "@, "…"@), ("正在恢复插件 "@, "…"@), p.id)
                },
            },
        }
    }

    /// A row of a list is chosen.
    #[verifier::opaque]
    pub open spec fn choose_row(self, kind: PickerKind, item: Row) -> AppV {
        match kind {
            PickerKind::Model => self.choose_model(item.id, item.provider),
            PickerKind::Mode => self.ask_mode(item.id),
            PickerKind::Theme => self.pick_palette(item.id),
            PickerKind::UiPlugin => self.send(
                Cmd::PluginUiSelected { agent_id: self.live.id, id: item.id },
            ),
            PickerKind::Permission => self.ask_permission(item.id),
            PickerKind::Session => if self.resume.via_agent {
                self.resume_agent(item.id)
            } else {
                self.resume_log(item.id)
            },
            PickerKind::Effort => self.choose_effort(item.id),
            PickerKind::Auth => self.sign_in(item.id),
            PickerKind::CordisPlugin => self.manage_plugin(item.id),
            PickerKind::CordisApproval => match item.provider {
                Some(request_id) => self.send(
                    Cmd::RespondCordisApproval { request_id, decision: item.id },
                ),
                None => self,
            },
            PickerKind::AgentHistory => self.show_agent(item.id),
        }
    }

    /// A key over a list. `toggles` tells that the key toggles the theme.
    #[verifier::opaque]
    pub open spec fn picker_key(self, key: KeyEvent, toggles: bool) -> AppV {
        match self.menu.picker {
            None => self,
            Some(p) => if p.kind == PickerKind::Theme && toggles {
                self.toggle_mode()
            } else {
                match key.code {
                    KeyCode::Esc => self.with_picker(None),
                    KeyCode::Enter => if p.sel < p.items.len() {
                        self.with_picker(None).choose_row(p.kind, p.items[p.sel as int])
                    } else {
                        self.with_picker(None)
                    },
                    _ => match list_row(p.sel, p.items.len(), self.picker_page(), key.code) {
                        Some(row) => self.at_row(row),
                        None => self,
                    },
                }
            },
        }
    }
}

impl App {
    fn search(&mut self, key: KeyEvent) -> (r: bool)
        ensures
            r == (old(self)@.menu.select is Some && old(self)@.menu.select->0.searchable
                && query_after(old(self)@.menu.select->0.query, key) is Some),
            r ==> final(self)@ == old(self)@.with_select(
                Some(
                    select::reconciled(
                        SelectOverlay {
                            query: query_after(old(self)@.menu.select->0.query, key)->0,
                            ..old(self)@.menu.select->0
                        },
                    ),
                ),
            ),
            !r ==> final(self)@ == old(self)@,
    {
        if let Some(s) = &mut self.menu.select {
            if s.searchable {
                if let Some(q) = edit_query(s.query.as_str(), key) {
                    s.query = q;
                    s.reconcile_search();
                    return true;
                }
            }
        }
        false
    }

    fn close_select(&mut self, event: &str)
        requires
            old(self)@.menu.select is Some,
        ensures
            final(self)@ == old(self)@.select_done(old(self)@.menu.select->0, event@),
    {
        if let Some(s) = self.menu.select.take() {
            let value = s.current_value();
            self.send(
                Cmd::PluginOverlayEvent {
                    id: s.id,
                    event: event.to_owned(),
                    value: Some(JsonValue::Str(value)),
                },
            );
        }
    }

    fn move_select(&mut self, sel: usize)
        requires
            old(self)@.menu.select is Some,
        ensures
            final(self)@ == old(self)@.with_select(
                Some(select_moved(old(self)@.menu.select->0, sel)),
            ),
    {
        if let Some(s) = &mut self.menu.select {
            s.sel = sel;
            let value = s.current_value();
            s.value = value;
        }
    }

    fn step_select(&mut self, code: KeyCode)
        requires
            old(self)@.menu.select is Some,
        ensures
            final(self)@ == old(self)@.select_steps(old(self)@.menu.select->0, code),
    {
        let (row, sel, id) = match &self.menu.select {
            Some(s) => (next_row(s, code), s.sel, s.id.clone()),
            None => (None, 0, text::empty()),
        };
        if let Some(row) = row {
            if row != sel {
                self.move_select(row);
                let value = match &self.menu.select {
                    Some(s) => s.value.clone(),
                    None => text::empty(),
                };
                self.send(
                    Cmd::PluginOverlayEvent {
                        id,
                        event: "change".to_owned(),
                        value: Some(JsonValue::Str(value)),
                    },
                );
            }
        }
    }

    pub(crate) fn handle_select_key(&mut self, key: KeyEvent)
        ensures
            final(self)@ == old(self)@.select_key(key),
    {
        proof {
            reveal(AppV::select_key);
        }
        if self.search(key) {
            return;
        }
        let (may_delete, may_submit) = match &self.menu.select {
            Some(s) => (may_delete(s), may_submit(s)),
            None => return ,
        };
        if !is_plain(key.modifiers) {
            return;
        }
        match key.code {
            KeyCode::Delete | KeyCode::Backspace => if may_delete {
                self.close_select("delete");
            },
            KeyCode::Enter => if may_submit {
                self.close_select("submit");
            },
            KeyCode::Esc => self.close_select("cancel"),
            _ => self.step_select(key.code),
        }
    }

    pub(crate) fn handle_slider_key(&mut self, key: KeyEvent, slide: Option<JsonValue>)
        ensures
            final(self)@ == old(self)@.slider_key(key, crate::bus::opt_value_view(slide)),
    {
        proof {
            reveal(AppV::slider_key);
        }
        if !is_plain(key.modifiers) {
            return;
        }
        match key.code {
            KeyCode::Enter => if let Some(s) = self.menu.slider.take() {
                let value = match slide {
                    Some(v) => v,
                    None => s.value,
                };
                self.send(
                    Cmd::PluginOverlayEvent {
                        id: s.id,
                        event: "submit".to_owned(),
                        value: Some(value),
                    },
                );
            },
            KeyCode::Esc => if let Some(s) = self.menu.slider.take() {
                self.send(
                    Cmd::PluginOverlayEvent {
                        id: s.id,
                        event: "cancel".to_owned(),
                        value: Some(s.value),
                    },
                );
            },
            KeyCode::Left | KeyCode::Right => if let Some(v) = slide {
                if let Some(s) = self.menu.slider.take() {
                    let value = json::copy(&v);
                    self.menu.slider = Some(SliderOverlay { id: s.id.clone(), value: v });
                    self.send(
                        Cmd::PluginOverlayEvent {
                            id: s.id,
                            event: "change".to_owned(),
                            value: Some(value),
                        },
                    );
                }
            },
            _ => {},
        }
    }

    pub(crate) fn has_view(&self) -> (r: bool)
        ensures
            r == (self@.live.popups.view is Some),
    {
        proof {
            reveal(session::slot_view);
        }
        self.live.popups.view.is_some()
    }

    pub(crate) fn has_tree(&self) -> (r: bool)
        ensures
            r == (self@.live.popups.tree is Some),
    {
        proof {
            reveal(session::slot_view);
        }
        self.live.popups.tree.is_some()
    }

    fn scroll_view_to(&mut self, scroll: usize)
        ensures
            final(self)@ == old(self)@.view_at(scroll),
    {
        proof {
            reveal(session::slot_view);
        }
        if let Some(v) = &mut self.live.popups.view {
            v.scroll = scroll;
            self.status.redraw = true;
        }
    }

    fn view_scroll(&self) -> (r: usize)
        ensures
            r == (match self@.live.popups.view {
                Some(v) => v.scroll,
                None => 0,
            }),
    {
        proof {
            reveal(session::slot_view);
        }
        match &self.live.popups.view {
            Some(v) => v.scroll,
            None => 0,
        }
    }

    pub(crate) fn view_scroll_by(&mut self, delta: i64)
        ensures
            final(self)@ == old(self)@.view_scrolled(delta as int),
    {
        let at = self.view_scroll();
        self.scroll_view_to(asks::shift(at, delta));
    }

    fn take_view(&mut self) -> (r: Option<ViewOverlay>)
        ensures
            session::opt_overlay_view(r) == old(self)@.live.popups.view,
            final(self)@ == old(self)@.with_view(None),
    {
        proof {
            reveal(session::slot_view);
        }
        self.live.popups.view.take()
    }

    fn close_view(&mut self, event: &str)
        ensures
            final(self)@ == old(self)@.view_done(event@),
    {
        if let Some(v) = self.take_view() {
            if v.notify_plugin {
                self.send(
                    Cmd::PluginOverlayEvent { id: v.id, event: event.to_owned(), value: None },
                );
            }
        }
    }

    pub(crate) fn handle_view_key(&mut self, key: KeyEvent)
        ensures
            final(self)@ == old(self)@.view_key(key),
    {
        proof {
            reveal(AppV::view_key);
        }
        match key.code {
            KeyCode::Up => self.view_scroll_by(-1),
            KeyCode::Down => self.view_scroll_by(1),
            KeyCode::PageUp => self.view_scroll_by(-5),
            KeyCode::PageDown => self.view_scroll_by(5),
            KeyCode::Home => self.scroll_view_to(0),
            KeyCode::End => self.scroll_view_to(usize::MAX),
            KeyCode::Esc => if is_plain(key.modifiers) {
                self.close_view("cancel");
            },
            KeyCode::Enter => if is_plain(key.modifiers) {
                self.close_view("submit");
            },
            _ => {},
        }
    }

    pub(crate) fn handle_plugin_tree_key(&mut self, key: KeyEvent)
        ensures
            final(self)@ == old(self)@.tree_key(key),
    {
        proof {
            reveal(session::slot_view);
            reveal(AppV::tree_key);
        }
        if !is_plain(key.modifiers) {
            return;
        }
        if matches!(key.code, KeyCode::Esc) {
            self.live.popups.tree = None;
            return;
        }
        let page: usize = if self.frame.tree_rows > 0 {
            self.frame.tree_rows
        } else {
            1
        };
        if let Some(t) = &mut self.live.popups.tree {
            t.key(key.code, page);
        }
    }

    pub(crate) fn scroll_plugin_tree(&mut self, up: bool, lines: usize)
        ensures
            final(self)@ == old(self)@.tree_wheel(up, lines as int),
    {
        proof {
            reveal(session::slot_view);
            reveal(AppV::tree_wheel);
        }
        if let Some(t) = &mut self.live.popups.tree {
            t.scroll(up, lines);
        }
    }

    fn set_row(&mut self, sel: usize)
        ensures
            final(self)@ == (match old(self)@.menu.picker {
                Some(p) => old(self)@.with_picker(Some(Picker { sel, ..p })),
                None => old(self)@,
            }),
    {
        if let Some(p) = &mut self.menu.picker {
            p.sel = sel;
        }
    }

    fn go_to_row(&mut self, sel: usize)
        ensures
            final(self)@ == old(self)@.at_row(sel),
    {
        proof {
            reveal(AppV::at_row);
        }
        let changed = match &self.menu.picker {
            Some(p) => p.kind == PickerKind::Theme && sel != p.sel,
            None => false,
        };
        self.set_row(sel);
        if changed {
            self.preview_picker_theme();
        }
    }

    pub(crate) fn picker_scroll_by(&mut self, delta: i64)
        ensures
            final(self)@ == old(self)@.picker_wheel(delta as int),
    {
        proof {
            reveal(AppV::picker_wheel);
        }
        if let Some(p) = &self.menu.picker {
            let to = asks::move_within(p.sel, delta, p.items.len());
            assert(p@.items.len() == p.items@.len());
            self.redraw();
            self.go_to_row(to);
        }
    }

    pub(crate) fn set_effort(&mut self, effort: &str)
        ensures
            final(self)@ == old(self)@.with_live(
                SlotV {
                    modes: Modes { effort: Some(effort@), ..old(self)@.live.modes },
                    ..old(self)@.live
                },
            ),
    {
        proof {
            reveal(session::slot_view);
        }
        self.live.modes.effort = Some(effort.to_owned());
    }

    pub(crate) fn select_effort(&mut self, effort: String)
        ensures
            final(self)@ == old(self)@.choose_effort(effort@),
    {
        proof {
            reveal(AppV::choose_effort);
        }
        let t = app::say1(
            self.base.locale,
            ("reasoning effort → ", ""),
            ("推理强度 → ", ""),
            effort.as_str(),
        );
        let session_id = self.session_id();
        self.set_effort(effort.as_str());
        self.send(
            Cmd::SelectModel { session_id, provider: None, model: None, effort: Some(effort) },
        );
        self.notice(NoticeLevel::Info, t);
    }

    fn manage_dynamic(&mut self, id: &str)
        ensures
            final(self)@ == old(self)@.manage_plugin(id@),
    {
        proof {
            reveal(AppV::manage_plugin);
        }
        let at = find_dynamic(&self.plugins.dynamic, id);
        assert(self@.plugins.dynamic.len() == self.plugins.dynamic@.len());
        if at >= self.plugins.dynamic.len() {
            return;
        }
        assert(self@.plugins.dynamic[at as int] == self.plugins.dynamic@[at as int]@);
        let p = &self.plugins.dynamic[at];
        let plugin_id = p.id.clone();
        let status = p.status.clone();
        if let Some(request) = text::copy_opt(&p.approval_request_id) {
            self.open_cordis_approval_picker(request.as_str());
            return;
        }
        if text::same(status.as_str(), "starting-host") || text::same(
            status.as_str(),
            "client-pending",
        ) {
            self.tell1(
                ("plugin ", " is already starting"),
                ("插件 ", " 已在启动中"),
                plugin_id.as_str(),
            );
            return;
        }
        let agent_id = self.session_id();
        if text::same(status.as_str(), "running") || text::same(status.as_str(), "waiting") {
            self.send(
                Cmd::SetCordisPluginEnabled {
                    agent_id,
                    plugin_id: plugin_id.clone(),
                    enabled: false,
                },
            );
            self.tell1(("stopping plugin ", "…"), ("正在停止插件 ", "…"), plugin_id.as_str());
        } else {
            self.send(
                Cmd::SetCordisPluginEnabled {
                    agent_id,
                    plugin_id: plugin_id.clone(),
                    enabled: true,
                },
            );
            self.tell1(("restoring plugin ", "…"), ("正在恢复插件 ", "…"), plugin_id.as_str());
        }
    }

    fn pick(&mut self, kind: PickerKind, item: PickerItem)
        ensures
            final(self)@ == old(self)@.choose_row(kind, item@),
    {
        proof {
            reveal(AppV::choose_row);
        }
        match kind {
            PickerKind::Model => self.select_model(item.id, item.provider),
            PickerKind::Mode => self.set_mode(item.id),
            PickerKind::Theme => self.select_palette(item.id.as_str()),
            PickerKind::UiPlugin => {
                let agent_id = self.session_id();
                self.send(Cmd::PluginUiSelected { agent_id, id: item.id });
            },
            PickerKind::Permission => self.set_permission(item.id),
            PickerKind::Session => if self.resume.via_agent {
                self.resume_acp_session(item.id.as_str());
            } else {
                self.resume_session(item.id.as_str());
            },
            PickerKind::Effort => self.select_effort(item.id),
            PickerKind::Auth => self.start_auth(item.id.as_str()),
            PickerKind::CordisPlugin => self.manage_dynamic(item.id.as_str()),
            PickerKind::CordisApproval => if let Some(request_id) = item.provider {
                self.send(Cmd::RespondCordisApproval { request_id, decision: item.id });
            },
            PickerKind::AgentHistory => self.select_agent_transcript(item.id.as_str()),
        }
    }

    fn highlighted_item(&self) -> (r: Option<PickerItem>)
        ensures
            match self@.menu.picker {
                Some(p) => if p.sel < p.items.len() {
                    r is Some && r->0@ == p.items[p.sel as int]
                } else {
                    r is None
                },
                None => r is None,
            },
    {
        match &self.menu.picker {
            Some(p) => if p.sel < p.items.len() {
                assert(p@.items[p.sel as int] == p.items@[p.sel as int]@);
                Some(p.items[p.sel].clone())
            } else {
                None
            },
            None => None,
        }
    }

    pub(crate) fn handle_picker_key(&mut self, key: KeyEvent, toggles: bool)
        ensures
            final(self)@ == old(self)@.picker_key(key, toggles),
    {
        proof {
            reveal(AppV::picker_key);
        }
        let page: usize = if self.frame.picker_rows > 0 {
            self.frame.picker_rows
        } else {
            1
        };
        let (kind, sel, n) = match &self.menu.picker {
            Some(p) => {
                assert(p@.items.len() == p.items@.len());
                (p.kind, p.sel, p.items.len())
            },
            None => return ,
        };
        if kind == PickerKind::Theme && toggles {
            self.toggle_theme_mode();
            return;
        }
        match key.code {
            KeyCode::Esc => {
                self.menu.picker = None;
            },
            KeyCode::Enter => {
                let item = self.highlighted_item();
                self.menu.picker = None;
                if let Some(item) = item {
                    self.pick(kind, item);
                }
            },
            _ => if let Some(row) = row_by_key(sel, n, page, key.code) {
                self.go_to_row(row);
            },
        }
    }
}

} // verus!
