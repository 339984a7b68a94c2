//! The mouse: the wheel, clicks, drags that select text, and what the pointer
//! hovers over.

use crate::app::{self, App, AppV, Click, Flash, FrameV, Pointer, SlotAction};
use crate::effect::{Effect, TranscriptOp};
use crate::input::{KeyCode, KeyEvent, KeyEventKind, KeyModifiers, MouseButton, MouseEvent,
    MouseEventKind};
use crate::overlays::no_modifiers;
use crate::screen::{self, cell_width, ChatViewV, InputSel, Rect, SelPoint, Selection};
use crate::session::{self, ComposerV, RunState, SlotV};
use crate::text;
use vstd::prelude::*;

verus! {

/// Two clicks within this time are a double click, in milliseconds.
pub const DOUBLE_CLICK_WINDOW: u64 = 400;

/// How long a prompt is highlighted that was jumped to, in milliseconds.
pub const PROMPT_FLASH_TTL: u64 = 5000;

/// The mouse, with where the draft as it is laid out is meant.
#[derive(Debug, Clone, Copy, PartialEq, Eq)]
pub struct MouseInput {
    pub event: MouseEvent,
    /// The character of the draft under the pointer.
    pub caret: usize,
    /// The characters of the draft that the selection covers.
    pub range: Option<(usize, usize)>,
}

/// A prompt of the transcript: its cell and the line where it begins.
#[derive(Debug, Clone, Copy, PartialEq, Eq, Structural)]
pub struct PromptPlace {
    pub cell: usize,
    pub line: usize,
}

pub open spec fn plain_key(code: KeyCode) -> KeyEvent {
    KeyEvent { code, modifiers: no_modifiers(), kind: KeyEventKind::Press }
}

fn press(code: KeyCode) -> (r: KeyEvent)
    ensures
        r == plain_key(code),
{
    KeyEvent {
        code,
        modifiers: KeyModifiers {
            shift: false,
            alt: false,
            control: false,
            command: false,
            hyper: false,
            meta: false,
        },
        kind: KeyEventKind::Press,
    }
}

/// The smaller tabs are all out of sight to the left.
pub open spec fn leftmost(rects: Seq<(Rect, usize)>, tab: usize) -> bool {
    forall|i: int| 0 <= i < rects.len() ==> tab <= (#[trigger] rects[i]).1
}

/// The larger tabs are all out of sight to the right.
pub open spec fn rightmost(rects: Seq<(Rect, usize)>, tab: usize) -> bool {
    forall|i: int| 0 <= i < rects.len() ==> (#[trigger] rects[i]).1 <= tab
}

fn is_leftmost(rects: &Vec<(Rect, usize)>, tab: usize) -> (r: bool)
    ensures
        r == leftmost(rects@, tab),
{
    let mut i: usize = 0;
    while i < rects.len()
        invariant
            i <= rects@.len(),
            forall|k: int| 0 <= k < i ==> tab <= (#[trigger] rects@[k]).1,
        decreases rects@.len() - i,
    {
        if rects[i].1 < tab {
            assert(rects@[i as int].1 < tab);
            return false;
        }
        i = i + 1;
    }
    true
}

fn is_rightmost(rects: &Vec<(Rect, usize)>, tab: usize) -> (r: bool)
    ensures
        r == rightmost(rects@, tab),
{
    let mut i: usize = 0;
    while i < rects.len()
        invariant
            i <= rects@.len(),
            forall|k: int| 0 <= k < i ==> (#[trigger] rects@[k]).1 <= tab,
        decreases rects@.len() - i,
    {
        if rects[i].1 > tab {
            assert(rects@[i as int].1 > tab);
            return false;
        }
        i = i + 1;
    }
    true
}

/// The first command whose place on the screen holds a cell; the number of
/// commands where none does.
pub open spec fn action_hit(v: Seq<SlotAction<Seq<char>>>, col: u16, row: u16) -> int
    decreases v.len(),
{
    if v.len() == 0 {
        0
    } else {
        let k = action_hit(v.drop_last(), col, row);
        if k < v.len() - 1 || v.last().rect.holds(col, row) {
            k
        } else {
            v.len() as int
        }
    }
}

proof fn lemma_action_hit(v: Seq<SlotAction<Seq<char>>>, n: int, col: u16, row: u16)
    requires
        0 <= n < v.len(),
        action_hit(v.take(n), col, row) == n,
        v[n].rect.holds(col, row),
    ensures
        action_hit(v, col, row) == n,
    decreases v.len(),
{
    if n == v.len() - 1 {
        assert(v.take(n) =~= v.drop_last());
    } else {
        assert(v.drop_last().take(n) =~= v.take(n));
        lemma_action_hit(v.drop_last(), n, col, row);
    }
}

fn find_action(v: &Vec<SlotAction>, col: u16, row: u16) -> (r: usize)
    ensures
        r == action_hit(app::actions_view(v@), col, row),
        r <= v@.len(),
{
    let ghost w = app::actions_view(v@);
    let mut i: usize = 0;
    assert(w.take(0) =~= Seq::empty());
    while i < v.len()
        invariant
            i <= v@.len(),
            w == app::actions_view(v@),
            w.len() == v@.len(),
            action_hit(w.take(i as int), col, row) == i,
        decreases v@.len() - i,
    {
        assert(w[i as int] == v@[i as int]@);
        if v[i].rect.contains(col, row) {
            proof {
                lemma_action_hit(w, i as int, col, row);
            }
            return i;
        }
        assert(w.take(i as int + 1).drop_last() =~= w.take(i as int));
        i = i + 1;
    }
    assert(w.take(i as int) =~= w);
    i
}

/// The first prompt that stands in a cell; the number of prompts where none
/// does.
pub open spec fn first_place(users: Seq<PromptPlace>, cell: usize) -> int
    decreases users.len(),
{
    if users.len() == 0 {
        0
    } else {
        let k = first_place(users.drop_last(), cell);
        if k < users.len() - 1 || users.last().cell == cell {
            k
        } else {
            users.len() as int
        }
    }
}

/// The last prompt that stands in a cell; -1 where none does.
pub open spec fn last_place(users: Seq<PromptPlace>, cell: usize) -> int
    decreases users.len(),
{
    if users.len() == 0 {
        -1
    } else if users.last().cell == cell {
        users.len() - 1
    } else {
        last_place(users.drop_last(), cell)
    }
}

proof fn lemma_first_place(users: Seq<PromptPlace>, n: int, cell: usize)
    requires
        0 <= n < users.len(),
        first_place(users.take(n), cell) == n,
        users[n].cell == cell,
    ensures
        first_place(users, cell) == n,
    decreases users.len(),
{
    if n == users.len() - 1 {
        assert(users.take(n) =~= users.drop_last());
    } else {
        assert(users.drop_last().take(n) =~= users.take(n));
        lemma_first_place(users.drop_last(), n, cell);
    }
}

fn find_place(users: &Vec<PromptPlace>, cell: usize) -> (r: usize)
    ensures
        r == first_place(users@, cell),
        r <= users@.len(),
{
    let mut i: usize = 0;
    assert(users@.take(0) =~= Seq::empty());
    while i < users.len()
        invariant
            i <= users@.len(),
            first_place(users@.take(i as int), cell) == i,
        decreases users@.len() - i,
    {
        if users[i].cell == cell {
            proof {
                lemma_first_place(users@, i as int, cell);
            }
            return i;
        }
        assert(users@.take(i as int + 1).drop_last() =~= users@.take(i as int));
        i = i + 1;
    }
    assert(users@.take(i as int) =~= users@);
    i
}

/// How many prompts stand from the last one in a cell to the newest.
fn count_back(users: &Vec<PromptPlace>, cell: usize) -> (r: usize)
    requires
        last_place(users@, cell) >= 0,
    ensures
        r == users@.len() - last_place(users@, cell),
{
    let mut i: usize = users.len();
    assert(users@.take(i as int) =~= users@);
    while i > 0 && users[i - 1].cell != cell
        invariant
            i <= users@.len(),
            last_place(users@.take(i as int), cell) == last_place(users@, cell),
        decreases i,
    {
        assert(users@.take(i as int).drop_last() =~= users@.take(i as int - 1));
        i = i - 1;
    }
    proof {
        if i == 0 {
            assert(users@.take(0) =~= Seq::empty());
        } else {
            assert(users@.take(i as int).last() == users@[i - 1]);
        }
    }
    users.len() - i + 1
}

proof fn lemma_last_place(users: Seq<PromptPlace>, n: int)
    requires
        0 <= n < users.len(),
    ensures
        n <= last_place(users, users[n].cell) < users.len(),
    decreases users.len(),
{
    if users.last().cell != users[n].cell {
        assert(users.drop_last()[n] == users[n]);
        lemma_last_place(users.drop_last(), n);
    }
}

/// The prompt to jump to: the one before the last jump, and the newest after
/// the oldest.
pub open spec fn jump_target(users: Seq<PromptPlace>, last: Option<usize>) -> int {
    match last {
        Some(cell) => {
            let k = first_place(users, cell);
            if 0 < k < users.len() {
                k - 1
            } else {
                users.len() - 1
            }
        },
        None => users.len() - 1,
    }
}

fn choose_target(users: &Vec<PromptPlace>, last: Option<usize>) -> (r: usize)
    requires
        users@.len() > 0,
    ensures
        r == jump_target(users@, last),
        r < users@.len(),
{
    match last {
        Some(cell) => {
            let k = find_place(users, cell);
            if 0 < k && k < users.len() {
                k - 1
            } else {
                users.len() - 1
            }
        },
        None => users.len() - 1,
    }
}

/// Where the chat comes to stand so that a line is on top: the first line
/// shown, and how far it is from the tail.
pub open spec fn anchored(line: int, total: int, height: int) -> (int, int) {
    let most = if total >= height {
        total - height
    } else {
        0
    };
    let start = if line <= most {
        line
    } else {
        most
    };
    let end = if start + height <= total {
        start + height
    } else {
        total
    };
    (start, total - end)
}

fn anchor(line: usize, total: usize, height: usize) -> (r: (usize, usize))
    ensures
        (r.0 as int, r.1 as int) == anchored(line as int, total as int, height as int),
{
    let most: usize = total.saturating_sub(height);
    let start: usize = if line <= most {
        line
    } else {
        most
    };
    let end: usize = if height <= total - start {
        start + height
    } else {
        total
    };
    (start, total - end)
}

/// The cells of the mark before the draft.
pub open spec fn mark_width() -> int {
    cell_width('❯') + cell_width(' ')
}

fn measure_mark() -> (r: u16)
    ensures
        r == mark_width(),
        2 <= r <= 6,
{
    let a: u128 = screen::cell_width_of('❯');
    let b: u128 = screen::cell_width_of(' ');
    (a + b) as u16
}

pub open spec fn less(a: int, b: int) -> int {
    if a >= b {
        a - b
    } else {
        0
    }
}

/// The cells of a row of the draft.
pub open spec fn row_cells(area: Rect) -> int {
    if less(area.width as int, mark_width()) > 1 {
        less(area.width as int, mark_width())
    } else {
        1
    }
}

/// The row and the column of the draft under a cell of the screen, with a
/// pointer outside moved to the edge.
pub open spec fn draft_cell(area: Rect, top: usize, col: u16, row: u16) -> (int, int) {
    let down = less(row as int, area.y as int);
    let last = less(area.height as int, 1);
    let left = if area.x + mark_width() <= u16::MAX {
        area.x + mark_width()
    } else {
        u16::MAX as int
    };
    let right = less(col as int, left);
    (
        screen::fits(top + (if down <= last {
            down
        } else {
            last
        })),
        if right <= row_cells(area) - 1 {
            right
        } else {
            row_cells(area) - 1
        },
    )
}

pub open spec fn ordered_cells(sel: InputSel) -> ((usize, usize), (usize, usize)) {
    if sel.anchor.0 < sel.head.0 || (sel.anchor.0 == sel.head.0 && sel.anchor.1 <= sel.head.1) {
        (sel.anchor, sel.head)
    } else {
        (sel.head, sel.anchor)
    }
}

/// The characters from one boundary to another, where there are any.
pub open spec fn covered(start: usize, end: usize) -> Option<(usize, usize)> {
    if start < end {
        Some((start, end))
    } else {
        None
    }
}

/// The boundaries of a selection, where it covers anything.
pub fn cover(start: usize, end: usize) -> (r: Option<(usize, usize)>)
    ensures
        r == covered(start, end),
{
    if start < end {
        Some((start, end))
    } else {
        None
    }
}

/// A second click of a double click.
pub open spec fn is_double(last: Option<Click>, now: u64, col: u16, row: u16) -> bool {
    match last {
        Some(c) => now - c.at < DOUBLE_CLICK_WINDOW && -1 <= c.column - col <= 1 && c.row == row,
        None => false,
    }
}

fn doubles(last: Option<Click>, now: u64, col: u16, row: u16) -> (r: bool)
    ensures
        r == is_double(last, now, col, row),
{
    match last {
        Some(c) => now.saturating_sub(c.at) < DOUBLE_CLICK_WINDOW && c.column as i32 - col as i32
            <= 1 && col as i32 - c.column as i32 <= 1 && c.row == row,
        None => false,
    }
}

impl AppV {
    /// The transcript that is shown: that of the session, or of a subagent.
    pub open spec fn displayed(self) -> u64 {
        match self.live.agents.active {
            Some(id) => {
                let k = crate::seqs::first_index(
                    self.live.agents.views,
                    session::view_named(id),
                );
                if k < self.live.agents.views.len() {
                    self.live.agents.views[k].transcript
                } else {
                    self.live.chat.transcript
                }
            },
            None => self.live.chat.transcript,
        }
    }

    /// The wheel turns, by one notch.
    #[verifier::opaque]
    pub open spec fn wheel(self, up: bool) -> AppV {
        let by = if up {
            -1int
        } else {
            1
        };
        if self.live.asks.form is Some {
            self.form_wheel(3 * by)
        } else if self.live.asks.permission is Some {
            self.ask_scrolled(by)
        } else if self.live.popups.tree is Some {
            self.tree_wheel(up, 3)
        } else if self.live.popups.view is Some {
            self.view_scrolled(3 * by)
        } else if self.menu.select is Some {
            self.select_key(
                plain_key(
                    if up {
                        KeyCode::Up
                    } else {
                        KeyCode::Down
                    },
                ),
            ).redrawn()
        } else if self.menu.picker is Some {
            self.picker_wheel(by)
        } else {
            self.scrolled_by(-3 * by)
        }
    }

    pub open spec fn strip_moved(self, by: int) -> AppV {
        self.with_pointer(
            Pointer {
                strip_offset: if by < 0 {
                    if self.pointer.strip_offset > 0 {
                        (self.pointer.strip_offset - 1) as usize
                    } else {
                        0
                    }
                } else {
                    if self.pointer.strip_offset < usize::MAX {
                        (self.pointer.strip_offset + 1) as usize
                    } else {
                        usize::MAX
                    }
                },
                ..self.pointer
            },
        ).redrawn()
    }

    /// A tab is clicked: it comes into view, and at an edge of the strip its
    /// neighbour comes into sight.
    #[verifier::opaque]
    pub open spec fn click_tab(self, tab: usize) -> AppV {
        let a = self.view_tab(tab as int);
        if leftmost(a.frame.tab_rects, tab) && tab > 0 {
            a.strip_moved(-1)
        } else if rightmost(a.frame.tab_rects, tab) && tab + 1 < a.tab_count() {
            a.strip_moved(1)
        } else {
            a
        }
    }

    /// No text is selected or being selected in the chat, nor a drag over the
    /// draft under way.
    pub open spec fn unselecting(self) -> AppV {
        self.with_pointer(
            Pointer {
                sel: None,
                selecting: false,
                last_click: None,
                input_selecting: false,
                ..self.pointer
            },
        )
    }

    pub open spec fn click_action(self, k: int) -> AppV {
        self.unselecting().invoke(self.frame.actions[k].name, self.frame.actions[k].args)
    }

    pub open spec fn click_tool(self, cell: usize) -> AppV {
        self.unselecting().write(self.displayed(), TranscriptOp::ToggleTool { cell })
    }

    pub open spec fn click_jump(self) -> AppV {
        let a = self.with_pointer(self.settled_pointer());
        if self.frame.chat.area.width == 0 || self.frame.chat.area.height == 0 {
            a
        } else {
            a.emit(Effect::LocatePrompts)
        }
    }

    pub open spec fn click_expand(self) -> AppV {
        let a = self.with_pointer(self.settled_pointer());
        a.with_live(
            SlotV {
                draft: session::DraftV { expanded: !self.live.draft.expanded, ..self.live.draft },
                ..self.live
            },
        ).redrawn()
    }

    pub open spec fn with_caret(self, at: usize) -> AppV {
        self.with_input(ComposerV { cursor: at, ..self.live.draft.input })
    }

    #[verifier::opaque]
    pub open spec fn click_draft(self, m: MouseInput) -> AppV {
        let cell = draft_cell(
            self.frame.input_area,
            self.frame.input_top,
            m.event.column,
            m.event.row,
        );
        let at = (cell.0 as usize, cell.1 as usize);
        self.with_pointer(
            Pointer {
                sel: None,
                selecting: false,
                last_click: None,
                input_sel: Some(InputSel { anchor: at, head: at }),
                input_selecting: true,
                ..self.pointer
            },
        ).with_caret(m.caret).browse_files()
    }

    /// The word under a point of the chat is selected and copied.
    #[verifier::opaque]
    pub open spec fn select_word(self, p: SelPoint) -> AppV {
        match self.frame.chat.text_of(p.line as int) {
            None => self,
            Some(line) => match screen::word_under(line, p.col as int) {
                None => self.without_sel(),
                Some((col, width, word)) => self.with_pointer(
                    Pointer {
                        sel: Some(
                            Selection {
                                anchor: SelPoint { line: p.line, col: col as usize },
                                head: SelPoint {
                                    line: p.line,
                                    col: screen::fits(col + width - 1) as usize,
                                },
                            },
                        ),
                        selecting: false,
                        ..self.pointer
                    },
                ).emit(Effect::Copy(word)),
            },
        }
    }

    #[verifier::opaque]
    pub open spec fn click_chat(self, p: SelPoint, col: u16, row: u16) -> AppV {
        let a = self.with_pointer(
            Pointer {
                input_sel: None,
                input_selecting: false,
                last_click: Some(Click { at: self.clock.now, column: col, row }),
                ..self.pointer
            },
        );
        if is_double(self.pointer.last_click, self.clock.now, col, row) {
            a.select_word(p)
        } else {
            a.with_pointer(
                Pointer {
                    sel: Some(Selection { anchor: p, head: p }),
                    selecting: true,
                    ..a.pointer
                },
            )
        }
    }

    pub open spec fn click_outside(self) -> AppV {
        self.with_pointer(
            Pointer {
                sel: None,
                selecting: false,
                input_sel: None,
                input_selecting: false,
                ..self.pointer
            },
        )
    }

    pub open spec fn tool_under(self, col: u16, row: u16) -> Option<usize> {
        match self.frame.chat.point_at(col, row) {
            Some(p) => self.frame.chat.owner_of(p.line as int),
            None => None,
        }
    }

    /// Whether the draft is on the screen and takes clicks.
    pub open spec fn draft_live(self) -> bool {
        self.live.asks.form is None && self.live.agents.active is None
    }

    pub open spec fn over(self, r: Option<Rect>, col: u16, row: u16) -> bool {
        match r {
            Some(r) => r.holds(col, row),
            None => false,
        }
    }

    /// A click on the draft, on a button near it, or on the chat.
    #[verifier::opaque]
    pub open spec fn click_below(self, m: MouseInput) -> AppV {
        let (col, row) = (m.event.column, m.event.row);
        if self.draft_live() && self.over(self.frame.jump_btn, col, row) {
            self.click_jump()
        } else if self.draft_live() && self.over(self.frame.expand_btn, col, row) {
            self.click_expand()
        } else if self.draft_live() && self.frame.input_area.holds(col, row) {
            self.click_draft(m)
        } else {
            match self.frame.chat.point_at(col, row) {
                Some(p) => self.click_chat(p, col, row),
                None => self.click_outside(),
            }
        }
    }

    /// The left button goes down.
    #[verifier::opaque]
    pub open spec fn clicked(self, m: MouseInput) -> AppV {
        let (col, row) = (m.event.column, m.event.row);
        let a = self.redrawn();
        match screen::first_hit(self.frame.tab_rects, col, row) {
            Some(tab) => a.click_tab(tab),
            None => {
                let k = action_hit(self.frame.actions, col, row);
                if k < self.frame.actions.len() {
                    a.click_action(k)
                } else {
                    match self.tool_under(col, row) {
                        Some(cell) => a.click_tool(cell),
                        None => a.click_below(m),
                    }
                }
            },
        }
    }

    pub open spec fn with_head(self, head: SelPoint) -> AppV {
        match self.pointer.sel {
            Some(s) => self.with_pointer(
                Pointer { sel: Some(Selection { head, ..s }), ..self.pointer },
            ),
            None => self,
        }
    }

    /// The chat scrolls while a drag leaves it.
    pub open spec fn edge_scrolled(self, row: u16) -> AppV {
        let a = self.frame.chat.area;
        if row < a.y {
            self.scrolled_by(2)
        } else if row >= screen::end_of(a.y, a.height) {
            self.scrolled_by(-2)
        } else {
            self
        }
    }

    #[verifier::opaque]
    pub open spec fn dragged(self, m: MouseEvent) -> AppV {
        if self.pointer.selecting {
            let a = self.edge_scrolled(m.row);
            a.with_head(a.frame.chat.nearest_point(m.column, m.row)).redrawn()
        } else if self.pointer.input_selecting {
            let cell = draft_cell(
                self.frame.input_area,
                self.frame.input_top,
                m.column,
                m.row,
            );
            (match self.pointer.input_sel {
                Some(s) => self.with_pointer(
                    Pointer {
                        input_sel: Some(
                            InputSel { head: (cell.0 as usize, cell.1 as usize), ..s },
                        ),
                        ..self.pointer
                    },
                ),
                None => self,
            }).redrawn()
        } else {
            self
        }
    }

    /// The selection in the chat is copied, where it holds text.
    #[verifier::opaque]
    pub open spec fn selection_done(self) -> AppV {
        let a = self.with_pointer(Pointer { selecting: false, ..self.pointer }).redrawn();
        match self.pointer.sel {
            None => a,
            Some(s) => if s.anchor == s.head || text::trimmed(self.frame.chat.selected(s)).len()
                == 0 {
                a.without_sel()
            } else {
                a.emit(Effect::Copy(self.frame.chat.selected(s)))
            },
        }
    }

    /// The selection in the draft is copied, where it holds text.
    #[verifier::opaque]
    pub open spec fn input_selection_done(self, range: Option<(usize, usize)>) -> AppV {
        let a = self.with_pointer(Pointer { input_selecting: false, ..self.pointer }).redrawn();
        match self.pointer.input_sel {
            None => a,
            Some(s) => match range {
                None => a.without_input_sel(),
                Some(r) => if s.anchor == s.head || text::trimmed(self.text_between(r)).len()
                    == 0 {
                    a.without_input_sel()
                } else {
                    a.emit(Effect::Copy(self.text_between(r)))
                },
            },
        }
    }

    pub open spec fn released_button(self, m: MouseInput) -> AppV {
        if self.pointer.selecting {
            self.selection_done()
        } else if self.pointer.input_selecting {
            self.input_selection_done(m.range)
        } else {
            self
        }
    }

    /// The pointer moves; the screen is redrawn where it hovers over something
    /// else.
    #[verifier::opaque]
    pub open spec fn hovered(self, col: u16, row: u16) -> AppV {
        let expand = self.over(self.frame.expand_btn, col, row);
        let jump = self.over(self.frame.jump_btn, col, row);
        let chip = screen::first_hit(self.frame.chips, col, row);
        let a = self.with_pointer(
            Pointer {
                position: Some((col, row)),
                over_expand: expand,
                over_jump: jump,
                over_chip: chip,
                ..self.pointer
            },
        );
        if expand != self.pointer.over_expand || jump != self.pointer.over_jump || chip
            != self.pointer.over_chip {
            a.redrawn()
        } else {
            a
        }
    }

    #[verifier::opaque]
    pub open spec fn mouse(self, m: MouseInput) -> AppV {
        match m.event.kind {
            MouseEventKind::ScrollUp => self.wheel(true),
            MouseEventKind::ScrollDown => self.wheel(false),
            MouseEventKind::Down(MouseButton::Left) => self.clicked(m),
            MouseEventKind::Drag(MouseButton::Left) => self.dragged(m.event),
            MouseEventKind::Up(MouseButton::Left) => self.released_button(m),
            MouseEventKind::Moved => self.hovered(m.event.column, m.event.row),
            _ => self,
        }
    }

    /// The chat at a prompt, which is highlighted for a while.
    #[verifier::opaque]
    pub open spec fn jumped(self, p: PromptPlace, total: int) -> AppV {
        let (start, up) = anchored(p.line as int, total, self.frame.chat.area.height as int);
        AppV {
            frame: FrameV {
                chat: ChatViewV {
                    manual_top: if up > 0 {
                        Some(start as usize)
                    } else {
                        None
                    },
                    ..self.frame.chat
                },
                ..self.frame
            },
            pointer: Pointer {
                jump_cell: Some(p.cell),
                flash: Some(
                    Flash {
                        cell: p.cell,
                        until: if self.clock.now + PROMPT_FLASH_TTL <= u64::MAX {
                            (self.clock.now + PROMPT_FLASH_TTL) as u64
                        } else {
                            u64::MAX
                        },
                    },
                ),
                ..self.pointer
            },
            ..self
        }.scrolled_to(up as usize).redrawn()
    }

    /// The prompts of the transcript have been located, in `lines` lines.
    #[verifier::opaque]
    pub open spec fn located(self, users: Seq<PromptPlace>, lines: usize) -> AppV {
        if users.len() == 0 {
            self.tell(
                "no user prompts yet — ↥ finds them once you send one"@,
                "还没有用户输入 —— 发送后 ↥ 即可跳转"@,
            )
        } else {
            let total = screen::fits(
                lines + (if self.state == RunState::Idle {
                    0int
                } else {
                    1
                }),
            );
            let p = users[jump_target(users, self.pointer.jump_cell)];
            let a = self.jumped(p, total);
            a.tip(
                app::said2(
                    self.base.locale,
                    ("↥ user prompt "@, "/"@, " · newest first"@),
                    ("↥ 用户输入 "@, "/"@, " · 从最新往前"@),
                    text::decimal((users.len() - last_place(users, p.cell)) as nat),
                    text::decimal(users.len()),
                ),
            )
        }
    }

    /// A tool was expanded or collapsed.
    pub open spec fn tool_toggled(self, expanded: bool) -> AppV {
        self.tell1(
            (""@, " tool output · click toggles"@),
            (""@, " 工具输出 · 点击切换展开"@),
            if expanded {
                "expanded"@
            } else {
                "collapsed"@
            },
        ).redrawn()
    }

    /// A text was copied, or could not be.
    #[verifier::opaque]
    pub open spec fn copied(self, t: Seq<char>, done: bool) -> AppV {
        if done {
            self.tell1(
                ("✓ copied "@, " chars — esc clears the highlight"@),
                ("✓ 已复制 "@, " 个字符 —— esc 清除高亮"@),
                text::decimal(t.len()),
            )
        } else {
            self.tell(
                "copy failed — hold shift and drag for the terminal's native selection"@,
                "复制失败 —— 按住 shift 拖动可使用终端原生选择"@,
            )
        }
    }
}

impl App {
    /// The transcript on the screen.
    pub fn displayed_transcript(&self) -> (r: u64)
        ensures
            r == self@.displayed(),
    {
        proof {
            reveal(session::slot_view);
        }
        if let Some(id) = &self.live.agents.active {
            let k = session::find_view(&self.live.agents.views, id.as_str());
            if k < self.live.agents.views.len() {
                assert(self@.live.agents.views[k as int] == self.live.agents.views@[k as int]@);
                return self.live.agents.views[k].transcript;
            }
        }
        self.live.chat.transcript
    }

    /// The text that a selection in the chat covers.
    pub fn selection_text(&self, sel: Selection) -> (r: String)
        ensures
            r@ == self@.frame.chat.selected(sel),
    {
        self.frame.chat.selection_text(sel)
    }

    fn turn_wheel(&mut self, up: bool)
        ensures
            final(self)@ == old(self)@.wheel(up),
    {
        proof {
            reveal(AppV::wheel);
        }
        let by: i64 = if up {
            -1
        } else {
            1
        };
        if self.has_form() {
            self.elicitation_scroll_by(3 * by);
        } else if self.has_ask() {
            self.permission_ask_scroll_by(by);
        } else if self.has_tree() {
            self.scroll_plugin_tree(up, 3);
        } else if self.has_view() {
            self.view_scroll_by(3 * by);
        } else if self.menu.select.is_some() {
            let code = if up {
                KeyCode::Up
            } else {
                KeyCode::Down
            };
            self.handle_select_key(press(code));
            self.redraw();
        } else if self.menu.picker.is_some() {
            self.picker_scroll_by(by);
        } else {
            self.scroll_by(-3 * by);
        }
    }

    fn move_strip(&mut self, forward: bool)
        ensures
            final(self)@ == old(self)@.strip_moved(if forward {
                1
            } else {
                -1
            }),
    {
        if forward {
            self.pointer.strip_offset = self.pointer.strip_offset.saturating_add(1);
        } else {
            self.pointer.strip_offset = self.pointer.strip_offset.saturating_sub(1);
        }
        self.redraw();
    }

    fn choose_tab(&mut self, tab: usize)
        ensures
            final(self)@ == old(self)@.click_tab(tab),
    {
        proof {
            reveal(AppV::click_tab);
        }
        self.switch_view_to_tab(tab);
        if is_leftmost(&self.frame.tab_rects, tab) && tab > 0 {
            self.move_strip(false);
        } else if is_rightmost(&self.frame.tab_rects, tab) && tab < self.tabs.parked.len() {
            self.move_strip(true);
        }
    }

    fn stop_selecting(&mut self)
        ensures
            final(self)@ == old(self)@.unselecting(),
    {
        self.pointer.sel = None;
        self.pointer.selecting = false;
        self.pointer.last_click = None;
        self.pointer.input_selecting = false;
    }

    fn forget_selections(&mut self)
        ensures
            final(self)@ == old(self)@.with_pointer(old(self)@.settled_pointer()),
    {
        self.pointer.sel = None;
        self.pointer.selecting = false;
        self.pointer.last_click = None;
        self.pointer.input_sel = None;
        self.pointer.input_selecting = false;
    }

    fn run_action(&mut self, k: usize)
        requires
            k < old(self)@.frame.actions.len(),
        ensures
            final(self)@ == old(self)@.click_action(k as int),
    {
        assert(self@.frame.actions[k as int] == self.frame.actions@[k as int]@);
        let name = self.frame.actions[k].name.clone();
        let args = self.frame.actions[k].args.clone();
        self.stop_selecting();
        self.send(crate::bus::Cmd::InvokePluginCommand { name, args });
    }

    fn toggle_tool(&mut self, cell: usize)
        ensures
            final(self)@ == old(self)@.click_tool(cell),
    {
        let id = self.displayed_transcript();
        self.stop_selecting();
        self.write(id, TranscriptOp::ToggleTool { cell });
    }

    fn jump_to_user_prompt(&mut self)
        ensures
            final(self)@ == old(self)@.click_jump(),
    {
        self.forget_selections();
        if self.frame.chat.area.width != 0 && self.frame.chat.area.height != 0 {
            self.emit(Effect::LocatePrompts);
        }
    }

    fn toggle_input_height(&mut self)
        ensures
            final(self)@ == old(self)@.click_expand(),
    {
        proof {
            reveal(session::slot_view);
        }
        self.forget_selections();
        self.live.draft.expanded = !self.live.draft.expanded;
        self.redraw();
    }

    fn set_caret(&mut self, at: usize)
        ensures
            final(self)@ == old(self)@.with_caret(at),
    {
        proof {
            reveal(session::slot_view);
        }
        self.live.draft.input.cursor = at;
    }

    /// The cells of a row of the draft on the screen.
    pub fn input_avail(&self) -> (r: usize)
        ensures
            r == row_cells(self@.frame.input_area),
    {
        let w: u16 = self.frame.input_area.width.saturating_sub(measure_mark());
        if w > 1 {
            w as usize
        } else {
            1
        }
    }

    /// The row and the column of the draft under a cell of the screen.
    pub fn input_cell_at(&self, col: u16, row: u16) -> (r: (usize, usize))
        ensures
            (r.0 as int, r.1 as int) == draft_cell(
                self@.frame.input_area,
                self@.frame.input_top,
                col,
                row,
            ),
    {
        let a = self.frame.input_area;
        let down: u16 = row.saturating_sub(a.y);
        let last: u16 = a.height.saturating_sub(1);
        let rel: u16 = if down <= last {
            down
        } else {
            last
        };
        let right: usize = col.saturating_sub(a.x.saturating_add(measure_mark())) as usize;
        let most: usize = self.input_avail() - 1;
        (
            self.frame.input_top.saturating_add(rel as usize),
            if right <= most {
                right
            } else {
                most
            },
        )
    }

    /// The two ends of the selection in the draft, in order.
    pub fn input_selection_cells(&self) -> (r: Option<((usize, usize), (usize, usize))>)
        ensures
            r == (match self@.pointer.input_sel {
                Some(s) => Some(ordered_cells(s)),
                None => None,
            }),
    {
        match self.pointer.input_sel {
            Some(s) => {
                let a = s.anchor;
                let h = s.head;
                if a.0 < h.0 || (a.0 == h.0 && a.1 <= h.1) {
                    Some((a, h))
                } else {
                    Some((h, a))
                }
            },
            None => None,
        }
    }

    fn place_caret(&mut self, m: MouseInput)
        ensures
            final(self)@ == old(self)@.click_draft(m),
    {
        proof {
            reveal(AppV::click_draft);
        }
        let cell = self.input_cell_at(m.event.column, m.event.row);
        self.pointer.sel = None;
        self.pointer.selecting = false;
        self.pointer.last_click = None;
        self.pointer.input_sel = Some(InputSel { anchor: cell, head: cell });
        self.pointer.input_selecting = true;
        self.set_caret(m.caret);
        self.refresh_file_menu();
    }

    fn select_word_at(&mut self, p: SelPoint)
        ensures
            final(self)@ == old(self)@.select_word(p),
    {
        proof {
            reveal(AppV::select_word);
        }
        let found = match self.frame.chat.line_text(p.line) {
            Some(line) => screen::word_span(line, p.col),
            None => return,
        };
        match found {
            None => self.clear_chat_sel(),
            Some((col, width, word)) => {
                self.pointer.sel = Some(
                    Selection {
                        anchor: SelPoint { line: p.line, col },
                        head: SelPoint { line: p.line, col: col.saturating_add(width - 1) },
                    },
                );
                self.pointer.selecting = false;
                self.emit(Effect::Copy(word));
            },
        }
    }

    fn click_on_chat(&mut self, p: SelPoint, col: u16, row: u16)
        ensures
            final(self)@ == old(self)@.click_chat(p, col, row),
    {
        proof {
            reveal(AppV::click_chat);
        }
        let double = doubles(self.pointer.last_click, self.clock.now, col, row);
        self.pointer.input_sel = None;
        self.pointer.input_selecting = false;
        self.pointer.last_click = Some(Click { at: self.clock.now, column: col, row });
        if double {
            self.select_word_at(p);
        } else {
            self.pointer.sel = Some(Selection { anchor: p, head: p });
            self.pointer.selecting = true;
        }
    }

    fn draft_takes_clicks(&self) -> (r: bool)
        ensures
            r == self@.draft_live(),
    {
        proof {
            reveal(session::slot_view);
        }
        self.live.asks.form.is_none() && self.live.agents.active.is_none()
    }

    fn expand_btn_hit(&self, col: u16, row: u16) -> (r: bool)
        ensures
            r == self@.over(self@.frame.expand_btn, col, row),
    {
        match &self.frame.expand_btn {
            Some(rect) => rect.contains(col, row),
            None => false,
        }
    }

    fn prompt_jump_btn_hit(&self, col: u16, row: u16) -> (r: bool)
        ensures
            r == self@.over(self@.frame.jump_btn, col, row),
    {
        match &self.frame.jump_btn {
            Some(rect) => rect.contains(col, row),
            None => false,
        }
    }

    fn click_low(&mut self, m: MouseInput)
        ensures
            final(self)@ == old(self)@.click_below(m),
    {
        proof {
            reveal(AppV::click_below);
        }
        let col: u16 = m.event.column;
        let row: u16 = m.event.row;
        let live = self.draft_takes_clicks();
        if live && self.prompt_jump_btn_hit(col, row) {
            self.jump_to_user_prompt();
        } else if live && self.expand_btn_hit(col, row) {
            self.toggle_input_height();
        } else if live && self.frame.input_area.contains(col, row) {
            self.place_caret(m);
        } else if let Some(p) = self.frame.chat.chat_hit(col, row) {
            self.click_on_chat(p, col, row);
        } else {
            self.pointer.sel = None;
            self.pointer.selecting = false;
            self.pointer.input_sel = None;
            self.pointer.input_selecting = false;
        }
    }

    fn click(&mut self, m: MouseInput)
        ensures
            final(self)@ == old(self)@.clicked(m),
    {
        proof {
            reveal(AppV::clicked);
        }
        let col: u16 = m.event.column;
        let row: u16 = m.event.row;
        self.redraw();
        if let Some(tab) = self.tab_at(col, row) {
            self.choose_tab(tab);
            return;
        }
        let k = find_action(&self.frame.actions, col, row);
        if k < self.frame.actions.len() {
            self.run_action(k);
            return;
        }
        if let Some(cell) = self.frame.chat.tool_at(col, row) {
            self.toggle_tool(cell);
            return;
        }
        self.click_low(m);
    }

    fn scroll_at_edge(&mut self, row: u16)
        ensures
            final(self)@ == old(self)@.edge_scrolled(row),
    {
        let a = self.frame.chat.area;
        if row < a.y {
            self.scroll_by(2);
        } else if row >= a.y.saturating_add(a.height) {
            self.scroll_by(-2);
        }
    }

    fn drag(&mut self, m: MouseEvent)
        ensures
            final(self)@ == old(self)@.dragged(m),
    {
        proof {
            reveal(AppV::dragged);
        }
        if self.pointer.selecting {
            self.scroll_at_edge(m.row);
            let head = self.frame.chat.chat_clamp(m.column, m.row);
            if let Some(s) = self.pointer.sel {
                self.pointer.sel = Some(Selection { anchor: s.anchor, head });
            }
            self.redraw();
        } else if self.pointer.input_selecting {
            let head = self.input_cell_at(m.column, m.row);
            if let Some(s) = self.pointer.input_sel {
                self.pointer.input_sel = Some(InputSel { anchor: s.anchor, head });
            }
            self.redraw();
        }
    }

    fn finish_selection(&mut self)
        ensures
            final(self)@ == old(self)@.selection_done(),
    {
        proof {
            reveal(AppV::selection_done);
        }
        self.pointer.selecting = false;
        self.redraw();
        if let Some(s) = self.pointer.sel {
            if s.is_caret() {
                self.clear_chat_sel();
                return;
            }
            let t = self.frame.chat.selection_text(s);
            let trimmed = text::trim(t.as_str());
            if trimmed.as_str().is_empty() {
                self.clear_chat_sel();
            } else {
                self.emit(Effect::Copy(t));
            }
        }
    }

    fn finish_input_selection(&mut self, range: Option<(usize, usize)>)
        ensures
            final(self)@ == old(self)@.input_selection_done(range),
    {
        proof {
            reveal(AppV::input_selection_done);
        }
        self.pointer.input_selecting = false;
        self.redraw();
        if let Some(s) = self.pointer.input_sel {
            let still = s.anchor.0 == s.head.0 && s.anchor.1 == s.head.1;
            match range {
                None => self.clear_input_sel(),
                Some(r) => {
                    let t = self.between(r);
                    let trimmed = text::trim(t.as_str());
                    if still || trimmed.as_str().is_empty() {
                        self.clear_input_sel();
                    } else {
                        self.emit(Effect::Copy(t));
                    }
                },
            }
        }
    }

    fn hover(&mut self, col: u16, row: u16)
        ensures
            final(self)@ == old(self)@.hovered(col, row),
    {
        proof {
            reveal(AppV::hovered);
        }
        let expand = self.expand_btn_hit(col, row);
        let jump = self.prompt_jump_btn_hit(col, row);
        let chip = screen::hit(&self.frame.chips, col, row);
        let same_chip = match (chip, self.pointer.over_chip) {
            (Some(a), Some(b)) => a == b,
            (None, None) => true,
            _ => false,
        };
        let same = expand == self.pointer.over_expand && jump == self.pointer.over_jump
            && same_chip;
        self.pointer.position = Some((col, row));
        self.pointer.over_expand = expand;
        self.pointer.over_jump = jump;
        self.pointer.over_chip = chip;
        if !same {
            self.redraw();
        }
    }

    /// Takes what the mouse did.
    pub(crate) fn handle_mouse(&mut self, m: MouseInput)
        ensures
            final(self)@ == old(self)@.mouse(m),
    {
        proof {
            reveal(AppV::mouse);
        }
        match m.event.kind {
            MouseEventKind::ScrollUp => self.turn_wheel(true),
            MouseEventKind::ScrollDown => self.turn_wheel(false),
            MouseEventKind::Down(MouseButton::Left) => self.click(m),
            MouseEventKind::Drag(MouseButton::Left) => self.drag(m.event),
            MouseEventKind::Up(MouseButton::Left) => if self.pointer.selecting {
                self.finish_selection();
            } else if self.pointer.input_selecting {
                self.finish_input_selection(m.range);
            },
            MouseEventKind::Moved => self.hover(m.event.column, m.event.row),
            _ => {},
        }
    }

    fn jump(&mut self, p: PromptPlace, total: usize)
        ensures
            final(self)@ == old(self)@.jumped(p, total as int),
    {
        proof {
            reveal(AppV::jumped);
        }
        let (start, up) = anchor(p.line, total, self.frame.chat.area.height as usize);
        self.pointer.jump_cell = Some(p.cell);
        self.frame.chat.manual_top = if up > 0 {
            Some(start)
        } else {
            None
        };
        self.pointer.flash = Some(
            Flash { cell: p.cell, until: self.clock.now.saturating_add(PROMPT_FLASH_TTL) },
        );
        self.scroll_to(up);
        self.redraw();
    }

    pub(crate) fn jump_to_located(&mut self, users: &Vec<PromptPlace>, lines: usize)
        ensures
            final(self)@ == old(self)@.located(users@, lines),
    {
        proof {
            reveal(AppV::located);
        }
        if users.len() == 0 {
            self.tell(
                "no user prompts yet — ↥ finds them once you send one",
                "还没有用户输入 —— 发送后 ↥ 即可跳转",
            );
            return;
        }
        let total: usize = if matches!(self.state, RunState::Idle) {
            lines
        } else {
            lines.saturating_add(1)
        };
        let k = choose_target(users, self.pointer.jump_cell);
        let p = users[k];
        proof {
            lemma_last_place(users@, k as int);
        }
        let back = text::count_string(count_back(users, p.cell));
        let all = text::count_string(users.len());
        let t = app::say2(
            self.base.locale,
            ("↥ user prompt ", "/", " · newest first"),
            ("↥ 用户输入 ", "/", " · 从最新往前"),
            back.as_str(),
            all.as_str(),
        );
        self.jump(p, total);
        self.show_tip(t);
    }

    pub(crate) fn say_tool_toggled(&mut self, expanded: bool)
        ensures
            final(self)@ == old(self)@.tool_toggled(expanded),
    {
        self.tell1(
            ("", " tool output · click toggles"),
            ("", " 工具输出 · 点击切换展开"),
            if expanded {
                "expanded"
            } else {
                "collapsed"
            },
        );
        self.redraw();
    }

    pub(crate) fn say_copied(&mut self, t: &str, done: bool)
        ensures
            final(self)@ == old(self)@.copied(t@, done),
    {
        proof {
            reveal(AppV::copied);
        }
        if done {
            let n = text::count_string(text::chars_of(t).len());
            self.tell1(
                ("✓ copied ", " chars — esc clears the highlight"),
                ("✓ 已复制 ", " 个字符 —— esc 清除高亮"),
                n.as_str(),
            );
        } else {
            self.tell(
                "copy failed — hold shift and drag for the terminal's native selection",
                "复制失败 —— 按住 shift 拖动可使用终端原生选择",
            );
        }
    }
}

} // verus!
