//! Cells of the screen: how wide characters are, what a pointer hits, and
//! which text a selection covers.

use crate::text;
use unicode_width::UnicodeWidthChar;
use vstd::prelude::*;

verus! {

/// What `unicode_width` gives as the width of a character: its columns, or
/// nothing for a control character.
pub uninterp spec fn char_columns(c: char) -> Option<usize>;

/// `unicode_width::UnicodeWidthChar::width`: the columns that a character takes
/// outside an East Asian context, by a table of the Unicode standard; no
/// character takes more than three.
#[verifier::external_body]
fn columns_of(c: char) -> (r: Option<usize>)
    ensures
        r == char_columns(c),
        r matches Some(n) ==> n <= 3,
{
    c.width()
}

/// The cells that a character takes on the screen: at least one, so that every
/// character can be pointed at.
pub open spec fn cell_width(c: char) -> int {
    match char_columns(c) {
        Some(n) => if n > 0 {
            n as int
        } else {
            1
        },
        None => 1,
    }
}

pub(crate) fn cell_width_of(c: char) -> (r: u128)
    ensures
        r == cell_width(c),
        1 <= r <= 3,
{
    match columns_of(c) {
        Some(n) => if n > 0 {
            n as u128
        } else {
            1
        },
        None => 1,
    }
}

/// The cells that a text takes.
pub open spec fn cells(s: Seq<char>) -> int
    decreases s.len(),
{
    if s.len() == 0 {
        0
    } else {
        cells(s.drop_last()) + cell_width(s.last())
    }
}

/// The characters of a text whose cells overlap the range from `from` up to,
/// not including, `to`.
pub open spec fn sliced(s: Seq<char>, from: int, to: int) -> Seq<char>
    decreases s.len(),
{
    if s.len() == 0 {
        Seq::empty()
    } else {
        let at = cells(s.drop_last());
        if at + cell_width(s.last()) > from && at < to {
            sliced(s.drop_last(), from, to).push(s.last())
        } else {
            sliced(s.drop_last(), from, to)
        }
    }
}

/// The largest number that a `usize` can hold, or the number itself.
pub open spec fn fits(n: int) -> int {
    if n <= usize::MAX {
        n
    } else {
        usize::MAX as int
    }
}

fn to_usize(n: u128) -> (r: usize)
    ensures
        r == fits(n as int),
{
    if n <= usize::MAX as u128 {
        n as usize
    } else {
        usize::MAX
    }
}

proof fn lemma_nothing_behind(s: Seq<char>, n: int, from: int, to: int)
    requires
        0 <= n <= s.len(),
        cells(s.take(n)) >= to,
        forall|i: int| 0 <= i < s.len() ==> cell_width(#[trigger] s[i]) >= 1,
    ensures
        sliced(s, from, to) == sliced(s.take(n), from, to),
        cells(s) >= to,
    decreases s.len(),
{
    if n < s.len() {
        assert(s.drop_last().take(n) =~= s.take(n));
        assert(forall|i: int| 0 <= i < s.len() - 1 ==> s.drop_last()[i] == s[i]);
        lemma_nothing_behind(s.drop_last(), n, from, to);
        assert(s.last() == s[s.len() - 1]);
    } else {
        assert(s.take(n) =~= s);
    }
}

proof fn lemma_cell_widths(s: Seq<char>)
    ensures
        forall|i: int| 0 <= i < s.len() ==> cell_width(#[trigger] s[i]) >= 1,
{
}

/// The part of a text in a range of cells. A wide character that straddles the
/// edge is part of it.
pub fn slice_by_cells(s: &str, from: usize, to: usize) -> (r: String)
    ensures
        r@ == sliced(s@, from as int, to as int),
{
    let v = text::chars_of(s);
    let mut out = text::empty();
    let mut at: u128 = 0;
    let mut i: usize = 0;
    assert(v@.take(0) =~= Seq::empty());
    while i < v.len()
        invariant
            i <= v@.len(),
            v@ == s@,
            at == cells(v@.take(i as int)),
            at <= 3 * i,
            out@ == sliced(v@.take(i as int), from as int, to as int),
        decreases v@.len() - i,
    {
        let c = v[i];
        let w: u128 = cell_width_of(c);
        assert(v@.take(i as int + 1).drop_last() =~= v@.take(i as int));
        if at + w > from as u128 && at < to as u128 {
            out.push(c);
        }
        at = at + w;
        i = i + 1;
        if at >= to as u128 {
            proof {
                lemma_cell_widths(v@);
                lemma_nothing_behind(v@, i as int, from as int, to as int);
            }
            return out;
        }
    }
    assert(v@.take(i as int) =~= v@);
    out
}

/// The index of the character under a column; the length where the text ends
/// before it.
pub open spec fn char_under(s: Seq<char>, col: int) -> int
    decreases s.len(),
{
    if s.len() == 0 {
        0
    } else {
        let h = char_under(s.drop_last(), col);
        if h < s.len() - 1 {
            h
        } else if col < cells(s) {
            s.len() - 1
        } else {
            s.len() as int
        }
    }
}

/// Where the word around a character begins.
pub open spec fn word_start(s: Seq<char>, i: int) -> int
    decreases i,
{
    if i > 0 && !text::white_space(s[i - 1]) {
        word_start(s, i - 1)
    } else {
        i
    }
}

/// Where the word around a character ends: behind its last character.
pub open spec fn word_end(s: Seq<char>, i: int) -> int
    decreases s.len() - i,
{
    if 0 <= i && i + 1 < s.len() && !text::white_space(s[i + 1]) {
        word_end(s, i + 1)
    } else {
        i + 1
    }
}

proof fn lemma_char_under_stays(s: Seq<char>, n: int, col: int)
    requires
        0 <= n <= s.len(),
        char_under(s.take(n), col) < n,
    ensures
        char_under(s, col) == char_under(s.take(n), col),
    decreases s.len(),
{
    if n < s.len() {
        assert(s.drop_last().take(n) =~= s.take(n));
        lemma_char_under_stays(s.drop_last(), n, col);
    } else {
        assert(s.take(n) =~= s);
    }
}

proof fn lemma_cells_of_parts(a: Seq<char>, b: Seq<char>)
    ensures
        cells(a + b) == cells(a) + cells(b),
    decreases b.len(),
{
    if b.len() > 0 {
        assert((a + b).drop_last() =~= a + b.drop_last());
        lemma_cells_of_parts(a, b.drop_last());
    } else {
        assert(a + b =~= a);
    }
}

fn cells_of_range(v: &Vec<char>, from: usize, to: usize) -> (r: u128)
    requires
        from <= to <= v@.len(),
    ensures
        r == cells(v@.subrange(from as int, to as int)),
        r <= 3 * (to - from),
{
    let mut n: u128 = 0;
    let mut i: usize = from;
    assert(v@.subrange(from as int, from as int) =~= Seq::empty());
    while i < to
        invariant
            from <= i <= to <= v@.len(),
            n == cells(v@.subrange(from as int, i as int)),
            n <= 3 * (i - from),
        decreases to - i,
    {
        assert(v@.subrange(from as int, i as int + 1).drop_last() =~= v@.subrange(
            from as int,
            i as int,
        ));
        n = n + cell_width_of(v[i]);
        i = i + 1;
    }
    n
}

/// The word under a column, between white space: the column it begins at, the
/// cells it takes, and the word.
pub open spec fn word_under(s: Seq<char>, col: int) -> Option<(int, int, Seq<char>)> {
    let i = char_under(s, col);
    if i >= s.len() || text::white_space(s[i]) {
        None
    } else {
        let from = word_start(s, i);
        let to = word_end(s, i);
        let word = s.subrange(from, to);
        Some((fits(cells(s.take(from))), fits(cells(word)), word))
    }
}

pub fn word_span(line: &str, col: usize) -> (r: Option<(usize, usize, String)>)
    ensures
        match r {
            Some((at, width, word)) => word_under(line@, col as int) == Some(
                (at as int, width as int, word@),
            ) && word@.len() > 0 && width >= 1,
            None => word_under(line@, col as int) is None,
        },
{
    let v = text::chars_of(line);
    let mut at: u128 = 0;
    let mut i: usize = 0;
    let mut found = false;
    assert(v@.take(0) =~= Seq::empty());
    while i < v.len() && !found
        invariant
            i <= v@.len(),
            v@ == line@,
            at == cells(v@.take(i as int)),
            at <= 3 * i,
            !found ==> char_under(v@.take(i as int), col as int) == i,
            found ==> i < v@.len() && char_under(v@, col as int) == i,
        decreases v@.len() - i + (if found { 0int } else { 1 }),
    {
        assert(v@.take(i as int + 1).drop_last() =~= v@.take(i as int));
        let w: u128 = cell_width_of(v[i]);
        if (col as u128) < at + w {
            proof {
                lemma_char_under_stays(v@, i as int + 1, col as int);
            }
            found = true;
        } else {
            at = at + w;
            i = i + 1;
        }
    }
    if !found {
        assert(v@.take(i as int) =~= v@);
        return None;
    }
    if text::is_white_space(v[i]) {
        return None;
    }
    let mut a: usize = i;
    while a > 0 && !text::is_white_space(v[a - 1])
        invariant
            a <= i < v@.len(),
            word_start(v@, a as int) == word_start(v@, i as int),
        decreases a,
    {
        a = a - 1;
    }
    let mut b: usize = i;
    while b < v.len() - 1 && !text::is_white_space(v[b + 1])
        invariant
            i <= b < v@.len(),
            word_end(v@, b as int) == word_end(v@, i as int),
        decreases v@.len() - b,
    {
        b = b + 1;
    }
    let start: u128 = cells_of_range(&v, 0, a);
    let width: u128 = cells_of_range(&v, a, b + 1);
    assert(v@.subrange(0, a as int) =~= v@.take(a as int));
    proof {
        let word = v@.subrange(a as int, b as int + 1);
        assert(word.len() > 0);
        assert(cells(word) == cells(word.drop_last()) + cell_width(word.last()));
        lemma_cells_not_negative(word.drop_last());
    }
    Some((to_usize(start), to_usize(width), text::string_of_range(&v, a, b + 1)))
}

proof fn lemma_cells_not_negative(s: Seq<char>)
    ensures
        cells(s) >= 0,
    decreases s.len(),
{
    if s.len() > 0 {
        lemma_cells_not_negative(s.drop_last());
    }
}

// --- selections -----------------------------------------------------------------

/// One end of a selection: a line of the whole layout and a column.
#[derive(Debug, Clone, Copy, PartialEq, Eq, Structural)]
pub struct SelPoint {
    pub line: usize,
    pub col: usize,
}

/// A selection with the mouse; `head` follows the pointer and may stand before
/// `anchor`.
#[derive(Debug, Clone, Copy, PartialEq, Eq, Structural)]
pub struct Selection {
    pub anchor: SelPoint,
    pub head: SelPoint,
}

pub open spec fn before(a: SelPoint, b: SelPoint) -> bool {
    a.line < b.line || (a.line == b.line && a.col < b.col)
}

impl Selection {
    pub open spec fn span(self) -> (SelPoint, SelPoint) {
        if before(self.head, self.anchor) {
            (self.head, self.anchor)
        } else {
            (self.anchor, self.head)
        }
    }

    /// Both ends in reading order; the second one is part of the selection.
    pub fn ordered(&self) -> (r: (SelPoint, SelPoint))
        ensures
            r == self.span(),
            !before(r.1, r.0),
    {
        if self.head.line < self.anchor.line || (self.head.line == self.anchor.line && self.head.col
            < self.anchor.col) {
            (self.head, self.anchor)
        } else {
            (self.anchor, self.head)
        }
    }

    /// Whether it is a mere click.
    pub fn is_caret(&self) -> (r: bool)
        ensures
            r == (self.anchor == self.head),
    {
        self.anchor == self.head
    }
}

/// The direction of a drag does not matter.
pub proof fn law_selection_direction_does_not_matter(a: SelPoint, b: SelPoint)
    ensures
        (Selection { anchor: a, head: b }).span() == (Selection { anchor: b, head: a }).span(),
{
}

/// A selection in the composer: the cells, row and column, where the drag
/// began and where the pointer is.
#[derive(Debug, Clone, Copy, PartialEq, Eq)]
pub struct InputSel {
    pub anchor: (usize, usize),
    pub head: (usize, usize),
}

#[derive(Debug, Clone, Copy, PartialEq, Eq, Structural)]
pub struct Rect {
    pub x: u16,
    pub y: u16,
    pub width: u16,
    pub height: u16,
}

pub open spec fn end_of(at: u16, size: u16) -> u16 {
    if at + size <= u16::MAX {
        (at + size) as u16
    } else {
        u16::MAX
    }
}

impl Rect {
    /// Whether a cell of the screen lies in it.
    pub open spec fn holds(self, col: u16, row: u16) -> bool {
        self.x <= col < end_of(self.x, self.width) && self.y <= row < end_of(self.y, self.height)
    }

    pub fn contains(&self, col: u16, row: u16) -> (r: bool)
        ensures
            r == self.holds(col, row),
    {
        col >= self.x && col < self.x.saturating_add(self.width) && row >= self.y && row
            < self.y.saturating_add(self.height)
    }

    pub fn empty() -> (r: Rect)
        ensures
            r == (Rect { x: 0, y: 0, width: 0, height: 0 }),
    {
        Rect { x: 0, y: 0, width: 0, height: 0 }
    }
}

/// Where among the rows of `(rect, number)` a cell lies: the number of the
/// first that holds it.
pub open spec fn first_hit(rects: Seq<(Rect, usize)>, col: u16, row: u16) -> Option<usize>
    decreases rects.len(),
{
    if rects.len() == 0 {
        None
    } else if rects[0].0.holds(col, row) {
        Some(rects[0].1)
    } else {
        first_hit(rects.skip(1), col, row)
    }
}

pub fn hit(rects: &Vec<(Rect, usize)>, col: u16, row: u16) -> (r: Option<usize>)
    ensures
        r == first_hit(rects@, col, row),
{
    let mut i: usize = 0;
    assert(rects@.skip(0) =~= rects@);
    while i < rects.len()
        invariant
            i <= rects@.len(),
            first_hit(rects@, col, row) == first_hit(rects@.skip(i as int), col, row),
        decreases rects@.len() - i,
    {
        assert(rects@.skip(i as int).skip(1) =~= rects@.skip(i as int + 1));
        if rects[i].0.contains(col, row) {
            return Some(rects[i].1);
        }
        i = i + 1;
    }
    None
}

/// The chat pane as the last frame showed it.
#[derive(Debug, PartialEq, Eq)]
pub struct ChatView {
    pub area: Rect,
    /// The first line shown, counted over the whole layout.
    pub top: usize,
    /// The first line to show while the user reads further up.
    pub manual_top: Option<usize>,
    /// The texts of the lines shown, from `top` on.
    pub lines: Vec<String>,
    /// The transcript cell that each line shown belongs to.
    pub owners: Vec<Option<usize>>,
    /// The number of lines of the whole layout.
    pub total: usize,
}

#[verifier::ext_equal]
pub ghost struct ChatViewV {
    pub area: Rect,
    pub top: usize,
    pub manual_top: Option<usize>,
    pub lines: Seq<Seq<char>>,
    pub owners: Seq<Option<usize>>,
    pub total: usize,
}

impl View for ChatView {
    type V = ChatViewV;

    open spec fn view(&self) -> ChatViewV {
        ChatViewV {
            area: self.area,
            top: self.top,
            manual_top: self.manual_top,
            lines: text::views(self.lines@),
            owners: self.owners@,
            total: self.total,
        }
    }
}

pub open spec fn no_chat_view() -> ChatViewV {
    ChatViewV {
        area: Rect { x: 0, y: 0, width: 0, height: 0 },
        top: 0,
        manual_top: None,
        lines: Seq::empty(),
        owners: Seq::empty(),
        total: 0,
    }
}

impl ChatViewV {
    pub open spec fn text_of(self, line: int) -> Option<Seq<char>> {
        if self.top <= line < self.top + self.lines.len() {
            Some(self.lines[line - self.top])
        } else {
            None
        }
    }

    pub open spec fn owner_of(self, line: int) -> Option<usize> {
        if self.top <= line < self.top + self.owners.len() {
            self.owners[line - self.top]
        } else {
            None
        }
    }

    /// The point under a cell of the screen, nothing outside the pane. Below
    /// the last line it is on the last line.
    pub open spec fn point_at(self, col: u16, row: u16) -> Option<SelPoint> {
        if self.lines.len() == 0 || !self.area.holds(col, row) {
            None
        } else {
            let down = row - self.area.y;
            let rel = if down < self.lines.len() {
                down
            } else {
                self.lines.len() - 1
            };
            Some(
                SelPoint {
                    line: fits(self.top + rel) as usize,
                    col: (col - self.area.x) as usize,
                },
            )
        }
    }

    /// The point of the pane nearest to a cell of the screen.
    pub open spec fn nearest_point(self, col: u16, row: u16) -> SelPoint {
        let a = self.area;
        let c = clamped(col, a.x, a.width);
        let r = clamped(row, a.y, a.height);
        match self.point_at(c, r) {
            Some(p) => p,
            None => SelPoint { line: 0, col: 0 },
        }
    }

    /// The text from one end of a selection to the other, as far as the frame
    /// shows it: without the white space at the ends of lines.
    pub open spec fn selected(self, sel: Selection) -> Seq<char> {
        let (s, e) = sel.span();
        let first = if s.line >= self.top {
            s.line - self.top
        } else {
            0
        };
        let to = if e.line - self.top < self.lines.len() {
            e.line - self.top + 1
        } else {
            self.lines.len() as int
        };
        if self.lines.len() == 0 || e.line < self.top || first >= to {
            Seq::empty()
        } else {
            text::joined(self.selected_lines(s, e, first, to), "\n"@)
        }
    }

    pub open spec fn selected_line(self, s: SelPoint, e: SelPoint, i: int) -> Seq<char> {
        let from = if i + self.top == s.line {
            s.col as int
        } else {
            0
        };
        let to = if i + self.top == e.line {
            fits(e.col + 1)
        } else {
            usize::MAX as int
        };
        text::trimmed_end(sliced(self.lines[i], from, to))
    }

    pub open spec fn selected_lines(self, s: SelPoint, e: SelPoint, from: int, to: int) -> Seq<
        Seq<char>,
    > {
        Seq::new((to - from) as nat, |k: int| self.selected_line(s, e, from + k))
    }
}

/// A coordinate moved into a range of cells.
pub open spec fn clamped(at: u16, from: u16, size: u16) -> u16 {
    let last = end_of(from, if size > 0 {
        (size - 1) as u16
    } else {
        0
    });
    if at < from {
        from
    } else if at > last {
        last
    } else {
        at
    }
}

fn clamp_to(at: u16, from: u16, size: u16) -> (r: u16)
    ensures
        r == clamped(at, from, size),
{
    let last: u16 = from.saturating_add(size.saturating_sub(1));
    if at < from {
        from
    } else if at > last {
        last
    } else {
        at
    }
}

impl ChatView {
    pub fn empty() -> (r: ChatView)
        ensures
            r@ == no_chat_view(),
    {
        let r = ChatView {
            area: Rect::empty(),
            top: 0,
            manual_top: None,
            lines: Vec::new(),
            owners: Vec::new(),
            total: 0,
        };
        assert(r@ =~= no_chat_view());
        r
    }

    /// The text of a line of the layout; nothing outside the frame.
    pub fn line_text(&self, line: usize) -> (r: Option<&str>)
        ensures
            text::opt_str_view(r) == self@.text_of(line as int),
    {
        if line < self.top || line - self.top >= self.lines.len() {
            None
        } else {
            Some(self.lines[line - self.top].as_str())
        }
    }

    /// The transcript cell that a line of the layout belongs to.
    pub fn line_owner(&self, line: usize) -> (r: Option<usize>)
        ensures
            r == self@.owner_of(line as int),
    {
        if line < self.top || line - self.top >= self.owners.len() {
            None
        } else {
            self.owners[line - self.top]
        }
    }

    pub fn chat_hit(&self, col: u16, row: u16) -> (r: Option<SelPoint>)
        ensures
            r == self@.point_at(col, row),
    {
        if self.lines.len() == 0 || !self.area.contains(col, row) {
            return None;
        }
        let down: usize = (row - self.area.y) as usize;
        let rel: usize = if down < self.lines.len() {
            down
        } else {
            self.lines.len() - 1
        };
        Some(SelPoint { line: self.top.saturating_add(rel), col: (col - self.area.x) as usize })
    }

    /// Like `chat_hit`, with a pointer outside the pane moved to its edge.
    pub fn chat_clamp(&self, col: u16, row: u16) -> (r: SelPoint)
        ensures
            r == self@.nearest_point(col, row),
    {
        let a = self.area;
        let c: u16 = clamp_to(col, a.x, a.width);
        let r: u16 = clamp_to(row, a.y, a.height);
        match self.chat_hit(c, r) {
            Some(p) => p,
            None => SelPoint { line: 0, col: 0 },
        }
    }

    /// The transcript cell under a cell of the screen.
    pub fn tool_at(&self, col: u16, row: u16) -> (r: Option<usize>)
        ensures
            r == (match self@.point_at(col, row) {
                Some(p) => self@.owner_of(p.line as int),
                None => None,
            }),
    {
        match self.chat_hit(col, row) {
            Some(p) => self.line_owner(p.line),
            None => None,
        }
    }

    /// The text that a selection covers.
    pub fn selection_text(&self, sel: Selection) -> (r: String)
        ensures
            r@ == self@.selected(sel),
    {
        let (s, e) = sel.ordered();
        if self.lines.len() == 0 || e.line < self.top {
            return text::empty();
        }
        let first: usize = if s.line >= self.top {
            s.line - self.top
        } else {
            0
        };
        let to: usize = if e.line - self.top < self.lines.len() {
            e.line - self.top + 1
        } else {
            self.lines.len()
        };
        if first >= to {
            return text::empty();
        }
        let mut out: Vec<String> = Vec::new();
        let mut i: usize = first;
        while i < to
            invariant
                first <= i <= to <= self.lines@.len(),
                out@.len() == i - first,
                forall|k: int|
                    0 <= k < out@.len() ==> (#[trigger] out@[k])@ == self@.selected_line(
                        s,
                        e,
                        first + k,
                    ),
            decreases to - i,
        {
            let from: usize = if s.line >= self.top && i == s.line - self.top {
                s.col
            } else {
                0
            };
            let end: usize = if e.line >= self.top && i == e.line - self.top {
                e.col.saturating_add(1)
            } else {
                usize::MAX
            };
            let part = slice_by_cells(self.lines[i].as_str(), from, end);
            out.push(text::trim_end(part.as_str()));
            i = i + 1;
        }
        assert(text::views(out@) =~= self@.selected_lines(s, e, first as int, to as int));
        text::join(&out, "\n")
    }
}

// --- words under a column -------------------------------------------------------

proof fn lemma_cells_grow(s: Seq<char>, a: int, b: int)
    requires
        0 <= a <= b <= s.len(),
    ensures
        cells(s.take(a)) <= cells(s.take(b)),
        a < b ==> cells(s.take(a)) < cells(s.take(b)),
    decreases b - a,
{
    if a < b {
        assert(s.take(b).drop_last() =~= s.take(b - 1));
        lemma_cells_grow(s, a, b - 1);
    }
}

proof fn lemma_char_under(s: Seq<char>, col: int)
    requires
        0 <= col,
    ensures
        0 <= char_under(s, col) <= s.len(),
        char_under(s, col) < s.len() ==> cells(s.take(char_under(s, col))) <= col && col < cells(
            s.take(char_under(s, col) + 1),
        ),
        char_under(s, col) == s.len() ==> cells(s) <= col,
    decreases s.len(),
{
    if s.len() > 0 {
        let init = s.drop_last();
        lemma_char_under(init, col);
        let h = char_under(init, col);
        if h < init.len() {
            assert(init.take(h) =~= s.take(h));
            assert(init.take(h + 1) =~= s.take(h + 1));
        } else {
            assert(s.take(h) =~= init);
            assert(s.take(h + 1) =~= s);
        }
    }
}

proof fn lemma_char_under_is(s: Seq<char>, col: int, from: int, to: int)
    requires
        0 <= from < to <= s.len(),
        cells(s.take(from)) <= col < cells(s.take(to)),
    ensures
        from <= char_under(s, col) < to,
{
    lemma_cells_not_negative(s.take(from));
    lemma_char_under(s, col);
    let j = char_under(s, col);
    if j >= to {
        lemma_cells_grow(s, to, j);
        assert(s.take(s.len() as int) =~= s);
    } else if j < from {
        lemma_cells_grow(s, j + 1, from);
    }
}

proof fn lemma_word_start(s: Seq<char>, i: int)
    requires
        0 <= i < s.len(),
    ensures
        0 <= word_start(s, i) <= i,
        forall|k: int| word_start(s, i) <= k < i ==> !text::white_space(#[trigger] s[k]),
        word_start(s, i) == 0 || text::white_space(s[word_start(s, i) - 1]),
    decreases i,
{
    if i > 0 && !text::white_space(s[i - 1]) {
        lemma_word_start(s, i - 1);
    }
}

proof fn lemma_word_end(s: Seq<char>, i: int)
    requires
        0 <= i < s.len(),
    ensures
        i < word_end(s, i) <= s.len(),
        forall|k: int| i < k < word_end(s, i) ==> !text::white_space(#[trigger] s[k]),
        word_end(s, i) == s.len() || text::white_space(s[word_end(s, i)]),
    decreases s.len() - i,
{
    if i + 1 < s.len() && !text::white_space(s[i + 1]) {
        lemma_word_end(s, i + 1);
    }
}

/// Every character of a word has the same word around it.
proof fn lemma_same_word(s: Seq<char>, i: int, j: int)
    requires
        0 <= i < s.len(),
        !text::white_space(s[i]),
        word_start(s, i) <= j < word_end(s, i),
    ensures
        0 <= j < s.len(),
        !text::white_space(s[j]),
        word_start(s, j) == word_start(s, i),
        word_end(s, j) == word_end(s, i),
{
    lemma_word_start(s, i);
    lemma_word_end(s, i);
    lemma_word_start(s, j);
    lemma_word_end(s, j);
    let a = word_start(s, i);
    let b = word_start(s, j);
    if b < a {
        assert(!text::white_space(s[a - 1]));
    } else if a < b {
        assert(!text::white_space(s[b - 1]));
    }
    let a = word_end(s, i);
    let b = word_end(s, j);
    if a < b {
        assert(!text::white_space(s[a]));
    } else if b < a {
        assert(!text::white_space(s[b]));
    }
}

proof fn lemma_sliced_part(s: Seq<char>, from: int, to: int, n: int)
    requires
        0 <= from <= to <= s.len(),
        0 <= n <= s.len(),
    ensures
        sliced(s.take(n), cells(s.take(from)), cells(s.take(to))) == (if n <= from {
            Seq::empty()
        } else if n <= to {
            s.subrange(from, n)
        } else {
            s.subrange(from, to)
        }),
    decreases n,
{
    if n > 0 {
        lemma_sliced_part(s, from, to, n - 1);
        assert(s.take(n).drop_last() =~= s.take(n - 1));
        assert(s.take(n).last() == s[n - 1]);
        assert(cells(s.take(n)) == cells(s.take(n - 1)) + cell_width(s[n - 1]));
        if n <= from {
            lemma_cells_grow(s, n, from);
        } else {
            lemma_cells_grow(s, from, n);
            if n <= to {
                lemma_cells_grow(s, n - 1, to);
                assert(s.subrange(from, n) =~= s.subrange(from, n - 1).push(s[n - 1]));
                if n == from + 1 {
                    assert(s.subrange(from, from) =~= Seq::empty());
                }
            } else {
                lemma_cells_grow(s, to, n - 1);
                if n - 1 == from {
                    assert(s.subrange(from, to) =~= Seq::empty());
                }
            }
        }
    }
}

/// There is a word under a column where the line reaches that far and no white
/// space stands there.
pub proof fn law_word_or_white_space(s: Seq<char>, col: int)
    requires
        0 <= col,
    ensures
        word_under(s, col) is None <==> cells(s) <= col || text::white_space(s[char_under(s, col)]),
{
    lemma_char_under(s, col);
    if char_under(s, col) < s.len() {
        lemma_cells_grow(s, char_under(s, col) + 1, s.len() as int);
        assert(s.take(s.len() as int) =~= s);
    }
}

/// The word under a column covers that column, holds no white space and has
/// white space or an end of the line on both sides. It is what stands in its
/// columns, and the word under each of them.
pub proof fn law_word_covers_its_columns(s: Seq<char>, col: int)
    requires
        0 <= col,
        cells(s) <= usize::MAX,
        word_under(s, col) is Some,
    ensures
        ({
            let (at, width, word) = word_under(s, col)->0;
            let from = word_start(s, char_under(s, col));
            let to = word_end(s, char_under(s, col));
            &&& at <= col < at + width
            &&& word.len() > 0
            &&& forall|k: int| 0 <= k < word.len() ==> !text::white_space(#[trigger] word[k])
            &&& 0 <= from < to <= s.len() && word == s.subrange(from, to)
            &&& from == 0 || text::white_space(s[from - 1])
            &&& to == s.len() || text::white_space(s[to])
            &&& sliced(s, at, at + width) == word
            &&& forall|c: int|
                at <= c < at + width ==> #[trigger] word_under(s, c) == word_under(s, col)
        }),
{
    lemma_char_under(s, col);
    let i = char_under(s, col);
    lemma_word_start(s, i);
    lemma_word_end(s, i);
    let from = word_start(s, i);
    let to = word_end(s, i);
    let word = s.subrange(from, to);
    assert(s.take(s.len() as int) =~= s);
    lemma_cells_of_parts(s.take(from), word);
    assert(s.take(from) + word =~= s.take(to));
    lemma_cells_grow(s, from, i);
    lemma_cells_grow(s, i + 1, to);
    lemma_cells_grow(s, to, s.len() as int);
    lemma_cells_not_negative(s.take(from));
    lemma_cells_not_negative(word);
    lemma_sliced_part(s, from, to, s.len() as int);
    let at = cells(s.take(from));
    let width = cells(word);
    assert forall|k: int| 0 <= k < word.len() implies !text::white_space(#[trigger] word[k]) by {
        assert(word[k] == s[from + k]);
    }
    assert forall|c: int| at <= c < at + width implies #[trigger] word_under(s, c) == word_under(
        s,
        col,
    ) by {
        lemma_char_under_is(s, c, from, to);
        lemma_same_word(s, i, char_under(s, c));
    }
}

} // verus!
