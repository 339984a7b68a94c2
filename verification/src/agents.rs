//! The subagents of a session: walking among them, and what plugins are told
//! of them and of the queue.

use crate::app::{App, AppV};
use crate::bus::{AgentsSnapshot, AgentsSnapshotItem, AgentsSnapshotV, QueueSnapshot, QueueSnapshotItem, QueueSnapshotV};
use crate::draft::{self, BlockV, StagedBlock};
use crate::lists::Row;
use crate::picker::{self, PickerItem, PickerKind};
use crate::seqs;
use crate::session::{self, Agents, AgentsV, QueueV, QueuedV, SubagentView, ViewV};
use crate::text;
use crate::theme::opened;
use vstd::prelude::*;

verus! {

pub open spec fn history_id() -> Seq<char> {
    "__martty_internal__:agent-history"@
}

/// Whether a subagent belongs to the newest batch.
pub open spec fn in_batch(current: Seq<Seq<char>>, id: Seq<char>) -> bool {
    current.len() == 0 || current.contains(id)
}

pub open spec fn recent(current: Seq<Seq<char>>) -> spec_fn(ViewV) -> bool {
    |v: ViewV| in_batch(current, v.id)
}

pub open spec fn past(current: Seq<Seq<char>>) -> spec_fn(ViewV) -> bool {
    |v: ViewV| !in_batch(current, v.id)
}

pub open spec fn view_ids(v: Seq<ViewV>) -> Seq<Seq<char>> {
    Seq::new(v.len(), |i: int| v[i].id)
}

/// What one can walk through: the session itself, the newest batch, and one
/// entry for everything older.
pub open spec fn walk(root: Seq<char>, a: AgentsV) -> Seq<Seq<char>> {
    seq![root] + view_ids(a.views.filter(recent(a.current))) + (if a.views.filter(
        past(a.current),
    ).len() > 0 {
        seq![history_id()]
    } else {
        Seq::empty()
    })
}

/// The entry that stands for what is shown.
pub open spec fn shown_entry(root: Seq<char>, a: AgentsV) -> Seq<char> {
    match a.active {
        Some(id) => if in_batch(a.current, id) {
            id
        } else {
            history_id()
        },
        None => root,
    }
}

/// The entry that is highlighted; at first the one that is shown.
pub open spec fn highlighted(root: Seq<char>, a: AgentsV) -> Seq<char> {
    match a.selection {
        Some(id) => id,
        None => match a.active {
            Some(id) => id,
            None => root,
        },
    }
}

/// The place of an entry; the first where it is not listed.
pub open spec fn place_in(ids: Seq<Seq<char>>, id: Seq<char>) -> int {
    let at = seqs::first_index(ids, crate::lists::is_text(id));
    if at < ids.len() {
        at
    } else {
        0
    }
}

/// The neighbour of the highlighted entry, round and round.
pub open spec fn walked(root: Seq<char>, a: AgentsV, forward: bool) -> AgentsV {
    let ids = walk(root, a);
    let step: int = if forward {
        1
    } else {
        -1
    };
    AgentsV {
        selection: if ids.len() < 2 {
            None
        } else {
            Some(ids[(place_in(ids, highlighted(root, a)) + step) % (ids.len() as int)])
        },
        ..a
    }
}

pub open spec fn status_word(v: ViewV, done: Seq<char>) -> Seq<char> {
    if v.running {
        "running"@
    } else if v.failed {
        "failed"@
    } else {
        done
    }
}

pub open spec fn history_row(v: ViewV) -> Row {
    PickerItem {
        id: v.id,
        label: v.label,
        meta: status_word(v, "completed"@),
        provider: None,
    }
}

/// The older subagents, newest first.
pub open spec fn history_rows(old: Seq<ViewV>) -> Seq<Row> {
    Seq::new(old.len(), |i: int| history_row(old[old.len() - 1 - i]))
}

pub open spec fn agent_item(v: ViewV, current: Seq<Seq<char>>) -> AgentsSnapshotItem<Seq<char>> {
    AgentsSnapshotItem {
        id: v.id,
        label: v.label,
        kind: "subagent"@,
        status: status_word(v, "finished"@),
        current: in_batch(current, v.id),
    }
}

pub open spec fn agent_items(v: Seq<ViewV>, current: Seq<Seq<char>>) -> Seq<
    AgentsSnapshotItem<Seq<char>>,
> {
    Seq::new(v.len(), |i: int| agent_item(v[i], current))
}

pub open spec fn item_named(id: Seq<char>) -> spec_fn(AgentsSnapshotItem<Seq<char>>) -> bool {
    |i: AgentsSnapshotItem<Seq<char>>| i.id == id
}

pub open spec fn items_view(v: Seq<AgentsSnapshotItem>) -> Seq<AgentsSnapshotItem<Seq<char>>> {
    v.map_values(|i: AgentsSnapshotItem| i@)
}

/// What a change of the subagents shows by.
pub struct AgentsMark {
    pub active: String,
    pub selected: Option<String>,
    pub root_running: bool,
    pub views: Vec<(String, u8, bool)>,
    pub past: usize,
}

pub ghost struct AgentsMarkV {
    pub active: Seq<char>,
    pub selected: Option<Seq<char>>,
    pub root_running: bool,
    pub views: Seq<(Seq<char>, u8, bool)>,
    pub past: usize,
}

pub open spec fn marks_view(v: Seq<(String, u8, bool)>) -> Seq<(Seq<char>, u8, bool)> {
    Seq::new(v.len(), |i: int| (v[i].0@, v[i].1, v[i].2))
}

impl View for AgentsMark {
    type V = AgentsMarkV;

    open spec fn view(&self) -> AgentsMarkV {
        AgentsMarkV {
            active: self.active@,
            selected: text::opt_view(self.selected),
            root_running: self.root_running,
            views: marks_view(self.views@),
            past: self.past,
        }
    }
}

/// What a change of the queue shows by.
pub struct QueueMark {
    pub ids: Vec<u64>,
    pub selected: Option<u64>,
    pub editing: Option<u64>,
    pub confirming: bool,
}

pub ghost struct QueueMarkV {
    pub ids: Seq<u64>,
    pub selected: Option<u64>,
    pub editing: Option<u64>,
    pub confirming: bool,
}

impl View for QueueMark {
    type V = QueueMarkV;

    open spec fn view(&self) -> QueueMarkV {
        QueueMarkV {
            ids: self.ids@,
            selected: self.selected,
            editing: self.editing,
            confirming: self.confirming,
        }
    }
}

pub open spec fn status_code(v: ViewV) -> u8 {
    if v.running {
        0
    } else if v.failed {
        1
    } else {
        2
    }
}

pub open spec fn view_mark(v: ViewV, current: Seq<Seq<char>>) -> (Seq<char>, u8, bool) {
    (v.id, status_code(v), in_batch(current, v.id))
}

pub open spec fn prompt_ids(v: Seq<QueuedV>) -> Seq<u64> {
    Seq::new(v.len(), |i: int| v[i].id)
}

pub open spec fn selected_prompt(q: QueueV) -> Option<u64> {
    match q.selection {
        Some(i) => if i < q.prompts.len() {
            Some(q.prompts[i as int].id)
        } else {
            None
        },
        None => None,
    }
}

pub open spec fn edited_prompt(q: QueueV) -> Option<u64> {
    match q.edit {
        Some(e) => Some(e.prompt_id),
        None => None,
    }
}

pub open spec fn delete_asked(q: QueueV) -> bool {
    match q.edit {
        Some(e) => e.delete_confirm,
        None => false,
    }
}

pub open spec fn queue_mark(q: QueueV) -> QueueMarkV {
    QueueMarkV {
        ids: prompt_ids(q.prompts),
        selected: selected_prompt(q),
        editing: edited_prompt(q),
        confirming: delete_asked(q),
    }
}

/// A line of the queue as it is shown.
#[derive(Debug, PartialEq, Eq)]
pub struct QueuePreview<S = String> {
    pub id: u64,
    pub ordinal: usize,
    pub summary: S,
    pub selected: bool,
    pub editing: bool,
}

impl View for QueuePreview {
    type V = QueuePreview<Seq<char>>;

    open spec fn view(&self) -> Self::V {
        QueuePreview {
            id: self.id,
            ordinal: self.ordinal,
            summary: self.summary@,
            selected: self.selected,
            editing: self.editing,
        }
    }
}

pub open spec fn previews_view(v: Seq<QueuePreview>) -> Seq<QueuePreview<Seq<char>>> {
    v.map_values(|p: QueuePreview| p@)
}

/// The words of a prompt and the names of its images.
pub open spec fn summary_parts(b: Seq<BlockV>) -> Seq<Seq<char>>
    decreases b.len(),
{
    if b.len() == 0 {
        Seq::empty()
    } else {
        match b.last() {
            StagedBlock::Text(t) => {
                let line = text::joined(text::words(t), " "@);
                if line.len() > 0 {
                    summary_parts(b.drop_last()).push(line)
                } else {
                    summary_parts(b.drop_last())
                }
            },
            StagedBlock::Image(a) => summary_parts(b.drop_last()).push("▣ "@ + a.name),
        }
    }
}

pub open spec fn summary(b: Seq<BlockV>) -> Seq<char> {
    if summary_parts(b).len() == 0 {
        "empty prompt"@
    } else {
        text::joined(summary_parts(b), " "@)
    }
}

pub open spec fn preview(q: QueueV, i: int) -> QueuePreview<Seq<char>> {
    QueuePreview {
        id: q.prompts[i].id,
        ordinal: (i + 1) as usize,
        summary: summary(q.prompts[i].blocks),
        selected: q.selection == Some(i as usize),
        editing: edited_prompt(q) == Some(q.prompts[i].id),
    }
}

/// The prompt that has to stay in sight.
pub open spec fn focused(q: QueueV) -> int {
    match q.selection {
        Some(i) => i as int,
        None => match q.edit {
            Some(e) => {
                let at = seqs::first_index(q.prompts, crate::compose::prompt_numbered(e.prompt_id));
                if at < q.prompts.len() {
                    at
                } else {
                    0
                }
            },
            None => 0,
        },
    }
}

/// The first prompt in a window of `limit` lines that holds the focused one;
/// a limit of zero shows all.
pub open spec fn first_shown(q: QueueV, limit: int) -> int {
    if limit == 0 || q.prompts.len() <= limit {
        0
    } else {
        let back = if focused(q) >= limit - 1 {
            focused(q) - (limit - 1)
        } else {
            0
        };
        if back <= q.prompts.len() - limit {
            back
        } else {
            q.prompts.len() - limit
        }
    }
}

pub open spec fn lines_shown(q: QueueV, limit: int) -> int {
    if limit == 0 || q.prompts.len() <= limit {
        q.prompts.len() as int
    } else {
        limit
    }
}

pub open spec fn previews(q: QueueV, limit: int) -> Seq<QueuePreview<Seq<char>>> {
    Seq::new(lines_shown(q, limit) as nat, |i: int| preview(q, first_shown(q, limit) + i))
}

pub open spec fn queue_line(q: QueueV, i: int) -> QueueSnapshotItem<Seq<char>> {
    QueueSnapshotItem {
        id: q.prompts[i].id,
        ordinal: (i + 1) as usize,
        summary: summary(q.prompts[i].blocks),
    }
}

/// What plugins are told of the queue.
pub open spec fn queue_told(q: QueueV) -> QueueSnapshotV {
    QueueSnapshot {
        count: q.prompts.len() as usize,
        items: Seq::new(q.prompts.len(), |i: int| queue_line(q, i)),
        selected_id: selected_prompt(q),
        editing_id: edited_prompt(q),
        delete_confirm: delete_asked(q),
    }
}

pub(crate) fn is_in_batch(current: &Vec<String>, id: &str) -> (r: bool)
    ensures
        r == in_batch(text::views(current@), id@),
{
    assert(text::views(current@).len() == current@.len());
    current.len() == 0 || session::has_member(current, id)
}

fn count_past(a: &Agents) -> (r: usize)
    ensures
        r == a@.views.filter(past(a@.current)).len(),
{
    let ghost all = a@.views;
    let ghost p = past(a@.current);
    let mut n: usize = 0;
    let mut i: usize = 0;
    proof {
        seqs::lemma_filter_empty(all.take(0), p);
    }
    while i < a.views.len()
        invariant
            i <= a.views@.len(),
            n <= i,
            all == a@.views,
            p == past(a@.current),
            n == all.take(i as int).filter(p).len(),
        decreases a.views@.len() - i,
    {
        proof {
            seqs::lemma_filter_push(all, p, i as int);
            assert(all[i as int] == a.views@[i as int]@);
        }
        if !is_in_batch(&a.current, a.views[i].id.as_str()) {
            n = n + 1;
        }
        i = i + 1;
    }
    assert(all.take(i as int) =~= all);
    n
}

fn list_walk(root: &str, a: &Agents) -> (r: Vec<String>)
    ensures
        text::views(r@) == walk(root@, a@),
        r@.len() > 0,
{
    let ghost all = a@.views;
    let ghost p = recent(a@.current);
    let mut r: Vec<String> = Vec::new();
    r.push(root.to_owned());
    let mut i: usize = 0;
    proof {
        seqs::lemma_filter_empty(all.take(0), p);
        assert(text::views(r@) =~= seq![root@] + view_ids(all.take(0).filter(p)));
    }
    while i < a.views.len()
        invariant
            i <= a.views@.len(),
            all == a@.views,
            p == recent(a@.current),
            text::views(r@) == seq![root@] + view_ids(all.take(i as int).filter(p)),
        decreases a.views@.len() - i,
    {
        let ghost before = all.take(i as int).filter(p);
        proof {
            seqs::lemma_filter_push(all, p, i as int);
            assert(all[i as int] == a.views@[i as int]@);
        }
        if is_in_batch(&a.current, a.views[i].id.as_str()) {
            let ghost had = text::views(r@);
            r.push(a.views[i].id.clone());
            assert(text::views(r@) =~= had.push(all[i as int].id));
            assert(view_ids(before.push(all[i as int])) =~= view_ids(before).push(all[i as int].id));
            assert(text::views(r@) =~= seq![root@] + view_ids(before.push(all[i as int])));
        }
        i = i + 1;
    }
    assert(all.take(i as int) =~= all);
    let ghost had = text::views(r@);
    if count_past(a) > 0 {
        r.push("__martty_internal__:agent-history".to_owned());
        assert(text::views(r@) =~= had + seq![history_id()]);
    } else {
        assert(text::views(r@) =~= had + Seq::empty());
    }
    assert(text::views(r@).len() == r@.len());
    r
}

fn say_status(v: &SubagentView, done: &'static str) -> (r: String)
    ensures
        r@ == status_word(v@, done@),
{
    if v.running {
        "running".to_owned()
    } else if v.failed {
        "failed".to_owned()
    } else {
        done.to_owned()
    }
}

fn list_history(a: &Agents) -> (r: Vec<PickerItem>)
    ensures
        picker::items_view(r@) == history_rows(a@.views.filter(past(a@.current))),
{
    let ghost all = a@.views;
    let ghost p = past(a@.current);
    let mut r: Vec<PickerItem> = Vec::new();
    let mut i: usize = 0;
    proof {
        seqs::lemma_filter_empty(all.take(0), p);
        assert(picker::items_view(r@) =~= history_rows(all.take(0).filter(p)));
    }
    while i < a.views.len()
        invariant
            i <= a.views@.len(),
            all == a@.views,
            p == past(a@.current),
            picker::items_view(r@) == history_rows(all.take(i as int).filter(p)),
        decreases a.views@.len() - i,
    {
        let v = &a.views[i];
        let ghost before = all.take(i as int).filter(p);
        proof {
            seqs::lemma_filter_push(all, p, i as int);
            assert(all[i as int] == v@);
        }
        if !is_in_batch(&a.current, v.id.as_str()) {
            let ghost had = picker::items_view(r@);
            let item = PickerItem {
                id: v.id.clone(),
                label: v.label.clone(),
                meta: say_status(v, "completed"),
                provider: None,
            };
            assert(item@ == history_row(v@));
            r.insert(0, item);
            assert(picker::items_view(r@) =~= seq![history_row(v@)] + had);
            assert(history_rows(before.push(v@)) =~= seq![history_row(v@)] + history_rows(before));
        }
        i = i + 1;
    }
    assert(all.take(i as int) =~= all);
    r
}

fn find_place(ids: &Vec<String>, id: &str) -> (r: usize)
    requires
        ids@.len() > 0,
    ensures
        r == place_in(text::views(ids@), id@),
        r < ids@.len(),
{
    let at = crate::lists::find_text(ids, id);
    assert(text::views(ids@).len() == ids@.len());
    if at < ids.len() {
        at
    } else {
        0
    }
}

fn neighbour(at: usize, n: usize, forward: bool) -> (r: usize)
    requires
        at < n,
    ensures
        r == (at + (if forward {
            1int
        } else {
            -1int
        })) % (n as int),
        r < n,
{
    if forward {
        crate::lists::next_index(at, n)
    } else if at == 0 {
        assert((0 - 1) % (n as int) == n - 1) by (nonlinear_arith)
            requires
                n > 0,
        ;
        n - 1
    } else {
        assert((at - 1) % (n as int) == at - 1) by (nonlinear_arith)
            requires
                0 <= at - 1 < n,
        ;
        at - 1
    }
}

fn list_parts(b: &Vec<StagedBlock>) -> (r: Vec<String>)
    ensures
        text::views(r@) == summary_parts(draft::blocks_view(b@)),
{
    let ghost all = draft::blocks_view(b@);
    let mut r: Vec<String> = Vec::new();
    let mut i: usize = 0;
    assert(text::views(r@) =~= summary_parts(all.take(0)));
    while i < b.len()
        invariant
            i <= b@.len(),
            all == draft::blocks_view(b@),
            text::views(r@) == summary_parts(all.take(i as int)),
        decreases b@.len() - i,
    {
        let ghost had = text::views(r@);
        proof {
            assert(all.take(i as int + 1).drop_last() =~= all.take(i as int));
            assert(all.take(i as int + 1).last() == b@[i as int]@);
        }
        match &b[i] {
            StagedBlock::Text(t) => {
                let words = text::split_whitespace(t.as_str());
                let line = text::join(&words, " ");
                if !line.as_str().is_empty() {
                    let ghost l = line@;
                    r.push(line);
                    assert(text::views(r@) =~= had.push(l));
                }
            },
            StagedBlock::Image(a) => {
                let line = text::concat2("▣ ", a.name.as_str());
                let ghost l = line@;
                r.push(line);
                assert(text::views(r@) =~= had.push(l));
            },
        }
        i = i + 1;
    }
    assert(all.take(i as int) =~= all);
    r
}

fn summarize(b: &Vec<StagedBlock>) -> (r: String)
    ensures
        r@ == summary(draft::blocks_view(b@)),
{
    let parts = list_parts(b);
    assert(text::views(parts@).len() == parts@.len());
    if parts.len() == 0 {
        "empty prompt".to_owned()
    } else {
        text::join(&parts, " ")
    }
}

fn same_ids(a: &Vec<u64>, b: &Vec<u64>) -> (r: bool)
    ensures
        r == (a@ == b@),
{
    if a.len() != b.len() {
        return false;
    }
    let mut i: usize = 0;
    while i < a.len()
        invariant
            i <= a@.len(),
            a@.len() == b@.len(),
            forall|k: int| 0 <= k < i ==> a@[k] == b@[k],
        decreases a@.len() - i,
    {
        if a[i] != b[i] {
            return false;
        }
        i = i + 1;
    }
    assert(a@ =~= b@);
    true
}

fn same_number(a: Option<u64>, b: Option<u64>) -> (r: bool)
    ensures
        r == (a == b),
{
    match (a, b) {
        (Some(x), Some(y)) => x == y,
        (None, None) => true,
        _ => false,
    }
}

pub(crate) fn same_text_opt(a: &Option<String>, b: &Option<String>) -> (r: bool)
    ensures
        r == (text::opt_view(*a) == text::opt_view(*b)),
{
    match (a, b) {
        (Some(x), Some(y)) => text::same(x.as_str(), y.as_str()),
        (None, None) => true,
        _ => false,
    }
}

fn same_marks(a: &Vec<(String, u8, bool)>, b: &Vec<(String, u8, bool)>) -> (r: bool)
    ensures
        r == (marks_view(a@) == marks_view(b@)),
{
    let ghost x = marks_view(a@);
    let ghost y = marks_view(b@);
    if a.len() != b.len() {
        assert(x.len() != y.len());
        return false;
    }
    let mut i: usize = 0;
    while i < a.len()
        invariant
            i <= a@.len(),
            a@.len() == b@.len(),
            x == marks_view(a@),
            y == marks_view(b@),
            forall|k: int| 0 <= k < i ==> x[k] == y[k],
        decreases a@.len() - i,
    {
        if !text::same(a[i].0.as_str(), b[i].0.as_str()) || a[i].1 != b[i].1 || a[i].2 != b[i].2 {
            assert(x[i as int] != y[i as int]);
            return false;
        }
        i = i + 1;
    }
    assert(x =~= y);
    true
}

impl QueueMark {
    pub fn same(&self, other: &QueueMark) -> (r: bool)
        ensures
            r == (self@ == other@),
    {
        same_ids(&self.ids, &other.ids) && same_number(self.selected, other.selected)
            && same_number(self.editing, other.editing) && self.confirming == other.confirming
    }
}

impl AgentsMark {
    pub fn same(&self, other: &AgentsMark) -> (r: bool)
        ensures
            r == (self@ == other@),
    {
        text::same(self.active.as_str(), other.active.as_str()) && same_text_opt(
            &self.selected,
            &other.selected,
        ) && self.root_running == other.root_running && same_marks(&self.views, &other.views)
            && self.past == other.past
    }
}

impl AppV {
    /// Walking begins at what is shown; with no subagents nothing begins.
    #[verifier::opaque]
    pub open spec fn begin_walk(self) -> AppV {
        if self.live.agents.views.len() == 0 {
            self
        } else {
            self.with_agents(
                AgentsV {
                    selection: Some(shown_entry(self.live.id, self.live.agents)),
                    ..self.live.agents
                },
            ).redrawn()
        }
    }

    #[verifier::opaque]
    pub open spec fn step_walk(self, forward: bool) -> AppV {
        let a = self.with_agents(walked(self.live.id, self.live.agents, forward));
        if walk(self.live.id, self.live.agents).len() < 2 {
            a
        } else {
            a.redrawn()
        }
    }

    pub open spec fn not_walking(self) -> AppV {
        self.with_agents(AgentsV { selection: None, ..self.live.agents })
    }

    #[verifier::opaque]
    pub open spec fn confirm_walk(self) -> AppV {
        match self.live.agents.selection {
            Some(id) => self.show_agent(id),
            None => self,
        }
    }

    #[verifier::opaque]
    pub open spec fn cancel_walk(self) -> AppV {
        self.not_walking().redrawn()
    }

    pub open spec fn showing_agent(self, id: Option<Seq<char>>) -> AppV {
        let a = self.with_agents(
            AgentsV { selection: None, active: id, ..self.live.agents },
        ).scrolled_to(0);
        a.with_pointer(crate::app::Pointer { sel: None, ..a.pointer })
    }

    /// Shows the transcript behind an entry; an entry that is not known only
    /// ends the walking.
    #[verifier::opaque]
    pub open spec fn show_agent(self, id: Seq<char>) -> AppV {
        if id == history_id() {
            self.not_walking().open_history()
        } else if id == self.live.id {
            self.showing_agent(None)
        } else if session::has_view(self.live, id) {
            self.showing_agent(Some(id))
        } else {
            self.not_walking()
        }
    }

    #[verifier::opaque]
    pub open spec fn open_history(self) -> AppV {
        let old = self.live.agents.views.filter(past(self.live.agents.current));
        if old.len() == 0 {
            self
        } else {
            self.with_picker(
                Some(opened(PickerKind::AgentHistory, "Agent history"@, 0, history_rows(old))),
            ).redrawn()
        }
    }

    pub open spec fn past_agents(self) -> nat {
        self.live.agents.views.filter(past(self.live.agents.current)).len()
    }

    /// The entries that plugins see.
    pub open spec fn agent_entries(self) -> Seq<AgentsSnapshotItem<Seq<char>>> {
        let main = seq![
            AgentsSnapshotItem {
                id: self.live.id,
                label: self.says("main"@, "主会话"@),
                kind: "main"@,
                status: if self.busy() {
                    "running"@
                } else {
                    "idle"@
                },
                current: false,
            },
        ] + agent_items(self.live.agents.views, self.live.agents.current);
        if self.past_agents() > 0 {
            main.push(
                AgentsSnapshotItem {
                    id: history_id(),
                    label: "History ("@ + text::decimal(self.past_agents()) + ")"@,
                    kind: "history"@,
                    status: "idle"@,
                    current: false,
                },
            )
        } else {
            main
        }
    }

    /// What plugins are told of the subagents.
    #[verifier::opaque]
    pub open spec fn agents_told(self) -> AgentsSnapshotV {
        AgentsSnapshot {
            active_id: shown_entry(self.live.id, self.live.agents),
            selected_id: match self.live.agents.selection {
                Some(id) => if seqs::some(self.agent_entries(), item_named(id)) {
                    Some(id)
                } else {
                    None
                },
                None => None,
            },
            items: self.agent_entries(),
        }
    }

    /// The highlighted entry as far as it is listed.
    pub open spec fn listed_selection(self) -> Option<Seq<char>> {
        match self.live.agents.selection {
            Some(id) => if session::has_view(self.live, id) || id == self.live.id || (
            self.past_agents() > 0 && id == history_id()) {
                Some(id)
            } else {
                None
            },
            None => None,
        }
    }

    #[verifier::opaque]
    pub open spec fn agents_mark(self) -> AgentsMarkV {
        AgentsMarkV {
            active: shown_entry(self.live.id, self.live.agents),
            selected: self.listed_selection(),
            root_running: self.busy(),
            views: Seq::new(
                self.live.agents.views.len(),
                |i: int| view_mark(self.live.agents.views[i], self.live.agents.current),
            ),
            past: self.past_agents() as usize,
        }
    }
}

fn shown_of(root: &str, a: &Agents) -> (r: String)
    ensures
        r@ == shown_entry(root@, a@),
{
    match &a.active {
        Some(id) => if is_in_batch(&a.current, id.as_str()) {
            id.clone()
        } else {
            "__martty_internal__:agent-history".to_owned()
        },
        None => root.to_owned(),
    }
}

fn highlighted_of(root: &str, a: &Agents) -> (r: String)
    ensures
        r@ == highlighted(root@, a@),
{
    match &a.selection {
        Some(id) => id.clone(),
        None => match &a.active {
            Some(id) => id.clone(),
            None => root.to_owned(),
        },
    }
}

/// Moves the highlight; says whether there was anywhere to go.
fn walk_on(root: &str, a: &mut Agents, forward: bool) -> (r: bool)
    ensures
        final(a)@ == walked(root@, old(a)@, forward),
        r == (walk(root@, old(a)@).len() >= 2),
{
    let ids = list_walk(root, a);
    assert(text::views(ids@).len() == ids@.len());
    if ids.len() < 2 {
        a.selection = None;
        return false;
    }
    let current = highlighted_of(root, a);
    let at = find_place(&ids, current.as_str());
    let next = neighbour(at, ids.len(), forward);
    a.selection = Some(ids[next].clone());
    true
}

fn list_items(a: &Agents, main: AgentsSnapshotItem) -> (r: Vec<AgentsSnapshotItem>)
    ensures
        items_view(r@) == seq![main@] + agent_items(a@.views, a@.current),
{
    let ghost all = a@.views;
    let ghost cur = a@.current;
    let mut r: Vec<AgentsSnapshotItem> = Vec::new();
    r.push(main);
    let mut i: usize = 0;
    while i < a.views.len()
        invariant
            i <= a.views@.len(),
            all == a@.views,
            cur == a@.current,
            r@.len() == i + 1,
            r@[0]@ == main@,
            forall|k: int| 0 <= k < i ==> (#[trigger] r@[k + 1])@ == agent_item(all[k], cur),
        decreases a.views@.len() - i,
    {
        let v = &a.views[i];
        assert(all[i as int] == v@);
        r.push(
            AgentsSnapshotItem {
                id: v.id.clone(),
                label: v.label.clone(),
                kind: "subagent".to_owned(),
                status: say_status(v, "finished"),
                current: is_in_batch(&a.current, v.id.as_str()),
            },
        );
        i = i + 1;
    }
    proof {
        let s = seq![main@] + agent_items(all, cur);
        assert forall|k: int| 0 <= k < r@.len() implies r@[k]@ == s[k] by {
            if k > 0 {
                assert(r@[(k - 1) + 1]@ == agent_item(all[k - 1], cur));
            }
        }
        assert(items_view(r@) =~= s);
    }
    r
}

fn has_item(v: &Vec<AgentsSnapshotItem>, id: &str) -> (r: bool)
    ensures
        r == seqs::some(items_view(v@), item_named(id@)),
{
    let ghost all = items_view(v@);
    let mut i: usize = 0;
    while i < v.len() && !text::same(v[i].id.as_str(), id)
        invariant
            i <= v@.len(),
            all == items_view(v@),
            forall|k: int| 0 <= k < i ==> !item_named(id@)(#[trigger] all[k]),
        decreases v@.len() - i,
    {
        i = i + 1;
    }
    proof {
        seqs::lemma_first_index_is(all, item_named(id@), i as int);
    }
    i < v.len()
}

fn list_view_marks(a: &Agents) -> (r: Vec<(String, u8, bool)>)
    ensures
        marks_view(r@) == Seq::new(a@.views.len(), |i: int| view_mark(a@.views[i], a@.current)),
{
    let ghost all = a@.views;
    let ghost cur = a@.current;
    let mut r: Vec<(String, u8, bool)> = Vec::new();
    let mut i: usize = 0;
    while i < a.views.len()
        invariant
            i <= a.views@.len(),
            all == a@.views,
            cur == a@.current,
            r@.len() == i,
            forall|k: int|
                0 <= k < i ==> ((#[trigger] r@[k]).0@, r@[k].1, r@[k].2) == view_mark(all[k], cur),
        decreases a.views@.len() - i,
    {
        let v = &a.views[i];
        assert(all[i as int] == v@);
        let code: u8 = if v.running {
            0
        } else if v.failed {
            1
        } else {
            2
        };
        r.push((v.id.clone(), code, is_in_batch(&a.current, v.id.as_str())));
        i = i + 1;
    }
    assert(marks_view(r@) =~= Seq::new(all.len(), |i: int| view_mark(all[i], cur)));
    r
}

impl App {
    /// Whether a subagent belongs to the newest batch.
    pub fn subagent_in_current_batch(&self, id: &str) -> (r: bool)
        ensures
            r == in_batch(self@.live.agents.current, id@),
    {
        proof {
            reveal(session::slot_view);
        }
        is_in_batch(&self.live.agents.current, id)
    }

    /// What one can walk through.
    pub fn agent_navigation_ids(&self) -> (r: Vec<String>)
        ensures
            text::views(r@) == walk(self@.live.id, self@.live.agents),
    {
        proof {
            reveal(session::slot_view);
        }
        list_walk(self.live.id.as_str(), &self.live.agents)
    }

    pub(crate) fn begin_agent_navigation(&mut self)
        ensures
            final(self)@ == old(self)@.begin_walk(),
    {
        proof {
            reveal(session::slot_view);
            reveal(AppV::begin_walk);
        }
        if self.live.agents.views.len() == 0 {
            return;
        }
        let entry = shown_of(self.live.id.as_str(), &self.live.agents);
        self.live.agents.selection = Some(entry);
        self.status.redraw = true;
    }

    pub(crate) fn move_agent_selection(&mut self, forward: bool)
        ensures
            final(self)@ == old(self)@.step_walk(forward),
    {
        proof {
            reveal(session::slot_view);
            reveal(AppV::step_walk);
        }
        let root = self.session_id();
        if walk_on(root.as_str(), &mut self.live.agents, forward) {
            self.status.redraw = true;
        }
    }

    fn agent_selection(&self) -> (r: Option<String>)
        ensures
            text::opt_view(r) == self@.live.agents.selection,
    {
        proof {
            reveal(session::slot_view);
        }
        match &self.live.agents.selection {
            Some(id) => Some(id.clone()),
            None => None,
        }
    }

    fn end_walk(&mut self)
        ensures
            final(self)@ == old(self)@.not_walking(),
    {
        proof {
            reveal(session::slot_view);
        }
        self.live.agents.selection = None;
    }

    pub(crate) fn confirm_agent_selection(&mut self)
        ensures
            final(self)@ == old(self)@.confirm_walk(),
    {
        proof {
            reveal(AppV::confirm_walk);
        }
        if let Some(id) = self.agent_selection() {
            self.select_agent_transcript(id.as_str());
        }
    }

    pub(crate) fn cancel_agent_selection(&mut self)
        ensures
            final(self)@ == old(self)@.cancel_walk(),
    {
        proof {
            reveal(AppV::cancel_walk);
        }
        self.end_walk();
        self.redraw();
    }

    fn show_transcript_of(&mut self, id: Option<String>)
        ensures
            final(self)@ == old(self)@.showing_agent(text::opt_view(id)),
    {
        proof {
            reveal(session::slot_view);
        }
        self.live.agents.selection = None;
        self.live.agents.active = id;
        self.live.chat.scroll_up = 0;
        self.pointer.sel = None;
    }

    pub(crate) fn select_agent_transcript(&mut self, id: &str)
        ensures
            final(self)@ == old(self)@.show_agent(id@),
    {
        proof {
            reveal(AppV::show_agent);
        }
        if text::same(id, "__martty_internal__:agent-history") {
            self.end_walk();
            self.open_agent_history_picker();
        } else if self.is_live(id) {
            self.show_transcript_of(None);
        } else if self.live_has_view(id) {
            self.show_transcript_of(Some(id.to_owned()));
        } else {
            self.end_walk();
        }
    }

    fn list_old_agents(&self) -> (r: Vec<PickerItem>)
        ensures
            picker::items_view(r@) == history_rows(
                self@.live.agents.views.filter(past(self@.live.agents.current)),
            ),
    {
        proof {
            reveal(session::slot_view);
        }
        list_history(&self.live.agents)
    }

    pub(crate) fn open_agent_history_picker(&mut self)
        ensures
            final(self)@ == old(self)@.open_history(),
    {
        proof {
            reveal(AppV::open_history);
        }
        let items = self.list_old_agents();
        assert(picker::items_view(items@).len() == items@.len());
        if items.len() == 0 {
            return;
        }
        self.set_picker(PickerKind::AgentHistory, "Agent history".to_owned(), 0, items);
        self.redraw();
    }

    /// Whether the queued prompt in the draft is being edited.
    pub fn queue_editing(&self) -> (r: bool)
        ensures
            r == (self@.live.queue.edit is Some),
    {
        proof {
            reveal(session::slot_view);
        }
        self.live.queue.edit.is_some()
    }

    pub fn queue_selecting(&self) -> (r: bool)
        ensures
            r == (self@.live.queue.selection is Some),
    {
        proof {
            reveal(session::slot_view);
        }
        self.live.queue.selection.is_some()
    }

    pub fn queue_delete_confirming(&self) -> (r: bool)
        ensures
            r == delete_asked(self@.live.queue),
    {
        proof {
            reveal(session::slot_view);
        }
        match &self.live.queue.edit {
            Some(e) => e.delete_confirm,
            None => false,
        }
    }

    fn edited_id(&self) -> (r: Option<u64>)
        ensures
            r == edited_prompt(self@.live.queue),
    {
        proof {
            reveal(session::slot_view);
        }
        match &self.live.queue.edit {
            Some(e) => Some(e.prompt_id),
            None => None,
        }
    }

    fn selected_id(&self) -> (r: Option<u64>)
        ensures
            r == selected_prompt(self@.live.queue),
    {
        proof {
            reveal(session::slot_view);
        }
        match self.live.queue.selection {
            Some(i) => if i < self.live.queue.prompts.len() {
                Some(self.live.queue.prompts[i].id)
            } else {
                None
            },
            None => None,
        }
    }

    fn focused_prompt(&self) -> (r: usize)
        ensures
            r == focused(self@.live.queue),
    {
        proof {
            reveal(session::slot_view);
        }
        match self.live.queue.selection {
            Some(i) => i,
            None => match &self.live.queue.edit {
                Some(e) => {
                    let at = crate::compose::find_prompt(&self.live.queue.prompts, e.prompt_id);
                    if at < self.live.queue.prompts.len() {
                        at
                    } else {
                        0
                    }
                },
                None => 0,
            },
        }
    }

    fn preview_of(&self, index: usize) -> (r: QueuePreview)
        requires
            index < self@.live.queue.prompts.len(),
        ensures
            r@ == preview(self@.live.queue, index as int),
    {
        proof {
            reveal(session::slot_view);
        }
        let editing = self.edited_id();
        let p = &self.live.queue.prompts[index];
        let n = self.live.queue.prompts.len();
        assert(index < n);
        let ordinal: usize = index + 1;
        QueuePreview {
            id: p.id,
            ordinal,
            summary: summarize(&p.blocks),
            selected: match self.live.queue.selection {
                Some(s) => s == index,
                None => false,
            },
            editing: same_number(editing, Some(p.id)),
        }
    }

    /// The lines of the queue, at most `limit` of them; all with a limit of
    /// zero.
    pub fn queue_previews(&self, limit: usize) -> (r: Vec<QueuePreview>)
        ensures
            previews_view(r@) == previews(self@.live.queue, limit as int),
    {
        let ghost q = self@.live.queue;
        let n = self.queue_len();
        let whole = limit == 0 || n <= limit;
        let start: usize = if whole {
            0
        } else {
            let focus = self.focused_prompt();
            let back: usize = if focus >= limit - 1 {
                focus - (limit - 1)
            } else {
                0
            };
            if back <= n - limit {
                back
            } else {
                n - limit
            }
        };
        let count: usize = if whole {
            n
        } else {
            limit
        };
        let mut r: Vec<QueuePreview> = Vec::new();
        let mut i: usize = 0;
        while i < count
            invariant
                i <= count,
                q == self@.live.queue,
                start + count <= q.prompts.len(),
                q.prompts.len() == n,
                r@.len() == i,
                forall|k: int| 0 <= k < i ==> (#[trigger] r@[k])@ == preview(q, start + k),
            decreases count - i,
        {
            let p = self.preview_of(start + i);
            r.push(p);
            i = i + 1;
        }
        assert(previews_view(r@) =~= previews(q, limit as int));
        r
    }

    pub(crate) fn queue_fingerprint(&self) -> (r: QueueMark)
        ensures
            r@ == queue_mark(self@.live.queue),
    {
        proof {
            reveal(session::slot_view);
        }
        let ghost all = self@.live.queue.prompts;
        let mut ids: Vec<u64> = Vec::new();
        let mut i: usize = 0;
        while i < self.live.queue.prompts.len()
            invariant
                i <= self.live.queue.prompts@.len(),
                all == session::queue_view(self.live.queue.prompts@),
                ids@.len() == i,
                forall|k: int| 0 <= k < i ==> ids@[k] == all[k].id,
            decreases self.live.queue.prompts@.len() - i,
        {
            assert(all[i as int] == self.live.queue.prompts@[i as int]@);
            ids.push(self.live.queue.prompts[i].id);
            i = i + 1;
        }
        assert(ids@ =~= prompt_ids(all));
        QueueMark {
            ids,
            selected: self.selected_id(),
            editing: self.edited_id(),
            confirming: self.queue_delete_confirming(),
        }
    }

    pub(crate) fn queue_snapshot(&self) -> (r: QueueSnapshot)
        ensures
            r@ == queue_told(self@.live.queue),
    {
        let ghost q = self@.live.queue;
        let n = self.queue_len();
        let mut items: Vec<QueueSnapshotItem> = Vec::new();
        let mut i: usize = 0;
        while i < n
            invariant
                i <= n,
                q == self@.live.queue,
                q.prompts.len() == n,
                items@.len() == i,
                forall|k: int| 0 <= k < i ==> (#[trigger] items@[k])@ == queue_line(q, k),
            decreases n - i,
        {
            let p = self.preview_of(i);
            items.push(QueueSnapshotItem { id: p.id, ordinal: p.ordinal, summary: p.summary });
            i = i + 1;
        }
        let r = QueueSnapshot {
            count: n,
            items,
            selected_id: self.selected_id(),
            editing_id: self.edited_id(),
            delete_confirm: self.queue_delete_confirming(),
        };
        assert(r@.items =~= queue_told(q).items);
        r
    }

    fn main_entry(&self) -> (r: AgentsSnapshotItem)
        ensures
            r@ == (AgentsSnapshotItem {
                id: self@.live.id,
                label: self@.says("main"@, "主会话"@),
                kind: "main"@,
                status: if self@.busy() {
                    "running"@
                } else {
                    "idle"@
                },
                current: false,
            }),
    {
        let busy = self.is_busy();
        AgentsSnapshotItem {
            id: self.session_id(),
            label: self.say("main", "主会话"),
            kind: "main".to_owned(),
            status: (if busy {
                "running"
            } else {
                "idle"
            }).to_owned(),
            current: false,
        }
    }

    fn count_old_agents(&self) -> (r: usize)
        ensures
            r == self@.past_agents(),
    {
        proof {
            reveal(session::slot_view);
        }
        count_past(&self.live.agents)
    }

    fn list_agent_entries(&self) -> (r: Vec<AgentsSnapshotItem>)
        ensures
            items_view(r@) == self@.agent_entries(),
    {
        proof {
            reveal(session::slot_view);
        }
        let main = self.main_entry();
        let old = self.count_old_agents();
        let mut items = list_items(&self.live.agents, main);
        if old > 0 {
            let ghost had = items_view(items@);
            let label = text::concat3("History (", text::count_string(old).as_str(), ")");
            let last = AgentsSnapshotItem {
                id: "__martty_internal__:agent-history".to_owned(),
                label,
                kind: "history".to_owned(),
                status: "idle".to_owned(),
                current: false,
            };
            let ghost l = last@;
            items.push(last);
            assert(items_view(items@) =~= had.push(l));
        }
        items
    }

    fn shown_agent(&self) -> (r: String)
        ensures
            r@ == shown_entry(self@.live.id, self@.live.agents),
    {
        proof {
            reveal(session::slot_view);
        }
        shown_of(self.live.id.as_str(), &self.live.agents)
    }

    pub(crate) fn agents_snapshot(&self) -> (r: AgentsSnapshot)
        ensures
            r@ == self@.agents_told(),
    {
        proof {
            reveal(AppV::agents_told);
        }
        let items = self.list_agent_entries();
        let selected_id = match self.agent_selection() {
            Some(id) => if has_item(&items, id.as_str()) {
                Some(id)
            } else {
                None
            },
            None => None,
        };
        let active_id = self.shown_agent();
        let r = AgentsSnapshot { active_id, selected_id, items };
        assert(r@.items =~= items_view(r.items@));
        r
    }

    fn listed_agent_selection(&self) -> (r: Option<String>)
        ensures
            text::opt_view(r) == self@.listed_selection(),
    {
        match self.agent_selection() {
            Some(id) => {
                let old = self.count_old_agents();
                if self.live_has_view(id.as_str()) || self.is_live(id.as_str()) || (old > 0
                    && text::same(id.as_str(), "__martty_internal__:agent-history")) {
                    Some(id)
                } else {
                    None
                }
            },
            None => None,
        }
    }

    fn list_agent_marks(&self) -> (r: Vec<(String, u8, bool)>)
        ensures
            marks_view(r@) == Seq::new(
                self@.live.agents.views.len(),
                |i: int| view_mark(self@.live.agents.views[i], self@.live.agents.current),
            ),
    {
        proof {
            reveal(session::slot_view);
        }
        let r = list_view_marks(&self.live.agents);
        assert(marks_view(r@) =~= Seq::new(
            self@.live.agents.views.len(),
            |i: int| view_mark(self@.live.agents.views[i], self@.live.agents.current),
        ));
        r
    }

    pub(crate) fn agents_fingerprint(&self) -> (r: AgentsMark)
        ensures
            r@ == self@.agents_mark(),
    {
        proof {
            reveal(AppV::agents_mark);
        }
        let views = self.list_agent_marks();
        AgentsMark {
            active: self.shown_agent(),
            selected: self.listed_agent_selection(),
            root_running: self.is_busy(),
            views,
            past: self.count_old_agents(),
        }
    }
}

} // verus!
