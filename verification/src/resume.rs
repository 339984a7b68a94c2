//! New sessions, and sessions taken up again.

use crate::app::{self, App, AppV, AwaitingBind, ClockV, LocalSession, ResumeV, TabsV};
use crate::bus::{Cmd, SessionListItem};
use crate::effect::{Effect, NoticeLevel, TranscriptOp};
use crate::lists::{is_text, Row};
use crate::picker::{self, PickerItem, PickerKind};
use crate::presets;
use crate::seqs;
use crate::session::{
    self, Agents, Catalog, Chat, DraftV, ModelFacts, Modes, Queue, Run, RunState, SessionSlot,
    SlotV,
};
use crate::tabs::{self, awaits, given_up};
use crate::text;
use crate::theme::opened;
use vstd::prelude::*;

verus! {

pub type LocalV = LocalSession<Seq<char>>;

pub type ListedV = SessionListItem<Seq<char>>;

/// What a beginning of an id says among many ids.
#[derive(Debug, Clone, Copy, PartialEq, Eq, Structural)]
pub enum Choice {
    One(usize),
    Nothing,
    /// Ambiguous, with the number of ids that match.
    Many(usize),
}

pub open spec fn begins_with(prefix: Seq<char>) -> spec_fn(Seq<char>) -> bool {
    |id: Seq<char>| text::has_prefix(id, prefix)
}

/// The only id with this beginning, or the id that is spelt out in full.
pub open spec fn chosen(ids: Seq<Seq<char>>, prefix: Seq<char>) -> Choice {
    let n = ids.filter(begins_with(prefix)).len();
    if n == 0 {
        Choice::Nothing
    } else if n == 1 {
        Choice::One(seqs::first_index(ids, begins_with(prefix)) as usize)
    } else if seqs::some(ids, is_text(prefix)) {
        Choice::One(seqs::first_index(ids, is_text(prefix)) as usize)
    } else {
        Choice::Many(n as usize)
    }
}

fn count_matches(ids: &Vec<String>, prefix: &str) -> (r: usize)
    ensures
        r == text::views(ids@).filter(begins_with(prefix@)).len(),
{
    let ghost all = text::views(ids@);
    let ghost p = begins_with(prefix@);
    let mut n: usize = 0;
    let mut i: usize = 0;
    proof {
        seqs::lemma_filter_empty(all.take(0), p);
    }
    while i < ids.len()
        invariant
            i <= ids@.len(),
            n <= i,
            all == text::views(ids@),
            p == begins_with(prefix@),
            n == all.take(i as int).filter(p).len(),
        decreases ids@.len() - i,
    {
        proof {
            seqs::lemma_filter_push(all, p, i as int);
        }
        if text::starts_with(ids[i].as_str(), prefix) {
            n = n + 1;
        }
        i = i + 1;
    }
    assert(all.take(i as int) =~= all);
    n
}

fn find_match(ids: &Vec<String>, prefix: &str) -> (r: usize)
    ensures
        r == seqs::first_index(text::views(ids@), begins_with(prefix@)),
        r <= ids@.len(),
{
    let ghost all = text::views(ids@);
    let mut i: usize = 0;
    while i < ids.len() && !text::starts_with(ids[i].as_str(), prefix)
        invariant
            i <= ids@.len(),
            all == text::views(ids@),
            forall|k: int| 0 <= k < i ==> !begins_with(prefix@)(#[trigger] all[k]),
        decreases ids@.len() - i,
    {
        i = i + 1;
    }
    proof {
        seqs::lemma_first_index_is(all, begins_with(prefix@), i as int);
    }
    i
}

/// A choice points at an id.
pub proof fn lemma_chosen(ids: Seq<Seq<char>>, prefix: Seq<char>)
    ensures
        chosen(ids, prefix) matches Choice::One(i) ==> i < ids.len() || ids.len() > usize::MAX,
{
    let p = begins_with(prefix);
    seqs::lemma_first_index(ids, p);
    seqs::lemma_first_index(ids, is_text(prefix));
    if ids.filter(p).len() == 1 && seqs::first_index(ids, p) >= ids.len() {
        lemma_filter_none(ids, p);
    }
}

proof fn lemma_filter_none<A>(s: Seq<A>, p: spec_fn(A) -> bool)
    requires
        forall|k: int| 0 <= k < s.len() ==> !p(#[trigger] s[k]),
    ensures
        s.filter(p).len() == 0,
    decreases s.len(),
{
    if s.len() == 0 {
        seqs::lemma_filter_empty(s, p);
    } else {
        let n = s.len() - 1;
        seqs::lemma_filter_push(s, p, n as int);
        assert(s.take(n + 1) =~= s);
        let t = s.take(n as int);
        assert forall|k: int| 0 <= k < t.len() implies !p(#[trigger] t[k]) by {
            assert(t[k] == s[k]);
        }
        lemma_filter_none(t, p);
    }
}

pub fn choose_id(ids: &Vec<String>, prefix: &str) -> (r: Choice)
    ensures
        r == chosen(text::views(ids@), prefix@),
        r matches Choice::One(i) ==> i < ids@.len(),
{
    assert(text::views(ids@).len() == ids@.len());
    proof {
        lemma_chosen(text::views(ids@), prefix@);
    }
    let n = count_matches(ids, prefix);
    if n == 0 {
        Choice::Nothing
    } else if n == 1 {
        let at = find_match(ids, prefix);
        Choice::One(at)
    } else {
        let at = crate::lists::find_text(ids, prefix);
        if at < ids.len() {
            Choice::One(at)
        } else {
            Choice::Many(n)
        }
    }
}

pub open spec fn local_ids(v: Seq<LocalV>) -> Seq<Seq<char>> {
    Seq::new(v.len(), |i: int| v[i].id)
}

pub open spec fn listed_ids(v: Seq<ListedV>) -> Seq<Seq<char>> {
    Seq::new(v.len(), |i: int| v[i].id)
}

fn list_local_ids(v: &Vec<LocalSession>) -> (r: Vec<String>)
    ensures
        text::views(r@) == local_ids(app::locals_view(v@)),
{
    let mut r: Vec<String> = Vec::new();
    let mut i: usize = 0;
    while i < v.len()
        invariant
            i <= v@.len(),
            r@.len() == i,
            forall|k: int| 0 <= k < i ==> (#[trigger] r@[k])@ == v@[k].id@,
        decreases v@.len() - i,
    {
        r.push(v[i].id.clone());
        i = i + 1;
    }
    assert(text::views(r@) =~= local_ids(app::locals_view(v@)));
    r
}

fn list_listed_ids(v: &Vec<SessionListItem>) -> (r: Vec<String>)
    ensures
        text::views(r@) == listed_ids(app::listed_view(v@)),
{
    let mut r: Vec<String> = Vec::new();
    let mut i: usize = 0;
    while i < v.len()
        invariant
            i <= v@.len(),
            r@.len() == i,
            forall|k: int| 0 <= k < i ==> (#[trigger] r@[k])@ == v@[k].id@,
        decreases v@.len() - i,
    {
        r.push(v[i].id.clone());
        i = i + 1;
    }
    assert(text::views(r@) =~= listed_ids(app::listed_view(v@)));
    r
}

pub open spec fn no_match_text(prefix: Seq<char>) -> Seq<char> {
    "no session matches “"@ + prefix + "” — /resume lists them"@
}

pub open spec fn many_text(prefix: Seq<char>, n: nat) -> Seq<char> {
    "“"@ + prefix + "” is ambiguous ("@ + text::decimal(n) + " matches) — /resume lists them"@
}

/// The session that a beginning of an id means, or why it means none.
pub fn unique_session_list_match(sessions: &Vec<SessionListItem>, prefix: &str) -> (r: Result<
    String,
    String,
>)
    ensures
        match chosen(listed_ids(app::listed_view(sessions@)), prefix@) {
            Choice::One(i) => r matches Ok(id) && id@ == sessions@[i as int].id@,
            Choice::Nothing => r matches Err(t) && t@ == no_match_text(prefix@),
            Choice::Many(n) => r matches Err(t) && t@ == many_text(prefix@, n as nat),
        },
{
    let ids = list_listed_ids(sessions);
    assert(text::views(ids@).len() == sessions@.len());
    match choose_id(&ids, prefix) {
        Choice::One(i) => Ok(sessions[i].id.clone()),
        Choice::Nothing => Err(
            text::concat3("no session matches “", prefix, "” — /resume lists them"),
        ),
        Choice::Many(n) => {
            let mut t = text::concat3("“", prefix, "” is ambiguous (");
            text::push_str(&mut t, text::count_string(n).as_str());
            text::push_str(&mut t, " matches) — /resume lists them");
            Err(t)
        },
    }
}

// --- rows of the picker --------------------------------------------------------

pub open spec fn spaces(n: int) -> Seq<char> {
    Seq::new(if n > 0 {
        n as nat
    } else {
        0
    }, |i: int| ' ')
}

pub open spec fn padded_id(id: Seq<char>) -> Seq<char> {
    tabs::short(id) + spaces(8 - tabs::short(id).len())
}

/// What a session is called: its title, else its first prompt, else its id.
pub open spec fn session_label(id: Seq<char>, title: Option<Seq<char>>, local: Option<LocalV>) -> Seq<char> {
    if title is Some && text::trimmed(title->0).len() > 0 {
        text::trimmed(title->0)
    } else if local is Some && local->0.preview.len() > 0 {
        local->0.preview
    } else {
        tabs::short(id)
    }
}

pub open spec fn session_meta(id: Seq<char>, local: Option<LocalV>, updated_at: Option<Seq<char>>) -> Seq<char> {
    match local {
        Some(s) => padded_id(id) + " · "@ + s.age + " · "@ + text::decimal(s.turns as nat) + " turn"@ + plural(
            s.turns,
        ),
        None => padded_id(id) + " · "@ + (match updated_at {
            Some(u) => text::text_or(text::bytes_taken(u, 10), "?"@),
            None => "?"@,
        }),
    }
}

pub open spec fn plural(n: u64) -> Seq<char> {
    if n == 1 {
        ""@
    } else {
        "s"@
    }
}

pub open spec fn session_row(
    id: Seq<char>,
    title: Option<Seq<char>>,
    local: Option<LocalV>,
    updated_at: Option<Seq<char>>,
) -> Row {
    PickerItem {
        id,
        label: session_label(id, title, local),
        meta: session_meta(id, local, updated_at),
        provider: None,
    }
}

pub open spec fn opt_local_view(s: Option<&LocalSession>) -> Option<LocalV> {
    match s {
        Some(s) => Some(s@),
        None => None,
    }
}

fn pad_id(id: &str) -> (r: String)
    ensures
        r@ == padded_id(id@),
{
    let mut v = text::chars_of(tabs::short_id(id).as_str());
    let ghost s = tabs::short(id@);
    let ghost n = s.len();
    while v.len() < 8
        invariant
            n <= v@.len(),
            v@.len() <= 8 || v@.len() == n,
            v@ == s + spaces(v@.len() - n),
            n == s.len(),
        decreases 8 - v@.len(),
    {
        let ghost had = v@;
        v.push(' ');
        assert(v@ =~= s + spaces(v@.len() - n));
    }
    text::string_of(&v)
}

fn label_of(id: &str, title: Option<&str>, local: Option<&LocalSession>) -> (r: String)
    ensures
        r@ == session_label(id@, text::opt_str_view(title), opt_local_view(local)),
{
    if let Some(t) = title {
        let t = text::trim(t);
        if !t.as_str().is_empty() {
            return t;
        }
    }
    if let Some(s) = local {
        if !s.preview.as_str().is_empty() {
            return s.preview.clone();
        }
    }
    tabs::short_id(id)
}

fn meta_of(id: &str, local: Option<&LocalSession>, updated_at: Option<&str>) -> (r: String)
    ensures
        r@ == session_meta(id@, opt_local_view(local), text::opt_str_view(updated_at)),
{
    let mut r = pad_id(id);
    text::push_str(&mut r, " · ");
    match local {
        Some(s) => {
            text::push_str(&mut r, s.age.as_str());
            text::push_str(&mut r, " · ");
            text::push_str(&mut r, text::decimal_string(s.turns).as_str());
            text::push_str(&mut r, " turn");
            text::push_str(&mut r, if s.turns == 1 { "" } else { "s" });
        },
        None => {
            let date = match updated_at {
                Some(u) => text::first_bytes(u, 10),
                None => None,
            };
            match date {
                Some(d) => text::push_str(&mut r, d.as_str()),
                None => text::push_str(&mut r, "?"),
            }
        },
    }
    r
}

/// A row of the list of sessions.
pub fn session_picker_row(id: &str, title: Option<&str>, local: Option<&LocalSession>, updated_at: Option<&str>) -> (r:
    PickerItem)
    ensures
        r@ == session_row(
            id@,
            text::opt_str_view(title),
            opt_local_view(local),
            text::opt_str_view(updated_at),
        ),
{
    PickerItem {
        id: id.to_owned(),
        label: label_of(id, title, local),
        meta: meta_of(id, local, updated_at),
        provider: None,
    }
}

pub open spec fn local_row(s: LocalV) -> Row {
    session_row(s.id, s.title, Some(s), None)
}

pub open spec fn local_rows(v: Seq<LocalV>) -> Seq<Row> {
    Seq::new(v.len(), |i: int| local_row(v[i]))
}

fn as_str_opt<'a>(s: &'a Option<String>) -> (r: Option<&'a str>)
    ensures
        text::opt_str_view(r) == text::opt_view(*s),
{
    match s {
        Some(t) => Some(t.as_str()),
        None => None,
    }
}

fn list_local_rows(v: &Vec<LocalSession>) -> (r: Vec<PickerItem>)
    ensures
        picker::items_view(r@) == local_rows(app::locals_view(v@)),
{
    let ghost all = app::locals_view(v@);
    let mut r: Vec<PickerItem> = Vec::new();
    let mut i: usize = 0;
    while i < v.len()
        invariant
            i <= v@.len(),
            all == app::locals_view(v@),
            r@.len() == i,
            forall|k: int| 0 <= k < i ==> (#[trigger] r@[k])@ == local_row(all[k]),
        decreases v@.len() - i,
    {
        let s = &v[i];
        assert(all[i as int] == s@);
        r.push(session_picker_row(s.id.as_str(), as_str_opt(&s.title), Some(s), None));
        i = i + 1;
    }
    assert(picker::items_view(r@) =~= local_rows(all));
    r
}

/// The log of a session on this machine; the last where several have its id.
pub open spec fn local_of(v: Seq<LocalV>, id: Seq<char>) -> Option<LocalV>
    decreases v.len(),
{
    if v.len() == 0 {
        None
    } else if v.last().id == id {
        Some(v.last())
    } else {
        local_of(v.drop_last(), id)
    }
}

fn find_local<'a>(v: &'a Vec<LocalSession>, id: &str) -> (r: Option<&'a LocalSession>)
    ensures
        opt_local_view(r) == local_of(app::locals_view(v@), id@),
{
    let ghost all = app::locals_view(v@);
    let mut i: usize = v.len();
    assert(all.take(i as int) =~= all);
    while i > 0
        invariant
            i <= v@.len(),
            all == app::locals_view(v@),
            local_of(all.take(i as int), id@) == local_of(all, id@),
        decreases i,
    {
        assert(all.take(i as int).last() == v@[i - 1]@);
        assert(all.take(i as int).drop_last() =~= all.take(i - 1));
        if text::same(v[i - 1].id.as_str(), id) {
            return Some(&v[i - 1]);
        }
        i = i - 1;
    }
    None
}

/// The title that the agent gives, else the one in the log.
pub open spec fn listed_title(s: ListedV, local: Option<LocalV>) -> Option<Seq<char>> {
    if s.title is Some && s.title->0.len() > 0 {
        s.title
    } else {
        match local {
            Some(l) => l.title,
            None => None,
        }
    }
}

pub open spec fn listed_row(s: ListedV, locals: Seq<LocalV>) -> Row {
    session_row(
        s.id,
        listed_title(s, local_of(locals, s.id)),
        local_of(locals, s.id),
        s.updated_at,
    )
}

pub open spec fn listed_rows(v: Seq<ListedV>, locals: Seq<LocalV>) -> Seq<Row> {
    Seq::new(v.len(), |i: int| listed_row(v[i], locals))
}

fn title_of<'a>(s: &'a SessionListItem, local: Option<&'a LocalSession>) -> (r: Option<&'a str>)
    ensures
        text::opt_str_view(r) == listed_title(s@, opt_local_view(local)),
{
    if let Some(t) = &s.title {
        if !t.as_str().is_empty() {
            return Some(t.as_str());
        }
    }
    match local {
        Some(l) => as_str_opt(&l.title),
        None => None,
    }
}

fn list_listed_rows(v: &Vec<SessionListItem>, locals: &Vec<LocalSession>) -> (r: Vec<PickerItem>)
    ensures
        picker::items_view(r@) == listed_rows(app::listed_view(v@), app::locals_view(locals@)),
{
    let ghost all = app::listed_view(v@);
    let ghost ls = app::locals_view(locals@);
    let mut r: Vec<PickerItem> = Vec::new();
    let mut i: usize = 0;
    while i < v.len()
        invariant
            i <= v@.len(),
            all == app::listed_view(v@),
            ls == app::locals_view(locals@),
            r@.len() == i,
            forall|k: int| 0 <= k < i ==> (#[trigger] r@[k])@ == listed_row(all[k], ls),
        decreases v@.len() - i,
    {
        let s = &v[i];
        assert(all[i as int] == s@);
        let local = find_local(locals, s.id.as_str());
        let title = title_of(s, local);
        r.push(session_picker_row(s.id.as_str(), title, local, as_str_opt(&s.updated_at)));
        i = i + 1;
    }
    assert(picker::items_view(r@) =~= listed_rows(all, ls));
    r
}

/// The sessions other than this one.
pub open spec fn not_session(id: Seq<char>) -> spec_fn(ListedV) -> bool {
    |s: ListedV| s.id != id
}

/// The other sessions, at most `limit` of them.
pub open spec fn resumable(v: Seq<ListedV>, id: Seq<char>, limit: usize) -> Seq<ListedV> {
    let others = v.filter(not_session(id));
    if others.len() <= limit {
        others
    } else {
        others.take(limit as int)
    }
}

fn keep_resumable(v: &Vec<SessionListItem>, id: &str, limit: usize) -> (r: Vec<SessionListItem>)
    ensures
        app::listed_view(r@) == resumable(app::listed_view(v@), id@, limit),
{
    let ghost all = app::listed_view(v@);
    let ghost p = not_session(id@);
    let mut r: Vec<SessionListItem> = Vec::new();
    let mut i: usize = 0;
    proof {
        seqs::lemma_filter_empty(all.take(0), p);
        assert(app::listed_view(r@) =~= all.take(0).filter(p));
    }
    while i < v.len()
        invariant
            i <= v@.len(),
            all == app::listed_view(v@),
            p == not_session(id@),
            app::listed_view(r@) == all.take(i as int).filter(p),
        decreases v@.len() - i,
    {
        let s = &v[i];
        let ghost had = app::listed_view(r@);
        proof {
            seqs::lemma_filter_push(all, p, i as int);
            assert(all[i as int] == s@);
        }
        if !text::same(s.id.as_str(), id) {
            r.push(
                SessionListItem {
                    id: s.id.clone(),
                    title: text::copy_opt(&s.title),
                    updated_at: text::copy_opt(&s.updated_at),
                },
            );
            assert(app::listed_view(r@) =~= had.push(s@));
        }
        i = i + 1;
    }
    assert(all.take(i as int) =~= all);
    let ghost others = app::listed_view(r@);
    assert(others.len() == r@.len());
    if r.len() > limit {
        r.truncate(limit);
        assert(app::listed_view(r@) =~= others.take(limit as int));
    }
    r
}

// --- the steps ------------------------------------------------------------------------

impl AppV {
    pub open spec fn with_tabs(self, t: TabsV) -> AppV {
        AppV { tabs: t, ..self }
    }

    pub open spec fn with_resume(self, r: ResumeV) -> AppV {
        AppV { resume: r, ..self }
    }

    /// The id for a session that has none yet.
    pub open spec fn fresh_id(self) -> Seq<char> {
        "dsh-"@ + text::hex(self.clock.micros as nat) + "-"@ + text::hex(self.clock.stamps as nat)
    }

    pub open spec fn stamped(self) -> AppV {
        AppV {
            clock: ClockV { stamps: tabs::next_number(self.clock.stamps), ..self.clock },
            ..self
        }
    }

    /// Nothing has happened in the viewed tab that is worth keeping.
    pub open spec fn blank_tab(self) -> bool {
        !self.live.run.pending && self.state != RunState::Running && self.live.queue.prompts.len()
            == 0 && self.live.chat.only_notices
    }

    /// The session that the viewed tab waits for will not be taken up, whether
    /// it was asked for or comes on its own.
    #[verifier::opaque]
    pub open spec fn abandoned(self) -> AppV {
        let unasked = !self.tabs.startup_bound && !self.live.bound && !seqs::some(
            self.tabs.awaiting,
            awaits(self.live.id),
        );
        let awaiting = if unasked {
            seq![AwaitingBind { id: self.live.id, open: false }] + self.tabs.awaiting
        } else {
            self.tabs.awaiting
        };
        self.with_tabs(
            TabsV {
                startup_bound: self.tabs.startup_bound || unasked,
                awaiting: awaiting.map_values(given_up(self.live.id)),
                ..self.tabs
            },
        )
    }

    /// A fresh session with the draft of the viewed one takes its place.
    #[verifier::opaque]
    pub open spec fn replaced(self, id: Seq<char>, bound: bool) -> AppV {
        let fresh = session::fresh_slot(id, bound, self.counts.next_transcript);
        self.open_transcript(id).showing(
            SlotV {
                draft: DraftV {
                    input: self.live.draft.input,
                    images: self.live.draft.images,
                    expanded: self.live.draft.expanded,
                    ..fresh.draft
                },
                ..fresh
            },
        )
    }

    /// A tab for a new session: a blank one is used again.
    #[verifier::opaque]
    pub open spec fn new_tab(self, id: Seq<char>, bound: bool) -> AppV {
        if self.blank_tab() {
            self.abandoned().send(Cmd::ForgetSession { session_id: self.live.id }).replaced(
                id,
                bound,
            ).switched().dropping(self.live.asks)
        } else {
            self.open_tab(id, bound)
        }
    }

    pub open spec fn awaiting_for(self, id: Seq<char>) -> AppV {
        self.with_tabs(
            TabsV {
                awaiting: self.tabs.awaiting.push(AwaitingBind { id, open: true }),
                ..self.tabs
            },
        )
    }

    #[verifier::opaque]
    pub open spec fn new_session(self, arg: Seq<char>) -> AppV {
        if self.base.demo {
            let id = if arg.len() == 0 {
                self.fresh_id()
            } else {
                arg
            };
            let a = if arg.len() == 0 {
                self.stamped()
            } else {
                self
            };
            let b = a.new_tab(id, true);
            b.send(Cmd::FetchSkills { session_id: b.live.id }).notice(
                NoticeLevel::Info,
                app::said1(
                    self.base.locale,
                    ("new session · "@, " — /agent picks its agent preset"@),
                    ("新会话 · "@, " —— /agent 选择它的 Agent 预设"@),
                    id,
                ),
            )
        } else {
            let id = self.fresh_id();
            self.stamped().new_tab(id, false).awaiting_for(id).send(
                Cmd::NewSession { requester: Some(id), retry_auth: None },
            ).tip(self.says("session/new …"@, "正在创建会话（session/new）…"@))
        }
    }

    /// A session tab as before anything was said in it; its draft stays.
    pub open spec fn blanked(self, s: SlotV) -> SlotV {
        SlotV {
            title: None,
            bound: self.base.demo,
            chat: Chat { show_banner: false, scroll_up: 0, ..s.chat },
            models: ModelFacts { selected: None, session: None, ..s.models },
            run: Run { pending: false, started: None, ..s.run },
            queue: session::no_queue(),
            modes: session::no_modes(),
            catalog: session::no_catalog(),
            agents: session::no_agents(),
            ..s
        }
    }

    pub open spec fn without_sel(self) -> AppV {
        self.with_pointer(app::Pointer { sel: None, ..self.pointer })
    }

    #[verifier::opaque]
    pub open spec fn reset_ui(self) -> AppV {
        AppV { state: RunState::Idle, ..self }.with_live(self.blanked(self.live)).with_resume(
            ResumeV { candidates: Seq::empty(), via_agent: false, ..self.resume },
        ).without_sel().write(self.live.chat.transcript, TranscriptOp::Clear)
    }

    /// The agent is asked to take a session up again; where it has a tab
    /// already, the view goes there instead.
    #[verifier::opaque]
    pub open spec fn resume_agent(self, id: Seq<char>) -> AppV {
        if self.live.id == id {
            self.reset_ui().write(self.live.chat.transcript, TranscriptOp::RootSession(id)).awaiting_for(
                id,
            ).resuming(id)
        } else {
            match self.tab_of(id) {
                Some(tab) => self.view_tab(tab),
                None => self.open_tab(id, false).awaiting_for(id).resuming(id),
            }
        }
    }

    pub open spec fn resuming(self, id: Seq<char>) -> AppV {
        self.banner_off().send(Cmd::ResumeSession { session_id: id }).tip(
            app::said1(
                self.base.locale,
                ("resuming "@, " …"@),
                ("正在恢复会话 "@, " …"@),
                id,
            ),
        )
    }

    /// The list of sessions: the agent's own, or the logs on this machine.
    #[verifier::opaque]
    pub open spec fn open_resume(self, limit: usize) -> AppV {
        if !self.base.demo && self.conn.list_session {
            self.send(
                Cmd::ListSessions { requester_session_id: self.live.id, prefix: None, limit },
            ).tip(self.says("listing ACP sessions…"@, "正在列出 ACP 会话…"@))
        } else if !self.base.demo {
            self.tip(
                self.says(
                    "agent did not advertise session/list — listing local JSONL"@,
                    "Agent 未声明 session/list —— 改为列出本地 JSONL"@,
                ),
            ).list_logs(limit, false)
        } else {
            self.list_logs(limit, false)
        }
    }

    pub open spec fn list_logs(self, limit: usize, via_agent: bool) -> AppV {
        self.with_resume(ResumeV { via_agent: false, ..self.resume }).emit(
            Effect::ListForPicker { limit, via_agent },
        )
    }

    pub open spec fn session_title_bar(self, n: nat) -> Seq<char> {
        app::said1(
            self.base.locale,
            (" resume session · "@, " sessions · enter select · esc close "@),
            (" 恢复会话 · "@, " 个会话 · enter 选择 · esc 关闭 "@),
            text::decimal(n),
        )
    }

    /// The logs on this machine have been listed for the picker.
    #[verifier::opaque]
    pub open spec fn logs_listed(self, v: Seq<LocalV>, via_agent: bool) -> AppV {
        let a = self.with_resume(
            ResumeV { via_agent: via_agent || self.resume.via_agent, ..self.resume },
        );
        if v.len() == 0 {
            a.notice(
                NoticeLevel::Info,
                self.says(
                    "no durable sessions for this workspace yet — finish a turn and /resume finds it"@,
                    "此工作区还没有持久会话 —— 完成一轮对话后 /resume 即可找回"@,
                ),
            )
        } else {
            a.with_resume(ResumeV { candidates: v, ..a.resume }).with_picker(
                Some(
                    opened(PickerKind::Session, self.session_title_bar(v.len()), 0, local_rows(v)),
                ),
            )
        }
    }

    /// A session is looked for among the logs on this machine.
    #[verifier::opaque]
    pub open spec fn resume_log(self, prefix: Seq<char>) -> AppV {
        if self.resume.candidates.len() == 0 {
            self.emit(Effect::ListForResume { prefix })
        } else {
            self.resume_chosen(prefix)
        }
    }

    #[verifier::opaque]
    pub open spec fn resume_chosen(self, prefix: Seq<char>) -> AppV {
        match chosen(local_ids(self.resume.candidates), prefix) {
            Choice::One(i) => self.emit(
                Effect::ReplayLocal { id: self.resume.candidates[i as int].id },
            ),
            Choice::Nothing => self.notice(
                NoticeLevel::Warn,
                app::said1(
                    self.base.locale,
                    ("no session matches “"@, "” — /resume lists them"@),
                    ("没有会话匹配「"@, "」—— /resume 可列出全部"@),
                    prefix,
                ),
            ),
            Choice::Many(n) => self.notice(
                NoticeLevel::Warn,
                app::said2(
                    self.base.locale,
                    ("“"@, "” is ambiguous ("@, " matches) — /resume lists them"@),
                    ("「"@, "」有 "@, " 个匹配，存在歧义 —— /resume 可列出全部"@),
                    prefix,
                    text::decimal(n as nat),
                ),
            ),
        }
    }

    /// The logs on this machine have been listed to find one of them.
    #[verifier::opaque]
    pub open spec fn logs_found(self, prefix: Seq<char>, v: Seq<LocalV>) -> AppV {
        self.with_resume(ResumeV { candidates: v, ..self.resume }).resume_chosen(prefix)
    }

    /// The agent has listed its sessions.
    #[verifier::opaque]
    pub open spec fn agent_listed(
        self,
        requester: Seq<char>,
        v: Seq<ListedV>,
        prefix: Option<Seq<char>>,
        limit: usize,
    ) -> AppV {
        let kept = resumable(v, self.live.id, limit);
        if requester != self.live.id {
            self
        } else if prefix is Some && prefix->0.len() > 0 {
            match chosen(listed_ids(kept), prefix->0) {
                Choice::One(i) => self.resume_agent(kept[i as int].id),
                Choice::Nothing => self.notice(NoticeLevel::Warn, no_match_text(prefix->0)).listing_rest(
                    kept,
                ),
                Choice::Many(n) => self.notice(
                    NoticeLevel::Warn,
                    many_text(prefix->0, n as nat),
                ).listing_rest(kept),
            }
        } else if kept.len() == 0 {
            self.notice(
                NoticeLevel::Info,
                self.says(
                    "no ACP sessions from session/list — finish a turn and /resume finds it"@,
                    "session/list 没有返回 ACP 会话 —— 完成一轮对话后 /resume 即可找回"@,
                ),
            )
        } else {
            self.listing_rest(kept)
        }
    }

    pub open spec fn listing_rest(self, kept: Seq<ListedV>) -> AppV {
        if kept.len() == 0 {
            self
        } else {
            self.with_resume(ResumeV { listed: kept, ..self.resume }).emit(Effect::ListForRows)
        }
    }

    /// The logs on this machine have been listed to describe the sessions of
    /// the agent.
    #[verifier::opaque]
    pub open spec fn rows_described(self, locals: Seq<LocalV>) -> AppV {
        self.with_resume(ResumeV { via_agent: true, ..self.resume }).with_picker(
            Some(
                opened(
                    PickerKind::Session,
                    self.session_title_bar(self.resume.listed.len()),
                    0,
                    listed_rows(self.resume.listed, locals),
                ),
            ),
        )
    }

    /// The agent can take sessions up again.
    pub open spec fn agent_resumes(self) -> bool {
        self.conn.resume_session || self.conn.load_session
    }

    #[verifier::opaque]
    pub open spec fn agent_cannot_list(
        self,
        requester: Seq<char>,
        prefix: Option<Seq<char>>,
        limit: usize,
        error: Seq<char>,
    ) -> AppV {
        let a = self.tip(
            app::said1(
                self.base.locale,
                ("session/list unavailable ("@, ") — listing local JSONL"@),
                ("session/list 不可用（"@, "）—— 改为列出本地 JSONL"@),
                error,
            ),
        );
        if requester != self.live.id {
            self
        } else if prefix is Some && prefix->0.len() > 0 {
            if self.agent_resumes() {
                a.resume_agent(prefix->0)
            } else {
                a.resume_log(prefix->0)
            }
        } else {
            a.list_logs(limit, self.agent_resumes())
        }
    }
}

fn fresh_with_draft(id: String, bound: bool, transcript: u64, draft: session::Draft) -> (r: SessionSlot)
    ensures
        r@ == ({
            let fresh = session::fresh_slot(id@, bound, transcript);
            SlotV {
                draft: DraftV {
                    input: draft@.input,
                    images: draft@.images,
                    expanded: draft@.expanded,
                    ..fresh.draft
                },
                ..fresh
            }
        }),
{
    let mut r = SessionSlot::fresh(id, bound, transcript);
    proof {
        reveal(session::slot_view);
    }
    r.draft = session::Draft {
        input: draft.input,
        images: draft.images,
        expanded: draft.expanded,
        file_menu: false,
        file_menu_dismissed: None,
    };
    r
}

fn parts_of(s: SessionSlot) -> (r: (session::Draft, session::Asks))
    ensures
        r.0@ == s@.draft,
        r.1@ == s@.asks,
{
    proof {
        reveal(session::slot_view);
    }
    (s.draft, s.asks)
}

impl App {
    /// The id for a session that has none yet.
    fn stamp(&mut self) -> (r: String)
        ensures
            r@ == old(self)@.fresh_id(),
            final(self)@ == old(self)@.stamped(),
    {
        let t = presets::timestamp(self.clock.micros, self.clock.stamps);
        let r = text::concat2("dsh-", t.as_str());
        assert(r@ =~= self@.fresh_id());
        self.clock.stamps = if self.clock.stamps == u64::MAX {
            0
        } else {
            self.clock.stamps + 1
        };
        r
    }

    fn is_blank_tab(&self) -> (r: bool)
        ensures
            r == self@.blank_tab(),
    {
        proof {
            reveal(session::slot_view);
        }
        !self.live.run.pending && !matches!(self.state, RunState::Running)
            && self.live.queue.prompts.len() == 0 && self.live.chat.only_notices
    }

    fn give_up_all(&mut self, id: &str)
        ensures
            final(self)@ == old(self)@.with_tabs(
                TabsV {
                    awaiting: old(self)@.tabs.awaiting.map_values(given_up(id@)),
                    ..old(self)@.tabs
                },
            ),
    {
        let ghost before = self@.tabs.awaiting;
        let ghost whole = self@;
        let n = self.tabs.awaiting.len();
        let mut i: usize = 0;
        while i < n
            invariant
                i <= n,
                n == before.len(),
                self.tabs.awaiting@.len() == n,
                forall|k: int| 0 <= k < i ==> (#[trigger] self@.tabs.awaiting[k]) == given_up(id@)(before[k]),
                forall|k: int| i <= k < n ==> (#[trigger] self@.tabs.awaiting[k]) == before[k],
                self@ == whole.with_tabs(
                    TabsV { awaiting: self@.tabs.awaiting, ..whole.tabs },
                ),
            decreases n - i,
        {
            let ghost now = self@.tabs.awaiting;
            assert(now[i as int] == before[i as int]);
            if text::same(self.tabs.awaiting[i].id.as_str(), id) {
                self.tabs.awaiting[i].open = false;
                assert(self@.tabs.awaiting =~= now.update(
                    i as int,
                    AwaitingBind { id: now[i as int].id, open: false },
                ));
            }
            i = i + 1;
        }
        assert(self@.tabs.awaiting =~= before.map_values(given_up(id@)));
    }

    fn add_unasked(&mut self, id: &str)
        ensures
            final(self)@ == old(self)@.with_tabs(
                TabsV {
                    startup_bound: true,
                    awaiting: seq![AwaitingBind { id: id@, open: false }]
                        + old(self)@.tabs.awaiting,
                    ..old(self)@.tabs
                },
            ),
    {
        let ghost before = self@.tabs.awaiting;
        self.tabs.startup_bound = true;
        self.tabs.awaiting.insert(0, AwaitingBind { id: id.to_owned(), open: false });
        assert(self@.tabs.awaiting =~= seq![AwaitingBind { id: id@, open: false }] + before);
    }

    fn abandon(&mut self)
        ensures
            final(self)@ == old(self)@.abandoned(),
    {
        proof {
            reveal(AppV::abandoned);
        }
        let id = self.session_id();
        let bound = self.is_bound();
        let at = tabs::find_awaiting(&self.tabs.awaiting, id.as_str());
        assert(self@.tabs.awaiting.len() == self.tabs.awaiting@.len());
        if !self.tabs.startup_bound && !bound && at >= self.tabs.awaiting.len() {
            self.add_unasked(id.as_str());
        }
        self.give_up_all(id.as_str());
    }

    fn replace_live(&mut self, id: String, bound: bool) -> (r: session::Asks)
        ensures
            r@ == old(self)@.live.asks,
            final(self)@ == old(self)@.replaced(id@, bound),
    {
        proof {
            reveal(AppV::replaced);
        }
        let transcript = self.next_transcript(id.as_str());
        let blank = SessionSlot::fresh(text::empty(), false, 0);
        let mut old_live = blank;
        std::mem::swap(&mut self.live, &mut old_live);
        let (draft, asks) = parts_of(old_live);
        let fresh = fresh_with_draft(id, bound, transcript, draft);
        let _shell = self.exchange(fresh);
        asks
    }

    pub(crate) fn prepare_new_session(&mut self, id: String, bound: bool)
        ensures
            final(self)@ == old(self)@.new_tab(id@, bound),
    {
        proof {
            reveal(AppV::new_tab);
        }
        if !self.is_blank_tab() {
            self.open_new_session(id, bound);
            return;
        }
        let session_id = self.session_id();
        let ghost asks0 = self@.live.asks;
        self.abandon();
        proof {
            reveal(AppV::abandoned);
        }
        self.send(Cmd::ForgetSession { session_id });
        let asks = self.replace_live(id, bound);
        self.after_switch();
        self.drop_asks(asks);
    }

    fn await_bind(&mut self, id: String)
        ensures
            final(self)@ == old(self)@.awaiting_for(id@),
    {
        let ghost before = self@.tabs.awaiting;
        let ghost i = id@;
        self.tabs.awaiting.push(AwaitingBind { id, open: true });
        assert(self@.tabs.awaiting =~= before.push(AwaitingBind { id: i, open: true }));
    }

    pub(crate) fn new_session_flow(&mut self, arg: &str)
        ensures
            final(self)@ == old(self)@.new_session(arg@),
    {
        proof {
            reveal(AppV::new_session);
        }
        let l = self.base.locale;
        if self.base.demo {
            let id = if arg.is_empty() {
                self.stamp()
            } else {
                arg.to_owned()
            };
            let t = app::say1(
                l,
                ("new session · ", " — /agent picks its agent preset"),
                ("新会话 · ", " —— /agent 选择它的 Agent 预设"),
                id.as_str(),
            );
            self.prepare_new_session(id, true);
            let session_id = self.session_id();
            self.send(Cmd::FetchSkills { session_id });
            self.notice(NoticeLevel::Info, t);
        } else {
            let t = self.say("session/new …", "正在创建会话（session/new）…");
            let id = self.stamp();
            self.prepare_new_session(id.clone(), false);
            self.await_bind(id.clone());
            self.send(Cmd::NewSession { requester: Some(id), retry_auth: None });
            self.show_tip(t);
        }
    }

    fn blank_live(&mut self)
        ensures
            final(self)@ == (AppV {
                state: RunState::Idle,
                live: old(self)@.blanked(old(self)@.live),
                ..old(self)@
            }),
    {
        proof {
            reveal(session::slot_view);
        }
        self.live.title = None;
        self.live.bound = self.base.demo;
        self.live.chat.show_banner = false;
        self.live.chat.scroll_up = 0;
        self.live.models.selected = None;
        self.live.models.session = None;
        self.live.run.pending = false;
        self.live.run.started = None;
        self.live.queue = Queue::empty();
        self.live.modes = session::Modes::default();
        self.live.catalog = Catalog::empty();
        self.live.agents = Agents::empty();
        self.state = RunState::Idle;
    }

    fn forget_candidates(&mut self)
        ensures
            final(self)@ == old(self)@.with_resume(
                ResumeV {
                    candidates: Seq::empty(),
                    via_agent: false,
                    ..old(self)@.resume
                },
            ).without_sel(),
    {
        self.resume.candidates = Vec::new();
        self.resume.via_agent = false;
        self.pointer.sel = None;
        assert(self@.resume.candidates =~= Seq::empty());
    }

    pub(crate) fn reset_session_ui(&mut self)
        ensures
            final(self)@ == old(self)@.reset_ui(),
    {
        proof {
            reveal(AppV::reset_ui);
        }
        let transcript = self.live_transcript();
        self.blank_live();
        self.forget_candidates();
        self.write(transcript, TranscriptOp::Clear);
    }

    fn ask_to_resume(&mut self, id: &str)
        ensures
            final(self)@ == old(self)@.resuming(id@),
    {
        let t = app::say1(
            self.base.locale,
            ("resuming ", " …"),
            ("正在恢复会话 ", " …"),
            id,
        );
        self.hide_banner();
        self.send(Cmd::ResumeSession { session_id: id.to_owned() });
        self.show_tip(t);
    }

    pub(crate) fn resume_acp_session(&mut self, id: &str)
        ensures
            final(self)@ == old(self)@.resume_agent(id@),
    {
        proof {
            reveal(AppV::resume_agent);
        }
        if self.is_live(id) {
            let transcript = self.live_transcript();
            self.reset_session_ui();
            self.write(transcript, TranscriptOp::RootSession(id.to_owned()));
            self.await_bind(id.to_owned());
            self.ask_to_resume(id);
            return;
        }
        match self.tab_index_of(id) {
            Some(tab) => {
                self.switch_view_to_tab(tab);
            },
            None => {
                self.open_new_session(id.to_owned(), false);
                self.await_bind(id.to_owned());
                self.ask_to_resume(id);
            },
        }
    }

    fn list_local(&mut self, limit: usize, via_agent: bool)
        ensures
            final(self)@ == old(self)@.list_logs(limit, via_agent),
    {
        self.resume.via_agent = false;
        self.emit(Effect::ListForPicker { limit, via_agent });
    }

    pub(crate) fn open_resume_picker(&mut self, limit: usize)
        ensures
            final(self)@ == old(self)@.open_resume(limit),
    {
        proof {
            reveal(AppV::open_resume);
        }
        if !self.base.demo && self.conn.list_session {
            let requester_session_id = self.session_id();
            self.send(Cmd::ListSessions { requester_session_id, prefix: None, limit });
            self.tell("listing ACP sessions…", "正在列出 ACP 会话…");
            return;
        }
        if !self.base.demo {
            self.tell(
                "agent did not advertise session/list — listing local JSONL",
                "Agent 未声明 session/list —— 改为列出本地 JSONL",
            );
        }
        self.list_local(limit, false);
    }

    fn say_title_bar(&self, n: usize) -> (r: String)
        ensures
            r@ == self@.session_title_bar(n as nat),
    {
        app::say1(
            self.base.locale,
            (" resume session · ", " sessions · enter select · esc close "),
            (" 恢复会话 · ", " 个会话 · enter 选择 · esc 关闭 "),
            text::count_string(n).as_str(),
        )
    }

    fn set_candidates(&mut self, v: Vec<LocalSession>)
        ensures
            final(self)@ == old(self)@.with_resume(
                ResumeV { candidates: app::locals_view(v@), ..old(self)@.resume },
            ),
    {
        self.resume.candidates = v;
    }

    pub(crate) fn pick_among_logs(&mut self, sessions: Vec<LocalSession>, via_agent: bool)
        ensures
            final(self)@ == old(self)@.logs_listed(app::locals_view(sessions@), via_agent),
    {
        proof {
            reveal(AppV::logs_listed);
        }
        let n = sessions.len();
        assert(app::locals_view(sessions@).len() == n);
        self.resume.via_agent = via_agent || self.resume.via_agent;
        if n == 0 {
            let t = self.say(
                "no durable sessions for this workspace yet — finish a turn and /resume finds it",
                "此工作区还没有持久会话 —— 完成一轮对话后 /resume 即可找回",
            );
            self.notice(NoticeLevel::Info, t);
            return;
        }
        let items = list_local_rows(&sessions);
        let title = self.say_title_bar(n);
        self.set_candidates(sessions);
        self.set_picker(PickerKind::Session, title, 0, items);
    }

    fn candidate_choice(&self, prefix: &str) -> (r: (Choice, String))
        ensures
            r.0 == chosen(local_ids(self@.resume.candidates), prefix@),
            r.0 matches Choice::One(i) ==> r.1@ == self@.resume.candidates[i as int].id,
    {
        let ids = list_local_ids(&self.resume.candidates);
        assert(text::views(ids@).len() == self.resume.candidates@.len());
        let c = choose_id(&ids, prefix);
        let id = match c {
            Choice::One(i) => {
                assert(self@.resume.candidates[i as int] == self.resume.candidates@[i as int]@);
                self.resume.candidates[i].id.clone()
            },
            _ => text::empty(),
        };
        (c, id)
    }

    fn resume_candidate(&mut self, prefix: &str)
        ensures
            final(self)@ == old(self)@.resume_chosen(prefix@),
    {
        proof {
            reveal(AppV::resume_chosen);
        }
        let l = self.base.locale;
        let (c, id) = self.candidate_choice(prefix);
        match c {
            Choice::One(_i) => self.emit(Effect::ReplayLocal { id }),
            Choice::Nothing => {
                let t = app::say1(
                    l,
                    ("no session matches “", "” — /resume lists them"),
                    ("没有会话匹配「", "」—— /resume 可列出全部"),
                    prefix,
                );
                self.notice(NoticeLevel::Warn, t);
            },
            Choice::Many(n) => {
                let t = app::say2(
                    l,
                    ("“", "” is ambiguous (", " matches) — /resume lists them"),
                    ("「", "」有 ", " 个匹配，存在歧义 —— /resume 可列出全部"),
                    prefix,
                    text::count_string(n).as_str(),
                );
                self.notice(NoticeLevel::Warn, t);
            },
        }
    }

    pub(crate) fn resume_session(&mut self, prefix: &str)
        ensures
            final(self)@ == old(self)@.resume_log(prefix@),
    {
        proof {
            reveal(AppV::resume_log);
        }
        assert(self@.resume.candidates.len() == self.resume.candidates@.len());
        if self.resume.candidates.len() == 0 {
            self.emit(Effect::ListForResume { prefix: prefix.to_owned() });
        } else {
            self.resume_candidate(prefix);
        }
    }

    pub(crate) fn resume_among_logs(&mut self, prefix: &str, sessions: Vec<LocalSession>)
        ensures
            final(self)@ == old(self)@.logs_found(prefix@, app::locals_view(sessions@)),
    {
        proof {
            reveal(AppV::logs_found);
        }
        self.set_candidates(sessions);
        self.resume_candidate(prefix);
    }

    fn list_rest(&mut self, kept: Vec<SessionListItem>)
        ensures
            final(self)@ == old(self)@.listing_rest(app::listed_view(kept@)),
    {
        assert(app::listed_view(kept@).len() == kept@.len());
        if kept.len() > 0 {
            self.resume.listed = kept;
            self.emit(Effect::ListForRows);
        }
    }

    pub(crate) fn on_acp_session_list(
        &mut self,
        requester: &str,
        sessions: &Vec<SessionListItem>,
        prefix: Option<&str>,
        limit: usize,
    )
        ensures
            final(self)@ == old(self)@.agent_listed(
                requester@,
                app::listed_view(sessions@),
                text::opt_str_view(prefix),
                limit,
            ),
    {
        proof {
            reveal(AppV::agent_listed);
        }
        if !self.is_live(requester) {
            return;
        }
        let kept = keep_resumable(sessions, requester, limit);
        let ghost k = app::listed_view(kept@);
        assert(k.len() == kept@.len());
        if let Some(p) = prefix {
            if !p.is_empty() {
                proof {
                    lemma_chosen(listed_ids(k), p@);
                }
                match unique_session_list_match(&kept, p) {
                    Ok(id) => self.resume_acp_session(id.as_str()),
                    Err(t) => {
                        self.notice(NoticeLevel::Warn, t);
                        self.list_rest(kept);
                    },
                }
                return;
            }
        }
        if kept.len() == 0 {
            let t = self.say(
                "no ACP sessions from session/list — finish a turn and /resume finds it",
                "session/list 没有返回 ACP 会话 —— 完成一轮对话后 /resume 即可找回",
            );
            self.notice(NoticeLevel::Info, t);
            return;
        }
        self.list_rest(kept);
    }

    pub(crate) fn describe_listed(&mut self, locals: &Vec<LocalSession>)
        ensures
            final(self)@ == old(self)@.rows_described(app::locals_view(locals@)),
    {
        proof {
            reveal(AppV::rows_described);
        }
        let items = list_listed_rows(&self.resume.listed, locals);
        let title = self.say_title_bar(self.resume.listed.len());
        self.resume.via_agent = true;
        self.set_picker(PickerKind::Session, title, 0, items);
    }

    pub(crate) fn on_acp_session_list_unavailable(
        &mut self,
        requester: &str,
        prefix: Option<&str>,
        limit: usize,
        error: &str,
    )
        ensures
            final(self)@ == old(self)@.agent_cannot_list(
                requester@,
                text::opt_str_view(prefix),
                limit,
                error@,
            ),
    {
        proof {
            reveal(AppV::agent_cannot_list);
        }
        if !self.is_live(requester) {
            return;
        }
        let caps = self.conn.resume_session || self.conn.load_session;
        self.tell1(
            ("session/list unavailable (", ") — listing local JSONL"),
            ("session/list 不可用（", "）—— 改为列出本地 JSONL"),
            error,
        );
        if let Some(p) = prefix {
            if !p.is_empty() {
                if caps {
                    self.resume_acp_session(p);
                } else {
                    self.resume_session(p);
                }
                return;
            }
        }
        self.list_local(limit, caps);
    }
}

} // verus!
