//! Session tabs: which session is viewed, which are parked, and how one leaves
//! the other's place.

use crate::app::{self, App, AppV, AwaitingBind, CountsV, FrameV, MenuV, Pointer, TabsV};
use crate::bus::{self, Cmd, ConnectionV, PermissionAskReply, SessionConnection};
use crate::effect::{Effect, EffectV, Locale, TranscriptOp};
use crate::json::{Json, JsonValue};
use crate::screen::{self, ChatView};
use crate::select;
use crate::seqs;
use crate::session::{self, Asks, AsksV, PopupsV, Run, RunState, SessionSlot, SlotV};
use crate::text;
use vstd::prelude::*;

verus! {

/// The next number of a counter.
pub open spec fn next_number(n: u64) -> u64 {
    if n == u64::MAX {
        0
    } else {
        (n + 1) as u64
    }
}

/// The answers owed to whoever asked, when requests are dropped.
pub open spec fn cancelled(asks: AsksV) -> Seq<EffectV> {
    (match asks.permission {
        Some(p) => seq![
            Effect::Answer { reply: p.reply, answer: PermissionAskReply::<Seq<char>>::Cancelled },
        ],
        None => Seq::empty(),
    }) + (match asks.form {
        Some(f) => seq![Effect::CancelForm { reply: f.reply }],
        None => Seq::empty(),
    })
}

pub open spec fn cancel_event(id: Seq<char>, value: Option<Json>) -> bus::CmdV {
    Cmd::PluginOverlayEvent { id, event: "cancel"@, value }
}

/// The tabs that wait for a session with this id.
pub open spec fn awaits(id: Seq<char>) -> spec_fn(AwaitingBind<Seq<char>>) -> bool {
    |e: AwaitingBind<Seq<char>>| e.id == id
}

/// An entry for a tab with this id, given up.
pub open spec fn given_up(id: Seq<char>) -> spec_fn(AwaitingBind<Seq<char>>) -> AwaitingBind<
    Seq<char>,
> {
    |e: AwaitingBind<Seq<char>>|
        if e.id == id {
            AwaitingBind { id: e.id, open: false }
        } else {
            e
        }
}

/// The first characters of an id.
pub open spec fn short(id: Seq<char>) -> Seq<char> {
    text::first_chars(id, 8)
}

pub fn short_id(id: &str) -> (r: String)
    ensures
        r@ == short(id@),
{
    text::take_chars(id, 8)
}

/// A session as it is parked. The view of a plugin is not kept.
pub open spec fn asleep(s: SlotV, conn: ConnectionV, busy: bool) -> SlotV {
    SlotV {
        connection: Some(conn),
        run: Run { running: busy, completed_unseen: false, ..s.run },
        popups: PopupsV {
            view: match s.popups.view {
                Some(v) => if v.notify_plugin {
                    None
                } else {
                    Some(v)
                },
                None => None,
            },
            ..s.popups
        },
        ..s
    }
}

/// Whether a parked session has a turn that runs or is about to.
pub open spec fn slot_busy(s: SlotV) -> bool {
    s.run.running || s.run.pending
}

/// A parked session as it comes into view. One that settled while it was
/// parked shows no running turn.
pub open spec fn awake(s: SlotV) -> SlotV {
    SlotV {
        connection: None,
        run: Run {
            note: if slot_busy(s) {
                s.run.note
            } else {
                Seq::empty()
            },
            started: if slot_busy(s) {
                s.run.started
            } else {
                None
            },
            running: false,
            completed_unseen: false,
            pending: s.run.pending,
        },
        ..s
    }
}

pub open spec fn connection_of(s: SlotV) -> ConnectionV {
    match s.connection {
        Some(c) => c,
        None => bus::no_connection(),
    }
}

fn wake(slot: &mut SessionSlot) -> (r: SessionConnection)
    ensures
        final(slot)@ == awake(old(slot)@),
        r@ == connection_of(old(slot)@),
{
    proof {
        reveal(session::slot_view);
    }
    let conn = match slot.connection.take() {
        Some(c) => c,
        None => SessionConnection::none(),
    };
    if !(slot.run.running || slot.run.pending) {
        slot.run.note = text::empty();
        slot.run.started = None;
    }
    slot.run.running = false;
    slot.run.completed_unseen = false;
    conn
}

fn put_to_sleep(slot: &mut SessionSlot, conn: SessionConnection, busy: bool)
    ensures
        final(slot)@ == asleep(old(slot)@, conn@, busy),
{
    proof {
        reveal(session::slot_view);
    }
    slot.connection = Some(conn);
    slot.run.running = busy;
    slot.run.completed_unseen = false;
    let plugin_view = match &slot.popups.view {
        Some(v) => v.notify_plugin,
        None => false,
    };
    if plugin_view {
        slot.popups.view = None;
    }
}

/// What goes with a tab that is closed.
pub open spec fn lost_things(running: bool, queued: nat, draft: bool, ask: bool) -> Seq<Seq<char>> {
    (if running {
        seq!["its running turn keeps settling"@]
    } else {
        Seq::empty()
    }) + (if queued > 0 {
        seq![text::decimal(queued) + " queued dropped"@]
    } else {
        Seq::empty()
    }) + (if draft {
        seq!["draft dropped"@]
    } else {
        Seq::empty()
    }) + (if ask {
        seq!["pending ask cancelled"@]
    } else {
        Seq::empty()
    })
}

pub open spec fn closed_text(l: Locale, label: Seq<char>, lost: Seq<Seq<char>>) -> Seq<char> {
    if lost.len() == 0 {
        app::said1(l, ("closed "@, ""@), ("已关闭 "@, ""@), label)
    } else {
        app::said2(
            l,
            ("closed "@, " · "@, ""@),
            ("已关闭 "@, " · "@, ""@),
            label,
            text::joined(lost, ", "@),
        )
    }
}

fn add_text(v: &mut Vec<String>, t: String)
    ensures
        text::views(final(v)@) == text::views(old(v)@).push(t@),
{
    v.push(t);
    assert(text::views(v@) =~= text::views(old(v)@).push(t@));
}

fn list_lost_things(running: bool, queued: usize, draft: bool, ask: bool) -> (r: Vec<String>)
    ensures
        text::views(r@) == lost_things(running, queued as nat, draft, ask),
{
    let mut bits: Vec<String> = Vec::new();
    if running {
        add_text(&mut bits, "its running turn keeps settling".to_owned());
    }
    if queued > 0 {
        let n = text::count_string(queued);
        add_text(&mut bits, text::concat2(n.as_str(), " queued dropped"));
    }
    if draft {
        add_text(&mut bits, "draft dropped".to_owned());
    }
    if ask {
        add_text(&mut bits, "pending ask cancelled".to_owned());
    }
    assert(text::views(bits@) =~= lost_things(running, queued as nat, draft, ask));
    bits
}

fn say_closed(l: Locale, label: &str, lost: &Vec<String>) -> (r: String)
    ensures
        r@ == closed_text(l, label@, text::views(lost@)),
{
    if lost.len() == 0 {
        app::say1(l, ("closed ", ""), ("已关闭 ", ""), label)
    } else {
        let all = text::join(lost, ", ");
        app::say2(l, ("closed ", " · ", ""), ("已关闭 ", " · ", ""), label, all.as_str())
    }
}

/// One row of the strip of tabs.
#[derive(Debug, PartialEq, Eq)]
pub struct SessionTab<S = String> {
    pub label: S,
    pub running: bool,
    pub completed_unseen: bool,
    /// Something is asked of the user on behalf of this session.
    pub ask_pending: bool,
    pub current: bool,
}

impl View for SessionTab {
    type V = SessionTab<Seq<char>>;

    open spec fn view(&self) -> Self::V {
        SessionTab {
            label: self.label@,
            running: self.running,
            completed_unseen: self.completed_unseen,
            ask_pending: self.ask_pending,
            current: self.current,
        }
    }
}

pub open spec fn rows_view(v: Seq<SessionTab>) -> Seq<SessionTab<Seq<char>>> {
    v.map_values(|t: SessionTab| t@)
}

/// The name of a tab: the title of its session, or the beginning of its id.
pub open spec fn tab_label(s: SlotV) -> Seq<char> {
    match s.title {
        Some(t) => if text::trimmed(t).len() > 0 {
            t
        } else {
            short(s.id)
        },
        None => short(s.id),
    }
}

pub open spec fn tab_row(s: SlotV, running: bool, current: bool) -> SessionTab<Seq<char>> {
    SessionTab {
        label: tab_label(s),
        running,
        completed_unseen: !current && s.run.completed_unseen,
        ask_pending: s.asks.permission is Some || s.asks.form is Some,
        current,
    }
}

pub open spec fn parked_rows(v: Seq<SlotV>) -> Seq<SessionTab<Seq<char>>> {
    Seq::new(v.len(), |i: int| tab_row(v[i], slot_busy(v[i]), false))
}

fn row_of(s: &SessionSlot, running: bool, current: bool) -> (r: SessionTab)
    ensures
        r@ == tab_row(s@, running, current),
{
    proof {
        reveal(session::slot_view);
    }
    let label = match &s.title {
        Some(t) => if !text::trim(t.as_str()).as_str().is_empty() {
            t.clone()
        } else {
            short_id(s.id.as_str())
        },
        None => short_id(s.id.as_str()),
    };
    SessionTab {
        label,
        running,
        completed_unseen: !current && s.run.completed_unseen,
        ask_pending: s.asks.permission.is_some() || s.asks.form.is_some(),
        current,
    }
}

impl AppV {
    /// Whether a turn runs or is about to.
    pub open spec fn busy(self) -> bool {
        self.state != RunState::Idle || self.live.run.pending
    }

    /// The viewed session as it is parked.
    pub open spec fn parked_form(self) -> SlotV {
        asleep(self.live, self.conn, self.busy())
    }

    /// A session comes into view.
    pub open spec fn showing(self, s: SlotV) -> AppV {
        AppV {
            live: awake(s),
            conn: connection_of(s),
            state: if slot_busy(s) {
                RunState::Running
            } else {
                RunState::Idle
            },
            ..self
        }
    }

    /// What the mouse was about is forgotten, the strip of tabs apart.
    pub open spec fn settled_pointer(self) -> Pointer {
        Pointer {
            sel: None,
            selecting: false,
            last_click: None,
            input_sel: None,
            input_selecting: false,
            ..self.pointer
        }
    }

    /// Nothing that was shown for one session is left for the other.
    #[verifier::opaque]
    pub open spec fn switched(self) -> AppV {
        AppV {
            frame: FrameV { chat: screen::no_chat_view(), ..self.frame },
            pointer: Pointer { jump_cell: None, flash: None, ..self.settled_pointer() },
            menu: MenuV { picker: None, ..self.menu },
            ..self
        }.emit(Effect::ResetVim).redrawn()
    }

    /// Where the viewed tab stands in the row.
    pub open spec fn place(self) -> int {
        if self.tabs.current <= self.tabs.parked.len() {
            self.tabs.current as int
        } else {
            self.tabs.parked.len() as int
        }
    }

    /// Where a tab stands among the parked ones.
    pub open spec fn parked_index(self, tab: int) -> int {
        if tab < self.place() {
            tab
        } else {
            tab - 1
        }
    }

    /// The viewed session and tab `tab` change places.
    #[verifier::opaque]
    pub open spec fn swapped(self, tab: int) -> AppV {
        let at = self.parked_index(tab);
        let back = if self.place() < tab {
            self.place()
        } else {
            self.place() - 1
        };
        AppV {
            tabs: TabsV {
                parked: self.tabs.parked.remove(at).insert(back, self.parked_form()),
                current: tab as usize,
                ..self.tabs
            },
            ..self
        }.showing(self.tabs.parked[at])
    }

    #[verifier::opaque]
    pub open spec fn switch_to(self, tab: int) -> AppV {
        if tab == self.place() || tab > self.tabs.parked.len() {
            self
        } else {
            self.swapped(tab).switched()
        }
    }

    /// Overlays of plugins are closed, and their plugins told.
    #[verifier::opaque]
    pub open spec fn without_plugin_overlays(self) -> AppV {
        self.without_plugin_view().without_slider().without_select()
    }

    #[verifier::opaque]
    pub open spec fn without_plugin_view(self) -> AppV {
        match self.live.popups.view {
            Some(v) => if v.notify_plugin {
                self.with_live(
                    SlotV { popups: PopupsV { view: None, ..self.live.popups }, ..self.live },
                ).send(cancel_event(v.id, None))
            } else {
                self
            },
            None => self,
        }
    }

    #[verifier::opaque]
    pub open spec fn without_slider(self) -> AppV {
        match self.menu.slider {
            Some(s) => (AppV { menu: MenuV { slider: None, ..self.menu }, ..self }).send(
                cancel_event(s.id, Some(s.value)),
            ),
            None => self,
        }
    }

    #[verifier::opaque]
    pub open spec fn without_select(self) -> AppV {
        match self.menu.select {
            Some(s) => (AppV { menu: MenuV { select: None, ..self.menu }, ..self }).send(
                cancel_event(s.id, Some(Json::Str(select::selected_value(s)))),
            ),
            None => self,
        }
    }

    /// The view goes to another tab, as after a click on it.
    #[verifier::opaque]
    pub open spec fn view_tab(self, tab: int) -> AppV {
        let a = self.with_pointer(self.settled_pointer());
        (if tab != self.place() {
            a.without_plugin_overlays()
        } else {
            a
        }).switch_to(tab)
    }

    /// The next transcript, opened for a session.
    pub open spec fn open_transcript(self, session: Seq<char>) -> AppV {
        AppV {
            counts: CountsV {
                next_transcript: next_number(self.counts.next_transcript),
                ..self.counts
            },
            ..self
        }.write(
            self.counts.next_transcript,
            TranscriptOp::Open { session, locale: self.base.locale },
        )
    }

    /// A fresh tab at the end of the row comes into view.
    #[verifier::opaque]
    pub open spec fn open_tab(self, id: Seq<char>, bound: bool) -> AppV {
        AppV {
            tabs: TabsV {
                parked: self.tabs.parked.insert(self.place(), self.parked_form()),
                current: (self.tabs.parked.len() + 1) as usize,
                ..self.tabs
            },
            ..self
        }.open_transcript(id).showing(
            session::fresh_slot(id, bound, self.counts.next_transcript),
        ).switched()
    }

    /// Where the tab of a session stands.
    pub open spec fn tab_of(self, id: Seq<char>) -> Option<int> {
        if self.live.id == id {
            Some(self.place())
        } else {
            let at = seqs::first_index(self.tabs.parked, session::with_id(id));
            if at >= self.tabs.parked.len() {
                None
            } else if at < self.place() {
                Some(at)
            } else {
                Some(at + 1)
            }
        }
    }

    /// The view goes to the neighbour of the viewed tab, which leaves the row.
    #[verifier::opaque]
    pub open spec fn at_neighbour(self) -> AppV {
        let right = self.place() < self.tabs.parked.len();
        let at = if right {
            self.place()
        } else {
            self.place() - 1
        };
        AppV {
            tabs: TabsV {
                parked: self.tabs.parked.remove(at),
                current: at as usize,
                ..self.tabs
            },
            ..self
        }.showing(self.tabs.parked[at])
    }

    #[verifier::opaque]
    pub open spec fn dropping(self, asks: AsksV) -> AppV {
        AppV { out: self.out + cancelled(asks), ..self }
    }

    /// The session that the tab `id` waits for will not be taken up.
    #[verifier::opaque]
    pub open spec fn giving_up(self, id: Seq<char>) -> AppV {
        let at = seqs::first_index(self.tabs.awaiting, awaits(id));
        if at < self.tabs.awaiting.len() {
            AppV {
                tabs: TabsV {
                    awaiting: self.tabs.awaiting.update(at, AwaitingBind { id, open: false }),
                    ..self.tabs
                },
                ..self
            }
        } else {
            self
        }
    }

    /// The viewed tab closes; the last one cannot.
    #[verifier::opaque]
    pub open spec fn close_tab(self) -> AppV {
        if self.tabs.parked.len() == 0 {
            self.tell(
                "cannot close the last session — /new opens another first"@,
                "不能关闭最后一个会话 —— 先用 /new 开一个新的"@,
            )
        } else {
            let a = self.without_plugin_overlays();
            a.at_neighbour().dropping(a.live.asks).giving_up(self.live.id).send(
                Cmd::ForgetSession { session_id: self.live.id },
            ).switched().tip(
                closed_text(
                    self.base.locale,
                    short(self.live.id),
                    lost_things(
                        self.busy(),
                        self.live.queue.prompts.len(),
                        self.live.draft.input.buf.len() > 0 || self.live.draft.images.len() > 0,
                        self.live.asks.permission is Some || self.live.asks.form is Some,
                    ),
                ),
            )
        }
    }

    /// All sessions in tab order.
    pub open spec fn all_tabs(self) -> Seq<SlotV> {
        self.tabs.parked.insert(self.place(), self.parked_form())
    }
}

impl App {
    pub(crate) fn drop_asks(&mut self, asks: Asks)
        ensures
            final(self)@ == old(self)@.dropping(asks@),
    {
        proof {
            reveal(AppV::dropping);
        }
        let ghost sent = self@.out;
        if let Some(p) = asks.permission {
            self.emit(Effect::Answer { reply: p.reply, answer: PermissionAskReply::Cancelled });
        }
        if let Some(f) = asks.form {
            self.emit(Effect::CancelForm { reply: f.reply });
        }
        assert(self@.out =~= sent + cancelled(asks@));
    }

    /// Brings a session into view and gives the viewed one as it is parked.
    pub(crate) fn exchange(&mut self, incoming: SessionSlot) -> (r: SessionSlot)
        ensures
            r@ == old(self)@.parked_form(),
            final(self)@ == old(self)@.showing(incoming@),
    {
        proof {
            reveal(session::slot_view);
        }
        let mut slot = incoming;
        let busy = !matches!(self.state, RunState::Idle) || self.live.run.pending;
        let running = slot.run.running || slot.run.pending;
        let mut conn = wake(&mut slot);
        std::mem::swap(&mut self.live, &mut slot);
        std::mem::swap(&mut self.conn, &mut conn);
        self.state = if running {
            RunState::Running
        } else {
            RunState::Idle
        };
        put_to_sleep(&mut slot, conn, busy);
        slot
    }

    fn settle_pointer(&mut self)
        ensures
            final(self)@ == old(self)@.with_pointer(old(self)@.settled_pointer()),
    {
        self.pointer.sel = None;
        self.pointer.selecting = false;
        self.pointer.last_click = None;
        self.pointer.input_sel = None;
        self.pointer.input_selecting = false;
    }

    pub(crate) fn after_switch(&mut self)
        ensures
            final(self)@ == old(self)@.switched(),
    {
        proof {
            reveal(AppV::switched);
        }
        self.frame.chat = ChatView::empty();
        self.settle_pointer();
        self.pointer.jump_cell = None;
        self.pointer.flash = None;
        self.menu.picker = None;
        self.emit(Effect::ResetVim);
        self.redraw();
    }

    fn swap_with(&mut self, tab: usize)
        requires
            tab != old(self)@.place(),
            tab <= old(self)@.tabs.parked.len(),
        ensures
            final(self)@ == old(self)@.swapped(tab as int),
    {
        proof {
            reveal(AppV::swapped);
        }
        let ghost a = self@;
        let place = self.live_tab_index();
        let at: usize = if tab < place {
            tab
        } else {
            tab - 1
        };
        let back: usize = if place < tab {
            place
        } else {
            place - 1
        };
        let target = self.tabs.parked.remove(at);
        let ghost rest = self@.tabs.parked;
        assert(rest =~= a.tabs.parked.remove(at as int));
        let live = self.exchange(target);
        self.tabs.parked.insert(back, live);
        assert(self@.tabs.parked =~= rest.insert(back as int, a.parked_form()));
        self.tabs.current = tab;
    }

    /// Switches the view to a tab; nothing happens where there is no such tab.
    pub fn switch_to_session(&mut self, tab: usize)
        ensures
            final(self)@ == old(self)@.switch_to(tab as int),
    {
        proof {
            reveal(AppV::switch_to);
        }
        if tab == self.live_tab_index() || tab > self.tabs.parked.len() {
            return;
        }
        self.swap_with(tab);
        self.after_switch();
    }

    fn cancel_plugin_view(&mut self)
        ensures
            final(self)@ == old(self)@.without_plugin_view(),
            final(self)@.tabs == old(self)@.tabs,
    {
        proof {
            reveal(AppV::without_plugin_view);
            reveal(session::slot_view);
        }
        let plugin_view = match &self.live.popups.view {
            Some(v) => v.notify_plugin,
            None => false,
        };
        if plugin_view {
            if let Some(v) = self.live.popups.view.take() {
                self.send(
                    Cmd::PluginOverlayEvent { id: v.id, event: "cancel".to_owned(), value: None },
                );
            }
        }
    }

    fn cancel_slider(&mut self)
        ensures
            final(self)@ == old(self)@.without_slider(),
            final(self)@.tabs == old(self)@.tabs,
    {
        proof {
            reveal(AppV::without_slider);
        }
        if let Some(s) = self.menu.slider.take() {
            self.send(
                Cmd::PluginOverlayEvent {
                    id: s.id,
                    event: "cancel".to_owned(),
                    value: Some(s.value),
                },
            );
        }
    }

    pub(crate) fn cancel_select(&mut self)
        ensures
            final(self)@ == old(self)@.without_select(),
            final(self)@.tabs == old(self)@.tabs,
    {
        proof {
            reveal(AppV::without_select);
        }
        if let Some(s) = self.menu.select.take() {
            let value = s.current_value();
            self.send(
                Cmd::PluginOverlayEvent {
                    id: s.id,
                    event: "cancel".to_owned(),
                    value: Some(JsonValue::Str(value)),
                },
            );
        }
    }

    pub(crate) fn cancel_plugin_overlays(&mut self)
        ensures
            final(self)@ == old(self)@.without_plugin_overlays(),
            final(self)@.tabs == old(self)@.tabs,
    {
        proof {
            reveal(AppV::without_plugin_overlays);
        }
        self.cancel_plugin_view();
        self.cancel_slider();
        self.cancel_select();
    }

    /// Leaves the viewed session for another tab: overlays of plugins are
    /// cancelled, popups and requests stay with their session.
    pub fn switch_view_to_tab(&mut self, tab: usize)
        ensures
            final(self)@ == old(self)@.view_tab(tab as int),
    {
        proof {
            reveal(AppV::view_tab);
        }
        self.settle_pointer();
        if tab != self.live_tab_index() {
            self.cancel_plugin_overlays();
        }
        self.switch_to_session(tab);
    }

    pub(crate) fn next_transcript(&mut self, session: &str) -> (r: u64)
        ensures
            r == old(self)@.counts.next_transcript,
            final(self)@ == old(self)@.open_transcript(session@),
    {
        let id: u64 = self.counts.next_transcript;
        self.counts.next_transcript = if id == u64::MAX {
            0
        } else {
            id + 1
        };
        let locale = self.base.locale;
        self.write(id, TranscriptOp::Open { session: session.to_owned(), locale });
        id
    }

    pub(crate) fn open_new_session(&mut self, id: String, bound: bool)
        ensures
            final(self)@ == old(self)@.open_tab(id@, bound),
    {
        proof {
            reveal(AppV::open_tab);
        }
        let ghost a = self@;
        let transcript = self.next_transcript(id.as_str());
        let fresh = SessionSlot::fresh(id, bound, transcript);
        let live = self.exchange(fresh);
        let at: usize = self.live_tab_index();
        self.tabs.parked.insert(at, live);
        assert(self@.tabs.parked =~= a.tabs.parked.insert(at as int, a.parked_form()));
        self.tabs.current = self.tabs.parked.len();
        self.after_switch();
    }

    pub(crate) fn tab_index_of(&self, id: &str) -> (r: Option<usize>)
        ensures
            (match r {
                Some(t) => Some(t as int),
                None => None,
            }) == self@.tab_of(id@),
    {
        proof {
            reveal(session::slot_view);
        }
        if text::same(self.live.id.as_str(), id) {
            return Some(self.live_tab_index());
        }
        let at = session::find_slot(&self.tabs.parked, id);
        if at >= self.tabs.parked.len() {
            None
        } else if at < self.live_tab_index() {
            Some(at)
        } else {
            Some(at + 1)
        }
    }

    /// The strip of tabs: every session in tab order.
    pub fn session_tabs(&self) -> (r: Vec<SessionTab>)
        ensures
            rows_view(r@) == parked_rows(self@.tabs.parked).insert(
                self@.place(),
                tab_row(self@.live, self@.busy(), true),
            ),
    {
        let ghost parked = self@.tabs.parked;
        let mut r: Vec<SessionTab> = Vec::new();
        let mut i: usize = 0;
        while i < self.tabs.parked.len()
            invariant
                i <= self.tabs.parked@.len(),
                parked == session::slots_view(self.tabs.parked@),
                r@.len() == i,
                forall|k: int|
                    0 <= k < i ==> (#[trigger] r@[k])@ == tab_row(
                        parked[k],
                        slot_busy(parked[k]),
                        false,
                    ),
            decreases self.tabs.parked@.len() - i,
        {
            let s = &self.tabs.parked[i];
            assert(parked[i as int] == s@);
            let running = is_slot_busy(s);
            r.push(row_of(s, running, false));
            i = i + 1;
        }
        let busy = self.is_busy();
        let row = row_of(&self.live, busy, true);
        let place = self.live_tab_index();
        r.insert(place, row);
        assert(rows_view(r@) =~= parked_rows(parked).insert(place as int, row@));
        r
    }

    /// How many tabs there are.
    pub fn session_tab_count(&self) -> (r: usize)
        ensures
            r == (if self@.tabs.parked.len() == usize::MAX {
                usize::MAX as nat
            } else {
                self@.tabs.parked.len() + 1
            }),
    {
        self.tabs.parked.len().saturating_add(1)
    }

    /// The tab under a cell of the screen.
    pub fn tab_at(&self, col: u16, row: u16) -> (r: Option<usize>)
        ensures
            r == screen::first_hit(self@.frame.tab_rects, col, row),
    {
        screen::hit(&self.frame.tab_rects, col, row)
    }

    /// Where the viewed tab stands in the row.
    pub fn live_tab_index(&self) -> (r: usize)
        ensures
            r == self@.place(),
            r <= self@.tabs.parked.len(),
    {
        if self.tabs.current <= self.tabs.parked.len() {
            self.tabs.current
        } else {
            self.tabs.parked.len()
        }
    }

    pub(crate) fn is_busy(&self) -> (r: bool)
        ensures
            r == self@.busy(),
    {
        proof {
            reveal(session::slot_view);
        }
        !matches!(self.state, RunState::Idle) || self.live.run.pending
    }

    fn leave_for_neighbour(&mut self) -> (r: SessionSlot)
        requires
            old(self)@.tabs.parked.len() > 0,
        ensures
            r@ == old(self)@.parked_form(),
            final(self)@ == old(self)@.at_neighbour(),
    {
        proof {
            reveal(AppV::at_neighbour);
        }
        let ghost a = self@;
        let place = self.live_tab_index();
        let at: usize = if place < self.tabs.parked.len() {
            place
        } else {
            place - 1
        };
        let target = self.tabs.parked.remove(at);
        assert(self@.tabs.parked =~= a.tabs.parked.remove(at as int));
        self.tabs.current = at;
        self.exchange(target)
    }

    fn give_up(&mut self, id: &str)
        ensures
            final(self)@ == old(self)@.giving_up(id@),
    {
        proof {
            reveal(AppV::giving_up);
        }
        let at = find_awaiting(&self.tabs.awaiting, id);
        if at < self.tabs.awaiting.len() {
            assert(self@.tabs.awaiting[at as int] == self.tabs.awaiting@[at as int]@);
            proof {
                seqs::lemma_first_index(self@.tabs.awaiting, awaits(id@));
            }
            self.tabs.awaiting[at].open = false;
            assert(self@.tabs.awaiting =~= old(self)@.tabs.awaiting.update(
                at as int,
                AwaitingBind { id: id@, open: false },
            ));
        }
    }

    /// Closes the viewed tab and drops all that belongs to it. The session
    /// itself goes on on the side of the agent.
    pub(crate) fn close_session_flow(&mut self)
        ensures
            final(self)@ == old(self)@.close_tab(),
    {
        proof {
            reveal(AppV::close_tab);
        }
        if self.tabs.parked.len() == 0 {
            self.tell(
                "cannot close the last session — /new opens another first",
                "不能关闭最后一个会话 —— 先用 /new 开一个新的",
            );
            return;
        }
        let doomed = self.session_id();
        let label = short_id(doomed.as_str());
        let t = self.say_lost(label.as_str());
        self.cancel_plugin_overlays();
        let slot = self.leave_for_neighbour();
        self.drop_asks(asks_of(slot));
        self.give_up(doomed.as_str());
        self.send(Cmd::ForgetSession { session_id: doomed });
        self.after_switch();
        self.show_tip(t);
    }

    fn say_lost(&self, label: &str) -> (r: String)
        ensures
            r@ == closed_text(
                self@.base.locale,
                label@,
                lost_things(
                    self@.busy(),
                    self@.live.queue.prompts.len(),
                    self@.live.draft.input.buf.len() > 0 || self@.live.draft.images.len() > 0,
                    self@.live.asks.permission is Some || self@.live.asks.form is Some,
                ),
            ),
    {
        proof {
            reveal(session::slot_view);
        }
        let busy = self.is_busy();
        let draft = !self.live.draft.input.is_empty() || self.live.draft.images.len() > 0;
        let ask = self.live.asks.permission.is_some() || self.live.asks.form.is_some();
        let lost = list_lost_things(busy, self.live.queue.prompts.len(), draft, ask);
        say_closed(self.base.locale, label, &lost)
    }
}

fn asks_of(s: SessionSlot) -> (r: Asks)
    ensures
        r@ == s@.asks,
{
    proof {
        reveal(session::slot_view);
    }
    s.asks
}

fn is_slot_busy(s: &SessionSlot) -> (r: bool)
    ensures
        r == slot_busy(s@),
{
    proof {
        reveal(session::slot_view);
    }
    s.run.running || s.run.pending
}

pub(crate) fn find_awaiting(v: &Vec<AwaitingBind>, id: &str) -> (r: usize)
    ensures
        r == seqs::first_index(app::awaiting_view(v@), awaits(id@)),
        r <= v@.len(),
{
    let ghost all = app::awaiting_view(v@);
    let mut i: usize = 0;
    while i < v.len() && !text::same(v[i].id.as_str(), id)
        invariant
            i <= v@.len(),
            all == app::awaiting_view(v@),
            forall|k: int| 0 <= k < i ==> !awaits(id@)(#[trigger] all[k]),
        decreases v@.len() - i,
    {
        assert(all[i as int] == v@[i as int]@);
        i = i + 1;
    }
    proof {
        seqs::lemma_first_index_is(all, awaits(id@), i as int);
    }
    i
}

} // verus!
