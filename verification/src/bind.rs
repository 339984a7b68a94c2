//! Which tab a session that the agent has opened belongs to.

use crate::app::{self, App, AppV, AwaitingBind, CountsV, PendingShell, StatusV, TabsV};
use crate::bus::Cmd;
use crate::effect::{NoticeLevel, TranscriptOp};
use crate::seqs;
use crate::session::{self, SessionSlot, SlotV};
use crate::slots;
use crate::tabs::{self, awaits};
use crate::text;
use vstd::prelude::*;

verus! {

pub type ShellV = PendingShell<Seq<char>>;

/// The shell commands of a session follow it to its new id.
pub open spec fn renamed(from: Seq<char>, to: Seq<char>) -> spec_fn(ShellV) -> ShellV {
    |s: ShellV|
        if s.session == from {
            PendingShell { id: s.id, session: to }
        } else {
            s
        }
}

/// The sessions without an id of the agent's that asked for none.
pub open spec fn unclaimed(awaiting: Seq<AwaitingBind<Seq<char>>>) -> spec_fn(SlotV) -> bool {
    |s: SlotV| !s.bound && !seqs::some(awaiting, awaits(s.id))
}

/// The entries for other tabs than this.
pub open spec fn awaits_other(id: Seq<char>) -> spec_fn(AwaitingBind<Seq<char>>) -> bool {
    |e: AwaitingBind<Seq<char>>| e.id != id
}

fn is_unclaimed(s: &SessionSlot, awaiting: &Vec<AwaitingBind>) -> (r: bool)
    ensures
        r == unclaimed(app::awaiting_view(awaiting@))(s@),
{
    proof {
        reveal(session::slot_view);
    }
    assert(app::awaiting_view(awaiting@).len() == awaiting@.len());
    let at = tabs::find_awaiting(awaiting, s.id.as_str());
    !s.bound && at >= awaiting.len()
}

fn find_unclaimed(v: &Vec<SessionSlot>, awaiting: &Vec<AwaitingBind>) -> (r: usize)
    ensures
        r == seqs::first_index(
            session::slots_view(v@),
            unclaimed(app::awaiting_view(awaiting@)),
        ),
        r <= v@.len(),
{
    let ghost all = session::slots_view(v@);
    let ghost p = unclaimed(app::awaiting_view(awaiting@));
    let mut i: usize = 0;
    while i < v.len() && !is_unclaimed(&v[i], awaiting)
        invariant
            i <= v@.len(),
            all == session::slots_view(v@),
            p == unclaimed(app::awaiting_view(awaiting@)),
            forall|k: int| 0 <= k < i ==> !p(#[trigger] all[k]),
        decreases v@.len() - i,
    {
        assert(all[i as int] == v@[i as int]@);
        i = i + 1;
    }
    proof {
        seqs::lemma_first_index_is(all, p, i as int);
    }
    i
}

impl AppV {
    pub open spec fn parked_index_of(self, id: Seq<char>) -> int {
        seqs::first_index(self.tabs.parked, session::with_id(id))
    }

    pub open spec fn shells_renamed(self, from: Seq<char>, to: Seq<char>) -> AppV {
        AppV {
            counts: CountsV {
                pending_shells: self.counts.pending_shells.map_values(renamed(from, to)),
                ..self.counts
            },
            ..self
        }
    }

    pub open spec fn noticed_in(self, transcript: u64, notice: Option<Seq<char>>) -> AppV {
        match notice {
            Some(t) => self.write(
                transcript,
                TranscriptOp::Notice { level: NoticeLevel::Info, text: t },
            ),
            None => self,
        }
    }

    /// The viewed tab is bound to a session.
    #[verifier::opaque]
    pub open spec fn bound_here(self, id: Seq<char>, notice: Option<Seq<char>>) -> AppV {
        self.with_live(slots::named(self.live, id)).write(
            self.live.chat.transcript,
            TranscriptOp::RootSession(id),
        ).noticed_in(self.live.chat.transcript, notice).shells_renamed(self.live.id, id)
    }

    /// A parked tab is bound to a session.
    #[verifier::opaque]
    pub open spec fn bound_there(self, at: int, id: Seq<char>, notice: Option<Seq<char>>) -> AppV {
        let s = self.tabs.parked[at];
        self.parked_at(at, slots::named(s, id)).write(
            s.chat.transcript,
            TranscriptOp::RootSession(id),
        ).noticed_in(s.chat.transcript, notice).shells_renamed(s.id, id)
    }

    /// The viewed tab is bound to what may be another session than before.
    #[verifier::opaque]
    pub open spec fn rebound_here(self, id: Seq<char>, notice: Option<Seq<char>>) -> AppV {
        if self.live.id != id {
            self.with_live(slots::unheard(self.live)).bound_here(id, notice)
        } else {
            self.bound_here(id, notice)
        }
    }

    /// A session gets a parked tab of its own.
    #[verifier::opaque]
    pub open spec fn parked_anew(self, id: Seq<char>, notice: Option<Seq<char>>) -> AppV {
        let t = self.counts.next_transcript;
        let a = self.open_transcript(id).noticed_in(t, notice);
        a.with_parked(a.tabs.parked.push(session::fresh_slot(id, true, t)))
    }

    /// What follows once a session has its tab.
    #[verifier::opaque]
    pub open spec fn taken_up(self, id: Seq<char>) -> AppV {
        self.send_next_of(id).send(Cmd::FetchSkills { session_id: id })
    }

    pub open spec fn startup_seen(self) -> AppV {
        self.with_tabs(TabsV { startup_bound: true, ..self.tabs })
    }

    /// The session that the agent opens on its own comes while others were
    /// asked for. It never takes the place of one of those.
    #[verifier::opaque]
    pub open spec fn bind_unasked(self, id: Seq<char>, notice: Option<Seq<char>>) -> AppV {
        let at = seqs::first_index(self.tabs.parked, unclaimed(self.tabs.awaiting));
        if at < self.tabs.parked.len() {
            self.startup_seen().bound_there(at, id, notice).taken_up(id)
        } else if unclaimed(self.tabs.awaiting)(self.live) {
            self.startup_seen().rebound_here(id, notice).taken_up(id)
        } else {
            self.startup_seen().parked_anew(id, notice).taken_up(id)
        }
    }

    pub open spec fn bound_too_late(self, id: Seq<char>) -> AppV {
        self.tell1(
            ("session "@, " bound after its tab was closed"@),
            ("会话 "@, " 已绑定，但对应标签页已被关闭"@),
            id,
        )
    }

    pub open spec fn first_answered(self) -> AppV {
        self.with_tabs(TabsV { awaiting: self.tabs.awaiting.skip(1), ..self.tabs })
    }

    /// A session that was asked for goes to the tab that asked first. Where
    /// that tab is closed, the session is forgotten.
    #[verifier::opaque]
    pub open spec fn bind_first(self, id: Seq<char>, notice: Option<Seq<char>>) -> AppV {
        let e = self.tabs.awaiting[0];
        let a = self.first_answered();
        let at = a.parked_index_of(e.id);
        if !e.open {
            a.send(Cmd::ForgetSession { session_id: id }).bound_too_late(id)
        } else if self.live.id == e.id {
            a.bound_here(id, notice).taken_up(id)
        } else if at < a.tabs.parked.len() {
            a.bound_there(at, id, notice).taken_up(id)
        } else {
            a.bound_too_late(id)
        }
    }

    /// A session comes that no tab waits for.
    #[verifier::opaque]
    pub open spec fn bind_known(self, id: Seq<char>, notice: Option<Seq<char>>) -> AppV {
        let at = self.parked_index_of(id);
        if at < self.tabs.parked.len() {
            let s = self.tabs.parked[at];
            self.parked_at(at, slots::now_bound(s)).noticed_in(
                s.chat.transcript,
                notice,
            ).taken_up(s.id)
        } else {
            self.startup_seen().rebound_here(id, notice).taken_up(id)
        }
    }

    pub open spec fn without_error(self) -> AppV {
        AppV { status: StatusV { connection_error: None, ..self.status }, ..self }
    }

    /// The agent has opened a session.
    #[verifier::opaque]
    pub open spec fn bind(self, id: Seq<char>, notice: Option<Seq<char>>) -> AppV {
        let a = self.without_error();
        if self.tabs.awaiting.len() == 0 {
            a.bind_known(id, notice)
        } else if !self.tabs.startup_bound {
            a.bind_unasked(id, notice)
        } else {
            a.bind_first(id, notice)
        }
    }

    pub open spec fn not_awaiting(self, id: Seq<char>) -> AppV {
        self.with_tabs(
            TabsV { awaiting: self.tabs.awaiting.filter(awaits_other(id)), ..self.tabs },
        )
    }

    pub open spec fn awaiting_first(self, id: Seq<char>) -> AppV {
        self.with_tabs(
            TabsV {
                awaiting: seq![AwaitingBind { id, open: true }] + self.tabs.awaiting,
                ..self.tabs
            },
        )
    }

    pub open spec fn has_tab(self, id: Seq<char>) -> bool {
        self.live.id == id || self.parked_index_of(id) < self.tabs.parked.len()
    }

    /// The agent has opened a session for the tab `previous`.
    #[verifier::opaque]
    pub open spec fn bind_to(self, previous: Seq<char>, id: Seq<char>, notice: Option<Seq<char>>) -> AppV {
        let a = self.not_awaiting(previous);
        if self.has_tab(previous) {
            a.awaiting_first(previous).bind(id, notice)
        } else {
            a.send(Cmd::ForgetSession { session_id: id })
        }
    }
}

impl App {
    fn rename_shells(&mut self, from: &str, to: &str)
        ensures
            final(self)@ == old(self)@.shells_renamed(from@, to@),
    {
        let ghost whole = self@;
        let ghost before = self@.counts.pending_shells;
        let n = self.counts.pending_shells.len();
        let mut i: usize = 0;
        while i < n
            invariant
                i <= n,
                n == before.len(),
                self.counts.pending_shells@.len() == n,
                forall|k: int|
                    0 <= k < i ==> (#[trigger] self@.counts.pending_shells[k]) == renamed(
                        from@,
                        to@,
                    )(before[k]),
                forall|k: int|
                    i <= k < n ==> (#[trigger] self@.counts.pending_shells[k]) == before[k],
                self@ == (AppV {
                    counts: CountsV {
                        pending_shells: self@.counts.pending_shells,
                        ..whole.counts
                    },
                    ..whole
                }),
            decreases n - i,
        {
            let ghost now = self@.counts.pending_shells;
            assert(now[i as int] == before[i as int]);
            assert(now[i as int] == self.counts.pending_shells@[i as int]@);
            if text::same(self.counts.pending_shells[i].session.as_str(), from) {
                self.counts.pending_shells[i].session = to.to_owned();
                assert(self@.counts.pending_shells =~= now.update(
                    i as int,
                    PendingShell { id: now[i as int].id, session: to@ },
                ));
            }
            i = i + 1;
        }
        assert(self@.counts.pending_shells =~= before.map_values(renamed(from@, to@)));
    }

    pub(crate) fn notice_in(&mut self, transcript: u64, notice: Option<String>)
        ensures
            final(self)@ == old(self)@.noticed_in(transcript, text::opt_view(notice)),
    {
        if let Some(t) = notice {
            self.write(transcript, TranscriptOp::Notice { level: NoticeLevel::Info, text: t });
        }
    }

    fn bind_here(&mut self, id: &str, notice: Option<String>)
        ensures
            final(self)@ == old(self)@.bound_here(id@, text::opt_view(notice)),
    {
        proof {
            reveal(AppV::bound_here);
        }
        let old_id = self.session_id();
        let transcript = self.live_transcript();
        self.bind_live(id.to_owned());
        self.write(transcript, TranscriptOp::RootSession(id.to_owned()));
        self.notice_in(transcript, notice);
        self.rename_shells(old_id.as_str(), id);
    }

    pub(crate) fn parked_facts(&self, at: usize) -> (r: (String, u64))
        requires
            at < self@.tabs.parked.len(),
        ensures
            r.0@ == self@.tabs.parked[at as int].id,
            r.1 == self@.tabs.parked[at as int].chat.transcript,
    {
        proof {
            reveal(session::slot_view);
        }
        assert(self@.tabs.parked[at as int] == self.tabs.parked@[at as int]@);
        (self.tabs.parked[at].id.clone(), self.tabs.parked[at].chat.transcript)
    }

    fn bind_there(&mut self, at: usize, id: &str, notice: Option<String>)
        requires
            at < old(self)@.tabs.parked.len(),
        ensures
            final(self)@ == old(self)@.bound_there(at as int, id@, text::opt_view(notice)),
    {
        proof {
            reveal(AppV::bound_there);
        }
        let (old_id, transcript) = self.parked_facts(at);
        self.bind_parked(at, id.to_owned());
        self.write(transcript, TranscriptOp::RootSession(id.to_owned()));
        self.notice_in(transcript, notice);
        self.rename_shells(old_id.as_str(), id);
    }

    fn rebind_here(&mut self, id: &str, notice: Option<String>)
        ensures
            final(self)@ == old(self)@.rebound_here(id@, text::opt_view(notice)),
    {
        proof {
            reveal(AppV::rebound_here);
        }
        if !self.is_live(id) {
            self.forget_agents_live();
        }
        self.bind_here(id, notice);
    }

    fn park_anew(&mut self, id: &str, notice: Option<String>)
        ensures
            final(self)@ == old(self)@.parked_anew(id@, text::opt_view(notice)),
    {
        proof {
            reveal(AppV::parked_anew);
        }
        let transcript = self.next_transcript(id);
        self.notice_in(transcript, notice);
        let ghost before = self@.tabs.parked;
        self.tabs.parked.push(SessionSlot::fresh(id.to_owned(), true, transcript));
        assert(self@.tabs.parked =~= before.push(session::fresh_slot(id@, true, transcript)));
    }

    fn take_up(&mut self, id: &str)
        ensures
            final(self)@ == old(self)@.taken_up(id@),
    {
        proof {
            reveal(AppV::taken_up);
        }
        self.dispatch_session_queue(id);
        self.send(Cmd::FetchSkills { session_id: id.to_owned() });
    }

    fn live_is_unclaimed(&self) -> (r: bool)
        ensures
            r == unclaimed(self@.tabs.awaiting)(self@.live),
    {
        is_unclaimed(&self.live, &self.tabs.awaiting)
    }

    fn see_startup(&mut self)
        ensures
            final(self)@ == old(self)@.startup_seen(),
    {
        self.tabs.startup_bound = true;
    }

    fn take_unasked(&mut self, id: &str, notice: Option<String>)
        ensures
            final(self)@ == old(self)@.bind_unasked(id@, text::opt_view(notice)),
    {
        proof {
            reveal(AppV::bind_unasked);
        }
        let at = find_unclaimed(&self.tabs.parked, &self.tabs.awaiting);
        assert(self@.tabs.parked.len() == self.tabs.parked@.len());
        let here = self.live_is_unclaimed();
        self.see_startup();
        if at < self.tabs.parked.len() {
            self.bind_there(at, id, notice);
        } else if here {
            self.rebind_here(id, notice);
        } else {
            self.park_anew(id, notice);
        }
        self.take_up(id);
    }

    pub(crate) fn answer_first(&mut self) -> (r: AwaitingBind)
        requires
            old(self)@.tabs.awaiting.len() > 0,
        ensures
            r@ == old(self)@.tabs.awaiting[0],
            final(self)@ == old(self)@.first_answered(),
    {
        let ghost before = self@.tabs.awaiting;
        assert(before[0] == self.tabs.awaiting@[0]@);
        let e = self.tabs.awaiting.remove(0);
        assert(self@.tabs.awaiting =~= before.skip(1));
        e
    }

    fn say_too_late(&mut self, id: &str)
        ensures
            final(self)@ == old(self)@.bound_too_late(id@),
    {
        self.tell1(
            ("session ", " bound after its tab was closed"),
            ("会话 ", " 已绑定，但对应标签页已被关闭"),
            id,
        );
    }

    fn take_first(&mut self, id: &str, notice: Option<String>)
        requires
            old(self)@.tabs.awaiting.len() > 0,
        ensures
            final(self)@ == old(self)@.bind_first(id@, text::opt_view(notice)),
    {
        proof {
            reveal(AppV::bind_first);
        }
        let e = self.answer_first();
        let at = session::find_slot(&self.tabs.parked, e.id.as_str());
        assert(self@.tabs.parked.len() == self.tabs.parked@.len());
        if !e.open {
            self.send(Cmd::ForgetSession { session_id: id.to_owned() });
            self.say_too_late(id);
        } else if self.is_live(e.id.as_str()) {
            self.bind_here(id, notice);
            self.take_up(id);
        } else if at < self.tabs.parked.len() {
            self.bind_there(at, id, notice);
            self.take_up(id);
        } else {
            self.say_too_late(id);
        }
    }

    fn take_known(&mut self, id: &str, notice: Option<String>)
        ensures
            final(self)@ == old(self)@.bind_known(id@, text::opt_view(notice)),
    {
        proof {
            reveal(AppV::bind_known);
        }
        let at = session::find_slot(&self.tabs.parked, id);
        assert(self@.tabs.parked.len() == self.tabs.parked@.len());
        if at < self.tabs.parked.len() {
            let (slot_id, transcript) = self.parked_facts(at);
            self.mark_bound_parked(at);
            self.notice_in(transcript, notice);
            self.take_up(slot_id.as_str());
        } else {
            self.see_startup();
            self.rebind_here(id, notice);
            self.take_up(id);
        }
    }

    /// Gives a session that the agent has opened to its tab.
    pub(crate) fn bind_session(&mut self, id: &str, notice: Option<String>)
        ensures
            final(self)@ == old(self)@.bind(id@, text::opt_view(notice)),
    {
        proof {
            reveal(AppV::bind);
        }
        assert(self@.tabs.awaiting.len() == self.tabs.awaiting@.len());
        self.status.connection_error = None;
        if self.tabs.awaiting.len() == 0 {
            self.take_known(id, notice);
        } else if !self.tabs.startup_bound {
            self.take_unasked(id, notice);
        } else {
            self.take_first(id, notice);
        }
    }

    pub(crate) fn stop_awaiting(&mut self, id: &str)
        ensures
            final(self)@ == old(self)@.not_awaiting(id@),
    {
        let ghost all = self@.tabs.awaiting;
        let ghost p = awaits_other(id@);
        let n = self.tabs.awaiting.len();
        let mut kept: Vec<AwaitingBind> = Vec::new();
        let mut i: usize = 0;
        proof {
            seqs::lemma_filter_empty(all.take(0), p);
            assert(app::awaiting_view(kept@) =~= all.take(0).filter(p));
        }
        while i < n
            invariant
                i <= n,
                n == self.tabs.awaiting@.len(),
                *self == *old(self),
                all == app::awaiting_view(self.tabs.awaiting@),
                p == awaits_other(id@),
                app::awaiting_view(kept@) == all.take(i as int).filter(p),
            decreases n - i,
        {
            let e = &self.tabs.awaiting[i];
            let ghost had = app::awaiting_view(kept@);
            proof {
                seqs::lemma_filter_push(all, p, i as int);
                assert(all[i as int] == e@);
            }
            if !text::same(e.id.as_str(), id) {
                kept.push(AwaitingBind { id: e.id.clone(), open: e.open });
                assert(app::awaiting_view(kept@) =~= had.push(e@));
            }
            i = i + 1;
        }
        assert(all.take(i as int) =~= all);
        self.tabs.awaiting = kept;
    }

    fn await_first(&mut self, id: String)
        ensures
            final(self)@ == old(self)@.awaiting_first(id@),
    {
        let ghost before = self@.tabs.awaiting;
        let ghost i = id@;
        self.tabs.awaiting.insert(0, AwaitingBind { id, open: true });
        assert(self@.tabs.awaiting =~= seq![AwaitingBind { id: i, open: true }] + before);
    }

    pub(crate) fn bind_session_to(&mut self, previous: String, id: &str, notice: Option<String>)
        ensures
            final(self)@ == old(self)@.bind_to(previous@, id@, text::opt_view(notice)),
    {
        proof {
            reveal(AppV::bind_to);
        }
        let at = session::find_slot(&self.tabs.parked, previous.as_str());
        assert(self@.tabs.parked.len() == self.tabs.parked@.len());
        let known = self.is_live(previous.as_str()) || at < self.tabs.parked.len();
        self.stop_awaiting(previous.as_str());
        if known {
            self.await_first(previous);
            self.bind_session(id, notice);
        } else {
            self.send(Cmd::ForgetSession { session_id: id.to_owned() });
        }
    }
}

} // verus!
