//! Events of sessions, folded into the session that they are about.

use crate::app::{App, AppV, CountsV};
use crate::effect::{self, Effect, EffectV, Locale, TranscriptOp};
use crate::events::{EventV, UiEvent};
use crate::seqs;
use crate::session::{self, AgentsV, Run, RunState, SessionSlot, SlotV};
use crate::tabs;
use crate::text;
use vstd::prelude::*;

verus! {

/// What the transcript of a session or of one of its subagents is told.
pub open spec fn told_to(s: SlotV, id: Seq<char>, e: EventV) -> Seq<EffectV> {
    match session::transcript_of(s, id) {
        Some(t) => seq![session::apply_op(t, e)],
        None => Seq::empty(),
    }
}

fn tell_transcript(s: &SessionSlot, id: &str, ui: UiEvent, out: &mut Vec<Effect>)
    ensures
        effect::effects_view(final(out)@) == effect::effects_view(old(out)@) + told_to(
            s@,
            id@,
            ui@,
        ),
{
    let ghost sent = effect::effects_view(out@);
    match session::find_transcript(s, id) {
        Some(t) => {
            effect::emit(out, Effect::Transcript { id: t, op: TranscriptOp::Apply(ui) });
            assert(effect::effects_view(out@) =~= sent + seq![session::apply_op(t, ui@)]);
        },
        None => {
            assert(sent =~= sent + Seq::<EffectV>::empty());
        },
    }
}

// --- subagents of one session ------------------------------------------------------

pub open spec fn slot_started(
    s: SlotV,
    parent: Seq<char>,
    child: Seq<char>,
    locale: Locale,
    transcript: u64,
) -> SlotV {
    SlotV {
        agents: session::agents_started(s.agents, parent, child, locale, transcript),
        ..s
    }
}

pub open spec fn slot_starting(
    s: SlotV,
    parent: Seq<char>,
    child: Seq<char>,
    locale: Locale,
    transcript: u64,
) -> Seq<EffectV> {
    session::started_effects(s.agents.views, child, locale, transcript) + told_to(
        slot_started(s, parent, child, locale, transcript),
        parent,
        UiEvent::SubagentStarted { parent, child },
    )
}

fn start_agents(
    slot: &mut SessionSlot,
    parent: &str,
    child: &str,
    locale: Locale,
    transcript: u64,
    out: &mut Vec<Effect>,
) -> (r: bool)
    ensures
        final(slot)@ == slot_started(old(slot)@, parent@, child@, locale, transcript),
        r == session::opens_view(old(slot)@.agents.views, child@),
        effect::effects_view(final(out)@) == effect::effects_view(old(out)@)
            + session::started_effects(old(slot)@.agents.views, child@, locale, transcript),
{
    proof {
        reveal(session::slot_view);
    }
    session::start_subagent(&mut slot.agents, parent, child, locale, transcript, out)
}

fn start_in_slot(
    slot: &mut SessionSlot,
    parent: &str,
    child: &str,
    locale: Locale,
    transcript: u64,
    out: &mut Vec<Effect>,
) -> (r: bool)
    ensures
        final(slot)@ == slot_started(old(slot)@, parent@, child@, locale, transcript),
        r == session::opens_view(old(slot)@.agents.views, child@),
        effect::effects_view(final(out)@) == effect::effects_view(old(out)@) + slot_starting(
            old(slot)@,
            parent@,
            child@,
            locale,
            transcript,
        ),
{
    let ghost sent = effect::effects_view(out@);
    let ghost before = slot@;
    let opened = start_agents(slot, parent, child, locale, transcript, out);
    let ui = UiEvent::SubagentStarted { parent: parent.to_owned(), child: child.to_owned() };
    tell_transcript(slot, parent, ui, out);
    assert(effect::effects_view(out@) =~= sent + slot_starting(
        before,
        parent@,
        child@,
        locale,
        transcript,
    ));
    opened
}

pub open spec fn slot_finished(s: SlotV, child: Seq<char>, failed: bool) -> SlotV {
    SlotV { agents: session::agents_finished(s.agents, child, failed), ..s }
}

pub open spec fn slot_finishing(s: SlotV, child: Seq<char>, failed: bool) -> Seq<EffectV> {
    match seqs::first(s.agents.views, session::view_named(child)) {
        Some(v) => told_to(
            slot_finished(s, child, failed),
            v.parent,
            UiEvent::SubagentFinished { child, failed },
        ),
        None => Seq::empty(),
    }
}

fn finish_agents(slot: &mut SessionSlot, child: &str, failed: bool) -> (r: Option<String>)
    ensures
        final(slot)@ == slot_finished(old(slot)@, child@, failed),
        text::opt_view(r) == (match seqs::first(
            old(slot)@.agents.views,
            session::view_named(child@),
        ) {
            Some(v) => Some(v.parent),
            None => None,
        }),
{
    proof {
        reveal(session::slot_view);
    }
    session::finish_subagent(&mut slot.agents, child, failed)
}

fn finish_in_slot(slot: &mut SessionSlot, child: &str, failed: bool, out: &mut Vec<Effect>)
    ensures
        final(slot)@ == slot_finished(old(slot)@, child@, failed),
        effect::effects_view(final(out)@) == effect::effects_view(old(out)@) + slot_finishing(
            old(slot)@,
            child@,
            failed,
        ),
{
    let ghost sent = effect::effects_view(out@);
    match finish_agents(slot, child, failed) {
        Some(parent) => {
            let ui = UiEvent::SubagentFinished { child: child.to_owned(), failed };
            tell_transcript(slot, parent.as_str(), ui, out);
        },
        None => {
            assert(sent =~= sent + Seq::<EffectV>::empty());
        },
    }
}

// --- routing -----------------------------------------------------------------------

impl AppV {
    pub open spec fn saying(self, more: Seq<EffectV>) -> AppV {
        AppV { out: self.out + more, ..self }
    }

    /// One transcript number has been used, if one was.
    pub open spec fn counted(self, used: bool) -> AppV {
        AppV {
            counts: CountsV {
                next_transcript: if used {
                    tabs::next_number(self.counts.next_transcript)
                } else {
                    self.counts.next_transcript
                },
                ..self.counts
            },
            ..self
        }
    }

    pub open spec fn parked_at(self, at: int, s: SlotV) -> AppV {
        self.with_parked(self.tabs.parked.update(at, s))
    }

    #[verifier::opaque]
    pub open spec fn started_live(self, parent: Seq<char>, child: Seq<char>) -> AppV {
        let t = self.counts.next_transcript;
        self.saying(slot_starting(self.live, parent, child, self.base.locale, t)).with_live(
            slot_started(self.live, parent, child, self.base.locale, t),
        ).counted(session::opens_view(self.live.agents.views, child)).redrawn()
    }

    #[verifier::opaque]
    pub open spec fn started_parked(self, at: int, parent: Seq<char>, child: Seq<char>) -> AppV {
        let t = self.counts.next_transcript;
        let s = self.tabs.parked[at];
        self.saying(slot_starting(s, parent, child, self.base.locale, t)).parked_at(
            at,
            slot_started(s, parent, child, self.base.locale, t),
        ).counted(session::opens_view(s.agents.views, child)).redrawn()
    }

    /// A subagent has started, in the viewed session, in a parked one, or in
    /// one that the client does not know.
    #[verifier::opaque]
    pub open spec fn agent_started(self, parent: Seq<char>, child: Seq<char>) -> AppV {
        let at = seqs::first_index(self.tabs.parked, session::owner_of(parent));
        if parent == self.live.id || session::has_view(self.live, parent) {
            self.started_live(parent, child)
        } else if at < self.tabs.parked.len() {
            self.started_parked(at, parent, child)
        } else {
            self
        }
    }

    #[verifier::opaque]
    pub open spec fn agent_finished(self, child: Seq<char>, failed: bool) -> AppV {
        let at = seqs::first_index(self.tabs.parked, session::parent_of(child));
        if session::has_view(self.live, child) {
            self.saying(slot_finishing(self.live, child, failed)).with_live(
                slot_finished(self.live, child, failed),
            ).redrawn()
        } else if at < self.tabs.parked.len() {
            let s = self.tabs.parked[at];
            self.saying(slot_finishing(s, child, failed)).parked_at(
                at,
                slot_finished(s, child, failed),
            ).redrawn()
        } else {
            self
        }
    }

    /// A fact of another session than the viewed one. It never touches what is
    /// viewed, except where it shows a subagent of it.
    #[verifier::opaque]
    pub open spec fn heard_elsewhere(self, session: Seq<char>, e: EventV) -> AppV {
        let at = seqs::first_index(self.tabs.parked, session::owner_of(session));
        if session::has_view(self.live, session) {
            let a = self.saying(told_to(self.live, session, e));
            if self.live.agents.active == Some(session) {
                a.redrawn()
            } else {
                a
            }
        } else if at < self.tabs.parked.len() {
            let s = self.tabs.parked[at];
            if s.id == session {
                self.saying(
                    if session::told(s, e) {
                        seq![session::apply_op(s.chat.transcript, e)]
                    } else {
                        Seq::empty()
                    },
                ).parked_at(at, session::slot_folded(s, e)).redrawn()
            } else {
                self.saying(told_to(s, session, e))
            }
        } else {
            self
        }
    }

    /// The viewed session runs or rests.
    pub open spec fn live_running(self, running: bool) -> AppV {
        if running {
            AppV { state: RunState::Running, ..self }.with_run(
                Run {
                    started: match self.live.run.started {
                        Some(at) => Some(at),
                        None => Some(self.clock.now),
                    },
                    ..self.live.run
                },
            )
        } else {
            AppV { state: RunState::Idle, ..self }.with_run(
                Run { pending: false, started: None, note: Seq::empty(), ..self.live.run },
            )
        }
    }

    /// A fact of the viewed session, or of none.
    #[verifier::opaque]
    pub open spec fn heard_here(self, e: EventV) -> AppV {
        let a = self.with_live(session::modes_folded(self.live, e));
        let b = match e {
            UiEvent::SessionStatus { running, .. } => a.live_running(running),
            _ => a,
        };
        (if session::told(self.live, e) {
            b.emit(session::apply_op(self.live.chat.transcript, e))
        } else {
            b
        }).redrawn()
    }

    #[verifier::opaque]
    pub open spec fn batch_ends(self) -> AppV {
        self.with_agents(AgentsV { next_starts_batch: true, ..self.live.agents })
    }

    /// One decoded fact of the protocol.
    #[verifier::opaque]
    pub open spec fn apply(self, e: EventV) -> AppV {
        match e {
            UiEvent::SubagentStarted { parent, child } => self.agent_started(parent, child),
            UiEvent::SubagentFinished { child, failed } => self.agent_finished(child, failed),
            _ => match session::event_session(e) {
                Some(session) => if session != self.live.id {
                    self.heard_elsewhere(session, e)
                } else {
                    (match e {
                        UiEvent::TurnStart { .. } => self.batch_ends(),
                        _ => self,
                    }).heard_here(e)
                },
                None => self.heard_here(e),
            },
        }
    }

    /// Whether a session is in the middle of a turn.
    pub open spec fn was_running(self, session: Seq<char>) -> bool {
        if session == self.live.id {
            self.state == RunState::Running
        } else {
            seqs::some(self.tabs.parked, running_named(session))
        }
    }

    /// A fact, and what its session sends when its turn has ended.
    #[verifier::opaque]
    pub open spec fn hear(self, e: EventV) -> AppV {
        match e {
            UiEvent::SessionStatus { session, running } => if !running && self.was_running(
                session,
            ) {
                self.apply(e).send_next_of(session)
            } else {
                self.apply(e)
            },
            _ => self.apply(e),
        }
    }
}

/// The sessions with this id whose turn runs.
pub open spec fn running_named(id: Seq<char>) -> spec_fn(SlotV) -> bool {
    |s: SlotV| s.id == id && s.run.running
}

fn any_running(v: &Vec<SessionSlot>, id: &str) -> (r: bool)
    ensures
        r == seqs::some(session::slots_view(v@), running_named(id@)),
{
    let ghost all = session::slots_view(v@);
    let mut i: usize = 0;
    while i < v.len() && !runs_as(&v[i], id)
        invariant
            i <= v@.len(),
            all == session::slots_view(v@),
            forall|k: int| 0 <= k < i ==> !running_named(id@)(#[trigger] all[k]),
        decreases v@.len() - i,
    {
        assert(all[i as int] == v@[i as int]@);
        i = i + 1;
    }
    proof {
        seqs::lemma_first_index_is(all, running_named(id@), i as int);
    }
    i < v.len()
}

fn runs_as(s: &SessionSlot, id: &str) -> (r: bool)
    ensures
        r == running_named(id@)(s@),
{
    proof {
        reveal(session::slot_view);
    }
    text::same(s.id.as_str(), id) && s.run.running
}

fn has_id(s: &SessionSlot, id: &str) -> (r: bool)
    ensures
        r == (s@.id == id@),
{
    proof {
        reveal(session::slot_view);
    }
    text::same(s.id.as_str(), id)
}

impl App {
    fn count_transcript(&mut self, used: bool)
        ensures
            final(self)@ == old(self)@.counted(used),
    {
        if used {
            let n: u64 = self.counts.next_transcript;
            self.counts.next_transcript = if n == u64::MAX {
                0
            } else {
                n + 1
            };
        }
    }

    pub(crate) fn live_has_view(&self, id: &str) -> (r: bool)
        ensures
            r == session::has_view(self@.live, id@),
    {
        proof {
            reveal(session::slot_view);
        }
        session::knows_view(&self.live.agents.views, id)
    }

    fn start_live(&mut self, parent: &str, child: &str)
        ensures
            final(self)@ == old(self)@.started_live(parent@, child@),
    {
        proof {
            reveal(AppV::started_live);
        }
        let t: u64 = self.counts.next_transcript;
        let locale = self.base.locale;
        let used = start_in_slot(&mut self.live, parent, child, locale, t, &mut self.out);
        self.count_transcript(used);
        self.redraw();
    }

    fn start_parked(&mut self, at: usize, parent: &str, child: &str)
        requires
            at < old(self)@.tabs.parked.len(),
        ensures
            final(self)@ == old(self)@.started_parked(at as int, parent@, child@),
    {
        proof {
            reveal(AppV::started_parked);
        }
        let ghost a = self@;
        let t: u64 = self.counts.next_transcript;
        let locale = self.base.locale;
        let used = start_in_slot(
            &mut self.tabs.parked[at],
            parent,
            child,
            locale,
            t,
            &mut self.out,
        );
        assert(self@.tabs.parked =~= a.tabs.parked.update(
            at as int,
            slot_started(a.tabs.parked[at as int], parent@, child@, locale, t),
        ));
        self.count_transcript(used);
        self.redraw();
    }

    fn apply_started(&mut self, parent: &str, child: &str)
        ensures
            final(self)@ == old(self)@.agent_started(parent@, child@),
    {
        proof {
            reveal(AppV::agent_started);
        }
        if self.is_live(parent) || self.live_has_view(parent) {
            self.start_live(parent, child);
            return;
        }
        let at = session::find_owner(&self.tabs.parked, parent);
        if at < self.tabs.parked.len() {
            self.start_parked(at, parent, child);
        }
    }

    fn finish_live(&mut self, child: &str, failed: bool)
        ensures
            final(self)@ == old(self)@.saying(
                slot_finishing(old(self)@.live, child@, failed),
            ).with_live(slot_finished(old(self)@.live, child@, failed)).redrawn(),
    {
        finish_in_slot(&mut self.live, child, failed, &mut self.out);
        self.redraw();
    }

    fn finish_parked(&mut self, at: usize, child: &str, failed: bool)
        requires
            at < old(self)@.tabs.parked.len(),
        ensures
            final(self)@ == old(self)@.saying(
                slot_finishing(old(self)@.tabs.parked[at as int], child@, failed),
            ).parked_at(
                at as int,
                slot_finished(old(self)@.tabs.parked[at as int], child@, failed),
            ).redrawn(),
    {
        let ghost a = self@;
        finish_in_slot(&mut self.tabs.parked[at], child, failed, &mut self.out);
        assert(self@.tabs.parked =~= a.tabs.parked.update(
            at as int,
            slot_finished(a.tabs.parked[at as int], child@, failed),
        ));
        self.redraw();
    }

    fn apply_finished(&mut self, child: &str, failed: bool)
        ensures
            final(self)@ == old(self)@.agent_finished(child@, failed),
    {
        proof {
            reveal(AppV::agent_finished);
        }
        if self.live_has_view(child) {
            self.finish_live(child, failed);
            return;
        }
        let at = session::find_parent(&self.tabs.parked, child);
        if at < self.tabs.parked.len() {
            self.finish_parked(at, child, failed);
        }
    }

    fn tell_live_view(&mut self, id: &str, ui: UiEvent)
        ensures
            final(self)@ == old(self)@.saying(told_to(old(self)@.live, id@, ui@)),
    {
        tell_transcript(&self.live, id, ui, &mut self.out);
    }

    fn fold_parked(&mut self, at: usize, ui: UiEvent)
        requires
            at < old(self)@.tabs.parked.len(),
        ensures
            final(self)@ == old(self)@.saying(
                if session::told(old(self)@.tabs.parked[at as int], ui@) {
                    seq![
                        session::apply_op(old(self)@.tabs.parked[at as int].chat.transcript, ui@),
                    ]
                } else {
                    Seq::empty()
                },
            ).parked_at(
                at as int,
                session::slot_folded(old(self)@.tabs.parked[at as int], ui@),
            ).redrawn(),
    {
        let ghost a = self@;
        session::apply_to_slot(&mut self.tabs.parked[at], ui, &mut self.out);
        assert(self@.tabs.parked =~= a.tabs.parked.update(
            at as int,
            session::slot_folded(a.tabs.parked[at as int], ui@),
        ));
        assert(self@.out =~= a.out + (if session::told(a.tabs.parked[at as int], ui@) {
            seq![session::apply_op(a.tabs.parked[at as int].chat.transcript, ui@)]
        } else {
            Seq::empty()
        }));
        self.redraw();
    }

    fn active_is(&self, id: &str) -> (r: bool)
        ensures
            r == (self@.live.agents.active == Some(id@)),
    {
        proof {
            reveal(session::slot_view);
        }
        match &self.live.agents.active {
            Some(a) => text::same(a.as_str(), id),
            None => false,
        }
    }

    fn apply_elsewhere(&mut self, session: &str, ui: UiEvent)
        ensures
            final(self)@ == old(self)@.heard_elsewhere(session@, ui@),
    {
        proof {
            reveal(AppV::heard_elsewhere);
        }
        if self.live_has_view(session) {
            let visible = self.active_is(session);
            self.tell_live_view(session, ui);
            if visible {
                self.redraw();
            }
            return;
        }
        let at = session::find_owner(&self.tabs.parked, session);
        if at >= self.tabs.parked.len() {
            return;
        }
        assert(self@.tabs.parked[at as int] == self.tabs.parked@[at as int]@);
        if has_id(&self.tabs.parked[at], session) {
            self.fold_parked(at, ui);
        } else {
            tell_transcript(&self.tabs.parked[at], session, ui, &mut self.out);
        }
    }

    fn set_running(&mut self, running: bool)
        ensures
            final(self)@ == old(self)@.live_running(running),
    {
        proof {
            reveal(session::slot_view);
        }
        if running {
            self.state = RunState::Running;
            if self.live.run.started.is_none() {
                self.live.run.started = Some(self.clock.now);
            }
        } else {
            self.state = RunState::Idle;
            self.live.run.pending = false;
            self.live.run.started = None;
            self.live.run.note = text::empty();
        }
    }

    fn apply_here(&mut self, ui: UiEvent)
        ensures
            final(self)@ == old(self)@.heard_here(ui@),
    {
        proof {
            reveal(AppV::heard_here);
        }
        let transcript = self.live_transcript();
        let told = session::fold_modes(&mut self.live, &ui);
        if let UiEvent::SessionStatus { running, .. } = &ui {
            self.set_running(*running);
        }
        if told {
            self.emit(Effect::Transcript { id: transcript, op: TranscriptOp::Apply(ui) });
        }
        self.redraw();
    }

    fn end_batch(&mut self)
        ensures
            final(self)@ == old(self)@.batch_ends(),
    {
        proof {
            reveal(session::slot_view);
            reveal(AppV::batch_ends);
        }
        self.live.agents.next_starts_batch = true;
    }

    /// Folds one decoded fact into the session that it is about. Facts of a
    /// session that the client does not know are dropped.
    pub(crate) fn apply_ui(&mut self, ui: UiEvent)
        ensures
            final(self)@ == old(self)@.apply(ui@),
    {
        proof {
            reveal(AppV::apply);
        }
        match &ui {
            UiEvent::SubagentStarted { parent, child } => {
                self.apply_started(parent.as_str(), child.as_str());
                return;
            },
            UiEvent::SubagentFinished { child, failed } => {
                self.apply_finished(child.as_str(), *failed);
                return;
            },
            _ => {},
        }
        let session = match session::ui_session(&ui) {
            Some(s) => Some(s.clone()),
            None => None,
        };
        if let Some(session) = session {
            if !self.is_live(session.as_str()) {
                self.apply_elsewhere(session.as_str(), ui);
                return;
            }
            if let UiEvent::TurnStart { .. } = &ui {
                self.end_batch();
            }
        }
        self.apply_here(ui);
    }

    fn session_was_running(&self, session: &str) -> (r: bool)
        ensures
            r == self@.was_running(session@),
    {
        if self.is_live(session) {
            matches!(self.state, RunState::Running)
        } else {
            any_running(&self.tabs.parked, session)
        }
    }

    /// Folds a fact, and sends what its session has queued once its turn has
    /// ended.
    pub(crate) fn hear_ui(&mut self, ui: UiEvent)
        ensures
            final(self)@ == old(self)@.hear(ui@),
    {
        proof {
            reveal(AppV::hear);
        }
        let mut idle: Option<String> = None;
        if let UiEvent::SessionStatus { session, running } = &ui {
            if !*running && self.session_was_running(session.as_str()) {
                idle = Some(session.clone());
            }
        }
        self.apply_ui(ui);
        if let Some(session) = idle {
            self.dispatch_session_queue(session.as_str());
        }
    }
}

} // verus!
