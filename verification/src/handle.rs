//! Events: what comes in from the terminal, the agent and the host, and what
//! is reported after each.

use crate::acp_fs;
use crate::agents::{self, AgentsMark, QueueMark};
use crate::app::{self, App, AppV, CountsV, PendingShell, TabsV};
use crate::bus::{AppEvent, Cmd};
use crate::effect::{NoticeLevel, TranscriptOp};
use crate::events::{self, EventV, UiEvent};
use crate::json::{self, Json, JsonValue};
use crate::plugins;
use crate::seqs;
use crate::session::{self, ElicitationAskOverlay, ModelFacts, RunState, SessionSlot, SlotV};
use crate::slots;
use crate::tabs;
use crate::text;
use vstd::prelude::*;

verus! {

pub open spec fn shell_numbered(id: u64) -> spec_fn(PendingShell<Seq<char>>) -> bool {
    |s: PendingShell<Seq<char>>| s.id == id
}

fn find_shell(v: &Vec<PendingShell>, id: u64) -> (r: usize)
    ensures
        r == seqs::first_index(app::shells_view(v@), shell_numbered(id)),
        r <= v@.len(),
{
    let ghost all = app::shells_view(v@);
    let mut i: usize = 0;
    while i < v.len() && v[i].id != id
        invariant
            i <= v@.len(),
            all == app::shells_view(v@),
            forall|k: int| 0 <= k < i ==> !shell_numbered(id)(#[trigger] all[k]),
        decreases v@.len() - i,
    {
        assert(all[i as int] == v@[i as int]@);
        i = i + 1;
    }
    proof {
        if i < v@.len() {
            assert(all[i as int] == v@[i as int]@);
        }
        seqs::lemma_first_index_is(all, shell_numbered(id), i as int);
    }
    i
}

/// Every session has lost what it had asked the runtime for.
pub open spec fn all_stopped(v: Seq<SlotV>) -> Seq<SlotV> {
    v.map_values(|s: SlotV| slots::stopped(s))
}

fn stop_all(v: &mut Vec<SessionSlot>)
    ensures
        session::slots_view(final(v)@) == all_stopped(session::slots_view(old(v)@)),
{
    let ghost all = session::slots_view(v@);
    let mut i: usize = 0;
    while i < v.len()
        invariant
            i <= v@.len(),
            v@.len() == all.len(),
            forall|k: int| 0 <= k < i ==> (#[trigger] v@[k])@ == slots::stopped(all[k]),
            forall|k: int| i <= k < v@.len() ==> (#[trigger] v@[k])@ == all[k],
        decreases v@.len() - i,
    {
        slots::stop_slot(&mut v[i]);
        i = i + 1;
    }
    assert(session::slots_view(v@) =~= all_stopped(all));
}

impl AppV {
    // --- notifications -----------------------------------------------------------------

    /// The host moves the highlight among the subagents.
    #[verifier::opaque]
    pub open spec fn navigated(self, params: Json) -> AppV {
        let action = json::string_member(params, "action"@);
        (if json::number_in(json::member(params, "protocol"@)) != Some(
            self.cfg.methods.protocol as nat,
        ) {
            self
        } else if action == Some("begin"@) {
            self.begin_walk()
        } else if action == Some("previous"@) {
            self.step_walk(false)
        } else if action == Some("next"@) {
            self.step_walk(true)
        } else if action == Some("confirm"@) {
            self.confirm_walk()
        } else if action == Some("cancel"@) {
            self.cancel_walk()
        } else {
            self
        }).redrawn()
    }

    /// The host picks a transcript.
    #[verifier::opaque]
    pub open spec fn agent_picked(self, params: Json) -> AppV {
        (match json::string_member(params, "id"@) {
            Some(id) => if json::number_in(json::member(params, "protocol"@)) == Some(
                self.cfg.methods.protocol as nat,
            ) {
                self.show_agent(id)
            } else {
                self
            },
            None => self,
        }).redrawn()
    }

    /// Facts come in one after the other.
    pub open spec fn hear_all(self, events: Seq<EventV>) -> AppV
        decreases events.len(),
    {
        if events.len() == 0 {
            self
        } else {
            self.hear_all(events.drop_last()).hear(events.last())
        }
    }

    /// A notification of the host. One whose payload is decoded outside comes
    /// in by another way.
    #[verifier::opaque]
    pub open spec fn rpc(self, method: Seq<char>, params: Json) -> AppV {
        let m = self.cfg.methods;
        if method == m.agents_navigate {
            self.navigated(params)
        } else if method == m.agents_select {
            self.agent_picked(params)
        } else if plugins::update_kind(m, method) is Some {
            self
        } else if method == m.theme_remove {
            self.drop_pack(params)
        } else {
            self.hear_all(events::notification_events(method, params, m.theme_update, None))
        }
    }

    // --- the runtime and the shell -----------------------------------------------------

    pub open spec fn live_stopped(self) -> AppV {
        let a = self.with_live(
            SlotV {
                run: session::Run { pending: false, ..self.live.run },
                queue: session::no_queue(),
                ..self.live
            },
        );
        if self.state != RunState::Idle {
            a.idle()
        } else {
            a
        }
    }

    /// The runtime is gone, and with it all that was asked of it.
    #[verifier::opaque]
    pub open spec fn runtime_gone(self, code: Option<i32>) -> AppV {
        let a = AppV {
            tabs: TabsV {
                startup_bound: false,
                parked: all_stopped(self.tabs.parked),
                ..self.tabs
            },
            ..self
        }.live_stopped();
        (match code {
            Some(c) => if c != 0 {
                a.notice(
                    NoticeLevel::Warn,
                    app::said1(
                        self.base.locale,
                        ("runtime exited with code "@, " — next prompt restarts it"@),
                        ("运行时以退出码 "@, " 结束 —— 下一条提示会重启它"@),
                        text::signed_decimal(c as int),
                    ),
                )
            } else {
                a
            },
            None => a,
        }).redrawn()
    }

    /// The transcript of an open session.
    pub open spec fn transcript_of_tab(self, id: Seq<char>) -> Option<u64> {
        let at = self.parked_index_of(id);
        if self.live.id == id {
            Some(self.live.chat.transcript)
        } else if at < self.tabs.parked.len() {
            Some(self.tabs.parked[at].chat.transcript)
        } else {
            None
        }
    }

    pub open spec fn without_shell(self, at: int) -> AppV {
        AppV {
            counts: CountsV {
                pending_shells: self.counts.pending_shells.remove(at),
                ..self.counts
            },
            ..self
        }
    }

    /// A shell command is over; it is told in the session that ran it.
    #[verifier::opaque]
    pub open spec fn shell_over(self, id: u64, code: Option<i32>, output: Seq<char>) -> AppV {
        let at = seqs::first_index(self.counts.pending_shells, shell_numbered(id));
        (if at < self.counts.pending_shells.len() {
            let session = self.counts.pending_shells[at].session;
            (match self.transcript_of_tab(session) {
                Some(t) => self.without_shell(at).write(
                    t,
                    TranscriptOp::ShellDone { id, code, output },
                ),
                None => self.without_shell(at),
            }).redrawn()
        } else {
            self
        }).branch_sought(true)
    }

    // --- one event ---------------------------------------------------------------------

    /// What an event does.
    #[verifier::opaque]
    pub open spec fn taken(self, e: AppEvent) -> AppV {
        match e {
            AppEvent::Terminate => self.quitting(),
            AppEvent::Term(t) => self.term(t),
            AppEvent::Ui(u) => self.hear(u@),
            AppEvent::Rpc { method, params } => self.rpc(method@, params@),
            AppEvent::RuntimeStderr(_) => self,
            AppEvent::RuntimeExited(code) => self.runtime_gone(code),
            AppEvent::Ctl(c) => self.ctl(c),
            AppEvent::PermissionAsk { session_id, request_id, title, details, options, reply } =>
                self.open_ask(
                session_id@,
                self.ask_overlay(
                    request_id@,
                    title@,
                    text::opt_view(details),
                    acp_fs::options_view(options@),
                    reply,
                ),
            ),
            AppEvent::ElicitationAsk { session_id, request_id, form, reply } => self.open_form(
                text::opt_view(session_id),
                ElicitationAskOverlay { request_id: request_id@, form, scroll: 0, reply },
            ),
            AppEvent::AskCancelled { request_id } => self.withdraw(request_id@),
            AppEvent::ShellDone { id, code, output } => self.shell_over(id, code, output@),
        }
    }

    // --- what is reported --------------------------------------------------------------

    /// A turn has run on the model that was picked.
    pub open spec fn model_confirmed(self) -> AppV {
        if self.live.models.selected is Some && self.live.models.selected
            == self.live.models.last {
            self.with_live(
                SlotV { models: ModelFacts { selected: None, ..self.live.models }, ..self.live },
            )
        } else {
            self
        }
    }

    #[verifier::opaque]
    pub open spec fn queue_reported(self, before: AppV) -> AppV {
        if !before.base.demo && agents::queue_mark(self.live.queue) != agents::queue_mark(
            before.live.queue,
        ) {
            self.send(Cmd::QueueSnapshot { snapshot: agents::queue_told(self.live.queue) })
        } else {
            self
        }
    }

    #[verifier::opaque]
    pub open spec fn agents_reported(self, before: AppV) -> AppV {
        if !before.base.demo && self.agents_mark() != before.agents_mark() {
            self.send(Cmd::AgentsSnapshot { snapshot: self.agents_told() })
        } else {
            self
        }
    }

    #[verifier::opaque]
    pub open spec fn session_reported(self, before: AppV) -> AppV {
        if !before.base.demo && (self.live.id != before.live.id || self.live.bound
            != before.live.bound) {
            self.send(
                Cmd::ActiveSession {
                    session_id: if self.live.bound {
                        Some(self.live.id)
                    } else {
                        None
                    },
                },
            )
        } else {
            self
        }
    }

    /// After an event: a palette that is no longer tried out is given up, and
    /// what has changed is reported to the compositor.
    #[verifier::opaque]
    pub open spec fn checked(self, before: AppV) -> AppV {
        self.preview_checked().model_confirmed().queue_reported(before).agents_reported(
            before,
        ).session_reported(before)
    }

    /// One event from beginning to end.
    #[verifier::opaque]
    pub open spec fn handled(self, e: AppEvent) -> AppV {
        self.taken(e).checked(self)
    }
}

/// What is compared after an event with what it was before.
pub struct Before {
    pub queue: Option<QueueMark>,
    pub agents: Option<AgentsMark>,
    pub session: String,
    pub bound: bool,
}

impl Before {
    pub open spec fn is_of(self, a: AppV) -> bool {
        &&& match self.queue {
            Some(q) => !a.base.demo && q@ == agents::queue_mark(a.live.queue),
            None => a.base.demo,
        }
        &&& match self.agents {
            Some(m) => !a.base.demo && m@ == a.agents_mark(),
            None => a.base.demo,
        }
        &&& self.session@ == a.live.id
        &&& self.bound == a.live.bound
    }
}

impl App {
    fn navigate_agents(&mut self, params: &JsonValue)
        ensures
            final(self)@ == old(self)@.navigated(params@),
    {
        proof {
            reveal(AppV::navigated);
        }
        let meant = match json::as_u64(json::get(params, "protocol")) {
            Some(n) => n == self.cfg.methods.protocol,
            None => false,
        };
        if meant {
            let action = json::get_str(params, "action");
            if text::opt_is(action, "begin") {
                self.begin_agent_navigation();
            } else if text::opt_is(action, "previous") {
                self.move_agent_selection(false);
            } else if text::opt_is(action, "next") {
                self.move_agent_selection(true);
            } else if text::opt_is(action, "confirm") {
                self.confirm_agent_selection();
            } else if text::opt_is(action, "cancel") {
                self.cancel_agent_selection();
            }
        }
        self.redraw();
    }

    fn pick_agent(&mut self, params: &JsonValue)
        ensures
            final(self)@ == old(self)@.agent_picked(params@),
    {
        proof {
            reveal(AppV::agent_picked);
        }
        let meant = match json::as_u64(json::get(params, "protocol")) {
            Some(n) => n == self.cfg.methods.protocol,
            None => false,
        };
        if let Some(id) = json::get_str(params, "id") {
            if meant {
                self.select_agent_transcript(id);
            }
        }
        self.redraw();
    }

    fn hear_each(&mut self, found: Vec<UiEvent>)
        ensures
            final(self)@ == old(self)@.hear_all(events::events_view(found@)),
    {
        let ghost all = events::events_view(found@);
        let ghost before = self@;
        let mut rest = found;
        let mut back: Vec<UiEvent> = Vec::new();
        let n: usize = rest.len();
        while rest.len() > 0
            invariant
                rest@.len() + back@.len() == n,
                all.len() == n,
                forall|k: int| 0 <= k < rest@.len() ==> (#[trigger] rest@[k])@ == all[k],
                forall|k: int|
                    0 <= k < back@.len() ==> (#[trigger] back@[k])@ == all[n - 1 - k],
            decreases rest@.len(),
        {
            let ghost m = rest@.len();
            if let Some(e) = rest.pop() {
                assert(e@ == all[m - 1]);
                back.push(e);
            }
        }
        assert(all.take(0) =~= Seq::empty());
        let mut done: usize = 0;
        while back.len() > 0
            invariant
                done + back@.len() == n,
                all.len() == n,
                forall|k: int|
                    0 <= k < back@.len() ==> (#[trigger] back@[k])@ == all[n - 1 - k],
                self@ == before.hear_all(all.take(done as int)),
            decreases back@.len(),
        {
            let ghost m = back@.len();
            if let Some(e) = back.pop() {
                assert(e@ == all[n - m]);
                assert(all.take(done as int + 1).drop_last() =~= all.take(done as int));
                self.hear_ui(e);
                done = done + 1;
            }
        }
        assert(all.take(done as int) =~= all);
    }

    pub(crate) fn hear_rpc(&mut self, method: &str, params: &JsonValue)
        ensures
            final(self)@ == old(self)@.rpc(method@, params@),
    {
        proof {
            reveal(AppV::rpc);
        }
        if text::same(method, self.cfg.methods.agents_navigate.as_str()) {
            self.navigate_agents(params);
            return;
        }
        if text::same(method, self.cfg.methods.agents_select.as_str()) {
            self.pick_agent(params);
            return;
        }
        if self.payload_of(method).is_some() {
            return;
        }
        if text::same(method, self.cfg.methods.theme_remove.as_str()) {
            self.remove_palette_rpc(params);
            return;
        }
        let found = events::parse_notification(
            method,
            params,
            self.cfg.methods.theme_update.as_str(),
            None,
        );
        self.hear_each(found);
    }

    fn stop_live(&mut self)
        ensures
            final(self)@ == old(self)@.live_stopped(),
    {
        proof {
            reveal(session::slot_view);
        }
        self.live.run.pending = false;
        self.live.queue = session::Queue::empty();
        if !matches!(self.state, RunState::Idle) {
            self.end_turn();
        }
    }

    fn lose_runtime(&mut self, code: Option<i32>)
        ensures
            final(self)@ == old(self)@.runtime_gone(code),
    {
        proof {
            reveal(AppV::runtime_gone);
        }
        self.tabs.startup_bound = false;
        stop_all(&mut self.tabs.parked);
        self.stop_live();
        if let Some(c) = code {
            if c != 0 {
                let n = text::signed_decimal_string(c as i64);
                let t = app::say1(
                    self.base.locale,
                    ("runtime exited with code ", " — next prompt restarts it"),
                    ("运行时以退出码 ", " 结束 —— 下一条提示会重启它"),
                    n.as_str(),
                );
                self.notice(NoticeLevel::Warn, t);
            }
        }
        self.redraw();
    }

    fn find_tab_transcript(&self, id: &str) -> (r: Option<u64>)
        ensures
            r == self@.transcript_of_tab(id@),
    {
        if self.is_live(id) {
            return Some(self.live_transcript());
        }
        let at = session::find_slot(&self.tabs.parked, id);
        if at < self.tabs.parked.len() {
            proof {
                reveal(session::slot_view);
            }
            assert(self@.tabs.parked[at as int] == self.tabs.parked@[at as int]@);
            Some(self.tabs.parked[at].chat.transcript)
        } else {
            None
        }
    }

    fn take_shell(&mut self, at: usize) -> (r: String)
        requires
            at < old(self)@.counts.pending_shells.len(),
        ensures
            r@ == old(self)@.counts.pending_shells[at as int].session,
            final(self)@ == old(self)@.without_shell(at as int),
    {
        let ghost all = self@.counts.pending_shells;
        assert(all[at as int] == self.counts.pending_shells@[at as int]@);
        let s = self.counts.pending_shells.remove(at);
        assert(self@.counts.pending_shells =~= all.remove(at as int));
        s.session
    }

    fn end_shell(&mut self, id: u64, code: Option<i32>, output: String)
        ensures
            final(self)@ == old(self)@.shell_over(id, code, output@),
    {
        proof {
            reveal(AppV::shell_over);
        }
        let at = find_shell(&self.counts.pending_shells, id);
        assert(self@.counts.pending_shells.len() == self.counts.pending_shells@.len());
        if at < self.counts.pending_shells.len() {
            let session = self.take_shell(at);
            if let Some(t) = self.find_tab_transcript(session.as_str()) {
                self.write(t, TranscriptOp::ShellDone { id, code, output });
            }
            self.redraw();
        }
        self.refresh_git_branch(true);
    }

    fn handle_inner(&mut self, e: AppEvent)
        ensures
            final(self)@ == old(self)@.taken(e),
    {
        proof {
            reveal(AppV::taken);
        }
        match e {
            AppEvent::Terminate => {
                self.status.quit = true;
            },
            AppEvent::Term(t) => self.handle_term(t),
            AppEvent::Ui(u) => self.hear_ui(u),
            AppEvent::Rpc { method, params } => self.hear_rpc(method.as_str(), &params),
            AppEvent::RuntimeStderr(_) => {},
            AppEvent::RuntimeExited(code) => self.lose_runtime(code),
            AppEvent::Ctl(c) => self.handle_ctl(c),
            AppEvent::PermissionAsk { session_id, request_id, title, details, options, reply } => {
                let ask = self.make_ask(request_id, title, details, &options, reply);
                self.open_permission_ask(session_id.as_str(), ask);
            },
            AppEvent::ElicitationAsk { session_id, request_id, form, reply } => {
                let ask = ElicitationAskOverlay { request_id, form, scroll: 0, reply };
                let session = match &session_id {
                    Some(s) => Some(s.as_str()),
                    None => None,
                };
                self.open_elicitation_ask(session, ask);
            },
            AppEvent::AskCancelled { request_id } => {
                let _ = self.dismiss_ask_by_request_id(&request_id);
            },
            AppEvent::ShellDone { id, code, output } => self.end_shell(id, code, output),
        }
    }

    pub(crate) fn mark(&self) -> (r: Before)
        ensures
            r.is_of(self@),
    {
        Before {
            queue: if self.base.demo {
                None
            } else {
                Some(self.queue_fingerprint())
            },
            agents: if self.base.demo {
                None
            } else {
                Some(self.agents_fingerprint())
            },
            session: self.session_id(),
            bound: self.is_bound(),
        }
    }

    fn confirm_model(&mut self)
        ensures
            final(self)@ == old(self)@.model_confirmed(),
    {
        proof {
            reveal(session::slot_view);
        }
        if self.live.models.selected.is_some() && agents::same_text_opt(
            &self.live.models.selected,
            &self.live.models.last,
        ) {
            self.live.models.selected = None;
        }
    }

    fn report_queue(&mut self, b: &Before, Ghost(before): Ghost<AppV>)
        requires
            b.is_of(before),
        ensures
            final(self)@ == old(self)@.queue_reported(before),
    {
        proof {
            reveal(AppV::queue_reported);
        }
        if let Some(q) = &b.queue {
            let now = self.queue_fingerprint();
            if !now.same(q) {
                let snapshot = self.queue_snapshot();
                self.send(Cmd::QueueSnapshot { snapshot });
            }
        }
    }

    fn report_agents(&mut self, b: &Before, Ghost(before): Ghost<AppV>)
        requires
            b.is_of(before),
        ensures
            final(self)@ == old(self)@.agents_reported(before),
    {
        proof {
            reveal(AppV::agents_reported);
        }
        if let Some(m) = &b.agents {
            let now = self.agents_fingerprint();
            if !now.same(m) {
                let snapshot = self.agents_snapshot();
                self.send(Cmd::AgentsSnapshot { snapshot });
            }
        }
    }

    fn report_session(&mut self, b: &Before, Ghost(before): Ghost<AppV>)
        requires
            b.is_of(before),
        ensures
            final(self)@ == old(self)@.session_reported(before),
    {
        proof {
            reveal(AppV::session_reported);
        }
        let id = self.session_id();
        let bound = self.is_bound();
        if b.queue.is_some() && (!text::same(id.as_str(), b.session.as_str()) || bound != b.bound) {
            let session_id = if bound {
                Some(id)
            } else {
                None
            };
            self.send(Cmd::ActiveSession { session_id });
        }
    }

    pub(crate) fn report(&mut self, b: &Before, Ghost(before): Ghost<AppV>)
        requires
            b.is_of(before),
        ensures
            final(self)@ == old(self)@.checked(before),
    {
        proof {
            reveal(AppV::checked);
        }
        self.reconcile_theme_preview();
        self.confirm_model();
        self.report_queue(b, Ghost(before));
        self.report_agents(b, Ghost(before));
        self.report_session(b, Ghost(before));
    }

    /// Takes an event. What is to be done about it outside is then found by
    /// `take_effects`.
    pub fn handle(&mut self, e: AppEvent)
        ensures
            final(self)@ == old(self)@.handled(e),
    {
        proof {
            reveal(AppV::handled);
        }
        let ghost before = self@;
        let b = self.mark();
        self.handle_inner(e);
        self.report(&b, Ghost(before));
    }
}

} // verus!
