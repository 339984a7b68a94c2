//! What the agent connection tells.

use crate::app::{self, App, AppV, PluginsV, StatusV};
use crate::auth;
use crate::bus::{
    self, AuthNotice, AuthSnapshot, AuthV, CatalogModel, CatalogPreset, ConnectionV, CtlEvent,
    SessionConnection,
};
use crate::effect::{NoticeLevel, TranscriptOp};
use crate::events;
use crate::lists::{self, Row};
use crate::picker::{self, Picker, PickerItem, PickerKind};
use crate::session::{self, ModelFacts, Run, RunState, SlotV};
use crate::slots;
use crate::text;
use crate::theme::{find_row_or_first, row_or_first};
use vstd::prelude::*;

verus! {

/// The interrupted turn, in words.
pub open spec fn interrupted_text(a: AppV) -> Seq<char> {
    a.says("interrupted — turn cancelled"@, "已中断 —— 本轮已取消"@)
}

pub open spec fn preset_text(a: AppV, label: Seq<char>) -> Seq<char> {
    app::said1(
        a.base.locale,
        ("⚙ agent → "@, " · composes on this session's first prompt"@),
        ("⚙ Agent → "@, " · 在本会话首次输入时生效"@),
        label,
    )
}

impl AppV {
    /// A notice in the transcript of a parked session.
    pub open spec fn notice_there(self, at: int, level: NoticeLevel, t: Seq<char>) -> AppV {
        self.write(
            self.tabs.parked[at].chat.transcript,
            TranscriptOp::Notice { level, text: t },
        )
    }

    /// A notice in the transcript of a session, if it has a tab.
    #[verifier::opaque]
    pub open spec fn notice_to(self, id: Seq<char>, level: NoticeLevel, t: Seq<char>) -> AppV {
        let at = self.parked_index_of(id);
        if id == self.live.id {
            self.notice(level, t)
        } else if at < self.tabs.parked.len() {
            self.notice_there(at, level, t)
        } else {
            self
        }
    }

    /// The prompt of the viewed session is settled and no turn runs.
    pub open spec fn settled_here(self) -> AppV {
        AppV { state: RunState::Idle, ..self }.with_run(
            Run { started: None, pending: false, ..self.live.run },
        )
    }

    /// A failure that belongs to one session. Its queue stays.
    #[verifier::opaque]
    pub open spec fn session_failed(self, id: Seq<char>, t: Seq<char>) -> AppV {
        let at = self.parked_index_of(id);
        if id == self.live.id {
            self.settled_here().notice(NoticeLevel::Error, t)
        } else if at < self.tabs.parked.len() {
            self.parked_at(at, slots::settled(self.tabs.parked[at])).notice_there(
                at,
                NoticeLevel::Error,
                t,
            )
        } else {
            self
        }
    }

    /// The session for a tab could not be opened.
    #[verifier::opaque]
    pub open spec fn bind_failed_to(self, previous: Seq<char>, t: Seq<char>) -> AppV {
        let a = self.not_awaiting(previous);
        let at = a.parked_index_of(previous);
        (if self.live.id == previous {
            a.banner_off().tell(
                "session creation failed · /new to retry"@,
                "会话创建失败 · /new 重试"@,
            )
        } else if at < a.tabs.parked.len() {
            a.parked_at(at, slots::bannerless(a.tabs.parked[at]))
        } else {
            a
        }).session_failed(previous, t)
    }

    #[verifier::opaque]
    pub open spec fn connected(self, id: Seq<char>, c: ConnectionV) -> AppV {
        let at = self.parked_index_of(id);
        if id == self.live.id {
            AppV { conn: c, ..self }
        } else if at < self.tabs.parked.len() {
            self.parked_at(at, slots::connected(self.tabs.parked[at], c))
        } else {
            self
        }
    }

    #[verifier::opaque]
    pub open spec fn runtime_starting(self, runtime: Seq<char>) -> AppV {
        AppV { state: RunState::Starting, ..self.without_error() }.with_run(
            Run {
                started: Some(self.clock.now),
                note: if runtime == "harness"@ {
                    "switching Harness"@
                } else {
                    "starting runtime"@
                },
                ..self.live.run
            },
        )
    }

    pub open spec fn with_server(self, server: Option<Seq<char>>) -> AppV {
        AppV { conn: ConnectionV { server, ..self.conn }, ..self }
    }

    #[verifier::opaque]
    pub open spec fn ready(self, server: Seq<char>) -> AppV {
        let a = self.without_error().with_server(Some(server));
        if self.live.run.pending {
            a
        } else {
            a.at_rest()
        }
    }

    /// Nothing can be reached.
    #[verifier::opaque]
    pub open spec fn unreachable(self, target: Seq<char>, error: Seq<char>) -> AppV {
        let server = if target.len() > 0 {
            target
        } else {
            text::text_or(self.conn.server, "ACP"@)
        };
        AppV {
            state: RunState::Idle,
            conn: ConnectionV { server: Some(server), auth: bus::no_auth(), ..self.conn },
            status: StatusV { connection_error: Some(error), ..self.status },
            ..self
        }.with_live(
            SlotV {
                id: "unavailable"@,
                bound: false,
                models: ModelFacts { session: None, selected: None, ..self.live.models },
                run: Run { pending: false, started: None, note: Seq::empty(), ..self.live.run },
                ..self.live
            },
        ).notice(NoticeLevel::Error, error)
    }

    pub open spec fn accepted_here(self) -> AppV {
        AppV {
            state: if self.state == RunState::Starting {
                RunState::Running
            } else {
                self.state
            },
            ..self
        }.with_run(Run { pending: false, note: Seq::empty(), ..self.live.run })
    }

    /// A prompt has been accepted; only its own session settles.
    #[verifier::opaque]
    pub open spec fn accepted(self, id: Option<Seq<char>>) -> AppV {
        match id {
            None => self.accepted_here(),
            Some(id) => {
                let at = self.parked_index_of(id);
                if id == self.live.id {
                    self.accepted_here()
                } else if at < self.tabs.parked.len() {
                    self.parked_at(at, slots::unpended(self.tabs.parked[at]))
                } else {
                    self
                }
            },
        }
    }

    #[verifier::opaque]
    pub open spec fn failed(self, t: Seq<char>) -> AppV {
        self.settled_here().notice(NoticeLevel::Error, t).send_next()
    }

    /// The agent has refused another model or effort.
    #[verifier::opaque]
    pub open spec fn switch_refused(
        self,
        id: Seq<char>,
        model: Option<Seq<char>>,
        effort: Option<Seq<char>>,
        t: Seq<char>,
    ) -> AppV {
        let at = self.parked_index_of(id);
        if id == self.live.id {
            self.with_live(slots::switch_undone(self.live, model, effort)).notice(
                NoticeLevel::Error,
                t,
            )
        } else if at < self.tabs.parked.len() {
            self.parked_at(
                at,
                slots::switch_undone(self.tabs.parked[at], model, effort),
            ).notice_there(at, NoticeLevel::Error, t)
        } else {
            self
        }
    }

    pub open spec fn bind_failed_text(self, t: Seq<char>) -> Seq<char> {
        app::said1(
            self.base.locale,
            ("session bind failed: "@, " — this tab stays open; /close it or retry /new"@),
            ("会话绑定失败："@, " —— 本标签页保持打开；/close 关闭或重试 /new"@),
            t,
        )
    }

    /// A session that was asked for could not be opened: the tab that asked
    /// first is told.
    #[verifier::opaque]
    pub open spec fn bind_failed(self, t: Seq<char>) -> AppV {
        (if self.tabs.awaiting.len() == 0 {
            self
        } else if self.tabs.awaiting[0].open {
            self.first_answered().notice_to(
                self.tabs.awaiting[0].id,
                NoticeLevel::Warn,
                self.bind_failed_text(t),
            )
        } else {
            self.first_answered()
        }).tell1(("session bind failed: "@, ""@), ("会话绑定失败："@, ""@), t)
    }

    #[verifier::opaque]
    pub open spec fn cancelling(self, id: Seq<char>) -> AppV {
        let at = self.parked_index_of(id);
        if id == self.live.id {
            self.noted("cancelling"@).write(
                self.live.chat.transcript,
                TranscriptOp::CancelOpenWork,
            )
        } else if at < self.tabs.parked.len() {
            let s = self.tabs.parked[at];
            self.parked_at(at, slots::with_note(s, "cancelling"@)).write(
                s.chat.transcript,
                TranscriptOp::CancelOpenWork,
            )
        } else {
            self
        }
    }

    /// A turn was interrupted; the queue of its session goes on.
    #[verifier::opaque]
    pub open spec fn interrupted(self, id: Seq<char>) -> AppV {
        let at = self.parked_index_of(id);
        (if id == self.live.id {
            self.settled_here().noted(Seq::empty()).write(
                self.live.chat.transcript,
                TranscriptOp::CancelOpenWork,
            ).notice(NoticeLevel::Warn, interrupted_text(self))
        } else if at < self.tabs.parked.len() {
            let s = self.tabs.parked[at];
            self.parked_at(at, slots::settled(s)).write(
                s.chat.transcript,
                TranscriptOp::CancelOpenWork,
            ).notice_there(at, NoticeLevel::Warn, interrupted_text(self))
        } else {
            self
        }).send_next_of(id)
    }

    /// Whether a fact without a session, or with the viewed one, is meant here.
    pub open spec fn meant_here(self, id: Option<Seq<char>>) -> bool {
        id is None || id->0 == self.live.id
    }

    /// A change of the catalog of one session.
    pub open spec fn told_there(self, id: Option<Seq<char>>, f: spec_fn(SlotV) -> SlotV) -> AppV {
        let at = self.parked_index_of(id->0);
        if id is Some && at < self.tabs.parked.len() {
            self.parked_at(at, f(self.tabs.parked[at]))
        } else {
            self
        }
    }

    #[verifier::opaque]
    pub open spec fn skills_told(self, id: Option<Seq<char>>, v: Seq<bus::SkillInfo<Seq<char>>>) -> AppV {
        if self.meant_here(id) {
            self.with_live(slots::with_skills(self.live, v))
        } else {
            self.told_there(id, |s: SlotV| slots::with_skills(s, v))
        }
    }

    pub open spec fn relisted(self, rows: Seq<Row>, sel: usize) -> AppV {
        match self.menu.picker {
            Some(p) => self.with_picker(Some(Picker { items: rows, sel, ..p })),
            None => self,
        }
    }

    pub open spec fn picking(self, kind: PickerKind) -> bool {
        self.menu.picker is Some && self.menu.picker->0.kind == kind
    }

    /// An open list shows what the agent has just told.
    pub open spec fn catalog_listed(self, models: nat, presets: nat) -> AppV {
        if self.picking(PickerKind::Model) && models > 0 {
            let rows = lists::model_rows(self.live.catalog.models);
            self.relisted(rows, lists::model_sel(rows, self.model_now(), self.cfg.provider))
        } else if self.picking(PickerKind::Mode) && presets > 0 {
            let rows = lists::preset_rows(self.live.catalog.presets);
            self.relisted(rows, row_or_first(rows, self.mode_now()))
        } else {
            self
        }
    }

    #[verifier::opaque]
    pub open spec fn catalog_told(
        self,
        id: Option<Seq<char>>,
        models: Seq<CatalogModel<Seq<char>>>,
        presets: Seq<CatalogPreset<Seq<char>>>,
    ) -> AppV {
        if self.meant_here(id) {
            self.with_live(slots::with_catalog(self.live, models, presets)).catalog_listed(
                models.len(),
                presets.len(),
            )
        } else {
            self.told_there(id, |s: SlotV| slots::with_catalog(s, models, presets))
        }
    }

    pub open spec fn permissions_listed(self) -> AppV {
        if self.picking(PickerKind::Permission) && self.live.catalog.permissions.len() > 0 {
            self.relisted(
                self.permission_list(),
                row_or_first(self.permission_list(), self.permission_now()),
            )
        } else {
            self
        }
    }

    #[verifier::opaque]
    pub open spec fn modes_told(
        self,
        id: Option<Seq<char>>,
        modes: Seq<CatalogPreset<Seq<char>>>,
        current: Option<Seq<char>>,
    ) -> AppV {
        if self.meant_here(id) {
            self.with_live(slots::with_modes(self.live, modes, current)).permissions_listed()
        } else {
            self.told_there(id, |s: SlotV| slots::with_modes(s, modes, current))
        }
    }

    #[verifier::opaque]
    pub open spec fn efforts_told(
        self,
        id: Option<Seq<char>>,
        efforts: Seq<Seq<char>>,
        default: Option<Seq<char>>,
    ) -> AppV {
        if self.meant_here(id) {
            self.with_live(slots::with_efforts(self.live, efforts)).open_efforts(efforts, default)
        } else {
            self.told_there(id, |s: SlotV| slots::with_efforts(s, efforts))
        }
    }

    #[verifier::opaque]
    pub open spec fn preset_told(self, id: Seq<char>, preset: Seq<char>) -> AppV {
        let at = self.parked_index_of(id);
        let t = preset_text(self, self.label_of(preset));
        if id.len() == 0 || id == self.live.id {
            self.with_live(slots::with_preset(self.live, preset)).notice(NoticeLevel::Info, t)
        } else if at < self.tabs.parked.len() {
            self.parked_at(at, slots::with_preset(self.tabs.parked[at], preset)).notice_there(
                at,
                NoticeLevel::Info,
                t,
            )
        } else {
            self
        }
    }

    #[verifier::opaque]
    pub open spec fn op_done(self, t: Seq<char>) -> AppV {
        if self.live.chat.show_banner {
            self.tip(t)
        } else {
            self.notice(NoticeLevel::Info, t)
        }
    }

    #[verifier::opaque]
    pub open spec fn session_auth(
        self,
        id: Seq<char>,
        snap: AuthV,
        n: Option<AuthNotice<Seq<char>>>,
        open: bool,
    ) -> AppV {
        let at = self.parked_index_of(id);
        if id == self.live.id {
            let a = self.auth_heard(snap, n).redrawn();
            if open {
                a.sign_in_needed()
            } else {
                a
            }
        } else if at < self.tabs.parked.len() {
            self.parked_at(at, slots::with_sign_in(self.tabs.parked[at], snap))
        } else {
            self
        }
    }

    pub open spec fn with_plugins(self, p: PluginsV) -> AppV {
        AppV { plugins: p, ..self }
    }

    pub open spec fn with_caps(self, load: bool, list: bool, resume: bool) -> AppV {
        AppV {
            conn: ConnectionV {
                load_session: load,
                list_session: list,
                resume_session: resume,
                ..self.conn
            },
            ..self
        }
    }

    /// What is told of sessions and turns.
    #[verifier::opaque]
    pub open spec fn ctl_session(self, e: CtlEvent) -> AppV {
        match e {
            CtlEvent::NewSessionRequested => self.new_session(""@),
            CtlEvent::SessionBoundTo { previous_id, session_id, notice } => self.bind_to(
                previous_id@,
                session_id@,
                text::opt_view(notice),
            ),
            CtlEvent::BindFailedTo { previous_id, message } => self.bind_failed_to(
                previous_id@,
                message@,
            ),
            CtlEvent::SessionConnection { session_id, connection } => self.connected(
                session_id@,
                connection@,
            ),
            CtlEvent::SessionBound { session_id, notice } => self.bind(
                session_id@,
                text::opt_view(notice),
            ),
            CtlEvent::BindFailed { message } => self.bind_failed(message@),
            CtlEvent::PromptQueued { message_id: _, session_id } => self.accepted(
                text::opt_view(session_id),
            ),
            CtlEvent::SteerSettled { message_id, deferred } => self.settling(message_id, deferred),
            CtlEvent::Error(t) => self.failed(t@),
            CtlEvent::SessionOpFailed { session_id, message } => self.notice_to(
                session_id@,
                NoticeLevel::Error,
                message@,
            ),
            CtlEvent::ModelSwitchFailed { session_id, model, effort, message } => self.switch_refused(
                session_id@,
                text::opt_view(model),
                text::opt_view(effort),
                message@,
            ),
            CtlEvent::SessionError { session_id, message } => self.session_failed(
                session_id@,
                message@,
            ),
            CtlEvent::CancelRequested { session_id } => self.cancelling(session_id@),
            CtlEvent::Interrupted { session_id } => self.interrupted(session_id@),
            _ => self,
        }
    }

    /// What is told of what can be chosen.
    #[verifier::opaque]
    pub open spec fn ctl_choice(self, e: CtlEvent) -> AppV {
        match e {
            CtlEvent::Skills { session_id, skills } => self.skills_told(
                text::opt_view(session_id),
                events::skills_view(skills@),
            ),
            CtlEvent::StaticPlugins { plugins } => self.with_plugins(
                PluginsV { installed: crate::tree::plugins_view(plugins@), ..self.plugins },
            ).open_inventory(),
            CtlEvent::CordisPlugins { plugins } => self.with_plugins(
                PluginsV { dynamic: app::dynamic_view(plugins@), ..self.plugins },
            ).open_dynamic_list(),
            CtlEvent::Catalog { session_id, models, presets } => self.catalog_told(
                text::opt_view(session_id),
                events::models_view(models@),
                events::presets_view(presets@),
            ),
            CtlEvent::SessionModes { session_id, modes, current } => self.modes_told(
                text::opt_view(session_id),
                events::presets_view(modes@),
                text::opt_view(current),
            ),
            CtlEvent::Efforts { session_id, efforts, default } => self.efforts_told(
                text::opt_view(session_id),
                text::views(efforts@),
                text::opt_view(default),
            ),
            CtlEvent::PresetSet { session_id, preset } => self.preset_told(session_id@, preset@),
            CtlEvent::SessionList { requester_session_id, sessions, prefix, limit } => self.agent_listed(
                requester_session_id@,
                app::listed_view(sessions@),
                text::opt_view(prefix),
                limit,
            ),
            CtlEvent::SessionListUnavailable { requester_session_id, prefix, limit, error } => self.agent_cannot_list(
                requester_session_id@,
                text::opt_view(prefix),
                limit,
                error@,
            ),
            _ => self.ctl_session(e),
        }
    }

    /// What the agent connection tells.
    #[verifier::opaque]
    pub open spec fn ctl(self, e: CtlEvent) -> AppV {
        (match e {
            CtlEvent::Starting { runtime } => self.runtime_starting(runtime@),
            CtlEvent::Initialized { server } => self.with_server(Some(server@)),
            CtlEvent::Ready { server } => self.ready(server@),
            CtlEvent::ConnectionFailed { target, error } => self.unreachable(target@, error@),
            CtlEvent::TuiOpDone(t) => self.op_done(t@),
            CtlEvent::TuiOpFailed(t) => self.notice(NoticeLevel::Warn, t@),
            CtlEvent::Auth { snapshot, notice } => self.auth_heard(
                snapshot@,
                bus::opt_notice_view(notice),
            ),
            CtlEvent::SessionAuth { session_id, snapshot, notice, open } => self.session_auth(
                session_id@,
                snapshot@,
                bus::opt_notice_view(notice),
                open,
            ),
            CtlEvent::OpenAuth => self.sign_in_needed(),
            CtlEvent::AgentCaps { load_session, list_session, resume_session } => self.with_caps(
                load_session,
                list_session,
                resume_session,
            ),
            _ => self.ctl_choice(e),
        }).redrawn()
    }
}

impl App {
    fn find_parked(&self, id: &str) -> (r: usize)
        ensures
            r == self@.parked_index_of(id@),
            r <= self@.tabs.parked.len(),
    {
        assert(self@.tabs.parked.len() == self.tabs.parked@.len());
        session::find_slot(&self.tabs.parked, id)
    }

    fn notice_parked(&mut self, at: usize, level: NoticeLevel, t: String)
        requires
            at < old(self)@.tabs.parked.len(),
        ensures
            final(self)@ == old(self)@.notice_there(at as int, level, t@),
    {
        let (_id, transcript) = self.parked_facts(at);
        self.write(transcript, TranscriptOp::Notice { level, text: t });
    }

    fn notice_session(&mut self, id: &str, level: NoticeLevel, t: String)
        ensures
            final(self)@ == old(self)@.notice_to(id@, level, t@),
    {
        proof {
            reveal(AppV::notice_to);
        }
        let at = self.find_parked(id);
        if self.is_live(id) {
            self.notice(level, t);
        } else if at < self.tabs.parked.len() {
            self.notice_parked(at, level, t);
        }
    }

    fn settle_here(&mut self)
        ensures
            final(self)@ == old(self)@.settled_here(),
    {
        self.end_turn();
        self.unpend_live();
    }

    fn fail_session(&mut self, id: &str, t: String)
        ensures
            final(self)@ == old(self)@.session_failed(id@, t@),
    {
        proof {
            reveal(AppV::session_failed);
        }
        let at = self.find_parked(id);
        if self.is_live(id) {
            self.settle_here();
            self.notice(NoticeLevel::Error, t);
        } else if at < self.tabs.parked.len() {
            self.end_parked(at);
            self.notice_parked(at, NoticeLevel::Error, t);
        }
    }

    fn fail_bind_to(&mut self, previous: &str, t: String)
        ensures
            final(self)@ == old(self)@.bind_failed_to(previous@, t@),
    {
        proof {
            reveal(AppV::bind_failed_to);
        }
        self.stop_awaiting(previous);
        let at = self.find_parked(previous);
        if self.is_live(previous) {
            self.hide_banner();
            self.tell("session creation failed · /new to retry", "会话创建失败 · /new 重试");
        } else if at < self.tabs.parked.len() {
            self.hide_banner_parked(at);
        }
        self.fail_session(previous, t);
    }

    fn connect(&mut self, id: &str, c: SessionConnection)
        ensures
            final(self)@ == old(self)@.connected(id@, c@),
    {
        proof {
            reveal(AppV::connected);
        }
        let at = self.find_parked(id);
        if self.is_live(id) {
            self.conn = c;
        } else if at < self.tabs.parked.len() {
            self.connect_parked(at, c);
        }
    }

    fn start_runtime(&mut self, runtime: &str)
        ensures
            final(self)@ == old(self)@.runtime_starting(runtime@),
    {
        proof {
            reveal(session::slot_view);
            reveal(AppV::runtime_starting);
        }
        self.status.connection_error = None;
        self.state = RunState::Starting;
        self.live.run.started = Some(self.clock.now);
        self.live.run.note = (if text::same(runtime, "harness") {
            "switching Harness"
        } else {
            "starting runtime"
        }).to_owned();
    }

    fn hear_ready(&mut self, server: String)
        ensures
            final(self)@ == old(self)@.ready(server@),
    {
        proof {
            reveal(AppV::ready);
        }
        let pending = self.is_pending();
        self.status.connection_error = None;
        self.conn.server = Some(server);
        if !pending {
            self.rest();
        }
    }

    fn lose_live(&mut self)
        ensures
            final(self)@ == (AppV { state: RunState::Idle, ..old(self)@ }).with_live(
                SlotV {
                    id: "unavailable"@,
                    bound: false,
                    models: ModelFacts {
                        session: None,
                        selected: None,
                        ..old(self)@.live.models
                    },
                    run: Run {
                        pending: false,
                        started: None,
                        note: Seq::empty(),
                        ..old(self)@.live.run
                    },
                    ..old(self)@.live
                },
            ),
    {
        proof {
            reveal(session::slot_view);
        }
        self.state = RunState::Idle;
        self.live.id = "unavailable".to_owned();
        self.live.bound = false;
        self.live.models.session = None;
        self.live.models.selected = None;
        self.live.run.pending = false;
        self.live.run.started = None;
        self.live.run.note = text::empty();
        assert(self@.live.run.note =~= Seq::empty());
    }

    fn lose_connection(&mut self, target: String, error: String)
        ensures
            final(self)@ == old(self)@.unreachable(target@, error@),
    {
        proof {
            reveal(AppV::unreachable);
        }
        if !target.as_str().is_empty() {
            self.conn.server = Some(target);
        } else if self.conn.server.is_none() {
            self.conn.server = Some("ACP".to_owned());
        }
        self.conn.auth = AuthSnapshot::none();
        self.status.connection_error = Some(error.clone());
        self.lose_live();
        self.notice(NoticeLevel::Error, error);
    }

    fn accept_here(&mut self)
        ensures
            final(self)@ == old(self)@.accepted_here(),
    {
        if matches!(self.state, RunState::Starting) {
            self.state = RunState::Running;
        }
        self.unpend_live();
        self.set_note(text::empty());
        assert(self@.live.run.note =~= Seq::empty());
    }

    fn accept_prompt(&mut self, id: Option<&str>)
        ensures
            final(self)@ == old(self)@.accepted(text::opt_str_view(id)),
    {
        proof {
            reveal(AppV::accepted);
        }
        match id {
            None => self.accept_here(),
            Some(id) => {
                let at = self.find_parked(id);
                if self.is_live(id) {
                    self.accept_here();
                } else if at < self.tabs.parked.len() {
                    self.unpend_parked(at);
                }
            },
        }
    }

    fn fail(&mut self, t: String)
        ensures
            final(self)@ == old(self)@.failed(t@),
    {
        proof {
            reveal(AppV::failed);
        }
        self.settle_here();
        self.notice(NoticeLevel::Error, t);
        self.dispatch_next_queued();
    }

    fn refuse_switch(
        &mut self,
        id: &str,
        model: &Option<String>,
        effort: &Option<String>,
        t: String,
    )
        ensures
            final(self)@ == old(self)@.switch_refused(
                id@,
                text::opt_view(*model),
                text::opt_view(*effort),
                t@,
            ),
    {
        proof {
            reveal(AppV::switch_refused);
        }
        let at = self.find_parked(id);
        if self.is_live(id) {
            self.undo_switch_live(model, effort);
            self.notice(NoticeLevel::Error, t);
        } else if at < self.tabs.parked.len() {
            self.undo_switch_parked(at, model, effort);
            self.notice_parked(at, NoticeLevel::Error, t);
        }
    }

    fn fail_bind(&mut self, t: &str)
        ensures
            final(self)@ == old(self)@.bind_failed(t@),
    {
        proof {
            reveal(AppV::bind_failed);
        }
        let words = app::say1(
            self.base.locale,
            ("session bind failed: ", " — this tab stays open; /close it or retry /new"),
            ("会话绑定失败：", " —— 本标签页保持打开；/close 关闭或重试 /new"),
            t,
        );
        assert(self@.tabs.awaiting.len() == self.tabs.awaiting@.len());
        if self.tabs.awaiting.len() > 0 {
            let e = self.answer_first();
            if e.open {
                self.notice_session(e.id.as_str(), NoticeLevel::Warn, words);
            }
        }
        self.tell1(("session bind failed: ", ""), ("会话绑定失败：", ""), t);
    }

    fn begin_cancel(&mut self, id: &str)
        ensures
            final(self)@ == old(self)@.cancelling(id@),
    {
        proof {
            reveal(AppV::cancelling);
        }
        let at = self.find_parked(id);
        if self.is_live(id) {
            let transcript = self.live_transcript();
            self.set_note("cancelling".to_owned());
            self.write(transcript, TranscriptOp::CancelOpenWork);
        } else if at < self.tabs.parked.len() {
            let (_id, transcript) = self.parked_facts(at);
            self.note_parked(at, "cancelling".to_owned());
            self.write(transcript, TranscriptOp::CancelOpenWork);
        }
    }

    fn interrupt_here(&mut self, t: String)
        ensures
            final(self)@ == old(self)@.settled_here().noted(Seq::empty()).write(
                old(self)@.live.chat.transcript,
                TranscriptOp::CancelOpenWork,
            ).notice(NoticeLevel::Warn, t@),
    {
        let transcript = self.live_transcript();
        self.settle_here();
        self.set_note(text::empty());
        assert(self@.live.run.note =~= Seq::empty());
        self.write(transcript, TranscriptOp::CancelOpenWork);
        self.notice(NoticeLevel::Warn, t);
    }

    fn end_interrupted(&mut self, id: &str)
        ensures
            final(self)@ == old(self)@.interrupted(id@),
    {
        proof {
            reveal(AppV::interrupted);
        }
        let t = self.say("interrupted — turn cancelled", "已中断 —— 本轮已取消");
        let at = self.find_parked(id);
        if self.is_live(id) {
            self.interrupt_here(t);
        } else if at < self.tabs.parked.len() {
            let (_id, transcript) = self.parked_facts(at);
            self.end_parked(at);
            self.write(transcript, TranscriptOp::CancelOpenWork);
            self.notice_parked(at, NoticeLevel::Warn, t);
        }
        self.dispatch_session_queue(id);
    }

    fn is_meant_here(&self, id: &Option<String>) -> (r: bool)
        ensures
            r == self@.meant_here(text::opt_view(*id)),
    {
        match id {
            Some(id) => self.is_live(id.as_str()),
            None => true,
        }
    }

    /// The parked tab of a session; the number of tabs where it has none.
    fn find_meant(&self, id: &Option<String>) -> (r: usize)
        ensures
            r <= self@.tabs.parked.len(),
            r < self@.tabs.parked.len() ==> id is Some && r == self@.parked_index_of(id->0@),
            r == self@.tabs.parked.len() ==> id is None || self@.parked_index_of(id->0@)
                >= self@.tabs.parked.len(),
    {
        assert(self@.tabs.parked.len() == self.tabs.parked@.len());
        match id {
            Some(id) => self.find_parked(id.as_str()),
            None => self.tabs.parked.len(),
        }
    }

    fn hear_skills(&mut self, id: &Option<String>, skills: Vec<bus::SkillInfo>)
        ensures
            final(self)@ == old(self)@.skills_told(
                text::opt_view(*id),
                events::skills_view(skills@),
            ),
    {
        proof {
            reveal(AppV::skills_told);
        }
        let at = self.find_meant(id);
        if self.is_meant_here(id) {
            self.set_skills_live(skills);
        } else if at < self.tabs.parked.len() {
            self.set_skills_parked(at, skills);
        }
    }

    fn relist(&mut self, rows: Vec<PickerItem>, sel: usize)
        ensures
            final(self)@ == old(self)@.relisted(picker::items_view(rows@), sel),
    {
        if let Some(p) = &mut self.menu.picker {
            p.items = rows;
            p.sel = sel;
        }
    }

    fn list_catalog_models(&self) -> (r: Vec<PickerItem>)
        ensures
            picker::items_view(r@) == lists::model_rows(self@.live.catalog.models),
    {
        proof {
            reveal(session::slot_view);
        }
        lists::list_models(&self.live.catalog.models)
    }

    fn list_catalog_presets(&self) -> (r: Vec<PickerItem>)
        ensures
            picker::items_view(r@) == lists::preset_rows(self@.live.catalog.presets),
    {
        proof {
            reveal(session::slot_view);
        }
        lists::list_presets(&self.live.catalog.presets)
    }

    fn list_catalog(&mut self, models: usize, presets: usize)
        ensures
            final(self)@ == old(self)@.catalog_listed(models as nat, presets as nat),
    {
        if self.is_picking(PickerKind::Model) && models > 0 {
            let rows = self.list_catalog_models();
            let current = self.current_model();
            let sel = lists::find_model(&rows, current.as_str(), self.cfg.provider.as_str());
            self.relist(rows, sel);
        } else if self.is_picking(PickerKind::Mode) && presets > 0 {
            let rows = self.list_catalog_presets();
            let current = self.current_mode();
            let sel = find_row_or_first(&rows, current.as_str());
            self.relist(rows, sel);
        }
    }

    fn hear_catalog(
        &mut self,
        id: &Option<String>,
        models: Vec<CatalogModel>,
        presets: Vec<CatalogPreset>,
    )
        ensures
            final(self)@ == old(self)@.catalog_told(
                text::opt_view(*id),
                events::models_view(models@),
                events::presets_view(presets@),
            ),
    {
        proof {
            reveal(AppV::catalog_told);
        }
        let at = self.find_meant(id);
        let n = models.len();
        let m = presets.len();
        assert(events::models_view(models@).len() == n);
        assert(events::presets_view(presets@).len() == m);
        if self.is_meant_here(id) {
            self.set_catalog_live(models, presets);
            self.list_catalog(n, m);
        } else if at < self.tabs.parked.len() {
            self.set_catalog_parked(at, models, presets);
        }
    }

    fn has_permission_choices(&self) -> (r: bool)
        ensures
            r == (self@.live.catalog.permissions.len() > 0),
    {
        proof {
            reveal(session::slot_view);
        }
        self.live.catalog.permissions.len() > 0
    }

    fn relist_permissions(&mut self)
        ensures
            final(self)@ == old(self)@.permissions_listed(),
    {
        if self.is_picking(PickerKind::Permission) && self.has_permission_choices() {
            let rows = self.list_permissions();
            let current = self.current_permission();
            let sel = find_row_or_first(&rows, current.as_str());
            self.relist(rows, sel);
        }
    }

    fn hear_modes(&mut self, id: &Option<String>, modes: Vec<CatalogPreset>, current: Option<String>)
        ensures
            final(self)@ == old(self)@.modes_told(
                text::opt_view(*id),
                events::presets_view(modes@),
                text::opt_view(current),
            ),
    {
        proof {
            reveal(AppV::modes_told);
        }
        let at = self.find_meant(id);
        if self.is_meant_here(id) {
            self.set_modes_live(modes, current);
            self.relist_permissions();
        } else if at < self.tabs.parked.len() {
            self.set_modes_parked(at, modes, current);
        }
    }

    fn hear_efforts(&mut self, id: &Option<String>, efforts: Vec<String>, default: &Option<String>)
        ensures
            final(self)@ == old(self)@.efforts_told(
                text::opt_view(*id),
                text::views(efforts@),
                text::opt_view(*default),
            ),
    {
        proof {
            reveal(AppV::efforts_told);
        }
        let at = self.find_meant(id);
        if self.is_meant_here(id) {
            let listed = lists::copy_texts(&efforts);
            self.set_efforts_live(efforts);
            let d = match default {
                Some(d) => Some(d.as_str()),
                None => None,
            };
            self.open_effort_picker(&listed, d);
        } else if at < self.tabs.parked.len() {
            self.set_efforts_parked(at, efforts);
        }
    }

    fn hear_preset(&mut self, id: &str, preset: String)
        ensures
            final(self)@ == old(self)@.preset_told(id@, preset@),
    {
        proof {
            reveal(AppV::preset_told);
        }
        let label = self.agent_label(preset.as_str());
        let t = app::say1(
            self.base.locale,
            ("⚙ agent → ", " · composes on this session's first prompt"),
            ("⚙ Agent → ", " · 在本会话首次输入时生效"),
            label.as_str(),
        );
        let at = self.find_parked(id);
        if id.is_empty() || self.is_live(id) {
            self.set_preset_live(preset);
            self.notice(NoticeLevel::Info, t);
        } else if at < self.tabs.parked.len() {
            self.set_preset_parked(at, preset);
            self.notice_parked(at, NoticeLevel::Info, t);
        }
    }

    fn shows_banner(&self) -> (r: bool)
        ensures
            r == self@.live.chat.show_banner,
    {
        proof {
            reveal(session::slot_view);
        }
        self.live.chat.show_banner
    }

    fn hear_done(&mut self, t: String)
        ensures
            final(self)@ == old(self)@.op_done(t@),
    {
        proof {
            reveal(AppV::op_done);
        }
        if self.shows_banner() {
            self.show_tip(t);
        } else {
            self.notice(NoticeLevel::Info, t);
        }
    }

    fn hear_session_auth(
        &mut self,
        id: &str,
        snapshot: AuthSnapshot,
        notice: Option<AuthNotice>,
        open: bool,
    )
        ensures
            final(self)@ == old(self)@.session_auth(
                id@,
                snapshot@,
                bus::opt_notice_view(notice),
                open,
            ),
    {
        proof {
            reveal(AppV::session_auth);
        }
        let at = self.find_parked(id);
        if self.is_live(id) {
            self.hear_auth(snapshot, notice);
            self.redraw();
            if open {
                self.open_auth_surface();
            }
        } else if at < self.tabs.parked.len() {
            self.set_auth_parked(at, snapshot);
        }
    }

    fn handle_ctl_session(&mut self, e: CtlEvent)
        ensures
            final(self)@ == old(self)@.ctl_session(e),
    {
        proof {
            reveal(AppV::ctl_session);
        }
        match e {
            CtlEvent::NewSessionRequested => self.new_session_flow(""),
            CtlEvent::SessionBoundTo { previous_id, session_id, notice } => self.bind_session_to(
                previous_id,
                session_id.as_str(),
                notice,
            ),
            CtlEvent::BindFailedTo { previous_id, message } => self.fail_bind_to(
                previous_id.as_str(),
                message,
            ),
            CtlEvent::SessionConnection { session_id, connection } => self.connect(
                session_id.as_str(),
                connection,
            ),
            CtlEvent::SessionBound { session_id, notice } => self.bind_session(
                session_id.as_str(),
                notice,
            ),
            CtlEvent::BindFailed { message } => self.fail_bind(message.as_str()),
            CtlEvent::PromptQueued { message_id: _, session_id } => {
                let id = match &session_id {
                    Some(s) => Some(s.as_str()),
                    None => None,
                };
                self.accept_prompt(id)
            },
            CtlEvent::SteerSettled { message_id, deferred } => self.settle_steer(
                message_id,
                deferred,
            ),
            CtlEvent::Error(t) => self.fail(t),
            CtlEvent::SessionOpFailed { session_id, message } => self.notice_session(
                session_id.as_str(),
                NoticeLevel::Error,
                message,
            ),
            CtlEvent::ModelSwitchFailed { session_id, model, effort, message } => self.refuse_switch(
                session_id.as_str(),
                &model,
                &effort,
                message,
            ),
            CtlEvent::SessionError { session_id, message } => self.fail_session(
                session_id.as_str(),
                message,
            ),
            CtlEvent::CancelRequested { session_id } => self.begin_cancel(session_id.as_str()),
            CtlEvent::Interrupted { session_id } => self.end_interrupted(session_id.as_str()),
            _ => {},
        }
    }

    fn handle_ctl_choice(&mut self, e: CtlEvent)
        ensures
            final(self)@ == old(self)@.ctl_choice(e),
    {
        proof {
            reveal(AppV::ctl_choice);
        }
        match e {
            CtlEvent::Skills { session_id, skills } => self.hear_skills(&session_id, skills),
            CtlEvent::StaticPlugins { plugins } => {
                self.plugins.installed = plugins;
                self.open_plugin_tree();
            },
            CtlEvent::CordisPlugins { plugins } => {
                self.plugins.dynamic = plugins;
                self.open_cordis_plugin_picker();
            },
            CtlEvent::Catalog { session_id, models, presets } => self.hear_catalog(
                &session_id,
                models,
                presets,
            ),
            CtlEvent::SessionModes { session_id, modes, current } => self.hear_modes(
                &session_id,
                modes,
                current,
            ),
            CtlEvent::Efforts { session_id, efforts, default } => self.hear_efforts(
                &session_id,
                efforts,
                &default,
            ),
            CtlEvent::PresetSet { session_id, preset } => self.hear_preset(
                session_id.as_str(),
                preset,
            ),
            CtlEvent::SessionList { requester_session_id, sessions, prefix, limit } => {
                let p = match &prefix {
                    Some(p) => Some(p.as_str()),
                    None => None,
                };
                self.on_acp_session_list(requester_session_id.as_str(), &sessions, p, limit)
            },
            CtlEvent::SessionListUnavailable { requester_session_id, prefix, limit, error } => {
                let p = match &prefix {
                    Some(p) => Some(p.as_str()),
                    None => None,
                };
                self.on_acp_session_list_unavailable(
                    requester_session_id.as_str(),
                    p,
                    limit,
                    error.as_str(),
                )
            },
            _ => self.handle_ctl_session(e),
        }
    }

    /// Takes in what the agent connection tells.
    pub(crate) fn handle_ctl(&mut self, e: CtlEvent)
        ensures
            final(self)@ == old(self)@.ctl(e),
    {
        proof {
            reveal(AppV::ctl);
        }
        match e {
            CtlEvent::Starting { runtime } => self.start_runtime(runtime.as_str()),
            CtlEvent::Initialized { server } => {
                self.conn.server = Some(server);
            },
            CtlEvent::Ready { server } => self.hear_ready(server),
            CtlEvent::ConnectionFailed { target, error } => self.lose_connection(target, error),
            CtlEvent::TuiOpDone(t) => self.hear_done(t),
            CtlEvent::TuiOpFailed(t) => self.notice(NoticeLevel::Warn, t),
            CtlEvent::Auth { snapshot, notice } => self.hear_auth(snapshot, notice),
            CtlEvent::SessionAuth { session_id, snapshot, notice, open } => self.hear_session_auth(
                session_id.as_str(),
                snapshot,
                notice,
                open,
            ),
            CtlEvent::OpenAuth => self.open_auth_surface(),
            CtlEvent::AgentCaps { load_session, list_session, resume_session } => {
                self.conn.load_session = load_session;
                self.conn.list_session = list_session;
                self.conn.resume_session = resume_session;
            },
            _ => self.handle_ctl_choice(e),
        }
        self.redraw();
    }
}

} // verus!
