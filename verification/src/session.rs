//! One session tab: its draft, its queue, its modes, its subagents, and what
//! is asked of the user on its behalf.

use crate::bus::{
    CatalogModel, CatalogPreset, ConnectionV, PermissionAskOption, RequestId, SessionConnection,
    SkillInfo,
};
use crate::draft::{self, Attachment, AttachmentV, BlockV, StagedBlock};
use crate::effect::{self, Effect, EffectV, Locale, TranscriptOp};
use crate::events::{self, EventV, UiEvent};
use crate::seqs;
use crate::text;
use crate::tree::{PluginTree, PluginTreeV};
use vstd::prelude::*;

verus! {

#[derive(Debug, Clone, Copy, PartialEq, Eq, Structural)]
pub enum RunState {
    Idle,
    Starting,
    Running,
}

/// The draft of a session and the prompts that can be recalled into it.
#[derive(Debug, PartialEq, Eq)]
pub struct Composer {
    pub buf: String,
    /// The caret, counted in characters.
    pub cursor: usize,
    pub history: Vec<String>,
    /// The recalled entry that is shown.
    pub hist_pos: Option<usize>,
    /// The draft that recalling has put aside.
    pub stash: String,
}

#[verifier::ext_equal]
pub ghost struct ComposerV {
    pub buf: Seq<char>,
    pub cursor: usize,
    pub history: Seq<Seq<char>>,
    pub hist_pos: Option<usize>,
    pub stash: Seq<char>,
}

impl View for Composer {
    type V = ComposerV;

    open spec fn view(&self) -> ComposerV {
        ComposerV {
            buf: self.buf@,
            cursor: self.cursor,
            history: text::views(self.history@),
            hist_pos: self.hist_pos,
            stash: self.stash@,
        }
    }
}

pub open spec fn new_composer() -> ComposerV {
    ComposerV {
        buf: Seq::empty(),
        cursor: 0,
        history: Seq::empty(),
        hist_pos: None,
        stash: Seq::empty(),
    }
}

impl ComposerV {
    /// The caret at the end of the text.
    pub open spec fn with_text(self, t: Seq<char>) -> ComposerV {
        ComposerV { buf: t, cursor: t.len() as usize, ..self }
    }

    /// An empty draft that is no recalled entry.
    pub open spec fn cleared(self) -> ComposerV {
        ComposerV { buf: Seq::empty(), cursor: 0, hist_pos: None, ..self }
    }

    pub open spec fn remembering(self, t: Seq<char>) -> ComposerV {
        ComposerV { history: self.history.push(t), ..self }
    }

    pub open spec fn caret(self) -> int {
        if self.cursor <= self.buf.len() {
            self.cursor as int
        } else {
            self.buf.len() as int
        }
    }

    /// A text put in at the caret.
    pub open spec fn with_inserted(self, t: Seq<char>) -> ComposerV {
        ComposerV {
            buf: self.buf.take(self.caret()) + t + self.buf.skip(self.caret()),
            cursor: (self.caret() + t.len()) as usize,
            ..self
        }
    }

    /// The characters from `from` to `to` taken out, the caret left there.
    pub open spec fn without_range(self, from: int, to: int) -> ComposerV {
        ComposerV { buf: self.buf.take(from) + self.buf.skip(to), cursor: from as usize, ..self }
    }
}

impl Composer {
    pub fn new() -> (r: Composer)
        ensures
            r@ == new_composer(),
    {
        let r = Composer {
            buf: text::empty(),
            cursor: 0,
            history: Vec::new(),
            hist_pos: None,
            stash: text::empty(),
        };
        assert(r@ =~= new_composer());
        r
    }

    pub fn is_empty(&self) -> (r: bool)
        ensures
            r == (self@.buf.len() == 0),
    {
        self.buf.as_str().is_empty()
    }

    pub fn set(&mut self, t: String)
        ensures
            final(self)@ == old(self)@.with_text(t@),
    {
        let n: usize = text::chars_of(t.as_str()).len();
        self.buf = t;
        self.cursor = n;
    }

    pub fn clear(&mut self)
        ensures
            final(self)@ == old(self)@.cleared(),
    {
        self.buf = text::empty();
        self.cursor = 0;
        self.hist_pos = None;
    }

    pub fn remember(&mut self, t: String)
        ensures
            final(self)@ == old(self)@.remembering(t@),
    {
        self.history.push(t);
        assert(self@.history =~= old(self)@.history.push(t@));
    }

    /// Puts a text in at the caret; a text that would make the draft longer
    /// than can be counted is left out.
    pub fn insert_str(&mut self, t: &str)
        ensures
            old(self)@.buf.len() + t@.len() <= usize::MAX ==> final(self)@ == old(
                self,
            )@.with_inserted(t@),
            old(self)@.buf.len() + t@.len() > usize::MAX ==> final(self)@ == old(self)@,
    {
        let v = text::chars_of(self.buf.as_str());
        let more = text::chars_of(t);
        if more.len() > usize::MAX - v.len() {
            return;
        }
        let at: usize = if self.cursor <= v.len() {
            self.cursor
        } else {
            v.len()
        };
        let mut s = text::string_of_range(&v, 0, at);
        text::push_str(&mut s, t);
        let rest = text::string_of_range(&v, at, v.len());
        text::push_str(&mut s, rest.as_str());
        assert(v@.subrange(0, at as int) =~= v@.take(at as int));
        assert(v@.subrange(at as int, v@.len() as int) =~= v@.skip(at as int));
        self.buf = s;
        self.cursor = at + more.len();
    }

    pub fn delete_char_range(&mut self, from: usize, to: usize)
        requires
            from <= to <= old(self)@.buf.len(),
        ensures
            final(self)@ == old(self)@.without_range(from as int, to as int),
    {
        let v = text::chars_of(self.buf.as_str());
        let mut s = text::string_of_range(&v, 0, from);
        let rest = text::string_of_range(&v, to, v.len());
        text::push_str(&mut s, rest.as_str());
        assert(v@.subrange(0, from as int) =~= v@.take(from as int));
        assert(v@.subrange(to as int, v@.len() as int) =~= v@.skip(to as int));
        self.buf = s;
        self.cursor = from;
    }

    /// The draft as the editor left it.
    pub fn accept(&mut self, edit: Edit)
        ensures
            final(self)@ == (ComposerV { buf: edit.buf@, cursor: edit.cursor, ..old(self)@ }),
    {
        self.buf = edit.buf;
        self.cursor = edit.cursor;
    }
}

/// What the editor makes of a key: the text and the caret.
#[derive(Debug, PartialEq, Eq)]
pub struct Edit<S = String> {
    pub buf: S,
    pub cursor: usize,
}

/// The modes of a session, as its agent has told them.
#[derive(Debug, PartialEq, Eq)]
pub struct Modes<S = String> {
    pub plan: bool,
    pub sandbox: Option<S>,
    pub approval: Option<S>,
    pub permission: Option<S>,
    pub agent_preset: Option<S>,
    /// The reasoning effort last asked for or reported.
    pub effort: Option<S>,
}

impl View for Modes {
    type V = Modes<Seq<char>>;

    open spec fn view(&self) -> Self::V {
        Modes {
            plan: self.plan,
            sandbox: text::opt_view(self.sandbox),
            approval: text::opt_view(self.approval),
            permission: text::opt_view(self.permission),
            agent_preset: text::opt_view(self.agent_preset),
            effort: text::opt_view(self.effort),
        }
    }
}

pub open spec fn no_modes() -> Modes<Seq<char>> {
    Modes {
        plan: false,
        sandbox: None,
        approval: None,
        permission: None,
        agent_preset: None,
        effort: None,
    }
}

impl Default for Modes {
    fn default() -> (r: Modes)
        ensures
            r@ == no_modes(),
    {
        Modes {
            plan: false,
            sandbox: None,
            approval: None,
            permission: None,
            agent_preset: None,
            effort: None,
        }
    }
}

/// The view of one subagent's work.
#[derive(Debug, PartialEq, Eq)]
pub struct SubagentView<S = String> {
    pub id: S,
    pub parent: S,
    pub label: S,
    pub running: bool,
    pub failed: bool,
    pub transcript: u64,
}

pub type ViewV = SubagentView<Seq<char>>;

impl View for SubagentView {
    type V = SubagentView<Seq<char>>;

    open spec fn view(&self) -> Self::V {
        SubagentView {
            id: self.id@,
            parent: self.parent@,
            label: self.label@,
            running: self.running,
            failed: self.failed,
            transcript: self.transcript,
        }
    }
}

pub open spec fn subagents_view(v: Seq<SubagentView>) -> Seq<SubagentView<Seq<char>>> {
    v.map_values(|s: SubagentView| s@)
}

/// A prompt that waits for the active turn to end.
#[derive(Debug, PartialEq, Eq)]
pub struct ClientQueuedPrompt<L = Vec<StagedBlock>> {
    pub id: u64,
    pub blocks: L,
}

pub type QueuedV = ClientQueuedPrompt<Seq<BlockV>>;

impl View for ClientQueuedPrompt {
    type V = QueuedV;

    open spec fn view(&self) -> QueuedV {
        ClientQueuedPrompt { id: self.id, blocks: draft::blocks_view(self.blocks@) }
    }
}

pub open spec fn queue_view(v: Seq<ClientQueuedPrompt>) -> Seq<QueuedV> {
    v.map_values(|p: ClientQueuedPrompt| p@)
}

#[derive(Debug, Clone, Copy, PartialEq, Eq, Structural)]
pub struct QueueEditState {
    pub prompt_id: u64,
    pub delete_confirm: bool,
}

/// A prompt sent into a running turn whose fate is open.
#[derive(Debug, PartialEq, Eq)]
pub struct PendingSteer<L = Vec<StagedBlock>> {
    pub message_id: u64,
    pub blocks: L,
    /// It came from the head of the queue and goes back there.
    pub requeue_front: bool,
}

pub type SteerV = PendingSteer<Seq<BlockV>>;

impl View for PendingSteer {
    type V = SteerV;

    open spec fn view(&self) -> SteerV {
        PendingSteer {
            message_id: self.message_id,
            blocks: draft::blocks_view(self.blocks@),
            requeue_front: self.requeue_front,
        }
    }
}

pub open spec fn steers_view(v: Seq<PendingSteer>) -> Seq<SteerV> {
    v.map_values(|s: PendingSteer| s@)
}

/// A permission request on the screen.
#[derive(Debug, PartialEq, Eq)]
pub struct PermissionAskOverlay<S = String, R = RequestId, L = Vec<PermissionAskOption>> {
    pub request_id: R,
    pub title: S,
    pub details: Option<S>,
    pub sel: usize,
    pub options: L,
    pub reply: u64,
}

pub type PermissionAskV = PermissionAskOverlay<
    Seq<char>,
    RequestId<Seq<char>>,
    Seq<PermissionAskOption<Seq<char>>>,
>;

impl View for PermissionAskOverlay {
    type V = PermissionAskV;

    open spec fn view(&self) -> PermissionAskV {
        PermissionAskOverlay {
            request_id: self.request_id@,
            title: self.title@,
            details: text::opt_view(self.details),
            sel: self.sel,
            options: crate::acp_fs::options_view(self.options@),
            reply: self.reply,
        }
    }
}

pub open spec fn opt_ask_view(a: Option<PermissionAskOverlay>) -> Option<PermissionAskV> {
    match a {
        Some(a) => Some(a@),
        None => None,
    }
}

/// A form on the screen; its fields are found by the number `form`.
#[derive(Debug, PartialEq, Eq)]
pub struct ElicitationAskOverlay<R = RequestId> {
    pub request_id: R,
    pub form: u64,
    pub scroll: usize,
    pub reply: u64,
}

pub type ElicitationV = ElicitationAskOverlay<RequestId<Seq<char>>>;

impl View for ElicitationAskOverlay {
    type V = ElicitationV;

    open spec fn view(&self) -> ElicitationV {
        ElicitationAskOverlay {
            request_id: self.request_id@,
            form: self.form,
            scroll: self.scroll,
            reply: self.reply,
        }
    }
}

pub open spec fn opt_form_view(a: Option<ElicitationAskOverlay>) -> Option<ElicitationV> {
    match a {
        Some(a) => Some(a@),
        None => None,
    }
}

/// What a popup shows: a text, or the nodes of a plugin.
#[derive(Debug, PartialEq, Eq)]
pub enum ViewBody<S = String> {
    Markdown(S),
    Nodes(u64),
}

/// A popup that is only read.
#[derive(Debug, PartialEq, Eq)]
pub struct ViewOverlay<S = String> {
    pub id: S,
    pub title: S,
    pub body: ViewBody<S>,
    pub scroll: usize,
    /// It belongs to a plugin, which is told when it closes.
    pub notify_plugin: bool,
}

impl View for ViewOverlay {
    type V = ViewOverlay<Seq<char>>;

    open spec fn view(&self) -> Self::V {
        ViewOverlay {
            id: self.id@,
            title: self.title@,
            body: match self.body {
                ViewBody::Markdown(t) => ViewBody::Markdown(t@),
                ViewBody::Nodes(n) => ViewBody::Nodes(n),
            },
            scroll: self.scroll,
            notify_plugin: self.notify_plugin,
        }
    }
}

pub open spec fn opt_overlay_view(v: Option<ViewOverlay>) -> Option<ViewOverlay<Seq<char>>> {
    match v {
        Some(v) => Some(v@),
        None => None,
    }
}

pub open spec fn opt_tree_view(v: Option<PluginTree>) -> Option<PluginTreeV> {
    match v {
        Some(v) => Some(v@),
        None => None,
    }
}

pub open spec fn opt_connection_view(c: Option<SessionConnection>) -> Option<ConnectionV> {
    match c {
        Some(c) => Some(c@),
        None => None,
    }
}

/// The draft of a session and what hangs on it.
pub struct Draft {
    pub input: Composer,
    /// The images whose chips stand in the draft.
    pub images: Vec<Attachment>,
    /// The composer is pinned to its greater height.
    pub expanded: bool,
    /// Whether the file browser is open on the draft.
    pub file_menu: bool,
    /// The token on which the browser was dismissed.
    pub file_menu_dismissed: Option<String>,
}

pub ghost struct DraftV {
    pub input: ComposerV,
    pub images: Seq<AttachmentV>,
    pub expanded: bool,
    pub file_menu: bool,
    pub file_menu_dismissed: Option<Seq<char>>,
}

impl View for Draft {
    type V = DraftV;

    open spec fn view(&self) -> DraftV {
        DraftV {
            input: self.input@,
            images: draft::attachments_view(self.images@),
            expanded: self.expanded,
            file_menu: self.file_menu,
            file_menu_dismissed: text::opt_view(self.file_menu_dismissed),
        }
    }
}

/// How the transcript of a session is shown.
#[derive(Debug, Clone, Copy, PartialEq, Eq, Structural)]
pub struct Chat {
    /// The number of the transcript.
    pub transcript: u64,
    /// Lines above the bottom; zero follows the tail, the largest number is the
    /// top.
    pub scroll_up: usize,
    pub show_banner: bool,
    /// Nothing but notices stands in the transcript.
    pub only_notices: bool,
    pub expand_all: bool,
}

/// What is known of the model of a session.
#[derive(Debug, PartialEq, Eq)]
pub struct ModelFacts<S = String> {
    /// The model picked here and not yet seen in a turn.
    pub selected: Option<S>,
    /// The model that the session reports.
    pub session: Option<S>,
    /// The model that streamed last.
    pub last: Option<S>,
}

impl View for ModelFacts {
    type V = ModelFacts<Seq<char>>;

    open spec fn view(&self) -> Self::V {
        ModelFacts {
            selected: text::opt_view(self.selected),
            session: text::opt_view(self.session),
            last: text::opt_view(self.last),
        }
    }
}

/// The turn of a session.
#[derive(Debug, PartialEq, Eq)]
pub struct Run<S = String> {
    pub note: S,
    pub started: Option<u64>,
    /// A turn runs while the session is parked.
    pub running: bool,
    /// A turn ended while the session was out of view.
    pub completed_unseen: bool,
    /// A prompt was handed over and not yet taken up.
    pub pending: bool,
}

impl View for Run {
    type V = Run<Seq<char>>;

    open spec fn view(&self) -> Self::V {
        Run {
            note: self.note@,
            started: self.started,
            running: self.running,
            completed_unseen: self.completed_unseen,
            pending: self.pending,
        }
    }
}

/// The prompts that wait for the turn to end, first in first out, and those
/// that were sent into it.
pub struct Queue {
    pub prompts: Vec<ClientQueuedPrompt>,
    /// The highlighted prompt while the queue is browsed.
    pub selection: Option<usize>,
    pub edit: Option<QueueEditState>,
    /// The prompts sent into a running turn that are not settled.
    pub steers: Vec<PendingSteer>,
}

pub ghost struct QueueV {
    pub prompts: Seq<QueuedV>,
    pub selection: Option<usize>,
    pub edit: Option<QueueEditState>,
    pub steers: Seq<SteerV>,
}

impl View for Queue {
    type V = QueueV;

    open spec fn view(&self) -> QueueV {
        QueueV {
            prompts: queue_view(self.prompts@),
            selection: self.selection,
            edit: self.edit,
            steers: steers_view(self.steers@),
        }
    }
}

/// What the agent of a session offers.
pub struct Catalog {
    pub skills: Vec<SkillInfo>,
    pub presets: Vec<CatalogPreset>,
    pub models: Vec<CatalogModel>,
    pub permissions: Vec<CatalogPreset>,
    pub efforts: Vec<String>,
}

pub ghost struct CatalogV {
    pub skills: Seq<SkillInfo<Seq<char>>>,
    pub presets: Seq<CatalogPreset<Seq<char>>>,
    pub models: Seq<CatalogModel<Seq<char>>>,
    pub permissions: Seq<CatalogPreset<Seq<char>>>,
    pub efforts: Seq<Seq<char>>,
}

impl View for Catalog {
    type V = CatalogV;

    open spec fn view(&self) -> CatalogV {
        CatalogV {
            skills: events::skills_view(self.skills@),
            presets: events::presets_view(self.presets@),
            models: events::models_view(self.models@),
            permissions: events::presets_view(self.permissions@),
            efforts: text::views(self.efforts@),
        }
    }
}

/// The subagents of a session.
pub struct Agents {
    pub views: Vec<SubagentView>,
    /// The ids of the newest batch.
    pub current: Vec<String>,
    pub next_starts_batch: bool,
    /// The subagent whose transcript is shown.
    pub active: Option<String>,
    /// The highlighted entry while one navigates.
    pub selection: Option<String>,
}

pub ghost struct AgentsV {
    pub views: Seq<ViewV>,
    pub current: Seq<Seq<char>>,
    pub next_starts_batch: bool,
    pub active: Option<Seq<char>>,
    pub selection: Option<Seq<char>>,
}

impl View for Agents {
    type V = AgentsV;

    open spec fn view(&self) -> AgentsV {
        AgentsV {
            views: subagents_view(self.views@),
            current: text::views(self.current@),
            next_starts_batch: self.next_starts_batch,
            active: text::opt_view(self.active),
            selection: text::opt_view(self.selection),
        }
    }
}

/// What is asked of the user on behalf of a session.
pub struct Asks {
    pub permission: Option<PermissionAskOverlay>,
    pub form: Option<ElicitationAskOverlay>,
}

pub ghost struct AsksV {
    pub permission: Option<PermissionAskV>,
    pub form: Option<ElicitationV>,
}

impl View for Asks {
    type V = AsksV;

    open spec fn view(&self) -> AsksV {
        AsksV {
            permission: opt_ask_view(self.permission),
            form: opt_form_view(self.form),
        }
    }
}

/// The popups over a session.
pub struct Popups {
    pub view: Option<ViewOverlay>,
    pub tree: Option<PluginTree>,
}

pub ghost struct PopupsV {
    pub view: Option<ViewOverlay<Seq<char>>>,
    pub tree: Option<PluginTreeV>,
}

impl View for Popups {
    type V = PopupsV;

    open spec fn view(&self) -> PopupsV {
        PopupsV {
            view: opt_overlay_view(self.view),
            tree: opt_tree_view(self.tree),
        }
    }
}

/// Everything that belongs to one session tab.
pub struct SessionSlot {
    /// The id of the session, or a placeholder until it is bound.
    pub id: String,
    pub title: Option<String>,
    /// The id is that of a real session.
    pub bound: bool,
    /// The facts of its connection while the session is parked.
    pub connection: Option<SessionConnection>,
    pub chat: Chat,
    pub draft: Draft,
    pub models: ModelFacts,
    pub run: Run,
    pub queue: Queue,
    pub modes: Modes,
    pub catalog: Catalog,
    pub agents: Agents,
    pub asks: Asks,
    pub popups: Popups,
}

pub ghost struct SlotV {
    pub id: Seq<char>,
    pub title: Option<Seq<char>>,
    pub bound: bool,
    pub connection: Option<ConnectionV>,
    pub chat: Chat,
    pub draft: DraftV,
    pub models: ModelFacts<Seq<char>>,
    pub run: Run<Seq<char>>,
    pub queue: QueueV,
    pub modes: Modes<Seq<char>>,
    pub catalog: CatalogV,
    pub agents: AgentsV,
    pub asks: AsksV,
    pub popups: PopupsV,
}

impl View for SessionSlot {
    type V = SlotV;

    open spec fn view(&self) -> SlotV {
        slot_view(*self)
    }
}

/// What a session tab is, field by field.
#[verifier::opaque]
pub open spec fn slot_view(s: SessionSlot) -> SlotV {
    SlotV {
        id: s.id@,
        title: text::opt_view(s.title),
        bound: s.bound,
        connection: opt_connection_view(s.connection),
        chat: s.chat,
        draft: s.draft@,
        models: s.models@,
        run: s.run@,
        queue: s.queue@,
        modes: s.modes@,
        catalog: s.catalog@,
        agents: s.agents@,
        asks: s.asks@,
        popups: s.popups@,
    }
}

/// A session tab in which nothing has happened yet.
pub open spec fn fresh_slot(id: Seq<char>, bound: bool, transcript: u64) -> SlotV {
    SlotV {
        id,
        title: None,
        bound,
        connection: None,
        chat: Chat {
            transcript,
            scroll_up: 0,
            show_banner: true,
            only_notices: true,
            expand_all: false,
        },
        draft: DraftV {
            input: new_composer(),
            images: Seq::empty(),
            expanded: false,
            file_menu: false,
            file_menu_dismissed: None,
        },
        models: ModelFacts { selected: None, session: None, last: None },
        run: Run {
            note: Seq::empty(),
            started: None,
            running: false,
            completed_unseen: false,
            pending: false,
        },
        queue: no_queue(),
        modes: no_modes(),
        catalog: no_catalog(),
        agents: no_agents(),
        asks: AsksV { permission: None, form: None },
        popups: PopupsV { view: None, tree: None },
    }
}

/// No two prompts that wait for their fate have the same number.
#[verifier::opaque]
pub open spec fn steers_differ(q: QueueV) -> bool {
    forall|i: int, j: int|
        #![trigger q.steers[i], q.steers[j]]
        0 <= i < j < q.steers.len() ==> q.steers[i].message_id != q.steers[j].message_id
}

/// The queued prompts have numbers of their own, which no prompt that waits
/// for its fate has, and all of these numbers are below the next one.
#[verifier::opaque]
pub open spec fn numbers_differ(q: QueueV, next: u64) -> bool {
    &&& forall|i: int, j: int|
        #![trigger q.prompts[i], q.prompts[j]]
        0 <= i < j < q.prompts.len() ==> q.prompts[i].id != q.prompts[j].id
    &&& forall|i: int, j: int|
        #![trigger q.prompts[i], q.steers[j]]
        0 <= i < q.prompts.len() && 0 <= j < q.steers.len() ==> q.prompts[i].id
            != q.steers[j].message_id
    &&& forall|i: int| 0 <= i < q.prompts.len() ==> (#[trigger] q.prompts[i]).id < next
    &&& forall|i: int| 0 <= i < q.steers.len() ==> (#[trigger] q.steers[i]).message_id < next
}

/// No text occurs twice.
#[verifier::opaque]
pub open spec fn texts_differ(set: Seq<Seq<char>>) -> bool {
    set.no_duplicates()
}

/// What holds of every session: a prompt waits for one fate, and an agent is
/// listed once. Until the numbers of the prompts begin again (`again`), they
/// tell the prompts apart.
pub open spec fn slot_sound(s: SlotV, next: u64, again: bool) -> bool {
    &&& steers_differ(s.queue)
    &&& texts_differ(s.agents.current)
    &&& !again ==> numbers_differ(s.queue, next)
}

/// What holds of every parked session.
#[verifier::opaque]
pub open spec fn slots_sound(v: Seq<SlotV>, next: u64, again: bool) -> bool {
    forall|i: int| 0 <= i < v.len() ==> slot_sound(#[trigger] v[i], next, again)
}

pub open spec fn no_queue() -> QueueV {
    QueueV { prompts: Seq::empty(), selection: None, edit: None, steers: Seq::empty() }
}

pub open spec fn no_catalog() -> CatalogV {
    CatalogV {
        skills: Seq::empty(),
        presets: Seq::empty(),
        models: Seq::empty(),
        permissions: Seq::empty(),
        efforts: Seq::empty(),
    }
}

pub open spec fn no_agents() -> AgentsV {
    AgentsV {
        views: Seq::empty(),
        current: Seq::empty(),
        next_starts_batch: true,
        active: None,
        selection: None,
    }
}

impl Queue {
    pub fn empty() -> (r: Queue)
        ensures
            r@ == no_queue(),
    {
        let r = Queue { prompts: Vec::new(), selection: None, edit: None, steers: Vec::new() };
        assert(r@.prompts =~= no_queue().prompts);
        assert(r@.steers =~= no_queue().steers);
        r
    }
}

impl Catalog {
    pub fn empty() -> (r: Catalog)
        ensures
            r@ == no_catalog(),
    {
        let r = Catalog {
            skills: Vec::new(),
            presets: Vec::new(),
            models: Vec::new(),
            permissions: Vec::new(),
            efforts: Vec::new(),
        };
        assert(r@.skills =~= no_catalog().skills);
        assert(r@.presets =~= no_catalog().presets);
        assert(r@.models =~= no_catalog().models);
        assert(r@.permissions =~= no_catalog().permissions);
        assert(r@.efforts =~= no_catalog().efforts);
        r
    }
}

impl Agents {
    pub fn empty() -> (r: Agents)
        ensures
            r@ == no_agents(),
    {
        let r = Agents {
            views: Vec::new(),
            current: Vec::new(),
            next_starts_batch: true,
            active: None,
            selection: None,
        };
        assert(r@.views =~= no_agents().views);
        assert(r@.current =~= no_agents().current);
        r
    }
}

impl SessionSlot {
    /// A fresh tab; `bound` where the id is already that of a real session.
    pub fn fresh(id: String, bound: bool, transcript: u64) -> (r: SessionSlot)
        ensures
            r@ == fresh_slot(id@, bound, transcript),
    {
        proof {
            reveal(slot_view);
        }
        let images: Vec<Attachment> = Vec::new();
        assert(draft::attachments_view(images@) =~= Seq::<AttachmentV>::empty());
        SessionSlot {
            id,
            title: None,
            bound,
            connection: None,
            chat: Chat {
                transcript,
                scroll_up: 0,
                show_banner: true,
                only_notices: true,
                expand_all: false,
            },
            draft: Draft {
                input: Composer::new(),
                images,
                expanded: false,
                file_menu: false,
                file_menu_dismissed: None,
            },
            models: ModelFacts { selected: None, session: None, last: None },
            run: Run {
                note: text::empty(),
                started: None,
                running: false,
                completed_unseen: false,
                pending: false,
            },
            queue: Queue::empty(),
            modes: Modes::default(),
            catalog: Catalog::empty(),
            agents: Agents::empty(),
            asks: Asks { permission: None, form: None },
            popups: Popups { view: None, tree: None },
        }
    }
}

/// The session an event is about, where it is about one.
pub open spec fn event_session(e: EventV) -> Option<Seq<char>> {
    match e {
        UiEvent::SessionStatus { session, .. } => Some(session),
        UiEvent::TurnStart { session, .. } => Some(session),
        UiEvent::TurnEnd { session, .. } => Some(session),
        UiEvent::TextDelta { session, .. } => Some(session),
        UiEvent::ReasoningDelta { session, .. } => Some(session),
        UiEvent::ToolCallPreparing { session } => Some(session),
        UiEvent::AssistantFinal { session, .. } => Some(session),
        UiEvent::ToolCall { session, .. } => Some(session),
        UiEvent::ToolResult { session, .. } => Some(session),
        UiEvent::Usage { session, .. } => Some(session),
        UiEvent::UserInjected { session, .. } => Some(session),
        UiEvent::UserMessage { session, .. } => Some(session),
        UiEvent::SessionTitle { session, .. } => Some(session),
        UiEvent::SessionNotice { session, .. } => Some(session),
        UiEvent::SessionModel { session, .. } => Some(session),
        UiEvent::Plan { session, .. } => Some(session),
        UiEvent::PlanMode { session, .. } => Some(session),
        UiEvent::SandboxMode { session, .. } => Some(session),
        UiEvent::ApprovalPolicy { session, .. } => Some(session),
        UiEvent::PermissionPreset { session, .. } => Some(session),
        UiEvent::AgentPreset { session, .. } => Some(session),
        UiEvent::ReasoningEffort { session, .. } => Some(session),
        UiEvent::ApprovalAsked { session, .. } => Some(session),
        UiEvent::ApprovalDecided { session, .. } => Some(session),
        UiEvent::SubagentStarted { .. } => None,
        UiEvent::SubagentFinished { .. } => None,
        UiEvent::Palette { .. } => None,
    }
}

pub fn ui_session<'a>(event: &'a UiEvent) -> (r: Option<&'a String>)
    ensures
        (match r {
            Some(s) => Some(s@),
            None => None,
        }) == event_session(event@),
{
    match event {
        UiEvent::SessionStatus { session, .. } => Some(session),
        UiEvent::TurnStart { session, .. } => Some(session),
        UiEvent::TurnEnd { session, .. } => Some(session),
        UiEvent::TextDelta { session, .. } => Some(session),
        UiEvent::ReasoningDelta { session, .. } => Some(session),
        UiEvent::ToolCallPreparing { session } => Some(session),
        UiEvent::AssistantFinal { session, .. } => Some(session),
        UiEvent::ToolCall { session, .. } => Some(session),
        UiEvent::ToolResult { session, .. } => Some(session),
        UiEvent::Usage { session, .. } => Some(session),
        UiEvent::UserInjected { session, .. } => Some(session),
        UiEvent::UserMessage { session, .. } => Some(session),
        UiEvent::SessionTitle { session, .. } => Some(session),
        UiEvent::SessionNotice { session, .. } => Some(session),
        UiEvent::SessionModel { session, .. } => Some(session),
        UiEvent::Plan { session, .. } => Some(session),
        UiEvent::PlanMode { session, .. } => Some(session),
        UiEvent::SandboxMode { session, .. } => Some(session),
        UiEvent::ApprovalPolicy { session, .. } => Some(session),
        UiEvent::PermissionPreset { session, .. } => Some(session),
        UiEvent::AgentPreset { session, .. } => Some(session),
        UiEvent::ReasoningEffort { session, .. } => Some(session),
        UiEvent::ApprovalAsked { session, .. } => Some(session),
        UiEvent::ApprovalDecided { session, .. } => Some(session),
        UiEvent::SubagentStarted { .. } => None,
        UiEvent::SubagentFinished { .. } => None,
        UiEvent::Palette { .. } => None,
    }
}

/// The mode facts of an event, taken up by its session.
pub open spec fn modes_folded(s: SlotV, e: EventV) -> SlotV {
    match e {
        UiEvent::PlanMode { active, .. } => SlotV { modes: Modes { plan: active, ..s.modes }, ..s },
        UiEvent::SandboxMode { mode, .. } => SlotV {
            modes: Modes { sandbox: Some(mode), ..s.modes },
            ..s
        },
        UiEvent::ApprovalPolicy { policy, .. } => SlotV {
            modes: Modes { approval: Some(policy), ..s.modes },
            ..s
        },
        UiEvent::PermissionPreset { preset, .. } => SlotV {
            modes: Modes { permission: Some(preset), ..s.modes },
            ..s
        },
        UiEvent::AgentPreset { preset, .. } => SlotV {
            modes: Modes { agent_preset: Some(preset), ..s.modes },
            ..s
        },
        UiEvent::ReasoningEffort { effort, .. } => SlotV {
            modes: Modes { effort: Some(effort), ..s.modes },
            ..s
        },
        UiEvent::SessionTitle { title, .. } => SlotV { title: Some(title), ..s },
        UiEvent::SessionModel { model, .. } => SlotV {
            models: ModelFacts { session: Some(model), ..s.models },
            ..s
        },
        _ => s,
    }
}

/// Whether the transcript of a session is told of an event: not of a plan mode
/// that is already on, nor of presets, efforts and models, which only the
/// status chips show.
pub open spec fn told(s: SlotV, e: EventV) -> bool {
    match e {
        UiEvent::PlanMode { active, .. } => s.modes.plan != active,
        UiEvent::AgentPreset { .. } => false,
        UiEvent::ReasoningEffort { .. } => false,
        UiEvent::SessionModel { .. } => false,
        _ => true,
    }
}

/// Takes up the mode facts of an event; says whether the transcript is told.
pub fn fold_modes(slot: &mut SessionSlot, ui: &UiEvent) -> (r: bool)
    ensures
        final(slot)@ == modes_folded(old(slot)@, ui@),
        r == told(old(slot)@, ui@),
{
    proof {
        reveal(slot_view);
    }
    match ui {
        UiEvent::PlanMode { active, .. } => {
            let told = slot.modes.plan != *active;
            slot.modes.plan = *active;
            told
        },
        UiEvent::SandboxMode { mode, .. } => {
            slot.modes.sandbox = Some(mode.clone());
            true
        },
        UiEvent::ApprovalPolicy { policy, .. } => {
            slot.modes.approval = Some(policy.clone());
            true
        },
        UiEvent::PermissionPreset { preset, .. } => {
            slot.modes.permission = Some(preset.clone());
            true
        },
        UiEvent::AgentPreset { preset, .. } => {
            slot.modes.agent_preset = Some(preset.clone());
            false
        },
        UiEvent::ReasoningEffort { effort, .. } => {
            slot.modes.effort = Some(effort.clone());
            false
        },
        UiEvent::SessionTitle { title, .. } => {
            slot.title = Some(title.clone());
            true
        },
        UiEvent::SessionModel { model, .. } => {
            slot.models.session = Some(model.clone());
            false
        },
        _ => true,
    }
}

/// What a parked session learns of its own turns from an event. A turn that
/// ends while nobody looks leaves a badge.
pub open spec fn status_folded(s: SlotV, e: EventV) -> SlotV {
    match e {
        UiEvent::SessionStatus { running, .. } => SlotV {
            run: Run {
                completed_unseen: s.run.completed_unseen || (s.run.running && !running),
                running,
                pending: s.run.pending && running,
                ..s.run
            },
            ..s
        },
        UiEvent::TurnStart { .. } => SlotV {
            agents: AgentsV { next_starts_batch: true, ..s.agents },
            run: Run { running: true, ..s.run },
            ..s
        },
        UiEvent::TurnEnd { .. } => SlotV {
            run: Run {
                completed_unseen: s.run.completed_unseen || s.run.running,
                pending: false,
                ..s.run
            },
            ..s
        },
        _ => s,
    }
}

/// A parked session after one of its events.
pub open spec fn slot_folded(s: SlotV, e: EventV) -> SlotV {
    status_folded(modes_folded(s, e), e)
}

/// What the transcript with this number is told.
pub open spec fn apply_op(transcript: u64, e: EventV) -> EffectV {
    Effect::Transcript { id: transcript, op: TranscriptOp::Apply(e) }
}

/// Folds an event of a parked session into it; nothing else changes.
pub fn apply_to_slot(slot: &mut SessionSlot, ui: UiEvent, out: &mut Vec<Effect>)
    ensures
        final(slot)@ == slot_folded(old(slot)@, ui@),
        effect::effects_view(final(out)@) == (if told(old(slot)@, ui@) {
            effect::effects_view(old(out)@).push(apply_op(old(slot)@.chat.transcript, ui@))
        } else {
            effect::effects_view(old(out)@)
        }),
{
    proof {
        reveal(slot_view);
    }
    let told = fold_modes(slot, &ui);
    match &ui {
        UiEvent::SessionStatus { running, .. } => {
            if slot.run.running && !*running {
                slot.run.completed_unseen = true;
            }
            slot.run.running = *running;
            if !*running {
                slot.run.pending = false;
            }
        },
        UiEvent::TurnStart { .. } => {
            slot.agents.next_starts_batch = true;
            slot.run.running = true;
        },
        UiEvent::TurnEnd { .. } => {
            if slot.run.running {
                slot.run.completed_unseen = true;
            }
            slot.run.pending = false;
        },
        _ => {},
    }
    if told {
        effect::emit(out, Effect::Transcript { id: slot.chat.transcript, op: TranscriptOp::Apply(ui) });
    }
}

pub open spec fn slots_view(v: Seq<SessionSlot>) -> Seq<SlotV> {
    v.map_values(|s: SessionSlot| s@)
}

/// The sessions with this id.
pub open spec fn with_id(id: Seq<char>) -> spec_fn(SlotV) -> bool {
    |s: SlotV| s.id == id
}

/// The subagents with this id.
pub open spec fn view_named(id: Seq<char>) -> spec_fn(ViewV) -> bool {
    |v: ViewV| v.id == id
}

/// Whether a session has a subagent with this id.
pub open spec fn has_view(s: SlotV, id: Seq<char>) -> bool {
    seqs::some(s.agents.views, view_named(id))
}

/// The sessions that are this one or have it as a subagent.
pub open spec fn owner_of(id: Seq<char>) -> spec_fn(SlotV) -> bool {
    |s: SlotV| s.id == id || has_view(s, id)
}

/// The sessions that have this subagent.
pub open spec fn parent_of(id: Seq<char>) -> spec_fn(SlotV) -> bool {
    |s: SlotV| has_view(s, id)
}

pub fn find_slot(v: &Vec<SessionSlot>, id: &str) -> (r: usize)
    ensures
        r == seqs::first_index(slots_view(v@), with_id(id@)),
        r <= v@.len(),
{
    proof {
        reveal(slot_view);
    }
    let ghost all = slots_view(v@);
    let mut i: usize = 0;
    while i < v.len() && !text::same(v[i].id.as_str(), id)
        invariant
            i <= v@.len(),
            all == slots_view(v@),
            forall|k: int| 0 <= k < i ==> !with_id(id@)(#[trigger] all[k]),
        decreases v@.len() - i,
    {
        proof {
            reveal(slot_view);
        }
        assert(all[i as int] == v@[i as int]@);
        i = i + 1;
    }
    proof {
        seqs::lemma_first_index_is(all, with_id(id@), i as int);
    }
    i
}

pub fn find_view(v: &Vec<SubagentView>, id: &str) -> (r: usize)
    ensures
        r == seqs::first_index(subagents_view(v@), view_named(id@)),
        r <= v@.len(),
{
    let ghost all = subagents_view(v@);
    let mut i: usize = 0;
    while i < v.len() && !text::same(v[i].id.as_str(), id)
        invariant
            i <= v@.len(),
            all == subagents_view(v@),
            forall|k: int| 0 <= k < i ==> !view_named(id@)(#[trigger] all[k]),
        decreases v@.len() - i,
    {
        assert(all[i as int] == v@[i as int]@);
        i = i + 1;
    }
    proof {
        seqs::lemma_first_index_is(all, view_named(id@), i as int);
    }
    i
}

pub fn knows_view(v: &Vec<SubagentView>, id: &str) -> (r: bool)
    ensures
        r == seqs::some(subagents_view(v@), view_named(id@)),
{
    find_view(v, id) < v.len()
}

pub fn find_owner(v: &Vec<SessionSlot>, id: &str) -> (r: usize)
    ensures
        r == seqs::first_index(slots_view(v@), owner_of(id@)),
        r <= v@.len(),
{
    proof {
        reveal(slot_view);
    }
    let ghost all = slots_view(v@);
    let mut i: usize = 0;
    while i < v.len() && !(text::same(v[i].id.as_str(), id) || knows_view(&v[i].agents.views, id))
        invariant
            i <= v@.len(),
            all == slots_view(v@),
            forall|k: int| 0 <= k < i ==> !owner_of(id@)(#[trigger] all[k]),
        decreases v@.len() - i,
    {
        proof {
            reveal(slot_view);
        }
        assert(all[i as int] == v@[i as int]@);
        i = i + 1;
    }
    proof {
        seqs::lemma_first_index_is(all, owner_of(id@), i as int);
    }
    i
}

pub fn find_parent(v: &Vec<SessionSlot>, id: &str) -> (r: usize)
    ensures
        r == seqs::first_index(slots_view(v@), parent_of(id@)),
        r <= v@.len(),
{
    proof {
        reveal(slot_view);
    }
    let ghost all = slots_view(v@);
    let mut i: usize = 0;
    while i < v.len() && !knows_view(&v[i].agents.views, id)
        invariant
            i <= v@.len(),
            all == slots_view(v@),
            forall|k: int| 0 <= k < i ==> !parent_of(id@)(#[trigger] all[k]),
        decreases v@.len() - i,
    {
        proof {
            reveal(slot_view);
        }
        assert(all[i as int] == v@[i as int]@);
        i = i + 1;
    }
    proof {
        seqs::lemma_first_index_is(all, parent_of(id@), i as int);
    }
    i
}

/// A set of texts with one more in it.
pub open spec fn with_member(set: Seq<Seq<char>>, id: Seq<char>) -> Seq<Seq<char>> {
    if set.contains(id) {
        set
    } else {
        set.push(id)
    }
}

pub fn has_member(set: &Vec<String>, id: &str) -> (r: bool)
    ensures
        r == text::views(set@).contains(id@),
{
    let ghost all = text::views(set@);
    let mut i: usize = 0;
    while i < set.len()
        invariant
            i <= set@.len(),
            all == text::views(set@),
            forall|k: int| 0 <= k < i ==> #[trigger] all[k] != id@,
        decreases set@.len() - i,
    {
        assert(all[i as int] == set@[i as int]@);
        if text::same(set[i].as_str(), id) {
            return true;
        }
        i = i + 1;
    }
    false
}

fn add_member(set: &mut Vec<String>, id: &str)
    ensures
        text::views(final(set)@) == with_member(text::views(old(set)@), id@),
{
    if !has_member(set, id) {
        set.push(id.to_owned());
        assert(text::views(set@) =~= text::views(old(set)@).push(id@));
    }
}

/// The name under which the next subagent is shown.
pub open spec fn subagent_label(locale: Locale, known: nat) -> Seq<char> {
    effect::spoken(locale, "subagent "@, "子代理 "@) + text::decimal(known + 1)
}

/// A started subagent in the list: one that is known runs again, another is
/// added with the transcript `transcript`.
pub open spec fn with_started_view(
    views: Seq<ViewV>,
    parent: Seq<char>,
    child: Seq<char>,
    locale: Locale,
    transcript: u64,
) -> Seq<ViewV> {
    let at = seqs::first_index(views, view_named(child));
    if at < views.len() {
        views.update(at, SubagentView { running: true, failed: false, ..views[at] })
    } else {
        views.push(
            SubagentView {
                id: child,
                parent,
                label: subagent_label(locale, views.len()),
                running: true,
                failed: false,
                transcript,
            },
        )
    }
}

pub open spec fn open_op(transcript: u64, session: Seq<char>, locale: Locale) -> EffectV {
    Effect::Transcript { id: transcript, op: TranscriptOp::Open { session, locale } }
}

pub open spec fn opens_view(views: Seq<ViewV>, child: Seq<char>) -> bool {
    !seqs::some(views, view_named(child))
}

pub open spec fn started_effects(
    views: Seq<ViewV>,
    child: Seq<char>,
    locale: Locale,
    transcript: u64,
) -> Seq<EffectV> {
    if opens_view(views, child) {
        seq![open_op(transcript, child, locale)]
    } else {
        Seq::empty()
    }
}

/// Registers a started subagent or revives a known one; says whether the
/// transcript number was used.
pub fn upsert_subagent_view(
    views: &mut Vec<SubagentView>,
    parent: &str,
    child: &str,
    locale: Locale,
    transcript: u64,
    out: &mut Vec<Effect>,
) -> (r: bool)
    ensures
        subagents_view(final(views)@) == with_started_view(
            subagents_view(old(views)@),
            parent@,
            child@,
            locale,
            transcript,
        ),
        r == opens_view(subagents_view(old(views)@), child@),
        effect::effects_view(final(out)@) == effect::effects_view(old(out)@) + started_effects(
            subagents_view(old(views)@),
            child@,
            locale,
            transcript,
        ),
{
    let ghost before = subagents_view(views@);
    let ghost sent = effect::effects_view(out@);
    let at = find_view(views, child);
    if at < views.len() {
        views[at].running = true;
        views[at].failed = false;
        assert(subagents_view(views@) =~= before.update(
            at as int,
            SubagentView { running: true, failed: false, ..before[at as int] },
        ));
        assert(effect::effects_view(out@) =~= sent + Seq::<EffectV>::empty());
        false
    } else {
        let n = text::ordinal_string(views.len());
        let label = text::concat2(effect::tr(locale, "subagent ", "子代理 "), n.as_str());
        views.push(
            SubagentView {
                id: child.to_owned(),
                parent: parent.to_owned(),
                label,
                running: true,
                failed: false,
                transcript,
            },
        );
        assert(subagents_view(views@) =~= with_started_view(
            before,
            parent@,
            child@,
            locale,
            transcript,
        ));
        effect::emit(
            out,
            Effect::Transcript {
                id: transcript,
                op: TranscriptOp::Open { session: child.to_owned(), locale },
            },
        );
        assert(effect::effects_view(out@) =~= sent + seq![open_op(transcript, child@, locale)]);
        true
    }
}

/// The subagents of a session after one has started. The first one of a turn
/// begins a new batch.
pub open spec fn agents_started(
    a: AgentsV,
    parent: Seq<char>,
    child: Seq<char>,
    locale: Locale,
    transcript: u64,
) -> AgentsV {
    AgentsV {
        views: with_started_view(a.views, parent, child, locale, transcript),
        current: with_member(
            if a.next_starts_batch {
                Seq::empty()
            } else {
                a.current
            },
            child,
        ),
        next_starts_batch: false,
        ..a
    }
}

pub fn start_subagent(
    agents: &mut Agents,
    parent: &str,
    child: &str,
    locale: Locale,
    transcript: u64,
    out: &mut Vec<Effect>,
) -> (r: bool)
    ensures
        final(agents)@ == agents_started(old(agents)@, parent@, child@, locale, transcript),
        r == opens_view(old(agents)@.views, child@),
        effect::effects_view(final(out)@) == effect::effects_view(old(out)@) + started_effects(
            old(agents)@.views,
            child@,
            locale,
            transcript,
        ),
{
    if agents.next_starts_batch {
        agents.current = Vec::new();
        agents.next_starts_batch = false;
        assert(agents@.current =~= Seq::<Seq<char>>::empty());
    }
    add_member(&mut agents.current, child);
    upsert_subagent_view(&mut agents.views, parent, child, locale, transcript, out)
}

/// A subagent that has ended, well or not.
pub open spec fn with_finished_view(views: Seq<ViewV>, child: Seq<char>, failed: bool) -> Seq<ViewV> {
    let at = seqs::first_index(views, view_named(child));
    if at < views.len() {
        views.update(at, SubagentView { running: false, failed, ..views[at] })
    } else {
        views
    }
}

/// The subagents that still run or have failed.
pub open spec fn unsettled() -> spec_fn(ViewV) -> bool {
    |v: ViewV| v.running || v.failed
}

/// The subagents of a session after one has ended. The navigation closes once
/// nothing runs and nothing has failed.
pub open spec fn agents_finished(a: AgentsV, child: Seq<char>, failed: bool) -> AgentsV {
    let views = with_finished_view(a.views, child, failed);
    AgentsV {
        views,
        selection: if seqs::some(views, unsettled()) {
            a.selection
        } else {
            None
        },
        ..a
    }
}

fn any_unsettled(v: &Vec<SubagentView>) -> (r: bool)
    ensures
        r == seqs::some(subagents_view(v@), unsettled()),
{
    let ghost all = subagents_view(v@);
    let mut i: usize = 0;
    while i < v.len() && !(v[i].running || v[i].failed)
        invariant
            i <= v@.len(),
            all == subagents_view(v@),
            forall|k: int| 0 <= k < i ==> !unsettled()(#[trigger] all[k]),
        decreases v@.len() - i,
    {
        assert(all[i as int] == v@[i as int]@);
        i = i + 1;
    }
    proof {
        seqs::lemma_first_index_is(all, unsettled(), i as int);
    }
    i < v.len()
}

/// Ends a known subagent and gives the id of its parent.
pub fn finish_subagent(agents: &mut Agents, child: &str, failed: bool) -> (r: Option<String>)
    ensures
        final(agents)@ == agents_finished(old(agents)@, child@, failed),
        text::opt_view(r) == (match seqs::first(old(agents)@.views, view_named(child@)) {
            Some(v) => Some(v.parent),
            None => None,
        }),
{
    let ghost before = agents@.views;
    let at = find_view(&agents.views, child);
    let mut parent: Option<String> = None;
    if at < agents.views.len() {
        agents.views[at].running = false;
        agents.views[at].failed = failed;
        parent = Some(agents.views[at].parent.clone());
    }
    assert(agents@.views =~= with_finished_view(before, child@, failed));
    if !any_unsettled(&agents.views) {
        agents.selection = None;
    }
    parent
}

/// Where events of a session or of one of its subagents are written.
pub open spec fn transcript_of(s: SlotV, id: Seq<char>) -> Option<u64> {
    if s.id == id {
        Some(s.chat.transcript)
    } else {
        match seqs::first(s.agents.views, view_named(id)) {
            Some(v) => Some(v.transcript),
            None => None,
        }
    }
}

pub fn find_transcript(s: &SessionSlot, id: &str) -> (r: Option<u64>)
    ensures
        r == transcript_of(s@, id@),
{
    proof {
        reveal(slot_view);
    }
    if text::same(s.id.as_str(), id) {
        return Some(s.chat.transcript);
    }
    let at = find_view(&s.agents.views, id);
    if at < s.agents.views.len() {
        assert(s@.agents.views[at as int] == s.agents.views@[at as int]@);
        Some(s.agents.views[at].transcript)
    } else {
        None
    }
}

} // verus!
