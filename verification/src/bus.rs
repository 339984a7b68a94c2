//! The values that travel between the screen state, the agent connection and
//! the terminal.
//!
//! Types that hold text take the type of the text as a parameter: `String` in
//! running code, `Seq<char>` in contracts.

use crate::effect::NoticeLevel;
use crate::events::UiEvent;
use crate::input::TermEvent;
use crate::json::{Json, JsonValue};
use crate::text;
use vstd::prelude::*;

verus! {

/// One option of a permission request.
#[derive(Debug, Clone, PartialEq, Eq)]
pub struct PermissionAskOption<S = String> {
    pub option_id: S,
    pub kind: S,
    pub name: S,
}

impl View for PermissionAskOption {
    type V = PermissionAskOption<Seq<char>>;

    open spec fn view(&self) -> Self::V {
        PermissionAskOption {
            option_id: self.option_id@,
            kind: self.kind@,
            name: self.name@,
        }
    }
}

/// What the user decided on a permission request.
#[derive(Debug, Clone, PartialEq, Eq)]
pub enum PermissionAskReply<S = String> {
    Selected(S),
    Cancelled,
}

impl View for PermissionAskReply {
    type V = PermissionAskReply<Seq<char>>;

    open spec fn view(&self) -> Self::V {
        match *self {
            PermissionAskReply::Selected(id) => PermissionAskReply::Selected(id@),
            PermissionAskReply::Cancelled => PermissionAskReply::Cancelled,
        }
    }
}

/// With no options nothing can be selected: such a request is cancelled rather
/// than granted.
pub fn permission_ask_empty_outcome(options: &[PermissionAskOption]) -> (r: Option<
    PermissionAskReply,
>)
    ensures
        r == (if options@.len() == 0 {
            Some(PermissionAskReply::<String>::Cancelled)
        } else {
            None
        }),
{
    if options.len() == 0 {
        Some(PermissionAskReply::Cancelled)
    } else {
        None
    }
}

/// Whether this option grants the request once.
pub open spec fn allows_once(o: PermissionAskOption) -> bool {
    o.kind@ == "allow_once"@
}

/// The option highlighted first: the first that allows once, otherwise the
/// first row.
pub fn permission_ask_default_sel(options: &[PermissionAskOption]) -> (r: usize)
    ensures
        (exists|i: int| 0 <= i < options@.len() && allows_once(#[trigger] options@[i])) ==> {
            &&& r < options@.len()
            &&& allows_once(options@[r as int])
            &&& forall|i: int| 0 <= i < r ==> !allows_once(#[trigger] options@[i])
        },
        !(exists|i: int| 0 <= i < options@.len() && allows_once(#[trigger] options@[i])) ==> r == 0,
        options@.len() > 0 ==> r < options@.len(),
{
    let mut i: usize = 0;
    while i < options.len()
        invariant
            i <= options@.len(),
            forall|k: int| 0 <= k < i ==> !allows_once(#[trigger] options@[k]),
        decreases options@.len() - i,
    {
        if text::same(options[i].kind.as_str(), "allow_once") {
            assert(allows_once(options@[i as int]));
            return i;
        }
        i = i + 1;
    }
    0
}

/// One row of the agent's session list.
#[derive(Debug, Clone, PartialEq, Eq)]
pub struct SessionListItem<S = String> {
    pub id: S,
    pub title: Option<S>,
    pub updated_at: Option<S>,
}

impl View for SessionListItem {
    type V = SessionListItem<Seq<char>>;

    open spec fn view(&self) -> Self::V {
        SessionListItem {
            id: self.id@,
            title: text::opt_view(self.title),
            updated_at: text::opt_view(self.updated_at),
        }
    }
}

/// One configured plugin entry of the host.
#[derive(Debug, Clone, PartialEq, Eq)]
pub struct StaticPluginItem<S = String> {
    pub entry_id: S,
    pub module_name: S,
    pub enabled: bool,
    pub fiber_phase: Option<S>,
}

impl View for StaticPluginItem {
    type V = StaticPluginItem<Seq<char>>;

    open spec fn view(&self) -> Self::V {
        StaticPluginItem {
            entry_id: self.entry_id@,
            module_name: self.module_name@,
            enabled: self.enabled,
            fiber_phase: text::opt_view(self.fiber_phase),
        }
    }
}

/// One dynamic plugin owned by the backend.
#[derive(Debug, Clone, PartialEq, Eq)]
pub struct CordisPluginItem<S = String> {
    pub id: S,
    pub name: S,
    pub package_id: S,
    pub status: S,
    pub approval_request_id: Option<S>,
}

impl View for CordisPluginItem {
    type V = CordisPluginItem<Seq<char>>;

    open spec fn view(&self) -> Self::V {
        CordisPluginItem {
            id: self.id@,
            name: self.name@,
            package_id: self.package_id@,
            status: self.status@,
            approval_request_id: text::opt_view(self.approval_request_id),
        }
    }
}

/// One dynamic plugin activation that waits for the user.
#[derive(Debug, Clone, PartialEq, Eq)]
pub struct PendingCordisApproval<S = String> {
    pub request_id: S,
    pub agent_id: S,
    pub plugin_id: S,
    pub package_id: S,
    pub mode: S,
    pub name: S,
    pub purpose: S,
}

impl View for PendingCordisApproval {
    type V = PendingCordisApproval<Seq<char>>;

    open spec fn view(&self) -> Self::V {
        PendingCordisApproval {
            request_id: self.request_id@,
            agent_id: self.agent_id@,
            plugin_id: self.plugin_id@,
            package_id: self.package_id@,
            mode: self.mode@,
            name: self.name@,
            purpose: self.purpose@,
        }
    }
}

/// One user interface plugin of the client registry.
#[derive(Debug, Clone, PartialEq, Eq)]
pub struct UiPluginItem<S = String> {
    pub id: S,
    pub label: S,
    pub source: S,
    pub status: S,
}

impl View for UiPluginItem {
    type V = UiPluginItem<Seq<char>>;

    open spec fn view(&self) -> Self::V {
        UiPluginItem {
            id: self.id@,
            label: self.label@,
            source: self.source@,
            status: self.status@,
        }
    }
}

#[derive(Debug, Clone, PartialEq, Eq)]
pub struct CatalogModel<S = String> {
    pub provider: S,
    pub id: S,
    pub name: S,
    pub vision: bool,
}

impl View for CatalogModel {
    type V = CatalogModel<Seq<char>>;

    open spec fn view(&self) -> Self::V {
        CatalogModel {
            provider: self.provider@,
            id: self.id@,
            name: self.name@,
            vision: self.vision,
        }
    }
}

/// One choice of a composition select or one session mode.
#[derive(Debug, Clone, PartialEq, Eq)]
pub struct CatalogPreset<S = String> {
    pub id: S,
    pub name: S,
    pub description: S,
    pub broken: bool,
}

impl View for CatalogPreset {
    type V = CatalogPreset<Seq<char>>;

    open spec fn view(&self) -> Self::V {
        CatalogPreset {
            id: self.id@,
            name: self.name@,
            description: self.description@,
            broken: self.broken,
        }
    }
}

/// A command that stands for setting one configuration option.
#[derive(Debug, Clone, PartialEq, Eq)]
pub struct CommandConfigAction<S = String> {
    pub config_id: S,
    pub value: S,
    pub reset_value: Option<S>,
}

impl View for CommandConfigAction {
    type V = CommandConfigAction<Seq<char>>;

    open spec fn view(&self) -> Self::V {
        CommandConfigAction {
            config_id: self.config_id@,
            value: self.value@,
            reset_value: text::opt_view(self.reset_value),
        }
    }
}

/// One command that the agent offers to the user.
#[derive(Debug, Clone, PartialEq, Eq)]
pub struct SkillInfo<S = String> {
    pub name: S,
    pub description: S,
    pub input_hint: Option<S>,
    pub config_action: Option<CommandConfigAction<S>>,
    pub client_command: bool,
}

pub open spec fn opt_action_view(a: Option<CommandConfigAction>) -> Option<
    CommandConfigAction<Seq<char>>,
> {
    match a {
        Some(a) => Some(a@),
        None => None,
    }
}

impl View for SkillInfo {
    type V = SkillInfo<Seq<char>>;

    open spec fn view(&self) -> Self::V {
        SkillInfo {
            name: self.name@,
            description: self.description@,
            input_hint: text::opt_view(self.input_hint),
            config_action: opt_action_view(self.config_action),
            client_command: self.client_command,
        }
    }
}

/// One image of a prompt, in base64.
#[derive(Debug, Clone, PartialEq, Eq)]
pub struct ImagePart<S = String> {
    pub data: S,
    pub media_type: S,
    pub name: S,
    /// The local path, or `clipboard`.
    pub path: S,
}

impl View for ImagePart {
    type V = ImagePart<Seq<char>>;

    open spec fn view(&self) -> Self::V {
        ImagePart {
            data: self.data@,
            media_type: self.media_type@,
            name: self.name@,
            path: self.path@,
        }
    }
}

/// One content block of a prompt, in draft order.
#[derive(Debug, Clone, PartialEq, Eq)]
pub enum PromptBlock<S = String> {
    Text(S),
    Image(ImagePart<S>),
}

impl View for PromptBlock {
    type V = PromptBlock<Seq<char>>;

    open spec fn view(&self) -> Self::V {
        match *self {
            PromptBlock::Text(t) => PromptBlock::Text(t@),
            PromptBlock::Image(i) => PromptBlock::Image(i@),
        }
    }
}

/// A palette that a theme plugin registered. Its colours live with the
/// painter, which finds them by `colors`.
#[derive(Debug, Clone, PartialEq, Eq)]
pub struct PalettePack<S = String> {
    pub id: S,
    pub label: S,
    pub source: S,
    pub loaded: bool,
    pub colors: u64,
    /// The picture behind the chat, where it has one.
    pub background: Option<u64>,
}

impl View for PalettePack {
    type V = PalettePack<Seq<char>>;

    open spec fn view(&self) -> Self::V {
        PalettePack {
            id: self.id@,
            label: self.label@,
            source: self.source@,
            loaded: self.loaded,
            colors: self.colors,
            background: self.background,
        }
    }
}

/// A palette that has just been registered, and whether it is to be shown.
#[derive(Debug, Clone, PartialEq, Eq)]
pub struct PaletteNotice<S = String> {
    pub pack: PalettePack<S>,
    pub activate: bool,
}

/// The id of a request of the protocol.
#[derive(Debug, Clone, PartialEq, Eq)]
pub enum RequestId<S = String> {
    Null,
    Number(i64),
    Str(S),
}

impl View for RequestId {
    type V = RequestId<Seq<char>>;

    open spec fn view(&self) -> Self::V {
        match *self {
            RequestId::Null => RequestId::Null,
            RequestId::Number(n) => RequestId::Number(n),
            RequestId::Str(s) => RequestId::Str(s@),
        }
    }
}

impl RequestId {
    /// Whether two ids are the same.
    pub fn same(&self, other: &RequestId) -> (r: bool)
        ensures
            r == (self@ == other@),
    {
        match (self, other) {
            (RequestId::Null, RequestId::Null) => true,
            (RequestId::Number(a), RequestId::Number(b)) => *a == *b,
            (RequestId::Str(a), RequestId::Str(b)) => text::same(a.as_str(), b.as_str()),
            _ => false,
        }
    }
}

/// The id of requests that the client makes of itself: no peer can cancel
/// them, and the counters of real requests start above it.
pub fn local_ask_id() -> (r: RequestId)
    ensures
        r == RequestId::<String>::Number(0),
{
    RequestId::Number(0)
}

#[derive(Debug, Clone, Copy, PartialEq, Eq, Structural)]
pub enum AuthStatus {
    /// Nothing is known of the credentials.
    Unknown,
    NeedsAuth,
    SigningIn,
    Configured,
    Failed,
}

/// One way to sign in that an agent offers.
#[derive(Debug, PartialEq, Eq)]
pub struct AuthMethod {
    pub id: String,
    pub name: Option<String>,
    pub description: Option<String>,
    pub kind_name: String,
    /// The names of the credential variables it takes.
    pub vars: Vec<String>,
    /// It can only be set up through such variables.
    pub env_prompt: bool,
    /// It takes values that the user types.
    pub form: bool,
    /// The number of the terminal program that signs in, where there is one.
    pub launch: Option<u64>,
}

#[verifier::ext_equal]
pub ghost struct AuthMethodV {
    pub id: Seq<char>,
    pub name: Option<Seq<char>>,
    pub description: Option<Seq<char>>,
    pub kind_name: Seq<char>,
    pub vars: Seq<Seq<char>>,
    pub env_prompt: bool,
    pub form: bool,
    pub launch: Option<u64>,
}

impl View for AuthMethod {
    type V = AuthMethodV;

    open spec fn view(&self) -> AuthMethodV {
        AuthMethodV {
            id: self.id@,
            name: text::opt_view(self.name),
            description: text::opt_view(self.description),
            kind_name: self.kind_name@,
            vars: text::views(self.vars@),
            env_prompt: self.env_prompt,
            form: self.form,
            launch: self.launch,
        }
    }
}

/// What is known of the sign-in state of a connection.
#[derive(Debug, PartialEq, Eq)]
pub struct AuthSnapshot {
    pub status: AuthStatus,
    pub method_id: Option<String>,
    pub method_name: Option<String>,
    pub message: Option<String>,
    pub methods: Vec<AuthMethod>,
}

#[verifier::ext_equal]
pub ghost struct AuthV {
    pub status: AuthStatus,
    pub method_id: Option<Seq<char>>,
    pub method_name: Option<Seq<char>>,
    pub message: Option<Seq<char>>,
    pub methods: Seq<AuthMethodV>,
}

impl View for AuthSnapshot {
    type V = AuthV;

    open spec fn view(&self) -> AuthV {
        AuthV {
            status: self.status,
            method_id: text::opt_view(self.method_id),
            method_name: text::opt_view(self.method_name),
            message: text::opt_view(self.message),
            methods: self.methods@.map_values(|m: AuthMethod| m@),
        }
    }
}

pub open spec fn no_auth() -> AuthV {
    AuthV {
        status: AuthStatus::Unknown,
        method_id: None,
        method_name: None,
        message: None,
        methods: Seq::empty(),
    }
}

impl AuthSnapshot {
    pub fn none() -> (r: AuthSnapshot)
        ensures
            r@ == no_auth(),
    {
        let r = AuthSnapshot {
            status: AuthStatus::Unknown,
            method_id: None,
            method_name: None,
            message: None,
            methods: Vec::new(),
        };
        assert(r@ =~= no_auth());
        r
    }
}

/// The facts negotiated with the agent that owns a session.
#[derive(Debug, PartialEq, Eq)]
pub struct SessionConnection {
    pub server: Option<String>,
    pub auth: AuthSnapshot,
    pub load_session: bool,
    pub list_session: bool,
    pub resume_session: bool,
}

#[verifier::ext_equal]
pub ghost struct ConnectionV {
    pub server: Option<Seq<char>>,
    pub auth: AuthV,
    pub load_session: bool,
    pub list_session: bool,
    pub resume_session: bool,
}

impl View for SessionConnection {
    type V = ConnectionV;

    open spec fn view(&self) -> ConnectionV {
        ConnectionV {
            server: text::opt_view(self.server),
            auth: self.auth@,
            load_session: self.load_session,
            list_session: self.list_session,
            resume_session: self.resume_session,
        }
    }
}

pub open spec fn no_connection() -> ConnectionV {
    ConnectionV {
        server: None,
        auth: no_auth(),
        load_session: false,
        list_session: false,
        resume_session: false,
    }
}

impl SessionConnection {
    pub fn none() -> (r: SessionConnection)
        ensures
            r@ == no_connection(),
    {
        SessionConnection {
            server: None,
            auth: AuthSnapshot::none(),
            load_session: false,
            list_session: false,
            resume_session: false,
        }
    }
}

/// One prompt of the queue as a compositor sees it.
#[derive(Debug, Clone, PartialEq, Eq)]
pub struct QueueSnapshotItem<S = String> {
    pub id: u64,
    pub ordinal: usize,
    pub summary: S,
}

impl View for QueueSnapshotItem {
    type V = QueueSnapshotItem<Seq<char>>;

    open spec fn view(&self) -> Self::V {
        QueueSnapshotItem { id: self.id, ordinal: self.ordinal, summary: self.summary@ }
    }
}

/// The queue as a compositor sees it.
#[derive(Debug, PartialEq, Eq)]
pub struct QueueSnapshot<L = Vec<QueueSnapshotItem>> {
    pub count: usize,
    pub items: L,
    pub selected_id: Option<u64>,
    pub editing_id: Option<u64>,
    pub delete_confirm: bool,
}

pub type QueueSnapshotV = QueueSnapshot<Seq<QueueSnapshotItem<Seq<char>>>>;

impl View for QueueSnapshot {
    type V = QueueSnapshotV;

    open spec fn view(&self) -> Self::V {
        QueueSnapshot {
            count: self.count,
            items: self.items@.map_values(|i: QueueSnapshotItem| i@),
            selected_id: self.selected_id,
            editing_id: self.editing_id,
            delete_confirm: self.delete_confirm,
        }
    }
}

#[derive(Debug, Clone, PartialEq, Eq)]
pub struct AgentsSnapshotItem<S = String> {
    pub id: S,
    pub label: S,
    pub kind: S,
    pub status: S,
    pub current: bool,
}

impl View for AgentsSnapshotItem {
    type V = AgentsSnapshotItem<Seq<char>>;

    open spec fn view(&self) -> Self::V {
        AgentsSnapshotItem {
            id: self.id@,
            label: self.label@,
            kind: self.kind@,
            status: self.status@,
            current: self.current,
        }
    }
}

/// The agent transcripts one can navigate to.
#[derive(Debug, PartialEq, Eq)]
pub struct AgentsSnapshot<S = String, L = Vec<AgentsSnapshotItem>> {
    pub active_id: S,
    pub selected_id: Option<S>,
    pub items: L,
}

pub type AgentsSnapshotV = AgentsSnapshot<Seq<char>, Seq<AgentsSnapshotItem<Seq<char>>>>;

impl View for AgentsSnapshot {
    type V = AgentsSnapshotV;

    open spec fn view(&self) -> Self::V {
        AgentsSnapshot {
            active_id: self.active_id@,
            selected_id: text::opt_view(self.selected_id),
            items: self.items@.map_values(|i: AgentsSnapshotItem| i@),
        }
    }
}

pub open spec fn blocks_view(v: Seq<PromptBlock>) -> Seq<PromptBlock<Seq<char>>> {
    v.map_values(|b: PromptBlock| b@)
}

pub open spec fn pairs_view(v: Seq<(String, String)>) -> Seq<(Seq<char>, Seq<char>)> {
    v.map_values(|p: (String, String)| (p.0@, p.1@))
}

pub open spec fn opt_value_view(v: Option<JsonValue>) -> Option<Json> {
    match v {
        Some(v) => Some(v@),
        None => None,
    }
}

/// What the screen asks of the agent connection.
#[derive(Debug, PartialEq)]
pub enum Cmd<
    S = String,
    B = Vec<PromptBlock>,
    Q = QueueSnapshot,
    A = AgentsSnapshot,
    V = JsonValue,
    M = Vec<(String, String)>,
> {
    /// Starts a turn.
    Prompt { session_id: S, text: S },
    /// Sends another prompt while a turn is active.
    Steer { session_id: S, message_id: u64, text: S },
    /// A prompt whose texts and images stay in draft order.
    PromptImages { session_id: S, blocks: B },
    SteerImages { session_id: S, message_id: u64, blocks: B },
    Interrupt { session_id: S },
    SelectModel { session_id: S, provider: Option<S>, model: Option<S>, effort: Option<S> },
    FetchCatalog { session_id: S },
    FetchSkills { session_id: S },
    FetchStaticPlugins,
    FetchCordisPlugins { agent_id: S },
    SetCordisPluginEnabled { agent_id: S, plugin_id: S, enabled: bool },
    RespondCordisApproval { request_id: S, decision: S },
    /// A plugin command, which never enters the session.
    InvokePluginCommand { name: S, args: S },
    QueueSnapshot { snapshot: Q },
    AgentsSnapshot { snapshot: A },
    /// The tab in view; nothing while it awaits its session.
    ActiveSession { session_id: Option<S> },
    PluginThemeSelected { agent_id: S, id: S },
    PluginUiSelected { agent_id: S, id: S },
    PluginOverlayEvent { id: S, event: S, value: Option<V> },
    FetchEfforts { session_id: S, provider: S, model: S },
    SetPermission { session_id: S, preset: S },
    SetPreset { session_id: S, preset: S },
    SetConfigOption { session_id: S, config_id: S, value: S },
    Authenticate { method_id: S, values: M },
    NewSession { requester: Option<S>, retry_auth: Option<S> },
    ListSessions { requester_session_id: S, prefix: Option<S>, limit: usize },
    ResumeSession { session_id: S },
    /// The client stops viewing a session; its queued prompts are dropped.
    ForgetSession { session_id: S },
    Shutdown,
}

/// A command as contracts see it.
pub type CmdV = Cmd<
    Seq<char>,
    Seq<PromptBlock<Seq<char>>>,
    QueueSnapshotV,
    AgentsSnapshotV,
    Json,
    Seq<(Seq<char>, Seq<char>)>,
>;

impl View for Cmd {
    type V = CmdV;

    open spec fn view(&self) -> CmdV {
        match *self {
            Cmd::Prompt { session_id, text } => Cmd::Prompt {
                session_id: session_id@,
                text: text@,
            },
            Cmd::Steer { session_id, message_id, text } => Cmd::Steer {
                session_id: session_id@,
                message_id,
                text: text@,
            },
            Cmd::PromptImages { session_id, blocks } => Cmd::PromptImages {
                session_id: session_id@,
                blocks: blocks_view(blocks@),
            },
            Cmd::SteerImages { session_id, message_id, blocks } => Cmd::SteerImages {
                session_id: session_id@,
                message_id,
                blocks: blocks_view(blocks@),
            },
            Cmd::Interrupt { session_id } => Cmd::Interrupt {
                session_id: session_id@,
            },
            Cmd::SelectModel { session_id, provider, model, effort } => Cmd::SelectModel {
                session_id: session_id@,
                provider: text::opt_view(provider),
                model: text::opt_view(model),
                effort: text::opt_view(effort),
            },
            Cmd::FetchCatalog { session_id } => Cmd::FetchCatalog {
                session_id: session_id@,
            },
            Cmd::FetchSkills { session_id } => Cmd::FetchSkills {
                session_id: session_id@,
            },
            Cmd::FetchStaticPlugins => Cmd::FetchStaticPlugins,
            Cmd::FetchCordisPlugins { agent_id } => Cmd::FetchCordisPlugins {
                agent_id: agent_id@,
            },
            Cmd::SetCordisPluginEnabled { agent_id, plugin_id, enabled } => Cmd::SetCordisPluginEnabled {
                agent_id: agent_id@,
                plugin_id: plugin_id@,
                enabled,
            },
            Cmd::RespondCordisApproval { request_id, decision } => Cmd::RespondCordisApproval {
                request_id: request_id@,
                decision: decision@,
            },
            Cmd::InvokePluginCommand { name, args } => Cmd::InvokePluginCommand {
                name: name@,
                args: args@,
            },
            Cmd::QueueSnapshot { snapshot } => Cmd::QueueSnapshot {
                snapshot: snapshot@,
            },
            Cmd::AgentsSnapshot { snapshot } => Cmd::AgentsSnapshot {
                snapshot: snapshot@,
            },
            Cmd::ActiveSession { session_id } => Cmd::ActiveSession {
                session_id: text::opt_view(session_id),
            },
            Cmd::PluginThemeSelected { agent_id, id } => Cmd::PluginThemeSelected {
                agent_id: agent_id@,
                id: id@,
            },
            Cmd::PluginUiSelected { agent_id, id } => Cmd::PluginUiSelected {
                agent_id: agent_id@,
                id: id@,
            },
            Cmd::PluginOverlayEvent { id, event, value } => Cmd::PluginOverlayEvent {
                id: id@,
                event: event@,
                value: opt_value_view(value),
            },
            Cmd::FetchEfforts { session_id, provider, model } => Cmd::FetchEfforts {
                session_id: session_id@,
                provider: provider@,
                model: model@,
            },
            Cmd::SetPermission { session_id, preset } => Cmd::SetPermission {
                session_id: session_id@,
                preset: preset@,
            },
            Cmd::SetPreset { session_id, preset } => Cmd::SetPreset {
                session_id: session_id@,
                preset: preset@,
            },
            Cmd::SetConfigOption { session_id, config_id, value } => Cmd::SetConfigOption {
                session_id: session_id@,
                config_id: config_id@,
                value: value@,
            },
            Cmd::Authenticate { method_id, values } => Cmd::Authenticate {
                method_id: method_id@,
                values: pairs_view(values@),
            },
            Cmd::NewSession { requester, retry_auth } => Cmd::NewSession {
                requester: text::opt_view(requester),
                retry_auth: text::opt_view(retry_auth),
            },
            Cmd::ListSessions { requester_session_id, prefix, limit } => Cmd::ListSessions {
                requester_session_id: requester_session_id@,
                prefix: text::opt_view(prefix),
                limit,
            },
            Cmd::ResumeSession { session_id } => Cmd::ResumeSession {
                session_id: session_id@,
            },
            Cmd::ForgetSession { session_id } => Cmd::ForgetSession {
                session_id: session_id@,
            },
            Cmd::Shutdown => Cmd::Shutdown,
        }
    }
}

/// What the user is told of a change of the sign-in state.
#[derive(Debug, PartialEq, Eq)]
pub struct AuthNotice<S = String> {
    pub level: NoticeLevel,
    pub text: S,
}

pub open spec fn opt_notice_view(n: Option<AuthNotice>) -> Option<AuthNotice<Seq<char>>> {
    match n {
        Some(n) => Some(AuthNotice { level: n.level, text: n.text@ }),
        None => None,
    }
}

/// What the agent connection tells the screen.
#[derive(Debug, PartialEq, Eq)]
pub enum CtlEvent {
    /// A command of the client asks for a new tab, as `/new` does.
    NewSessionRequested,
    SessionBoundTo { previous_id: String, session_id: String, notice: Option<String> },
    BindFailedTo { previous_id: String, message: String },
    SessionConnection { session_id: String, connection: SessionConnection },
    Starting { runtime: String },
    Initialized { server: String },
    Ready { server: String },
    ConnectionFailed { target: String, error: String },
    /// A prompt was accepted. Without a session id it belongs to the viewed
    /// session.
    PromptQueued { message_id: String, session_id: Option<String> },
    /// A prompt sent into a running turn was taken up, or has to wait.
    SteerSettled { message_id: u64, deferred: bool },
    Error(String),
    CancelRequested { session_id: String },
    Interrupted { session_id: String },
    Catalog {
        session_id: Option<String>,
        models: Vec<CatalogModel>,
        presets: Vec<CatalogPreset>,
    },
    Skills { session_id: Option<String>, skills: Vec<SkillInfo> },
    StaticPlugins { plugins: Vec<StaticPluginItem> },
    CordisPlugins { plugins: Vec<CordisPluginItem> },
    SessionModes {
        session_id: Option<String>,
        modes: Vec<CatalogPreset>,
        current: Option<String>,
    },
    PresetSet { session_id: String, preset: String },
    Efforts { session_id: Option<String>, efforts: Vec<String>, default: Option<String> },
    /// An operation of the session failed; the active prompt goes on.
    SessionOpFailed { session_id: String, message: String },
    ModelSwitchFailed {
        session_id: String,
        model: Option<String>,
        effort: Option<String>,
        message: String,
    },
    SessionError { session_id: String, message: String },
    TuiOpDone(String),
    TuiOpFailed(String),
    /// The sign-in state of the viewed session, and what the user is told of
    /// it.
    Auth { snapshot: AuthSnapshot, notice: Option<AuthNotice> },
    SessionAuth {
        session_id: String,
        snapshot: AuthSnapshot,
        notice: Option<AuthNotice>,
        open: bool,
    },
    OpenAuth,
    AgentCaps { load_session: bool, list_session: bool, resume_session: bool },
    SessionBound { session_id: String, notice: Option<String> },
    BindFailed { message: String },
    SessionList {
        requester_session_id: String,
        sessions: Vec<SessionListItem>,
        prefix: Option<String>,
        limit: usize,
    },
    SessionListUnavailable {
        requester_session_id: String,
        prefix: Option<String>,
        limit: usize,
        error: String,
    },
}

/// Everything the main loop receives. Whoever waits for the reply to a request
/// is found again by the number `reply`.
#[derive(Debug, PartialEq)]
pub enum AppEvent {
    Terminate,
    Term(TermEvent),
    Ui(UiEvent),
    Rpc { method: String, params: JsonValue },
    RuntimeStderr(String),
    RuntimeExited(Option<i32>),
    Ctl(CtlEvent),
    PermissionAsk {
        session_id: String,
        request_id: RequestId,
        title: String,
        details: Option<String>,
        options: Vec<PermissionAskOption>,
        reply: u64,
    },
    ElicitationAsk { session_id: Option<String>, request_id: RequestId, form: u64, reply: u64 },
    AskCancelled { request_id: RequestId },
    ShellDone { id: u64, code: Option<i32>, output: String },
}

} // verus!
