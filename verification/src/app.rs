//! The state of the client and the small steps that everything else is made
//! of.

use crate::bus::{
    Cmd, CmdV, ConnectionV, CordisPluginItem, PalettePack, PendingCordisApproval,
    SessionConnection, SessionListItem, StaticPluginItem, UiPluginItem,
};
use crate::effect::{self, Effect, EffectV, Locale, NoticeLevel, OpV, TranscriptOp};
use crate::json::{Json, JsonValue};
use crate::picker::{Picker, PickerV};
use crate::screen::{ChatView, ChatViewV, InputSel, Rect, Selection};
use crate::select::{SelectOverlay, SelectV};
use crate::session::{
    self, AgentsV, Chat, ComposerV, DraftV, PopupsV, QueueV, Run, RunState, SessionSlot, SlotV,
    ViewOverlay,
};
use crate::text;
use crate::tree;
use vstd::prelude::*;

verus! {

/// Whether the screen is dark or light.
#[derive(Debug, Clone, Copy, PartialEq, Eq, Structural)]
pub enum Mode {
    Dark,
    Light,
}

pub open spec fn mode_name(m: Mode) -> Seq<char> {
    match m {
        Mode::Dark => "dark"@,
        Mode::Light => "light"@,
    }
}

/// Whether words of different scripts have the same colour or two.
#[derive(Debug, Clone, Copy, PartialEq, Eq, Structural)]
pub enum ToneMode {
    Single,
    Two,
}

pub open spec fn tone_name(t: ToneMode) -> Seq<char> {
    match t {
        ToneMode::Single => "single"@,
        ToneMode::Two => "two"@,
    }
}

impl ToneMode {
    pub fn as_str(&self) -> (r: &'static str)
        ensures
            r@ == tone_name(*self),
    {
        match self {
            ToneMode::Single => "single",
            ToneMode::Two => "two",
        }
    }
}

pub open spec fn other_mode(m: Mode) -> Mode {
    match m {
        Mode::Dark => Mode::Light,
        Mode::Light => Mode::Dark,
    }
}

impl Mode {
    pub fn as_str(&self) -> (r: &'static str)
        ensures
            r@ == mode_name(*self),
    {
        match self {
            Mode::Dark => "dark",
            Mode::Light => "light",
        }
    }

    pub fn toggled(self) -> (r: Mode)
        ensures
            r == other_mode(self),
    {
        match self {
            Mode::Dark => Mode::Light,
            Mode::Light => Mode::Dark,
        }
    }
}

/// A tab that waits for its session. A closed tab keeps its place in the row.
#[derive(Debug, PartialEq, Eq)]
pub struct AwaitingBind<S = String> {
    pub id: S,
    pub open: bool,
}

impl View for AwaitingBind {
    type V = AwaitingBind<Seq<char>>;

    open spec fn view(&self) -> Self::V {
        AwaitingBind { id: self.id@, open: self.open }
    }
}

pub open spec fn awaiting_view(v: Seq<AwaitingBind>) -> Seq<AwaitingBind<Seq<char>>> {
    v.map_values(|a: AwaitingBind| a@)
}

pub open spec fn palettes_view(v: Seq<PalettePack>) -> Seq<PalettePack<Seq<char>>> {
    v.map_values(|p: PalettePack| p@)
}

/// A command that a plugin has put on the screen.
#[derive(Debug, PartialEq, Eq)]
pub struct SlotAction<S = String> {
    pub rect: Rect,
    pub name: S,
    pub args: S,
}

impl View for SlotAction {
    type V = SlotAction<Seq<char>>;

    open spec fn view(&self) -> Self::V {
        SlotAction { rect: self.rect, name: self.name@, args: self.args@ }
    }
}

pub open spec fn actions_view(v: Seq<SlotAction>) -> Seq<SlotAction<Seq<char>>> {
    v.map_values(|a: SlotAction| a@)
}

/// A slider of a plugin: its id and where it stands. How it moves is known to
/// whoever draws it.
#[derive(Debug, PartialEq)]
pub struct SliderOverlay {
    pub id: String,
    pub value: JsonValue,
}

pub ghost struct SliderV {
    pub id: Seq<char>,
    pub value: Json,
}

impl View for SliderOverlay {
    type V = SliderV;

    open spec fn view(&self) -> SliderV {
        SliderV { id: self.id@, value: self.value@ }
    }
}

pub open spec fn opt_slider_view(s: Option<SliderOverlay>) -> Option<SliderV> {
    match s {
        Some(s) => Some(s@),
        None => None,
    }
}

pub open spec fn opt_picker_view(p: Option<Picker>) -> Option<PickerV> {
    match p {
        Some(p) => Some(p@),
        None => None,
    }
}

pub open spec fn opt_select_view(s: Option<SelectOverlay>) -> Option<SelectV> {
    match s {
        Some(s) => Some(s@),
        None => None,
    }
}

/// One argument that a plugin command takes.
#[derive(Debug, PartialEq, Eq)]
pub struct PluginCommandOption<S = String> {
    pub disabled: bool,
    pub value: S,
    pub label: Option<S>,
    pub description: Option<S>,
}

impl View for PluginCommandOption {
    type V = PluginCommandOption<Seq<char>>;

    open spec fn view(&self) -> Self::V {
        PluginCommandOption {
            disabled: self.disabled,
            value: self.value@,
            label: text::opt_view(self.label),
            description: text::opt_view(self.description),
        }
    }
}

pub open spec fn arguments_view(v: Seq<PluginCommandOption>) -> Seq<PluginCommandOption<Seq<char>>> {
    v.map_values(|o: PluginCommandOption| o@)
}

/// What a plugin command takes as its argument.
#[derive(Debug, PartialEq, Eq)]
pub struct PluginCommandInput<S = String, L = Vec<PluginCommandOption>> {
    pub hint: S,
    pub options: L,
}

pub type InputV = PluginCommandInput<Seq<char>, Seq<PluginCommandOption<Seq<char>>>>;

/// A command of a plugin.
#[derive(Debug, PartialEq, Eq)]
pub struct PluginCommand<S = String, I = PluginCommandInput> {
    pub name: S,
    pub description: S,
    pub input: Option<I>,
}

pub type PluginCommandV = PluginCommand<Seq<char>, InputV>;

impl View for PluginCommand {
    type V = PluginCommandV;

    open spec fn view(&self) -> PluginCommandV {
        PluginCommand {
            name: self.name@,
            description: self.description@,
            input: match self.input {
                Some(i) => Some(
                    PluginCommandInput { hint: i.hint@, options: arguments_view(i.options@) },
                ),
                None => None,
            },
        }
    }
}

pub open spec fn commands_view(v: Seq<PluginCommand>) -> Seq<PluginCommandV> {
    v.map_values(|c: PluginCommand| c@)
}

pub open spec fn dynamic_view(v: Seq<CordisPluginItem>) -> Seq<CordisPluginItem<Seq<char>>> {
    v.map_values(|p: CordisPluginItem| p@)
}

pub open spec fn approvals_view(v: Seq<PendingCordisApproval>) -> Seq<
    PendingCordisApproval<Seq<char>>,
> {
    v.map_values(|p: PendingCordisApproval| p@)
}

pub open spec fn ui_view(v: Seq<UiPluginItem>) -> Seq<UiPluginItem<Seq<char>>> {
    v.map_values(|p: UiPluginItem| p@)
}

/// What a plugin shows in one place of the screen; the painter finds it by
/// `content`.
#[derive(Debug, PartialEq, Eq)]
pub struct SlotContent<S = String> {
    pub slot: S,
    pub rev: Option<u64>,
    pub content: u64,
}

impl View for SlotContent {
    type V = SlotContent<Seq<char>>;

    open spec fn view(&self) -> Self::V {
        SlotContent { slot: self.slot@, rev: self.rev, content: self.content }
    }
}

pub open spec fn contents_view(v: Seq<SlotContent>) -> Seq<SlotContent<Seq<char>>> {
    v.map_values(|c: SlotContent| c@)
}

/// A session logged on this machine.
#[derive(Debug, PartialEq, Eq)]
pub struct LocalSession<S = String> {
    pub id: S,
    pub title: Option<S>,
    /// The first prompt.
    pub preview: S,
    pub turns: u64,
    /// How long ago it was used, in words.
    pub age: S,
}

impl View for LocalSession {
    type V = LocalSession<Seq<char>>;

    open spec fn view(&self) -> Self::V {
        LocalSession {
            id: self.id@,
            title: text::opt_view(self.title),
            preview: self.preview@,
            turns: self.turns,
            age: self.age@,
        }
    }
}

pub open spec fn locals_view(v: Seq<LocalSession>) -> Seq<LocalSession<Seq<char>>> {
    v.map_values(|s: LocalSession| s@)
}

pub open spec fn listed_view(v: Seq<SessionListItem>) -> Seq<SessionListItem<Seq<char>>> {
    v.map_values(|s: SessionListItem| s@)
}

/// A short remark and when it was made.
#[derive(Debug, PartialEq, Eq)]
pub struct Tip<S = String> {
    pub text: S,
    pub at: u64,
}

pub open spec fn opt_tip_view(t: Option<Tip>) -> Option<Tip<Seq<char>>> {
    match t {
        Some(t) => Some(Tip { text: t.text@, at: t.at }),
        None => None,
    }
}

/// Presses of Ctrl+C that may add up to quitting.
#[derive(Debug, Clone, Copy, PartialEq, Eq, Structural)]
pub struct CtrlCQuitChord {
    pub started: u64,
    pub presses: u8,
    pub required: u8,
}

/// A shell command under way, and the session that ran it.
#[derive(Debug, PartialEq, Eq)]
pub struct PendingShell<S = String> {
    pub id: u64,
    pub session: S,
}

impl View for PendingShell {
    type V = PendingShell<Seq<char>>;

    open spec fn view(&self) -> Self::V {
        PendingShell { id: self.id, session: self.session@ }
    }
}

pub open spec fn shells_view(v: Seq<PendingShell>) -> Seq<PendingShell<Seq<char>>> {
    v.map_values(|s: PendingShell| s@)
}

/// A click of the mouse.
#[derive(Debug, Clone, Copy, PartialEq, Eq, Structural)]
pub struct Click {
    pub at: u64,
    pub column: u16,
    pub row: u16,
}

/// A prompt that is highlighted for a while.
#[derive(Debug, Clone, Copy, PartialEq, Eq, Structural)]
pub struct Flash {
    pub cell: usize,
    pub until: u64,
}

/// What the mouse is about.
#[derive(Debug, Clone, Copy)]
pub struct Pointer {
    pub sel: Option<Selection>,
    /// A drag over the chat is under way.
    pub selecting: bool,
    pub last_click: Option<Click>,
    pub input_sel: Option<InputSel>,
    /// A drag over the composer is under way.
    pub input_selecting: bool,
    pub position: Option<(u16, u16)>,
    pub over_expand: bool,
    pub over_jump: bool,
    pub over_chip: Option<usize>,
    /// The prompt that the last jump went to.
    pub jump_cell: Option<usize>,
    pub flash: Option<Flash>,
    /// The first tab of the strip that is shown.
    pub strip_offset: usize,
}

/// Plain facts on the client.
#[derive(Debug, Clone, Copy, PartialEq, Eq, Structural)]
pub struct Base {
    pub locale: Locale,
    pub tone: ToneMode,
    /// Nothing is connected; turns are played.
    pub demo: bool,
    pub attached: bool,
    /// Modal editing is on.
    pub vim: bool,
    /// Modal editing is on and takes keys as commands.
    pub vim_normal: bool,
    pub pet_visible: bool,
    /// How many images a draft can hold.
    pub image_limit: usize,
}

/// The sessions out of view, and the requests for sessions that are under way.
/// The tab order is that of `parked` with the viewed session at `current`.
pub struct Tabs {
    pub parked: Vec<SessionSlot>,
    pub current: usize,
    /// One entry for each tab that waits for its session, first in first out.
    pub awaiting: Vec<AwaitingBind>,
    /// The session that the agent opens on its own has been seen.
    pub startup_bound: bool,
}

pub ghost struct TabsV {
    pub parked: Seq<SlotV>,
    pub current: usize,
    pub awaiting: Seq<AwaitingBind<Seq<char>>>,
    pub startup_bound: bool,
}

impl View for Tabs {
    type V = TabsV;

    open spec fn view(&self) -> TabsV {
        TabsV {
            parked: session::slots_view(self.parked@),
            current: self.current,
            awaiting: awaiting_view(self.awaiting@),
            startup_bound: self.startup_bound,
        }
    }
}

/// The palettes and what is painted of them.
pub struct Theme {
    pub mode: Mode,
    pub palettes: Vec<PalettePack>,
    /// The id of the palette that was chosen.
    pub active: String,
    /// The id of the palette that is only tried out.
    pub preview: Option<String>,
    /// The id of the palette that was chosen and still loads.
    pub pending: Option<String>,
    /// The colours on the screen.
    pub painted: u64,
}

pub ghost struct ThemeV {
    pub mode: Mode,
    pub palettes: Seq<PalettePack<Seq<char>>>,
    pub active: Seq<char>,
    pub preview: Option<Seq<char>>,
    pub pending: Option<Seq<char>>,
    pub painted: u64,
}

impl View for Theme {
    type V = ThemeV;

    open spec fn view(&self) -> ThemeV {
        ThemeV {
            mode: self.mode,
            palettes: palettes_view(self.palettes@),
            active: self.active@,
            preview: text::opt_view(self.preview),
            pending: text::opt_view(self.pending),
            painted: self.painted,
        }
    }
}

/// What the painter has recorded of the last frame.
pub struct Frame {
    pub chat: ChatView,
    pub input_area: Rect,
    /// The first row of the draft that is shown.
    pub input_top: usize,
    pub expand_btn: Option<Rect>,
    pub jump_btn: Option<Rect>,
    /// The image chips of the draft, with the number of the image.
    pub chips: Vec<(Rect, usize)>,
    pub tab_rects: Vec<(Rect, usize)>,
    /// The commands that plugins have put on the screen.
    pub actions: Vec<SlotAction>,
    pub picker_rows: usize,
    pub tree_rows: usize,
}

pub ghost struct FrameV {
    pub chat: ChatViewV,
    pub input_area: Rect,
    pub input_top: usize,
    pub expand_btn: Option<Rect>,
    pub jump_btn: Option<Rect>,
    pub chips: Seq<(Rect, usize)>,
    pub tab_rects: Seq<(Rect, usize)>,
    pub actions: Seq<SlotAction<Seq<char>>>,
    pub picker_rows: usize,
    pub tree_rows: usize,
}

impl View for Frame {
    type V = FrameV;

    open spec fn view(&self) -> FrameV {
        FrameV {
            chat: self.chat@,
            input_area: self.input_area,
            input_top: self.input_top,
            expand_btn: self.expand_btn,
            jump_btn: self.jump_btn,
            chips: self.chips@,
            tab_rects: self.tab_rects@,
            actions: actions_view(self.actions@),
            picker_rows: self.picker_rows,
            tree_rows: self.tree_rows,
        }
    }
}

/// Open menus and overlays that belong to no session.
pub struct Menu {
    pub picker: Option<Picker>,
    pub select: Option<SelectOverlay>,
    pub slider: Option<SliderOverlay>,
    pub slash_sel: usize,
    /// Escape has closed the recommendations for this draft.
    pub slash_dismissed: bool,
    /// The models that the host listed when it was last asked; empty where it
    /// lists none.
    pub host_models: Vec<String>,
}

pub ghost struct MenuV {
    pub picker: Option<PickerV>,
    pub select: Option<SelectV>,
    pub slider: Option<SliderV>,
    pub slash_sel: usize,
    pub slash_dismissed: bool,
    pub host_models: Seq<Seq<char>>,
}

impl View for Menu {
    type V = MenuV;

    open spec fn view(&self) -> MenuV {
        MenuV {
            picker: opt_picker_view(self.picker),
            select: opt_select_view(self.select),
            slider: opt_slider_view(self.slider),
            slash_sel: self.slash_sel,
            slash_dismissed: self.slash_dismissed,
            host_models: text::views(self.host_models@),
        }
    }
}

/// What plugins have contributed.
pub struct Plugins {
    pub commands: Vec<PluginCommand>,
    pub installed: Vec<StaticPluginItem>,
    pub dynamic: Vec<CordisPluginItem>,
    /// The activations that wait for a decision.
    pub approvals: Vec<PendingCordisApproval>,
    pub ui: Vec<UiPluginItem>,
    pub slots: Vec<SlotContent>,
    /// The preset of the screen that was kept; it stands in until the places
    /// of the screen are filled.
    pub ui_preset: String,
}

pub ghost struct PluginsV {
    pub commands: Seq<PluginCommandV>,
    pub installed: Seq<StaticPluginItem<Seq<char>>>,
    pub dynamic: Seq<CordisPluginItem<Seq<char>>>,
    pub approvals: Seq<PendingCordisApproval<Seq<char>>>,
    pub ui: Seq<UiPluginItem<Seq<char>>>,
    pub slots: Seq<SlotContent<Seq<char>>>,
    pub ui_preset: Seq<char>,
}

impl View for Plugins {
    type V = PluginsV;

    open spec fn view(&self) -> PluginsV {
        PluginsV {
            commands: commands_view(self.commands@),
            installed: tree::plugins_view(self.installed@),
            dynamic: dynamic_view(self.dynamic@),
            approvals: approvals_view(self.approvals@),
            ui: ui_view(self.ui@),
            slots: contents_view(self.slots@),
            ui_preset: self.ui_preset@,
        }
    }
}

/// The sessions that can be resumed.
pub struct Resume {
    pub candidates: Vec<LocalSession>,
    /// The picker shows what the agent has listed.
    pub via_agent: bool,
    /// What the agent has listed and the picker is about to show.
    pub listed: Vec<SessionListItem>,
}

pub ghost struct ResumeV {
    pub candidates: Seq<LocalSession<Seq<char>>>,
    pub via_agent: bool,
    pub listed: Seq<SessionListItem<Seq<char>>>,
}

impl View for Resume {
    type V = ResumeV;

    open spec fn view(&self) -> ResumeV {
        ResumeV {
            candidates: locals_view(self.candidates@),
            via_agent: self.via_agent,
            listed: listed_view(self.listed@),
        }
    }
}

/// What the host calls its notifications, and the protocol they follow.
#[derive(Debug, PartialEq, Eq)]
pub struct Methods<S = String> {
    pub agents_navigate: S,
    pub agents_select: S,
    pub ui_update: S,
    pub approvals_update: S,
    pub theme_update: S,
    pub theme_remove: S,
    pub commands_update: S,
    pub overlay_update: S,
    pub slots_update: S,
    pub protocol: u64,
}

impl View for Methods {
    type V = Methods<Seq<char>>;

    open spec fn view(&self) -> Self::V {
        Methods {
            agents_navigate: self.agents_navigate@,
            agents_select: self.agents_select@,
            ui_update: self.ui_update@,
            approvals_update: self.approvals_update@,
            theme_update: self.theme_update@,
            theme_remove: self.theme_remove@,
            commands_update: self.commands_update@,
            overlay_update: self.overlay_update@,
            slots_update: self.slots_update@,
            protocol: self.protocol,
        }
    }
}

/// What a command is described as in one language; `plugin` tells a command of
/// a plugin from one of the client.
#[derive(Debug, PartialEq, Eq)]
pub struct LocalDesc<S = String> {
    pub locale: Locale,
    pub plugin: bool,
    pub name: S,
    pub text: S,
}

impl View for LocalDesc {
    type V = LocalDesc<Seq<char>>;

    open spec fn view(&self) -> Self::V {
        LocalDesc {
            locale: self.locale,
            plugin: self.plugin,
            name: self.name@,
            text: self.text@,
        }
    }
}

pub open spec fn descs_view(v: Seq<LocalDesc>) -> Seq<LocalDesc<Seq<char>>> {
    v.map_values(|d: LocalDesc| d@)
}

/// What the client was started with.
pub struct Config {
    pub model: String,
    pub provider: String,
    pub workspace: String,
    pub session_root: String,
    pub bin: String,
    pub has_credentials: bool,
    pub credential_source: Option<String>,
    pub methods: Methods,
    /// The descriptions of commands in other languages than their own.
    pub descriptions: Vec<LocalDesc>,
}

pub ghost struct ConfigV {
    pub model: Seq<char>,
    pub provider: Seq<char>,
    pub workspace: Seq<char>,
    pub session_root: Seq<char>,
    pub bin: Seq<char>,
    pub has_credentials: bool,
    pub credential_source: Option<Seq<char>>,
    pub methods: Methods<Seq<char>>,
    pub descriptions: Seq<LocalDesc<Seq<char>>>,
}

impl View for Config {
    type V = ConfigV;

    open spec fn view(&self) -> ConfigV {
        ConfigV {
            model: self.model@,
            provider: self.provider@,
            workspace: self.workspace@,
            session_root: self.session_root@,
            bin: self.bin@,
            has_credentials: self.has_credentials,
            credential_source: text::opt_view(self.credential_source),
            methods: self.methods@,
            descriptions: descs_view(self.descriptions@),
        }
    }
}

/// Time, and what passes with it. Times are in milliseconds.
pub struct Clock {
    pub now: u64,
    /// The time of day in microseconds.
    pub micros: u128,
    /// How many stamps have been made.
    pub stamps: u64,
    pub tip: Option<Tip>,
    pub ambient_idx: usize,
    pub ambient_at: u64,
    pub ctrl_c: Option<CtrlCQuitChord>,
    pub spinner_idx: usize,
    pub git_check_at: u64,
}

pub ghost struct ClockV {
    pub now: u64,
    pub micros: u128,
    pub stamps: u64,
    pub tip: Option<Tip<Seq<char>>>,
    pub ambient_idx: usize,
    pub ambient_at: u64,
    pub ctrl_c: Option<CtrlCQuitChord>,
    pub spinner_idx: usize,
    pub git_check_at: u64,
}

impl View for Clock {
    type V = ClockV;

    open spec fn view(&self) -> ClockV {
        ClockV {
            now: self.now,
            micros: self.micros,
            stamps: self.stamps,
            tip: opt_tip_view(self.tip),
            ambient_idx: self.ambient_idx,
            ambient_at: self.ambient_at,
            ctrl_c: self.ctrl_c,
            spinner_idx: self.spinner_idx,
            git_check_at: self.git_check_at,
        }
    }
}

/// The state of the client as a whole.
pub struct Status {
    pub branch: Option<String>,
    pub connection_error: Option<String>,
    /// The sign-in program to run outside the screen.
    pub terminal_auth: Option<u64>,
    pub quit: bool,
    pub redraw: bool,
}

pub ghost struct StatusV {
    pub branch: Option<Seq<char>>,
    pub connection_error: Option<Seq<char>>,
    pub terminal_auth: Option<u64>,
    pub quit: bool,
    pub redraw: bool,
}

impl View for Status {
    type V = StatusV;

    open spec fn view(&self) -> StatusV {
        StatusV {
            branch: text::opt_view(self.branch),
            connection_error: text::opt_view(self.connection_error),
            terminal_auth: self.terminal_auth,
            quit: self.quit,
            redraw: self.redraw,
        }
    }
}

/// Numbers that are given out once.
pub struct Counts {
    pub next_prompt: u64,
    /// Whether the numbers of the prompts have begun again.
    pub again: Ghost<bool>,
    pub next_transcript: u64,
    pub shells: u64,
    /// The shell commands that still run, with the session that ran them.
    pub pending_shells: Vec<PendingShell>,
}

pub ghost struct CountsV {
    pub next_prompt: u64,
    pub again: bool,
    pub next_transcript: u64,
    pub shells: u64,
    pub pending_shells: Seq<PendingShell<Seq<char>>>,
}

impl View for Counts {
    type V = CountsV;

    open spec fn view(&self) -> CountsV {
        CountsV {
            next_prompt: self.next_prompt,
            again: self.again@,
            next_transcript: self.next_transcript,
            shells: self.shells,
            pending_shells: shells_view(self.pending_shells@),
        }
    }
}

/// The state of the client. `out` holds what is to be done outside, in order.
pub struct App {
    /// The session in view.
    pub live: SessionSlot,
    pub conn: SessionConnection,
    pub state: RunState,
    pub tabs: Tabs,
    pub theme: Theme,
    pub pointer: Pointer,
    pub frame: Frame,
    pub menu: Menu,
    pub plugins: Plugins,
    pub resume: Resume,
    pub cfg: Config,
    pub base: Base,
    pub clock: Clock,
    pub status: Status,
    pub counts: Counts,
    pub out: Vec<Effect>,
}

pub ghost struct AppV {
    pub live: SlotV,
    pub conn: ConnectionV,
    pub state: RunState,
    pub tabs: TabsV,
    pub theme: ThemeV,
    pub pointer: Pointer,
    pub frame: FrameV,
    pub menu: MenuV,
    pub plugins: PluginsV,
    pub resume: ResumeV,
    pub cfg: ConfigV,
    pub base: Base,
    pub clock: ClockV,
    pub status: StatusV,
    pub counts: CountsV,
    pub out: Seq<EffectV>,
}

impl View for App {
    type V = AppV;

    open spec fn view(&self) -> AppV {
        AppV {
            live: self.live@,
            conn: self.conn@,
            state: self.state,
            tabs: self.tabs@,
            theme: self.theme@,
            pointer: self.pointer,
            frame: self.frame@,
            menu: self.menu@,
            plugins: self.plugins@,
            resume: self.resume@,
            cfg: self.cfg@,
            base: self.base,
            clock: self.clock@,
            status: self.status@,
            counts: self.counts@,
            out: effect::effects_view(self.out@),
        }
    }
}

/// No two things are shown in the same place.
#[verifier::opaque]
pub open spec fn contents_differ(v: Seq<SlotContent<Seq<char>>>) -> bool {
    forall|i: int, j: int|
        #![trigger v[i], v[j]]
        0 <= i < j < v.len() ==> v[i].slot != v[j].slot
}

impl AppV {
    /// What holds of every state: the viewed tab has a place in the row, the
    /// facts kept for parked sessions are blank while it is viewed, the
    /// choice offered by a plugin has a row selected, every place of a plugin
    /// shows one thing, and every session is sound.
    pub open spec fn wf(self) -> bool {
        &&& self.tabs.current <= self.tabs.parked.len()
        &&& self.live.connection is None
        &&& !self.live.run.running
        &&& !self.live.run.completed_unseen
        &&& self.menu.select matches Some(s) ==> s.sel < s.options.len()
        &&& contents_differ(self.plugins.slots)
        &&& session::slot_sound(self.live, self.counts.next_prompt, self.counts.again)
        &&& session::slots_sound(
            self.tabs.parked,
            self.counts.next_prompt,
            self.counts.again,
        )
    }

    pub open spec fn redrawn(self) -> AppV {
        AppV { status: StatusV { redraw: true, ..self.status }, ..self }
    }

    /// A remark on the screen.
    pub open spec fn tip(self, t: Seq<char>) -> AppV {
        AppV {
            clock: ClockV { tip: Some(Tip { text: t, at: self.clock.now }), ..self.clock },
            status: StatusV { redraw: true, ..self.status },
            ..self
        }
    }

    pub open spec fn emit(self, e: EffectV) -> AppV {
        AppV { out: self.out.push(e), ..self }
    }

    pub open spec fn send(self, c: CmdV) -> AppV {
        self.emit(Effect::Send(c))
    }

    pub open spec fn write(self, transcript: u64, op: OpV) -> AppV {
        self.emit(Effect::Transcript { id: transcript, op })
    }

    /// A notice in the transcript of the viewed session.
    pub open spec fn notice(self, level: NoticeLevel, t: Seq<char>) -> AppV {
        self.write(self.live.chat.transcript, TranscriptOp::Notice { level, text: t })
    }

    pub open spec fn with_live(self, live: SlotV) -> AppV {
        AppV { live, ..self }
    }

    pub open spec fn with_input(self, c: ComposerV) -> AppV {
        self.with_live(SlotV { draft: DraftV { input: c, ..self.live.draft }, ..self.live })
    }

    pub open spec fn with_queue(self, q: QueueV) -> AppV {
        self.with_live(SlotV { queue: q, ..self.live })
    }

    pub open spec fn with_agents(self, a: AgentsV) -> AppV {
        self.with_live(SlotV { agents: a, ..self.live })
    }

    pub open spec fn with_run(self, r: Run<Seq<char>>) -> AppV {
        self.with_live(SlotV { run: r, ..self.live })
    }

    pub open spec fn with_view(self, v: Option<ViewOverlay<Seq<char>>>) -> AppV {
        self.with_live(SlotV { popups: PopupsV { view: v, ..self.live.popups }, ..self.live })
    }

    pub open spec fn noted(self, note: Seq<char>) -> AppV {
        self.with_run(Run { note, ..self.live.run })
    }

    pub open spec fn banner_off(self) -> AppV {
        self.with_live(SlotV { chat: Chat { show_banner: false, ..self.live.chat }, ..self.live })
    }

    pub open spec fn scrolled_to(self, n: usize) -> AppV {
        self.with_live(SlotV { chat: Chat { scroll_up: n, ..self.live.chat }, ..self.live })
    }

    /// A text joins what can be recalled, and the draft is emptied.
    #[verifier::opaque]
    pub open spec fn put_away(self, t: Seq<char>) -> AppV {
        self.with_input(self.live.draft.input.remembering(t).cleared())
    }

    /// A prompt is handed over; its turn is about to begin.
    pub open spec fn starting(self, note: Seq<char>) -> AppV {
        AppV { state: RunState::Starting, ..self }.with_run(
            Run { note, started: Some(self.clock.now), pending: true, ..self.live.run },
        )
    }

    /// No turn runs.
    pub open spec fn idle(self) -> AppV {
        AppV { state: RunState::Idle, ..self }.with_run(Run { started: None, ..self.live.run })
    }

    pub open spec fn with_parked(self, parked: Seq<SlotV>) -> AppV {
        AppV { tabs: TabsV { parked, ..self.tabs }, ..self }
    }

    pub open spec fn with_picker(self, p: Option<PickerV>) -> AppV {
        AppV { menu: MenuV { picker: p, ..self.menu }, ..self }
    }

    pub open spec fn with_pointer(self, p: Pointer) -> AppV {
        AppV { pointer: p, ..self }
    }

    pub open spec fn says(self, en: Seq<char>, zh: Seq<char>) -> Seq<char> {
        effect::spoken(self.base.locale, en, zh)
    }

    /// A remark in the language of the client.
    pub open spec fn tell(self, en: Seq<char>, zh: Seq<char>) -> AppV {
        self.tip(self.says(en, zh))
    }

    /// A remark made of two halves and a text between them.
    pub open spec fn tell1(
        self,
        en: (Seq<char>, Seq<char>),
        zh: (Seq<char>, Seq<char>),
        x: Seq<char>,
    ) -> AppV {
        self.tip(said1(self.base.locale, en, zh, x))
    }
}

/// A text with another in its middle, in the language of the client.
pub open spec fn said1(
    l: Locale,
    en: (Seq<char>, Seq<char>),
    zh: (Seq<char>, Seq<char>),
    x: Seq<char>,
) -> Seq<char> {
    match l {
        Locale::En => en.0 + x + en.1,
        Locale::Zh => zh.0 + x + zh.1,
    }
}

/// A text with two others in it.
pub open spec fn said2(
    l: Locale,
    en: (Seq<char>, Seq<char>, Seq<char>),
    zh: (Seq<char>, Seq<char>, Seq<char>),
    x: Seq<char>,
    y: Seq<char>,
) -> Seq<char> {
    match l {
        Locale::En => en.0 + x + en.1 + y + en.2,
        Locale::Zh => zh.0 + x + zh.1 + y + zh.2,
    }
}

pub fn say1(l: Locale, en: (&str, &str), zh: (&str, &str), x: &str) -> (r: String)
    ensures
        r@ == said1(l, (en.0@, en.1@), (zh.0@, zh.1@), x@),
{
    match l {
        Locale::En => text::concat3(en.0, x, en.1),
        Locale::Zh => text::concat3(zh.0, x, zh.1),
    }
}

pub fn say2(l: Locale, en: (&str, &str, &str), zh: (&str, &str, &str), x: &str, y: &str) -> (r:
    String)
    ensures
        r@ == said2(l, (en.0@, en.1@, en.2@), (zh.0@, zh.1@, zh.2@), x@, y@),
{
    match l {
        Locale::En => {
            let mut r = text::concat3(en.0, x, en.1);
            text::push_str(&mut r, y);
            text::push_str(&mut r, en.2);
            r
        },
        Locale::Zh => {
            let mut r = text::concat3(zh.0, x, zh.1);
            text::push_str(&mut r, y);
            text::push_str(&mut r, zh.2);
            r
        },
    }
}

pub open spec fn no_pointer() -> Pointer {
    Pointer {
        sel: None,
        selecting: false,
        last_click: None,
        input_sel: None,
        input_selecting: false,
        position: None,
        over_expand: false,
        over_jump: false,
        over_chip: None,
        jump_cell: None,
        flash: None,
        strip_offset: 0,
    }
}

impl App {
    pub fn redraw(&mut self)
        ensures
            final(self)@ == old(self)@.redrawn(),
    {
        self.status.redraw = true;
    }

    pub fn show_tip(&mut self, t: String)
        ensures
            final(self)@ == old(self)@.tip(t@),
    {
        self.clock.tip = Some(Tip { text: t, at: self.clock.now });
        self.status.redraw = true;
    }

    /// A remark in the language of the client.
    pub fn tell(&mut self, en: &str, zh: &str)
        ensures
            final(self)@ == old(self)@.tell(en@, zh@),
    {
        let t = effect::tr(self.base.locale, en, zh).to_owned();
        self.show_tip(t);
    }

    pub fn tell1(&mut self, en: (&str, &str), zh: (&str, &str), x: &str)
        ensures
            final(self)@ == old(self)@.tell1((en.0@, en.1@), (zh.0@, zh.1@), x@),
    {
        let t = say1(self.base.locale, en, zh, x);
        self.show_tip(t);
    }

    pub fn say(&self, en: &str, zh: &str) -> (r: String)
        ensures
            r@ == self@.says(en@, zh@),
    {
        effect::tr(self.base.locale, en, zh).to_owned()
    }

    pub(crate) fn emit(&mut self, e: Effect)
        ensures
            final(self)@ == old(self)@.emit(e@),
    {
        effect::emit(&mut self.out, e);
    }

    pub(crate) fn send(&mut self, c: Cmd)
        ensures
            final(self)@ == old(self)@.send(c@),
    {
        self.emit(Effect::Send(c));
    }

    pub(crate) fn write(&mut self, transcript: u64, op: TranscriptOp)
        ensures
            final(self)@ == old(self)@.write(transcript, op@),
    {
        self.emit(Effect::Transcript { id: transcript, op });
    }

    pub(crate) fn notice(&mut self, level: NoticeLevel, t: String)
        ensures
            final(self)@ == old(self)@.notice(level, t@),
    {
        let transcript = self.live_transcript();
        self.write(transcript, TranscriptOp::Notice { level, text: t });
    }

    pub(crate) fn set_note(&mut self, note: String)
        ensures
            final(self)@ == old(self)@.noted(note@),
    {
        proof {
            reveal(session::slot_view);
        }
        self.live.run.note = note;
    }

    pub(crate) fn hide_banner(&mut self)
        ensures
            final(self)@ == old(self)@.banner_off(),
    {
        proof {
            reveal(session::slot_view);
        }
        self.live.chat.show_banner = false;
    }

    pub(crate) fn scroll_to(&mut self, n: usize)
        ensures
            final(self)@ == old(self)@.scrolled_to(n),
    {
        proof {
            reveal(session::slot_view);
        }
        self.live.chat.scroll_up = n;
    }

    pub(crate) fn begin_turn(&mut self, note: String)
        ensures
            final(self)@ == old(self)@.starting(note@),
    {
        proof {
            reveal(session::slot_view);
        }
        self.state = RunState::Starting;
        self.live.run.note = note;
        self.live.run.started = Some(self.clock.now);
        self.live.run.pending = true;
    }

    pub(crate) fn end_turn(&mut self)
        ensures
            final(self)@ == old(self)@.idle(),
    {
        proof {
            reveal(session::slot_view);
        }
        self.state = RunState::Idle;
        self.live.run.started = None;
    }

    pub(crate) fn set_draft(&mut self, t: String)
        ensures
            final(self)@ == old(self)@.with_input(old(self)@.live.draft.input.with_text(t@)),
    {
        proof {
            reveal(session::slot_view);
        }
        self.live.draft.input.set(t);
    }

    pub(crate) fn clear_draft(&mut self)
        ensures
            final(self)@ == old(self)@.with_input(old(self)@.live.draft.input.cleared()),
    {
        proof {
            reveal(session::slot_view);
        }
        self.live.draft.input.clear();
    }

    /// The draft is put away for recalling and emptied.
    pub(crate) fn put_draft_away(&mut self, t: String)
        ensures
            final(self)@ == old(self)@.put_away(t@),
    {
        proof {
            reveal(session::slot_view);
            reveal(AppV::put_away);
        }
        self.live.draft.input.remember(t);
        self.live.draft.input.clear();
    }

    /// The text of the draft.
    pub fn draft_text(&self) -> (r: String)
        ensures
            r@ == self@.live.draft.input.buf,
    {
        proof {
            reveal(session::slot_view);
        }
        self.live.draft.input.buf.clone()
    }

    pub(crate) fn draft_is_empty(&self) -> (r: bool)
        ensures
            r == (self@.live.draft.input.buf.len() == 0),
    {
        proof {
            reveal(session::slot_view);
        }
        self.live.draft.input.is_empty()
    }

    pub(crate) fn image_count(&self) -> (r: usize)
        ensures
            r == self@.live.draft.images.len(),
    {
        proof {
            reveal(session::slot_view);
        }
        self.live.draft.images.len()
    }

    pub(crate) fn queue_len(&self) -> (r: usize)
        ensures
            r == self@.live.queue.prompts.len(),
    {
        proof {
            reveal(session::slot_view);
        }
        self.live.queue.prompts.len()
    }

    pub(crate) fn is_bound(&self) -> (r: bool)
        ensures
            r == self@.live.bound,
    {
        proof {
            reveal(session::slot_view);
        }
        self.live.bound
    }

    pub(crate) fn is_pending(&self) -> (r: bool)
        ensures
            r == self@.live.run.pending,
    {
        proof {
            reveal(session::slot_view);
        }
        self.live.run.pending
    }

    /// The id of the viewed session.
    pub fn session_id(&self) -> (r: String)
        ensures
            r@ == self@.live.id,
    {
        proof {
            reveal(session::slot_view);
        }
        self.live.id.clone()
    }

    pub(crate) fn is_live(&self, id: &str) -> (r: bool)
        ensures
            r == (self@.live.id == id@),
    {
        proof {
            reveal(session::slot_view);
        }
        text::same(self.live.id.as_str(), id)
    }

    pub(crate) fn live_transcript(&self) -> (r: u64)
        ensures
            r == self@.live.chat.transcript,
    {
        proof {
            reveal(session::slot_view);
        }
        self.live.chat.transcript
    }

    /// Hands over what is to be done outside.
    pub fn take_effects(&mut self) -> (r: Vec<Effect>)
        ensures
            effect::effects_view(r@) == old(self)@.out,
            final(self)@ == (AppV { out: Seq::empty(), ..old(self)@ }),
    {
        let mut r: Vec<Effect> = Vec::new();
        std::mem::swap(&mut r, &mut self.out);
        assert(effect::effects_view(self.out@) =~= Seq::<EffectV>::empty());
        r
    }
}

} // verus!
