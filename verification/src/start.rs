//! The client as it starts.

use crate::app::{
    self, App, AppV, Base, Clock, ClockV, Config, Counts, CountsV, Frame, FrameV, Menu, MenuV,
    Mode, Plugins, PluginsV, Pointer, Resume, ResumeV, Status, StatusV, Tabs, TabsV, Theme,
    ThemeV, ToneMode,
};
use crate::bus::{self, PalettePack, SessionConnection};
use crate::effect::{Effect, EffectV, TranscriptOp};
use crate::screen::{self, ChatView, Rect};
use crate::seqs;
use crate::session::{self, RunState, SessionSlot};
use crate::settings::{self, UiSettings};
use crate::sound;
use crate::text;
use vstd::prelude::*;

verus! {

/// What the client is started with.
pub struct Start {
    /// The mode that was asked for on the command line.
    pub mode: Option<Mode>,
    pub settings: UiSettings,
    pub cfg: Config,
    pub session_id: String,
    pub demo: bool,
    pub attached: bool,
    /// The palette that is always there.
    pub default_pack: PalettePack,
    pub vim: bool,
    pub vim_normal: bool,
    pub image_limit: usize,
    pub now: u64,
    pub micros: u128,
}

/// The mode asked for, else the one kept, else dark.
pub open spec fn first_mode(asked: Option<Mode>, kept: Option<Seq<char>>) -> Mode {
    match asked {
        Some(m) => m,
        None => match settings::mode_meant(kept) {
            Some(m) => m,
            None => Mode::Dark,
        },
    }
}

/// The tone that was kept, else the single one.
pub open spec fn first_tone(kept: Option<Seq<char>>) -> ToneMode {
    match settings::tone_meant(kept) {
        Some(t) => t,
        None => ToneMode::Single,
    }
}

fn choose_tone(kept: &Option<String>) -> (r: ToneMode)
    ensures
        r == first_tone(text::opt_view(*kept)),
{
    match settings::parse_tone(kept) {
        Some(t) => t,
        None => ToneMode::Single,
    }
}

fn choose_mode(asked: Option<Mode>, kept: &Option<String>) -> (r: Mode)
    ensures
        r == first_mode(asked, text::opt_view(*kept)),
{
    match asked {
        Some(m) => m,
        None => match settings::parse_mode(kept) {
            Some(m) => m,
            None => Mode::Dark,
        },
    }
}

pub open spec fn blank_frame() -> FrameV {
    FrameV {
        chat: screen::no_chat_view(),
        input_area: Rect { x: 0, y: 0, width: 0, height: 0 },
        input_top: 0,
        expand_btn: None,
        jump_btn: None,
        chips: Seq::empty(),
        tab_rects: Seq::empty(),
        actions: Seq::empty(),
        picker_rows: 0,
        tree_rows: 0,
    }
}

pub open spec fn first_clock(now: u64, micros: u128) -> ClockV {
    ClockV {
        now,
        micros,
        stamps: 0,
        tip: None,
        ambient_idx: 0,
        ambient_at: now,
        ctrl_c: None,
        spinner_idx: 0,
        git_check_at: now,
    }
}

pub open spec fn no_plugins(ui_preset: Seq<char>) -> PluginsV {
    PluginsV {
        commands: Seq::empty(),
        installed: Seq::empty(),
        dynamic: Seq::empty(),
        approvals: Seq::empty(),
        ui: Seq::empty(),
        slots: Seq::empty(),
        ui_preset,
    }
}

pub open spec fn first_theme(mode: Mode, pack: PalettePack<Seq<char>>) -> ThemeV {
    ThemeV {
        mode,
        palettes: seq![pack],
        active: "default"@,
        preview: None,
        pending: None,
        painted: pack.colors,
    }
}

pub open spec fn first_base(s: Start) -> Base {
    Base {
        locale: s.settings.language,
        tone: first_tone(text::opt_view(s.settings.markdown_tone)),
        demo: s.demo,
        attached: s.attached,
        vim: s.vim,
        vim_normal: s.vim_normal,
        pet_visible: false,
        image_limit: s.image_limit,
    }
}

/// The client at the start: one tab, which a demo has to itself and which
/// otherwise waits for the session that the agent opens on its own.
#[verifier::opaque]
pub open spec fn started(s: Start) -> AppV {
    AppV {
        live: session::fresh_slot(s.session_id@, s.demo, 0),
        conn: bus::no_connection(),
        state: RunState::Idle,
        tabs: TabsV {
            parked: Seq::empty(),
            current: 0,
            awaiting: Seq::empty(),
            startup_bound: s.demo,
        },
        theme: first_theme(
            first_mode(s.mode, text::opt_view(s.settings.theme_mode)),
            s.default_pack@,
        ),
        pointer: app::no_pointer(),
        frame: blank_frame(),
        menu: MenuV {
            picker: None,
            select: None,
            slider: None,
            slash_sel: 0,
            slash_dismissed: false,
            host_models: Seq::empty(),
        },
        plugins: no_plugins(s.settings.ui_preset@),
        resume: ResumeV { candidates: Seq::empty(), via_agent: false, listed: Seq::empty() },
        cfg: s.cfg@,
        base: first_base(s),
        clock: first_clock(s.now, s.micros),
        status: StatusV {
            branch: None,
            connection_error: None,
            terminal_auth: None,
            quit: false,
            redraw: true,
        },
        counts: CountsV {
            next_prompt: 1,
            again: false,
            next_transcript: 1,
            shells: 0,
            pending_shells: Seq::empty(),
        },
        out: seq![
            Effect::Transcript {
                id: 0,
                op: TranscriptOp::Open { session: s.session_id@, locale: s.settings.language },
            },
        ],
    }
}

/// Every client starts in a state that makes sense.
pub proof fn law_start_makes_sense(s: Start)
    ensures
        started(s).wf(),
{
    reveal(started);
    reveal(session::slots_sound);
    reveal(app::contents_differ);
    broadcast use sound::group_sound;
}

fn make_frame() -> (r: Frame)
    ensures
        r@ == blank_frame(),
{
    let r = Frame {
        chat: ChatView::empty(),
        input_area: Rect::empty(),
        input_top: 0,
        expand_btn: None,
        jump_btn: None,
        chips: Vec::new(),
        tab_rects: Vec::new(),
        actions: Vec::new(),
        picker_rows: 0,
        tree_rows: 0,
    };
    assert(r@.actions =~= Seq::empty());
    r
}

fn make_clock(now: u64, micros: u128) -> (r: Clock)
    ensures
        r@ == first_clock(now, micros),
{
    Clock {
        now,
        micros,
        stamps: 0,
        tip: None,
        ambient_idx: 0,
        ambient_at: now,
        ctrl_c: None,
        spinner_idx: 0,
        git_check_at: now,
    }
}

fn make_plugins(ui_preset: String) -> (r: Plugins)
    ensures
        r@ == no_plugins(ui_preset@),
{
    let r = Plugins {
        commands: Vec::new(),
        installed: Vec::new(),
        dynamic: Vec::new(),
        approvals: Vec::new(),
        ui: Vec::new(),
        slots: Vec::new(),
        ui_preset,
    };
    assert(r@.commands =~= Seq::empty());
    assert(r@.installed =~= Seq::empty());
    assert(r@.dynamic =~= Seq::empty());
    assert(r@.approvals =~= Seq::empty());
    assert(r@.ui =~= Seq::empty());
    assert(r@.slots =~= Seq::empty());
    r
}

fn make_theme(mode: Mode, pack: PalettePack) -> (r: Theme)
    ensures
        r@ == first_theme(mode, pack@),
{
    let painted: u64 = pack.colors;
    let ghost p = pack@;
    let mut palettes: Vec<PalettePack> = Vec::new();
    palettes.push(pack);
    assert(app::palettes_view(palettes@) =~= seq![p]);
    Theme {
        mode,
        palettes,
        active: "default".to_owned(),
        preview: None,
        pending: None,
        painted,
    }
}

fn make_tabs(startup_bound: bool) -> (r: Tabs)
    ensures
        r@ == (TabsV {
            parked: Seq::empty(),
            current: 0,
            awaiting: Seq::empty(),
            startup_bound,
        }),
{
    let r = Tabs { parked: Vec::new(), current: 0, awaiting: Vec::new(), startup_bound };
    assert(r@.parked =~= Seq::empty());
    assert(r@.awaiting =~= Seq::empty());
    r
}

fn make_resume() -> (r: Resume)
    ensures
        r@ == (ResumeV { candidates: Seq::empty(), via_agent: false, listed: Seq::empty() }),
{
    let r = Resume { candidates: Vec::new(), via_agent: false, listed: Vec::new() };
    assert(r@.candidates =~= Seq::empty());
    assert(r@.listed =~= Seq::empty());
    r
}

fn make_counts() -> (r: Counts)
    ensures
        r@ == (CountsV {
            next_prompt: 1,
            again: false,
            next_transcript: 1,
            shells: 0,
            pending_shells: Seq::empty(),
        }),
{
    let r = Counts {
        next_prompt: 1,
        again: Ghost(false),
        next_transcript: 1,
        shells: 0,
        pending_shells: Vec::new(),
    };
    assert(r@.pending_shells =~= Seq::empty());
    r
}

fn make_pointer() -> (r: Pointer)
    ensures
        r == app::no_pointer(),
{
    Pointer {
        sel: None,
        selecting: false,
        last_click: None,
        input_sel: None,
        input_selecting: false,
        position: None,
        over_expand: false,
        over_jump: false,
        over_chip: None,
        jump_cell: None,
        flash: None,
        strip_offset: 0,
    }
}

/// The picture behind the chat: that of the chosen palette, once it is loaded.
pub open spec fn background(t: ThemeV) -> Option<u64> {
    match seqs::first(t.palettes, chosen_and_loaded(t.active)) {
        Some(p) => p.background,
        None => None,
    }
}

pub open spec fn chosen_and_loaded(id: Seq<char>) -> spec_fn(PalettePack<Seq<char>>) -> bool {
    |p: PalettePack<Seq<char>>| p.id == id && p.loaded
}

impl App {
    /// The client at its start.
    pub fn new(s: Start) -> (r: App)
        ensures
            r@ == started(s),
    {
        proof {
            reveal(started);
        }
        let mode = choose_mode(s.mode, &s.settings.theme_mode);
        let base = Base {
            locale: s.settings.language,
            tone: choose_tone(&s.settings.markdown_tone),
            demo: s.demo,
            attached: s.attached,
            vim: s.vim,
            vim_normal: s.vim_normal,
            pet_visible: false,
            image_limit: s.image_limit,
        };
        let mut out: Vec<Effect> = Vec::new();
        assert(crate::effect::effects_view(out@) =~= Seq::<EffectV>::empty());
        crate::effect::emit(
            &mut out,
            Effect::Transcript {
                id: 0,
                op: TranscriptOp::Open {
                    session: s.session_id.clone(),
                    locale: s.settings.language,
                },
            },
        );
        let r = App {
            live: SessionSlot::fresh(s.session_id, s.demo, 0),
            conn: SessionConnection::none(),
            state: RunState::Idle,
            tabs: make_tabs(s.demo),
            theme: make_theme(mode, s.default_pack),
            pointer: make_pointer(),
            frame: make_frame(),
            menu: Menu {
                picker: None,
                select: None,
                slider: None,
                slash_sel: 0,
                slash_dismissed: false,
                host_models: Vec::new(),
            },
            plugins: make_plugins(s.settings.ui_preset),
            resume: make_resume(),
            cfg: s.cfg,
            base,
            clock: make_clock(s.now, s.micros),
            status: Status {
                branch: None,
                connection_error: None,
                terminal_auth: None,
                quit: false,
                redraw: true,
            },
            counts: make_counts(),
            out,
        };
        assert(r@.out =~= started(s).out);
        assert(r@.menu.host_models =~= Seq::empty());
        r
    }

    /// The picture to paint behind the chat.
    pub fn active_background(&self) -> (r: Option<u64>)
        ensures
            r == background(self@.theme),
    {
        let v = &self.theme.palettes;
        let ghost all = self@.theme.palettes;
        let ghost p = chosen_and_loaded(self@.theme.active);
        let mut i: usize = 0;
        while i < v.len() && !(text::same(v[i].id.as_str(), self.theme.active.as_str())
            && v[i].loaded)
            invariant
                i <= v@.len(),
                *v == self.theme.palettes,
                all == app::palettes_view(v@),
                p == chosen_and_loaded(self@.theme.active),
                forall|k: int| 0 <= k < i ==> !p(#[trigger] all[k]),
            decreases v@.len() - i,
        {
            assert(all[i as int] == v@[i as int]@);
            i = i + 1;
        }
        proof {
            if i < v@.len() {
                assert(all[i as int] == v@[i as int]@);
            }
            seqs::lemma_first_index_is(all, p, i as int);
        }
        if i < v.len() {
            v[i].background
        } else {
            None
        }
    }

    /// The colours that the canvas is painted with, on a terminal that can
    /// show `pixels` or cannot. There are none where the canvas is left clear
    /// for the picture.
    pub fn canvas_background_color(&self, pixels: bool) -> (r: Option<u64>)
        ensures
            r == (if pixels && background(self@.theme) is Some {
                None
            } else {
                Some(self@.theme.painted)
            }),
    {
        if pixels && self.active_background().is_some() {
            None
        } else {
            Some(self.theme.painted)
        }
    }

    /// Whether the body of a text has one colour or two.
    pub fn tone_mode(&self) -> (r: ToneMode)
        ensures
            r == self@.base.tone,
    {
        self.base.tone
    }

    /// The preset of the screen that was kept of an earlier run.
    pub fn ui_preset(&self) -> (r: &str)
        ensures
            r@ == self@.plugins.ui_preset,
    {
        self.plugins.ui_preset.as_str()
    }
}

} // verus!
