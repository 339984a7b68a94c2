//! What plugins put into the client: lists, palettes, popups, and places on
//! the screen.

use crate::app::{self, App, AppV, MenuV, Methods, PluginCommand, PluginsV, SliderOverlay, SlotContent};
use crate::bus::{PaletteNotice, PendingCordisApproval, UiPluginItem};
use crate::select::{self, SelectOption, SelectOverlay, SelectV};
use crate::seqs;
use crate::session::{self, ViewOverlay};
use crate::text;
use vstd::prelude::*;

verus! {

/// The notifications whose payload is decoded before it comes in.
#[derive(Debug, Clone, Copy, PartialEq, Eq, Structural)]
pub enum UpdateKind {
    Ui,
    Approvals,
    Palette,
    Commands,
    Overlay,
    Slot,
}

/// A popup of a plugin. Whether the numbers of a slider make sense, and
/// whether the nodes of a view do, is known to whoever decoded it.
pub enum PluginOverlay {
    Select(SelectOverlay),
    Slider { slider: SliderOverlay, valid: bool },
    View { view: ViewOverlay, valid: bool },
}

/// What a plugin tells, decoded.
pub enum PluginUpdate {
    Ui { protocol: u64, plugins: Vec<UiPluginItem> },
    Approvals { protocol: u64, approvals: Vec<PendingCordisApproval> },
    Commands { protocol: u64, commands: Vec<PluginCommand> },
    Palette(PaletteNotice),
    Overlay { protocol: u64, overlay: Option<PluginOverlay> },
    Slot(SlotContent),
    /// It was understood and is for someone else.
    Foreign,
    /// It was not understood.
    Bad { kind: UpdateKind, error: String },
}

/// Which kind of payload comes with a notification.
pub open spec fn update_kind(m: Methods<Seq<char>>, method: Seq<char>) -> Option<UpdateKind> {
    if method == m.ui_update {
        Some(UpdateKind::Ui)
    } else if method == m.approvals_update {
        Some(UpdateKind::Approvals)
    } else if method == m.theme_update {
        Some(UpdateKind::Palette)
    } else if method == m.commands_update {
        Some(UpdateKind::Commands)
    } else if method == m.overlay_update {
        Some(UpdateKind::Overlay)
    } else if method == m.slots_update {
        Some(UpdateKind::Slot)
    } else {
        None
    }
}

pub open spec fn valued(value: Seq<char>) -> spec_fn(SelectOption<Seq<char>>) -> bool {
    |o: SelectOption<Seq<char>>| o.value == value
}

/// The row that a select shows first, where it can be shown.
pub open spec fn initial_row(s: SelectV) -> Option<usize> {
    if select::well_made(s) {
        seqs::position(s.options, valued(s.value))
    } else {
        None
    }
}

proof fn lemma_initial_row(s: SelectV, r: Option<usize>)
    requires
        select::is_initial(s, r),
        s.options.len() <= usize::MAX,
    ensures
        r == initial_row(s),
{
    match r {
        Some(i) => {
            seqs::lemma_first_index_is(s.options, valued(s.value), i as int);
        },
        None => {
            if select::well_made(s) {
                seqs::lemma_first_index_is(s.options, valued(s.value), s.options.len() as int);
            }
        },
    }
}

/// A select that follows on an earlier state of itself: the query and the
/// choice are kept as far as they still make sense.
pub open spec fn carried_over(s: SelectV, previous: SelectV) -> SelectV {
    select::reconciled(
        SelectOverlay {
            query: if s.searchable {
                previous.query
            } else {
                s.query
            },
            sel: match seqs::position(s.options, valued(previous.value)) {
                Some(i) => i,
                None => s.sel,
            },
            ..s
        },
    )
}

/// A select as it is first shown.
pub open spec fn opened(s: SelectV, row: usize, previous: Option<SelectV>) -> SelectV {
    let a = SelectOverlay { sel: row, ..s };
    match previous {
        Some(p) => if p.id == s.id {
            carried_over(a, p)
        } else {
            a
        },
        None => a,
    }
}

fn find_value(v: &Vec<SelectOption>, value: &str) -> (r: usize)
    ensures
        r == seqs::first_index(select::options_view(v@), valued(value@)),
        r <= v@.len(),
{
    let ghost all = select::options_view(v@);
    let mut i: usize = 0;
    while i < v.len() && !text::same(v[i].value.as_str(), value)
        invariant
            i <= v@.len(),
            all == select::options_view(v@),
            forall|k: int| 0 <= k < i ==> !valued(value@)(#[trigger] all[k]),
        decreases v@.len() - i,
    {
        assert(all[i as int] == v@[i as int]@);
        i = i + 1;
    }
    proof {
        if i < v@.len() {
            assert(all[i as int] == v@[i as int]@);
        }
        seqs::lemma_first_index_is(all, valued(value@), i as int);
    }
    i
}

fn carry_over(s: &mut SelectOverlay, previous: &SelectOverlay)
    ensures
        final(s)@ == carried_over(old(s)@, previous@),
{
    if s.searchable {
        s.query = previous.query.clone();
    }
    let k = find_value(&s.options, previous.value.as_str());
    if k < s.options.len() {
        s.sel = k;
    }
    s.reconcile_search();
}

pub open spec fn in_slot(slot: Seq<char>) -> spec_fn(SlotContent<Seq<char>>) -> bool {
    |c: SlotContent<Seq<char>>| c.slot == slot
}

/// What is shown in a place has been told later than something new.
pub open spec fn is_stale(v: Seq<SlotContent<Seq<char>>>, c: SlotContent<Seq<char>>) -> bool {
    match seqs::first(v, in_slot(c.slot)) {
        Some(old) => match (c.rev, old.rev) {
            (Some(next), Some(previous)) => next <= previous,
            _ => false,
        },
        None => false,
    }
}

/// One place shows something new.
pub open spec fn with_content(v: Seq<SlotContent<Seq<char>>>, c: SlotContent<Seq<char>>) -> Seq<
    SlotContent<Seq<char>>,
> {
    let at = seqs::first_index(v, in_slot(c.slot));
    if is_stale(v, c) {
        v
    } else if at < v.len() {
        v.update(at, c)
    } else {
        v.push(c)
    }
}

/// What is shown in one place.
pub open spec fn shown_in(v: Seq<SlotContent<Seq<char>>>, slot: Seq<char>) -> Option<u64> {
    match seqs::first(v, in_slot(slot)) {
        Some(c) => Some(c.content),
        None => None,
    }
}

/// The place of the badge that tells which harness runs.
pub const HARNESS_SLOT: &'static str = "conversation.harness";

/// A place shows what was told of it last, unless that is stale; the other
/// places show what they showed.
pub proof fn law_place_shows_the_newest(
    v: Seq<SlotContent<Seq<char>>>,
    c: SlotContent<Seq<char>>,
    other: Seq<char>,
)
    ensures
        shown_in(with_content(v, c), c.slot) == (if is_stale(v, c) {
            shown_in(v, c.slot)
        } else {
            Some(c.content)
        }),
        other != c.slot ==> shown_in(with_content(v, c), other) == shown_in(v, other),
{
    let w = with_content(v, c);
    let p = in_slot(c.slot);
    let q = in_slot(other);
    seqs::lemma_first_index(v, p);
    seqs::lemma_first_index(v, q);
    let at = seqs::first_index(v, p);
    if !is_stale(v, c) {
        assert forall|k: int| 0 <= k < at implies !p(#[trigger] w[k]) by {
            assert(w[k] == v[k]);
        }
        seqs::lemma_first_index_is(w, p, at);
        if other != c.slot {
            let there = seqs::first_index(v, q);
            let goal = if there < v.len() {
                there
            } else {
                w.len() as int
            };
            assert forall|k: int| 0 <= k < goal implies !q(#[trigger] w[k]) by {
                if k != at {
                    assert(w[k] == v[k]);
                }
            }
            seqs::lemma_first_index_is(w, q, goal);
        }
    }
}

fn take_content(v: &mut Vec<SlotContent>, c: SlotContent)
    ensures
        app::contents_view(final(v)@) == with_content(app::contents_view(old(v)@), c@),
{
    let ghost all = app::contents_view(v@);
    let ghost p = in_slot(c@.slot);
    let mut i: usize = 0;
    while i < v.len() && !text::same(v[i].slot.as_str(), c.slot.as_str())
        invariant
            i <= v@.len(),
            all == app::contents_view(v@),
            p == in_slot(c@.slot),
            forall|k: int| 0 <= k < i ==> !p(#[trigger] all[k]),
        decreases v@.len() - i,
    {
        assert(all[i as int] == v@[i as int]@);
        i = i + 1;
    }
    proof {
        if i < v@.len() {
            assert(all[i as int] == v@[i as int]@);
        }
        seqs::lemma_first_index_is(all, p, i as int);
    }
    if i < v.len() {
        let stale = match (c.rev, v[i].rev) {
            (Some(next), Some(previous)) => next <= previous,
            _ => false,
        };
        if !stale {
            v.set(i, c);
            assert(app::contents_view(v@) =~= all.update(i as int, c@));
        }
    } else {
        v.push(c);
        assert(app::contents_view(v@) =~= all.push(c@));
    }
}

/// What is said of a payload that was not understood.
pub open spec fn refusal(kind: UpdateKind) -> ((Seq<char>, Seq<char>), (Seq<char>, Seq<char>)) {
    match kind {
        UpdateKind::Ui => (("UI Plugin catalog ignored: "@, ""@), ("已忽略 UI 插件目录："@, ""@)),
        UpdateKind::Approvals => (("plugin approvals ignored: "@, ""@), ("已忽略插件授权："@, ""@)),
        UpdateKind::Palette => (("palette ignored: "@, ""@), ("已忽略主题包："@, ""@)),
        UpdateKind::Commands => (("commands ignored: "@, ""@), ("已忽略命令："@, ""@)),
        UpdateKind::Overlay => (("overlay ignored: "@, ""@), ("已忽略 overlay："@, ""@)),
        UpdateKind::Slot => (("slot ignored: "@, ""@), ("已忽略 slot："@, ""@)),
    }
}

fn words_of_refusal(kind: UpdateKind) -> (r: (&'static str, &'static str))
    ensures
        ((r.0@, ""@), (r.1@, ""@)) == refusal(kind),
{
    match kind {
        UpdateKind::Ui => ("UI Plugin catalog ignored: ", "已忽略 UI 插件目录："),
        UpdateKind::Approvals => ("plugin approvals ignored: ", "已忽略插件授权："),
        UpdateKind::Palette => ("palette ignored: ", "已忽略主题包："),
        UpdateKind::Commands => ("commands ignored: ", "已忽略命令："),
        UpdateKind::Overlay => ("overlay ignored: ", "已忽略 overlay："),
        UpdateKind::Slot => ("slot ignored: ", "已忽略 slot："),
    }
}

impl AppV {
    pub open spec fn with_overlays(
        self,
        select: Option<SelectV>,
        slider: Option<app::SliderV>,
        view: Option<ViewOverlay<Seq<char>>>,
    ) -> AppV {
        AppV { menu: MenuV { select, slider, ..self.menu }, ..self }.with_view(view)
    }

    pub open spec fn refuse_overlay(self, en: Seq<char>, zh: Seq<char>) -> AppV {
        self.tell(en, zh).with_overlays(None, None, None)
    }

    /// A plugin opens, changes or closes its popup.
    #[verifier::opaque]
    pub open spec fn take_overlay(self, o: Option<PluginOverlay>) -> AppV {
        match o {
            Some(PluginOverlay::Select(s)) => match initial_row(s@) {
                Some(row) => self.with_overlays(Some(opened(s@, row, self.menu.select)), None, None),
                None => self.refuse_overlay(
                    "overlay ignored: invalid select"@,
                    "已忽略 overlay：无效的 select"@,
                ),
            },
            Some(PluginOverlay::Slider { slider, valid }) => if slider.id@.len() > 0 && valid {
                self.with_overlays(None, Some(slider@), None)
            } else {
                self.refuse_overlay(
                    "overlay ignored: invalid slider"@,
                    "已忽略 overlay：无效的 slider"@,
                )
            },
            Some(PluginOverlay::View { view, valid }) => if view.id@.len() > 0 && view.title@.len()
                > 0 && valid {
                self.with_overlays(
                    None,
                    None,
                    Some(ViewOverlay { notify_plugin: true, ..view@ }),
                )
            } else {
                self.refuse_overlay(
                    "overlay ignored: invalid view"@,
                    "已忽略 overlay：无效的 view"@,
                )
            },
            None => self.with_overlays(
                None,
                None,
                match self.live.popups.view {
                    Some(v) => if v.notify_plugin {
                        None
                    } else {
                        Some(v)
                    },
                    None => None,
                },
            ),
        }
    }

    /// A plugin tells something. Only what follows the first protocol counts.
    #[verifier::opaque]
    pub open spec fn plugin_told(self, u: PluginUpdate) -> AppV {
        (match u {
            PluginUpdate::Ui { protocol, plugins } => if protocol == 0 {
                AppV { plugins: PluginsV { ui: app::ui_view(plugins@), ..self.plugins }, ..self }
            } else {
                self
            },
            PluginUpdate::Approvals { protocol, approvals } => if protocol == 0 {
                AppV {
                    plugins: PluginsV {
                        approvals: app::approvals_view(approvals@),
                        ..self.plugins
                    },
                    ..self
                }
            } else {
                self
            },
            PluginUpdate::Commands { protocol, commands } => if protocol == 0 {
                AppV {
                    plugins: PluginsV { commands: app::commands_view(commands@), ..self.plugins },
                    ..self
                }
            } else {
                self
            },
            PluginUpdate::Palette(n) => self.merge_pack(n.pack@, n.activate),
            PluginUpdate::Overlay { protocol, overlay } => if protocol == 0 {
                self.take_overlay(overlay)
            } else {
                self
            },
            PluginUpdate::Slot(c) => AppV {
                plugins: PluginsV { slots: with_content(self.plugins.slots, c@), ..self.plugins },
                ..self
            },
            PluginUpdate::Foreign => self,
            PluginUpdate::Bad { kind, error } => self.tell1(
                refusal(kind).0,
                refusal(kind).1,
                error@,
            ),
        }).redrawn()
    }
}

impl App {
    /// Which kind of payload comes with a notification. Such a notification is
    /// decoded and handed to `plugin_update`.
    pub fn payload_of(&self, method: &str) -> (r: Option<UpdateKind>)
        ensures
            r == update_kind(self@.cfg.methods, method@),
    {
        let m = &self.cfg.methods;
        if text::same(method, m.ui_update.as_str()) {
            Some(UpdateKind::Ui)
        } else if text::same(method, m.approvals_update.as_str()) {
            Some(UpdateKind::Approvals)
        } else if text::same(method, m.theme_update.as_str()) {
            Some(UpdateKind::Palette)
        } else if text::same(method, m.commands_update.as_str()) {
            Some(UpdateKind::Commands)
        } else if text::same(method, m.overlay_update.as_str()) {
            Some(UpdateKind::Overlay)
        } else if text::same(method, m.slots_update.as_str()) {
            Some(UpdateKind::Slot)
        } else {
            None
        }
    }

    fn set_overlays(
        &mut self,
        select: Option<SelectOverlay>,
        slider: Option<SliderOverlay>,
        view: Option<ViewOverlay>,
    )
        ensures
            final(self)@ == old(self)@.with_overlays(
                app::opt_select_view(select),
                app::opt_slider_view(slider),
                session::opt_overlay_view(view),
            ),
    {
        self.menu.select = select;
        self.menu.slider = slider;
        self.set_view(view);
    }

    fn refuse(&mut self, en: &str, zh: &str)
        ensures
            final(self)@ == old(self)@.refuse_overlay(en@, zh@),
    {
        self.tell(en, zh);
        self.set_overlays(None, None, None);
    }

    fn open_select(&mut self, s: SelectOverlay)
        ensures
            final(self)@ == old(self)@.take_overlay(Some(PluginOverlay::Select(s))),
    {
        proof {
            reveal(AppV::take_overlay);
        }
        let row = select::select_initial_index(&s);
        let n: usize = s.options.len();
        proof {
            assert(s@.options.len() == n);
            lemma_initial_row(s@, row);
        }
        match row {
            Some(i) => {
                let mut shown = s;
                shown.sel = i;
                if let Some(p) = &self.menu.select {
                    if text::same(p.id.as_str(), shown.id.as_str()) {
                        carry_over(&mut shown, p);
                    }
                }
                self.set_overlays(Some(shown), None, None);
            },
            None => self.refuse(
                "overlay ignored: invalid select",
                "已忽略 overlay：无效的 select",
            ),
        }
    }

    fn close_plugin_view(&mut self)
        ensures
            final(self)@ == old(self)@.with_view(
                match old(self)@.live.popups.view {
                    Some(v) => if v.notify_plugin {
                        None
                    } else {
                        Some(v)
                    },
                    None => None,
                },
            ),
    {
        proof {
            reveal(session::slot_view);
        }
        let closes = match &self.live.popups.view {
            Some(v) => v.notify_plugin,
            None => false,
        };
        if closes {
            self.live.popups.view = None;
        }
    }

    fn change_overlay(&mut self, o: Option<PluginOverlay>)
        ensures
            final(self)@ == old(self)@.take_overlay(o),
    {
        match o {
            Some(PluginOverlay::Select(s)) => self.open_select(s),
            Some(PluginOverlay::Slider { slider, valid }) => {
                proof {
                    reveal(AppV::take_overlay);
                }
                if !slider.id.as_str().is_empty() && valid {
                    self.set_overlays(None, Some(slider), None);
                } else {
                    self.refuse("overlay ignored: invalid slider", "已忽略 overlay：无效的 slider");
                }
            },
            Some(PluginOverlay::View { view, valid }) => {
                proof {
                    reveal(AppV::take_overlay);
                }
                if !view.id.as_str().is_empty() && !view.title.as_str().is_empty() && valid {
                    let mut shown = view;
                    shown.notify_plugin = true;
                    self.set_overlays(None, None, Some(shown));
                } else {
                    self.refuse("overlay ignored: invalid view", "已忽略 overlay：无效的 view");
                }
            },
            None => {
                proof {
                    reveal(AppV::take_overlay);
                }
                self.menu.slider = None;
                self.menu.select = None;
                self.close_plugin_view();
            },
        }
    }

    pub(crate) fn hear_plugin(&mut self, u: PluginUpdate)
        ensures
            final(self)@ == old(self)@.plugin_told(u),
    {
        proof {
            reveal(AppV::plugin_told);
        }
        match u {
            PluginUpdate::Ui { protocol, plugins } => {
                if protocol == 0 {
                    self.plugins.ui = plugins;
                }
            },
            PluginUpdate::Approvals { protocol, approvals } => {
                if protocol == 0 {
                    self.plugins.approvals = approvals;
                }
            },
            PluginUpdate::Commands { protocol, commands } => {
                if protocol == 0 {
                    self.plugins.commands = commands;
                }
            },
            PluginUpdate::Palette(n) => self.merge_palette(n.pack, n.activate),
            PluginUpdate::Overlay { protocol, overlay } => {
                if protocol == 0 {
                    self.change_overlay(overlay);
                }
            },
            PluginUpdate::Slot(c) => take_content(&mut self.plugins.slots, c),
            PluginUpdate::Foreign => {},
            PluginUpdate::Bad { kind, error } => {
                let (en, zh) = words_of_refusal(kind);
                self.tell1((en, ""), (zh, ""), error.as_str());
            },
        }
        self.redraw();
    }
}

impl App {
    /// What is shown in one place, if anything is.
    pub fn slot_content(&self, slot: &str) -> (r: Option<u64>)
        ensures
            r == shown_in(self@.plugins.slots, slot@),
    {
        let v = &self.plugins.slots;
        let ghost all = self@.plugins.slots;
        let ghost p = in_slot(slot@);
        let mut i: usize = 0;
        while i < v.len() && !text::same(v[i].slot.as_str(), slot)
            invariant
                i <= v@.len(),
                all == app::contents_view(v@),
                p == in_slot(slot@),
                forall|k: int| 0 <= k < i ==> !p(#[trigger] all[k]),
            decreases v@.len() - i,
        {
            assert(all[i as int] == v@[i as int]@);
            i = i + 1;
        }
        proof {
            if i < v@.len() {
                assert(all[i as int] == v@[i as int]@);
            }
            seqs::lemma_first_index_is(all, p, i as int);
        }
        if i < v.len() {
            Some(v[i].content)
        } else {
            None
        }
    }

    /// What the badge is drawn from that tells which harness runs.
    pub fn harness_badge(&self) -> (r: Option<u64>)
        ensures
            r == shown_in(self@.plugins.slots, HARNESS_SLOT@),
    {
        self.slot_content(HARNESS_SLOT)
    }
}

} // verus!
