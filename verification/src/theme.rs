//! Palettes: which are known, which one is chosen, and which is only tried out.

use crate::app::{self, App, AppV, Theme, ThemeV};
use crate::bus::{Cmd, PalettePack};
use crate::effect::{Effect, NoticeLevel};
use crate::json::{self, Json, JsonValue};
use crate::picker::{self, Picker, PickerItem, PickerKind, PickerV};
use crate::seqs;
use crate::text;
use vstd::prelude::*;

verus! {

pub type PackV = PalettePack<Seq<char>>;

/// The palettes with this id.
pub open spec fn pack_named(id: Seq<char>) -> spec_fn(PackV) -> bool {
    |p: PackV| p.id == id
}

/// The palettes with any other id.
pub open spec fn pack_other(id: Seq<char>) -> spec_fn(PackV) -> bool {
    |p: PackV| p.id != id
}

impl ThemeV {
    pub open spec fn knows(self, id: Seq<char>) -> bool {
        seqs::some(self.palettes, pack_named(id))
    }

    pub open spec fn pack(self, id: Seq<char>) -> Option<PackV> {
        seqs::first(self.palettes, pack_named(id))
    }

    /// The chosen palette is painted.
    pub open spec fn synced(self) -> ThemeV {
        ThemeV {
            painted: match self.pack(self.active) {
                Some(p) => p.colors,
                None => self.painted,
            },
            ..self
        }
    }

    /// A palette is chosen, and nothing is tried out any more.
    pub open spec fn chosen(self, id: Seq<char>) -> ThemeV {
        ThemeV { preview: None, pending: None, active: id, ..self }.synced()
    }

    pub open spec fn with_pack(self, pack: PackV) -> ThemeV {
        let at = seqs::first_index(self.palettes, pack_named(pack.id));
        ThemeV {
            palettes: if at < self.palettes.len() {
                self.palettes.update(at, pack)
            } else {
                self.palettes.push(pack)
            },
            ..self
        }
    }

    /// What is tried out is given up.
    pub open spec fn unpreviewed(self) -> ThemeV {
        ThemeV { preview: None, pending: None, ..self }.synced()
    }
}

fn find_pack(v: &Vec<PalettePack>, id: &str) -> (r: usize)
    ensures
        r == seqs::first_index(app::palettes_view(v@), pack_named(id@)),
        r <= v@.len(),
{
    let ghost all = app::palettes_view(v@);
    let mut i: usize = 0;
    while i < v.len() && !text::same(v[i].id.as_str(), id)
        invariant
            i <= v@.len(),
            all == app::palettes_view(v@),
            forall|k: int| 0 <= k < i ==> !pack_named(id@)(#[trigger] all[k]),
        decreases v@.len() - i,
    {
        assert(all[i as int] == v@[i as int]@);
        i = i + 1;
    }
    proof {
        seqs::lemma_first_index_is(all, pack_named(id@), i as int);
    }
    i
}

impl Theme {
    fn colors_of(&self, id: &str) -> (r: Option<(u64, bool)>)
        ensures
            r == (match self@.pack(id@) {
                Some(p) => Some((p.colors, p.loaded)),
                None => None,
            }),
    {
        let at = find_pack(&self.palettes, id);
        if at < self.palettes.len() {
            assert(self@.palettes[at as int] == self.palettes@[at as int]@);
            Some((self.palettes[at].colors, self.palettes[at].loaded))
        } else {
            None
        }
    }

    fn sync(&mut self)
        ensures
            final(self)@ == old(self)@.synced(),
    {
        if let Some((colors, _)) = self.colors_of(self.active.as_str()) {
            self.painted = colors;
        }
    }

    fn choose_pack(&mut self, id: &str)
        ensures
            final(self)@ == old(self)@.chosen(id@),
    {
        self.preview = None;
        self.pending = None;
        self.active = id.to_owned();
        self.sync();
    }

    fn put_pack(&mut self, pack: PalettePack)
        ensures
            final(self)@ == old(self)@.with_pack(pack@),
    {
        let ghost before = self@.palettes;
        let at = find_pack(&self.palettes, pack.id.as_str());
        if at < self.palettes.len() {
            self.palettes.set(at, pack);
            assert(self@.palettes =~= before.update(at as int, pack@));
        } else {
            self.palettes.push(pack);
            assert(self@.palettes =~= before.push(pack@));
        }
    }

    fn give_up_preview(&mut self)
        ensures
            final(self)@ == old(self)@.unpreviewed(),
    {
        self.preview = None;
        self.pending = None;
        self.sync();
    }

    fn remove_pack(&mut self, id: &str)
        ensures
            final(self)@ == (ThemeV {
                palettes: old(self)@.palettes.filter(pack_other(id@)),
                ..old(self)@
            }),
    {
        let ghost all = self@.palettes;
        let ghost p = pack_other(id@);
        let mut kept: Vec<PalettePack> = Vec::new();
        let mut i: usize = 0;
        proof {
            seqs::lemma_filter_empty(all.take(0), p);
        }
        assert(app::palettes_view(kept@) =~= all.take(0).filter(p));
        while i < self.palettes.len()
            invariant
                i <= self.palettes@.len(),
                all == app::palettes_view(self.palettes@),
                p == pack_other(id@),
                app::palettes_view(kept@) == all.take(i as int).filter(p),
            decreases self.palettes@.len() - i,
        {
            proof {
                seqs::lemma_filter_push(all, p, i as int);
            }
            assert(all[i as int] == self.palettes@[i as int]@);
            let ghost before = app::palettes_view(kept@);
            if !text::same(self.palettes[i].id.as_str(), id) {
                let c = &self.palettes[i];
                kept.push(
                    PalettePack {
                        id: c.id.clone(),
                        label: c.label.clone(),
                        source: c.source.clone(),
                        loaded: c.loaded,
                        colors: c.colors,
                        background: c.background,
                    },
                );
                assert(app::palettes_view(kept@) =~= before.push(all[i as int]));
            }
            i = i + 1;
        }
        assert(all.take(i as int) =~= all);
        self.palettes = kept;
    }
}

/// The row of a palette in the list of themes.
pub open spec fn theme_row(p: PackV, active: Seq<char>) -> PickerItem<Seq<char>> {
    PickerItem {
        id: p.id,
        label: p.label,
        meta: p.source + (if p.id == active {
            " · active"@
        } else if p.loaded {
            " · ready"@
        } else {
            " · stopped"@
        }),
        provider: None,
    }
}

pub open spec fn theme_rows(v: Seq<PackV>, active: Seq<char>) -> Seq<PickerItem<Seq<char>>> {
    Seq::new(v.len(), |i: int| theme_row(v[i], active))
}

/// The rows with this id.
pub open spec fn row_named(id: Seq<char>) -> spec_fn(PickerItem<Seq<char>>) -> bool {
    |i: PickerItem<Seq<char>>| i.id == id
}

pub fn find_row(v: &Vec<PickerItem>, id: &str) -> (r: usize)
    ensures
        r == seqs::first_index(picker::items_view(v@), row_named(id@)),
        r <= v@.len(),
{
    let ghost all = picker::items_view(v@);
    let mut i: usize = 0;
    while i < v.len() && !text::same(v[i].id.as_str(), id)
        invariant
            i <= v@.len(),
            all == picker::items_view(v@),
            forall|k: int| 0 <= k < i ==> !row_named(id@)(#[trigger] all[k]),
        decreases v@.len() - i,
    {
        assert(all[i as int] == v@[i as int]@);
        i = i + 1;
    }
    proof {
        seqs::lemma_first_index_is(all, row_named(id@), i as int);
    }
    i
}

/// The row with this id, or the first.
pub open spec fn row_or_first(rows: Seq<PickerItem<Seq<char>>>, id: Seq<char>) -> usize {
    match seqs::position(rows, row_named(id)) {
        Some(i) => i,
        None => 0,
    }
}

pub fn find_row_or_first(v: &Vec<PickerItem>, id: &str) -> (r: usize)
    ensures
        r == row_or_first(picker::items_view(v@), id@),
{
    let at = find_row(v, id);
    if at < v.len() {
        at
    } else {
        0
    }
}

/// A list that has just been opened.
pub open spec fn opened(
    kind: PickerKind,
    title: Seq<char>,
    sel: usize,
    items: Seq<PickerItem<Seq<char>>>,
) -> PickerV {
    Picker { kind, title, sel, items, offset: 0 }
}

impl AppV {
    pub open spec fn with_theme(self, t: ThemeV) -> AppV {
        AppV { theme: t, ..self }
    }

    pub open spec fn theme_text(self) -> Seq<char> {
        app::said2(
            self.base.locale,
            ("theme: "@, " "@, ""@),
            ("主题："@, " "@, ""@),
            self.theme.active,
            app::mode_name(self.theme.mode),
        )
    }

    /// A palette is chosen.
    #[verifier::opaque]
    pub open spec fn activate(self, id: Seq<char>) -> AppV {
        if self.theme.knows(id) {
            let a = self.with_theme(self.theme.chosen(id));
            a.tip(a.theme_text())
        } else {
            self
        }
    }

    /// A palette has been registered or has changed.
    #[verifier::opaque]
    pub open spec fn merge_pack(self, pack: PackV, activate: bool) -> AppV {
        let a = self.with_theme(self.theme.with_pack(pack));
        if !pack.loaded && self.theme.active == pack.id {
            a.activate("default"@)
        } else if activate && pack.loaded {
            a.activate(pack.id)
        } else if pack.loaded && self.theme.active == pack.id {
            a.with_theme(a.theme.synced())
        } else {
            a
        }
    }

    /// A palette is gone. The built-in one stays.
    #[verifier::opaque]
    pub open spec fn drop_pack(self, params: Json) -> AppV {
        match json::string_member(params, "id"@) {
            Some(id) => if json::number_in(json::member(params, "protocol"@)) != Some(0nat) || id
                == "default"@ {
                self
            } else {
                (if self.theme.active == id {
                    self.activate("default"@)
                } else {
                    self
                }).without_pack(id).redrawn()
            },
            None => self,
        }
    }

    #[verifier::opaque]
    pub open spec fn without_pack(self, id: Seq<char>) -> AppV {
        self.with_theme(
            ThemeV { palettes: self.theme.palettes.filter(pack_other(id)), ..self.theme },
        )
    }

    /// Enter on a palette. One whose plugin is stopped is painted at once and
    /// chosen when it has loaded.
    #[verifier::opaque]
    pub open spec fn pick_palette(self, id: Seq<char>) -> AppV {
        match self.theme.pack(id) {
            None => self,
            Some(p) => (if p.loaded {
                self.activate(id)
            } else {
                self.tip(
                    app::said1(
                        self.base.locale,
                        ("loading theme plugin for "@, "…"@),
                        ("正在加载主题插件 "@, "…"@),
                        id,
                    ),
                ).painting_ahead(id, p.colors)
            }).send(Cmd::PluginThemeSelected { agent_id: self.live.id, id }),
        }
    }

    #[verifier::opaque]
    pub open spec fn painting_ahead(self, id: Seq<char>, colors: u64) -> AppV {
        if self.theme.active != id {
            self.with_theme(
                ThemeV { painted: colors, preview: Some(id), pending: Some(id), ..self.theme },
            ).redrawn()
        } else {
            self
        }
    }

    /// What is tried out is given up, if anything is.
    #[verifier::opaque]
    pub open spec fn without_preview(self) -> AppV {
        if self.theme.preview is Some || self.theme.pending is Some {
            self.with_theme(self.theme.unpreviewed()).redrawn()
        } else {
            self
        }
    }

    /// A palette is tried out; the chosen one stays chosen.
    #[verifier::opaque]
    pub open spec fn try_palette(self, id: Seq<char>) -> AppV {
        if self.theme.active == id {
            self.without_preview()
        } else {
            match self.theme.pack(id) {
                None => self,
                Some(p) => self.with_theme(
                    ThemeV {
                        painted: p.colors,
                        preview: Some(id),
                        pending: if self.theme.pending == Some(id) {
                            Some(id)
                        } else {
                            None
                        },
                        ..self.theme
                    },
                ).redrawn(),
            }
        }
    }

    /// The row highlighted in the list of themes.
    pub open spec fn picker_theme(self) -> Option<Seq<char>> {
        match self.menu.picker {
            Some(p) => if p.kind == PickerKind::Theme && p.sel < p.items.len() {
                Some(p.items[p.sel as int].id)
            } else {
                None
            },
            None => None,
        }
    }

    #[verifier::opaque]
    pub open spec fn try_picker_theme(self) -> AppV {
        match self.picker_theme() {
            Some(id) => self.try_palette(id),
            None => self,
        }
    }

    /// Dark becomes light and light dark.
    #[verifier::opaque]
    pub open spec fn toggle_mode(self) -> AppV {
        let a = self.with_theme(
            ThemeV { mode: app::other_mode(self.theme.mode), ..self.theme },
        ).emit(Effect::SaveSettings);
        a.tip(a.theme_text())
    }

    #[verifier::opaque]
    pub open spec fn open_themes(self) -> AppV {
        let rows = theme_rows(self.theme.palettes, self.theme.active);
        self.with_picker(
            Some(
                opened(
                    PickerKind::Theme,
                    self.says(
                        " theme · ↑↓ preview · enter apply · esc close · ctrl+t "@,
                        " 主题 · ↑↓ 预览 · enter 确定 · esc 关闭 · ctrl+t "@,
                    ),
                    row_or_first(rows, self.theme.active),
                    rows,
                ),
            ),
        )
    }

    /// The theme command.
    #[verifier::opaque]
    pub open spec fn theme_command(self, arg: Seq<char>) -> AppV {
        if arg == ""@ {
            self.open_themes()
        } else if arg == "toggle"@ {
            self.toggle_mode()
        } else if self.theme.knows(arg) {
            self.pick_palette(arg)
        } else {
            self.tip(
                app::said1(
                    self.base.locale,
                    ("unknown palette: "@, ""@),
                    ("未知主题包："@, ""@),
                    arg,
                ),
            ).notice(
                NoticeLevel::Warn,
                app::said1(
                    self.base.locale,
                    ("unknown palette `"@, "`"@),
                    ("未知主题包 `"@, "`"@),
                    arg,
                ),
            )
        }
    }
}

impl App {
    fn say_theme(&self) -> (r: String)
        ensures
            r@ == self@.theme_text(),
    {
        app::say2(
            self.base.locale,
            ("theme: ", " ", ""),
            ("主题：", " ", ""),
            self.theme.active.as_str(),
            self.theme.mode.as_str(),
        )
    }

    pub(crate) fn activate_palette(&mut self, id: &str)
        ensures
            final(self)@ == old(self)@.activate(id@),
    {
        proof {
            reveal(AppV::activate);
        }
        if find_pack(&self.theme.palettes, id) >= self.theme.palettes.len() {
            return;
        }
        self.theme.choose_pack(id);
        let t = self.say_theme();
        self.show_tip(t);
    }

    /// Takes up a palette that was registered or has changed.
    pub(crate) fn merge_palette(&mut self, pack: PalettePack, activate: bool)
        ensures
            final(self)@ == old(self)@.merge_pack(pack@, activate),
    {
        proof {
            reveal(AppV::merge_pack);
        }
        let id = pack.id.clone();
        let loaded = pack.loaded;
        let active = text::same(self.theme.active.as_str(), id.as_str());
        self.theme.put_pack(pack);
        if !loaded && active {
            self.activate_palette("default");
        } else if activate && loaded {
            self.activate_palette(id.as_str());
        } else if loaded && active {
            self.theme.sync();
        }
    }

    pub(crate) fn remove_palette_rpc(&mut self, params: &JsonValue)
        ensures
            final(self)@ == old(self)@.drop_pack(params@),
    {
        proof {
            reveal(AppV::drop_pack);
        }
        let protocol = json::as_u64(json::get(params, "protocol"));
        let zero = match protocol {
            Some(n) => n == 0,
            None => false,
        };
        if let Some(id) = json::get_str(params, "id") {
            if !zero || text::same(id, "default") {
                return;
            }
            if text::same(self.theme.active.as_str(), id) {
                self.activate_palette("default");
            }
            self.forget_palette(id);
            self.redraw();
        }
    }

    fn forget_palette(&mut self, id: &str)
        ensures
            final(self)@ == old(self)@.without_pack(id@),
    {
        proof {
            reveal(AppV::without_pack);
        }
        self.theme.remove_pack(id);
    }

    fn paint_ahead(&mut self, id: &str, colors: u64)
        ensures
            final(self)@ == old(self)@.painting_ahead(id@, colors),
    {
        proof {
            reveal(AppV::painting_ahead);
        }
        if !text::same(self.theme.active.as_str(), id) {
            self.theme.painted = colors;
            self.theme.preview = Some(id.to_owned());
            self.theme.pending = Some(id.to_owned());
            self.redraw();
        }
    }

    pub(crate) fn select_palette(&mut self, id: &str)
        ensures
            final(self)@ == old(self)@.pick_palette(id@),
    {
        proof {
            reveal(AppV::pick_palette);
        }
        let agent_id = self.session_id();
        if let Some((colors, loaded)) = self.theme.colors_of(id) {
            if loaded {
                self.activate_palette(id);
            } else {
                let t = app::say1(
                    self.base.locale,
                    ("loading theme plugin for ", "…"),
                    ("正在加载主题插件 ", "…"),
                    id,
                );
                self.show_tip(t);
                self.paint_ahead(id, colors);
            }
            self.send(Cmd::PluginThemeSelected { agent_id, id: id.to_owned() });
        }
    }

    pub(crate) fn clear_theme_preview(&mut self)
        ensures
            final(self)@ == old(self)@.without_preview(),
    {
        proof {
            reveal(AppV::without_preview);
        }
        if self.theme.preview.is_some() || self.theme.pending.is_some() {
            self.theme.give_up_preview();
            self.redraw();
        }
    }

    pub(crate) fn preview_palette(&mut self, id: &str)
        ensures
            final(self)@ == old(self)@.try_palette(id@),
    {
        proof {
            reveal(AppV::try_palette);
        }
        if text::same(self.theme.active.as_str(), id) {
            self.clear_theme_preview();
            return;
        }
        if let Some((colors, _)) = self.theme.colors_of(id) {
            self.theme.painted = colors;
            self.theme.preview = Some(id.to_owned());
            let same = match &self.theme.pending {
                Some(p) => text::same(p.as_str(), id),
                None => false,
            };
            if !same {
                self.theme.pending = None;
            }
            self.redraw();
        }
    }

    pub(crate) fn preview_picker_theme(&mut self)
        ensures
            final(self)@ == old(self)@.try_picker_theme(),
    {
        proof {
            reveal(AppV::try_picker_theme);
        }
        let id = self.highlighted_theme();
        if let Some(id) = id {
            self.preview_palette(id.as_str());
        }
    }

    pub(crate) fn highlighted_theme(&self) -> (r: Option<String>)
        ensures
            text::opt_view(r) == self@.picker_theme(),
    {
        match &self.menu.picker {
            Some(p) => if matches!(p.kind, PickerKind::Theme) && p.sel < p.items.len() {
                assert(p@.items[p.sel as int] == p.items@[p.sel as int]@);
                Some(p.items[p.sel].id.clone())
            } else {
                None
            },
            None => None,
        }
    }

    pub(crate) fn toggle_theme_mode(&mut self)
        ensures
            final(self)@ == old(self)@.toggle_mode(),
    {
        proof {
            reveal(AppV::toggle_mode);
        }
        self.theme.mode = self.theme.mode.toggled();
        self.emit(Effect::SaveSettings);
        let t = self.say_theme();
        self.show_tip(t);
    }

    fn theme_items(&self) -> (r: Vec<PickerItem>)
        ensures
            picker::items_view(r@) == theme_rows(self@.theme.palettes, self@.theme.active),
    {
        let ghost all = self@.theme.palettes;
        let mut r: Vec<PickerItem> = Vec::new();
        let mut i: usize = 0;
        while i < self.theme.palettes.len()
            invariant
                i <= self.theme.palettes@.len(),
                all == app::palettes_view(self.theme.palettes@),
                r@.len() == i,
                forall|k: int|
                    0 <= k < i ==> (#[trigger] r@[k])@ == theme_row(all[k], self@.theme.active),
            decreases self.theme.palettes@.len() - i,
        {
            let p = &self.theme.palettes[i];
            assert(all[i as int] == p@);
            let mark = if text::same(p.id.as_str(), self.theme.active.as_str()) {
                " · active"
            } else if p.loaded {
                " · ready"
            } else {
                " · stopped"
            };
            r.push(
                PickerItem {
                    id: p.id.clone(),
                    label: p.label.clone(),
                    meta: text::concat2(p.source.as_str(), mark),
                    provider: None,
                },
            );
            i = i + 1;
        }
        assert(picker::items_view(r@) =~= theme_rows(all, self@.theme.active));
        r
    }

    pub(crate) fn open_theme_picker(&mut self)
        ensures
            final(self)@ == old(self)@.open_themes(),
    {
        proof {
            reveal(AppV::open_themes);
        }
        let items = self.theme_items();
        let sel = find_row_or_first(&items, self.theme.active.as_str());
        let title = self.say(
            " theme · ↑↓ preview · enter apply · esc close · ctrl+t ",
            " 主题 · ↑↓ 预览 · enter 确定 · esc 关闭 · ctrl+t ",
        );
        self.menu.picker = Some(
            Picker { kind: PickerKind::Theme, title, sel, items, offset: 0 },
        );
    }

    pub(crate) fn apply_theme_arg(&mut self, arg: &str)
        ensures
            final(self)@ == old(self)@.theme_command(arg@),
    {
        proof {
            reveal(AppV::theme_command);
        }
        if text::same(arg, "") {
            self.open_theme_picker();
        } else if text::same(arg, "toggle") {
            self.toggle_theme_mode();
        } else if find_pack(&self.theme.palettes, arg) < self.theme.palettes.len() {
            self.select_palette(arg);
        } else {
            let l = self.base.locale;
            self.show_tip(app::say1(l, ("unknown palette: ", ""), ("未知主题包：", ""), arg));
            self.notice(
                NoticeLevel::Warn,
                app::say1(l, ("unknown palette `", "`"), ("未知主题包 `", "`"), arg),
            );
        }
    }
}

} // verus!
