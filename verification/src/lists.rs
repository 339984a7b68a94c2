//! The lists that the client opens, and the model, agent and permission that
//! they choose.

use crate::app::{self, App, AppV, ConfigV};
use crate::bus::{CatalogModel, CatalogPreset, Cmd, CordisPluginItem, UiPluginItem};
use crate::effect::{self, Locale};
use crate::events;
use crate::picker::{self, Picker, PickerItem, PickerKind};
use crate::presets;
use crate::seqs;
use crate::session::{self, ModelFacts, PopupsV, SlotV};
use crate::text;
use crate::theme::{find_row, find_row_or_first, opened, row_named, row_or_first};
use crate::tree::{self, PluginTree, PluginTreeV};
use vstd::prelude::*;

verus! {

pub type Row = PickerItem<Seq<char>>;

fn row(id: &str, label: &str, meta: String, provider: Option<String>) -> (r: PickerItem)
    ensures
        r@ == (PickerItem {
            id: id@,
            label: label@,
            meta: meta@,
            provider: text::opt_view(provider),
        }),
{
    PickerItem { id: id.to_owned(), label: label.to_owned(), meta, provider }
}

/// A row that says no more than its id.
pub open spec fn plain_row(id: Seq<char>) -> Row {
    PickerItem { id, label: id, meta: Seq::empty(), provider: None }
}

pub open spec fn plain_rows(ids: Seq<Seq<char>>) -> Seq<Row> {
    Seq::new(ids.len(), |i: int| plain_row(ids[i]))
}

fn list_plain(ids: &Vec<String>) -> (r: Vec<PickerItem>)
    ensures
        picker::items_view(r@) == plain_rows(text::views(ids@)),
{
    let ghost all = text::views(ids@);
    let mut r: Vec<PickerItem> = Vec::new();
    let mut i: usize = 0;
    while i < ids.len()
        invariant
            i <= ids@.len(),
            all == text::views(ids@),
            r@.len() == i,
            forall|k: int| 0 <= k < i ==> (#[trigger] r@[k])@ == plain_row(all[k]),
        decreases ids@.len() - i,
    {
        let id = ids[i].as_str();
        r.push(row(id, id, text::empty(), None));
        i = i + 1;
    }
    assert(picker::items_view(r@) =~= plain_rows(all));
    r
}

/// A list of ids in which one stands for sure.
pub open spec fn with_current(ids: Seq<Seq<char>>, current: Seq<char>) -> Seq<Seq<char>> {
    if ids.contains(current) {
        ids
    } else {
        seq![current] + ids
    }
}

// --- plugins ----------------------------------------------------------------------

pub open spec fn ui_row(p: UiPluginItem<Seq<char>>) -> Row {
    PickerItem {
        id: p.id,
        label: p.label,
        meta: p.source + " · "@ + p.status,
        provider: None,
    }
}

pub open spec fn ui_rows(v: Seq<UiPluginItem<Seq<char>>>) -> Seq<Row> {
    Seq::new(v.len(), |i: int| ui_row(v[i]))
}

/// The plugin that is active.
pub open spec fn is_active() -> spec_fn(UiPluginItem<Seq<char>>) -> bool {
    |p: UiPluginItem<Seq<char>>| p.status == "active"@
}

pub open spec fn ui_named(id: Seq<char>) -> spec_fn(UiPluginItem<Seq<char>>) -> bool {
    |p: UiPluginItem<Seq<char>>| p.id == id
}

fn list_ui(v: &Vec<UiPluginItem>) -> (r: Vec<PickerItem>)
    ensures
        picker::items_view(r@) == ui_rows(app::ui_view(v@)),
{
    let ghost all = app::ui_view(v@);
    let mut r: Vec<PickerItem> = Vec::new();
    let mut i: usize = 0;
    while i < v.len()
        invariant
            i <= v@.len(),
            all == app::ui_view(v@),
            r@.len() == i,
            forall|k: int| 0 <= k < i ==> (#[trigger] r@[k])@ == ui_row(all[k]),
        decreases v@.len() - i,
    {
        let p = &v[i];
        assert(all[i as int] == p@);
        let meta = text::concat3(p.source.as_str(), " · ", p.status.as_str());
        r.push(row(p.id.as_str(), p.label.as_str(), meta, None));
        i = i + 1;
    }
    assert(picker::items_view(r@) =~= ui_rows(all));
    r
}

fn find_active(v: &Vec<UiPluginItem>) -> (r: usize)
    ensures
        r == (match seqs::position(app::ui_view(v@), is_active()) {
            Some(i) => i,
            None => 0,
        }),
{
    let ghost all = app::ui_view(v@);
    let mut i: usize = 0;
    while i < v.len() && !text::same(v[i].status.as_str(), "active")
        invariant
            i <= v@.len(),
            all == app::ui_view(v@),
            forall|k: int| 0 <= k < i ==> !is_active()(#[trigger] all[k]),
        decreases v@.len() - i,
    {
        assert(all[i as int] == v@[i as int]@);
        i = i + 1;
    }
    proof {
        seqs::lemma_first_index_is(all, is_active(), i as int);
    }
    if i < v.len() {
        i
    } else {
        0
    }
}

pub(crate) fn knows_ui(v: &Vec<UiPluginItem>, id: &str) -> (r: bool)
    ensures
        r == seqs::some(app::ui_view(v@), ui_named(id@)),
{
    let ghost all = app::ui_view(v@);
    let mut i: usize = 0;
    while i < v.len() && !text::same(v[i].id.as_str(), id)
        invariant
            i <= v@.len(),
            all == app::ui_view(v@),
            forall|k: int| 0 <= k < i ==> !ui_named(id@)(#[trigger] all[k]),
        decreases v@.len() - i,
    {
        assert(all[i as int] == v@[i as int]@);
        i = i + 1;
    }
    proof {
        seqs::lemma_first_index_is(all, ui_named(id@), i as int);
    }
    i < v.len()
}

/// What can be done with a dynamic plugin, by its status.
pub open spec fn dynamic_meta(status: Seq<char>) -> Seq<char> {
    if status == "awaiting-approval"@ {
        "dynamic · awaiting approval · enter review"@
    } else if status == "running"@ || status == "waiting"@ {
        "dynamic · running · enter stop"@
    } else if status == "starting-host"@ || status == "client-pending"@ {
        "dynamic · starting"@
    } else if status == "failed"@ {
        "dynamic · failed · enter retry"@
    } else {
        "dynamic · stopped · enter restore"@
    }
}

fn dynamic_meta_of(status: &str) -> (r: &'static str)
    ensures
        r@ == dynamic_meta(status@),
{
    if text::same(status, "awaiting-approval") {
        "dynamic · awaiting approval · enter review"
    } else if text::same(status, "running") || text::same(status, "waiting") {
        "dynamic · running · enter stop"
    } else if text::same(status, "starting-host") || text::same(status, "client-pending") {
        "dynamic · starting"
    } else if text::same(status, "failed") {
        "dynamic · failed · enter retry"
    } else {
        "dynamic · stopped · enter restore"
    }
}

pub open spec fn dynamic_row(p: CordisPluginItem<Seq<char>>) -> Row {
    PickerItem { id: p.id, label: p.name, meta: dynamic_meta(p.status), provider: None }
}

pub open spec fn dynamic_rows(v: Seq<CordisPluginItem<Seq<char>>>) -> Seq<Row> {
    Seq::new(v.len(), |i: int| dynamic_row(v[i]))
}

fn list_dynamic(v: &Vec<CordisPluginItem>) -> (r: Vec<PickerItem>)
    ensures
        picker::items_view(r@) == dynamic_rows(app::dynamic_view(v@)),
{
    let ghost all = app::dynamic_view(v@);
    let mut r: Vec<PickerItem> = Vec::new();
    let mut i: usize = 0;
    while i < v.len()
        invariant
            i <= v@.len(),
            all == app::dynamic_view(v@),
            r@.len() == i,
            forall|k: int| 0 <= k < i ==> (#[trigger] r@[k])@ == dynamic_row(all[k]),
        decreases v@.len() - i,
    {
        let p = &v[i];
        assert(all[i as int] == p@);
        let meta = dynamic_meta_of(p.status.as_str()).to_owned();
        r.push(row(p.id.as_str(), p.name.as_str(), meta, None));
        i = i + 1;
    }
    assert(picker::items_view(r@) =~= dynamic_rows(all));
    r
}

pub open spec fn approval_rows(l: Locale, request: Seq<char>) -> Seq<Row> {
    seq![
        PickerItem {
            id: "allow-version"@,
            label: effect::spoken(l, "Allow this version"@, "允许当前版本"@),
            meta: Seq::empty(),
            provider: Some(request),
        },
        PickerItem {
            id: "allow-future"@,
            label: effect::spoken(l, "Allow future versions"@, "允许后续版本"@),
            meta: Seq::empty(),
            provider: Some(request),
        },
        PickerItem {
            id: "reject"@,
            label: effect::spoken(l, "Reject"@, "拒绝"@),
            meta: Seq::empty(),
            provider: Some(request),
        },
    ]
}

fn list_approval(l: Locale, request: &str) -> (r: Vec<PickerItem>)
    ensures
        picker::items_view(r@) == approval_rows(l, request@),
{
    let mut r: Vec<PickerItem> = Vec::new();
    r.push(
        row(
            "allow-version",
            effect::tr(l, "Allow this version", "允许当前版本"),
            text::empty(),
            Some(request.to_owned()),
        ),
    );
    r.push(
        row(
            "allow-future",
            effect::tr(l, "Allow future versions", "允许后续版本"),
            text::empty(),
            Some(request.to_owned()),
        ),
    );
    r.push(
        row("reject", effect::tr(l, "Reject", "拒绝"), text::empty(), Some(request.to_owned())),
    );
    assert(picker::items_view(r@) =~= approval_rows(l, request@));
    r
}

// --- models, agents, efforts -----------------------------------------------------

pub open spec fn model_row(m: CatalogModel<Seq<char>>) -> Row {
    PickerItem {
        id: m.id,
        label: m.id,
        meta: m.provider + " · "@ + m.name + (if m.vision {
            " · vision"@
        } else {
            ""@
        }),
        provider: Some(m.provider),
    }
}

pub open spec fn model_rows(v: Seq<CatalogModel<Seq<char>>>) -> Seq<Row> {
    Seq::new(v.len(), |i: int| model_row(v[i]))
}

pub(crate) fn list_models(v: &Vec<CatalogModel>) -> (r: Vec<PickerItem>)
    ensures
        picker::items_view(r@) == model_rows(events::models_view(v@)),
{
    let ghost all = events::models_view(v@);
    let mut r: Vec<PickerItem> = Vec::new();
    let mut i: usize = 0;
    while i < v.len()
        invariant
            i <= v@.len(),
            all == events::models_view(v@),
            r@.len() == i,
            forall|k: int| 0 <= k < i ==> (#[trigger] r@[k])@ == model_row(all[k]),
        decreases v@.len() - i,
    {
        let m = &v[i];
        assert(all[i as int] == m@);
        let mut meta = text::concat3(m.provider.as_str(), " · ", m.name.as_str());
        text::push_str(&mut meta, if m.vision { " · vision" } else { "" });
        r.push(row(m.id.as_str(), m.id.as_str(), meta, Some(m.provider.clone())));
        i = i + 1;
    }
    assert(picker::items_view(r@) =~= model_rows(all));
    r
}

/// The rows with this id and provider.
pub open spec fn row_from(id: Seq<char>, provider: Seq<char>) -> spec_fn(Row) -> bool {
    |i: Row| i.id == id && i.provider == Some(provider)
}

/// The row of a model: with its provider, otherwise by its id alone, otherwise
/// the first.
pub open spec fn model_sel(rows: Seq<Row>, id: Seq<char>, provider: Seq<char>) -> usize {
    match seqs::position(rows, row_from(id, provider)) {
        Some(i) => i,
        None => row_or_first(rows, id),
    }
}

pub(crate) fn find_model(v: &Vec<PickerItem>, id: &str, provider: &str) -> (r: usize)
    ensures
        r == model_sel(picker::items_view(v@), id@, provider@),
{
    let ghost all = picker::items_view(v@);
    let mut i: usize = 0;
    while i < v.len() && !is_from(&v[i], id, provider)
        invariant
            i <= v@.len(),
            all == picker::items_view(v@),
            forall|k: int| 0 <= k < i ==> !row_from(id@, provider@)(#[trigger] all[k]),
        decreases v@.len() - i,
    {
        assert(all[i as int] == v@[i as int]@);
        i = i + 1;
    }
    proof {
        seqs::lemma_first_index_is(all, row_from(id@, provider@), i as int);
    }
    if i < v.len() {
        i
    } else {
        find_row_or_first(v, id)
    }
}

fn is_from(i: &PickerItem, id: &str, provider: &str) -> (r: bool)
    ensures
        r == row_from(id@, provider@)(i@),
{
    text::same(i.id.as_str(), id) && match &i.provider {
        Some(p) => text::same(p.as_str(), provider),
        None => false,
    }
}

pub open spec fn preset_row(p: CatalogPreset<Seq<char>>) -> Row {
    PickerItem {
        id: p.id,
        label: p.name,
        meta: if p.broken {
            "⚠ broken · "@ + p.description
        } else {
            p.description
        },
        provider: None,
    }
}

pub open spec fn preset_rows(v: Seq<CatalogPreset<Seq<char>>>) -> Seq<Row> {
    Seq::new(v.len(), |i: int| preset_row(v[i]))
}

pub(crate) fn list_presets(v: &Vec<CatalogPreset>) -> (r: Vec<PickerItem>)
    ensures
        picker::items_view(r@) == preset_rows(events::presets_view(v@)),
{
    let ghost all = events::presets_view(v@);
    let mut r: Vec<PickerItem> = Vec::new();
    let mut i: usize = 0;
    while i < v.len()
        invariant
            i <= v@.len(),
            all == events::presets_view(v@),
            r@.len() == i,
            forall|k: int| 0 <= k < i ==> (#[trigger] r@[k])@ == preset_row(all[k]),
        decreases v@.len() - i,
    {
        let p = &v[i];
        assert(all[i as int] == p@);
        let meta = if p.broken {
            text::concat2("⚠ broken · ", p.description.as_str())
        } else {
            p.description.clone()
        };
        r.push(row(p.id.as_str(), p.name.as_str(), meta, None));
        i = i + 1;
    }
    assert(picker::items_view(r@) =~= preset_rows(all));
    r
}

pub open spec fn stock_row(s: presets::Stock) -> Row {
    PickerItem { id: s.0, label: s.1, meta: s.2, provider: None }
}

pub open spec fn stock_rows(v: Seq<presets::Stock>) -> Seq<Row> {
    Seq::new(v.len(), |i: int| stock_row(v[i]))
}

fn list_stock(v: &Vec<(String, String, String)>) -> (r: Vec<PickerItem>)
    ensures
        picker::items_view(r@) == stock_rows(presets::stock_view(v@)),
{
    let ghost all = presets::stock_view(v@);
    let mut r: Vec<PickerItem> = Vec::new();
    let mut i: usize = 0;
    while i < v.len()
        invariant
            i <= v@.len(),
            all == presets::stock_view(v@),
            r@.len() == i,
            forall|k: int| 0 <= k < i ==> (#[trigger] r@[k])@ == stock_row(all[k]),
        decreases v@.len() - i,
    {
        r.push(row(v[i].0.as_str(), v[i].1.as_str(), v[i].2.clone(), None));
        i = i + 1;
    }
    assert(picker::items_view(r@) =~= stock_rows(all));
    r
}

/// The presets with this id.
pub open spec fn preset_named(id: Seq<char>) -> spec_fn(CatalogPreset<Seq<char>>) -> bool {
    |p: CatalogPreset<Seq<char>>| p.id == id
}

pub open spec fn stock_named(id: Seq<char>) -> spec_fn(presets::Stock) -> bool {
    |s: presets::Stock| s.0 == id
}

fn find_preset(v: &Vec<CatalogPreset>, id: &str) -> (r: usize)
    ensures
        r == seqs::first_index(events::presets_view(v@), preset_named(id@)),
        r <= v@.len(),
{
    let ghost all = events::presets_view(v@);
    let mut i: usize = 0;
    while i < v.len() && !text::same(v[i].id.as_str(), id)
        invariant
            i <= v@.len(),
            all == events::presets_view(v@),
            forall|k: int| 0 <= k < i ==> !preset_named(id@)(#[trigger] all[k]),
        decreases v@.len() - i,
    {
        assert(all[i as int] == v@[i as int]@);
        i = i + 1;
    }
    proof {
        seqs::lemma_first_index_is(all, preset_named(id@), i as int);
    }
    i
}

pub(crate) fn find_stock(v: &Vec<(String, String, String)>, id: &str) -> (r: usize)
    ensures
        r == seqs::first_index(presets::stock_view(v@), stock_named(id@)),
        r <= v@.len(),
{
    let ghost all = presets::stock_view(v@);
    let mut i: usize = 0;
    while i < v.len() && !text::same(v[i].0.as_str(), id)
        invariant
            i <= v@.len(),
            all == presets::stock_view(v@),
            forall|k: int| 0 <= k < i ==> !stock_named(id@)(#[trigger] all[k]),
        decreases v@.len() - i,
    {
        i = i + 1;
    }
    proof {
        seqs::lemma_first_index_is(all, stock_named(id@), i as int);
    }
    i
}

pub open spec fn effort_row(e: Seq<char>, default: Option<Seq<char>>, l: Locale) -> Row {
    PickerItem {
        id: e,
        label: e,
        meta: if default == Some(e) {
            effect::spoken(l, "default"@, "默认"@)
        } else {
            Seq::empty()
        },
        provider: None,
    }
}

/// The efforts of a model; the stock ones where it names none.
pub open spec fn effort_rows(v: Seq<Seq<char>>, default: Option<Seq<char>>, l: Locale) -> Seq<Row> {
    if v.len() == 0 {
        plain_rows(stock_efforts())
    } else {
        Seq::new(v.len(), |i: int| effort_row(v[i], default, l))
    }
}

pub open spec fn stock_efforts() -> Seq<Seq<char>> {
    seq!["off"@, "high"@, "max"@]
}

pub(crate) fn list_stock_efforts() -> (r: Vec<String>)
    ensures
        text::views(r@) == stock_efforts(),
{
    let mut r: Vec<String> = Vec::new();
    r.push("off".to_owned());
    r.push("high".to_owned());
    r.push("max".to_owned());
    assert(text::views(r@) =~= stock_efforts());
    r
}

fn list_efforts(v: &Vec<String>, default: Option<&str>, l: Locale) -> (r: Vec<PickerItem>)
    ensures
        picker::items_view(r@) == effort_rows(text::views(v@), text::opt_str_view(default), l),
{
    if v.len() == 0 {
        let stock = list_stock_efforts();
        return list_plain(&stock);
    }
    let ghost all = text::views(v@);
    let ghost d = text::opt_str_view(default);
    let mut r: Vec<PickerItem> = Vec::new();
    let mut i: usize = 0;
    while i < v.len()
        invariant
            i <= v@.len(),
            all == text::views(v@),
            d == text::opt_str_view(default),
            r@.len() == i,
            forall|k: int| 0 <= k < i ==> (#[trigger] r@[k])@ == effort_row(all[k], d, l),
        decreases v@.len() - i,
    {
        let e = v[i].as_str();
        let meta = if text::opt_is(default, e) {
            effect::tr(l, "default", "默认").to_owned()
        } else {
            text::empty()
        };
        r.push(row(e, e, meta, None));
        i = i + 1;
    }
    assert(picker::items_view(r@) =~= effort_rows(all, d, l));
    r
}

/// The row of the first of two ids that is listed, or the first row.
pub open spec fn row_of_either(rows: Seq<Row>, a: Option<Seq<char>>, b: Option<Seq<char>>) -> usize {
    if a matches Some(id) && seqs::some(rows, row_named(id)) {
        seqs::first_index(rows, row_named(a->0)) as usize
    } else {
        match b {
            Some(id) => row_or_first(rows, id),
            None => 0,
        }
    }
}

fn find_either(v: &Vec<PickerItem>, a: Option<&str>, b: Option<&str>) -> (r: usize)
    ensures
        r == row_of_either(
            picker::items_view(v@),
            text::opt_str_view(a),
            text::opt_str_view(b),
        ),
{
    if let Some(id) = a {
        let at = find_row(v, id);
        if at < v.len() {
            return at;
        }
    }
    match b {
        Some(id) => find_row_or_first(v, id),
        None => 0,
    }
}

pub open spec fn stock_permission_row(
    p: (Seq<char>, Seq<char>),
    reported: Option<Seq<char>>,
    current: Seq<char>,
) -> Row {
    presets::permission_row(
        CatalogPreset { id: p.0, name: p.0, description: p.1, broken: false },
        reported,
        current,
    )
}

pub open spec fn stock_permission_rows(reported: Option<Seq<char>>, current: Seq<char>) -> Seq<Row> {
    Seq::new(
        presets::permission_table().len(),
        |i: int| stock_permission_row(presets::permission_table()[i], reported, current),
    )
}

fn list_stock_permissions(reported: Option<&str>, current: &str) -> (r: Vec<PickerItem>)
    ensures
        picker::items_view(r@) == stock_permission_rows(text::opt_str_view(reported), current@),
{
    let stock = presets::permission_presets();
    let ghost table = presets::permission_table();
    let mut v: Vec<CatalogPreset> = Vec::new();
    let mut i: usize = 0;
    while i < stock.len()
        invariant
            i <= stock@.len(),
            crate::bus::pairs_view(stock@) == table,
            v@.len() == i,
            forall|k: int|
                0 <= k < i ==> (#[trigger] v@[k])@ == (CatalogPreset {
                    id: table[k].0,
                    name: table[k].0,
                    description: table[k].1,
                    broken: false,
                }),
        decreases stock@.len() - i,
    {
        assert(crate::bus::pairs_view(stock@)[i as int] == (stock@[i as int].0@, stock@[i as int].1@));
        v.push(
            CatalogPreset {
                id: stock[i].0.clone(),
                name: stock[i].0.clone(),
                description: stock[i].1.clone(),
                broken: false,
            },
        );
        i = i + 1;
    }
    let r = presets::permission_picker_items(&v, reported, current);
    assert(stock@.len() == table.len()) by {
        assert(crate::bus::pairs_view(stock@).len() == stock@.len());
    }
    assert(picker::items_view(r@) =~= stock_permission_rows(
        text::opt_str_view(reported),
        current@,
    ));
    r
}

impl AppV {
    /// The model in effect: the one picked, else the one that streamed last,
    /// else the one configured.
    pub open spec fn model_now(self) -> Seq<char> {
        match self.live.models.selected {
            Some(m) => m,
            None => match self.live.models.last {
                Some(m) => m,
                None => self.cfg.model,
            },
        }
    }

    /// The agent preset in effect.
    pub open spec fn mode_now(self) -> Seq<char> {
        match self.live.modes.agent_preset {
            Some(m) => m,
            None => if self.base.demo {
                "standard"@
            } else if self.live.catalog.presets.len() > 0 {
                self.live.catalog.presets[0].id
            } else {
                Seq::empty()
            },
        }
    }

    /// The permission preset in effect.
    pub open spec fn permission_now(self) -> Seq<char> {
        match self.live.modes.permission {
            Some(p) => p,
            None => "workspace-write"@,
        }
    }

    /// How an agent preset is called.
    pub open spec fn label_of(self, id: Seq<char>) -> Seq<char> {
        match seqs::first(self.live.catalog.presets, preset_named(id)) {
            Some(p) => p.name,
            None => if self.base.demo {
                match seqs::first(presets::agent_mode_table(), stock_named(id)) {
                    Some(s) => s.1,
                    None => id,
                }
            } else {
                id
            },
        }
    }

    /// The models to choose from before the agent has listed its own.
    pub open spec fn known_models(self) -> Seq<Seq<char>> {
        with_current(
            if self.menu.host_models.len() > 0 {
                self.menu.host_models
            } else {
                presets::model_table()
            },
            self.model_now(),
        )
    }

    #[verifier::opaque]
    pub open spec fn open_ui_list(self) -> AppV {
        self.with_picker(
            Some(
                opened(
                    PickerKind::UiPlugin,
                    self.says(
                        " UI Plugins · enter apply · esc close "@,
                        " UI 插件 · enter 应用 · esc 关闭 "@,
                    ),
                    match seqs::position(self.plugins.ui, is_active()) {
                        Some(i) => i,
                        None => 0,
                    },
                    ui_rows(self.plugins.ui),
                ),
            ),
        )
    }

    /// The inventory of installed plugins, all groups open.
    #[verifier::opaque]
    pub open spec fn open_inventory(self) -> AppV {
        self.with_live(
            SlotV {
                popups: PopupsV {
                    tree: Some(
                        PluginTreeV {
                            title: self.says(
                                " Host plugins · static · read only · ↑↓ ←→ navigate · esc close "@,
                                " Host 插件 · 静态 · 只读 · ↑↓ ←→ 导航 · esc 关闭 "@,
                            ),
                            tree: tree::inventory(self.plugins.installed),
                        },
                    ),
                    ..self.live.popups
                },
                ..self.live
            },
        )
    }

    #[verifier::opaque]
    pub open spec fn open_dynamic_list(self) -> AppV {
        self.with_picker(
            Some(
                opened(
                    PickerKind::CordisPlugin,
                    self.says(
                        " Cordis plugins · dynamic · enter manage · esc close "@,
                        " Cordis 插件 · 动态 · enter 管理 · esc 关闭 "@,
                    ),
                    0,
                    dynamic_rows(self.plugins.dynamic),
                ),
            ),
        )
    }

    #[verifier::opaque]
    pub open spec fn open_approval(self, request: Seq<char>) -> AppV {
        self.with_picker(
            Some(
                opened(
                    PickerKind::CordisApproval,
                    self.says(" plugin approval · enter decide "@, " 插件审批 · enter 决定 "@),
                    0,
                    approval_rows(self.base.locale, request),
                ),
            ),
        )
    }

    #[verifier::opaque]
    pub open spec fn open_models(self) -> AppV {
        let rows = plain_rows(self.known_models());
        self.send(Cmd::FetchCatalog { session_id: self.live.id }).with_picker(
            Some(
                opened(
                    PickerKind::Model,
                    self.says(" model · enter select · esc close "@, " 模型 · enter 选择 · esc 关闭 "@),
                    row_or_first(rows, self.model_now()),
                    rows,
                ),
            ),
        )
    }

    #[verifier::opaque]
    pub open spec fn open_efforts(self, efforts: Seq<Seq<char>>, default: Option<Seq<char>>) -> AppV {
        let rows = effort_rows(efforts, default, self.base.locale);
        self.with_picker(
            Some(
                opened(
                    PickerKind::Effort,
                    self.says(
                        " reasoning effort · enter select · esc close "@,
                        " 推理强度 · enter 选择 · esc 关闭 "@,
                    ),
                    row_of_either(rows, self.live.modes.effort, default),
                    rows,
                ),
            ),
        )
    }

    pub open spec fn mode_rows(self) -> Seq<Row> {
        if self.base.demo {
            stock_rows(presets::agent_mode_table())
        } else {
            preset_rows(self.live.catalog.presets)
        }
    }

    #[verifier::opaque]
    pub open spec fn open_agents_list(self) -> AppV {
        self.send(Cmd::FetchCatalog { session_id: self.live.id }).with_picker(
            Some(
                opened(
                    PickerKind::Mode,
                    self.says(" agent · enter select · esc close "@, " Agent · enter 选择 · esc 关闭 "@),
                    row_or_first(self.mode_rows(), self.mode_now()),
                    self.mode_rows(),
                ),
            ),
        )
    }

    pub open spec fn permission_list(self) -> Seq<Row> {
        if self.live.catalog.permissions.len() == 0 {
            stock_permission_rows(self.live.modes.permission, self.permission_now())
        } else {
            presets::permission_rows(
                self.live.catalog.permissions,
                self.live.modes.permission,
                self.permission_now(),
            )
        }
    }

    #[verifier::opaque]
    pub open spec fn open_permissions(self) -> AppV {
        self.with_picker(
            Some(
                opened(
                    PickerKind::Permission,
                    self.says(
                        " permission · enter apply · esc close "@,
                        " 权限 · enter 应用 · esc 关闭 "@,
                    ),
                    row_or_first(self.permission_list(), self.permission_now()),
                    self.permission_list(),
                ),
            ),
        )
    }

    /// Another agent preset is asked for.
    #[verifier::opaque]
    pub open spec fn ask_mode(self, preset: Seq<char>) -> AppV {
        if self.live.modes.agent_preset == Some(preset) {
            self.tip(
                app::said1(
                    self.base.locale,
                    ("agent already "@, ""@),
                    ("Agent 已是 "@, ""@),
                    self.label_of(preset),
                ),
            )
        } else {
            self.send(Cmd::SetPreset { session_id: self.live.id, preset }).send(
                Cmd::FetchSkills { session_id: self.live.id },
            ).tip(
                app::said1(
                    self.base.locale,
                    ("agent → "@, " …"@),
                    ("Agent → "@, " …"@),
                    self.label_of(preset),
                ),
            )
        }
    }

    /// The ids of the agent presets, in order.
    pub open spec fn mode_ids(self) -> Seq<Seq<char>> {
        if self.base.demo {
            Seq::new(presets::agent_mode_table().len(), |i: int| presets::agent_mode_table()[i].0)
        } else {
            Seq::new(
                self.live.catalog.presets.len(),
                |i: int| self.live.catalog.presets[i].id,
            )
        }
    }

    /// The agent preset behind the one in effect, round and round.
    #[verifier::opaque]
    pub open spec fn next_mode(self) -> AppV {
        match after(self.mode_ids(), self.mode_now()) {
            Some(next) => self.ask_mode(next),
            None => self.send(Cmd::FetchCatalog { session_id: self.live.id }).tell(
                "agent presets unavailable"@,
                "Agent 预设不可用"@,
            ),
        }
    }

    pub open spec fn with_cfg(self, c: ConfigV) -> AppV {
        AppV { cfg: c, ..self }
    }

    pub open spec fn picked_model(self, model: Seq<char>) -> AppV {
        self.with_cfg(ConfigV { model, ..self.cfg }).with_live(
            SlotV {
                models: ModelFacts { selected: Some(model), ..self.live.models },
                ..self.live
            },
        )
    }

    /// A row of the list of models is chosen; its efforts are asked for.
    #[verifier::opaque]
    pub open spec fn choose_model(self, model: Seq<char>, provider: Option<Seq<char>>) -> AppV {
        let changed = model != self.cfg.model || (provider is Some && provider
            != Some(self.cfg.provider));
        let a = if changed {
            self.picked_model(model).with_provider(provider).send(
                Cmd::SelectModel {
                    session_id: self.live.id,
                    provider,
                    model: Some(model),
                    effort: None,
                },
            )
        } else {
            self
        };
        a.send(
            Cmd::FetchEfforts {
                session_id: self.live.id,
                provider: a.cfg.provider,
                model: a.cfg.model,
            },
        )
    }

    pub open spec fn with_provider(self, provider: Option<Seq<char>>) -> AppV {
        match provider {
            Some(p) => self.with_cfg(ConfigV { provider: p, ..self.cfg }),
            None => self,
        }
    }

    #[verifier::opaque]
    pub open spec fn ask_model(self, model: Seq<char>) -> AppV {
        if model == self.cfg.model {
            self
        } else {
            self.picked_model(model).send(
                Cmd::SelectModel {
                    session_id: self.live.id,
                    provider: None,
                    model: Some(model),
                    effort: None,
                },
            )
        }
    }

    /// Another permission preset is asked for.
    #[verifier::opaque]
    pub open spec fn ask_permission(self, preset: Seq<char>) -> AppV {
        if self.live.modes.permission == Some(preset) {
            self.tip(
                app::said1(
                    self.base.locale,
                    ("permission already "@, ""@),
                    ("权限预设已是 "@, ""@),
                    preset,
                ),
            )
        } else {
            self.send(Cmd::SetPermission { session_id: self.live.id, preset }).tip(
                app::said1(
                    self.base.locale,
                    ("permission → "@, " …"@),
                    ("权限预设 → "@, " …"@),
                    preset,
                ),
            )
        }
    }

    /// The permission preset behind the one in effect.
    #[verifier::opaque]
    pub open spec fn next_permission(self) -> AppV {
        self.ask_permission(after_or_second(self.permission_ids(), self.permission_now()))
    }

    /// The ids of the permission presets, in order.
    pub open spec fn permission_ids(self) -> Seq<Seq<char>> {
        if self.live.catalog.permissions.len() >= 2 {
            Seq::new(
                self.live.catalog.permissions.len(),
                |i: int| self.live.catalog.permissions[i].id,
            )
        } else {
            Seq::new(presets::permission_table().len(), |i: int| presets::permission_table()[i].0)
        }
    }
}

/// The texts equal to this one.
pub open spec fn is_text(t: Seq<char>) -> spec_fn(Seq<char>) -> bool {
    |s: Seq<char>| s == t
}

/// The entry behind `current`, round and round; the first where `current` is
/// not listed.
pub open spec fn after(ids: Seq<Seq<char>>, current: Seq<char>) -> Option<Seq<char>> {
    let at = seqs::first_index(ids, is_text(current));
    if ids.len() == 0 {
        None
    } else if at < ids.len() {
        Some(ids[(at + 1) % (ids.len() as int)])
    } else {
        Some(ids[0])
    }
}

/// The entry behind `current`, round and round; the second where `current` is
/// not listed.
pub open spec fn after_or_second(ids: Seq<Seq<char>>, current: Seq<char>) -> Seq<char> {
    let at = seqs::first_index(ids, is_text(current));
    if at < ids.len() {
        ids[(at + 1) % (ids.len() as int)]
    } else {
        ids[1int % (ids.len() as int)]
    }
}

pub(crate) fn find_text(v: &Vec<String>, t: &str) -> (r: usize)
    ensures
        r == seqs::first_index(text::views(v@), is_text(t@)),
        r <= v@.len(),
{
    let ghost all = text::views(v@);
    let mut i: usize = 0;
    while i < v.len() && !text::same(v[i].as_str(), t)
        invariant
            i <= v@.len(),
            all == text::views(v@),
            forall|k: int| 0 <= k < i ==> !is_text(t@)(#[trigger] all[k]),
        decreases v@.len() - i,
    {
        i = i + 1;
    }
    proof {
        seqs::lemma_first_index_is(all, is_text(t@), i as int);
    }
    i
}

pub(crate) fn next_index(at: usize, n: usize) -> (r: usize)
    requires
        at < n,
    ensures
        r == (at + 1) % (n as int),
        r < n,
{
    if at == n - 1 {
        assert((at + 1) % (n as int) == 0) by (nonlinear_arith)
            requires
                at + 1 == n,
                n > 0,
        ;
        0
    } else {
        assert((at + 1) % (n as int) == at + 1) by (nonlinear_arith)
            requires
                0 <= at + 1 < n,
        ;
        at + 1
    }
}

fn find_after(ids: &Vec<String>, current: &str) -> (r: Option<String>)
    ensures
        text::opt_view(r) == after(text::views(ids@), current@),
{
    if ids.len() == 0 {
        return None;
    }
    let at = find_text(ids, current);
    if at < ids.len() {
        let next = next_index(at, ids.len());
        Some(ids[next].clone())
    } else {
        Some(ids[0].clone())
    }
}

fn find_after_or_second(ids: &Vec<String>, current: &str) -> (r: String)
    requires
        ids@.len() > 0,
    ensures
        r@ == after_or_second(text::views(ids@), current@),
{
    let at = find_text(ids, current);
    let next = if at < ids.len() {
        next_index(at, ids.len())
    } else {
        next_index(0, ids.len())
    };
    ids[next].clone()
}

fn preset_ids(v: &Vec<CatalogPreset>) -> (r: Vec<String>)
    ensures
        text::views(r@) == Seq::new(v@.len(), |i: int| events::presets_view(v@)[i].id),
{
    let ghost all = events::presets_view(v@);
    let mut r: Vec<String> = Vec::new();
    let mut i: usize = 0;
    while i < v.len()
        invariant
            i <= v@.len(),
            all == events::presets_view(v@),
            r@.len() == i,
            forall|k: int| 0 <= k < i ==> (#[trigger] r@[k])@ == all[k].id,
        decreases v@.len() - i,
    {
        assert(all[i as int] == v@[i as int]@);
        r.push(v[i].id.clone());
        i = i + 1;
    }
    assert(text::views(r@) =~= Seq::new(v@.len(), |i: int| events::presets_view(v@)[i].id));
    r
}

fn stock_ids(v: &Vec<(String, String, String)>) -> (r: Vec<String>)
    ensures
        text::views(r@) == Seq::new(v@.len(), |i: int| presets::stock_view(v@)[i].0),
{
    let mut r: Vec<String> = Vec::new();
    let mut i: usize = 0;
    while i < v.len()
        invariant
            i <= v@.len(),
            r@.len() == i,
            forall|k: int| 0 <= k < i ==> (#[trigger] r@[k])@ == v@[k].0@,
        decreases v@.len() - i,
    {
        r.push(v[i].0.clone());
        i = i + 1;
    }
    assert(text::views(r@) =~= Seq::new(v@.len(), |i: int| presets::stock_view(v@)[i].0));
    r
}

fn pair_ids(v: &Vec<(String, String)>) -> (r: Vec<String>)
    ensures
        text::views(r@) == Seq::new(v@.len(), |i: int| crate::bus::pairs_view(v@)[i].0),
{
    let mut r: Vec<String> = Vec::new();
    let mut i: usize = 0;
    while i < v.len()
        invariant
            i <= v@.len(),
            r@.len() == i,
            forall|k: int| 0 <= k < i ==> (#[trigger] r@[k])@ == v@[k].0@,
        decreases v@.len() - i,
    {
        r.push(v[i].0.clone());
        i = i + 1;
    }
    assert(text::views(r@) =~= Seq::new(v@.len(), |i: int| crate::bus::pairs_view(v@)[i].0));
    r
}

pub(crate) fn copy_texts(v: &Vec<String>) -> (r: Vec<String>)
    ensures
        text::views(r@) == text::views(v@),
{
    let mut r: Vec<String> = Vec::new();
    let mut i: usize = 0;
    while i < v.len()
        invariant
            i <= v@.len(),
            r@ =~= v@.take(i as int),
        decreases v@.len() - i,
    {
        r.push(v[i].clone());
        i = i + 1;
    }
    assert(v@.take(i as int) =~= v@);
    r
}

fn put_current(ids: &mut Vec<String>, current: &str)
    ensures
        text::views(final(ids)@) == with_current(text::views(old(ids)@), current@),
{
    if !session::has_member(ids, current) {
        ids.insert(0, current.to_owned());
        assert(text::views(ids@) =~= seq![current@] + text::views(old(ids)@));
    }
}

impl App {
    /// The model in effect.
    pub fn current_model(&self) -> (r: String)
        ensures
            r@ == self@.model_now(),
    {
        proof {
            reveal(session::slot_view);
        }
        match &self.live.models.selected {
            Some(m) => m.clone(),
            None => match &self.live.models.last {
                Some(m) => m.clone(),
                None => self.cfg.model.clone(),
            },
        }
    }

    /// The agent preset in effect.
    pub fn current_mode(&self) -> (r: String)
        ensures
            r@ == self@.mode_now(),
    {
        proof {
            reveal(session::slot_view);
        }
        match &self.live.modes.agent_preset {
            Some(m) => m.clone(),
            None => if self.base.demo {
                "standard".to_owned()
            } else if self.live.catalog.presets.len() > 0 {
                assert(self@.live.catalog.presets[0] == self.live.catalog.presets@[0]@);
                self.live.catalog.presets[0].id.clone()
            } else {
                text::empty()
            },
        }
    }

    /// The permission preset in effect.
    pub fn current_permission(&self) -> (r: String)
        ensures
            r@ == self@.permission_now(),
    {
        proof {
            reveal(session::slot_view);
        }
        match &self.live.modes.permission {
            Some(p) => p.clone(),
            None => "workspace-write".to_owned(),
        }
    }

    /// How an agent preset is called.
    pub fn agent_label(&self, id: &str) -> (r: String)
        ensures
            r@ == self@.label_of(id@),
    {
        proof {
            reveal(session::slot_view);
        }
        let at = find_preset(&self.live.catalog.presets, id);
        if at < self.live.catalog.presets.len() {
            assert(self@.live.catalog.presets[at as int]
                == self.live.catalog.presets@[at as int]@);
            return self.live.catalog.presets[at].name.clone();
        }
        if self.base.demo {
            let stock = presets::agent_modes();
            let i = find_stock(&stock, id);
            if i < stock.len() {
                return stock[i].1.clone();
            }
        }
        id.to_owned()
    }

    /// The models to choose from before the agent has listed its own.
    pub(crate) fn model_ids(&self) -> (r: Vec<String>)
        ensures
            text::views(r@) == self@.known_models(),
    {
        let mut ids = if self.menu.host_models.len() > 0 {
            copy_texts(&self.menu.host_models)
        } else {
            presets::model_presets()
        };
        let current = self.current_model();
        put_current(&mut ids, current.as_str());
        ids
    }

    pub(crate) fn set_picker(&mut self, kind: PickerKind, title: String, sel: usize, items: Vec<PickerItem>)
        ensures
            final(self)@ == old(self)@.with_picker(
                Some(opened(kind, title@, sel, picker::items_view(items@))),
            ),
    {
        self.menu.picker = Some(Picker { kind, title, sel, items, offset: 0 });
    }

    pub(crate) fn open_ui_plugin_picker(&mut self)
        ensures
            final(self)@ == old(self)@.open_ui_list(),
    {
        proof {
            reveal(AppV::open_ui_list);
        }
        let items = list_ui(&self.plugins.ui);
        let sel = find_active(&self.plugins.ui);
        let title = self.say(
            " UI Plugins · enter apply · esc close ",
            " UI 插件 · enter 应用 · esc 关闭 ",
        );
        self.set_picker(PickerKind::UiPlugin, title, sel, items);
    }

    pub(crate) fn open_plugin_tree(&mut self)
        ensures
            final(self)@ == old(self)@.open_inventory(),
    {
        proof {
            reveal(session::slot_view);
            reveal(AppV::open_inventory);
        }
        let title = self.say(
            " Host plugins · static · read only · ↑↓ ←→ navigate · esc close ",
            " Host 插件 · 静态 · 只读 · ↑↓ ←→ 导航 · esc 关闭 ",
        );
        let t = PluginTree::new(title, &self.plugins.installed);
        self.live.popups.tree = Some(t);
    }

    pub(crate) fn open_cordis_plugin_picker(&mut self)
        ensures
            final(self)@ == old(self)@.open_dynamic_list(),
    {
        proof {
            reveal(AppV::open_dynamic_list);
        }
        let items = list_dynamic(&self.plugins.dynamic);
        let title = self.say(
            " Cordis plugins · dynamic · enter manage · esc close ",
            " Cordis 插件 · 动态 · enter 管理 · esc 关闭 ",
        );
        self.set_picker(PickerKind::CordisPlugin, title, 0, items);
    }

    pub(crate) fn open_cordis_approval_picker(&mut self, request: &str)
        ensures
            final(self)@ == old(self)@.open_approval(request@),
    {
        proof {
            reveal(AppV::open_approval);
        }
        let items = list_approval(self.base.locale, request);
        let title = self.say(" plugin approval · enter decide ", " 插件审批 · enter 决定 ");
        self.set_picker(PickerKind::CordisApproval, title, 0, items);
    }

    pub(crate) fn open_model_picker(&mut self)
        ensures
            final(self)@ == old(self)@.open_models(),
    {
        proof {
            reveal(AppV::open_models);
        }
        let session_id = self.session_id();
        let ids = self.model_ids();
        let items = list_plain(&ids);
        let current = self.current_model();
        let sel = find_row_or_first(&items, current.as_str());
        let title = self.say(" model · enter select · esc close ", " 模型 · enter 选择 · esc 关闭 ");
        self.send(Cmd::FetchCatalog { session_id });
        self.set_picker(PickerKind::Model, title, sel, items);
    }

    fn find_effort(&self, items: &Vec<PickerItem>, default: Option<&str>) -> (r: usize)
        ensures
            r == row_of_either(
                picker::items_view(items@),
                self@.live.modes.effort,
                text::opt_str_view(default),
            ),
    {
        proof {
            reveal(session::slot_view);
        }
        let now = match &self.live.modes.effort {
            Some(e) => Some(e.as_str()),
            None => None,
        };
        find_either(items, now, default)
    }

    pub(crate) fn open_effort_picker(&mut self, efforts: &Vec<String>, default: Option<&str>)
        ensures
            final(self)@ == old(self)@.open_efforts(
                text::views(efforts@),
                text::opt_str_view(default),
            ),
    {
        proof {
            reveal(AppV::open_efforts);
        }
        let items = list_efforts(efforts, default, self.base.locale);
        let sel = self.find_effort(&items, default);
        let title = self.say(
            " reasoning effort · enter select · esc close ",
            " 推理强度 · enter 选择 · esc 关闭 ",
        );
        self.set_picker(PickerKind::Effort, title, sel, items);
    }

    fn list_modes(&self) -> (r: Vec<PickerItem>)
        ensures
            picker::items_view(r@) == self@.mode_rows(),
    {
        proof {
            reveal(session::slot_view);
        }
        if self.base.demo {
            let stock = presets::agent_modes();
            list_stock(&stock)
        } else {
            list_presets(&self.live.catalog.presets)
        }
    }

    pub(crate) fn open_mode_picker(&mut self)
        ensures
            final(self)@ == old(self)@.open_agents_list(),
    {
        proof {
            reveal(AppV::open_agents_list);
        }
        let session_id = self.session_id();
        let items = self.list_modes();
        let current = self.current_mode();
        let sel = find_row_or_first(&items, current.as_str());
        let title = self.say(" agent · enter select · esc close ", " Agent · enter 选择 · esc 关闭 ");
        self.send(Cmd::FetchCatalog { session_id });
        self.set_picker(PickerKind::Mode, title, sel, items);
    }

    pub(crate) fn list_permissions(&self) -> (r: Vec<PickerItem>)
        ensures
            picker::items_view(r@) == self@.permission_list(),
    {
        proof {
            reveal(session::slot_view);
        }
        let current = self.current_permission();
        let reported = match &self.live.modes.permission {
            Some(p) => Some(p.as_str()),
            None => None,
        };
        if self.live.catalog.permissions.len() == 0 {
            list_stock_permissions(reported, current.as_str())
        } else {
            presets::permission_picker_items(
                &self.live.catalog.permissions,
                reported,
                current.as_str(),
            )
        }
    }

    pub(crate) fn open_permission_picker(&mut self)
        ensures
            final(self)@ == old(self)@.open_permissions(),
    {
        proof {
            reveal(AppV::open_permissions);
        }
        let items = self.list_permissions();
        let current = self.current_permission();
        let sel = find_row_or_first(&items, current.as_str());
        let title = self.say(
            " permission · enter apply · esc close ",
            " 权限 · enter 应用 · esc 关闭 ",
        );
        self.set_picker(PickerKind::Permission, title, sel, items);
    }

    fn has_mode(&self, preset: &str) -> (r: bool)
        ensures
            r == (self@.live.modes.agent_preset == Some(preset@)),
    {
        proof {
            reveal(session::slot_view);
        }
        match &self.live.modes.agent_preset {
            Some(p) => text::same(p.as_str(), preset),
            None => false,
        }
    }

    /// Asks for another agent preset. It takes effect on the first prompt of
    /// the session.
    pub(crate) fn set_mode(&mut self, preset: String)
        ensures
            final(self)@ == old(self)@.ask_mode(preset@),
    {
        proof {
            reveal(AppV::ask_mode);
        }
        let l = self.base.locale;
        let label = self.agent_label(preset.as_str());
        if self.has_mode(preset.as_str()) {
            self.show_tip(app::say1(l, ("agent already ", ""), ("Agent 已是 ", ""), label.as_str()));
            return;
        }
        let session_id = self.session_id();
        self.send(Cmd::SetPreset { session_id: session_id.clone(), preset });
        self.send(Cmd::FetchSkills { session_id });
        self.show_tip(app::say1(l, ("agent → ", " …"), ("Agent → ", " …"), label.as_str()));
    }

    fn list_mode_ids(&self) -> (r: Vec<String>)
        ensures
            text::views(r@) == self@.mode_ids(),
    {
        proof {
            reveal(session::slot_view);
        }
        if self.base.demo {
            let stock = presets::agent_modes();
            let r = stock_ids(&stock);
            assert(text::views(r@) =~= self@.mode_ids());
            r
        } else {
            let r = preset_ids(&self.live.catalog.presets);
            assert(text::views(r@) =~= self@.mode_ids());
            r
        }
    }

    pub(crate) fn cycle_agent(&mut self)
        ensures
            final(self)@ == old(self)@.next_mode(),
    {
        proof {
            reveal(AppV::next_mode);
        }
        let ids = self.list_mode_ids();
        let current = self.current_mode();
        match find_after(&ids, current.as_str()) {
            Some(next) => self.set_mode(next),
            None => {
                let session_id = self.session_id();
                self.send(Cmd::FetchCatalog { session_id });
                self.tell("agent presets unavailable", "Agent 预设不可用");
            },
        }
    }

    fn pick_model(&mut self, model: &str)
        ensures
            final(self)@ == old(self)@.picked_model(model@),
    {
        proof {
            reveal(session::slot_view);
        }
        self.cfg.model = model.to_owned();
        self.live.models.selected = Some(model.to_owned());
    }

    fn pick_provider(&mut self, provider: &Option<String>)
        ensures
            final(self)@ == old(self)@.with_provider(text::opt_view(*provider)),
    {
        if let Some(p) = provider {
            self.cfg.provider = p.clone();
        }
    }

    pub(crate) fn select_model(&mut self, model: String, provider: Option<String>)
        ensures
            final(self)@ == old(self)@.choose_model(model@, text::opt_view(provider)),
    {
        proof {
            reveal(AppV::choose_model);
        }
        let session_id = self.session_id();
        let other_provider = match &provider {
            Some(p) => !text::same(p.as_str(), self.cfg.provider.as_str()),
            None => false,
        };
        if !text::same(model.as_str(), self.cfg.model.as_str()) || other_provider {
            self.pick_model(model.as_str());
            self.pick_provider(&provider);
            self.send(
                Cmd::SelectModel {
                    session_id: session_id.clone(),
                    provider,
                    model: Some(model),
                    effort: None,
                },
            );
        }
        let provider_now = self.cfg.provider.clone();
        let model_now = self.cfg.model.clone();
        self.send(Cmd::FetchEfforts { session_id, provider: provider_now, model: model_now });
    }

    pub(crate) fn set_model(&mut self, model: String)
        ensures
            final(self)@ == old(self)@.ask_model(model@),
    {
        proof {
            reveal(AppV::ask_model);
        }
        if text::same(model.as_str(), self.cfg.model.as_str()) {
            return;
        }
        let session_id = self.session_id();
        self.pick_model(model.as_str());
        self.send(
            Cmd::SelectModel { session_id, provider: None, model: Some(model), effort: None },
        );
    }

    fn has_permission(&self, preset: &str) -> (r: bool)
        ensures
            r == (self@.live.modes.permission == Some(preset@)),
    {
        proof {
            reveal(session::slot_view);
        }
        match &self.live.modes.permission {
            Some(p) => text::same(p.as_str(), preset),
            None => false,
        }
    }

    pub(crate) fn set_permission(&mut self, preset: String)
        ensures
            final(self)@ == old(self)@.ask_permission(preset@),
    {
        proof {
            reveal(AppV::ask_permission);
        }
        let l = self.base.locale;
        if self.has_permission(preset.as_str()) {
            self.show_tip(
                app::say1(l, ("permission already ", ""), ("权限预设已是 ", ""), preset.as_str()),
            );
            return;
        }
        let session_id = self.session_id();
        let t = app::say1(l, ("permission → ", " …"), ("权限预设 → ", " …"), preset.as_str());
        self.send(Cmd::SetPermission { session_id, preset });
        self.show_tip(t);
    }

    fn list_permission_ids(&self) -> (r: Vec<String>)
        ensures
            text::views(r@) == self@.permission_ids(),
            r@.len() > 0,
    {
        proof {
            reveal(session::slot_view);
        }
        if self.live.catalog.permissions.len() >= 2 {
            let ids = preset_ids(&self.live.catalog.permissions);
            assert(text::views(ids@) =~= self@.permission_ids());
            assert(text::views(ids@).len() == ids@.len());
            ids
        } else {
            let stock = presets::permission_presets();
            let ids = pair_ids(&stock);
            assert(crate::bus::pairs_view(stock@).len() == stock@.len());
            assert(text::views(ids@) =~= self@.permission_ids());
            assert(text::views(ids@).len() == ids@.len());
            ids
        }
    }

    pub(crate) fn cycle_permission(&mut self)
        ensures
            final(self)@ == old(self)@.next_permission(),
    {
        proof {
            reveal(AppV::next_permission);
        }
        let ids = self.list_permission_ids();
        let current = self.current_permission();
        let next = find_after_or_second(&ids, current.as_str());
        self.set_permission(next);
    }
}

} // verus!
