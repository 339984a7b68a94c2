//! What keys do in lists and popups.

use crate::app::{AppV, AwaitingBind, SliderV};
use crate::bus::{self, Cmd};
use crate::effect::EffectV;
use crate::input::KeyCode;
use crate::json::Json;
use crate::keys::{self, Action, KeyPress};
use crate::laws_commands::{only_remarked, without_tab};
use crate::laws_sessions::sends;
use crate::lists::Row;
use crate::overlays::{no_modifiers, plugin_named};
use crate::picker::{PickerKind, PickerV};
use crate::replies::Reply;
use crate::select::{self, SelectV};
use crate::seqs;
use crate::session::{self, ViewOverlay};
use vstd::prelude::*;

verus! {

/// Nobody asks anything, and no popup is open over the lists.
pub open spec fn undisturbed(a: AppV) -> bool {
    &&& a.plugins.approvals.len() == 0
    &&& a.live.asks.form is None
    &&& a.live.asks.permission is None
    &&& a.live.popups.view is None
}

/// A list has the keyboard.
pub open spec fn listing(a: AppV, p: PickerV) -> bool {
    &&& undisturbed(a)
    &&& a.menu.select is None
    &&& a.menu.slider is None
    &&& a.menu.picker == Some(p)
}

/// A key on a list, other than the one that toggles the tone.
pub open spec fn list_press(k: KeyPress, code: KeyCode) -> bool {
    k.key.code == code && k.action != Some(Action::ToggleTheme)
}

/// A row of the list is chosen with Enter.
pub open spec fn chooses(a: AppV, p: PickerV, k: KeyPress, kind: PickerKind, item: Row) -> bool {
    &&& listing(a, p)
    &&& list_press(k, KeyCode::Enter)
    &&& p.kind == kind
    &&& p.sel < p.items.len()
    &&& p.items[p.sel as int] == item
}

/// Apart from the list, which is closed, nothing is left but a remark.
pub open spec fn only_closed(a: AppV, b: AppV) -> bool {
    &&& only_remarked(a, AppV { menu: a.menu, ..b })
    &&& b.menu.picker is None
    &&& b.menu.select == a.menu.select
    &&& b.menu.slider == a.menu.slider
}

/// The list gets the key.
proof fn lemma_listing(a: AppV, p: PickerV, k: KeyPress)
    requires
        listing(a, p),
    ensures
        a.replied(Reply::Key(k)) == a.redrawn().key_shown(k.debug).picker_key(
            k.key,
            keys::toggles(k.action),
        ),
{
    reveal(AppV::replied);
    reveal(AppV::key_pressed);
    reveal(AppV::surface_key);
}

/// Escape closes the list and chooses nothing.
pub proof fn law_escape_chooses_nothing(a: AppV, p: PickerV, k: KeyPress)
    requires
        listing(a, p),
        list_press(k, KeyCode::Esc),
    ensures
        only_closed(a, a.replied(Reply::Key(k))),
        a.replied(Reply::Key(k)).out == a.out,
{
    lemma_listing(a, p, k);
    reveal(AppV::picker_key);
}

/// The permission preset in the chosen row is asked of the viewed session,
/// unless it is in effect.
pub proof fn law_permission_is_picked(a: AppV, p: PickerV, k: KeyPress, item: Row)
    requires
        chooses(a, p, k, PickerKind::Permission, item),
    ensures
        ({
            let b = a.replied(Reply::Key(k));
            &&& only_closed(a, b)
            &&& a.live.modes.permission == Some(item.id) ==> b.out == a.out
            &&& a.live.modes.permission != Some(item.id) ==> b.out == a.out.push(
                sends(Cmd::SetPermission { session_id: a.live.id, preset: item.id }),
            )
        }),
{
    lemma_listing(a, p, k);
    reveal(AppV::picker_key);
    reveal(AppV::choose_row);
    reveal(AppV::ask_permission);
}

/// The agent preset in the chosen row is asked of the viewed session, and its
/// skills with it, unless it is in effect.
pub proof fn law_agent_preset_is_picked(a: AppV, p: PickerV, k: KeyPress, item: Row)
    requires
        chooses(a, p, k, PickerKind::Mode, item),
    ensures
        ({
            let b = a.replied(Reply::Key(k));
            &&& only_closed(a, b)
            &&& a.live.modes.agent_preset == Some(item.id) ==> b.out == a.out
            &&& a.live.modes.agent_preset != Some(item.id) ==> b.out == a.out.push(
                sends(Cmd::SetPreset { session_id: a.live.id, preset: item.id }),
            ).push(sends(Cmd::FetchSkills { session_id: a.live.id }))
        }),
{
    lemma_listing(a, p, k);
    reveal(AppV::picker_key);
    reveal(AppV::choose_row);
    reveal(AppV::ask_mode);
}

/// The model in the chosen row is selected with its provider, unless both are
/// configured; what efforts it has is asked in any case.
pub proof fn law_model_is_picked(a: AppV, p: PickerV, k: KeyPress, item: Row, provider: Seq<char>)
    requires
        chooses(a, p, k, PickerKind::Model, item),
        item.provider == Some(provider),
    ensures
        ({
            let b = a.replied(Reply::Key(k));
            let efforts = sends(
                Cmd::FetchEfforts { session_id: a.live.id, provider, model: item.id },
            );
            let configured = item.id == a.cfg.model && provider == a.cfg.provider;
            &&& b.menu.picker is None
            &&& b.cfg.model == item.id
            &&& b.cfg.provider == provider
            &&& b.live.id == a.live.id
            &&& b.tabs == a.tabs
            &&& configured ==> b.live == a.live && b.out == a.out.push(efforts)
            &&& !configured ==> b.live.models.selected == Some(item.id) && b.out == a.out.push(
                sends(
                    Cmd::SelectModel {
                        session_id: a.live.id,
                        provider: Some(provider),
                        model: Some(item.id),
                        effort: None,
                    },
                ),
            ).push(efforts)
        }),
{
    lemma_listing(a, p, k);
    reveal(AppV::picker_key);
    reveal(AppV::choose_row);
    reveal(AppV::choose_model);
}

/// The effort in the chosen row is selected for the viewed session; its model
/// stays.
pub proof fn law_effort_is_picked(a: AppV, p: PickerV, k: KeyPress, item: Row)
    requires
        chooses(a, p, k, PickerKind::Effort, item),
    ensures
        ({
            let b = a.replied(Reply::Key(k));
            &&& b.menu.picker is None
            &&& b.live.modes.effort == Some(item.id)
            &&& b.live.modes.permission == a.live.modes.permission
            &&& b.live.modes.agent_preset == a.live.modes.agent_preset
            &&& b.live.models == a.live.models
            &&& b.cfg == a.cfg
            &&& b.tabs == a.tabs
            &&& b.out.len() == a.out.len() + 2
            &&& b.out.drop_last() == a.out.push(
                sends(
                    Cmd::SelectModel {
                        session_id: a.live.id,
                        provider: None,
                        model: None,
                        effort: Some(item.id),
                    },
                ),
            )
            &&& b.out.last() is Transcript
        }),
{
    lemma_listing(a, p, k);
    reveal(AppV::picker_key);
    reveal(AppV::choose_row);
    reveal(AppV::choose_effort);
    let b = a.replied(Reply::Key(k));
    assert(b.out.drop_last() =~= a.out.push(b.out[a.out.len() as int]));
}

/// The session in the chosen row is taken up by the agent where the agent
/// listed it, in a tab of its own that waits for it.
pub proof fn law_listed_session_is_resumed(a: AppV, p: PickerV, k: KeyPress, item: Row)
    requires
        chooses(a, p, k, PickerKind::Session, item),
        a.resume.via_agent,
        without_tab(a, item.id),
    ensures
        ({
            let b = a.replied(Reply::Key(k));
            &&& b.menu.picker is None
            &&& b.live.id == item.id
            &&& !b.live.bound
            &&& b.tabs.parked.len() == a.tabs.parked.len() + 1
            &&& b.tabs.awaiting == a.tabs.awaiting.push(
                AwaitingBind { id: item.id, open: true },
            )
            &&& b.out.last() == sends(Cmd::ResumeSession { session_id: item.id })
        }),
{
    lemma_listing(a, p, k);
    reveal(AppV::picker_key);
    reveal(AppV::choose_row);
    reveal(AppV::resume_agent);
    reveal(AppV::open_tab);
    reveal(AppV::switched);
    seqs::lemma_first_index_is(
        a.tabs.parked,
        session::with_id(item.id),
        a.tabs.parked.len() as int,
    );
}

/// The decision in the chosen row is the answer to the plugin that asked.
pub proof fn law_approval_is_picked(a: AppV, p: PickerV, k: KeyPress, item: Row, request: Seq<char>)
    requires
        chooses(a, p, k, PickerKind::CordisApproval, item),
        item.provider == Some(request),
    ensures
        only_closed(a, a.replied(Reply::Key(k))),
        a.replied(Reply::Key(k)).out == a.out.push(
            sends(Cmd::RespondCordisApproval { request_id: request, decision: item.id }),
        ),
{
    lemma_listing(a, p, k);
    reveal(AppV::picker_key);
    reveal(AppV::choose_row);
}

/// A dynamic plugin that runs is stopped, one that does not is started, and
/// one that is about to start is left alone.
pub proof fn law_plugin_is_switched(a: AppV, p: PickerV, k: KeyPress, item: Row, i: int)
    requires
        chooses(a, p, k, PickerKind::CordisPlugin, item),
        0 <= i < a.plugins.dynamic.len(),
        a.plugins.dynamic[i].id == item.id,
        forall|j: int| 0 <= j < i ==> (#[trigger] a.plugins.dynamic[j]).id != item.id,
        a.plugins.dynamic[i].approval_request_id is None,
    ensures
        ({
            let b = a.replied(Reply::Key(k));
            let status = a.plugins.dynamic[i].status;
            let starts = status == "starting-host"@ || status == "client-pending"@;
            let runs = status == "running"@ || status == "waiting"@;
            &&& only_closed(a, b)
            &&& starts ==> b.out == a.out
            &&& runs ==> b.out == a.out.push(
                sends(
                    Cmd::SetCordisPluginEnabled {
                        agent_id: a.live.id,
                        plugin_id: item.id,
                        enabled: false,
                    },
                ),
            )
            &&& !starts && !runs ==> b.out == a.out.push(
                sends(
                    Cmd::SetCordisPluginEnabled {
                        agent_id: a.live.id,
                        plugin_id: item.id,
                        enabled: true,
                    },
                ),
            )
        }),
{
    lemma_listing(a, p, k);
    reveal(AppV::picker_key);
    reveal(AppV::choose_row);
    reveal(AppV::manage_plugin);
    reveal_strlit("starting-host");
    reveal_strlit("client-pending");
    reveal_strlit("running");
    reveal_strlit("waiting");
    assert("running"@[0] != "waiting"@[0]);
    seqs::lemma_first_index_is(a.plugins.dynamic, plugin_named(item.id), i);
}

/// A plugin that waits for approval is not started: the three decisions are
/// listed, for its request.
pub proof fn law_plugin_waits_for_approval(
    a: AppV,
    p: PickerV,
    k: KeyPress,
    item: Row,
    i: int,
    request: Seq<char>,
)
    requires
        chooses(a, p, k, PickerKind::CordisPlugin, item),
        0 <= i < a.plugins.dynamic.len(),
        a.plugins.dynamic[i].id == item.id,
        forall|j: int| 0 <= j < i ==> (#[trigger] a.plugins.dynamic[j]).id != item.id,
        a.plugins.dynamic[i].approval_request_id == Some(request),
    ensures
        ({
            let b = a.replied(Reply::Key(k));
            let rows = b.menu.picker->0.items;
            &&& b.out == a.out
            &&& b.live == a.live
            &&& b.menu.picker is Some
            &&& b.menu.picker->0.kind == PickerKind::CordisApproval
            &&& rows.len() == 3
            &&& rows[0].id == "allow-version"@ && rows[1].id == "allow-future"@ && rows[2].id
                == "reject"@
            &&& rows[0].provider == Some(request) && rows[1].provider == Some(request)
                && rows[2].provider == Some(request)
        }),
{
    lemma_listing(a, p, k);
    reveal(AppV::picker_key);
    reveal(AppV::choose_row);
    reveal(AppV::manage_plugin);
    reveal(AppV::open_approval);
    seqs::lemma_first_index_is(a.plugins.dynamic, plugin_named(item.id), i);
}

/// The arrows go round, Home and End go to the ends, and the highlighted row is
/// the only thing that changes.
pub proof fn law_arrows_move_in_lists(a: AppV, p: PickerV, k: KeyPress)
    requires
        listing(a, p),
        p.kind != PickerKind::Theme,
        p.items.len() > 0,
        p.sel < p.items.len() <= usize::MAX,
        k.key.code == KeyCode::Up || k.key.code == KeyCode::Down || k.key.code == KeyCode::Home
            || k.key.code == KeyCode::End,
    ensures
        ({
            let b = a.replied(Reply::Key(k));
            let n = p.items.len();
            &&& b.out == a.out
            &&& b.live == a.live
            &&& b.theme == a.theme
            &&& b.menu.picker is Some
            &&& b.menu.picker->0.items == p.items
            &&& b.menu.picker->0.kind == p.kind
            &&& b.menu.picker->0.sel == (match k.key.code {
                KeyCode::Up => if p.sel == 0 {
                    n - 1
                } else {
                    p.sel - 1
                },
                KeyCode::Down => if p.sel == n - 1 {
                    0
                } else {
                    p.sel + 1
                },
                KeyCode::Home => 0,
                _ => n - 1,
            })
        }),
{
    lemma_listing(a, p, k);
    reveal(AppV::picker_key);
    reveal(AppV::at_row);
    if p.sel + 1 < p.items.len() {
        assert((p.sel + 1) % (p.items.len() as int) == p.sel + 1) by (nonlinear_arith)
            requires
                0 <= p.sel + 1 < p.items.len(),
        ;
    } else {
        assert((p.items.len() as int) % (p.items.len() as int) == 0) by (nonlinear_arith)
            requires
                p.items.len() > 0,
        ;
    }
}

// --- the popups of plugins ------------------------------------------------------------------

/// A plugin is told what became of its popup.
pub open spec fn tells(id: Seq<char>, event: Seq<char>, value: Option<Json>) -> EffectV {
    sends(Cmd::PluginOverlayEvent { id, event, value })
}

/// The choice of a plugin has the keyboard.
pub open spec fn selecting(a: AppV, s: SelectV) -> bool {
    &&& undisturbed(a)
    &&& a.menu.select == Some(s)
    &&& s.sel < s.options.len()
}

/// Escape cancels, with the value that was highlighted; Enter submits it where
/// it may be chosen and something is shown; Delete deletes it where it may be
/// deleted. The choice closes then, and stays open otherwise.
pub proof fn law_choices_are_told(a: AppV, s: SelectV, k: KeyPress)
    requires
        selecting(a, s),
        k.key.modifiers == no_modifiers(),
    ensures
        ({
            let b = a.replied(Reply::Key(k));
            let o = s.options[s.sel as int];
            let value = Some(Json::Str(o.value));
            let shown = select::visible(s).len() > 0;
            &&& k.key.code == KeyCode::Esc ==> b.menu.select is None && b.out == a.out.push(
                tells(s.id, "cancel"@, value),
            )
            &&& k.key.code == KeyCode::Enter && shown && !o.disabled ==> b.menu.select is None
                && b.out == a.out.push(tells(s.id, "submit"@, value))
            &&& k.key.code == KeyCode::Enter && (!shown || o.disabled) ==> b.menu == a.menu
                && b.out == a.out
            &&& k.key.code == KeyCode::Delete && shown && o.deletable && !o.disabled
                ==> b.menu.select is None && b.out == a.out.push(tells(s.id, "delete"@, value))
            &&& k.key.code == KeyCode::Delete && (!shown || !o.deletable || o.disabled) ==> b.menu
                == a.menu && b.out == a.out
            &&& k.key.code == KeyCode::Esc || k.key.code == KeyCode::Enter || k.key.code
                == KeyCode::Delete ==> b.live == a.live
        }),
{
    reveal(AppV::replied);
    reveal(AppV::key_pressed);
    reveal(AppV::surface_key);
    reveal(AppV::select_key);
}

/// The slider of a plugin has the keyboard.
pub open spec fn sliding(a: AppV, s: SliderV) -> bool {
    &&& undisturbed(a)
    &&& a.menu.select is None
    &&& a.menu.slider == Some(s)
}

/// Escape cancels the slider with the value it had, Enter submits the value it
/// comes to; the arrows move it and tell each value.
pub proof fn law_slider_is_told(a: AppV, s: SliderV, k: KeyPress)
    requires
        sliding(a, s),
        k.key.modifiers == no_modifiers(),
    ensures
        ({
            let b = a.replied(Reply::Key(k));
            let slide = bus::opt_value_view(k.slide);
            let to = match slide {
                Some(v) => v,
                None => s.value,
            };
            &&& b.live == a.live
            &&& k.key.code == KeyCode::Esc ==> b.menu.slider is None && b.out == a.out.push(
                tells(s.id, "cancel"@, Some(s.value)),
            )
            &&& k.key.code == KeyCode::Enter ==> b.menu.slider is None && b.out == a.out.push(
                tells(s.id, "submit"@, Some(to)),
            )
            &&& (k.key.code == KeyCode::Left || k.key.code == KeyCode::Right) && slide is Some
                ==> b.menu.slider == Some(SliderV { id: s.id, value: slide->0 }) && b.out
                == a.out.push(tells(s.id, "change"@, slide))
            &&& (k.key.code == KeyCode::Left || k.key.code == KeyCode::Right) && slide is None
                ==> b.menu == a.menu && b.out == a.out
        }),
{
    reveal(AppV::replied);
    reveal(AppV::key_pressed);
    reveal(AppV::surface_key);
    reveal(AppV::slider_key);
}

/// A text in a popup has the keyboard.
pub open spec fn reading(a: AppV, v: ViewOverlay<Seq<char>>) -> bool {
    &&& a.plugins.approvals.len() == 0
    &&& a.live.asks.form is None
    &&& a.live.asks.permission is None
    &&& a.live.popups.view == Some(v)
}

/// Escape and Enter close the popup. A plugin that wants to know is told which
/// it was; otherwise nothing goes out.
pub proof fn law_popup_is_closed(a: AppV, v: ViewOverlay<Seq<char>>, k: KeyPress)
    requires
        reading(a, v),
        k.key.modifiers == no_modifiers(),
        k.key.code == KeyCode::Esc || k.key.code == KeyCode::Enter,
    ensures
        ({
            let b = a.replied(Reply::Key(k));
            let event = if k.key.code == KeyCode::Esc {
                "cancel"@
            } else {
                "submit"@
            };
            &&& b.live.popups.view is None
            &&& b.live.queue == a.live.queue
            &&& b.live.draft == a.live.draft
            &&& b.menu == a.menu
            &&& v.notify_plugin ==> b.out == a.out.push(tells(v.id, event, None))
            &&& !v.notify_plugin ==> b.out == a.out
        }),
{
    reveal(AppV::replied);
    reveal(AppV::key_pressed);
    reveal(AppV::surface_key);
    reveal(AppV::view_key);
}

} // verus!
