//! Small changes of a session, whether it is in view or parked.

use crate::app::App;
use crate::bus::{AuthSnapshot, AuthV, CatalogModel, CatalogPreset, ConnectionV, SessionConnection, SkillInfo};
use crate::events;
use crate::session::{self, Agents, CatalogV, Chat, ModelFacts, Modes, Queue, Run, SessionSlot, SlotV};
use crate::text;
use vstd::prelude::*;

verus! {

/// Its prompt is no longer on the way.
pub open spec fn unpended(s: SlotV) -> SlotV {
    SlotV { run: Run { pending: false, ..s.run }, ..s }
}

pub(crate) fn unpend(s: &mut SessionSlot)
    ensures
        final(s)@ == unpended(old(s)@),
{
    proof {
        reveal(session::slot_view);
    }
    s.run.pending = false;
}

/// Nothing of it runs or is about to.
pub open spec fn settled(s: SlotV) -> SlotV {
    SlotV { run: Run { pending: false, running: false, ..s.run }, ..s }
}

pub(crate) fn end_slot(s: &mut SessionSlot)
    ensures
        final(s)@ == settled(old(s)@),
{
    proof {
        reveal(session::slot_view);
    }
    s.run.pending = false;
    s.run.running = false;
}

/// All that it had asked the runtime for is gone.
pub open spec fn stopped(s: SlotV) -> SlotV {
    SlotV { run: Run { pending: false, running: false, ..s.run }, queue: session::no_queue(), ..s }
}

pub(crate) fn stop_slot(s: &mut SessionSlot)
    ensures
        final(s)@ == stopped(old(s)@),
{
    proof {
        reveal(session::slot_view);
    }
    s.run.pending = false;
    s.run.running = false;
    s.queue = Queue::empty();
}

pub open spec fn bannerless(s: SlotV) -> SlotV {
    SlotV { chat: Chat { show_banner: false, ..s.chat }, ..s }
}

pub(crate) fn hide_slot_banner(s: &mut SessionSlot)
    ensures
        final(s)@ == bannerless(old(s)@),
{
    proof {
        reveal(session::slot_view);
    }
    s.chat.show_banner = false;
}

pub open spec fn connected(s: SlotV, c: ConnectionV) -> SlotV {
    SlotV { connection: Some(c), ..s }
}

pub(crate) fn connect_slot(s: &mut SessionSlot, c: SessionConnection)
    ensures
        final(s)@ == connected(old(s)@, c@),
{
    proof {
        reveal(session::slot_view);
    }
    s.connection = Some(c);
}

pub open spec fn with_note(s: SlotV, note: Seq<char>) -> SlotV {
    SlotV { run: Run { note, ..s.run }, ..s }
}

pub(crate) fn note_slot(s: &mut SessionSlot, note: String)
    ensures
        final(s)@ == with_note(old(s)@, note@),
{
    proof {
        reveal(session::slot_view);
    }
    s.run.note = note;
}

/// A switch that the agent has refused is taken back.
pub open spec fn switch_undone(s: SlotV, model: Option<Seq<char>>, effort: Option<Seq<char>>) -> SlotV {
    SlotV {
        models: ModelFacts {
            selected: if model is Some && s.models.selected == model {
                None
            } else {
                s.models.selected
            },
            ..s.models
        },
        modes: Modes {
            effort: if effort is Some && s.modes.effort == effort {
                None
            } else {
                s.modes.effort
            },
            ..s.modes
        },
        ..s
    }
}

pub(crate) fn undo_switch(s: &mut SessionSlot, model: &Option<String>, effort: &Option<String>)
    ensures
        final(s)@ == switch_undone(old(s)@, text::opt_view(*model), text::opt_view(*effort)),
{
    proof {
        reveal(session::slot_view);
    }
    if model.is_some() && crate::agents::same_text_opt(&s.models.selected, model) {
        s.models.selected = None;
    }
    if effort.is_some() && crate::agents::same_text_opt(&s.modes.effort, effort) {
        s.modes.effort = None;
    }
}

pub open spec fn with_skills(s: SlotV, skills: Seq<SkillInfo<Seq<char>>>) -> SlotV {
    SlotV { catalog: CatalogV { skills, ..s.catalog }, ..s }
}

pub(crate) fn set_slot_skills(s: &mut SessionSlot, skills: Vec<SkillInfo>)
    ensures
        final(s)@ == with_skills(old(s)@, events::skills_view(skills@)),
{
    proof {
        reveal(session::slot_view);
    }
    s.catalog.skills = skills;
}

/// An empty list says nothing.
pub open spec fn with_catalog(s: SlotV, models: Seq<CatalogModel<Seq<char>>>, presets: Seq<CatalogPreset<Seq<char>>>) -> SlotV {
    SlotV {
        catalog: CatalogV {
            models: if models.len() > 0 {
                models
            } else {
                s.catalog.models
            },
            presets: if presets.len() > 0 {
                presets
            } else {
                s.catalog.presets
            },
            ..s.catalog
        },
        ..s
    }
}

pub(crate) fn set_slot_catalog(s: &mut SessionSlot, models: Vec<CatalogModel>, presets: Vec<CatalogPreset>)
    ensures
        final(s)@ == with_catalog(old(s)@, events::models_view(models@), events::presets_view(presets@)),
{
    proof {
        reveal(session::slot_view);
    }
    assert(events::models_view(models@).len() == models@.len());
    assert(events::presets_view(presets@).len() == presets@.len());
    if models.len() > 0 {
        s.catalog.models = models;
    }
    if presets.len() > 0 {
        s.catalog.presets = presets;
    }
}

pub open spec fn with_modes(s: SlotV, modes: Seq<CatalogPreset<Seq<char>>>, current: Option<Seq<char>>) -> SlotV {
    SlotV {
        catalog: CatalogV {
            permissions: if modes.len() > 0 {
                modes
            } else {
                s.catalog.permissions
            },
            ..s.catalog
        },
        modes: Modes {
            permission: if current is Some {
                current
            } else {
                s.modes.permission
            },
            ..s.modes
        },
        ..s
    }
}

pub(crate) fn set_slot_modes(s: &mut SessionSlot, modes: Vec<CatalogPreset>, current: Option<String>)
    ensures
        final(s)@ == with_modes(old(s)@, events::presets_view(modes@), text::opt_view(current)),
{
    proof {
        reveal(session::slot_view);
    }
    assert(events::presets_view(modes@).len() == modes@.len());
    if modes.len() > 0 {
        s.catalog.permissions = modes;
    }
    if current.is_some() {
        s.modes.permission = current;
    }
}

pub open spec fn with_efforts(s: SlotV, efforts: Seq<Seq<char>>) -> SlotV {
    if efforts.len() > 0 {
        SlotV { catalog: CatalogV { efforts, ..s.catalog }, ..s }
    } else {
        s
    }
}

pub(crate) fn set_slot_efforts(s: &mut SessionSlot, efforts: Vec<String>)
    ensures
        final(s)@ == with_efforts(old(s)@, text::views(efforts@)),
{
    proof {
        reveal(session::slot_view);
    }
    assert(text::views(efforts@).len() == efforts@.len());
    if efforts.len() > 0 {
        s.catalog.efforts = efforts;
    }
}

pub open spec fn with_preset(s: SlotV, preset: Seq<char>) -> SlotV {
    SlotV { modes: Modes { agent_preset: Some(preset), ..s.modes }, ..s }
}

pub(crate) fn set_slot_preset(s: &mut SessionSlot, preset: String)
    ensures
        final(s)@ == with_preset(old(s)@, preset@),
{
    proof {
        reveal(session::slot_view);
    }
    s.modes.agent_preset = Some(preset);
}

pub open spec fn with_sign_in(s: SlotV, auth: AuthV) -> SlotV {
    SlotV {
        connection: match s.connection {
            Some(c) => Some(ConnectionV { auth, ..c }),
            None => None,
        },
        ..s
    }
}

pub(crate) fn set_slot_auth(s: &mut SessionSlot, auth: AuthSnapshot)
    ensures
        final(s)@ == with_sign_in(old(s)@, auth@),
{
    proof {
        reveal(session::slot_view);
    }
    if let Some(c) = &mut s.connection {
        c.auth = auth;
    }
}

/// It is bound to the session with this id.
pub open spec fn named(s: SlotV, id: Seq<char>) -> SlotV {
    SlotV { id, bound: true, ..s }
}

pub(crate) fn bind_slot(s: &mut SessionSlot, id: String)
    ensures
        final(s)@ == named(old(s)@, id@),
{
    proof {
        reveal(session::slot_view);
    }
    s.id = id;
    s.bound = true;
}

pub open spec fn now_bound(s: SlotV) -> SlotV {
    SlotV { bound: true, ..s }
}

pub(crate) fn mark_bound(s: &mut SessionSlot)
    ensures
        final(s)@ == now_bound(old(s)@),
{
    proof {
        reveal(session::slot_view);
    }
    s.bound = true;
}

/// What is known of subagents and the model of the session is forgotten.
pub open spec fn unheard(s: SlotV) -> SlotV {
    SlotV { agents: session::no_agents(), models: ModelFacts { session: None, ..s.models }, ..s }
}

pub(crate) fn forget_agents(s: &mut SessionSlot)
    ensures
        final(s)@ == unheard(old(s)@),
{
    proof {
        reveal(session::slot_view);
    }
    s.agents = Agents::empty();
    s.models.session = None;
}

impl App {
    pub(crate) fn unpend_live(&mut self)
        ensures
            final(self)@ == old(self)@.with_live(unpended(old(self)@.live)),
    {
        unpend(&mut self.live);
    }

    pub(crate) fn unpend_parked(&mut self, at: usize)
        requires
            at < old(self)@.tabs.parked.len(),
        ensures
            final(self)@ == old(self)@.parked_at(
                at as int,
                unpended(old(self)@.tabs.parked[at as int]),
            ),
    {
        let ghost before = self@.tabs.parked;
        assert(before[at as int] == self.tabs.parked@[at as int]@);
        let ghost to = unpended(before[at as int]);
        unpend(&mut self.tabs.parked[at]);
        assert(self@.tabs.parked =~= before.update(at as int, to));
    }

    pub(crate) fn end_parked(&mut self, at: usize)
        requires
            at < old(self)@.tabs.parked.len(),
        ensures
            final(self)@ == old(self)@.parked_at(
                at as int,
                settled(old(self)@.tabs.parked[at as int]),
            ),
    {
        let ghost before = self@.tabs.parked;
        assert(before[at as int] == self.tabs.parked@[at as int]@);
        let ghost to = settled(before[at as int]);
        end_slot(&mut self.tabs.parked[at]);
        assert(self@.tabs.parked =~= before.update(at as int, to));
    }

    pub(crate) fn hide_banner_parked(&mut self, at: usize)
        requires
            at < old(self)@.tabs.parked.len(),
        ensures
            final(self)@ == old(self)@.parked_at(
                at as int,
                bannerless(old(self)@.tabs.parked[at as int]),
            ),
    {
        let ghost before = self@.tabs.parked;
        assert(before[at as int] == self.tabs.parked@[at as int]@);
        let ghost to = bannerless(before[at as int]);
        hide_slot_banner(&mut self.tabs.parked[at]);
        assert(self@.tabs.parked =~= before.update(at as int, to));
    }

    pub(crate) fn connect_parked(&mut self, at: usize, c: SessionConnection)
        requires
            at < old(self)@.tabs.parked.len(),
        ensures
            final(self)@ == old(self)@.parked_at(
                at as int,
                connected(old(self)@.tabs.parked[at as int], c@),
            ),
    {
        let ghost before = self@.tabs.parked;
        assert(before[at as int] == self.tabs.parked@[at as int]@);
        let ghost to = connected(before[at as int], c@);
        connect_slot(&mut self.tabs.parked[at], c);
        assert(self@.tabs.parked =~= before.update(at as int, to));
    }

    pub(crate) fn note_parked(&mut self, at: usize, note: String)
        requires
            at < old(self)@.tabs.parked.len(),
        ensures
            final(self)@ == old(self)@.parked_at(
                at as int,
                with_note(old(self)@.tabs.parked[at as int], note@),
            ),
    {
        let ghost before = self@.tabs.parked;
        assert(before[at as int] == self.tabs.parked@[at as int]@);
        let ghost to = with_note(before[at as int], note@);
        note_slot(&mut self.tabs.parked[at], note);
        assert(self@.tabs.parked =~= before.update(at as int, to));
    }

    pub(crate) fn undo_switch_live(&mut self, model: &Option<String>, effort: &Option<String>)
        ensures
            final(self)@ == old(self)@.with_live(switch_undone(old(self)@.live, text::opt_view(*model), text::opt_view(*effort))),
    {
        undo_switch(&mut self.live, model, effort);
    }

    pub(crate) fn undo_switch_parked(&mut self, at: usize, model: &Option<String>, effort: &Option<String>)
        requires
            at < old(self)@.tabs.parked.len(),
        ensures
            final(self)@ == old(self)@.parked_at(
                at as int,
                switch_undone(old(self)@.tabs.parked[at as int], text::opt_view(*model), text::opt_view(*effort)),
            ),
    {
        let ghost before = self@.tabs.parked;
        assert(before[at as int] == self.tabs.parked@[at as int]@);
        let ghost to = switch_undone(before[at as int], text::opt_view(*model), text::opt_view(*effort));
        undo_switch(&mut self.tabs.parked[at], model, effort);
        assert(self@.tabs.parked =~= before.update(at as int, to));
    }

    pub(crate) fn set_skills_live(&mut self, skills: Vec<SkillInfo>)
        ensures
            final(self)@ == old(self)@.with_live(with_skills(old(self)@.live, events::skills_view(skills@))),
    {
        set_slot_skills(&mut self.live, skills);
    }

    pub(crate) fn set_skills_parked(&mut self, at: usize, skills: Vec<SkillInfo>)
        requires
            at < old(self)@.tabs.parked.len(),
        ensures
            final(self)@ == old(self)@.parked_at(
                at as int,
                with_skills(old(self)@.tabs.parked[at as int], events::skills_view(skills@)),
            ),
    {
        let ghost before = self@.tabs.parked;
        assert(before[at as int] == self.tabs.parked@[at as int]@);
        let ghost to = with_skills(before[at as int], events::skills_view(skills@));
        set_slot_skills(&mut self.tabs.parked[at], skills);
        assert(self@.tabs.parked =~= before.update(at as int, to));
    }

    pub(crate) fn set_catalog_live(&mut self, models: Vec<CatalogModel>, presets: Vec<CatalogPreset>)
        ensures
            final(self)@ == old(self)@.with_live(with_catalog(old(self)@.live, events::models_view(models@), events::presets_view(presets@))),
    {
        set_slot_catalog(&mut self.live, models, presets);
    }

    pub(crate) fn set_catalog_parked(&mut self, at: usize, models: Vec<CatalogModel>, presets: Vec<CatalogPreset>)
        requires
            at < old(self)@.tabs.parked.len(),
        ensures
            final(self)@ == old(self)@.parked_at(
                at as int,
                with_catalog(old(self)@.tabs.parked[at as int], events::models_view(models@), events::presets_view(presets@)),
            ),
    {
        let ghost before = self@.tabs.parked;
        assert(before[at as int] == self.tabs.parked@[at as int]@);
        let ghost to = with_catalog(before[at as int], events::models_view(models@), events::presets_view(presets@));
        set_slot_catalog(&mut self.tabs.parked[at], models, presets);
        assert(self@.tabs.parked =~= before.update(at as int, to));
    }

    pub(crate) fn set_modes_live(&mut self, modes: Vec<CatalogPreset>, current: Option<String>)
        ensures
            final(self)@ == old(self)@.with_live(with_modes(old(self)@.live, events::presets_view(modes@), text::opt_view(current))),
    {
        set_slot_modes(&mut self.live, modes, current);
    }

    pub(crate) fn set_modes_parked(&mut self, at: usize, modes: Vec<CatalogPreset>, current: Option<String>)
        requires
            at < old(self)@.tabs.parked.len(),
        ensures
            final(self)@ == old(self)@.parked_at(
                at as int,
                with_modes(old(self)@.tabs.parked[at as int], events::presets_view(modes@), text::opt_view(current)),
            ),
    {
        let ghost before = self@.tabs.parked;
        assert(before[at as int] == self.tabs.parked@[at as int]@);
        let ghost to = with_modes(before[at as int], events::presets_view(modes@), text::opt_view(current));
        set_slot_modes(&mut self.tabs.parked[at], modes, current);
        assert(self@.tabs.parked =~= before.update(at as int, to));
    }

    pub(crate) fn set_efforts_live(&mut self, efforts: Vec<String>)
        ensures
            final(self)@ == old(self)@.with_live(with_efforts(old(self)@.live, text::views(efforts@))),
    {
        set_slot_efforts(&mut self.live, efforts);
    }

    pub(crate) fn set_efforts_parked(&mut self, at: usize, efforts: Vec<String>)
        requires
            at < old(self)@.tabs.parked.len(),
        ensures
            final(self)@ == old(self)@.parked_at(
                at as int,
                with_efforts(old(self)@.tabs.parked[at as int], text::views(efforts@)),
            ),
    {
        let ghost before = self@.tabs.parked;
        assert(before[at as int] == self.tabs.parked@[at as int]@);
        let ghost to = with_efforts(before[at as int], text::views(efforts@));
        set_slot_efforts(&mut self.tabs.parked[at], efforts);
        assert(self@.tabs.parked =~= before.update(at as int, to));
    }

    pub(crate) fn set_preset_live(&mut self, preset: String)
        ensures
            final(self)@ == old(self)@.with_live(with_preset(old(self)@.live, preset@)),
    {
        set_slot_preset(&mut self.live, preset);
    }

    pub(crate) fn set_preset_parked(&mut self, at: usize, preset: String)
        requires
            at < old(self)@.tabs.parked.len(),
        ensures
            final(self)@ == old(self)@.parked_at(
                at as int,
                with_preset(old(self)@.tabs.parked[at as int], preset@),
            ),
    {
        let ghost before = self@.tabs.parked;
        assert(before[at as int] == self.tabs.parked@[at as int]@);
        let ghost to = with_preset(before[at as int], preset@);
        set_slot_preset(&mut self.tabs.parked[at], preset);
        assert(self@.tabs.parked =~= before.update(at as int, to));
    }

    pub(crate) fn set_auth_parked(&mut self, at: usize, auth: AuthSnapshot)
        requires
            at < old(self)@.tabs.parked.len(),
        ensures
            final(self)@ == old(self)@.parked_at(
                at as int,
                with_sign_in(old(self)@.tabs.parked[at as int], auth@),
            ),
    {
        let ghost before = self@.tabs.parked;
        assert(before[at as int] == self.tabs.parked@[at as int]@);
        let ghost to = with_sign_in(before[at as int], auth@);
        set_slot_auth(&mut self.tabs.parked[at], auth);
        assert(self@.tabs.parked =~= before.update(at as int, to));
    }

    pub(crate) fn bind_live(&mut self, id: String)
        ensures
            final(self)@ == old(self)@.with_live(named(old(self)@.live, id@)),
    {
        bind_slot(&mut self.live, id);
    }

    pub(crate) fn bind_parked(&mut self, at: usize, id: String)
        requires
            at < old(self)@.tabs.parked.len(),
        ensures
            final(self)@ == old(self)@.parked_at(
                at as int,
                named(old(self)@.tabs.parked[at as int], id@),
            ),
    {
        let ghost before = self@.tabs.parked;
        assert(before[at as int] == self.tabs.parked@[at as int]@);
        let ghost to = named(before[at as int], id@);
        bind_slot(&mut self.tabs.parked[at], id);
        assert(self@.tabs.parked =~= before.update(at as int, to));
    }

    pub(crate) fn mark_bound_parked(&mut self, at: usize)
        requires
            at < old(self)@.tabs.parked.len(),
        ensures
            final(self)@ == old(self)@.parked_at(
                at as int,
                now_bound(old(self)@.tabs.parked[at as int]),
            ),
    {
        let ghost before = self@.tabs.parked;
        assert(before[at as int] == self.tabs.parked@[at as int]@);
        let ghost to = now_bound(before[at as int]);
        mark_bound(&mut self.tabs.parked[at]);
        assert(self@.tabs.parked =~= before.update(at as int, to));
    }

    pub(crate) fn forget_agents_live(&mut self)
        ensures
            final(self)@ == old(self)@.with_live(unheard(old(self)@.live)),
    {
        forget_agents(&mut self.live);
    }
}

} // verus!
