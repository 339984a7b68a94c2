//! What tabs, agents and requests keep of a state that makes sense.

use crate::app::AppV;
use crate::asks::FormStep;
use crate::bus::{AuthNotice, AuthV, PermissionAskReply, RequestId};
use crate::events::EventV;
use crate::input::KeyEvent;
use crate::resume::{ListedV, LocalV};
use crate::sense_prompts;
use crate::seqs;
use crate::session::{self, AsksV, ElicitationV, PermissionAskV};
use crate::sound;
use vstd::prelude::*;

verus! {

pub(crate) broadcast proof fn lemma_begin_walk(a: AppV)
    requires
        a.wf(),
    ensures
        (#[trigger] a.begin_walk()).wf(),
{
    reveal(AppV::begin_walk);
}

pub(crate) broadcast proof fn lemma_step_walk(a: AppV, forward: bool)
    requires
        a.wf(),
    ensures
        (#[trigger] a.step_walk(forward)).wf(),
{
    reveal(AppV::step_walk);
}

pub(crate) broadcast proof fn lemma_open_history(a: AppV)
    requires
        a.wf(),
    ensures
        (#[trigger] a.open_history()).wf(),
{
    reveal(AppV::open_history);
}

pub(crate) broadcast proof fn lemma_show_agent(a: AppV, id: Seq<char>)
    requires
        a.wf(),
    ensures
        (#[trigger] a.show_agent(id)).wf(),
{
    reveal(AppV::show_agent);
    broadcast use {lemma_open_history};
}

pub(crate) broadcast proof fn lemma_confirm_walk(a: AppV)
    requires
        a.wf(),
    ensures
        (#[trigger] a.confirm_walk()).wf(),
{
    reveal(AppV::confirm_walk);
    broadcast use {lemma_show_agent};
}

pub(crate) broadcast proof fn lemma_cancel_walk(a: AppV)
    requires
        a.wf(),
    ensures
        (#[trigger] a.cancel_walk()).wf(),
{
    reveal(AppV::cancel_walk);
}

pub(crate) broadcast proof fn lemma_put_away(a: AppV, t: Seq<char>)
    requires
        a.wf(),
    ensures
        (#[trigger] a.put_away(t)).wf(),
{
    reveal(AppV::put_away);
}

pub(crate) broadcast proof fn lemma_open_ask(a: AppV, session: Seq<char>, p: PermissionAskV)
    requires
        a.wf(),
    ensures
        (#[trigger] a.open_ask(session, p)).wf(),
{
    broadcast use sound::group_sound;

    reveal(AppV::open_ask);
    broadcast use lemma_index;
}

pub(crate) broadcast proof fn lemma_open_form(a: AppV, session: Option<Seq<char>>, f: ElicitationV)
    requires
        a.wf(),
    ensures
        (#[trigger] a.open_form(session, f)).wf(),
{
    broadcast use sound::group_sound;

    reveal(AppV::open_form);
    broadcast use lemma_index;
}

pub(crate) broadcast proof fn lemma_answer_ask(a: AppV, answer: PermissionAskReply<Seq<char>>)
    requires
        a.wf(),
    ensures
        (#[trigger] a.answer_ask(answer)).wf(),
{
    reveal(AppV::answer_ask);
}

pub(crate) broadcast proof fn lemma_answer_form(a: AppV)
    requires
        a.wf(),
    ensures
        (#[trigger] a.answer_form()).wf(),
{
    reveal(AppV::answer_form);
}

pub(crate) broadcast proof fn lemma_withdraw(a: AppV, id: RequestId<Seq<char>>)
    requires
        a.wf(),
    ensures
        (#[trigger] a.withdraw(id)).wf(),
{
    reveal(AppV::withdraw);
    reveal(session::slots_sound);
}

pub(crate) broadcast proof fn lemma_ask_key(a: AppV, key: KeyEvent)
    requires
        a.wf(),
    ensures
        (#[trigger] a.ask_key(key)).wf(),
{
    reveal(AppV::ask_key);
    broadcast use {lemma_answer_ask};
}

pub(crate) broadcast proof fn lemma_ask_scrolled(a: AppV, delta: int)
    requires
        a.wf(),
    ensures
        (#[trigger] a.ask_scrolled(delta)).wf(),
{
    reveal(AppV::ask_scrolled);
}

pub(crate) broadcast proof fn lemma_form_key(a: AppV, key: KeyEvent, step: FormStep)
    requires
        a.wf(),
    ensures
        (#[trigger] a.form_key(key, step)).wf(),
{
    reveal(AppV::form_key);
    broadcast use {lemma_answer_form};
}

pub(crate) broadcast proof fn lemma_form_wheel(a: AppV, delta: int)
    requires
        a.wf(),
    ensures
        (#[trigger] a.form_wheel(delta)).wf(),
{
    reveal(AppV::form_wheel);
}

pub(crate) broadcast proof fn lemma_open_methods(a: AppV)
    requires
        a.wf(),
    ensures
        (#[trigger] a.open_methods()).wf(),
{
    reveal(AppV::open_methods);
}

pub(crate) broadcast proof fn lemma_sign_in(a: AppV, arg: Seq<char>)
    requires
        a.wf(),
    ensures
        (#[trigger] a.sign_in(arg)).wf(),
{
    reveal(AppV::sign_in);
    broadcast use {lemma_open_methods};
}

pub(crate) broadcast proof fn lemma_sign_in_with(a: AppV, method_id: Seq<char>, chosen: Option<usize>, values: Seq<(Seq<char>, Seq<char>)>, complete: bool)
    requires
        a.wf(),
    ensures
        (#[trigger] a.sign_in_with(method_id, chosen, values, complete)).wf(),
{
    reveal(AppV::sign_in_with);
}

pub(crate) broadcast proof fn lemma_sign_in_needed(a: AppV)
    requires
        a.wf(),
    ensures
        (#[trigger] a.sign_in_needed()).wf(),
{
    reveal(AppV::sign_in_needed);
    broadcast use {lemma_sign_in};
}

pub(crate) broadcast proof fn lemma_auth_heard(a: AppV, snap: AuthV, n: Option<AuthNotice<Seq<char>>>)
    requires
        a.wf(),
    ensures
        (#[trigger] a.auth_heard(snap, n)).wf(),
{
    reveal(AppV::auth_heard);
}

pub(crate) broadcast proof fn lemma_bound_here(a: AppV, id: Seq<char>, notice: Option<Seq<char>>)
    requires
        a.wf(),
    ensures
        (#[trigger] a.bound_here(id, notice)).wf(),
{
    reveal(AppV::bound_here);
}

pub(crate) broadcast proof fn lemma_bound_there(a: AppV, at: int, id: Seq<char>, notice: Option<Seq<char>>)
    requires
        a.wf(),
        0 <= at < a.tabs.parked.len(),
    ensures
        (#[trigger] a.bound_there(at, id, notice)).wf(),
{
    broadcast use sound::group_sound;

    reveal(AppV::bound_there);
}

pub(crate) broadcast proof fn lemma_rebound_here(a: AppV, id: Seq<char>, notice: Option<Seq<char>>)
    requires
        a.wf(),
    ensures
        (#[trigger] a.rebound_here(id, notice)).wf(),
{
    broadcast use sound::group_sound;

    reveal(AppV::rebound_here);
    broadcast use {lemma_bound_here};
}

pub(crate) broadcast proof fn lemma_parked_anew(a: AppV, id: Seq<char>, notice: Option<Seq<char>>)
    requires
        a.wf(),
    ensures
        (#[trigger] a.parked_anew(id, notice)).wf(),
{
    broadcast use sound::group_sound;

    reveal(AppV::parked_anew);
}

pub(crate) broadcast proof fn lemma_taken_up(a: AppV, id: Seq<char>)
    requires
        a.wf(),
    ensures
        (#[trigger] a.taken_up(id)).wf(),
{
    reveal(AppV::taken_up);
    broadcast use {sense_prompts::lemma_send_next_of};
}

pub(crate) broadcast proof fn lemma_bind_unasked(a: AppV, id: Seq<char>, notice: Option<Seq<char>>)
    requires
        a.wf(),
    ensures
        (#[trigger] a.bind_unasked(id, notice)).wf(),
{
    reveal(AppV::bind_unasked);
    broadcast use {lemma_bound_there, lemma_taken_up, lemma_rebound_here, lemma_parked_anew};
    broadcast use lemma_index;
}

pub(crate) broadcast proof fn lemma_bind_first(a: AppV, id: Seq<char>, notice: Option<Seq<char>>)
    requires
        a.wf(),
    ensures
        (#[trigger] a.bind_first(id, notice)).wf(),
{
    reveal(AppV::bind_first);
    broadcast use {lemma_bound_here, lemma_taken_up, lemma_bound_there};
    broadcast use lemma_index;
}

pub(crate) broadcast proof fn lemma_bind_known(a: AppV, id: Seq<char>, notice: Option<Seq<char>>)
    requires
        a.wf(),
    ensures
        (#[trigger] a.bind_known(id, notice)).wf(),
{
    broadcast use sound::group_sound;

    reveal(AppV::bind_known);
    broadcast use {lemma_taken_up, lemma_rebound_here};
    broadcast use lemma_index;
}

pub(crate) broadcast proof fn lemma_bind(a: AppV, id: Seq<char>, notice: Option<Seq<char>>)
    requires
        a.wf(),
    ensures
        (#[trigger] a.bind(id, notice)).wf(),
{
    reveal(AppV::bind);
    broadcast use {lemma_bind_known, lemma_bind_unasked, lemma_bind_first};
}

pub(crate) broadcast proof fn lemma_bind_to(a: AppV, previous: Seq<char>, id: Seq<char>, notice: Option<Seq<char>>)
    requires
        a.wf(),
    ensures
        (#[trigger] a.bind_to(previous, id, notice)).wf(),
{
    reveal(AppV::bind_to);
    broadcast use {lemma_bind};
}

pub(crate) broadcast proof fn lemma_without_plugin_view(a: AppV)
    requires
        a.wf(),
    ensures
        (#[trigger] a.without_plugin_view()).wf(),
{
    reveal(AppV::without_plugin_view);
}

pub(crate) broadcast proof fn lemma_without_slider(a: AppV)
    requires
        a.wf(),
    ensures
        (#[trigger] a.without_slider()).wf(),
{
    reveal(AppV::without_slider);
}

pub(crate) broadcast proof fn lemma_without_select(a: AppV)
    requires
        a.wf(),
    ensures
        (#[trigger] a.without_select()).wf(),
{
    reveal(AppV::without_select);
}

pub(crate) broadcast proof fn lemma_without_plugin_overlays(a: AppV)
    requires
        a.wf(),
    ensures
        (#[trigger] a.without_plugin_overlays()).wf(),
{
    reveal(AppV::without_plugin_overlays);
    broadcast use {lemma_without_plugin_view, lemma_without_slider, lemma_without_select};
}

pub(crate) broadcast proof fn lemma_swapped(a: AppV, tab: int)
    requires
        a.wf(),
        0 <= tab <= a.tabs.parked.len(),
        tab != a.place(),
    ensures
        (#[trigger] a.swapped(tab)).wf(),
{
    broadcast use sound::group_sound;

    reveal(AppV::swapped);
}

pub(crate) broadcast proof fn lemma_switched(a: AppV)
    requires
        a.wf(),
    ensures
        (#[trigger] a.switched()).wf(),
{
    reveal(AppV::switched);
}

pub(crate) broadcast proof fn lemma_switch_to(a: AppV, tab: int)
    requires
        a.wf(),
        0 <= tab,
    ensures
        (#[trigger] a.switch_to(tab)).wf(),
{
    reveal(AppV::switch_to);
    broadcast use {lemma_swapped, lemma_switched};
}

pub(crate) broadcast proof fn lemma_view_tab(a: AppV, tab: int)
    requires
        a.wf(),
        0 <= tab,
    ensures
        (#[trigger] a.view_tab(tab)).wf(),
{
    reveal(AppV::view_tab);
    broadcast use {lemma_without_plugin_overlays, lemma_switch_to};
}

pub(crate) broadcast proof fn lemma_open_resume(a: AppV, limit: usize)
    requires
        a.wf(),
    ensures
        (#[trigger] a.open_resume(limit)).wf(),
{
    reveal(AppV::open_resume);
}

pub(crate) broadcast proof fn lemma_reset_ui(a: AppV)
    requires
        a.wf(),
    ensures
        (#[trigger] a.reset_ui()).wf(),
{
    broadcast use sound::group_sound;

    reveal(AppV::reset_ui);
}

pub(crate) broadcast proof fn lemma_open_tab(a: AppV, id: Seq<char>, bound: bool)
    requires
        a.wf(),
    ensures
        (#[trigger] a.open_tab(id, bound)).wf(),
{
    broadcast use sound::group_sound;

    reveal(AppV::open_tab);
    broadcast use {lemma_switched};
}

pub(crate) broadcast proof fn lemma_resume_agent(a: AppV, id: Seq<char>)
    requires
        a.wf(),
    ensures
        (#[trigger] a.resume_agent(id)).wf(),
{
    reveal(AppV::resume_agent);
    broadcast use {lemma_reset_ui, lemma_view_tab, lemma_open_tab};
    broadcast use lemma_index;
}

pub(crate) broadcast proof fn lemma_resume_chosen(a: AppV, prefix: Seq<char>)
    requires
        a.wf(),
    ensures
        (#[trigger] a.resume_chosen(prefix)).wf(),
{
    reveal(AppV::resume_chosen);
}

pub(crate) broadcast proof fn lemma_resume_log(a: AppV, prefix: Seq<char>)
    requires
        a.wf(),
    ensures
        (#[trigger] a.resume_log(prefix)).wf(),
{
    reveal(AppV::resume_log);
    broadcast use {lemma_resume_chosen};
}

pub(crate) broadcast proof fn lemma_abandoned(a: AppV)
    requires
        a.wf(),
    ensures
        (#[trigger] a.abandoned()).wf(),
{
    reveal(AppV::abandoned);
}

pub(crate) broadcast proof fn lemma_replaced(a: AppV, id: Seq<char>, bound: bool)
    requires
        a.wf(),
    ensures
        (#[trigger] a.replaced(id, bound)).wf(),
{
    broadcast use sound::group_sound;

    reveal(AppV::replaced);
}

pub(crate) broadcast proof fn lemma_dropping(a: AppV, asks: AsksV)
    requires
        a.wf(),
    ensures
        (#[trigger] a.dropping(asks)).wf(),
{
    reveal(AppV::dropping);
}

pub(crate) broadcast proof fn lemma_new_tab(a: AppV, id: Seq<char>, bound: bool)
    requires
        a.wf(),
    ensures
        (#[trigger] a.new_tab(id, bound)).wf(),
{
    reveal(AppV::new_tab);
    broadcast use {lemma_abandoned, lemma_replaced, lemma_switched, lemma_dropping, lemma_open_tab};
}

pub(crate) broadcast proof fn lemma_new_session(a: AppV, arg: Seq<char>)
    requires
        a.wf(),
    ensures
        (#[trigger] a.new_session(arg)).wf(),
{
    reveal(AppV::new_session);
    broadcast use {lemma_new_tab};
}

pub(crate) broadcast proof fn lemma_at_neighbour(a: AppV)
    requires
        a.wf(),
        a.tabs.parked.len() > 0,
    ensures
        (#[trigger] a.at_neighbour()).wf(),
{
    broadcast use sound::group_sound;

    reveal(AppV::at_neighbour);
}

pub(crate) broadcast proof fn lemma_giving_up(a: AppV, id: Seq<char>)
    requires
        a.wf(),
    ensures
        (#[trigger] a.giving_up(id)).wf(),
{
    reveal(AppV::giving_up);
    broadcast use lemma_index;
}

pub(crate) broadcast proof fn lemma_close_tab(a: AppV)
    requires
        a.wf(),
    ensures
        (#[trigger] a.close_tab()).wf(),
{
    reveal(AppV::close_tab);
    broadcast use {lemma_without_plugin_overlays, lemma_at_neighbour, lemma_dropping, lemma_giving_up, lemma_switched};
    reveal(AppV::without_plugin_overlays);
    reveal(AppV::without_plugin_view);
    reveal(AppV::without_slider);
    reveal(AppV::without_select);
}

pub(crate) broadcast proof fn lemma_agent_listed(a: AppV, requester: Seq<char>, v: Seq<ListedV>, prefix: Option<Seq<char>>, limit: usize)
    requires
        a.wf(),
    ensures
        (#[trigger] a.agent_listed(requester, v, prefix, limit)).wf(),
{
    reveal(AppV::agent_listed);
    broadcast use {lemma_resume_agent};
    broadcast use lemma_index;
}

pub(crate) broadcast proof fn lemma_agent_cannot_list(a: AppV, requester: Seq<char>, prefix: Option<Seq<char>>, limit: usize, error: Seq<char>)
    requires
        a.wf(),
    ensures
        (#[trigger] a.agent_cannot_list(requester, prefix, limit, error)).wf(),
{
    reveal(AppV::agent_cannot_list);
    broadcast use {lemma_resume_agent, lemma_resume_log};
}

pub(crate) broadcast proof fn lemma_started_live(a: AppV, parent: Seq<char>, child: Seq<char>)
    requires
        a.wf(),
    ensures
        (#[trigger] a.started_live(parent, child)).wf(),
{
    broadcast use sound::group_sound;

    reveal(AppV::started_live);
}

pub(crate) broadcast proof fn lemma_started_parked(a: AppV, at: int, parent: Seq<char>, child: Seq<char>)
    requires
        a.wf(),
        0 <= at < a.tabs.parked.len(),
    ensures
        (#[trigger] a.started_parked(at, parent, child)).wf(),
{
    broadcast use sound::group_sound;

    reveal(AppV::started_parked);
}

pub(crate) broadcast proof fn lemma_agent_started(a: AppV, parent: Seq<char>, child: Seq<char>)
    requires
        a.wf(),
    ensures
        (#[trigger] a.agent_started(parent, child)).wf(),
{
    reveal(AppV::agent_started);
    broadcast use {lemma_started_live, lemma_started_parked};
    broadcast use lemma_index;
}

pub(crate) broadcast proof fn lemma_agent_finished(a: AppV, child: Seq<char>, failed: bool)
    requires
        a.wf(),
    ensures
        (#[trigger] a.agent_finished(child, failed)).wf(),
{
    broadcast use sound::group_sound;

    reveal(AppV::agent_finished);
    broadcast use lemma_index;
}

pub(crate) broadcast proof fn lemma_heard_elsewhere(a: AppV, session: Seq<char>, e: EventV)
    requires
        a.wf(),
    ensures
        (#[trigger] a.heard_elsewhere(session, e)).wf(),
{
    broadcast use sound::group_sound;

    reveal(AppV::heard_elsewhere);
    broadcast use lemma_index;
}

pub(crate) broadcast proof fn lemma_heard_here(a: AppV, e: EventV)
    requires
        a.wf(),
    ensures
        (#[trigger] a.heard_here(e)).wf(),
{
    broadcast use sound::group_sound;

    reveal(AppV::heard_here);
}

pub(crate) broadcast proof fn lemma_batch_ends(a: AppV)
    requires
        a.wf(),
    ensures
        (#[trigger] a.batch_ends()).wf(),
{
    reveal(AppV::batch_ends);
}

pub(crate) broadcast proof fn lemma_apply(a: AppV, e: EventV)
    requires
        a.wf(),
    ensures
        (#[trigger] a.apply(e)).wf(),
{
    reveal(AppV::apply);
    broadcast use {lemma_agent_started, lemma_agent_finished, lemma_heard_elsewhere, lemma_batch_ends, lemma_heard_here};
}

pub(crate) broadcast proof fn lemma_hear(a: AppV, e: EventV)
    requires
        a.wf(),
    ensures
        (#[trigger] a.hear(e)).wf(),
{
    reveal(AppV::hear);
    broadcast use {lemma_apply, sense_prompts::lemma_send_next_of};
}

pub(crate) broadcast proof fn lemma_logs_listed(a: AppV, v: Seq<LocalV>, via_agent: bool)
    requires
        a.wf(),
    ensures
        (#[trigger] a.logs_listed(v, via_agent)).wf(),
{
    reveal(AppV::logs_listed);
    broadcast use lemma_index;
}

pub(crate) broadcast proof fn lemma_logs_found(a: AppV, prefix: Seq<char>, v: Seq<LocalV>)
    requires
        a.wf(),
    ensures
        (#[trigger] a.logs_found(prefix, v)).wf(),
{
    reveal(AppV::logs_found);
    broadcast use {lemma_resume_chosen};
}

pub(crate) broadcast proof fn lemma_rows_described(a: AppV, locals: Seq<LocalV>)
    requires
        a.wf(),
    ensures
        (#[trigger] a.rows_described(locals)).wf(),
{
    reveal(AppV::rows_described);
}

pub(crate) broadcast proof fn lemma_index<A>(s: Seq<A>, p: spec_fn(A) -> bool)
    ensures
        0 <= #[trigger] seqs::first_index(s, p) <= s.len(),
{
    seqs::lemma_first_index(s, p);
}

} // verus!
