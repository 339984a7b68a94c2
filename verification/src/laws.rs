//! What the client promises across its operations.

use crate::app::AppV;
use crate::asks;
use crate::bus::{AppEvent, Cmd, CmdV, RequestId};
use crate::compose;
use crate::draft::{self, BlockV, StagedBlock};
use crate::effect::{Effect, EffectV, OpV};
use crate::events::EventV;
use crate::presets;
use crate::queue;
use crate::replies::Reply;
use crate::seqs;
use crate::session::{
    self, ClientQueuedPrompt, ElicitationV, PendingSteer, PermissionAskV, QueueV, RunState, SlotV,
    SteerV,
};
use crate::slash;
use crate::tabs;
use crate::text;
use vstd::prelude::*;

verus! {

// --- tabs --------------------------------------------------------------------------------

/// Switching to another tab moves no tab: the row stays as it is, the tab comes
/// into view, and every session that is neither left nor entered is untouched.
pub proof fn law_switching_keeps_the_row(a: AppV, tab: int, i: int)
    requires
        a.wf(),
        0 <= tab <= a.tabs.parked.len() <= usize::MAX,
        0 <= i <= a.tabs.parked.len(),
    ensures
        a.switch_to(tab).place() == tab,
        a.switch_to(tab).all_tabs().len() == a.all_tabs().len(),
        a.switch_to(tab).all_tabs()[i].id == a.all_tabs()[i].id,
        i != tab || tab == a.place() ==> a.switch_to(tab).all_tabs()[i] == a.all_tabs()[i],
        a.switch_to(tab).live.id == a.all_tabs()[tab].id,
{
    reveal(AppV::switch_to);
    reveal(AppV::swapped);
    reveal(AppV::switched);
    let b = a.switch_to(tab);
    if tab != a.place() {
        let at = a.parked_index(tab);
        let back = if a.place() < tab {
            a.place()
        } else {
            a.place() - 1
        };
        let rest = a.tabs.parked.remove(at);
        assert(b.tabs.parked == rest.insert(back, a.parked_form()));
        assert(b.tabs.parked.len() == a.tabs.parked.len());
        assert(b.place() == tab);
        assert(a.all_tabs()[tab] == a.tabs.parked[at]);
        assert(b.live.id == a.tabs.parked[at].id);
        if i == tab {
            assert(b.all_tabs()[i] == b.parked_form());
        } else if i == a.place() {
            assert(a.all_tabs()[i] == a.parked_form());
            if i < tab {
                assert(b.all_tabs()[i] == b.tabs.parked[i]);
            } else {
                assert(b.all_tabs()[i] == b.tabs.parked[i - 1]);
            }
        } else {
            let k = a.parked_index(i);
            assert(a.all_tabs()[i] == a.tabs.parked[k]);
            let j = if i < tab {
                i
            } else {
                i - 1
            };
            assert(b.all_tabs()[i] == b.tabs.parked[j]);
            assert(b.tabs.parked[j] == a.tabs.parked[k]);
        }
    }
}

/// Going to another tab and back restores all that the session holds: its
/// draft, its queue, its chat, its questions; and whether a turn runs.
pub proof fn law_switching_back_restores(a: AppV, tab: int)
    requires
        a.wf(),
        0 <= tab <= a.tabs.parked.len() <= usize::MAX,
    ensures
        ({
            let c = a.switch_to(tab).switch_to(a.place());
            &&& c.live.id == a.live.id
            &&& c.live.title == a.live.title
            &&& c.live.bound == a.live.bound
            &&& c.live.chat == a.live.chat
            &&& c.live.draft == a.live.draft
            &&& c.live.queue == a.live.queue
            &&& c.live.models == a.live.models
            &&& c.live.modes == a.live.modes
            &&& c.live.catalog == a.live.catalog
            &&& c.live.agents == a.live.agents
            &&& c.live.asks == a.live.asks
            &&& c.conn == a.conn
            &&& c.place() == a.place()
            &&& c.busy() == a.busy()
        }),
{
    reveal(AppV::switch_to);
    reveal(AppV::swapped);
    reveal(AppV::switched);
    let b = a.switch_to(tab);
    if tab != a.place() {
        let back = if a.place() < tab {
            a.place()
        } else {
            a.place() - 1
        };
        assert(b.place() == tab);
        assert(b.parked_index(a.place()) == back);
        assert(b.tabs.parked[back] == a.parked_form());
    }
}

/// The last tab cannot be closed.
pub proof fn law_last_tab_stays(a: AppV)
    requires
        a.tabs.parked.len() == 0,
    ensures
        a.close_tab().live == a.live,
        a.close_tab().conn == a.conn,
        a.close_tab().state == a.state,
        a.close_tab().tabs == a.tabs,
        a.close_tab().out == a.out,
{
    reveal(AppV::close_tab);
}

/// Closing a tab takes that tab out of the row and leaves the others in their
/// order.
pub proof fn law_closing_keeps_the_others(a: AppV, i: int)
    requires
        a.wf(),
        0 < a.tabs.parked.len() <= usize::MAX,
        0 <= i < a.tabs.parked.len(),
    ensures
        a.close_tab().all_tabs().len() == a.all_tabs().len() - 1,
        a.close_tab().all_tabs()[i].id == a.all_tabs().remove(a.place())[i].id,
{
    reveal(AppV::close_tab);
    reveal(AppV::without_plugin_overlays);
    reveal(AppV::without_plugin_view);
    reveal(AppV::without_slider);
    reveal(AppV::without_select);
    reveal(AppV::at_neighbour);
    reveal(AppV::dropping);
    reveal(AppV::giving_up);
    reveal(AppV::switched);
    let b = a.close_tab();
    let at = if a.place() < a.tabs.parked.len() {
        a.place()
    } else {
        a.place() - 1
    };
    let w = a.without_plugin_overlays();
    assert(w.tabs == a.tabs);
    assert(b.tabs.parked == a.tabs.parked.remove(at));
    assert(b.tabs.current == at as usize);
    assert(b.place() == at);
    assert(b.live.id == a.tabs.parked[at].id);
    assert(a.all_tabs().remove(a.place()) =~= a.tabs.parked);
    if i < at {
        assert(b.all_tabs()[i] == b.tabs.parked[i]);
    } else if i == at {
        assert(b.all_tabs()[i] == b.parked_form());
    } else {
        assert(b.all_tabs()[i] == b.tabs.parked[i - 1]);
    }
}

/// The next tab and then the previous one is the tab one came from.
pub proof fn law_next_and_previous_tab(a: AppV)
    requires
        a.wf(),
        0 < a.tabs.parked.len() < usize::MAX,
    ensures
        a.session_command("next"@).session_command("prev"@).place() == a.place(),
        a.session_command("prev"@).session_command("next"@).place() == a.place(),
{
    reveal(AppV::session_command);
    reveal_strlit("view");
    reveal_strlit("prev");
    reveal_strlit("next");
    assert("view"@[0] == 'v' && "prev"@[0] == 'p' && "next"@[0] == 'n');
    let n = a.tabs.parked.len() as int;
    let up = if a.place() < n {
        a.place() + 1
    } else {
        0
    };
    let down = if a.place() == 0 {
        n
    } else {
        a.place() - 1
    };
    lemma_view_tab(a, up);
    lemma_view_tab(a.view_tab(up), a.place());
    lemma_view_tab(a, down);
    lemma_view_tab(a.view_tab(down), a.place());
}

proof fn lemma_view_tab(a: AppV, tab: int)
    requires
        a.tabs.current <= a.tabs.parked.len() <= usize::MAX,
        0 <= tab <= a.tabs.parked.len(),
    ensures
        a.view_tab(tab).place() == tab,
        a.view_tab(tab).tabs.parked.len() == a.tabs.parked.len(),
        a.view_tab(tab).tabs.current <= a.tabs.parked.len(),
{
    reveal(AppV::view_tab);
    reveal(AppV::without_plugin_overlays);
    reveal(AppV::without_plugin_view);
    reveal(AppV::without_slider);
    reveal(AppV::without_select);
    reveal(AppV::switch_to);
    reveal(AppV::swapped);
    reveal(AppV::switched);
}

/// A session that was asked for by a tab that has been closed meanwhile is
/// taken up by no tab, and the agent is told to forget it.
pub proof fn law_closed_tab_takes_no_session(a: AppV, id: Seq<char>, notice: Option<Seq<char>>)
    requires
        a.tabs.awaiting.len() > 0,
        a.tabs.startup_bound,
        !a.tabs.awaiting[0].open,
    ensures
        a.bind(id, notice).live == a.live,
        a.bind(id, notice).tabs.parked == a.tabs.parked,
        a.bind(id, notice).tabs.awaiting == a.tabs.awaiting.skip(1),
        a.bind(id, notice).out == a.out.push(
            Effect::Send(Cmd::ForgetSession { session_id: id }),
        ),
{
    reveal(AppV::bind);
    reveal(AppV::bind_first);
}

/// A fact of a session that is not viewed, and whose subagents are not, never
/// touches what is viewed.
pub proof fn law_other_sessions_stay_out_of_view(a: AppV, e: EventV, session: Seq<char>)
    requires
        session::event_session(e) == Some(session),
        !(e is SubagentStarted),
        !(e is SubagentFinished),
        session != a.live.id,
        !session::has_view(a.live, session),
    ensures
        a.apply(e).live == a.live,
        a.apply(e).conn == a.conn,
        a.apply(e).state == a.state,
        a.apply(e).menu == a.menu,
        a.apply(e).pointer == a.pointer,
        a.apply(e).tabs.parked.len() == a.tabs.parked.len(),
{
    reveal(AppV::apply);
    reveal(AppV::heard_elsewhere);
    seqs::lemma_first_index(a.tabs.parked, session::owner_of(session));
}

// --- prompts -----------------------------------------------------------------------------

/// While a session is not bound nothing is sent to it: what is submitted waits
/// in its queue, texts and images alike, also what was to go out at once.
pub proof fn law_unbound_session_is_sent_nothing(a: AppV, t: Seq<char>, blocks: Seq<BlockV>)
    requires
        !a.live.bound,
        blocks.len() > 0,
    ensures
        a.send_text(t).out == a.out,
        a.send_text(t).live.queue.prompts == a.live.queue.prompts.push(
            ClientQueuedPrompt { id: a.counts.next_prompt, blocks: seq![StagedBlock::Text(t)] },
        ),
        a.send_blocks(blocks).out == a.out,
        a.send_blocks(blocks).live.queue.prompts == a.live.queue.prompts.push(
            ClientQueuedPrompt { id: a.counts.next_prompt, blocks },
        ),
        a.send_now_blocks(blocks).out == a.out,
        a.send_now_blocks(blocks).live.queue.prompts == a.live.queue.prompts.push(
            ClientQueuedPrompt { id: a.counts.next_prompt, blocks },
        ),
        a.send_draft_now().out == a.out,
        a.send_next().out == a.out,
        a.send_head_now().out == a.out,
{
    reveal(AppV::send_text);
    reveal(AppV::send_blocks);
    reveal(AppV::send_now_blocks);
    reveal(AppV::send_draft_now);
    reveal(AppV::held_back);
    reveal(AppV::put_away);
    reveal(AppV::unstaged);
    reveal(AppV::reconciled_images);
    reveal(AppV::send_next);
    reveal(AppV::send_head_now);
}

/// A draft with images, unless it has to wait for a prompt before it, is echoed
/// and sent to its session once that is bound.
pub proof fn law_images_are_sent(a: AppV, blocks: Seq<BlockV>)
    requires
        a.live.bound,
        blocks.len() > 0,
    ensures
        a.occupied() ==> a.send_blocks(blocks).out == a.out,
        !a.occupied() ==> a.send_blocks(blocks).out == (a.out + queue::echo(
            a.live.chat.transcript,
            blocks,
        )).push(
            Effect::Send(
                Cmd::PromptImages {
                    session_id: a.live.id,
                    blocks: draft::prompt_blocks(blocks),
                },
            ),
        ),
{
    reveal(AppV::send_blocks);
    reveal(AppV::emit_staged);
}

/// What is sent at once to a bound session does not wait for a turn: the last
/// thing asked for is that it be sent, into the turn if there is one or if
/// another prompt waits.
pub proof fn law_send_now_never_waits(a: AppV, blocks: Seq<BlockV>)
    requires
        a.live.bound,
        blocks.len() > 0,
        draft::image_count(blocks) > 0 || blocks[0] is Text,
    ensures
        a.send_now_blocks(blocks).out.len() > a.out.len(),
        a.send_now_blocks(blocks).out.last() == sent_now(a, blocks),
{
    reveal(AppV::send_now_blocks);
    reveal(AppV::send_now_images);
    reveal(AppV::send_now_text);
    reveal(AppV::steer_text);
    reveal(AppV::prompt_text);
    reveal(AppV::emit_staged);
    reveal(AppV::steering_with);
    reveal(AppV::put_away);
}

/// How blocks are sent at once.
pub open spec fn sent_now(a: AppV, blocks: Seq<BlockV>) -> EffectV {
    let session_id = a.live.id;
    let message_id = a.counts.next_prompt;
    if draft::image_count(blocks) > 0 {
        let parts = draft::prompt_blocks(blocks);
        if a.occupied() {
            Effect::Send(Cmd::SteerImages { session_id, message_id, blocks: parts })
        } else {
            Effect::Send(Cmd::PromptImages { session_id, blocks: parts })
        }
    } else {
        let text = blocks[0]->Text_0;
        if a.occupied() {
            Effect::Send(Cmd::Steer { session_id, message_id, text })
        } else {
            Effect::Send(Cmd::Prompt { session_id, text })
        }
    }
}

/// Prompts typed while a turn runs or is about to, or while others wait, wait in
/// the order in which they were typed, behind those others, and are not sent.
pub proof fn law_prompts_wait_in_order(a: AppV, t: Seq<char>, u: Seq<char>)
    requires
        a.occupied(),
    ensures
        ({
            let b = a.send_text(t).send_text(u);
            let n = a.live.queue.prompts.len() as int;
            &&& b.out == a.out
            &&& b.live.queue.prompts.len() == n + 2
            &&& b.live.queue.prompts.take(n) == a.live.queue.prompts
            &&& b.live.queue.prompts[n].blocks == seq![StagedBlock::Text(t)]
            &&& b.live.queue.prompts[n + 1].blocks == seq![StagedBlock::Text(u)]
        }),
{
    reveal(AppV::send_text);
    let n = a.live.queue.prompts.len() as int;
    let c = a.send_text(t);
    assert(c.occupied());
    let b = c.send_text(u);
    assert(b.live.queue.prompts.take(n) =~= a.live.queue.prompts);
}

/// When a turn has ended the prompt that waits longest is sent, and it alone.
pub proof fn law_head_goes_first(a: AppV)
    requires
        a.live.bound,
        !queue::held(a.live.queue),
        a.live.queue.prompts.len() > 0,
    ensures
        a.send_next().live.queue.prompts == a.live.queue.prompts.skip(1),
        a.send_next().out == (a.out + queue::echo(
            a.live.chat.transcript,
            a.live.queue.prompts[0].blocks,
        )).push(
            Effect::Send(queue::prompt_cmd(a.live.id, a.live.queue.prompts[0].blocks)),
        ),
{
    reveal(AppV::send_next);
}

proof fn lemma_deferred_head(q: QueueV)
    requires
        q.prompts.len() > 0,
        !queue::has_steer(q, q.prompts[0].id),
    ensures
        ({
            let p = q.prompts[0];
            let sent = queue::with_steer(
                queue::without_head(q),
                PendingSteer { message_id: p.id, blocks: p.blocks, requeue_front: true },
            );
            queue::steer_settled(sent, p.id, true) == q
        }),
{
    let p = q.prompts[0];
    let s = PendingSteer { message_id: p.id, blocks: p.blocks, requeue_front: true };
    let w = queue::without_head(q);
    let sent = queue::with_steer(w, s);
    let by = queue::numbered(p.id);
    seqs::lemma_first_index(q.steers, by);
    assert(sent.steers == q.steers.push(s));
    assert forall|k: int| 0 <= k < q.steers.len() implies !by(#[trigger] sent.steers[k]) by {
        assert(sent.steers[k] == q.steers[k]);
    }
    seqs::lemma_first_index_is(sent.steers, by, q.steers.len() as int);
    let back = queue::steer_settled(sent, p.id, true);
    assert(back.steers =~= q.steers);
    assert(back.prompts =~= q.prompts);
}

/// The head of the queue, sent into a turn and deferred by the agent, is back
/// at the head; the queue is as it was.
pub proof fn law_deferred_head_comes_back(a: AppV)
    requires
        a.wf(),
        !a.counts.again,
        a.live.bound,
        a.live.draft.input.buf.len() == 0,
        a.live.draft.images.len() == 0,
        !queue::held(a.live.queue),
        a.live.queue.prompts.len() > 0,
        a.state == RunState::Running || a.live.run.pending,
    ensures
        a.send_head_now().settling(a.live.queue.prompts[0].id, true).live.queue == a.live.queue,
{
    reveal(AppV::send_head_now);
    reveal(AppV::head_steered);
    reveal(AppV::steering_with);
    reveal(AppV::settling);
    reveal(session::numbers_differ);
    let q = a.live.queue;
    let p = q.prompts[0];
    seqs::lemma_first_index(q.steers, queue::numbered(p.id));
    lemma_deferred_head(q);
    let sent = a.send_head_now().live.queue;
    assert(sent == queue::with_steer(
        queue::without_head(q),
        PendingSteer { message_id: p.id, blocks: p.blocks, requeue_front: true },
    ));
    lemma_awaits_its_fate(
        queue::without_head(q),
        PendingSteer { message_id: p.id, blocks: p.blocks, requeue_front: true },
    );
}

proof fn lemma_awaits_its_fate(q: QueueV, s: SteerV)
    ensures
        queue::has_steer(queue::with_steer(q, s), s.message_id),
{
    let by = queue::numbered(s.message_id);
    seqs::lemma_first_index(q.steers, by);
    let at = seqs::first_index(q.steers, by);
    let sent = queue::with_steer(q, s);
    assert forall|k: int| 0 <= k < at implies !by(#[trigger] sent.steers[k]) by {
        assert(sent.steers[k] == q.steers[k]);
    }
    seqs::lemma_first_index_is(sent.steers, by, at);
}

proof fn lemma_accepted_prompt(q: QueueV, id: u64, blocks: Seq<BlockV>, front: bool)
    requires
        !queue::has_steer(q, id),
    ensures
        queue::steer_settled(
            queue::with_steer(
                q,
                PendingSteer { message_id: id, blocks, requeue_front: front },
            ),
            id,
            false,
        ) == q,
{
    let s = PendingSteer { message_id: id, blocks, requeue_front: front };
    let sent = queue::with_steer(q, s);
    let by = queue::numbered(id);
    seqs::lemma_first_index(q.steers, by);
    assert(sent.steers == q.steers.push(s));
    assert forall|k: int| 0 <= k < q.steers.len() implies !by(#[trigger] sent.steers[k]) by {
        assert(sent.steers[k] == q.steers[k]);
    }
    seqs::lemma_first_index_is(sent.steers, by, q.steers.len() as int);
    assert(queue::steer_settled(sent, id, false).steers =~= q.steers);
}

/// A prompt sent into a turn and accepted by the agent leaves no trace in the
/// queue.
pub proof fn law_accepted_prompt_is_gone(a: AppV, t: Seq<char>)
    requires
        a.wf(),
        !a.counts.again,
    ensures
        a.send_now_text(t, true).settling(a.counts.next_prompt, false).live.queue == a.live.queue,
{
    reveal(AppV::send_now_text);
    reveal(AppV::steer_text);
    reveal(AppV::steering_with);
    reveal(AppV::settling);
    reveal(session::numbers_differ);
    let q = a.live.queue;
    let id = a.counts.next_prompt;
    let blocks = seq![StagedBlock::Text(t)];
    seqs::lemma_first_index(q.steers, queue::numbered(id));
    lemma_accepted_prompt(q, id, blocks, false);
    lemma_awaits_its_fate(q, PendingSteer { message_id: id, blocks, requeue_front: false });
}

/// Until the numbers of the prompts begin again, no prompt of a session is
/// both queued and on its way into a turn, and no two have the same number.
pub proof fn law_prompts_have_their_own_numbers(a: AppV, i: int, j: int)
    requires
        a.wf(),
        !a.counts.again,
    ensures
        0 <= i < j < a.live.queue.prompts.len() ==> a.live.queue.prompts[i].id
            != a.live.queue.prompts[j].id,
        0 <= i < j < a.live.queue.steers.len() ==> a.live.queue.steers[i].message_id
            != a.live.queue.steers[j].message_id,
        0 <= i < a.live.queue.prompts.len() && 0 <= j < a.live.queue.steers.len()
            ==> a.live.queue.prompts[i].id != a.live.queue.steers[j].message_id,
{
    reveal(session::steers_differ);
    reveal(session::numbers_differ);
}

/// While the queue is browsed or edited nothing leaves it.
pub proof fn law_held_queue_stands_still(a: AppV)
    requires
        queue::held(a.live.queue),
    ensures
        a.send_next().live.queue == a.live.queue,
        a.send_next().out == a.out,
{
    reveal(AppV::send_next);
}

/// An edited prompt goes back to its own place during a turn; the others are
/// untouched.
pub proof fn law_saved_edit_keeps_its_place(a: AppV, id: u64, blocks: Seq<BlockV>, at: int)
    requires
        a.state != RunState::Idle,
        at == seqs::first_index(a.live.queue.prompts, compose::prompt_numbered(id)),
        at < a.live.queue.prompts.len(),
    ensures
        a.save_blocks(id, blocks).live.queue.prompts == a.live.queue.prompts.update(
            at,
            ClientQueuedPrompt { id, blocks },
        ),
        a.save_blocks(id, blocks).live.queue.edit is None,
{
    reveal(AppV::save_blocks);
    reveal(AppV::edit_done);
    reveal(AppV::reconciled_images);
    seqs::lemma_first_index(a.live.queue.prompts, compose::prompt_numbered(id));
}

/// A deleted prompt leaves the queue during a turn, and it alone.
pub proof fn law_deleted_prompt_leaves_alone(a: AppV, id: u64, at: int)
    requires
        a.state != RunState::Idle,
        a.live.queue.edit matches Some(e) && e.prompt_id == id,
        at == seqs::first_index(a.live.queue.prompts, compose::prompt_numbered(id)),
        at < a.live.queue.prompts.len(),
    ensures
        a.delete_edit().live.queue.prompts == a.live.queue.prompts.remove(at),
        a.delete_edit().live.queue.edit is None,
        a.delete_edit().out == a.out,
{
    reveal(AppV::delete_edit);
    reveal(AppV::edit_done);
    reveal(AppV::reconciled_images);
}

// --- requests ----------------------------------------------------------------------------

/// A request that its agent has withdrawn stands in no tab any more, and every
/// other request stays where it is.
pub proof fn law_withdrawn_requests_disappear(a: AppV, id: RequestId<Seq<char>>)
    ensures
        !a.withdraw(id).withdraws(id),
        !asks::withdraws(a.live.asks, id) ==> a.withdraw(id).live == a.live,
        forall|i: int|
            0 <= i < a.tabs.parked.len() && !asks::withdraws(a.tabs.parked[i].asks, id)
                ==> #[trigger] a.withdraw(id).tabs.parked[i] == a.tabs.parked[i],
{
    reveal(AppV::withdraw);
    let b = a.withdraw(id);
    assert(b.tabs.parked =~= a.tabs.parked.map_values(|s: SlotV| asks::slot_left(s, id)));
    assert(!asks::withdraws(b.live.asks, id));
    assert forall|k: int| 0 <= k < b.tabs.parked.len() implies !asks::withdraws(
        (#[trigger] b.tabs.parked[k]).asks,
        id,
    ) by {
        assert(b.tabs.parked[k] == asks::slot_left(a.tabs.parked[k], id));
    }
}

/// A request of a session that is not viewed does not come into view while that
/// session has a tab.
pub proof fn law_requests_follow_their_session(
    a: AppV,
    session: Seq<char>,
    p: PermissionAskV,
    f: ElicitationV,
)
    requires
        !a.belongs_here(session),
        a.owner_index(session) < a.tabs.parked.len(),
    ensures
        a.open_ask(session, p).live == a.live,
        a.open_ask(session, p).tabs.parked[a.owner_index(session)].asks.permission == Some(p),
        a.open_form(Some(session), f).live == a.live,
        a.open_form(Some(session), f).tabs.parked[a.owner_index(session)].asks.form == Some(f),
{
    reveal(AppV::open_ask);
    reveal(AppV::open_form);
    seqs::lemma_first_index(a.tabs.parked, session::owner_of(session));
}

// --- keys --------------------------------------------------------------------------------

/// Escape during a turn interrupts it and leaves the draft alone.
pub proof fn law_escape_keeps_the_draft(a: AppV)
    requires
        a.state != RunState::Idle,
        a.live.asks.form is None,
        a.live.asks.permission is None,
        a.menu.picker is None,
        a.live.agents.active is None,
        a.live.queue.edit is None,
        a.pointer.sel is None,
        a.pointer.input_sel is None,
        !a.slash_open(),
    ensures
        a.escape().live == a.live,
        a.escape().out == a.out.push(Effect::TryInterrupt),
{
    reveal(AppV::escape);
    reveal(AppV::escape_draft);
    reveal(AppV::escape_turn);
    assert(a.without_selections() == a);
}

/// Enter on an empty draft sends the head of the queue at once: into the turn
/// where one runs or is about to, and as a prompt of its own otherwise.
pub proof fn law_empty_enter_sends_the_head(a: AppV)
    requires
        a.live.bound,
        !queue::held(a.live.queue),
        a.live.draft.input.buf.len() == 0,
        a.live.draft.images.len() == 0,
        a.live.queue.prompts.len() > 0,
    ensures
        a.enter().live.queue.prompts == a.live.queue.prompts.skip(1),
        a.enter().out.drop_last().take(
            (a.out.len() + a.live.queue.prompts[0].blocks.len()) as int,
        ) == a.out + queue::echo(a.live.chat.transcript, a.live.queue.prompts[0].blocks),
        a.enter().out.last() == Effect::<Seq<char>, CmdV, OpV>::Send(
            if a.state == RunState::Running || a.live.run.pending {
                queue::steer_cmd(
                    a.live.id,
                    a.live.queue.prompts[0].id,
                    a.live.queue.prompts[0].blocks,
                )
            } else {
                queue::prompt_cmd(a.live.id, a.live.queue.prompts[0].blocks)
            },
        ),
{
    reveal(AppV::enter);
    reveal(AppV::send_head_now);
    reveal(AppV::head_steered);
    reveal(AppV::head_prompted);
    reveal(AppV::steering_with);
    let b = a.without_input_sel();
    assert(b.slash_menu().len() == 0) by {
        reveal(AppV::slash_menu);
        text::lemma_index_of_char(b.live.draft.input.buf, '\n');
    }
    let head = a.live.queue.prompts[0].blocks;
    let told = a.out + queue::echo(a.live.chat.transcript, head);
    assert(told.len() == a.out.len() + head.len());
    assert(a.enter().out.drop_last().take(told.len() as int) =~= told);
}

/// A draft cleared by Ctrl+C is the first to be recalled.
pub proof fn law_cleared_draft_is_recalled(a: AppV)
    requires
        !a.harness_switching(),
        a.live.draft.input.buf.len() > 0,
    ensures
        a.ctrl_c().live.draft.input.buf.len() == 0,
        a.ctrl_c().recall_earlier().live.draft.input.buf == a.live.draft.input.buf,
        a.ctrl_c().status.quit == a.status.quit,
{
    reveal(AppV::ctrl_c);
    reveal(AppV::draft_cleared);
    reveal(AppV::put_away);
    reveal(AppV::reconciled_images);
    reveal(AppV::recall_earlier);
}

/// One press of Ctrl+C never quits; a second one that belongs to it does.
pub proof fn law_quitting_takes_two_presses(a: AppV)
    requires
        !a.harness_switching(),
        a.live.draft.input.buf.len() == 0,
        a.clock.ctrl_c is None,
        !a.status.quit,
    ensures
        !a.ctrl_c().status.quit,
        a.ctrl_c().ctrl_c().status.quit,
{
    reveal(AppV::ctrl_c);
}

// --- themes ------------------------------------------------------------------------------

/// Trying a palette out chooses none: the chosen one stays, and so do the
/// palettes and the mode.
pub proof fn law_trying_chooses_nothing(a: AppV, id: Seq<char>)
    ensures
        a.try_palette(id).theme.active == a.theme.active,
        a.try_palette(id).theme.palettes == a.theme.palettes,
        a.try_palette(id).theme.mode == a.theme.mode,
        a.try_palette(id).out == a.out,
{
    reveal(AppV::try_palette);
    reveal(AppV::without_preview);
}

/// Once nothing is tried out, the chosen palette is on the screen again.
pub proof fn law_preview_does_not_stick(a: AppV)
    requires
        a.theme.preview is Some,
        a.picker_theme() != a.theme.preview,
        a.slash_palette() != a.theme.preview,
        a.theme.pending != a.theme.preview,
    ensures
        a.preview_checked().theme.preview is None,
        a.preview_checked().theme.active == a.theme.active,
        a.theme.pack(a.theme.active) matches Some(p) ==> a.preview_checked().theme.painted
            == p.colors,
{
    reveal(AppV::preview_checked);
    reveal(AppV::without_preview);
}

/// The facts about models have no part in which palette a menu highlights.
proof fn lemma_palette_without_models(a: AppV, b: AppV)
    requires
        b == (AppV { live: SlotV { models: b.live.models, ..a.live }, out: b.out, ..a }),
        a.slash_palette() is Some,
    ensures
        b.slash_palette() == a.slash_palette(),
{
    reveal(AppV::slash_palette);
    reveal(AppV::slash_menu);
    reveal(AppV::options_of);
    let first = slash::first_line(a.live.draft.input.buf);
    if first.len() > 0 && first[0] == '/' {
        if let Some((name, arg)) = text::split_at_char(first.skip(1), ' ') {
            if name != "theme"@ && !(!presets::is_builtin(name) && a.knows_command(name)) {
                let menu = a.slash_menu();
                assert(menu == a.argument_entries(name, arg));
                assert(menu[a.slash_line()].name == name);
            } else {
                reveal_strlit("theme");
                reveal_strlit("model");
                reveal_strlit("agent");
                reveal_strlit("effort");
                reveal_strlit("permission");
                assert("theme"@[0] == 't' && "model"@[0] == 'm' && "agent"@[0] == 'a');
                assert("effort"@[0] == 'e' && "permission"@[0] == 'p');
                assert(a.argument_entries(name, arg) == b.argument_entries(name, arg));
            }
        } else {
            assert(a.command_entries(first.skip(1)) == b.command_entries(first.skip(1)));
        }
        assert(a.slash_menu() == b.slash_menu());
    }
}

/// What a palette may be tried out for: it is highlighted, or it was chosen and
/// is on its way.
pub open spec fn preview_has_reason(a: AppV) -> bool {
    a.theme.preview is None || a.picker_theme() == a.theme.preview || a.slash_palette()
        == a.theme.preview || a.theme.pending == a.theme.preview
}

proof fn lemma_checked_preview(a: AppV, before: AppV)
    ensures
        preview_has_reason(a.checked(before)),
        a.theme.preview is Some && a.checked(before).theme.preview is None ==> (a.theme.pack(
            a.theme.active,
        ) matches Some(p) ==> a.checked(before).theme.painted == p.colors),
{
    reveal(AppV::checked);
    reveal(AppV::preview_checked);
    reveal(AppV::without_preview);
    reveal(AppV::queue_reported);
    reveal(AppV::agents_reported);
    reveal(AppV::session_reported);
    let b = a.preview_checked();
    let c = a.checked(before);
    assert(c == (AppV { live: SlotV { models: c.live.models, ..b.live }, out: c.out, ..b }));
    if b.theme.preview is Some && b.slash_palette() == b.theme.preview {
        lemma_palette_without_models(b, c);
    }
}

/// After every event a palette is tried out only while it is highlighted or on
/// its way; where it is given up, the chosen palette is on the screen again.
pub proof fn law_events_leave_no_preview_behind(a: AppV, e: AppEvent)
    ensures
        preview_has_reason(a.handled(e)),
        a.taken(e).theme.preview is Some && a.handled(e).theme.preview is None ==> (a.taken(
            e,
        ).theme.pack(a.taken(e).theme.active) matches Some(p) ==> a.handled(e).theme.painted
            == p.colors),
{
    reveal(AppV::handled);
    lemma_checked_preview(a.taken(e), a);
}

/// The same holds of what is told back after an effect, keys among it.
pub proof fn law_replies_leave_no_preview_behind(a: AppV, r: Reply)
    ensures
        preview_has_reason(a.answered(r)),
        a.replied(r).theme.preview is Some && a.answered(r).theme.preview is None ==> (a.replied(
            r,
        ).theme.pack(a.replied(r).theme.active) matches Some(p) ==> a.answered(r).theme.painted
            == p.colors),
{
    reveal(AppV::answered);
    lemma_checked_preview(a.replied(r), a);
}

/// Toggling twice is toggling not at all.
pub proof fn law_toggling_twice_restores_the_mode(a: AppV)
    ensures
        a.toggle_mode().theme.mode != a.theme.mode,
        a.toggle_mode().toggle_mode().theme == a.theme,
{
    reveal(AppV::toggle_mode);
}

} // verus!
