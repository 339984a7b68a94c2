//! Where the facts of a session go, and what its turns bring about.

use crate::app::AppV;
use crate::bus::{AppEvent, Cmd, CmdV, ImagePart, PromptBlock};
use crate::draft::{self, BlockV, StagedBlock};
use crate::effect::{Effect, EffectV, OpV, TranscriptOp};
use crate::events::{EventV, UiEvent};
use crate::queue;
use crate::seqs;
use crate::session::{self, RunState, SlotV, ViewV};
use vstd::prelude::*;

verus! {

// --- what is asked for -------------------------------------------------------------------

/// Something is written into a transcript.
pub open spec fn writes(transcript: u64, op: OpV) -> EffectV {
    Effect::Transcript { id: transcript, op }
}

/// A fact is told to a transcript.
pub open spec fn applies(transcript: u64, e: EventV) -> EffectV {
    Effect::Transcript { id: transcript, op: TranscriptOp::Apply(e) }
}

/// A command is sent to the agent.
pub open spec fn sends(c: CmdV) -> EffectV {
    Effect::Send(c)
}

// --- whose fact it is --------------------------------------------------------------------

/// The session is not this one, nor a subagent of it.
pub open spec fn stranger(s: SlotV, id: Seq<char>) -> bool {
    s.id != id && no_view(s.agents.views, id)
}

pub open spec fn no_view(v: Seq<ViewV>, id: Seq<char>) -> bool {
    forall|k: int| 0 <= k < v.len() ==> (#[trigger] v[k]).id != id
}

/// The session has the parked tab `i`, and is not known before it.
pub open spec fn parked_as(a: AppV, i: int, id: Seq<char>) -> bool {
    &&& 0 <= i < a.tabs.parked.len()
    &&& a.tabs.parked[i].id == id
    &&& stranger(a.live, id)
    &&& forall|k: int| 0 <= k < i ==> stranger(#[trigger] a.tabs.parked[k], id)
}

/// No tab has the session, nor a subagent of that name.
pub open spec fn known_nowhere(a: AppV, id: Seq<char>) -> bool {
    &&& stranger(a.live, id)
    &&& forall|k: int| 0 <= k < a.tabs.parked.len() ==> stranger(#[trigger] a.tabs.parked[k], id)
}

pub proof fn lemma_no_view(v: Seq<ViewV>, id: Seq<char>)
    ensures
        seqs::some(v, session::view_named(id)) == !no_view(v, id),
{
    let p = session::view_named(id);
    seqs::lemma_first_index(v, p);
    if no_view(v, id) {
        seqs::lemma_first_index_is(v, p, v.len() as int);
    }
}

pub proof fn lemma_parked_as(a: AppV, i: int, id: Seq<char>)
    requires
        parked_as(a, i, id),
    ensures
        seqs::first_index(a.tabs.parked, session::owner_of(id)) == i,
        seqs::first_index(a.tabs.parked, session::with_id(id)) == i,
        !session::has_view(a.live, id),
{
    lemma_no_view(a.live.agents.views, id);
    assert forall|k: int| 0 <= k < i implies !session::owner_of(id)(
        #[trigger] a.tabs.parked[k],
    ) by {
        lemma_no_view(a.tabs.parked[k].agents.views, id);
    }
    seqs::lemma_first_index_is(a.tabs.parked, session::owner_of(id), i);
    assert forall|k: int| 0 <= k < i implies !session::with_id(id)(#[trigger] a.tabs.parked[k]) by {
        assert(stranger(a.tabs.parked[k], id));
    }
    seqs::lemma_first_index_is(a.tabs.parked, session::with_id(id), i);
}

pub proof fn lemma_known_nowhere(a: AppV, id: Seq<char>)
    requires
        known_nowhere(a, id),
    ensures
        seqs::first_index(a.tabs.parked, session::owner_of(id)) == a.tabs.parked.len(),
        seqs::first_index(a.tabs.parked, session::with_id(id)) == a.tabs.parked.len(),
        !session::has_view(a.live, id),
{
    let n = a.tabs.parked.len() as int;
    lemma_no_view(a.live.agents.views, id);
    assert forall|k: int| 0 <= k < n implies !session::owner_of(id)(#[trigger] a.tabs.parked[k]) by {
        lemma_no_view(a.tabs.parked[k].agents.views, id);
    }
    seqs::lemma_first_index_is(a.tabs.parked, session::owner_of(id), n);
    assert forall|k: int| 0 <= k < n implies !session::with_id(id)(#[trigger] a.tabs.parked[k]) by {
        assert(stranger(a.tabs.parked[k], id));
    }
    seqs::lemma_first_index_is(a.tabs.parked, session::with_id(id), n);
}

// --- what a fact changes -----------------------------------------------------------------

/// A session has taken a fact up: it stands on what the fact says, and on
/// nothing else that facts speak of.
pub open spec fn took_up(before: SlotV, after: SlotV, e: EventV) -> bool {
    &&& after.title == (match e {
        UiEvent::SessionTitle { title, .. } => Some(title),
        _ => before.title,
    })
    &&& after.models.session == (match e {
        UiEvent::SessionModel { model, .. } => Some(model),
        _ => before.models.session,
    })
    &&& after.modes.plan == (match e {
        UiEvent::PlanMode { active, .. } => active,
        _ => before.modes.plan,
    })
    &&& after.modes.sandbox == (match e {
        UiEvent::SandboxMode { mode, .. } => Some(mode),
        _ => before.modes.sandbox,
    })
    &&& after.modes.approval == (match e {
        UiEvent::ApprovalPolicy { policy, .. } => Some(policy),
        _ => before.modes.approval,
    })
    &&& after.modes.permission == (match e {
        UiEvent::PermissionPreset { preset, .. } => Some(preset),
        _ => before.modes.permission,
    })
    &&& after.modes.agent_preset == (match e {
        UiEvent::AgentPreset { preset, .. } => Some(preset),
        _ => before.modes.agent_preset,
    })
    &&& after.modes.effort == (match e {
        UiEvent::ReasoningEffort { effort, .. } => Some(effort),
        _ => before.modes.effort,
    })
    &&& after.id == before.id
    &&& after.bound == before.bound
    &&& after.chat == before.chat
    &&& after.draft == before.draft
    &&& after.queue == before.queue
    &&& after.catalog == before.catalog
    &&& after.asks == before.asks
    &&& after.popups == before.popups
    &&& after.agents.views == before.agents.views
}

/// The session that a fact is about.
pub open spec fn is_about(e: EventV, id: Seq<char>) -> bool {
    session::event_session(e) == Some(id) && match e {
        UiEvent::SessionStatus { session, .. } => session == id,
        UiEvent::TextDelta { session, .. } => session == id,
        UiEvent::ReasoningDelta { session, .. } => session == id,
        UiEvent::AssistantFinal { session, .. } => session == id,
        UiEvent::ToolCall { session, .. } => session == id,
        UiEvent::ToolResult { session, .. } => session == id,
        UiEvent::Usage { session, .. } => session == id,
        UiEvent::UserMessage { session, .. } => session == id,
        _ => true,
    }
}

/// Every fact but those that only the status line shows is told to the
/// transcript, as it is.
pub open spec fn written(before: SlotV, e: EventV) -> Seq<EffectV> {
    let quiet = match e {
        UiEvent::PlanMode { active, .. } => active == before.modes.plan,
        UiEvent::AgentPreset { .. } => true,
        UiEvent::ReasoningEffort { .. } => true,
        UiEvent::SessionModel { .. } => true,
        _ => false,
    };
    if quiet {
        Seq::empty()
    } else {
        seq![Effect::Transcript { id: before.chat.transcript, op: TranscriptOp::Apply(e) }]
    }
}

/// Every fact but the news of subagents and palettes names the session it is
/// about.
pub proof fn law_facts_name_their_session(e: EventV)
    ensures
        match e {
            UiEvent::SubagentStarted { .. } => session::event_session(e) is None,
            UiEvent::SubagentFinished { .. } => session::event_session(e) is None,
            UiEvent::Palette { .. } => session::event_session(e) is None,
            UiEvent::SessionStatus { session, .. } => is_about(e, session),
            UiEvent::TurnStart { session, .. } => is_about(e, session),
            UiEvent::TurnEnd { session, .. } => is_about(e, session),
            UiEvent::TextDelta { session, .. } => is_about(e, session),
            UiEvent::ReasoningDelta { session, .. } => is_about(e, session),
            UiEvent::ToolCallPreparing { session } => is_about(e, session),
            UiEvent::AssistantFinal { session, .. } => is_about(e, session),
            UiEvent::ToolCall { session, .. } => is_about(e, session),
            UiEvent::ToolResult { session, .. } => is_about(e, session),
            UiEvent::Usage { session, .. } => is_about(e, session),
            UiEvent::UserInjected { session, .. } => is_about(e, session),
            UiEvent::UserMessage { session, .. } => is_about(e, session),
            UiEvent::SessionTitle { session, .. } => is_about(e, session),
            UiEvent::SessionNotice { session, .. } => is_about(e, session),
            UiEvent::SessionModel { session, .. } => is_about(e, session),
            UiEvent::Plan { session, .. } => is_about(e, session),
            UiEvent::PlanMode { session, .. } => is_about(e, session),
            UiEvent::SandboxMode { session, .. } => is_about(e, session),
            UiEvent::ApprovalPolicy { session, .. } => is_about(e, session),
            UiEvent::PermissionPreset { session, .. } => is_about(e, session),
            UiEvent::AgentPreset { session, .. } => is_about(e, session),
            UiEvent::ReasoningEffort { session, .. } => is_about(e, session),
            UiEvent::ApprovalAsked { session, .. } => is_about(e, session),
            UiEvent::ApprovalDecided { session, .. } => is_about(e, session),
        },
{
}

/// A fact of the viewed session is taken up by it and told to its transcript;
/// no other session changes, and nothing else is asked for.
pub proof fn law_facts_of_the_viewed_session(a: AppV, u: UiEvent)
    requires
        is_about(u@, a.live.id),
        !(u@ is SessionStatus),
    ensures
        took_up(a.live, a.taken(AppEvent::Ui(u)).live, u@),
        a.taken(AppEvent::Ui(u)).live.run == a.live.run,
        a.taken(AppEvent::Ui(u)).state == a.state,
        a.taken(AppEvent::Ui(u)).tabs == a.tabs,
        a.taken(AppEvent::Ui(u)).out == a.out + written(a.live, u@),
{
    reveal(AppV::taken);
    reveal(AppV::hear);
    reveal(AppV::apply);
    reveal(AppV::heard_here);
    reveal(AppV::batch_ends);
    assert(a.taken(AppEvent::Ui(u)).out =~= a.out + written(a.live, u@));
}

/// A fact of a parked session is taken up by it and told to its transcript; the
/// viewed session and the other tabs stay as they are.
pub proof fn law_facts_of_a_parked_session(a: AppV, u: UiEvent, i: int, id: Seq<char>)
    requires
        parked_as(a, i, id),
        is_about(u@, id),
        !(u@ is SessionStatus),
    ensures
        took_up(a.tabs.parked[i], a.taken(AppEvent::Ui(u)).tabs.parked[i], u@),
        a.taken(AppEvent::Ui(u)).tabs.parked.len() == a.tabs.parked.len(),
        forall|k: int|
            0 <= k < a.tabs.parked.len() && k != i ==> #[trigger] a.taken(
                AppEvent::Ui(u),
            ).tabs.parked[k] == a.tabs.parked[k],
        a.taken(AppEvent::Ui(u)).live == a.live,
        a.taken(AppEvent::Ui(u)).state == a.state,
        a.taken(AppEvent::Ui(u)).out == a.out + written(a.tabs.parked[i], u@),
        u@ is TurnStart ==> a.taken(AppEvent::Ui(u)).tabs.parked[i].run.running,
        u@ is TurnEnd ==> !a.taken(AppEvent::Ui(u)).tabs.parked[i].run.pending,
        u@ is TurnEnd && a.tabs.parked[i].run.running ==> a.taken(
            AppEvent::Ui(u),
        ).tabs.parked[i].run.completed_unseen,
{
    reveal(AppV::taken);
    reveal(AppV::hear);
    reveal(AppV::apply);
    reveal(AppV::heard_elsewhere);
    lemma_parked_as(a, i, id);
}

/// A fact of a session that no tab has is told to nobody.
pub proof fn law_facts_of_unknown_sessions_are_dropped(a: AppV, u: UiEvent, id: Seq<char>)
    requires
        is_about(u@, id),
        known_nowhere(a, id),
        !(u@ is SessionStatus),
    ensures
        a.taken(AppEvent::Ui(u)) == a,
{
    reveal(AppV::taken);
    reveal(AppV::hear);
    reveal(AppV::apply);
    reveal(AppV::heard_elsewhere);
    lemma_known_nowhere(a, id);
}

/// A fact of a subagent of the viewed session goes into the transcript of that
/// subagent and nowhere else.
pub proof fn law_facts_of_a_subagent(a: AppV, u: UiEvent, i: int)
    requires
        0 <= i < a.live.agents.views.len(),
        forall|k: int|
            0 <= k < i ==> (#[trigger] a.live.agents.views[k]).id != a.live.agents.views[i].id,
        is_about(u@, a.live.agents.views[i].id),
        a.live.agents.views[i].id != a.live.id,
        !(u@ is SessionStatus),
    ensures
        a.taken(AppEvent::Ui(u)).live == a.live,
        a.taken(AppEvent::Ui(u)).tabs == a.tabs,
        a.taken(AppEvent::Ui(u)).out == a.out.push(
            applies(a.live.agents.views[i].transcript, u@),
        ),
{
    reveal(AppV::taken);
    reveal(AppV::hear);
    reveal(AppV::apply);
    reveal(AppV::heard_elsewhere);
    let id = a.live.agents.views[i].id;
    seqs::lemma_first_index_is(a.live.agents.views, session::view_named(id), i);
    assert(a.taken(AppEvent::Ui(u)).out =~= a.out.push(
        applies(a.live.agents.views[i].transcript, u@),
    ));
}

// --- turns -------------------------------------------------------------------------------

/// While the viewed session has not begun a turn, a status starts the clock and
/// the turn; the status that ends it stops both.
pub proof fn law_status_starts_and_ends_turns(a: AppV, u: UiEvent, running: bool)
    requires
        u@ == (UiEvent::<Seq<char>>::SessionStatus { session: a.live.id, running }),
        a.live.queue.prompts.len() == 0,
        !queue::held(a.live.queue),
    ensures
        running ==> a.taken(AppEvent::Ui(u)).state == RunState::Running,
        !running ==> a.taken(AppEvent::Ui(u)).state == RunState::Idle,
        running ==> a.taken(AppEvent::Ui(u)).live.run.started is Some,
        running && a.live.run.started is None ==> a.taken(AppEvent::Ui(u)).live.run.started == Some(
            a.clock.now,
        ),
        running && a.live.run.started is Some ==> a.taken(AppEvent::Ui(u)).live.run.started
            == a.live.run.started,
        !running ==> a.taken(AppEvent::Ui(u)).live.run.started is None,
        !running ==> !a.taken(AppEvent::Ui(u)).live.run.pending,
        !running ==> a.taken(AppEvent::Ui(u)).live.run.note.len() == 0,
        a.taken(AppEvent::Ui(u)).out == a.out.push(
            applies(a.live.chat.transcript, u@),
        ),
{
    reveal(AppV::taken);
    reveal(AppV::hear);
    reveal(AppV::apply);
    reveal(AppV::heard_here);
    reveal(AppV::send_next_of);
    reveal(AppV::send_next);
}

/// A prompt as it is handed to the agent: a text alone as that text, other
/// blocks one by one and in their order.
pub open spec fn hands_over(e: EffectV, id: Seq<char>, blocks: Seq<BlockV>) -> bool {
    if blocks.len() == 1 && blocks[0] is Text {
        e == sends(Cmd::Prompt { session_id: id, text: blocks[0]->Text_0 })
    } else {
        e matches Effect::Send(Cmd::PromptImages { session_id, blocks: parts }) && session_id == id
            && as_they_are(parts, blocks)
    }
}

/// The same for a prompt that goes into a running turn.
pub open spec fn hands_into_turn(e: EffectV, id: Seq<char>, number: u64, blocks: Seq<BlockV>) -> bool {
    if blocks.len() == 1 && blocks[0] is Text {
        e == sends(
            Cmd::Steer { session_id: id, message_id: number, text: blocks[0]->Text_0 },
        )
    } else {
        e matches Effect::Send(
            Cmd::SteerImages { session_id, message_id, blocks: parts },
        ) && session_id == id && message_id == number && as_they_are(parts, blocks)
    }
}

pub open spec fn as_they_are(parts: Seq<PromptBlock<Seq<char>>>, blocks: Seq<BlockV>) -> bool {
    parts.len() == blocks.len() && forall|i: int|
        0 <= i < blocks.len() ==> #[trigger] parts[i] == (match blocks[i] {
            StagedBlock::Text(t) => PromptBlock::Text(t),
            StagedBlock::Image(x) => PromptBlock::Image(
                ImagePart { data: x.data, media_type: x.media_type, name: x.name, path: x.path },
            ),
        })
}

/// What is written into a transcript for a prompt: its texts and images, one by
/// one and in their order.
pub open spec fn echoes(v: Seq<EffectV>, transcript: u64, blocks: Seq<BlockV>) -> bool {
    v.len() == blocks.len() && forall|i: int|
        0 <= i < blocks.len() ==> #[trigger] v[i] == (match blocks[i] {
            StagedBlock::Text(t) => writes(transcript, TranscriptOp::User(t)),
            StagedBlock::Image(x) => writes(
                transcript,
                TranscriptOp::Image { name: x.name, path: x.path, image: x.image },
            ),
        })
}

pub proof fn lemma_handed_over(id: Seq<char>, number: u64, blocks: Seq<BlockV>, transcript: u64)
    ensures
        hands_over(Effect::Send(queue::prompt_cmd(id, blocks)), id, blocks),
        hands_into_turn(Effect::Send(queue::steer_cmd(id, number, blocks)), id, number, blocks),
        echoes(queue::echo(transcript, blocks), transcript, blocks),
        as_they_are(draft::prompt_blocks(blocks), blocks),
{
}

/// When the turn of the viewed session has ended, the prompt that waits longest
/// leaves the queue, is echoed in the transcript and handed to the agent; the
/// others keep their order.
pub proof fn law_viewed_session_goes_on(a: AppV, u: UiEvent)
    requires
        u@ == (UiEvent::<Seq<char>>::SessionStatus { session: a.live.id, running: false }),
        a.state == RunState::Running,
        a.live.bound,
        a.live.queue.selection is None,
        a.live.queue.edit is None,
        a.live.queue.prompts.len() > 0,
    ensures
        ({
            let b = a.taken(AppEvent::Ui(u));
            let head = a.live.queue.prompts[0].blocks;
            let n = a.out.len() as int;
            &&& b.live.queue.prompts == a.live.queue.prompts.skip(1)
            &&& b.out.len() == n + 1 + head.len() + 1
            &&& b.out.take(n) == a.out
            &&& b.out[n] == applies(a.live.chat.transcript, u@)
            &&& echoes(
                b.out.subrange(n + 1, n + 1 + head.len()),
                a.live.chat.transcript,
                head,
            )
            &&& hands_over(b.out.last(), a.live.id, head)
            &&& b.live.run.pending
            &&& b.state == RunState::Starting
            &&& b.tabs == a.tabs
        }),
{
    reveal(AppV::taken);
    reveal(AppV::hear);
    reveal(AppV::apply);
    reveal(AppV::heard_here);
    reveal(AppV::send_next_of);
    reveal(AppV::send_next);
    let b = a.taken(AppEvent::Ui(u));
    let head = a.live.queue.prompts[0].blocks;
    let n = a.out.len() as int;
    lemma_handed_over(a.live.id, 0, head, a.live.chat.transcript);
    assert(b.out.take(n) =~= a.out);
    assert(b.out.subrange(n + 1, n + 1 + head.len()) =~= queue::echo(
        a.live.chat.transcript,
        head,
    ));
}

/// The same holds of a parked session: its own prompt goes to its own agent,
/// and no other session changes.
pub proof fn law_parked_session_goes_on(a: AppV, u: UiEvent, i: int, id: Seq<char>)
    requires
        u@ == (UiEvent::<Seq<char>>::SessionStatus { session: id, running: false }),
        parked_as(a, i, id),
        a.tabs.parked[i].run.running,
        a.tabs.parked[i].bound,
        a.tabs.parked[i].queue.selection is None,
        a.tabs.parked[i].queue.edit is None,
        a.tabs.parked[i].queue.prompts.len() > 0,
    ensures
        ({
            let b = a.taken(AppEvent::Ui(u));
            let s = a.tabs.parked[i];
            let head = s.queue.prompts[0].blocks;
            let n = a.out.len() as int;
            &&& b.tabs.parked.len() == a.tabs.parked.len()
            &&& b.tabs.parked[i].queue.prompts == s.queue.prompts.skip(1)
            &&& b.tabs.parked[i].queue.steers == s.queue.steers
            &&& b.tabs.parked[i].id == id
            &&& b.tabs.parked[i].run.running
            &&& b.out.len() == n + 1 + head.len() + 1
            &&& b.out.take(n) == a.out
            &&& b.out[n] == applies(s.chat.transcript, u@)
            &&& echoes(b.out.subrange(n + 1, n + 1 + head.len()), s.chat.transcript, head)
            &&& hands_over(b.out.last(), id, head)
            &&& b.live == a.live
            &&& forall|k: int|
                0 <= k < a.tabs.parked.len() && k != i ==> #[trigger] b.tabs.parked[k]
                    == a.tabs.parked[k]
        }),
{
    reveal(AppV::taken);
    reveal(AppV::hear);
    reveal(AppV::apply);
    reveal(AppV::heard_elsewhere);
    reveal(AppV::send_next_of);
    lemma_parked_as(a, i, id);
    let b = a.taken(AppEvent::Ui(u));
    let s = a.tabs.parked[i];
    let head = s.queue.prompts[0].blocks;
    let n = a.out.len() as int;
    assert(seqs::some(a.tabs.parked, crate::fold::running_named(id))) by {
        let p = crate::fold::running_named(id);
        seqs::lemma_first_index(a.tabs.parked, p);
        assert(p(a.tabs.parked[i]));
    }
    let c = a.apply(u@);
    assert(parked_as(c, i, id)) by {
        assert forall|k: int| 0 <= k < i implies stranger(#[trigger] c.tabs.parked[k], id) by {
            assert(c.tabs.parked[k] == a.tabs.parked[k]);
        }
    }
    lemma_parked_as(c, i, id);
    lemma_handed_over(id, 0, head, s.chat.transcript);
    assert(b.out.take(n) =~= a.out);
    assert(b.out.subrange(n + 1, n + 1 + head.len()) =~= queue::echo(s.chat.transcript, head));
}

/// A session whose turn ends sends nothing while its queue is browsed or
/// edited, while it is not bound, or where nothing waits.
pub proof fn law_held_sessions_send_nothing(a: AppV, u: UiEvent, i: int, id: Seq<char>)
    requires
        u@ == (UiEvent::<Seq<char>>::SessionStatus { session: id, running: false }),
        parked_as(a, i, id),
        a.tabs.parked[i].queue.selection is Some || a.tabs.parked[i].queue.edit is Some
            || !a.tabs.parked[i].bound || a.tabs.parked[i].queue.prompts.len() == 0,
    ensures
        a.taken(AppEvent::Ui(u)).out == a.out.push(
            applies(a.tabs.parked[i].chat.transcript, u@),
        ),
        a.taken(AppEvent::Ui(u)).tabs.parked[i].queue == a.tabs.parked[i].queue,
        !a.taken(AppEvent::Ui(u)).tabs.parked[i].run.running,
        a.tabs.parked[i].run.running ==> a.taken(
            AppEvent::Ui(u),
        ).tabs.parked[i].run.completed_unseen,
{
    reveal(AppV::taken);
    reveal(AppV::hear);
    reveal(AppV::apply);
    reveal(AppV::heard_elsewhere);
    reveal(AppV::send_next_of);
    lemma_parked_as(a, i, id);
    let c = a.apply(u@);
    assert(parked_as(c, i, id)) by {
        assert forall|k: int| 0 <= k < i implies stranger(#[trigger] c.tabs.parked[k], id) by {
            assert(c.tabs.parked[k] == a.tabs.parked[k]);
        }
    }
    lemma_parked_as(c, i, id);
    assert(a.taken(AppEvent::Ui(u)).out =~= a.out.push(
        applies(a.tabs.parked[i].chat.transcript, u@),
    ));
}

// --- subagents ---------------------------------------------------------------------------

/// A subagent that the viewed session has not known is listed behind the
/// others, runs, and gets a transcript of its own; the session is told.
pub proof fn law_subagents_are_listed(a: AppV, u: UiEvent, child: Seq<char>)
    requires
        u@ == (UiEvent::SubagentStarted { parent: a.live.id, child }),
        no_view(a.live.agents.views, child),
        no_view(a.live.agents.views, a.live.id),
        a.live.id != child,
    ensures
        ({
            let b = a.taken(AppEvent::Ui(u));
            let v = b.live.agents.views;
            &&& v.len() == a.live.agents.views.len() + 1
            &&& v.drop_last() == a.live.agents.views
            &&& v.last().id == child
            &&& v.last().parent == a.live.id
            &&& v.last().running
            &&& !v.last().failed
            &&& v.last().transcript == a.counts.next_transcript
            &&& b.live.agents.current.contains(child)
            &&& !a.live.agents.next_starts_batch ==> forall|t: Seq<char>|
                a.live.agents.current.contains(t) ==> #[trigger] b.live.agents.current.contains(t)
            &&& a.live.agents.next_starts_batch ==> b.live.agents.current == seq![child]
            &&& b.out == a.out + seq![
                Effect::Transcript {
                    id: a.counts.next_transcript,
                    op: TranscriptOp::Open { session: child, locale: a.base.locale },
                },
                applies(a.live.chat.transcript, u@),
            ]
            &&& b.tabs == a.tabs
            &&& b.live.queue == a.live.queue
        }),
{
    reveal(AppV::taken);
    reveal(AppV::hear);
    reveal(AppV::apply);
    reveal(AppV::agent_started);
    reveal(AppV::started_live);
    let b = a.taken(AppEvent::Ui(u));
    lemma_no_view(a.live.agents.views, child);
    lemma_no_view(a.live.agents.views, a.live.id);
    seqs::lemma_first_index(a.live.agents.views, session::view_named(child));
    let v = b.live.agents.views;
    assert(v.drop_last() =~= a.live.agents.views);
    assert forall|t: Seq<char>| a.live.agents.current.contains(t)
        && !a.live.agents.next_starts_batch implies #[trigger] b.live.agents.current.contains(
        t,
    ) by {
        let k = choose|k: int|
            0 <= k < a.live.agents.current.len() && a.live.agents.current[k] == t;
        assert(b.live.agents.current[k] == t);
    }
    let c = b.live.agents.current;
    if a.live.agents.current.contains(child) && !a.live.agents.next_starts_batch {
    } else {
        assert(c.last() == child);
    }
    if a.live.agents.next_starts_batch {
        assert(c =~= seq![child]);
    }
    assert(b.out =~= a.out + seq![
        Effect::Transcript {
            id: a.counts.next_transcript,
            op: TranscriptOp::Open { session: child, locale: a.base.locale },
        },
        applies(a.live.chat.transcript, u@),
    ]);
}

/// A subagent that ends no longer runs, and has failed exactly where it is said
/// so; the others stay as they are.
pub proof fn law_subagents_end(a: AppV, u: UiEvent, i: int, failed: bool)
    requires
        0 <= i < a.live.agents.views.len(),
        forall|k: int|
            0 <= k < i ==> (#[trigger] a.live.agents.views[k]).id != a.live.agents.views[i].id,
        u@ == (UiEvent::<Seq<char>>::SubagentFinished { child: a.live.agents.views[i].id, failed }),
    ensures
        ({
            let b = a.taken(AppEvent::Ui(u));
            let v = b.live.agents.views;
            &&& v.len() == a.live.agents.views.len()
            &&& v[i].id == a.live.agents.views[i].id
            &&& v[i].transcript == a.live.agents.views[i].transcript
            &&& !v[i].running
            &&& v[i].failed == failed
            &&& forall|k: int|
                0 <= k < v.len() && k != i ==> #[trigger] v[k] == a.live.agents.views[k]
            &&& b.tabs == a.tabs
        }),
{
    reveal(AppV::taken);
    reveal(AppV::hear);
    reveal(AppV::apply);
    reveal(AppV::agent_finished);
    seqs::lemma_first_index_is(
        a.live.agents.views,
        session::view_named(a.live.agents.views[i].id),
        i,
    );
}

} // verus!
