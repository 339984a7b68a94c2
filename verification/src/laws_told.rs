//! What the runtime tells of sessions, and what becomes of it.

use crate::app::{AppV, PendingShell};
use crate::bus::{AppEvent, Cmd, CtlEvent, SessionConnection};
use crate::effect::{Effect, EffectV, NoticeLevel, TranscriptOp};
use crate::events::{self, EventV, UiEvent};
use crate::json::JsonValue;
use crate::laws_sessions::{hands_over, lemma_handed_over, sends, writes};
use crate::plugins;
use crate::queue;
use crate::seqs;
use crate::session::{self, ClientQueuedPrompt, RunState};
use crate::text;
use vstd::prelude::*;

verus! {

/// The session has the parked tab `i`.
pub open spec fn tab_at(a: AppV, i: int, id: Seq<char>) -> bool {
    &&& a.live.id != id
    &&& 0 <= i < a.tabs.parked.len()
    &&& a.tabs.parked[i].id == id
    &&& forall|k: int| 0 <= k < i ==> (#[trigger] a.tabs.parked[k]).id != id
}

/// The session has no tab.
pub open spec fn untabbed(a: AppV, id: Seq<char>) -> bool {
    &&& a.live.id != id
    &&& forall|k: int| 0 <= k < a.tabs.parked.len() ==> (#[trigger] a.tabs.parked[k]).id != id
}

proof fn lemma_tab_at(a: AppV, i: int, id: Seq<char>)
    requires
        tab_at(a, i, id),
    ensures
        seqs::first_index(a.tabs.parked, session::with_id(id)) == i,
{
    seqs::lemma_first_index_is(a.tabs.parked, session::with_id(id), i);
}

proof fn lemma_untabbed(a: AppV, id: Seq<char>)
    requires
        untabbed(a, id),
    ensures
        seqs::first_index(a.tabs.parked, session::with_id(id)) == a.tabs.parked.len(),
{
    seqs::lemma_first_index_is(a.tabs.parked, session::with_id(id), a.tabs.parked.len() as int);
}

/// Of the sessions, at most the one in the parked tab `i` has changed.
pub open spec fn only_tab(a: AppV, b: AppV, i: int) -> bool {
    &&& b.live == a.live
    &&& b.conn == a.conn
    &&& b.state == a.state
    &&& b.menu == a.menu
    &&& b.tabs == (crate::app::TabsV { parked: b.tabs.parked, ..a.tabs })
    &&& b.tabs.parked.len() == a.tabs.parked.len()
    &&& forall|k: int|
        0 <= k < a.tabs.parked.len() && k != i ==> #[trigger] b.tabs.parked[k]
            == a.tabs.parked[k]
}

/// No session has changed.
pub open spec fn no_session(a: AppV, b: AppV) -> bool {
    &&& b.live == a.live
    &&& b.conn == a.conn
    &&& b.state == a.state
    &&& b.tabs == a.tabs
    &&& b.menu == a.menu
}

/// A notice in a transcript.
pub open spec fn notes(transcript: u64, level: NoticeLevel, t: Seq<char>) -> EffectV {
    writes(transcript, TranscriptOp::Notice { level, text: t })
}

// --- failures -------------------------------------------------------------------------------

/// A failure of the viewed session ends its turn and is told in its transcript.
/// Its queue waits.
pub proof fn law_failure_of_the_viewed_session(a: AppV, session_id: String, message: String)
    requires
        session_id@ == a.live.id,
    ensures
        ({
            let b = a.taken(AppEvent::Ctl(CtlEvent::SessionError { session_id, message }));
            &&& b.state == RunState::Idle
            &&& !b.live.run.pending
            &&& b.live.run.started is None
            &&& b.live.queue == a.live.queue
            &&& b.live.draft == a.live.draft
            &&& b.tabs == a.tabs
            &&& b.out == a.out.push(notes(a.live.chat.transcript, NoticeLevel::Error, message@))
        }),
{
    reveal(AppV::taken);
    reveal(AppV::ctl);
    reveal(AppV::ctl_choice);
    reveal(AppV::ctl_session);
    reveal(AppV::session_failed);
}

/// A failure of a parked session ends its turn and is told there; the viewed
/// session does not notice.
pub proof fn law_failure_of_a_parked_session(a: AppV, i: int, session_id: String, message: String)
    requires
        tab_at(a, i, session_id@),
    ensures
        ({
            let b = a.taken(AppEvent::Ctl(CtlEvent::SessionError { session_id, message }));
            &&& only_tab(a, b, i)
            &&& !b.tabs.parked[i].run.pending
            &&& !b.tabs.parked[i].run.running
            &&& b.tabs.parked[i].queue == a.tabs.parked[i].queue
            &&& b.out == a.out.push(
                notes(a.tabs.parked[i].chat.transcript, NoticeLevel::Error, message@),
            )
        }),
{
    lemma_tab_at(a, i, session_id@);
    reveal(AppV::taken);
    reveal(AppV::ctl);
    reveal(AppV::ctl_choice);
    reveal(AppV::ctl_session);
    reveal(AppV::session_failed);
}

/// A failure of a session without a tab is dropped.
pub proof fn law_failure_of_a_closed_session(a: AppV, session_id: String, message: String)
    requires
        untabbed(a, session_id@),
    ensures
        ({
            let b = a.taken(AppEvent::Ctl(CtlEvent::SessionError { session_id, message }));
            no_session(a, b) && b.out == a.out
        }),
{
    lemma_untabbed(a, session_id@);
    reveal(AppV::taken);
    reveal(AppV::ctl);
    reveal(AppV::ctl_choice);
    reveal(AppV::ctl_session);
    reveal(AppV::session_failed);
}

/// So is the word that its turn was interrupted.
pub proof fn law_interruption_of_a_closed_session(a: AppV, session_id: String)
    requires
        untabbed(a, session_id@),
    ensures
        ({
            let b = a.taken(AppEvent::Ctl(CtlEvent::Interrupted { session_id }));
            no_session(a, b) && b.out == a.out
        }),
{
    lemma_untabbed(a, session_id@);
    reveal(AppV::taken);
    reveal(AppV::ctl);
    reveal(AppV::ctl_choice);
    reveal(AppV::ctl_session);
    reveal(AppV::interrupted);
    reveal(AppV::send_next_of);
}

/// An operation that fails is told in the transcript of its session, and its
/// turn goes on.
pub proof fn law_failed_operations_are_told(a: AppV, i: int, session_id: String, message: String)
    ensures
        ({
            let b = a.taken(AppEvent::Ctl(CtlEvent::SessionOpFailed { session_id, message }));
            &&& session_id@ == a.live.id ==> no_session(a, b) && b.out == a.out.push(
                notes(a.live.chat.transcript, NoticeLevel::Error, message@),
            )
            &&& tab_at(a, i, session_id@) ==> no_session(a, b) && b.out == a.out.push(
                notes(a.tabs.parked[i].chat.transcript, NoticeLevel::Error, message@),
            )
        }),
{
    if tab_at(a, i, session_id@) {
        lemma_tab_at(a, i, session_id@);
    }
    reveal(AppV::taken);
    reveal(AppV::ctl);
    reveal(AppV::ctl_choice);
    reveal(AppV::ctl_session);
    reveal(AppV::notice_to);
}

/// A failure of the client itself ends the viewed turn, is told, and the queue
/// goes on where something waits.
pub proof fn law_failures_end_the_turn(a: AppV, t: String)
    requires
        a.live.bound,
        a.live.queue.selection is None,
        a.live.queue.edit is None,
    ensures
        ({
            let b = a.taken(AppEvent::Ctl(CtlEvent::Error(t)));
            let n = a.out.len() as int;
            let note = notes(a.live.chat.transcript, NoticeLevel::Error, t@);
            &&& b.tabs == a.tabs
            &&& a.live.queue.prompts.len() == 0 ==> b.state == RunState::Idle
                && !b.live.run.pending && b.out == a.out.push(note)
            &&& a.live.queue.prompts.len() > 0 ==> {
                &&& b.live.queue.prompts == a.live.queue.prompts.skip(1)
                &&& b.state == RunState::Starting
                &&& b.out[n] == note
                &&& b.out.len() == n + 1 + a.live.queue.prompts[0].blocks.len() + 1
                &&& hands_over(b.out.last(), a.live.id, a.live.queue.prompts[0].blocks)
            }
        }),
{
    reveal(AppV::taken);
    reveal(AppV::ctl);
    reveal(AppV::ctl_choice);
    reveal(AppV::ctl_session);
    reveal(AppV::failed);
    reveal(AppV::send_next);
    if a.live.queue.prompts.len() > 0 {
        lemma_handed_over(
            a.live.id,
            0,
            a.live.queue.prompts[0].blocks,
            a.live.chat.transcript,
        );
    }
}

/// A model or an effort that the agent refuses no longer counts as picked; a
/// later pick stays.
pub proof fn law_refused_switch_is_undone(
    a: AppV,
    session_id: String,
    model: Option<String>,
    effort: Option<String>,
    message: String,
)
    requires
        session_id@ == a.live.id,
    ensures
        ({
            let b = a.taken(
                AppEvent::Ctl(
                    CtlEvent::ModelSwitchFailed { session_id, model, effort, message },
                ),
            );
            let m = text::opt_view(model);
            let e = text::opt_view(effort);
            &&& m is Some && a.live.models.selected == m ==> b.live.models.selected is None
            &&& m is None || a.live.models.selected != m ==> b.live.models.selected
                == a.live.models.selected
            &&& e is Some && a.live.modes.effort == e ==> b.live.modes.effort is None
            &&& e is None || a.live.modes.effort != e ==> b.live.modes.effort
                == a.live.modes.effort
            &&& b.live.modes.permission == a.live.modes.permission
            &&& b.live.queue == a.live.queue
            &&& b.live.run == a.live.run
            &&& b.tabs == a.tabs
            &&& b.out == a.out.push(notes(a.live.chat.transcript, NoticeLevel::Error, message@))
        }),
{
    reveal(AppV::taken);
    reveal(AppV::ctl);
    reveal(AppV::ctl_choice);
    reveal(AppV::ctl_session);
    reveal(AppV::switch_refused);
}

// --- prompts and turns ----------------------------------------------------------------------

/// A prompt that was accepted is no longer on its way, and the viewed turn
/// runs if it was about to.
pub proof fn law_accepted_prompt_runs(a: AppV, i: int, message_id: String, session_id: Option<String>)
    ensures
        ({
            let b = a.taken(AppEvent::Ctl(CtlEvent::PromptQueued { message_id, session_id }));
            let id = text::opt_view(session_id);
            &&& b.out == a.out
            &&& id is None || id == Some(a.live.id) ==> {
                &&& !b.live.run.pending
                &&& b.live.queue == a.live.queue
                &&& b.tabs == a.tabs
                &&& a.state == RunState::Starting ==> b.state == RunState::Running
                &&& a.state != RunState::Starting ==> b.state == a.state
            }
            &&& id is Some && tab_at(a, i, id->0) ==> {
                &&& only_tab(a, b, i)
                &&& !b.tabs.parked[i].run.pending
                &&& b.tabs.parked[i].run.running == a.tabs.parked[i].run.running
                &&& b.tabs.parked[i].queue == a.tabs.parked[i].queue
            }
            &&& id is Some && untabbed(a, id->0) ==> no_session(a, b)
        }),
{
    let id = text::opt_view(session_id);
    if id is Some && tab_at(a, i, id->0) {
        lemma_tab_at(a, i, id->0);
    }
    if id is Some && untabbed(a, id->0) {
        lemma_untabbed(a, id->0);
    }
    reveal(AppV::taken);
    reveal(AppV::ctl);
    reveal(AppV::ctl_choice);
    reveal(AppV::ctl_session);
    reveal(AppV::accepted);
}

/// While a turn is being cancelled its open work is marked as cancelled, in the
/// transcript of its session; the turn is not over yet.
pub proof fn law_cancelling_marks_open_work(a: AppV, i: int, session_id: String)
    ensures
        ({
            let b = a.taken(AppEvent::Ctl(CtlEvent::CancelRequested { session_id }));
            &&& session_id@ == a.live.id ==> {
                &&& b.out == a.out.push(
                    writes(a.live.chat.transcript, TranscriptOp::CancelOpenWork),
                )
                &&& b.state == a.state
                &&& b.live.run.pending == a.live.run.pending
                &&& b.live.queue == a.live.queue
                &&& b.tabs == a.tabs
            }
            &&& tab_at(a, i, session_id@) ==> {
                &&& b.out == a.out.push(
                    writes(a.tabs.parked[i].chat.transcript, TranscriptOp::CancelOpenWork),
                )
                &&& only_tab(a, b, i)
                &&& b.tabs.parked[i].run.running == a.tabs.parked[i].run.running
                &&& b.tabs.parked[i].queue == a.tabs.parked[i].queue
            }
        }),
{
    if tab_at(a, i, session_id@) {
        lemma_tab_at(a, i, session_id@);
    }
    reveal(AppV::taken);
    reveal(AppV::ctl);
    reveal(AppV::ctl_choice);
    reveal(AppV::ctl_session);
    reveal(AppV::cancelling);
}

/// An interrupted turn of the viewed session is over: its open work is marked,
/// that is told, and the prompt that waits longest is handed to its agent.
pub proof fn law_interrupted_turn_is_over(a: AppV, session_id: String)
    requires
        session_id@ == a.live.id,
        a.live.bound,
        a.live.queue.selection is None,
        a.live.queue.edit is None,
    ensures
        ({
            let b = a.taken(AppEvent::Ctl(CtlEvent::Interrupted { session_id }));
            let n = a.out.len() as int;
            &&& b.out.take(n) == a.out
            &&& b.out[n] == writes(a.live.chat.transcript, TranscriptOp::CancelOpenWork)
            &&& b.out[n + 1] is Transcript
            &&& b.tabs == a.tabs
            &&& a.live.queue.prompts.len() == 0 ==> b.state == RunState::Idle
                && !b.live.run.pending && b.out.len() == n + 2
            &&& a.live.queue.prompts.len() > 0 ==> {
                &&& b.live.queue.prompts == a.live.queue.prompts.skip(1)
                &&& b.state == RunState::Starting
                &&& b.out.len() == n + 2 + a.live.queue.prompts[0].blocks.len() + 1
                &&& hands_over(b.out.last(), a.live.id, a.live.queue.prompts[0].blocks)
            }
        }),
{
    reveal(AppV::taken);
    reveal(AppV::ctl);
    reveal(AppV::ctl_choice);
    reveal(AppV::ctl_session);
    reveal(AppV::interrupted);
    reveal(AppV::send_next_of);
    reveal(AppV::send_next);
    let b = a.taken(AppEvent::Ctl(CtlEvent::Interrupted { session_id }));
    if a.live.queue.prompts.len() > 0 {
        lemma_handed_over(
            a.live.id,
            0,
            a.live.queue.prompts[0].blocks,
            a.live.chat.transcript,
        );
    }
    assert(b.out.take(a.out.len() as int) =~= a.out);
}

/// The same of a parked session: its head goes to its own agent, and the viewed
/// session does not notice.
pub proof fn law_interrupted_parked_turn_is_over(a: AppV, i: int, session_id: String)
    requires
        tab_at(a, i, session_id@),
        a.tabs.parked[i].bound,
        a.tabs.parked[i].queue.selection is None,
        a.tabs.parked[i].queue.edit is None,
        a.tabs.parked[i].queue.prompts.len() > 0,
    ensures
        ({
            let b = a.taken(AppEvent::Ctl(CtlEvent::Interrupted { session_id }));
            let s = a.tabs.parked[i];
            let n = a.out.len() as int;
            &&& only_tab(a, b, i)
            &&& b.out[n] == writes(s.chat.transcript, TranscriptOp::CancelOpenWork)
            &&& b.out.len() == n + 2 + s.queue.prompts[0].blocks.len() + 1
            &&& hands_over(b.out.last(), session_id@, s.queue.prompts[0].blocks)
            &&& b.tabs.parked[i].queue.prompts == s.queue.prompts.skip(1)
        }),
{
    lemma_tab_at(a, i, session_id@);
    reveal(AppV::taken);
    reveal(AppV::ctl);
    reveal(AppV::ctl_choice);
    reveal(AppV::ctl_session);
    reveal(AppV::interrupted);
    reveal(AppV::send_next_of);
    let s = a.tabs.parked[i];
    lemma_handed_over(s.id, 0, s.queue.prompts[0].blocks, s.chat.transcript);
    let settled = crate::slots::settled(s);
    let v = a.tabs.parked.update(i, settled);
    assert forall|k: int| 0 <= k < i implies !session::with_id(session_id@)(#[trigger] v[k]) by {
        assert(v[k] == a.tabs.parked[k]);
    }
    seqs::lemma_first_index_is(v, session::with_id(session_id@), i);
}

/// The viewed session waits for the fate of prompt `number`.
pub open spec fn steered(a: AppV, i: int, number: u64) -> bool {
    &&& 0 <= i < a.live.queue.steers.len()
    &&& a.live.queue.steers[i].message_id == number
    &&& forall|k: int|
        0 <= k < i ==> (#[trigger] a.live.queue.steers[k]).message_id != number
}

/// A prompt that the turn has taken up is no longer waited for; one that has to
/// wait is back in the queue, at the front where it came from there and at the
/// end otherwise, and no longer in the transcript.
pub proof fn law_fate_of_a_steered_prompt(a: AppV, i: int, message_id: u64, deferred: bool)
    requires
        steered(a, i, message_id),
    ensures
        ({
            let b = a.taken(AppEvent::Ctl(CtlEvent::SteerSettled { message_id, deferred }));
            let s = a.live.queue.steers[i];
            let p = ClientQueuedPrompt { id: message_id, blocks: s.blocks };
            &&& b.live.queue.steers == a.live.queue.steers.remove(i)
            &&& b.tabs == a.tabs
            &&& b.state == a.state
            &&& !deferred ==> b.live.queue.prompts == a.live.queue.prompts && b.out == a.out
            &&& deferred && s.requeue_front ==> b.live.queue.prompts == seq![p]
                + a.live.queue.prompts
            &&& deferred && !s.requeue_front ==> b.live.queue.prompts
                == a.live.queue.prompts.push(p)
            &&& deferred ==> b.out == a.out.push(
                writes(a.live.chat.transcript, TranscriptOp::Hide { message_id }),
            )
        }),
{
    seqs::lemma_first_index_is(a.live.queue.steers, queue::numbered(message_id), i);
    reveal(AppV::taken);
    reveal(AppV::ctl);
    reveal(AppV::ctl_choice);
    reveal(AppV::ctl_session);
    reveal(AppV::settling);
}

/// When the runtime is gone, no turn runs any more in any session, and nothing
/// waits.
pub proof fn law_runtime_takes_its_turns_along(a: AppV, code: Option<i32>)
    ensures
        ({
            let b = a.taken(AppEvent::RuntimeExited(code));
            &&& b.state == RunState::Idle
            &&& !b.live.run.pending
            &&& b.live.queue.prompts.len() == 0
            &&& b.live.queue.steers.len() == 0
            &&& b.live.id == a.live.id
            &&& b.live.draft == a.live.draft
            &&& !b.tabs.startup_bound
            &&& b.tabs.current == a.tabs.current
            &&& b.tabs.parked.len() == a.tabs.parked.len()
            &&& forall|k: int|
                0 <= k < a.tabs.parked.len() ==> {
                    let s = #[trigger] b.tabs.parked[k];
                    &&& s.id == a.tabs.parked[k].id
                    &&& s.draft == a.tabs.parked[k].draft
                    &&& s.queue.prompts.len() == 0
                    &&& s.queue.steers.len() == 0
                    &&& !s.run.pending
                    &&& !s.run.running
                }
            &&& code is None || code == Some(0i32) ==> b.out == a.out
            &&& code is Some && code != Some(0i32) ==> b.out.len() == a.out.len() + 1
                && b.out.last() is Transcript
        }),
{
    reveal(AppV::taken);
    reveal(AppV::runtime_gone);
}

/// The result of a shell command goes to the session in which it was run,
/// viewed or parked, and is no longer waited for.
pub proof fn law_shell_result_finds_its_session(
    a: AppV,
    j: int,
    i: int,
    id: u64,
    code: Option<i32>,
    output: String,
)
    requires
        0 <= j < a.counts.pending_shells.len(),
        a.counts.pending_shells[j].id == id,
        forall|k: int| 0 <= k < j ==> (#[trigger] a.counts.pending_shells[k]).id != id,
    ensures
        ({
            let b = a.taken(AppEvent::ShellDone { id, code, output });
            let session = a.counts.pending_shells[j].session;
            let n = a.out.len() as int;
            let done = TranscriptOp::ShellDone { id, code, output: output@ };
            &&& no_session(a, b)
            &&& b.counts.pending_shells == a.counts.pending_shells.remove(j)
            &&& session == a.live.id ==> b.out.len() == n + 2 && b.out[n] == writes(
                a.live.chat.transcript,
                done,
            )
            &&& tab_at(a, i, session) ==> b.out.len() == n + 2 && b.out[n] == writes(
                a.tabs.parked[i].chat.transcript,
                done,
            )
            &&& untabbed(a, session) ==> b.out.len() == n + 1
            &&& b.out.last() == looks_up_branch()
        }),
{
    let session = a.counts.pending_shells[j].session;
    if tab_at(a, i, session) {
        lemma_tab_at(a, i, session);
    }
    if untabbed(a, session) {
        lemma_untabbed(a, session);
    }
    seqs::lemma_first_index_is(
        a.counts.pending_shells,
        crate::handle::shell_numbered(id),
        j,
    );
    reveal(AppV::taken);
    reveal(AppV::shell_over);
    reveal(AppV::branch_sought);
}

pub open spec fn looks_up_branch() -> EffectV {
    Effect::RefreshBranch
}

// --- what a session offers --------------------------------------------------------------------

/// Skills belong to the session they are told of, or to the viewed one where
/// none is named.
pub proof fn law_skills_are_kept(
    a: AppV,
    i: int,
    session_id: Option<String>,
    skills: Vec<crate::bus::SkillInfo>,
)
    ensures
        ({
            let b = a.taken(AppEvent::Ctl(CtlEvent::Skills { session_id, skills }));
            let id = text::opt_view(session_id);
            &&& b.out == a.out
            &&& id is None || id == Some(a.live.id) ==> b.live.catalog.skills
                == events::skills_view(skills@) && b.live.catalog.models == a.live.catalog.models
                && b.live.queue == a.live.queue && b.tabs == a.tabs
            &&& id is Some && tab_at(a, i, id->0) ==> only_tab(a, b, i)
                && b.tabs.parked[i].catalog.skills == events::skills_view(skills@)
            &&& id is Some && untabbed(a, id->0) ==> no_session(a, b)
        }),
{
    let id = text::opt_view(session_id);
    if id is Some && tab_at(a, i, id->0) {
        lemma_tab_at(a, i, id->0);
    }
    if id is Some && untabbed(a, id->0) {
        lemma_untabbed(a, id->0);
    }
    reveal(AppV::taken);
    reveal(AppV::ctl);
    reveal(AppV::ctl_choice);
    reveal(AppV::skills_told);
}

/// Models and presets belong to the session they are told of. An empty list
/// takes nothing away.
pub proof fn law_catalog_is_kept(
    a: AppV,
    i: int,
    session_id: Option<String>,
    models: Vec<crate::bus::CatalogModel>,
    presets: Vec<crate::bus::CatalogPreset>,
)
    ensures
        ({
            let b = a.taken(AppEvent::Ctl(CtlEvent::Catalog { session_id, models, presets }));
            let id = text::opt_view(session_id);
            let ms = events::models_view(models@);
            let ps = events::presets_view(presets@);
            &&& b.out == a.out
            &&& id is None || id == Some(a.live.id) ==> {
                &&& b.tabs == a.tabs
                &&& b.live.modes == a.live.modes
                &&& b.live.models == a.live.models
                &&& b.live.catalog.models == if ms.len() > 0 {
                    ms
                } else {
                    a.live.catalog.models
                }
                &&& b.live.catalog.presets == if ps.len() > 0 {
                    ps
                } else {
                    a.live.catalog.presets
                }
            }
            &&& id is Some && tab_at(a, i, id->0) ==> {
                &&& only_tab(a, b, i)
                &&& b.tabs.parked[i].catalog.models == if ms.len() > 0 {
                    ms
                } else {
                    a.tabs.parked[i].catalog.models
                }
                &&& b.tabs.parked[i].catalog.presets == if ps.len() > 0 {
                    ps
                } else {
                    a.tabs.parked[i].catalog.presets
                }
            }
            &&& id is Some && untabbed(a, id->0) ==> no_session(a, b)
        }),
{
    let id = text::opt_view(session_id);
    if id is Some && tab_at(a, i, id->0) {
        lemma_tab_at(a, i, id->0);
    }
    if id is Some && untabbed(a, id->0) {
        lemma_untabbed(a, id->0);
    }
    reveal(AppV::taken);
    reveal(AppV::ctl);
    reveal(AppV::ctl_choice);
    reveal(AppV::catalog_told);
}

/// The permission presets of a session and the one in effect are kept; a list
/// that is empty, or no word on the one in effect, takes nothing away.
pub proof fn law_permissions_are_kept(
    a: AppV,
    i: int,
    session_id: Option<String>,
    modes: Vec<crate::bus::CatalogPreset>,
    current: Option<String>,
)
    ensures
        ({
            let b = a.taken(AppEvent::Ctl(CtlEvent::SessionModes { session_id, modes, current }));
            let id = text::opt_view(session_id);
            let ms = events::presets_view(modes@);
            let now = text::opt_view(current);
            &&& b.out == a.out
            &&& id is None || id == Some(a.live.id) ==> {
                &&& b.tabs == a.tabs
                &&& b.live.catalog.permissions == if ms.len() > 0 {
                    ms
                } else {
                    a.live.catalog.permissions
                }
                &&& b.live.modes.permission == if now is Some {
                    now
                } else {
                    a.live.modes.permission
                }
                &&& b.live.modes.agent_preset == a.live.modes.agent_preset
            }
            &&& id is Some && tab_at(a, i, id->0) ==> {
                &&& only_tab(a, b, i)
                &&& b.tabs.parked[i].catalog.permissions == if ms.len() > 0 {
                    ms
                } else {
                    a.tabs.parked[i].catalog.permissions
                }
                &&& b.tabs.parked[i].modes.permission == if now is Some {
                    now
                } else {
                    a.tabs.parked[i].modes.permission
                }
            }
            &&& id is Some && untabbed(a, id->0) ==> no_session(a, b)
        }),
{
    let id = text::opt_view(session_id);
    if id is Some && tab_at(a, i, id->0) {
        lemma_tab_at(a, i, id->0);
    }
    if id is Some && untabbed(a, id->0) {
        lemma_untabbed(a, id->0);
    }
    reveal(AppV::taken);
    reveal(AppV::ctl);
    reveal(AppV::ctl_choice);
    reveal(AppV::modes_told);
}

/// The agent preset of a session is kept and told in its transcript.
pub proof fn law_agent_preset_is_kept(a: AppV, i: int, session_id: String, preset: String)
    ensures
        ({
            let b = a.taken(AppEvent::Ctl(CtlEvent::PresetSet { session_id, preset }));
            let n = a.out.len() as int;
            &&& session_id@ == a.live.id ==> {
                &&& b.live.modes.agent_preset == Some(preset@)
                &&& b.live.modes.permission == a.live.modes.permission
                &&& b.tabs == a.tabs
                &&& b.out.len() == n + 1
                &&& b.out[n] matches Effect::Transcript { id, .. } && id
                    == a.live.chat.transcript
            }
            &&& session_id@.len() > 0 && tab_at(a, i, session_id@) ==> {
                &&& only_tab(a, b, i)
                &&& b.tabs.parked[i].modes.agent_preset == Some(preset@)
                &&& b.out.len() == n + 1
                &&& b.out[n] matches Effect::Transcript { id, .. } && id
                    == a.tabs.parked[i].chat.transcript
            }
            &&& session_id@.len() > 0 && untabbed(a, session_id@) ==> no_session(a, b) && b.out
                == a.out
        }),
{
    if tab_at(a, i, session_id@) {
        lemma_tab_at(a, i, session_id@);
    }
    if untabbed(a, session_id@) {
        lemma_untabbed(a, session_id@);
    }
    reveal(AppV::taken);
    reveal(AppV::ctl);
    reveal(AppV::ctl_choice);
    reveal(AppV::preset_told);
}

/// A connection belongs to its session.
pub proof fn law_connection_is_kept(
    a: AppV,
    i: int,
    session_id: String,
    connection: SessionConnection,
)
    ensures
        ({
            let b = a.taken(
                AppEvent::Ctl(CtlEvent::SessionConnection { session_id, connection }),
            );
            &&& b.out == a.out
            &&& session_id@ == a.live.id ==> b.conn == connection@ && b.live == a.live && b.tabs
                == a.tabs
            &&& tab_at(a, i, session_id@) ==> only_tab(a, b, i) && b.tabs.parked[i].connection
                == Some(connection@)
            &&& untabbed(a, session_id@) ==> no_session(a, b)
        }),
{
    if tab_at(a, i, session_id@) {
        lemma_tab_at(a, i, session_id@);
    }
    if untabbed(a, session_id@) {
        lemma_untabbed(a, session_id@);
    }
    reveal(AppV::taken);
    reveal(AppV::ctl);
    reveal(AppV::ctl_choice);
    reveal(AppV::ctl_session);
    reveal(AppV::connected);
}

// --- binding ------------------------------------------------------------------------------

/// The session that the first waiting tab has asked for is bound to that tab
/// in view: it takes the id of the agent, keeps its draft, and the skills of
/// the session are asked for. Shell commands follow it to the new id.
pub proof fn law_asked_session_is_bound(a: AppV, session_id: String)
    requires
        a.tabs.startup_bound,
        a.tabs.awaiting.len() > 0,
        a.tabs.awaiting[0].open,
        a.tabs.awaiting[0].id == a.live.id,
        a.live.queue.prompts.len() == 0,
    ensures
        ({
            let b = a.taken(
                AppEvent::Ctl(CtlEvent::SessionBound { session_id, notice: None }),
            );
            &&& b.live.id == session_id@
            &&& b.live.bound
            &&& b.live.draft == a.live.draft
            &&& b.live.chat == a.live.chat
            &&& b.tabs.awaiting == a.tabs.awaiting.skip(1)
            &&& b.tabs.parked == a.tabs.parked
            &&& b.out == a.out.push(
                writes(a.live.chat.transcript, TranscriptOp::RootSession(session_id@)),
            ).push(sends(Cmd::FetchSkills { session_id: session_id@ })) || a.live.queue.selection
                is Some || a.live.queue.edit is Some
            &&& b.out.last() == sends(Cmd::FetchSkills { session_id: session_id@ })
            &&& b.counts.pending_shells.len() == a.counts.pending_shells.len()
            &&& forall|k: int|
                0 <= k < a.counts.pending_shells.len() ==> {
                    let s = a.counts.pending_shells[k];
                    #[trigger] b.counts.pending_shells[k] == PendingShell {
                        id: s.id,
                        session: if s.session == a.live.id {
                            session_id@
                        } else {
                            s.session
                        },
                    }
                }
        }),
{
    reveal(AppV::taken);
    reveal(AppV::ctl);
    reveal(AppV::ctl_choice);
    reveal(AppV::ctl_session);
    reveal(AppV::bind);
    reveal(AppV::bind_first);
    reveal(AppV::bound_here);
    reveal(AppV::taken_up);
    reveal(AppV::send_next_of);
    reveal(AppV::send_next);
}

/// A session whose tab was closed meanwhile is forgotten, and no tab takes it.
pub proof fn law_late_session_is_forgotten(a: AppV, session_id: String, notice: Option<String>)
    requires
        a.tabs.startup_bound,
        a.tabs.awaiting.len() > 0,
        !a.tabs.awaiting[0].open,
    ensures
        ({
            let b = a.taken(AppEvent::Ctl(CtlEvent::SessionBound { session_id, notice }));
            &&& b.live == a.live
            &&& b.tabs.parked == a.tabs.parked
            &&& b.tabs.awaiting == a.tabs.awaiting.skip(1)
            &&& b.out == a.out.push(sends(Cmd::ForgetSession { session_id: session_id@ }))
        }),
{
    reveal(AppV::taken);
    reveal(AppV::ctl);
    reveal(AppV::ctl_choice);
    reveal(AppV::ctl_session);
    reveal(AppV::bind);
    reveal(AppV::bind_first);
}

/// A session that was made for a tab that is gone is forgotten.
pub proof fn law_session_for_a_closed_tab_is_forgotten(
    a: AppV,
    previous_id: String,
    session_id: String,
    notice: Option<String>,
)
    requires
        untabbed(a, previous_id@),
    ensures
        ({
            let b = a.taken(
                AppEvent::Ctl(CtlEvent::SessionBoundTo { previous_id, session_id, notice }),
            );
            &&& b.live == a.live
            &&& b.tabs.parked == a.tabs.parked
            &&& b.out == a.out.push(sends(Cmd::ForgetSession { session_id: session_id@ }))
        }),
{
    lemma_untabbed(a, previous_id@);
    reveal(AppV::taken);
    reveal(AppV::ctl);
    reveal(AppV::ctl_choice);
    reveal(AppV::ctl_session);
    reveal(AppV::bind_to);
}

// --- facts as they come in ------------------------------------------------------------------

/// A notification that tells one fact is that fact.
pub proof fn law_notifications_are_facts(a: AppV, method: String, params: JsonValue, u: UiEvent)
    requires
        events::notification_events(method@, params@, a.cfg.methods.theme_update, None) == seq![u@],
        method@ != a.cfg.methods.agents_navigate,
        method@ != a.cfg.methods.agents_select,
        method@ != a.cfg.methods.theme_remove,
        plugins::update_kind(a.cfg.methods, method@) is None,
    ensures
        a.taken(AppEvent::Rpc { method, params }) == a.taken(AppEvent::Ui(u)),
{
    reveal(AppV::taken);
    reveal(AppV::rpc);
    reveal_with_fuel(AppV::hear_all, 2);
    let v = seq![u@];
    assert(v.drop_last() =~= Seq::<EventV>::empty());
}

} // verus!
