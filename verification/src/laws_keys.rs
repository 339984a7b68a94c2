//! What keys do in the composer.

use crate::app::{AppV, PendingShell};
use crate::bus::{Cmd, CmdV};
use crate::draft::{BlockV, StagedBlock};
use crate::effect::{Effect, EffectV, FileMenuOp, TranscriptOp};
use crate::input::KeyCode;
use crate::keys::{Action, KeyPress};
use crate::laws_lists::undisturbed;
use crate::laws_sessions::{hands_into_turn, hands_over, lemma_handed_over, sends, writes};
use crate::lists;
use crate::presets;
use crate::queue;
use crate::replies::Reply;
use crate::seqs;
use crate::session::{ClientQueuedPrompt, RunState, SlotV};
use crate::text;
use vstd::prelude::*;

verus! {

// --- what goes out --------------------------------------------------------------------------

/// Of what is asked for beyond `before`, nothing goes to the agent.
pub open spec fn sent_nothing(before: Seq<EffectV>, after: Seq<EffectV>) -> bool {
    &&& before.len() <= after.len()
    &&& after.take(before.len() as int) == before
    &&& forall|k: int| before.len() <= k < after.len() ==> !(#[trigger] after[k] is Send)
}

/// Of what is asked for beyond `before`, one thing goes to the agent, and it is
/// this one.
pub open spec fn sent(before: Seq<EffectV>, after: Seq<EffectV>, c: CmdV) -> bool {
    &&& before.len() <= after.len()
    &&& after.take(before.len() as int) == before
    &&& exists|j: int|
        before.len() <= j < after.len() && #[trigger] after[j] == sends(c) && forall|k: int|
            before.len() <= k < after.len() && k != j ==> !(#[trigger] after[k] is Send)
}

pub proof fn lemma_sent(before: Seq<EffectV>, more: Seq<EffectV>, c: CmdV, rest: Seq<EffectV>)
    requires
        forall|k: int| 0 <= k < more.len() ==> !(#[trigger] more[k] is Send),
        forall|k: int| 0 <= k < rest.len() ==> !(#[trigger] rest[k] is Send),
    ensures
        sent(before, before + more + seq![sends(c)] + rest, c),
{
    let after = before + more + seq![sends(c)] + rest;
    let j = (before.len() + more.len()) as int;
    assert(after[j] == sends(c));
    assert(after.take(before.len() as int) =~= before);
    assert forall|k: int| before.len() <= k < after.len() && k != j implies !(
    #[trigger] after[k] is Send) by {
        if k < j {
            assert(after[k] == more[k - before.len()]);
        } else {
            assert(after[k] == rest[k - j - 1]);
        }
    }
}

// --- the composer -------------------------------------------------------------------------

/// The composer has the keyboard, and the key stands for this action there.
pub open spec fn composing(a: AppV, k: KeyPress, action: Action) -> bool {
    &&& undisturbed(a)
    &&& a.menu.select is None
    &&& a.menu.slider is None
    &&& a.menu.picker is None
    &&& a.live.popups.tree is None
    &&& a.live.agents.selection is None
    &&& a.live.agents.active is None
    &&& a.live.queue.selection is None
    &&& !a.base.vim
    &&& !a.live.draft.file_menu
    &&& k.action == Some(action)
    &&& k.key.code != KeyCode::Up
    &&& k.key.code != KeyCode::Down
    &&& k.key.code != KeyCode::Char('d')
}

/// What becomes of a state once the composer has acted: chips of images that
/// are gone are dropped, and the file browser looks for something to complete.
pub open spec fn settled(c: AppV, b: AppV) -> bool {
    &&& b == (AppV { live: b.live, pointer: b.pointer, status: b.status, out: b.out, ..c })
    &&& b.live == (SlotV { draft: b.live.draft, ..c.live })
    &&& b.live.draft.input == c.live.draft.input
    &&& b.status.quit == c.status.quit
    &&& b.out == c.out || b.out == c.out.push(scans())
}

pub open spec fn scans() -> EffectV {
    Effect::FileMenu(FileMenuOp::Scan)
}

proof fn lemma_settles(c: AppV)
    ensures
        settled(c, c.reconciled_images().browse_files()),
{
    reveal(AppV::reconciled_images);
    reveal(AppV::browse_files);
}

/// A key in the composer does what it stands for.
pub proof fn lemma_composing(a: AppV, k: KeyPress, action: Action)
    requires
        composing(a, k, action),
    ensures
        settled(
            a.redrawn().key_shown(k.debug).act(action, k),
            a.replied(Reply::Key(k)),
        ),
{
    let a0 = a.redrawn().key_shown(k.debug);
    let c = a0.act(action, k);
    lemma_settles(c);
    assert(a0.composer_key(k) == c.reconciled_images().browse_files()) by {
        reveal(AppV::composer_key);
    }
    reveal(AppV::replied);
    reveal(AppV::key_pressed);
    reveal(AppV::surface_key);
    reveal(AppV::main_key);
}

/// A draft in which no command is begun.
pub open spec fn no_command(buf: Seq<char>) -> bool {
    buf.len() == 0 || buf[0] != '/'
}

pub proof fn lemma_no_menu(a: AppV)
    requires
        no_command(a.live.draft.input.buf),
    ensures
        !a.slash_open(),
{
    reveal(AppV::slash_menu);
    text::lemma_index_of_char(a.live.draft.input.buf, '\n');
}

/// A line that is meant for the agent.
pub open spec fn spoken(t: Seq<char>) -> bool {
    t.len() > 0 && t[0] != '/' && t[0] != '!'
}

pub proof fn lemma_spoken(t: Seq<char>)
    requires
        spoken(t),
    ensures
        !text::has_prefix(t, "/"@),
        !text::has_prefix(t, "!"@),
{
    reveal_strlit("/");
    reveal_strlit("!");
    if text::has_prefix(t, "/"@) {
        assert(t.take(1)[0] == "/"@[0]);
    }
    if text::has_prefix(t, "!"@) {
        assert(t.take(1)[0] == "!"@[0]);
    }
}

/// A text is ready to go out with Enter.
pub open spec fn entering(a: AppV, k: KeyPress, t: Seq<char>) -> bool {
    &&& composing(a, k, Action::Enter)
    &&& a.live.queue.edit is None
    &&& a.live.draft.images.len() == 0
    &&& no_command(a.live.draft.input.buf)
    &&& text::trimmed(a.live.draft.input.buf) == t
    &&& t.len() > 0
}

/// A turn runs or is about to, or other prompts wait.
pub open spec fn waits(a: AppV) -> bool {
    a.state == RunState::Running || a.live.run.pending || a.live.queue.prompts.len() > 0
}

/// Enter sends the draft to the viewed session, without the white space around
/// it, as one prompt. It is echoed in the transcript, the draft is emptied and
/// can be recalled, and the turn is about to begin.
pub proof fn law_enter_sends_the_draft(a: AppV, k: KeyPress, t: Seq<char>)
    requires
        entering(a, k, t),
        spoken(t),
        !waits(a),
        a.live.bound,
    ensures
        ({
            let b = a.replied(Reply::Key(k));
            &&& sent(a.out, b.out, Cmd::Prompt { session_id: a.live.id, text: t })
            &&& b.out[a.out.len() as int] == writes(
                a.live.chat.transcript,
                TranscriptOp::User(t),
            )
            &&& b.live.draft.input.buf.len() == 0
            &&& b.live.draft.input.history == a.live.draft.input.history.push(t)
            &&& b.live.queue == a.live.queue
            &&& b.live.id == a.live.id
            &&& b.live.run.pending
            &&& b.live.run.started == Some(a.clock.now)
            &&& b.live.chat.scroll_up == 0
            &&& b.state == RunState::Starting
            &&& b.tabs == a.tabs
        }),
{
    lemma_composing(a, k, Action::Enter);
    lemma_spoken(t);
    let a0 = a.redrawn().key_shown(k.debug);
    lemma_no_menu(a0.without_input_sel());
    reveal(AppV::act);
    reveal(AppV::enter);
    reveal(AppV::submitted);
    reveal(AppV::put_away);
    reveal(AppV::send_text);
    let c = a0.act(Action::Enter, k);
    let b = a.replied(Reply::Key(k));
    let cmd = Cmd::Prompt { session_id: a.live.id, text: t };
    let more = seq![writes(a.live.chat.transcript, TranscriptOp::User(t))];
    assert(c.out =~= a.out + more + seq![sends(cmd)] + Seq::empty());
    lemma_sent(a.out, more, cmd, Seq::empty());
    lemma_sent(a.out, more, cmd, seq![scans()]);
    assert(c.out.push(scans()) =~= a.out + more + seq![sends(cmd)] + seq![scans()]);
}

/// While a turn runs, others wait, or the session is not bound, Enter puts the
/// draft at the end of the queue. Nothing goes to the agent.
pub proof fn law_enter_queues_the_draft(a: AppV, k: KeyPress, t: Seq<char>)
    requires
        entering(a, k, t),
        spoken(t),
        waits(a) || !a.live.bound,
    ensures
        ({
            let b = a.replied(Reply::Key(k));
            &&& sent_nothing(a.out, b.out)
            &&& b.live.queue.prompts == a.live.queue.prompts.push(
                ClientQueuedPrompt { id: a.counts.next_prompt, blocks: seq![StagedBlock::Text(t)] },
            )
            &&& b.live.queue.steers == a.live.queue.steers
            &&& b.live.draft.input.buf.len() == 0
            &&& b.live.draft.input.history == a.live.draft.input.history.push(t)
            &&& b.live.run == a.live.run
            &&& b.live.id == a.live.id
            &&& b.state == a.state
            &&& b.tabs == a.tabs
        }),
{
    lemma_composing(a, k, Action::Enter);
    lemma_spoken(t);
    let a0 = a.redrawn().key_shown(k.debug);
    lemma_no_menu(a0.without_input_sel());
    reveal(AppV::act);
    reveal(AppV::enter);
    reveal(AppV::submitted);
    reveal(AppV::put_away);
    reveal(AppV::send_text);
    let b = a.replied(Reply::Key(k));
    assert(b.out.take(a.out.len() as int) =~= a.out);
}

/// A line that begins with `!` runs in the local shell: the agent is sent
/// nothing, the transcript in view shows the command, and the session is
/// remembered for the result.
pub proof fn law_enter_runs_the_shell(a: AppV, k: KeyPress, t: Seq<char>, command: Seq<char>)
    requires
        entering(a, k, t),
        t == seq!['!'] + command,
        text::trimmed(command).len() > 0,
        a.counts.shells < u64::MAX,
    ensures
        ({
            let b = a.replied(Reply::Key(k));
            let id = (a.counts.shells + 1) as u64;
            let n = a.out.len() as int;
            &&& sent_nothing(a.out, b.out)
            &&& b.out[n] == writes(
                a.live.chat.transcript,
                TranscriptOp::ShellStarted { id, command: text::trimmed(command) },
            )
            &&& b.out[n + 1] == runs_shell(id, text::trimmed(command))
            &&& b.counts.shells == id
            &&& b.counts.pending_shells == a.counts.pending_shells.push(
                PendingShell { id, session: a.live.id },
            )
            &&& b.live.queue == a.live.queue
            &&& b.live.draft.input.buf.len() == 0
            &&& b.state == a.state
        }),
{
    lemma_composing(a, k, Action::Enter);
    let a0 = a.redrawn().key_shown(k.debug);
    lemma_no_menu(a0.without_input_sel());
    reveal_strlit("/");
    reveal_strlit("!");
    if text::has_prefix(t, "/"@) {
        assert(t.take(1)[0] == "/"@[0]);
    }
    assert(t.take(1) =~= "!"@);
    assert(t.skip(1) =~= command);
    reveal(AppV::act);
    reveal(AppV::enter);
    reveal(AppV::submitted);
    reveal(AppV::put_away);
    reveal(AppV::run_shell);
    let b = a.replied(Reply::Key(k));
    assert(b.out.take(a.out.len() as int) =~= a.out);
}

pub open spec fn runs_shell(id: u64, command: Seq<char>) -> EffectV {
    Effect::RunShell { id, command }
}

/// A command stands in the draft, and its menu is not open.
pub open spec fn commanding(a: AppV, k: KeyPress, name: Seq<char>, arg: Seq<char>) -> bool {
    &&& composing(a, k, Action::Enter)
    &&& a.live.queue.edit is None
    &&& a.live.draft.images.len() == 0
    &&& a.menu.slash_dismissed
    &&& forall|i: int| 0 <= i < name.len() ==> #[trigger] name[i] != ' '
    &&& text::trimmed(a.live.draft.input.buf) == seq!['/'] + name + seq![' '] + arg
}

/// The state in which a command runs: the line is put away, and everything
/// else is as it was.
pub open spec fn runs_in(a: AppV, c: AppV) -> bool {
    &&& c.out == a.out
    &&& c.live.id == a.live.id
    &&& c.live.bound == a.live.bound
    &&& c.live.queue == a.live.queue
    &&& c.live.modes == a.live.modes
    &&& c.live.models == a.live.models
    &&& c.live.catalog == a.live.catalog
    &&& c.live.agents == a.live.agents
    &&& c.live.asks == a.live.asks
    &&& c.live.chat == a.live.chat
    &&& c.live.draft.input.buf.len() == 0
    &&& c.tabs == a.tabs
    &&& c.conn == a.conn
    &&& c.state == a.state
    &&& c.base == a.base
    &&& c.cfg == a.cfg
    &&& c.theme == a.theme
    &&& c.plugins == a.plugins
    &&& c.resume == a.resume
    &&& c.counts == a.counts
}

proof fn lemma_command_line(t: Seq<char>, name: Seq<char>, arg: Seq<char>)
    requires
        forall|i: int| 0 <= i < name.len() ==> #[trigger] name[i] != ' ',
        t == seq!['/'] + name + seq![' '] + arg,
    ensures
        text::behind_prefix(t, "/"@) == Some(name + seq![' '] + arg),
        crate::commands::command_parts(name + seq![' '] + arg) == (name, text::trimmed(arg)),
{
    reveal_strlit("/");
    assert(t.take(1) =~= "/"@);
    assert(t.skip(1) =~= name + seq![' '] + arg);
    text::lemma_split_at(name, ' ', arg);
}

/// A command of the client runs with what stands behind its name.
pub proof fn law_enter_runs_the_command(a: AppV, k: KeyPress, name: Seq<char>, arg: Seq<char>)
    requires
        commanding(a, k, name, arg),
        exists|i: int|
            0 <= i < presets::slash_table().len() && (#[trigger] presets::slash_table()[i]).name
                == name,
    ensures
        exists|c: AppV|
            runs_in(a, c) && settled(
                #[trigger] c.run(name, text::trimmed(arg)),
                a.replied(Reply::Key(k)),
            ),
{
    lemma_composing(a, k, Action::Enter);
    let t = text::trimmed(a.live.draft.input.buf);
    lemma_command_line(t, name, arg);
    reveal(AppV::act);
    reveal(AppV::enter);
    reveal(AppV::submitted);
    reveal(AppV::submit_command);
    reveal(AppV::put_away);
    let c = a.redrawn().key_shown(k.debug).without_input_sel().without_file_menu().put_away(t);
    assert(t.len() > 0);
    assert(a.live.draft.input.buf.len() > 0);
    assert(runs_in(a, c));
    assert(settled(c.run(name, text::trimmed(arg)), a.replied(Reply::Key(k))));
}

/// Send Now puts the draft into the turn that runs, under a number of its own;
/// where none runs and none waits, it is an ordinary prompt.
pub proof fn law_send_now_sends_at_once(a: AppV, k: KeyPress, t: Seq<char>)
    requires
        composing(a, k, Action::SendNow),
        a.live.draft.images.len() == 0,
        text::trimmed(a.live.draft.input.buf) == t,
        t.len() > 0,
        a.live.bound,
    ensures
        ({
            let b = a.replied(Reply::Key(k));
            &&& b.live.draft.input.buf.len() == 0
            &&& b.live.queue.prompts == a.live.queue.prompts
            &&& b.out[a.out.len() as int] == writes(
                a.live.chat.transcript,
                TranscriptOp::User(t),
            )
            &&& waits(a) ==> sent(
                a.out,
                b.out,
                Cmd::Steer { session_id: a.live.id, message_id: a.counts.next_prompt, text: t },
            ) && b.state == a.state
            &&& !waits(a) ==> sent(
                a.out,
                b.out,
                Cmd::Prompt { session_id: a.live.id, text: t },
            ) && b.state == RunState::Starting
        }),
{
    lemma_composing(a, k, Action::SendNow);
    reveal(AppV::act);
    reveal(AppV::send_draft_now);
    reveal(AppV::send_now_blocks);
    reveal(AppV::send_now_text);
    reveal(AppV::steer_text);
    reveal(AppV::prompt_text);
    reveal(AppV::steering_with);
    reveal(AppV::put_away);
    reveal_with_fuel(crate::draft::image_count, 2);
    let a0 = a.redrawn().key_shown(k.debug);
    let c = a0.act(Action::SendNow, k);
    let blocks: Seq<BlockV> = seq![StagedBlock::Text(t)];
    assert(blocks.drop_last().len() == 0);
    assert(crate::draft::image_count(blocks) == 0);
    let here = a.live.chat.transcript;
    let echo = seq![writes(here, TranscriptOp::User(t))];
    if waits(a) {
        let id = a.counts.next_prompt;
        let cmd = Cmd::Steer { session_id: a.live.id, message_id: id, text: t };
        let more = echo + seq![writes(here, TranscriptOp::Mark { message_id: id, count: 1 })];
        assert(c.out =~= a.out + more + seq![sends(cmd)] + Seq::empty());
        lemma_sent(a.out, more, cmd, Seq::empty());
        lemma_sent(a.out, more, cmd, seq![scans()]);
        assert(c.out.push(scans()) =~= a.out + more + seq![sends(cmd)] + seq![scans()]);
    } else {
        let cmd = Cmd::Prompt { session_id: a.live.id, text: t };
        assert(c.out =~= a.out + echo + seq![sends(cmd)] + Seq::empty());
        lemma_sent(a.out, echo, cmd, Seq::empty());
        lemma_sent(a.out, echo, cmd, seq![scans()]);
        assert(c.out.push(scans()) =~= a.out + echo + seq![sends(cmd)] + seq![scans()]);
    }
}

/// An empty draft hands the head of the queue over: into the turn that runs,
/// as a prompt otherwise. The others keep their order.
pub proof fn law_empty_enter_hands_the_head_over(a: AppV, k: KeyPress)
    requires
        composing(a, k, Action::Enter),
        a.live.queue.edit is None,
        a.live.draft.images.len() == 0,
        a.live.draft.input.buf.len() == 0,
        a.live.queue.prompts.len() > 0,
        a.live.bound,
    ensures
        ({
            let b = a.replied(Reply::Key(k));
            let head = a.live.queue.prompts[0];
            let running = a.state == RunState::Running || a.live.run.pending;
            &&& b.live.queue.prompts == a.live.queue.prompts.skip(1)
            &&& exists|j: int|
                a.out.len() <= j < b.out.len() && (if running {
                    hands_into_turn(#[trigger] b.out[j], a.live.id, head.id, head.blocks)
                } else {
                    hands_over(b.out[j], a.live.id, head.blocks)
                }) && forall|i: int|
                    a.out.len() <= i < b.out.len() && i != j ==> !(#[trigger] b.out[i] is Send)
        }),
{
    lemma_composing(a, k, Action::Enter);
    let a0 = a.redrawn().key_shown(k.debug);
    lemma_no_menu(a0.without_input_sel());
    let head = a.live.queue.prompts[0];
    lemma_handed_over(a.live.id, head.id, head.blocks, a.live.chat.transcript);
    reveal(AppV::act);
    reveal(AppV::enter);
    reveal(AppV::send_head_now);
    reveal(AppV::head_steered);
    reveal(AppV::head_prompted);
    reveal(AppV::steering_with);
    let c = a0.act(Action::Enter, k);
    let b = a.replied(Reply::Key(k));
    let j = c.out.len() - 1;
    let running = a.state == RunState::Running || a.live.run.pending;
    assert(if running {
        hands_into_turn(b.out[j], a.live.id, head.id, head.blocks)
    } else {
        hands_over(b.out[j], a.live.id, head.blocks)
    });
    assert forall|i: int| a.out.len() <= i < b.out.len() && i != j implies !(
    #[trigger] b.out[i] is Send) by {
        let at = i - a.out.len();
        if at < head.blocks.len() {
            assert(b.out[i] == queue::echo(a.live.chat.transcript, head.blocks)[at]);
        }
    }
}

// --- presets ------------------------------------------------------------------------------

/// Shift and Tab ask for the permission preset behind the one in effect, round
/// and round, among those that the agent has listed.
pub proof fn law_next_permission_is_asked(a: AppV, k: KeyPress, i: int)
    requires
        composing(a, k, Action::CyclePermission),
        a.live.catalog.permissions.len() >= 2,
        0 <= i < a.live.catalog.permissions.len(),
        a.live.modes.permission == Some(a.live.catalog.permissions[i].id),
        forall|j: int|
            0 <= j < a.live.catalog.permissions.len() && j != i ==> (
            #[trigger] a.live.catalog.permissions[j]).id != a.live.catalog.permissions[i].id,
    ensures
        ({
            let n = a.live.catalog.permissions.len() as int;
            let next = if i + 1 < n {
                i + 1
            } else {
                0
            };
            sent(
                a.out,
                a.replied(Reply::Key(k)).out,
                Cmd::SetPermission {
                    session_id: a.live.id,
                    preset: a.live.catalog.permissions[next].id,
                },
            )
        }),
        a.replied(Reply::Key(k)).live.modes == a.live.modes,
        a.replied(Reply::Key(k)).tabs == a.tabs,
{
    let n = a.live.catalog.permissions.len() as int;
    let next = if i + 1 < n {
        i + 1
    } else {
        0
    };
    let ids = a.permission_ids();
    let now = a.live.catalog.permissions[i].id;
    assert(ids[i] == now);
    assert forall|j: int| 0 <= j < i implies !lists::is_text(now)(#[trigger] ids[j]) by {
        assert(ids[j] == a.live.catalog.permissions[j].id);
    }
    seqs::lemma_first_index_is(ids, lists::is_text(now), i);
    if i + 1 < n {
        assert((i + 1) % n == i + 1) by (nonlinear_arith)
            requires
                0 <= i + 1 < n,
        ;
    } else {
        assert(n % n == 0) by (nonlinear_arith)
            requires
                n > 0,
        ;
    }
    assert(a.live.catalog.permissions[next].id != now);
    lemma_cycled(a, k, a.live.catalog.permissions[next].id);
}

/// Where the agent has listed none, the stock presets take turns.
pub proof fn law_next_stock_permission_is_asked(a: AppV, k: KeyPress)
    requires
        composing(a, k, Action::CyclePermission),
        a.live.catalog.permissions.len() < 2,
    ensures
        ({
            let b = a.replied(Reply::Key(k));
            let ask = |preset: Seq<char>|
                sent(a.out, b.out, Cmd::SetPermission { session_id: a.live.id, preset });
            let now = a.live.modes.permission;
            &&& now == Some("read-only"@) ==> ask("workspace-write"@)
            &&& now == Some("workspace-write"@) ==> ask("danger-full-access"@)
            &&& now is None ==> ask("danger-full-access"@)
            &&& now == Some("danger-full-access"@) ==> ask("read-only"@)
        }),
{
    let ids = a.permission_ids();
    reveal_strlit("read-only");
    reveal_strlit("workspace-write");
    reveal_strlit("danger-full-access");
    assert("read-only"@.len() == 9);
    assert("workspace-write"@.len() == 15);
    assert("danger-full-access"@.len() == 18);
    assert("read-only"@ != "workspace-write"@);
    assert("workspace-write"@ != "danger-full-access"@);
    assert("read-only"@ != "danger-full-access"@);
    assert(ids[0] == "read-only"@ && ids[1] == "workspace-write"@ && ids[2]
        == "danger-full-access"@);
    let now = a.live.modes.permission;
    if now == Some("read-only"@) {
        seqs::lemma_first_index_is(ids, lists::is_text("read-only"@), 0);
        lemma_cycled(a, k, "workspace-write"@);
    } else if now == Some("workspace-write"@) || now is None {
        seqs::lemma_first_index_is(ids, lists::is_text("workspace-write"@), 1);
        lemma_cycled(a, k, "danger-full-access"@);
    } else if now == Some("danger-full-access"@) {
        seqs::lemma_first_index_is(ids, lists::is_text("danger-full-access"@), 2);
        lemma_cycled(a, k, "read-only"@);
    }
}

proof fn lemma_cycled(a: AppV, k: KeyPress, preset: Seq<char>)
    requires
        composing(a, k, Action::CyclePermission),
        lists::after_or_second(a.permission_ids(), a.permission_now()) == preset,
        a.live.modes.permission != Some(preset),
    ensures
        sent(
            a.out,
            a.replied(Reply::Key(k)).out,
            Cmd::SetPermission { session_id: a.live.id, preset },
        ),
        a.replied(Reply::Key(k)).live.modes == a.live.modes,
        a.replied(Reply::Key(k)).tabs == a.tabs,
{
    lemma_composing(a, k, Action::CyclePermission);
    reveal(AppV::act);
    reveal(AppV::next_permission);
    reveal(AppV::ask_permission);
    let a0 = a.redrawn().key_shown(k.debug);
    assert(a0.permission_ids() == a.permission_ids());
    let c = a0.act(Action::CyclePermission, k);
    let cmd = Cmd::SetPermission { session_id: a.live.id, preset };
    lemma_sent(a.out, Seq::empty(), cmd, Seq::empty());
    lemma_sent(a.out, Seq::empty(), cmd, seq![scans()]);
    assert(c.out =~= a.out + Seq::empty() + seq![sends(cmd)] + Seq::empty());
    assert(c.out.push(scans()) =~= a.out + Seq::empty() + seq![sends(cmd)] + seq![scans()]);
}

// --- other keys ---------------------------------------------------------------------------

/// Escape while a turn runs asks for its interruption and keeps the draft.
pub proof fn law_escape_interrupts(a: AppV, k: KeyPress)
    requires
        composing(a, k, Action::Esc),
        a.state != RunState::Idle,
        a.live.queue.edit is None,
        no_command(a.live.draft.input.buf),
    ensures
        ({
            let b = a.replied(Reply::Key(k));
            &&& sent_nothing(a.out, b.out)
            &&& b.out[a.out.len() as int] == interrupts()
            &&& b.live.draft.input == a.live.draft.input
            &&& b.live.queue == a.live.queue
            &&& b.state == a.state
        }),
{
    lemma_composing(a, k, Action::Esc);
    reveal(AppV::act);
    reveal(AppV::escape);
    reveal(AppV::escape_draft);
    reveal(AppV::escape_turn);
    let a0 = a.redrawn().key_shown(k.debug);
    lemma_no_menu(a0.without_selections());
    let b = a.replied(Reply::Key(k));
    assert(b.out.take(a.out.len() as int) =~= a.out);
}

pub open spec fn interrupts() -> EffectV {
    Effect::TryInterrupt
}

/// An interruption that can be made is asked of the viewed session.
pub proof fn law_interruption_goes_to_the_viewed_session(a: AppV)
    ensures
        a.replied(Reply::Interrupted { done: true }).out == a.out.push(
            sends(Cmd::Interrupt { session_id: a.live.id }),
        ),
        a.replied(Reply::Interrupted { done: true }).live.queue == a.live.queue,
        a.replied(Reply::Interrupted { done: true }).tabs == a.tabs,
        a.replied(Reply::Interrupted { done: false }).out == a.out,
        a.replied(Reply::Interrupted { done: false }).live == a.live,
{
    reveal(AppV::replied);
    reveal(AppV::interrupt_tried);
}

// --- the queue ----------------------------------------------------------------------------

/// An edited prompt that is saved keeps its number and place, and has the text
/// of the draft; one whose deletion is confirmed leaves the queue.
pub proof fn law_edited_prompt_is_saved(a: AppV, k: KeyPress, i: int, t: Seq<char>)
    requires
        composing(a, k, Action::Enter),
        a.state != RunState::Idle,
        a.live.draft.images.len() == 0,
        no_command(a.live.draft.input.buf),
        text::trimmed(a.live.draft.input.buf) == t,
        t.len() > 0,
        0 <= i < a.live.queue.prompts.len(),
        a.live.queue.edit is Some,
        a.live.queue.edit->0.prompt_id == a.live.queue.prompts[i].id,
        forall|j: int|
            0 <= j < i ==> (#[trigger] a.live.queue.prompts[j]).id != a.live.queue.prompts[i].id,
    ensures
        ({
            let b = a.replied(Reply::Key(k));
            &&& sent_nothing(a.out, b.out)
            &&& b.live.queue.edit is None
            &&& b.live.draft.input.buf.len() == 0
            &&& !a.live.queue.edit->0.delete_confirm ==> b.live.queue.prompts
                == a.live.queue.prompts.update(
                i,
                ClientQueuedPrompt {
                    id: a.live.queue.prompts[i].id,
                    blocks: seq![StagedBlock::Text(t)],
                },
            )
            &&& a.live.queue.edit->0.delete_confirm ==> b.live.queue.prompts
                == a.live.queue.prompts.remove(i)
        }),
{
    lemma_composing(a, k, Action::Enter);
    reveal(AppV::act);
    reveal(AppV::enter);
    reveal(AppV::save_edit);
    reveal(AppV::save_blocks);
    reveal(AppV::delete_edit);
    reveal(AppV::edit_done);
    reveal(AppV::reconciled_images);
    let a0 = a.redrawn().key_shown(k.debug);
    lemma_no_menu(a0.without_input_sel());
    seqs::lemma_first_index_is(
        a.live.queue.prompts,
        crate::compose::prompt_numbered(a.live.queue.prompts[i].id),
        i,
    );
    let b = a.replied(Reply::Key(k));
    assert(b.out.take(a.out.len() as int) =~= a.out);
}

} // verus!
