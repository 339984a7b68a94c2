//! Prompts on their way: the queue behind a running turn, prompts sent into a
//! turn, and what a draft is sent as.

use crate::app::{App, AppV, CountsV, Pointer};
use crate::bus::{Cmd, CmdV};
use crate::draft::{self, Attachment, AttachmentV, BlockV, StagedBlock};
use crate::effect::{self, Effect, EffectV, OpV, TranscriptOp};
use crate::seqs;
use crate::session::{
    self, Chat, ClientQueuedPrompt, DraftV, PendingSteer, Queue, QueueV, QueuedV, Run, RunState,
    SessionSlot, SlotV, SteerV,
};
use crate::tabs;
use crate::text;
use vstd::prelude::*;

verus! {

// --- blocks -----------------------------------------------------------------

/// How a block of a prompt is echoed.
pub open spec fn block_op(b: BlockV) -> OpV {
    match b {
        StagedBlock::Text(t) => TranscriptOp::User(t),
        StagedBlock::Image(a) => TranscriptOp::Image { name: a.name, path: a.path, image: a.image },
    }
}

/// How a prompt is echoed in a transcript, block by block.
pub open spec fn echo(transcript: u64, blocks: Seq<BlockV>) -> Seq<EffectV> {
    Seq::new(
        blocks.len(),
        |i: int| Effect::Transcript { id: transcript, op: block_op(blocks[i]) },
    )
}

fn echo_block(b: &StagedBlock) -> (r: TranscriptOp)
    ensures
        r@ == block_op(b@),
{
    match b {
        StagedBlock::Text(t) => TranscriptOp::User(t.clone()),
        StagedBlock::Image(a) => TranscriptOp::Image {
            name: a.name.clone(),
            path: a.path.clone(),
            image: a.image,
        },
    }
}

fn echo_blocks(transcript: u64, blocks: &Vec<StagedBlock>, out: &mut Vec<Effect>)
    ensures
        effect::effects_view(final(out)@) == effect::effects_view(old(out)@) + echo(
            transcript,
            draft::blocks_view(blocks@),
        ),
{
    let ghost all = draft::blocks_view(blocks@);
    let ghost sent = effect::effects_view(out@);
    let mut i: usize = 0;
    assert(sent =~= sent + echo(transcript, all).take(0));
    while i < blocks.len()
        invariant
            i <= blocks@.len(),
            all == draft::blocks_view(blocks@),
            effect::effects_view(out@) == sent + echo(transcript, all).take(i as int),
        decreases blocks@.len() - i,
    {
        assert(all[i as int] == blocks@[i as int]@);
        effect::emit(out, Effect::Transcript { id: transcript, op: echo_block(&blocks[i]) });
        assert(effect::effects_view(out@) =~= sent + echo(transcript, all).take(i as int + 1));
        i = i + 1;
    }
    assert(echo(transcript, all).take(i as int) =~= echo(transcript, all));
}

/// The text of a prompt that is nothing but one text.
pub open spec fn plain_text(blocks: Seq<BlockV>) -> Option<Seq<char>> {
    if blocks.len() == 1 {
        match blocks[0] {
            StagedBlock::Text(t) => Some(t),
            StagedBlock::Image(_) => None,
        }
    } else {
        None
    }
}

fn text_alone(blocks: &Vec<StagedBlock>) -> (r: Option<String>)
    ensures
        text::opt_view(r) == plain_text(draft::blocks_view(blocks@)),
{
    if blocks.len() == 1 {
        assert(draft::blocks_view(blocks@)[0] == blocks@[0]@);
        match &blocks[0] {
            StagedBlock::Text(t) => Some(t.clone()),
            StagedBlock::Image(_) => None,
        }
    } else {
        None
    }
}

/// The command that starts a turn with a prompt.
pub open spec fn prompt_cmd(session_id: Seq<char>, blocks: Seq<BlockV>) -> CmdV {
    match plain_text(blocks) {
        Some(t) => Cmd::Prompt { session_id, text: t },
        None => Cmd::PromptImages { session_id, blocks: draft::prompt_blocks(blocks) },
    }
}

/// The command that sends a prompt into a running turn.
pub open spec fn steer_cmd(session_id: Seq<char>, message_id: u64, blocks: Seq<BlockV>) -> CmdV {
    match plain_text(blocks) {
        Some(t) => Cmd::Steer { session_id, message_id, text: t },
        None => Cmd::SteerImages { session_id, message_id, blocks: draft::prompt_blocks(blocks) },
    }
}

pub(crate) fn make_prompt(session_id: String, blocks: &Vec<StagedBlock>) -> (r: Cmd)
    ensures
        r@ == prompt_cmd(session_id@, draft::blocks_view(blocks@)),
{
    match text_alone(blocks) {
        Some(t) => Cmd::Prompt { session_id, text: t },
        None => Cmd::PromptImages { session_id, blocks: draft::prompt_blocks_from_staged(blocks) },
    }
}

pub(crate) fn make_steer(session_id: String, message_id: u64, blocks: &Vec<StagedBlock>) -> (r: Cmd)
    ensures
        r@ == steer_cmd(session_id@, message_id, draft::blocks_view(blocks@)),
{
    match text_alone(blocks) {
        Some(t) => Cmd::Steer { session_id, message_id, text: t },
        None => Cmd::SteerImages {
            session_id,
            message_id,
            blocks: draft::prompt_blocks_from_staged(blocks),
        },
    }
}

// --- the queue of one session --------------------------------------------------

/// The queue is being browsed or edited, and stands still.
pub open spec fn held(q: QueueV) -> bool {
    q.selection is Some || q.edit is Some
}

pub open spec fn without_head(q: QueueV) -> QueueV {
    QueueV { prompts: q.prompts.skip(1), ..q }
}

pub open spec fn with_prompt(q: QueueV, p: QueuedV) -> QueueV {
    QueueV { prompts: q.prompts.push(p), ..q }
}

fn is_held(q: &Queue) -> (r: bool)
    ensures
        r == held(q@),
{
    q.selection.is_some() || q.edit.is_some()
}

fn take_head(q: &mut Queue) -> (r: ClientQueuedPrompt)
    requires
        old(q)@.prompts.len() > 0,
    ensures
        r@ == old(q)@.prompts[0],
        final(q)@ == without_head(old(q)@),
{
    let p = q.prompts.remove(0);
    assert(q@.prompts =~= old(q)@.prompts.skip(1));
    p
}

fn add_prompt(q: &mut Queue, id: u64, blocks: Vec<StagedBlock>)
    ensures
        final(q)@ == with_prompt(
            old(q)@,
            ClientQueuedPrompt { id, blocks: draft::blocks_view(blocks@) },
        ),
{
    q.prompts.push(ClientQueuedPrompt { id, blocks });
    assert(q@.prompts =~= old(q)@.prompts.push(
        ClientQueuedPrompt { id, blocks: draft::blocks_view(blocks@) },
    ));
}

/// The prompts sent into a turn with this number.
pub open spec fn numbered(message_id: u64) -> spec_fn(SteerV) -> bool {
    |s: SteerV| s.message_id == message_id
}

pub open spec fn has_steer(q: QueueV, message_id: u64) -> bool {
    seqs::some(q.steers, numbered(message_id))
}

/// A prompt sent into a turn is remembered until its fate is known.
pub open spec fn with_steer(q: QueueV, s: SteerV) -> QueueV {
    let at = seqs::first_index(q.steers, numbered(s.message_id));
    QueueV {
        steers: if at < q.steers.len() {
            q.steers.update(at, s)
        } else {
            q.steers.push(s)
        },
        ..q
    }
}

/// The fate of a prompt sent into a turn is known. One that has to wait goes
/// back to the place in the queue from which it came.
pub open spec fn steer_settled(q: QueueV, message_id: u64, deferred: bool) -> QueueV {
    let at = seqs::first_index(q.steers, numbered(message_id));
    let s = q.steers[at];
    let p = ClientQueuedPrompt { id: message_id, blocks: s.blocks };
    QueueV {
        steers: q.steers.remove(at),
        prompts: if !deferred {
            q.prompts
        } else if s.requeue_front {
            seq![p] + q.prompts
        } else {
            q.prompts.push(p)
        },
        ..q
    }
}

fn find_steer(v: &Vec<PendingSteer>, message_id: u64) -> (r: usize)
    ensures
        r == seqs::first_index(session::steers_view(v@), numbered(message_id)),
        r <= v@.len(),
{
    let ghost all = session::steers_view(v@);
    let mut i: usize = 0;
    while i < v.len() && v[i].message_id != message_id
        invariant
            i <= v@.len(),
            all == session::steers_view(v@),
            forall|k: int| 0 <= k < i ==> !numbered(message_id)(#[trigger] all[k]),
        decreases v@.len() - i,
    {
        assert(all[i as int] == v@[i as int]@);
        i = i + 1;
    }
    proof {
        seqs::lemma_first_index_is(all, numbered(message_id), i as int);
    }
    i
}

fn add_steer(q: &mut Queue, s: PendingSteer)
    ensures
        final(q)@ == with_steer(old(q)@, s@),
{
    let at = find_steer(&q.steers, s.message_id);
    if at < q.steers.len() {
        q.steers.set(at, s);
        assert(q@.steers =~= old(q)@.steers.update(at as int, s@));
    } else {
        q.steers.push(s);
        assert(q@.steers =~= old(q)@.steers.push(s@));
    }
}

/// Settles a prompt sent into a turn, if this queue knows it.
fn settle(q: &mut Queue, message_id: u64, deferred: bool) -> (r: bool)
    ensures
        r == has_steer(old(q)@, message_id),
        final(q)@ == (if r {
            steer_settled(old(q)@, message_id, deferred)
        } else {
            old(q)@
        }),
{
    let ghost before = q@;
    let at = find_steer(&q.steers, message_id);
    if at >= q.steers.len() {
        return false;
    }
    let s = q.steers.remove(at);
    assert(q@.steers =~= before.steers.remove(at as int));
    if deferred {
        let p = ClientQueuedPrompt { id: message_id, blocks: s.blocks };
        if s.requeue_front {
            q.prompts.insert(0, p);
            assert(q@.prompts =~= seq![p@] + before.prompts);
        } else {
            q.prompts.push(p);
            assert(q@.prompts =~= before.prompts.push(p@));
        }
    }
    true
}

/// What a parked session sends next, and how it stands then.
pub open spec fn slot_sends(s: SlotV) -> bool {
    !held(s.queue) && s.bound && s.queue.prompts.len() > 0
}

pub open spec fn slot_sent(s: SlotV, now: u64, note: Seq<char>) -> SlotV {
    SlotV {
        queue: without_head(s.queue),
        run: Run { pending: true, running: true, started: Some(now), note, ..s.run },
        chat: Chat { scroll_up: 0, ..s.chat },
        ..s
    }
}

pub open spec fn slot_sending(s: SlotV) -> Seq<EffectV> {
    echo(s.chat.transcript, s.queue.prompts[0].blocks).push(
        Effect::Send(prompt_cmd(s.id, s.queue.prompts[0].blocks)),
    )
}

/// Sends the head of the queue of a parked session.
fn dispatch_slot(slot: &mut SessionSlot, now: u64, note: String, out: &mut Vec<Effect>)
    ensures
        final(slot)@ == (if slot_sends(old(slot)@) {
            slot_sent(old(slot)@, now, note@)
        } else {
            old(slot)@
        }),
        effect::effects_view(final(out)@) == (if slot_sends(old(slot)@) {
            effect::effects_view(old(out)@) + slot_sending(old(slot)@)
        } else {
            effect::effects_view(old(out)@)
        }),
{
    proof {
        reveal(session::slot_view);
    }
    if is_held(&slot.queue) || !slot.bound || slot.queue.prompts.len() == 0 {
        return;
    }
    let ghost sent = effect::effects_view(out@);
    let ghost before = slot@;
    let prompt = take_head(&mut slot.queue);
    echo_blocks(slot.chat.transcript, &prompt.blocks, out);
    slot.run.pending = true;
    slot.run.running = true;
    slot.run.started = Some(now);
    slot.run.note = note;
    slot.chat.scroll_up = 0;
    let cmd = make_prompt(slot.id.clone(), &prompt.blocks);
    effect::emit(out, Effect::Send(cmd));
    assert(effect::effects_view(out@) =~= sent + slot_sending(before));
}

// --- the viewed session ----------------------------------------------------------

/// The images whose chips stand in a draft.
pub open spec fn standing_in(buf: Seq<char>) -> spec_fn(AttachmentV) -> bool {
    |a: AttachmentV| text::contains_text(buf, a.token)
}

fn keep_standing(images: &mut Vec<Attachment>, buf: &str)
    ensures
        draft::attachments_view(final(images)@) == draft::attachments_view(old(images)@).filter(
            standing_in(buf@),
        ),
{
    let ghost all = draft::attachments_view(images@);
    let ghost p = standing_in(buf@);
    let mut kept: Vec<Attachment> = Vec::new();
    let mut i: usize = 0;
    proof {
        seqs::lemma_filter_empty(all.take(0), p);
    }
    assert(draft::attachments_view(kept@) =~= all.take(0).filter(p));
    while i < images.len()
        invariant
            i <= images@.len(),
            all == draft::attachments_view(images@),
            p == standing_in(buf@),
            draft::attachments_view(kept@) == all.take(i as int).filter(p),
        decreases images@.len() - i,
    {
        proof {
            seqs::lemma_filter_push(all, p, i as int);
        }
        assert(all[i as int] == images@[i as int]@);
        let ghost before = draft::attachments_view(kept@);
        if text::contains(buf, images[i].token.as_str()) {
            kept.push(images[i].clone());
            assert(draft::attachments_view(kept@) =~= before.push(all[i as int]));
        }
        i = i + 1;
    }
    assert(all.take(i as int) =~= all);
    *images = kept;
}

impl AppV {
    pub open spec fn with_images(self, images: Seq<AttachmentV>) -> AppV {
        self.with_live(SlotV { draft: DraftV { images, ..self.live.draft }, ..self.live })
    }

    /// Images whose chips have been edited away leave the draft.
    #[verifier::opaque]
    pub open spec fn reconciled_images(self) -> AppV {
        let kept = self.live.draft.images.filter(standing_in(self.live.draft.input.buf));
        if kept.len() < self.live.draft.images.len() {
            self.with_images(kept).with_pointer(
                Pointer { over_chip: None, ..self.pointer },
            ).redrawn()
        } else {
            self.with_images(kept)
        }
    }

    /// The number of the next prompt is given out. After the last the numbers
    /// begin again.
    pub open spec fn numbered(self) -> AppV {
        AppV {
            counts: CountsV {
                next_prompt: if self.counts.next_prompt == u64::MAX {
                    1
                } else {
                    (self.counts.next_prompt + 1) as u64
                },
                again: self.counts.again || self.counts.next_prompt == u64::MAX,
                ..self.counts
            },
            ..self
        }
    }

    pub open spec fn echoing(self, blocks: Seq<BlockV>) -> AppV {
        AppV { out: self.out + echo(self.live.chat.transcript, blocks), ..self }
    }

    /// A prompt joins the end of the queue.
    pub open spec fn queueing(self, blocks: Seq<BlockV>) -> AppV {
        self.with_queue(
            with_prompt(
                self.live.queue,
                ClientQueuedPrompt { id: self.counts.next_prompt, blocks },
            ),
        ).numbered()
    }

    /// Whether a prompt has to wait for one before it.
    pub open spec fn occupied(self) -> bool {
        self.state == RunState::Running || self.live.run.pending || self.live.queue.prompts.len()
            > 0
    }

    /// A text is sent as a prompt. It waits in the queue while a turn runs or
    /// the session is not bound.
    #[verifier::opaque]
    pub open spec fn send_text(self, t: Seq<char>) -> AppV {
        if self.occupied() || !self.live.bound {
            self.banner_off().queueing(seq![StagedBlock::Text(t)]).tell(
                "queued · empty enter sends first · alt+↑ edit"@,
                "已排队 · 空输入按 enter 发送队首 · alt+↑ 编辑"@,
            ).scrolled_to(0)
        } else {
            self.banner_off().write(self.live.chat.transcript, TranscriptOp::User(t)).starting(
                if self.base.demo {
                    Seq::empty()
                } else {
                    self.says("contacting runtime"@, "正在连接运行时"@)
                },
            ).scrolled_to(0).send(Cmd::Prompt { session_id: self.live.id, text: t })
        }
    }

    /// The head of the queue is sent, unless the queue stands still or the
    /// session is not bound.
    #[verifier::opaque]
    pub open spec fn send_next(self) -> AppV {
        if held(self.live.queue) {
            self.noted(self.says("queue paused for selection/edit"@, "队列已暂停 · 请选择或编辑"@)).tell(
                "queue paused · finish or close the queue editor"@,
                "队列暂停 · 完成或关闭队列编辑器"@,
            )
        } else if !self.live.bound || self.live.queue.prompts.len() == 0 {
            self
        } else {
            let blocks = self.live.queue.prompts[0].blocks;
            self.with_queue(without_head(self.live.queue)).echoing(blocks).starting(
                self.queued_note(),
            ).scrolled_to(0).send(prompt_cmd(self.live.id, blocks))
        }
    }

    pub open spec fn queued_note(self) -> Seq<char> {
        self.says("sending queued followup"@, "正在发送排队消息"@)
    }

    /// The head of the queue of one session is sent.
    #[verifier::opaque]
    pub open spec fn send_next_of(self, session: Seq<char>) -> AppV {
        if session == self.live.id {
            self.send_next()
        } else {
            let at = seqs::first_index(self.tabs.parked, session::with_id(session));
            if at < self.tabs.parked.len() && slot_sends(self.tabs.parked[at]) {
                let s = self.tabs.parked[at];
                AppV { out: self.out + slot_sending(s), ..self }.with_parked(
                    self.tabs.parked.update(
                        at,
                        slot_sent(s, self.clock.now, self.queued_note()),
                    ),
                )
            } else {
                self
            }
        }
    }

    /// The parked sessions that wait for the fate of this prompt.
    pub open spec fn steered_slot(self, message_id: u64) -> int {
        seqs::first_index(self.tabs.parked, steering(message_id))
    }

    /// The fate of a prompt sent into a turn is known, wherever its session
    /// is.
    #[verifier::opaque]
    pub open spec fn settling(self, message_id: u64, deferred: bool) -> AppV {
        let at = self.steered_slot(message_id);
        if has_steer(self.live.queue, message_id) {
            let a = self.with_queue(steer_settled(self.live.queue, message_id, deferred));
            if deferred {
                a.write(self.live.chat.transcript, TranscriptOp::Hide { message_id }).tell(
                    "agent deferred Send Now — queued after the active turn"@,
                    "Agent 暂缓了立即发送 —— 已排在当前轮次之后"@,
                )
            } else {
                a
            }
        } else if at < self.tabs.parked.len() {
            let s = self.tabs.parked[at];
            let a = self.with_parked(
                self.tabs.parked.update(
                    at,
                    SlotV { queue: steer_settled(s.queue, message_id, deferred), ..s },
                ),
            );
            if deferred {
                a.write(s.chat.transcript, TranscriptOp::Hide { message_id })
            } else {
                a
            }
        } else {
            self
        }
    }

    /// A prompt goes into the running turn.
    #[verifier::opaque]
    pub open spec fn steering_with(self, message_id: u64, blocks: Seq<BlockV>, front: bool) -> AppV {
        self.echoing(blocks).write(
            self.live.chat.transcript,
            TranscriptOp::Mark { message_id, count: blocks.len() as usize },
        ).with_queue(
            with_steer(
                self.live.queue,
                PendingSteer { message_id, blocks, requeue_front: front },
            ),
        )
    }
}

/// The sessions that wait for the fate of this prompt.
pub open spec fn steering(message_id: u64) -> spec_fn(SlotV) -> bool {
    |s: SlotV| has_steer(s.queue, message_id)
}

fn find_steering(v: &Vec<SessionSlot>, message_id: u64) -> (r: usize)
    ensures
        r == seqs::first_index(session::slots_view(v@), steering(message_id)),
        r <= v@.len(),
{
    let ghost all = session::slots_view(v@);
    let mut i: usize = 0;
    while i < v.len() && !knows_steer(&v[i], message_id)
        invariant
            i <= v@.len(),
            all == session::slots_view(v@),
            forall|k: int| 0 <= k < i ==> !steering(message_id)(#[trigger] all[k]),
        decreases v@.len() - i,
    {
        assert(all[i as int] == v@[i as int]@);
        i = i + 1;
    }
    proof {
        seqs::lemma_first_index_is(all, steering(message_id), i as int);
    }
    i
}

fn knows_steer(s: &SessionSlot, message_id: u64) -> (r: bool)
    ensures
        r == has_steer(s@.queue, message_id),
{
    proof {
        reveal(session::slot_view);
    }
    find_steer(&s.queue.steers, message_id) < s.queue.steers.len()
}

fn settle_in_slot(s: &mut SessionSlot, message_id: u64, deferred: bool) -> (r: u64)
    requires
        has_steer(old(s)@.queue, message_id),
    ensures
        r == old(s)@.chat.transcript,
        final(s)@ == (SlotV {
            queue: steer_settled(old(s)@.queue, message_id, deferred),
            ..old(s)@
        }),
{
    proof {
        reveal(session::slot_view);
    }
    settle(&mut s.queue, message_id, deferred);
    s.chat.transcript
}

pub(crate) fn single(t: String) -> (r: Vec<StagedBlock>)
    ensures
        draft::blocks_view(r@) == seq![StagedBlock::Text(t@)],
{
    let mut r: Vec<StagedBlock> = Vec::new();
    r.push(StagedBlock::Text(t));
    assert(draft::blocks_view(r@) =~= seq![StagedBlock::Text(t@)]);
    r
}

impl App {
    pub(crate) fn reconcile_attachments(&mut self)
        ensures
            final(self)@ == old(self)@.reconciled_images(),
    {
        proof {
            reveal(session::slot_view);
            reveal(AppV::reconciled_images);
        }
        let before: usize = self.live.draft.images.len();
        keep_standing(&mut self.live.draft.images, self.live.draft.input.buf.as_str());
        if self.live.draft.images.len() < before {
            self.pointer.over_chip = None;
            self.redraw();
        }
    }

    pub(crate) fn next_prompt_id(&mut self) -> (r: u64)
        ensures
            r == old(self)@.counts.next_prompt,
            final(self)@ == old(self)@.numbered(),
    {
        let id: u64 = self.counts.next_prompt;
        proof {
            self.counts.again@ = self.counts.again@ || id == u64::MAX;
        }
        self.counts.next_prompt = if id == u64::MAX {
            1
        } else {
            id + 1
        };
        id
    }

    pub(crate) fn echo_staged_blocks(&mut self, blocks: &Vec<StagedBlock>)
        ensures
            final(self)@ == old(self)@.echoing(draft::blocks_view(blocks@)),
    {
        let transcript = self.live_transcript();
        echo_blocks(transcript, blocks, &mut self.out);
    }

    pub(crate) fn queue_prompt(&mut self, blocks: Vec<StagedBlock>)
        ensures
            final(self)@ == old(self)@.queueing(draft::blocks_view(blocks@)),
    {
        proof {
            reveal(session::slot_view);
        }
        let id: u64 = self.counts.next_prompt;
        add_prompt(&mut self.live.queue, id, blocks);
        self.next_prompt_id();
    }

    pub(crate) fn take_queue_head(&mut self) -> (r: ClientQueuedPrompt)
        requires
            old(self)@.live.queue.prompts.len() > 0,
        ensures
            r@ == old(self)@.live.queue.prompts[0],
            final(self)@ == old(self)@.with_queue(without_head(old(self)@.live.queue)),
    {
        proof {
            reveal(session::slot_view);
        }
        take_head(&mut self.live.queue)
    }

    pub(crate) fn queue_held(&self) -> (r: bool)
        ensures
            r == held(self@.live.queue),
    {
        proof {
            reveal(session::slot_view);
        }
        is_held(&self.live.queue)
    }

    pub(crate) fn is_occupied(&self) -> (r: bool)
        ensures
            r == self@.occupied(),
    {
        matches!(self.state, RunState::Running) || self.is_pending() || self.queue_len() > 0
    }

    /// Sends a text to the agent, or queues it.
    pub(crate) fn send_agent_text(&mut self, t: String)
        ensures
            final(self)@ == old(self)@.send_text(t@),
    {
        proof {
            reveal(AppV::send_text);
        }
        let session_id = self.session_id();
        let transcript = self.live_transcript();
        let waits = self.is_occupied() || !self.is_bound();
        self.hide_banner();
        if waits {
            self.queue_prompt(single(t));
            self.tell(
                "queued · empty enter sends first · alt+↑ edit",
                "已排队 · 空输入按 enter 发送队首 · alt+↑ 编辑",
            );
            self.scroll_to(0);
        } else {
            self.write(transcript, TranscriptOp::User(t.clone()));
            let note = if self.base.demo {
                text::empty()
            } else {
                self.say("contacting runtime", "正在连接运行时")
            };
            self.begin_turn(note);
            self.scroll_to(0);
            self.send(Cmd::Prompt { session_id, text: t });
        }
    }

    pub(crate) fn dispatch_next_queued(&mut self)
        ensures
            final(self)@ == old(self)@.send_next(),
    {
        proof {
            reveal(AppV::send_next);
        }
        if self.queue_held() {
            let note = self.say("queue paused for selection/edit", "队列已暂停 · 请选择或编辑");
            self.set_note(note);
            self.tell(
                "queue paused · finish or close the queue editor",
                "队列暂停 · 完成或关闭队列编辑器",
            );
            return;
        }
        if !self.is_bound() || self.queue_len() == 0 {
            return;
        }
        let session_id = self.session_id();
        let note = self.say("sending queued followup", "正在发送排队消息");
        let prompt = self.take_queue_head();
        self.echo_staged_blocks(&prompt.blocks);
        self.begin_turn(note);
        self.scroll_to(0);
        self.send(make_prompt(session_id, &prompt.blocks));
    }

    fn dispatch_parked(&mut self, at: usize)
        requires
            at < old(self)@.tabs.parked.len(),
        ensures
            final(self)@ == (if slot_sends(old(self)@.tabs.parked[at as int]) {
                (AppV {
                    out: old(self)@.out + slot_sending(old(self)@.tabs.parked[at as int]),
                    ..old(self)@
                }).with_parked(
                    old(self)@.tabs.parked.update(
                        at as int,
                        slot_sent(
                            old(self)@.tabs.parked[at as int],
                            old(self)@.clock.now,
                            old(self)@.queued_note(),
                        ),
                    ),
                )
            } else {
                old(self)@
            }),
    {
        let ghost a = self@;
        let note = self.say("sending queued followup", "正在发送排队消息");
        let now: u64 = self.clock.now;
        dispatch_slot(&mut self.tabs.parked[at], now, note, &mut self.out);
        proof {
            if slot_sends(a.tabs.parked[at as int]) {
                assert(self@.tabs.parked =~= a.tabs.parked.update(
                    at as int,
                    slot_sent(a.tabs.parked[at as int], now, note@),
                ));
            } else {
                assert(self@.tabs.parked =~= a.tabs.parked);
            }
        }
    }

    /// Sends the head of the queue of one session, viewed or parked.
    pub(crate) fn dispatch_session_queue(&mut self, session: &str)
        ensures
            final(self)@ == old(self)@.send_next_of(session@),
    {
        proof {
            reveal(AppV::send_next_of);
        }
        if self.is_live(session) {
            self.dispatch_next_queued();
            return;
        }
        let at = session::find_slot(&self.tabs.parked, session);
        if at < self.tabs.parked.len() {
            self.dispatch_parked(at);
        }
    }

    fn settle_live(&mut self, message_id: u64, deferred: bool) -> (r: bool)
        ensures
            r == has_steer(old(self)@.live.queue, message_id),
            final(self)@ == (if r {
                old(self)@.with_queue(
                    steer_settled(old(self)@.live.queue, message_id, deferred),
                )
            } else {
                old(self)@
            }),
    {
        proof {
            reveal(session::slot_view);
        }
        settle(&mut self.live.queue, message_id, deferred)
    }

    fn settle_parked(&mut self, at: usize, message_id: u64, deferred: bool) -> (r: u64)
        requires
            at < old(self)@.tabs.parked.len(),
            has_steer(old(self)@.tabs.parked[at as int].queue, message_id),
        ensures
            r == old(self)@.tabs.parked[at as int].chat.transcript,
            final(self)@ == old(self)@.with_parked(
                old(self)@.tabs.parked.update(
                    at as int,
                    SlotV {
                        queue: steer_settled(
                            old(self)@.tabs.parked[at as int].queue,
                            message_id,
                            deferred,
                        ),
                        ..old(self)@.tabs.parked[at as int]
                    },
                ),
            ),
    {
        let ghost a = self@;
        let transcript = settle_in_slot(&mut self.tabs.parked[at], message_id, deferred);
        assert(self@.tabs.parked =~= a.tabs.parked.update(
            at as int,
            SlotV {
                queue: steer_settled(a.tabs.parked[at as int].queue, message_id, deferred),
                ..a.tabs.parked[at as int]
            },
        ));
        transcript
    }

    /// Settles a prompt that was sent into a running turn. Its session may
    /// have been parked or closed in the meantime.
    pub(crate) fn settle_steer(&mut self, message_id: u64, deferred: bool)
        ensures
            final(self)@ == old(self)@.settling(message_id, deferred),
    {
        proof {
            reveal(AppV::settling);
        }
        let transcript = self.live_transcript();
        if self.settle_live(message_id, deferred) {
            if deferred {
                self.write(transcript, TranscriptOp::Hide { message_id });
                self.tell(
                    "agent deferred Send Now — queued after the active turn",
                    "Agent 暂缓了立即发送 —— 已排在当前轮次之后",
                );
            }
            return;
        }
        let at = find_steering(&self.tabs.parked, message_id);
        proof {
            seqs::lemma_first_index(self@.tabs.parked, steering(message_id));
        }
        if at < self.tabs.parked.len() {
            let parked_transcript = self.settle_parked(at, message_id, deferred);
            if deferred {
                self.write(parked_transcript, TranscriptOp::Hide { message_id });
            }
        }
    }

    pub(crate) fn steer_with(&mut self, message_id: u64, blocks: &Vec<StagedBlock>, front: bool)
        ensures
            final(self)@ == old(self)@.steering_with(
                message_id,
                draft::blocks_view(blocks@),
                front,
            ),
    {
        proof {
            reveal(session::slot_view);
            reveal(AppV::steering_with);
        }
        let transcript = self.live_transcript();
        self.echo_staged_blocks(blocks);
        self.write(transcript, TranscriptOp::Mark { message_id, count: blocks.len() });
        add_steer(
            &mut self.live.queue,
            PendingSteer { message_id, blocks: draft::copy_blocks(blocks), requeue_front: front },
        );
    }
}

} // verus!
