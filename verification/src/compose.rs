//! From the draft to a prompt, and from the queue back to the draft.

use crate::app::{self, App, AppV, CountsV, MenuV, PendingShell, Pointer};
use crate::bus::Cmd;
use crate::draft::{self, Attachment, AttachmentV, BlockV, StagedBlock};
use crate::effect::{self, Effect, Locale, TranscriptOp};
use crate::queue::{self};
use crate::seqs;
use crate::session::{self, ClientQueuedPrompt, QueueEditState, QueueV, QueuedV, RunState};
use crate::tabs;
use crate::text;
use vstd::prelude::*;

verus! {

/// The prompts with this number.
pub open spec fn prompt_numbered(id: u64) -> spec_fn(QueuedV) -> bool {
    |p: QueuedV| p.id == id
}

pub(crate) fn find_prompt(v: &Vec<ClientQueuedPrompt>, id: u64) -> (r: usize)
    ensures
        r == seqs::first_index(session::queue_view(v@), prompt_numbered(id)),
        r <= v@.len(),
{
    let ghost all = session::queue_view(v@);
    let mut i: usize = 0;
    while i < v.len() && v[i].id != id
        invariant
            i <= v@.len(),
            all == session::queue_view(v@),
            forall|k: int| 0 <= k < i ==> !prompt_numbered(id)(#[trigger] all[k]),
        decreases v@.len() - i,
    {
        assert(all[i as int] == v@[i as int]@);
        i = i + 1;
    }
    proof {
        seqs::lemma_first_index_is(all, prompt_numbered(id), i as int);
    }
    i
}

/// A queued prompt as a draft again: its text with chips, and the images that
/// found room.
pub open spec fn as_draft(blocks: Seq<BlockV>, images: Seq<AttachmentV>, limit: nat) -> (
    Seq<char>,
    Seq<AttachmentV>,
)
    decreases blocks.len(),
{
    if blocks.len() == 0 {
        (Seq::empty(), images)
    } else {
        let (t, kept) = as_draft(blocks.drop_last(), images, limit);
        match blocks.last() {
            StagedBlock::Text(more) => (t + more, kept),
            StagedBlock::Image(a) => if kept.len() < limit {
                (t + a.token, kept.push(a))
            } else {
                (t, kept)
            },
        }
    }
}

fn restore_draft(blocks: &Vec<StagedBlock>, images: &mut Vec<Attachment>, limit: usize) -> (r:
    String)
    ensures
        (r@, draft::attachments_view(final(images)@)) == as_draft(
            draft::blocks_view(blocks@),
            draft::attachments_view(old(images)@),
            limit as nat,
        ),
{
    let ghost all = draft::blocks_view(blocks@);
    let ghost start = draft::attachments_view(images@);
    let mut t = text::empty();
    let mut i: usize = 0;
    assert(all.take(0) =~= Seq::empty());
    while i < blocks.len()
        invariant
            i <= blocks@.len(),
            all == draft::blocks_view(blocks@),
            (t@, draft::attachments_view(images@)) == as_draft(
                all.take(i as int),
                start,
                limit as nat,
            ),
        decreases blocks@.len() - i,
    {
        assert(all.take(i as int + 1).drop_last() =~= all.take(i as int));
        assert(all.take(i as int + 1).last() == blocks@[i as int]@);
        let ghost kept = draft::attachments_view(images@);
        match &blocks[i] {
            StagedBlock::Text(more) => {
                text::push_str(&mut t, more.as_str());
            },
            StagedBlock::Image(a) => {
                if images.len() < limit {
                    text::push_str(&mut t, a.token.as_str());
                    images.push(a.clone());
                    assert(draft::attachments_view(images@) =~= kept.push(a@));
                }
            },
        }
        i = i + 1;
    }
    assert(all.take(i as int) =~= all);
    t
}

/// The note on images under way.
pub open spec fn sending_images(l: Locale, n: nat) -> Seq<char> {
    if n <= 1 {
        effect::spoken(l, "sending image"@, "正在发送图片"@)
    } else {
        app::said1(
            l,
            ("sending "@, " images"@),
            ("正在发送 "@, " 张图片"@),
            text::decimal(n),
        )
    }
}

fn say_sending_images(l: Locale, n: usize) -> (r: String)
    ensures
        r@ == sending_images(l, n as nat),
{
    if n <= 1 {
        effect::tr(l, "sending image", "正在发送图片").to_owned()
    } else {
        let count = text::count_string(n);
        app::say1(l, ("sending ", " images"), ("正在发送 ", " 张图片"), count.as_str())
    }
}

/// The remark on images that wait.
pub open spec fn queued_images(l: Locale, n: nat) -> Seq<char> {
    if n <= 1 {
        effect::spoken(
            l,
            "image queued · empty enter sends first"@,
            "图片已排队 · 空输入按 enter 发送队首"@,
        )
    } else {
        app::said1(
            l,
            (""@, " images queued · empty enter sends first"@),
            (""@, " 张图片已排队 · 空输入按 enter 发送队首"@),
            text::decimal(n),
        )
    }
}

fn say_queued_images(l: Locale, n: usize) -> (r: String)
    ensures
        r@ == queued_images(l, n as nat),
{
    if n <= 1 {
        effect::tr(
            l,
            "image queued · empty enter sends first",
            "图片已排队 · 空输入按 enter 发送队首",
        ).to_owned()
    } else {
        let count = text::count_string(n);
        app::say1(
            l,
            ("", " images queued · empty enter sends first"),
            ("", " 张图片已排队 · 空输入按 enter 发送队首"),
            count.as_str(),
        )
    }
}

/// Whether a draft is meant for the client itself.
pub open spec fn for_client(t: Seq<char>) -> bool {
    text::has_prefix(t, "/"@) || text::has_prefix(t, "!"@)
}

pub(crate) fn is_for_client(t: &str) -> (r: bool)
    ensures
        r == for_client(t@),
{
    text::starts_with(t, "/") || text::starts_with(t, "!")
}

impl AppV {
    pub open spec fn dismissing(self, dismissed: bool) -> AppV {
        AppV { menu: MenuV { slash_dismissed: dismissed, ..self.menu }, ..self }
    }

    pub open spec fn without_input_sel(self) -> AppV {
        self.with_pointer(Pointer { input_sel: None, ..self.pointer })
    }

    /// What the draft is sent as.
    pub open spec fn staged(self) -> Seq<BlockV> {
        draft::blocks_of(
            self.live.draft.input.buf,
            self.live.draft.images.filter(queue::standing_in(self.live.draft.input.buf)),
        )
    }

    /// The images have left the draft.
    #[verifier::opaque]
    pub open spec fn unstaged(self) -> AppV {
        self.reconciled_images().with_images(Seq::empty())
    }

    pub open spec fn tell_no_images(self) -> AppV {
        self.tell(
            "send or delete the [image] chips first — /commands and !shell don't take images"@,
            "先发送或删除 [image] 标记 —— /命令 和 !shell 不接受图片"@,
        )
    }

    pub open spec fn tell_left_queue(self) -> AppV {
        self.tell("queued prompt already left the queue"@, "这条消息已离开队列"@)
    }

    /// The head of the queue is sent at once, into the turn if one runs.
    #[verifier::opaque]
    pub open spec fn send_head_now(self) -> AppV {
        if !self.live.bound {
            self.tell("session still binding — prompt stays queued"@, "会话仍在绑定中 —— 消息保留在队列里"@)
        } else if self.live.draft.input.buf.len() > 0 || self.live.draft.images.len() > 0
            || queue::held(self.live.queue) || self.live.queue.prompts.len() == 0 {
            self
        } else {
            let p = self.live.queue.prompts[0];
            let a = self.with_queue(
                queue::without_head(self.live.queue),
            ).banner_off().scrolled_to(0);
            if self.state == RunState::Running || self.live.run.pending {
                a.head_steered(p)
            } else {
                a.head_prompted(p)
            }
        }
    }

    /// A prompt taken off the queue goes into the turn.
    #[verifier::opaque]
    pub open spec fn head_steered(self, p: QueuedV) -> AppV {
        self.steering_with(p.id, p.blocks, true).tell(
            "queue head sent now — lands at the next agent step"@,
            "队首已立即发送 —— 在下一步 Agent 处生效"@,
        ).send(queue::steer_cmd(self.live.id, p.id, p.blocks))
    }

    /// A prompt taken off the queue starts a turn.
    #[verifier::opaque]
    pub open spec fn head_prompted(self, p: QueuedV) -> AppV {
        self.echoing(p.blocks).starting(self.queued_note()).send(
            queue::prompt_cmd(self.live.id, p.blocks),
        )
    }

    #[verifier::opaque]
    pub open spec fn browse_queue(self) -> AppV {
        if queue::held(self.live.queue) {
            self
        } else if self.live.draft.input.buf.len() > 0 {
            self.tell(
                "send or clear the current draft before editing the queue"@,
                "编辑队列前请先发送或清空当前草稿"@,
            )
        } else if self.live.queue.prompts.len() == 0 {
            self.tell("no queued prompt to edit"@, "没有可编辑的排队消息"@)
        } else {
            self.with_queue(
                QueueV {
                    selection: Some((self.live.queue.prompts.len() - 1) as usize),
                    ..self.live.queue
                },
            ).dismissing(true).tell(
                "select queued prompt · ↑/↓ choose · enter edit · esc close"@,
                "选择排队消息 · ↑/↓ 选择 · enter 编辑 · esc 关闭"@,
            )
        }
    }

    #[verifier::opaque]
    pub open spec fn selecting_prompt(self, selection: Option<usize>) -> AppV {
        self.with_queue(QueueV { selection, ..self.live.queue })
    }

    /// A queued prompt is taken into the draft for editing.
    #[verifier::opaque]
    pub open spec fn edit_prompt(self, index: int) -> AppV {
        if index >= self.live.queue.prompts.len() {
            self.selecting_prompt(None).tell_left_queue()
        } else {
            self.with_prompt_in_draft(index).dismissing(false).tip(
                app::said1(
                    self.base.locale,
                    ("editing queued prompt "@, " · enter save · ctrl+d delete · esc cancel"@),
                    ("编辑排队消息 "@, " · enter 保存 · ctrl+d 删除 · esc 取消"@),
                    text::decimal((index + 1) as nat),
                ),
            )
        }
    }

    #[verifier::opaque]
    pub open spec fn with_prompt_in_draft(self, index: int) -> AppV {
        let p = self.live.queue.prompts[index];
        let (t, images) = as_draft(
            p.blocks,
            self.live.draft.images,
            self.base.image_limit as nat,
        );
        self.with_queue(
            QueueV {
                selection: None,
                edit: Some(QueueEditState { prompt_id: p.id, delete_confirm: false }),
                ..self.live.queue
            },
        ).with_images(images).with_input(self.live.draft.input.with_text(t))
    }

    /// The edit of a queued prompt is over.
    pub open spec fn edit_over(self) -> AppV {
        self.with_queue(QueueV { edit: None, ..self.live.queue }).with_input(
            self.live.draft.input.cleared(),
        )
    }

    /// What follows once an edited prompt is back in the queue or gone.
    #[verifier::opaque]
    pub open spec fn edit_done(self, en: (Seq<char>, Seq<char>), zh: (Seq<char>, Seq<char>), index: int) -> AppV {
        let a = self.edit_over().dismissing(false).reconciled_images().tip(
            app::said1(self.base.locale, en, zh, text::decimal((index + 1) as nat)),
        );
        if self.state == RunState::Idle {
            a.send_next()
        } else {
            a
        }
    }

    /// The draft takes the place of the prompt that is edited.
    #[verifier::opaque]
    pub open spec fn save_edit(self) -> AppV {
        match self.live.queue.edit {
            None => self,
            Some(edit) => {
                let raw = text::trimmed(self.live.draft.input.buf);
                if edit.delete_confirm {
                    self.delete_edit()
                } else if raw.len() == 0 && self.live.draft.images.len() == 0 {
                    self.tell("queued prompt cannot be empty · ctrl+d deletes it"@, "排队消息不能为空 · ctrl+d 可删除"@)
                } else if self.live.draft.images.len() == 0 {
                    self.save_blocks(edit.prompt_id, seq![StagedBlock::Text(raw)])
                } else {
                    self.unstaged().save_blocks(edit.prompt_id, self.staged())
                }
            },
        }
    }

    #[verifier::opaque]
    pub open spec fn save_blocks(self, id: u64, blocks: Seq<BlockV>) -> AppV {
        let at = seqs::first_index(self.live.queue.prompts, prompt_numbered(id));
        if at >= self.live.queue.prompts.len() {
            self.edit_over().tell_left_queue()
        } else {
            self.with_queue(
                QueueV {
                    prompts: self.live.queue.prompts.update(
                        at,
                        ClientQueuedPrompt { blocks, ..self.live.queue.prompts[at] },
                    ),
                    ..self.live.queue
                },
            ).edit_done(("queued prompt "@, " updated"@), ("排队消息 "@, " 已更新"@), at)
        }
    }

    /// The prompt that is edited leaves the queue.
    #[verifier::opaque]
    pub open spec fn delete_edit(self) -> AppV {
        match self.live.queue.edit {
            None => self,
            Some(edit) => {
                let at = seqs::first_index(
                    self.live.queue.prompts,
                    prompt_numbered(edit.prompt_id),
                );
                if at >= self.live.queue.prompts.len() {
                    self.edit_over().tell_left_queue()
                } else {
                    self.with_queue(
                        QueueV {
                            prompts: self.live.queue.prompts.remove(at),
                            ..self.live.queue
                        },
                    ).edit_done(("queued prompt "@, " deleted"@), ("排队消息 "@, " 已删除"@), at)
                }
            },
        }
    }

    /// Blocks with images among them go out, into the turn `steer` if there is
    /// one.
    #[verifier::opaque]
    pub open spec fn emit_staged(self, blocks: Seq<BlockV>, steer: Option<u64>) -> AppV {
        match steer {
            Some(message_id) => self.banner_off().steering_with(
                message_id,
                blocks,
                false,
            ).scrolled_to(0).send(
                Cmd::SteerImages {
                    session_id: self.live.id,
                    message_id,
                    blocks: draft::prompt_blocks(blocks),
                },
            ),
            None => self.banner_off().echoing(blocks).scrolled_to(0).send(
                Cmd::PromptImages {
                    session_id: self.live.id,
                    blocks: draft::prompt_blocks(blocks),
                },
            ),
        }
    }

    /// A draft with images is sent, or queued behind what is before it.
    #[verifier::opaque]
    pub open spec fn send_blocks(self, blocks: Seq<BlockV>) -> AppV {
        let n = draft::image_count(blocks);
        if blocks.len() == 0 {
            self
        } else if self.occupied() || !self.live.bound {
            self.queueing(blocks).tip(queued_images(self.base.locale, n)).scrolled_to(0)
        } else {
            self.starting(sending_images(self.base.locale, n)).emit_staged(blocks, None)
        }
    }

    /// The draft goes out at once; into the turn, if one runs.
    #[verifier::opaque]
    pub open spec fn send_draft_now(self) -> AppV {
        let raw = text::trimmed(self.live.draft.input.buf);
        if self.live.draft.images.len() > 0 && for_client(raw) {
            self.tell_no_images()
        } else if self.live.draft.images.len() == 0 {
            if raw.len() == 0 {
                self
            } else {
                self.send_now_blocks(seq![StagedBlock::Text(raw)])
            }
        } else if self.staged().len() == 0 {
            self.unstaged()
        } else {
            self.unstaged().send_now_blocks(self.staged())
        }
    }

    #[verifier::opaque]
    pub open spec fn send_now_blocks(self, blocks: Seq<BlockV>) -> AppV {
        let a = self.put_away(self.live.draft.input.buf).banner_off();
        if !self.live.bound {
            a.held_back(blocks)
        } else if draft::image_count(blocks) > 0 {
            a.send_now_images(blocks, self.occupied())
        } else {
            match blocks[0] {
                StagedBlock::Text(t) => a.send_now_text(t, self.occupied()),
                StagedBlock::Image(_) => a,
            }
        }
    }

    /// What was to go out at once waits in the queue until the session is
    /// bound.
    #[verifier::opaque]
    pub open spec fn held_back(self, blocks: Seq<BlockV>) -> AppV {
        let n = draft::image_count(blocks);
        self.queueing(blocks).tip(
            if n > 0 {
                queued_images(self.base.locale, n)
            } else {
                self.queued_text()
            },
        ).scrolled_to(0)
    }

    pub open spec fn queued_text(self) -> Seq<char> {
        self.says(
            "queued · empty enter sends first · alt+↑ edit"@,
            "已排队 · 空输入按 enter 发送队首 · alt+↑ 编辑"@,
        )
    }

    #[verifier::opaque]
    pub open spec fn send_now_images(self, blocks: Seq<BlockV>, running: bool) -> AppV {
        if running {
            self.tell(
                "steered with image — lands at the next agent step"@,
                "已带图 steer —— 在下一步 Agent 处生效"@,
            ).numbered().emit_staged(blocks, Some(self.counts.next_prompt))
        } else {
            self.starting(sending_images(self.base.locale, draft::image_count(blocks))).emit_staged(
                blocks,
                None,
            )
        }
    }

    #[verifier::opaque]
    pub open spec fn send_now_text(self, t: Seq<char>, running: bool) -> AppV {
        if running {
            self.steer_text(t)
        } else {
            self.prompt_text(t)
        }
    }

    /// A text goes into the turn.
    #[verifier::opaque]
    pub open spec fn steer_text(self, t: Seq<char>) -> AppV {
        let id = self.counts.next_prompt;
        self.tell(
            "steered — lands at the next agent step"@,
            "已 steer —— 在下一步 Agent 处生效"@,
        ).numbered().steering_with(id, seq![StagedBlock::Text(t)], false).scrolled_to(0).send(
            Cmd::Steer { session_id: self.live.id, message_id: id, text: t },
        )
    }

    /// A text starts a turn.
    #[verifier::opaque]
    pub open spec fn prompt_text(self, t: Seq<char>) -> AppV {
        self.echoing(seq![StagedBlock::Text(t)]).starting(self.live.run.note).scrolled_to(0).send(
            Cmd::Prompt { session_id: self.live.id, text: t },
        )
    }

    /// A command runs in the local shell; its session is remembered.
    #[verifier::opaque]
    pub open spec fn run_shell(self, command: Seq<char>) -> AppV {
        let id = tabs::next_number(self.counts.shells);
        AppV {
            counts: CountsV {
                shells: id,
                pending_shells: self.counts.pending_shells.push(
                    PendingShell { id, session: self.live.id },
                ),
                ..self.counts
            },
            ..self
        }.write(
            self.live.chat.transcript,
            TranscriptOp::ShellStarted { id, command },
        ).emit(Effect::RunShell { id, command })
    }
}

impl App {
    pub(crate) fn dismiss_slash(&mut self, dismissed: bool)
        ensures
            final(self)@ == old(self)@.dismissing(dismissed),
    {
        self.menu.slash_dismissed = dismissed;
    }

    pub(crate) fn clear_input_sel(&mut self)
        ensures
            final(self)@ == old(self)@.without_input_sel(),
    {
        self.pointer.input_sel = None;
    }

    pub(crate) fn take_staged_blocks(&mut self) -> (r: Vec<StagedBlock>)
        ensures
            draft::blocks_view(r@) == old(self)@.staged(),
            final(self)@ == old(self)@.unstaged(),
    {
        proof {
            reveal(session::slot_view);
            reveal(AppV::unstaged);
            reveal(AppV::reconciled_images);
        }
        self.reconcile_attachments();
        let buf = self.draft_text();
        let blocks = draft::split_draft_into_staged_blocks(
            buf.as_str(),
            &self.live.draft.images,
        );
        self.live.draft.images = Vec::new();
        assert(draft::attachments_view(self.live.draft.images@) =~= Seq::<AttachmentV>::empty());
        blocks
    }

    /// Sends the head of the queue now. If the agent cannot take it up, it goes
    /// back to the front.
    pub(crate) fn send_queue_head_now(&mut self)
        ensures
            final(self)@ == old(self)@.send_head_now(),
    {
        proof {
            reveal(AppV::send_head_now);
        }
        if !self.is_bound() {
            self.tell("session still binding — prompt stays queued", "会话仍在绑定中 —— 消息保留在队列里");
            return;
        }
        if !self.draft_is_empty() || self.image_count() > 0 || self.queue_held() || self.queue_len()
            == 0 {
            return;
        }
        let running = matches!(self.state, RunState::Running) || self.is_pending();
        let p = self.take_queue_head();
        self.hide_banner();
        self.scroll_to(0);
        if running {
            self.steer_head(&p);
        } else {
            self.prompt_head(&p);
        }
    }

    fn steer_head(&mut self, p: &ClientQueuedPrompt)
        ensures
            final(self)@ == old(self)@.head_steered(p@),
    {
        proof {
            reveal(AppV::head_steered);
        }
        let session_id = self.session_id();
        self.steer_with(p.id, &p.blocks, true);
        self.tell(
            "queue head sent now — lands at the next agent step",
            "队首已立即发送 —— 在下一步 Agent 处生效",
        );
        self.send(queue::make_steer(session_id, p.id, &p.blocks));
    }

    fn prompt_head(&mut self, p: &ClientQueuedPrompt)
        ensures
            final(self)@ == old(self)@.head_prompted(p@),
    {
        proof {
            reveal(AppV::head_prompted);
        }
        let session_id = self.session_id();
        let note = self.say("sending queued followup", "正在发送排队消息");
        self.echo_staged_blocks(&p.blocks);
        self.begin_turn(note);
        self.send(queue::make_prompt(session_id, &p.blocks));
    }

    pub(crate) fn select_prompt(&mut self, selection: Option<usize>)
        ensures
            final(self)@ == old(self)@.selecting_prompt(selection),
    {
        proof {
            reveal(session::slot_view);
            reveal(AppV::selecting_prompt);
        }
        self.live.queue.selection = selection;
    }

    pub(crate) fn open_queue_selector(&mut self)
        ensures
            final(self)@ == old(self)@.browse_queue(),
    {
        proof {
            reveal(AppV::browse_queue);
            reveal(AppV::selecting_prompt);
        }
        if self.queue_held() {
            return;
        }
        if !self.draft_is_empty() {
            self.tell(
                "send or clear the current draft before editing the queue",
                "编辑队列前请先发送或清空当前草稿",
            );
            return;
        }
        let n: usize = self.queue_len();
        if n == 0 {
            self.tell("no queued prompt to edit", "没有可编辑的排队消息");
            return;
        }
        self.select_prompt(Some(n - 1));
        self.dismiss_slash(true);
        self.tell(
            "select queued prompt · ↑/↓ choose · enter edit · esc close",
            "选择排队消息 · ↑/↓ 选择 · enter 编辑 · esc 关闭",
        );
    }

    fn prompt_to_draft(&mut self, index: usize)
        requires
            index < old(self)@.live.queue.prompts.len(),
        ensures
            final(self)@ == old(self)@.with_prompt_in_draft(index as int),
    {
        proof {
            reveal(session::slot_view);
            reveal(AppV::with_prompt_in_draft);
        }
        assert(self@.live.queue.prompts[index as int]
            == self.live.queue.prompts@[index as int]@);
        let id: u64 = self.live.queue.prompts[index].id;
        let limit: usize = self.base.image_limit;
        let t = restore_draft(
            &self.live.queue.prompts[index].blocks,
            &mut self.live.draft.images,
            limit,
        );
        self.live.queue.selection = None;
        self.live.queue.edit = Some(QueueEditState { prompt_id: id, delete_confirm: false });
        self.live.draft.input.set(t);
    }

    pub(crate) fn begin_queue_edit_at(&mut self, index: usize)
        ensures
            final(self)@ == old(self)@.edit_prompt(index as int),
    {
        proof {
            reveal(AppV::edit_prompt);
        }
        if index >= self.queue_len() {
            self.select_prompt(None);
            self.tell("queued prompt already left the queue", "这条消息已离开队列");
            return;
        }
        let n = text::ordinal_string(index);
        let t = app::say1(
            self.base.locale,
            ("editing queued prompt ", " · enter save · ctrl+d delete · esc cancel"),
            ("编辑排队消息 ", " · enter 保存 · ctrl+d 删除 · esc 取消"),
            n.as_str(),
        );
        self.prompt_to_draft(index);
        self.dismiss_slash(false);
        self.show_tip(t);
    }

    pub(crate) fn end_edit(&mut self)
        ensures
            final(self)@ == old(self)@.edit_over(),
    {
        proof {
            reveal(session::slot_view);
        }
        self.live.queue.edit = None;
        self.live.draft.input.clear();
    }

    fn finish_edit(&mut self, en: (&str, &str), zh: (&str, &str), index: usize)
        ensures
            final(self)@ == old(self)@.edit_done(
                (en.0@, en.1@),
                (zh.0@, zh.1@),
                index as int,
            ),
    {
        proof {
            reveal(AppV::edit_done);
        }
        let n = text::ordinal_string(index);
        let t = app::say1(self.base.locale, en, zh, n.as_str());
        let idle = matches!(self.state, RunState::Idle);
        self.end_edit();
        self.dismiss_slash(false);
        self.reconcile_attachments();
        self.show_tip(t);
        if idle {
            self.dispatch_next_queued();
        }
    }

    fn queue_edit(&self) -> (r: Option<QueueEditState>)
        ensures
            r == self@.live.queue.edit,
    {
        proof {
            reveal(session::slot_view);
        }
        self.live.queue.edit
    }

    fn prompt_index(&self, id: u64) -> (r: usize)
        ensures
            r == seqs::first_index(self@.live.queue.prompts, prompt_numbered(id)),
    {
        proof {
            reveal(session::slot_view);
        }
        find_prompt(&self.live.queue.prompts, id)
    }

    fn replace_prompt(&mut self, at: usize, blocks: Vec<StagedBlock>)
        requires
            at < old(self)@.live.queue.prompts.len(),
        ensures
            final(self)@ == old(self)@.with_queue(
                QueueV {
                    prompts: old(self)@.live.queue.prompts.update(
                        at as int,
                        ClientQueuedPrompt {
                            blocks: draft::blocks_view(blocks@),
                            ..old(self)@.live.queue.prompts[at as int]
                        },
                    ),
                    ..old(self)@.live.queue
                },
            ),
    {
        proof {
            reveal(session::slot_view);
        }
        let ghost before = self@.live.queue.prompts;
        let ghost new = draft::blocks_view(blocks@);
        self.live.queue.prompts[at].blocks = blocks;
        assert(self@.live.queue.prompts =~= before.update(
            at as int,
            ClientQueuedPrompt { blocks: new, ..before[at as int] },
        ));
    }

    fn remove_prompt(&mut self, at: usize)
        requires
            at < old(self)@.live.queue.prompts.len(),
        ensures
            final(self)@ == old(self)@.with_queue(
                QueueV {
                    prompts: old(self)@.live.queue.prompts.remove(at as int),
                    ..old(self)@.live.queue
                },
            ),
    {
        proof {
            reveal(session::slot_view);
        }
        let ghost before = self@.live.queue.prompts;
        self.live.queue.prompts.remove(at);
        assert(self@.live.queue.prompts =~= before.remove(at as int));
    }

    fn save_prompt(&mut self, id: u64, blocks: Vec<StagedBlock>)
        ensures
            final(self)@ == old(self)@.save_blocks(id, draft::blocks_view(blocks@)),
    {
        proof {
            reveal(AppV::save_blocks);
        }
        let at = self.prompt_index(id);
        if at >= self.queue_len() {
            self.end_edit();
            self.tell("queued prompt already left the queue", "这条消息已离开队列");
            return;
        }
        self.replace_prompt(at, blocks);
        self.finish_edit(("queued prompt ", " updated"), ("排队消息 ", " 已更新"), at);
    }

    pub(crate) fn save_queue_edit(&mut self)
        ensures
            final(self)@ == old(self)@.save_edit(),
    {
        proof {
            reveal(AppV::save_edit);
        }
        if let Some(edit) = self.queue_edit() {
            if edit.delete_confirm {
                self.delete_queue_edit();
                return;
            }
            let buf = self.draft_text();
            let raw = text::trim(buf.as_str());
            let no_images = self.image_count() == 0;
            if raw.as_str().is_empty() && no_images {
                self.tell("queued prompt cannot be empty · ctrl+d deletes it", "排队消息不能为空 · ctrl+d 可删除");
            } else if no_images {
                self.save_prompt(edit.prompt_id, queue::single(raw));
            } else {
                let blocks = self.take_staged_blocks();
                self.save_prompt(edit.prompt_id, blocks);
            }
        }
    }

    pub(crate) fn delete_queue_edit(&mut self)
        ensures
            final(self)@ == old(self)@.delete_edit(),
    {
        proof {
            reveal(AppV::delete_edit);
        }
        if let Some(edit) = self.queue_edit() {
            let at = self.prompt_index(edit.prompt_id);
            if at >= self.queue_len() {
                self.end_edit();
                self.tell("queued prompt already left the queue", "这条消息已离开队列");
                return;
            }
            self.remove_prompt(at);
            self.finish_edit(("queued prompt ", " deleted"), ("排队消息 ", " 已删除"), at);
        }
    }

    fn emit_staged_prompt(&mut self, blocks: &Vec<StagedBlock>, steer: Option<u64>)
        ensures
            final(self)@ == old(self)@.emit_staged(draft::blocks_view(blocks@), steer),
    {
        proof {
            reveal(AppV::emit_staged);
        }
        let session_id = self.session_id();
        let parts = draft::prompt_blocks_from_staged(blocks);
        self.hide_banner();
        match steer {
            Some(message_id) => {
                self.steer_with(message_id, blocks, false);
                self.scroll_to(0);
                self.send(Cmd::SteerImages { session_id, message_id, blocks: parts });
            },
            None => {
                self.echo_staged_blocks(blocks);
                self.scroll_to(0);
                self.send(Cmd::PromptImages { session_id, blocks: parts });
            },
        }
    }

    pub(crate) fn send_staged(&mut self, blocks: Vec<StagedBlock>)
        ensures
            final(self)@ == old(self)@.send_blocks(draft::blocks_view(blocks@)),
    {
        proof {
            reveal(AppV::send_blocks);
        }
        if blocks.len() == 0 {
            return;
        }
        let n = draft::count_images(&blocks);
        let locale = self.base.locale;
        if self.is_occupied() || !self.is_bound() {
            self.queue_prompt(blocks);
            self.show_tip(say_queued_images(locale, n));
            self.scroll_to(0);
        } else {
            self.begin_turn(say_sending_images(locale, n));
            self.emit_staged_prompt(&blocks, None);
        }
    }

    fn hold_back(&mut self, blocks: Vec<StagedBlock>)
        ensures
            final(self)@ == old(self)@.held_back(draft::blocks_view(blocks@)),
    {
        proof {
            reveal(AppV::held_back);
        }
        let n = draft::count_images(&blocks);
        let tip = if n > 0 {
            say_queued_images(self.base.locale, n)
        } else {
            self.say(
                "queued · empty enter sends first · alt+↑ edit",
                "已排队 · 空输入按 enter 发送队首 · alt+↑ 编辑",
            )
        };
        self.queue_prompt(blocks);
        self.show_tip(tip);
        self.scroll_to(0);
    }

    fn send_now_with_images(&mut self, blocks: &Vec<StagedBlock>, running: bool)
        ensures
            final(self)@ == old(self)@.send_now_images(draft::blocks_view(blocks@), running),
    {
        proof {
            reveal(AppV::send_now_images);
        }
        if running {
            let id: u64 = self.counts.next_prompt;
            self.tell(
                "steered with image — lands at the next agent step",
                "已带图 steer —— 在下一步 Agent 处生效",
            );
            self.next_prompt_id();
            self.emit_staged_prompt(blocks, Some(id));
        } else {
            let n = draft::count_images(blocks);
            self.begin_turn(say_sending_images(self.base.locale, n));
            self.emit_staged_prompt(blocks, None);
        }
    }

    fn send_now_as_text(&mut self, t: String, running: bool)
        ensures
            final(self)@ == old(self)@.send_now_text(t@, running),
    {
        proof {
            reveal(AppV::send_now_text);
        }
        if running {
            self.steer_with_text(t);
        } else {
            self.prompt_with_text(t);
        }
    }

    fn steer_with_text(&mut self, t: String)
        ensures
            final(self)@ == old(self)@.steer_text(t@),
    {
        proof {
            reveal(AppV::steer_text);
        }
        let session_id = self.session_id();
        let blocks = queue::single(t.clone());
        self.tell("steered — lands at the next agent step", "已 steer —— 在下一步 Agent 处生效");
        let id: u64 = self.next_prompt_id();
        self.steer_with(id, &blocks, false);
        self.scroll_to(0);
        self.send(Cmd::Steer { session_id, message_id: id, text: t });
    }

    fn prompt_with_text(&mut self, t: String)
        ensures
            final(self)@ == old(self)@.prompt_text(t@),
    {
        proof {
            reveal(AppV::prompt_text);
        }
        let session_id = self.session_id();
        let blocks = queue::single(t.clone());
        let note = self.run_note();
        self.echo_staged_blocks(&blocks);
        self.begin_turn(note);
        self.scroll_to(0);
        self.send(Cmd::Prompt { session_id, text: t });
    }

    pub(crate) fn run_note(&self) -> (r: String)
        ensures
            r@ == self@.live.run.note,
    {
        proof {
            reveal(session::slot_view);
        }
        self.live.run.note.clone()
    }

    fn send_blocks_now(&mut self, blocks: Vec<StagedBlock>)
        requires
            draft::blocks_view(blocks@).len() > 0,
        ensures
            final(self)@ == old(self)@.send_now_blocks(draft::blocks_view(blocks@)),
    {
        proof {
            reveal(AppV::send_now_blocks);
        }
        let running = self.is_occupied();
        let bound = self.is_bound();
        let buf = self.draft_text();
        self.put_draft_away(buf);
        self.hide_banner();
        if !bound {
            self.hold_back(blocks);
            return;
        }
        let n = draft::count_images(&blocks);
        if n > 0 {
            self.send_now_with_images(&blocks, running);
        } else {
            assert(draft::blocks_view(blocks@)[0] == blocks@[0]@);
            match &blocks[0] {
                StagedBlock::Text(t) => self.send_now_as_text(t.clone(), running),
                StagedBlock::Image(_) => {},
            }
        }
    }

    /// Sends the draft at once, into the running turn if there is one.
    pub(crate) fn send_now(&mut self)
        ensures
            final(self)@ == old(self)@.send_draft_now(),
    {
        proof {
            reveal(AppV::send_draft_now);
        }
        let buf = self.draft_text();
        let raw = text::trim(buf.as_str());
        if self.image_count() > 0 && is_for_client(raw.as_str()) {
            self.tell(
                "send or delete the [image] chips first — /commands and !shell don't take images",
                "先发送或删除 [image] 标记 —— /命令 和 !shell 不接受图片",
            );
        } else if self.image_count() == 0 {
            if !raw.as_str().is_empty() {
                self.send_blocks_now(queue::single(raw));
            }
        } else {
            let blocks = self.take_staged_blocks();
            if blocks.len() > 0 {
                self.send_blocks_now(blocks);
            }
        }
    }

    pub(crate) fn run_local_shell(&mut self, command: String)
        ensures
            final(self)@ == old(self)@.run_shell(command@),
    {
        proof {
            reveal(AppV::run_shell);
        }
        let id: u64 = if self.counts.shells == u64::MAX {
            0
        } else {
            self.counts.shells + 1
        };
        let session = self.session_id();
        let transcript = self.live_transcript();
        self.counts.shells = id;
        let ghost before = self@.counts.pending_shells;
        self.counts.pending_shells.push(PendingShell { id, session });
        assert(self@.counts.pending_shells =~= before.push(
            PendingShell { id, session: session@ },
        ));
        self.write(transcript, TranscriptOp::ShellStarted { id, command: command.clone() });
        self.emit(Effect::RunShell { id, command });
    }
}

} // verus!
