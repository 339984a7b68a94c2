//! What is told back once an effect has been carried out.

use crate::agents;
use crate::app::{self, App, AppV, Base, LocalSession, ResumeV};
use crate::bus::{self, Cmd};
use crate::draft::Attachment;
use crate::effect::{Effect, FileMenuOp, Locale, NoticeLevel, TranscriptOp};
use crate::info::{Figures, Stats, Usage};
use crate::json::{self, Json, JsonValue};
use crate::keys::KeyPress;
use crate::mouse::{MouseInput, PromptPlace};
use crate::plugins::PluginUpdate;
use crate::seqs;
use crate::session::{self, Chat, DraftV, Edit, ModelFacts, Modes, SessionSlot, SlotV};
use crate::text;
use vstd::prelude::*;

verus! {

/// One line of the log of a session, with the prompt that it holds, if it
/// holds one.
#[derive(Debug, PartialEq)]
pub struct LogLine {
    pub value: JsonValue,
    pub prompt: Option<String>,
}

/// The log of a session on this machine.
#[derive(Debug, PartialEq)]
pub struct Log {
    pub id: String,
    pub turns: u64,
    pub lines: Vec<LogLine>,
}

/// What is told back.
pub enum Reply {
    /// A key, with what the editors make of it.
    Key(KeyPress),
    /// The mouse, with where in the draft it points.
    Mouse(MouseInput),
    /// What a plugin told, decoded.
    Plugin(PluginUpdate),
    /// Where the prompts stand in a transcript of so many lines.
    Prompts { users: Vec<PromptPlace>, lines: usize },
    ToolToggled { expanded: bool },
    Copied { text: String, done: bool },
    Interrupted { done: bool },
    Image { image: Attachment, caption: String },
    ImageFailed { path: String, error: String },
    /// There was no image on the clipboard.
    NoImage,
    Branch(Option<String>),
    SignIn {
        method_id: String,
        chosen: Option<usize>,
        values: Vec<(String, String)>,
        complete: bool,
    },
    LogsForPicker { sessions: Vec<LocalSession>, via_agent: bool },
    LogsForResume { prefix: String, sessions: Vec<LocalSession> },
    LogsForRows(Vec<LocalSession>),
    Replay(Log),
    ReplayFailed { file: String, error: String },
    /// The token under the caret that names a file, if there is one.
    FileToken(Option<String>),
    FileMenuOpened { open: bool },
    /// An entry was put into the draft and the browser closed.
    FileSettled(Edit),
    /// A directory was put into the draft and the browser went on.
    FileDrilled(Edit),
    FileMenuDismissed { token: String },
    KeysListed(String),
    /// The catalog in which the host lists its models, where it has one.
    HostModels(Option<String>),
    /// What the session in view has used, and its figures as they are rounded.
    SessionCounted { usage: Usage, stats: Stats, figures: Figures },
    /// What a transcript has become.
    Transcript { id: u64, last_model: Option<String>, only_notices: bool },
    /// How the modal editor stands.
    Editor { vim: bool, normal: bool },
}

// --- logs ------------------------------------------------------------------------------

/// The first line of a log tells of the session itself.
pub open spec fn is_header(l: LogLine) -> bool {
    json::string_member(l.value@, "type"@) == Some("session"@)
}

/// How many lines of a log are replayed.
pub open spec fn replayed(lines: Seq<LogLine>) -> nat
    decreases lines.len(),
{
    if lines.len() == 0 {
        0
    } else {
        replayed(lines.drop_last()) + (if is_header(lines.last()) {
            0nat
        } else {
            1
        })
    }
}

/// A logged event as a notification.
pub open spec fn logged(id: Seq<char>, event: Json) -> Json {
    Json::Object(seq![("sessionId"@, Json::Str(id)), ("event"@, event)])
}

fn make_logged(id: &str, event: &JsonValue) -> (r: JsonValue)
    ensures
        r@ == logged(id@, event@),
{
    let mut o: Vec<(String, JsonValue)> = Vec::new();
    o.push(("sessionId".to_owned(), JsonValue::Str(id.to_owned())));
    o.push(("event".to_owned(), json::copy(event)));
    let r = JsonValue::Object(o);
    proof {
        reveal_with_fuel(json::json, 3);
    }
    assert(r@->Object_0 =~= seq![("sessionId"@, Json::Str(id@)), ("event"@, event@)]);
    r
}

pub open spec fn plural(n: u64) -> Seq<char> {
    if n == 1 {
        ""@
    } else {
        "s"@
    }
}

/// What is said after a log was replayed.
pub open spec fn resumed_text(l: Locale, id: Seq<char>, turns: u64, n: nat) -> Seq<char> {
    match l {
        Locale::En => "⟲ resumed "@ + id + " · "@ + text::decimal(turns as nat) + " turn"@
            + plural(turns) + " · "@ + text::decimal(n)
            + " events replayed — the next prompt continues it"@,
        Locale::Zh => "⟲ 已恢复 "@ + id + " · "@ + text::decimal(turns as nat)
            + " 轮对话 · 回放 "@ + text::decimal(n) + " 个事件 —— 下一条消息继续它"@,
    }
}

fn say_resumed(l: Locale, id: &str, turns: u64, n: usize) -> (r: String)
    ensures
        r@ == resumed_text(l, id@, turns, n as nat),
{
    let t = text::decimal_string(turns);
    let s = if turns == 1 {
        ""
    } else {
        "s"
    };
    match l {
        Locale::En => {
            let mut r = text::concat3("⟲ resumed ", id, " · ");
            text::push_str(&mut r, t.as_str());
            text::push_str(&mut r, " turn");
            text::push_str(&mut r, s);
            text::push_str(&mut r, " · ");
            text::push_str(&mut r, text::count_string(n).as_str());
            text::push_str(&mut r, " events replayed — the next prompt continues it");
            r
        },
        Locale::Zh => {
            let mut r = text::concat3("⟲ 已恢复 ", id, " · ");
            text::push_str(&mut r, t.as_str());
            text::push_str(&mut r, " 轮对话 · 回放 ");
            text::push_str(&mut r, text::count_string(n).as_str());
            text::push_str(&mut r, " 个事件 —— 下一条消息继续它");
            r
        },
    }
}

// --- transcripts -----------------------------------------------------------------------

/// A session with what its transcript has become.
pub open spec fn with_facts(s: SlotV, last: Option<Seq<char>>, only_notices: bool) -> SlotV {
    SlotV {
        models: ModelFacts { last, ..s.models },
        chat: Chat { only_notices, ..s.chat },
        ..s
    }
}

pub open spec fn writing_to(id: u64) -> spec_fn(SlotV) -> bool {
    |s: SlotV| s.chat.transcript == id
}

fn note_slot_facts(s: &mut SessionSlot, last: Option<String>, only_notices: bool)
    ensures
        final(s)@ == with_facts(old(s)@, text::opt_view(last), only_notices),
{
    proof {
        reveal(session::slot_view);
    }
    s.models.last = last;
    s.chat.only_notices = only_notices;
}

fn writes_to(s: &SessionSlot, id: u64) -> (r: bool)
    ensures
        r == (s@.chat.transcript == id),
{
    proof {
        reveal(session::slot_view);
    }
    s.chat.transcript == id
}

fn find_writer(v: &Vec<SessionSlot>, id: u64) -> (r: usize)
    ensures
        r == seqs::first_index(session::slots_view(v@), writing_to(id)),
        r <= v@.len(),
{
    let ghost all = session::slots_view(v@);
    let mut i: usize = 0;
    while i < v.len() && !writes_to(&v[i], id)
        invariant
            i <= v@.len(),
            all == session::slots_view(v@),
            forall|k: int| 0 <= k < i ==> !writing_to(id)(#[trigger] all[k]),
        decreases v@.len() - i,
    {
        assert(all[i as int] == v@[i as int]@);
        i = i + 1;
    }
    proof {
        if i < v@.len() {
            assert(all[i as int] == v@[i as int]@);
        }
        seqs::lemma_first_index_is(all, writing_to(id), i as int);
    }
    i
}

impl AppV {
    /// The running turn was interrupted, or there was nothing to interrupt.
    #[verifier::opaque]
    pub open spec fn interrupt_tried(self, done: bool) -> AppV {
        if done {
            self.send(Cmd::Interrupt { session_id: self.live.id }).noted(
                self.says("cancelling"@, "正在取消"@),
            )
        } else {
            self.tell("demo turn — it finishes on its own"@, "演示轮次 —— 会自动结束"@)
        }
    }

    pub open spec fn with_file_menu(self, open: bool, dismissed: Option<Seq<char>>) -> AppV {
        self.with_live(
            SlotV {
                draft: DraftV {
                    file_menu: open,
                    file_menu_dismissed: dismissed,
                    ..self.live.draft
                },
                ..self.live
            },
        )
    }

    /// A token that names a file was looked for under the caret. One on which
    /// the browser was dismissed does not open it again.
    #[verifier::opaque]
    pub open spec fn token_found(self, token: Option<Seq<char>>) -> AppV {
        match token {
            None => self.with_file_menu(false, None),
            Some(t) => if self.live.draft.file_menu {
                self.emit(Effect::FileMenu(FileMenuOp::Follow))
            } else if self.live.draft.file_menu_dismissed == Some(t) {
                self
            } else {
                self.with_file_menu(false, None).emit(Effect::FileMenu(FileMenuOp::Open))
            },
        }
    }

    #[verifier::opaque]
    pub open spec fn file_settled(self, e: Edit) -> AppV {
        self.edited(e).without_file_menu().without_input_sel().reconciled_images()
    }

    #[verifier::opaque]
    pub open spec fn transcript_noted(
        self,
        id: u64,
        last: Option<Seq<char>>,
        only_notices: bool,
    ) -> AppV {
        let at = seqs::first_index(self.tabs.parked, writing_to(id));
        if self.live.chat.transcript == id {
            self.with_live(with_facts(self.live, last, only_notices))
        } else if at < self.tabs.parked.len() {
            self.parked_at(at, with_facts(self.tabs.parked[at], last, only_notices))
        } else {
            self
        }
    }

    pub open spec fn editor_at(self, vim: bool, normal: bool) -> AppV {
        AppV { base: Base { vim, vim_normal: normal, ..self.base }, ..self }
    }

    pub open spec fn without_candidates(self) -> AppV {
        self.with_resume(ResumeV { candidates: Seq::empty(), ..self.resume })
    }

    #[verifier::opaque]
    pub open spec fn replay_failed(self, file: Seq<char>, error: Seq<char>) -> AppV {
        self.notice(
            NoticeLevel::Warn,
            app::said2(
                self.base.locale,
                ("cannot read "@, ": "@, ""@),
                ("无法读取 "@, "："@, ""@),
                file,
                error,
            ),
        )
    }

    /// The session in view before its own log is replayed into it.
    #[verifier::opaque]
    pub open spec fn emptied(self, id: Seq<char>) -> AppV {
        let t = self.live.chat.transcript;
        self.with_live(
            SlotV {
                agents: session::no_agents(),
                modes: session::no_modes(),
                queue: session::no_queue(),
                run: session::Run { pending: false, ..self.live.run },
                ..self.live
            },
        ).without_sel().write(t, TranscriptOp::Clear).write(t, TranscriptOp::RootSession(id))
    }

    /// One line of a log.
    #[verifier::opaque]
    pub open spec fn replay_line(self, id: Seq<char>, l: LogLine) -> AppV {
        if is_header(l) {
            self
        } else {
            match l.prompt {
                Some(t) => self.write(self.live.chat.transcript, TranscriptOp::User(t@)),
                None => self.rpc("session.event"@, logged(id, l.value@)).checked(self),
            }
        }
    }

    pub open spec fn replay_lines(self, id: Seq<char>, lines: Seq<LogLine>) -> AppV
        decreases lines.len(),
    {
        if lines.len() == 0 {
            self
        } else {
            self.replay_lines(id, lines.drop_last()).replay_line(id, lines.last())
        }
    }

    pub open spec fn unpicked(self) -> AppV {
        self.with_live(
            SlotV { models: ModelFacts { selected: None, ..self.live.models }, ..self.live },
        )
    }

    #[verifier::opaque]
    pub open spec fn filled(self, log: Log) -> AppV {
        let a = self.unpicked().banner_off().replay_lines(log.id@, log.lines@);
        a.idle().scrolled_to(0).without_candidates().notice(
            NoticeLevel::Info,
            resumed_text(a.base.locale, log.id@, log.turns, replayed(log.lines@)),
        ).redrawn()
    }

    /// The log of a session was read: it is replayed into a tab of its own,
    /// unless the session is open already.
    #[verifier::opaque]
    pub open spec fn replay(self, log: Log) -> AppV {
        if self.live.id == log.id@ {
            self.emptied(log.id@).filled(log)
        } else {
            match self.tab_of(log.id@) {
                Some(tab) => {
                    let a = self.view_tab(tab).without_candidates();
                    a.notice(
                        NoticeLevel::Info,
                        app::said1(
                            a.base.locale,
                            ("⟲ "@, " is already open — switched to its tab"@),
                            ("⟲ "@, " 已在打开的标签页中 —— 已切换过去"@),
                            log.id@,
                        ),
                    )
                },
                None => self.open_tab(log.id@, true).filled(log),
            }
        }
    }

    /// What is told back does this.
    #[verifier::opaque]
    pub open spec fn replied(self, r: Reply) -> AppV {
        match r {
            Reply::Key(k) => self.key_pressed(k),
            Reply::Mouse(m) => self.mouse(m),
            Reply::Plugin(u) => self.plugin_told(u),
            Reply::Prompts { users, lines } => self.located(users@, lines),
            Reply::ToolToggled { expanded } => self.tool_toggled(expanded),
            Reply::Copied { text, done } => self.copied(text@, done),
            Reply::Interrupted { done } => self.interrupt_tried(done),
            Reply::Image { image, caption } => self.stage(image@, caption@),
            Reply::ImageFailed { path, error } => self.image_failed(path@, error@),
            Reply::NoImage => self.tell(
                "clipboard has no image, or this platform isn't supported"@,
                "剪贴板没有图片，或当前平台不支持"@,
            ),
            Reply::Branch(b) => self.branch_found(text::opt_view(b)),
            Reply::SignIn { method_id, chosen, values, complete } => self.sign_in_with(
                method_id@,
                chosen,
                bus::pairs_view(values@),
                complete,
            ),
            Reply::LogsForPicker { sessions, via_agent } => self.logs_listed(
                app::locals_view(sessions@),
                via_agent,
            ),
            Reply::LogsForResume { prefix, sessions } => self.logs_found(
                prefix@,
                app::locals_view(sessions@),
            ),
            Reply::LogsForRows(locals) => self.rows_described(app::locals_view(locals@)),
            Reply::Replay(log) => self.replay(log),
            Reply::ReplayFailed { file, error } => self.replay_failed(file@, error@),
            Reply::FileToken(t) => self.token_found(text::opt_view(t)),
            Reply::FileMenuOpened { open } => self.with_file_menu(
                open,
                self.live.draft.file_menu_dismissed,
            ),
            Reply::FileSettled(e) => self.file_settled(e),
            Reply::FileDrilled(e) => self.edited(e),
            Reply::FileMenuDismissed { token } => self.with_file_menu(false, Some(token@)),
            Reply::KeysListed(t) => self.show_keys(t@),
            Reply::HostModels(raw) => self.hosted(text::opt_view(raw)),
            Reply::SessionCounted { usage, stats, figures } => self.show_session(
                usage,
                stats,
                figures@,
            ),
            Reply::Transcript { id, last_model, only_notices } => self.transcript_noted(
                id,
                text::opt_view(last_model),
                only_notices,
            ),
            Reply::Editor { vim, normal } => self.editor_at(vim, normal),
        }
    }

    /// One reply from beginning to end.
    #[verifier::opaque]
    pub open spec fn answered(self, r: Reply) -> AppV {
        self.replied(r).checked(self)
    }
}

impl App {
    fn hear_interrupt(&mut self, done: bool)
        ensures
            final(self)@ == old(self)@.interrupt_tried(done),
    {
        proof {
            reveal(AppV::interrupt_tried);
        }
        if done {
            let session_id = self.session_id();
            let note = self.say("cancelling", "正在取消");
            self.send(Cmd::Interrupt { session_id });
            self.set_note(note);
        } else {
            self.tell("demo turn — it finishes on its own", "演示轮次 —— 会自动结束");
        }
    }

    fn set_file_menu(&mut self, open: bool, dismissed: Option<String>)
        ensures
            final(self)@ == old(self)@.with_file_menu(open, text::opt_view(dismissed)),
    {
        proof {
            reveal(session::slot_view);
        }
        self.live.draft.file_menu = open;
        self.live.draft.file_menu_dismissed = dismissed;
    }

    fn file_menu_opened(&mut self, open: bool)
        ensures
            final(self)@ == old(self)@.with_file_menu(
                open,
                old(self)@.live.draft.file_menu_dismissed,
            ),
    {
        proof {
            reveal(session::slot_view);
        }
        self.live.draft.file_menu = open;
    }

    fn was_dismissed(&self, token: &str) -> (r: bool)
        ensures
            r == (self@.live.draft.file_menu_dismissed == Some(token@)),
    {
        proof {
            reveal(session::slot_view);
        }
        match &self.live.draft.file_menu_dismissed {
            Some(t) => text::same(t.as_str(), token),
            None => false,
        }
    }

    fn take_token(&mut self, token: Option<String>)
        ensures
            final(self)@ == old(self)@.token_found(text::opt_view(token)),
    {
        proof {
            reveal(AppV::token_found);
        }
        match token {
            None => self.set_file_menu(false, None),
            Some(t) => if self.is_browsing() {
                self.emit(Effect::FileMenu(FileMenuOp::Follow));
            } else if !self.was_dismissed(t.as_str()) {
                self.set_file_menu(false, None);
                self.emit(Effect::FileMenu(FileMenuOp::Open));
            },
        }
    }

    fn settle_file(&mut self, e: &Edit)
        ensures
            final(self)@ == old(self)@.file_settled(*e),
    {
        proof {
            reveal(AppV::file_settled);
        }
        self.accept_edit(e);
        self.close_file_menu();
        self.clear_input_sel();
        self.reconcile_attachments();
    }

    fn note_parked_facts(&mut self, at: usize, last: Option<String>, only_notices: bool)
        requires
            at < old(self)@.tabs.parked.len(),
        ensures
            final(self)@ == old(self)@.parked_at(
                at as int,
                with_facts(
                    old(self)@.tabs.parked[at as int],
                    text::opt_view(last),
                    only_notices,
                ),
            ),
    {
        let ghost before = self@.tabs.parked;
        assert(before[at as int] == self.tabs.parked@[at as int]@);
        let ghost to = with_facts(before[at as int], text::opt_view(last), only_notices);
        note_slot_facts(&mut self.tabs.parked[at], last, only_notices);
        assert(self@.tabs.parked =~= before.update(at as int, to));
    }

    fn note_transcript(&mut self, id: u64, last: Option<String>, only_notices: bool)
        ensures
            final(self)@ == old(self)@.transcript_noted(id, text::opt_view(last), only_notices),
    {
        proof {
            reveal(AppV::transcript_noted);
        }
        let at = find_writer(&self.tabs.parked, id);
        assert(self@.tabs.parked.len() == self.tabs.parked@.len());
        if self.live_transcript() == id {
            note_slot_facts(&mut self.live, last, only_notices);
        } else if at < self.tabs.parked.len() {
            self.note_parked_facts(at, last, only_notices);
        }
    }

    fn drop_candidates(&mut self)
        ensures
            final(self)@ == old(self)@.without_candidates(),
    {
        self.resume.candidates = Vec::new();
        assert(self@.resume.candidates =~= Seq::empty());
    }

    fn say_unreadable(&mut self, file: &str, error: &str)
        ensures
            final(self)@ == old(self)@.replay_failed(file@, error@),
    {
        proof {
            reveal(AppV::replay_failed);
        }
        let t = app::say2(
            self.base.locale,
            ("cannot read ", ": ", ""),
            ("无法读取 ", "：", ""),
            file,
            error,
        );
        self.notice(NoticeLevel::Warn, t);
    }

    fn blank_session(&mut self)
        ensures
            final(self)@ == old(self)@.with_live(
                SlotV {
                    agents: session::no_agents(),
                    modes: session::no_modes(),
                    queue: session::no_queue(),
                    run: session::Run { pending: false, ..old(self)@.live.run },
                    ..old(self)@.live
                },
            ),
    {
        proof {
            reveal(session::slot_view);
        }
        self.live.agents = session::Agents::empty();
        self.live.modes = Modes::default();
        self.live.queue = session::Queue::empty();
        self.live.run.pending = false;
    }

    fn empty_session(&mut self, id: &str)
        ensures
            final(self)@ == old(self)@.emptied(id@),
    {
        proof {
            reveal(AppV::emptied);
        }
        let t = self.live_transcript();
        self.blank_session();
        self.clear_chat_sel();
        self.write(t, TranscriptOp::Clear);
        self.write(t, TranscriptOp::RootSession(id.to_owned()));
    }

    fn hear_log(&mut self, id: &str, event: &JsonValue)
        ensures
            final(self)@ == old(self)@.rpc("session.event"@, logged(id@, event@)).checked(
                old(self)@,
            ),
    {
        let ghost before = self@;
        let b = self.mark();
        let params = make_logged(id, event);
        self.hear_rpc("session.event", &params);
        self.report(&b, Ghost(before));
    }

    /// Replays a line; tells whether it counts.
    fn hear_line(&mut self, id: &str, l: &LogLine) -> (r: bool)
        ensures
            final(self)@ == old(self)@.replay_line(id@, *l),
            r == !is_header(*l),
    {
        proof {
            reveal(AppV::replay_line);
        }
        if text::opt_is(json::get_str(&l.value, "type"), "session") {
            return false;
        }
        match &l.prompt {
            Some(t) => {
                let transcript = self.live_transcript();
                self.write(transcript, TranscriptOp::User(t.clone()));
            },
            None => self.hear_log(id, &l.value),
        }
        true
    }

    fn hear_lines(&mut self, id: &str, lines: &Vec<LogLine>) -> (r: usize)
        ensures
            final(self)@ == old(self)@.replay_lines(id@, lines@),
            r == replayed(lines@),
    {
        let ghost before = self@;
        let mut n: usize = 0;
        let mut i: usize = 0;
        assert(lines@.take(0) =~= Seq::empty());
        while i < lines.len()
            invariant
                i <= lines@.len(),
                n <= i,
                n == replayed(lines@.take(i as int)),
                self@ == before.replay_lines(id@, lines@.take(i as int)),
            decreases lines@.len() - i,
        {
            assert(lines@.take(i as int + 1).drop_last() =~= lines@.take(i as int));
            assert(lines@.take(i as int + 1).last() == lines@[i as int]);
            if self.hear_line(id, &lines[i]) {
                n = n + 1;
            }
            i = i + 1;
        }
        assert(lines@.take(i as int) =~= lines@);
        n
    }

    fn forget_picked_model(&mut self)
        ensures
            final(self)@ == old(self)@.unpicked(),
    {
        proof {
            reveal(session::slot_view);
        }
        self.live.models.selected = None;
    }

    fn fill_session(&mut self, log: &Log)
        ensures
            final(self)@ == old(self)@.filled(*log),
    {
        proof {
            reveal(AppV::filled);
        }
        self.forget_picked_model();
        self.hide_banner();
        let n = self.hear_lines(log.id.as_str(), &log.lines);
        let t = say_resumed(self.base.locale, log.id.as_str(), log.turns, n);
        self.end_turn();
        self.scroll_to(0);
        self.drop_candidates();
        self.notice(NoticeLevel::Info, t);
        self.redraw();
    }

    fn replay_log(&mut self, log: &Log)
        ensures
            final(self)@ == old(self)@.replay(*log),
    {
        proof {
            reveal(AppV::replay);
        }
        if self.is_live(log.id.as_str()) {
            self.empty_session(log.id.as_str());
            self.fill_session(log);
            return;
        }
        match self.tab_index_of(log.id.as_str()) {
            Some(tab) => {
                self.switch_view_to_tab(tab);
                self.drop_candidates();
                let t = app::say1(
                    self.base.locale,
                    ("⟲ ", " is already open — switched to its tab"),
                    ("⟲ ", " 已在打开的标签页中 —— 已切换过去"),
                    log.id.as_str(),
                );
                self.notice(NoticeLevel::Info, t);
            },
            None => {
                self.open_new_session(log.id.clone(), true);
                self.fill_session(log);
            },
        }
    }

    fn hear_reply(&mut self, r: Reply)
        ensures
            final(self)@ == old(self)@.replied(r),
    {
        proof {
            reveal(AppV::replied);
        }
        match r {
            Reply::Key(k) => self.handle_key(k),
            Reply::Mouse(m) => self.handle_mouse(m),
            Reply::Plugin(u) => self.hear_plugin(u),
            Reply::Prompts { users, lines } => self.jump_to_located(&users, lines),
            Reply::ToolToggled { expanded } => self.say_tool_toggled(expanded),
            Reply::Copied { text, done } => self.say_copied(text.as_str(), done),
            Reply::Interrupted { done } => self.hear_interrupt(done),
            Reply::Image { image, caption } => self.stage_image(image, caption),
            Reply::ImageFailed { path, error } => self.say_image_failed(
                path.as_str(),
                error.as_str(),
            ),
            Reply::NoImage => self.tell(
                "clipboard has no image, or this platform isn't supported",
                "剪贴板没有图片，或当前平台不支持",
            ),
            Reply::Branch(b) => self.take_branch(b),
            Reply::SignIn { method_id, chosen, values, complete } => self.continue_auth(
                method_id.as_str(),
                chosen,
                values,
                complete,
            ),
            Reply::LogsForPicker { sessions, via_agent } => self.pick_among_logs(
                sessions,
                via_agent,
            ),
            Reply::LogsForResume { prefix, sessions } => self.resume_among_logs(
                prefix.as_str(),
                sessions,
            ),
            Reply::LogsForRows(locals) => self.describe_listed(&locals),
            Reply::Replay(log) => self.replay_log(&log),
            Reply::ReplayFailed { file, error } => self.say_unreadable(
                file.as_str(),
                error.as_str(),
            ),
            Reply::FileToken(t) => self.take_token(t),
            Reply::FileMenuOpened { open } => self.file_menu_opened(open),
            Reply::FileSettled(e) => self.settle_file(&e),
            Reply::FileDrilled(e) => self.accept_edit(&e),
            Reply::FileMenuDismissed { token } => self.set_file_menu(false, Some(token)),
            Reply::KeysListed(t) => self.push_keys(t),
            Reply::HostModels(raw) => self.take_host_models(raw),
            Reply::SessionCounted { usage, stats, figures } => self.push_session_info(
                usage,
                stats,
                &figures,
            ),
            Reply::Transcript { id, last_model, only_notices } => self.note_transcript(
                id,
                last_model,
                only_notices,
            ),
            Reply::Editor { vim, normal } => {
                self.base.vim = vim;
                self.base.vim_normal = normal;
            },
        }
    }

    /// Takes what is told back.
    pub fn reply(&mut self, r: Reply)
        ensures
            final(self)@ == old(self)@.answered(r),
    {
        proof {
            reveal(AppV::answered);
        }
        let ghost before = self@;
        let b = self.mark();
        self.hear_reply(r);
        self.report(&b, Ghost(before));
    }
}

} // verus!
