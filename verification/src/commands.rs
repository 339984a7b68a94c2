//! Drafts on their way out: commands, shell lines, prompts, and the images
//! that ride along.

use crate::app::{self, App, AppV, Base, StatusV};
use crate::auth::first_word;
use crate::bus::{Cmd, CommandConfigAction};
use crate::compose;
use crate::draft::{self, Attachment, AttachmentV, Span};
use crate::effect::{self, Effect, EffectV, Locale, NoticeLevel, TranscriptOp};
use crate::presets;
use crate::seqs;
use crate::session::{self, Composer, ComposerV, DraftV, Modes, SessionSlot, SlotV, SubagentView, ViewV};
use crate::slash::{self, client_skill, skill_named, EntryV, SlashEntry};
use crate::text;
use vstd::prelude::*;

verus! {

/// How many sessions are listed where no number is given.
pub const SESSION_LIST_LIMIT: usize = 50;

// --- recalling -------------------------------------------------------------------------

impl ComposerV {
    /// The text put in at the caret, unless the draft would grow too long to
    /// count.
    pub open spec fn inserting(self, t: Seq<char>) -> ComposerV {
        if self.buf.len() + t.len() <= usize::MAX {
            self.with_inserted(t)
        } else {
            self
        }
    }

    /// The entry that is recalled next on the way back.
    pub open spec fn earlier(self) -> int {
        match self.hist_pos {
            None => self.history.len() - 1,
            Some(p) => if p == 0 {
                0
            } else if p <= self.history.len() {
                p - 1
            } else {
                self.history.len() - 1
            },
        }
    }

    /// An earlier entry takes the place of the draft, which is put aside.
    pub open spec fn recalled(self) -> ComposerV {
        if self.history.len() == 0 {
            self
        } else {
            ComposerV {
                hist_pos: Some(self.earlier() as usize),
                stash: if self.hist_pos is None {
                    self.buf
                } else {
                    self.stash
                },
                ..self.with_text(self.history[self.earlier()])
            }
        }
    }

    /// A later entry, or the draft that was put aside.
    pub open spec fn released(self) -> ComposerV {
        match self.hist_pos {
            None => self,
            Some(p) => if p + 1 < self.history.len() {
                ComposerV { hist_pos: Some((p + 1) as usize), ..self.with_text(self.history[p + 1]) }
            } else {
                ComposerV { hist_pos: None, stash: Seq::empty(), ..self.with_text(self.stash) }
            },
        }
    }
}

/// Going back and coming forth again restores the draft.
pub proof fn law_recalling_is_undone(c: ComposerV)
    requires
        c.hist_pos is None,
        c.cursor == c.buf.len(),
        c.stash == Seq::<char>::empty(),
        0 < c.history.len() <= usize::MAX,
    ensures
        c.recalled().released() == c,
{
    assert(c.recalled().released() =~= c);
}

fn recall(c: &mut Composer)
    ensures
        final(c)@ == old(c)@.recalled(),
{
    let n = c.history.len();
    assert(c@.history.len() == n);
    if n == 0 {
        return;
    }
    let at: usize = match c.hist_pos {
        None => n - 1,
        Some(p) => if p == 0 {
            0
        } else if p <= n {
            p - 1
        } else {
            n - 1
        },
    };
    if c.hist_pos.is_none() {
        c.stash = c.buf.clone();
    }
    c.hist_pos = Some(at);
    let t = c.history[at].clone();
    c.set(t);
}

fn release(c: &mut Composer)
    ensures
        final(c)@ == old(c)@.released(),
{
    assert(c@.history.len() == c.history@.len());
    if let Some(p) = c.hist_pos {
        if p < c.history.len() && p + 1 < c.history.len() {
            c.hist_pos = Some(p + 1);
            let t = c.history[p + 1].clone();
            c.set(t);
        } else {
            let mut t = text::empty();
            std::mem::swap(&mut t, &mut c.stash);
            c.hist_pos = None;
            assert(c@.stash =~= Seq::empty());
            c.set(t);
        }
    }
}

// --- lines -------------------------------------------------------------------------------

/// What stands behind a command in a line.
pub open spec fn rest_of(line: Seq<char>, name: Seq<char>) -> Seq<char> {
    match text::behind_prefix(line, "/"@) {
        Some(t) => match text::behind_prefix(t, name) {
            Some(rest) => text::trimmed(rest),
            None => text::trimmed(""@),
        },
        None => text::trimmed(""@),
    }
}

fn take_rest(line: &str, name: &str) -> (r: String)
    ensures
        r@ == rest_of(line@, name@),
{
    match text::strip_prefix(line, "/") {
        Some(t) => match text::strip_prefix(t.as_str(), name) {
            Some(rest) => text::trim(rest.as_str()),
            None => text::trim(""),
        },
        None => text::trim(""),
    }
}

/// The name and the argument in a command line, without its slash.
pub open spec fn command_parts(line: Seq<char>) -> (Seq<char>, Seq<char>) {
    match text::split_at_char(line, ' ') {
        Some((name, rest)) => (name, text::trimmed(rest)),
        None => (line, text::trimmed(""@)),
    }
}

fn split_command(line: String) -> (r: (String, String))
    ensures
        (r.0@, r.1@) == command_parts(line@),
{
    match text::split_once(line.as_str(), ' ') {
        Some((name, rest)) => (name, text::trim(rest.as_str())),
        None => (line, text::trim("")),
    }
}

pub open spec fn locale_meant(arg: Seq<char>) -> Option<Locale> {
    if text::trimmed(arg) == "zh"@ {
        Some(Locale::Zh)
    } else if text::trimmed(arg) == "en"@ {
        Some(Locale::En)
    } else {
        None
    }
}

fn locale_of(arg: &str) -> (r: Option<Locale>)
    ensures
        r == locale_meant(arg@),
{
    let t = text::trim(arg);
    if text::same(t.as_str(), "zh") {
        Some(Locale::Zh)
    } else if text::same(t.as_str(), "en") {
        Some(Locale::En)
    } else {
        None
    }
}

pub open spec fn other_locale(l: Locale) -> Locale {
    match l {
        Locale::En => Locale::Zh,
        Locale::Zh => Locale::En,
    }
}

pub open spec fn speak(id: u64, l: Locale) -> EffectV {
    Effect::Transcript { id, op: TranscriptOp::Speak(l) }
}

/// The transcripts of subagents turn to a language.
pub open spec fn views_speak(v: Seq<ViewV>, l: Locale) -> Seq<EffectV> {
    Seq::new(v.len(), |i: int| speak(v[i].transcript, l))
}

pub open spec fn slot_speaks(s: SlotV, l: Locale) -> Seq<EffectV> {
    seq![speak(s.chat.transcript, l)] + views_speak(s.agents.views, l)
}

pub open spec fn slots_speak(v: Seq<SlotV>, l: Locale) -> Seq<EffectV>
    decreases v.len(),
{
    if v.len() == 0 {
        Seq::empty()
    } else {
        slots_speak(v.drop_last(), l) + slot_speaks(v.last(), l)
    }
}

fn tell_views(v: &Vec<SubagentView>, l: Locale, out: &mut Vec<Effect>)
    ensures
        effect::effects_view(final(out)@) == effect::effects_view(old(out)@) + views_speak(
            session::subagents_view(v@),
            l,
        ),
{
    let ghost all = session::subagents_view(v@);
    let ghost sent = effect::effects_view(out@);
    let mut i: usize = 0;
    assert(sent =~= sent + views_speak(all.take(0), l));
    while i < v.len()
        invariant
            i <= v@.len(),
            all == session::subagents_view(v@),
            effect::effects_view(out@) == sent + views_speak(all.take(i as int), l),
        decreases v@.len() - i,
    {
        assert(all[i as int] == v@[i as int]@);
        effect::emit(out, Effect::Transcript { id: v[i].transcript, op: TranscriptOp::Speak(l) });
        assert(effect::effects_view(out@) =~= sent + views_speak(all.take(i as int + 1), l));
        i = i + 1;
    }
    assert(all.take(i as int) =~= all);
}

fn tell_slot(s: &SessionSlot, l: Locale, out: &mut Vec<Effect>)
    ensures
        effect::effects_view(final(out)@) == effect::effects_view(old(out)@) + slot_speaks(s@, l),
{
    proof {
        reveal(session::slot_view);
    }
    let ghost sent = effect::effects_view(out@);
    effect::emit(
        out,
        Effect::Transcript { id: s.chat.transcript, op: TranscriptOp::Speak(l) },
    );
    tell_views(&s.agents.views, l, out);
    assert(effect::effects_view(out@) =~= sent + slot_speaks(s@, l));
}

fn tell_slots(v: &Vec<SessionSlot>, l: Locale, out: &mut Vec<Effect>)
    ensures
        effect::effects_view(final(out)@) == effect::effects_view(old(out)@) + slots_speak(
            session::slots_view(v@),
            l,
        ),
{
    let ghost all = session::slots_view(v@);
    let ghost sent = effect::effects_view(out@);
    let mut i: usize = 0;
    assert(sent =~= sent + slots_speak(all.take(0), l));
    while i < v.len()
        invariant
            i <= v@.len(),
            all == session::slots_view(v@),
            effect::effects_view(out@) == sent + slots_speak(all.take(i as int), l),
        decreases v@.len() - i,
    {
        assert(all.take(i as int + 1).drop_last() =~= all.take(i as int));
        assert(all.take(i as int + 1).last() == v@[i as int]@);
        tell_slot(&v[i], l, out);
        assert(effect::effects_view(out@) =~= sent + slots_speak(all.take(i as int + 1), l));
        i = i + 1;
    }
    assert(all.take(i as int) =~= all);
}

/// Whether a character stands in a span.
pub open spec fn span_holds(at: int) -> spec_fn(Span) -> bool {
    |s: Span| s.0 <= at < s.1
}

/// Whether the caret stands in a span or at its end.
pub open spec fn span_touches(at: int) -> spec_fn(Span) -> bool {
    |s: Span| s.0 <= at <= s.1
}

fn find_span(v: &Vec<Span>, at: usize) -> (r: usize)
    ensures
        r == seqs::first_index(v@, span_holds(at as int)),
        r <= v@.len(),
{
    let mut i: usize = 0;
    while i < v.len() && !(v[i].0 <= at && at < v[i].1)
        invariant
            i <= v@.len(),
            forall|k: int| 0 <= k < i ==> !span_holds(at as int)(#[trigger] v@[k]),
        decreases v@.len() - i,
    {
        i = i + 1;
    }
    proof {
        seqs::lemma_first_index_is(v@, span_holds(at as int), i as int);
    }
    i
}

fn find_touching(v: &Vec<Span>, at: usize) -> (r: usize)
    ensures
        r == seqs::first_index(v@, span_touches(at as int)),
        r <= v@.len(),
{
    let mut i: usize = 0;
    while i < v.len() && !(v[i].0 <= at && at <= v[i].1)
        invariant
            i <= v@.len(),
            forall|k: int| 0 <= k < i ==> !span_touches(at as int)(#[trigger] v@[k]),
        decreases v@.len() - i,
    {
        i = i + 1;
    }
    proof {
        seqs::lemma_first_index_is(v@, span_touches(at as int), i as int);
    }
    i
}

impl AppV {
    pub open spec fn without_file_menu(self) -> AppV {
        self.with_live(
            SlotV { draft: DraftV { file_menu: false, ..self.live.draft }, ..self.live },
        )
    }

    #[verifier::opaque]
    pub open spec fn recall_earlier(self) -> AppV {
        let a = self.without_input_sel();
        if self.live.draft.input.buf.len() > 0 && self.live.draft.input.hist_pos is None {
            a
        } else {
            a.with_input(self.live.draft.input.recalled())
        }
    }

    #[verifier::opaque]
    pub open spec fn recall_from_draft(self) -> AppV {
        self.without_input_sel().with_input(self.live.draft.input.recalled())
    }

    #[verifier::opaque]
    pub open spec fn recall_later(self) -> AppV {
        self.without_input_sel().with_input(self.live.draft.input.released())
    }

    /// The client turns to another language.
    #[verifier::opaque]
    pub open spec fn speak_in(self, l: Locale) -> AppV {
        AppV { base: Base { locale: l, ..self.base }, ..self }.saying(
            seq![speak(self.live.chat.transcript, l)] + slots_speak(self.tabs.parked, l)
                + views_speak(self.live.agents.views, l),
        ).emit(Effect::SaveSettings).tip(
            effect::spoken(l, "Language switched to English"@, "界面语言已切换为中文"@),
        )
    }

    #[verifier::opaque]
    pub open spec fn choose_locale(self, arg: Seq<char>) -> AppV {
        if text::trimmed(arg).len() == 0 {
            self.speak_in(other_locale(self.base.locale))
        } else {
            match locale_meant(arg) {
                Some(l) => self.speak_in(l),
                None => self.tell("usage: /lang [zh|en]"@, "用法：/lang [zh|en]"@),
            }
        }
    }

    #[verifier::opaque]
    pub open spec fn clear_chat(self) -> AppV {
        self.write(self.live.chat.transcript, TranscriptOp::Clear).without_sel().notice(
            NoticeLevel::Info,
            self.says("scrollback cleared"@, "滚动区已清空"@),
        )
    }

    #[verifier::opaque]
    pub open spec fn call_pet(self, arg: Seq<char>) -> AppV {
        let on = if arg == "on"@ || arg == "show"@ {
            true
        } else if arg == "off"@ || arg == "hide"@ {
            false
        } else {
            !self.base.pet_visible
        };
        AppV { base: Base { pet_visible: on, ..self.base }, ..self }.tip(
            if on {
                "🤫 小难梁已召唤 — 安静，他在想 AGI · /liang 收回"@
            } else {
                "小难梁去隆基市场买卡了 — /liang 再次召唤"@
            },
        )
    }

    #[verifier::opaque]
    pub open spec fn choose_editor(self, arg: Seq<char>) -> AppV {
        let on = if arg == "on"@ || arg == "1"@ {
            true
        } else if arg == "off"@ || arg == "0"@ {
            false
        } else {
            !self.base.vim
        };
        AppV { base: Base { vim: on, ..self.base }, ..self }.emit(Effect::SetVim(on)).tell(
            "vim mode — i insert · esc normal · /vim off"@,
            "vim 模式 — i 插入 · esc 返回 normal · /vim off 关闭"@,
        )
    }

    #[verifier::opaque]
    pub open spec fn choose_ui(self, arg: Seq<char>) -> AppV {
        if arg.len() == 0 {
            self.open_ui_list()
        } else if seqs::some(self.plugins.ui, crate::lists::ui_named(arg)) {
            self.send(Cmd::PluginUiSelected { agent_id: self.live.id, id: arg })
        } else {
            self.tell1(("unknown UI Plugin: "@, ""@), ("未知 UI 插件："@, ""@), arg)
        }
    }

    pub open spec fn tab_count(self) -> int {
        self.tabs.parked.len() as int + 1
    }

    #[verifier::opaque]
    pub open spec fn session_command(self, arg: Seq<char>) -> AppV {
        if arg == "view"@ || arg.len() == 0 {
            self.emit(Effect::ShowSessionInfo)
        } else if arg == "prev"@ {
            if self.tab_count() > 1 {
                self.view_tab(
                    if self.place() == 0 {
                        self.tab_count() - 1
                    } else {
                        self.place() - 1
                    },
                )
            } else {
                self
            }
        } else if arg == "next"@ {
            if self.tab_count() > 1 {
                self.view_tab(
                    if self.place() + 1 < self.tab_count() {
                        self.place() + 1
                    } else {
                        0
                    },
                )
            } else {
                self
            }
        } else {
            self.tell("usage: /session [view|prev|next]"@, "用法：/session [view|prev|next]"@)
        }
    }

    /// `/resume`: a number tells how many sessions to list, anything else is
    /// the beginning of an id.
    #[verifier::opaque]
    pub open spec fn resume_command(self, arg: Seq<char>) -> AppV {
        let n = text::parsed_number(arg, usize::MAX as nat);
        if arg.len() == 0 {
            self.open_resume(SESSION_LIST_LIMIT)
        } else if n is Some {
            self.open_resume(if n->0 == 0 {
                1
            } else {
                n->0 as usize
            })
        } else if !self.base.demo && self.conn.list_session {
            self.send(
                Cmd::ListSessions {
                    requester_session_id: self.live.id,
                    prefix: Some(arg),
                    limit: usize::MAX,
                },
            ).tell("listing ACP sessions…"@, "正在列出 ACP 会话…"@)
        } else if !self.base.demo && self.agent_resumes() {
            self.resume_agent(arg)
        } else if !self.base.demo {
            self.tell(
                "agent did not advertise session/resume or loadSession — replaying local JSONL"@,
                "Agent 未声明 session/resume 或 loadSession —— 改为回放本地 JSONL"@,
            ).resume_log(arg)
        } else {
            self.resume_log(arg)
        }
    }

    pub open spec fn with_effort(self, effort: Seq<char>) -> AppV {
        self.with_live(
            SlotV { modes: Modes { effort: Some(effort), ..self.live.modes }, ..self.live },
        )
    }

    #[verifier::opaque]
    pub open spec fn effort_command(self, arg: Seq<char>) -> AppV {
        if arg.len() == 0 {
            self.send(
                Cmd::FetchEfforts {
                    session_id: self.live.id,
                    provider: self.cfg.provider,
                    model: self.cfg.model,
                },
            )
        } else {
            self.send(
                Cmd::SelectModel {
                    session_id: self.live.id,
                    provider: None,
                    model: None,
                    effort: Some(arg),
                },
            ).with_effort(arg)
        }
    }

    #[verifier::opaque]
    pub open spec fn permission_command(self, arg: Seq<char>) -> AppV {
        if arg.len() == 0 {
            self.open_permissions()
        } else {
            self.ask_permission(text::text_or(presets::permission_meant(arg), arg))
        }
    }

    pub open spec fn plan_action(self) -> Option<CommandConfigAction<Seq<char>>> {
        match seqs::first(self.live.catalog.skills, skill_named("plan"@)) {
            Some(s) => s.config_action,
            None => None,
        }
    }

    /// The value to which `/plan` sets its option.
    pub open spec fn plan_value(self, a: CommandConfigAction<Seq<char>>, arg: Seq<char>) -> Option<Seq<char>> {
        if (arg.len() == 0 && self.live.modes.plan) || arg == "off"@ {
            a.reset_value
        } else if arg.len() == 0 || arg == "on"@ {
            Some(a.value)
        } else {
            None
        }
    }

    /// `/plan` sets the option that the agent declares for it; otherwise it is
    /// a prompt.
    #[verifier::opaque]
    pub open spec fn plan_command(self, arg: Seq<char>) -> AppV {
        let a = self.plan_action();
        if a is Some && self.plan_value(a->0, arg) is Some {
            self.send(
                Cmd::SetConfigOption {
                    session_id: self.live.id,
                    config_id: a->0.config_id,
                    value: self.plan_value(a->0, arg)->0,
                },
            )
        } else if arg.len() == 0 {
            self.send_text("/plan"@)
        } else {
            self.send_text("/plan "@ + arg)
        }
    }

    #[verifier::opaque]
    pub open spec fn image_command(self, arg: Seq<char>) -> AppV {
        let (path, caption) = first_word(arg);
        if path.len() == 0 {
            self.tell(
                "/image needs a path — /image ./pic.png [caption]"@,
                "/image 需要路径 —— /image ./pic.png [说明]"@,
            )
        } else {
            match presets::media_type_of(path) {
                Some(media_type) => self.emit(Effect::ReadImage { path, media_type, caption }),
                None => self.tell(
                    "unsupported image — use .png .jpg .jpeg .webp .gif"@,
                    "不支持的图片 —— 支持 .png .jpg .jpeg .webp .gif"@,
                ),
            }
        }
    }

    pub open spec fn unknown_command(self, name: Seq<char>) -> AppV {
        self.notice(
            NoticeLevel::Warn,
            app::said1(
                self.base.locale,
                ("unknown command /"@, " — /help lists commands"@),
                ("未知命令 /"@, " — 使用 /help 查看命令"@),
                name,
            ),
        )
    }

    /// Commands that change what is shown of the session.
    pub open spec fn run_session(self, name: Seq<char>, arg: Seq<char>) -> AppV {
        if name == "model"@ {
            if arg.len() == 0 {
                self.open_models()
            } else {
                self.ask_model(arg)
            }
        } else if name == "agent"@ {
            if arg.len() == 0 {
                self.open_agents_list()
            } else {
                self.ask_mode(arg)
            }
        } else if name == "new"@ {
            self.new_session(arg)
        } else if name == "close"@ {
            self.close_tab()
        } else if name == "session"@ {
            self.session_command(arg)
        } else if name == "status"@ {
            self.show_status()
        } else if name == "auth"@ {
            self.sign_in(arg)
        } else if name == "resume"@ {
            self.resume_command(arg)
        } else if name == "effort"@ {
            self.effort_command(arg)
        } else if name == "permission"@ {
            self.permission_command(arg)
        } else if name == "plan"@ {
            self.plan_command(arg)
        } else if name == "image"@ {
            self.image_command(arg)
        } else if name == "clip"@ {
            self.emit(Effect::ReadClipboard { caption: arg })
        } else {
            self.unknown_command(name)
        }
    }

    /// A command of the client.
    #[verifier::opaque]
    pub open spec fn run(self, name: Seq<char>, arg: Seq<char>) -> AppV {
        if name == "help"@ {
            self.show_help()
        } else if name == "keys"@ {
            self.emit(Effect::ShowKeys)
        } else if name == "lang"@ {
            self.choose_locale(arg)
        } else if name == "clear"@ {
            self.clear_chat()
        } else if name == "quit"@ {
            AppV { status: StatusV { quit: true, ..self.status }, ..self }
        } else if name == "liang"@ {
            self.call_pet(arg)
        } else if name == "theme"@ {
            self.theme_command(arg)
        } else if name == "vim"@ {
            self.choose_editor(arg)
        } else if name == "ui"@ {
            self.choose_ui(arg)
        } else if name == "plugins"@ {
            self.send(Cmd::FetchStaticPlugins).tell(
                "reading static plugins from Host…"@,
                "正在从 Host 读取静态插件…"@,
            )
        } else if name == "cordis-plugins"@ {
            self.send(Cmd::FetchCordisPlugins { agent_id: self.live.id }).tell(
                "reading dynamic Cordis plugins from Host…"@,
                "正在从 Host 读取动态 Cordis 插件…"@,
            )
        } else {
            self.run_session(name, arg)
        }
    }

    pub open spec fn invoke(self, name: Seq<char>, args: Seq<char>) -> AppV {
        self.send(Cmd::InvokePluginCommand { name, args })
    }

    /// Whether a name is a command that runs on the client outside the session.
    pub open spec fn client_command(self, name: Seq<char>) -> bool {
        !presets::is_builtin(name) && (self.knows_command(name) || seqs::some(
            self.live.catalog.skills,
            client_skill(name),
        ))
    }

    pub open spec fn skill_command(self, name: Seq<char>) -> bool {
        !presets::is_builtin(name) && seqs::some(self.live.catalog.skills, skill_named(name))
    }

    #[verifier::opaque]
    pub open spec fn submit_command(self, line: Seq<char>, name: Seq<char>, arg: Seq<char>) -> AppV {
        if self.client_command(name) {
            self.put_away(line).invoke(name, arg)
        } else if self.skill_command(name) {
            self.put_away(line).send_text(line)
        } else {
            self.put_away(line).run(name, arg)
        }
    }

    #[verifier::opaque]
    pub open spec fn submit_images(self) -> AppV {
        let a = self.with_input(
            self.live.draft.input.remembering(self.live.draft.input.buf),
        );
        let b = a.unstaged();
        b.with_input(b.live.draft.input.cleared()).send_blocks(a.staged())
    }

    /// The draft is sent for what it is: a command, a shell line or a prompt.
    #[verifier::opaque]
    pub open spec fn submitted(self) -> AppV {
        let t = text::trimmed(self.live.draft.input.buf);
        let a = self.without_file_menu();
        if self.live.draft.images.len() > 0 && compose::for_client(t) {
            a.tell_no_images()
        } else {
            match text::behind_prefix(t, "/"@) {
                Some(line) => a.submit_command(t, command_parts(line).0, command_parts(line).1),
                None => match text::behind_prefix(t, "!"@) {
                    Some(command) => if text::trimmed(command).len() > 0 {
                        a.put_away(t).run_shell(text::trimmed(command))
                    } else {
                        a
                    },
                    None => if self.live.draft.images.len() > 0 {
                        a.submit_images()
                    } else if t.len() == 0 {
                        a
                    } else {
                        a.put_away(t).send_text(t)
                    },
                },
            }
        }
    }

    /// A prompt as if it had been typed.
    #[verifier::opaque]
    pub open spec fn prompted(self, t: Seq<char>) -> AppV {
        let a = self.banner_off().without_input_sel();
        a.with_input(a.live.draft.input.with_text(t)).submitted()
    }

    pub open spec fn completed(self, e: EntryV) -> AppV {
        match e.completion {
            Some(c) => self.with_input(self.live.draft.input.with_text(c)),
            None => self,
        }
    }

    pub open spec fn take_skill(self, name: Seq<char>) -> AppV {
        let full = "/"@ + name;
        let line = text::trimmed(self.live.draft.input.buf);
        if line == full || text::has_prefix(line, full + " "@) {
            self.submitted()
        } else {
            self.with_input(self.live.draft.input.with_text(full + " "@)).with_slash_sel(0)
        }
    }

    /// A line of the menu is taken.
    #[verifier::opaque]
    pub open spec fn take_entry(self, e: EntryV) -> AppV {
        let a = self.completed(e);
        let line = a.live.draft.input.buf;
        if e.disabled {
            self
        } else if e.plugin {
            a.put_away(line).with_slash_sel(0).invoke(e.name, rest_of(line, e.name))
        } else if e.skill {
            a.take_skill(e.name)
        } else {
            a.with_input(a.live.draft.input.cleared()).with_slash_sel(0).run(
                e.name,
                rest_of(line, e.name),
            )
        }
    }

    /// Whether a blank has to part the caret from what stands before it.
    pub open spec fn needs_blank(self) -> bool {
        let c = self.live.draft.input;
        c.caret() > 0 && !text::white_space(c.buf[c.caret() - 1])
    }

    pub open spec fn captioned(self, caption: Seq<char>) -> ComposerV {
        let c = self.live.draft.input;
        if caption.len() > 0 {
            c.with_text(caption).inserting(" "@)
        } else if self.needs_blank() {
            c.inserting(" "@)
        } else {
            c
        }
    }

    /// An image joins the draft as a chip at the caret.
    #[verifier::opaque]
    pub open spec fn stage(self, att: AttachmentV, caption: Seq<char>) -> AppV {
        if self.live.draft.images.len() >= self.base.image_limit {
            self.tell(
                "attachment tray is full — send or remove an [image] chip first"@,
                "附件栏已满 —— 先发送或移除一个 [image] 标记"@,
            )
        } else {
            self.without_input_sel().with_images(self.live.draft.images.push(att)).with_input(
                self.captioned(caption).inserting(att.token),
            ).tell(
                "image staged — ⌫ deletes its chip · hover it to preview"@,
                "图片已附加 —— ⌫ 删除其标记 · 悬停可预览"@,
            )
        }
    }

    #[verifier::opaque]
    pub open spec fn image_failed(self, path: Seq<char>, error: Seq<char>) -> AppV {
        self.tip(
            app::said2(
                self.base.locale,
                ("cannot read "@, ": "@, ""@),
                ("无法读取 "@, "："@, ""@),
                path,
                error,
            ),
        )
    }

    /// The chips of the draft.
    pub open spec fn chips(self) -> Seq<Span> {
        draft::spans_of(self.live.draft.input.buf, self.live.draft.images)
    }

    /// The chip that deleting at the caret would take.
    pub open spec fn chip_at(self, cursor: int, backward: bool) -> Option<Span> {
        if backward && cursor == 0 {
            None
        } else {
            seqs::first(
                self.chips(),
                span_holds(if backward {
                    cursor - 1
                } else {
                    cursor
                }),
            )
        }
    }

    pub open spec fn without_chip(self, s: Span) -> AppV {
        let images = self.live.draft.images;
        self.with_input(
            self.live.draft.input.without_range(s.0 as int, s.1 as int),
        ).with_images(images.remove(s.2 as int)).tell1(
            ("removed "@, ""@),
            ("已移除 "@, ""@),
            images[s.2 as int].name,
        )
    }

    /// Deleting into a chip takes it out as a whole.
    #[verifier::opaque]
    pub open spec fn cut_chip(self, cursor: int, backward: bool) -> AppV {
        match self.chip_at(cursor, backward) {
            Some(s) => self.without_chip(s),
            None => self,
        }
    }

    /// The image to preview: the one under the mouse, else the one at the
    /// caret.
    pub open spec fn previewed(self) -> Option<usize> {
        match self.pointer.over_chip {
            Some(i) => Some(i),
            None => match seqs::first(
                self.chips(),
                span_touches(self.live.draft.input.cursor as int),
            ) {
                Some(s) => Some(s.2),
                None => None,
            },
        }
    }
}

impl App {
    pub(crate) fn close_file_menu(&mut self)
        ensures
            final(self)@ == old(self)@.without_file_menu(),
    {
        proof {
            reveal(session::slot_view);
        }
        self.live.draft.file_menu = false;
    }

    fn is_recalling(&self) -> (r: bool)
        ensures
            r == (self@.live.draft.input.hist_pos is Some),
    {
        proof {
            reveal(session::slot_view);
        }
        self.live.draft.input.hist_pos.is_some()
    }

    fn recall_entry(&mut self)
        ensures
            final(self)@ == old(self)@.with_input(old(self)@.live.draft.input.recalled()),
    {
        proof {
            reveal(session::slot_view);
        }
        recall(&mut self.live.draft.input);
    }

    pub(crate) fn history_prev(&mut self)
        ensures
            final(self)@ == old(self)@.recall_earlier(),
    {
        proof {
            reveal(AppV::recall_earlier);
        }
        self.clear_input_sel();
        if !self.draft_is_empty() && !self.is_recalling() {
            return;
        }
        self.recall_entry();
    }

    pub(crate) fn history_prev_from_draft(&mut self)
        ensures
            final(self)@ == old(self)@.recall_from_draft(),
    {
        proof {
            reveal(AppV::recall_from_draft);
        }
        self.clear_input_sel();
        self.recall_entry();
    }

    pub(crate) fn history_next(&mut self)
        ensures
            final(self)@ == old(self)@.recall_later(),
    {
        proof {
            reveal(session::slot_view);
            reveal(AppV::recall_later);
        }
        self.clear_input_sel();
        release(&mut self.live.draft.input);
    }

    fn tell_transcripts(&mut self, l: Locale)
        ensures
            final(self)@ == old(self)@.saying(
                seq![speak(old(self)@.live.chat.transcript, l)] + slots_speak(
                    old(self)@.tabs.parked,
                    l,
                ) + views_speak(old(self)@.live.agents.views, l),
            ),
    {
        proof {
            reveal(session::slot_view);
        }
        let ghost a = self@;
        effect::emit(
            &mut self.out,
            Effect::Transcript { id: self.live.chat.transcript, op: TranscriptOp::Speak(l) },
        );
        tell_slots(&self.tabs.parked, l, &mut self.out);
        tell_views(&self.live.agents.views, l, &mut self.out);
        assert(self@.out =~= a.out + (seq![speak(a.live.chat.transcript, l)] + slots_speak(
            a.tabs.parked,
            l,
        ) + views_speak(a.live.agents.views, l)));
    }

    fn switch_locale(&mut self, l: Locale)
        ensures
            final(self)@ == old(self)@.speak_in(l),
    {
        proof {
            reveal(AppV::speak_in);
        }
        self.base.locale = l;
        self.tell_transcripts(l);
        self.emit(Effect::SaveSettings);
        self.show_tip(
            effect::tr(l, "Language switched to English", "界面语言已切换为中文").to_owned(),
        );
    }

    pub(crate) fn set_locale(&mut self, arg: &str)
        ensures
            final(self)@ == old(self)@.choose_locale(arg@),
    {
        proof {
            reveal(AppV::choose_locale);
        }
        let t = text::trim(arg);
        if t.as_str().is_empty() {
            let l = match self.base.locale {
                Locale::En => Locale::Zh,
                Locale::Zh => Locale::En,
            };
            self.switch_locale(l);
            return;
        }
        match locale_of(arg) {
            Some(l) => self.switch_locale(l),
            None => self.tell("usage: /lang [zh|en]", "用法：/lang [zh|en]"),
        }
    }

    pub(crate) fn clear_chat_sel(&mut self)
        ensures
            final(self)@ == old(self)@.without_sel(),
    {
        self.pointer.sel = None;
    }

    pub(crate) fn clear_scrollback(&mut self)
        ensures
            final(self)@ == old(self)@.clear_chat(),
    {
        proof {
            reveal(AppV::clear_chat);
        }
        let transcript = self.live_transcript();
        let t = self.say("scrollback cleared", "滚动区已清空");
        self.write(transcript, TranscriptOp::Clear);
        self.clear_chat_sel();
        self.notice(NoticeLevel::Info, t);
    }

    fn summon_pet(&mut self, arg: &str)
        ensures
            final(self)@ == old(self)@.call_pet(arg@),
    {
        proof {
            reveal(AppV::call_pet);
        }
        let on = if text::same(arg, "on") || text::same(arg, "show") {
            true
        } else if text::same(arg, "off") || text::same(arg, "hide") {
            false
        } else {
            !self.base.pet_visible
        };
        self.base.pet_visible = on;
        let t = if on {
            "🤫 小难梁已召唤 — 安静，他在想 AGI · /liang 收回"
        } else {
            "小难梁去隆基市场买卡了 — /liang 再次召唤"
        };
        self.show_tip(t.to_owned());
    }

    fn switch_editor(&mut self, arg: &str)
        ensures
            final(self)@ == old(self)@.choose_editor(arg@),
    {
        proof {
            reveal(AppV::choose_editor);
        }
        let on = if text::same(arg, "on") || text::same(arg, "1") {
            true
        } else if text::same(arg, "off") || text::same(arg, "0") {
            false
        } else {
            !self.base.vim
        };
        self.base.vim = on;
        self.emit(Effect::SetVim(on));
        self.tell(
            "vim mode — i insert · esc normal · /vim off",
            "vim 模式 — i 插入 · esc 返回 normal · /vim off 关闭",
        );
    }

    fn switch_ui(&mut self, arg: &str)
        ensures
            final(self)@ == old(self)@.choose_ui(arg@),
    {
        proof {
            reveal(AppV::choose_ui);
        }
        if arg.is_empty() {
            self.open_ui_plugin_picker();
        } else if crate::lists::knows_ui(&self.plugins.ui, arg) {
            let agent_id = self.session_id();
            self.send(Cmd::PluginUiSelected { agent_id, id: arg.to_owned() });
        } else {
            self.tell1(("unknown UI Plugin: ", ""), ("未知 UI 插件：", ""), arg);
        }
    }

    fn run_session_command(&mut self, arg: &str)
        ensures
            final(self)@ == old(self)@.session_command(arg@),
    {
        proof {
            reveal(AppV::session_command);
        }
        let n = self.tabs.parked.len();
        assert(self@.tabs.parked.len() == n);
        let place = self.live_tab_index();
        if text::same(arg, "view") || arg.is_empty() {
            self.emit(Effect::ShowSessionInfo);
        } else if text::same(arg, "prev") {
            if n > 0 {
                self.switch_view_to_tab(if place == 0 { n } else { place - 1 });
            }
        } else if text::same(arg, "next") {
            if n > 0 {
                self.switch_view_to_tab(if place < n { place + 1 } else { 0 });
            }
        } else {
            self.tell("usage: /session [view|prev|next]", "用法：/session [view|prev|next]");
        }
    }

    fn run_resume_command(&mut self, arg: &str)
        ensures
            final(self)@ == old(self)@.resume_command(arg@),
    {
        proof {
            reveal(AppV::resume_command);
        }
        if arg.is_empty() {
            self.open_resume_picker(SESSION_LIST_LIMIT);
            return;
        }
        if let Some(n) = text::parse_number(arg, usize::MAX as u64) {
            self.open_resume_picker(if n == 0 { 1 } else { n as usize });
            return;
        }
        if !self.base.demo && self.conn.list_session {
            let requester_session_id = self.session_id();
            self.send(
                Cmd::ListSessions {
                    requester_session_id,
                    prefix: Some(arg.to_owned()),
                    limit: usize::MAX,
                },
            );
            self.tell("listing ACP sessions…", "正在列出 ACP 会话…");
        } else if !self.base.demo && (self.conn.resume_session || self.conn.load_session) {
            self.resume_acp_session(arg);
        } else {
            if !self.base.demo {
                self.tell(
                    "agent did not advertise session/resume or loadSession — replaying local JSONL",
                    "Agent 未声明 session/resume 或 loadSession —— 改为回放本地 JSONL",
                );
            }
            self.resume_session(arg);
        }
    }

    fn run_effort_command(&mut self, arg: &str)
        ensures
            final(self)@ == old(self)@.effort_command(arg@),
    {
        proof {
            reveal(AppV::effort_command);
        }
        let session_id = self.session_id();
        if arg.is_empty() {
            let provider = self.cfg.provider.clone();
            let model = self.cfg.model.clone();
            self.send(Cmd::FetchEfforts { session_id, provider, model });
        } else {
            self.send(
                Cmd::SelectModel {
                    session_id,
                    provider: None,
                    model: None,
                    effort: Some(arg.to_owned()),
                },
            );
            self.set_effort(arg);
        }
    }

    fn run_permission_command(&mut self, arg: &str)
        ensures
            final(self)@ == old(self)@.permission_command(arg@),
    {
        proof {
            reveal(AppV::permission_command);
        }
        if arg.is_empty() {
            self.open_permission_picker();
        } else {
            let preset = match presets::normalize_permission(arg) {
                Some(p) => p.to_owned(),
                None => arg.to_owned(),
            };
            self.set_permission(preset);
        }
    }

    /// The option and the value that `/plan` sets, where there are any.
    fn plan_setting(&self, arg: &str) -> (r: Option<(String, String)>)
        ensures
            match r {
                Some((id, value)) => self@.plan_action() is Some && id@
                    == self@.plan_action()->0.config_id && self@.plan_value(
                    self@.plan_action()->0,
                    arg@,
                ) == Some(value@),
                None => self@.plan_action() is None || self@.plan_value(
                    self@.plan_action()->0,
                    arg@,
                ) is None,
            },
    {
        proof {
            reveal(session::slot_view);
        }
        let skills = &self.live.catalog.skills;
        let at = slash::find_skill(skills, "plan");
        assert(self@.live.catalog.skills.len() == skills@.len());
        if at >= skills.len() {
            return None;
        }
        assert(self@.live.catalog.skills[at as int] == skills@[at as int]@);
        match &skills[at].config_action {
            Some(a) => {
                let value = if (arg.is_empty() && self.live.modes.plan) || text::same(arg, "off") {
                    text::copy_opt(&a.reset_value)
                } else if arg.is_empty() || text::same(arg, "on") {
                    Some(a.value.clone())
                } else {
                    None
                };
                match value {
                    Some(v) => Some((a.config_id.clone(), v)),
                    None => None,
                }
            },
            None => None,
        }
    }

    fn run_plan_command(&mut self, arg: &str)
        ensures
            final(self)@ == old(self)@.plan_command(arg@),
    {
        proof {
            reveal(AppV::plan_command);
        }
        match self.plan_setting(arg) {
            Some((config_id, value)) => {
                let session_id = self.session_id();
                self.send(Cmd::SetConfigOption { session_id, config_id, value });
            },
            None => {
                let t = if arg.is_empty() {
                    "/plan".to_owned()
                } else {
                    text::concat2("/plan ", arg)
                };
                self.send_agent_text(t);
            },
        }
    }

    pub(crate) fn send_image(&mut self, arg: &str)
        ensures
            final(self)@ == old(self)@.image_command(arg@),
    {
        proof {
            reveal(AppV::image_command);
        }
        let (path, caption) = crate::auth::split_first_word(arg);
        if path.as_str().is_empty() {
            self.tell(
                "/image needs a path — /image ./pic.png [caption]",
                "/image 需要路径 —— /image ./pic.png [说明]",
            );
            return;
        }
        match presets::media_type_for(path.as_str()) {
            Some(m) => {
                let media_type = m.to_owned();
                self.emit(Effect::ReadImage { path, media_type, caption });
            },
            None => self.tell(
                "unsupported image — use .png .jpg .jpeg .webp .gif",
                "不支持的图片 —— 支持 .png .jpg .jpeg .webp .gif",
            ),
        }
    }

    fn say_unknown(&mut self, name: &str)
        ensures
            final(self)@ == old(self)@.unknown_command(name@),
    {
        let t = app::say1(
            self.base.locale,
            ("unknown command /", " — /help lists commands"),
            ("未知命令 /", " — 使用 /help 查看命令"),
            name,
        );
        self.notice(NoticeLevel::Warn, t);
    }

    fn run_on_session(&mut self, name: &str, arg: &str)
        ensures
            final(self)@ == old(self)@.run_session(name@, arg@),
    {
        if text::same(name, "model") {
            if arg.is_empty() {
                self.open_model_picker();
            } else {
                self.set_model(arg.to_owned());
            }
        } else if text::same(name, "agent") {
            if arg.is_empty() {
                self.open_mode_picker();
            } else {
                self.set_mode(arg.to_owned());
            }
        } else if text::same(name, "new") {
            self.new_session_flow(arg);
        } else if text::same(name, "close") {
            self.close_session_flow();
        } else if text::same(name, "session") {
            self.run_session_command(arg);
        } else if text::same(name, "status") {
            self.push_status_info();
        } else if text::same(name, "auth") {
            self.start_auth(arg);
        } else if text::same(name, "resume") {
            self.run_resume_command(arg);
        } else if text::same(name, "effort") {
            self.run_effort_command(arg);
        } else if text::same(name, "permission") {
            self.run_permission_command(arg);
        } else if text::same(name, "plan") {
            self.run_plan_command(arg);
        } else if text::same(name, "image") {
            self.send_image(arg);
        } else if text::same(name, "clip") {
            self.emit(Effect::ReadClipboard { caption: arg.to_owned() });
        } else {
            self.say_unknown(name);
        }
    }

    /// Runs a command of the client.
    pub fn run_slash(&mut self, name: &str, arg: &str)
        ensures
            final(self)@ == old(self)@.run(name@, arg@),
    {
        proof {
            reveal(AppV::run);
        }
        if text::same(name, "help") {
            self.push_help();
        } else if text::same(name, "keys") {
            self.emit(Effect::ShowKeys);
        } else if text::same(name, "lang") {
            self.set_locale(arg);
        } else if text::same(name, "clear") {
            self.clear_scrollback();
        } else if text::same(name, "quit") {
            self.status.quit = true;
        } else if text::same(name, "liang") {
            self.summon_pet(arg);
        } else if text::same(name, "theme") {
            self.apply_theme_arg(arg);
        } else if text::same(name, "vim") {
            self.switch_editor(arg);
        } else if text::same(name, "ui") {
            self.switch_ui(arg);
        } else if text::same(name, "plugins") {
            self.send(Cmd::FetchStaticPlugins);
            self.tell("reading static plugins from Host…", "正在从 Host 读取静态插件…");
        } else if text::same(name, "cordis-plugins") {
            let agent_id = self.session_id();
            self.send(Cmd::FetchCordisPlugins { agent_id });
            self.tell(
                "reading dynamic Cordis plugins from Host…",
                "正在从 Host 读取动态 Cordis 插件…",
            );
        } else {
            self.run_on_session(name, arg);
        }
    }

    fn has_skill(&self, name: &str) -> (r: (bool, bool))
        ensures
            r.0 == seqs::some(self@.live.catalog.skills, skill_named(name@)),
            r.1 == seqs::some(self@.live.catalog.skills, client_skill(name@)),
    {
        proof {
            reveal(session::slot_view);
        }
        let skills = &self.live.catalog.skills;
        assert(self@.live.catalog.skills.len() == skills@.len());
        (slash::find_skill(skills, name) < skills.len(), slash::find_client_skill(skills, name)
            < skills.len())
    }

    fn send_command_line(&mut self, line: String, name: String, arg: String)
        ensures
            final(self)@ == old(self)@.submit_command(line@, name@, arg@),
    {
        proof {
            reveal(AppV::submit_command);
        }
        let builtin = presets::is_builtin_name(name.as_str());
        let (skill, client) = self.has_skill(name.as_str());
        if !builtin && (self.plugin_command_active(name.as_str()) || client) {
            self.put_draft_away(line);
            self.send(Cmd::InvokePluginCommand { name, args: arg });
        } else if !builtin && skill {
            self.put_draft_away(line.clone());
            self.send_agent_text(line);
        } else {
            self.put_draft_away(line);
            self.run_slash(name.as_str(), arg.as_str());
        }
    }

    fn remember_draft(&mut self)
        ensures
            final(self)@ == old(self)@.with_input(
                old(self)@.live.draft.input.remembering(old(self)@.live.draft.input.buf),
            ),
    {
        proof {
            reveal(session::slot_view);
        }
        let t = self.live.draft.input.buf.clone();
        self.live.draft.input.remember(t);
    }

    fn send_images(&mut self)
        ensures
            final(self)@ == old(self)@.submit_images(),
    {
        proof {
            reveal(AppV::submit_images);
        }
        self.remember_draft();
        let blocks = self.take_staged_blocks();
        self.clear_draft();
        self.send_staged(blocks);
    }

    /// Sends the draft for what it is.
    pub(crate) fn submit(&mut self)
        ensures
            final(self)@ == old(self)@.submitted(),
    {
        proof {
            reveal(AppV::submitted);
        }
        let buf = self.draft_text();
        let t = text::trim(buf.as_str());
        let images = self.image_count();
        self.close_file_menu();
        if images > 0 && compose::is_for_client(t.as_str()) {
            self.tell(
                "send or delete the [image] chips first — /commands and !shell don't take images",
                "先发送或删除 [image] 标记 —— /命令 和 !shell 不接受图片",
            );
            return;
        }
        if let Some(line) = text::strip_prefix(t.as_str(), "/") {
            let (name, arg) = split_command(line);
            self.send_command_line(t, name, arg);
            return;
        }
        if let Some(command) = text::strip_prefix(t.as_str(), "!") {
            let command = text::trim(command.as_str());
            if !command.as_str().is_empty() {
                self.put_draft_away(t);
                self.run_local_shell(command);
            }
            return;
        }
        if images > 0 {
            self.send_images();
            return;
        }
        if t.as_str().is_empty() {
            return;
        }
        self.put_draft_away(t.clone());
        self.send_agent_text(t);
    }

    /// Sends a prompt as if it had been typed.
    pub fn auto_prompt(&mut self, t: &str)
        ensures
            final(self)@ == old(self)@.prompted(t@),
    {
        proof {
            reveal(AppV::prompted);
        }
        self.hide_banner();
        self.clear_input_sel();
        self.set_draft(t.to_owned());
        self.submit();
    }

    fn complete(&mut self, e: &SlashEntry)
        ensures
            final(self)@ == old(self)@.completed(e@),
    {
        if let Some(c) = &e.completion {
            self.set_draft(c.clone());
        }
    }

    fn accept_skill(&mut self, name: &str)
        ensures
            final(self)@ == old(self)@.take_skill(name@),
    {
        let full = text::concat2("/", name);
        let open = text::concat2(full.as_str(), " ");
        let line = text::trim(self.draft_text().as_str());
        if text::same(line.as_str(), full.as_str()) || text::starts_with(
            line.as_str(),
            open.as_str(),
        ) {
            self.submit();
        } else {
            self.set_draft(open);
            self.set_slash_sel(0);
        }
    }

    /// Takes a line of the menu.
    pub(crate) fn accept_slash(&mut self, e: &SlashEntry)
        ensures
            final(self)@ == old(self)@.take_entry(e@),
    {
        proof {
            reveal(AppV::take_entry);
        }
        if e.disabled {
            return;
        }
        self.complete(e);
        let line = self.draft_text();
        let rest = take_rest(line.as_str(), e.name.as_str());
        if e.plugin {
            self.put_draft_away(line);
            self.set_slash_sel(0);
            self.send(Cmd::InvokePluginCommand { name: e.name.clone(), args: rest });
        } else if e.skill {
            self.accept_skill(e.name.as_str());
        } else {
            self.clear_draft();
            self.set_slash_sel(0);
            self.run_slash(e.name.as_str(), rest.as_str());
        }
    }

    fn lacks_blank(&self) -> (r: bool)
        ensures
            r == self@.needs_blank(),
    {
        proof {
            reveal(session::slot_view);
        }
        let v = text::chars_of(self.live.draft.input.buf.as_str());
        let at: usize = if self.live.draft.input.cursor <= v.len() {
            self.live.draft.input.cursor
        } else {
            v.len()
        };
        at > 0 && !text::is_white_space(v[at - 1])
    }

    pub(crate) fn insert_text(&mut self, t: &str)
        ensures
            final(self)@ == old(self)@.with_input(old(self)@.live.draft.input.inserting(t@)),
    {
        proof {
            reveal(session::slot_view);
        }
        self.live.draft.input.insert_str(t);
    }

    fn caption_draft(&mut self, caption: String)
        ensures
            final(self)@ == old(self)@.with_input(old(self)@.captioned(caption@)),
    {
        proof {
            reveal_strlit(" ");
        }
        if !caption.as_str().is_empty() {
            self.set_draft(caption);
            self.insert_text(" ");
        } else if self.lacks_blank() {
            self.insert_text(" ");
        }
    }

    fn add_image(&mut self, att: Attachment)
        ensures
            final(self)@ == old(self)@.with_images(old(self)@.live.draft.images.push(att@)),
    {
        proof {
            reveal(session::slot_view);
        }
        let ghost before = self@.live.draft.images;
        self.live.draft.images.push(att);
        assert(draft::attachments_view(self.live.draft.images@) =~= before.push(att@));
    }

    /// Puts an image into the draft as a chip at the caret.
    pub(crate) fn stage_image(&mut self, att: Attachment, caption: String)
        ensures
            final(self)@ == old(self)@.stage(att@, caption@),
    {
        proof {
            reveal(AppV::stage);
        }
        if self.image_count() >= self.base.image_limit {
            self.tell(
                "attachment tray is full — send or remove an [image] chip first",
                "附件栏已满 —— 先发送或移除一个 [image] 标记",
            );
            return;
        }
        let token = att.token.clone();
        self.clear_input_sel();
        self.add_image(att);
        self.caption_draft(caption);
        self.insert_text(token.as_str());
        self.tell(
            "image staged — ⌫ deletes its chip · hover it to preview",
            "图片已附加 —— ⌫ 删除其标记 · 悬停可预览",
        );
    }

    pub(crate) fn say_image_failed(&mut self, path: &str, error: &str)
        ensures
            final(self)@ == old(self)@.image_failed(path@, error@),
    {
        proof {
            reveal(AppV::image_failed);
        }
        let t = app::say2(
            self.base.locale,
            ("cannot read ", ": ", ""),
            ("无法读取 ", "：", ""),
            path,
            error,
        );
        self.show_tip(t);
    }

    /// The chips of the draft: where they begin and end, and which image they
    /// are.
    pub fn token_spans(&self) -> (r: Vec<Span>)
        ensures
            r@ == self@.chips(),
            forall|i: int|
                0 <= i < r@.len() ==> (#[trigger] r@[i]).0 <= r@[i].1
                    <= self@.live.draft.input.buf.len() && r@[i].2 < self@.live.draft.images.len(),
    {
        proof {
            reveal(session::slot_view);
        }
        draft::token_spans_in(self.live.draft.input.buf.as_str(), &self.live.draft.images)
    }

    fn remove_chip(&mut self, s: Span)
        requires
            s.0 <= s.1 <= old(self)@.live.draft.input.buf.len(),
            s.2 < old(self)@.live.draft.images.len(),
        ensures
            final(self)@ == old(self)@.without_chip(s),
    {
        let name = self.take_chip(s);
        self.tell1(("removed ", ""), ("已移除 ", ""), name.as_str());
    }

    fn take_chip(&mut self, s: Span) -> (r: String)
        requires
            s.0 <= s.1 <= old(self)@.live.draft.input.buf.len(),
            s.2 < old(self)@.live.draft.images.len(),
        ensures
            r@ == old(self)@.live.draft.images[s.2 as int].name,
            final(self)@ == old(self)@.with_input(
                old(self)@.live.draft.input.without_range(s.0 as int, s.1 as int),
            ).with_images(old(self)@.live.draft.images.remove(s.2 as int)),
    {
        proof {
            reveal(session::slot_view);
        }
        let ghost images = self@.live.draft.images;
        assert(images[s.2 as int] == self.live.draft.images@[s.2 as int]@);
        self.live.draft.input.delete_char_range(s.0, s.1);
        let att = self.live.draft.images.remove(s.2);
        assert(draft::attachments_view(self.live.draft.images@) =~= images.remove(s.2 as int));
        att.name
    }

    /// Takes out the chip that deleting at the caret would cut into; tells
    /// whether there was one.
    pub(crate) fn delete_token_at(&mut self, cursor: usize, backward: bool) -> (r: bool)
        ensures
            final(self)@ == old(self)@.cut_chip(cursor as int, backward),
            r == (old(self)@.chip_at(cursor as int, backward) is Some),
    {
        proof {
            reveal(AppV::cut_chip);
        }
        if backward && cursor == 0 {
            return false;
        }
        let probe: usize = if backward {
            cursor - 1
        } else {
            cursor
        };
        let spans = self.token_spans();
        let at = find_span(&spans, probe);
        if at >= spans.len() {
            return false;
        }
        self.remove_chip(spans[at]);
        true
    }

    pub(crate) fn caret(&self) -> (r: usize)
        ensures
            r == self@.live.draft.input.cursor,
    {
        proof {
            reveal(session::slot_view);
        }
        self.live.draft.input.cursor
    }

    /// The image to preview.
    pub fn preview_att(&self) -> (r: Option<usize>)
        ensures
            r == self@.previewed(),
    {
        if let Some(i) = self.pointer.over_chip {
            return Some(i);
        }
        let spans = self.token_spans();
        let c = self.caret();
        let at = find_touching(&spans, c);
        if at < spans.len() {
            Some(spans[at].2)
        } else {
            None
        }
    }
}

} // verus!
