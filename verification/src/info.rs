//! What the client tells of itself in popups.

use crate::app::{App, AppV};
use crate::bus::AuthStatus;
use crate::effect::Locale;
use crate::presets;
use crate::session::{self, RunState};
use crate::text;
use vstd::prelude::*;

verus! {

pub const HELP_ZH: &'static str = "\
- enter · 发送；空 composer 且 Queue 非空时立即发送队首
- alt+↑ · 选择任意排队消息；↑/↓ 选择，enter 编辑/保存，ctrl+d 删除，esc 退出
- ctrl+enter · 立即 steer 当前轮次
- esc · 优先退出 / 推荐；队列编辑时取消；否则中断（保留草稿），空闲时清草稿
- ctrl+c · 有草稿先清除；无草稿时连按 2 次退出（不中断）
- shift+tab · 轮换权限预设 · /permission 打开选择器
- ctrl+p · 打开模型选择器，然后选择推理强度
- ctrl+shift+a · 直接轮换 Agent 预设
- ↓ · 空输入时展开 Agent 会话导航；←/→ 选择，enter 打开，esc 折叠
- /agent · 切换 ACP 广告的 Agent 预设
- /lang · 切换界面语言：/lang zh 或 /lang en
- /auth · ACP 登录；多种方式时打开选择器
- /effort · 推理强度 · /permission 权限预设 · /plan 计划模式
- /resume · 恢复持久会话并继续写入原日志
- /image · 暂存本地图片：/image ./pic.png [说明]
- /clip · 暂存剪贴板图片；ctrl+v 同样可用
- !cmd · 在会话级本地 shell 中运行命令，不经过 Agent；初始目录为 workspace，cd/环境变量跨命令保留
- /<skill> · Agent 命令会进入 / 菜单，选择后由 Host 注入技能正文
- ctrl+o · 展开思考和工具输出 · ctrl+l · 清屏
- 输入框编辑：readline 组合键 + ⌘/⌥ 方向键 + 键盘选区 · 完整映射见 /keys
- 点击工具 · 展开/折叠 · 滚轮滚动对话
- pgup/pgdn · 翻页 · end 回到最新消息
- 鼠标拖动 · 选择并复制文本 · 双击复制单词

每轮会显示：流式思考与回答、工具调用与结果、注入上下文、Subagent 生命周期、
token 用量（含缓存命中）以及轮次结束原因。";

pub const HELP_EN: &'static str = "\
- enter · send · with an empty composer, sends the Queue head now
- alt+↑ · choose any queued prompt · ↑/↓ select, enter edits/saves, ctrl+d deletes, esc closes
- ctrl+enter · steer the active turn immediately
- esc · first closes / suggestions; cancels queue edits; otherwise interrupts (draft survives) or clears an idle draft
- ctrl+c · clear a draft; 2× quits with no draft (never interrupts)
- shift+tab · cycle permission (workspace-write ⇄ full access) · /permission opens the preset picker
- ctrl+p · model picker (host catalog) → effort picker
- ctrl+shift+a · cycle agent preset directly
- ↓ · expand Agent transcript navigation from an empty prompt · ←/→ choose, enter opens, esc collapses
- /agent · switch the agent preset advertised over ACP
- /auth · ACP sign-in (picker when several methods; else Terminal Auth or authenticate _meta)
- /effort · reasoning effort · /permission preset · /plan host plan mode
- /resume · pick up a durable session — transcript replays, log continues
- /image · stage a local image — /image ./pic.png [caption]
- /clip · stage the clipboard image — /clip [caption] · ctrl+v also works
- !cmd · run in the session's local shell (not the agent); starts in the workspace, keeps cd/env across commands
- /<skill> · agent commands join the / menu — enter ships it and the host injects the skill body
- ctrl+o · expand thoughts + tool output · ctrl+l · clear
- editing · readline chords + ⌘/⌥ arrows (ctrl+arrows elsewhere) · full map in /keys
- click tool · expand/collapse that tool · wheel scrolls the conversation
- pgup/pgdn · scroll · mouse wheel works · end follows the tail
- mouse drag · select text — copied on release · 2×click copies a word

Per turn: streamed reasoning, answer, tool calls with results, injected
context, subagent lifecycles, token usage (incl. cache hits), end reason.";

/// The tokens that a session has used.
#[derive(Debug, Clone, Copy, PartialEq, Eq)]
pub struct Usage {
    pub input: u64,
    pub output: u64,
    pub cached: u64,
    pub reasoning: u64,
}

/// The turns of a session and the time they took.
#[derive(Debug, Clone, Copy, PartialEq, Eq)]
pub struct Stats {
    pub turns: u64,
    pub steps: u64,
    pub turn_millis: u64,
    pub tool_millis: u64,
    /// How many turns came to a first token, and how long they took to it.
    pub ttft_count: u64,
    pub ttft_total_millis: u64,
}

/// What follows from the tokens and the times of a session.
#[derive(Debug, Clone, Copy, PartialEq, Eq)]
pub struct SessionCounts {
    pub total: u64,
    /// The time in which no tool ran.
    pub llm_millis: u64,
    /// The mean time to the first token.
    pub first_token: Option<u64>,
    /// Whether a rate of tokens can be told.
    pub has_rate: bool,
}

/// The largest number stands for all that are larger.
pub open spec fn capped(n: int) -> u64 {
    if n <= u64::MAX {
        n as u64
    } else {
        u64::MAX
    }
}

pub open spec fn counts_of(u: Usage, s: Stats) -> SessionCounts {
    let llm_millis = if s.turn_millis >= s.tool_millis {
        (s.turn_millis - s.tool_millis) as u64
    } else {
        0
    };
    SessionCounts {
        total: capped(u.input + u.output + u.cached + u.reasoning),
        llm_millis,
        first_token: if s.ttft_count > 0 {
            Some(s.ttft_total_millis / s.ttft_count)
        } else {
            None
        },
        has_rate: llm_millis > 0 && u.output > 0,
    }
}

/// What follows from the tokens and the times of a session.
pub fn session_counts(u: Usage, s: Stats) -> (r: SessionCounts)
    ensures
        r == counts_of(u, s),
        r.total == capped(u.input + u.output + u.cached + u.reasoning),
        r.llm_millis == (if s.turn_millis >= s.tool_millis {
            s.turn_millis - s.tool_millis
        } else {
            0
        }),
        r.first_token == (if s.ttft_count > 0 {
            Some(s.ttft_total_millis / s.ttft_count)
        } else {
            None
        }),
        r.has_rate == (r.llm_millis > 0 && u.output > 0),
{
    let llm_millis: u64 = s.turn_millis.saturating_sub(s.tool_millis);
    SessionCounts {
        total: u.input.saturating_add(u.output).saturating_add(u.cached).saturating_add(
            u.reasoning,
        ),
        llm_millis,
        first_token: if s.ttft_count > 0 {
            Some(s.ttft_total_millis / s.ttft_count)
        } else {
            None
        },
        has_rate: llm_millis > 0 && u.output > 0,
    }
}

/// How many tokens one of those is that are printed.
pub open spec fn unit_of(value: u64) -> u64 {
    if value < 1000 {
        1
    } else if value < 1_000_000 {
        1000
    } else {
        1_000_000
    }
}

/// How many tokens one of those is that are printed: one, a thousand or a
/// million.
pub fn token_unit(value: u64) -> (r: u64)
    ensures
        r == unit_of(value),
{
    if value < 1000 {
        1
    } else if value < 1_000_000 {
        1000
    } else {
        1_000_000
    }
}

/// A number of tokens. `rounded` is what they are in thousands or millions, to
/// one digit behind the point; below a thousand the number itself is printed.
pub open spec fn tokens_text(value: u64, rounded: Seq<char>) -> Seq<char> {
    if value < 1000 {
        text::decimal(value as nat)
    } else if value < 1_000_000 {
        rounded + "K"@
    } else {
        rounded + "M"@
    }
}

pub fn fmt_tokens(value: u64, rounded: &str) -> (r: String)
    ensures
        r@ == tokens_text(value, rounded@),
{
    if value < 1000 {
        text::decimal_string(value)
    } else if value < 1_000_000 {
        text::concat2(rounded, "K")
    } else {
        text::concat2(rounded, "M")
    }
}

/// A span of time: from a minute on whole minutes and seconds, below it what
/// `rounded` tells, the seconds to one digit behind the point.
pub open spec fn duration_text(ms: u64, rounded: Seq<char>) -> Seq<char> {
    if ms < 60_000 {
        rounded + "s"@
    } else {
        text::decimal((ms / 60_000) as nat) + "m"@ + text::decimal(((ms % 60_000) / 1000) as nat)
            + "s"@
    }
}

pub fn fmt_duration(ms: u64, rounded: &str) -> (r: String)
    ensures
        r@ == duration_text(ms, rounded@),
{
    if ms < 60_000 {
        text::concat2(rounded, "s")
    } else {
        let mut r = text::concat3(
            text::decimal_string(ms / 60_000).as_str(),
            "m",
            text::decimal_string((ms % 60_000) / 1000).as_str(),
        );
        text::push_str(&mut r, "s");
        r
    }
}

/// The figures of a session to one digit behind the point: tokens in their
/// unit, times in seconds, and the tokens put out per second.
#[derive(Debug, PartialEq, Eq)]
pub struct Figures<S = String> {
    pub input: S,
    pub output: S,
    pub cached: S,
    pub reasoning: S,
    pub total: S,
    pub llm_time: S,
    pub tool_time: S,
    pub first_token: S,
    pub rate: S,
}

impl View for Figures {
    type V = Figures<Seq<char>>;

    open spec fn view(&self) -> Self::V {
        Figures {
            input: self.input@,
            output: self.output@,
            cached: self.cached@,
            reasoning: self.reasoning@,
            total: self.total@,
            llm_time: self.llm_time@,
            tool_time: self.tool_time@,
            first_token: self.first_token@,
            rate: self.rate@,
        }
    }
}

/// A line that is there only with a value.
pub open spec fn line(head: Seq<char>, x: Option<Seq<char>>, tail: Seq<char>) -> Seq<char> {
    match x {
        Some(x) => head + x + tail,
        None => Seq::empty(),
    }
}

fn make_line(head: &str, x: Option<&str>, tail: &str) -> (r: String)
    ensures
        r@ == line(head@, text::opt_str_view(x), tail@),
{
    match x {
        Some(x) => text::concat3(head, x, tail),
        None => text::empty(),
    }
}

fn as_str_opt<'a>(s: &'a Option<String>) -> (r: Option<&'a str>)
    ensures
        text::opt_str_view(r) == text::opt_view(*s),
{
    match s {
        Some(t) => Some(t.as_str()),
        None => None,
    }
}

pub open spec fn permission_words(l: Locale, preset: Seq<char>) -> Seq<char> {
    if l == Locale::Zh && preset == "read-only"@ {
        "只读"@
    } else if l == Locale::Zh && preset == "workspace-write"@ {
        "工作区可写"@
    } else if l == Locale::Zh && preset == "danger-full-access"@ {
        "完全访问"@
    } else {
        presets::permission_shown(preset)
    }
}

fn say_permission(l: Locale, preset: &str) -> (r: String)
    ensures
        r@ == permission_words(l, preset@),
{
    if l == Locale::Zh {
        if text::same(preset, "read-only") {
            return "只读".to_owned();
        }
        if text::same(preset, "workspace-write") {
            return "工作区可写".to_owned();
        }
        if text::same(preset, "danger-full-access") {
            return "完全访问".to_owned();
        }
    }
    presets::permission_label(preset)
}

impl AppV {
    #[verifier::opaque]
    pub open spec fn show_help(self) -> AppV {
        self.show_text(
            "builtin.help"@,
            self.says("help"@, "帮助"@),
            self.says(HELP_EN@, HELP_ZH@),
        )
    }

    #[verifier::opaque]
    pub open spec fn show_keys(self, t: Seq<char>) -> AppV {
        self.show_text("builtin.keys"@, self.says("Keyboard shortcuts"@, "快捷键"@), t)
    }

    /// The method in use, by its name or its id.
    pub open spec fn method_in_use(self) -> Option<Seq<char>> {
        match self.conn.auth.method_name {
            Some(n) => Some(n),
            None => self.conn.auth.method_id,
        }
    }

    pub open spec fn failure_message(self) -> Seq<char> {
        text::text_or(self.conn.auth.message, "ACP authenticate failed"@)
    }

    /// Where the credentials come from.
    pub open spec fn credentials(self) -> Seq<char> {
        if self.base.demo {
            "demo mode (no API calls)"@
        } else {
            match self.conn.auth.status {
                AuthStatus::Configured => match self.method_in_use() {
                    Some(n) => "ACP authenticate · "@ + n,
                    None => "ready · credential source not reported"@,
                },
                AuthStatus::SigningIn => "signing in — waiting for Agent response"@,
                AuthStatus::Failed => "sign-in failed · "@ + self.failure_message() + " · /auth"@,
                AuthStatus::NeedsAuth => match self.method_in_use() {
                    Some(n) => "sign-in needed · "@ + n + " · /auth"@,
                    None => "sign-in needed · /auth"@,
                },
                AuthStatus::Unknown => if self.cfg.has_credentials {
                    match self.cfg.credential_source {
                        Some(s) => "api key present · "@ + s,
                        None => "api key present"@,
                    }
                } else {
                    "DEEPSEEK_API_KEY not set"@
                },
            }
        }
    }

    pub open spec fn default_mark(self) -> Seq<char> {
        if self.live.modes.agent_preset is None {
            " (default)"@
        } else {
            ""@
        }
    }

    /// The first half of the facts on a session.
    #[verifier::opaque]
    pub open spec fn session_facts(self) -> Seq<char> {
        "- session · "@ + self.live.id + line(" · "@, self.live.title, ""@) + "\n- provider · "@
            + self.cfg.provider + " / "@ + self.cfg.model + line(
            "\n- effort · "@,
            self.live.modes.effort,
            ""@,
        ) + "\n- agent · "@ + self.label_of(self.mode_now()) + self.default_mark()
            + "\n- workspace · "@ + self.cfg.workspace + "\n- session root · "@
            + self.cfg.session_root + "\n- runtime · "@ + self.cfg.bin + "\n- server · "@
            + text::text_or(self.conn.server, "not started"@) + "\n- credentials · "@
            + self.credentials()
    }

    #[verifier::opaque]
    pub open spec fn show_session(self, u: Usage, s: Stats, f: Figures<Seq<char>>) -> AppV {
        self.show_text(
            "builtin.session"@,
            self.says("session"@, "会话"@),
            self.session_facts() + figures_text(u, s, f),
        )
    }

    pub open spec fn state_words(self) -> Seq<char> {
        match self.state {
            RunState::Idle => self.says("idle"@, "空闲"@),
            RunState::Starting => self.says("starting"@, "启动中"@),
            RunState::Running => self.says("running"@, "工作中"@),
        }
    }

    pub open spec fn connection_words(self) -> Seq<char> {
        if self.base.demo {
            "demo"@
        } else if self.status.connection_error is Some {
            "failed"@
        } else if self.base.attached {
            "attached"@
        } else {
            "not attached"@
        }
    }

    pub open spec fn auth_words(self) -> Option<Seq<char>> {
        match self.conn.auth.status {
            AuthStatus::SigningIn => Some("signing in — waiting for Agent response"@),
            AuthStatus::Failed => Some("sign-in failed · "@ + self.failure_message()),
            AuthStatus::Configured => Some("configured"@ + line(" · "@, self.method_in_use(), ""@)),
            AuthStatus::NeedsAuth => Some(
                "needs sign-in"@ + line(" · "@, self.method_in_use(), ""@),
            ),
            AuthStatus::Unknown => None,
        }
    }

    pub open spec fn permission_in_use(self) -> Seq<char> {
        match self.live.modes.permission {
            Some(p) => p,
            None => match self.live.modes.sandbox {
                Some(s) => s,
                None => self.permission_now(),
            },
        }
    }

    pub open spec fn session_line(self) -> Seq<char> {
        if self.live.bound {
            "- session · "@ + self.live.id + "\n"@
        } else {
            "- session · unbound\n"@
        }
    }

    #[verifier::opaque]
    pub open spec fn status_text(self) -> Seq<char> {
        "- state · "@ + self.state_words() + "\n- acp · "@ + self.connection_words() + "\n"@
            + line("- auth · "@, self.auth_words(), "\n"@) + self.session_line() + line(
            "- server · "@,
            self.conn.server,
            "\n"@,
        ) + "- model · "@ + self.cfg.model + line("\n- effort · "@, self.live.modes.effort, ""@)
            + "\n- agent · "@ + self.label_of(self.mode_now()) + self.default_mark()
            + "\n- permission · "@ + permission_words(self.base.locale, self.permission_in_use())
            + "\n- plan · "@ + (if self.live.modes.plan {
            "on"@
        } else {
            "off"@
        })
    }

    #[verifier::opaque]
    pub open spec fn show_status(self) -> AppV {
        self.show_text("builtin.status"@, self.says("Status"@, "状态"@), self.status_text())
    }
}

/// The second half of the facts on a session.
#[verifier::opaque]
pub open spec fn figures_text(u: Usage, s: Stats, f: Figures<Seq<char>>) -> Seq<char> {
    let c = counts_of(u, s);
    "\n- tokens · ↑"@ + tokens_text(u.input, f.input) + " ↓"@ + tokens_text(u.output, f.output)
        + " (cached "@ + tokens_text(u.cached, f.cached) + " · reasoning "@ + tokens_text(
        u.reasoning,
        f.reasoning,
    ) + ") · Σ "@ + tokens_text(c.total, f.total) + "\n- turns · "@ + text::decimal(s.turns as nat)
        + " · steps · "@ + text::decimal(s.steps as nat) + "\n- LLM · "@ + duration_text(
        c.llm_millis,
        f.llm_time,
    ) + " · tool · "@ + duration_text(s.tool_millis, f.tool_time) + line(
        "\n- TTFT avg · "@,
        first_token_text(c, f.first_token),
        ""@,
    ) + line(
        "\n- rate · "@,
        if c.has_rate {
            Some(f.rate)
        } else {
            None
        },
        " tok/s"@,
    )
}

/// The mean time to the first token, where there is one.
pub open spec fn first_token_text(c: SessionCounts, rounded: Seq<char>) -> Option<Seq<char>> {
    match c.first_token {
        Some(ms) => Some(duration_text(ms, rounded)),
        None => None,
    }
}

/// The second half of the facts on a session.
pub fn print_figures(u: Usage, s: Stats, f: &Figures) -> (r: String)
    ensures
        r@ == figures_text(u, s, f@),
{
    proof {
        reveal(figures_text);
    }
    let c = session_counts(u, s);
    let mut r = text::concat3(
        "\n- tokens · ↑",
        fmt_tokens(u.input, f.input.as_str()).as_str(),
        " ↓",
    );
    text::push_str(&mut r, fmt_tokens(u.output, f.output.as_str()).as_str());
    text::push_str(&mut r, " (cached ");
    text::push_str(&mut r, fmt_tokens(u.cached, f.cached.as_str()).as_str());
    text::push_str(&mut r, " · reasoning ");
    text::push_str(&mut r, fmt_tokens(u.reasoning, f.reasoning.as_str()).as_str());
    text::push_str(&mut r, ") · Σ ");
    text::push_str(&mut r, fmt_tokens(c.total, f.total.as_str()).as_str());
    text::push_str(&mut r, "\n- turns · ");
    text::push_str(&mut r, text::decimal_string(s.turns).as_str());
    text::push_str(&mut r, " · steps · ");
    text::push_str(&mut r, text::decimal_string(s.steps).as_str());
    text::push_str(&mut r, "\n- LLM · ");
    text::push_str(&mut r, fmt_duration(c.llm_millis, f.llm_time.as_str()).as_str());
    text::push_str(&mut r, " · tool · ");
    text::push_str(&mut r, fmt_duration(s.tool_millis, f.tool_time.as_str()).as_str());
    let mean: Option<String> = match c.first_token {
        Some(ms) => Some(fmt_duration(ms, f.first_token.as_str())),
        None => None,
    };
    text::push_str(&mut r, make_line("\n- TTFT avg · ", as_str_opt(&mean), "").as_str());
    let rate: Option<&str> = if c.has_rate {
        Some(f.rate.as_str())
    } else {
        None
    };
    text::push_str(&mut r, make_line("\n- rate · ", rate, " tok/s").as_str());
    r
}

impl App {
    pub(crate) fn push_help(&mut self)
        ensures
            final(self)@ == old(self)@.show_help(),
    {
        proof {
            reveal(AppV::show_help);
        }
        let title = self.say("help", "帮助");
        let t = self.say(HELP_EN, HELP_ZH);
        self.open_text_overlay("builtin.help", title, t);
    }

    pub(crate) fn push_keys(&mut self, t: String)
        ensures
            final(self)@ == old(self)@.show_keys(t@),
    {
        proof {
            reveal(AppV::show_keys);
        }
        let title = self.say("Keyboard shortcuts", "快捷键");
        self.open_text_overlay("builtin.keys", title, t);
    }

    fn method_used(&self) -> (r: Option<String>)
        ensures
            text::opt_view(r) == self@.method_in_use(),
    {
        match &self.conn.auth.method_name {
            Some(n) => Some(n.clone()),
            None => text::copy_opt(&self.conn.auth.method_id),
        }
    }

    fn say_failure(&self) -> (r: String)
        ensures
            r@ == self@.failure_message(),
    {
        match &self.conn.auth.message {
            Some(m) => m.clone(),
            None => "ACP authenticate failed".to_owned(),
        }
    }

    fn say_credentials(&self) -> (r: String)
        ensures
            r@ == self@.credentials(),
    {
        if self.base.demo {
            return "demo mode (no API calls)".to_owned();
        }
        match self.conn.auth.status {
            AuthStatus::Configured => match self.method_used() {
                Some(n) => text::concat2("ACP authenticate · ", n.as_str()),
                None => "ready · credential source not reported".to_owned(),
            },
            AuthStatus::SigningIn => "signing in — waiting for Agent response".to_owned(),
            AuthStatus::Failed => {
                let m = self.say_failure();
                text::concat3("sign-in failed · ", m.as_str(), " · /auth")
            },
            AuthStatus::NeedsAuth => match self.method_used() {
                Some(n) => text::concat3("sign-in needed · ", n.as_str(), " · /auth"),
                None => "sign-in needed · /auth".to_owned(),
            },
            AuthStatus::Unknown => if self.cfg.has_credentials {
                match &self.cfg.credential_source {
                    Some(s) => text::concat2("api key present · ", s.as_str()),
                    None => "api key present".to_owned(),
                }
            } else {
                "DEEPSEEK_API_KEY not set".to_owned()
            },
        }
    }

    fn say_default(&self) -> (r: &'static str)
        ensures
            r@ == self@.default_mark(),
    {
        proof {
            reveal(session::slot_view);
        }
        if self.live.modes.agent_preset.is_none() {
            " (default)"
        } else {
            ""
        }
    }

    fn title_line(&self) -> (r: String)
        ensures
            r@ == line(" · "@, self@.live.title, ""@),
    {
        proof {
            reveal(session::slot_view);
        }
        make_line(" · ", as_str_opt(&self.live.title), "")
    }

    fn effort_line(&self) -> (r: String)
        ensures
            r@ == line("\n- effort · "@, self@.live.modes.effort, ""@),
    {
        proof {
            reveal(session::slot_view);
        }
        make_line("\n- effort · ", as_str_opt(&self.live.modes.effort), "")
    }

    fn mode_label(&self) -> (r: String)
        ensures
            r@ == self@.label_of(self@.mode_now()),
    {
        let mode = self.current_mode();
        self.agent_label(mode.as_str())
    }

    fn print_session(&self) -> (r: String)
        ensures
            r@ == self@.session_facts(),
    {
        proof {
            reveal(AppV::session_facts);
        }
        let mut r = text::concat2("- session · ", self.session_id().as_str());
        text::push_str(&mut r, self.title_line().as_str());
        text::push_str(&mut r, "\n- provider · ");
        text::push_str(&mut r, self.cfg.provider.as_str());
        text::push_str(&mut r, " / ");
        text::push_str(&mut r, self.cfg.model.as_str());
        text::push_str(&mut r, self.effort_line().as_str());
        text::push_str(&mut r, "\n- agent · ");
        text::push_str(&mut r, self.mode_label().as_str());
        text::push_str(&mut r, self.say_default());
        text::push_str(&mut r, "\n- workspace · ");
        text::push_str(&mut r, self.cfg.workspace.as_str());
        text::push_str(&mut r, "\n- session root · ");
        text::push_str(&mut r, self.cfg.session_root.as_str());
        text::push_str(&mut r, "\n- runtime · ");
        text::push_str(&mut r, self.cfg.bin.as_str());
        text::push_str(&mut r, "\n- server · ");
        text::push_str(
            &mut r,
            text::owned_or(as_str_opt(&self.conn.server), "not started").as_str(),
        );
        text::push_str(&mut r, "\n- credentials · ");
        text::push_str(&mut r, self.say_credentials().as_str());
        r
    }

    pub(crate) fn push_session_info(&mut self, u: Usage, s: Stats, f: &Figures)
        ensures
            final(self)@ == old(self)@.show_session(u, s, f@),
    {
        proof {
            reveal(AppV::show_session);
        }
        let mut t = self.print_session();
        text::push_str(&mut t, print_figures(u, s, f).as_str());
        let title = self.say("session", "会话");
        self.open_text_overlay("builtin.session", title, t);
    }

    fn say_state(&self) -> (r: String)
        ensures
            r@ == self@.state_words(),
    {
        match self.state {
            RunState::Idle => self.say("idle", "空闲"),
            RunState::Starting => self.say("starting", "启动中"),
            RunState::Running => self.say("running", "工作中"),
        }
    }

    fn say_connection(&self) -> (r: &'static str)
        ensures
            r@ == self@.connection_words(),
    {
        if self.base.demo {
            "demo"
        } else if self.status.connection_error.is_some() {
            "failed"
        } else if self.base.attached {
            "attached"
        } else {
            "not attached"
        }
    }

    fn say_auth(&self) -> (r: Option<String>)
        ensures
            text::opt_view(r) == self@.auth_words(),
    {
        match self.conn.auth.status {
            AuthStatus::SigningIn => Some("signing in — waiting for Agent response".to_owned()),
            AuthStatus::Failed => {
                let m = self.say_failure();
                Some(text::concat2("sign-in failed · ", m.as_str()))
            },
            AuthStatus::Configured => {
                let m = self.method_used();
                Some(text::concat2("configured", make_line(" · ", as_str_opt(&m), "").as_str()))
            },
            AuthStatus::NeedsAuth => {
                let m = self.method_used();
                Some(text::concat2("needs sign-in", make_line(" · ", as_str_opt(&m), "").as_str()))
            },
            AuthStatus::Unknown => None,
        }
    }

    fn permission_used(&self) -> (r: String)
        ensures
            r@ == self@.permission_in_use(),
    {
        proof {
            reveal(session::slot_view);
        }
        match &self.live.modes.permission {
            Some(p) => p.clone(),
            None => match &self.live.modes.sandbox {
                Some(s) => s.clone(),
                None => self.current_permission(),
            },
        }
    }

    fn say_session_line(&self) -> (r: String)
        ensures
            r@ == self@.session_line(),
    {
        if self.is_bound() {
            text::concat3("- session · ", self.session_id().as_str(), "\n")
        } else {
            "- session · unbound\n".to_owned()
        }
    }

    fn say_plan(&self) -> (r: &'static str)
        ensures
            r@ == (if self@.live.modes.plan {
                "on"@
            } else {
                "off"@
            }),
    {
        proof {
            reveal(session::slot_view);
        }
        if self.live.modes.plan {
            "on"
        } else {
            "off"
        }
    }

    fn print_status(&self) -> (r: String)
        ensures
            r@ == self@.status_text(),
    {
        proof {
            reveal(AppV::status_text);
        }
        let auth = self.say_auth();
        let mut r = text::concat3("- state · ", self.say_state().as_str(), "\n- acp · ");
        text::push_str(&mut r, self.say_connection());
        text::push_str(&mut r, "\n");
        text::push_str(&mut r, make_line("- auth · ", as_str_opt(&auth), "\n").as_str());
        text::push_str(&mut r, self.say_session_line().as_str());
        text::push_str(&mut r, make_line("- server · ", as_str_opt(&self.conn.server), "\n").as_str());
        text::push_str(&mut r, "- model · ");
        text::push_str(&mut r, self.cfg.model.as_str());
        text::push_str(&mut r, self.effort_line().as_str());
        text::push_str(&mut r, "\n- agent · ");
        text::push_str(&mut r, self.mode_label().as_str());
        text::push_str(&mut r, self.say_default());
        text::push_str(&mut r, "\n- permission · ");
        text::push_str(
            &mut r,
            say_permission(self.base.locale, self.permission_used().as_str()).as_str(),
        );
        text::push_str(&mut r, "\n- plan · ");
        text::push_str(&mut r, self.say_plan());
        r
    }

    pub(crate) fn push_status_info(&mut self)
        ensures
            final(self)@ == old(self)@.show_status(),
    {
        proof {
            reveal(AppV::show_status);
        }
        let t = self.print_status();
        let title = self.say("Status", "状态");
        self.open_text_overlay("builtin.status", title, t);
    }
}

} // verus!
