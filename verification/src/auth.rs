//! Signing in.

use crate::app::{self, App, AppV, StatusV};
use crate::bus::{self, AuthMethod, AuthMethodV, AuthNotice, AuthSnapshot, AuthStatus, AuthV, Cmd, ConnectionV};
use crate::effect::{Effect, NoticeLevel};
use crate::lists::Row;
use crate::picker::{self, PickerItem, PickerKind};
use crate::seqs;
use crate::session::{self, Run, RunState, ViewBody, ViewOverlay};
use crate::text;
use crate::theme::{find_row_or_first, opened, row_or_first};
use vstd::prelude::*;

verus! {

pub open spec fn methods_view(v: Seq<AuthMethod>) -> Seq<AuthMethodV> {
    v.map_values(|m: AuthMethod| m@)
}

pub open spec fn method_label(m: AuthMethodV) -> Seq<char> {
    text::text_or(m.name, m.id)
}

pub open spec fn method_row(m: AuthMethodV) -> Row {
    PickerItem { id: m.id, label: method_label(m), meta: m.kind_name, provider: None }
}

pub open spec fn method_rows(v: Seq<AuthMethodV>) -> Seq<Row> {
    Seq::new(v.len(), |i: int| method_row(v[i]))
}

pub open spec fn method_named(id: Seq<char>) -> spec_fn(AuthMethodV) -> bool {
    |m: AuthMethodV| m.id == id
}

fn label_of(m: &AuthMethod) -> (r: String)
    ensures
        r@ == method_label(m@),
{
    match &m.name {
        Some(n) => n.clone(),
        None => m.id.clone(),
    }
}

fn list_methods(v: &Vec<AuthMethod>) -> (r: Vec<PickerItem>)
    ensures
        picker::items_view(r@) == method_rows(methods_view(v@)),
{
    let ghost all = methods_view(v@);
    let mut r: Vec<PickerItem> = Vec::new();
    let mut i: usize = 0;
    while i < v.len()
        invariant
            i <= v@.len(),
            all == methods_view(v@),
            r@.len() == i,
            forall|k: int| 0 <= k < i ==> (#[trigger] r@[k])@ == method_row(all[k]),
        decreases v@.len() - i,
    {
        let m = &v[i];
        assert(all[i as int] == m@);
        r.push(
            PickerItem {
                id: m.id.clone(),
                label: label_of(m),
                meta: m.kind_name.clone(),
                provider: None,
            },
        );
        i = i + 1;
    }
    assert(picker::items_view(r@) =~= method_rows(all));
    r
}

fn knows_method(v: &Vec<AuthMethod>, id: &str) -> (r: bool)
    ensures
        r == seqs::some(methods_view(v@), method_named(id@)),
{
    let ghost all = methods_view(v@);
    let mut i: usize = 0;
    while i < v.len() && !text::same(v[i].id.as_str(), id)
        invariant
            i <= v@.len(),
            all == methods_view(v@),
            forall|k: int| 0 <= k < i ==> !method_named(id@)(#[trigger] all[k]),
        decreases v@.len() - i,
    {
        assert(all[i as int] == v@[i as int]@);
        i = i + 1;
    }
    proof {
        seqs::lemma_first_index_is(all, method_named(id@), i as int);
    }
    i < v.len()
}

pub open spec fn first_white(s: Seq<char>) -> int {
    seqs::first_index(s, |c: char| text::white_space(c))
}

/// The text before the first white space, and what stands behind it.
pub open spec fn first_word(s: Seq<char>) -> (Seq<char>, Seq<char>) {
    let at = first_white(s);
    if at < s.len() {
        (s.take(at), text::trimmed(s.skip(at + 1)))
    } else {
        (s, Seq::empty())
    }
}

pub(crate) fn split_first_word(s: &str) -> (r: (String, String))
    ensures
        (r.0@, r.1@) == first_word(s@),
{
    let v = text::chars_of(s);
    let ghost p = |c: char| text::white_space(c);
    let mut i: usize = 0;
    while i < v.len() && !text::is_white_space(v[i])
        invariant
            i <= v@.len(),
            v@ == s@,
            p == (|c: char| text::white_space(c)),
            forall|k: int| 0 <= k < i ==> !p(#[trigger] s@[k]),
        decreases v@.len() - i,
    {
        i = i + 1;
    }
    proof {
        seqs::lemma_first_index_is(s@, p, i as int);
    }
    if i < v.len() {
        let a = text::string_of_range(&v, 0, i);
        let b = text::string_of_range(&v, i + 1, v.len());
        assert(a@ =~= s@.take(i as int));
        assert(b@ =~= s@.skip(i as int + 1));
        let t = text::trim(b.as_str());
        (a, t)
    } else {
        (s.to_owned(), text::empty())
    }
}

/// The method that an argument means, and the values for it.
pub open spec fn method_meant(a: AuthV, arg: Seq<char>) -> (Seq<char>, Seq<char>) {
    if seqs::some(a.methods, method_named(first_word(arg).0)) {
        first_word(arg)
    } else {
        (text::text_or(a.method_id, a.methods[0].id), arg)
    }
}

pub open spec fn failure_id() -> Seq<char> {
    "builtin.auth.failure"@
}

pub open spec fn text_overlay(id: Seq<char>, title: Seq<char>, t: Seq<char>) -> ViewOverlay<Seq<char>> {
    ViewOverlay { id, title, body: ViewBody::Markdown(t), scroll: 0, notify_plugin: false }
}

impl AppV {
    pub open spec fn with_auth(self, a: AuthV) -> AppV {
        AppV { conn: ConnectionV { auth: a, ..self.conn }, ..self }
    }

    /// A text in a popup of its own.
    pub open spec fn show_text(self, id: Seq<char>, title: Seq<char>, t: Seq<char>) -> AppV {
        self.with_view(Some(text_overlay(id, title, t)))
    }

    /// The popup on a failed sign-in closes.
    pub open spec fn without_failure(self) -> AppV {
        match self.live.popups.view {
            Some(v) => if v.id == failure_id() {
                self.with_view(None)
            } else {
                self
            },
            None => self,
        }
    }

    /// The turn is over, and nothing is said of it.
    pub open spec fn at_rest(self) -> AppV {
        AppV { state: RunState::Idle, ..self }.with_run(
            Run { started: None, note: Seq::empty(), ..self.live.run },
        )
    }

    #[verifier::opaque]
    pub open spec fn open_methods(self) -> AppV {
        let rows = method_rows(self.conn.auth.methods);
        if rows.len() == 0 {
            self
        } else {
            self.with_picker(
                Some(
                    opened(
                        PickerKind::Auth,
                        self.says(
                            " sign in · enter select · esc close "@,
                            " 登录 · enter 选择 · esc 关闭 "@,
                        ),
                        match self.conn.auth.method_id {
                            Some(id) => row_or_first(rows, id),
                            None => 0,
                        },
                        rows,
                    ),
                ),
            )
        }
    }

    /// Signing in begins; with several methods and none named, a list opens.
    #[verifier::opaque]
    pub open spec fn sign_in(self, arg: Seq<char>) -> AppV {
        let a = text::trimmed(arg);
        if self.base.demo {
            self.notice(
                NoticeLevel::Info,
                self.says("demo has no ACP authenticate"@, "演示模式没有 ACP authenticate"@),
            )
        } else if self.conn.auth.status == AuthStatus::SigningIn {
            self.tell(
                "sign-in is still pending — waiting for the Agent"@,
                "登录仍在进行中，等待 Agent 返回结果"@,
            )
        } else if self.conn.auth.methods.len() == 0 {
            self.notice(
                NoticeLevel::Warn,
                text::text_or(
                    self.conn.auth.message,
                    self.says("this agent did not advertise auth methods"@, "此 Agent 未声明认证方式"@),
                ),
            )
        } else if a.len() == 0 && self.conn.auth.methods.len() > 1 {
            self.open_methods()
        } else {
            let (method_id, rest) = method_meant(self.conn.auth, a);
            self.emit(Effect::ChooseAuth { method_id, rest })
        }
    }

    /// A method is set up by variables only.
    pub open spec fn refuse_method(self, m: AuthMethodV) -> AppV {
        let vars = text::joined(m.vars, ", "@);
        self.notice(
            NoticeLevel::Warn,
            if vars.len() == 0 {
                app::said1(
                    self.base.locale,
                    (
                        "ACP auth method "@,
                        " requires credential variables and cannot be started as a sign-in flow."@,
                    ),
                    ("ACP 认证方式 "@, " 需要凭据变量，无法以登录流程启动。"@),
                    m.id,
                )
            } else {
                app::said2(
                    self.base.locale,
                    (
                        "ACP auth method "@,
                        " requires credential variables ("@,
                        ") and cannot be started as a sign-in flow."@,
                    ),
                    ("ACP 认证方式 "@, " 需要凭据变量（"@, "），无法以登录流程启动。"@),
                    m.id,
                    vars,
                )
            },
        )
    }

    pub open spec fn authenticating(self, m: AuthMethodV, values: Seq<(Seq<char>, Seq<char>)>) -> AppV {
        self.with_auth(
            AuthV {
                status: AuthStatus::SigningIn,
                method_id: Some(m.id),
                method_name: m.name,
                message: None,
                ..self.conn.auth
            },
        ).without_failure().send(Cmd::Authenticate { method_id: m.id, values })
    }

    pub open spec fn leave_for(self, m: AuthMethodV, launch: u64) -> AppV {
        AppV { status: StatusV { terminal_auth: Some(launch), ..self.status }, ..self }.notice(
            NoticeLevel::Info,
            app::said1(
                self.base.locale,
                ("leaving the TUI for "@, " — return here when it finishes"@),
                ("离开 TUI 前往 "@, " —— 完成后回到这里"@),
                method_label(m),
            ),
        )
    }

    /// The sign-in module has found a method and the values for it.
    #[verifier::opaque]
    pub open spec fn sign_in_with(
        self,
        method_id: Seq<char>,
        chosen: Option<usize>,
        values: Seq<(Seq<char>, Seq<char>)>,
        complete: bool,
    ) -> AppV {
        if chosen is None || chosen->0 >= self.conn.auth.methods.len() {
            self.notice(
                NoticeLevel::Warn,
                app::said1(
                    self.base.locale,
                    ("ACP auth method is unavailable or not supported: "@, ""@),
                    ("ACP 认证方式不可用或不支持："@, ""@),
                    method_id,
                ),
            )
        } else {
            let m = self.conn.auth.methods[chosen->0 as int];
            if m.env_prompt {
                self.refuse_method(m)
            } else if m.form && !complete {
                self.tell(
                    "usage: /auth <api-key> · gateway: /auth <base-url> <api-key>"@,
                    "用法：/auth <api-key> · 网关：/auth <base-url> <api-key>"@,
                )
            } else if values.len() == 0 && m.launch is Some {
                self.leave_for(m, m.launch->0)
            } else {
                self.authenticating(m, values)
            }
        }
    }

    /// The user is asked to sign in, unless that is under way.
    #[verifier::opaque]
    pub open spec fn sign_in_needed(self) -> AppV {
        if self.base.demo || self.status.terminal_auth is Some || (self.menu.picker is Some
            && self.menu.picker->0.kind == PickerKind::Auth) {
            self
        } else {
            self.at_rest().tip(
                self.says("sign-in needed — /auth to retry"@, "需要登录 —— /auth 重试"@),
            ).sign_in(""@)
        }
    }

    pub open spec fn failed_text(self, message: Option<Seq<char>>) -> Seq<char> {
        text::text_or(message, "ACP authenticate failed"@) + "\n\n"@ + self.says(
            "Close this panel, then use /auth to retry or choose another method. Browser authorization alone does not mean the Agent accepted sign-in."@,
            "关闭面板后可用 /auth 重试或选择其他方式。浏览器授权完成不代表 Agent 已接受登录。"@,
        )
    }

    pub open spec fn without_auth_list(self) -> AppV {
        match self.menu.picker {
            Some(p) => if p.kind == PickerKind::Auth {
                self.with_picker(None)
            } else {
                self
            },
            None => self,
        }
    }

    pub open spec fn waiting_for_auth(self) -> AppV {
        AppV { state: RunState::Idle, ..self }.with_run(
            Run {
                started: None,
                note: Seq::empty(),
                pending: self.state == RunState::Running || self.live.run.pending,
                ..self.live.run
            },
        )
    }

    pub open spec fn auth_noticed(self, n: Option<AuthNotice<Seq<char>>>) -> AppV {
        match n {
            Some(n) => self.notice(n.level, n.text),
            None => self,
        }
    }

    /// The sign-in state of the viewed session has changed.
    #[verifier::opaque]
    pub open spec fn auth_heard(self, snap: AuthV, n: Option<AuthNotice<Seq<char>>>) -> AppV {
        let a = self.auth_noticed(n);
        (match snap.status {
            AuthStatus::Configured => a.without_failure().without_auth_list(),
            AuthStatus::NeedsAuth => a.waiting_for_auth(),
            AuthStatus::Failed => a.waiting_for_auth().show_text(
                failure_id(),
                self.says("Sign-in failed"@, "登录失败"@),
                self.failed_text(snap.message),
            ),
            _ => a,
        }).with_auth(snap)
    }
}

impl App {
    /// Hands over the sign-in program to run outside the screen.
    pub fn take_terminal_auth(&mut self) -> (r: Option<u64>)
        ensures
            r == old(self)@.status.terminal_auth,
            final(self)@ == (AppV {
                status: StatusV { terminal_auth: None, ..old(self)@.status },
                ..old(self)@
            }),
    {
        let r = self.status.terminal_auth;
        self.status.terminal_auth = None;
        r
    }

    pub(crate) fn set_view(&mut self, v: Option<ViewOverlay>)
        ensures
            final(self)@ == old(self)@.with_view(session::opt_overlay_view(v)),
    {
        proof {
            reveal(session::slot_view);
        }
        self.live.popups.view = v;
    }

    pub(crate) fn open_text_overlay(&mut self, id: &str, title: String, t: String)
        ensures
            final(self)@ == old(self)@.show_text(id@, title@, t@),
    {
        self.set_view(
            Some(
                ViewOverlay {
                    id: id.to_owned(),
                    title,
                    body: ViewBody::Markdown(t),
                    scroll: 0,
                    notify_plugin: false,
                },
            ),
        );
    }

    fn shows_failure(&self) -> (r: bool)
        ensures
            r == (self@.live.popups.view is Some && self@.live.popups.view->0.id == failure_id()),
    {
        proof {
            reveal(session::slot_view);
        }
        match &self.live.popups.view {
            Some(v) => text::same(v.id.as_str(), "builtin.auth.failure"),
            None => false,
        }
    }

    fn close_failure(&mut self)
        ensures
            final(self)@ == old(self)@.without_failure(),
    {
        if self.shows_failure() {
            self.set_view(None);
        }
    }

    pub(crate) fn rest(&mut self)
        ensures
            final(self)@ == old(self)@.at_rest(),
    {
        self.end_turn();
        self.set_note(text::empty());
        assert(self@.live.run.note =~= Seq::empty());
    }

    pub(crate) fn is_picking(&self, kind: PickerKind) -> (r: bool)
        ensures
            r == (self@.menu.picker is Some && self@.menu.picker->0.kind == kind),
    {
        match &self.menu.picker {
            Some(p) => p.kind == kind,
            None => false,
        }
    }

    pub(crate) fn open_auth_picker(&mut self)
        ensures
            final(self)@ == old(self)@.open_methods(),
    {
        proof {
            reveal(AppV::open_methods);
        }
        let items = list_methods(&self.conn.auth.methods);
        assert(picker::items_view(items@).len() == items@.len());
        if items.len() == 0 {
            return;
        }
        let sel = match &self.conn.auth.method_id {
            Some(id) => find_row_or_first(&items, id.as_str()),
            None => 0,
        };
        let title = self.say(
            " sign in · enter select · esc close ",
            " 登录 · enter 选择 · esc 关闭 ",
        );
        self.set_picker(PickerKind::Auth, title, sel, items);
    }

    fn auth_message(&self) -> (r: String)
        ensures
            r@ == text::text_or(
                self@.conn.auth.message,
                self@.says("this agent did not advertise auth methods"@, "此 Agent 未声明认证方式"@),
            ),
    {
        match &self.conn.auth.message {
            Some(m) => m.clone(),
            None => self.say("this agent did not advertise auth methods", "此 Agent 未声明认证方式"),
        }
    }

    fn meant_method(&self, arg: &str) -> (r: (String, String))
        requires
            self@.conn.auth.methods.len() > 0,
        ensures
            (r.0@, r.1@) == method_meant(self@.conn.auth, arg@),
    {
        let (first, rest) = split_first_word(arg);
        if knows_method(&self.conn.auth.methods, first.as_str()) {
            (first, rest)
        } else {
            let id = match &self.conn.auth.method_id {
                Some(id) => id.clone(),
                None => self.conn.auth.methods[0].id.clone(),
            };
            (id, arg.to_owned())
        }
    }

    pub(crate) fn start_auth(&mut self, arg: &str)
        ensures
            final(self)@ == old(self)@.sign_in(arg@),
    {
        proof {
            reveal(AppV::sign_in);
        }
        assert(self@.conn.auth.methods.len() == self.conn.auth.methods@.len());
        if self.base.demo {
            let t = self.say("demo has no ACP authenticate", "演示模式没有 ACP authenticate");
            self.notice(NoticeLevel::Info, t);
            return;
        }
        if self.conn.auth.status == AuthStatus::SigningIn {
            self.tell(
                "sign-in is still pending — waiting for the Agent",
                "登录仍在进行中，等待 Agent 返回结果",
            );
            return;
        }
        if self.conn.auth.methods.len() == 0 {
            let t = self.auth_message();
            self.notice(NoticeLevel::Warn, t);
            return;
        }
        let a = text::trim(arg);
        if a.as_str().is_empty() && self.conn.auth.methods.len() > 1 {
            self.open_auth_picker();
            return;
        }
        let (method_id, rest) = self.meant_method(a.as_str());
        self.emit(Effect::ChooseAuth { method_id, rest });
    }

    fn turn_down_method(&mut self, at: usize)
        requires
            at < old(self)@.conn.auth.methods.len(),
        ensures
            final(self)@ == old(self)@.refuse_method(old(self)@.conn.auth.methods[at as int]),
    {
        let m = &self.conn.auth.methods[at];
        assert(self@.conn.auth.methods[at as int] == m@);
        let vars = text::join(&m.vars, ", ");
        let t = if vars.as_str().is_empty() {
            app::say1(
                self.base.locale,
                (
                    "ACP auth method ",
                    " requires credential variables and cannot be started as a sign-in flow.",
                ),
                ("ACP 认证方式 ", " 需要凭据变量，无法以登录流程启动。"),
                m.id.as_str(),
            )
        } else {
            app::say2(
                self.base.locale,
                (
                    "ACP auth method ",
                    " requires credential variables (",
                    ") and cannot be started as a sign-in flow.",
                ),
                ("ACP 认证方式 ", " 需要凭据变量（", "），无法以登录流程启动。"),
                m.id.as_str(),
                vars.as_str(),
            )
        };
        self.notice(NoticeLevel::Warn, t);
    }

    fn authenticate(&mut self, at: usize, values: Vec<(String, String)>)
        requires
            at < old(self)@.conn.auth.methods.len(),
        ensures
            final(self)@ == old(self)@.authenticating(
                old(self)@.conn.auth.methods[at as int],
                bus::pairs_view(values@),
            ),
    {
        assert(self@.conn.auth.methods[at as int] == self.conn.auth.methods@[at as int]@);
        let id = self.conn.auth.methods[at].id.clone();
        let name = text::copy_opt(&self.conn.auth.methods[at].name);
        self.conn.auth.status = AuthStatus::SigningIn;
        self.conn.auth.method_id = Some(id.clone());
        self.conn.auth.method_name = name;
        self.conn.auth.message = None;
        self.close_failure();
        self.send(Cmd::Authenticate { method_id: id, values });
    }

    fn leave_screen(&mut self, at: usize, launch: u64)
        requires
            at < old(self)@.conn.auth.methods.len(),
        ensures
            final(self)@ == old(self)@.leave_for(old(self)@.conn.auth.methods[at as int], launch),
    {
        assert(self@.conn.auth.methods[at as int] == self.conn.auth.methods@[at as int]@);
        let name = label_of(&self.conn.auth.methods[at]);
        let t = app::say1(
            self.base.locale,
            ("leaving the TUI for ", " — return here when it finishes"),
            ("离开 TUI 前往 ", " —— 完成后回到这里"),
            name.as_str(),
        );
        self.status.terminal_auth = Some(launch);
        self.notice(NoticeLevel::Info, t);
    }

    pub(crate) fn continue_auth(
        &mut self,
        method_id: &str,
        chosen: Option<usize>,
        values: Vec<(String, String)>,
        complete: bool,
    )
        ensures
            final(self)@ == old(self)@.sign_in_with(
                method_id@,
                chosen,
                bus::pairs_view(values@),
                complete,
            ),
    {
        proof {
            reveal(AppV::sign_in_with);
        }
        assert(self@.conn.auth.methods.len() == self.conn.auth.methods@.len());
        assert(bus::pairs_view(values@).len() == values@.len());
        let at: usize = match chosen {
            Some(i) => i,
            None => self.conn.auth.methods.len(),
        };
        if at >= self.conn.auth.methods.len() {
            let t = app::say1(
                self.base.locale,
                ("ACP auth method is unavailable or not supported: ", ""),
                ("ACP 认证方式不可用或不支持：", ""),
                method_id,
            );
            self.notice(NoticeLevel::Warn, t);
            return;
        }
        let m = &self.conn.auth.methods[at];
        assert(self@.conn.auth.methods[at as int] == m@);
        let (env_prompt, form, launch) = (m.env_prompt, m.form, m.launch);
        if env_prompt {
            self.turn_down_method(at);
            return;
        }
        if form && !complete {
            self.tell(
                "usage: /auth <api-key> · gateway: /auth <base-url> <api-key>",
                "用法：/auth <api-key> · 网关：/auth <base-url> <api-key>",
            );
            return;
        }
        if values.len() == 0 {
            if let Some(launch) = launch {
                self.leave_screen(at, launch);
                return;
            }
        }
        self.authenticate(at, values);
    }

    pub(crate) fn open_auth_surface(&mut self)
        ensures
            final(self)@ == old(self)@.sign_in_needed(),
    {
        proof {
            reveal(AppV::sign_in_needed);
        }
        if self.base.demo || self.status.terminal_auth.is_some() || self.is_picking(
            PickerKind::Auth,
        ) {
            return;
        }
        self.rest();
        self.tell("sign-in needed — /auth to retry", "需要登录 —— /auth 重试");
        self.start_auth("");
    }

    fn await_auth(&mut self)
        ensures
            final(self)@ == old(self)@.waiting_for_auth(),
    {
        proof {
            reveal(session::slot_view);
        }
        self.live.run.pending = matches!(self.state, RunState::Running) || self.live.run.pending;
        self.live.run.started = None;
        self.live.run.note = text::empty();
        self.state = RunState::Idle;
        assert(self@.live.run.note =~= Seq::empty());
    }

    fn close_auth_list(&mut self)
        ensures
            final(self)@ == old(self)@.without_auth_list(),
    {
        if self.is_picking(PickerKind::Auth) {
            self.menu.picker = None;
        }
    }

    fn say_failed(&self, message: &Option<String>) -> (r: String)
        ensures
            r@ == self@.failed_text(text::opt_view(*message)),
    {
        let mut r = match message {
            Some(m) => m.clone(),
            None => "ACP authenticate failed".to_owned(),
        };
        text::push_str(&mut r, "\n\n");
        let more = self.say(
            "Close this panel, then use /auth to retry or choose another method. Browser authorization alone does not mean the Agent accepted sign-in.",
            "关闭面板后可用 /auth 重试或选择其他方式。浏览器授权完成不代表 Agent 已接受登录。",
        );
        text::push_str(&mut r, more.as_str());
        r
    }

    pub(crate) fn hear_auth(&mut self, snapshot: AuthSnapshot, notice: Option<AuthNotice>)
        ensures
            final(self)@ == old(self)@.auth_heard(snapshot@, bus::opt_notice_view(notice)),
    {
        proof {
            reveal(AppV::auth_heard);
        }
        let failed = self.say_failed(&snapshot.message);
        let title = self.say("Sign-in failed", "登录失败");
        if let Some(n) = notice {
            self.notice(n.level, n.text);
        }
        match snapshot.status {
            AuthStatus::Configured => {
                self.close_failure();
                self.close_auth_list();
            },
            AuthStatus::NeedsAuth => self.await_auth(),
            AuthStatus::Failed => {
                self.await_auth();
                self.open_text_overlay("builtin.auth.failure", title, failed);
            },
            _ => {},
        }
        self.conn.auth = snapshot;
    }
}

} // verus!
