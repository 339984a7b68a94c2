//! Requests of the agent: permissions and forms.

use crate::acp_fs::options_view;
use crate::app::{App, AppV};
use crate::bus::{self, PermissionAskOption, PermissionAskReply, RequestId};
use crate::effect::{self, Effect, EffectV, Locale};
use crate::input::{KeyCode, KeyEvent};
use crate::seqs;
use crate::session::{
    self, Asks, AsksV, ElicitationAskOverlay, ElicitationV, PermissionAskOverlay, PermissionAskV,
    SessionSlot, SlotV,
};
use crate::tabs;
use crate::text;
use vstd::arithmetic::div_mod::{lemma_add_mod_noop, lemma_mod_self_0, lemma_small_mod};
use vstd::prelude::*;

verus! {

pub type OptionV = PermissionAskOption<Seq<char>>;

/// A row moved by `delta`, never below the first.
pub open spec fn shifted(n: usize, delta: int) -> usize {
    if n + delta < 0 {
        0
    } else if n + delta > usize::MAX {
        usize::MAX
    } else {
        (n + delta) as usize
    }
}

pub(crate) fn shift(n: usize, delta: i64) -> (r: usize)
    ensures
        r == shifted(n, delta as int),
{
    let t: i128 = n as i128 + delta as i128;
    if t < 0 {
        0
    } else if t > usize::MAX as i128 {
        usize::MAX
    } else {
        t as usize
    }
}

/// A row moved by `delta` within a list of `len` rows.
pub open spec fn moved_within(n: usize, delta: int, len: nat) -> usize {
    let last = if len == 0 {
        0
    } else {
        len - 1
    };
    if shifted(n, delta) <= last {
        shifted(n, delta)
    } else {
        last as usize
    }
}

pub(crate) fn move_within(n: usize, delta: i64, len: usize) -> (r: usize)
    ensures
        r == moved_within(n, delta as int, len as nat),
{
    let last: usize = if len == 0 {
        0
    } else {
        len - 1
    };
    let to = shift(n, delta);
    if to <= last {
        to
    } else {
        last
    }
}

/// The row above, round and round, in a list of `len` rows.
pub open spec fn row_above(sel: usize, len: nat) -> usize {
    if sel > 0 {
        (sel - 1) as usize
    } else if len > 0 {
        (len - 1) as usize
    } else {
        0
    }
}

/// The row below, round and round.
pub open spec fn row_below(sel: usize, len: nat) -> usize {
    if len == 0 {
        0
    } else {
        ((sel + 1) % (len as int)) as usize
    }
}

pub(crate) fn above(sel: usize, len: usize) -> (r: usize)
    ensures
        r == row_above(sel, len as nat),
{
    if sel > 0 {
        sel - 1
    } else if len > 0 {
        len - 1
    } else {
        0
    }
}

pub(crate) fn below(sel: usize, len: usize) -> (r: usize)
    ensures
        r == row_below(sel, len as nat),
{
    if len == 0 {
        return 0;
    }
    let at: usize = sel % len;
    proof {
        lemma_add_mod_noop(sel as int, 1, len as int);
        if at + 1 < len {
            lemma_small_mod((at + 1) as nat, len as nat);
            lemma_small_mod(1, len as nat);
        } else {
            lemma_mod_self_0(len as int);
            if len > 1 {
                lemma_small_mod(1, len as nat);
            }
        }
    }
    if at < len - 1 {
        at + 1
    } else {
        0
    }
}

/// The path in the title of a request to write outside the workspace.
pub open spec fn outside_path(t: Seq<char>) -> Option<Seq<char>> {
    let tail = " · outside workspace"@;
    match text::behind_prefix(t, "write "@) {
        Some(rest) => if rest.len() >= tail.len() && rest.skip(rest.len() - tail.len()) == tail {
            Some(rest.take(rest.len() - tail.len()))
        } else {
            None
        },
        None => None,
    }
}

/// The title as it is shown: one that the client itself wrote is translated.
pub open spec fn ask_title(l: Locale, t: Seq<char>) -> Seq<char> {
    match outside_path(t) {
        Some(path) => crate::app::said1(
            l,
            ("write "@, " · outside workspace"@),
            ("写入 "@, " · 工作区外"@),
            path,
        ),
        None => t,
    }
}

pub open spec fn ask_option(l: Locale, o: OptionV) -> OptionV {
    if o.option_id == "deny"@ && o.name == "Deny"@ {
        PermissionAskOption { name: effect::spoken(l, "Deny"@, "拒绝"@), ..o }
    } else if o.option_id == "allow"@ && o.name == "Allow write"@ {
        PermissionAskOption { name: effect::spoken(l, "Allow write"@, "允许写入"@), ..o }
    } else {
        o
    }
}

pub open spec fn ask_options(l: Locale, v: Seq<OptionV>) -> Seq<OptionV> {
    Seq::new(v.len(), |i: int| ask_option(l, v[i]))
}

pub open spec fn once() -> spec_fn(OptionV) -> bool {
    |o: OptionV| o.kind == "allow_once"@
}

/// The option highlighted first: the first that allows once, else the first.
pub open spec fn first_option(v: Seq<OptionV>) -> usize {
    match seqs::position(v, once()) {
        Some(i) => i,
        None => 0,
    }
}

fn find_path(t: &str) -> (r: Option<String>)
    ensures
        text::opt_view(r) == outside_path(t@),
{
    match text::strip_prefix(t, "write ") {
        Some(rest) => {
            let tail = " · outside workspace";
            let v = text::chars_of(rest.as_str());
            let w = text::chars_of(tail);
            if v.len() >= w.len() {
                let end = text::string_of_range(&v, v.len() - w.len(), v.len());
                assert(end@ =~= rest@.skip(rest@.len() - tail@.len()));
                if text::same(end.as_str(), tail) {
                    let path = text::string_of_range(&v, 0, v.len() - w.len());
                    assert(path@ =~= rest@.take(rest@.len() - tail@.len()));
                    return Some(path);
                }
            }
            None
        },
        None => None,
    }
}

fn translate_title(l: Locale, t: String) -> (r: String)
    ensures
        r@ == ask_title(l, t@),
{
    match find_path(t.as_str()) {
        Some(path) => crate::app::say1(
            l,
            ("write ", " · outside workspace"),
            ("写入 ", " · 工作区外"),
            path.as_str(),
        ),
        None => t,
    }
}

fn translate_option(l: Locale, o: &PermissionAskOption) -> (r: PermissionAskOption)
    ensures
        r@ == ask_option(l, o@),
{
    let name = if text::same(o.option_id.as_str(), "deny") && text::same(o.name.as_str(), "Deny") {
        effect::tr(l, "Deny", "拒绝").to_owned()
    } else if text::same(o.option_id.as_str(), "allow") && text::same(
        o.name.as_str(),
        "Allow write",
    ) {
        effect::tr(l, "Allow write", "允许写入").to_owned()
    } else {
        o.name.clone()
    };
    PermissionAskOption { option_id: o.option_id.clone(), kind: o.kind.clone(), name }
}

fn translate_options(l: Locale, v: &Vec<PermissionAskOption>) -> (r: Vec<PermissionAskOption>)
    ensures
        options_view(r@) == ask_options(l, options_view(v@)),
{
    let ghost all = options_view(v@);
    let mut r: Vec<PermissionAskOption> = Vec::new();
    let mut i: usize = 0;
    while i < v.len()
        invariant
            i <= v@.len(),
            all == options_view(v@),
            r@.len() == i,
            forall|k: int| 0 <= k < i ==> (#[trigger] r@[k])@ == ask_option(l, all[k]),
        decreases v@.len() - i,
    {
        assert(all[i as int] == v@[i as int]@);
        r.push(translate_option(l, &v[i]));
        i = i + 1;
    }
    assert(options_view(r@) =~= ask_options(l, all));
    r
}

fn default_option(v: &Vec<PermissionAskOption>) -> (r: usize)
    ensures
        r == first_option(options_view(v@)),
{
    let ghost all = options_view(v@);
    let r = bus::permission_ask_default_sel(v.as_slice());
    proof {
        assert forall|k: int| 0 <= k < all.len() implies once()(#[trigger] all[k])
            == bus::allows_once(v@[k]) by {}
        if exists|i: int| 0 <= i < v@.len() && bus::allows_once(#[trigger] v@[i]) {
            assert forall|k: int| 0 <= k < r implies !once()(#[trigger] all[k]) by {
                assert(!bus::allows_once(v@[k]));
            }
            assert(once()(all[r as int]));
            seqs::lemma_first_index_is(all, once(), r as int);
        } else {
            assert forall|k: int| 0 <= k < all.len() implies !once()(#[trigger] all[k]) by {
                assert(!bus::allows_once(v@[k]));
            }
            seqs::lemma_first_index_is(all, once(), all.len() as int);
        }
    }
    r
}

/// A permission request takes the place of an earlier one, which is cancelled.
pub open spec fn with_ask(a: AsksV, p: PermissionAskV) -> AsksV {
    AsksV { permission: Some(p), ..a }
}

pub open spec fn ask_cancelled(a: AsksV) -> Seq<EffectV> {
    tabs::cancelled(AsksV { form: None, ..a })
}

pub open spec fn form_cancelled(a: AsksV) -> Seq<EffectV> {
    tabs::cancelled(AsksV { permission: None, ..a })
}

fn put_ask(asks: &mut Asks, p: PermissionAskOverlay, out: &mut Vec<Effect>)
    ensures
        final(asks)@ == with_ask(old(asks)@, p@),
        effect::effects_view(final(out)@) == effect::effects_view(old(out)@) + ask_cancelled(
            old(asks)@,
        ),
{
    let ghost sent = effect::effects_view(out@);
    if let Some(old_ask) = asks.permission.take() {
        effect::emit(
            out,
            Effect::Answer { reply: old_ask.reply, answer: PermissionAskReply::Cancelled },
        );
    }
    assert(effect::effects_view(out@) =~= sent + ask_cancelled(old(asks)@));
    asks.permission = Some(p);
}

fn put_form(asks: &mut Asks, f: ElicitationAskOverlay, out: &mut Vec<Effect>)
    ensures
        final(asks)@ == (AsksV { form: Some(f@), ..old(asks)@ }),
        effect::effects_view(final(out)@) == effect::effects_view(old(out)@) + form_cancelled(
            old(asks)@,
        ),
{
    let ghost sent = effect::effects_view(out@);
    if let Some(old_ask) = asks.form.take() {
        effect::emit(out, Effect::CancelForm { reply: old_ask.reply });
    }
    assert(effect::effects_view(out@) =~= sent + form_cancelled(old(asks)@));
    asks.form = Some(f);
}

/// The requests of a session without those that were withdrawn.
pub open spec fn asks_left(a: AsksV, id: RequestId<Seq<char>>) -> AsksV {
    AsksV {
        permission: if a.permission is Some && a.permission->0.request_id == id {
            None
        } else {
            a.permission
        },
        form: if a.form is Some && a.form->0.request_id == id {
            None
        } else {
            a.form
        },
    }
}

/// The requests that were withdrawn.
pub open spec fn asks_withdrawn(a: AsksV, id: RequestId<Seq<char>>) -> AsksV {
    AsksV {
        permission: if a.permission is Some && a.permission->0.request_id == id {
            a.permission
        } else {
            None
        },
        form: if a.form is Some && a.form->0.request_id == id {
            a.form
        } else {
            None
        },
    }
}

pub open spec fn withdraws(a: AsksV, id: RequestId<Seq<char>>) -> bool {
    (a.permission is Some && a.permission->0.request_id == id) || (a.form is Some
        && a.form->0.request_id == id)
}

pub open spec fn slot_left(s: SlotV, id: RequestId<Seq<char>>) -> SlotV {
    SlotV { asks: asks_left(s.asks, id), ..s }
}

/// What is answered when the requests of several sessions are withdrawn.
pub open spec fn withdrawals(v: Seq<SlotV>, id: RequestId<Seq<char>>) -> Seq<EffectV>
    decreases v.len(),
{
    if v.len() == 0 {
        Seq::empty()
    } else {
        withdrawals(v.drop_last(), id) + tabs::cancelled(asks_withdrawn(v.last().asks, id))
    }
}

pub open spec fn any_withdrawn(v: Seq<SlotV>, id: RequestId<Seq<char>>) -> bool {
    exists|i: int| 0 <= i < v.len() && withdraws((#[trigger] v[i]).asks, id)
}

fn withdraw(asks: &mut Asks, id: &RequestId, out: &mut Vec<Effect>) -> (r: bool)
    ensures
        final(asks)@ == asks_left(old(asks)@, id@),
        effect::effects_view(final(out)@) == effect::effects_view(old(out)@) + tabs::cancelled(
            asks_withdrawn(old(asks)@, id@),
        ),
        r == withdraws(old(asks)@, id@),
{
    let ghost sent = effect::effects_view(out@);
    let ghost a = asks@;
    let mut found = false;
    let hit = match &asks.permission {
        Some(p) => p.request_id.same(id),
        None => false,
    };
    if hit {
        if let Some(p) = asks.permission.take() {
            effect::emit(
                out,
                Effect::Answer { reply: p.reply, answer: PermissionAskReply::Cancelled },
            );
        }
        found = true;
    }
    let hit = match &asks.form {
        Some(f) => f.request_id.same(id),
        None => false,
    };
    if hit {
        if let Some(f) = asks.form.take() {
            effect::emit(out, Effect::CancelForm { reply: f.reply });
        }
        found = true;
    }
    assert(effect::effects_view(out@) =~= sent + tabs::cancelled(asks_withdrawn(a, id@)));
    found
}

fn withdraw_in_slot(s: &mut SessionSlot, id: &RequestId, out: &mut Vec<Effect>) -> (r: bool)
    ensures
        final(s)@ == slot_left(old(s)@, id@),
        effect::effects_view(final(out)@) == effect::effects_view(old(out)@) + tabs::cancelled(
            asks_withdrawn(old(s)@.asks, id@),
        ),
        r == withdraws(old(s)@.asks, id@),
{
    proof {
        reveal(session::slot_view);
    }
    withdraw(&mut s.asks, id, out)
}

fn put_ask_in_slot(s: &mut SessionSlot, p: PermissionAskOverlay, out: &mut Vec<Effect>)
    ensures
        final(s)@ == (SlotV { asks: with_ask(old(s)@.asks, p@), ..old(s)@ }),
        effect::effects_view(final(out)@) == effect::effects_view(old(out)@) + ask_cancelled(
            old(s)@.asks,
        ),
{
    proof {
        reveal(session::slot_view);
    }
    put_ask(&mut s.asks, p, out);
}

fn put_form_in_slot(s: &mut SessionSlot, f: ElicitationAskOverlay, out: &mut Vec<Effect>)
    ensures
        final(s)@ == (SlotV { asks: AsksV { form: Some(f@), ..old(s)@.asks }, ..old(s)@ }),
        effect::effects_view(final(out)@) == effect::effects_view(old(out)@) + form_cancelled(
            old(s)@.asks,
        ),
{
    proof {
        reveal(session::slot_view);
    }
    put_form(&mut s.asks, f, out);
}

/// What a key did to an open form: whether a text was being edited before, and
/// whether the key moved to another field or ended the form.
#[derive(Debug, Clone, Copy, PartialEq, Eq, Structural)]
pub struct FormStep {
    pub editing: bool,
    pub moved: bool,
    pub done: bool,
}

/// Whether a key scrolls the description of a form instead of reaching it.
pub open spec fn scrolls_form(code: KeyCode, editing: bool) -> bool {
    match code {
        KeyCode::PageUp | KeyCode::PageDown => true,
        KeyCode::Home | KeyCode::End => !editing,
        _ => false,
    }
}

pub fn form_scroll_key(code: KeyCode, editing: bool) -> (r: bool)
    ensures
        r == scrolls_form(code, editing),
{
    match code {
        KeyCode::PageUp | KeyCode::PageDown => true,
        KeyCode::Home | KeyCode::End => !editing,
        _ => false,
    }
}

pub open spec fn form_scrolled(scroll: usize, code: KeyCode) -> usize {
    match code {
        KeyCode::PageUp => shifted(scroll, -5),
        KeyCode::PageDown => shifted(scroll, 5),
        KeyCode::Home => 0,
        KeyCode::End => usize::MAX,
        _ => scroll,
    }
}

impl AppV {
    pub open spec fn with_asks(self, a: AsksV) -> AppV {
        self.with_live(SlotV { asks: a, ..self.live })
    }

    pub open spec fn belongs_here(self, session: Seq<char>) -> bool {
        session == self.live.id || session::has_view(self.live, session)
    }

    pub open spec fn owner_index(self, session: Seq<char>) -> int {
        seqs::first_index(self.tabs.parked, session::owner_of(session))
    }

    pub open spec fn ask_here(self, p: PermissionAskV) -> AppV {
        self.with_asks(with_ask(self.live.asks, p)).saying(ask_cancelled(self.live.asks))
    }

    pub open spec fn ask_there(self, at: int, p: PermissionAskV) -> AppV {
        let s = self.tabs.parked[at];
        self.parked_at(at, SlotV { asks: with_ask(s.asks, p), ..s }).saying(ask_cancelled(s.asks))
    }

    pub open spec fn form_here(self, f: ElicitationV) -> AppV {
        self.with_asks(AsksV { form: Some(f), ..self.live.asks }).saying(
            form_cancelled(self.live.asks),
        )
    }

    pub open spec fn form_there(self, at: int, f: ElicitationV) -> AppV {
        let s = self.tabs.parked[at];
        self.parked_at(at, SlotV { asks: AsksV { form: Some(f), ..s.asks }, ..s }).saying(
            form_cancelled(s.asks),
        )
    }

    pub open spec fn ask_overlay(
        self,
        request_id: RequestId<Seq<char>>,
        title: Seq<char>,
        details: Option<Seq<char>>,
        options: Seq<OptionV>,
        reply: u64,
    ) -> PermissionAskV {
        PermissionAskOverlay {
            request_id,
            title: ask_title(self.base.locale, title),
            details,
            sel: first_option(ask_options(self.base.locale, options)),
            options: ask_options(self.base.locale, options),
            reply,
        }
    }

    /// A permission request is shown in the tab of its session.
    #[verifier::opaque]
    pub open spec fn open_ask(self, session: Seq<char>, p: PermissionAskV) -> AppV {
        let at = self.owner_index(session);
        (if self.belongs_here(session) {
            self.ask_here(p)
        } else if at < self.tabs.parked.len() {
            self.ask_there(at, p)
        } else {
            self.tell(
                "permission ask from an unknown session — shown here"@,
                "未知会话的权限请求 —— 在此显示"@,
            ).ask_here(p)
        }).redrawn()
    }

    /// A form is shown in the tab of its session; one without a session in the
    /// viewed tab.
    #[verifier::opaque]
    pub open spec fn open_form(self, session: Option<Seq<char>>, f: ElicitationV) -> AppV {
        (match session {
            None => self.form_here(f),
            Some(session) => {
                let at = self.owner_index(session);
                if self.belongs_here(session) {
                    self.form_here(f)
                } else if at < self.tabs.parked.len() {
                    self.form_there(at, f)
                } else {
                    self.tell(
                        "elicitation from an unknown session — shown here"@,
                        "未知会话的表单请求 —— 在此显示"@,
                    ).form_here(f)
                }
            },
        }).redrawn()
    }

    #[verifier::opaque]
    pub open spec fn answer_ask(self, answer: PermissionAskReply<Seq<char>>) -> AppV {
        (match self.live.asks.permission {
            Some(p) => self.with_asks(AsksV { permission: None, ..self.live.asks }).emit(
                Effect::Answer { reply: p.reply, answer },
            ),
            None => self,
        }).redrawn()
    }

    #[verifier::opaque]
    pub open spec fn answer_form(self) -> AppV {
        (match self.live.asks.form {
            Some(f) => self.with_asks(AsksV { form: None, ..self.live.asks }).emit(
                Effect::AnswerForm { reply: f.reply },
            ),
            None => self,
        }).redrawn()
    }

    /// The requests with this id are withdrawn, in whichever tab they stand.
    #[verifier::opaque]
    pub open spec fn withdraw(self, id: RequestId<Seq<char>>) -> AppV {
        let a = self.with_asks(asks_left(self.live.asks, id)).with_parked(
            self.tabs.parked.map_values(|s: SlotV| slot_left(s, id)),
        ).saying(
            tabs::cancelled(asks_withdrawn(self.live.asks, id)) + withdrawals(
                self.tabs.parked,
                id,
            ),
        );
        if self.withdraws(id) {
            a.redrawn()
        } else {
            a
        }
    }

    pub open spec fn withdraws(self, id: RequestId<Seq<char>>) -> bool {
        withdraws(self.live.asks, id) || any_withdrawn(self.tabs.parked, id)
    }

    pub open spec fn ask_selected(self, sel: usize) -> AppV {
        match self.live.asks.permission {
            Some(p) => self.with_asks(with_ask(self.live.asks, PermissionAskOverlay { sel, ..p })),
            None => self,
        }
    }

    /// The answer that the highlighted option stands for.
    pub open spec fn highlighted_answer(self) -> PermissionAskReply<Seq<char>> {
        match self.live.asks.permission {
            Some(p) => if p.sel < p.options.len() {
                PermissionAskReply::Selected(p.options[p.sel as int].option_id)
            } else {
                PermissionAskReply::Cancelled
            },
            None => PermissionAskReply::Cancelled,
        }
    }

    pub open spec fn ask_sel(self) -> usize {
        match self.live.asks.permission {
            Some(p) => p.sel,
            None => 0,
        }
    }

    pub open spec fn ask_len(self) -> nat {
        match self.live.asks.permission {
            Some(p) => p.options.len(),
            None => 0,
        }
    }

    #[verifier::opaque]
    pub open spec fn ask_key(self, key: KeyEvent) -> AppV {
        match key.code {
            KeyCode::Esc => self.answer_ask(PermissionAskReply::Cancelled),
            KeyCode::Char(c) => if c == 'c' && key.modifiers.control {
                self.answer_ask(PermissionAskReply::Cancelled)
            } else {
                self
            },
            KeyCode::Up => self.ask_selected(row_above(self.ask_sel(), self.ask_len())),
            KeyCode::Down => self.ask_selected(row_below(self.ask_sel(), self.ask_len())),
            KeyCode::Enter => self.answer_ask(self.highlighted_answer()),
            _ => self,
        }
    }

    #[verifier::opaque]
    pub open spec fn ask_scrolled(self, delta: int) -> AppV {
        match self.live.asks.permission {
            Some(p) => self.ask_selected(
                moved_within(p.sel, delta, p.options.len()),
            ).redrawn(),
            None => self,
        }
    }

    pub open spec fn form_at(self, scroll: usize) -> AppV {
        match self.live.asks.form {
            Some(f) => self.with_asks(
                AsksV { form: Some(ElicitationAskOverlay { scroll, ..f }), ..self.live.asks },
            ),
            None => self,
        }
    }

    #[verifier::opaque]
    pub open spec fn form_key(self, key: KeyEvent, step: FormStep) -> AppV {
        match self.live.asks.form {
            None => self,
            Some(f) => if scrolls_form(key.code, step.editing) {
                self.form_at(form_scrolled(f.scroll, key.code))
            } else {
                let a = if step.moved {
                    self.form_at(0)
                } else {
                    self
                };
                if step.done {
                    a.answer_form()
                } else {
                    a
                }
            },
        }
    }

    #[verifier::opaque]
    pub open spec fn form_wheel(self, delta: int) -> AppV {
        match self.live.asks.form {
            Some(f) => self.form_at(shifted(f.scroll, delta)).redrawn(),
            None => self,
        }
    }
}

impl App {
    fn is_here(&self, session: &str) -> (r: bool)
        ensures
            r == self@.belongs_here(session@),
    {
        self.is_live(session) || self.live_has_view(session)
    }

    fn ask_in_view(&mut self, p: PermissionAskOverlay)
        ensures
            final(self)@ == old(self)@.ask_here(p@),
    {
        put_ask_in_slot(&mut self.live, p, &mut self.out);
    }

    fn ask_in_tab(&mut self, at: usize, p: PermissionAskOverlay)
        requires
            at < old(self)@.tabs.parked.len(),
        ensures
            final(self)@ == old(self)@.ask_there(at as int, p@),
    {
        let ghost before = self@;
        assert(self@.tabs.parked[at as int] == self.tabs.parked@[at as int]@);
        put_ask_in_slot(&mut self.tabs.parked[at], p, &mut self.out);
        assert(self@.tabs.parked =~= before.ask_there(at as int, p@).tabs.parked);
    }

    fn form_in_view(&mut self, f: ElicitationAskOverlay)
        ensures
            final(self)@ == old(self)@.form_here(f@),
    {
        put_form_in_slot(&mut self.live, f, &mut self.out);
    }

    fn form_in_tab(&mut self, at: usize, f: ElicitationAskOverlay)
        requires
            at < old(self)@.tabs.parked.len(),
        ensures
            final(self)@ == old(self)@.form_there(at as int, f@),
    {
        let ghost before = self@;
        assert(self@.tabs.parked[at as int] == self.tabs.parked@[at as int]@);
        put_form_in_slot(&mut self.tabs.parked[at], f, &mut self.out);
        assert(self@.tabs.parked =~= before.form_there(at as int, f@).tabs.parked);
    }

    pub(crate) fn make_ask(
        &self,
        request_id: RequestId,
        title: String,
        details: Option<String>,
        options: &Vec<PermissionAskOption>,
        reply: u64,
    ) -> (r: PermissionAskOverlay)
        ensures
            r@ == self@.ask_overlay(
                request_id@,
                title@,
                text::opt_view(details),
                options_view(options@),
                reply,
            ),
    {
        let options = translate_options(self.base.locale, options);
        let sel = default_option(&options);
        PermissionAskOverlay {
            request_id,
            title: translate_title(self.base.locale, title),
            details,
            sel,
            options,
            reply,
        }
    }

    /// Shows a permission request in the tab of its session. A request that it
    /// replaces is answered as cancelled.
    pub(crate) fn open_permission_ask(&mut self, session: &str, p: PermissionAskOverlay)
        ensures
            final(self)@ == old(self)@.open_ask(session@, p@),
    {
        proof {
            reveal(AppV::open_ask);
        }
        let at = session::find_owner(&self.tabs.parked, session);
        assert(self@.tabs.parked.len() == self.tabs.parked@.len());
        if self.is_here(session) {
            self.ask_in_view(p);
        } else if at < self.tabs.parked.len() {
            self.ask_in_tab(at, p);
        } else {
            self.tell(
                "permission ask from an unknown session — shown here",
                "未知会话的权限请求 —— 在此显示",
            );
            self.ask_in_view(p);
        }
        self.redraw();
    }

    pub(crate) fn open_elicitation_ask(&mut self, session: Option<&str>, f: ElicitationAskOverlay)
        ensures
            final(self)@ == old(self)@.open_form(text::opt_str_view(session), f@),
    {
        proof {
            reveal(AppV::open_form);
        }
        match session {
            None => self.form_in_view(f),
            Some(session) => {
                let at = session::find_owner(&self.tabs.parked, session);
                assert(self@.tabs.parked.len() == self.tabs.parked@.len());
                if self.is_here(session) {
                    self.form_in_view(f);
                } else if at < self.tabs.parked.len() {
                    self.form_in_tab(at, f);
                } else {
                    self.tell(
                        "elicitation from an unknown session — shown here",
                        "未知会话的表单请求 —— 在此显示",
                    );
                    self.form_in_view(f);
                }
            },
        }
        self.redraw();
    }

    fn take_ask(&mut self) -> (r: Option<u64>)
        ensures
            r == (match old(self)@.live.asks.permission {
                Some(p) => Some(p.reply),
                None => None,
            }),
            final(self)@ == old(self)@.with_asks(
                AsksV { permission: None, ..old(self)@.live.asks },
            ),
    {
        proof {
            reveal(session::slot_view);
        }
        match self.live.asks.permission.take() {
            Some(p) => Some(p.reply),
            None => None,
        }
    }

    pub(crate) fn finish_permission_ask(&mut self, answer: PermissionAskReply)
        ensures
            final(self)@ == old(self)@.answer_ask(answer@),
    {
        proof {
            reveal(AppV::answer_ask);
        }
        if let Some(reply) = self.take_ask() {
            self.emit(Effect::Answer { reply, answer });
        }
        self.redraw();
    }

    pub(crate) fn take_form(&mut self) -> (r: Option<u64>)
        ensures
            r == (match old(self)@.live.asks.form {
                Some(f) => Some(f.reply),
                None => None,
            }),
            final(self)@ == old(self)@.with_asks(AsksV { form: None, ..old(self)@.live.asks }),
    {
        proof {
            reveal(session::slot_view);
        }
        match self.live.asks.form.take() {
            Some(f) => Some(f.reply),
            None => None,
        }
    }

    pub(crate) fn finish_elicitation(&mut self)
        ensures
            final(self)@ == old(self)@.answer_form(),
    {
        proof {
            reveal(AppV::answer_form);
        }
        if let Some(reply) = self.take_form() {
            self.emit(Effect::AnswerForm { reply });
        }
        self.redraw();
    }

    fn withdraw_parked(&mut self, id: &RequestId) -> (r: bool)
        ensures
            final(self)@ == old(self)@.with_parked(
                old(self)@.tabs.parked.map_values(|s: SlotV| slot_left(s, id@)),
            ).saying(withdrawals(old(self)@.tabs.parked, id@)),
            r == any_withdrawn(old(self)@.tabs.parked, id@),
    {
        let ghost whole = self@;
        let ghost before = self@.tabs.parked;
        let n = self.tabs.parked.len();
        let mut found = false;
        let mut i: usize = 0;
        assert(before.take(0) =~= Seq::empty());
        assert(whole.out =~= whole.out + withdrawals(before.take(0), id@));
        while i < n
            invariant
                i <= n,
                n == before.len(),
                self.tabs.parked@.len() == n,
                forall|k: int| 0 <= k < i ==> (#[trigger] self@.tabs.parked[k]) == slot_left(before[k], id@),
                forall|k: int| i <= k < n ==> (#[trigger] self@.tabs.parked[k]) == before[k],
                found == any_withdrawn(before.take(i as int), id@),
                self@ == (AppV { out: self@.out, ..whole.with_parked(self@.tabs.parked) }),
                self@.out == whole.out + withdrawals(before.take(i as int), id@),
            decreases n - i,
        {
            let ghost now = self@.tabs.parked;
            let ghost t = before.take(i as int);
            let ghost u = before.take(i as int + 1);
            assert(now[i as int] == before[i as int]);
            assert(now[i as int] == self.tabs.parked@[i as int]@);
            let hit = withdraw_in_slot(&mut self.tabs.parked[i], id, &mut self.out);
            assert(self@.tabs.parked =~= now.update(i as int, slot_left(before[i as int], id@)));
            proof {
                assert(u.drop_last() =~= t);
                assert(u.last() == before[i as int]);
                assert(self@.out =~= whole.out + withdrawals(u, id@));
                assert(any_withdrawn(u, id@) == (any_withdrawn(t, id@) || hit)) by {
                    if any_withdrawn(t, id@) {
                        let k = choose|k: int| 0 <= k < t.len() && withdraws((#[trigger] t[k]).asks, id@);
                        assert(u[k] == t[k]);
                    }
                    if hit {
                        assert(withdraws(u[i as int].asks, id@));
                    }
                    if any_withdrawn(u, id@) {
                        let k = choose|k: int| 0 <= k < u.len() && withdraws((#[trigger] u[k]).asks, id@);
                        if k < i {
                            assert(t[k] == u[k]);
                        }
                    }
                }
            }
            found = found || hit;
            i = i + 1;
        }
        assert(before.take(i as int) =~= before);
        assert(self@.tabs.parked =~= before.map_values(|s: SlotV| slot_left(s, id@)));
        found
    }

    fn withdraw_live(&mut self, id: &RequestId) -> (r: bool)
        ensures
            final(self)@ == old(self)@.with_asks(asks_left(old(self)@.live.asks, id@)).saying(
                tabs::cancelled(asks_withdrawn(old(self)@.live.asks, id@)),
            ),
            r == withdraws(old(self)@.live.asks, id@),
    {
        withdraw_in_slot(&mut self.live, id, &mut self.out)
    }

    /// Withdraws a request; tells whether there was one.
    pub(crate) fn dismiss_ask_by_request_id(&mut self, id: &RequestId) -> (r: bool)
        ensures
            final(self)@ == old(self)@.withdraw(id@),
            r == old(self)@.withdraws(id@),
    {
        proof {
            reveal(AppV::withdraw);
        }
        let ghost a = self@;
        let here = self.withdraw_live(id);
        let there = self.withdraw_parked(id);
        assert(self@.out =~= a.out + (tabs::cancelled(asks_withdrawn(a.live.asks, id@))
            + withdrawals(a.tabs.parked, id@)));
        if here || there {
            self.redraw();
        }
        here || there
    }

    fn select_option(&mut self, sel: usize)
        ensures
            final(self)@ == old(self)@.ask_selected(sel),
    {
        proof {
            reveal(session::slot_view);
        }
        if let Some(p) = &mut self.live.asks.permission {
            p.sel = sel;
        }
    }

    fn ask_state(&self) -> (r: (usize, usize))
        ensures
            r.0 == self@.ask_sel(),
            r.1 == self@.ask_len(),
    {
        proof {
            reveal(session::slot_view);
        }
        match &self.live.asks.permission {
            Some(p) => (p.sel, p.options.len()),
            None => (0, 0),
        }
    }

    pub(crate) fn has_ask(&self) -> (r: bool)
        ensures
            r == (self@.live.asks.permission is Some),
    {
        proof {
            reveal(session::slot_view);
        }
        self.live.asks.permission.is_some()
    }

    pub(crate) fn has_form(&self) -> (r: bool)
        ensures
            r == (self@.live.asks.form is Some),
    {
        proof {
            reveal(session::slot_view);
        }
        self.live.asks.form.is_some()
    }

    fn option_answer(&self) -> (r: PermissionAskReply)
        ensures
            r@ == self@.highlighted_answer(),
    {
        proof {
            reveal(session::slot_view);
        }
        match &self.live.asks.permission {
            Some(p) => if p.sel < p.options.len() {
                assert(p@.options[p.sel as int] == p.options@[p.sel as int]@);
                PermissionAskReply::Selected(p.options[p.sel].option_id.clone())
            } else {
                PermissionAskReply::Cancelled
            },
            None => PermissionAskReply::Cancelled,
        }
    }

    pub(crate) fn handle_permission_ask_key(&mut self, key: KeyEvent)
        ensures
            final(self)@ == old(self)@.ask_key(key),
    {
        proof {
            reveal(AppV::ask_key);
        }
        let (sel, n) = self.ask_state();
        match key.code {
            KeyCode::Esc => self.finish_permission_ask(PermissionAskReply::Cancelled),
            KeyCode::Char(c) => if c == 'c' && key.modifiers.control {
                self.finish_permission_ask(PermissionAskReply::Cancelled);
            },
            KeyCode::Up => self.select_option(above(sel, n)),
            KeyCode::Down => self.select_option(below(sel, n)),
            KeyCode::Enter => {
                let answer = self.option_answer();
                self.finish_permission_ask(answer);
            },
            _ => {},
        }
    }

    pub(crate) fn permission_ask_scroll_by(&mut self, delta: i64)
        ensures
            final(self)@ == old(self)@.ask_scrolled(delta as int),
    {
        proof {
            reveal(AppV::ask_scrolled);
        }
        if self.has_ask() {
            let (sel, n) = self.ask_state();
            self.select_option(move_within(sel, delta, n));
            self.redraw();
        }
    }

    fn scroll_form_to(&mut self, scroll: usize)
        ensures
            final(self)@ == old(self)@.form_at(scroll),
    {
        proof {
            reveal(session::slot_view);
        }
        if let Some(f) = &mut self.live.asks.form {
            f.scroll = scroll;
        }
    }

    fn form_scroll(&self) -> (r: usize)
        ensures
            r == (match self@.live.asks.form {
                Some(f) => f.scroll,
                None => 0,
            }),
    {
        proof {
            reveal(session::slot_view);
        }
        match &self.live.asks.form {
            Some(f) => f.scroll,
            None => 0,
        }
    }

    pub(crate) fn handle_elicitation_key(&mut self, key: KeyEvent, step: FormStep)
        ensures
            final(self)@ == old(self)@.form_key(key, step),
    {
        proof {
            reveal(AppV::form_key);
        }
        if !self.has_form() {
            return;
        }
        let at = self.form_scroll();
        if form_scroll_key(key.code, step.editing) {
            let to: usize = match key.code {
                KeyCode::PageUp => shift(at, -5),
                KeyCode::PageDown => shift(at, 5),
                KeyCode::Home => 0,
                KeyCode::End => usize::MAX,
                _ => at,
            };
            self.scroll_form_to(to);
            return;
        }
        if step.moved {
            self.scroll_form_to(0);
        }
        if step.done {
            self.finish_elicitation();
        }
    }

    pub(crate) fn elicitation_scroll_by(&mut self, delta: i64)
        ensures
            final(self)@ == old(self)@.form_wheel(delta as int),
    {
        proof {
            reveal(AppV::form_wheel);
        }
        if self.has_form() {
            let at = self.form_scroll();
            self.scroll_form_to(shift(at, delta));
            self.redraw();
        }
    }
}

} // verus!
