//! What becomes of the requests of an agent.

use crate::acp_fs;
use crate::app::AppV;
use crate::bus::{AppEvent, Cmd, PermissionAskOption, PermissionAskReply, RequestId};
use crate::effect::{Effect, EffectV};
use crate::input::KeyCode;
use crate::keys::{self, KeyPress};
use crate::laws_sessions::{known_nowhere, lemma_known_nowhere, lemma_parked_as, parked_as, sends};
use crate::replies::Reply;
use crate::seqs;
use crate::session::{PermissionAskV, SlotV};
use crate::text;
use vstd::prelude::*;

verus! {

/// A permission request is answered.
pub open spec fn answers(reply: u64, answer: PermissionAskReply<Seq<char>>) -> EffectV {
    Effect::Answer { reply, answer }
}

/// A permission request of the viewed session has the keyboard.
pub open spec fn asked(a: AppV, p: PermissionAskV) -> bool {
    &&& a.live.asks.permission == Some(p)
    &&& a.live.asks.form is None
    &&& a.plugins.approvals.len() == 0
}

/// Escape refuses: the request closes and the one answer given is that it was
/// cancelled, whatever option is highlighted.
pub proof fn law_escape_never_grants(a: AppV, k: KeyPress, p: PermissionAskV)
    requires
        asked(a, p),
        k.key.code == KeyCode::Esc,
    ensures
        a.replied(Reply::Key(k)).live.asks.permission is None,
        a.replied(Reply::Key(k)).out == a.out.push(answers(p.reply, PermissionAskReply::Cancelled)),
        a.replied(Reply::Key(k)).tabs == a.tabs,
{
    reveal(AppV::replied);
    reveal(AppV::key_pressed);
    reveal(AppV::surface_key);
    reveal(AppV::ask_key);
    reveal(AppV::answer_ask);
}

/// Control and c refuse as well.
pub proof fn law_control_c_never_grants(a: AppV, k: KeyPress, p: PermissionAskV)
    requires
        asked(a, p),
        k.key.code == KeyCode::Char('c'),
        k.key.modifiers.control,
    ensures
        a.replied(Reply::Key(k)).live.asks.permission is None,
        a.replied(Reply::Key(k)).out == a.out.push(answers(p.reply, PermissionAskReply::Cancelled)),
{
    reveal(AppV::replied);
    reveal(AppV::key_pressed);
    reveal(AppV::surface_key);
    reveal(AppV::ask_key);
    reveal(AppV::answer_ask);
}

/// Enter answers with the option that is highlighted, and closes the request.
pub proof fn law_enter_answers_with_the_highlighted(a: AppV, k: KeyPress, p: PermissionAskV)
    requires
        asked(a, p),
        k.key.code == KeyCode::Enter,
    ensures
        a.replied(Reply::Key(k)).live.asks.permission is None,
        p.sel < p.options.len() ==> a.replied(Reply::Key(k)).out == a.out.push(
            answers(p.reply, PermissionAskReply::Selected(p.options[p.sel as int].option_id)),
        ),
        p.sel >= p.options.len() ==> a.replied(Reply::Key(k)).out == a.out.push(
            answers(p.reply, PermissionAskReply::Cancelled),
        ),
{
    reveal(AppV::replied);
    reveal(AppV::key_pressed);
    reveal(AppV::surface_key);
    reveal(AppV::ask_key);
    reveal(AppV::answer_ask);
}

/// No other key answers: the request stays open with its options, and nothing
/// is asked for. The arrows move the highlight by one row, round and round.
pub proof fn law_only_enter_and_escape_answer(a: AppV, k: KeyPress, p: PermissionAskV)
    requires
        asked(a, p),
        k.key.code != KeyCode::Enter,
        k.key.code != KeyCode::Esc,
        k.key.code != KeyCode::Char('c'),
    ensures
        a.replied(Reply::Key(k)).out == a.out,
        a.replied(Reply::Key(k)).live.asks.permission is Some,
        ({
            let q = a.replied(Reply::Key(k)).live.asks.permission->0;
            &&& q.reply == p.reply
            &&& q.request_id == p.request_id
            &&& q.options == p.options
            &&& q.title == p.title
            &&& k.key.code != KeyCode::Up && k.key.code != KeyCode::Down ==> q.sel == p.sel
            &&& k.key.code == KeyCode::Up && 0 < p.sel ==> q.sel == p.sel - 1
            &&& k.key.code == KeyCode::Up && p.sel == 0 && 0 < p.options.len() <= usize::MAX
                ==> q.sel == p.options.len() - 1
            &&& k.key.code == KeyCode::Down && p.sel + 1 < p.options.len() <= usize::MAX ==> q.sel
                == p.sel + 1
            &&& k.key.code == KeyCode::Down && p.sel + 1 == p.options.len() ==> q.sel == 0
        }),
{
    reveal(AppV::replied);
    reveal(AppV::key_pressed);
    reveal(AppV::surface_key);
    reveal(AppV::ask_key);
    if p.sel + 1 < p.options.len() {
        assert((p.sel + 1) % (p.options.len() as int) == p.sel + 1) by (nonlinear_arith)
            requires
                p.sel + 1 < p.options.len(),
        ;
    } else if p.sel + 1 == p.options.len() {
        assert((p.sel + 1) % (p.options.len() as int) == 0) by (nonlinear_arith)
            requires
                p.sel + 1 == p.options.len(),
        ;
    }
}

/// A request as it comes in.
pub open spec fn requests(
    e: AppEvent,
    session: Seq<char>,
    request: RequestId<Seq<char>>,
    title: Seq<char>,
    options: Seq<PermissionAskOption<Seq<char>>>,
    reply: u64,
) -> bool {
    e matches AppEvent::PermissionAsk {
        session_id,
        request_id,
        title: t,
        details: _,
        options: o,
        reply: r,
    } && session_id@ == session && request_id@ == request && t@ == title && acp_fs::options_view(
        o@,
    ) == options && r == reply
}

/// A request shows the options it came with, in their order; at first the first
/// that allows once is highlighted, else the first.
pub open spec fn shows(
    s: SlotV,
    request: RequestId<Seq<char>>,
    options: Seq<PermissionAskOption<Seq<char>>>,
    reply: u64,
) -> bool {
    s.asks.permission matches Some(p) && p.request_id == request && p.reply == reply
        && p.options.len() == options.len() && (forall|i: int|
        0 <= i < options.len() ==> (#[trigger] p.options[i]).option_id == options[i].option_id
            && p.options[i].kind == options[i].kind) && highlights_one(options, p.sel)
}

pub open spec fn highlights_one(options: Seq<PermissionAskOption<Seq<char>>>, sel: usize) -> bool {
    ||| sel < options.len() && options[sel as int].kind == "allow_once"@ && forall|i: int|
        0 <= i < sel ==> (#[trigger] options[i]).kind != "allow_once"@
    ||| sel == 0 && forall|i: int|
        0 <= i < options.len() ==> (#[trigger] options[i]).kind != "allow_once"@
}

proof fn lemma_shown(
    a: AppV,
    request: RequestId<Seq<char>>,
    title: Seq<char>,
    details: Option<Seq<char>>,
    options: Seq<PermissionAskOption<Seq<char>>>,
    reply: u64,
)
    requires
        options.len() <= usize::MAX,
    ensures
        ({
            let p = a.ask_overlay(request, title, details, options, reply);
            &&& p.request_id == request
            &&& p.reply == reply
            &&& p.options.len() == options.len()
            &&& forall|i: int|
                0 <= i < options.len() ==> (#[trigger] p.options[i]).option_id
                    == options[i].option_id && p.options[i].kind == options[i].kind
            &&& highlights_one(options, p.sel)
        }),
{
    let p = a.ask_overlay(request, title, details, options, reply);
    let once = crate::asks::once();
    let at = seqs::first_index(p.options, once);
    seqs::lemma_first_index(p.options, once);
    assert forall|i: int| 0 <= i < at implies (#[trigger] options[i]).kind != "allow_once"@ by {
        assert(!once(p.options[i]));
    }
    if at < options.len() {
        assert(once(p.options[at]));
        assert(p.sel == at);
        assert(options[p.sel as int].kind == "allow_once"@);
    }
}

/// A permission request of the viewed session, or of a session that no tab has,
/// is shown in view; one that stood there is cancelled first.
pub proof fn law_requests_are_shown(
    a: AppV,
    e: AppEvent,
    session: Seq<char>,
    request: RequestId<Seq<char>>,
    title: Seq<char>,
    options: Seq<PermissionAskOption<Seq<char>>>,
    reply: u64,
)
    requires
        requests(e, session, request, title, options, reply),
        options.len() <= usize::MAX,
        session == a.live.id || known_nowhere(a, session),
    ensures
        shows(a.taken(e).live, request, options, reply),
        a.taken(e).live.asks.form == a.live.asks.form,
        a.taken(e).tabs == a.tabs,
        a.live.asks.permission is None ==> a.taken(e).out == a.out,
        a.live.asks.permission matches Some(p) ==> a.taken(e).out == a.out.push(
            answers(p.reply, PermissionAskReply::Cancelled),
        ),
{
    reveal(AppV::taken);
    reveal(AppV::open_ask);
    if session != a.live.id {
        lemma_known_nowhere(a, session);
    }
    if let AppEvent::PermissionAsk { request_id, title: t, details, options: o, .. } = e {
        lemma_shown(a, request, t@, text::opt_view(details), options, reply);
    }
    if let Some(p) = a.live.asks.permission {
        assert(a.taken(e).out =~= a.out.push(answers(p.reply, PermissionAskReply::Cancelled)));
    } else {
        assert(a.taken(e).out =~= a.out);
    }
}

/// A permission request of a parked session is shown in its tab, and the viewed
/// session does not change.
pub proof fn law_requests_wait_in_their_tab(
    a: AppV,
    e: AppEvent,
    i: int,
    session: Seq<char>,
    request: RequestId<Seq<char>>,
    title: Seq<char>,
    options: Seq<PermissionAskOption<Seq<char>>>,
    reply: u64,
)
    requires
        requests(e, session, request, title, options, reply),
        options.len() <= usize::MAX,
        parked_as(a, i, session),
    ensures
        shows(a.taken(e).tabs.parked[i], request, options, reply),
        a.taken(e).live == a.live,
        forall|k: int|
            0 <= k < a.tabs.parked.len() && k != i ==> #[trigger] a.taken(e).tabs.parked[k]
                == a.tabs.parked[k],
        a.tabs.parked[i].asks.permission is None ==> a.taken(e).out == a.out,
{
    reveal(AppV::taken);
    reveal(AppV::open_ask);
    lemma_parked_as(a, i, session);
    if let AppEvent::PermissionAsk { request_id, title: t, details, options: o, .. } = e {
        lemma_shown(a, request, t@, text::opt_view(details), options, reply);
    }
    if a.tabs.parked[i].asks.permission is None {
        assert(a.taken(e).out =~= a.out);
    }
}

/// A form that is finished is answered and closed; one that is not stays.
pub proof fn law_finished_forms_are_answered(a: AppV, k: KeyPress)
    requires
        a.live.asks.form is Some,
        a.plugins.approvals.len() == 0,
        k.key.code != KeyCode::PageUp,
        k.key.code != KeyCode::PageDown,
        k.key.code != KeyCode::Home,
        k.key.code != KeyCode::End,
    ensures
        k.form.done ==> a.replied(Reply::Key(k)).live.asks.form is None,
        k.form.done ==> a.replied(Reply::Key(k)).out == a.out.push(
            Effect::AnswerForm { reply: a.live.asks.form->0.reply },
        ),
        !k.form.done ==> a.replied(Reply::Key(k)).live.asks.form is Some && a.replied(
            Reply::Key(k),
        ).live.asks.form->0.reply == a.live.asks.form->0.reply,
        !k.form.done ==> a.replied(Reply::Key(k)).out == a.out,
        a.replied(Reply::Key(k)).live.asks.permission == a.live.asks.permission,
{
    reveal(AppV::replied);
    reveal(AppV::key_pressed);
    reveal(AppV::surface_key);
    reveal(AppV::form_key);
    reveal(AppV::answer_form);
}

/// A request that its agent withdraws is cancelled where it stands in view, and
/// no other answer is given for it there.
pub proof fn law_withdrawn_requests_are_cancelled(a: AppV, e: AppEvent, id: RequestId<Seq<char>>)
    requires
        e matches AppEvent::AskCancelled { request_id } && request_id@ == id,
        a.tabs.parked.len() == 0,
    ensures
        a.live.asks.permission is Some && a.live.asks.permission->0.request_id == id
            && a.live.asks.form is None ==> a.taken(e).live.asks.permission is None && a.taken(
            e,
        ).out == a.out.push(
            answers(a.live.asks.permission->0.reply, PermissionAskReply::Cancelled),
        ),
        a.live.asks.form is Some && a.live.asks.form->0.request_id == id
            && a.live.asks.permission is None ==> a.taken(e).live.asks.form is None && a.taken(
            e,
        ).out == a.out.push(Effect::CancelForm { reply: a.live.asks.form->0.reply }),
        (a.live.asks.permission matches Some(p) ==> p.request_id != id) && (
        a.live.asks.form matches Some(f) ==> f.request_id != id) ==> a.taken(e).live == a.live
            && a.taken(e).out == a.out,
{
    reveal(AppV::taken);
    reveal(AppV::withdraw);
    let b = a.taken(e);
    if let Some(p) = a.live.asks.permission {
        if p.request_id == id && a.live.asks.form is None {
            assert(b.out =~= a.out.push(answers(p.reply, PermissionAskReply::Cancelled)));
        }
    }
    if let Some(f) = a.live.asks.form {
        if f.request_id == id && a.live.asks.permission is None {
            assert(b.out =~= a.out.push(Effect::CancelForm { reply: f.reply }));
        }
    }
    if (a.live.asks.permission matches Some(p) ==> p.request_id != id) && (
    a.live.asks.form matches Some(f) ==> f.request_id != id) {
        assert(b.out =~= a.out);
    }
}

/// The activation of a plugin is decided by the keys for it alone: the request
/// that waits longest is answered, allowed by the first two and refused by the
/// third.
pub proof fn law_activations_are_decided(a: AppV, k: KeyPress, c: char)
    requires
        a.plugins.approvals.len() > 0,
        k.key.code == KeyCode::Char(c),
        k.key.modifiers.alt,
        !k.key.modifiers.shift && !k.key.modifiers.control && !k.key.modifiers.command
            && !k.key.modifiers.hyper && !k.key.modifiers.meta,
        c == '1' || c == '2' || c == '3',
    ensures
        a.replied(Reply::Key(k)).out == a.out.push(
            sends(
                Cmd::RespondCordisApproval {
                    request_id: a.plugins.approvals[0].request_id,
                    decision: if c == '1' {
                        "allow-version"@
                    } else if c == '2' {
                        "allow-future"@
                    } else {
                        "reject"@
                    },
                },
            ),
        ),
        a.replied(Reply::Key(k)).live == a.live,
{
    reveal(AppV::replied);
    reveal(AppV::key_pressed);
    reveal(AppV::surface_key);
    assert(k.key.modifiers == keys::only_alt());
}

} // verus!
