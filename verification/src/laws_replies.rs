//! What the client reports, and how a sign-in is asked for.

use crate::app::AppV;
use crate::bus::{self, AuthStatus, Cmd};
use crate::effect::{Effect, EffectV};
use crate::laws_sessions::sends;
use crate::replies::Reply;
use vstd::prelude::*;

verus! {

// --- what is reported -------------------------------------------------------------------------

/// Plugins and the agent are told what is in view, what waits, and who works.
pub open spec fn reports(e: EffectV) -> bool {
    e matches Effect::Send(c) && (c is QueueSnapshot || c is AgentsSnapshot || c is ActiveSession)
}

/// Once something has come in, nothing more than reports goes out, and no
/// session changes but for a model that has proved itself.
pub proof fn law_reports_change_nothing(a: AppV, b: AppV)
    ensures
        ({
            let c = b.checked(a);
            &&& c.live.id == b.live.id
            &&& c.live.queue == b.live.queue
            &&& c.live.draft == b.live.draft
            &&& c.live.run == b.live.run
            &&& c.live.modes == b.live.modes
            &&& c.live.asks == b.live.asks
            &&& c.live.models.last == b.live.models.last
            &&& c.tabs == b.tabs
            &&& c.conn == b.conn
            &&& c.state == b.state
            &&& c.menu == b.menu
            &&& c.cfg == b.cfg
            &&& c.counts == b.counts
            &&& c.out.len() >= b.out.len()
            &&& c.out.take(b.out.len() as int) == b.out
            &&& forall|k: int| b.out.len() <= k < c.out.len() ==> reports(#[trigger] c.out[k])
        }),
{
    reveal(AppV::checked);
    reveal(AppV::preview_checked);
    reveal(AppV::without_preview);
    reveal(AppV::queue_reported);
    reveal(AppV::agents_reported);
    reveal(AppV::session_reported);
    let c = b.checked(a);
    assert(c.out.take(b.out.len() as int) =~= b.out);
}

/// When another session comes into view, or the viewed one is bound, that is
/// reported; a session without a name of the agent's is reported as none.
pub proof fn law_view_is_reported(a: AppV, b: AppV)
    requires
        !a.base.demo,
        b.live.id != a.live.id || b.live.bound != a.live.bound,
    ensures
        b.checked(a).out.last() == sends(
            Cmd::ActiveSession {
                session_id: if b.live.bound {
                    Some(b.live.id)
                } else {
                    None
                },
            },
        ),
{
    reveal(AppV::checked);
    reveal(AppV::preview_checked);
    reveal(AppV::without_preview);
    reveal(AppV::queue_reported);
    reveal(AppV::agents_reported);
    reveal(AppV::session_reported);
}

// --- signing in ---------------------------------------------------------------------------------

/// A sign-in that can be started is asked of the agent, with the method that
/// was meant and what was typed for it.
pub proof fn law_sign_in_is_asked(
    a: AppV,
    method_id: String,
    i: usize,
    values: Vec<(String, String)>,
    complete: bool,
)
    requires
        i < a.conn.auth.methods.len(),
        !a.conn.auth.methods[i as int].env_prompt,
        complete || !a.conn.auth.methods[i as int].form,
        values@.len() > 0 || a.conn.auth.methods[i as int].launch is None,
    ensures
        ({
            let b = a.replied(
                Reply::SignIn { method_id, chosen: Some(i), values, complete },
            );
            let m = a.conn.auth.methods[i as int];
            &&& b.out == a.out.push(
                sends(Cmd::Authenticate { method_id: m.id, values: bus::pairs_view(values@) }),
            )
            &&& b.conn.auth.status == AuthStatus::SigningIn
            &&& b.conn.auth.method_id == Some(m.id)
            &&& b.conn.auth.message is None
            &&& b.conn.auth.methods == a.conn.auth.methods
            &&& b.live.queue == a.live.queue
            &&& b.tabs == a.tabs
        }),
{
    reveal(AppV::replied);
    reveal(AppV::sign_in_with);
}

/// A method that is not there, that takes variables only, or that lacks a value
/// is not asked of the agent.
pub proof fn law_sign_in_is_refused(
    a: AppV,
    method_id: String,
    chosen: Option<usize>,
    values: Vec<(String, String)>,
    complete: bool,
)
    requires
        chosen is None || chosen->0 >= a.conn.auth.methods.len()
            || a.conn.auth.methods[chosen->0 as int].env_prompt || (
        a.conn.auth.methods[chosen->0 as int].form && !complete),
    ensures
        ({
            let b = a.replied(Reply::SignIn { method_id, chosen, values, complete });
            &&& b.conn == a.conn
            &&& b.live == a.live
            &&& forall|k: int| a.out.len() <= k < b.out.len() ==> !(#[trigger] b.out[k] is Send)
            &&& b.status.terminal_auth == a.status.terminal_auth
        }),
{
    reveal(AppV::replied);
    reveal(AppV::sign_in_with);
}

} // verus!
