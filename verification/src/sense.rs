//! What holds of every state of the client, whatever comes in.

use crate::app::AppV;
use crate::bus::AppEvent;
use crate::replies::Reply;
use crate::sense_menus;
use crate::sense_told;
use vstd::prelude::*;

verus! {

/// Whatever comes in, the state makes sense afterwards: the viewed tab has its
/// place in the row, what is kept for parked sessions only is blank while a
/// session is viewed, an open choice has one of its options selected, every
/// place of a plugin shows one thing, and in every session a prompt waits for
/// one fate, an agent is listed once, and the prompts have their own numbers.
pub proof fn law_events_keep_sense(a: AppV, e: AppEvent)
    requires
        a.wf(),
    ensures
        a.handled(e).wf(),
{
    sense_told::lemma_handled(a, e);
}

/// The same holds of what is told back after an effect.
pub proof fn law_replies_keep_sense(a: AppV, r: Reply)
    requires
        a.wf(),
    ensures
        a.answered(r).wf(),
{
    sense_told::lemma_answered(a, r);
}

/// The same holds after a prompt of the command line.
pub proof fn law_prompting_keeps_sense(a: AppV, t: Seq<char>)
    requires
        a.wf(),
    ensures
        a.prompted(t).wf(),
{
    sense_menus::lemma_prompted(a, t);
}

/// The same holds as time passes.
pub proof fn law_time_keeps_sense(a: AppV, streaming: bool, tips: usize)
    requires
        a.wf(),
    ensures
        a.ticked(streaming, tips).wf(),
{
    sense_told::lemma_ticked(a, streaming, tips);
}

} // verus!
