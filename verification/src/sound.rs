//! What the changes to queues, lists of agents and places of plugins keep.

use crate::app::{self, SlotContent};
use crate::plugins;
use crate::queue;
use crate::seqs;
use crate::session::{
    self, numbers_differ, slot_sound, slots_sound, steers_differ, texts_differ, ClientQueuedPrompt,
    QueueV, QueuedV, SlotV, SteerV,
};
use vstd::prelude::*;

verus! {

/// A number that the next prompt of this queue may have.
pub open spec fn spare(q: QueueV, id: u64, next: u64) -> bool {
    &&& id < next
    &&& forall|i: int| 0 <= i < q.prompts.len() ==> (#[trigger] q.prompts[i]).id != id
}

pub broadcast proof fn lemma_queue_parts(q: QueueV, r: QueueV, next: u64)
    requires
        q.prompts == r.prompts,
        q.steers == r.steers,
        numbers_differ(q, next),
    ensures
        #![trigger numbers_differ(q, next), numbers_differ(r, next)]
        numbers_differ(r, next),
{
    reveal(numbers_differ);
}

pub broadcast proof fn lemma_steer_parts(q: QueueV, r: QueueV)
    requires
        q.steers == r.steers,
        steers_differ(q),
    ensures
        #![trigger steers_differ(q), steers_differ(r)]
        steers_differ(r),
{
    reveal(steers_differ);
}

pub broadcast proof fn lemma_numbers_grow(q: QueueV, n: u64, m: u64)
    requires
        n <= m,
        numbers_differ(q, n),
    ensures
        #![trigger numbers_differ(q, n), numbers_differ(q, m)]
        numbers_differ(q, m),
{
    reveal(numbers_differ);
}

pub proof fn lemma_number_is_spare(q: QueueV, id: u64)
    requires
        numbers_differ(q, id),
    ensures
        forall|i: int| 0 <= i < q.prompts.len() ==> (#[trigger] q.prompts[i]).id != id,
{
    reveal(numbers_differ);
}

pub broadcast proof fn lemma_without_head(q: QueueV, next: u64)
    requires
        q.prompts.len() > 0,
        numbers_differ(q, next),
    ensures
        #[trigger] numbers_differ(queue::without_head(q), next),
        spare(queue::without_head(q), q.prompts[0].id, next),
{
    reveal(numbers_differ);
    let r = queue::without_head(q);
    assert forall|i: int| 0 <= i < r.prompts.len() implies #[trigger] r.prompts[i] == q.prompts[i
        + 1] by {}
}

pub broadcast proof fn lemma_with_prompt(q: QueueV, p: QueuedV, next: u64)
    requires
        p.id < next,
        numbers_differ(q, p.id),
    ensures
        #[trigger] numbers_differ(queue::with_prompt(q, p), next),
{
    reveal(numbers_differ);
    let r = queue::with_prompt(q, p);
    assert forall|i: int| 0 <= i < q.prompts.len() implies #[trigger] r.prompts[i]
        == q.prompts[i] by {}
}

pub broadcast proof fn lemma_with_steer(q: QueueV, s: SteerV)
    requires
        steers_differ(q),
    ensures
        #[trigger] steers_differ(queue::with_steer(q, s)),
{
    reveal(steers_differ);
    seqs::lemma_first_index(q.steers, queue::numbered(s.message_id));
}

pub broadcast proof fn lemma_with_spare_steer(q: QueueV, s: SteerV, next: u64)
    requires
        numbers_differ(q, next),
        spare(q, s.message_id, next),
    ensures
        #[trigger] numbers_differ(queue::with_steer(q, s), next),
{
    reveal(numbers_differ);
    seqs::lemma_first_index(q.steers, queue::numbered(s.message_id));
}

pub broadcast proof fn lemma_steer_settled(q: QueueV, id: u64, deferred: bool)
    requires
        queue::has_steer(q, id),
        steers_differ(q),
    ensures
        #[trigger] steers_differ(queue::steer_settled(q, id, deferred)),
{
    reveal(steers_differ);
    let by = queue::numbered(id);
    seqs::lemma_first_index(q.steers, by);
    let at = seqs::first_index(q.steers, by);
    let r = queue::steer_settled(q, id, deferred);
    assert forall|i: int| 0 <= i < r.steers.len() implies #[trigger] r.steers[i] == (if i < at {
        q.steers[i]
    } else {
        q.steers[i + 1]
    }) by {}
}

pub broadcast proof fn lemma_settled_numbers(q: QueueV, id: u64, deferred: bool, next: u64)
    requires
        queue::has_steer(q, id),
        steers_differ(q),
        numbers_differ(q, next),
    ensures
        #[trigger] numbers_differ(queue::steer_settled(q, id, deferred), next),
{
    reveal(steers_differ);
    reveal(numbers_differ);
    let by = queue::numbered(id);
    seqs::lemma_first_index(q.steers, by);
    let at = seqs::first_index(q.steers, by);
    assert(q.steers[at].message_id == id);
    let r = queue::steer_settled(q, id, deferred);
    let p = ClientQueuedPrompt { id, blocks: q.steers[at].blocks };
    assert forall|i: int| 0 <= i < r.steers.len() implies #[trigger] r.steers[i] == (if i < at {
        q.steers[i]
    } else {
        q.steers[i + 1]
    }) by {}
    if deferred && q.steers[at].requeue_front {
        assert forall|i: int| 0 <= i < r.prompts.len() implies #[trigger] r.prompts[i] == (if i
            == 0 {
            p
        } else {
            q.prompts[i - 1]
        }) by {}
    } else if deferred {
        assert forall|i: int| 0 <= i < r.prompts.len() implies #[trigger] r.prompts[i] == (if i
            == q.prompts.len() {
            p
        } else {
            q.prompts[i]
        }) by {}
    }
}

/// Putting other blocks into a queued prompt.
pub proof fn lemma_changed_prompt(q: QueueV, r: QueueV, at: int, p: QueuedV, next: u64)
    requires
        0 <= at < q.prompts.len(),
        p.id == q.prompts[at].id,
        r.prompts == q.prompts.update(at, p),
        r.steers == q.steers,
        numbers_differ(q, next),
    ensures
        numbers_differ(r, next),
{
    reveal(numbers_differ);
}

/// Taking a prompt out of the queue.
pub proof fn lemma_removed_prompt(q: QueueV, r: QueueV, at: int, next: u64)
    requires
        0 <= at < q.prompts.len(),
        r.prompts == q.prompts.remove(at),
        r.steers == q.steers,
        numbers_differ(q, next),
    ensures
        numbers_differ(r, next),
{
    reveal(numbers_differ);
    assert forall|i: int| 0 <= i < r.prompts.len() implies #[trigger] r.prompts[i] == (if i < at {
        q.prompts[i]
    } else {
        q.prompts[i + 1]
    }) by {}
}

pub broadcast proof fn lemma_empty_queue(q: QueueV, next: u64)
    requires
        q.prompts.len() == 0,
        q.steers.len() == 0,
    ensures
        #[trigger] numbers_differ(q, next),
{
    reveal(numbers_differ);
}

pub broadcast proof fn lemma_no_steers(q: QueueV)
    requires
        q.steers.len() == 0,
    ensures
        #[trigger] steers_differ(q),
{
    reveal(steers_differ);
}

pub broadcast proof fn lemma_no_texts(set: Seq<Seq<char>>)
    requires
        set.len() == 0,
    ensures
        #[trigger] texts_differ(set),
{
    reveal(texts_differ);
}

pub broadcast proof fn lemma_with_member(set: Seq<Seq<char>>, id: Seq<char>)
    requires
        texts_differ(set),
    ensures
        #[trigger] texts_differ(session::with_member(set, id)),
{
    reveal(texts_differ);
}

pub broadcast proof fn lemma_with_content(
    v: Seq<SlotContent<Seq<char>>>,
    c: SlotContent<Seq<char>>,
)
    requires
        app::contents_differ(v),
    ensures
        #[trigger] app::contents_differ(plugins::with_content(v, c)),
{
    reveal(app::contents_differ);
    seqs::lemma_first_index(v, plugins::in_slot(c.slot));
}

// --- rows of parked sessions ------------------------------------------------

pub broadcast proof fn lemma_parked_update(v: Seq<SlotV>, at: int, s: SlotV, next: u64, again: bool)
    requires
        0 <= at < v.len(),
        slots_sound(v, next, again),
        slot_sound(s, next, again),
    ensures
        #[trigger] slots_sound(v.update(at, s), next, again),
{
    reveal(slots_sound);
}

pub broadcast proof fn lemma_parked_insert(v: Seq<SlotV>, at: int, s: SlotV, next: u64, again: bool)
    requires
        0 <= at <= v.len(),
        slots_sound(v, next, again),
        slot_sound(s, next, again),
    ensures
        #[trigger] slots_sound(v.insert(at, s), next, again),
{
    reveal(slots_sound);
}

pub broadcast proof fn lemma_parked_push(v: Seq<SlotV>, s: SlotV, next: u64, again: bool)
    requires
        slots_sound(v, next, again),
        slot_sound(s, next, again),
    ensures
        #[trigger] slots_sound(v.push(s), next, again),
{
    reveal(slots_sound);
}

pub broadcast proof fn lemma_parked_remove(v: Seq<SlotV>, at: int, next: u64, again: bool)
    requires
        0 <= at < v.len(),
        slots_sound(v, next, again),
    ensures
        #[trigger] slots_sound(v.remove(at), next, again),
{
    reveal(slots_sound);
}

pub broadcast proof fn lemma_parked_one(v: Seq<SlotV>, at: int, next: u64, again: bool)
    requires
        0 <= at < v.len(),
        slots_sound(v, next, again),
    ensures
        #![trigger slots_sound(v, next, again), v[at]]
        slot_sound(v[at], next, again),
{
    reveal(slots_sound);
}

pub proof fn lemma_parked_grow(v: Seq<SlotV>, n: u64, m: u64, a: bool, b: bool)
    requires
        !b ==> !a && n <= m,
        slots_sound(v, n, a),
    ensures
        slots_sound(v, m, b),
{
    reveal(slots_sound);
    broadcast use lemma_numbers_grow;

    assert forall|i: int| 0 <= i < v.len() implies slot_sound(#[trigger] v[i], m, b) by {
        assert(slot_sound(v[i], n, a));
    }
}

pub broadcast group group_sound {
    lemma_queue_parts,
    lemma_steer_parts,
    lemma_without_head,
    lemma_with_steer,
    lemma_with_spare_steer,
    lemma_steer_settled,
    lemma_settled_numbers,
    lemma_empty_queue,
    lemma_no_steers,
    lemma_no_texts,
    lemma_with_member,
    lemma_with_content,
    lemma_parked_update,
    lemma_parked_insert,
    lemma_parked_push,
    lemma_parked_remove,
    lemma_parked_one,
}

} // verus!
