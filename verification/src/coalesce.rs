//! Merging bursts of session updates before they are handled.

use crate::bus::AppEvent;
use crate::events::{self, EventV, UiEvent};
use crate::json::{self, Json, JsonValue};
use crate::text;
use vstd::prelude::*;

verus! {

pub open spec fn same_text(a: Json, b: Json, key: Seq<char>) -> bool {
    json::string_member(a, key) == json::string_member(b, key)
}

pub open spec fn same_member(a: Option<Json>, b: Option<Json>) -> bool {
    match (a, b) {
        (Some(a), Some(b)) => json::same_json(a, b),
        (None, None) => true,
        _ => false,
    }
}

/// The child session that an update names.
pub open spec fn named_child(update: Json) -> Option<Json> {
    json::member_of(events::update_subagent(update), "childSessionId"@)
}

pub open spec fn chunk_text(update: Json) -> Option<Seq<char>> {
    json::string_in(json::member_of(json::member(update, "content"@), "text"@))
}

/// An update that carries nothing that a later one could lose.
pub open spec fn bare(update: Json) -> bool {
    &&& json::member(update, "content"@) is None
    &&& json::member(update, "rawOutput"@) is None
    &&& json::member(update, "_meta"@) is None
}

pub open spec fn with_chunk_text(update: Json, t: Seq<char>) -> Json {
    match json::member(update, "content"@) {
        Some(content) => json::with_member(
            update,
            "content"@,
            json::with_member(content, "text"@, Json::Str(t)),
        ),
        None => update,
    }
}

pub open spec fn with_meta_of(update: Json, new: Json) -> Json {
    match json::member(new, "_meta"@) {
        Some(meta) => json::with_member(update, "_meta"@, meta),
        None => update,
    }
}

/// Two updates as one, where nothing is lost by it: chunks of one message are
/// put together and the later metadata wins; of two bare states of one tool
/// call the later one stays.
pub open spec fn merged_update(prev: Json, new: Json) -> Option<Json> {
    let kind = json::text_member(new, "sessionUpdate"@);
    if !same_text(prev, new, "sessionUpdate"@) || !same_member(named_child(prev), named_child(new)) {
        None
    } else if kind == "agent_message_chunk"@ || kind == "agent_thought_chunk"@ {
        if !same_text(prev, new, "messageId"@) {
            None
        } else {
            match (chunk_text(prev), chunk_text(new)) {
                (Some(a), Some(b)) => Some(with_meta_of(with_chunk_text(prev, a + b), new)),
                _ => None,
            }
        }
    } else if kind == "tool_call_update"@ {
        if same_text(prev, new, "toolCallId"@) && bare(prev) && bare(new) {
            Some(new)
        } else {
            None
        }
    } else {
        None
    }
}

/// Two payloads of `session/update` as one, if they can be.
pub open spec fn merged(prev: Json, new: Json) -> Option<Json> {
    if !same_text(prev, new, "sessionId"@) {
        None
    } else {
        match (json::member(prev, "update"@), json::member(new, "update"@)) {
            (Some(p), Some(n)) => match merged_update(p, n) {
                Some(u) => Some(json::with_member(prev, "update"@, u)),
                None => None,
            },
            _ => None,
        }
    }
}

fn texts_agree(a: &JsonValue, b: &JsonValue, key: &str) -> (r: bool)
    ensures
        r == same_text(a@, b@, key@),
{
    match (json::get_str(a, key), json::get_str(b, key)) {
        (Some(x), Some(y)) => text::same(x, y),
        (None, None) => true,
        _ => false,
    }
}

fn get_child<'a>(update: &'a JsonValue) -> (r: Option<&'a JsonValue>)
    ensures
        json::seen(r) == named_child(update@),
{
    let dsh = json::get_in(json::get(update, "_meta"), "dsh");
    json::get_in(json::get_in(dsh, "subagent"), "childSessionId")
}

fn get_chunk_text<'a>(update: &'a JsonValue) -> (r: Option<&'a str>)
    ensures
        text::opt_str_view(r) == chunk_text(update@),
{
    json::as_str(json::get_in(json::get(update, "content"), "text"))
}

fn is_bare(update: &JsonValue) -> (r: bool)
    ensures
        r == bare(update@),
{
    json::get(update, "content").is_none() && json::get(update, "rawOutput").is_none() && json::get(
        update,
        "_meta",
    ).is_none()
}

fn append_chunk_text(update: &mut JsonValue, more: &str)
    requires
        chunk_text(old(update)@) is Some,
    ensures
        final(update)@ == with_chunk_text(old(update)@, chunk_text(old(update)@)->0 + more@),
{
    let ghost before = update@;
    let content = json::take_member(update, "content");
    if let Some(mut content) = content {
        let ghost c = content@;
        let text = json::take_member(&mut content, "text");
        if let Some(JsonValue::Str(mut t)) = text {
            text::push_str(&mut t, more);
            json::set_member(&mut content, "text", JsonValue::Str(t));
            proof {
                json::lemma_with_member_twice(c, "text"@, Json::Null, Json::Str(t@));
            }
        }
        let ghost done = content@;
        json::set_member(update, "content", content);
        proof {
            json::lemma_with_member_twice(before, "content"@, Json::Null, done);
        }
    }
}

/// Merges `new` into `prev` where that loses nothing.
fn merge_into(prev: &mut JsonValue, new: &JsonValue) -> (r: bool)
    ensures
        match merged_update(old(prev)@, new@) {
            Some(u) => r && final(prev)@ == u,
            None => !r && final(prev)@ == old(prev)@,
        },
{
    if !texts_agree(prev, new, "sessionUpdate") {
        return false;
    }
    let children_agree = match (get_child(prev), get_child(new)) {
        (Some(a), Some(b)) => json::value_eq(a, b),
        (None, None) => true,
        _ => false,
    };
    if !children_agree {
        return false;
    }
    let kind = json::str_field(new, "sessionUpdate");
    if text::same(kind.as_str(), "agent_message_chunk") || text::same(
        kind.as_str(),
        "agent_thought_chunk",
    ) {
        if !texts_agree(prev, new, "messageId") {
            return false;
        }
        let more = match get_chunk_text(new) {
            Some(t) => t,
            None => return false,
        };
        if get_chunk_text(prev).is_none() {
            return false;
        }
        append_chunk_text(prev, more);
        if let Some(meta) = json::get(new, "_meta") {
            json::set_member(prev, "_meta", json::copy(meta));
        }
        return true;
    }
    if text::same(kind.as_str(), "tool_call_update") {
        if !texts_agree(prev, new, "toolCallId") || !is_bare(prev) || !is_bare(new) {
            return false;
        }
        *prev = json::copy(new);
        return true;
    }
    false
}

fn merge_update(prev: &mut JsonValue, new: &JsonValue) -> (r: bool)
    ensures
        match merged(old(prev)@, new@) {
            Some(u) => r && final(prev)@ == u,
            None => !r && final(prev)@ == old(prev)@,
        },
{
    if !texts_agree(prev, new, "sessionId") {
        return false;
    }
    let new_update = match json::get(new, "update") {
        Some(u) => u,
        None => return false,
    };
    let ghost before = prev@;
    match json::take_member(prev, "update") {
        Some(mut update) => {
            let ghost u0 = update@;
            let r = merge_into(&mut update, new_update);
            let ghost u1 = update@;
            json::set_member(prev, "update", update);
            proof {
                json::lemma_with_member_twice(before, "update"@, Json::Null, u1);
                json::lemma_set_same(before, "update"@);
            }
            r
        },
        None => false,
    }
}

/// One event of the main loop as far as merging is concerned.
pub ghost enum Item {
    Rpc { method: Seq<char>, params: Json },
    Other(AppEvent),
}

pub open spec fn item(ev: AppEvent) -> Item {
    match ev {
        AppEvent::Rpc { method, params } => Item::Rpc { method: method@, params: params@ },
        _ => Item::Other(ev),
    }
}

pub open spec fn items(v: Seq<AppEvent>) -> Seq<Item> {
    v.map_values(|e: AppEvent| item(e))
}

/// A list of events with one more behind it: merged into the last one, or
/// added.
pub open spec fn joined_by(out: Seq<Item>, next: Item) -> Seq<Item> {
    match (out.last(), next) {
        (
            Item::Rpc { method: a, params: prev },
            Item::Rpc { method: b, params: new },
        ) => if out.len() > 0 && a == "session/update"@ && b == "session/update"@ && merged(
            prev,
            new,
        ) is Some {
            out.drop_last().push(Item::Rpc { method: a, params: merged(prev, new)->0 })
        } else {
            out.push(next)
        },
        _ => out.push(next),
    }
}

/// A burst of events with everything merged that can be.
pub open spec fn coalesced(v: Seq<Item>) -> Seq<Item>
    decreases v.len(),
{
    if v.len() == 0 {
        Seq::empty()
    } else {
        joined_by(coalesced(v.drop_last()), v.last())
    }
}

fn add_event(out: &mut Vec<AppEvent>, ev: AppEvent)
    ensures
        items(final(out)@) == joined_by(items(old(out)@), item(ev)),
{
    let ghost before = out@;
    let n: usize = out.len();
    if n > 0 {
        assert(items(before).last() == item(before.last()));
        let mut last = match out.pop() {
            Some(l) => l,
            None => return,
        };
        assert(items(out@) =~= items(before).drop_last());
        let mut is_merged = false;
        if let AppEvent::Rpc { method: a, params: prev } = &mut last {
            if let AppEvent::Rpc { method: b, params: new } = &ev {
                if text::same(a.as_str(), "session/update") && text::same(
                    b.as_str(),
                    "session/update",
                ) {
                    is_merged = merge_update(prev, new);
                }
            }
        }
        let ghost kept = item(last);
        out.push(last);
        assert(items(out@) =~= items(before).drop_last().push(kept));
        if is_merged {
            return;
        }
        assert(items(out@) =~= items(before));
    }
    let ghost mid = out@;
    out.push(ev);
    assert(items(out@) =~= items(mid).push(item(ev)));
}

/// Merges the adjacent session updates of a burst where that loses nothing.
pub fn coalesce_session_updates(events: &mut Vec<AppEvent>)
    ensures
        items(final(events)@) == coalesced(items(old(events)@)),
{
    let ghost all = items(events@);
    let mut rest: Vec<AppEvent> = Vec::new();
    std::mem::swap(events, &mut rest);
    let ghost source = rest@;
    let mut out: Vec<AppEvent> = Vec::new();
    assert(items(out@) =~= coalesced(all.take(0)));
    for ev in iter: rest
        invariant
            iter.seq() == source,
            all == items(source),
            items(out@) == coalesced(all.take(iter.index() as int)),
    {
        let ghost i = iter.index() as int;
        assert(all.take(i + 1).drop_last() =~= all.take(i));
        assert(all.take(i + 1).last() == item(ev));
        add_event(&mut out, ev);
    }
    assert(all.take(all.len() as int) =~= all);
    *events = out;
}

// --- what merging keeps -------------------------------------------------------

/// The update that a notification carries, if it is a session update.
pub open spec fn update_in(i: Item) -> Option<Json> {
    match i {
        Item::Rpc { method, params } => if method == "session/update"@ {
            json::member(params, "update"@)
        } else {
            None
        },
        Item::Other(_) => None,
    }
}

pub open spec fn is_chunk(update: Json) -> bool {
    let kind = json::text_member(update, "sessionUpdate"@);
    (kind == "agent_message_chunk"@ || kind == "agent_thought_chunk"@) && chunk_text(update) is Some
}

pub open spec fn is_bare_tool_state(update: Json) -> bool {
    json::text_member(update, "sessionUpdate"@) == "tool_call_update"@ && bare(update)
}

/// The only events that merging may change: text chunks and bare tool states.
pub open spec fn may_merge(i: Item) -> bool {
    update_in(i) matches Some(u) && (is_chunk(u) || is_bare_tool_state(u))
}

/// The events that merging leaves alone, in their order.
pub open spec fn untouched(v: Seq<Item>) -> Seq<Item>
    decreases v.len(),
{
    if v.len() == 0 {
        Seq::empty()
    } else if may_merge(v.last()) {
        untouched(v.drop_last())
    } else {
        untouched(v.drop_last()).push(v.last())
    }
}

/// Which stream of text a chunk belongs to.
pub ghost struct Stream {
    pub session: Option<Seq<char>>,
    pub kind: Seq<char>,
    pub message: Option<Seq<char>>,
}

pub open spec fn stream_of(i: Item) -> Option<Stream> {
    match i {
        Item::Rpc { method, params } => match update_in(i) {
            Some(u) => if is_chunk(u) {
                Some(
                    Stream {
                        session: json::string_member(params, "sessionId"@),
                        kind: json::text_member(u, "sessionUpdate"@),
                        message: json::string_member(u, "messageId"@),
                    },
                )
            } else {
                None
            },
            None => None,
        },
        Item::Other(_) => None,
    }
}

/// What one event adds to a stream of text.
pub open spec fn added_text(i: Item, to: Stream) -> Seq<char> {
    if stream_of(i) == Some(to) {
        chunk_text(update_in(i)->0)->0
    } else {
        Seq::empty()
    }
}

/// The whole text that a list of events streams.
pub open spec fn streamed(v: Seq<Item>, to: Stream) -> Seq<char>
    decreases v.len(),
{
    if v.len() == 0 {
        Seq::empty()
    } else {
        streamed(v.drop_last(), to) + added_text(v.last(), to)
    }
}

proof fn lemma_keys()
    ensures
        "content"@ != "sessionUpdate"@,
        "content"@ != "messageId"@,
        "content"@ != "_meta"@,
        "_meta"@ != "sessionUpdate"@,
        "_meta"@ != "messageId"@,
        "update"@ != "sessionId"@,
        "agent_message_chunk"@ != "tool_call_update"@,
        "agent_thought_chunk"@ != "tool_call_update"@,
{
    reveal_strlit("content");
    reveal_strlit("sessionUpdate");
    reveal_strlit("messageId");
    reveal_strlit("_meta");
    reveal_strlit("update");
    reveal_strlit("sessionId");
    reveal_strlit("agent_message_chunk");
    reveal_strlit("agent_thought_chunk");
    reveal_strlit("tool_call_update");
    assert("content"@.len() == 7);
    assert("_meta"@.len() == 5);
    assert("update"@.len() == 6);
    assert("sessionId"@.len() == 9);
    assert("sessionUpdate"@.len() == 13);
    assert("messageId"@.len() == 9);
    assert("agent_message_chunk"@.len() == 19);
    assert("agent_thought_chunk"@.len() == 19);
    assert("tool_call_update"@.len() == 16);
}

proof fn lemma_merged_update(prev: Json, new: Json)
    requires
        merged_update(prev, new) is Some,
    ensures
        is_chunk(prev) || is_bare_tool_state(prev),
        is_chunk(prev) == is_chunk(new),
        is_bare_tool_state(prev) == is_bare_tool_state(new),
        ({
            let u = merged_update(prev, new)->0;
            &&& is_chunk(u) == is_chunk(new)
            &&& is_bare_tool_state(u) == is_bare_tool_state(new)
            &&& same_text(prev, u, "sessionUpdate"@)
            &&& named_child(u) == named_child(new) || named_child(u) == named_child(prev)
            &&& is_chunk(new) ==> {
                &&& json::text_member(u, "sessionUpdate"@) == json::text_member(prev, "sessionUpdate"@)
                &&& json::text_member(new, "sessionUpdate"@) == json::text_member(
                    prev,
                    "sessionUpdate"@,
                )
                &&& json::string_member(u, "messageId"@) == json::string_member(prev, "messageId"@)
                &&& json::string_member(new, "messageId"@) == json::string_member(prev, "messageId"@)
                &&& chunk_text(u) == Some(chunk_text(prev)->0 + chunk_text(new)->0)
            }
        }),
{
    lemma_keys();
    let u = merged_update(prev, new)->0;
    if is_chunk(new) {
        let t = chunk_text(prev)->0 + chunk_text(new)->0;
        let content = json::member(prev, "content"@)->0;
        let mid = with_chunk_text(prev, t);
        json::lemma_with_member(content, "text"@, Json::Str(t));
        json::lemma_with_member(prev, "content"@, json::with_member(content, "text"@, Json::Str(t)));
        assert(chunk_text(mid) == Some(t));
        if json::member(new, "_meta"@) is Some {
            json::lemma_with_member(mid, "_meta"@, json::member(new, "_meta"@)->0);
        }
        assert(chunk_text(u) == Some(t));
    }
}

proof fn lemma_merged(prev: Item, new: Item)
    requires
        prev matches Item::Rpc { method: a, params: p } && new matches Item::Rpc {
            method: b,
            params: n,
        } && a == "session/update"@ && b == "session/update"@ && merged(p, n) is Some,
    ensures
        ({
            let m = Item::Rpc {
                method: "session/update"@,
                params: merged(prev->params, new->params)->0,
            };
            &&& may_merge(prev) && may_merge(new) && may_merge(m)
            &&& forall|to: Stream|
                #![auto]
                added_text(m, to) == added_text(prev, to) + added_text(new, to)
        }),
{
    lemma_keys();
    let p = prev->params;
    let n = new->params;
    let pu = json::member(p, "update"@)->0;
    let nu = json::member(n, "update"@)->0;
    lemma_merged_update(pu, nu);
    let u = merged_update(pu, nu)->0;
    json::lemma_with_member(p, "update"@, u);
    let m = Item::Rpc { method: "session/update"@, params: merged(p, n)->0 };
    assert(update_in(m) == Some(u));
    assert forall|to: Stream| #![auto] added_text(m, to) == added_text(prev, to) + added_text(
        new,
        to,
    ) by {
        assert(Seq::<char>::empty() + Seq::<char>::empty() =~= Seq::<char>::empty());
    }
}

proof fn lemma_joined_by(out: Seq<Item>, next: Item, to: Stream)
    ensures
        untouched(joined_by(out, next)) == untouched(out.push(next)),
        streamed(joined_by(out, next), to) == streamed(out, to) + added_text(next, to),
        joined_by(out, next).len() <= out.len() + 1,
{
    assert(out.push(next).drop_last() =~= out);
    if joined_by(out, next) != out.push(next) {
        lemma_merged(out.last(), next);
        let m = joined_by(out, next).last();
        assert(joined_by(out, next).drop_last() =~= out.drop_last());
        assert(untouched(joined_by(out, next)) == untouched(out.drop_last()));
        assert(untouched(out) == untouched(out.drop_last()));
        assert(untouched(out.push(next)) == untouched(out));
        assert(streamed(joined_by(out, next), to) =~= streamed(out.drop_last(), to) + (added_text(
            out.last(),
            to,
        ) + added_text(next, to)));
        assert(streamed(out, to) + added_text(next, to) =~= streamed(out.drop_last(), to) + (
        added_text(out.last(), to) + added_text(next, to)));
    }
}

/// Merging leaves every event alone that is not a text chunk or a bare tool
/// state: none of them is lost, changed or moved past another. A tool call, or
/// a tool state with content, raw output or metadata, is such an event.
pub proof fn law_untouched_events_survive(v: Seq<Item>)
    ensures
        untouched(coalesced(v)) == untouched(v),
    decreases v.len(),
{
    if v.len() > 0 {
        law_untouched_events_survive(v.drop_last());
        let out = coalesced(v.drop_last());
        let to = Stream { session: None, kind: Seq::empty(), message: None };
        lemma_joined_by(out, v.last(), to);
        assert(out.push(v.last()).drop_last() =~= out);
    }
}

/// Merging loses no text: every message of every session streams the same text
/// as before.
pub proof fn law_no_text_is_lost(v: Seq<Item>, to: Stream)
    ensures
        streamed(coalesced(v), to) == streamed(v, to),
    decreases v.len(),
{
    if v.len() > 0 {
        law_no_text_is_lost(v.drop_last(), to);
        lemma_joined_by(coalesced(v.drop_last()), v.last(), to);
    }
}

/// Merging never makes a burst longer.
pub proof fn law_never_longer(v: Seq<Item>)
    ensures
        coalesced(v).len() <= v.len(),
    decreases v.len(),
{
    if v.len() > 0 {
        law_never_longer(v.drop_last());
        let to = Stream { session: None, kind: Seq::empty(), message: None };
        lemma_joined_by(coalesced(v.drop_last()), v.last(), to);
    }
}

/// Whether the second of two neighbours is merged into the first.
pub open spec fn merges(a: Item, b: Item) -> bool {
    match (a, b) {
        (Item::Rpc { method: a, params: prev }, Item::Rpc { method: b, params: new }) => a
            == "session/update"@ && b == "session/update"@ && merged(prev, new) is Some,
        _ => false,
    }
}

/// A list in which nothing can be merged any further.
pub open spec fn settled(v: Seq<Item>) -> bool {
    forall|i: int, k: int|
        0 <= i && i + 1 == k && k < v.len() ==> !merges(#[trigger] v[i], #[trigger] v[k])
}

/// An event whose payload names no key of an object twice.
pub open spec fn sound(i: Item) -> bool {
    i matches Item::Rpc { params, .. } ==> json::sound(params)
}

/// The child session that an update of a session names is sound.
pub open spec fn sound_child(i: Item) -> bool {
    update_in(i) matches Some(u) ==> (named_child(u) matches Some(c) ==> json::sound(c))
}

proof fn lemma_sound_child(i: Item)
    requires
        sound(i),
    ensures
        sound_child(i),
{
    if let Some(u) = update_in(i) {
        json::lemma_member_sound(i->params, "update"@);
        json::lemma_member_sound(u, "_meta"@);
        if let Some(meta) = json::member(u, "_meta"@) {
            json::lemma_member_sound(meta, "dsh"@);
            if let Some(dsh) = json::member(meta, "dsh"@) {
                json::lemma_member_sound(dsh, "subagent"@);
                if let Some(subagent) = json::member(dsh, "subagent"@) {
                    json::lemma_member_sound(subagent, "childSessionId"@);
                }
            }
        }
    }
}

proof fn lemma_same_member(x: Option<Json>, p: Option<Json>, n: Option<Json>)
    requires
        p matches Some(p) ==> json::sound(p),
        n matches Some(n) ==> json::sound(n),
        same_member(p, n),
        same_member(x, n),
    ensures
        same_member(x, p),
{
    if let (Some(x), Some(p), Some(n)) = (x, p, n) {
        json::lemma_same_json_symmetric(p, n);
        json::lemma_same_json_transitive(x, n, p);
    }
}

/// What merges with the merged event would have merged with the first of the
/// two.
proof fn lemma_merges_alike(x: Item, prev: Item, new: Item)
    requires
        merges(prev, new),
        sound_child(prev),
        sound_child(new),
    ensures
        ({
            let m = Item::Rpc {
                method: "session/update"@,
                params: merged(prev->params, new->params)->0,
            };
            &&& sound_child(m)
            &&& merges(x, m) ==> merges(x, prev)
        }),
{
    lemma_keys();
    let p = prev->params;
    let n = new->params;
    let pu = json::member(p, "update"@)->0;
    let nu = json::member(n, "update"@)->0;
    lemma_merged_update(pu, nu);
    let u = merged_update(pu, nu)->0;
    json::lemma_with_member(p, "update"@, u);
    let m = Item::Rpc { method: "session/update"@, params: merged(p, n)->0 };
    assert(update_in(m) == Some(u));
    assert(update_in(prev) == Some(pu));
    assert(update_in(new) == Some(nu));
    if merges(x, m) {
        let xu = json::member(x->params, "update"@)->0;
        assert(merged_update(xu, u) is Some);
        if named_child(u) != named_child(pu) {
            lemma_same_member(named_child(xu), named_child(pu), named_child(nu));
        }
        assert(same_member(named_child(xu), named_child(pu)));
        lemma_merged_update(xu, u);
        assert(merged_update(xu, pu) is Some);
    }
}

proof fn lemma_coalesced_settled(v: Seq<Item>)
    requires
        forall|i: int| 0 <= i < v.len() ==> sound(#[trigger] v[i]),
    ensures
        settled(coalesced(v)),
        forall|i: int| 0 <= i < coalesced(v).len() ==> sound_child(#[trigger] coalesced(v)[i]),
    decreases v.len(),
{
    if v.len() > 0 {
        let init = v.drop_last();
        assert forall|i: int| 0 <= i < init.len() implies sound(#[trigger] init[i]) by {
            assert(init[i] == v[i]);
        }
        lemma_coalesced_settled(init);
        let out = coalesced(init);
        let next = v.last();
        assert(next == v[v.len() - 1]);
        lemma_sound_child(next);
        let r = joined_by(out, next);
        if out.len() > 0 && merges(out.last(), next) {
            let n = out.len() - 1;
            assert(out.last() == out[n]);
            let m = r.last();
            assert(r =~= out.drop_last().push(m));
            if n > 0 {
                lemma_merges_alike(out[n - 1], out[n], next);
                assert(!merges(out[n - 1], out[n]));
            } else {
                lemma_merges_alike(out[0], out[n], next);
            }
            assert forall|i: int, k: int| 0 <= i && i + 1 == k && k < r.len() implies !merges(
                #[trigger] r[i],
                #[trigger] r[k],
            ) by {
                assert(r[i] == out[i]);
                if k < n {
                    assert(r[k] == out[k]);
                    assert(!merges(out[i], out[k]));
                }
            }
        } else {
            assert(r == out.push(next));
            assert forall|i: int, k: int| 0 <= i && i + 1 == k && k < r.len() implies !merges(
                #[trigger] r[i],
                #[trigger] r[k],
            ) by {
                assert(r[i] == out[i]);
                if k < out.len() {
                    assert(r[k] == out[k]);
                    assert(!merges(out[i], out[k]));
                } else {
                    assert(out.last() == out[i]);
                }
            }
        }
    }
}

proof fn lemma_settled_stays(v: Seq<Item>)
    requires
        settled(v),
    ensures
        coalesced(v) == v,
    decreases v.len(),
{
    if v.len() > 0 {
        let init = v.drop_last();
        assert forall|i: int, k: int| 0 <= i && i + 1 == k && k < init.len() implies !merges(
            #[trigger] init[i],
            #[trigger] init[k],
        ) by {
            assert(init[i] == v[i] && init[k] == v[k]);
            assert(!merges(v[i], v[k]));
        }
        lemma_settled_stays(init);
        if init.len() > 0 {
            let n = v.len() - 1;
            assert(init.last() == v[n - 1]);
            assert(!merges(v[n - 1], v[n]));
        }
        assert(init.push(v.last()) =~= v);
    }
}

/// Merging a second time changes nothing.
pub proof fn law_merging_twice_is_merging_once(v: Seq<Item>)
    requires
        forall|i: int| 0 <= i < v.len() ==> sound(#[trigger] v[i]),
    ensures
        coalesced(coalesced(v)) == coalesced(v),
{
    lemma_coalesced_settled(v);
    lemma_settled_stays(coalesced(v));
}

// --- what a session is told -----------------------------------------------------

/// The text that an event adds to the answer of a session, or to its thoughts.
pub open spec fn delta_text(e: EventV, session: Seq<char>, thought: bool) -> Seq<char> {
    match e {
        UiEvent::TextDelta { session: s, text } => if s == session && !thought {
            text
        } else {
            Seq::empty()
        },
        UiEvent::ReasoningDelta { session: s, text } => if s == session && thought {
            text
        } else {
            Seq::empty()
        },
        _ => Seq::empty(),
    }
}

pub open spec fn deltas(events: Seq<EventV>, session: Seq<char>, thought: bool) -> Seq<char>
    decreases events.len(),
{
    if events.len() == 0 {
        Seq::empty()
    } else {
        deltas(events.drop_last(), session, thought) + delta_text(events.last(), session, thought)
    }
}

/// The text that one event of the main loop is parsed to.
pub open spec fn parsed_text(i: Item, theme: Seq<char>, session: Seq<char>, thought: bool) -> Seq<char> {
    match i {
        Item::Rpc { method, params } => deltas(
            events::notification_events(method, params, theme, None),
            session,
            thought,
        ),
        Item::Other(_) => Seq::empty(),
    }
}

/// The text that a list of events is parsed to.
pub open spec fn told_text(v: Seq<Item>, theme: Seq<char>, session: Seq<char>, thought: bool) -> Seq<char>
    decreases v.len(),
{
    if v.len() == 0 {
        Seq::empty()
    } else {
        told_text(v.drop_last(), theme, session, thought) + parsed_text(
            v.last(),
            theme,
            session,
            thought,
        )
    }
}

proof fn lemma_deltas_short(events: Seq<EventV>, session: Seq<char>, thought: bool)
    requires
        events.len() <= 2,
    ensures
        deltas(events, session, thought) == (if events.len() == 0 {
            Seq::empty()
        } else if events.len() == 1 {
            delta_text(events[0], session, thought)
        } else {
            delta_text(events[0], session, thought) + delta_text(events[1], session, thought)
        }),
{
    reveal_with_fuel(deltas, 3);
    if events.len() > 0 {
        let one = events.drop_last();
        if events.len() == 2 {
            assert(one.last() == events[0]);
            assert(one.drop_last().len() == 0);
            assert(Seq::<char>::empty() + delta_text(events[0], session, thought) =~= delta_text(
                events[0],
                session,
                thought,
            ));
        } else {
            assert(Seq::<char>::empty() + delta_text(events[0], session, thought) =~= delta_text(
                events[0],
                session,
                thought,
            ));
        }
    }
}

/// A chunk is parsed to its own text, for the session it names.
proof fn lemma_parsed_chunk(params: Json, theme: Seq<char>, session: Seq<char>, thought: bool)
    requires
        json::member(params, "update"@) matches Some(u) && is_chunk(u),
    ensures
        ({
            let u = json::member(params, "update"@)->0;
            let i = Item::Rpc { method: "session/update"@, params };
            let thinks = json::text_member(u, "sessionUpdate"@) == "agent_thought_chunk"@;
            parsed_text(i, theme, session, thought) == (if events::update_session(params)
                == session && thinks == thought {
                chunk_text(u)->0
            } else {
                Seq::empty()
            })
        }),
{
    lemma_methods();
    let u = json::member(params, "update"@)->0;
    let name = events::update_session(params);
    let t = chunk_text(u)->0;
    assert(events::acp_text(json::member(u, "content"@)) == t);
    let found = events::update_events(params);
    if json::text_member(u, "sessionUpdate"@) == "agent_message_chunk"@ {
        assert(found == events::message_chunk_events(name, u));
        assert(found.len() <= 2);
        if t.len() > 0 {
            assert(found[0] == UiEvent::<Seq<char>>::TextDelta { session: name, text: t });
        }
        lemma_deltas_short(found, session, thought);
        assert(t.len() == 0 ==> t =~= Seq::empty());
        assert(t + Seq::<char>::empty() =~= t);
        assert(Seq::<char>::empty() + Seq::<char>::empty() =~= Seq::<char>::empty());
    } else {
        lemma_deltas_short(found, session, thought);
        assert(t.len() == 0 ==> t =~= Seq::empty());
    }
}

proof fn lemma_parsed_tool_state(params: Json, theme: Seq<char>, session: Seq<char>, thought: bool)
    requires
        json::member(params, "update"@) matches Some(u) && is_bare_tool_state(u),
    ensures
        parsed_text(
            Item::Rpc { method: "session/update"@, params },
            theme,
            session,
            thought,
        ).len() == 0,
{
    lemma_methods();
    let found = events::update_events(params);
    let u = json::member(params, "update"@)->0;
    assert(found == events::tool_update_events(events::update_session(params), u));
    lemma_deltas_short(found, session, thought);
}

proof fn lemma_methods()
    ensures
        "session/update"@ != "session.status"@,
        "session/update"@ != "subagent.started"@,
        "session/update"@ != "subagent.finished"@,
        "session/update"@ != "session.event"@,
        "agent_message_chunk"@ != "agent_thought_chunk"@,
        "tool_call_update"@ != "agent_message_chunk"@,
        "tool_call_update"@ != "agent_thought_chunk"@,
        "tool_call_update"@ != "user_message_chunk"@,
        "tool_call_update"@ != "session_info_update"@,
        "tool_call_update"@ != "plan"@,
        "tool_call_update"@ != "plan_update"@,
        "tool_call_update"@ != "plan_removed"@,
        "tool_call_update"@ != "tool_call"@,
{
    reveal_strlit("session/update");
    reveal_strlit("session.status");
    reveal_strlit("subagent.started");
    reveal_strlit("subagent.finished");
    reveal_strlit("session.event");
    reveal_strlit("agent_message_chunk");
    reveal_strlit("agent_thought_chunk");
    reveal_strlit("user_message_chunk");
    reveal_strlit("session_info_update");
    reveal_strlit("plan");
    reveal_strlit("plan_update");
    reveal_strlit("plan_removed");
    reveal_strlit("tool_call");
    reveal_strlit("tool_call_update");
    assert("session/update"@[7] == '/' && "session.status"@[7] == '.');
    assert("subagent.started"@.len() == 16);
    assert("subagent.finished"@.len() == 17);
    assert("session.event"@.len() == 13);
    assert("session/update"@.len() == 14);
    assert("agent_message_chunk"@[6] == 'm' && "agent_thought_chunk"@[6] == 't');
    assert("tool_call_update"@.len() == 16);
    assert("user_message_chunk"@.len() == 18);
    assert("session_info_update"@.len() == 19);
    assert("plan"@.len() == 4);
    assert("plan_update"@.len() == 11);
    assert("plan_removed"@.len() == 12);
    assert("tool_call"@.len() == 9);
    assert("agent_message_chunk"@.len() == 19);
    assert("agent_thought_chunk"@.len() == 19);
}

proof fn lemma_told_joined(
    out: Seq<Item>,
    next: Item,
    theme: Seq<char>,
    session: Seq<char>,
    thought: bool,
)
    ensures
        told_text(joined_by(out, next), theme, session, thought) == told_text(
            out,
            theme,
            session,
            thought,
        ) + parsed_text(next, theme, session, thought),
{
    assert(out.push(next).drop_last() =~= out);
    if joined_by(out, next) != out.push(next) {
        let prev = out.last();
        let p = prev->params;
        let n = next->params;
        let m = joined_by(out, next).last();
        assert(joined_by(out, next).drop_last() =~= out.drop_last());
        lemma_keys();
        let pu = json::member(p, "update"@)->0;
        let nu = json::member(n, "update"@)->0;
        lemma_merged_update(pu, nu);
        let u = merged_update(pu, nu)->0;
        json::lemma_with_member(p, "update"@, u);
        assert(m == Item::Rpc { method: "session/update"@, params: merged(p, n)->0 });
        let before = told_text(out.drop_last(), theme, session, thought);
        let a = parsed_text(prev, theme, session, thought);
        let b = parsed_text(next, theme, session, thought);
        let c = parsed_text(m, theme, session, thought);
        if is_chunk(nu) {
            lemma_parsed_chunk(p, theme, session, thought);
            lemma_parsed_chunk(n, theme, session, thought);
            lemma_parsed_chunk(m->params, theme, session, thought);
            assert(json::string_in(named_child(pu)) == json::string_in(named_child(nu)));
            assert(json::string_in(named_child(u)) == json::string_in(named_child(nu)));
            assert(events::update_session(p) == events::update_session(n));
            assert(events::update_session(m->params) == events::update_session(n));
            assert(c =~= a + b);
        } else {
            lemma_parsed_tool_state(p, theme, session, thought);
            lemma_parsed_tool_state(n, theme, session, thought);
            lemma_parsed_tool_state(m->params, theme, session, thought);
            assert(c =~= a + b);
        }
        assert(before + c =~= (before + a) + b);
    }
}

/// Merging changes nothing of the text that a session is told, nor of its
/// thoughts: what the notifications of a burst are parsed to reads the same,
/// for every session and every child session.
pub proof fn law_sessions_are_told_the_same(
    v: Seq<Item>,
    theme: Seq<char>,
    session: Seq<char>,
    thought: bool,
)
    ensures
        told_text(coalesced(v), theme, session, thought) == told_text(v, theme, session, thought),
    decreases v.len(),
{
    if v.len() > 0 {
        law_sessions_are_told_the_same(v.drop_last(), theme, session, thought);
        lemma_told_joined(coalesced(v.drop_last()), v.last(), theme, session, thought);
    }
}

} // verus!
