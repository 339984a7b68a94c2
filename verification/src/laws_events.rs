//! What is told of the agent's notifications, seen from the notifications.

use crate::bus::{CatalogModel, CatalogPreset, CommandConfigAction, PaletteNotice, SkillInfo};
use crate::events::{self, EventV, UiEvent};
use crate::json::{self, Json, NumberV};
use crate::text;
use vstd::prelude::*;

verus! {

// --- the payload -------------------------------------------------------------------------

/// An object holds a value under a key; of several entries with the key the
/// first counts.
pub open spec fn has(j: Json, key: Seq<char>, x: Json) -> bool {
    j matches Json::Object(o) && exists|i: int|
        0 <= i < o.len() && #[trigger] o[i] == (key, x) && forall|k: int|
            0 <= k < i ==> (#[trigger] o[k]).0 != key
}

/// A value holds nothing under a key.
pub open spec fn lacks(j: Json, key: Seq<char>) -> bool {
    j matches Json::Object(o) ==> forall|i: int| 0 <= i < o.len() ==> (#[trigger] o[i]).0 != key
}

pub broadcast proof fn lemma_has(j: Json, key: Seq<char>, x: Json)
    requires
        #[trigger] has(j, key, x),
    ensures
        json::member(j, key) == Some(x),
{
    let o = j->Object_0;
    let i = choose|i: int|
        0 <= i < o.len() && #[trigger] o[i] == (key, x) && forall|k: int|
            0 <= k < i ==> (#[trigger] o[k]).0 != key;
    json::lemma_entry_index_is(o, key, i);
    json::lemma_entry_index(o, key);
}

pub broadcast proof fn lemma_lacks(j: Json, key: Seq<char>)
    requires
        #[trigger] lacks(j, key),
    ensures
        json::member(j, key) is None,
{
    if let Json::Object(o) = j {
        json::lemma_entry_index_is(o, key, o.len() as int);
        json::lemma_entry_index(o, key);
    }
}

/// What the client is told by a notification of this method.
pub open spec fn told(method: Seq<char>, params: Json) -> Seq<EventV> {
    events::notification_events(method, params, "theme/update"@, None)
}

/// A notification that a session has changed, with the kind of the change.
pub open spec fn is_update(
    params: Json,
    session: Seq<char>,
    update: Json,
    kind: Seq<char>,
) -> bool {
    &&& has(params, "sessionId"@, Json::Str(session))
    &&& has(params, "update"@, update)
    &&& has(update, "sessionUpdate"@, Json::Str(kind))
}

// --- updates of a session ----------------------------------------------------------------

/// A piece of the answer is told to its session as it is.
pub proof fn law_agent_text_is_told(
    session: Seq<char>,
    params: Json,
    update: Json,
    content: Json,
    t: Seq<char>,
)
    requires
        is_update(params, session, update, "agent_message_chunk"@),
        lacks(update, "_meta"@),
        has(update, "content"@, content),
        has(content, "text"@, Json::Str(t)),
    ensures
        told("session/update"@, params) == (if t.len() > 0 {
            seq![UiEvent::TextDelta { session, text: t }]
        } else {
            Seq::<EventV>::empty()
        }),
{
    broadcast use {lemma_has, lemma_lacks};
    
    lemma_methods();
    lemma_kinds();
    assert(told("session/update"@, params) =~= (if t.len() > 0 {
        seq![UiEvent::TextDelta { session, text: t }]
    } else {
        Seq::<EventV>::empty()
    }));
}

/// A piece of the reasoning is told to its session as it is.
pub proof fn law_thoughts_is_told(
    session: Seq<char>,
    params: Json,
    update: Json,
    content: Json,
    t: Seq<char>,
)
    requires
        is_update(params, session, update, "agent_thought_chunk"@),
        lacks(update, "_meta"@),
        has(update, "content"@, content),
        has(content, "text"@, Json::Str(t)),
    ensures
        told("session/update"@, params) == (if t.len() > 0 {
            seq![UiEvent::ReasoningDelta { session, text: t }]
        } else {
            Seq::<EventV>::empty()
        }),
{
    broadcast use {lemma_has, lemma_lacks};
    
    lemma_methods();
    lemma_kinds();
    assert(told("session/update"@, params) =~= (if t.len() > 0 {
        seq![UiEvent::ReasoningDelta { session, text: t }]
    } else {
        Seq::<EventV>::empty()
    }));
}

/// What the user said is told to its session as it is.
pub proof fn law_user_text_is_told(
    session: Seq<char>,
    params: Json,
    update: Json,
    content: Json,
    t: Seq<char>,
)
    requires
        is_update(params, session, update, "user_message_chunk"@),
        lacks(update, "_meta"@),
        has(update, "content"@, content),
        has(content, "text"@, Json::Str(t)),
    ensures
        told("session/update"@, params) == (if t.len() > 0 {
            seq![UiEvent::UserMessage { session, text: t }]
        } else {
            Seq::<EventV>::empty()
        }),
{
    broadcast use {lemma_has, lemma_lacks};
    
    lemma_methods();
    lemma_kinds();
    assert(told("session/update"@, params) =~= (if t.len() > 0 {
        seq![UiEvent::UserMessage { session, text: t }]
    } else {
        Seq::<EventV>::empty()
    }));
}

/// Of content in blocks the texts are told one after the other: a text block
/// more adds its text, a block of another type nothing.
pub proof fn law_blocks_add_up(
    session: Seq<char>,
    params: Json,
    update: Json,
    more_params: Json,
    more_update: Json,
    blocks: Seq<Json>,
    b: Json,
    kind: Seq<char>,
    t: Seq<char>,
)
    requires
        is_update(params, session, update, "agent_thought_chunk"@),
        is_update(more_params, session, more_update, "agent_thought_chunk"@),
        lacks(update, "_meta"@),
        lacks(more_update, "_meta"@),
        has(update, "content"@, Json::Array(blocks)),
        has(more_update, "content"@, Json::Array(blocks.push(b))),
        has(b, "type"@, Json::Str(kind)),
        has(b, "text"@, Json::Str(t)),
    ensures
        reasoning(told("session/update"@, more_params)) == reasoning(
            told("session/update"@, params),
        ) + (if kind == "text"@ {
            t
        } else {
            Seq::empty()
        }),
        blocks.len() == 0 ==> reasoning(told("session/update"@, params)).len() == 0,
{
    broadcast use {lemma_has, lemma_lacks};

    lemma_methods();
    lemma_kinds();
    assert(blocks.push(b).drop_last() =~= blocks);
    assert(reasoning(told("session/update"@, params)) =~= events::texts_of(blocks));
    assert(reasoning(told("session/update"@, more_params)) =~= events::texts_of(blocks.push(b)));
}

/// The reasoning among what is told.
pub open spec fn reasoning(v: Seq<EventV>) -> Seq<char> {
    if v.len() > 0 && v[0] is ReasoningDelta {
        v[0]->ReasoningDelta_text
    } else {
        Seq::empty()
    }
}

/// A tool call that has ended is told with its output, and as an error exactly
/// where its status is `failed`.
pub proof fn law_tool_results_tell_failures(
    session: Seq<char>,
    params: Json,
    update: Json,
    id: Seq<char>,
    status: Seq<char>,
    output: Seq<char>,
)
    requires
        is_update(params, session, update, "tool_call_update"@),
        lacks(update, "_meta"@),
        has(update, "toolCallId"@, Json::Str(id)),
        id.len() > 0,
        has(update, "status"@, Json::Str(status)),
        has(update, "rawOutput"@, Json::Str(output)),
        status == "failed"@ || status == "completed"@,
    ensures
        told("session/update"@, params) == seq![
            UiEvent::ToolResult {
                session,
                call_id: id,
                is_error: status == "failed"@,
                text: output,
                error: None,
            },
        ],
        status == "failed"@ ==> told("session/update"@, params)[0]->is_error,
        status == "completed"@ ==> !told("session/update"@, params)[0]->is_error,
{
    broadcast use {lemma_has, lemma_lacks};
    
    lemma_methods();
    lemma_kinds();
    lemma_states();
    reveal_with_fuel(events::first_text, 2);
}

/// Whatever else an update of a tool call holds, with the status `failed` the one
/// thing told is a failed result, with `completed` one that succeeded, and with
/// any other status no result.
pub proof fn law_status_decides_on_failure(
    session: Seq<char>,
    params: Json,
    update: Json,
    status: Seq<char>,
)
    requires
        is_update(params, session, update, "tool_call_update"@),
        lacks(update, "_meta"@),
        has(update, "status"@, Json::Str(status)),
    ensures
        status == "failed"@ ==> told("session/update"@, params).len() == 1 && told("session/update"@, params)[0] is ToolResult && told("session/update"@, params)[0]->is_error,
        status == "completed"@ ==> told("session/update"@, params).len() == 1 && told("session/update"@, params)[0] is ToolResult && !told("session/update"@, params)[0]->is_error,
        status != "failed"@ && status != "completed"@ ==> forall|i: int|
            0 <= i < told("session/update"@, params).len() ==> !((#[trigger] told("session/update"@, params)[i]) is ToolResult),
{
    broadcast use {lemma_has, lemma_lacks};
    
    lemma_methods();
    lemma_kinds();
    lemma_states();
}

/// A result without raw output tells the texts of its content blocks; a terminal
/// stream counts before both.
pub proof fn law_tool_output_is_told(
    session: Seq<char>,
    params: Json,
    update: Json,
    status: Seq<char>,
    b: Json,
    t: Seq<char>,
)
    requires
        is_update(params, session, update, "tool_call_update"@),
        lacks(update, "_meta"@),
        has(update, "status"@, Json::Str(status)),
        status == "failed"@ || status == "completed"@,
        lacks(update, "rawOutput"@),
        lacks(update, "raw_output"@),
        has(update, "content"@, Json::Array(seq![b])),
        has(b, "type"@, Json::Str("text"@)),
        has(b, "text"@, Json::Str(t)),
    ensures
        told("session/update"@, params)[0] is ToolResult,
        told("session/update"@, params)[0]->ToolResult_text == t,
{
    broadcast use {lemma_has, lemma_lacks};
    
    lemma_methods();
    lemma_kinds();
    lemma_states();
    assert(seq![b].drop_last() =~= Seq::empty());
    reveal_with_fuel(events::texts_of, 2);
}

/// A tool call is told with its id, its title and its input as it is printed.
pub proof fn law_tool_calls_are_told(
    session: Seq<char>,
    params: Json,
    update: Json,
    id: Seq<char>,
    title: Seq<char>,
    input: Json,
)
    requires
        is_update(params, session, update, "tool_call"@),
        lacks(update, "_meta"@),
        has(update, "toolCallId"@, Json::Str(id)),
        has(update, "title"@, Json::Str(title)),
        has(update, "rawInput"@, input),
        id.len() > 0,
        title.len() > 0,
    ensures
        told("session/update"@, params) == seq![
            UiEvent::ToolCall {
                session,
                call_id: id,
                name: title,
                arguments: json::printed(input),
            },
        ],
{
    broadcast use {lemma_has, lemma_lacks};
    
    lemma_methods();
    lemma_kinds();
    reveal_with_fuel(events::first_text, 2);
}

/// A tool call that is under way and tells its title is shown; one that tells
/// neither title nor input is not.
pub proof fn law_running_tools_are_told(
    session: Seq<char>,
    params: Json,
    update: Json,
    status: Seq<char>,
)
    requires
        is_update(params, session, update, "tool_call_update"@),
        lacks(update, "_meta"@),
        has(update, "status"@, Json::Str(status)),
        status == "pending"@ || status == "in_progress"@,
    ensures
        lacks(update, "title"@) && lacks(update, "rawInput"@) && lacks(update, "raw_input"@)
            ==> told("session/update"@, params).len() == 0,
        forall|title: Seq<char>|
            #![trigger has(update, "title"@, Json::Str(title))]
            has(update, "title"@, Json::Str(title)) && title.len() > 0 ==> told("session/update"@, params).len() == 1
                && told("session/update"@, params)[0] is ToolCall && told("session/update"@, params)[0]->name == title && told("session/update"@, params)[0]->ToolCall_session == session,
{
    broadcast use {lemma_has, lemma_lacks};
    
    lemma_methods();
    lemma_kinds();
    lemma_states();
    reveal_with_fuel(events::first_text, 2);
}

/// A plan is told entry by entry, each with its state.
pub proof fn law_plans_are_told(
    session: Seq<char>,
    params: Json,
    update: Json,
    a: Json,
    b: Json,
    x: Seq<char>,
    y: Seq<char>,
    state: Seq<char>,
)
    requires
        is_update(params, session, update, "plan"@),
        lacks(update, "_meta"@),
        has(update, "entries"@, Json::Array(seq![a, b])),
        has(a, "content"@, Json::Str(x)),
        has(b, "content"@, Json::Str(y)),
        has(a, "status"@, Json::Str(state)),
        state.len() > 0,
        lacks(b, "status"@),
    ensures
        told("session/update"@, params) == seq![
            UiEvent::Plan { session, summary: x + " ["@ + state + "]"@ + " · "@ + y },
        ],
{
    broadcast use {lemma_has, lemma_lacks};
    
    lemma_methods();
    lemma_kinds();
    assert(seq![a, b].drop_last() =~= seq![a]);
    assert(seq![a].drop_last() =~= Seq::empty());
    reveal_with_fuel(events::plan_lines, 3);
    let lines = events::plan_lines(seq![a, b]);
    assert(lines =~= seq![x + " ["@ + state + "]"@, y]);
    assert(lines.drop_last() =~= seq![x + " ["@ + state + "]"@]);
    reveal_with_fuel(text::joined, 3);
    assert(text::joined(lines, " · "@) =~= x + " ["@ + state + "]"@ + " · "@ + y);
}

/// A plan that is removed is told as an empty one.
pub proof fn law_removed_plans_are_empty(
    session: Seq<char>,
    params: Json,
    update: Json,
)
    requires
        is_update(params, session, update, "plan_removed"@),
        lacks(update, "_meta"@),
    ensures
        told("session/update"@, params) == seq![UiEvent::<Seq<char>>::Plan { session, summary: Seq::empty() }],
{
    broadcast use {lemma_has, lemma_lacks};
    
    lemma_methods();
    lemma_kinds();
}

/// A new mode is told as the permission preset and as the sandbox mode.
pub proof fn law_modes_are_told(
    session: Seq<char>,
    params: Json,
    update: Json,
    mode: Seq<char>,
)
    requires
        is_update(params, session, update, "current_mode_update"@),
        lacks(update, "_meta"@),
        has(update, "currentModeId"@, Json::Str(mode)),
        mode.len() > 0,
    ensures
        told("session/update"@, params) == seq![
            UiEvent::PermissionPreset { session, preset: mode },
            UiEvent::SandboxMode { session, mode },
        ],
{
    broadcast use {lemma_has, lemma_lacks};
    
    lemma_methods();
    lemma_kinds();
    reveal_with_fuel(events::first_text, 2);
}

/// A title is told without the white space around it; a blank one is not told.
pub proof fn law_titles_are_told(
    session: Seq<char>,
    params: Json,
    update: Json,
    title: Seq<char>,
)
    requires
        is_update(params, session, update, "session_info_update"@),
        lacks(update, "_meta"@),
        has(update, "title"@, Json::Str(title)),
    ensures
        told("session/update"@, params) == (if text::trimmed(title).len() > 0 {
            seq![UiEvent::SessionTitle { session, title: text::trimmed(title) }]
        } else {
            Seq::<EventV>::empty()
        }),
{
    broadcast use {lemma_has, lemma_lacks};
    
    lemma_methods();
    lemma_kinds();
}

/// What the options of a session stand on is told, each under its own name.
pub proof fn law_chosen_options_are_told(
    session: Seq<char>,
    params: Json,
    update: Json,
    option: Json,
    id: Seq<char>,
    value: Seq<char>,
)
    requires
        is_update(params, session, update, "config_option_update"@),
        lacks(update, "_meta"@),
        has(update, "configOptions"@, Json::Array(seq![option])),
        has(option, "id"@, Json::Str(id)),
        has(option, "currentValue"@, Json::Str(value)),
        lacks(option, "options"@),
        lacks(option, "category"@),
        lacks(option, "type"@),
    ensures
        id == "model"@ ==> told("session/update"@, params) == seq![
            UiEvent::SessionModel { session, model: value },
        ],
        id == "collaboration_mode"@ ==> told("session/update"@, params) == seq![
            UiEvent::<Seq<char>>::PlanMode { session, active: value == "plan"@ },
        ],
        id == "agent"@ || id == "preset"@ || id == "agent-preset"@ ==> told(
            "session/update"@,
            params,
        ) == seq![UiEvent::AgentPreset { session, preset: value }],
        id == "effort"@ ==> told("session/update"@, params) == seq![
            UiEvent::ReasoningEffort { session, effort: value },
        ],
{
    broadcast use {lemma_has, lemma_lacks};

    lemma_methods();
    lemma_kinds();
    lemma_options();
    let v = seq![option];
    assert(v.skip(1) =~= Seq::empty());
    reveal_with_fuel(events::first_with, 2);
    reveal_with_fuel(events::first_named, 2);
    reveal_with_fuel(events::first_extra, 2);
    reveal_with_fuel(events::choice_name, 2);
    assert(events::first_with(v, "category"@, "thought_level"@) is None);
    if id == "model"@ {
        assert(told("session/update"@, params) =~= seq![
            UiEvent::SessionModel { session, model: value },
        ]);
    } else if id == "collaboration_mode"@ {
        assert(told("session/update"@, params) =~= seq![
            UiEvent::<Seq<char>>::PlanMode { session, active: value == "plan"@ },
        ]);
    } else if id == "agent"@ || id == "preset"@ || id == "agent-preset"@ {
        assert(told("session/update"@, params) =~= seq![
            UiEvent::AgentPreset { session, preset: value },
        ]);
    } else if id == "effort"@ {
        assert(told("session/update"@, params) =~= seq![
            UiEvent::ReasoningEffort { session, effort: value },
        ]);
    }
}

/// What is told of a subagent goes to the transcript of the subagent, whatever
/// session the notification names.
pub proof fn law_subagents_speak_for_themselves(
    session: Seq<char>,
    params: Json,
    update: Json,
    meta: Json,
    dsh: Json,
    subagent: Json,
    child: Seq<char>,
    content: Json,
    t: Seq<char>,
)
    requires
        is_update(params, session, update, "agent_thought_chunk"@),
        has(update, "_meta"@, meta),
        has(meta, "dsh"@, dsh),
        has(dsh, "subagent"@, subagent),
        has(subagent, "childSessionId"@, Json::Str(child)),
        has(update, "content"@, content),
        has(content, "text"@, Json::Str(t)),
        t.len() > 0,
    ensures
        told("session/update"@, params) == seq![UiEvent::ReasoningDelta { session: child, text: t }],
{
    broadcast use {lemma_has, lemma_lacks};

    lemma_methods();
    lemma_kinds();
}

/// A tool call that starts a subagent is told to its parent, and with it the
/// start of the child.
pub proof fn law_subagents_start_with_a_call(
    session: Seq<char>,
    params: Json,
    update: Json,
    meta: Json,
    dsh: Json,
    subagent: Json,
    child: Seq<char>,
)
    requires
        is_update(params, session, update, "tool_call"@),
        has(update, "_meta"@, meta),
        has(meta, "dsh"@, dsh),
        has(dsh, "subagent"@, subagent),
        has(subagent, "childSessionId"@, Json::Str(child)),
        has(subagent, "state"@, Json::Str("started"@)),
    ensures
        told("session/update"@, params).len() == 2,
        told("session/update"@, params)[0] is ToolCall,
        told("session/update"@, params)[0]->ToolCall_session == session,
        told("session/update"@, params)[1] == (UiEvent::SubagentStarted { parent: session, child }),
{
    broadcast use {lemma_has, lemma_lacks};

    lemma_methods();
    lemma_kinds();
}

/// A tool call whose subagent has finished is told to the parent, and with it
/// the end of the child, as a failure exactly where the call failed.
pub proof fn law_subagents_end_with_a_result(
    session: Seq<char>,
    params: Json,
    update: Json,
    meta: Json,
    dsh: Json,
    subagent: Json,
    child: Seq<char>,
    status: Seq<char>,
)
    requires
        is_update(params, session, update, "tool_call_update"@),
        has(update, "status"@, Json::Str(status)),
        status == "failed"@ || status == "completed"@,
        has(update, "_meta"@, meta),
        has(meta, "dsh"@, dsh),
        has(dsh, "subagent"@, subagent),
        has(subagent, "childSessionId"@, Json::Str(child)),
        has(subagent, "state"@, Json::Str("finished"@)),
    ensures
        told("session/update"@, params).len() == 2,
        told("session/update"@, params)[0] is ToolResult,
        told("session/update"@, params)[0]->ToolResult_session == session,
        told("session/update"@, params)[0]->is_error == (status == "failed"@),
        told("session/update"@, params)[1] == (UiEvent::<Seq<char>>::SubagentFinished {
            child,
            failed: status == "failed"@,
        }),
{
    broadcast use {lemma_has, lemma_lacks};

    lemma_methods();
    lemma_kinds();
    lemma_states();
}

/// The adapter tells of a subagent that has started or finished; one that did
/// not complete has failed.
pub proof fn law_lifecycles_are_told(
    session: Seq<char>,
    params: Json,
    update: Json,
    meta: Json,
    dsh: Json,
    subagent: Json,
    child: Seq<char>,
    state: Seq<char>,
    reason: Seq<char>,
)
    requires
        is_update(params, session, update, "session_info_update"@),
        has(update, "_meta"@, meta),
        lacks(meta, "jetbrains"@),
        has(meta, "dsh"@, dsh),
        has(dsh, "event"@, Json::Str("subagent/lifecycle"@)),
        has(dsh, "subagent"@, subagent),
        has(subagent, "childSessionId"@, Json::Str(child)),
        has(subagent, "state"@, Json::Str(state)),
        has(subagent, "stopReason"@, Json::Str(reason)),
    ensures
        state == "started"@ ==> told("session/update"@, params) == seq![
            UiEvent::SubagentStarted { parent: session, child },
        ],
        state == "finished"@ ==> told("session/update"@, params) == seq![
            UiEvent::<Seq<char>>::SubagentFinished { child, failed: reason != "completed"@ },
        ],
        state != "started"@ && state != "finished"@ ==> told("session/update"@, params).len() == 0,
{
    broadcast use {lemma_has, lemma_lacks};

    lemma_methods();
    lemma_kinds();
    lemma_states();
    lemma_marks();
}

/// A number of tokens under a key.
pub open spec fn counts(j: Json, key: Seq<char>, n: u64) -> bool {
    has(j, key, Json::Number(NumberV::PosInt(n as nat)))
}

/// The adapter tells what a prompt has used; what was read from a cache and what
/// was written to it are told together.
pub proof fn law_usage_is_told(
    session: Seq<char>,
    params: Json,
    update: Json,
    meta: Json,
    dsh: Json,
    usage: Json,
    input: u64,
    output: u64,
    read: u64,
    written: u64,
    thought: u64,
)
    requires
        is_update(params, session, update, "session_info_update"@),
        has(update, "_meta"@, meta),
        lacks(meta, "jetbrains"@),
        has(meta, "dsh"@, dsh),
        has(dsh, "event"@, Json::Str("prompt/usage"@)),
        lacks(dsh, "subagent"@),
        has(dsh, "usage"@, usage),
        counts(usage, "inputTokens"@, input),
        counts(usage, "outputTokens"@, output),
        counts(usage, "cachedReadTokens"@, read),
        counts(usage, "cachedWriteTokens"@, written),
        counts(usage, "thoughtTokens"@, thought),
        read + written <= u64::MAX,
    ensures
        told("session/update"@, params) == seq![
            UiEvent::<Seq<char>>::Usage {
                session,
                input,
                output,
                cached: (read + written) as u64,
                reasoning: thought,
            },
        ],
{
    broadcast use {lemma_has, lemma_lacks};

    lemma_methods();
    lemma_kinds();
    lemma_marks();
}

/// The adapter tells what was put into the conversation by another than the
/// user.
pub proof fn law_injections_are_told(
    session: Seq<char>,
    params: Json,
    update: Json,
    meta: Json,
    dsh: Json,
    source: Seq<char>,
    preview: Seq<char>,
)
    requires
        is_update(params, session, update, "session_info_update"@),
        has(update, "_meta"@, meta),
        lacks(meta, "jetbrains"@),
        has(meta, "dsh"@, dsh),
        has(dsh, "event"@, Json::Str("user/message"@)),
        lacks(dsh, "subagent"@),
        has(dsh, "source"@, Json::Str(source)),
        has(dsh, "preview"@, Json::Str(preview)),
    ensures
        told("session/update"@, params) == seq![UiEvent::UserInjected { session, source, preview }],
{
    broadcast use {lemma_has, lemma_lacks};

    lemma_methods();
    lemma_kinds();
    lemma_marks();
}

/// The adapter ends an answer with the model that gave it.
pub proof fn law_answers_end_with_their_model(
    session: Seq<char>,
    params: Json,
    update: Json,
    meta: Json,
    dsh: Json,
    model: Seq<char>,
)
    requires
        is_update(params, session, update, "agent_message_chunk"@),
        lacks(update, "content"@),
        has(update, "_meta"@, meta),
        has(meta, "dsh"@, dsh),
        has(dsh, "event"@, Json::Str("assistant_message"@)),
        lacks(dsh, "subagent"@),
        has(dsh, "model"@, Json::Str(model)),
    ensures
        told("session/update"@, params) == seq![
            UiEvent::AssistantFinal { session, text: Seq::<char>::empty(), model: Some(model) },
        ],
{
    broadcast use {lemma_has, lemma_lacks};

    lemma_methods();
    lemma_kinds();
    lemma_marks();
    assert(told("session/update"@, params) =~= seq![
        UiEvent::AssistantFinal { session, text: Seq::<char>::empty(), model: Some(model) },
    ]);
}

/// A failure of the session is told with its severity; without one it is an
/// error.
pub proof fn law_failures_are_told(
    session: Seq<char>,
    params: Json,
    update: Json,
    meta: Json,
    jetbrains: Json,
    air: Json,
    failure: Json,
    title: Seq<char>,
    severity: Seq<char>,
)
    requires
        is_update(params, session, update, "session_info_update"@),
        has(update, "_meta"@, meta),
        lacks(meta, "dsh"@),
        has(meta, "jetbrains"@, jetbrains),
        has(jetbrains, "air"@, air),
        has(air, "sessionFailure"@, failure),
        has(failure, "title"@, Json::Str(title)),
        text::trimmed(title).len() > 0,
        lacks(failure, "details"@),
    ensures
        has(failure, "severity"@, Json::Str(severity)) ==> told("session/update"@, params) == seq![
            UiEvent::SessionNotice {
                session,
                severity,
                title: text::trimmed(title),
                details: None,
            },
        ],
        lacks(failure, "severity"@) ==> told("session/update"@, params) == seq![
            UiEvent::SessionNotice {
                session,
                severity: "error"@,
                title: text::trimmed(title),
                details: None,
            },
        ],
{
    broadcast use {lemma_has, lemma_lacks};

    lemma_methods();
    lemma_kinds();
}

/// An update of a kind that the client does not know tells nothing.
pub proof fn law_unknown_updates_tell_nothing(
    session: Seq<char>,
    params: Json,
    update: Json,
    kind: Seq<char>,
)
    requires
        is_update(params, session, update, kind),
        kind != "agent_message_chunk"@,
        kind != "agent_thought_chunk"@,
        kind != "user_message_chunk"@,
        kind != "session_info_update"@,
        kind != "plan"@,
        kind != "plan_update"@,
        kind != "plan_removed"@,
        kind != "tool_call"@,
        kind != "tool_call_update"@,
        kind != "current_mode_update"@,
        kind != "config_option_update"@,
    ensures
        told("session/update"@, params).len() == 0,
{
    broadcast use {lemma_has, lemma_lacks};

    lemma_methods();
}

// --- other notifications -----------------------------------------------------------------

/// A session runs exactly while its status is `running`.
pub proof fn law_status_is_told(params: Json, session: Seq<char>, status: Seq<char>)
    requires
        has(params, "sessionId"@, Json::Str(session)),
        has(params, "status"@, Json::Str(status)),
    ensures
        told("session.status"@, params) == seq![
            UiEvent::<Seq<char>>::SessionStatus { session, running: status == "running"@ },
        ],
{
    broadcast use {lemma_has, lemma_lacks};

}

/// A subagent is told with its parent, and its end with how it ended.
pub proof fn law_subagents_are_told(
    params: Json,
    parent: Seq<char>,
    child: Seq<char>,
    status: Seq<char>,
)
    requires
        has(params, "parentSessionId"@, Json::Str(parent)),
        has(params, "childSessionId"@, Json::Str(child)),
        has(params, "status"@, Json::Str(status)),
    ensures
        told("subagent.started"@, params) == seq![UiEvent::SubagentStarted { parent, child }],
        told("subagent.finished"@, params) == seq![
            UiEvent::<Seq<char>>::SubagentFinished { child, failed: status == "failed"@ },
        ],
{
    broadcast use {lemma_has, lemma_lacks};

    lemma_methods();
}

/// A notification that lacks the names it is about tells nothing, nor does one
/// of a method that is not known.
pub proof fn law_malformed_notifications_tell_nothing(params: Json, method: Seq<char>)
    ensures
        lacks(params, "sessionId"@) || lacks(params, "status"@) ==> told(
            "session.status"@,
            params,
        ).len() == 0,
        lacks(params, "childSessionId"@) ==> told("subagent.started"@, params).len() == 0 && told(
            "subagent.finished"@,
            params,
        ).len() == 0,
        lacks(params, "parentSessionId"@) ==> told("subagent.started"@, params).len() == 0,
        lacks(params, "event"@) ==> told("session.event"@, params).len() == 0,
        method != "session.status"@ && method != "subagent.started"@ && method
            != "subagent.finished"@ && method != "session.event"@ && method != "session/update"@
            ==> told(method, params).len() == 0,
{
    broadcast use {lemma_has, lemma_lacks};

    lemma_methods();
}

/// A palette is told under the method for palettes alone, as it was decoded.
pub proof fn law_palettes_are_told(
    method: Seq<char>,
    params: Json,
    theme_update: Seq<char>,
    n: PaletteNotice<Seq<char>>,
)
    requires
        method != "session.status"@,
        method != "subagent.started"@,
        method != "subagent.finished"@,
        method != "session.event"@,
        method != "session/update"@,
    ensures
        events::notification_events(method, params, theme_update, Some(n)) == (if method
            == theme_update {
            seq![UiEvent::Palette { pack: n.pack, activate: n.activate }]
        } else {
            Seq::<EventV>::empty()
        }),
{
}

// --- the log of a session ----------------------------------------------------------------

/// A notification of an entry of a session's log.
pub open spec fn is_entry(
    params: Json,
    session: Seq<char>,
    event: Json,
    kind: Seq<char>,
    data: Json,
) -> bool {
    &&& has(params, "sessionId"@, Json::Str(session))
    &&& has(params, "event"@, event)
    &&& has(event, "type"@, Json::Str(kind))
    &&& has(event, "data"@, data)
}

/// A turn is told by its number, and its end with the reason.
pub proof fn law_turns_are_told(
    session: Seq<char>,
    params: Json,
    event: Json,
    data: Json,
    n: u64,
    reason: Json,
    kind: Seq<char>,
)
    ensures
        is_entry(params, session, event, "turn/start"@, data) && counts(data, "turn"@, n) ==> told(
            "session.event"@,
            params,
        ) == seq![UiEvent::<Seq<char>>::TurnStart { session, turn: n }],
        is_entry(params, session, event, "turn/end"@, data) && has(data, "reason"@, reason) && has(
            reason,
            "kind"@,
            Json::Str(kind),
        ) ==> told("session.event"@, params) == seq![UiEvent::TurnEnd { session, kind }],
        is_entry(params, session, event, "turn/end"@, data) && lacks(data, "reason"@) ==> told(
            "session.event"@,
            params,
        ) == seq![UiEvent::TurnEnd { session, kind: "unknown"@ }],
{
    broadcast use {lemma_has, lemma_lacks};

    lemma_methods();
    lemma_logs();
}

/// A piece of an answer or of its reasoning is told as it is; so is a tool call
/// whose arguments are still on their way.
pub proof fn law_chunks_are_told(
    session: Seq<char>,
    params: Json,
    event: Json,
    data: Json,
    chunk: Json,
    kind: Seq<char>,
    t: Seq<char>,
)
    requires
        is_entry(params, session, event, "assistant/chunk"@, data),
        has(data, "chunk"@, chunk),
        has(chunk, "type"@, Json::Str(kind)),
    ensures
        kind == "text-delta"@ && has(chunk, "text"@, Json::Str(t)) ==> told("session.event"@, params)
            == seq![UiEvent::TextDelta { session, text: t }],
        kind == "reasoning-delta"@ && has(chunk, "text"@, Json::Str(t)) ==> told(
            "session.event"@,
            params,
        ) == seq![UiEvent::ReasoningDelta { session, text: t }],
        kind == "block-start"@ && has(chunk, "blockType"@, Json::Str("tool-call"@)) ==> told(
            "session.event"@,
            params,
        ) == seq![UiEvent::ToolCallPreparing { session }],
{
    broadcast use {lemma_has, lemma_lacks};

    lemma_methods();
    lemma_logs();
    lemma_chunks();
}

/// The tokens of a step are told as the log counts them.
pub proof fn law_logged_usage_is_told(
    session: Seq<char>,
    params: Json,
    event: Json,
    data: Json,
    chunk: Json,
    usage: Json,
    input: u64,
    output: u64,
    cached: u64,
    reasoning: u64,
)
    requires
        is_entry(params, session, event, "assistant/chunk"@, data),
        has(data, "chunk"@, chunk),
        has(chunk, "type"@, Json::Str("usage"@)),
        has(chunk, "usage"@, usage),
        counts(usage, "inputTokens"@, input),
        counts(usage, "outputTokens"@, output),
        counts(usage, "cacheReadTokens"@, cached),
        counts(usage, "reasoningTokens"@, reasoning),
    ensures
        told("session.event"@, params) == seq![
            UiEvent::<Seq<char>>::Usage { session, input, output, cached, reasoning },
        ],
{
    broadcast use {lemma_has, lemma_lacks};

    lemma_methods();
    lemma_logs();
    lemma_chunks();
}

/// What the log says of the ways a session works is told under its own name.
pub proof fn law_logged_modes_are_told(
    session: Seq<char>,
    params: Json,
    event: Json,
    data: Json,
    kind: Seq<char>,
    t: Seq<char>,
    active: bool,
)
    requires
        is_entry(params, session, event, kind, data),
    ensures
        kind == "plan/mode"@ && has(data, "active"@, Json::Bool(active)) ==> told(
            "session.event"@,
            params,
        ) == seq![UiEvent::<Seq<char>>::PlanMode { session, active }],
        kind == "sandbox/mode"@ && has(data, "mode"@, Json::Str(t)) ==> told(
            "session.event"@,
            params,
        ) == seq![UiEvent::SandboxMode { session, mode: t }],
        kind == "approval/policy"@ && has(data, "policy"@, Json::Str(t)) ==> told(
            "session.event"@,
            params,
        ) == seq![UiEvent::ApprovalPolicy { session, policy: t }],
        kind == "permission/preset"@ && has(data, "preset"@, Json::Str(t)) ==> told(
            "session.event"@,
            params,
        ) == seq![UiEvent::PermissionPreset { session, preset: t }],
        kind == "agent-preset/selected"@ && has(data, "agentPreset"@, Json::Str(t)) ==> told(
            "session.event"@,
            params,
        ) == seq![UiEvent::AgentPreset { session, preset: t }],
{
    broadcast use {lemma_has, lemma_lacks};

    lemma_methods();
    lemma_logs();
}

/// An approval is told with the tool it is asked for, and then with what was
/// decided.
pub proof fn law_approvals_are_told(
    session: Seq<char>,
    params: Json,
    event: Json,
    data: Json,
    kind: Seq<char>,
    tool: Seq<char>,
    reason: Seq<char>,
    outcome: Seq<char>,
    decided: Json,
)
    requires
        is_entry(params, session, event, kind, data),
    ensures
        kind == "approval/asked"@ && has(data, "toolName"@, Json::Str(tool)) && has(
            data,
            "reason"@,
            Json::Str(reason),
        ) ==> told("session.event"@, params) == seq![
            UiEvent::ApprovalAsked { session, tool, reason: Some(reason) },
        ],
        kind == "approval/decided"@ && has(data, "outcome"@, Json::Str(outcome)) ==> told(
            "session.event"@,
            params,
        ) == seq![UiEvent::ApprovalDecided { session, outcome }],
        kind == "approval/decided"@ && has(data, "outcome"@, decided) && has(
            decided,
            "kind"@,
            Json::Str(outcome),
        ) ==> told("session.event"@, params) == seq![UiEvent::ApprovalDecided { session, outcome }],
{
    broadcast use {lemma_has, lemma_lacks};

    lemma_methods();
    lemma_logs();
}

/// A tool call of the log is told field by field.
pub proof fn law_logged_calls_are_told(
    session: Seq<char>,
    params: Json,
    event: Json,
    data: Json,
    id: Seq<char>,
    name: Seq<char>,
    arguments: Seq<char>,
)
    requires
        is_entry(params, session, event, "tool/call"@, data),
        has(data, "callId"@, Json::Str(id)),
        has(data, "name"@, Json::Str(name)),
        has(data, "arguments"@, Json::Str(arguments)),
    ensures
        told("session.event"@, params) == seq![
            UiEvent::ToolCall { session, call_id: id, name, arguments },
        ],
{
    broadcast use {lemma_has, lemma_lacks};

    lemma_methods();
    lemma_logs();
}

/// A tool result of the log is told with the call it answers and the text of
/// its block, and as an error exactly where the block says so or an error is
/// reported beside it.
pub proof fn law_logged_results_are_told(
    session: Seq<char>,
    params: Json,
    event: Json,
    data: Json,
    message: Json,
    b: Json,
    inner: Json,
    id: Seq<char>,
    t: Seq<char>,
    failed: bool,
    err: Json,
    name: Seq<char>,
    code: Seq<char>,
)
    requires
        is_entry(params, session, event, "tool/result"@, data),
        has(data, "message"@, message),
        has(message, "content"@, Json::Array(seq![b])),
        has(b, "type"@, Json::Str("tool-result"@)),
        has(b, "toolCallId"@, Json::Str(id)),
        has(b, "isError"@, Json::Bool(failed)),
        has(b, "content"@, Json::Array(seq![inner])),
        has(inner, "type"@, Json::Str("text"@)),
        has(inner, "text"@, Json::Str(t)),
    ensures
        lacks(data, "error"@) ==> told("session.event"@, params) == seq![
            UiEvent::ToolResult { session, call_id: id, is_error: failed, text: t, error: None },
        ],
        has(data, "error"@, err) && has(err, "name"@, Json::Str(name)) && has(
            err,
            "code"@,
            Json::Str(code),
        ) ==> told("session.event"@, params) == seq![
            UiEvent::ToolResult {
                session,
                call_id: id,
                is_error: true,
                text: t,
                error: Some(name + " ("@ + code + ")"@),
            },
        ],
{
    broadcast use {lemma_has, lemma_lacks};

    lemma_methods();
    lemma_logs();
    assert(seq![b].drop_last() =~= Seq::empty());
    assert(seq![inner].drop_last() =~= Seq::empty());
    reveal_with_fuel(events::result_blocks, 2);
    reveal_with_fuel(events::texts_of, 2);
    let blocks = events::tool_blocks(data);
    assert(blocks =~= seq![b]);
    assert(blocks[0] == b);
    assert(events::any_flags_error(blocks) == failed);
    assert(events::result_text(b) =~= t);
    let texts = blocks.map_values(|b: Json| events::result_text(b));
    assert(texts =~= seq![t]);
    reveal_with_fuel(text::joined, 2);
    assert(text::joined(texts, "\n"@) =~= t);
}

/// The last word of an answer is told with its text and its model.
pub proof fn law_logged_answers_are_told(
    session: Seq<char>,
    params: Json,
    event: Json,
    data: Json,
    message: Json,
    b: Json,
    source: Json,
    t: Seq<char>,
    model: Seq<char>,
)
    requires
        is_entry(params, session, event, "assistant/message"@, data),
        has(data, "message"@, message),
        has(message, "content"@, Json::Array(seq![b])),
        has(b, "type"@, Json::Str("text"@)),
        has(b, "text"@, Json::Str(t)),
        has(message, "source"@, source),
        has(source, "model"@, Json::Str(model)),
    ensures
        told("session.event"@, params) == seq![
            UiEvent::AssistantFinal { session, text: t, model: Some(model) },
        ],
{
    broadcast use {lemma_has, lemma_lacks};

    lemma_methods();
    lemma_logs();
    assert(seq![b].drop_last() =~= Seq::empty());
    reveal_with_fuel(events::texts_of, 2);
    assert(events::texts_of(seq![b]) =~= t);
}

/// A message of the log is told where another than the user put it there; the
/// user's own is on the screen already.
pub proof fn law_logged_injections_are_told(
    session: Seq<char>,
    params: Json,
    event: Json,
    data: Json,
    source: Json,
    kind: Seq<char>,
    b: Json,
    t: Seq<char>,
)
    requires
        is_entry(params, session, event, "user/message"@, data),
        has(data, "source"@, source),
        has(source, "kind"@, Json::Str(kind)),
        has(data, "content"@, Json::Array(seq![b])),
        has(b, "type"@, Json::Str("text"@)),
        has(b, "text"@, Json::Str(t)),
    ensures
        kind == "user"@ ==> told("session.event"@, params).len() == 0,
        kind != "user"@ ==> told("session.event"@, params) == seq![
            UiEvent::UserInjected {
                session,
                source: kind,
                preview: if t.len() <= 160 {
                    t
                } else {
                    t.take(160)
                },
            },
        ],
{
    broadcast use {lemma_has, lemma_lacks};

    lemma_methods();
    lemma_logs();
    assert(seq![b].drop_last() =~= Seq::empty());
    reveal_with_fuel(events::texts_of, 2);
    assert(events::texts_of(seq![b]) =~= t);
}

/// An entry of a kind that the client does not know tells nothing.
pub proof fn law_unknown_entries_tell_nothing(
    session: Seq<char>,
    params: Json,
    event: Json,
    kind: Seq<char>,
    data: Json,
)
    requires
        is_entry(params, session, event, kind, data),
        kind != "turn/start"@,
        kind != "turn/end"@,
        kind != "assistant/chunk"@,
        kind != "plan/mode"@,
        kind != "sandbox/mode"@,
        kind != "approval/policy"@,
        kind != "permission/preset"@,
        kind != "agent-preset/selected"@,
        kind != "approval/asked"@,
        kind != "approval/decided"@,
        kind != "assistant/message"@,
        kind != "tool/call"@,
        kind != "tool/result"@,
        kind != "user/message"@,
    ensures
        told("session.event"@, params).len() == 0,
{
    broadcast use {lemma_has, lemma_lacks};

    lemma_methods();
}

// --- what an agent offers ----------------------------------------------------------------

/// A command that the agent offers is listed behind those before it; an entry
/// without a name is not.
pub proof fn law_commands_are_listed(
    rows: Seq<Json>,
    c: Json,
    name: Seq<char>,
    description: Seq<char>,
    input: Json,
    hint: Seq<char>,
)
    requires
        has(c, "description"@, Json::Str(description)),
        has(c, "input"@, input),
        has(input, "hint"@, Json::Str(hint)),
        lacks(c, "metadata"@),
        lacks(c, "_meta"@),
    ensures
        has(c, "name"@, Json::Str(name)) ==> events::skills_of(Json::Array(rows.push(c)))
            == events::skills_of(Json::Array(rows)).push(
            SkillInfo {
                name,
                description,
                input_hint: Some(hint),
                config_action: None,
                client_command: false,
            },
        ),
        lacks(c, "name"@) ==> events::skills_of(Json::Array(rows.push(c))) == events::skills_of(
            Json::Array(rows),
        ),
        events::skills_of(Json::Array(Seq::empty())).len() == 0,
{
    broadcast use {lemma_has, lemma_lacks};

    assert(rows.push(c).drop_last() =~= rows);
}

/// A command that sets an option of the session says which and to what; one
/// that the client runs itself sets none.
pub proof fn law_command_actions_are_read(
    c: Json,
    carrier: Json,
    action: Json,
    name: Seq<char>,
    kind: Seq<char>,
    id: Seq<char>,
    value: Seq<char>,
    reset: Seq<char>,
)
    requires
        has(c, "name"@, Json::Str(name)),
        has(c, "metadata"@, carrier) || (lacks(c, "metadata"@) && has(c, "_meta"@, carrier)),
        has(carrier, "commandAction"@, action),
        has(action, "kind"@, Json::Str(kind)),
        has(action, "configId"@, Json::Str(id)),
        has(action, "value"@, Json::Str(value)),
        has(action, "resetValue"@, Json::Str(reset)),
    ensures
        events::skills_of(Json::Array(seq![c])).len() == 1,
        kind == "setConfigOption"@ ==> events::skills_of(Json::Array(seq![c]))[0].config_action
            == Some(CommandConfigAction { config_id: id, value, reset_value: Some(reset) }),
        kind == "clientCommand"@ ==> events::skills_of(Json::Array(seq![c]))[0].client_command,
        kind != "clientCommand"@ && lacks(c, "_meta"@) ==> !events::skills_of(
            Json::Array(seq![c]),
        )[0].client_command,
{
    broadcast use {lemma_has, lemma_lacks};

    assert(seq![c].drop_last() =~= Seq::empty());
    reveal_with_fuel(events::skill_rows, 2);
}

/// The modes that a session can be in are listed, one behind the other, with
/// the mode that it is in.
pub proof fn law_modes_are_listed(
    modes: Json,
    more: Json,
    rows: Seq<Json>,
    m: Json,
    id: Seq<char>,
    name: Seq<char>,
    description: Seq<char>,
    current: Seq<char>,
)
    requires
        has(modes, "availableModes"@, Json::Array(rows)),
        has(more, "availableModes"@, Json::Array(rows.push(m))),
        has(m, "id"@, Json::Str(id)),
        has(m, "name"@, Json::Str(name)),
        has(m, "description"@, Json::Str(description)),
    ensures
        events::available_modes(more) == events::available_modes(modes).push(
            CatalogPreset { id, name, description, broken: false },
        ),
        rows.len() == 0 ==> events::available_modes(modes).len() == 0,
        has(modes, "currentModeId"@, Json::Str(current)) && current.len() > 0
            ==> events::current_mode(modes) == Some(current),
        lacks(modes, "currentModeId"@) && lacks(modes, "current_mode_id"@)
            ==> events::current_mode(modes) is None,
{
    broadcast use {lemma_has, lemma_lacks};

    assert(rows.push(m).drop_last() =~= rows);
    reveal_with_fuel(events::first_text, 3);
    let keys = seq!["currentModeId"@, "current_mode_id"@];
    assert(keys.skip(1) =~= seq!["current_mode_id"@]);
    assert(keys.skip(1).skip(1) =~= Seq::empty());
}

/// The models of an agent are listed with their provider, which stands before
/// the first slash; one more choice is one more model.
pub proof fn law_models_are_listed(
    option: Json,
    more: Json,
    rows: Seq<Json>,
    c: Json,
    provider: Seq<char>,
    id: Seq<char>,
    name: Seq<char>,
)
    requires
        has(option, "id"@, Json::Str("model"@)),
        has(option, "options"@, Json::Array(rows)),
        has(more, "id"@, Json::Str("model"@)),
        has(more, "options"@, Json::Array(rows.push(c))),
        lacks(c, "options"@),
        has(c, "value"@, Json::Str(provider + seq!['/'] + id)),
        has(c, "name"@, Json::Str(name)),
        !provider.contains('/'),
    ensures
        events::catalog_models(Json::Array(seq![more])) == events::catalog_models(
            Json::Array(seq![option]),
        ).push(CatalogModel { provider, id, name, vision: false }),
{
    broadcast use {lemma_has, lemma_lacks};

    assert(rows.push(c).drop_last() =~= rows);
    reveal_with_fuel(events::first_with, 2);
    reveal_with_fuel(events::choices, 3);
    reveal_with_fuel(events::choices_of, 3);
    reveal_with_fuel(events::choices_in, 3);
    let value = provider + seq!['/'] + id;
    text::lemma_split_at(provider, '/', id);
    let f = |c: events::Choice| events::model_row(c);
    let before = events::choices_of(rows);
    let after = events::choices_of(rows.push(c));
    assert(after =~= before.push((value, name, json::text_member(c, "description"@))));
    assert(after.map_values(f) =~= before.map_values(f).push(f(after.last())));
}

// --- the words of the protocol -----------------------------------------------------------

proof fn lemma_methods()
    ensures
        "session.status"@.len() == 14 && "session.status"@[7] == '.',
        "subagent.started"@.len() == 16,
        "subagent.finished"@.len() == 17,
        "session.event"@.len() == 13,
        "session/update"@.len() == 14 && "session/update"@[7] == '/',
{
    reveal_strlit("session.status");
    reveal_strlit("subagent.started");
    reveal_strlit("subagent.finished");
    reveal_strlit("session.event");
    reveal_strlit("session/update");
}

proof fn lemma_kinds()
    ensures
        "agent_message_chunk"@.len() == 19 && "agent_message_chunk"@[8] == 's',
        "agent_thought_chunk"@.len() == 19 && "agent_thought_chunk"@[8] == 'o',
        "user_message_chunk"@.len() == 18,
        "session_info_update"@.len() == 19 && "session_info_update"@[8] == 'i',
        "plan"@.len() == 4,
        "plan_update"@.len() == 11,
        "plan_removed"@.len() == 12,
        "tool_call"@.len() == 9,
        "tool_call_update"@.len() == 16,
        "current_mode_update"@.len() == 19 && "current_mode_update"@[8] == 'm',
        "config_option_update"@.len() == 20,
{
    reveal_strlit("agent_message_chunk");
    reveal_strlit("agent_thought_chunk");
    reveal_strlit("user_message_chunk");
    reveal_strlit("session_info_update");
    reveal_strlit("plan");
    reveal_strlit("plan_update");
    reveal_strlit("plan_removed");
    reveal_strlit("tool_call");
    reveal_strlit("tool_call_update");
    reveal_strlit("current_mode_update");
    reveal_strlit("config_option_update");
}

proof fn lemma_logs()
    ensures
        "turn/start"@.len() == 10,
        "turn/end"@.len() == 8,
        "assistant/chunk"@.len() == 15 && "assistant/chunk"@[1] == 's',
        "plan/mode"@.len() == 9 && "plan/mode"@[0] == 'p',
        "sandbox/mode"@.len() == 12 && "sandbox/mode"@[0] == 's',
        "approval/policy"@.len() == 15 && "approval/policy"@[1] == 'p',
        "permission/preset"@.len() == 17 && "permission/preset"@[0] == 'p',
        "agent-preset/selected"@.len() == 21,
        "approval/asked"@.len() == 14,
        "approval/decided"@.len() == 16,
        "assistant/message"@.len() == 17 && "assistant/message"@[0] == 'a',
        "tool/call"@.len() == 9 && "tool/call"@[0] == 't',
        "tool/result"@.len() == 11,
        "user/message"@.len() == 12 && "user/message"@[0] == 'u',
{
    reveal_strlit("turn/start");
    reveal_strlit("turn/end");
    reveal_strlit("assistant/chunk");
    reveal_strlit("plan/mode");
    reveal_strlit("sandbox/mode");
    reveal_strlit("approval/policy");
    reveal_strlit("permission/preset");
    reveal_strlit("agent-preset/selected");
    reveal_strlit("approval/asked");
    reveal_strlit("approval/decided");
    reveal_strlit("assistant/message");
    reveal_strlit("tool/call");
    reveal_strlit("tool/result");
    reveal_strlit("user/message");
}

proof fn lemma_states()
    ensures
        "completed"@.len() == 9,
        "failed"@.len() == 6,
        "pending"@.len() == 7 && "pending"@[0] == 'p',
        "in_progress"@.len() == 11,
        "started"@.len() == 7 && "started"@[0] == 's',
        "finished"@.len() == 8,
{
    reveal_strlit("completed");
    reveal_strlit("failed");
    reveal_strlit("pending");
    reveal_strlit("in_progress");
    reveal_strlit("started");
    reveal_strlit("finished");
}

proof fn lemma_marks()
    ensures
        "subagent/lifecycle"@.len() == 18,
        "prompt/usage"@.len() == 12 && "prompt/usage"@[0] == 'p',
        "user/message"@.len() == 12 && "user/message"@[0] == 'u',
        "assistant_message"@.len() == 17,
{
    reveal_strlit("subagent/lifecycle");
    reveal_strlit("prompt/usage");
    reveal_strlit("user/message");
    reveal_strlit("assistant_message");
}

proof fn lemma_chunks()
    ensures
        "text-delta"@.len() == 10,
        "reasoning-delta"@.len() == 15,
        "block-start"@.len() == 11,
        "usage"@.len() == 5,
{
    reveal_strlit("text-delta");
    reveal_strlit("reasoning-delta");
    reveal_strlit("block-start");
    reveal_strlit("usage");
}

proof fn lemma_options()
    ensures
        "model"@.len() == 5 && "model"@[0] == 'm',
        "collaboration_mode"@.len() == 18,
        "agent"@.len() == 5 && "agent"@[0] == 'a',
        "preset"@.len() == 6 && "preset"@[0] == 'p',
        "agent-preset"@.len() == 12,
        "effort"@.len() == 6 && "effort"@[0] == 'e',
{
    reveal_strlit("model");
    reveal_strlit("collaboration_mode");
    reveal_strlit("agent");
    reveal_strlit("preset");
    reveal_strlit("agent-preset");
    reveal_strlit("effort");
}

} // verus!
