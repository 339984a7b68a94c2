//! Wire notifications as events of the user interface.
//!
//! Every function here is total: an unknown method or a malformed payload
//! gives no events.

use crate::bus::{CatalogModel, CatalogPreset, CommandConfigAction, PaletteNotice, PalettePack, SkillInfo};
use crate::json::{self, Json, JsonValue, Number};
use crate::text;
use vstd::prelude::*;

verus! {

#[derive(Debug, Clone, PartialEq)]
pub enum UiEvent<S = String> {
    SessionStatus { session: S, running: bool },
    TurnStart { session: S, turn: u64 },
    TurnEnd { session: S, kind: S },
    TextDelta { session: S, text: S },
    ReasoningDelta { session: S, text: S },
    /// A tool call has begun whose arguments are still streaming in. The later
    /// `ToolCall` is the request itself.
    ToolCallPreparing { session: S },
    AssistantFinal { session: S, text: S, model: Option<S> },
    ToolCall { session: S, call_id: S, name: S, arguments: S },
    ToolResult { session: S, call_id: S, is_error: bool, text: S, error: Option<S> },
    Usage { session: S, input: u64, output: u64, cached: u64, reasoning: u64 },
    UserInjected { session: S, source: S, preview: S },
    SubagentStarted { parent: S, child: S },
    SubagentFinished { child: S, failed: bool },
    UserMessage { session: S, text: S },
    SessionTitle { session: S, title: S },
    SessionNotice { session: S, severity: S, title: S, details: Option<S> },
    SessionModel { session: S, model: S },
    Plan { session: S, summary: S },
    PlanMode { session: S, active: bool },
    SandboxMode { session: S, mode: S },
    ApprovalPolicy { session: S, policy: S },
    PermissionPreset { session: S, preset: S },
    AgentPreset { session: S, preset: S },
    ReasoningEffort { session: S, effort: S },
    ApprovalAsked { session: S, tool: S, reason: Option<S> },
    ApprovalDecided { session: S, outcome: S },
    /// A palette, which belongs to no session.
    Palette { pack: PalettePack<S>, activate: bool },
}

/// An event as contracts see it.
pub type EventV = UiEvent<Seq<char>>;

impl View for UiEvent {
    type V = EventV;

    open spec fn view(&self) -> EventV {
        match *self {
            UiEvent::SessionStatus { session, running } => UiEvent::SessionStatus {
                session: session@,
                running,
            },
            UiEvent::TurnStart { session, turn } => UiEvent::TurnStart { session: session@, turn },
            UiEvent::TurnEnd { session, kind } => UiEvent::TurnEnd {
                session: session@,
                kind: kind@,
            },
            UiEvent::TextDelta { session, text } => UiEvent::TextDelta {
                session: session@,
                text: text@,
            },
            UiEvent::ReasoningDelta { session, text } => UiEvent::ReasoningDelta {
                session: session@,
                text: text@,
            },
            UiEvent::ToolCallPreparing { session } => UiEvent::ToolCallPreparing {
                session: session@,
            },
            UiEvent::AssistantFinal { session, text, model } => UiEvent::AssistantFinal {
                session: session@,
                text: text@,
                model: text::opt_view(model),
            },
            UiEvent::ToolCall { session, call_id, name, arguments } => UiEvent::ToolCall {
                session: session@,
                call_id: call_id@,
                name: name@,
                arguments: arguments@,
            },
            UiEvent::ToolResult { session, call_id, is_error, text, error } => UiEvent::ToolResult {
                session: session@,
                call_id: call_id@,
                is_error,
                text: text@,
                error: text::opt_view(error),
            },
            UiEvent::Usage { session, input, output, cached, reasoning } => UiEvent::Usage {
                session: session@,
                input,
                output,
                cached,
                reasoning,
            },
            UiEvent::UserInjected { session, source, preview } => UiEvent::UserInjected {
                session: session@,
                source: source@,
                preview: preview@,
            },
            UiEvent::SubagentStarted { parent, child } => UiEvent::SubagentStarted {
                parent: parent@,
                child: child@,
            },
            UiEvent::SubagentFinished { child, failed } => UiEvent::SubagentFinished {
                child: child@,
                failed,
            },
            UiEvent::UserMessage { session, text } => UiEvent::UserMessage {
                session: session@,
                text: text@,
            },
            UiEvent::SessionTitle { session, title } => UiEvent::SessionTitle {
                session: session@,
                title: title@,
            },
            UiEvent::SessionNotice { session, severity, title, details } => UiEvent::SessionNotice {
                session: session@,
                severity: severity@,
                title: title@,
                details: text::opt_view(details),
            },
            UiEvent::SessionModel { session, model } => UiEvent::SessionModel {
                session: session@,
                model: model@,
            },
            UiEvent::Plan { session, summary } => UiEvent::Plan {
                session: session@,
                summary: summary@,
            },
            UiEvent::PlanMode { session, active } => UiEvent::PlanMode { session: session@, active },
            UiEvent::SandboxMode { session, mode } => UiEvent::SandboxMode {
                session: session@,
                mode: mode@,
            },
            UiEvent::ApprovalPolicy { session, policy } => UiEvent::ApprovalPolicy {
                session: session@,
                policy: policy@,
            },
            UiEvent::PermissionPreset { session, preset } => UiEvent::PermissionPreset {
                session: session@,
                preset: preset@,
            },
            UiEvent::AgentPreset { session, preset } => UiEvent::AgentPreset {
                session: session@,
                preset: preset@,
            },
            UiEvent::ReasoningEffort { session, effort } => UiEvent::ReasoningEffort {
                session: session@,
                effort: effort@,
            },
            UiEvent::ApprovalAsked { session, tool, reason } => UiEvent::ApprovalAsked {
                session: session@,
                tool: tool@,
                reason: text::opt_view(reason),
            },
            UiEvent::ApprovalDecided { session, outcome } => UiEvent::ApprovalDecided {
                session: session@,
                outcome: outcome@,
            },
            UiEvent::Palette { pack, activate } => UiEvent::Palette { pack: pack@, activate },
        }
    }
}

pub open spec fn events_view(v: Seq<UiEvent>) -> Seq<EventV> {
    v.map_values(|e: UiEvent| e@)
}

fn none() -> (r: Vec<UiEvent>)
    ensures
        events_view(r@) == Seq::<EventV>::empty(),
{
    let r: Vec<UiEvent> = Vec::new();
    assert(events_view(r@) =~= Seq::<EventV>::empty());
    r
}

fn one(e: UiEvent) -> (r: Vec<UiEvent>)
    ensures
        events_view(r@) == seq![e@],
{
    let mut r: Vec<UiEvent> = Vec::new();
    r.push(e);
    assert(events_view(r@) =~= seq![e@]);
    r
}

fn two(a: UiEvent, b: UiEvent) -> (r: Vec<UiEvent>)
    ensures
        events_view(r@) == seq![a@, b@],
{
    let mut r: Vec<UiEvent> = Vec::new();
    r.push(a);
    r.push(b);
    assert(events_view(r@) =~= seq![a@, b@]);
    r
}

fn add_event(v: &mut Vec<UiEvent>, e: UiEvent)
    ensures
        events_view(final(v)@) == events_view(old(v)@).push(e@),
{
    v.push(e);
    assert(events_view(v@) =~= events_view(old(v)@).push(e@));
}

pub open spec fn or_null(j: Option<Json>) -> Json {
    match j {
        Some(j) => j,
        None => Json::Null,
    }
}

pub open spec fn or_zero(n: Option<nat>) -> u64 {
    match n {
        Some(n) => n as u64,
        None => 0,
    }
}

fn u64_or_zero(v: &JsonValue, key: &str) -> (r: u64)
    ensures
        r == or_zero(json::number_in(json::member(v@, key@))),
{
    match json::u64_field(v, key) {
        Some(n) => n,
        None => 0,
    }
}

// --- text of content blocks -------------------------------------------------

/// The text of a block of type `text`, empty for any other block.
pub open spec fn block_text(b: Json) -> Seq<char> {
    if json::string_member(b, "type"@) == Some("text"@) {
        json::text_member(b, "text"@)
    } else {
        Seq::empty()
    }
}

pub open spec fn texts_of(blocks: Seq<Json>) -> Seq<char>
    decreases blocks.len(),
{
    if blocks.len() == 0 {
        Seq::empty()
    } else {
        texts_of(blocks.drop_last()) + block_text(blocks.last())
    }
}

/// The texts of all text blocks of a content array, one after another.
pub open spec fn content_text(content: Json) -> Seq<char> {
    match content {
        Json::Array(blocks) => texts_of(blocks),
        _ => Seq::empty(),
    }
}

fn concat_text_blocks(content: Option<&JsonValue>) -> (r: String)
    ensures
        r@ == content_text(or_null(json::seen(content))),
{
    let mut out = text::empty();
    if let Some(blocks) = json::as_array(content) {
        let ghost all = json::seen_all(blocks@);
        let mut i: usize = 0;
        assert(all.take(0) =~= Seq::empty());
        while i < blocks.len()
            invariant
                i <= blocks@.len(),
                all == json::seen_all(blocks@),
                out@ == texts_of(all.take(i as int)),
            decreases blocks@.len() - i,
        {
            let block = &blocks[i];
            assert(all.take(i as int + 1).drop_last() =~= all.take(i as int));
            let ghost before = out@;
            if text::opt_is(json::get_str(block, "type"), "text") {
                if let Some(t) = json::get_str(block, "text") {
                    text::push_str(&mut out, t);
                }
            }
            assert(out@ =~= before + block_text(block@));
            i = i + 1;
        }
        assert(all.take(i as int) =~= all);
    }
    out
}

/// The text of a content member: its own `text`, or that of its blocks.
pub open spec fn acp_text(content: Option<Json>) -> Seq<char> {
    match content {
        None => Seq::empty(),
        Some(content) => match json::string_member(content, "text"@) {
            Some(t) => t,
            None => content_text(content),
        },
    }
}

fn acp_text_content(content: Option<&JsonValue>) -> (r: String)
    ensures
        r@ == acp_text(json::seen(content)),
{
    match content {
        None => text::empty(),
        Some(c) => match json::get_str(c, "text") {
            Some(t) => t.to_owned(),
            None => concat_text_blocks(content),
        },
    }
}

/// The first of the members with these keys that is a string with content.
pub open spec fn first_text(j: Json, keys: Seq<Seq<char>>) -> Seq<char>
    decreases keys.len(),
{
    if keys.len() == 0 {
        Seq::empty()
    } else if json::text_member(j, keys[0]).len() > 0 {
        json::text_member(j, keys[0])
    } else {
        first_text(j, keys.skip(1))
    }
}

fn first_str2(v: &JsonValue, a: &str, b: &str) -> (r: String)
    ensures
        r@ == first_text(v@, seq![a@, b@]),
{
    reveal_with_fuel(first_text, 3);
    let ghost keys = seq![a@, b@];
    assert(keys.skip(1) =~= seq![b@]);
    assert(keys.skip(1).skip(1) =~= Seq::empty());
    let s = json::str_field(v, a);
    if !s.as_str().is_empty() {
        return s;
    }
    let s = json::str_field(v, b);
    if !s.as_str().is_empty() {
        return s;
    }
    text::empty()
}

fn first_str3(v: &JsonValue, a: &str, b: &str, c: &str) -> (r: String)
    ensures
        r@ == first_text(v@, seq![a@, b@, c@]),
{
    let ghost keys = seq![a@, b@, c@];
    assert(keys.skip(1) =~= seq![b@, c@]);
    let s = json::str_field(v, a);
    if !s.as_str().is_empty() {
        return s;
    }
    first_str2(v, b, c)
}

// --- tool calls --------------------------------------------------------------

pub open spec fn raw_input(update: Json) -> Option<Json> {
    json::or_else(json::member(update, "rawInput"@), json::member(update, "raw_input"@))
}

pub open spec fn tool_call_of(session: Seq<char>, update: Json) -> EventV {
    UiEvent::ToolCall {
        session,
        call_id: first_text(update, seq!["toolCallId"@, "tool_call_id"@]),
        name: first_text(update, seq!["title"@, "kind"@, "toolName"@]),
        arguments: match raw_input(update) {
            Some(raw) => json::printed(raw),
            None => Seq::empty(),
        },
    }
}

fn acp_tool_call(session: String, update: &JsonValue) -> (r: UiEvent)
    ensures
        r@ == tool_call_of(session@, update@),
{
    UiEvent::ToolCall {
        session,
        call_id: first_str2(update, "toolCallId", "tool_call_id"),
        name: first_str3(update, "title", "kind", "toolName"),
        arguments: match json::get_either(update, "rawInput", "raw_input") {
            Some(raw) => json::value_text(raw),
            None => text::empty(),
        },
    }
}

/// What a finished tool call printed: a terminal stream, else the raw output,
/// else the text of its content blocks.
pub open spec fn tool_output(update: Json) -> Seq<char> {
    let stream = json::string_in(
        json::member_of(
            json::member_of(json::member(update, "_meta"@), "terminal_output"@),
            "data"@,
        ),
    );
    if stream is Some && stream->0.len() > 0 {
        stream->0
    } else {
        match json::or_else(json::member(update, "rawOutput"@), json::member(update, "raw_output"@)) {
            Some(Json::Str(s)) => s,
            Some(raw) => match json::string_member(raw, "output"@) {
                Some(s) => s,
                None => json::printed(raw),
            },
            None => match json::member(update, "content"@) {
                Some(content) => content_text(content),
                None => Seq::empty(),
            },
        }
    }
}

fn acp_tool_output_text(update: &JsonValue) -> (r: String)
    ensures
        r@ == tool_output(update@),
{
    let meta = json::get(update, "_meta");
    let stream = json::as_str(json::get_in(json::get_in(meta, "terminal_output"), "data"));
    if let Some(data) = stream {
        if !data.is_empty() {
            return data.to_owned();
        }
    }
    let raw = json::get_either(update, "rawOutput", "raw_output");
    if let Some(raw) = raw {
        if let Some(s) = json::as_str(Some(raw)) {
            return s.to_owned();
        }
        if let Some(s) = json::get_str(raw, "output") {
            return s.to_owned();
        }
        return json::value_text(raw);
    }
    let content = json::get(update, "content");
    if content.is_some() {
        return concat_text_blocks(content);
    }
    text::empty()
}

pub open spec fn status_of(update: Json) -> Seq<char> {
    json::text_member(update, "status"@)
}

/// The result of a tool call that has ended, one way or the other.
pub open spec fn tool_result_of(session: Seq<char>, update: Json) -> Seq<EventV> {
    if status_of(update) == "completed"@ || status_of(update) == "failed"@ {
        seq![
            UiEvent::ToolResult {
                session,
                call_id: first_text(update, seq!["toolCallId"@, "tool_call_id"@]),
                is_error: status_of(update) == "failed"@,
                text: tool_output(update),
                error: None,
            },
        ]
    } else {
        Seq::empty()
    }
}

fn acp_tool_result(session: String, update: &JsonValue) -> (r: Vec<UiEvent>)
    ensures
        events_view(r@) == tool_result_of(session@, update@),
{
    let status = json::str_field(update, "status");
    let failed = text::same(status.as_str(), "failed");
    if !failed && !text::same(status.as_str(), "completed") {
        return none();
    }
    let call_id = first_str2(update, "toolCallId", "tool_call_id");
    let text = acp_tool_output_text(update);
    one(UiEvent::ToolResult { session, call_id, is_error: failed, text, error: None })
}

// --- plans -------------------------------------------------------------------

/// One line of a plan: its content, with the status in brackets where it has
/// one. An entry without content has no line.
pub open spec fn plan_line(entry: Json) -> Option<Seq<char>> {
    match json::string_member(entry, "content"@) {
        None => None,
        Some(content) => {
            let status = json::text_member(entry, "status"@);
            if status.len() == 0 {
                Some(content)
            } else {
                Some(content + " ["@ + status + "]"@)
            }
        },
    }
}

pub open spec fn plan_lines(entries: Seq<Json>) -> Seq<Seq<char>>
    decreases entries.len(),
{
    if entries.len() == 0 {
        Seq::empty()
    } else {
        match plan_line(entries.last()) {
            Some(line) => plan_lines(entries.drop_last()).push(line),
            None => plan_lines(entries.drop_last()),
        }
    }
}

pub open spec fn plan_entries(update: Json) -> Option<Seq<Json>> {
    json::array_in(
        json::or_else(
            json::member(update, "entries"@),
            json::member_of(json::member(update, "plan"@), "entries"@),
        ),
    )
}

pub open spec fn plan_text(update: Json) -> Seq<char> {
    match plan_entries(update) {
        Some(entries) => text::joined(plan_lines(entries), " · "@),
        None => json::or_empty(
            json::or_else(
                json::string_in(json::member_of(json::member(update, "plan"@), "content"@)),
                json::string_member(update, "content"@),
            ),
        ),
    }
}

fn plan_summary(update: &JsonValue) -> (r: String)
    ensures
        r@ == plan_text(update@),
{
    let plan = json::get(update, "plan");
    let entries = match json::get(update, "entries") {
        Some(e) => Some(e),
        None => json::get_in(plan, "entries"),
    };
    if let Some(entries) = json::as_array(entries) {
        let ghost all = json::seen_all(entries@);
        let mut parts: Vec<String> = Vec::new();
        let mut i: usize = 0;
        assert(text::views(parts@) =~= plan_lines(all.take(0)));
        while i < entries.len()
            invariant
                i <= entries@.len(),
                all == json::seen_all(entries@),
                text::views(parts@) == plan_lines(all.take(i as int)),
            decreases entries@.len() - i,
        {
            let entry = &entries[i];
            assert(all.take(i as int + 1).drop_last() =~= all.take(i as int));
            let ghost before = parts@;
            if let Some(content) = json::get_str(entry, "content") {
                let status = json::str_field(entry, "status");
                let line = if status.as_str().is_empty() {
                    content.to_owned()
                } else {
                    let head = text::concat3(content, " [", status.as_str());
                    text::concat2(head.as_str(), "]")
                };
                let ghost l = line@;
                parts.push(line);
                assert(text::views(parts@) =~= text::views(before).push(l));
            }
            i = i + 1;
        }
        assert(all.take(i as int) =~= all);
        return text::join(&parts, " · ");
    }
    match json::as_str(json::get_in(plan, "content")) {
        Some(s) => s.to_owned(),
        None => json::str_field(update, "content"),
    }
}

// --- configuration options ----------------------------------------------------

pub open spec fn current_value(option: Json) -> Option<Seq<char>> {
    json::string_in(
        json::or_else(
            json::member(option, "currentValue"@),
            json::member(option, "current_value"@),
        ),
    )
}

fn current_value_of<'a>(option: &'a JsonValue) -> (r: Option<&'a str>)
    ensures
        text::opt_str_view(r) == current_value(option@),
{
    json::as_str(json::get_either(option, "currentValue", "current_value"))
}

/// The first item whose string under `key` is `want`.
pub open spec fn first_with(items: Seq<Json>, key: Seq<char>, want: Seq<char>) -> Option<Json>
    decreases items.len(),
{
    if items.len() == 0 {
        None
    } else if json::string_member(items[0], key) == Some(want) {
        Some(items[0])
    } else {
        first_with(items.skip(1), key, want)
    }
}

pub open spec fn first_in(items: Option<Seq<Json>>, key: Seq<char>, want: Seq<char>) -> Option<Json> {
    match items {
        Some(items) => first_with(items, key, want),
        None => None,
    }
}

fn find_with<'a>(options: &'a JsonValue, key: &str, want: &str) -> (r: Option<&'a JsonValue>)
    ensures
        json::seen(r) == first_in(json::array_in(Some(options@)), key@, want@),
{
    let items = match json::as_array(Some(options)) {
        Some(items) => items,
        None => return None,
    };
    let ghost all = json::seen_all(items@);
    let mut i: usize = 0;
    assert(all.skip(0) =~= all);
    while i < items.len()
        invariant
            i <= items@.len(),
            all == json::seen_all(items@),
            json::array_in(Some(options@)) == Some(all),
            first_with(all, key@, want@) == first_with(all.skip(i as int), key@, want@),
        decreases items@.len() - i,
    {
        assert(all.skip(i as int)[0] == items@[i as int]@);
        assert(all.skip(i as int).skip(1) =~= all.skip(i as int + 1));
        if text::opt_is(json::get_str(&items[i], key), want) {
            return Some(&items[i]);
        }
        i = i + 1;
    }
    None
}

pub proof fn lemma_entry_is_value(o: Seq<(Seq<char>, Json)>, key: Seq<char>) -> (i: int)
    ensures
        json::entry(o, key) matches Some(m) ==> 0 <= i < o.len() && o[i].1 == m,
    decreases o.len(),
{
    if o.len() == 0 || o[0].0 == key {
        0
    } else {
        let k = lemma_entry_is_value(o.skip(1), key);
        k + 1
    }
}

pub proof fn lemma_member_is_smaller(j: Json, key: Seq<char>)
    ensures
        json::member(j, key) matches Some(m) ==> decreases_to!(j => m),
{
    if let Json::Object(o) = j {
        let i = lemma_entry_is_value(o, key);
        if json::member(j, key) is Some {
            assert(decreases_to!(j => j->Object_0[i].1));
        }
    }
}

/// One choice of a select: value, name, description.
pub type Choice = (Seq<char>, Seq<char>, Seq<char>);

/// The choices of a select, those of groups in their place.
pub open spec fn choices(options: Json) -> Seq<Choice>
    decreases options,
{
    match options {
        Json::Array(items) => choices_of(items),
        _ => Seq::empty(),
    }
}

pub open spec fn choices_of(items: Seq<Json>) -> Seq<Choice>
    decreases items,
{
    if items.len() == 0 {
        Seq::empty()
    } else {
        choices_of(items.drop_last()) + choices_in(items.last())
    }
}

pub open spec fn choices_in(item: Json) -> Seq<Choice>
    decreases item,
{
    match json::member(item, "options"@) {
        Some(nested) => {
            proof {
                lemma_member_is_smaller(item, "options"@);
            }
            choices(nested)
        },
        None => match json::string_member(item, "value"@) {
            Some(value) => seq![
                (
                    value,
                    text::text_or(json::string_member(item, "name"@), value),
                    json::text_member(item, "description"@),
                ),
            ],
            None => Seq::empty(),
        },
    }
}

pub open spec fn choices_view(v: Seq<(String, String, String)>) -> Seq<Choice> {
    v.map_values(|c: (String, String, String)| (c.0@, c.1@, c.2@))
}

/// The choices of a select, with the rows of `{ group, options }` flattened.
pub fn flatten_select_options(options: &JsonValue) -> (r: Vec<(String, String, String)>)
    ensures
        choices_view(r@) == choices(options@),
    decreases options,
{
    let mut out: Vec<(String, String, String)> = Vec::new();
    assert(choices_view(out@) =~= Seq::<Choice>::empty());
    let items = match json::as_array(Some(options)) {
        Some(items) => items,
        None => return out,
    };
    let ghost all = json::seen_all(items@);
    let mut i: usize = 0;
    assert(all.take(0) =~= Seq::empty());
    while i < items.len()
        invariant
            i <= items@.len(),
            *options == JsonValue::Array(*items),
            all == json::seen_all(items@),
            choices_view(out@) == choices_of(all.take(i as int)),
        decreases items@.len() - i,
    {
        let item = &items[i];
        assert(all.take(i as int + 1).drop_last() =~= all.take(i as int));
        let ghost before = out@;
        if let Some(nested) = json::get(item, "options") {
            assert(decreases_to!(*options => options->Array_0@[i as int]));
            let mut more = flatten_select_options(nested);
            let ghost added = more@;
            out.append(&mut more);
            assert(choices_view(out@) =~= choices_view(before) + choices_view(added));
            assert(choices_in(item@) == choices_view(added));
        } else if let Some(value) = json::get_str(item, "value") {
            let name = text::owned_or(json::get_str(item, "name"), value);
            let description = json::str_field(item, "description");
            let ghost c = (value@, name@, description@);
            out.push((value.to_owned(), name, description));
            assert(choices_view(out@) =~= choices_view(before) + seq![c]);
            assert(choices_in(item@) == seq![c]);
        } else {
            assert(choices_view(out@) =~= choices_view(before) + Seq::<Choice>::empty());
            assert(choices_in(item@) == Seq::<Choice>::empty());
        }
        assert(all.take(i as int + 1).last() == item@);
        assert(choices_of(all.take(i as int + 1)) == choices_of(all.take(i as int)) + choices_in(item@));
        i = i + 1;
    }
    assert(all.take(i as int) =~= all);
    out
}

/// Whether this option has one of the names agents give their composition
/// select.
pub open spec fn names_composition(option: Json) -> bool {
    let id = json::string_member(option, "id"@);
    id == Some("agent"@) || id == Some("preset"@) || id == Some("agent-preset"@)
}

/// Whether this option is a select without a category that is none of the
/// selects with a meaning of their own.
pub open spec fn extra_select(option: Json) -> bool {
    let id = json::string_member(option, "id"@);
    &&& json::string_member(option, "type"@) == Some("select"@)
    &&& json::string_member(option, "category"@) is None
    &&& id != Some("mode"@) && id != Some("model"@) && id != Some("effort"@) && id != Some(
        "collaboration_mode"@,
    )
}

pub open spec fn first_named(items: Seq<Json>) -> Option<Json>
    decreases items.len(),
{
    if items.len() == 0 {
        None
    } else if names_composition(items[0]) {
        Some(items[0])
    } else {
        first_named(items.skip(1))
    }
}

pub open spec fn first_extra(items: Seq<Json>) -> Option<Json>
    decreases items.len(),
{
    if items.len() == 0 {
        None
    } else if extra_select(items[0]) {
        Some(items[0])
    } else {
        first_extra(items.skip(1))
    }
}

/// The select that chooses how the agent is composed.
pub open spec fn composition(options: Json) -> Option<Json> {
    match json::array_in(Some(options)) {
        Some(items) => json::or_else(first_named(items), first_extra(items)),
        None => None,
    }
}

fn is_composition_name(option: &JsonValue) -> (r: bool)
    ensures
        r == names_composition(option@),
{
    let id = json::get_str(option, "id");
    text::opt_is(id, "agent") || text::opt_is(id, "preset") || text::opt_is(id, "agent-preset")
}

fn is_extra_select(option: &JsonValue) -> (r: bool)
    ensures
        r == extra_select(option@),
{
    let id = json::get_str(option, "id");
    text::opt_is(json::get_str(option, "type"), "select") && json::get_str(
        option,
        "category",
    ).is_none() && !text::opt_is(id, "mode") && !text::opt_is(id, "model") && !text::opt_is(
        id,
        "effort",
    ) && !text::opt_is(id, "collaboration_mode")
}

/// The select that chooses how the agent is composed: one named `agent`,
/// `preset` or `agent-preset`, else the first extra select.
pub fn composition_option<'a>(options: &'a JsonValue) -> (r: Option<&'a JsonValue>)
    ensures
        json::seen(r) == composition(options@),
{
    let items = match json::as_array(Some(options)) {
        Some(items) => items,
        None => return None,
    };
    let ghost all = json::seen_all(items@);
    let mut i: usize = 0;
    assert(all.skip(0) =~= all);
    while i < items.len()
        invariant
            i <= items@.len(),
            all == json::seen_all(items@),
            json::array_in(Some(options@)) == Some(all),
            first_named(all) == first_named(all.skip(i as int)),
        decreases items@.len() - i,
    {
        assert(all.skip(i as int)[0] == items@[i as int]@);
        assert(all.skip(i as int).skip(1) =~= all.skip(i as int + 1));
        if is_composition_name(&items[i]) {
            return Some(&items[i]);
        }
        i = i + 1;
    }
    let mut i: usize = 0;
    while i < items.len()
        invariant
            i <= items@.len(),
            all == json::seen_all(items@),
            json::array_in(Some(options@)) == Some(all),
            first_named(all) is None,
            first_extra(all) == first_extra(all.skip(i as int)),
        decreases items@.len() - i,
    {
        assert(all.skip(i as int)[0] == items@[i as int]@);
        assert(all.skip(i as int).skip(1) =~= all.skip(i as int + 1));
        if is_extra_select(&items[i]) {
            return Some(&items[i]);
        }
        i = i + 1;
    }
    None
}

pub open spec fn effort_option(options: Json) -> Option<Json> {
    let items = json::array_in(Some(options));
    json::or_else(
        first_in(items, "category"@, "thought_level"@),
        first_in(items, "id"@, "effort"@),
    )
}

/// The option that sets the reasoning effort: by its category, else by the id
/// that older agents use.
pub fn reasoning_effort_option<'a>(options: &'a JsonValue) -> (r: Option<&'a JsonValue>)
    ensures
        json::seen(r) == effort_option(options@),
{
    match find_with(options, "category", "thought_level") {
        Some(o) => Some(o),
        None => find_with(options, "id", "effort"),
    }
}

/// The name of the first choice with this value.
pub open spec fn choice_name(items: Seq<Choice>, value: Seq<char>) -> Option<Seq<char>>
    decreases items.len(),
{
    if items.len() == 0 {
        None
    } else if items[0].0 == value {
        Some(items[0].1)
    } else {
        choice_name(items.skip(1), value)
    }
}

fn find_choice_name(items: &Vec<(String, String, String)>, value: &str) -> (r: Option<String>)
    ensures
        text::opt_view(r) == choice_name(choices_view(items@), value@),
{
    let ghost all = choices_view(items@);
    let mut i: usize = 0;
    assert(all.skip(0) =~= all);
    while i < items.len()
        invariant
            i <= items@.len(),
            all == choices_view(items@),
            choice_name(all, value@) == choice_name(all.skip(i as int), value@),
        decreases items@.len() - i,
    {
        assert(all.skip(i as int)[0] == all[i as int]);
        assert(all.skip(i as int).skip(1) =~= all.skip(i as int + 1));
        if text::same(items[i].0.as_str(), value) {
            return Some(items[i].1.clone());
        }
        i = i + 1;
    }
    None
}

/// What the status line shows as the model: the name of the chosen entry, or
/// the raw value where no entry has it.
pub open spec fn model_shown(options: Json) -> Option<Seq<char>> {
    match first_in(json::array_in(Some(options)), "id"@, "model"@) {
        None => None,
        Some(model) => match current_value(model) {
            None => None,
            Some(value) => Some(
                text::text_or(
                    choice_name(choices(or_null(json::member(model, "options"@))), value),
                    value,
                ),
            ),
        },
    }
}

fn choices_under(option: &JsonValue) -> (r: Vec<(String, String, String)>)
    ensures
        choices_view(r@) == choices(or_null(json::member(option@, "options"@))),
{
    match json::get(option, "options") {
        Some(o) => flatten_select_options(o),
        None => {
            let r: Vec<(String, String, String)> = Vec::new();
            assert(choices_view(r@) =~= Seq::<Choice>::empty());
            r
        },
    }
}

fn shown_model(options: &JsonValue) -> (r: Option<String>)
    ensures
        text::opt_view(r) == model_shown(options@),
{
    let model = match find_with(options, "id", "model") {
        Some(m) => m,
        None => return None,
    };
    let value = match current_value_of(model) {
        Some(v) => v,
        None => return None,
    };
    let items = choices_under(model);
    match find_choice_name(&items, value) {
        Some(name) => Some(name),
        None => Some(value.to_owned()),
    }
}

/// Whether the collaboration mode option stands on `plan`.
pub open spec fn plan_mode_active(options: Json) -> Option<bool> {
    match first_in(json::array_in(Some(options)), "id"@, "collaboration_mode"@) {
        None => None,
        Some(option) => match current_value(option) {
            None => None,
            Some(v) => Some(v == "plan"@),
        },
    }
}

fn collaboration_mode_active(options: &JsonValue) -> (r: Option<bool>)
    ensures
        r == plan_mode_active(options@),
{
    let option = match find_with(options, "id", "collaboration_mode") {
        Some(o) => o,
        None => return None,
    };
    match current_value_of(option) {
        Some(v) => Some(text::same(v, "plan")),
        None => None,
    }
}

pub open spec fn current_in(option: Option<Json>) -> Option<Seq<char>> {
    match option {
        Some(o) => current_value(o),
        None => None,
    }
}

fn current_value_in<'a>(option: Option<&'a JsonValue>) -> (r: Option<&'a str>)
    ensures
        text::opt_str_view(r) == current_in(json::seen(option)),
{
    match option {
        Some(o) => current_value_of(o),
        None => None,
    }
}

pub open spec fn maybe(e: Option<EventV>) -> Seq<EventV> {
    match e {
        Some(e) => seq![e],
        None => Seq::empty(),
    }
}

/// The facts a snapshot of the configuration options tells, in the order
/// model, plan mode, composition, reasoning effort.
pub open spec fn config_events(session: Seq<char>, options: Json) -> Seq<EventV> {
    maybe(
        match model_shown(options) {
            Some(model) => Some(UiEvent::SessionModel { session, model }),
            None => None,
        },
    ) + maybe(
        match plan_mode_active(options) {
            Some(active) => Some(UiEvent::PlanMode { session, active }),
            None => None,
        },
    ) + maybe(
        match current_in(composition(options)) {
            Some(preset) => Some(UiEvent::AgentPreset { session, preset }),
            None => None,
        },
    ) + maybe(
        match current_in(effort_option(options)) {
            Some(effort) => Some(UiEvent::ReasoningEffort { session, effort }),
            None => None,
        },
    )
}

/// The facts that a complete `configOptions` snapshot tells.
pub fn config_option_events(session: String, options: &JsonValue) -> (r: Vec<UiEvent>)
    ensures
        events_view(r@) == config_events(session@, options@),
{
    let mut events = none();
    let ghost a = events_view(events@);
    if let Some(model) = shown_model(options) {
        add_event(&mut events, UiEvent::SessionModel { session: session.clone(), model });
    }
    let ghost b = events_view(events@);
    if let Some(active) = collaboration_mode_active(options) {
        add_event(&mut events, UiEvent::PlanMode { session: session.clone(), active });
    }
    let ghost c = events_view(events@);
    if let Some(preset) = current_value_in(composition_option(options)) {
        add_event(
            &mut events,
            UiEvent::AgentPreset { session: session.clone(), preset: preset.to_owned() },
        );
    }
    let ghost d = events_view(events@);
    if let Some(effort) = current_value_in(reasoning_effort_option(options)) {
        add_event(&mut events, UiEvent::ReasoningEffort { session, effort: effort.to_owned() });
    }
    assert(events_view(events@) =~= config_events(session@, options@));
    events
}

pub open spec fn model_row(c: Choice) -> CatalogModel<Seq<char>> {
    match text::split_at_char(c.0, '/') {
        Some((provider, id)) => CatalogModel { provider, id, name: c.1, vision: false },
        None => CatalogModel { provider: Seq::empty(), id: c.0, name: c.1, vision: false },
    }
}

pub open spec fn preset_row(c: Choice) -> CatalogPreset<Seq<char>> {
    CatalogPreset {
        id: c.0,
        name: c.1,
        description: c.2,
        broken: text::has_prefix(c.2, "Broken:"@),
    }
}

pub open spec fn catalog_models(options: Json) -> Seq<CatalogModel<Seq<char>>> {
    match first_in(json::array_in(Some(options)), "id"@, "model"@) {
        Some(model) => choices(or_null(json::member(model, "options"@))).map_values(
            |c: Choice| model_row(c),
        ),
        None => Seq::empty(),
    }
}

pub open spec fn catalog_presets(options: Json) -> Seq<CatalogPreset<Seq<char>>> {
    match composition(options) {
        Some(option) => choices(or_null(json::member(option, "options"@))).map_values(
            |c: Choice| preset_row(c),
        ),
        None => Seq::empty(),
    }
}

pub open spec fn models_view(v: Seq<CatalogModel>) -> Seq<CatalogModel<Seq<char>>> {
    v.map_values(|m: CatalogModel| m@)
}

pub open spec fn presets_view(v: Seq<CatalogPreset>) -> Seq<CatalogPreset<Seq<char>>> {
    v.map_values(|m: CatalogPreset| m@)
}

/// The models, the composition choices and the id of the composition option.
pub fn catalog_from_config_options(options: &JsonValue) -> (r: (
    Vec<CatalogModel>,
    Vec<CatalogPreset>,
    Option<String>,
))
    ensures
        models_view(r.0@) == catalog_models(options@),
        presets_view(r.1@) == catalog_presets(options@),
        text::opt_view(r.2) == json::string_in(json::member_of(composition(options@), "id"@)),
{
    let mut models: Vec<CatalogModel> = Vec::new();
    assert(models_view(models@) =~= Seq::<CatalogModel<Seq<char>>>::empty());
    if let Some(model) = find_with(options, "id", "model") {
        let items = choices_under(model);
        let ghost rows = choices_view(items@);
        let mut i: usize = 0;
        while i < items.len()
            invariant
                i <= items@.len(),
                rows == choices_view(items@),
                models@.len() == i,
                forall|k: int| 0 <= k < i ==> (#[trigger] models@[k])@ == model_row(rows[k]),
            decreases items@.len() - i,
        {
            let row = match text::split_once(items[i].0.as_str(), '/') {
                Some((provider, id)) => CatalogModel {
                    provider,
                    id,
                    name: items[i].1.clone(),
                    vision: false,
                },
                None => CatalogModel {
                    provider: text::empty(),
                    id: items[i].0.clone(),
                    name: items[i].1.clone(),
                    vision: false,
                },
            };
            models.push(row);
            i = i + 1;
        }
        assert(models_view(models@) =~= rows.map_values(|c: Choice| model_row(c)));
    }
    let composition = composition_option(options);
    let composition_id = text::opt_owned(json::as_str(json::get_in(composition, "id")));
    let mut presets: Vec<CatalogPreset> = Vec::new();
    assert(presets_view(presets@) =~= Seq::<CatalogPreset<Seq<char>>>::empty());
    if let Some(option) = composition {
        let items = choices_under(option);
        let ghost rows = choices_view(items@);
        let mut i: usize = 0;
        while i < items.len()
            invariant
                i <= items@.len(),
                rows == choices_view(items@),
                presets@.len() == i,
                forall|k: int| 0 <= k < i ==> (#[trigger] presets@[k])@ == preset_row(rows[k]),
            decreases items@.len() - i,
        {
            let broken = text::starts_with(items[i].2.as_str(), "Broken:");
            presets.push(
                CatalogPreset {
                    id: items[i].0.clone(),
                    name: items[i].1.clone(),
                    description: items[i].2.clone(),
                    broken,
                },
            );
            i = i + 1;
        }
        assert(presets_view(presets@) =~= rows.map_values(|c: Choice| preset_row(c)));
    }
    (models, presets, composition_id)
}

/// One session mode; a row without an id is none.
pub open spec fn mode_row(mode: Json) -> Option<CatalogPreset<Seq<char>>> {
    match json::string_member(mode, "id"@) {
        None => None,
        Some(id) => Some(
            CatalogPreset {
                id,
                name: text::text_or(json::string_member(mode, "name"@), id),
                description: json::text_member(mode, "description"@),
                broken: false,
            },
        ),
    }
}

pub open spec fn mode_rows(modes: Seq<Json>) -> Seq<CatalogPreset<Seq<char>>>
    decreases modes.len(),
{
    if modes.len() == 0 {
        Seq::empty()
    } else {
        match mode_row(modes.last()) {
            Some(row) => mode_rows(modes.drop_last()).push(row),
            None => mode_rows(modes.drop_last()),
        }
    }
}

pub open spec fn available_modes(modes: Json) -> Seq<CatalogPreset<Seq<char>>> {
    match json::array_in(
        json::or_else(json::member(modes, "availableModes"@), json::member(modes, "available_modes"@)),
    ) {
        Some(rows) => mode_rows(rows),
        None => Seq::empty(),
    }
}

pub open spec fn current_mode(modes: Json) -> Option<Seq<char>> {
    let id = first_text(modes, seq!["currentModeId"@, "current_mode_id"@]);
    if id.len() == 0 {
        None
    } else {
        Some(id)
    }
}

/// The session modes an agent offers and the one that is set.
pub fn session_modes_from_value(modes: &JsonValue) -> (r: (Vec<CatalogPreset>, Option<String>))
    ensures
        presets_view(r.0@) == available_modes(modes@),
        text::opt_view(r.1) == current_mode(modes@),
{
    let current = first_str2(modes, "currentModeId", "current_mode_id");
    let current = if current.as_str().is_empty() {
        None
    } else {
        Some(current)
    };
    let mut out: Vec<CatalogPreset> = Vec::new();
    assert(presets_view(out@) =~= Seq::<CatalogPreset<Seq<char>>>::empty());
    if let Some(rows) = json::as_array(json::get_either(modes, "availableModes", "available_modes")) {
        let ghost all = json::seen_all(rows@);
        let mut i: usize = 0;
        assert(all.take(0) =~= Seq::empty());
        while i < rows.len()
            invariant
                i <= rows@.len(),
                all == json::seen_all(rows@),
                presets_view(out@) == mode_rows(all.take(i as int)),
            decreases rows@.len() - i,
        {
            assert(all.take(i as int + 1).drop_last() =~= all.take(i as int));
            let ghost before = out@;
            if let Some(id) = json::get_str(&rows[i], "id") {
                let row = CatalogPreset {
                    id: id.to_owned(),
                    name: text::owned_or(json::get_str(&rows[i], "name"), id),
                    description: json::str_field(&rows[i], "description"),
                    broken: false,
                };
                let ghost v = row@;
                out.push(row);
                assert(presets_view(out@) =~= presets_view(before).push(v));
            }
            i = i + 1;
        }
        assert(all.take(i as int) =~= all);
    }
    (out, current)
}

// --- commands the agent offers -------------------------------------------------

/// The configuration action that a carrier of a command's metadata holds. One
/// of another kind, or without its option or value, is none.
pub open spec fn carried_action(carrier: Option<Json>) -> Option<CommandConfigAction<Seq<char>>> {
    match json::member_of(carrier, "commandAction"@) {
        None => None,
        Some(action) => match (
            json::string_member(action, "configId"@),
            json::string_member(action, "value"@),
        ) {
            (Some(config_id), Some(value)) => if json::string_member(action, "kind"@) == Some(
                "setConfigOption"@,
            ) {
                Some(
                    CommandConfigAction {
                        config_id,
                        value,
                        reset_value: json::string_member(action, "resetValue"@),
                    },
                )
            } else {
                None
            },
            _ => None,
        },
    }
}

/// The configuration action of a command: that in `metadata`, else that in
/// `_meta`.
pub open spec fn config_action(command: Json) -> Option<CommandConfigAction<Seq<char>>> {
    json::or_else(
        carried_action(json::member(command, "metadata"@)),
        carried_action(json::member(command, "_meta"@)),
    )
}

fn read_carried_action(carrier: Option<&JsonValue>) -> (r: Option<CommandConfigAction>)
    ensures
        crate::bus::opt_action_view(r) == carried_action(json::seen(carrier)),
{
    let action = match json::get_in(carrier, "commandAction") {
        Some(a) => a,
        None => return None,
    };
    let config_id = json::get_str(action, "configId");
    let value = json::get_str(action, "value");
    match (config_id, value) {
        (Some(config_id), Some(value)) => if text::opt_is(
            json::get_str(action, "kind"),
            "setConfigOption",
        ) {
            Some(
                CommandConfigAction {
                    config_id: config_id.to_owned(),
                    value: value.to_owned(),
                    reset_value: text::opt_owned(json::get_str(action, "resetValue")),
                },
            )
        } else {
            None
        },
        _ => None,
    }
}

fn command_config_action(command: &JsonValue) -> (r: Option<CommandConfigAction>)
    ensures
        crate::bus::opt_action_view(r) == config_action(command@),
{
    match read_carried_action(json::get(command, "metadata")) {
        Some(a) => Some(a),
        None => read_carried_action(json::get(command, "_meta")),
    }
}

pub open spec fn client_action_in(carrier: Option<Json>) -> bool {
    json::string_in(json::member_of(json::member_of(carrier, "commandAction"@), "kind"@)) == Some(
        "clientCommand"@,
    )
}

/// Whether the client handles this command itself.
pub open spec fn client_action(command: Json) -> bool {
    client_action_in(json::member(command, "metadata"@)) || client_action_in(
        json::member(command, "_meta"@),
    )
}

fn has_client_action(carrier: Option<&JsonValue>) -> (r: bool)
    ensures
        r == client_action_in(json::seen(carrier)),
{
    text::opt_is(
        json::as_str(json::get_in(json::get_in(carrier, "commandAction"), "kind")),
        "clientCommand",
    )
}

fn command_client_action(command: &JsonValue) -> (r: bool)
    ensures
        r == client_action(command@),
{
    has_client_action(json::get(command, "metadata")) || has_client_action(
        json::get(command, "_meta"),
    )
}

/// One offered command; an entry without a name is none.
pub open spec fn skill_row(command: Json) -> Option<SkillInfo<Seq<char>>> {
    match json::string_member(command, "name"@) {
        None => None,
        Some(name) => Some(
            SkillInfo {
                name,
                description: json::text_member(command, "description"@),
                input_hint: json::string_in(
                    json::member_of(json::member(command, "input"@), "hint"@),
                ),
                config_action: config_action(command),
                client_command: client_action(command),
            },
        ),
    }
}

pub open spec fn skill_rows(commands: Seq<Json>) -> Seq<SkillInfo<Seq<char>>>
    decreases commands.len(),
{
    if commands.len() == 0 {
        Seq::empty()
    } else {
        match skill_row(commands.last()) {
            Some(row) => skill_rows(commands.drop_last()).push(row),
            None => skill_rows(commands.drop_last()),
        }
    }
}

pub open spec fn skills_of(commands: Json) -> Seq<SkillInfo<Seq<char>>> {
    match json::array_in(Some(commands)) {
        Some(rows) => skill_rows(rows),
        None => Seq::empty(),
    }
}

pub open spec fn skills_view(v: Seq<SkillInfo>) -> Seq<SkillInfo<Seq<char>>> {
    v.map_values(|m: SkillInfo| m@)
}

/// The commands that an `available_commands_update` offers.
pub fn skills_from_available_commands(commands: &JsonValue) -> (r: Vec<SkillInfo>)
    ensures
        skills_view(r@) == skills_of(commands@),
{
    let mut out: Vec<SkillInfo> = Vec::new();
    assert(skills_view(out@) =~= Seq::<SkillInfo<Seq<char>>>::empty());
    let rows = match json::as_array(Some(commands)) {
        Some(rows) => rows,
        None => return out,
    };
    let ghost all = json::seen_all(rows@);
    let mut i: usize = 0;
    assert(all.take(0) =~= Seq::empty());
    while i < rows.len()
        invariant
            i <= rows@.len(),
            all == json::seen_all(rows@),
            skills_view(out@) == skill_rows(all.take(i as int)),
        decreases rows@.len() - i,
    {
        let command = &rows[i];
        assert(all.take(i as int + 1).drop_last() =~= all.take(i as int));
        let ghost before = out@;
        if let Some(name) = json::get_str(command, "name") {
            let row = SkillInfo {
                name: name.to_owned(),
                description: json::str_field(command, "description"),
                input_hint: text::opt_owned(
                    json::as_str(json::get_in(json::get(command, "input"), "hint")),
                ),
                config_action: command_config_action(command),
                client_command: command_client_action(command),
            };
            let ghost v = row@;
            out.push(row);
            assert(skills_view(out@) =~= skills_view(before).push(v));
        }
        i = i + 1;
    }
    assert(all.take(i as int) =~= all);
    out
}

// --- events of the session log ---------------------------------------------------

pub open spec fn chunk_events(session: Seq<char>, data: Json) -> Seq<EventV> {
    match json::member(data, "chunk"@) {
        None => Seq::empty(),
        Some(chunk) => {
            let kind = json::string_member(chunk, "type"@);
            if kind == Some("text-delta"@) {
                seq![UiEvent::TextDelta { session, text: json::text_member(chunk, "text"@) }]
            } else if kind == Some("reasoning-delta"@) {
                seq![UiEvent::ReasoningDelta { session, text: json::text_member(chunk, "text"@) }]
            } else if kind == Some("block-start"@) && json::string_member(chunk, "blockType"@)
                == Some("tool-call"@) {
                seq![UiEvent::ToolCallPreparing { session }]
            } else if kind == Some("usage"@) {
                let usage = or_null(json::member(chunk, "usage"@));
                seq![
                    UiEvent::Usage {
                        session,
                        input: or_zero(json::number_in(json::member(usage, "inputTokens"@))),
                        output: or_zero(json::number_in(json::member(usage, "outputTokens"@))),
                        cached: or_zero(
                            json::or_else(
                                json::or_else(
                                    json::number_in(json::member(usage, "cacheReadTokens"@)),
                                    json::number_in(json::member(usage, "cachedInputTokens"@)),
                                ),
                                json::number_in(json::member(usage, "cacheReadInputTokens"@)),
                            ),
                        ),
                        reasoning: or_zero(json::number_in(json::member(usage, "reasoningTokens"@))),
                    },
                ]
            } else {
                Seq::empty()
            }
        },
    }
}

fn parse_assistant_chunk(session: String, data: &JsonValue) -> (r: Vec<UiEvent>)
    ensures
        events_view(r@) == chunk_events(session@, data@),
{
    let chunk = match json::get(data, "chunk") {
        Some(c) => c,
        None => return none(),
    };
    let kind = json::get_str(chunk, "type");
    if text::opt_is(kind, "text-delta") {
        return one(UiEvent::TextDelta { session, text: json::str_field(chunk, "text") });
    }
    if text::opt_is(kind, "reasoning-delta") {
        return one(UiEvent::ReasoningDelta { session, text: json::str_field(chunk, "text") });
    }
    if text::opt_is(kind, "block-start") && text::opt_is(
        json::get_str(chunk, "blockType"),
        "tool-call",
    ) {
        return one(UiEvent::ToolCallPreparing { session });
    }
    if text::opt_is(kind, "usage") {
        let null = JsonValue::Null;
        let usage = match json::get(chunk, "usage") {
            Some(u) => u,
            None => &null,
        };
        let cached: u64 = match json::u64_field(usage, "cacheReadTokens") {
            Some(n) => n,
            None => match json::u64_field(usage, "cachedInputTokens") {
                Some(n) => n,
                None => u64_or_zero(usage, "cacheReadInputTokens"),
            },
        };
        return one(
            UiEvent::Usage {
                session,
                input: u64_or_zero(usage, "inputTokens"),
                output: u64_or_zero(usage, "outputTokens"),
                cached,
                reasoning: u64_or_zero(usage, "reasoningTokens"),
            },
        );
    }
    none()
}

pub open spec fn is_tool_result(b: Json) -> bool {
    json::string_member(b, "type"@) == Some("tool-result"@)
}

pub open spec fn result_blocks(blocks: Seq<Json>) -> Seq<Json>
    decreases blocks.len(),
{
    if blocks.len() == 0 {
        Seq::empty()
    } else if is_tool_result(blocks.last()) {
        result_blocks(blocks.drop_last()).push(blocks.last())
    } else {
        result_blocks(blocks.drop_last())
    }
}

pub open spec fn flags_error(b: Json) -> bool {
    json::bool_in(json::member(b, "isError"@)) == Some(true)
}

pub open spec fn result_text(b: Json) -> Seq<char> {
    content_text(or_null(json::member(b, "content"@)))
}

/// The error that a tool result reports beside its content.
pub open spec fn reported_error(data: Json) -> Option<Seq<char>> {
    match json::member(data, "error"@) {
        None => None,
        Some(Json::Null) => None,
        Some(err) => Some(
            json::text_member(err, "name"@) + " ("@ + (match json::member(err, "code"@) {
                Some(Json::Str(s)) => s,
                Some(Json::Number(n)) => json::printed_number(n),
                _ => Seq::empty(),
            }) + ")"@,
        ),
    }
}

pub open spec fn any_flags_error(blocks: Seq<Json>) -> bool {
    exists|i: int| 0 <= i < blocks.len() && flags_error(#[trigger] blocks[i])
}

/// The result blocks of a tool message.
pub open spec fn tool_blocks(data: Json) -> Seq<Json> {
    match json::array_in(json::member_of(json::member(data, "message"@), "content"@)) {
        Some(blocks) => result_blocks(blocks),
        None => Seq::empty(),
    }
}

/// A tool result: the texts of its result blocks on lines of their own, the
/// call of the first of them, and an error if any block or the report says so.
pub open spec fn tool_log_event(session: Seq<char>, data: Json) -> EventV {
    let blocks = tool_blocks(data);
    UiEvent::ToolResult {
        session,
        call_id: if blocks.len() > 0 {
            json::text_member(blocks[0], "toolCallId"@)
        } else {
            Seq::empty()
        },
        is_error: any_flags_error(blocks) || reported_error(data) is Some,
        text: text::joined(blocks.map_values(|b: Json| result_text(b)), "\n"@),
        error: reported_error(data),
    }
}

fn tool_report(data: &JsonValue) -> (r: Option<String>)
    ensures
        text::opt_view(r) == reported_error(data@),
{
    let err = match json::get(data, "error") {
        Some(e) => e,
        None => return None,
    };
    if json::is_null(err) {
        return None;
    }
    let name = json::str_field(err, "name");
    let code = match json::get(err, "code") {
        Some(JsonValue::Str(s)) => s.clone(),
        Some(JsonValue::Number(n)) => json::number_text(n),
        _ => text::empty(),
    };
    let head = text::concat3(name.as_str(), " (", code.as_str());
    Some(text::concat2(head.as_str(), ")"))
}

fn parse_tool_result(session: String, data: &JsonValue) -> (r: Vec<UiEvent>)
    ensures
        events_view(r@) == seq![tool_log_event(session@, data@)],
{
    let mut is_error = false;
    let mut call_id = text::empty();
    let mut texts: Vec<String> = Vec::new();
    let content = json::as_array(json::get_in(json::get(data, "message"), "content"));
    let ghost found = tool_blocks(data@);
    if let Some(blocks) = content {
        let ghost all = json::seen_all(blocks@);
        let mut i: usize = 0;
        assert(all.take(0) =~= Seq::empty());
        while i < blocks.len()
            invariant
                i <= blocks@.len(),
                all == json::seen_all(blocks@),
                texts@.len() == result_blocks(all.take(i as int)).len(),
                forall|k: int|
                    0 <= k < texts@.len() ==> (#[trigger] texts@[k])@ == result_text(
                        result_blocks(all.take(i as int))[k],
                    ),
                call_id@ == (if texts@.len() > 0 {
                    json::text_member(result_blocks(all.take(i as int))[0], "toolCallId"@)
                } else {
                    Seq::empty()
                }),
                is_error == any_flags_error(result_blocks(all.take(i as int))),
            decreases blocks@.len() - i,
        {
            let block = &blocks[i];
            let ghost before = result_blocks(all.take(i as int));
            let ghost after = result_blocks(all.take(i as int + 1));
            assert(all.take(i as int + 1).drop_last() =~= all.take(i as int));
            assert(all.take(i as int + 1).last() == block@);
            if text::opt_is(json::get_str(block, "type"), "tool-result") {
                assert(after == before.push(block@));
                assert(after.last() == block@);
                assert(forall|k: int| 0 <= k < before.len() ==> after[k] == before[k]);
                let flag = match json::as_bool(json::get(block, "isError")) {
                    Some(b) => b,
                    None => false,
                };
                assert(flag == flags_error(block@));
                if flag {
                    is_error = true;
                    assert(flags_error(after[before.len() as int]));
                }
                if texts.len() == 0 {
                    call_id = json::str_field(block, "toolCallId");
                }
                texts.push(concat_text_blocks(json::get(block, "content")));
                assert(is_error == any_flags_error(after)) by {
                    if any_flags_error(before) {
                        let k = choose|k: int|
                            0 <= k < before.len() && flags_error(#[trigger] before[k]);
                        assert(flags_error(after[k]));
                    }
                    if any_flags_error(after) {
                        let k = choose|k: int|
                            0 <= k < after.len() && flags_error(#[trigger] after[k]);
                        if k < before.len() {
                            assert(flags_error(before[k]));
                        }
                    }
                }
            } else {
                assert(after == before);
            }
            i = i + 1;
        }
        assert(all.take(i as int) =~= all);
        assert(found == result_blocks(all));
    }
    assert(text::views(texts@) =~= found.map_values(|b: Json| result_text(b)));
    let error = tool_report(data);
    if error.is_some() {
        is_error = true;
    }
    let text = text::join(&texts, "\n");
    one(UiEvent::ToolResult { session, call_id, is_error, text, error })
}

/// A message put into the log by something other than the user.
pub open spec fn injected_events(session: Seq<char>, data: Json) -> Seq<EventV> {
    match json::string_in(json::member_of(json::member(data, "source"@), "kind"@)) {
        None => Seq::empty(),
        Some(kind) => if kind == "user"@ {
            Seq::empty()
        } else {
            seq![
                UiEvent::UserInjected {
                    session,
                    source: kind,
                    preview: text::first_chars(
                        content_text(or_null(json::member(data, "content"@))),
                        160,
                    ),
                },
            ]
        },
    }
}

fn parse_user_message(session: String, data: &JsonValue) -> (r: Vec<UiEvent>)
    ensures
        events_view(r@) == injected_events(session@, data@),
{
    let kind = match json::as_str(json::get_in(json::get(data, "source"), "kind")) {
        Some(k) => k,
        None => return none(),
    };
    if text::same(kind, "user") {
        return none();
    }
    let full = concat_text_blocks(json::get(data, "content"));
    let preview = text::take_chars(full.as_str(), 160);
    one(UiEvent::UserInjected { session, source: kind.to_owned(), preview })
}

/// The outcome of an approval: a string, or the kind of an object.
pub open spec fn approval_outcome(data: Json) -> Seq<char> {
    match json::member(data, "outcome"@) {
        Some(Json::Str(s)) => s,
        outcome => text::text_or(json::string_in(json::member_of(outcome, "kind"@)), "decided"@),
    }
}

pub open spec fn final_message(session: Seq<char>, data: Json) -> EventV {
    let msg = match json::member(data, "message"@) {
        Some(m) => m,
        None => data,
    };
    UiEvent::AssistantFinal {
        session,
        text: content_text(or_null(json::member(msg, "content"@))),
        model: json::string_in(json::member_of(json::member(msg, "source"@), "model"@)),
    }
}

/// The events that one entry of the session log stands for.
pub open spec fn log_events(params: Json) -> Seq<EventV> {
    let session = json::text_member(params, "sessionId"@);
    match json::member(params, "event"@) {
        None => Seq::empty(),
        Some(event) => match json::string_member(event, "type"@) {
            None => Seq::empty(),
            Some(kind) => {
                let data = or_null(json::member(event, "data"@));
                log_entry_events(session, kind, data)
            },
        },
    }
}

pub open spec fn log_entry_events(session: Seq<char>, kind: Seq<char>, data: Json) -> Seq<EventV> {
    if kind == "turn/start"@ {
        seq![
            UiEvent::TurnStart {
                session,
                turn: or_zero(json::number_in(json::member(data, "turn"@))),
            },
        ]
    } else if kind == "turn/end"@ {
        seq![
            UiEvent::TurnEnd {
                session,
                kind: text::text_or(
                    json::string_in(json::member_of(json::member(data, "reason"@), "kind"@)),
                    "unknown"@,
                ),
            },
        ]
    } else if kind == "assistant/chunk"@ {
        chunk_events(session, data)
    } else if kind == "plan/mode"@ {
        match json::bool_in(json::member(data, "active"@)) {
            Some(active) => seq![UiEvent::PlanMode { session, active }],
            None => Seq::empty(),
        }
    } else if kind == "sandbox/mode"@ {
        match json::string_member(data, "mode"@) {
            Some(mode) => seq![UiEvent::SandboxMode { session, mode }],
            None => Seq::empty(),
        }
    } else if kind == "approval/policy"@ {
        match json::string_member(data, "policy"@) {
            Some(policy) => seq![UiEvent::ApprovalPolicy { session, policy }],
            None => Seq::empty(),
        }
    } else if kind == "permission/preset"@ {
        match json::string_member(data, "preset"@) {
            Some(preset) => seq![UiEvent::PermissionPreset { session, preset }],
            None => Seq::empty(),
        }
    } else if kind == "agent-preset/selected"@ {
        match json::string_member(data, "agentPreset"@) {
            Some(preset) => seq![UiEvent::AgentPreset { session, preset }],
            None => Seq::empty(),
        }
    } else if kind == "approval/asked"@ {
        seq![
            UiEvent::ApprovalAsked {
                session,
                tool: text::text_or(json::string_member(data, "toolName"@), "tool"@),
                reason: json::string_member(data, "reason"@),
            },
        ]
    } else if kind == "approval/decided"@ {
        seq![UiEvent::ApprovalDecided { session, outcome: approval_outcome(data) }]
    } else if kind == "assistant/message"@ {
        seq![final_message(session, data)]
    } else if kind == "tool/call"@ {
        seq![
            UiEvent::ToolCall {
                session,
                call_id: json::text_member(data, "callId"@),
                name: json::text_member(data, "name"@),
                arguments: json::text_member(data, "arguments"@),
            },
        ]
    } else if kind == "tool/result"@ {
        seq![tool_log_event(session, data)]
    } else if kind == "user/message"@ {
        injected_events(session, data)
    } else {
        Seq::empty()
    }
}

fn approval_outcome_of(data: &JsonValue) -> (r: String)
    ensures
        r@ == approval_outcome(data@),
{
    let outcome = json::get(data, "outcome");
    match json::as_str(outcome) {
        Some(s) => s.to_owned(),
        None => text::owned_or(json::as_str(json::get_in(outcome, "kind")), "decided"),
    }
}

fn parse_final_message(session: String, data: &JsonValue) -> (r: UiEvent)
    ensures
        r@ == final_message(session@, data@),
{
    let msg = match json::get(data, "message") {
        Some(m) => m,
        None => data,
    };
    UiEvent::AssistantFinal {
        session,
        text: concat_text_blocks(json::get(msg, "content")),
        model: text::opt_owned(json::as_str(json::get_in(json::get(msg, "source"), "model"))),
    }
}

fn parse_session_event(params: &JsonValue) -> (r: Vec<UiEvent>)
    ensures
        events_view(r@) == log_events(params@),
{
    let session = json::str_field(params, "sessionId");
    let event = match json::get(params, "event") {
        Some(e) => e,
        None => return none(),
    };
    let kind = match json::get_str(event, "type") {
        Some(t) => t,
        None => return none(),
    };
    let null = JsonValue::Null;
    let data = match json::get(event, "data") {
        Some(d) => d,
        None => &null,
    };
    parse_log_entry(session, kind, data)
}

fn parse_log_entry(session: String, kind: &str, data: &JsonValue) -> (r: Vec<UiEvent>)
    ensures
        events_view(r@) == log_entry_events(session@, kind@, data@),
{
    if text::same(kind, "turn/start") {
        return one(UiEvent::TurnStart { session, turn: u64_or_zero(data, "turn") });
    }
    if text::same(kind, "turn/end") {
        let reason = json::as_str(json::get_in(json::get(data, "reason"), "kind"));
        return one(UiEvent::TurnEnd { session, kind: text::owned_or(reason, "unknown") });
    }
    if text::same(kind, "assistant/chunk") {
        return parse_assistant_chunk(session, data);
    }
    if text::same(kind, "plan/mode") {
        return match json::as_bool(json::get(data, "active")) {
            Some(active) => one(UiEvent::PlanMode { session, active }),
            None => none(),
        };
    }
    if text::same(kind, "sandbox/mode") {
        return match json::get_str(data, "mode") {
            Some(mode) => one(UiEvent::SandboxMode { session, mode: mode.to_owned() }),
            None => none(),
        };
    }
    if text::same(kind, "approval/policy") {
        return match json::get_str(data, "policy") {
            Some(policy) => one(UiEvent::ApprovalPolicy { session, policy: policy.to_owned() }),
            None => none(),
        };
    }
    if text::same(kind, "permission/preset") {
        return match json::get_str(data, "preset") {
            Some(preset) => one(UiEvent::PermissionPreset { session, preset: preset.to_owned() }),
            None => none(),
        };
    }
    if text::same(kind, "agent-preset/selected") {
        return match json::get_str(data, "agentPreset") {
            Some(preset) => one(UiEvent::AgentPreset { session, preset: preset.to_owned() }),
            None => none(),
        };
    }
    if text::same(kind, "approval/asked") {
        return one(
            UiEvent::ApprovalAsked {
                session,
                tool: text::owned_or(json::get_str(data, "toolName"), "tool"),
                reason: text::opt_owned(json::get_str(data, "reason")),
            },
        );
    }
    if text::same(kind, "approval/decided") {
        return one(UiEvent::ApprovalDecided { session, outcome: approval_outcome_of(data) });
    }
    if text::same(kind, "assistant/message") {
        return one(parse_final_message(session, data));
    }
    if text::same(kind, "tool/call") {
        return one(
            UiEvent::ToolCall {
                session,
                call_id: json::str_field(data, "callId"),
                name: json::str_field(data, "name"),
                arguments: json::str_field(data, "arguments"),
            },
        );
    }
    if text::same(kind, "tool/result") {
        return parse_tool_result(session, data);
    }
    if text::same(kind, "user/message") {
        return parse_user_message(session, data);
    }
    none()
}

// --- session updates --------------------------------------------------------------

pub open spec fn dsh_meta(update: Json) -> Option<Json> {
    json::member_of(json::member(update, "_meta"@), "dsh"@)
}

/// The adapter metadata, if it marks an event of this name.
pub open spec fn dsh_event(update: Json, name: Seq<char>) -> Option<Json> {
    if json::string_in(json::member_of(dsh_meta(update), "event"@)) == Some(name) {
        dsh_meta(update)
    } else {
        None
    }
}

fn get_dsh<'a>(update: &'a JsonValue) -> (r: Option<&'a JsonValue>)
    ensures
        json::seen(r) == dsh_meta(update@),
{
    json::get_in(json::get(update, "_meta"), "dsh")
}

fn get_dsh_event<'a>(update: &'a JsonValue, name: &str) -> (r: Option<&'a JsonValue>)
    ensures
        json::seen(r) == dsh_event(update@, name@),
{
    let dsh = get_dsh(update);
    if text::opt_is(json::as_str(json::get_in(dsh, "event")), name) {
        dsh
    } else {
        None
    }
}

pub open spec fn message_chunk_events(session: Seq<char>, update: Json) -> Seq<EventV> {
    let text = acp_text(json::member(update, "content"@));
    maybe(
        if text.len() == 0 {
            None
        } else {
            Some(UiEvent::TextDelta { session, text })
        },
    ) + maybe(
        match dsh_event(update, "assistant_message"@) {
            Some(dsh) => Some(
                UiEvent::AssistantFinal {
                    session,
                    text: Seq::empty(),
                    model: json::string_member(dsh, "model"@),
                },
            ),
            None => None,
        },
    )
}

fn parse_message_chunk(session: String, update: &JsonValue) -> (r: Vec<UiEvent>)
    ensures
        events_view(r@) == message_chunk_events(session@, update@),
{
    let text = acp_text_content(json::get(update, "content"));
    let mut events = none();
    if !text.as_str().is_empty() {
        add_event(&mut events, UiEvent::TextDelta { session: session.clone(), text });
    }
    if let Some(dsh) = get_dsh_event(update, "assistant_message") {
        add_event(
            &mut events,
            UiEvent::AssistantFinal {
                session,
                text: text::empty(),
                model: text::opt_owned(json::get_str(dsh, "model")),
            },
        );
    }
    assert(events_view(events@) =~= message_chunk_events(session@, update@));
    events
}

/// The failure that an adapter reports in a session info update; one without
/// a title says nothing.
pub open spec fn session_failure(session: Seq<char>, update: Json) -> Option<EventV> {
    match json::member_of(
        json::member_of(json::member_of(json::member(update, "_meta"@), "jetbrains"@), "air"@),
        "sessionFailure"@,
    ) {
        None => None,
        Some(failure) => {
            let title = text::trimmed(json::text_member(failure, "title"@));
            let details = match json::string_member(failure, "details"@) {
                Some(d) => Some(text::trimmed(d)),
                None => None,
            };
            if title.len() == 0 {
                None
            } else {
                Some(
                    UiEvent::SessionNotice {
                        session,
                        severity: text::text_or(json::string_member(failure, "severity"@), "error"@),
                        title,
                        details: if details is Some && details->0.len() > 0 {
                            details
                        } else {
                            None
                        },
                    },
                )
            }
        },
    }
}

pub open spec fn opt_event_view(e: Option<UiEvent>) -> Option<EventV> {
    match e {
        Some(e) => Some(e@),
        None => None,
    }
}

fn parse_session_failure(session: &String, update: &JsonValue) -> (r: Option<UiEvent>)
    ensures
        opt_event_view(r) == session_failure(session@, update@),
{
    let jetbrains = json::get_in(json::get(update, "_meta"), "jetbrains");
    let failure = match json::get_in(json::get_in(jetbrains, "air"), "sessionFailure") {
        Some(f) => f,
        None => return None,
    };
    let raw = json::str_field(failure, "title");
    let title = text::trim(raw.as_str());
    if title.as_str().is_empty() {
        return None;
    }
    let details = match json::get_str(failure, "details") {
        Some(d) => {
            let d = text::trim(d);
            if d.as_str().is_empty() {
                None
            } else {
                Some(d)
            }
        },
        None => None,
    };
    Some(
        UiEvent::SessionNotice {
            session: session.clone(),
            severity: text::owned_or(json::get_str(failure, "severity"), "error"),
            title,
            details,
        },
    )
}

/// The sum of two token counts, at most the largest count there is.
pub open spec fn tokens_sum(a: u64, b: u64) -> u64 {
    if a + b <= u64::MAX {
        (a + b) as u64
    } else {
        u64::MAX
    }
}

pub open spec fn usage_event(session: Seq<char>, usage: Json) -> EventV {
    UiEvent::Usage {
        session,
        input: or_zero(json::number_in(json::member(usage, "inputTokens"@))),
        output: or_zero(json::number_in(json::member(usage, "outputTokens"@))),
        cached: tokens_sum(
            or_zero(json::number_in(json::member(usage, "cachedReadTokens"@))),
            or_zero(json::number_in(json::member(usage, "cachedWriteTokens"@))),
        ),
        reasoning: or_zero(json::number_in(json::member(usage, "thoughtTokens"@))),
    }
}

/// What is told of a subagent; of one that is not named, nothing is.
pub open spec fn lifecycle_events(root: Seq<char>, subagent: Json) -> Seq<EventV> {
    let state = json::string_member(subagent, "state"@);
    match json::string_member(subagent, "childSessionId"@) {
        None => Seq::empty(),
        Some(child) => if state == Some("started"@) {
            seq![UiEvent::SubagentStarted { parent: root, child }]
        } else if state == Some("finished"@) {
            seq![
                UiEvent::SubagentFinished {
                    child,
                    failed: json::string_member(subagent, "stopReason"@) != Some("completed"@),
                },
            ]
        } else {
            Seq::empty()
        },
    }
}

/// What a session info update says. A reported failure comes before the
/// adapter events, these before a title.
pub open spec fn info_events(root: Seq<char>, session: Seq<char>, update: Json) -> Seq<EventV> {
    let failure = session_failure(session, update);
    let subagent = json::member_of(dsh_event(update, "subagent/lifecycle"@), "subagent"@);
    let usage = json::member_of(dsh_event(update, "prompt/usage"@), "usage"@);
    let injected = dsh_event(update, "user/message"@);
    let title = text::trimmed(json::text_member(update, "title"@));
    if failure is Some {
        seq![failure->0]
    } else if subagent is Some {
        lifecycle_events(root, subagent->0)
    } else if usage is Some {
        seq![usage_event(session, usage->0)]
    } else if injected is Some {
        seq![
            UiEvent::UserInjected {
                session,
                source: json::text_member(injected->0, "source"@),
                preview: json::text_member(injected->0, "preview"@),
            },
        ]
    } else if title.len() == 0 {
        Seq::empty()
    } else {
        seq![UiEvent::SessionTitle { session, title }]
    }
}

fn parse_lifecycle(root: String, subagent: &JsonValue) -> (r: Vec<UiEvent>)
    ensures
        events_view(r@) == lifecycle_events(root@, subagent@),
{
    let child = match json::get_str(subagent, "childSessionId") {
        Some(child) => child.to_owned(),
        None => return none(),
    };
    let state = json::get_str(subagent, "state");
    if text::opt_is(state, "started") {
        return one(UiEvent::SubagentStarted { parent: root, child });
    }
    if text::opt_is(state, "finished") {
        let failed = !text::opt_is(json::get_str(subagent, "stopReason"), "completed");
        return one(UiEvent::SubagentFinished { child, failed });
    }
    none()
}

fn parse_info_update(root: String, session: String, update: &JsonValue) -> (r: Vec<UiEvent>)
    ensures
        events_view(r@) == info_events(root@, session@, update@),
{
    if let Some(failure) = parse_session_failure(&session, update) {
        return one(failure);
    }
    if let Some(subagent) = json::get_in(get_dsh_event(update, "subagent/lifecycle"), "subagent") {
        return parse_lifecycle(root, subagent);
    }
    if let Some(usage) = json::get_in(get_dsh_event(update, "prompt/usage"), "usage") {
        let read: u64 = u64_or_zero(usage, "cachedReadTokens");
        let write: u64 = u64_or_zero(usage, "cachedWriteTokens");
        return one(
            UiEvent::Usage {
                session,
                input: u64_or_zero(usage, "inputTokens"),
                output: u64_or_zero(usage, "outputTokens"),
                cached: read.saturating_add(write),
                reasoning: u64_or_zero(usage, "thoughtTokens"),
            },
        );
    }
    if let Some(dsh) = get_dsh_event(update, "user/message") {
        return one(
            UiEvent::UserInjected {
                session,
                source: json::str_field(dsh, "source"),
                preview: json::str_field(dsh, "preview"),
            },
        );
    }
    let raw = json::str_field(update, "title");
    let title = text::trim(raw.as_str());
    if title.as_str().is_empty() {
        none()
    } else {
        one(UiEvent::SessionTitle { session, title })
    }
}

pub open spec fn update_subagent(update: Json) -> Option<Json> {
    json::member_of(dsh_meta(update), "subagent"@)
}

pub open spec fn update_body(params: Json) -> Json {
    match json::member(params, "update"@) {
        Some(u) => u,
        None => params,
    }
}

/// The session that an update belongs to: the child named by a subagent, else
/// the session of the notification.
pub open spec fn update_session(params: Json) -> Seq<char> {
    text::text_or(
        json::string_in(json::member_of(update_subagent(update_body(params)), "childSessionId"@)),
        json::text_member(params, "sessionId"@),
    )
}

pub open spec fn tool_update_events(session: Seq<char>, update: Json) -> Seq<EventV> {
    let status = status_of(update);
    if status == "completed"@ || status == "failed"@ {
        tool_result_of(session, update)
    } else if (status == "pending"@ || status == "in_progress"@) && (json::member(
        update,
        "rawInput"@,
    ) is Some || json::member(update, "raw_input"@) is Some || json::member(
        update,
        "title"@,
    ) is Some) {
        seq![tool_call_of(session, update)]
    } else {
        Seq::empty()
    }
}

pub open spec fn mode_events(session: Seq<char>, update: Json) -> Seq<EventV> {
    let mode = first_text(update, seq!["currentModeId"@, "current_mode_id"@]);
    if mode.len() == 0 {
        Seq::empty()
    } else {
        seq![
            UiEvent::PermissionPreset { session, preset: mode },
            UiEvent::SandboxMode { session, mode },
        ]
    }
}

/// The events of one `session/update`.
pub open spec fn update_events(params: Json) -> Seq<EventV> {
    let root = json::text_member(params, "sessionId"@);
    let update = update_body(params);
    let session = update_session(params);
    let kind = json::text_member(update, "sessionUpdate"@);
    let subagent_state = json::string_in(json::member_of(update_subagent(update), "state"@));
    let text = acp_text(json::member(update, "content"@));
    if kind == "agent_message_chunk"@ {
        message_chunk_events(session, update)
    } else if kind == "agent_thought_chunk"@ {
        if text.len() == 0 {
            Seq::empty()
        } else {
            seq![UiEvent::ReasoningDelta { session, text }]
        }
    } else if kind == "user_message_chunk"@ {
        if text.len() == 0 {
            Seq::empty()
        } else {
            seq![UiEvent::UserMessage { session, text }]
        }
    } else if kind == "session_info_update"@ {
        info_events(root, session, update)
    } else if kind == "plan"@ || kind == "plan_update"@ {
        if plan_text(update).len() == 0 && json::array_in(json::member(update, "entries"@)) is None {
            Seq::empty()
        } else {
            seq![UiEvent::Plan { session, summary: plan_text(update) }]
        }
    } else if kind == "plan_removed"@ {
        seq![UiEvent::Plan { session, summary: Seq::empty() }]
    } else if kind == "tool_call"@ && subagent_state == Some("started"@) {
        seq![
            tool_call_of(root, update),
            UiEvent::SubagentStarted { parent: root, child: session },
        ]
    } else if kind == "tool_call"@ {
        seq![tool_call_of(session, update)]
    } else if kind == "tool_call_update"@ && subagent_state == Some("finished"@) {
        tool_result_of(root, update).push(
            UiEvent::SubagentFinished {
                child: session,
                failed: json::string_member(update, "status"@) == Some("failed"@),
            },
        )
    } else if kind == "tool_call_update"@ {
        tool_update_events(session, update)
    } else if kind == "current_mode_update"@ {
        mode_events(session, update)
    } else if kind == "config_option_update"@ {
        match json::or_else(
            json::member(update, "configOptions"@),
            json::member(update, "config_options"@),
        ) {
            Some(options) => config_events(session, options),
            None => Seq::empty(),
        }
    } else {
        Seq::empty()
    }
}

fn parse_session_update(params: &JsonValue) -> (r: Vec<UiEvent>)
    ensures
        events_view(r@) == update_events(params@),
{
    let root = json::str_field(params, "sessionId");
    let update = match json::get(params, "update") {
        Some(u) => u,
        None => params,
    };
    let subagent = json::get_in(get_dsh(update), "subagent");
    let session = text::owned_or(
        json::as_str(json::get_in(subagent, "childSessionId")),
        root.as_str(),
    );
    let state = json::as_str(json::get_in(subagent, "state"));
    let kind_text = json::str_field(update, "sessionUpdate");
    let kind = kind_text.as_str();
    if text::same(kind, "agent_message_chunk") {
        return parse_message_chunk(session, update);
    }
    if text::same(kind, "agent_thought_chunk") {
        let text = acp_text_content(json::get(update, "content"));
        return if text.as_str().is_empty() {
            none()
        } else {
            one(UiEvent::ReasoningDelta { session, text })
        };
    }
    if text::same(kind, "user_message_chunk") {
        let text = acp_text_content(json::get(update, "content"));
        return if text.as_str().is_empty() {
            none()
        } else {
            one(UiEvent::UserMessage { session, text })
        };
    }
    if text::same(kind, "session_info_update") {
        return parse_info_update(root, session, update);
    }
    if text::same(kind, "plan") || text::same(kind, "plan_update") {
        let summary = plan_summary(update);
        let listed = json::as_array(json::get(update, "entries")).is_some();
        return if summary.as_str().is_empty() && !listed {
            none()
        } else {
            one(UiEvent::Plan { session, summary })
        };
    }
    if text::same(kind, "plan_removed") {
        return one(UiEvent::Plan { session, summary: text::empty() });
    }
    if text::same(kind, "tool_call") {
        if text::opt_is(state, "started") {
            let call = acp_tool_call(root.clone(), update);
            return two(call, UiEvent::SubagentStarted { parent: root, child: session });
        }
        return one(acp_tool_call(session, update));
    }
    if text::same(kind, "tool_call_update") {
        if text::opt_is(state, "finished") {
            let mut events = acp_tool_result(root, update);
            let failed = text::opt_is(json::get_str(update, "status"), "failed");
            add_event(&mut events, UiEvent::SubagentFinished { child: session, failed });
            return events;
        }
        let status = json::str_field(update, "status");
        if text::same(status.as_str(), "completed") || text::same(status.as_str(), "failed") {
            return acp_tool_result(session, update);
        }
        if (text::same(status.as_str(), "pending") || text::same(status.as_str(), "in_progress"))
            && (json::get(update, "rawInput").is_some() || json::get(update, "raw_input").is_some()
            || json::get(update, "title").is_some()) {
            return one(acp_tool_call(session, update));
        }
        return none();
    }
    if text::same(kind, "current_mode_update") {
        let mode = first_str2(update, "currentModeId", "current_mode_id");
        return if mode.as_str().is_empty() {
            none()
        } else {
            two(
                UiEvent::PermissionPreset { session: session.clone(), preset: mode.clone() },
                UiEvent::SandboxMode { session, mode },
            )
        };
    }
    if text::same(kind, "config_option_update") {
        return match json::get_either(update, "configOptions", "config_options") {
            Some(options) => config_option_events(session, options),
            None => none(),
        };
    }
    none()
}

/// The status a finished subagent reports.
pub open spec fn finished_status(params: Json) -> Option<Seq<char>> {
    json::string_in(
        json::or_else(json::member(params, "status"@), json::member(params, "stopReason"@)),
    )
}

/// The events of a notification. `palette` is what the palette decoder made of
/// the payload; it counts only under the method `theme_update`.
pub open spec fn notification_events(
    method: Seq<char>,
    params: Json,
    theme_update: Seq<char>,
    palette: Option<PaletteNotice<Seq<char>>>,
) -> Seq<EventV> {
    if method == "session.status"@ {
        match (json::string_member(params, "sessionId"@), json::string_member(params, "status"@)) {
            (Some(session), Some(status)) => seq![
                UiEvent::SessionStatus { session, running: status == "running"@ },
            ],
            _ => Seq::empty(),
        }
    } else if method == "subagent.started"@ {
        match (
            json::string_member(params, "parentSessionId"@),
            json::string_member(params, "childSessionId"@),
        ) {
            (Some(parent), Some(child)) => seq![UiEvent::SubagentStarted { parent, child }],
            _ => Seq::empty(),
        }
    } else if method == "subagent.finished"@ {
        match json::string_member(params, "childSessionId"@) {
            Some(child) => seq![
                UiEvent::SubagentFinished {
                    child,
                    failed: finished_status(params) == Some("failed"@),
                },
            ],
            None => Seq::empty(),
        }
    } else if method == "session.event"@ {
        log_events(params)
    } else if method == "session/update"@ {
        update_events(params)
    } else if method == theme_update {
        match palette {
            Some(n) => seq![UiEvent::Palette { pack: n.pack, activate: n.activate }],
            None => Seq::empty(),
        }
    } else {
        Seq::empty()
    }
}

pub open spec fn opt_palette_view(p: Option<PaletteNotice>) -> Option<PaletteNotice<Seq<char>>> {
    match p {
        Some(n) => Some(PaletteNotice { pack: n.pack@, activate: n.activate }),
        None => None,
    }
}

/// The events of a notification; an unknown method or a malformed payload
/// gives none.
pub fn parse_notification(
    method: &str,
    params: &JsonValue,
    theme_update: &str,
    palette: Option<PaletteNotice>,
) -> (r: Vec<UiEvent>)
    ensures
        events_view(r@) == notification_events(
            method@,
            params@,
            theme_update@,
            opt_palette_view(palette),
        ),
{
    if text::same(method, "session.status") {
        return match (json::get_str(params, "sessionId"), json::get_str(params, "status")) {
            (Some(session), Some(status)) => one(
                UiEvent::SessionStatus {
                    session: session.to_owned(),
                    running: text::same(status, "running"),
                },
            ),
            _ => none(),
        };
    }
    if text::same(method, "subagent.started") {
        return match (
            json::get_str(params, "parentSessionId"),
            json::get_str(params, "childSessionId"),
        ) {
            (Some(parent), Some(child)) => one(
                UiEvent::SubagentStarted { parent: parent.to_owned(), child: child.to_owned() },
            ),
            _ => none(),
        };
    }
    if text::same(method, "subagent.finished") {
        let status = json::as_str(json::get_either(params, "status", "stopReason"));
        return match json::get_str(params, "childSessionId") {
            Some(child) => one(
                UiEvent::SubagentFinished {
                    child: child.to_owned(),
                    failed: text::opt_is(status, "failed"),
                },
            ),
            None => none(),
        };
    }
    if text::same(method, "session.event") {
        return parse_session_event(params);
    }
    if text::same(method, "session/update") {
        return parse_session_update(params);
    }
    if text::same(method, theme_update) {
        return match palette {
            Some(n) => one(UiEvent::Palette { pack: n.pack, activate: n.activate }),
            None => none(),
        };
    }
    none()
}

} // verus!
