//! The fixed tables of the client and the small rules on names: slash
//! commands, stock presets, permission spellings, media types, plugin names.

use crate::bus::CatalogPreset;
use crate::picker::PickerItem;
use crate::text;
use vstd::prelude::*;

verus! {

#[derive(Debug, Clone, PartialEq, Eq)]
pub struct SlashCommand<S = String> {
    pub name: S,
    pub usage: S,
    pub desc: S,
}

impl View for SlashCommand {
    type V = SlashCommand<Seq<char>>;

    open spec fn view(&self) -> Self::V {
        SlashCommand { name: self.name@, usage: self.usage@, desc: self.desc@ }
    }
}

/// The commands of the client, in the order of the menu.
pub open spec fn slash_table() -> Seq<SlashCommand<Seq<char>>> {
    seq![
        SlashCommand { name: "agent"@, usage: "/agent [id]"@, desc: "switch agent preset · ctrl+shift+a"@ },
        SlashCommand { name: "auth"@, usage: "/auth [method|api-key]"@, desc: "ACP sign-in (Backchat authenticate)"@ },
        SlashCommand { name: "clear"@, usage: "/clear"@, desc: "clear the scrollback"@ },
        SlashCommand { name: "clip"@, usage: "/clip [text]"@, desc: "attach the clipboard image (macOS/Linux)"@ },
        SlashCommand { name: "close"@, usage: "/close"@, desc: "close the current session tab (last tab cannot close)"@ },
        SlashCommand { name: "cordis-plugins"@, usage: "/cordis-plugins"@, desc: "review or manage dynamic Cordis plugins"@ },
        SlashCommand { name: "effort"@, usage: "/effort [off|high|max]"@, desc: "reasoning effort for this session"@ },
        SlashCommand { name: "help"@, usage: "/help"@, desc: "show help and tips"@ },
        SlashCommand { name: "image"@, usage: "/image <path> [text]"@, desc: "send a local image (png/jpeg/webp/gif)"@ },
        SlashCommand { name: "keys"@, usage: "/keys"@, desc: "keyboard shortcuts"@ },
        SlashCommand { name: "lang"@, usage: "/lang [zh|en]"@, desc: "switch interface language"@ },
        SlashCommand { name: "liang"@, usage: "/liang [on|off]"@, desc: "召唤小难梁 — 🤫 idle · ⌨︎ working"@ },
        SlashCommand { name: "model"@, usage: "/model [id]"@, desc: "switch model · live over ACP"@ },
        SlashCommand { name: "new"@, usage: "/new [id]"@, desc: "start a fresh session"@ },
        SlashCommand { name: "permission"@, usage: "/permission [preset]"@, desc: "permission preset picker · shift+tab cycles"@ },
        SlashCommand { name: "plan"@, usage: "/plan [on|off]"@, desc: "toggle host plan mode"@ },
        SlashCommand { name: "plugins"@, usage: "/plugins"@, desc: "show Host plugin status (read-only)"@ },
        SlashCommand { name: "quit"@, usage: "/quit"@, desc: "exit martty"@ },
        SlashCommand { name: "resume"@, usage: "/resume [n|id]"@, desc: "list the n most recent sessions (default 50) · /resume <id> resumes it"@ },
        SlashCommand { name: "session"@, usage: "/session [view|prev|next]"@, desc: "show session info · prev/next switch session tab"@ },
        SlashCommand { name: "theme"@, usage: "/theme [id|toggle]"@, desc: "switch Theme Plugin or toggle dark/light"@ },
        SlashCommand { name: "ui"@, usage: "/ui [id]"@, desc: "switch UI Plugin"@ },
        SlashCommand { name: "vim"@, usage: "/vim [on|off]"@, desc: "toggle vim modal editing (default off)"@ },
    ]
}

pub open spec fn commands_view(v: Seq<SlashCommand>) -> Seq<SlashCommand<Seq<char>>> {
    v.map_values(|c: SlashCommand| c@)
}

fn command(name: &str, usage: &str, desc: &str) -> (r: SlashCommand)
    ensures
        r@ == (SlashCommand { name: name@, usage: usage@, desc: desc@ }),
{
    SlashCommand { name: name.to_owned(), usage: usage.to_owned(), desc: desc.to_owned() }
}

/// The commands of the client.
pub fn slash_commands() -> (r: Vec<SlashCommand>)
    ensures
        commands_view(r@) == slash_table(),
{
    let mut r: Vec<SlashCommand> = Vec::new();
    r.push(command("agent", "/agent [id]", "switch agent preset · ctrl+shift+a"));
    r.push(command("auth", "/auth [method|api-key]", "ACP sign-in (Backchat authenticate)"));
    r.push(command("clear", "/clear", "clear the scrollback"));
    r.push(command("clip", "/clip [text]", "attach the clipboard image (macOS/Linux)"));
    r.push(command("close", "/close", "close the current session tab (last tab cannot close)"));
    r.push(command("cordis-plugins", "/cordis-plugins", "review or manage dynamic Cordis plugins"));
    r.push(command("effort", "/effort [off|high|max]", "reasoning effort for this session"));
    r.push(command("help", "/help", "show help and tips"));
    r.push(command("image", "/image <path> [text]", "send a local image (png/jpeg/webp/gif)"));
    r.push(command("keys", "/keys", "keyboard shortcuts"));
    r.push(command("lang", "/lang [zh|en]", "switch interface language"));
    r.push(command("liang", "/liang [on|off]", "召唤小难梁 — 🤫 idle · ⌨︎ working"));
    r.push(command("model", "/model [id]", "switch model · live over ACP"));
    r.push(command("new", "/new [id]", "start a fresh session"));
    r.push(command("permission", "/permission [preset]", "permission preset picker · shift+tab cycles"));
    r.push(command("plan", "/plan [on|off]", "toggle host plan mode"));
    r.push(command("plugins", "/plugins", "show Host plugin status (read-only)"));
    r.push(command("quit", "/quit", "exit martty"));
    r.push(command("resume", "/resume [n|id]", "list the n most recent sessions (default 50) · /resume <id> resumes it"));
    r.push(command("session", "/session [view|prev|next]", "show session info · prev/next switch session tab"));
    r.push(command("theme", "/theme [id|toggle]", "switch Theme Plugin or toggle dark/light"));
    r.push(command("ui", "/ui [id]", "switch UI Plugin"));
    r.push(command("vim", "/vim [on|off]", "toggle vim modal editing (default off)"));
    assert(commands_view(r@) =~= slash_table());
    r
}

/// Whether a name is that of a command of the client.
pub open spec fn is_builtin(name: Seq<char>) -> bool {
    exists|i: int| 0 <= i < slash_table().len() && (#[trigger] slash_table()[i]).name == name
}

pub fn is_builtin_name(name: &str) -> (r: bool)
    ensures
        r == is_builtin(name@),
{
    let all = slash_commands();
    let mut i: usize = 0;
    while i < all.len()
        invariant
            i <= all@.len(),
            commands_view(all@) == slash_table(),
            forall|k: int| 0 <= k < i ==> (#[trigger] slash_table()[k]).name != name@,
        decreases all@.len() - i,
    {
        assert(commands_view(all@)[i as int] == all@[i as int]@);
        if text::same(all[i].name.as_str(), name) {
            assert(slash_table()[i as int].name == name@);
            return true;
        }
        i = i + 1;
    }
    false
}

/// A stock choice: id, label and what it means.
pub type Stock = (Seq<char>, Seq<char>, Seq<char>);

pub open spec fn stock_view(v: Seq<(String, String, String)>) -> Seq<Stock> {
    v.map_values(|s: (String, String, String)| (s.0@, s.1@, s.2@))
}

fn stock(id: &str, label: &str, desc: &str) -> (r: (String, String, String))
    ensures
        (r.0@, r.1@, r.2@) == (id@, label@, desc@),
{
    (id.to_owned(), label.to_owned(), desc.to_owned())
}

/// The agent presets offered before an agent has told its own.
pub open spec fn agent_mode_table() -> Seq<Stock> {
    seq![
        ("standard"@, "Standard mode"@, "full coding agent · files, shell, search, skills, subagents"@),
        ("code"@, "Code mode"@, "standard tools driven from one TypeScript program"@),
        ("minimal"@, "Minimal mode"@, "two tools · persistent bash + str_replace_editor"@),
        ("cordis"@, "Creator mode"@, "standard + runtime inspection and preset authoring"@),
    ]
}

pub fn agent_modes() -> (r: Vec<(String, String, String)>)
    ensures
        stock_view(r@) == agent_mode_table(),
{
    let mut r: Vec<(String, String, String)> = Vec::new();
    r.push(stock("standard", "Standard mode", "full coding agent · files, shell, search, skills, subagents"));
    r.push(stock("code", "Code mode", "standard tools driven from one TypeScript program"));
    r.push(stock("minimal", "Minimal mode", "two tools · persistent bash + str_replace_editor"));
    r.push(stock("cordis", "Creator mode", "standard + runtime inspection and preset authoring"));
    assert(stock_view(r@) =~= agent_mode_table());
    r
}

/// The models offered before an agent has told its own.
pub open spec fn model_table() -> Seq<Seq<char>> {
    seq!["deepseek-v4-flash"@, "deepseek-v4"@, "deepseek-v3.2"@, "deepseek-chat"@, "deepseek-reasoner"@]
}

pub fn model_presets() -> (r: Vec<String>)
    ensures
        text::views(r@) == model_table(),
{
    let mut r: Vec<String> = Vec::new();
    r.push("deepseek-v4-flash".to_owned());
    r.push("deepseek-v4".to_owned());
    r.push("deepseek-v3.2".to_owned());
    r.push("deepseek-chat".to_owned());
    r.push("deepseek-reasoner".to_owned());
    assert(text::views(r@) =~= model_table());
    r
}

/// The stock permission presets and what they mean.
pub open spec fn permission_table() -> Seq<(Seq<char>, Seq<char>)> {
    seq![
        ("read-only"@, "read only — no file writes"@),
        ("workspace-write"@, "write inside the workspace · wider actions ask for approval"@),
        ("danger-full-access"@, "full file access · approval prompts off — trusted dirs only"@),
    ]
}

pub fn permission_presets() -> (r: Vec<(String, String)>)
    ensures
        crate::bus::pairs_view(r@) == permission_table(),
{
    let mut r: Vec<(String, String)> = Vec::new();
    r.push(("read-only".to_owned(), "read only — no file writes".to_owned()));
    r.push(("workspace-write".to_owned(), "write inside the workspace · wider actions ask for approval".to_owned()));
    r.push(("danger-full-access".to_owned(), "full file access · approval prompts off — trusted dirs only".to_owned()));
    assert(crate::bus::pairs_view(r@) =~= permission_table());
    r
}

/// The stock permission preset that a spelling means.
pub open spec fn permission_meant(arg: Seq<char>) -> Option<Seq<char>> {
    let a = text::ascii_lower(text::trimmed(arg));
    if a == "read-only"@ || a == "readonly"@ || a == "read"@ || a == "ro"@ {
        Some("read-only"@)
    } else if a == "workspace-write"@ || a == "workspace"@ || a == "write"@ || a == "ws"@ || a
        == "safe"@ || a == "sandbox"@ {
        Some("workspace-write"@)
    } else if a == "danger-full-access"@ || a == "full-access"@ || a == "full"@ || a == "danger"@
        || a == "yolo"@ {
        Some("danger-full-access"@)
    } else {
        None
    }
}

pub fn normalize_permission(arg: &str) -> (r: Option<&'static str>)
    ensures
        text::opt_str_view(r) == permission_meant(arg@),
{
    let t = text::trim(arg);
    let lower = text::to_ascii_lowercase(t.as_str());
    let a = lower.as_str();
    if text::same(a, "read-only") || text::same(a, "readonly") || text::same(a, "read")
        || text::same(a, "ro") {
        Some("read-only")
    } else if text::same(a, "workspace-write") || text::same(a, "workspace") || text::same(
        a,
        "write",
    ) || text::same(a, "ws") || text::same(a, "safe") || text::same(a, "sandbox") {
        Some("workspace-write")
    } else if text::same(a, "danger-full-access") || text::same(a, "full-access") || text::same(
        a,
        "full",
    ) || text::same(a, "danger") || text::same(a, "yolo") {
        Some("danger-full-access")
    } else {
        None
    }
}

pub open spec fn key_char(c: char) -> bool {
    0x61 <= c as u32 <= 0x7A || text::ascii_digit(c)
}

/// A part of a key: lower case letters and digits, at least one.
pub open spec fn key_part(s: Seq<char>) -> bool {
    s.len() > 0 && forall|i: int| 0 <= i < s.len() ==> key_char(#[trigger] s[i])
}

pub open spec fn all_key_parts(parts: Seq<Seq<char>>) -> bool {
    forall|i: int| 0 <= i < parts.len() ==> key_part(#[trigger] parts[i])
}

pub open spec fn upper_char(c: char) -> char {
    if 0x61 <= c as u32 <= 0x7A {
        (c as u32 - 0x20) as char
    } else {
        c
    }
}

/// A part of a key with its first letter in upper case.
pub open spec fn title_part(s: Seq<char>) -> Seq<char> {
    if s.len() == 0 {
        s
    } else {
        s.update(0, upper_char(s[0]))
    }
}

/// How a permission preset is shown. Full access has a name of its own, a key
/// of words with hyphens is shown as words, anything else as it is.
pub open spec fn permission_shown(id: Seq<char>) -> Seq<char> {
    let parts = text::split_on(id, '-');
    if id == "danger-full-access"@ {
        "Full access"@
    } else if all_key_parts(parts) {
        text::joined(parts.map_values(|p: Seq<char>| title_part(p)), " "@)
    } else {
        id
    }
}

fn is_key_part(s: &str) -> (r: bool)
    ensures
        r == key_part(s@),
{
    let v = text::chars_of(s);
    let mut i: usize = 0;
    while i < v.len()
        invariant
            i <= v@.len(),
            v@ == s@,
            forall|k: int| 0 <= k < i ==> key_char(#[trigger] s@[k]),
        decreases v@.len() - i,
    {
        let n: u32 = v[i] as u32;
        if !((n >= 0x61 && n <= 0x7A) || (n >= 0x30 && n <= 0x39)) {
            assert(!key_char(s@[i as int]));
            return false;
        }
        i = i + 1;
    }
    v.len() > 0
}

fn title(s: &str) -> (r: String)
    ensures
        r@ == title_part(s@),
{
    let mut v = text::chars_of(s);
    if v.len() > 0 {
        let n: u32 = v[0] as u32;
        if n >= 0x61 && n <= 0x7A {
            v[0] = (n as u8 - 0x20) as char;
        }
    }
    assert(v@ =~= title_part(s@));
    text::string_of(&v)
}

pub fn permission_label(id: &str) -> (r: String)
    ensures
        r@ == permission_shown(id@),
{
    if text::same(id, "danger-full-access") {
        return "Full access".to_owned();
    }
    let parts = text::split(id, '-');
    let ghost views = text::views(parts@);
    let mut out: Vec<String> = Vec::new();
    let mut i: usize = 0;
    while i < parts.len()
        invariant
            i <= parts@.len(),
            views == text::views(parts@),
            views == text::split_on(id@, '-'),
            id@ != "danger-full-access"@,
            out@.len() == i,
            forall|k: int| 0 <= k < i ==> key_part(#[trigger] views[k]),
            forall|k: int| 0 <= k < i ==> (#[trigger] out@[k])@ == title_part(views[k]),
        decreases parts@.len() - i,
    {
        assert(views[i as int] == parts@[i as int]@);
        if !is_key_part(parts[i].as_str()) {
            assert(!key_part(views[i as int]));
            return id.to_owned();
        }
        out.push(title(parts[i].as_str()));
        i = i + 1;
    }
    assert(text::views(out@) =~= views.map_values(|p: Seq<char>| title_part(p)));
    text::join(&out, " ")
}

/// One row of the permission picker. The preset that the agent reported is
/// marked as current, without a report the assumed one as default.
pub open spec fn permission_row(
    p: CatalogPreset<Seq<char>>,
    reported: Option<Seq<char>>,
    current: Seq<char>,
) -> PickerItem<Seq<char>> {
    PickerItem {
        id: p.id,
        label: permission_shown(p.id),
        meta: p.description + (if reported == Some(p.id) {
            " · current"@
        } else if reported is None && p.id == current {
            " · default"@
        } else {
            ""@
        }),
        provider: None,
    }
}

pub open spec fn permission_rows(
    modes: Seq<CatalogPreset<Seq<char>>>,
    reported: Option<Seq<char>>,
    current: Seq<char>,
) -> Seq<PickerItem<Seq<char>>> {
    Seq::new(modes.len(), |i: int| permission_row(modes[i], reported, current))
}

pub fn permission_picker_items(
    modes: &Vec<CatalogPreset>,
    reported: Option<&str>,
    current: &str,
) -> (r: Vec<PickerItem>)
    ensures
        crate::picker::items_view(r@) == permission_rows(
            crate::events::presets_view(modes@),
            text::opt_str_view(reported),
            current@,
        ),
{
    let ghost rows = crate::events::presets_view(modes@);
    let mut r: Vec<PickerItem> = Vec::new();
    let mut i: usize = 0;
    while i < modes.len()
        invariant
            i <= modes@.len(),
            rows == crate::events::presets_view(modes@),
            r@.len() == i,
            forall|k: int|
                0 <= k < i ==> (#[trigger] r@[k])@ == permission_row(
                    rows[k],
                    text::opt_str_view(reported),
                    current@,
                ),
        decreases modes@.len() - i,
    {
        let p = &modes[i];
        assert(rows[i as int] == p@);
        let mark = if text::opt_is(reported, p.id.as_str()) {
            " · current"
        } else if reported.is_none() && text::same(p.id.as_str(), current) {
            " · default"
        } else {
            ""
        };
        r.push(
            PickerItem {
                id: p.id.clone(),
                label: permission_label(p.id.as_str()),
                meta: text::concat2(p.description.as_str(), mark),
                provider: None,
            },
        );
        i = i + 1;
    }
    assert(crate::picker::items_view(r@) =~= permission_rows(
        rows,
        text::opt_str_view(reported),
        current@,
    ));
    r
}

/// The media type of an image, by what stands behind the last dot of its
/// path.
pub open spec fn media_type_of(path: Seq<char>) -> Option<Seq<char>> {
    let ext = text::ascii_lower(text::split_on(path, '.').last());
    if ext == "png"@ {
        Some("image/png"@)
    } else if ext == "jpg"@ || ext == "jpeg"@ {
        Some("image/jpeg"@)
    } else if ext == "webp"@ {
        Some("image/webp"@)
    } else if ext == "gif"@ {
        Some("image/gif"@)
    } else {
        None
    }
}

pub fn media_type_for(path: &str) -> (r: Option<&'static str>)
    ensures
        text::opt_str_view(r) == media_type_of(path@),
{
    let parts = text::split(path, '.');
    let last: usize = parts.len() - 1;
    assert(text::views(parts@).last() == parts@[last as int]@);
    let ext = text::to_ascii_lowercase(parts[last].as_str());
    let e = ext.as_str();
    if text::same(e, "png") {
        Some("image/png")
    } else if text::same(e, "jpg") || text::same(e, "jpeg") {
        Some("image/jpeg")
    } else if text::same(e, "webp") {
        Some("image/webp")
    } else if text::same(e, "gif") {
        Some("image/gif")
    } else {
        None
    }
}

/// The group of a plugin: the scope of its module, or `core`.
pub fn plugin_provider(module: &str) -> (r: String)
    ensures
        r@ == (match text::split_at_char(module@, '/') {
            Some((scope, _)) => scope,
            None => "core"@,
        }),
{
    match text::split_once(module, '/') {
        Some((scope, _)) => scope,
        None => "core".to_owned(),
    }
}

/// The name of a plugin: its module without the scope.
pub fn plugin_short_name(module: &str) -> (r: String)
    ensures
        r@ == (match text::split_at_char(module@, '/') {
            Some((_, name)) => name,
            None => module@,
        }),
{
    match text::split_once(module, '/') {
        Some((_, name)) => name,
        None => module.to_owned(),
    }
}

/// Where the last slash of a path ends; its beginning where there is none.
pub open spec fn behind_last_slash(path: Seq<char>) -> int
    decreases path.len(),
{
    if path.len() == 0 || path.last() == '/' {
        path.len() as int
    } else {
        behind_last_slash(path.drop_last())
    }
}

/// The name of an image file: what stands behind the last slash of its path.
pub fn image_name(path: &str) -> (r: String)
    ensures
        r@ == path@.skip(behind_last_slash(path@)),
{
    let v = text::chars_of(path);
    let mut i: usize = v.len();
    assert(v@.take(i as int) =~= v@);
    while i > 0 && v[i - 1] != '/'
        invariant
            i <= v@.len(),
            v@ == path@,
            behind_last_slash(v@.take(i as int)) == behind_last_slash(path@),
        decreases i,
    {
        assert(v@.take(i as int).drop_last() =~= v@.take(i as int - 1));
        i = i - 1;
    }
    assert(behind_last_slash(path@) == i);
    let r = text::string_of_range(&v, i, v.len());
    assert(r@ =~= path@.skip(i as int));
    r
}

/// A module name with a scope is its provider, a slash and its short name.
pub proof fn law_scope_and_name_make_the_module(module: Seq<char>)
    ensures
        text::split_at_char(module, '/') matches Some((scope, name)) ==> scope + seq!['/'] + name
            == module,
{
    text::lemma_index_of_char(module, '/');
    if let Some((scope, name)) = text::split_at_char(module, '/') {
        assert(scope + seq!['/'] + name =~= module);
    }
}

/// The text that tells two moments apart: microseconds and a counter, both in
/// hexadecimal.
pub open spec fn stamp(micros: nat, seq: nat) -> Seq<char> {
    text::hex(micros) + "-"@ + text::hex(seq)
}

/// A stamp is two numbers in lower case hexadecimal with a hyphen between them,
/// and neither of them is empty.
pub proof fn law_stamp_is_two_numbers(micros: nat, seq: nat)
    ensures
        ({
            let at = text::hex(micros).len() as int;
            let s = stamp(micros, seq);
            &&& 0 < at < s.len() - 1
            &&& s[at] == '-'
            &&& forall|i: int| 0 <= i < s.len() && i != at ==> text::is_hex_digit(#[trigger] s[i])
        }),
{
    reveal_strlit("-");
    text::lemma_hex_digits(micros);
    text::lemma_hex_digits(seq);
    let a = text::hex(micros);
    let b = text::hex(seq);
    let s = stamp(micros, seq);
    assert forall|i: int| 0 <= i < s.len() && i != a.len() implies text::is_hex_digit(
        #[trigger] s[i],
    ) by {
        if i < a.len() {
            assert(s[i] == a[i]);
        } else {
            assert(s[i] == b[i - a.len() - 1]);
        }
    }
}

/// Two stamps are the same only where both numbers are: with a counter that
/// goes up, no two are.
pub proof fn law_stamps_differ(m1: nat, n1: nat, m2: nat, n2: nat)
    requires
        stamp(m1, n1) == stamp(m2, n2),
    ensures
        m1 == m2,
        n1 == n2,
{
    reveal_strlit("-");
    law_stamp_is_two_numbers(m1, n1);
    law_stamp_is_two_numbers(m2, n2);
    let s = stamp(m1, n1);
    let a = text::hex(m1).len() as int;
    let b = text::hex(m2).len() as int;
    assert(!text::is_hex_digit('-'));
    assert(s[a] == '-' && s[b] == '-');
    assert(a == b);
    assert(s.take(a) =~= text::hex(m1));
    assert(s.take(a) =~= text::hex(m2));
    assert(s.skip(a + 1) =~= text::hex(n1));
    assert(s.skip(a + 1) =~= text::hex(n2));
    text::lemma_hex_injective(m1, m2);
    text::lemma_hex_injective(n1, n2);
}

pub fn timestamp(micros: u128, seq: u64) -> (r: String)
    ensures
        r@ == stamp(micros as nat, seq as nat),
{
    let a = text::hex_string(micros);
    let b = text::hex_string(seq as u128);
    text::concat3(a.as_str(), "-", b.as_str())
}

/// The name under which a settings file that cannot be read is kept.
pub fn quarantined_name(name: &str, stamp: &str) -> (r: String)
    ensures
        r@ == name@ + ".corrupt-"@ + stamp@,
{
    text::concat3(name, ".corrupt-", stamp)
}

/// The name of the file that a settings file is written to before it takes the
/// place of the old one.
pub fn temporary_name(name: &str, process: u32, stamp: &str) -> (r: String)
    ensures
        r@ == name@ + "."@ + text::decimal(process as nat) + "."@ + stamp@ + ".tmp"@,
{
    let p = text::decimal_string(process as u64);
    let mut r = text::concat3(name, ".", p.as_str());
    text::push_str(&mut r, ".");
    text::push_str(&mut r, stamp);
    text::push_str(&mut r, ".tmp");
    r
}

} // verus!
