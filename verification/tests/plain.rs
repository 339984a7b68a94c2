use martty::acp_fs::{
    denied_write, is_allowed, is_inside_cwd, normalize_path, resolve_with_cwd, slice_text,
    terminal_spawn_ask, write_outside_ask, Component,
};
use martty::bus::{
    permission_ask_default_sel, permission_ask_empty_outcome, PermissionAskOption,
    PermissionAskReply, StaticPluginItem,
};
use martty::draft::{split_draft_into_staged_blocks, token_spans_in, Attachment, StagedBlock};
use martty::input::{decode_leaked_csi_u_keys, KeyCode, KeyEvent, KeyEventKind, KeyModifiers};
use martty::json::{self, JsonValue, Number};
use martty::presets::{
    image_name, media_type_for, normalize_permission, permission_label, plugin_provider, plugin_short_name,
    quarantined_name, temporary_name, timestamp,
};
use martty::screen::{slice_by_cells, word_span, ChatView, Rect, SelPoint, Selection};
use martty::select::{select_initial_index, SelectOption, SelectOverlay};
use martty::settings::{host_catalog_models, host_catalog_of};
use martty::shell::{
    command_marker, command_script, find_bytes, read_end, shell_output, shell_quote, shell_result,
    Captured, ShellRead,
};
use martty::term::to_line_feeds;
use martty::text;
use martty::tree::PluginTree;
use ratatui::widgets::StatefulWidget;
use tui_tree_widget::{Tree, TreeItem};

fn s(t: &str) -> String {
    t.to_string()
}

// --- paths and files ---------------------------------------------------------------------

fn path(t: &str) -> Vec<Component> {
    let mut out = Vec::new();
    if t.starts_with('/') {
        out.push(Component::RootDir);
    }
    for part in t.split('/') {
        match part {
            "" => {}
            "." => out.push(Component::CurDir),
            ".." => out.push(Component::ParentDir),
            name => out.push(Component::Normal(s(name))),
        }
    }
    out
}

#[test]
fn paths_are_normalized() {
    assert_eq!(normalize_path(&path("/a/./b/../c")), path("/a/c"));
    assert_eq!(normalize_path(&path("/a/c")), path("/a/c"));
}

#[test]
fn a_relative_path_starts_at_the_working_directory() {
    assert_eq!(resolve_with_cwd(&path("x/../y"), &path("/work")), path("/work/y"));
    assert_eq!(resolve_with_cwd(&path("/etc/y"), &path("/work")), path("/etc/y"));
}

#[test]
fn writing_stays_inside_the_working_directory() {
    let cwd = path("/work");
    assert!(is_inside_cwd(&path("/work/src/a.rs"), &cwd));
    assert!(is_inside_cwd(&path("/work"), &cwd));
    assert!(!is_inside_cwd(&path("/work/../etc/passwd"), &cwd));
    assert!(!is_inside_cwd(&path("/workshop/a"), &cwd));
}

#[test]
fn nothing_is_inside_an_empty_directory() {
    assert!(!is_inside_cwd(&path("/etc/passwd"), &path(".")));
    assert!(!is_inside_cwd(&path("/etc/passwd"), &path("")));
    assert!(!is_inside_cwd(&path("a"), &path("b/..")));
}

#[test]
fn a_path_on_a_volume_ignores_the_working_directory() {
    let mut there = vec![Component::Prefix(s("C:"))];
    there.extend(path("/x/./y"));
    let mut plain = vec![Component::Prefix(s("C:"))];
    plain.extend(path("/x/y"));
    assert_eq!(resolve_with_cwd(&there, &path("/work")), plain);
    assert_eq!(resolve_with_cwd(&plain, &path("/work")), plain);
    let below = resolve_with_cwd(&path("a/../b"), &path("/work"));
    assert_eq!(resolve_with_cwd(&below, &path("/elsewhere")), below);
}

#[test]
fn a_file_is_read_from_a_line_on() {
    let t = "one\ntwo\nthree\nfour";
    assert_eq!(slice_text(t, None, None), t);
    assert_eq!(slice_text(t, Some(2), None), "two\nthree\nfour");
    assert_eq!(slice_text(t, Some(2), Some(2)), "two\nthree");
    assert_eq!(slice_text(t, Some(0), Some(1)), "one");
    assert_eq!(slice_text(t, Some(9), Some(1)), "");
}

#[test]
fn only_allow_grants() {
    assert!(is_allowed(&PermissionAskReply::Selected(s("allow"))));
    assert!(!is_allowed(&PermissionAskReply::Selected(s("deny"))));
    assert!(!is_allowed(&PermissionAskReply::Cancelled));
    assert_eq!(denied_write(), (-32603, s("user denied write")));
}

#[test]
fn asks_of_the_client_say_what_is_asked() {
    let w = write_outside_ask("s1", "/etc/hosts");
    assert_eq!(w.title, "write /etc/hosts · outside workspace");
    assert_eq!(w.options[0].option_id, "deny");
    assert_eq!(w.options[1].name, "Allow write");
    let t = terminal_spawn_ask("s1", "git", &vec![s("status"), s("-s")], "/work");
    assert_eq!(t.title, "run git status -s · in /work");
    let bare = terminal_spawn_ask("s1", "ls", &Vec::new(), "/work");
    assert_eq!(bare.title, "run ls · in /work");
}

// --- permission asks ---------------------------------------------------------------------

fn option(id: &str, kind: &str) -> PermissionAskOption {
    PermissionAskOption { option_id: s(id), kind: s(kind), name: s(id) }
}

#[test]
fn the_first_option_that_allows_once_is_highlighted() {
    let v = [option("a", "reject_once"), option("b", "allow_once"), option("c", "allow_once")];
    assert_eq!(permission_ask_default_sel(&v), 1);
    assert_eq!(permission_ask_default_sel(&v[..1]), 0);
    assert_eq!(permission_ask_default_sel(&[]), 0);
}

#[test]
fn an_ask_without_options_is_cancelled() {
    assert_eq!(permission_ask_empty_outcome(&[]), Some(PermissionAskReply::Cancelled));
    assert_eq!(permission_ask_empty_outcome(&[option("a", "allow_once")]), None);
}

// --- keys --------------------------------------------------------------------------------

fn plain() -> KeyModifiers {
    KeyModifiers {
        shift: false,
        alt: false,
        control: false,
        command: false,
        hyper: false,
        meta: false,
    }
}

#[test]
fn leaked_key_reports_are_keys() {
    let keys = decode_leaked_csi_u_keys("\u{1b}[97u\u{1b}[13;5u").unwrap();
    assert_eq!(
        keys,
        vec![
            KeyEvent { code: KeyCode::Char('a'), modifiers: plain(), kind: KeyEventKind::Press },
            KeyEvent {
                code: KeyCode::Enter,
                modifiers: KeyModifiers { control: true, ..plain() },
                kind: KeyEventKind::Press,
            },
        ]
    );
    let released = decode_leaked_csi_u_keys("\u{1b}[97;1:3u").unwrap();
    assert_eq!(released[0].kind, KeyEventKind::Release);
    let back = decode_leaked_csi_u_keys("\u{1b}[9;2u").unwrap();
    assert_eq!(back[0].code, KeyCode::BackTab);
}

#[test]
fn leaked_key_reports_add_up() {
    let one = decode_leaked_csi_u_keys("\u{1b}[97u").unwrap();
    let two = decode_leaked_csi_u_keys("\u{1b}[13;5u").unwrap();
    let both = decode_leaked_csi_u_keys("\u{1b}[97u\u{1b}[13;5u").unwrap();
    assert_eq!(both, [one, two].concat());
    assert_eq!(decode_leaked_csi_u_keys("\u{1b}[97u\u{1b}[13;5"), None);
}

#[test]
fn other_pastes_are_text() {
    assert_eq!(decode_leaked_csi_u_keys(""), None);
    assert_eq!(decode_leaked_csi_u_keys("hello"), None);
    assert_eq!(decode_leaked_csi_u_keys("\u{1b}[97ux"), None);
    assert_eq!(decode_leaked_csi_u_keys("\u{1b}[97;0u"), None);
    assert_eq!(decode_leaked_csi_u_keys("\u{1b}[55296u"), None);
}

#[test]
fn pasted_lines_end_in_line_feeds() {
    assert_eq!(to_line_feeds("a\r\nb\rc\nd\r\r\n"), "a\nb\nc\nd\n\n");
    assert_eq!(to_line_feeds(""), "");
}

// --- text --------------------------------------------------------------------------------

#[test]
fn white_space_is_that_of_std() {
    for n in 0u32..0x3100 {
        if let Some(c) = char::from_u32(n) {
            assert_eq!(text::is_white_space(c), c.is_whitespace(), "{n:x}");
            assert_eq!(text::is_control(c), c.is_control(), "{n:x}");
        }
    }
}

#[test]
fn trimming_is_that_of_std() {
    for t in ["", "  ", " a b ", "\u{3000}x\u{a0}", "x"] {
        assert_eq!(text::trim(t), t.trim());
        assert_eq!(text::trim_start(t), t.trim_start());
        assert_eq!(text::trim_end(t), t.trim_end());
    }
}

#[test]
fn splitting_is_that_of_std() {
    for t in ["", "a", "a,b", ",a,,b,"] {
        let want: Vec<String> = t.split(',').map(|p| p.to_string()).collect();
        assert_eq!(text::split(t, ','), want);
        let words: Vec<String> = t.split_whitespace().map(|p| p.to_string()).collect();
        assert_eq!(text::split_whitespace(t), words);
    }
    assert_eq!(text::split_once("a=b=c", '='), Some((s("a"), s("b=c"))));
    assert_eq!(text::split_once("abc", '='), None);
}

#[test]
fn numbers_are_printed_and_read() {
    assert_eq!(text::decimal_string(0), "0");
    assert_eq!(text::decimal_string(u64::MAX), u64::MAX.to_string());
    assert_eq!(text::signed_decimal_string(i64::MIN), i64::MIN.to_string());
    assert_eq!(text::hex_string(0xdeadbeef), "deadbeef");
    assert_eq!(text::parse_number("42", 100), Some(42));
    assert_eq!(text::parse_number("101", 100), None);
    assert_eq!(text::parse_number("4x", 100), None);
    assert_eq!(text::parse_number("", 100), None);
}

#[test]
fn prefixes_are_cut_at_characters() {
    assert_eq!(text::take_chars("日本語", 2), "日本");
    assert_eq!(text::first_bytes("日本語", 3), Some(s("日")));
    assert!(text::starts_with("日本語", "日本"));
    assert!(text::contains("日本語", "本"));
    assert_eq!(text::strip_prefix("/theme dark", "/theme "), Some(s("dark")));
}

// --- json --------------------------------------------------------------------------------

#[test]
fn values_print_as_serde_json_prints_them() {
    for t in ["", "plain", "quote \" back \\", "\u{8}\u{c}\n\r\t", "\u{1}\u{1f}\u{7f}", "日本"] {
        let ours = json::value_text(&JsonValue::Str(s(t)));
        assert_eq!(ours, serde_json::Value::String(s(t)).to_string());
    }
    let v = JsonValue::Object(vec![
        (s("a"), JsonValue::Array(vec![JsonValue::Null, JsonValue::Bool(true)])),
        (s("b"), JsonValue::Number(Number::NegInt(-3))),
    ]);
    let parsed: serde_json::Value = serde_json::from_str("{\"a\":[null,true],\"b\":-3}").unwrap();
    assert_eq!(json::value_text(&v), parsed.to_string());
}

#[test]
fn members_are_set_and_taken() {
    let mut v = JsonValue::Object(vec![(s("a"), JsonValue::Bool(true)), (s("b"), JsonValue::Null)]);
    json::set_member(&mut v, "a", JsonValue::Bool(false));
    json::set_member(&mut v, "c", JsonValue::Str(s("x")));
    assert_eq!(json::as_bool(json::get(&v, "a")), Some(false));
    assert_eq!(json::get_str(&v, "c"), Some("x"));
    assert!(json::is_null(json::get(&v, "b").unwrap()));
    assert_eq!(json::take_member(&mut v, "a"), Some(JsonValue::Bool(false)));
    assert_eq!(json::get(&v, "a"), Some(&JsonValue::Null));
    assert_eq!(json::take_member(&mut v, "z"), None);
    assert_eq!(json::get(&JsonValue::Null, "a"), None);
}

#[test]
fn host_models_are_texts_or_ids() {
    let v = JsonValue::Array(vec![
        JsonValue::Str(s("m1")),
        JsonValue::Object(vec![(s("id"), JsonValue::Str(s("m2"))), (s("x"), JsonValue::Null)]),
        JsonValue::Object(vec![(s("name"), JsonValue::Str(s("m3")))]),
        JsonValue::Bool(true),
    ]);
    assert_eq!(host_catalog_models(&v), Some(vec![s("m1"), s("m2")]));
    assert_eq!(host_catalog_models(&JsonValue::Array(Vec::new())), None);
    assert_eq!(host_catalog_models(&JsonValue::Null), None);
    let raw = r#"["m1", {"id": "m2", "x": null}, {"name": "m3"}, true]"#;
    assert_eq!(host_catalog_of(raw), Some(vec![s("m1"), s("m2")]));
    assert_eq!(host_catalog_of("[\"m1\""), None);
    assert_eq!(host_catalog_of("[]"), None);
    assert_eq!(host_catalog_of("\"m1\""), None);
}

#[test]
fn json_is_read_and_laid_out() {
    assert_eq!(json::parse_json("{"), None);
    assert_eq!(json::parse_json(" 7 "), Some(JsonValue::Number(Number::PosInt(7))));
    assert_eq!(json::parse_json("-7"), Some(JsonValue::Number(Number::NegInt(-7))));
    assert_eq!(
        json::parse_json("1.5"),
        Some(JsonValue::Number(Number::Float { bits: 1.5f64.to_bits(), text: s("1.5") }))
    );
    let v = json::parse_json(r#"{"a": [null, true, "x\n"], "b": {}, "c": 0.25}"#).unwrap();
    assert_eq!(
        v,
        JsonValue::Object(vec![
            (
                s("a"),
                JsonValue::Array(vec![
                    JsonValue::Null,
                    JsonValue::Bool(true),
                    JsonValue::Str(s("x\n")),
                ])
            ),
            (s("b"), JsonValue::Object(Vec::new())),
            (
                s("c"),
                JsonValue::Number(Number::Float { bits: 0.25f64.to_bits(), text: s("0.25") })
            ),
        ])
    );
    let t = json::pretty_text(&v).unwrap();
    assert_eq!(
        t,
        "{\n  \"a\": [\n    null,\n    true,\n    \"x\\n\"\n  ],\n  \"b\": {},\n  \"c\": 0.25\n}"
    );
    assert_eq!(json::parse_json(&t), Some(v));
}

// --- presets -----------------------------------------------------------------------------

#[test]
fn permissions_have_spellings() {
    assert_eq!(normalize_permission(" RO "), Some("read-only"));
    assert_eq!(normalize_permission("sandbox"), Some("workspace-write"));
    assert_eq!(normalize_permission("yolo"), Some("danger-full-access"));
    assert_eq!(normalize_permission("other"), None);
    assert!(!permission_label("read-only").is_empty());
}

#[test]
fn images_are_known_by_their_ending() {
    assert_eq!(media_type_for("a/b.PNG"), Some("image/png"));
    assert_eq!(media_type_for("x.tar.jpeg"), Some("image/jpeg"));
    assert_eq!(media_type_for("png"), Some("image/png"));
    assert_eq!(media_type_for("x.txt"), None);
}

#[test]
fn modules_have_a_scope_and_a_name() {
    assert_eq!(plugin_provider("@dsh/core/x"), "@dsh");
    assert_eq!(plugin_short_name("@dsh/core/x"), "core/x");
    assert_eq!(plugin_provider("fs"), "core");
    assert_eq!(plugin_short_name("fs"), "fs");
}

#[test]
fn file_names_carry_stamps() {
    assert_eq!(timestamp(255, 16), "ff-10");
    assert_eq!(timestamp(0, 0), "0-0");
    assert_ne!(timestamp(1, 17), timestamp(17, 1));
    assert_ne!(timestamp(255, 16), timestamp(255, 17));
    assert_eq!(quarantined_name("settings.json", "ff-1"), "settings.json.corrupt-ff-1");
    assert_eq!(temporary_name("settings.json", 7, "ff-1"), "settings.json.7.ff-1.tmp");
}

#[test]
fn images_are_named_after_their_files() {
    assert_eq!(image_name("/work/shots/a b.png"), "a b.png");
    assert_eq!(image_name("a.png"), "a.png");
    assert_eq!(image_name(""), "");
}

// --- the shell ---------------------------------------------------------------------------

#[test]
fn commands_are_framed() {
    assert_eq!(shell_quote("ls"), "'ls'");
    assert_eq!(shell_quote("it's"), "'it'\"'\"'s'");
    assert_eq!(shell_quote("'"), "''\"'\"''");
    assert_eq!(shell_quote("$(x) \"y\" \\"), "'$(x) \"y\" \\'");
    assert_eq!(command_marker("M", 3), "\u{1e}M:3:");
    assert_eq!(
        command_script("M", 3, "ls"),
        "eval 'ls' 2>&1 < /dev/null\n__martty_shell_status=$?\n\
         command printf '\\036M:3:%s\\037' \"$__martty_shell_status\" >&9\n"
    );
}

#[test]
fn the_end_of_a_command_is_read_off_its_output() {
    let marker = b"\x1eM:3:".to_vec();
    let out = b"hi\n\x1eM:3:7\x1f".to_vec();
    assert_eq!(find_bytes(&out, &marker), Some(3));
    match read_end(&out, &marker) {
        Captured::Ended { end, status } => {
            assert_eq!(end, 3);
            assert_eq!(status, Some(7));
        }
        Captured::More => panic!("the end was there"),
    }
    assert!(matches!(read_end(&b"hi\n\x1eM:3:7".to_vec(), &marker), Captured::More));
    assert!(matches!(
        read_end(&b"\x1eM:3:x\x1f".to_vec(), &marker),
        Captured::Ended { end: 0, status: None }
    ));
    assert!(matches!(
        read_end(&b"\x1eM:3:-1\x1f".to_vec(), &marker),
        Captured::Ended { end: 0, status: Some(-1) }
    ));
}

#[test]
fn output_is_text_and_limited() {
    assert_eq!(shell_output(&vec![b'o', 0xff, b'k']), "o\u{fffd}k");
    let long = vec![b'x'; 16385];
    let shown = shell_output(&long);
    assert!(shown.ends_with("\n… (truncated)"));
    assert_eq!(shown.chars().filter(|c| *c == 'x').count(), 16384);
}

#[test]
fn a_silent_command_ends_the_shell() {
    let out = b"abc".to_vec();
    assert_eq!(shell_result(ShellRead::Done(Some(0)), &out), (Some(0), s("abc"), true));
    assert_eq!(shell_result(ShellRead::Eof(Some(1)), &out), (Some(1), s("abc"), false));
    let (code, text, alive) = shell_result(ShellRead::Silent, &out);
    assert_eq!(code, None);
    assert!(text.starts_with("command killed: no output for 120s"));
    assert!(!alive);
}

// --- cells of the screen -----------------------------------------------------------------

#[test]
fn wide_characters_take_two_cells() {
    assert_eq!(slice_by_cells("a日b", 1, 2), "日");
    assert_eq!(slice_by_cells("a日b", 2, 3), "日");
    assert_eq!(slice_by_cells("a日b", 3, 4), "b");
    assert_eq!(slice_by_cells("hello", 1, 3), "el");
    assert_eq!(slice_by_cells("hello", 4, 99), "o");
}

#[test]
fn the_word_under_the_pointer() {
    assert_eq!(word_span("say 日本 now", 5), Some((4, 4, s("日本"))));
    assert_eq!(word_span("say 日本 now", 0), Some((0, 3, s("say"))));
    assert_eq!(word_span("say now", 3), None);
    assert_eq!(word_span("say", 9), None);
    for column in 4..8 {
        assert_eq!(word_span("say 日本 now", column), Some((4, 4, s("日本"))));
    }
    assert_eq!(word_span("say 日本 now", 8), None);
    assert_eq!(slice_by_cells("say 日本 now", 4, 8), "日本");
}

#[test]
fn a_selection_is_the_same_from_either_end() {
    let a = SelPoint { line: 3, col: 1 };
    let b = SelPoint { line: 2, col: 9 };
    assert_eq!(Selection { anchor: a, head: b }.ordered(), (b, a));
    assert_eq!(Selection { anchor: b, head: a }.ordered(), (b, a));
    assert!(Selection { anchor: a, head: a }.is_caret());
}

#[test]
fn selected_text_is_that_of_the_frame() {
    let mut view = ChatView::empty();
    view.area = Rect { x: 2, y: 1, width: 10, height: 3 };
    view.top = 5;
    view.lines = vec![s("first  "), s("second"), s("third")];
    view.owners = vec![None, Some(4), None];
    view.total = 8;
    let p = view.chat_hit(3, 1).unwrap();
    assert_eq!(p, SelPoint { line: 5, col: 1 });
    assert_eq!(view.chat_hit(1, 1), None);
    assert_eq!(view.chat_clamp(0, 0), SelPoint { line: 5, col: 0 });
    assert_eq!(view.tool_at(4, 2), Some(4));
    assert_eq!(view.tool_at(4, 1), None);
    let sel = Selection { anchor: SelPoint { line: 7, col: 1 }, head: SelPoint { line: 5, col: 2 } };
    assert_eq!(view.selection_text(sel), "rst\nsecond\nth");
    let above = Selection { anchor: SelPoint { line: 0, col: 0 }, head: SelPoint { line: 3, col: 2 } };
    assert_eq!(view.selection_text(above), "");
}

// --- drafts ------------------------------------------------------------------------------

fn image(token: &str) -> Attachment {
    Attachment {
        token: s(token),
        name: s("a.png"),
        path: s("/tmp/a.png"),
        media_type: s("image/png"),
        data: s("AAAA"),
        image: 1,
    }
}

#[test]
fn a_draft_is_sent_in_its_order() {
    let atts = vec![image("[image 1]"), image("[image 2]")];
    assert_eq!(
        token_spans_in("x [image 2] y [image 1]", &atts),
        vec![(2, 11, 1), (14, 23, 0)]
    );
    let blocks = split_draft_into_staged_blocks("x [image 2] y [image 1]", &atts);
    assert_eq!(
        blocks,
        vec![
            StagedBlock::Text(s("x")),
            StagedBlock::Image(image("[image 2]")),
            StagedBlock::Text(s(" y ")),
            StagedBlock::Image(image("[image 1]")),
        ]
    );
}

#[test]
fn blank_text_around_images_is_dropped() {
    let atts = vec![image("[image 1]")];
    let blocks = split_draft_into_staged_blocks("  [image 1]\n", &atts);
    assert_eq!(blocks, vec![StagedBlock::Image(image("[image 1]"))]);
    assert_eq!(split_draft_into_staged_blocks("   ", &Vec::new()), Vec::new());
}

// --- selects -----------------------------------------------------------------------------

fn choice(value: &str, label: &str) -> SelectOption {
    SelectOption {
        value: s(value),
        label: s(label),
        description: None,
        group: None,
        disabled: false,
        deletable: false,
    }
}

fn select(value: &str) -> SelectOverlay {
    SelectOverlay {
        id: s("p"),
        title: s("Pick"),
        value: s(value),
        options: vec![choice("a", "Alpha"), choice("b", "Beta"), choice("g", "Gamma")],
        searchable: true,
        query: s(""),
        sel: 0,
    }
}

#[test]
fn a_select_starts_at_its_value() {
    assert_eq!(select_initial_index(&select("b")), Some(1));
    assert_eq!(select_initial_index(&select("x")), None);
    let mut twice = select("a");
    twice.options.push(choice("a", "Again"));
    assert_eq!(select_initial_index(&twice), None);
    let mut untitled = select("a");
    untitled.title = s("");
    assert_eq!(select_initial_index(&untitled), None);
    let mut heading = select("a");
    heading.options[0].group = Some(s("two\nlines"));
    assert_eq!(select_initial_index(&heading), None);
}

#[test]
fn a_search_selects_what_is_shown() {
    let mut x = select("a");
    x.query = s("ETA");
    assert_eq!(x.visible_indices(), vec![1]);
    x.reconcile_search();
    assert_eq!(x.sel, 1);
    assert_eq!(x.value, "b");
    assert_eq!(x.current_value(), "b");
    x.query = s("nothing");
    assert_eq!(x.visible_indices(), Vec::<usize>::new());
    x.reconcile_search();
    assert_eq!(x.sel, 1);
}

#[test]
fn every_term_of_a_search_narrows_it() {
    let mut x = select("a");
    x.query = s("a");
    let before = x.visible_indices();
    assert!(before.len() > 1);
    x.query = s("a bet");
    let after = x.visible_indices();
    assert_eq!(after, vec![1]);
    assert!(after.iter().all(|i| before.contains(i)));
    x.query = s("bet  A ");
    assert_eq!(x.visible_indices(), after);
}

// --- the plugin inventory ----------------------------------------------------------------

fn plugin(module: &str) -> StaticPluginItem {
    StaticPluginItem { entry_id: s(module), module_name: s(module), enabled: true, fiber_phase: None }
}

#[test]
fn the_inventory_opens_its_groups() {
    let mut tree = PluginTree::new(s("plugins"), &vec![plugin("@a/x"), plugin("y")]);
    assert_eq!(tree.state.selected().to_vec(), vec![s("@a")]);
    assert!(tree.state.opened().contains(&vec![s("@a")]));
    assert!(tree.state.opened().contains(&vec![s("core")]));
    tree.key(KeyCode::Left, 5);
    assert!(!tree.state.opened().contains(&vec![s("@a")]));
    tree.key(KeyCode::Enter, 5);
    assert!(tree.state.opened().contains(&vec![s("@a")]));
    tree.key(KeyCode::Left, 5);
    tree.key(KeyCode::Left, 5);
    assert!(tree.state.selected().is_empty());
}

#[test]
fn an_undrawn_tree_has_nowhere_to_go() {
    let mut tree = PluginTree::new(s("plugins"), &vec![plugin("@a/x")]);
    tree.key(KeyCode::Down, 5);
    assert!(tree.state.selected().is_empty());
    tree.key(KeyCode::End, 5);
    tree.key(KeyCode::Home, 5);
    tree.key(KeyCode::Up, 5);
    tree.key(KeyCode::PageDown, 5);
    tree.key(KeyCode::PageUp, 5);
    assert!(tree.state.selected().is_empty());
    tree.scroll(false, 3);
    assert_eq!(tree.state.get_offset(), 0);
    tree.scroll(true, 3);
    assert_eq!(tree.state.get_offset(), 0);
}

#[test]
fn a_drawn_tree_is_walked_row_by_row() {
    let mut tree = PluginTree::new(s("plugins"), &vec![plugin("@a/x"), plugin("y")]);
    let items = vec![
        TreeItem::new(s("@a"), "@a", vec![TreeItem::new_leaf(s("x"), "x")]).unwrap(),
        TreeItem::new(s("core"), "core", vec![TreeItem::new_leaf(s("y"), "y")]).unwrap(),
    ];
    let area = ratatui::layout::Rect::new(0, 0, 20, 10);
    let mut buf = ratatui::buffer::Buffer::empty(area);
    Tree::new(&items).unwrap().render(area, &mut buf, &mut tree.state);
    tree.key(KeyCode::Down, 2);
    assert_eq!(tree.state.selected().to_vec(), vec![s("@a"), s("x")]);
    tree.key(KeyCode::End, 2);
    assert_eq!(tree.state.selected().to_vec(), vec![s("core"), s("y")]);
    tree.key(KeyCode::Up, 2);
    assert_eq!(tree.state.selected().to_vec(), vec![s("core")]);
    tree.key(KeyCode::Home, 2);
    assert_eq!(tree.state.selected().to_vec(), vec![s("@a")]);
    tree.key(KeyCode::PageDown, 2);
    assert_eq!(tree.state.selected().to_vec(), vec![s("core")]);
    tree.key(KeyCode::PageUp, 9);
    assert_eq!(tree.state.selected().to_vec(), vec![s("@a")]);
    tree.scroll(false, 2);
    assert_eq!(tree.state.get_offset(), 2);
    tree.scroll(true, 1);
    assert_eq!(tree.state.get_offset(), 1);
    tree.scroll(false, 100);
    assert_eq!(tree.state.get_offset(), 3);
}
