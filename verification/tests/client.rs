use martty::app::{
    App, Config, LocalDesc, LocalSession, Methods, Mode, SliderOverlay, SlotContent, ToneMode,
};
use martty::asks::FormStep;
use martty::bus::{
    AppEvent, AuthSnapshot, AuthStatus, CatalogModel, Cmd, CtlEvent, PalettePack,
    PermissionAskOption, PermissionAskReply, PromptBlock, RequestId, SessionListItem, SkillInfo,
    UiPluginItem,
};
use martty::coalesce::coalesce_session_updates;
use martty::draft::Attachment;
use martty::effect::{Effect, FileMenuOp, Locale, NoticeLevel, TranscriptOp};
use martty::events::{
    catalog_from_config_options, parse_notification, session_modes_from_value,
    skills_from_available_commands, UiEvent,
};
use martty::info::{
    fmt_duration, fmt_tokens, print_figures, session_counts, token_unit, Figures, Stats, Usage,
};
use martty::input::{
    KeyCode, KeyEvent, KeyEventKind, KeyModifiers, MouseButton, MouseEvent, MouseEventKind,
    TermEvent,
};
use martty::json::{parse_json, value_eq, value_text, JsonValue, Number};
use martty::keys::{Action, KeyPress};
use martty::mouse::{cover, MouseInput, PromptPlace};
use martty::picker::PickerKind;
use martty::plugins::{PluginOverlay, PluginUpdate, UpdateKind};
use martty::replies::{Log, LogLine, Reply};
use martty::screen::{Rect, SelPoint, Selection};
use martty::select::{SelectOption, SelectOverlay};
use martty::session::{Edit, RunState, ViewBody, ViewOverlay};
use martty::settings::UiSettings;
use martty::start::Start;

fn s(t: &str) -> String {
    t.to_string()
}

fn methods() -> Methods {
    Methods {
        agents_navigate: s("agents/navigate"),
        agents_select: s("agents/select"),
        ui_update: s("ui/update"),
        approvals_update: s("approvals/update"),
        theme_update: s("theme/update"),
        theme_remove: s("theme/remove"),
        commands_update: s("commands/update"),
        overlay_update: s("overlay/update"),
        slots_update: s("slots/update"),
        protocol: 0,
    }
}

fn pack(id: &str, colors: u64) -> PalettePack {
    PalettePack {
        id: s(id),
        label: s(id),
        source: s("builtin"),
        loaded: true,
        colors,
        background: None,
    }
}

fn start(demo: bool) -> App {
    let mut app = App::new(Start {
        mode: None,
        settings: UiSettings {
            language: Locale::En,
            theme_mode: Some(s("light")),
            markdown_tone: Some(s("two")),
            ui_preset: s("calm"),
        },
        cfg: Config {
            model: s("m1"),
            provider: s("p"),
            workspace: s("/work"),
            session_root: s("/root"),
            bin: s("dsh"),
            has_credentials: true,
            credential_source: None,
            methods: methods(),
            descriptions: vec![LocalDesc {
                locale: Locale::Zh,
                plugin: false,
                name: s("help"),
                text: s("查看帮助"),
            }],
        },
        session_id: s("s1"),
        demo,
        attached: false,
        default_pack: pack("default", 10),
        vim: false,
        vim_normal: false,
        image_limit: 4,
        now: 1000,
        micros: 5_000_000,
    });
    let first = app.take_effects();
    assert_eq!(
        first,
        vec![Effect::Transcript {
            id: 0,
            op: TranscriptOp::Open { session: s("s1"), locale: Locale::En }
        }]
    );
    app
}

/// A client whose session is bound and idle.
fn bound() -> App {
    let mut app = start(false);
    app.handle(AppEvent::Ctl(CtlEvent::SessionBound { session_id: s("s1"), notice: None }));
    app.take_effects();
    assert!(app.live.bound);
    app
}

fn none() -> KeyModifiers {
    KeyModifiers {
        shift: false,
        alt: false,
        control: false,
        command: false,
        hyper: false,
        meta: false,
    }
}

fn press(app: &mut App, code: KeyCode, modifiers: KeyModifiers, action: Option<Action>, edit: Edit) {
    app.reply(Reply::Key(KeyPress {
        key: KeyEvent { code, modifiers, kind: KeyEventKind::Press },
        action,
        viewer_action: action,
        vim: None,
        edit,
        selected: None,
        range: None,
        form: FormStep { editing: false, moved: false, done: false },
        slide: None,
        debug: None,
    }));
}

fn same_edit(app: &App) -> Edit {
    Edit { buf: app.live.draft.input.buf.clone(), cursor: app.live.draft.input.cursor }
}

fn act(app: &mut App, code: KeyCode, action: Action) {
    let edit = same_edit(app);
    press(app, code, none(), Some(action), edit);
}

fn draft(app: &mut App, t: &str) {
    app.live.draft.input.buf = s(t);
    app.live.draft.input.cursor = t.chars().count();
}

fn enter(app: &mut App) {
    act(app, KeyCode::Enter, Action::Enter);
}

fn sends(effects: &Vec<Effect>) -> Vec<&Cmd> {
    effects
        .iter()
        .filter_map(|e| match e {
            Effect::Send(c) => Some(c),
            _ => None,
        })
        .collect()
}

fn status(app: &mut App, session: &str, running: bool) {
    app.handle(AppEvent::Ui(UiEvent::SessionStatus { session: s(session), running }));
}

fn tip(app: &App) -> String {
    app.clock.tip.as_ref().map(|t| t.text.clone()).unwrap_or_default()
}

fn pointer(app: &mut App, kind: MouseEventKind, column: u16, row: u16) {
    app.reply(Reply::Mouse(MouseInput {
        event: MouseEvent { kind, column, row, modifiers: none() },
        caret: 0,
        range: None,
    }));
}

// --- the start ---------------------------------------------------------------------------

#[test]
fn a_client_starts_with_what_was_kept() {
    let app = start(false);
    assert_eq!(app.theme.mode, Mode::Light);
    assert_eq!(app.theme.painted, 10);
    assert!(!app.live.bound);
    assert!(!app.tabs.startup_bound);
    assert_eq!(app.session_tab_count(), 1);
    assert!(start(true).live.bound);
    assert_eq!(app.active_background(), None);
    assert_eq!(app.canvas_background_color(true), Some(10));
    assert_eq!(app.ui_preset(), "calm");
    assert_eq!(app.tone_mode(), ToneMode::Two);
    assert_eq!(app.harness_badge(), None);
    assert_eq!(app.spinner(), '⠋');
}

// --- prompts and the queue ---------------------------------------------------------------

#[test]
fn enter_sends_the_draft() {
    let mut app = bound();
    draft(&mut app, "hello");
    enter(&mut app);
    let out = app.take_effects();
    assert!(out.contains(&Effect::Transcript { id: 0, op: TranscriptOp::User(s("hello")) }));
    assert!(sends(&out).contains(&&Cmd::Prompt { session_id: s("s1"), text: s("hello") }));
    assert_eq!(app.state, RunState::Starting);
    assert_eq!(app.draft_text(), "");
    assert_eq!(app.live.draft.input.history, vec![s("hello")]);
    assert!(!app.live.chat.show_banner);
}

#[test]
fn prompts_typed_during_a_turn_wait_and_are_sent_in_order() {
    let mut app = bound();
    status(&mut app, "s1", true);
    draft(&mut app, "first");
    enter(&mut app);
    draft(&mut app, "second");
    enter(&mut app);
    let out = app.take_effects();
    assert!(!sends(&out).iter().any(|c| matches!(c, Cmd::Prompt { .. })));
    assert_eq!(app.live.queue.prompts.len(), 2);
    assert_eq!(app.queue_previews(5)[0].summary, "first");
    status(&mut app, "s1", false);
    let out = app.take_effects();
    assert!(sends(&out).contains(&&Cmd::Prompt { session_id: s("s1"), text: s("first") }));
    assert_eq!(app.live.queue.prompts.len(), 1);
}

#[test]
fn a_text_waits_for_its_session() {
    let mut app = start(false);
    draft(&mut app, "early");
    enter(&mut app);
    let out = app.take_effects();
    assert!(!sends(&out).iter().any(|c| matches!(c, Cmd::Prompt { .. })));
    assert_eq!(app.live.queue.prompts.len(), 1);
    app.handle(AppEvent::Ctl(CtlEvent::SessionBound { session_id: s("r1"), notice: None }));
    let out = app.take_effects();
    assert!(sends(&out).contains(&&Cmd::Prompt { session_id: s("r1"), text: s("early") }));
    assert_eq!(app.session_id(), "r1");
}

#[test]
fn enter_on_an_empty_draft_sends_the_head() {
    let mut app = bound();
    status(&mut app, "s1", true);
    draft(&mut app, "now");
    enter(&mut app);
    app.take_effects();
    enter(&mut app);
    let out = app.take_effects();
    let id = match sends(&out).iter().find(|c| matches!(c, Cmd::Steer { .. })) {
        Some(Cmd::Steer { message_id, text, .. }) => {
            assert_eq!(text, "now");
            *message_id
        }
        _ => panic!("the head was not sent into the turn"),
    };
    assert!(app.live.queue.prompts.is_empty());
    app.handle(AppEvent::Ctl(CtlEvent::SteerSettled { message_id: id, deferred: true }));
    assert_eq!(app.live.queue.prompts.len(), 1);
    assert_eq!(app.live.queue.prompts[0].id, id);
    assert!(app.take_effects().contains(&Effect::Transcript {
        id: 0,
        op: TranscriptOp::Hide { message_id: id }
    }));
}

#[test]
fn a_deferred_head_is_the_head_again() {
    let mut app = bound();
    status(&mut app, "s1", true);
    for t in ["one", "two"] {
        draft(&mut app, t);
        enter(&mut app);
    }
    let before: Vec<u64> = app.live.queue.prompts.iter().map(|p| p.id).collect();
    assert_eq!(before, vec![1, 2]);
    enter(&mut app);
    assert_eq!(app.live.queue.prompts.len(), 1);
    assert_eq!(app.live.queue.steers.len(), 1);
    assert_eq!(app.live.queue.steers[0].message_id, 1);
    app.handle(AppEvent::Ctl(CtlEvent::SteerSettled { message_id: 1, deferred: true }));
    let after: Vec<u64> = app.live.queue.prompts.iter().map(|p| p.id).collect();
    assert_eq!(after, before);
    assert!(app.live.queue.steers.is_empty());
    enter(&mut app);
    app.handle(AppEvent::Ctl(CtlEvent::SteerSettled { message_id: 1, deferred: false }));
    assert_eq!(app.live.queue.prompts.len(), 1);
    assert_eq!(app.live.queue.prompts[0].id, 2);
    assert!(app.live.queue.steers.is_empty());
}

#[test]
fn a_queued_prompt_is_edited_in_its_place() {
    let mut app = bound();
    status(&mut app, "s1", true);
    for t in ["one", "two"] {
        draft(&mut app, t);
        enter(&mut app);
    }
    act(&mut app, KeyCode::Up, Action::EditQueuedPrompt);
    assert!(app.queue_selecting());
    act(&mut app, KeyCode::Down, Action::CursorDown);
    let at = app.live.queue.selection.unwrap();
    act(&mut app, KeyCode::Enter, Action::Enter);
    assert!(app.queue_editing());
    let edited = app.draft_text();
    draft(&mut app, "changed");
    enter(&mut app);
    assert!(!app.queue_editing());
    assert_eq!(app.live.queue.prompts.len(), 2);
    assert_eq!(app.queue_previews(5)[at].summary, "changed");
    assert!(edited == "one" || edited == "two");
}

#[test]
fn a_queued_prompt_is_deleted_after_a_question() {
    let mut app = bound();
    status(&mut app, "s1", true);
    draft(&mut app, "one");
    enter(&mut app);
    act(&mut app, KeyCode::Up, Action::EditQueuedPrompt);
    act(&mut app, KeyCode::Enter, Action::Enter);
    let edit = same_edit(&app);
    press(
        &mut app,
        KeyCode::Char('d'),
        KeyModifiers { control: true, ..none() },
        None,
        edit,
    );
    assert!(app.queue_delete_confirming());
    act(&mut app, KeyCode::Esc, Action::Esc);
    assert!(!app.queue_delete_confirming());
    assert!(app.queue_editing());
    let edit = same_edit(&app);
    press(
        &mut app,
        KeyCode::Char('d'),
        KeyModifiers { control: true, ..none() },
        None,
        edit,
    );
    enter(&mut app);
    assert!(app.live.queue.prompts.is_empty());
}

#[test]
fn the_compositor_is_told_of_the_queue() {
    let mut app = bound();
    status(&mut app, "s1", true);
    app.take_effects();
    draft(&mut app, "one");
    enter(&mut app);
    let out = app.take_effects();
    match sends(&out).iter().find(|c| matches!(c, Cmd::QueueSnapshot { .. })) {
        Some(Cmd::QueueSnapshot { snapshot }) => assert_eq!(snapshot.count, 1),
        _ => panic!("no snapshot"),
    }
}

#[test]
fn a_shell_command_runs_outside_the_session() {
    let mut app = bound();
    draft(&mut app, "!ls");
    enter(&mut app);
    let out = app.take_effects();
    let id = match out.iter().find(|e| matches!(e, Effect::RunShell { .. })) {
        Some(Effect::RunShell { id, command }) => {
            assert_eq!(command, "ls");
            *id
        }
        _ => panic!("nothing was run"),
    };
    app.handle(AppEvent::ShellDone { id, code: Some(0), output: s("a\n") });
    let out = app.take_effects();
    assert!(out.contains(&Effect::Transcript {
        id: 0,
        op: TranscriptOp::ShellDone { id, code: Some(0), output: s("a\n") }
    }));
    assert!(out.contains(&Effect::RefreshBranch));
    assert!(app.counts.pending_shells.is_empty());
}

#[test]
fn a_prompt_of_the_command_line_is_sent() {
    let mut app = bound();
    app.auto_prompt("go");
    let out = app.take_effects();
    assert!(sends(&out).contains(&&Cmd::Prompt { session_id: s("s1"), text: s("go") }));
}

// --- images ------------------------------------------------------------------------------

fn image() -> Attachment {
    Attachment {
        token: s("[image 1]"),
        name: s("a.png"),
        path: s("/tmp/a.png"),
        media_type: s("image/png"),
        data: s("AAAA"),
        image: 1,
    }
}

#[test]
fn an_image_rides_in_the_draft() {
    let mut app = bound();
    app.reply(Reply::Image { image: image(), caption: s("look") });
    assert!(app.draft_text().contains("[image 1]"));
    assert_eq!(app.token_spans().len(), 1);
    assert_eq!(app.preview_att(), Some(0));
    enter(&mut app);
    let out = app.take_effects();
    match sends(&out).iter().find(|c| matches!(c, Cmd::PromptImages { .. })) {
        Some(Cmd::PromptImages { blocks, .. }) => {
            assert_eq!(blocks[0], PromptBlock::Text(s("look")));
            assert!(matches!(blocks[1], PromptBlock::Image(_)));
        }
        _ => panic!("nothing was sent"),
    }
    assert!(app.live.draft.images.is_empty());
}

#[test]
fn images_and_what_is_sent_now_wait_for_a_session() {
    let bind = |app: &mut App| {
        assert_eq!(app.live.queue.prompts.len(), 1);
        app.handle(AppEvent::Ctl(CtlEvent::SessionBound { session_id: s("r1"), notice: None }));
        assert!(app.live.queue.prompts.is_empty());
        app.take_effects()
    };
    let prompts = |c: &&Cmd| {
        matches!(
            c,
            Cmd::Prompt { .. }
                | Cmd::PromptImages { .. }
                | Cmd::Steer { .. }
                | Cmd::SteerImages { .. }
        )
    };
    let mut app = start(false);
    app.reply(Reply::Image { image: image(), caption: s("look") });
    enter(&mut app);
    assert_eq!(tip(&app), "image queued · empty enter sends first");
    assert!(!sends(&app.take_effects()).iter().any(prompts));
    let out = bind(&mut app);
    assert!(sends(&out).iter().any(|c| matches!(c, Cmd::PromptImages { .. })));
    let mut app = start(false);
    draft(&mut app, "now");
    act(&mut app, KeyCode::Enter, Action::SendNow);
    assert_eq!(tip(&app), "queued · empty enter sends first · alt+↑ edit");
    assert_eq!(app.draft_text(), "");
    assert!(!sends(&app.take_effects()).iter().any(prompts));
    let out = bind(&mut app);
    assert!(sends(&out).contains(&&Cmd::Prompt { session_id: s("r1"), text: s("now") }));
    let mut app = start(false);
    app.reply(Reply::Image { image: image(), caption: s("look") });
    act(&mut app, KeyCode::Enter, Action::SendNow);
    assert!(!sends(&app.take_effects()).iter().any(prompts));
    let out = bind(&mut app);
    assert!(sends(&out).iter().any(|c| matches!(c, Cmd::PromptImages { .. })));
}

#[test]
fn deleting_into_a_chip_deletes_the_image() {
    let mut app = bound();
    app.reply(Reply::Image { image: image(), caption: s("") });
    let end = app.token_spans()[0].1;
    app.live.draft.input.cursor = end;
    act(&mut app, KeyCode::Backspace, Action::Backspace);
    assert!(app.live.draft.images.is_empty());
    assert!(!app.draft_text().contains("[image 1]"));
    assert_eq!(tip(&app), "removed a.png");
}

#[test]
fn an_unreadable_image_is_said() {
    let mut app = bound();
    app.reply(Reply::ImageFailed { path: s("/x.png"), error: s("gone") });
    assert_eq!(tip(&app), "cannot read /x.png: gone");
    app.reply(Reply::NoImage);
    assert_eq!(tip(&app), "clipboard has no image, or this platform isn't supported");
}

// --- keys --------------------------------------------------------------------------------

#[test]
fn escape_interrupts_and_keeps_the_draft() {
    let mut app = bound();
    status(&mut app, "s1", true);
    draft(&mut app, "half");
    app.take_effects();
    act(&mut app, KeyCode::Esc, Action::Esc);
    assert!(app.take_effects().contains(&Effect::TryInterrupt));
    assert_eq!(app.draft_text(), "half");
    app.reply(Reply::Interrupted { done: true });
    assert_eq!(app.live.run.note, "cancelling");
    let out = app.take_effects();
    assert!(sends(&out).contains(&&Cmd::Interrupt { session_id: s("s1") }));
    app.reply(Reply::Interrupted { done: false });
    assert_eq!(tip(&app), "demo turn — it finishes on its own");
}

#[test]
fn a_cleared_draft_is_recalled() {
    let mut app = bound();
    draft(&mut app, "keep me");
    act(&mut app, KeyCode::Char('c'), Action::CtrlC);
    assert_eq!(app.draft_text(), "");
    assert!(!app.status.quit);
    act(&mut app, KeyCode::Up, Action::HistoryPrev);
    assert_eq!(app.draft_text(), "keep me");
    act(&mut app, KeyCode::Down, Action::HistoryNext);
    assert_eq!(app.draft_text(), "");
}

#[test]
fn quitting_takes_two_presses() {
    let mut app = bound();
    act(&mut app, KeyCode::Char('c'), Action::CtrlC);
    assert!(!app.status.quit);
    assert_eq!(tip(&app), "press ctrl+c again to exit");
    act(&mut app, KeyCode::Char('c'), Action::CtrlC);
    assert!(app.status.quit);
}

#[test]
fn presses_too_far_apart_do_not_quit() {
    let mut app = bound();
    act(&mut app, KeyCode::Char('c'), Action::CtrlC);
    app.set_time(1000 + 1501, 6_000_000);
    app.tick(false, 3);
    act(&mut app, KeyCode::Char('c'), Action::CtrlC);
    assert!(!app.status.quit);
}

#[test]
fn typing_changes_the_draft() {
    let mut app = bound();
    press(
        &mut app,
        KeyCode::Char('x'),
        none(),
        Some(Action::Insert('x')),
        Edit { buf: s("x"), cursor: 1 },
    );
    assert_eq!(app.draft_text(), "x");
    assert!(app.take_effects().contains(&Effect::FileMenu(FileMenuOp::Scan)));
}

#[test]
fn a_selection_is_copied_and_cut() {
    let mut app = bound();
    draft(&mut app, "hello world");
    let mut k = KeyPress {
        key: KeyEvent { code: KeyCode::Char('x'), modifiers: none(), kind: KeyEventKind::Press },
        action: Some(Action::CopySelection),
        viewer_action: None,
        vim: None,
        edit: same_edit(&app),
        selected: None,
        range: Some((0, 5)),
        form: FormStep { editing: false, moved: false, done: false },
        slide: None,
        debug: None,
    };
    app.reply(Reply::Key(k));
    assert!(app.take_effects().contains(&Effect::Copy(s("hello"))));
    app.reply(Reply::Copied { text: s("hello"), done: true });
    assert_eq!(tip(&app), "✓ copied 5 chars — esc clears the highlight");
    k = KeyPress {
        key: KeyEvent { code: KeyCode::Char('x'), modifiers: none(), kind: KeyEventKind::Press },
        action: Some(Action::CutSelection),
        viewer_action: None,
        vim: None,
        edit: same_edit(&app),
        selected: None,
        range: Some((0, 6)),
        form: FormStep { editing: false, moved: false, done: false },
        slide: None,
        debug: None,
    };
    app.reply(Reply::Key(k));
    assert_eq!(app.draft_text(), "world");
    act(&mut app, KeyCode::Char('x'), Action::CutSelection);
    assert_eq!(tip(&app), "nothing to cut — select with shift+arrows");
}

#[test]
fn a_failed_copy_is_said() {
    let mut app = bound();
    app.reply(Reply::Copied { text: s("x"), done: false });
    assert!(tip(&app).starts_with("copy failed"));
}

#[test]
fn a_paste_goes_into_the_draft() {
    let mut app = bound();
    app.handle(AppEvent::Term(TermEvent::Paste(s("a\r\nb"))));
    assert_eq!(app.draft_text(), "a\nb");
    app.take_effects();
    app.handle(AppEvent::Term(TermEvent::Paste(s("\u{1b}[97u\u{1b}[98;1:3u"))));
    assert_eq!(
        app.take_effects(),
        vec![
            Effect::ReadHostModels,
            Effect::Press(KeyEvent {
                code: KeyCode::Char('a'),
                modifiers: none(),
                kind: KeyEventKind::Press
            })
        ]
    );
}

#[test]
fn released_keys_are_ignored() {
    let mut app = bound();
    let key = KeyEvent { code: KeyCode::Char('a'), modifiers: none(), kind: KeyEventKind::Release };
    app.handle(AppEvent::Term(TermEvent::Key(key)));
    assert!(app.take_effects().is_empty());
    let key = KeyEvent { code: KeyCode::Char('a'), modifiers: none(), kind: KeyEventKind::Repeat };
    app.handle(AppEvent::Term(TermEvent::Key(key)));
    assert_eq!(app.take_effects(), vec![Effect::ReadHostModels, Effect::Press(key)]);
}

#[test]
fn the_file_browser_follows_a_token() {
    let mut app = bound();
    app.reply(Reply::FileToken(Some(s("@sr"))));
    assert_eq!(app.take_effects(), vec![Effect::FileMenu(FileMenuOp::Open)]);
    app.reply(Reply::FileMenuOpened { open: true });
    app.reply(Reply::FileToken(Some(s("@src"))));
    assert_eq!(app.take_effects(), vec![Effect::FileMenu(FileMenuOp::Follow)]);
    act(&mut app, KeyCode::Esc, Action::Esc);
    assert_eq!(app.take_effects(), vec![Effect::FileMenu(FileMenuOp::Dismiss)]);
    app.reply(Reply::FileMenuDismissed { token: s("@src") });
    app.reply(Reply::FileToken(Some(s("@src"))));
    assert!(app.take_effects().is_empty());
    app.reply(Reply::FileToken(Some(s("@srcs"))));
    assert_eq!(app.take_effects(), vec![Effect::FileMenu(FileMenuOp::Open)]);
    app.reply(Reply::FileMenuOpened { open: true });
    app.reply(Reply::FileSettled(Edit { buf: s("@src/lib.rs"), cursor: 11 }));
    assert_eq!(app.draft_text(), "@src/lib.rs");
    assert!(!app.live.draft.file_menu);
}

// --- the slash menu ----------------------------------------------------------------------

#[test]
fn a_slash_opens_the_menu() {
    let mut app = bound();
    draft(&mut app, "/the");
    assert!(app.slash_completion_open());
    let names: Vec<String> = app.slash_matches().iter().map(|e| e.name.clone()).collect();
    assert!(names.contains(&s("theme")));
    act(&mut app, KeyCode::Tab, Action::TabComplete);
    assert_eq!(app.draft_text(), "/theme ");
    act(&mut app, KeyCode::Esc, Action::Esc);
    assert!(!app.slash_completion_open());
}

#[test]
fn commands_are_described_in_the_language_spoken() {
    let mut app = bound();
    let help = |app: &mut App| {
        draft(app, "/help");
        let found = app.slash_matches().into_iter().find(|e| e.name == "help");
        found.unwrap().desc
    };
    let english = help(&mut app);
    assert_ne!(english, "查看帮助");
    app.run_slash("lang", "zh");
    assert_eq!(help(&mut app), "查看帮助");
    app.run_slash("lang", "en");
    assert_eq!(help(&mut app), english);
}

#[test]
fn commands_take_arguments() {
    let app = bound();
    let langs: Vec<String> =
        app.builtin_argument_options("lang").iter().map(|o| o.0.clone()).collect();
    assert_eq!(langs, vec![s("zh"), s("en")]);
    assert!(app.builtin_argument_options("help").is_empty());
}

#[test]
fn the_models_of_the_host_are_read_anew() {
    let mut app = bound();
    let listed = |app: &App| -> Vec<String> {
        app.builtin_argument_options("model").iter().map(|o| o.0.clone()).collect()
    };
    let stock = listed(&app);
    app.reply(Reply::HostModels(Some(s(r#"["m1", {"id": "m2"}]"#))));
    assert_eq!(listed(&app), vec![s("m1"), s("m2")]);
    app.reply(Reply::HostModels(Some(s(r#"[{"id": "m3"}]"#))));
    assert_eq!(listed(&app), vec![s("m1"), s("m3")]);
    act(&mut app, KeyCode::Char('p'), Action::ModelPicker);
    let items = &app.menu.picker.as_ref().unwrap().items;
    assert_eq!(items.iter().map(|i| i.id.clone()).collect::<Vec<_>>(), vec![s("m1"), s("m3")]);
    for none in [None, Some(s("nonsense")), Some(s("[]")), Some(s("{}"))] {
        app.reply(Reply::HostModels(none));
        assert_eq!(listed(&app), stock);
    }
}

#[test]
fn the_language_is_switched() {
    let mut app = bound();
    app.run_slash("lang", "zh");
    assert_eq!(app.base.locale, Locale::Zh);
    let out = app.take_effects();
    assert!(out.contains(&Effect::Transcript { id: 0, op: TranscriptOp::Speak(Locale::Zh) }));
    assert!(out.contains(&Effect::SaveSettings));
    assert_eq!(tip(&app), "界面语言已切换为中文");
}

#[test]
fn commands_of_the_agent_are_skills() {
    let mut app = bound();
    app.handle(AppEvent::Ctl(CtlEvent::Skills {
        session_id: None,
        skills: vec![SkillInfo {
            name: s("review"),
            description: s("look at it"),
            input_hint: None,
            config_action: None,
            client_command: false,
        }],
    }));
    app.take_effects();
    draft(&mut app, "/review this");
    enter(&mut app);
    let out = app.take_effects();
    assert!(
        sends(&out).contains(&&Cmd::Prompt { session_id: s("s1"), text: s("/review this") })
    );
}

#[test]
fn vim_is_switched_on() {
    let mut app = bound();
    app.run_slash("vim", "on");
    assert!(app.take_effects().contains(&Effect::SetVim(true)));
    app.reply(Reply::Editor { vim: true, normal: true });
    assert!(app.wants_vim());
}

// --- tabs --------------------------------------------------------------------------------

fn ids(app: &App) -> Vec<String> {
    let mut out: Vec<String> = app.tabs.parked.iter().map(|p| p.id.clone()).collect();
    out.insert(app.live_tab_index(), app.live.id.clone());
    out
}

/// Three tabs of a demo, the last in view.
fn three_tabs() -> App {
    let mut app = start(true);
    draft(&mut app, "first draft");
    app.live.chat.only_notices = false;
    app.run_slash("new", "s2");
    app.live.chat.only_notices = false;
    app.run_slash("new", "s3");
    app.take_effects();
    assert_eq!(ids(&app), vec![s("s1"), s("s2"), s("s3")]);
    app
}

#[test]
fn switching_keeps_the_row_and_the_drafts() {
    let mut app = three_tabs();
    app.switch_view_to_tab(0);
    assert_eq!(app.session_id(), "s1");
    assert_eq!(app.draft_text(), "first draft");
    assert_eq!(ids(&app), vec![s("s1"), s("s2"), s("s3")]);
    app.run_slash("session", "prev");
    assert_eq!(app.session_id(), "s3");
    app.run_slash("session", "next");
    assert_eq!(app.session_id(), "s1");
    assert_eq!(app.draft_text(), "first draft");
    app.switch_to_session(1);
    assert_eq!(ids(&app), vec![s("s1"), s("s2"), s("s3")]);
    let rows = app.session_tabs();
    assert_eq!(rows.len(), 3);
    assert!(rows[1].current && !rows[0].current);
}

#[test]
fn closing_leaves_the_others() {
    let mut app = three_tabs();
    app.switch_view_to_tab(1);
    app.run_slash("close", "");
    assert_eq!(ids(&app), vec![s("s1"), s("s3")]);
    app.run_slash("close", "");
    app.run_slash("close", "");
    assert_eq!(ids(&app).len(), 1);
    assert_eq!(tip(&app), "cannot close the last session — /new opens another first");
}

#[test]
fn facts_of_other_tabs_stay_out_of_view() {
    let mut app = three_tabs();
    app.handle(AppEvent::Ui(UiEvent::TextDelta { session: s("s1"), text: s("hi") }));
    assert_eq!(app.state, RunState::Idle);
    assert_eq!(app.session_id(), "s3");
    assert_eq!(
        app.take_effects(),
        vec![Effect::Transcript {
            id: 0,
            op: TranscriptOp::Apply(UiEvent::TextDelta { session: s("s1"), text: s("hi") })
        }]
    );
    app.handle(AppEvent::Ui(UiEvent::TextDelta { session: s("nobody"), text: s("hi") }));
    assert!(app.take_effects().is_empty());
}

#[test]
fn a_session_asked_for_by_a_closed_tab_is_forgotten() {
    let mut app = bound();
    app.live.chat.only_notices = false;
    app.run_slash("new", "");
    assert_eq!(app.tabs.awaiting.len(), 1);
    app.run_slash("close", "");
    assert!(!app.tabs.awaiting[0].open);
    app.take_effects();
    app.handle(AppEvent::Ctl(CtlEvent::SessionBound { session_id: s("late"), notice: None }));
    let out = app.take_effects();
    assert!(sends(&out).contains(&&Cmd::ForgetSession { session_id: s("late") }));
    assert_eq!(app.session_id(), "s1");
    assert_eq!(app.session_tab_count(), 1);
}

#[test]
fn a_new_tab_takes_up_its_session() {
    let mut app = bound();
    app.live.chat.only_notices = false;
    app.run_slash("new", "");
    let waiting = app.session_id();
    app.handle(AppEvent::Ctl(CtlEvent::SessionBoundTo {
        previous_id: waiting,
        session_id: s("s9"),
        notice: None,
    }));
    assert_eq!(app.session_id(), "s9");
    assert!(app.live.bound);
    assert_eq!(ids(&app), vec![s("s1"), s("s9")]);
}

#[test]
fn tabs_are_clicked() {
    let mut app = three_tabs();
    app.frame.tab_rects = vec![
        (Rect { x: 0, y: 0, width: 5, height: 1 }, 1),
        (Rect { x: 5, y: 0, width: 5, height: 1 }, 2),
    ];
    app.pointer.strip_offset = 1;
    pointer(&mut app, MouseEventKind::Down(MouseButton::Left), 2, 0);
    assert_eq!(app.session_id(), "s2");
    assert_eq!(app.pointer.strip_offset, 0);
}

// --- the runtime -------------------------------------------------------------------------

#[test]
fn a_lost_runtime_takes_the_queue_with_it() {
    let mut app = bound();
    status(&mut app, "s1", true);
    draft(&mut app, "waiting");
    enter(&mut app);
    app.take_effects();
    app.handle(AppEvent::RuntimeExited(Some(3)));
    assert_eq!(app.state, RunState::Idle);
    assert!(app.live.queue.prompts.is_empty());
    assert!(!app.tabs.startup_bound);
    assert!(app.take_effects().contains(&Effect::Transcript {
        id: 0,
        op: TranscriptOp::Notice {
            level: NoticeLevel::Warn,
            text: s("runtime exited with code 3 — next prompt restarts it")
        }
    }));
    app.handle(AppEvent::RuntimeExited(Some(0)));
    assert!(app.take_effects().is_empty());
}

#[test]
fn signals_quit() {
    let mut app = bound();
    app.handle(AppEvent::RuntimeStderr(s("noise")));
    assert!(!app.status.quit);
    app.handle(AppEvent::Terminate);
    assert!(app.status.quit);
}

#[test]
fn a_picked_model_is_confirmed_by_a_turn() {
    let mut app = bound();
    app.handle(AppEvent::Ctl(CtlEvent::Catalog {
        session_id: None,
        models: vec![CatalogModel { provider: s("p"), id: s("m2"), name: s("M2"), vision: false }],
        presets: Vec::new(),
    }));
    app.take_effects();
    app.run_slash("model", "m2");
    let out = app.take_effects();
    assert!(sends(&out).iter().any(|c| matches!(c, Cmd::SelectModel { .. })));
    assert_eq!(app.current_model(), "m2");
    app.reply(Reply::Transcript { id: 0, last_model: Some(s("m2")), only_notices: false });
    assert_eq!(app.live.models.selected, None);
    assert_eq!(app.current_model(), "m2");
}

// --- notifications -----------------------------------------------------------------------

fn object(entries: Vec<(&str, JsonValue)>) -> JsonValue {
    JsonValue::Object(entries.into_iter().map(|(k, v)| (s(k), v)).collect())
}

fn text(t: &str) -> JsonValue {
    JsonValue::Str(s(t))
}

fn rpc(app: &mut App, method: &str, params: JsonValue) {
    app.handle(AppEvent::Rpc { method: s(method), params });
}

fn chunk(t: &str) -> AppEvent {
    AppEvent::Rpc {
        method: s("session/update"),
        params: object(vec![
            ("sessionId", text("s1")),
            (
                "update",
                object(vec![
                    ("sessionUpdate", text("agent_message_chunk")),
                    ("content", object(vec![("type", text("text")), ("text", text(t))])),
                ]),
            ),
        ]),
    }
}

#[test]
fn text_streams_in() {
    let mut app = bound();
    app.handle(chunk("hi"));
    assert_eq!(
        app.take_effects(),
        vec![Effect::Transcript {
            id: 0,
            op: TranscriptOp::Apply(UiEvent::TextDelta { session: s("s1"), text: s("hi") })
        }]
    );
}

#[test]
fn bursts_are_merged() {
    let mut burst = vec![chunk("a"), chunk("b"), AppEvent::Terminate, chunk("c")];
    coalesce_session_updates(&mut burst);
    assert_eq!(burst, vec![chunk("ab"), AppEvent::Terminate, chunk("c")]);
    coalesce_session_updates(&mut burst);
    assert_eq!(burst, vec![chunk("ab"), AppEvent::Terminate, chunk("c")]);
}

#[test]
fn malformed_notifications_tell_nothing() {
    let told = |method: &str, params: &JsonValue| {
        parse_notification(method, params, "theme/update", None)
    };
    for method in ["session.status", "subagent.started", "subagent.finished"] {
        assert!(told(method, &JsonValue::Null).is_empty());
        assert!(told(method, &object(vec![("childSessionId", JsonValue::Bool(true))])).is_empty());
    }
    assert!(told("subagent.started", &object(vec![("childSessionId", text("c1"))])).is_empty());
    assert_eq!(
        told(
            "subagent.started",
            &object(vec![("parentSessionId", text("s1")), ("childSessionId", text("c1"))])
        ),
        vec![UiEvent::SubagentStarted { parent: s("s1"), child: s("c1") }]
    );
    assert_eq!(
        told("subagent.finished", &object(vec![("childSessionId", text("c1"))])),
        vec![UiEvent::SubagentFinished { child: s("c1"), failed: false }]
    );
}

#[test]
fn unknown_notifications_are_ignored() {
    let mut app = bound();
    rpc(&mut app, "what/ever", JsonValue::Null);
    rpc(&mut app, "session/update", JsonValue::Bool(true));
    assert!(app.take_effects().is_empty());
}

#[test]
fn subagents_are_walked() {
    let mut app = bound();
    app.handle(AppEvent::Ui(UiEvent::SubagentStarted { parent: s("s1"), child: s("c1") }));
    assert_eq!(app.live.agents.views.len(), 1);
    assert!(app.subagent_in_current_batch("c1"));
    assert_eq!(app.agent_navigation_ids(), vec![s("s1"), s("c1")]);
    let go = |action: &str| {
        object(vec![
            ("protocol", JsonValue::Number(Number::PosInt(0))),
            ("action", text(action)),
        ])
    };
    rpc(&mut app, "agents/navigate", go("begin"));
    rpc(&mut app, "agents/navigate", go("next"));
    rpc(&mut app, "agents/navigate", go("confirm"));
    assert_eq!(app.live.agents.active, Some(s("c1")));
    assert_eq!(app.displayed_transcript(), app.live.agents.views[0].transcript);
    act(&mut app, KeyCode::Char('q'), Action::Insert('q'));
    assert_eq!(app.live.agents.active, None);
    assert_eq!(app.displayed_transcript(), 0);
    rpc(
        &mut app,
        "agents/select",
        object(vec![("protocol", JsonValue::Number(Number::PosInt(7))), ("id", text("c1"))]),
    );
    assert_eq!(app.live.agents.active, None);
}

// --- plugins -----------------------------------------------------------------------------

#[test]
fn payloads_are_known_by_their_method() {
    let app = bound();
    assert_eq!(app.payload_of("ui/update"), Some(UpdateKind::Ui));
    assert_eq!(app.payload_of("slots/update"), Some(UpdateKind::Slot));
    assert_eq!(app.payload_of("session/update"), None);
}

#[test]
fn lists_of_plugins_replace_each_other() {
    let mut app = bound();
    let item = UiPluginItem { id: s("u"), label: s("U"), source: s("x"), status: s("active") };
    app.reply(Reply::Plugin(PluginUpdate::Ui { protocol: 1, plugins: vec![item.clone()] }));
    assert!(app.plugins.ui.is_empty());
    app.reply(Reply::Plugin(PluginUpdate::Ui { protocol: 0, plugins: vec![item] }));
    assert_eq!(app.plugins.ui.len(), 1);
    app.reply(Reply::Plugin(PluginUpdate::Bad { kind: UpdateKind::Ui, error: s("no") }));
    assert_eq!(tip(&app), "UI Plugin catalog ignored: no");
    app.reply(Reply::Plugin(PluginUpdate::Bad { kind: UpdateKind::Palette, error: s("no") }));
    assert_eq!(tip(&app), "palette ignored: no");
    app.reply(Reply::Plugin(PluginUpdate::Foreign));
    assert_eq!(app.plugins.ui.len(), 1);
}

#[test]
fn places_on_the_screen_show_the_newest() {
    let mut app = bound();
    let content = |rev: Option<u64>, content: u64| {
        Reply::Plugin(PluginUpdate::Slot(SlotContent { slot: s("a"), rev, content }))
    };
    app.reply(content(Some(2), 20));
    app.reply(content(Some(2), 21));
    app.reply(content(Some(1), 22));
    assert_eq!(app.plugins.slots.len(), 1);
    assert_eq!(app.plugins.slots[0].content, 20);
    app.reply(content(Some(3), 30));
    assert_eq!(app.plugins.slots[0].content, 30);
    app.reply(content(None, 40));
    assert_eq!(app.plugins.slots[0].content, 40);
}

#[test]
fn the_badge_of_the_harness_is_what_its_place_shows() {
    let mut app = bound();
    let content = |slot: &str, rev: Option<u64>, content: u64| {
        Reply::Plugin(PluginUpdate::Slot(SlotContent { slot: s(slot), rev, content }))
    };
    app.reply(content("composer.dock", Some(1), 7));
    assert_eq!(app.harness_badge(), None);
    app.reply(content("conversation.harness", Some(2), 8));
    assert_eq!(app.harness_badge(), Some(8));
    app.reply(content("conversation.harness", Some(1), 9));
    assert_eq!(app.harness_badge(), Some(8));
    app.reply(content("conversation.harness", Some(3), 10));
    assert_eq!(app.harness_badge(), Some(10));
    assert_eq!(app.slot_content("composer.dock"), Some(7));
}

fn select_of(values: Vec<&str>, value: &str) -> SelectOverlay {
    SelectOverlay {
        id: s("pick"),
        title: s("Pick"),
        value: s(value),
        options: values
            .into_iter()
            .map(|v| SelectOption {
                disabled: false,
                deletable: false,
                value: s(v),
                label: s(v),
                description: None,
                group: None,
            })
            .collect(),
        searchable: true,
        query: s(""),
        sel: 0,
    }
}

fn overlay(app: &mut App, o: Option<PluginOverlay>) {
    app.reply(Reply::Plugin(PluginUpdate::Overlay { protocol: 0, overlay: o }));
}

#[test]
fn a_select_is_opened_moved_and_submitted() {
    let mut app = bound();
    overlay(&mut app, Some(PluginOverlay::Select(select_of(vec!["a", "b"], "a"))));
    assert_eq!(app.menu.select.as_ref().unwrap().sel, 0);
    app.take_effects();
    act(&mut app, KeyCode::Down, Action::CursorDown);
    let out = app.take_effects();
    assert!(sends(&out).contains(&&Cmd::PluginOverlayEvent {
        id: s("pick"),
        event: s("change"),
        value: Some(text("b"))
    }));
    overlay(&mut app, Some(PluginOverlay::Select(select_of(vec!["x", "b", "a"], "x"))));
    assert_eq!(app.menu.select.as_ref().unwrap().value, "b");
    act(&mut app, KeyCode::Enter, Action::Enter);
    let out = app.take_effects();
    assert!(sends(&out).contains(&&Cmd::PluginOverlayEvent {
        id: s("pick"),
        event: s("submit"),
        value: Some(text("b"))
    }));
    assert!(app.menu.select.is_none());
}

#[test]
fn a_select_takes_a_pasted_query() {
    let mut app = bound();
    overlay(&mut app, Some(PluginOverlay::Select(select_of(vec!["alpha", "beta"], "alpha"))));
    app.handle(AppEvent::Term(TermEvent::Paste(s("be\nta"))));
    let open = app.menu.select.as_ref().unwrap();
    assert_eq!(open.query, "beta");
    assert_eq!(open.sel, 1);
    assert_eq!(app.draft_text(), "");
}

#[test]
fn popups_that_make_no_sense_are_refused() {
    let mut app = bound();
    overlay(&mut app, Some(PluginOverlay::Select(select_of(vec!["a"], "zz"))));
    assert_eq!(tip(&app), "overlay ignored: invalid select");
    let slider = SliderOverlay { id: s("sl"), value: JsonValue::Null };
    overlay(&mut app, Some(PluginOverlay::Slider { slider, valid: false }));
    assert_eq!(tip(&app), "overlay ignored: invalid slider");
    assert!(app.menu.slider.is_none());
    let view = ViewOverlay {
        id: s("v"),
        title: s(""),
        body: ViewBody::Markdown(s("x")),
        scroll: 0,
        notify_plugin: false,
    };
    overlay(&mut app, Some(PluginOverlay::View { view, valid: true }));
    assert_eq!(tip(&app), "overlay ignored: invalid view");
}

#[test]
fn closing_a_popup_leaves_those_of_the_client() {
    let mut app = bound();
    app.run_slash("help", "");
    assert!(app.live.popups.view.is_some());
    overlay(&mut app, None);
    assert!(app.live.popups.view.is_some());
    let view = ViewOverlay {
        id: s("v"),
        title: s("V"),
        body: ViewBody::Nodes(3),
        scroll: 0,
        notify_plugin: false,
    };
    overlay(&mut app, Some(PluginOverlay::View { view, valid: true }));
    assert!(app.live.popups.view.as_ref().unwrap().notify_plugin);
    overlay(&mut app, None);
    assert!(app.live.popups.view.is_none());
}

#[test]
fn a_slider_slides() {
    let mut app = bound();
    let slider = SliderOverlay { id: s("sl"), value: JsonValue::Number(Number::PosInt(1)) };
    overlay(&mut app, Some(PluginOverlay::Slider { slider, valid: true }));
    app.take_effects();
    app.reply(Reply::Key(KeyPress {
        key: KeyEvent { code: KeyCode::Right, modifiers: none(), kind: KeyEventKind::Press },
        action: None,
        viewer_action: None,
        vim: None,
        edit: Edit { buf: s(""), cursor: 0 },
        selected: None,
        range: None,
        form: FormStep { editing: false, moved: false, done: false },
        slide: Some(JsonValue::Number(Number::PosInt(2))),
        debug: None,
    }));
    let out = app.take_effects();
    assert!(sends(&out).contains(&&Cmd::PluginOverlayEvent {
        id: s("sl"),
        event: s("change"),
        value: Some(JsonValue::Number(Number::PosInt(2)))
    }));
}

// --- facts on a session ------------------------------------------------------------------

fn stats() -> Stats {
    Stats {
        turns: 3,
        steps: 4,
        turn_millis: 136_000,
        tool_millis: 1_000,
        ttft_count: 2,
        ttft_total_millis: 3_001,
    }
}

#[test]
fn a_session_is_counted() {
    let u = Usage { input: 1, output: 20, cached: 300, reasoning: 4000 };
    let c = session_counts(u, stats());
    assert_eq!(c.total, 4321);
    assert_eq!(c.llm_millis, 135_000);
    assert_eq!(c.first_token, Some(1500));
    assert!(c.has_rate);
    let none = Stats { turn_millis: 5, tool_millis: 6, ttft_count: 0, ..stats() };
    let c = session_counts(Usage { input: u64::MAX, ..u }, none);
    assert_eq!(c.total, u64::MAX);
    assert_eq!(c.llm_millis, 0);
    assert_eq!(c.first_token, None);
    assert!(!c.has_rate);
    assert!(!session_counts(Usage { output: 0, ..u }, stats()).has_rate);
}

#[test]
fn figures_are_printed() {
    assert_eq!(fmt_tokens(999, "1.0"), "999");
    assert_eq!(fmt_tokens(1000, "1.0"), "1.0K");
    assert_eq!(fmt_tokens(1_000_000, "1.0"), "1.0M");
    assert_eq!((token_unit(999), token_unit(1000), token_unit(1_000_000)), (1, 1000, 1_000_000));
    assert_eq!(fmt_duration(1500, "1.5"), "1.5s");
    assert_eq!(fmt_duration(135_000, "135.0"), "2m15s");
}

#[test]
fn the_session_popup_tells_its_figures() {
    let usage = Usage { input: 1, output: 20, cached: 300, reasoning: 4000 };
    let figures = || Figures {
        input: s("1.0"),
        output: s("20.0"),
        cached: s("300.0"),
        reasoning: s("4.0"),
        total: s("4.3"),
        llm_time: s("135.0"),
        tool_time: s("1.0"),
        first_token: s("1.5"),
        rate: s("0.1"),
    };
    assert_eq!(
        print_figures(usage, stats(), &figures()),
        "\n- tokens · ↑1 ↓20 (cached 300 · reasoning 4.0K) · Σ 4.3K\n- turns · 3 · steps · 4\n\
         - LLM · 2m15s · tool · 1.0s\n- TTFT avg · 1.5s\n- rate · 0.1 tok/s"
    );
    let quiet = Stats { turn_millis: 0, ttft_count: 0, ..stats() };
    let mut app = bound();
    app.reply(Reply::SessionCounted { usage, stats: quiet, figures: figures() });
    let shown = match &app.live.popups.view.as_ref().unwrap().body {
        ViewBody::Markdown(t) => t.clone(),
        _ => panic!("the popup holds no text"),
    };
    assert!(shown.ends_with("\n- LLM · 135.0s · tool · 1.0s"));
}

// --- themes ------------------------------------------------------------------------------

#[test]
fn a_palette_is_tried_out_and_given_up() {
    let mut app = bound();
    let n = martty::bus::PaletteNotice { pack: pack("sea", 20), activate: false };
    app.reply(Reply::Plugin(PluginUpdate::Palette(n)));
    assert_eq!(app.theme.palettes.len(), 2);
    assert_eq!(app.theme.painted, 10);
    app.run_slash("theme", "");
    assert_eq!(app.menu.picker.as_ref().unwrap().kind, PickerKind::Theme);
    act(&mut app, KeyCode::Down, Action::CursorDown);
    assert_eq!(app.theme.painted, 20);
    assert_eq!(app.theme.active, "default");
    act(&mut app, KeyCode::Esc, Action::Esc);
    assert_eq!(app.theme.painted, 10);
    assert_eq!(app.theme.preview, None);
}

#[test]
fn a_palette_tried_out_is_given_up_with_its_list() {
    let mut app = bound();
    let n = martty::bus::PaletteNotice { pack: pack("sea", 20), activate: false };
    app.reply(Reply::Plugin(PluginUpdate::Palette(n)));
    app.run_slash("theme", "");
    act(&mut app, KeyCode::Down, Action::CursorDown);
    assert!(app.theme.preview.is_some());
    app.menu.picker = None;
    app.handle(AppEvent::Ctl(CtlEvent::Ready { server: s("a") }));
    assert_eq!(app.theme.preview, None);
    assert_eq!(app.theme.painted, 10);
}

#[test]
fn toggling_twice_restores_the_mode() {
    let mut app = bound();
    act(&mut app, KeyCode::Char('t'), Action::ToggleTheme);
    assert_eq!(app.theme.mode, Mode::Dark);
    assert!(app.take_effects().contains(&Effect::SaveSettings));
    act(&mut app, KeyCode::Char('t'), Action::ToggleTheme);
    assert_eq!(app.theme.mode, Mode::Light);
}

#[test]
fn a_removed_palette_gives_way_to_the_default() {
    let mut app = bound();
    let n = martty::bus::PaletteNotice { pack: pack("sea", 20), activate: true };
    app.reply(Reply::Plugin(PluginUpdate::Palette(n)));
    assert_eq!(app.theme.active, "sea");
    rpc(
        &mut app,
        "theme/remove",
        object(vec![("protocol", JsonValue::Number(Number::PosInt(0))), ("id", text("sea"))]),
    );
    assert_eq!(app.theme.active, "default");
    assert_eq!(app.theme.painted, 10);
    assert_eq!(app.theme.palettes.len(), 1);
}

#[test]
fn saving_keeps_what_others_have_set() {
    let app = bound();
    let read = object(vec![("theme", text("sea")), ("language", text("zh"))]);
    let (v, aside) = app.settings_to_save(&Some(s("{..}")), Some(read));
    assert!(!aside);
    assert_eq!(
        v,
        object(vec![
            ("theme", text("sea")),
            ("language", text("en")),
            ("themeMode", text("light")),
            ("markdownTone", text("two")),
        ])
    );
    let (v, aside) = app.settings_to_save(&Some(s("garbage")), None);
    assert!(aside);
    assert_eq!(martty::json::get_str(&v, "language"), Some("en"));
    let (_, aside) = app.settings_to_save(&Some(s("  ")), None);
    assert!(!aside);
}

#[test]
fn settings_are_written_over_the_text_of_their_file() {
    let app = bound();
    let file = s(r#"{"theme": "sea", "harness": {"depth": [1, -2, null, true]}, "language": "zh"}"#);
    let (v, aside) = app.settings_of_file(&Some(file.clone()));
    assert!(!aside);
    assert_eq!(martty::json::get_str(&v, "theme"), Some("sea"));
    assert_eq!(martty::json::get_str(&v, "language"), Some("en"));
    let (t, aside) = app.settings_text(&Some(file.clone()));
    assert!(!aside);
    let t = t.unwrap();
    assert!(t.contains("\n  \"markdownTone\": \"two\""));
    let back = parse_json(&t).unwrap();
    assert!(value_eq(&back, &v));
    let read = parse_json(&file).unwrap();
    let harness = |v: &JsonValue| value_text(martty::json::get(v, "harness").unwrap());
    assert_eq!(harness(&back), harness(&read));
    assert_eq!(harness(&back), r#"{"depth":[1,-2,null,true]}"#);
}

#[test]
fn a_settings_file_that_is_no_object_is_put_aside() {
    let app = bound();
    for held in ["garbage", "[1]", "{\"a\":", "7"] {
        let (t, aside) = app.settings_text(&Some(s(held)));
        assert!(aside);
        let v = parse_json(&t.unwrap()).unwrap();
        assert_eq!(martty::json::get_str(&v, "themeMode"), Some("light"));
    }
    for held in [Some(s("")), Some(s(" \n")), Some(s("{}")), None] {
        assert!(!app.settings_of_file(&held).1);
    }
}

// --- asks --------------------------------------------------------------------------------

fn ask(session: &str, number: i64) -> AppEvent {
    AppEvent::PermissionAsk {
        session_id: s(session),
        request_id: RequestId::Number(number),
        title: s("edit file"),
        details: None,
        options: vec![
            PermissionAskOption { option_id: s("no"), kind: s("reject_once"), name: s("No") },
            PermissionAskOption { option_id: s("yes"), kind: s("allow_once"), name: s("Yes") },
        ],
        reply: number as u64,
    }
}

#[test]
fn an_ask_is_answered() {
    let mut app = bound();
    app.handle(ask("s1", 5));
    assert_eq!(app.live.asks.permission.as_ref().unwrap().sel, 1);
    act(&mut app, KeyCode::Enter, Action::Enter);
    assert!(app.take_effects().contains(&Effect::Answer {
        reply: 5,
        answer: PermissionAskReply::Selected(s("yes"))
    }));
    assert!(app.live.asks.permission.is_none());
}

#[test]
fn a_withdrawn_ask_disappears() {
    let mut app = bound();
    app.handle(ask("s1", 5));
    app.take_effects();
    app.handle(AppEvent::AskCancelled { request_id: RequestId::Number(4) });
    assert!(app.live.asks.permission.is_some());
    app.handle(AppEvent::AskCancelled { request_id: RequestId::Number(5) });
    assert!(app.live.asks.permission.is_none());
}

#[test]
fn an_ask_goes_to_the_tab_of_its_session() {
    let mut app = three_tabs();
    app.handle(ask("s1", 5));
    assert!(app.live.asks.permission.is_none());
    assert!(app.session_tabs()[0].ask_pending);
    app.handle(ask("nobody", 6));
    assert!(app.live.asks.permission.is_some());
    assert_eq!(tip(&app), "permission ask from an unknown session — shown here");
}

#[test]
fn a_form_takes_pastes_and_closes() {
    let mut app = bound();
    app.handle(AppEvent::ElicitationAsk {
        session_id: None,
        request_id: RequestId::Str(s("r")),
        form: 1,
        reply: 9,
    });
    app.handle(AppEvent::Term(TermEvent::Paste(s("x"))));
    assert_eq!(
        app.take_effects(),
        vec![Effect::ReadHostModels, Effect::PasteForm { reply: 9, text: s("x") }]
    );
    app.reply(Reply::Key(KeyPress {
        key: KeyEvent { code: KeyCode::Enter, modifiers: none(), kind: KeyEventKind::Press },
        action: None,
        viewer_action: None,
        vim: None,
        edit: Edit { buf: s(""), cursor: 0 },
        selected: None,
        range: None,
        form: FormStep { editing: false, moved: false, done: true },
        slide: None,
        debug: None,
    }));
    assert!(app.live.asks.form.is_none());
}

// --- signing in --------------------------------------------------------------------------

#[test]
fn a_failed_sign_in_is_heard() {
    let mut app = bound();
    app.handle(AppEvent::Ctl(CtlEvent::Auth {
        snapshot: AuthSnapshot {
            status: AuthStatus::Failed,
            method_id: None,
            method_name: None,
            message: Some(s("bad key")),
            methods: Vec::new(),
        },
        notice: None,
    }));
    assert_eq!(app.conn.auth.status, AuthStatus::Failed);
    assert_eq!(app.take_terminal_auth(), None);
}

// --- resuming ----------------------------------------------------------------------------

fn local(id: &str) -> LocalSession {
    LocalSession { id: s(id), title: None, preview: s("p"), turns: 2, age: s("1h") }
}

#[test]
fn a_logged_session_is_replayed_into_a_tab() {
    let mut app = start(true);
    app.run_slash("resume", "old");
    assert_eq!(app.take_effects(), vec![Effect::ListForResume { prefix: s("old") }]);
    app.reply(Reply::LogsForResume {
        prefix: s("old"),
        sessions: vec![local("old-1"), local("other")],
    });
    assert_eq!(app.take_effects(), vec![Effect::ReplayLocal { id: s("old-1") }]);
    app.reply(Reply::Replay(Log {
        id: s("old-1"),
        turns: 1,
        lines: vec![
            LogLine { value: object(vec![("type", text("session"))]), prompt: None },
            LogLine { value: object(vec![("type", text("user"))]), prompt: Some(s("hi")) },
        ],
    }));
    assert_eq!(app.session_id(), "old-1");
    let out = app.take_effects();
    assert!(out.contains(&Effect::Transcript { id: 1, op: TranscriptOp::User(s("hi")) }));
    assert!(out.contains(&Effect::Transcript {
        id: 1,
        op: TranscriptOp::Notice {
            level: NoticeLevel::Info,
            text: s("⟲ resumed old-1 · 1 turn · 1 events replayed — the next prompt continues it")
        }
    }));
    app.switch_view_to_tab(0);
    app.run_slash("lang", "zh");
    app.take_effects();
    app.reply(Reply::Replay(Log {
        id: s("old-2"),
        turns: 3,
        lines: vec![LogLine { value: object(vec![("type", text("user"))]), prompt: None }],
    }));
    assert!(app.take_effects().contains(&Effect::Transcript {
        id: 2,
        op: TranscriptOp::Notice {
            level: NoticeLevel::Info,
            text: s("⟲ 已恢复 old-2 · 3 轮对话 · 回放 1 个事件 —— 下一条消息继续它")
        }
    }));
    app.reply(Reply::Replay(Log { id: s("old-1"), turns: 1, lines: Vec::new() }));
    assert_eq!(app.session_id(), "old-1");
    assert_eq!(app.session_tab_count(), 3);
}

#[test]
fn a_session_that_is_not_there_is_said() {
    let mut app = start(true);
    app.reply(Reply::LogsForResume { prefix: s("zz"), sessions: vec![local("a"), local("b")] });
    assert!(app.take_effects().contains(&Effect::Transcript {
        id: 0,
        op: TranscriptOp::Notice {
            level: NoticeLevel::Warn,
            text: s("no session matches “zz” — /resume lists them")
        }
    }));
    app.reply(Reply::ReplayFailed { file: s("/x"), error: s("gone") });
    assert!(app.take_effects().contains(&Effect::Transcript {
        id: 0,
        op: TranscriptOp::Notice {
            level: NoticeLevel::Warn,
            text: s("cannot read /x: gone")
        }
    }));
}

#[test]
fn sessions_of_the_agent_are_listed() {
    let mut app = bound();
    app.handle(AppEvent::Ctl(CtlEvent::AgentCaps {
        load_session: true,
        list_session: true,
        resume_session: true,
    }));
    app.run_slash("resume", "");
    let out = app.take_effects();
    assert!(sends(&out).contains(&&Cmd::ListSessions {
        requester_session_id: s("s1"),
        prefix: None,
        limit: 50
    }));
    app.handle(AppEvent::Ctl(CtlEvent::SessionList {
        requester_session_id: s("s1"),
        sessions: vec![SessionListItem { id: s("x1"), title: Some(s("X")), updated_at: None }],
        prefix: None,
        limit: 50,
    }));
    assert_eq!(app.take_effects(), vec![Effect::ListForRows]);
    app.reply(Reply::LogsForRows(Vec::new()));
    let picker = app.menu.picker.as_ref().unwrap();
    assert_eq!(picker.kind, PickerKind::Session);
    assert_eq!(picker.items.len(), 1);
    assert_eq!(picker.items[0].id, "x1");
}

// --- the mouse ---------------------------------------------------------------------------

fn with_chat(app: &mut App) {
    app.frame.chat.area = Rect { x: 0, y: 1, width: 20, height: 2 };
    app.frame.chat.lines = vec![s("hello world"), s("second")];
    app.frame.chat.owners = vec![None, Some(3)];
    app.frame.chat.total = 30;
}

#[test]
fn the_wheel_scrolls_the_chat() {
    let mut app = bound();
    with_chat(&mut app);
    pointer(&mut app, MouseEventKind::ScrollUp, 1, 1);
    assert_eq!(app.live.chat.scroll_up, 3);
    pointer(&mut app, MouseEventKind::ScrollDown, 1, 1);
    pointer(&mut app, MouseEventKind::ScrollDown, 1, 1);
    assert_eq!(app.live.chat.scroll_up, 0);
    act(&mut app, KeyCode::Home, Action::JumpTop);
    app.scroll_by(-1);
    assert_eq!(app.live.chat.scroll_up, 27);
}

#[test]
fn a_drag_selects_and_copies() {
    let mut app = bound();
    with_chat(&mut app);
    app.frame.chat.owners = vec![None, None];
    pointer(&mut app, MouseEventKind::Down(MouseButton::Left), 0, 1);
    pointer(&mut app, MouseEventKind::Drag(MouseButton::Left), 4, 1);
    assert_eq!(
        app.pointer.sel,
        Some(Selection {
            anchor: SelPoint { line: 0, col: 0 },
            head: SelPoint { line: 0, col: 4 }
        })
    );
    pointer(&mut app, MouseEventKind::Up(MouseButton::Left), 4, 1);
    assert!(app.take_effects().contains(&Effect::Copy(s("hello"))));
    assert_eq!(app.selection_text(app.pointer.sel.unwrap()), "hello");
}

#[test]
fn a_double_click_copies_a_word() {
    let mut app = bound();
    with_chat(&mut app);
    app.frame.chat.owners = vec![None, None];
    pointer(&mut app, MouseEventKind::Down(MouseButton::Left), 7, 1);
    pointer(&mut app, MouseEventKind::Up(MouseButton::Left), 7, 1);
    pointer(&mut app, MouseEventKind::Down(MouseButton::Left), 8, 1);
    assert!(app.take_effects().contains(&Effect::Copy(s("world"))));
}

#[test]
fn a_click_on_a_tool_toggles_it() {
    let mut app = bound();
    with_chat(&mut app);
    pointer(&mut app, MouseEventKind::Down(MouseButton::Left), 2, 2);
    assert_eq!(
        app.take_effects(),
        vec![Effect::Transcript { id: 0, op: TranscriptOp::ToggleTool { cell: 3 } }]
    );
    app.reply(Reply::ToolToggled { expanded: true });
    assert_eq!(tip(&app), "expanded tool output · click toggles");
}

#[test]
fn jumps_walk_the_prompts_back() {
    let mut app = bound();
    with_chat(&mut app);
    app.frame.jump_btn = Some(Rect { x: 50, y: 5, width: 2, height: 1 });
    pointer(&mut app, MouseEventKind::Down(MouseButton::Left), 50, 5);
    assert_eq!(app.take_effects(), vec![Effect::LocatePrompts]);
    let users = vec![PromptPlace { cell: 1, line: 2 }, PromptPlace { cell: 4, line: 20 }];
    app.reply(Reply::Prompts { users: users.clone(), lines: 30 });
    assert_eq!(app.pointer.jump_cell, Some(4));
    assert_eq!(app.live.chat.scroll_up, 8);
    assert_eq!(app.frame.chat.manual_top, Some(20));
    assert_eq!(tip(&app), "↥ user prompt 1/2 · newest first");
    app.reply(Reply::Prompts { users: users.clone(), lines: 30 });
    assert_eq!(app.pointer.jump_cell, Some(1));
    app.reply(Reply::Prompts { users, lines: 30 });
    assert_eq!(app.pointer.jump_cell, Some(4));
    app.reply(Reply::Prompts { users: Vec::new(), lines: 0 });
    assert_eq!(tip(&app), "no user prompts yet — ↥ finds them once you send one");
    app.set_time(1000 + 5000, 6_000_000);
    app.tick(false, 3);
    assert_eq!(app.pointer.flash, None);
}

#[test]
fn a_click_places_the_caret() {
    let mut app = bound();
    draft(&mut app, "hello");
    app.frame.input_area = Rect { x: 0, y: 10, width: 20, height: 3 };
    app.frame.input_top = 1;
    assert_eq!(app.input_avail(), 18);
    assert_eq!(app.input_cell_at(5, 11), (2, 3));
    assert_eq!(app.input_cell_at(0, 0), (1, 0));
    app.reply(Reply::Mouse(MouseInput {
        event: MouseEvent {
            kind: MouseEventKind::Down(MouseButton::Left),
            column: 4,
            row: 10,
            modifiers: none(),
        },
        caret: 2,
        range: None,
    }));
    assert_eq!(app.live.draft.input.cursor, 2);
    assert_eq!(app.input_selection_cells(), Some(((1, 2), (1, 2))));
}

#[test]
fn hovering_redraws_only_on_a_change() {
    let mut app = bound();
    app.frame.expand_btn = Some(Rect { x: 1, y: 1, width: 1, height: 1 });
    app.status.redraw = false;
    pointer(&mut app, MouseEventKind::Moved, 9, 9);
    assert!(!app.status.redraw);
    pointer(&mut app, MouseEventKind::Moved, 1, 1);
    assert!(app.status.redraw);
    assert!(app.pointer.over_expand);
}

// --- time --------------------------------------------------------------------------------

#[test]
fn time_passes() {
    let mut app = bound();
    app.show_tip(s("short"));
    app.set_time(1000 + 4000, 6_000_000);
    app.tick(false, 3);
    assert_eq!(tip(&app), "short");
    app.set_time(1000 + 4001, 6_000_000);
    app.tick(false, 3);
    assert!(app.clock.tip.is_none());
    app.take_effects();
    app.set_time(1000 + 5000, 6_000_000);
    app.tick(true, 3);
    assert_eq!(app.take_effects(), vec![Effect::RefreshBranch]);
    assert_eq!(app.spinner(), '⠙');
    app.set_time(1000 + 14001, 6_000_000);
    app.tick(false, 3);
    assert_eq!(app.clock.ambient_idx, 1);
    app.status.redraw = false;
    app.reply(Reply::Branch(Some(s("main"))));
    assert!(app.status.redraw);
    app.status.redraw = false;
    app.reply(Reply::Branch(Some(s("main"))));
    assert!(!app.status.redraw);
}

// --- what an agent advertises ------------------------------------------------------------

#[test]
fn a_catalog_is_read_from_the_options() {
    let options = JsonValue::Array(vec![
        object(vec![
            ("id", text("model")),
            (
                "options",
                JsonValue::Array(vec![
                    object(vec![("value", text("acme/large")), ("name", text("Large"))]),
                    object(vec![(
                        "options",
                        JsonValue::Array(vec![object(vec![("value", text("small"))])]),
                    )]),
                    object(vec![("name", text("nameless"))]),
                ]),
            ),
        ]),
        object(vec![
            ("id", text("preset")),
            (
                "options",
                JsonValue::Array(vec![object(vec![
                    ("value", text("lab")),
                    ("description", text("Broken: no key")),
                ])]),
            ),
        ]),
    ]);
    let (models, presets, id) = catalog_from_config_options(&options);
    assert_eq!(models.len(), 2);
    assert_eq!((models[0].provider.as_str(), models[0].id.as_str()), ("acme", "large"));
    assert_eq!(models[0].name, "Large");
    assert_eq!((models[1].provider.as_str(), models[1].id.as_str()), ("", "small"));
    assert_eq!(models[1].name, "small");
    assert!(!models[0].vision && !models[1].vision);
    assert_eq!(presets.len(), 1);
    assert_eq!((presets[0].id.as_str(), presets[0].name.as_str()), ("lab", "lab"));
    assert!(presets[0].broken);
    assert_eq!(id, Some(s("preset")));
    let (models, presets, id) = catalog_from_config_options(&JsonValue::Null);
    assert!(models.is_empty() && presets.is_empty());
    assert_eq!(id, None);
}

#[test]
fn modes_are_read() {
    let modes = object(vec![
        ("currentModeId", text("ask")),
        (
            "availableModes",
            JsonValue::Array(vec![
                object(vec![("id", text("ask"))]),
                object(vec![("name", text("no id"))]),
                object(vec![("id", text("code")), ("name", text("Code"))]),
            ]),
        ),
    ]);
    let (rows, current) = session_modes_from_value(&modes);
    assert_eq!(current, Some(s("ask")));
    assert_eq!(rows.len(), 2);
    assert_eq!((rows[0].id.as_str(), rows[0].name.as_str()), ("ask", "ask"));
    assert_eq!((rows[1].id.as_str(), rows[1].name.as_str()), ("code", "Code"));
    assert!(!rows[0].broken);
    assert_eq!(session_modes_from_value(&JsonValue::Null).1, None);
}

#[test]
fn skills_are_read() {
    let commands = JsonValue::Array(vec![
        object(vec![
            ("name", text("plan")),
            ("input", object(vec![("hint", text("what"))])),
            (
                "_meta",
                object(vec![(
                    "commandAction",
                    object(vec![
                        ("kind", text("setConfigOption")),
                        ("configId", text("collaboration_mode")),
                        ("value", text("plan")),
                    ]),
                )]),
            ),
        ]),
        object(vec![("description", text("nameless"))]),
        object(vec![
            ("name", text("open")),
            (
                "metadata",
                object(vec![("commandAction", object(vec![("kind", text("clientCommand"))]))]),
            ),
        ]),
    ]);
    let skills = skills_from_available_commands(&commands);
    assert_eq!(skills.len(), 2);
    assert_eq!(skills[0].name, "plan");
    assert_eq!(skills[0].input_hint, Some(s("what")));
    match &skills[0].config_action {
        Some(a) => {
            assert_eq!(a.config_id, "collaboration_mode");
            assert_eq!(a.value, "plan");
            assert_eq!(a.reset_value, None);
        }
        None => panic!("the action was lost"),
    }
    assert!(!skills[0].client_command);
    assert!(skills[1].client_command && skills[1].config_action.is_none());
    let action = || {
        object(vec![(
            "commandAction",
            object(vec![
                ("kind", text("setConfigOption")),
                ("configId", text("mode")),
                ("value", text("fast")),
            ]),
        )])
    };
    for carrier in [JsonValue::Null, object(vec![]), object(vec![("commandAction", JsonValue::Null)])] {
        let both = object(vec![
            ("name", text("fast")),
            ("metadata", carrier),
            ("_meta", action()),
        ]);
        let skills = skills_from_available_commands(&JsonValue::Array(vec![both]));
        assert_eq!(skills[0].config_action.as_ref().unwrap().config_id, "mode");
    }
    assert!(skills_from_available_commands(&JsonValue::Null).is_empty());
}

#[test]
fn a_selection_covers_something_or_nothing() {
    assert_eq!(cover(2, 5), Some((2, 5)));
    assert_eq!(cover(5, 5), None);
}
