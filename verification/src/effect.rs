//! What the screen state asks of the world around it, as plain values.

use crate::bus::{Cmd, CmdV, PermissionAskReply};
use crate::events::{EventV, UiEvent};
use crate::input::{KeyEvent, MouseEvent};
use vstd::prelude::*;

verus! {

/// The language of the interface.
#[derive(Debug, Clone, Copy, PartialEq, Eq, Structural)]
pub enum Locale {
    En,
    Zh,
}

/// Which of two texts is spoken.
pub open spec fn spoken(l: Locale, en: Seq<char>, zh: Seq<char>) -> Seq<char> {
    match l {
        Locale::En => en,
        Locale::Zh => zh,
    }
}

pub fn tr<'a>(l: Locale, en: &'a str, zh: &'a str) -> (r: &'a str)
    ensures
        r@ == spoken(l, en@, zh@),
{
    match l {
        Locale::En => en,
        Locale::Zh => zh,
    }
}

#[derive(Debug, Clone, Copy, PartialEq, Eq, Structural)]
pub enum NoticeLevel {
    Info,
    Warn,
    Error,
}

/// One change of a transcript.
#[derive(Debug, PartialEq)]
pub enum TranscriptOp<S = String, E = UiEvent> {
    /// A new transcript for a session, in a language.
    Open { session: S, locale: Locale },
    Apply(E),
    User(S),
    Image { name: S, path: S, image: u64 },
    Notice { level: NoticeLevel, text: S },
    /// The last `count` cells echo the prompt with this number.
    Mark { message_id: u64, count: usize },
    /// The cells that echo the prompt with this number disappear.
    Hide { message_id: u64 },
    Clear,
    CancelOpenWork,
    RootSession(S),
    ShellStarted { id: u64, command: S },
    ShellDone { id: u64, code: Option<i32>, output: S },
    ToggleTool { cell: usize },
    ExpandAll(bool),
    Speak(Locale),
}

pub type OpV = TranscriptOp<Seq<char>, EventV>;

impl View for TranscriptOp {
    type V = OpV;

    open spec fn view(&self) -> OpV {
        match *self {
            TranscriptOp::Open { session, locale } => TranscriptOp::Open { session: session@, locale },
            TranscriptOp::Apply(e) => TranscriptOp::Apply(e@),
            TranscriptOp::User(t) => TranscriptOp::User(t@),
            TranscriptOp::Image { name, path, image } => TranscriptOp::Image {
                name: name@,
                path: path@,
                image,
            },
            TranscriptOp::Notice { level, text } => TranscriptOp::Notice { level, text: text@ },
            TranscriptOp::Mark { message_id, count } => TranscriptOp::Mark { message_id, count },
            TranscriptOp::Hide { message_id } => TranscriptOp::Hide { message_id },
            TranscriptOp::Clear => TranscriptOp::Clear,
            TranscriptOp::CancelOpenWork => TranscriptOp::CancelOpenWork,
            TranscriptOp::RootSession(s) => TranscriptOp::RootSession(s@),
            TranscriptOp::ShellStarted { id, command } => TranscriptOp::ShellStarted {
                id,
                command: command@,
            },
            TranscriptOp::ShellDone { id, code, output } => TranscriptOp::ShellDone {
                id,
                code,
                output: output@,
            },
            TranscriptOp::ToggleTool { cell } => TranscriptOp::ToggleTool { cell },
            TranscriptOp::ExpandAll(b) => TranscriptOp::ExpandAll(b),
            TranscriptOp::Speak(l) => TranscriptOp::Speak(l),
        }
    }
}

/// One thing to do outside. Effects are done in the order in which they were
/// asked for.
#[derive(Debug, PartialEq)]
pub enum Effect<S = String, C = Cmd, O = TranscriptOp> {
    Send(C),
    Transcript { id: u64, op: O },
    /// Answers a permission request.
    Answer { reply: u64, answer: PermissionAskReply<S> },
    /// Tells whoever asked a form that it was closed without an answer.
    CancelForm { reply: u64 },
    /// Sends what a form was answered with.
    AnswerForm { reply: u64 },
    SaveSettings,
    /// Copies a text; whether that was possible is told back.
    Copy(S),
    /// Looks up the branch of the workspace; what it is is told back.
    RefreshBranch,
    RunShell { id: u64, command: S },
    /// Interrupts the running turn; whether that was possible is told back.
    TryInterrupt,
    /// Reads an image file; what was read is told back.
    ReadImage { path: S, media_type: S, caption: S },
    /// Reads the image on the clipboard; what was read is told back.
    ReadClipboard { caption: S },
    /// Asks the sign-in module what an argument means for a method.
    ChooseAuth { method_id: S, rest: S },
    /// Lists the newest sessions logged on this machine, for the picker.
    ListForPicker { limit: usize, via_agent: bool },
    /// Lists all sessions logged on this machine, to find one by its id.
    ListForResume { prefix: S },
    /// Lists all sessions logged on this machine, to describe those that the
    /// agent has listed.
    ListForRows,
    /// Reads the log of a session on this machine.
    ReplayLocal { id: S },
    /// Drives the file browser of the composer.
    FileMenu(FileMenuOp),
    /// Lays the viewed transcript out and tells where its prompts stand.
    LocatePrompts,
    /// Counts up the viewed transcript for the session popup.
    ShowSessionInfo,
    /// Lists the key bindings for the popup.
    ShowKeys,
    SetVim(bool),
    /// Forgets a half typed command of the modal editor.
    ResetVim,
    /// Reads the catalog in which the host lists its models; its text is told
    /// back.
    ReadHostModels,
    /// Asks the editors what they make of a key; that is told back.
    Press(KeyEvent),
    /// Asks where in the draft the mouse points; that is told back.
    Point(MouseEvent),
    /// Pastes a text into an open form.
    PasteForm { reply: u64, text: S },
}

/// What the file browser is asked to do.
#[derive(Debug, Clone, Copy, PartialEq, Eq, Structural)]
pub enum FileMenuOp {
    Up,
    Down,
    Home,
    End,
    PageUp,
    PageDown,
    Left,
    ToggleHidden,
    /// Into a directory, or settle on a file.
    Drill,
    /// Put the selected entry into the draft.
    Settle,
    /// Close, and say on which token.
    Dismiss,
    /// Look for a token under the caret, and say which.
    Scan,
    /// Open on the token that was found.
    Open,
    /// Follow the token that was found.
    Follow,
}

pub type EffectV = Effect<Seq<char>, CmdV, OpV>;

impl View for Effect {
    type V = EffectV;

    open spec fn view(&self) -> EffectV {
        match *self {
            Effect::Send(c) => Effect::Send(c@),
            Effect::Transcript { id, op } => Effect::Transcript { id, op: op@ },
            Effect::Answer { reply, answer } => Effect::Answer { reply, answer: answer@ },
            Effect::CancelForm { reply } => Effect::CancelForm { reply },
            Effect::AnswerForm { reply } => Effect::AnswerForm { reply },
            Effect::SaveSettings => Effect::SaveSettings,
            Effect::Copy(s) => Effect::Copy(s@),
            Effect::RefreshBranch => Effect::RefreshBranch,
            Effect::RunShell { id, command } => Effect::RunShell { id, command: command@ },
            Effect::TryInterrupt => Effect::TryInterrupt,
            Effect::ReadImage { path, media_type, caption } => Effect::ReadImage {
                path: path@,
                media_type: media_type@,
                caption: caption@,
            },
            Effect::ReadClipboard { caption } => Effect::ReadClipboard { caption: caption@ },
            Effect::ChooseAuth { method_id, rest } => Effect::ChooseAuth {
                method_id: method_id@,
                rest: rest@,
            },
            Effect::ListForPicker { limit, via_agent } => Effect::ListForPicker { limit, via_agent },
            Effect::ListForResume { prefix } => Effect::ListForResume { prefix: prefix@ },
            Effect::ListForRows => Effect::ListForRows,
            Effect::ReplayLocal { id } => Effect::ReplayLocal { id: id@ },
            Effect::FileMenu(op) => Effect::FileMenu(op),
            Effect::LocatePrompts => Effect::LocatePrompts,
            Effect::ShowSessionInfo => Effect::ShowSessionInfo,
            Effect::ShowKeys => Effect::ShowKeys,
            Effect::SetVim(on) => Effect::SetVim(on),
            Effect::ResetVim => Effect::ResetVim,
            Effect::ReadHostModels => Effect::ReadHostModels,
            Effect::Press(key) => Effect::Press(key),
            Effect::Point(mouse) => Effect::Point(mouse),
            Effect::PasteForm { reply, text } => Effect::PasteForm { reply, text: text@ },
        }
    }
}

pub open spec fn effects_view(v: Seq<Effect>) -> Seq<EffectV> {
    v.map_values(|e: Effect| e@)
}

pub fn emit(out: &mut Vec<Effect>, e: Effect)
    ensures
        effects_view(final(out)@) == effects_view(old(out)@).push(e@),
{
    out.push(e);
    assert(effects_view(out@) =~= effects_view(old(out)@).push(e@));
}

} // verus!
