//! Forwarding selected text to the launcher's window.
//!
//! `Ctrl+Shift+C` copies the selection and hands it to the window for a web
//! search; `Ctrl+Alt+C` hands it over to be run as a command. Each holds back
//! presses within 500 ms of its own last accepted press. The window can
//! also type text into the program behind it by pasting it and pressing Enter.
use vstd::prelude::*;
use crate::debounce::CLIPBOARD_DEBOUNCE_MS;
use crate::keys::{KeyDirection, KeyName, KeyStep};

verus! {

/// Milliseconds to wait after the copy keystrokes before reading the clipboard.
pub const CLIPBOARD_SETTLE_MS: u64 = 300;

/// Text for the window and what to do with it.
pub struct ClipboardAction {
    pub text: String,
    /// `browser` or `command`.
    pub mode: String,
}

/// What the window does with forwarded text.
#[derive(PartialEq, Eq, Structural, Debug, Clone, Copy)]
pub enum ClipboardMode {
    /// Search the web for it.
    Browser,
    /// Run it as a command.
    Command,
}

impl ClipboardMode {
    pub open spec fn name_spec(self) -> Seq<char> {
        match self {
            ClipboardMode::Browser => "browser"@,
            ClipboardMode::Command => "command"@,
        }
    }

    /// The name of the mode as the window receives it.
    pub fn name(&self) -> (n: &'static str)
        ensures
            n@ == self.name_spec(),
    {
        match self {
            ClipboardMode::Browser => "browser",
            ClipboardMode::Command => "command",
        }
    }
}

/// The action for text read from the clipboard: none for empty text.
pub fn clipboard_action(text: String, mode: ClipboardMode) -> (a: Option<ClipboardAction>)
    ensures
        a is None <==> text@.len() == 0,
        a matches Some(action) ==> action.text@ == text@ && action.mode@ == mode.name_spec(),
{
    if text.as_str().is_empty() {
        None
    } else {
        Some(ClipboardAction { text, mode: mode.name().to_owned() })
    }
}

/// A clipboard shortcut, the mode of the text it forwards, and its hold-back
/// interval.
pub struct ClipboardBinding {
    pub shortcut: &'static str,
    pub mode: ClipboardMode,
    pub interval_ms: u64,
}

/// The clipboard shortcuts, in the order in which they are registered.
pub fn clipboard_bindings() -> (b: Vec<ClipboardBinding>)
    ensures
        b@.len() == 2,
        b@[0].shortcut@ == "Ctrl+Shift+C"@,
        b@[0].mode == ClipboardMode::Browser,
        b@[0].interval_ms == 500,
        b@[1].shortcut@ == "Ctrl+Alt+C"@,
        b@[1].mode == ClipboardMode::Command,
        b@[1].interval_ms == 500,
{
    let mut b: Vec<ClipboardBinding> = Vec::new();
    b.push(
        ClipboardBinding {
            shortcut: "Ctrl+Shift+C",
            mode: ClipboardMode::Browser,
            interval_ms: CLIPBOARD_DEBOUNCE_MS,
        },
    );
    b.push(
        ClipboardBinding {
            shortcut: "Ctrl+Alt+C",
            mode: ClipboardMode::Command,
            interval_ms: CLIPBOARD_DEBOUNCE_MS,
        },
    );
    b
}

/// One step of taking the selected text.
#[derive(PartialEq, Eq, Structural, Debug, Clone, Copy)]
pub enum CaptureStep {
    /// A simulated key event.
    Key(KeyName, KeyDirection),
    /// Wait this many milliseconds.
    Pause(u64),
    /// Read the clipboard's text.
    ReadClipboard,
}

/// Takes the selection while `Shift` is held for the shortcut: lets go of
/// `Shift`, presses `Ctrl+C`, holds `Shift` again, waits for the clipboard to
/// take the copy, then reads the clipboard.
pub fn capture_selection_steps() -> (steps: Vec<CaptureStep>)
    ensures
        steps@ == seq![
            CaptureStep::Key(KeyName::Shift, KeyDirection::Release),
            CaptureStep::Key(KeyName::Control, KeyDirection::Press),
            CaptureStep::Key(KeyName::C, KeyDirection::Click),
            CaptureStep::Key(KeyName::Control, KeyDirection::Release),
            CaptureStep::Key(KeyName::Shift, KeyDirection::Press),
            CaptureStep::Pause(CLIPBOARD_SETTLE_MS),
            CaptureStep::ReadClipboard,
        ],
{
    vec![
        CaptureStep::Key(KeyName::Shift, KeyDirection::Release),
        CaptureStep::Key(KeyName::Control, KeyDirection::Press),
        CaptureStep::Key(KeyName::C, KeyDirection::Click),
        CaptureStep::Key(KeyName::Control, KeyDirection::Release),
        CaptureStep::Key(KeyName::Shift, KeyDirection::Press),
        CaptureStep::Pause(CLIPBOARD_SETTLE_MS),
        CaptureStep::ReadClipboard,
    ]
}

/// Pastes the clipboard into the focused program and presses Enter: lets go
/// of every modifier, waits, presses `Ctrl+V`, waits, presses Enter.
pub fn paste_and_enter_keystrokes() -> (steps: Vec<KeyStep>)
    ensures
        steps@ == seq![
            KeyStep::Key(KeyName::Shift, KeyDirection::Release),
            KeyStep::Key(KeyName::Control, KeyDirection::Release),
            KeyStep::Key(KeyName::Alt, KeyDirection::Release),
            KeyStep::Pause(200),
            KeyStep::Key(KeyName::Control, KeyDirection::Press),
            KeyStep::Key(KeyName::V, KeyDirection::Click),
            KeyStep::Key(KeyName::Control, KeyDirection::Release),
            KeyStep::Pause(50),
            KeyStep::Key(KeyName::Return, KeyDirection::Click),
        ],
{
    let steps = vec![
        KeyStep::Key(KeyName::Shift, KeyDirection::Release),
        KeyStep::Key(KeyName::Control, KeyDirection::Release),
        KeyStep::Key(KeyName::Alt, KeyDirection::Release),
        KeyStep::Pause(200),
        KeyStep::Key(KeyName::Control, KeyDirection::Press),
        KeyStep::Key(KeyName::V, KeyDirection::Click),
        KeyStep::Key(KeyName::Control, KeyDirection::Release),
        KeyStep::Pause(50),
        KeyStep::Key(KeyName::Return, KeyDirection::Click),
    ];
    steps
}

} // verus!
