//! The shortcuts that switch the launcher's modes and its window.
use vstd::prelude::*;
use crate::debounce::SHORTCUT_DEBOUNCE_MS;

verus! {

/// What a switch shortcut switches.
#[derive(PartialEq, Eq, Structural, Debug, Clone, Copy)]
pub enum Switch {
    /// Show or hide the main window (`commands::main_window_toggle`).
    MainWindow,
    /// Launcher shortcuts on or off (`HotkeyState::press_toggle_enabled`).
    LauncherKeys,
    /// ASCII or Chinese punctuation (`HotkeyState::press_toggle_punctuation`).
    Punctuation,
    /// Mouse overlay on or off (`OverlayState::press_toggle_active`).
    Overlay,
}

/// A switch shortcut, what it switches, and its hold-back interval.
pub struct SwitchBinding {
    pub shortcut: &'static str,
    pub switch: Switch,
    pub interval_ms: u64,
}

/// The switch shortcuts, in the order in which they are registered; each
/// holds back presses within 300 ms of its own last accepted press.
pub fn switch_bindings() -> (b: Vec<SwitchBinding>)
    ensures
        b@.len() == 4,
        b@[0].shortcut@ == "Ctrl+Shift+space"@,
        b@[0].switch == Switch::MainWindow,
        b@[1].shortcut@ == "Shift+M"@,
        b@[1].switch == Switch::LauncherKeys,
        b@[2].shortcut@ == "Shift+N"@,
        b@[2].switch == Switch::Punctuation,
        b@[3].shortcut@ == "Shift+l"@,
        b@[3].switch == Switch::Overlay,
        forall|i: int| 0 <= i < 4 ==> #[trigger] b@[i].interval_ms == 300,
{
    vec![
        SwitchBinding {
            shortcut: "Ctrl+Shift+space",
            switch: Switch::MainWindow,
            interval_ms: SHORTCUT_DEBOUNCE_MS,
        },
        SwitchBinding {
            shortcut: "Shift+M",
            switch: Switch::LauncherKeys,
            interval_ms: SHORTCUT_DEBOUNCE_MS,
        },
        SwitchBinding {
            shortcut: "Shift+N",
            switch: Switch::Punctuation,
            interval_ms: SHORTCUT_DEBOUNCE_MS,
        },
        SwitchBinding { shortcut: "Shift+l", switch: Switch::Overlay, interval_ms: SHORTCUT_DEBOUNCE_MS },
    ]
}

} // verus!
