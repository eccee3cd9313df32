//! Launcher shortcuts and the punctuation they type while switched off.
//!
//! `Shift+1` .. `Shift+5` open programs and web pages. `Shift+M` switches
//! these shortcuts off and on; while they are off, a press types the symbol
//! that its key would type (`Shift+1` gives `!`). `Shift+N` switches the typed
//! symbols between ASCII and full-width Chinese punctuation.
use vstd::prelude::*;
use crate::debounce::{Debouncer, SHORTCUT_DEBOUNCE_MS};

verus! {

/// The digit `d` when `s` is exactly `Shift+d`.
pub open spec fn shift_digit(s: Seq<char>) -> Option<int> {
    if s.len() == 7 && s.take(6) =~= seq!['S', 'h', 'i', 'f', 't', '+'] && ('0' as int)
        <= (s[6] as int) <= ('9' as int) {
        Some(s[6] as int - '0' as int)
    } else {
        None
    }
}

/// The ASCII symbol on digit key `d` of a US keyboard.
pub open spec fn ascii_symbol(d: int) -> Seq<char> {
    if d == 1 {
        "!"@
    } else if d == 2 {
        "@"@
    } else if d == 3 {
        "#"@
    } else if d == 4 {
        "$"@
    } else if d == 5 {
        "%"@
    } else if d == 6 {
        "^"@
    } else if d == 7 {
        "&"@
    } else if d == 8 {
        "*"@
    } else if d == 9 {
        "("@
    } else {
        ")"@
    }
}

/// The full-width Chinese punctuation typed for digit key `d`.
pub open spec fn chinese_symbol(d: int) -> Seq<char> {
    if d == 1 {
        "！"@
    } else if d == 2 {
        "＠"@
    } else if d == 3 {
        "＃"@
    } else if d == 4 {
        "￥"@
    } else if d == 5 {
        "％"@
    } else if d == 6 {
        "……"@
    } else if d == 7 {
        "＆"@
    } else if d == 8 {
        "＊"@
    } else if d == 9 {
        "（"@
    } else {
        "）"@
    }
}

/// The text typed for a press of `shortcut` while the launcher shortcuts are
/// switched off; `None` for a shortcut that types nothing.
pub open spec fn punctuation_text(shortcut: Seq<char>, chinese: bool) -> Option<Seq<char>> {
    match shift_digit(shortcut) {
        Some(d) => Some(if chinese { chinese_symbol(d) } else { ascii_symbol(d) }),
        None => None,
    }
}

fn ascii_symbol_of(d: u32) -> (t: &'static str)
    requires
        d <= 9,
    ensures
        t@ == ascii_symbol(d as int),
{
    match d {
        1 => "!",
        2 => "@",
        3 => "#",
        4 => "$",
        5 => "%",
        6 => "^",
        7 => "&",
        8 => "*",
        9 => "(",
        _ => ")",
    }
}

fn chinese_symbol_of(d: u32) -> (t: &'static str)
    requires
        d <= 9,
    ensures
        t@ == chinese_symbol(d as int),
{
    match d {
        1 => "！",
        2 => "＠",
        3 => "＃",
        4 => "￥",
        5 => "％",
        6 => "……",
        7 => "＆",
        8 => "＊",
        9 => "（",
        _ => "）",
    }
}

/// The text to type for `shortcut` in the given punctuation mode.
pub fn punctuation_for(shortcut: &str, chinese: bool) -> (t: Option<&'static str>)
    ensures
        t is None <==> punctuation_text(shortcut@, chinese) is None,
        t matches Some(text) ==> punctuation_text(shortcut@, chinese) == Some(text@),
{
    if shortcut.unicode_len() != 7 {
        return None;
    }
    let prefix_ok = shortcut.get_char(0) == 'S' && shortcut.get_char(1) == 'h'
        && shortcut.get_char(2) == 'i' && shortcut.get_char(3) == 'f'
        && shortcut.get_char(4) == 't' && shortcut.get_char(5) == '+';
    if !prefix_ok {
        assert(!(shortcut@.take(6) =~= seq!['S', 'h', 'i', 'f', 't', '+'])) by {
            if shortcut@.take(6) =~= seq!['S', 'h', 'i', 'f', 't', '+'] {
                assert(shortcut@.take(6)[0] == 'S');
                assert(shortcut@.take(6)[1] == 'h');
                assert(shortcut@.take(6)[2] == 'i');
                assert(shortcut@.take(6)[3] == 'f');
                assert(shortcut@.take(6)[4] == 't');
                assert(shortcut@.take(6)[5] == '+');
            }
        }
        return None;
    }
    assert(shortcut@.take(6) =~= seq!['S', 'h', 'i', 'f', 't', '+']);
    let c = shortcut.get_char(6);
    let code = c as u32;
    if code < 48 || code > 57 {
        return None;
    }
    let d = code - 48;
    if chinese {
        Some(chinese_symbol_of(d))
    } else {
        Some(ascii_symbol_of(d))
    }
}

/// Whether the launcher shortcuts are switched on, and which punctuation they
/// type while they are off.
#[derive(PartialEq, Eq, Structural, Debug, Clone, Copy)]
pub struct HotkeyState {
    pub enabled: bool,
    pub chinese_punctuation: bool,
}

impl HotkeyState {
    pub open spec fn with_enabled_toggled(self) -> HotkeyState {
        HotkeyState { enabled: !self.enabled, chinese_punctuation: self.chinese_punctuation }
    }

    pub open spec fn with_punctuation_toggled(self) -> HotkeyState {
        HotkeyState { enabled: self.enabled, chinese_punctuation: !self.chinese_punctuation }
    }

    /// The state at start-up: shortcuts on, ASCII punctuation.
    pub fn new() -> (s: HotkeyState)
        ensures
            s.enabled,
            !s.chinese_punctuation,
    {
        HotkeyState { enabled: true, chinese_punctuation: false }
    }

    /// A press of `Shift+M`: when not held back, flips whether the launcher
    /// shortcuts are on and returns the new setting.
    pub fn press_toggle_enabled(&mut self, debouncer: &mut Debouncer, now: u64) -> (r: Option<bool>)
        ensures
            *final(debouncer) == old(debouncer).after(now),
            old(debouncer).accepts(now) ==> *final(self) == old(self).with_enabled_toggled()
                && r == Some(final(self).enabled),
            !old(debouncer).accepts(now) ==> *final(self) == *old(self) && r is None,
    {
        if debouncer.trigger(now) {
            self.enabled = !self.enabled;
            Some(self.enabled)
        } else {
            None
        }
    }

    /// A press of `Shift+N`: when not held back, flips between ASCII and
    /// Chinese punctuation and returns whether Chinese punctuation is now on.
    pub fn press_toggle_punctuation(&mut self, debouncer: &mut Debouncer, now: u64) -> (r: Option<
        bool,
    >)
        ensures
            *final(debouncer) == old(debouncer).after(now),
            old(debouncer).accepts(now) ==> *final(self) == old(self).with_punctuation_toggled()
                && r == Some(final(self).chinese_punctuation),
            !old(debouncer).accepts(now) ==> *final(self) == *old(self) && r is None,
    {
        if debouncer.trigger(now) {
            self.chinese_punctuation = !self.chinese_punctuation;
            Some(self.chinese_punctuation)
        } else {
            None
        }
    }
}

/// What a press of a launcher shortcut does.
#[derive(PartialEq, Eq, Debug, Clone, Copy)]
pub enum LauncherOutcome {
    /// Held back by the debouncer.
    Held,
    /// Open the shortcut's program or web page.
    Launch,
    /// The shortcuts are off: type this text.
    Type(&'static str),
    /// The shortcuts are off and this key types nothing.
    Silent,
}

/// Decides a press of the launcher shortcut `shortcut` at `now`.
pub fn launcher_press(state: &HotkeyState, debouncer: &mut Debouncer, shortcut: &str, now: u64) -> (r:
    LauncherOutcome)
    ensures
        *final(debouncer) == old(debouncer).after(now),
        !old(debouncer).accepts(now) ==> r is Held,
        old(debouncer).accepts(now) && state.enabled ==> r is Launch,
        old(debouncer).accepts(now) && !state.enabled ==> match punctuation_text(
            shortcut@,
            state.chinese_punctuation,
        ) {
            Some(text) => r matches LauncherOutcome::Type(t) && t@ == text,
            None => r is Silent,
        },
{
    if !debouncer.trigger(now) {
        return LauncherOutcome::Held;
    }
    if state.enabled {
        return LauncherOutcome::Launch;
    }
    match punctuation_for(shortcut, state.chinese_punctuation) {
        Some(t) => LauncherOutcome::Type(t),
        None => LauncherOutcome::Silent,
    }
}

/// What a launcher shortcut opens.
#[derive(PartialEq, Eq, Debug, Clone)]
pub enum LaunchTarget {
    /// A web page, opened with the system's default handler.
    Url(&'static str),
    /// A program started with the given arguments.
    Program { path: &'static str, args: Vec<&'static str> },
}

/// A launcher shortcut, what it opens, and its hold-back interval.
pub struct LauncherBinding {
    pub shortcut: &'static str,
    pub target: LaunchTarget,
    pub interval_ms: u64,
}

pub open spec fn is_program(t: LaunchTarget, path: Seq<char>, arg: Seq<char>) -> bool {
    t matches LaunchTarget::Program { path: p, args } && p@ == path && args@.len() == 1
        && args@[0]@ == arg
}

pub open spec fn is_url(t: LaunchTarget, url: Seq<char>) -> bool {
    t matches LaunchTarget::Url(u) && u@ == url
}

/// The launcher shortcuts, in the order in which they are registered; each
/// holds back presses within 300 ms of its own last accepted press.
pub fn launcher_bindings() -> (b: Vec<LauncherBinding>)
    ensures
        b@.len() == 5,
        forall|i: int| 0 <= i < 5 ==> #[trigger] b@[i].interval_ms == 300,
        b@[0].shortcut@ == "Shift+1"@,
        is_program(
            b@[0].target,
            "C:\\Users\\Administrator\\AppData\\Local\\Doubao\\Application\\app\\Doubao_browser_proxy.exe"@,
            "https://www.douyin.com/?recommend=1"@,
        ),
        b@[1].shortcut@ == "Shift+4"@,
        is_program(
            b@[1].target,
            "C:\\Program Files\\Google\\Chrome\\Application\\chrome.exe"@,
            "https://github.com/"@,
        ),
        b@[2].shortcut@ == "Shift+5"@,
        is_program(
            b@[2].target,
            "C:\\Program Files\\Google\\Chrome\\Application\\chrome.exe"@,
            "https://www.youtube.com/"@,
        ),
        b@[3].shortcut@ == "Shift+2"@,
        is_url(b@[3].target, "https://www.bilibili.com/index.php"@),
        b@[4].shortcut@ == "Shift+3"@,
        is_url(b@[4].target, "https://chat.deepseek.com/"@),
{
    let mut b: Vec<LauncherBinding> = Vec::new();
    b.push(
        LauncherBinding {
            shortcut: "Shift+1",
            target: LaunchTarget::Program {
                path: "C:\\Users\\Administrator\\AppData\\Local\\Doubao\\Application\\app\\Doubao_browser_proxy.exe",
                args: vec!["https://www.douyin.com/?recommend=1"],
            },
            interval_ms: SHORTCUT_DEBOUNCE_MS,
        },
    );
    b.push(
        LauncherBinding {
            shortcut: "Shift+4",
            target: LaunchTarget::Program {
                path: "C:\\Program Files\\Google\\Chrome\\Application\\chrome.exe",
                args: vec!["https://github.com/"],
            },
            interval_ms: SHORTCUT_DEBOUNCE_MS,
        },
    );
    b.push(
        LauncherBinding {
            shortcut: "Shift+5",
            target: LaunchTarget::Program {
                path: "C:\\Program Files\\Google\\Chrome\\Application\\chrome.exe",
                args: vec!["https://www.youtube.com/"],
            },
            interval_ms: SHORTCUT_DEBOUNCE_MS,
        },
    );
    b.push(
        LauncherBinding {
            shortcut: "Shift+2",
            target: LaunchTarget::Url("https://www.bilibili.com/index.php"),
            interval_ms: SHORTCUT_DEBOUNCE_MS,
        },
    );
    b.push(
        LauncherBinding {
            shortcut: "Shift+3",
            target: LaunchTarget::Url("https://chat.deepseek.com/"),
            interval_ms: SHORTCUT_DEBOUNCE_MS,
        },
    );
    b
}

/// Switching the launcher shortcuts twice, or the punctuation mode twice,
/// restores the state.
pub proof fn law_toggles_are_involutions(s: HotkeyState)
    ensures
        s.with_enabled_toggled().with_enabled_toggled() == s,
        s.with_punctuation_toggled().with_punctuation_toggled() == s,
        s.with_enabled_toggled().chinese_punctuation == s.chinese_punctuation,
        s.with_punctuation_toggled().enabled == s.enabled,
{
}

/// Both punctuation modes type something for exactly the same shortcuts:
/// `Shift+0` to `Shift+9`.
pub proof fn law_punctuation_modes_cover_same_keys(shortcut: Seq<char>)
    ensures
        punctuation_text(shortcut, true) is Some <==> punctuation_text(shortcut, false) is Some,
        punctuation_text(shortcut, false) is Some <==> shift_digit(shortcut) is Some,
{
}

/// `Shift+M` always flips whether the launcher shortcuts are on and keeps the
/// punctuation mode; `Shift+N` always flips the punctuation mode and keeps the
/// on/off setting.
pub proof fn law_switches_flip_one_setting(s: HotkeyState)
    ensures
        s.with_enabled_toggled().enabled == !s.enabled,
        s.with_enabled_toggled().chinese_punctuation == s.chinese_punctuation,
        s.with_punctuation_toggled().chinese_punctuation == !s.chinese_punctuation,
        s.with_punctuation_toggled().enabled == s.enabled,
{
}

/// The symbols typed for each digit key: the shifted digit of a US keyboard
/// in ASCII mode, and full-width Chinese punctuation in Chinese mode.
pub proof fn law_punctuation_tables(d: int)
    ensures
        shift_digit(seq!['S', 'h', 'i', 'f', 't', '+', '1']) == Some(1int),
        shift_digit(seq!['S', 'h', 'i', 'f', 't', '+', '0']) == Some(0int),
        d == 1 ==> ascii_symbol(d) == "!"@ && chinese_symbol(d) == "！"@,
        d == 2 ==> ascii_symbol(d) == "@"@ && chinese_symbol(d) == "＠"@,
        d == 3 ==> ascii_symbol(d) == "#"@ && chinese_symbol(d) == "＃"@,
        d == 4 ==> ascii_symbol(d) == "$"@ && chinese_symbol(d) == "￥"@,
        d == 5 ==> ascii_symbol(d) == "%"@ && chinese_symbol(d) == "％"@,
        d == 6 ==> ascii_symbol(d) == "^"@ && chinese_symbol(d) == "……"@,
        d == 7 ==> ascii_symbol(d) == "&"@ && chinese_symbol(d) == "＆"@,
        d == 8 ==> ascii_symbol(d) == "*"@ && chinese_symbol(d) == "＊"@,
        d == 9 ==> ascii_symbol(d) == "("@ && chinese_symbol(d) == "（"@,
        d == 0 ==> ascii_symbol(d) == ")"@ && chinese_symbol(d) == "）"@,
{
    assert(seq!['S', 'h', 'i', 'f', 't', '+', '1'].take(6) =~= seq!['S', 'h', 'i', 'f', 't', '+']);
    assert(seq!['S', 'h', 'i', 'f', 't', '+', '0'].take(6) =~= seq!['S', 'h', 'i', 'f', 't', '+']);
}

} // verus!
