use quicklaunch::clipboard::{
    capture_selection_steps, clipboard_action, clipboard_bindings, paste_and_enter_keystrokes,
    CaptureStep, ClipboardMode,
};
use quicklaunch::commands::{
    captured_outcome, execute_command_plan, main_window_toggle, open_path_plan, open_with_plan,
    python_backend_layout, spawned_in_window_reply, toggled_always_on_top, OpenPlan, Platform,
    WindowToggle,
};
use quicklaunch::keys::{KeyName, KeyStep};
use quicklaunch::keys::KeyDirection::{Click, Press, Release};
use quicklaunch::switches::{switch_bindings, Switch};
use quicklaunch::models::{get_search_engines, SavedData};

#[test]
fn search_engines() {
    let e = get_search_engines();
    assert_eq!(e.len(), 3);
    assert_eq!(e[0].name, "Bing");
    assert_eq!(e[0].url_template, "https://www.bing.com/search?q={q}");
    assert_eq!(e[1].name, "百度");
    assert_eq!(e[1].url_template, "https://www.baidu.com/s?wd={q}");
    assert_eq!(e[2].name, "Bilibili");
    assert_eq!(e[2].url_template, "https://search.bilibili.com/all?keyword={q}");
}

#[test]
fn empty_saved_data() {
    let d = SavedData::empty();
    assert!(d.files.is_empty() && d.folders.is_empty() && d.apps.is_empty());
    assert!(d.input_history.is_empty() && d.command_history.is_empty());
}

#[test]
fn open_path_on_windows() {
    match open_path_plan(r"C:\data", true, Platform::Windows) {
        OpenPlan::Spawn(c) => {
            assert_eq!(c.program, "explorer");
            assert_eq!(c.args, vec![r"C:\data".to_string()]);
            assert!(c.detached);
        }
        _ => panic!("expected a program"),
    }
    match open_path_plan(r"C:\a.txt", false, Platform::Windows) {
        OpenPlan::Spawn(c) => {
            assert_eq!(c.program, "rundll32");
            assert_eq!(c.args, vec!["url.dll,FileProtocolHandler".to_string(), r"C:\a.txt".to_string()]);
            assert!(c.detached);
        }
        _ => panic!("expected a program"),
    }
}

#[test]
fn open_path_elsewhere() {
    match open_path_plan("/home/u", true, Platform::Other) {
        OpenPlan::SystemOpener(p) => assert_eq!(p, "/home/u"),
        _ => panic!("expected the system opener"),
    }
    assert!(matches!(open_path_plan("/x", false, Platform::MacOs), OpenPlan::SystemOpener(_)));
}

#[test]
fn open_with_plans() {
    let c = open_with_plan("/tmp/f", "Code", Platform::MacOs);
    assert_eq!(c.program, "open");
    assert_eq!(c.args, vec!["-a".to_string(), "Code".to_string(), "/tmp/f".to_string()]);
    assert!(!c.detached);
    let w = open_with_plan(r"D:\proj", r"C:\code.exe", Platform::Windows);
    assert_eq!(w.program, r"C:\code.exe");
    assert_eq!(w.args, vec![r"D:\proj".to_string()]);
    assert!(w.detached);
}

#[test]
fn execute_command_plans() {
    let p = execute_command_plan("dir", Platform::Windows);
    assert_eq!(p.command.program, "cmd");
    assert_eq!(p.command.args, vec!["/C".to_string(), "start cmd /c dir".to_string()]);
    assert!(!p.capture_output);
    let q = execute_command_plan("ls -l", Platform::Other);
    assert_eq!(q.command.program, "sh");
    assert_eq!(q.command.args, vec!["-c".to_string(), "ls -l".to_string()]);
    assert!(q.capture_output);
    assert_eq!(spawned_in_window_reply(), "已在单独窗口中运行");
}

#[test]
fn captured_outcomes() {
    assert_eq!(captured_outcome(true, b"hello\n", b"warn"), Ok("hello\n".to_string()));
    assert_eq!(captured_outcome(false, b"out", b"err"), Err("out\nerr".to_string()));
    assert_eq!(captured_outcome(false, b"", b""), Err("\n".to_string()));
    assert_eq!(captured_outcome(true, &[0x61, 0xff, 0x62], b""), Ok("a\u{FFFD}b".to_string()));
    assert_eq!(captured_outcome(true, "中文".as_bytes(), b""), Ok("中文".to_string()));
}

#[test]
fn window_switches() {
    assert!(toggled_always_on_top(Some(false)));
    assert!(!toggled_always_on_top(Some(true)));
    assert!(toggled_always_on_top(None));
    assert_eq!(main_window_toggle(Some(true)), WindowToggle::Hide);
    assert_eq!(main_window_toggle(Some(false)), WindowToggle::Show);
    assert_eq!(main_window_toggle(None), WindowToggle::Show);
}

#[test]
fn clipboard_actions() {
    assert!(clipboard_action(String::new(), ClipboardMode::Browser).is_none());
    let a = clipboard_action("rust verus".to_string(), ClipboardMode::Browser).unwrap();
    assert_eq!(a.text, "rust verus");
    assert_eq!(a.mode, "browser");
    let c = clipboard_action("ls".to_string(), ClipboardMode::Command).unwrap();
    assert_eq!(c.mode, "command");
    let b = clipboard_bindings();
    assert_eq!(b[0].shortcut, "Ctrl+Shift+C");
    assert_eq!(b[0].mode, ClipboardMode::Browser);
    assert_eq!(b[0].interval_ms, 500);
    assert_eq!(b[1].shortcut, "Ctrl+Alt+C");
    assert_eq!(b[1].mode, ClipboardMode::Command);
    assert_eq!(b[1].interval_ms, 500);
}

#[test]
fn keystroke_scripts() {
    assert_eq!(
        capture_selection_steps(),
        vec![
            CaptureStep::Key(KeyName::Shift, Release),
            CaptureStep::Key(KeyName::Control, Press),
            CaptureStep::Key(KeyName::C, Click),
            CaptureStep::Key(KeyName::Control, Release),
            CaptureStep::Key(KeyName::Shift, Press),
            CaptureStep::Pause(300),
            CaptureStep::ReadClipboard,
        ]
    );
    let p = paste_and_enter_keystrokes();
    assert_eq!(p.len(), 9);
    assert_eq!(p[3], KeyStep::Pause(200));
    assert_eq!(p[5], KeyStep::Key(KeyName::V, Click));
    assert_eq!(p[8], KeyStep::Key(KeyName::Return, Click));
}

#[test]
fn python_backend() {
    let l = python_backend_layout();
    assert_eq!(l.program, "python");
    assert_eq!(l.dir, "ai_server");
    assert_eq!(l.script, "server.py");
    assert_eq!(l.models, "models");
    assert_eq!(l.models_env, "MODELS_DIR");
    assert!(l.hide_window);
}

#[test]
fn switch_table() {
    let b = switch_bindings();
    let got: Vec<(&str, Switch, u64)> = b.iter().map(|x| (x.shortcut, x.switch, x.interval_ms)).collect();
    assert_eq!(
        got,
        vec![
            ("Ctrl+Shift+space", Switch::MainWindow, 300),
            ("Shift+M", Switch::LauncherKeys, 300),
            ("Shift+N", Switch::Punctuation, 300),
            ("Shift+l", Switch::Overlay, 300),
        ]
    );
}
