use quicklaunch::debounce::Debouncer;
use quicklaunch::keys::KeyName;
use quicklaunch::overlay::{
    overlay_bindings, restore_steps, MouseAction, MouseStep, OverlayOutcome, OverlayState,
    RestoreAction, RestoreStep,
};

#[test]
fn starts_off_on_left_full_hd() {
    let s = OverlayState::new();
    assert!(!s.active);
    assert!(s.mouse_on_left);
    assert!(!s.restoring);
    assert_eq!((s.screen_width, s.screen_height), (1920, 1080));
}

#[test]
fn screen_size_defaults_when_unknown() {
    let mut s = OverlayState::new();
    assert_eq!(s.set_screen_size(None), (1920, 1080));
    assert_eq!(s.set_screen_size(Some((2560, 1440))), (2560, 1440));
    assert_eq!((s.screen_width, s.screen_height), (2560, 1440));
}

#[test]
fn alternating_clicks() {
    let mut s = OverlayState::new();
    let a = MouseAction::ToggleLeftRightCenter;
    assert_eq!(s.plan_mouse_action(&a), vec![MouseStep::MoveTo(480, 540), MouseStep::Click]);
    assert!(s.mouse_on_left);
    s.commit_action(&a);
    assert!(!s.mouse_on_left);
    assert_eq!(s.plan_mouse_action(&a), vec![MouseStep::MoveTo(1440, 540), MouseStep::Click]);
    s.commit_action(&a);
    assert!(s.mouse_on_left);
}

#[test]
fn uncommitted_click_keeps_side() {
    let s = OverlayState::new();
    let a = MouseAction::ToggleLeftRightCenter;
    let first = s.plan_mouse_action(&a);
    assert_eq!(s.plan_mouse_action(&a), first);
    assert!(s.mouse_on_left);
}

#[test]
fn alternating_clicks_odd_and_negative_sizes() {
    let mut s = OverlayState::new();
    s.set_screen_size(Some((1366, 767)));
    let a = MouseAction::ToggleLeftRightCenter;
    assert_eq!(s.plan_mouse_action(&a)[0], MouseStep::MoveTo(341, 383));
    s.commit_action(&a);
    assert_eq!(s.plan_mouse_action(&a)[0], MouseStep::MoveTo(1024, 383));
    s.commit_action(&a);
    s.set_screen_size(Some((-7, -3)));
    assert_eq!(s.plan_mouse_action(&a)[0], MouseStep::MoveTo(-1, -1));
    s.commit_action(&a);
    assert_eq!(s.plan_mouse_action(&a)[0], MouseStep::MoveTo(-5, -1));
}

#[test]
fn other_mouse_actions() {
    let mut s = OverlayState::new();
    assert_eq!(s.plan_mouse_action(&MouseAction::MoveTo(3, 4)), vec![MouseStep::MoveTo(3, 4)]);
    assert_eq!(s.plan_mouse_action(&MouseAction::Click), vec![MouseStep::Click]);
    assert_eq!(
        s.plan_mouse_action(&MouseAction::DoubleClick),
        vec![MouseStep::Click, MouseStep::Pause(50), MouseStep::Click]
    );
    assert_eq!(
        s.plan_mouse_action(&MouseAction::MoveToClick(5, 6)),
        vec![MouseStep::MoveTo(5, 6), MouseStep::Click]
    );
    let before = s;
    s.commit_action(&MouseAction::DoubleClick);
    assert_eq!(s, before);
}

#[test]
fn key_press_outcomes() {
    let mut s = OverlayState::new();
    let mut d = Debouncer::new(300);
    let a = MouseAction::Click;
    assert_eq!(s.key_press(&mut d, &a, 0), OverlayOutcome::Restore);
    assert_eq!(s.key_press(&mut d, &a, 299), OverlayOutcome::Held);
    let mut t = Debouncer::new(300);
    assert_eq!(s.press_toggle_active(&mut t, 0), Some(true));
    assert_eq!(s.key_press(&mut d, &a, 600), OverlayOutcome::Mouse(vec![MouseStep::Click]));
    assert_eq!(s.press_toggle_active(&mut t, 100), None);
    assert_eq!(s.press_toggle_active(&mut t, 400), Some(false));
}

#[test]
fn huge_screen_with_overlay_off_is_handed_back() {
    let mut s = OverlayState::new();
    s.set_screen_size(Some((i32::MAX, 1080)));
    s.commit_action(&MouseAction::ToggleLeftRightCenter);
    let mut d = Debouncer::new(300);
    assert_eq!(s.key_press(&mut d, &MouseAction::ToggleLeftRightCenter, 0), OverlayOutcome::Restore);
}

#[test]
fn restoring_passes_through() {
    let mut s = OverlayState::new();
    let mut d = Debouncer::new(300);
    s.begin_restore();
    let before = (s, d);
    assert_eq!(s.key_press(&mut d, &MouseAction::ToggleLeftRightCenter, 0), OverlayOutcome::PassThrough);
    assert_eq!((s, d), before);
    s.end_restore();
    assert!(!s.restoring);
    assert_eq!(s.key_press(&mut d, &MouseAction::ToggleLeftRightCenter, 0), OverlayOutcome::Restore);
}

#[test]
fn restore_protocol() {
    let r = RestoreAction::SimulateKey(KeyName::F1);
    assert_eq!(
        restore_steps(r),
        vec![
            RestoreStep::Unregister,
            RestoreStep::Pause(10),
            RestoreStep::BeginRestore,
            RestoreStep::Simulate(r),
            RestoreStep::Pause(50),
            RestoreStep::EndRestore,
            RestoreStep::Reregister,
        ]
    );
}

#[test]
fn bindings() {
    let b = overlay_bindings(1920, 1080);
    assert_eq!(b.len(), 2);
    assert_eq!(b[0].shortcut, "Space");
    assert_eq!(b[0].action, MouseAction::MoveToClick(960, 540));
    assert_eq!(b[0].restore, RestoreAction::SimulateKey(KeyName::Space));
    assert_eq!(b[0].interval_ms, 300);
    assert_eq!(b[1].shortcut, "F1");
    assert_eq!(b[1].action, MouseAction::ToggleLeftRightCenter);
    assert_eq!(b[1].restore, RestoreAction::SimulateKey(KeyName::F1));
    assert_eq!(b[1].interval_ms, 300);
    let odd = overlay_bindings(1001, 701);
    assert_eq!(odd[0].action, MouseAction::MoveToClick(500, 350));
}
