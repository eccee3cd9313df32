use quicklaunch::debounce::{Debouncer, SHORTCUT_DEBOUNCE_MS, CLIPBOARD_DEBOUNCE_MS};

#[test]
fn first_press_fires() {
    let mut d = Debouncer::new(SHORTCUT_DEBOUNCE_MS);
    assert!(d.trigger(0));
    assert_eq!(d.last_fire_ms, Some(0));
}

#[test]
fn press_within_interval_is_held() {
    let mut d = Debouncer::new(300);
    assert!(d.trigger(1000));
    assert!(!d.trigger(1299));
    assert_eq!(d.last_fire_ms, Some(1000));
    assert!(d.trigger(1300));
    assert_eq!(d.last_fire_ms, Some(1300));
}

#[test]
fn held_press_does_not_move_reference() {
    let mut d = Debouncer::new(CLIPBOARD_DEBOUNCE_MS);
    assert!(d.trigger(10));
    assert!(!d.trigger(300));
    assert!(!d.trigger(509));
    assert!(d.trigger(510));
}

#[test]
fn clock_going_back_is_held() {
    let mut d = Debouncer::new(300);
    assert!(d.trigger(5000));
    assert!(!d.trigger(100));
    assert_eq!(d.last_fire_ms, Some(5000));
}

#[test]
fn accepted_presses_are_spaced() {
    let mut d = Debouncer::new(300);
    let times = [0u64, 100, 250, 300, 310, 599, 600, 900, 901];
    let mut fired = Vec::new();
    for t in times {
        if d.trigger(t) {
            fired.push(t);
        }
    }
    assert_eq!(fired, vec![0, 300, 600, 900]);
    for w in fired.windows(2) {
        assert!(w[1] - w[0] >= 300);
    }
}

#[test]
fn would_accept_changes_nothing() {
    let mut d = Debouncer::new(300);
    assert!(d.would_accept(0));
    assert_eq!(d.last_fire_ms, None);
    assert!(d.trigger(0));
    assert!(!d.would_accept(299));
    assert!(d.would_accept(300));
    assert_eq!(d.last_fire_ms, Some(0));
}
