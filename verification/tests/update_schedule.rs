use taigikeyboard::update_schedule::{is_due, stamp_next_check, SettingsDocument, CHECK_INTERVAL_MS};
use taigikeyboard::update_trigger::{fire_if_due, on_activate, UNREAD};

#[test]
fn the_schedule_is_due_again_one_interval_after_the_stamp() {
    let mut document = SettingsDocument::default();
    assert!(is_due(&document, 0));
    stamp_next_check(&mut document, 1_000);
    assert!(!is_due(&document, 1_000 + CHECK_INTERVAL_MS - 1));
    assert!(is_due(&document, 1_000 + CHECK_INTERVAL_MS));
}

#[test]
fn the_interval_is_one_day() {
    assert_eq!(CHECK_INTERVAL_MS, 24 * 60 * 60 * 1000);
    let mut document = SettingsDocument::default();
    stamp_next_check(&mut document, 5);
    assert_eq!(document.update_next_check_ms, 5 + 86_400_000);
}

#[test]
fn fires_once_per_due_window_and_reads_the_file_once() {
    // stored next = 5_000; at 4_999 not due; at 5_000 fires and moves the
    // cache to 5_000 + DAY; a second activation at 5_001 does not fire; the
    // file is read on the first call only.
    let mut trigger = UNREAD;
    let mut reads = 0;
    assert!(!fire_if_due(
        &mut trigger,
        || {
            reads += 1;
            5_000
        },
        4_999
    ));
    assert!(fire_if_due(&mut trigger, || unreachable!("cached"), 5_000));
    assert!(!fire_if_due(&mut trigger, || unreachable!("cached"), 5_001));
    assert!(fire_if_due(
        &mut trigger,
        || unreachable!("cached"),
        5_000 + CHECK_INTERVAL_MS
    ));
    assert_eq!(reads, 1);
}

#[test]
fn a_fresh_install_checks_on_its_first_activation() {
    // The stored next-check time defaults to 0: never checked is overdue.
    let mut trigger = UNREAD;
    assert!(fire_if_due(&mut trigger, || 0, 1_000));
}

#[test]
fn firing_moves_the_cache_a_full_interval_on() {
    let mut trigger = UNREAD;
    assert!(fire_if_due(&mut trigger, || 10, 20));
    assert_eq!(trigger, 20 + CHECK_INTERVAL_MS);
    assert!(!fire_if_due(&mut trigger, || unreachable!("cached"), 20 + CHECK_INTERVAL_MS - 1));
    assert_eq!(trigger, 20 + CHECK_INTERVAL_MS);
}

#[test]
fn an_activation_fires_only_when_due_and_never_with_updates_off() {
    let mut trigger = UNREAD;
    assert!(!on_activate(&mut trigger, || panic!("not read"), 20_000, false));
    assert_eq!(trigger, UNREAD);
    assert!(!on_activate(&mut trigger, || 10_000, 9_999, true));
    assert!(on_activate(&mut trigger, || panic!("read once"), 10_000, true));
    assert_eq!(trigger, 10_000 + CHECK_INTERVAL_MS);
    assert!(!on_activate(&mut trigger, || panic!("read once"), 10_001, true));
}
