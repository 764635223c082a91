use kbd_overlay::capture::HotkeyTracker;
use kbd_overlay::{KeyName, OverlayEvent};

fn combo() -> Vec<KeyName> {
    vec![KeyName::ControlLeft, KeyName::Alt, KeyName::ShiftLeft, KeyName::Slash]
}

#[test]
fn momentary_full_press_emits_one_show() {
    let mut t = HotkeyTracker::new(combo(), false);
    assert_eq!(t.on_key_press(KeyName::ControlLeft), None);
    assert_eq!(t.on_key_press(KeyName::Alt), None);
    assert_eq!(t.on_key_press(KeyName::ShiftLeft), None);
    assert_eq!(t.on_key_press(KeyName::Slash), Some(OverlayEvent::Show));
}

#[test]
fn momentary_show_comes_on_the_completing_press_in_any_order() {
    let mut t = HotkeyTracker::new(combo(), false);
    assert_eq!(t.on_key_press(KeyName::Slash), None);
    assert_eq!(t.on_key_press(KeyName::ShiftLeft), None);
    assert_eq!(t.on_key_press(KeyName::Alt), None);
    assert_eq!(t.on_key_press(KeyName::ControlLeft), Some(OverlayEvent::Show));
}

#[test]
fn momentary_release_of_any_required_key_hides() {
    let mut t = HotkeyTracker::new(combo(), false);
    for k in combo() {
        t.on_key_press(k);
    }
    assert_eq!(t.on_key_release(KeyName::Alt), Some(OverlayEvent::Hide));
    assert_eq!(t.on_key_release(KeyName::Slash), Some(OverlayEvent::Hide));
}

#[test]
fn momentary_release_of_unrelated_key_emits_nothing() {
    let mut t = HotkeyTracker::new(combo(), false);
    for k in combo() {
        t.on_key_press(k);
    }
    assert_eq!(t.on_key_release(KeyName::KeyQ), None);
}

#[test]
fn momentary_incomplete_press_emits_nothing() {
    let mut t = HotkeyTracker::new(combo(), false);
    assert_eq!(t.on_key_press(KeyName::ControlLeft), None);
    assert_eq!(t.on_key_press(KeyName::KeyQ), None);
    assert_eq!(t.on_key_press(KeyName::Slash), None);
}

#[test]
fn momentary_repeated_press_of_held_key_does_not_complete_combo() {
    let mut t = HotkeyTracker::new(combo(), false);
    assert_eq!(t.on_key_press(KeyName::ControlLeft), None);
    assert_eq!(t.on_key_press(KeyName::ControlLeft), None);
    assert_eq!(t.on_key_press(KeyName::Alt), None);
    assert_eq!(t.on_key_press(KeyName::ShiftLeft), None);
    assert_eq!(t.on_key_press(KeyName::Slash), Some(OverlayEvent::Show));
}

#[test]
fn persist_full_press_emits_exactly_one_toggle() {
    let mut t = HotkeyTracker::new(combo(), true);
    assert_eq!(t.on_key_press(KeyName::ControlLeft), None);
    assert_eq!(t.on_key_press(KeyName::Alt), None);
    assert_eq!(t.on_key_press(KeyName::ShiftLeft), None);
    assert_eq!(t.on_key_press(KeyName::Slash), Some(OverlayEvent::Toggle));
}

#[test]
fn persist_holding_the_combination_emits_no_further_toggle() {
    let mut t = HotkeyTracker::new(combo(), true);
    for k in combo() {
        t.on_key_press(k);
    }
    // key repeat while latched
    assert_eq!(t.on_key_press(KeyName::Slash), None);
    assert_eq!(t.on_key_press(KeyName::Slash), None);
    assert_eq!(t.on_key_press(KeyName::KeyQ), None);
}

#[test]
fn persist_release_and_repress_toggles_once_more() {
    let mut t = HotkeyTracker::new(combo(), true);
    for k in combo() {
        t.on_key_press(k);
    }
    assert_eq!(t.on_key_release(KeyName::Slash), None);
    assert_eq!(t.on_key_press(KeyName::Slash), Some(OverlayEvent::Toggle));
}

#[test]
fn persist_release_emits_no_event() {
    let mut t = HotkeyTracker::new(combo(), true);
    for k in combo() {
        t.on_key_press(k);
    }
    assert_eq!(t.on_key_release(KeyName::ControlLeft), None);
    assert_eq!(t.on_key_release(KeyName::Alt), None);
    assert_eq!(t.on_key_release(KeyName::ShiftLeft), None);
    assert_eq!(t.on_key_release(KeyName::Slash), None);
}
