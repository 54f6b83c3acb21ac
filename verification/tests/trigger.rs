use hotcap::screencapture::Image;
use hotcap::trigger::{handle_trigger, toggle_action, WindowAction, WindowState};

fn frame(byte: u8) -> Image {
    Image::new(1, 1, vec![byte; 4]).unwrap()
}

#[test]
fn visible_window_is_hidden_without_focus_call() {
    let outcomes = vec![Some(frame(1)), None, Some(frame(2))];
    let t = handle_trigger(Some(outcomes), Some(true));
    assert_eq!(t.action, WindowAction::Hide);
    assert_eq!(t.log_count(), Some(2));

    let before = WindowState { visible: true, focused: false };
    let after = before.apply(t.action);
    assert!(!after.visible);
    assert_eq!(after.focused, before.focused);
}

#[test]
fn hidden_window_is_shown_and_focused() {
    let t = handle_trigger(None, Some(false));
    assert_eq!(t.action, WindowAction::ShowAndFocus);
    assert_eq!(t.log_count(), None);

    let before = WindowState { visible: false, focused: false };
    let after = before.apply(t.action);
    assert!(after.visible);
    assert!(after.focused);
}

#[test]
fn unreadable_visibility_counts_as_hidden() {
    assert_eq!(toggle_action(None), WindowAction::ShowAndFocus);
    assert_eq!(toggle_action(Some(false)), WindowAction::ShowAndFocus);
    assert_eq!(toggle_action(Some(true)), WindowAction::Hide);
}

#[test]
fn failed_capture_pass_still_toggles() {
    let t = handle_trigger(Some(vec![None, None]), Some(true));
    assert_eq!(t.log_count(), None);
    assert_eq!(t.action, WindowAction::Hide);
}
