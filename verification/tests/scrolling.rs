//! Scrolling of the message area.
use steve::state::MessageAreaState;

#[test]
fn app_scroll_down_event_scrolls_down() {
    let mut state = MessageAreaState::default();
    state.update_dimensions(500, 100);
    state.scroll_to_bottom();
    state.scroll_up(10);
    let after_up = state.scroll_offset;
    state.scroll_down(3);
    assert!(
        state.scroll_offset > after_up,
        "scroll_down should increase offset"
    );
}

#[test]
fn app_keyboard_scroll_up_down() {
    let mut state = MessageAreaState::default();
    state.update_dimensions(500, 100);
    state.scroll_to_bottom(); // offset = 400
    assert!(state.auto_scroll);
    state.scroll_up(1);
    assert_eq!(state.scroll_offset, 399);
    assert!(!state.auto_scroll, "scrolling up should disable auto_scroll");
    state.scroll_down(1);
    assert_eq!(state.scroll_offset, 400);
    assert!(state.auto_scroll, "returning to bottom should re-enable auto_scroll");
}

#[test]
fn app_keyboard_page_scroll() {
    let mut state = MessageAreaState::default();
    state.update_dimensions(500, 100);
    state.scroll_to_bottom(); // offset = 400
    assert!(state.auto_scroll);
    let page = state.visible_height(); // 100
    state.scroll_up(page);
    assert_eq!(state.scroll_offset, 300);
    assert!(!state.auto_scroll, "page up should disable auto_scroll");
    state.scroll_down(page);
    assert_eq!(state.scroll_offset, 400);
    assert!(state.auto_scroll, "page down to bottom should re-enable auto_scroll");
}

#[test]
fn event_loop_scroll_down_event_scrolls_down() {
    let mut state = MessageAreaState::default();
    state.update_dimensions(500, 100);
    state.scroll_to_bottom();
    state.scroll_up(10);
    let after_up = state.scroll_offset;
    state.scroll_down(3);
    assert!(
        state.scroll_offset > after_up,
        "scroll_down should increase offset"
    );
}

#[test]
fn event_loop_keyboard_scroll_up_down() {
    let mut state = MessageAreaState::default();
    state.update_dimensions(500, 100);
    state.scroll_to_bottom(); // offset = 400
    assert!(state.auto_scroll);
    state.scroll_up(1);
    assert_eq!(state.scroll_offset, 399);
    assert!(
        !state.auto_scroll,
        "scrolling up should disable auto_scroll"
    );
    state.scroll_down(1);
    assert_eq!(state.scroll_offset, 400);
    assert!(
        state.auto_scroll,
        "returning to bottom should re-enable auto_scroll"
    );
}

#[test]
fn event_loop_keyboard_page_scroll() {
    let mut state = MessageAreaState::default();
    state.update_dimensions(500, 100);
    state.scroll_to_bottom(); // offset = 400
    assert!(state.auto_scroll);
    let page = state.visible_height(); // 100
    state.scroll_up(page);
    assert_eq!(state.scroll_offset, 300);
    assert!(!state.auto_scroll, "page up should disable auto_scroll");
    state.scroll_down(page);
    assert_eq!(state.scroll_offset, 400);
    assert!(
        state.auto_scroll,
        "page down to bottom should re-enable auto_scroll"
    );
}

#[test]
fn tests_scroll_down_event_scrolls_down() {
    let mut state = MessageAreaState::default();
    state.update_dimensions(500, 100);
    state.scroll_to_bottom();
    state.scroll_up(10);
    let after_up = state.scroll_offset;
    state.scroll_down(3);
    assert!(
        state.scroll_offset > after_up,
        "scroll_down should increase offset"
    );
}

#[test]
fn tests_keyboard_scroll_up_down() {
    let mut state = MessageAreaState::default();
    state.update_dimensions(500, 100);
    state.scroll_to_bottom(); // offset = 400
    assert!(state.auto_scroll);
    state.scroll_up(1);
    assert_eq!(state.scroll_offset, 399);
    assert!(!state.auto_scroll, "scrolling up should disable auto_scroll");
    state.scroll_down(1);
    assert_eq!(state.scroll_offset, 400);
    assert!(state.auto_scroll, "returning to bottom should re-enable auto_scroll");
}

#[test]
fn tests_keyboard_page_scroll() {
    let mut state = MessageAreaState::default();
    state.update_dimensions(500, 100);
    state.scroll_to_bottom(); // offset = 400
    assert!(state.auto_scroll);
    let page = state.visible_height(); // 100
    state.scroll_up(page);
    assert_eq!(state.scroll_offset, 300);
    assert!(!state.auto_scroll, "page up should disable auto_scroll");
    state.scroll_down(page);
    assert_eq!(state.scroll_offset, 400);
    assert!(state.auto_scroll, "page down to bottom should re-enable auto_scroll");
}
