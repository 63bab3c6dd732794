use convo_browser::nav::{KeyInput, NavState, SCROLL_STEP};
use convo_browser::records::{StubSource, PAGE_SIZE};
use convo_browser::session::Session;

#[test]
fn down_walks_then_clamps_at_last_record() {
    // On a page of 5 records, four presses reach the last record and a
    // fifth leaves the selection clamped there.
    let mut s = Session::new(StubSource);
    assert_eq!(PAGE_SIZE, 5);
    for _ in 0..4 {
        s.handle_key(KeyInput::Down);
    }
    assert_eq!(s.nav.selected_index, 4);
    s.handle_key(KeyInput::Down);
    assert_eq!(s.nav.selected_index, 4);
}

#[test]
fn up_floors_at_zero() {
    let mut s = Session::new(StubSource);
    s.handle_key(KeyInput::Down);
    s.handle_key(KeyInput::Down);
    assert_eq!(s.nav.selected_index, 2);
    s.handle_key(KeyInput::Up);
    s.handle_key(KeyInput::Up);
    assert_eq!(s.nav.selected_index, 0);
    s.handle_key(KeyInput::Up);
    assert_eq!(s.nav.selected_index, 0);
}

#[test]
fn page_up_on_first_page_changes_nothing() {
    let mut s = Session::new(StubSource);
    s.handle_key(KeyInput::Down);
    s.handle_key(KeyInput::ScrollDown);
    s.handle_key(KeyInput::ScrollRight);
    let before = s.nav;
    let before_titles: Vec<String> = s.conversations.iter().map(|c| c.title.clone()).collect();
    s.handle_key(KeyInput::PageUp);
    assert_eq!(s.nav, before);
    let after_titles: Vec<String> = s.conversations.iter().map(|c| c.title.clone()).collect();
    assert_eq!(after_titles, before_titles);
}

#[test]
fn page_down_advances_and_resets_selection() {
    let mut s = Session::new(StubSource);
    s.handle_key(KeyInput::Down);
    s.handle_key(KeyInput::Down);
    s.handle_key(KeyInput::Down);
    assert_eq!(s.nav.selected_index, 3);
    s.handle_key(KeyInput::PageDown);
    assert_eq!(s.nav.current_page, 1);
    assert_eq!(s.nav.selected_index, 0);
}

#[test]
fn page_down_twice_then_page_up_lands_on_page_one() {
    let mut s = Session::new(StubSource);
    s.handle_key(KeyInput::PageDown);
    s.handle_key(KeyInput::PageDown);
    s.handle_key(KeyInput::PageUp);
    assert_eq!(s.nav.current_page, 1);
    assert_eq!(s.nav.selected_index, 0);
    // The page on display is a fresh fetch for page index 1.
    let expected = convo_browser::records::fetch_conversations(1);
    assert_eq!(s.conversations.len(), expected.len());
    for (got, want) in s.conversations.iter().zip(expected.iter()) {
        assert_eq!(got.title, want.title);
        assert_eq!(got.id, want.id);
    }
}

#[test]
fn scroll_down_adds_a_step_and_scroll_up_takes_it_back() {
    let mut s = Session::new(StubSource);
    s.handle_key(KeyInput::ScrollDown);
    s.handle_key(KeyInput::ScrollDown);
    assert_eq!(s.nav.vertical_scroll, 2 * SCROLL_STEP);
    s.handle_key(KeyInput::ScrollUp);
    assert_eq!(s.nav.vertical_scroll, SCROLL_STEP);
    s.handle_key(KeyInput::ScrollUp);
    s.handle_key(KeyInput::ScrollUp);
    assert_eq!(s.nav.vertical_scroll, 0);
}

#[test]
fn horizontal_scroll_floors_at_zero() {
    let mut s = Session::new(StubSource);
    s.handle_key(KeyInput::ScrollLeft);
    assert_eq!(s.nav.horizontal_scroll, 0);
    s.handle_key(KeyInput::ScrollRight);
    assert_eq!(s.nav.horizontal_scroll, SCROLL_STEP);
    s.handle_key(KeyInput::ScrollLeft);
    s.handle_key(KeyInput::ScrollLeft);
    assert_eq!(s.nav.horizontal_scroll, 0);
}

#[test]
fn other_keys_are_ignored() {
    let mut s = Session::new(StubSource);
    s.handle_key(KeyInput::Down);
    let before = s.nav;
    let quit = s.handle_key(KeyInput::Other);
    assert!(!quit);
    assert_eq!(s.nav, before);
}

#[test]
fn scroll_offsets_persist_across_page_changes() {
    // The state machine does not reset scroll offsets on navigation:
    // the offset from one record carries over to the next page.
    let mut s = Session::new(StubSource);
    s.handle_key(KeyInput::ScrollDown);
    s.handle_key(KeyInput::PageDown);
    assert_eq!(s.nav.vertical_scroll, SCROLL_STEP);
}

#[test]
fn fresh_nav_state_is_all_zero() {
    let n = NavState::new();
    assert_eq!(n.selected_index, 0);
    assert_eq!(n.current_page, 0);
    assert_eq!(n.vertical_scroll, 0);
    assert_eq!(n.horizontal_scroll, 0);
}
