use convo_browser::nav::{KeyInput, NavState};
use convo_browser::records::{fetch_conversations, Conversation, StubSource};
use convo_browser::render::{
    build_frame_plan, command_bar_text, detail_for, list_line, list_lines, scrollbar_coord,
    COMMAND_BAR_MAX_HEIGHT, DETAIL_MIN_HEIGHT, HORIZONTAL_CONTENT_LENGTH, LIST_HEIGHT,
};
use convo_browser::session::Session;

#[test]
fn list_line_names_title_and_id() {
    let conv = Conversation {
        title: String::from("Conversation 1"),
        id: String::from("conv-1"),
    };
    assert_eq!(list_line(&conv), "Title: Conversation 1 ID: conv-1");
}

#[test]
fn list_lines_covers_the_whole_page() {
    let page = fetch_conversations(0);
    let lines = list_lines(&page);
    assert_eq!(lines.len(), page.len());
    assert_eq!(lines[4], "Title: Conversation 5 ID: conv-5");
}

#[test]
fn detail_for_selected_record() {
    let page = fetch_conversations(0);
    let detail = detail_for(&page, 2).expect("selection is in bounds");
    assert_eq!(detail, page[2].details());
}

#[test]
fn empty_page_has_no_detail() {
    let page: Vec<Conversation> = Vec::new();
    assert!(detail_for(&page, 0).is_none());
}

#[test]
fn selection_past_the_page_has_no_detail() {
    let page = fetch_conversations(0);
    assert!(detail_for(&page, 5).is_none());
}

#[test]
fn command_bar_is_the_static_label_row() {
    assert_eq!(
        command_bar_text(),
        "History    |     Config    |     History    |     New    |     Shared"
    );
}

#[test]
fn scrollbar_coord_keeps_the_low_sixteen_bits() {
    assert_eq!(scrollbar_coord(0), 0);
    assert_eq!(scrollbar_coord(4464), 4464);
    assert_eq!(scrollbar_coord(65536), 0);
    assert_eq!(scrollbar_coord(70000), 4464);
}

#[test]
fn frame_plan_recomputes_content_length_from_the_live_detail() {
    let s = Session::new(StubSource);
    let plan = build_frame_plan(&s.conversations, &s.nav);
    assert_eq!(plan.list_lines.len(), 5);
    let detail = plan.detail.as_deref().expect("a record is selected");
    assert_eq!(detail, s.conversations[0].details());
    assert_eq!(plan.content_length as usize, detail.chars().count() % 0x10000);
    assert_eq!(plan.vertical_position, 0);
    assert_eq!(plan.horizontal_position, 0);
    assert_eq!(plan.horizontal_content_length, HORIZONTAL_CONTENT_LENGTH);
}

#[test]
fn frame_plan_truncates_scroll_positions_to_the_widget_range() {
    let mut s = Session::new(StubSource);
    for _ in 0..7000 {
        s.handle_key(KeyInput::ScrollDown);
    }
    assert_eq!(s.nav.vertical_scroll, 70000);
    let plan = build_frame_plan(&s.conversations, &s.nav);
    assert_eq!(plan.vertical_position, 4464);
}

#[test]
fn frame_plan_for_an_empty_page_has_no_detail() {
    let page: Vec<Conversation> = Vec::new();
    let nav = NavState::new();
    let plan = build_frame_plan(&page, &nav);
    assert!(plan.detail.is_none());
    assert_eq!(plan.content_length, 0);
    assert!(plan.list_lines.is_empty());
}

#[test]
fn pane_heights_match_the_layout_policy() {
    assert_eq!(LIST_HEIGHT, 8);
    assert_eq!(DETAIL_MIN_HEIGHT, 8);
    assert_eq!(COMMAND_BAR_MAX_HEIGHT, 3);
}
