use convo_browser::nav::KeyInput;
use convo_browser::records::StubSource;
use convo_browser::session::{drive, LoopEvent, Outcome, Session, POLL_INTERVAL_MS};

#[test]
fn quit_path_restores_the_terminal_exactly_once() {
    let events = vec![
        LoopEvent::Key(KeyInput::Down),
        LoopEvent::Tick,
        LoopEvent::Key(KeyInput::Quit),
    ];
    let report = drive(StubSource, &events).expect("the quit key ends the loop");
    assert_eq!(report.outcome, Outcome::Quit);
    assert_eq!(report.teardown.runs, 1);
    assert_eq!(report.session.nav.selected_index, 1);
}

#[test]
fn error_path_restores_the_terminal_exactly_once() {
    let events = vec![
        LoopEvent::Key(KeyInput::Down),
        LoopEvent::RenderError,
        LoopEvent::Key(KeyInput::Down),
    ];
    let report = drive(StubSource, &events).expect("a render error ends the loop");
    assert_eq!(report.outcome, Outcome::Failed);
    assert_eq!(report.teardown.runs, 1);
    // Only the event before the error was consumed.
    assert_eq!(report.session.nav.selected_index, 1);
}

#[test]
fn without_quit_or_error_the_loop_keeps_running() {
    let events = vec![
        LoopEvent::Tick,
        LoopEvent::Key(KeyInput::Down),
        LoopEvent::Key(KeyInput::Other),
    ];
    assert!(drive(StubSource, &events).is_none());
}

#[test]
fn page_down_twice_then_page_up_via_the_loop() {
    let events = vec![
        LoopEvent::Key(KeyInput::PageDown),
        LoopEvent::Key(KeyInput::PageDown),
        LoopEvent::Key(KeyInput::PageUp),
        LoopEvent::Key(KeyInput::Quit),
    ];
    let report = drive(StubSource, &events).expect("the quit key ends the loop");
    assert_eq!(report.session.nav.current_page, 1);
    assert_eq!(report.session.nav.selected_index, 0);
    assert_eq!(report.session.conversations[0].title, "Conversation 6");
    assert_eq!(report.session.conversations[0].id, "conv-6");
}

#[test]
fn tick_only_redraws() {
    let mut s = Session::new(StubSource);
    s.handle_key(KeyInput::Down);
    let before = s.nav;
    let outcome = s.handle_event(LoopEvent::Tick);
    assert!(outcome.is_none());
    assert_eq!(s.nav, before);
}

#[test]
fn quit_key_reports_quit_and_leaves_state_alone() {
    let mut s = Session::new(StubSource);
    s.handle_key(KeyInput::Down);
    let before = s.nav;
    let outcome = s.handle_event(LoopEvent::Key(KeyInput::Quit));
    assert_eq!(outcome, Some(Outcome::Quit));
    assert_eq!(s.nav, before);
}

#[test]
fn render_error_reports_failure() {
    let mut s = Session::new(StubSource);
    let outcome = s.handle_event(LoopEvent::RenderError);
    assert_eq!(outcome, Some(Outcome::Failed));
}

#[test]
fn poll_interval_is_a_steady_tenth_of_a_second() {
    assert_eq!(POLL_INTERVAL_MS, 100);
}
