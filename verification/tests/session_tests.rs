use sheet_fetch::session::{BrowserSession, SessionAction, SessionState};

#[test]
fn the_happy_path_is_strictly_linear() {
    let mut s = BrowserSession::new("http://page".to_string(), 10);
    assert_eq!(s.state, SessionState::Idle);
    assert_eq!(s.next_action(), SessionAction::Open);
    s.on_opened();
    assert_eq!(s.next_action(), SessionAction::Navigate);
    s.on_navigated(true);
    assert!(!s.navigation_failed);
    assert_eq!(s.next_action(), SessionAction::Wait);
    assert_eq!(s.wait_seconds, 10);
    s.on_waited();
    assert_eq!(s.next_action(), SessionAction::Capture);
    s.on_captured("<html></html>".to_string());
    assert_eq!(s.markup, Some("<html></html>".to_string()));
    assert_eq!(s.next_action(), SessionAction::Close);
    s.on_closed();
    assert!(s.is_closed());
    assert_eq!(s.next_action(), SessionAction::Done);
}

#[test]
fn a_navigation_error_is_tolerated_and_remembered() {
    let mut s = BrowserSession::new("u".to_string(), 5);
    s.on_opened();
    s.on_navigated(false);
    assert_eq!(s.state, SessionState::Navigated);
    assert!(s.navigation_failed);
    s.on_waited();
    s.on_captured("m".to_string());
    s.on_closed();
    assert!(s.is_closed());
}

#[test]
fn an_error_exit_can_still_close() {
    let mut s = BrowserSession::new("u".to_string(), 5);
    s.on_opened();
    s.on_closed();
    assert!(s.is_closed());
    assert_eq!(s.markup, None);
}
