use ussd_smpp::handler::UssdSession;

#[test]
fn test_session_creation() {
    let session = UssdSession::new("1234567890".to_string());
    assert_eq!(session.msisdn, "1234567890");
    assert_eq!(session.current_menu, "main");
    assert_eq!(session.menu_depth, 0);
}

#[test]
fn test_menu_navigation() {
    let mut session = UssdSession::new("1234567890".to_string());

    session.navigate_to_menu("banking");
    assert_eq!(session.current_menu, "banking");
    assert_eq!(session.menu_depth, 1);
    assert_eq!(session.menu_history.len(), 1);

    let went_back = session.go_back();
    assert!(went_back);
    assert_eq!(session.current_menu, "main");
    assert_eq!(session.menu_depth, 0);
}

#[test]
fn test_session_timeout() {
    let mut session = UssdSession::new("1234567890".to_string());

    // Session should not be expired immediately
    assert!(!session.is_expired(300));

    // Simulate old timestamp
    session.last_activity = session.last_activity - 400;
    assert!(session.is_expired(300));
}
