use ussd_smpp::config::Config;
use ussd_smpp::dialog::{generate_ussd_response, UssdSession, UssdState};
use ussd_smpp::text::{money_to_string, parse_usize, u64_to_dec, u64_to_pad4};

fn fresh_session() -> UssdSession {
    UssdSession {
        msisdn: "1234567890".to_string(),
        session_id: "SESS1".to_string(),
        state: UssdState::Initial,
        menu_level: 0,
        last_request: String::new(),
    }
}

#[test]
fn dialing_the_service_code_opens_the_main_menu() {
    let cfg = Config::default();
    let mut session = fresh_session();
    let reply = generate_ussd_response(&cfg, &mut session, "*123#", false);
    assert!(reply.starts_with("Welcome to MyTelecom USSD Service\n1. Balance Inquiry"));
    assert_eq!(
        reply,
        "Welcome to MyTelecom USSD Service\n1. Balance Inquiry\n2. Data Packages\n3. Customer Service\n0. Exit"
    );
    assert_eq!(session.state, UssdState::MainMenu);
    assert_eq!(session.menu_level, 1);
}

#[test]
fn balance_inquiry_returns_the_balance_block() {
    let cfg = Config::default();
    let mut session = fresh_session();
    session.state = UssdState::MainMenu;
    let reply = generate_ussd_response(&cfg, &mut session, "1", false);
    assert_eq!(
        reply,
        "Your current balance is $25.50\nYour data balance is 2.5GB\nPress 0 to return to main menu"
    );
    assert_eq!(session.state, UssdState::BalanceInquiry);
}

#[test]
fn package_selection_and_purchase_confirmation() {
    let cfg = Config::default();
    let mut session = fresh_session();
    session.state = UssdState::MainMenu;
    let menu = generate_ussd_response(&cfg, &mut session, "2", false);
    assert!(menu.starts_with("Available Data Packages:\n"));
    assert!(menu.contains("1. 1GB - $10.00"));
    assert!(menu.contains("2. 5GB - $40.00"));
    assert!(menu.contains("3. 10GB - $70.00"));
    assert_eq!(session.state, UssdState::DataPackages);

    let prompt = generate_ussd_response(&cfg, &mut session, "1", false);
    assert!(prompt.contains("1GB Package selected. Reply with 'YES' to confirm purchase for $10.00"));
    assert_eq!(session.state, UssdState::DataPackages);

    let done = generate_ussd_response(&cfg, &mut session, "YES", false);
    assert!(done.starts_with("Package purchased successfully!"));
    assert_eq!(session.state, UssdState::MainMenu);
}

#[test]
fn purchase_confirmation_is_case_insensitive() {
    let cfg = Config::default();
    let mut session = fresh_session();
    session.state = UssdState::DataPackages;
    let done = generate_ussd_response(&cfg, &mut session, "yes", false);
    assert!(done.starts_with("Package purchased successfully!"));
    assert_eq!(session.state, UssdState::MainMenu);
}

#[test]
fn out_of_range_package_numbers_are_refused() {
    let cfg = Config::default();
    let mut session = fresh_session();
    session.state = UssdState::DataPackages;
    let reply = generate_ussd_response(&cfg, &mut session, "9", false);
    assert_eq!(
        reply,
        "Invalid option. Please select a valid package number, or 0 to go back"
    );
    assert_eq!(session.state, UssdState::DataPackages);
}

#[test]
fn zero_exits_and_goodbye_is_final() {
    let cfg = Config::default();
    let mut session = fresh_session();
    session.state = UssdState::MainMenu;
    let reply = generate_ussd_response(&cfg, &mut session, "0", false);
    assert_eq!(reply, "Thank you for using MyTelecom USSD Service. Goodbye!");
    assert_eq!(session.state, UssdState::Terminated);

    let after = generate_ussd_response(&cfg, &mut session, "1", false);
    assert_eq!(
        after,
        "USSD session has ended. Please dial one of [*123#] to start a new session."
    );
    assert_eq!(session.state, UssdState::Terminated);
}

#[test]
fn unknown_code_without_a_handler_is_invalid() {
    let cfg = Config::default();
    let mut session = fresh_session();
    let reply = generate_ussd_response(&cfg, &mut session, "*100#", false);
    assert_eq!(reply, "Invalid USSD code. Please try again.");
    assert_eq!(session.state, UssdState::Terminated);
}

#[test]
fn unknown_code_with_a_handler_forwards_silently() {
    let cfg = Config::default();
    let mut session = fresh_session();
    let reply = generate_ussd_response(&cfg, &mut session, "*100#", true);
    assert_eq!(reply, "");
    assert_eq!(session.state, UssdState::Forwarded);
}

#[test]
fn forwarded_sessions_fail_over_when_the_handler_leaves() {
    let cfg = Config::default();
    let mut session = fresh_session();
    session.state = UssdState::Forwarded;
    let reply = generate_ussd_response(&cfg, &mut session, "1", false);
    assert_eq!(reply, "Service temporarily unavailable. Thank you!");
    assert_eq!(session.state, UssdState::Terminated);
}

#[test]
fn invalid_main_menu_option_repeats_the_menu() {
    let cfg = Config::default();
    let mut session = fresh_session();
    session.state = UssdState::MainMenu;
    let reply = generate_ussd_response(&cfg, &mut session, "7", false);
    assert_eq!(
        reply,
        "Invalid option. Please try again.\n1. Balance Inquiry\n2. Data Packages\n3. Customer Service\n0. Exit"
    );
    assert_eq!(session.state, UssdState::MainMenu);
}

#[test]
fn decimal_rendering_is_exact() {
    assert_eq!(u64_to_dec(0), "0");
    assert_eq!(u64_to_dec(7), "7");
    assert_eq!(u64_to_dec(12345), "12345");
    assert_eq!(u64_to_dec(u64::MAX), "18446744073709551615");
    assert_eq!(u64_to_pad4(3), "0003");
    assert_eq!(u64_to_pad4(12), "0012");
    assert_eq!(u64_to_pad4(123456), "123456");
    assert_eq!(money_to_string(1000), "10.00");
    assert_eq!(money_to_string(4000), "40.00");
    assert_eq!(money_to_string(7), "0.07");
    assert_eq!(money_to_string(2550), "25.50");
}

#[test]
fn decimal_parsing_matches_rust() {
    assert_eq!(parse_usize("0"), Some(0));
    assert_eq!(parse_usize("3"), Some(3));
    assert_eq!(parse_usize("+5"), Some(5));
    assert_eq!(parse_usize(""), None);
    assert_eq!(parse_usize("+"), None);
    assert_eq!(parse_usize("1a"), None);
    assert_eq!(parse_usize("-1"), None);
    assert_eq!(parse_usize("99999999999999999999999999"), None);
}
