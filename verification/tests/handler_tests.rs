use ussd_smpp::handler::{
    generate_message_id, ClientConfig, ClientSettings, DefaultResponses, LoggingConfig,
    MenuConfig, MenuConfigs, MenuEntry, MenuOption, ResponseConfigs, ResponseEntry, SessionConfig,
    UssdCodeConfig, UssdCodeMapping, UssdMenuManager, UssdSession,
};

fn menu(name: &str, options: Vec<MenuOption>) -> MenuEntry {
    MenuEntry {
        name: name.to_string(),
        menu: MenuConfig {
            title: format!("{name} title"),
            options,
        },
    }
}

fn submenu_option(key: &str, target: &str) -> MenuOption {
    MenuOption {
        key: key.to_string(),
        text: format!("go to {target}"),
        action: "submenu".to_string(),
        target: target.to_string(),
    }
}

fn test_config(max_depth: u32) -> ClientConfig {
    let mut cfg = ClientConfig::default();
    cfg.session = SessionConfig {
        timeout_seconds: 300,
        max_menu_depth: max_depth,
        enable_back_navigation: true,
        remember_last_menu: false,
    };
    cfg.menus = MenuConfigs {
        default_menu: "main".to_string(),
        menus: vec![
            menu("main", vec![submenu_option("1", "m1")]),
            menu("m1", vec![submenu_option("1", "m2")]),
            menu("m2", vec![submenu_option("1", "m3")]),
            menu("m3", vec![submenu_option("1", "m4")]),
        ],
    };
    cfg
}

fn session_at(now: u64) -> UssdSession {
    UssdSession::new_at("1234567890".to_string(), now)
}

#[test]
fn depth_limit_stops_the_third_submenu() {
    let cfg = test_config(2);
    let manager = UssdMenuManager::new(cfg);
    let now = 1_700_000_000;
    let mut session = session_at(now);

    let first = manager.process_input_at(&mut session, "1", now);
    assert_eq!(session.menu_depth, 1);
    assert!(first.starts_with("m1 title"));

    let second = manager.process_input_at(&mut session, "1", now);
    assert_eq!(session.menu_depth, 2);
    assert!(second.starts_with("m2 title"));

    let third = manager.process_input_at(&mut session, "1", now);
    assert!(third.starts_with("❌ Maximum menu depth reached."));
    assert_eq!(session.menu_depth, 2);
    assert_eq!(session.menu_history.len(), 2);
    assert_eq!(session.current_menu, "m2");
}

#[test]
fn depth_always_counts_the_history() {
    let cfg = test_config(3);
    let manager = UssdMenuManager::new(cfg);
    let now = 1_700_000_000;
    let mut session = session_at(now);
    for input in ["1", "1", "00", "1", "1", "x", "00", "00", "00"] {
        manager.process_input_at(&mut session, input, now);
        assert_eq!(session.menu_depth as usize, session.menu_history.len());
        assert!(session.menu_depth <= 3);
    }
}

#[test]
fn back_navigation_pops_one_level() {
    let cfg = test_config(5);
    let manager = UssdMenuManager::new(cfg);
    let now = 1_700_000_000;
    let mut session = session_at(now);
    manager.process_input_at(&mut session, "1", now);
    manager.process_input_at(&mut session, "1", now);
    assert_eq!(session.current_menu, "m2");

    let back = manager.process_input_at(&mut session, "00", now);
    assert_eq!(session.current_menu, "m1");
    assert_eq!(session.menu_depth, 1);
    assert_eq!(back, "m1 title\n\n1. go to m2\n00. Back");

    manager.process_input_at(&mut session, "00", now);
    let exhausted = manager.process_input_at(&mut session, "00", now);
    assert_eq!(exhausted, "👋 Goodbye!");
    assert_eq!(session.current_menu, "main");
}

#[test]
fn expired_sessions_reset_with_a_timeout_notice() {
    let cfg = test_config(5);
    let manager = UssdMenuManager::new(cfg);
    let mut session = session_at(1_700_000_000);
    session.navigate_to_menu("m1");
    let reply = manager.process_input_at(&mut session, "1", 1_700_000_000 + 301);
    assert_eq!(reply, "⏰ Session timeout. Please try again.");
    assert_eq!(session.current_menu, "main");
    assert_eq!(session.menu_depth, 0);
    assert!(session.menu_history.is_empty());
}

#[test]
fn default_menu_renders_title_options_and_services() {
    let manager = UssdMenuManager::new(ClientConfig::default());
    let welcome = manager.get_welcome_message();
    assert_eq!(welcome, "🏠 Main Menu\n\n1. 💰 Services\n0. ❌ Exit\n");

    let mut session = session_at(1_700_000_000);
    let services = manager.process_input_at(&mut session, "1", 1_700_000_000);
    assert!(services.starts_with("💰 Services available:"));

    let goodbye = manager.process_input_at(&mut session, "0", 1_700_000_000);
    assert_eq!(goodbye, "👋 Goodbye!");
}

#[test]
fn invalid_option_repeats_the_menu() {
    let manager = UssdMenuManager::new(ClientConfig::default());
    let mut session = session_at(1_700_000_000);
    let reply = manager.process_input_at(&mut session, "9", 1_700_000_000);
    assert!(reply.starts_with("❌ Invalid option. Please try again.\n\n🏠 Main Menu"));
}

#[test]
fn inputs_are_trimmed_before_matching() {
    let manager = UssdMenuManager::new(ClientConfig::default());
    let mut session = session_at(1_700_000_000);
    let reply = manager.process_input_at(&mut session, "  1 \n", 1_700_000_000);
    assert!(reply.starts_with("💰 Services available:"));
}

#[test]
fn dialed_codes_reset_into_their_mapped_menu() {
    let mut cfg = test_config(5);
    cfg.ussd_codes = UssdCodeConfig {
        default_menu: "main".to_string(),
        codes: vec![UssdCodeMapping {
            code: "*100#".to_string(),
            menu: "m1".to_string(),
            description: "first service".to_string(),
        }],
        handle_codes: vec![],
        unrecognized_action: "reject".to_string(),
        unrecognized_message: "try again".to_string(),
    };
    let manager = UssdMenuManager::new(cfg);
    let now = 1_700_000_000;
    let mut session = session_at(now);
    manager.process_input_at(&mut session, "1", now);
    manager.process_input_at(&mut session, "1", now);
    assert_eq!(session.menu_depth, 2);

    let reply = manager.process_input_at(&mut session, "*100#", now);
    assert!(reply.starts_with("m1 title"));
    assert_eq!(session.current_menu, "m1");
    assert_eq!(session.menu_depth, 0);
    assert!(session.menu_history.is_empty());

    assert_eq!(
        manager.get_ussd_code_description("*100#"),
        Some("first service".to_string())
    );
    assert_eq!(manager.get_ussd_code_description("*999#"), None);
    assert_eq!(manager.get_supported_ussd_codes(), vec!["*100#".to_string()]);
}

#[test]
fn unclaimed_codes_are_rejected_when_a_claim_list_is_set() {
    let mut cfg = test_config(5);
    cfg.ussd_codes = UssdCodeConfig {
        default_menu: "main".to_string(),
        codes: vec![],
        handle_codes: vec!["*200#".to_string()],
        unrecognized_action: "reject".to_string(),
        unrecognized_message: "not here".to_string(),
    };
    let manager = UssdMenuManager::new(cfg);
    let now = 1_700_000_000;
    let mut session = session_at(now);
    let reply = manager.process_input_at(&mut session, "*100#", now);
    assert_eq!(
        reply,
        "🚫 USSD code *100# is not supported by this service.\n\nnot here"
    );
    // the session stays where it was
    assert_eq!(session.current_menu, "main");
}

#[test]
fn unmapped_codes_open_the_default_menu() {
    let manager = UssdMenuManager::new(ClientConfig::default());
    let now = 1_700_000_000;
    let mut session = session_at(now);
    let reply = manager.process_input_at(&mut session, "*777#", now);
    assert!(reply.starts_with("🏠 Main Menu"));
    assert_eq!(session.current_menu, "main");
}

#[test]
fn forwarded_submit_turn_acknowledges_then_replies() {
    let manager = UssdMenuManager::new(ClientConfig::default());
    let body = ussd_smpp::codec::build_ussd_sm_body(1, 1, "1234567890", 0, 0, "FORWARD", b"*100#");
    let pdu = ussd_smpp::codec::make_pdu(
        ussd_smpp::codec::SUBMIT_SM,
        ussd_smpp::codec::ESME_ROK,
        42,
        body,
    );
    let mut sessions: Vec<UssdSession> = Vec::new();
    let mut counter: u32 = 1;
    let outs = manager
        .handle_submit_sm(&mut sessions, &mut counter, &pdu, 1_700_000_000)
        .expect("complete body");
    assert_eq!(counter, 3);
    assert_eq!(outs.len(), 2);
    assert_eq!(outs[0].header.command_id, ussd_smpp::codec::SUBMIT_SM_RESP);
    assert_eq!(outs[0].header.sequence_number, 42);
    let mid = String::from_utf8(outs[0].body.clone()).unwrap();
    assert!(mid.starts_with("FCLIENT17000000000002"));
    assert_eq!(outs[1].header.command_id, ussd_smpp::codec::DELIVER_SM);
    assert_eq!(outs[1].header.sequence_number, 3);
    let dm = ussd_smpp::codec::parse_deliver_sm(outs[1].body.as_slice()).expect("complete body");
    assert_eq!(dm.source_addr, "FORWARD");
    assert_eq!(dm.destination_addr, "1234567890");
    assert_eq!(sessions.len(), 1);
    assert_eq!(sessions[0].msisdn, "1234567890");
}

#[test]
fn handler_message_ids_carry_the_clock_and_counter() {
    assert_eq!(generate_message_id(1700000000, 2), "FCLIENT17000000000002");
}

#[test]
fn cleanup_drops_only_expired_sessions() {
    let manager = UssdMenuManager::new(ClientConfig::default());
    let now = 1_700_000_000;
    let mut sessions = vec![
        UssdSession::new_at("1".to_string(), now - 400),
        UssdSession::new_at("2".to_string(), now - 100),
        UssdSession::new_at("3".to_string(), now - 301),
    ];
    // default timeout is 300 seconds
    manager.cleanup_expired_sessions_at(&mut sessions, now);
    let kept: Vec<&str> = sessions.iter().map(|s| s.msisdn.as_str()).collect();
    assert_eq!(kept, vec!["2"]);
}

#[test]
fn stock_config_uses_a_transceiver_bind() {
    let cfg = ClientConfig::default();
    let settings: &ClientSettings = &cfg.client;
    assert_eq!(settings.system_id, "ForwardingClient");
    assert_eq!(settings.bind_type, "transceiver");
    let logging: &LoggingConfig = &cfg.logging;
    assert!(!logging.debug);
    let defaults: &DefaultResponses = &cfg.responses.defaults;
    assert_eq!(defaults.exit_message, "👋 Goodbye!");
    let entries: &Vec<ResponseEntry> = &cfg.responses.responses;
    assert_eq!(entries.len(), 1);
    let rc: &ResponseConfigs = &cfg.responses;
    assert_eq!(rc.responses[0].name, "services");
}

#[test]
fn mapped_codes_win_over_the_claim_list() {
    let mut cfg = test_config(5);
    cfg.ussd_codes = UssdCodeConfig {
        default_menu: "main".to_string(),
        codes: vec![UssdCodeMapping {
            code: "*100#".to_string(),
            menu: "m1".to_string(),
            description: "first service".to_string(),
        }],
        handle_codes: vec!["*999#".to_string()],
        unrecognized_action: "reject".to_string(),
        unrecognized_message: "not here".to_string(),
    };
    let manager = UssdMenuManager::new(cfg);
    let now = 1_700_000_000;
    let mut session = session_at(now);
    // the mapping is consulted first: the code opens its menu even
    // though the claim list does not name it
    let reply = manager.process_input_at(&mut session, "*100#", now);
    assert!(reply.starts_with("m1 title"));
    assert_eq!(session.current_menu, "m1");
    assert_eq!(session.menu_depth, 0);
}

#[test]
fn a_menu_may_open_itself_as_its_own_submenu() {
    let mut cfg = test_config(5);
    cfg.menus = MenuConfigs {
        default_menu: "main".to_string(),
        menus: vec![menu("main", vec![submenu_option("1", "main")])],
    };
    let manager = UssdMenuManager::new(cfg);
    let now = 1_700_000_000;
    let mut session = session_at(now);

    let first = manager.process_input_at(&mut session, "1", now);
    assert_eq!(session.current_menu, "main");
    assert_eq!(session.menu_depth, 1);
    assert_eq!(session.menu_history, vec!["main".to_string()]);
    assert_eq!(first, "main title\n\n1. go to main\n00. Back");

    manager.process_input_at(&mut session, "1", now);
    assert_eq!(session.menu_depth, 2);

    let back = manager.process_input_at(&mut session, "00", now);
    assert_eq!(session.current_menu, "main");
    assert_eq!(session.menu_depth, 1);
    assert!(back.starts_with("main title"));
}
