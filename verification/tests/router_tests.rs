use ussd_smpp::codec::{
    build_bind_body, build_ussd_sm_body, make_pdu, parse_deliver_sm, parse_submit_sm,
    BIND_TRANSCEIVER, BIND_TRANSCEIVER_RESP, DELIVER_SM, DELIVER_SM_RESP, ENQUIRE_LINK,
    ENQUIRE_LINK_RESP, ESME_RINVPASWD, ESME_ROK, SUBMIT_SM, SUBMIT_SM_RESP, UNBIND, UNBIND_RESP,
};
use ussd_smpp::config::Config;
use ussd_smpp::handler::{ClientConfig, UssdMenuManager, UssdSession as HandlerSession};
use ussd_smpp::router::{
    determine_response_type, message_id_text, mix_draw, Outbound, OutboundTarget, ResponseType,
    UssdSmppServer,
};

fn bind_pdu(system_id: &str, password: &str, seq: u32) -> ussd_smpp::codec::SmppPdu {
    let body = build_bind_body(system_id, password, "USSD", 1, 1);
    make_pdu(BIND_TRANSCEIVER, ESME_ROK, seq, body)
}

fn submit_pdu(msisdn: &str, code: &str, seq: u32) -> ussd_smpp::codec::SmppPdu {
    let body = build_ussd_sm_body(1, 1, msisdn, 0, 0, "123", code.as_bytes());
    make_pdu(SUBMIT_SM, ESME_ROK, seq, body)
}

fn target_connection(out: &Outbound) -> Option<&str> {
    match &out.target {
        OutboundTarget::Connection(c) => Some(c.as_str()),
        OutboundTarget::Origin => None,
    }
}

#[test]
fn bind_with_credentials_succeeds_and_registers() {
    let mut server = UssdSmppServer::new(Config::default());
    let pdu = bind_pdu("USSDMobileUser", "mobile123", 1);
    let resp = server.handle_bind("conn1", &pdu);
    assert_eq!(resp.header.command_id, BIND_TRANSCEIVER_RESP);
    assert_eq!(resp.header.command_status, ESME_ROK);
    assert_eq!(resp.header.sequence_number, 1);
    assert_eq!(resp.body, b"USSDGateway\0".to_vec());
    assert_eq!(server.sessions.len(), 1);
    assert_eq!(server.sessions[0].system_id, "USSDMobileUser");
    assert!(server.sessions[0].is_user_client);
    assert!(!server.sessions[0].can_receive_forwards);
    assert!(server.sessions[0].bound);
}

#[test]
fn bind_with_empty_credentials_is_rejected() {
    let mut server = UssdSmppServer::new(Config::default());
    let pdu = bind_pdu("", "mobile123", 5);
    let resp = server.handle_bind("conn1", &pdu);
    assert_eq!(resp.header.command_status, ESME_RINVPASWD);
    assert!(server.sessions.is_empty());

    let pdu2 = bind_pdu("SomeUser", "", 6);
    let resp2 = server.handle_bind("conn1", &pdu2);
    assert_eq!(resp2.header.command_status, ESME_RINVPASWD);
    assert!(server.sessions.is_empty());
}

#[test]
fn service_code_turn_sends_response_then_welcome_deliver() {
    let mut server = UssdSmppServer::new(Config::default());
    let bind = bind_pdu("USSDMobileUser", "mobile123", 1);
    server.handle_bind("conn1", &bind);

    let submit = submit_pdu("1234567890", "*123#", 2);
    let outs = server
        .handle_ussd_submit_sm(&submit, 0, 1700000000)
        .expect("complete body");
    assert_eq!(outs.len(), 2);
    assert!(target_connection(&outs[0]).is_none());
    assert_eq!(outs[0].pdu.header.command_id, SUBMIT_SM_RESP);
    assert_eq!(outs[0].pdu.header.command_status, ESME_ROK);
    assert_eq!(outs[0].pdu.header.sequence_number, 2);
    let mid = String::from_utf8(outs[0].pdu.body.clone()).unwrap();
    assert!(mid.starts_with("USSD1700000000"));
    assert!(mid.ends_with('\0'));

    assert_eq!(target_connection(&outs[1]), Some("conn1"));
    assert_eq!(outs[1].pdu.header.command_id, DELIVER_SM);
    let dm = parse_deliver_sm(outs[1].pdu.body.as_slice()).expect("complete body");
    assert_eq!(dm.source_addr, "123");
    assert_eq!(dm.destination_addr, "1234567890");
    assert_eq!(dm.esm_class, 0x40);
    let text = String::from_utf8(dm.short_message).unwrap();
    assert!(text.starts_with("Welcome to MyTelecom USSD Service\n1. Balance Inquiry"));
}

#[test]
fn failure_disposition_sends_only_the_error_response() {
    let mut config = Config::default();
    config.response_percentage.success_percentage = 0;
    config.response_percentage.failure_percentage = 10000;
    let mut server = UssdSmppServer::new(config);
    let bind = bind_pdu("USSDMobileUser", "mobile123", 1);
    server.handle_bind("conn1", &bind);

    for draw in [0u32, 1, 500, 9999] {
        let submit = submit_pdu("1234567890", "*123#", 2);
        let outs = server
            .handle_ussd_submit_sm(&submit, draw, 1700000000)
            .expect("complete body");
        assert_eq!(outs.len(), 1);
        assert_eq!(outs[0].pdu.header.command_id, SUBMIT_SM_RESP);
        assert_eq!(outs[0].pdu.header.command_status, 0x00000008);
        assert!(outs[0].pdu.body.is_empty());
        assert!(outs.iter().all(|o| o.pdu.header.command_id != DELIVER_SM));
    }
}

#[test]
fn no_response_disposition_sends_nothing() {
    let mut server = UssdSmppServer::new(Config::default());
    let submit = submit_pdu("1234567890", "*123#", 2);
    // default shares: success 9500, failure 400; 9950 falls into NoResponse
    let outs = server
        .handle_ussd_submit_sm(&submit, 9950, 1700000000)
        .expect("complete body");
    assert!(outs.is_empty());
}

#[test]
fn forwarded_code_reaches_the_handler_and_comes_back() {
    let mut gateway = UssdSmppServer::new(Config::default());
    let user_bind = bind_pdu("USSDMobileUser", "mobile123", 1);
    gateway.handle_bind("conn1", &user_bind);
    let handler_bind = bind_pdu("ForwardingClient", "forward123", 1);
    gateway.handle_bind("conn2", &handler_bind);

    // the user dials a code with no built-in match
    let submit = submit_pdu("1234567890", "*100#", 2);
    let outs = gateway
        .handle_ussd_submit_sm(&submit, 0, 1700000000)
        .expect("complete body");
    assert_eq!(outs.len(), 2);
    assert_eq!(outs[0].pdu.header.command_id, SUBMIT_SM_RESP);
    assert_eq!(target_connection(&outs[1]), Some("conn2"));
    assert_eq!(outs[1].pdu.header.command_id, SUBMIT_SM);
    let fwd = parse_submit_sm(outs[1].pdu.body.as_slice()).expect("complete body");
    assert_eq!(fwd.source_addr, "1234567890");
    assert_eq!(fwd.destination_addr, "FORWARD");
    assert_eq!(String::from_utf8(fwd.short_message).unwrap(), "*100#");

    // the handler answers the forwarded request from its menu tree
    let manager = UssdMenuManager::new(ClientConfig::default());
    let mut sessions: Vec<HandlerSession> = Vec::new();
    let mut counter: u32 = 1;
    let handler_outs = manager
        .handle_submit_sm(&mut sessions, &mut counter, &outs[1].pdu, 1700000001)
        .expect("complete body");
    assert_eq!(handler_outs.len(), 2);
    assert_eq!(handler_outs[0].header.command_id, SUBMIT_SM_RESP);
    assert_eq!(handler_outs[1].header.command_id, DELIVER_SM);

    // the gateway relays the handler's DELIVER_SM to the user client
    let relay = gateway
        .handle_deliver_sm(&handler_outs[1])
        .expect("complete body");
    assert_eq!(relay.len(), 2);
    assert!(target_connection(&relay[0]).is_none());
    assert_eq!(relay[0].pdu.header.command_id, DELIVER_SM_RESP);
    assert_eq!(
        relay[0].pdu.header.sequence_number,
        handler_outs[1].header.sequence_number
    );
    assert_eq!(target_connection(&relay[1]), Some("conn1"));
    assert_eq!(relay[1].pdu.header.command_id, DELIVER_SM);
    let dm = parse_deliver_sm(relay[1].pdu.body.as_slice()).expect("complete body");
    assert_eq!(dm.destination_addr, "1234567890");
    let text = String::from_utf8(dm.short_message).unwrap();
    assert!(text.contains("Main Menu"));
}

#[test]
fn keepalive_and_unbind_echo_the_sequence_number() {
    let server = UssdSmppServer::new(Config::default());
    let enquire = make_pdu(ENQUIRE_LINK, ESME_ROK, 77, Vec::new());
    let resp = server.handle_enquire_link(&enquire);
    assert_eq!(resp.header.command_id, ENQUIRE_LINK_RESP);
    assert_eq!(resp.header.sequence_number, 77);
    assert_eq!(resp.header.command_length, 16);
    assert!(resp.body.is_empty());

    let unbind = make_pdu(UNBIND, ESME_ROK, 78, Vec::new());
    let uresp = server.handle_unbind(&unbind);
    assert_eq!(uresp.header.command_id, UNBIND_RESP);
    assert_eq!(uresp.header.sequence_number, 78);
}

#[test]
fn process_pdu_dispatches_by_command_id() {
    let mut server = UssdSmppServer::new(Config::default());
    let bind = bind_pdu("USSDMobileUser", "mobile123", 1);
    let outs = server
        .process_pdu("conn1", &bind, 0, 1700000000)
        .expect("bind parses");
    assert_eq!(outs.len(), 1);
    assert_eq!(outs[0].pdu.header.command_id, BIND_TRANSCEIVER_RESP);

    // an unknown command id is discarded
    let stray = make_pdu(0x00000103, ESME_ROK, 9, Vec::new());
    let none = server
        .process_pdu("conn1", &stray, 0, 1700000000)
        .expect("nothing to parse");
    assert!(none.is_empty());
}

#[test]
fn disconnect_removes_the_connections_entries() {
    let mut server = UssdSmppServer::new(Config::default());
    server.handle_bind("conn1", &bind_pdu("USSDMobileUser", "mobile123", 1));
    server.handle_bind("conn2", &bind_pdu("ForwardingClient", "forward123", 1));
    assert_eq!(server.sessions.len(), 2);
    server.remove_connection("conn1");
    assert_eq!(server.sessions.len(), 1);
    assert_eq!(server.sessions[0].system_id, "ForwardingClient");
    assert!(server.get_user_connection().is_none());
    assert_eq!(server.get_forwarding_connection().as_deref(), Some("conn2"));
}

#[test]
fn rebinding_the_same_system_id_replaces_its_entry() {
    let mut server = UssdSmppServer::new(Config::default());
    server.handle_bind("conn1", &bind_pdu("USSDMobileUser", "mobile123", 1));
    server.handle_bind("conn9", &bind_pdu("USSDMobileUser", "mobile123", 2));
    assert_eq!(server.sessions.len(), 1);
    assert_eq!(server.get_user_connection().as_deref(), Some("conn9"));
}

#[test]
fn disposition_buckets_split_at_the_configured_shares() {
    let rp = Config::default().response_percentage;
    // success 9500, failure 400, rest NoResponse
    assert_eq!(determine_response_type(0, &rp), ResponseType::Success);
    assert_eq!(determine_response_type(9499, &rp), ResponseType::Success);
    assert_eq!(determine_response_type(9500, &rp), ResponseType::Failure);
    assert_eq!(determine_response_type(9899, &rp), ResponseType::Failure);
    assert_eq!(determine_response_type(9900, &rp), ResponseType::NoResponse);
    assert_eq!(determine_response_type(9999, &rp), ResponseType::NoResponse);
}

#[test]
fn disposition_counts_follow_the_shares_over_many_draws() {
    let rp = Config::default().response_percentage;
    // a fixed 64-bit linear congruential sequence as the uniform source
    let mut x: u64 = 0x123456789ABCDEF;
    let n = 10000;
    let mut success = 0i64;
    let mut failure = 0i64;
    let mut silent = 0i64;
    for _ in 0..n {
        x = x
            .wrapping_mul(6364136223846793005)
            .wrapping_add(1442695040888963407);
        let draw = (x >> 33) % 10000;
        match determine_response_type(draw as u32, &rp) {
            ResponseType::Success => success += 1,
            ResponseType::Failure => failure += 1,
            ResponseType::NoResponse => silent += 1,
        }
    }
    // within 3 sigma of the 9500 / 400 / 100 expectation
    assert!((success - 9500).abs() <= 66, "success draws: {success}");
    assert!((failure - 400).abs() <= 59, "failure draws: {failure}");
    assert!((silent - 100).abs() <= 30, "silent draws: {silent}");
}

#[test]
fn draws_stay_in_range() {
    for seed in [0u64, 1, 42, u64::MAX] {
        assert!(mix_draw(seed) < 10000);
    }
}

#[test]
fn message_ids_carry_the_clock_and_counter() {
    assert_eq!(message_id_text(1700000000, 2), "USSD17000000000002");
    assert_eq!(message_id_text(5, 12345), "USSD512345");
}
