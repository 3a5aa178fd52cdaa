use ussd_smpp::client::{
    extract_message_id, is_bind_success, is_submit_success, parse_deliver_sm,
    process_ussd_request, CustomService, ForwardingRequest, ForwardingResponses, MenuOption,
};
use ussd_smpp::codec::{
    build_ussd_sm_body, make_pdu, BIND_TRANSCEIVER_RESP, ESME_ROK, ESME_RSYSERR, SUBMIT_SM_RESP,
};
use ussd_smpp::text::replace_str;

fn canned() -> ForwardingResponses {
    ForwardingResponses {
        custom_services: vec![CustomService {
            ussd_code: "*100#".to_string(),
            name: "Custom Service A".to_string(),
            welcome_message: "Welcome to Custom Service A!".to_string(),
            menu_items: vec![
                "1. Check Status".to_string(),
                "2. Get Info".to_string(),
                "0. Exit".to_string(),
            ],
            continue_session: true,
        }],
        menu_options: vec![MenuOption {
            option: "1".to_string(),
            response_text: "Status: Active".to_string(),
            continue_session: true,
        }],
        default_response: "Unknown command: {}\nPlease try again or dial 0 to exit.".to_string(),
    }
}

fn request(code: &str) -> ForwardingRequest {
    ForwardingRequest {
        msisdn: "1234567890".to_string(),
        ussd_code: code.to_string(),
        session_id: None,
    }
}

#[test]
fn a_known_service_code_opens_its_menu() {
    let r = process_ussd_request(&request("*100#"), &canned());
    assert_eq!(
        r.response_text,
        "Welcome to Custom Service A!\n1. Check Status\n2. Get Info\n0. Exit"
    );
    assert!(r.continue_session);
}

#[test]
fn a_known_option_returns_its_text() {
    let r = process_ussd_request(&request("1"), &canned());
    assert_eq!(r.response_text, "Status: Active");
    assert!(r.continue_session);
}

#[test]
fn anything_else_gets_the_default_with_the_code_filled_in() {
    let r = process_ussd_request(&request("*42#"), &canned());
    assert_eq!(
        r.response_text,
        "Unknown command: *42#\nPlease try again or dial 0 to exit."
    );
    assert!(r.continue_session);
}

#[test]
fn a_service_without_menu_items_sends_only_its_welcome() {
    let mut responses = canned();
    responses.custom_services[0].menu_items.clear();
    let r = process_ussd_request(&request("*100#"), &responses);
    assert_eq!(r.response_text, "Welcome to Custom Service A!");
}

#[test]
fn deliver_sm_text_extraction_reads_the_short_message() {
    let body = build_ussd_sm_body(1, 1, "123", 1, 1, "1234567890", b"Your balance is $25.50");
    assert_eq!(parse_deliver_sm(body.as_slice()), "Your balance is $25.50");
    // a truncated body yields empty text
    assert_eq!(parse_deliver_sm(&body[..10]), "");
}

#[test]
fn bind_and_submit_responses_are_checked_by_id_and_status() {
    let ok = make_pdu(BIND_TRANSCEIVER_RESP, ESME_ROK, 1, Vec::new());
    assert!(is_bind_success(&ok));
    let bad = make_pdu(BIND_TRANSCEIVER_RESP, ESME_RSYSERR, 1, Vec::new());
    assert!(!is_bind_success(&bad));
    let sub = make_pdu(SUBMIT_SM_RESP, ESME_ROK, 2, Vec::new());
    assert!(is_submit_success(&sub));
    assert!(!is_bind_success(&sub));
}

#[test]
fn message_ids_are_read_up_to_their_terminator() {
    let body = b"USSD17000000000002\0".to_vec();
    assert_eq!(extract_message_id(body.as_slice()), "USSD17000000000002");
}

#[test]
fn replace_fills_every_placeholder() {
    assert_eq!(replace_str("a {} b {}", "{}", "x"), "a x b x");
    assert_eq!(replace_str("nothing here", "{}", "x"), "nothing here");
    assert_eq!(replace_str("{}{}", "{}", "yo"), "yoyo");
}
