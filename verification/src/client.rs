//! The client-side pieces: the simulator's configuration model, the
//! JSON-line forwarding service's decision logic, and the reply-text
//! extraction a subscriber client performs on a DELIVER_SM.

use vstd::prelude::*;

use crate::codec;
use crate::codec::CodecError;
use crate::codec::SmppPdu;
use crate::codec::spec_parse_sm_body;
use crate::text::bytes_to_text;
use crate::text::concat_strs;
use crate::text::join_lines;
use crate::text::replace_str;
use crate::text::spec_join;
use crate::text::lossy_utf8;
use crate::text::spec_replace;
use crate::text::str_eq;

verus! {

/// The client simulator's whole configuration.
#[derive(Clone, Debug)]
pub struct ClientConfig {
    pub server: ServerConfig,
    pub authentication: AuthConfig,
    pub defaults: DefaultsConfig,
    pub test_cases: TestCasesConfig,
    pub logging: LoggingConfig,
    pub forwarding: Option<ForwardingConfig>,
}

/// Where the gateway is reached.
#[derive(Clone, Debug)]
pub struct ServerConfig {
    pub host: String,
    pub port: u16,
}

/// The credentials the client binds with.
#[derive(Clone, Debug)]
pub struct AuthConfig {
    pub system_id: String,
    pub password: String,
    pub test_system_id: String,
    pub test_password: String,
}

/// The subscriber and code a session starts from.
#[derive(Clone, Debug)]
pub struct DefaultsConfig {
    pub default_msisdn: String,
    pub initial_ussd_code: String,
    pub request_delay_ms: u64,
}

/// The scripted test dialog.
#[derive(Clone, Debug)]
pub struct TestCasesConfig {
    pub test_cases: Vec<TestCase>,
}

/// One scripted request.
#[derive(Clone, Debug)]
pub struct TestCase {
    pub msisdn: String,
    pub ussd_code: String,
    pub description: String,
}

/// Logging switches; the library itself never writes a log.
#[derive(Clone, Debug)]
pub struct LoggingConfig {
    pub debug: bool,
    pub log_file: String,
}

/// The standalone forwarding service's listener and canned replies.
#[derive(Clone, Debug)]
pub struct ForwardingConfig {
    pub listen_port: u16,
    pub enabled: bool,
    pub responses: ForwardingResponses,
}

/// The canned replies the forwarding service answers from.
#[derive(Clone, Debug)]
pub struct ForwardingResponses {
    pub custom_services: Vec<CustomService>,
    pub menu_options: Vec<MenuOption>,
    pub default_response: String,
}

/// One custom service opened by its USSD code.
#[derive(Clone, Debug)]
pub struct CustomService {
    pub ussd_code: String,
    pub name: String,
    pub welcome_message: String,
    pub menu_items: Vec<String>,
    pub continue_session: bool,
}

/// One canned menu option reply.
#[derive(Clone, Debug)]
pub struct MenuOption {
    pub option: String,
    pub response_text: String,
    pub continue_session: bool,
}

/// A forwarded request as carried on the JSON side channel; app code
/// serializes it.
#[derive(Clone, Debug)]
pub struct ForwardingRequest {
    pub msisdn: String,
    pub ussd_code: String,
    pub session_id: Option<String>,
}

/// The forwarding service's reply.
#[derive(Clone, Debug)]
pub struct ForwardingResponse {
    pub response_text: String,
    pub continue_session: bool,
}

impl Default for ClientConfig {
    /// The stock client configuration: the demo credentials, a scripted
    /// two-step dialog, and a forwarding service with three custom
    /// services.
    fn default() -> (r: ClientConfig)
        ensures
            r.authentication.system_id@ == "USSDClient"@,
            r.authentication.password@ == "password123"@,
            r.defaults.default_msisdn@ == "1234567890"@,
            r.defaults.initial_ussd_code@ == "*123#"@,
            r.test_cases.test_cases@.len() == 2,
            r.forwarding matches Some(f) && f.enabled && f.listen_port == 9091
                && f.responses.custom_services@.len() == 3
                && f.responses.custom_services@[0].ussd_code@ == "*100#"@
                && f.responses.custom_services@[1].ussd_code@ == "*200#"@
                && f.responses.custom_services@[2].ussd_code@ == "*300#"@
                && f.responses.menu_options@.len() == 3,
    {
        let mut test_cases: Vec<TestCase> = Vec::new();
        test_cases.push(
            TestCase {
                msisdn: String::from_str("1234567890"),
                ussd_code: String::from_str("*123#"),
                description: String::from_str("Test main menu access"),
            },
        );
        test_cases.push(
            TestCase {
                msisdn: String::from_str("1234567890"),
                ussd_code: String::from_str("1"),
                description: String::from_str("Test balance inquiry"),
            },
        );
        let mut service_a_menu: Vec<String> = Vec::new();
        service_a_menu.push(String::from_str("1. Check Status"));
        service_a_menu.push(String::from_str("2. Get Info"));
        service_a_menu.push(String::from_str("0. Exit"));
        let mut service_b_menu: Vec<String> = Vec::new();
        service_b_menu.push(String::from_str("1. Account Details"));
        service_b_menu.push(String::from_str("2. Settings"));
        service_b_menu.push(String::from_str("0. Exit"));
        let mut support_menu: Vec<String> = Vec::new();
        support_menu.push(String::from_str("Call: 1-800-HELP"));
        support_menu.push(String::from_str("Email: support@company.com"));
        support_menu.push(String::from_str("Thank you!"));
        let mut custom_services: Vec<CustomService> = Vec::new();
        custom_services.push(
            CustomService {
                ussd_code: String::from_str("*100#"),
                name: String::from_str("Custom Service A"),
                welcome_message: String::from_str("Welcome to Custom Service A!"),
                menu_items: service_a_menu,
                continue_session: true,
            },
        );
        custom_services.push(
            CustomService {
                ussd_code: String::from_str("*200#"),
                name: String::from_str("Custom Service B"),
                welcome_message: String::from_str("Welcome to Custom Service B!"),
                menu_items: service_b_menu,
                continue_session: true,
            },
        );
        custom_services.push(
            CustomService {
                ussd_code: String::from_str("*300#"),
                name: String::from_str("Customer Support"),
                welcome_message: String::from_str("Customer Support"),
                menu_items: support_menu,
                continue_session: false,
            },
        );
        let mut menu_options: Vec<MenuOption> = Vec::new();
        menu_options.push(
            MenuOption {
                option: String::from_str("1"),
                response_text: String::from_str(
                    "Status: Active\nBalance: $25.50\nNext payment: 2024-01-15\n\n0. Back to menu",
                ),
                continue_session: true,
            },
        );
        menu_options.push(
            MenuOption {
                option: String::from_str("2"),
                response_text: String::from_str(
                    "Account Details:\nName: John Doe\nPhone: +1234567890\nPlan: Premium\n\n0. Back to menu",
                ),
                continue_session: true,
            },
        );
        menu_options.push(
            MenuOption {
                option: String::from_str("0"),
                response_text: String::from_str("Thank you for using our service!"),
                continue_session: false,
            },
        );
        ClientConfig {
            server: ServerConfig { host: String::from_str("127.0.0.1"), port: 9090 },
            authentication: AuthConfig {
                system_id: String::from_str("USSDClient"),
                password: String::from_str("password123"),
                test_system_id: String::from_str("USSDTestClient"),
                test_password: String::from_str("testpass123"),
            },
            defaults: DefaultsConfig {
                default_msisdn: String::from_str("1234567890"),
                initial_ussd_code: String::from_str("*123#"),
                request_delay_ms: 500,
            },
            test_cases: TestCasesConfig { test_cases },
            logging: LoggingConfig { debug: false, log_file: String::new() },
            forwarding: Some(
                ForwardingConfig {
                    enabled: true,
                    listen_port: 9091,
                    responses: ForwardingResponses {
                        custom_services,
                        menu_options,
                        default_response: String::from_str(
                            "Unknown command: {}\nPlease try again or dial 0 to exit.",
                        ),
                    },
                },
            ),
        }
    }
}

/// The first custom service at or after `i` under the code.
pub open spec fn spec_find_service(cs: Seq<CustomService>, code: Seq<char>, i: int) -> Option<int>
    decreases cs.len() - i,
{
    if i < 0 || i >= cs.len() {
        None
    } else if cs[i].ussd_code@ == code {
        Some(i)
    } else {
        spec_find_service(cs, code, i + 1)
    }
}

/// The first menu option at or after `i` under the key.
pub open spec fn spec_find_menu_option(os: Seq<MenuOption>, key: Seq<char>, i: int) -> Option<int>
    decreases os.len() - i,
{
    if i < 0 || i >= os.len() {
        None
    } else if os[i].option@ == key {
        Some(i)
    } else {
        spec_find_menu_option(os, key, i + 1)
    }
}

/// A custom service's opening reply: its welcome line, then its menu
/// items when it has any.
pub open spec fn spec_service_text(s: CustomService) -> Seq<char> {
    if s.menu_items@.len() > 0 {
        s.welcome_message@ + "\n"@ + spec_join(s.menu_items.deep_view(), "\n"@)
    } else {
        s.welcome_message@
    }
}

/// What the forwarding service answers: the matching custom service's
/// opening, or the matching menu option's text, or the default reply
/// with the code filled in.
pub open spec fn spec_forwarding_reply(fr: ForwardingResponses, code: Seq<char>) -> (Seq<
    char,
>, bool) {
    match spec_find_service(fr.custom_services@, code, 0) {
        Some(i) => (spec_service_text(fr.custom_services@[i]), fr.custom_services@[i].continue_session),
        None => match spec_find_menu_option(fr.menu_options@, code, 0) {
            Some(j) => (fr.menu_options@[j].response_text@, fr.menu_options@[j].continue_session),
            None => (spec_replace(fr.default_response@, "{}"@, code), true),
        },
    }
}

/// A found service index lies in range and carries the sought code.
proof fn lemma_find_service_props(cs: Seq<CustomService>, code: Seq<char>, i: int)
    requires
        0 <= i <= cs.len(),
    ensures
        spec_find_service(cs, code, i) matches Some(k) ==> i <= k < cs.len() && cs[k].ussd_code@
            == code,
    decreases cs.len() - i,
{
    if i < cs.len() && cs[i].ussd_code@ != code {
        lemma_find_service_props(cs, code, i + 1);
    }
}

/// A found option index lies in range and carries the sought key.
proof fn lemma_find_menu_option_props(os: Seq<MenuOption>, key: Seq<char>, i: int)
    requires
        0 <= i <= os.len(),
    ensures
        spec_find_menu_option(os, key, i) matches Some(k) ==> i <= k < os.len() && os[k].option@
            == key,
    decreases os.len() - i,
{
    if i < os.len() && os[i].option@ != key {
        lemma_find_menu_option_props(os, key, i + 1);
    }
}

/// The first custom service under the code.
fn find_service_index(cs: &Vec<CustomService>, code: &str) -> (r: Option<usize>)
    ensures
        match spec_find_service(cs@, code@, 0) {
            Some(i) => r matches Some(u) && u as int == i,
            None => r is None,
        },
{
    let n = cs.len();
    let mut i: usize = 0;
    while i < n
        invariant
            n == cs@.len(),
            i <= n,
            spec_find_service(cs@, code@, 0) == spec_find_service(cs@, code@, i as int),
        decreases n - i,
    {
        if str_eq(cs[i].ussd_code.as_str(), code) {
            return Some(i);
        }
        i = i + 1;
    }
    None
}

/// The first menu option under the key.
fn find_menu_option_index(os: &Vec<MenuOption>, key: &str) -> (r: Option<usize>)
    ensures
        match spec_find_menu_option(os@, key@, 0) {
            Some(i) => r matches Some(u) && u as int == i,
            None => r is None,
        },
{
    let n = os.len();
    let mut i: usize = 0;
    while i < n
        invariant
            n == os@.len(),
            i <= n,
            spec_find_menu_option(os@, key@, 0) == spec_find_menu_option(os@, key@, i as int),
        decreases n - i,
    {
        if str_eq(os[i].option.as_str(), key) {
            return Some(i);
        }
        i = i + 1;
    }
    None
}

/// Answers one request from the configured canned replies.
pub fn process_ussd_request(request: &ForwardingRequest, responses: &ForwardingResponses) -> (r:
    ForwardingResponse)
    ensures
        ({
            let (text, cont) = spec_forwarding_reply(*responses, request.ussd_code@);
            r.response_text@ == text && r.continue_session == cont
        }),
{
    proof {
        lemma_find_service_props(responses.custom_services@, request.ussd_code@, 0);
        lemma_find_menu_option_props(responses.menu_options@, request.ussd_code@, 0);
    }
    let found = find_service_index(&responses.custom_services, request.ussd_code.as_str());
    match found {
        Some(i) => {
            let service = &responses.custom_services[i];
            let response_text: String = if service.menu_items.len() > 0 {
                let mut t = concat_strs(service.welcome_message.as_str(), "\n");
                let items = join_lines(&service.menu_items, "\n");
                t.append(items.as_str());
                proof {
                    assert(t@ =~= spec_service_text(responses.custom_services@[i as int]));
                }
                t
            } else {
                service.welcome_message.clone()
            };
            ForwardingResponse { response_text, continue_session: service.continue_session }
        },
        None => {
            let opt_found = find_menu_option_index(
                &responses.menu_options,
                request.ussd_code.as_str(),
            );
            match opt_found {
                Some(j) => {
                    let option = &responses.menu_options[j];
                    ForwardingResponse {
                        response_text: option.response_text.clone(),
                        continue_session: option.continue_session,
                    }
                },
                None => {
                    proof {
                        reveal_strlit("{}");
                    }
                    let response_text = replace_str(
                        responses.default_response.as_str(),
                        "{}",
                        request.ussd_code.as_str(),
                    );
                    ForwardingResponse { response_text, continue_session: true }
                },
            }
        },
    }
}

/// Extracts the reply text a DELIVER_SM carries: the short message
/// under the lossy policy, or empty text on a truncated body.
pub fn parse_deliver_sm(body: &[u8]) -> (r: String)
    ensures
        spec_parse_sm_body(body@) matches Ok(m) ==> r@ == lossy_utf8(m.short_message),
        spec_parse_sm_body(body@) is Err ==> r@.len() == 0,
{
    match codec::parse_sm_fields(body) {
        Ok(f) => bytes_to_text(f.short_message.as_slice()),
        Err(_) => String::new(),
    }
}

/// Whether a PDU answers a bind successfully: the transceiver response
/// id with status ESME_ROK.
pub fn is_bind_success(pdu: &SmppPdu) -> (r: bool)
    ensures
        r == (pdu@.command_id == codec::BIND_TRANSCEIVER_RESP && pdu@.command_status
            == codec::ESME_ROK),
{
    pdu.header.command_id == codec::BIND_TRANSCEIVER_RESP && pdu.header.command_status
        == codec::ESME_ROK
}

/// Whether a PDU answers a SUBMIT_SM successfully.
pub fn is_submit_success(pdu: &SmppPdu) -> (r: bool)
    ensures
        r == (pdu@.command_id == codec::SUBMIT_SM_RESP && pdu@.command_status == codec::ESME_ROK),
{
    pdu.header.command_id == codec::SUBMIT_SM_RESP && pdu.header.command_status == codec::ESME_ROK
}

/// What a listening subscriber client does with one PDU the gateway
/// pushes: a DELIVER_SM is acknowledged under its sequence number and
/// its text is surfaced, ENQUIRE_LINK is answered, anything else is
/// discarded.
pub fn listener_reaction(pdu: &SmppPdu) -> (r: (Option<SmppPdu>, Option<String>))
    ensures
        pdu@.command_id == codec::DELIVER_SM ==> ({
            &&& r.0 matches Some(a) && a@.command_id == codec::DELIVER_SM_RESP
                && a@.command_status == codec::ESME_ROK && a@.sequence_number
                == pdu@.sequence_number && a@.body.len() == 0
            &&& r.1 matches Some(t) && (match spec_parse_sm_body(pdu@.body) {
                Ok(m) => t@ == lossy_utf8(m.short_message),
                Err(_) => t@.len() == 0,
            })
        }),
        pdu@.command_id == codec::ENQUIRE_LINK ==> (r.0 matches Some(a) && a@.command_id
            == codec::ENQUIRE_LINK_RESP && a@.command_status == codec::ESME_ROK
            && a@.sequence_number == pdu@.sequence_number && a@.body.len() == 0 && r.1 is None),
        (pdu@.command_id != codec::DELIVER_SM && pdu@.command_id != codec::ENQUIRE_LINK) ==> (
        r.0 is None && r.1 is None),
{
    if pdu.header.command_id == codec::DELIVER_SM {
        let text = parse_deliver_sm(pdu.body.as_slice());
        let ack = codec::make_pdu(
            codec::DELIVER_SM_RESP,
            codec::ESME_ROK,
            pdu.header.sequence_number,
            Vec::new(),
        );
        (Some(ack), Some(text))
    } else if pdu.header.command_id == codec::ENQUIRE_LINK {
        let ack = codec::make_pdu(
            codec::ENQUIRE_LINK_RESP,
            codec::ESME_ROK,
            pdu.header.sequence_number,
            Vec::new(),
        );
        (Some(ack), None)
    } else {
        (None, None)
    }
}

/// The message id at the head of a response body, under the lossy
/// policy.
pub fn extract_message_id(body: &[u8]) -> (r: String)
    ensures
        r@ == lossy_utf8(codec::spec_cstr_at(body@, 0)),
{
    let mut pos: usize = 0;
    codec::read_c_string(body, &mut pos)
}

} // verus!
