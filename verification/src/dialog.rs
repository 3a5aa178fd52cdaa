//! The gateway's built-in USSD dialog: a per-subscriber state machine
//! that interprets menu inputs and produces the reply text, with the
//! whole transition relation stated as one spec function.

use vstd::prelude::*;

use crate::config::Config;
use crate::config::DataPackage;
use crate::text::concat_strs;
use crate::text::join_lines;
use crate::text::money_to_string;
use crate::text::parse_usize;
use crate::text::spec_dec_digits;
use crate::text::spec_eq_ignore_ascii_case;
use crate::text::spec_join;
use crate::text::spec_money;
use crate::text::spec_parse_usize;
use crate::text::spec_starts_with;
use crate::text::spec_trim_hash;
use crate::text::starts_with_str;
use crate::text::str_eq;
use crate::text::eq_ignore_ascii_case;
use crate::text::trim_hash;
use crate::text::u64_to_dec;

verus! {

/// Where a subscriber's dialog stands.
#[derive(Clone, Copy, Debug, PartialEq, Eq, Structural)]
pub enum UssdState {
    Initial,
    MainMenu,
    BalanceInquiry,
    DataPackages,
    CustomerService,
    Forwarded,
    Terminated,
}

/// One subscriber's dialog session, keyed by MSISDN.
#[derive(Clone, Debug)]
pub struct UssdSession {
    pub msisdn: String,
    pub session_id: String,
    pub state: UssdState,
    pub menu_level: u8,
    pub last_request: String,
}

/// The mathematical value of a dialog session.
#[verifier::ext_equal]
pub struct UssdSessionModel {
    pub msisdn: Seq<char>,
    pub session_id: Seq<char>,
    pub state: UssdState,
    pub menu_level: u8,
    pub last_request: Seq<char>,
}

impl View for UssdSession {
    type V = UssdSessionModel;

    open spec fn view(&self) -> UssdSessionModel {
        UssdSessionModel {
            msisdn: self.msisdn@,
            session_id: self.session_id@,
            state: self.state,
            menu_level: self.menu_level,
            last_request: self.last_request@,
        }
    }
}

impl DeepView for UssdSession {
    type V = UssdSessionModel;

    open spec fn deep_view(&self) -> UssdSessionModel {
        self.view()
    }
}

/// A session put back at its start: Initial state, level zero, and the
/// last request cleared, with its identity kept.
pub open spec fn spec_reset_session(s: UssdSessionModel) -> UssdSessionModel {
    UssdSessionModel {
        state: UssdState::Initial,
        menu_level: 0,
        last_request: Seq::empty(),
        ..s
    }
}

/// What one dialog turn decides: the next state and level, the reply
/// text, and whether the request is to be forwarded to a handler.
#[verifier::ext_equal]
pub struct DialogStep {
    pub state: UssdState,
    pub menu_level: u8,
    pub reply: Seq<char>,
    pub forward: bool,
}

/// The welcome line over the main menu lines.
pub open spec fn spec_main_menu_text(cfg: Config) -> Seq<char> {
    cfg.ussd.menu.welcome_message@ + "\n"@ + spec_join(cfg.ussd.menu.main_menu.deep_view(), "\n"@)
}

/// Builds the welcome line over the main menu lines.
pub fn main_menu_text(cfg: &Config) -> (r: String)
    ensures
        r@ == spec_main_menu_text(*cfg),
{
    let mut r = concat_strs(cfg.ussd.menu.welcome_message.as_str(), "\n");
    let menu = join_lines(&cfg.ussd.menu.main_menu, "\n");
    r.append(menu.as_str());
    proof {
        assert(r@ =~= spec_main_menu_text(*cfg));
    }
    r
}

/// One line of the package list: `<n>. <data> - $<price>` and a newline.
pub open spec fn spec_package_line(p: DataPackage, idx: int) -> Seq<char> {
    spec_dec_digits((idx + 1) as nat) + ". "@ + p.data@ + " - $"@ + spec_money(
        p.price_cents as nat,
    ) + "\n"@
}

/// The first `n` package lines, in order.
pub open spec fn spec_package_lines(ps: Seq<DataPackage>, n: int) -> Seq<char>
    decreases n,
{
    if n <= 0 {
        Seq::empty()
    } else {
        spec_package_lines(ps, n - 1) + spec_package_line(ps[n - 1], n - 1)
    }
}

/// The data packages menu: a heading, the numbered package lines, and
/// the back hint.
pub open spec fn spec_packages_menu(cfg: Config) -> Seq<char> {
    "Available Data Packages:\n"@ + spec_package_lines(
        cfg.ussd.data_packages.packages@,
        cfg.ussd.data_packages.packages@.len() as int,
    ) + "0. Back to main menu"@
}

/// Builds the data packages menu.
pub fn packages_menu_text(cfg: &Config) -> (r: String)
    ensures
        r@ == spec_packages_menu(*cfg),
{
    let mut r = String::from_str("Available Data Packages:\n");
    let n = cfg.ussd.data_packages.packages.len();
    let mut i: usize = 0;
    while i < n
        invariant
            n == cfg.ussd.data_packages.packages@.len(),
            i <= n,
            r@ =~= "Available Data Packages:\n"@ + spec_package_lines(
                cfg.ussd.data_packages.packages@,
                i as int,
            ),
        decreases n - i,
    {
        let idx_text = u64_to_dec((i as u64) + 1);
        r.append(idx_text.as_str());
        r.append(". ");
        r.append(cfg.ussd.data_packages.packages[i].data.as_str());
        r.append(" - $");
        let price = money_to_string(cfg.ussd.data_packages.packages[i].price_cents);
        r.append(price.as_str());
        r.append("\n");
        proof {
            assert(r@ =~= "Available Data Packages:\n"@ + spec_package_lines(
                cfg.ussd.data_packages.packages@,
                i + 1,
            ));
        }
        i = i + 1;
    }
    r.append("0. Back to main menu");
    proof {
        assert(r@ =~= spec_packages_menu(*cfg));
    }
    r
}

/// The balance reply: the configured balance line and the return hint.
pub open spec fn spec_balance_text(cfg: Config) -> Seq<char> {
    cfg.ussd.responses.balance_message@ + "\nPress 0 to return to main menu"@
}

/// The static customer service contact block.
pub open spec fn spec_customer_service_text() -> Seq<char> {
    "Customer Service:\nCall 123 for support\nEmail: support@mytelecom.com\nPress 0 to return to main menu"@
}

/// The invalid-option reply in the main menu: the configured message
/// over the menu lines.
pub open spec fn spec_invalid_option_text(cfg: Config) -> Seq<char> {
    cfg.ussd.responses.invalid_option@ + "\n"@ + spec_join(
        cfg.ussd.menu.main_menu.deep_view(),
        "\n"@,
    )
}

/// The confirmation prompt for one chosen package.
pub open spec fn spec_package_selected_text(p: DataPackage) -> Seq<char> {
    p.name@ + " selected. Reply with 'YES' to confirm purchase for $"@ + spec_money(
        p.price_cents as nat,
    )
}

/// The reply after a confirmed purchase.
pub open spec fn spec_purchased_text() -> Seq<char> {
    "Package purchased successfully! You will receive a confirmation SMS shortly.\nPress 0 to return to main menu"@
}

/// The reply to an input that names no package.
pub open spec fn spec_invalid_package_text() -> Seq<char> {
    "Invalid option. Please select a valid package number, or 0 to go back"@
}

/// The reply of an ended session: the service codes to dial anew.
pub open spec fn spec_terminated_text(cfg: Config) -> Seq<char> {
    "USSD session has ended. Please dial one of ["@ + spec_join(
        cfg.ussd.service_codes.deep_view(),
        ", "@,
    ) + "] to start a new session."@
}

/// Builds the ended-session reply.
pub fn terminated_text(cfg: &Config) -> (r: String)
    ensures
        r@ == spec_terminated_text(*cfg),
{
    let mut r = String::from_str("USSD session has ended. Please dial one of [");
    let codes = join_lines(&cfg.ussd.service_codes, ", ");
    r.append(codes.as_str());
    r.append("] to start a new session.");
    proof {
        assert(r@ =~= spec_terminated_text(*cfg));
    }
    r
}

/// Whether the request starts with any configured service code, the
/// code's trailing `#` characters set aside.
pub open spec fn spec_matches_service_code(cfg: Config, request: Seq<char>) -> bool {
    exists|i: int|
        0 <= i < cfg.ussd.service_codes@.len() && spec_starts_with(
            request,
            spec_trim_hash(cfg.ussd.service_codes@[i]@),
        )
}

/// Decides whether the request starts with any configured service code.
pub fn matches_service_code(cfg: &Config, request: &str) -> (r: bool)
    ensures
        r == spec_matches_service_code(*cfg, request@),
{
    let n = cfg.ussd.service_codes.len();
    let mut i: usize = 0;
    while i < n
        invariant
            n == cfg.ussd.service_codes@.len(),
            i <= n,
            forall|j: int|
                0 <= j < i ==> !spec_starts_with(
                    request@,
                    spec_trim_hash(cfg.ussd.service_codes@[j]@),
                ),
        decreases n - i,
    {
        let prefix = trim_hash(cfg.ussd.service_codes[i].as_str());
        if starts_with_str(request, prefix) {
            return true;
        }
        i = i + 1;
    }
    false
}

/// The parsed package choice of an input in the packages menu: a number
/// the subscriber typed, whether or not a package carries it.
pub open spec fn spec_package_choice(request: Seq<char>) -> Option<usize> {
    spec_parse_usize(request)
}

/// One turn of the built-in dialog, from the session's state and the
/// subscriber's input to the next state, the reply, and whether the
/// request leaves toward a handler. `forward_ok` says whether a
/// forwarding handler is bound when one is needed.
pub open spec fn spec_gateway_step(
    cfg: Config,
    state: UssdState,
    menu_level: u8,
    request: Seq<char>,
    forward_ok: bool,
) -> DialogStep {
    match state {
        UssdState::Initial => {
            if spec_matches_service_code(cfg, request) {
                DialogStep {
                    state: UssdState::MainMenu,
                    menu_level: 1,
                    reply: spec_main_menu_text(cfg),
                    forward: false,
                }
            } else if forward_ok {
                DialogStep {
                    state: UssdState::Forwarded,
                    menu_level,
                    reply: Seq::empty(),
                    forward: true,
                }
            } else {
                DialogStep {
                    state: UssdState::Terminated,
                    menu_level,
                    reply: cfg.ussd.responses.invalid_code@,
                    forward: false,
                }
            }
        },
        UssdState::MainMenu => {
            if request == "1"@ {
                DialogStep {
                    state: UssdState::BalanceInquiry,
                    menu_level,
                    reply: spec_balance_text(cfg),
                    forward: false,
                }
            } else if request == "2"@ {
                DialogStep {
                    state: UssdState::DataPackages,
                    menu_level,
                    reply: spec_packages_menu(cfg),
                    forward: false,
                }
            } else if request == "3"@ {
                DialogStep {
                    state: UssdState::CustomerService,
                    menu_level,
                    reply: spec_customer_service_text(),
                    forward: false,
                }
            } else if request == "0"@ {
                DialogStep {
                    state: UssdState::Terminated,
                    menu_level,
                    reply: cfg.ussd.responses.goodbye_message@,
                    forward: false,
                }
            } else {
                DialogStep {
                    state: UssdState::MainMenu,
                    menu_level,
                    reply: spec_invalid_option_text(cfg),
                    forward: false,
                }
            }
        },
        UssdState::BalanceInquiry | UssdState::DataPackages | UssdState::CustomerService => {
            if request == "0"@ {
                DialogStep {
                    state: UssdState::MainMenu,
                    menu_level: 1,
                    reply: spec_main_menu_text(cfg),
                    forward: false,
                }
            } else if request == "00"@ {
                DialogStep {
                    state: UssdState::Terminated,
                    menu_level,
                    reply: cfg.ussd.responses.goodbye_message@,
                    forward: false,
                }
            } else if state is DataPackages {
                match spec_package_choice(request) {
                    Some(choice) => {
                        if 0 < choice <= cfg.ussd.data_packages.packages@.len() {
                            DialogStep {
                                state: UssdState::DataPackages,
                                menu_level,
                                reply: spec_package_selected_text(
                                    cfg.ussd.data_packages.packages@[choice - 1],
                                ),
                                forward: false,
                            }
                        } else {
                            DialogStep {
                                state: UssdState::DataPackages,
                                menu_level,
                                reply: spec_invalid_package_text(),
                                forward: false,
                            }
                        }
                    },
                    None => {
                        if spec_eq_ignore_ascii_case(request, "YES"@) {
                            DialogStep {
                                state: UssdState::MainMenu,
                                menu_level,
                                reply: spec_purchased_text(),
                                forward: false,
                            }
                        } else {
                            DialogStep {
                                state: UssdState::DataPackages,
                                menu_level,
                                reply: spec_invalid_package_text(),
                                forward: false,
                            }
                        }
                    },
                }
            } else {
                DialogStep {
                    state,
                    menu_level,
                    reply: "Press 0 to return to main menu or 00 to exit"@,
                    forward: false,
                }
            }
        },
        UssdState::Forwarded => {
            if forward_ok {
                DialogStep {
                    state: UssdState::Forwarded,
                    menu_level,
                    reply: Seq::empty(),
                    forward: true,
                }
            } else {
                DialogStep {
                    state: UssdState::Terminated,
                    menu_level,
                    reply: "Service temporarily unavailable. Thank you!"@,
                    forward: false,
                }
            }
        },
        UssdState::Terminated => {
            DialogStep {
                state: UssdState::Terminated,
                menu_level,
                reply: spec_terminated_text(cfg),
                forward: false,
            }
        },
    }
}

/// Interprets one dialog turn: updates the session to the state the
/// transition relation gives and returns its reply. `forward_ok` says
/// whether a forwarding handler is bound; when the step forwards, the
/// reply is empty and the caller carries the request onward.
#[verifier::rlimit(60)]
pub fn generate_ussd_response(
    cfg: &Config,
    session: &mut UssdSession,
    request: &str,
    forward_ok: bool,
) -> (r: String)
    ensures
        ({
            let step = spec_gateway_step(
                *cfg,
                old(session).state,
                old(session).menu_level,
                request@,
                forward_ok,
            );
            &&& final(session).state == step.state
            &&& final(session).menu_level == step.menu_level
            &&& final(session).msisdn == old(session).msisdn
            &&& final(session).session_id == old(session).session_id
            &&& final(session).last_request == old(session).last_request
            &&& r@ == step.reply
        }),
{
    let state = session.state;
    match state {
        UssdState::Initial => {
            if matches_service_code(cfg, request) {
                session.state = UssdState::MainMenu;
                session.menu_level = 1;
                main_menu_text(cfg)
            } else if forward_ok {
                session.state = UssdState::Forwarded;
                String::new()
            } else {
                session.state = UssdState::Terminated;
                cfg.ussd.responses.invalid_code.clone()
            }
        },
        UssdState::MainMenu => {
            if str_eq(request, "1") {
                session.state = UssdState::BalanceInquiry;
                let r = concat_strs(
                    cfg.ussd.responses.balance_message.as_str(),
                    "\nPress 0 to return to main menu",
                );
                r
            } else if str_eq(request, "2") {
                session.state = UssdState::DataPackages;
                packages_menu_text(cfg)
            } else if str_eq(request, "3") {
                session.state = UssdState::CustomerService;
                String::from_str(
                    "Customer Service:\nCall 123 for support\nEmail: support@mytelecom.com\nPress 0 to return to main menu",
                )
            } else if str_eq(request, "0") {
                session.state = UssdState::Terminated;
                cfg.ussd.responses.goodbye_message.clone()
            } else {
                let mut r = concat_strs(cfg.ussd.responses.invalid_option.as_str(), "\n");
                let menu = join_lines(&cfg.ussd.menu.main_menu, "\n");
                r.append(menu.as_str());
                proof {
                    assert(r@ =~= spec_invalid_option_text(*cfg));
                }
                r
            }
        },
        UssdState::BalanceInquiry | UssdState::DataPackages | UssdState::CustomerService => {
            if str_eq(request, "0") {
                session.state = UssdState::MainMenu;
                session.menu_level = 1;
                main_menu_text(cfg)
            } else if str_eq(request, "00") {
                session.state = UssdState::Terminated;
                cfg.ussd.responses.goodbye_message.clone()
            } else {
                let in_packages = match state {
                    UssdState::DataPackages => true,
                    _ => false,
                };
                if in_packages {
                    match parse_usize(request) {
                        Some(choice) => {
                            if 0 < choice && choice <= cfg.ussd.data_packages.packages.len() {
                                let p = &cfg.ussd.data_packages.packages[choice - 1];
                                let mut r = concat_strs(
                                    p.name.as_str(),
                                    " selected. Reply with 'YES' to confirm purchase for $",
                                );
                                let price = money_to_string(p.price_cents);
                                r.append(price.as_str());
                                proof {
                                    assert(r@ =~= spec_package_selected_text(
                                        cfg.ussd.data_packages.packages@[choice - 1],
                                    ));
                                }
                                r
                            } else {
                                String::from_str(
                                    "Invalid option. Please select a valid package number, or 0 to go back",
                                )
                            }
                        },
                        None => {
                            if eq_ignore_ascii_case(request, "YES") {
                                session.state = UssdState::MainMenu;
                                String::from_str(
                                    "Package purchased successfully! You will receive a confirmation SMS shortly.\nPress 0 to return to main menu",
                                )
                            } else {
                                String::from_str(
                                    "Invalid option. Please select a valid package number, or 0 to go back",
                                )
                            }
                        },
                    }
                } else {
                    String::from_str("Press 0 to return to main menu or 00 to exit")
                }
            }
        },
        UssdState::Forwarded => {
            if forward_ok {
                String::new()
            } else {
                session.state = UssdState::Terminated;
                String::from_str("Service temporarily unavailable. Thank you!")
            }
        },
        UssdState::Terminated => { terminated_text(cfg) },
    }
}

} // verus!
