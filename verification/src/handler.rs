//! The forwarding handler: a configurable menu tree walked by a
//! per-subscriber session with back-navigation, and the interpreter
//! that answers forwarded USSD requests from it.

use vstd::prelude::*;

use crate::clock::now_seconds;
use crate::text::concat_strs;
use crate::text::spec_dec_digits;
use crate::text::u64_to_dec;

verus! {

/// The handler's whole configuration.
#[derive(Clone, Debug)]
pub struct ClientConfig {
    pub client: ClientSettings,
    pub logging: LoggingConfig,
    pub ussd_codes: UssdCodeConfig,
    pub menus: MenuConfigs,
    pub responses: ResponseConfigs,
    pub session: SessionConfig,
}

/// How the handler reaches and identifies itself to the gateway.
#[derive(Clone, Debug)]
pub struct ClientSettings {
    pub host: String,
    pub port: u16,
    pub system_id: String,
    pub password: String,
    pub bind_type: String,
    pub auto_reconnect: bool,
    pub heartbeat_interval: u64,
}

/// Logging switches; the library itself never writes a log.
#[derive(Clone, Debug)]
pub struct LoggingConfig {
    pub level: String,
    pub debug: bool,
}

/// Which USSD codes this handler claims and where each one lands.
#[derive(Clone, Debug)]
pub struct UssdCodeConfig {
    pub default_menu: String,
    pub codes: Vec<UssdCodeMapping>,
    pub handle_codes: Vec<String>,
    pub unrecognized_action: String,
    pub unrecognized_message: String,
}

/// One dialed code mapped to a menu.
#[derive(Clone, Debug)]
pub struct UssdCodeMapping {
    pub code: String,
    pub menu: String,
    pub description: String,
}

/// The named menus and the one shown by default.
#[derive(Clone, Debug)]
pub struct MenuConfigs {
    pub default_menu: String,
    pub menus: Vec<MenuEntry>,
}

/// One named menu. Names are expected to be unique; lookups take the
/// first entry under a name, in the order the configuration lists them.
#[derive(Clone, Debug)]
pub struct MenuEntry {
    pub name: String,
    pub menu: MenuConfig,
}

/// A menu: its title line and its options.
#[derive(Clone, Debug)]
pub struct MenuConfig {
    pub title: String,
    pub options: Vec<MenuOption>,
}

/// One menu option: the key the subscriber dials, the shown text, the
/// action — `submenu`, `response` or `exit` — and the action's target.
#[derive(Clone, Debug)]
pub struct MenuOption {
    pub key: String,
    pub text: String,
    pub action: String,
    pub target: String,
}

/// The named response texts and the built-in default replies.
#[derive(Clone, Debug)]
pub struct ResponseConfigs {
    pub responses: Vec<ResponseEntry>,
    pub defaults: DefaultResponses,
}

/// One named response text.
#[derive(Clone, Debug)]
pub struct ResponseEntry {
    pub name: String,
    pub text: String,
}

/// The replies used when nothing else fits.
#[derive(Clone, Debug)]
pub struct DefaultResponses {
    pub invalid_option: String,
    pub session_timeout: String,
    pub system_error: String,
    pub exit_message: String,
}

/// Session limits: idle timeout, menu depth, and back navigation.
#[derive(Clone, Debug)]
pub struct SessionConfig {
    pub timeout_seconds: u64,
    pub max_menu_depth: u32,
    pub enable_back_navigation: bool,
    pub remember_last_menu: bool,
}

/// One captured input, keyed by name.
#[derive(Debug)]
pub struct DataEntry {
    pub key: String,
    pub value: String,
}

/// One subscriber's walk through the menu tree. `last_activity` holds
/// epoch seconds; `menu_depth` always equals the history's length.
#[derive(Debug)]
pub struct UssdSession {
    pub msisdn: String,
    pub session_id: String,
    pub current_menu: String,
    pub menu_history: Vec<String>,
    pub last_activity: u64,
    pub menu_depth: u32,
    pub data: Vec<DataEntry>,
}

/// The mathematical value of a handler session.
#[verifier::ext_equal]
pub struct HandlerSessionModel {
    pub msisdn: Seq<char>,
    pub session_id: Seq<char>,
    pub current_menu: Seq<char>,
    pub menu_history: Seq<Seq<char>>,
    pub last_activity: u64,
    pub menu_depth: u32,
    pub data: Seq<(Seq<char>, Seq<char>)>,
}

impl View for UssdSession {
    type V = HandlerSessionModel;

    open spec fn view(&self) -> HandlerSessionModel {
        HandlerSessionModel {
            msisdn: self.msisdn@,
            session_id: self.session_id@,
            current_menu: self.current_menu@,
            menu_history: self.menu_history.deep_view(),
            last_activity: self.last_activity,
            menu_depth: self.menu_depth,
            data: Seq::new(self.data@.len(), |i: int| (self.data@[i].key@, self.data@[i].value@)),
        }
    }
}

impl Clone for DataEntry {
    /// A copy that carries the same entry.
    fn clone(&self) -> (r: DataEntry)
        ensures
            r@ == self@,
    {
        DataEntry { key: self.key.clone(), value: self.value.clone() }
    }
}

/// The mathematical value of one captured input.
impl View for DataEntry {
    type V = (Seq<char>, Seq<char>);

    open spec fn view(&self) -> (Seq<char>, Seq<char>) {
        (self.key@, self.value@)
    }
}

/// Copies a list of strings.
fn clone_string_vec(v: &Vec<String>) -> (r: Vec<String>)
    ensures
        r.deep_view() =~= v.deep_view(),
        r@.len() == v@.len(),
{
    let n = v.len();
    let mut r: Vec<String> = Vec::new();
    let mut i: usize = 0;
    while i < n
        invariant
            n == v@.len(),
            v.deep_view().len() == n,
            forall|j: int| 0 <= j < n ==> v.deep_view()[j] == v@[j]@,
            i <= n,
            r@.len() == i,
            forall|j: int| 0 <= j < i ==> r.deep_view()[j] == v.deep_view()[j],
        decreases n - i,
    {
        r.push(v[i].clone());
        i = i + 1;
    }
    r
}

/// Copies a list of captured inputs.
fn clone_data_vec(v: &Vec<DataEntry>) -> (r: Vec<DataEntry>)
    ensures
        r@.len() == v@.len(),
        forall|j: int| 0 <= j < v@.len() ==> r@[j]@ == v@[j]@,
{
    let n = v.len();
    let mut r: Vec<DataEntry> = Vec::new();
    let mut i: usize = 0;
    while i < n
        invariant
            n == v@.len(),
            i <= n,
            r@.len() == i,
            forall|j: int| 0 <= j < i ==> r@[j]@ == v@[j]@,
        decreases n - i,
    {
        r.push(v[i].clone());
        i = i + 1;
    }
    r
}

impl Clone for UssdSession {
    /// A copy that carries the same session.
    fn clone(&self) -> (r: UssdSession)
        ensures
            r@ == self@,
    {
        let r = UssdSession {
            msisdn: self.msisdn.clone(),
            session_id: self.session_id.clone(),
            current_menu: self.current_menu.clone(),
            menu_history: clone_string_vec(&self.menu_history),
            last_activity: self.last_activity,
            menu_depth: self.menu_depth,
            data: clone_data_vec(&self.data),
        };
        proof {
            assert(r@.data =~= self@.data);
            assert(r@ =~= self@);
        }
        r
    }
}

impl HandlerSessionModel {
    /// The session's structural invariant: the depth counts the
    /// history.
    pub open spec fn wf(self) -> bool {
        self.menu_depth == self.menu_history.len()
    }
}

/// A session id for the handler: `USSD` and the epoch seconds.
pub open spec fn spec_handler_session_id(now: u64) -> Seq<char> {
    "USSD"@ + spec_dec_digits(now as nat)
}

/// Builds a session id from a clock reading.
pub fn generate_session_id_at(now: u64) -> (r: String)
    ensures
        r@ == spec_handler_session_id(now),
{
    let secs = u64_to_dec(now);
    let r = concat_strs("USSD", secs.as_str());
    proof {
        assert(r@ =~= spec_handler_session_id(now));
    }
    r
}

/// Builds a session id from the wall clock: `USSD` and the epoch
/// seconds of some clock reading.
pub fn generate_session_id() -> (r: String)
    ensures
        exists|now: u64| r@ == spec_handler_session_id(now),
{
    let now = now_seconds();
    let r = generate_session_id_at(now);
    proof {
        assert(r@ == spec_handler_session_id(now));
    }
    r
}

/// Whether a session idle since `last` has outlived its timeout at
/// `now`; a clock that moved backwards never expires a session.
pub open spec fn spec_expired(last: u64, timeout: u64, now: u64) -> bool {
    now > last && now - last > timeout
}

impl UssdSession {
    /// A fresh session for a subscriber, at a given clock reading:
    /// in the `main` menu, no history, no captured data.
    pub fn new_at(msisdn: String, now: u64) -> (r: UssdSession)
        ensures
            r@ == (HandlerSessionModel {
                msisdn: msisdn@,
                session_id: spec_handler_session_id(now),
                current_menu: "main"@,
                menu_history: Seq::empty(),
                last_activity: now,
                menu_depth: 0,
                data: Seq::empty(),
            }),
            r@.wf(),
    {
        let r = UssdSession {
            msisdn,
            session_id: generate_session_id_at(now),
            current_menu: String::from_str("main"),
            menu_history: Vec::new(),
            last_activity: now,
            menu_depth: 0,
            data: Vec::new(),
        };
        proof {
            assert(r@.menu_history =~= Seq::<Seq<char>>::empty());
            assert(r@.data =~= Seq::<(Seq<char>, Seq<char>)>::empty());
        }
        r
    }

    /// A fresh session for a subscriber, stamped with the wall clock.
    pub fn new(msisdn: String) -> (r: UssdSession)
        ensures
            r@.msisdn == msisdn@,
            r@.current_menu == "main"@,
            r@.menu_history == Seq::<Seq<char>>::empty(),
            r@.menu_depth == 0,
            r@.data == Seq::<(Seq<char>, Seq<char>)>::empty(),
            r@.wf(),
    {
        let now = now_seconds();
        Self::new_at(msisdn, now)
    }

    /// Stamps the session with the wall clock.
    pub fn update_last_activity(&mut self)
        ensures
            final(self)@ == (HandlerSessionModel {
                last_activity: final(self)@.last_activity,
                ..old(self)@
            }),
    {
        self.last_activity = now_seconds();
    }

    /// Whether the session has outlived its timeout at a given clock
    /// reading.
    pub fn is_expired_at(&self, timeout_seconds: u64, now: u64) -> (r: bool)
        ensures
            r == spec_expired(self@.last_activity, timeout_seconds, now),
    {
        now > self.last_activity && now - self.last_activity > timeout_seconds
    }

    /// Whether the session has outlived its timeout now; decided
    /// against some wall-clock reading.
    pub fn is_expired(&self, timeout_seconds: u64) -> (r: bool)
        ensures
            exists|now: u64| r == spec_expired(self@.last_activity, timeout_seconds, now),
    {
        let now = now_seconds();
        let r = self.is_expired_at(timeout_seconds, now);
        proof {
            assert(r == spec_expired(self@.last_activity, timeout_seconds, now));
        }
        r
    }

    /// Steps into a menu: the current one goes onto the history and
    /// the depth grows, whatever menu is entered — a menu may open
    /// itself as its own submenu.
    pub fn navigate_to_menu(&mut self, menu_name: &str)
        requires
            old(self)@.menu_depth < u32::MAX,
        ensures
            final(self)@ == (HandlerSessionModel {
                current_menu: menu_name@,
                menu_history: old(self)@.menu_history.push(old(self)@.current_menu),
                menu_depth: (old(self)@.menu_depth + 1) as u32,
                ..old(self)@
            }),
            old(self)@.wf() ==> final(self)@.wf(),
    {
        let prev = self.current_menu.clone();
        self.menu_history.push(prev);
        self.current_menu = String::from_str(menu_name);
        self.menu_depth = self.menu_depth + 1;
        proof {
            assert(final(self)@.menu_history =~= old(self)@.menu_history.push(
                old(self)@.current_menu,
            ));
            assert(final(self)@ =~= (HandlerSessionModel {
                current_menu: menu_name@,
                menu_history: old(self)@.menu_history.push(old(self)@.current_menu),
                menu_depth: (old(self)@.menu_depth + 1) as u32,
                ..old(self)@
            }));
        }
    }

    /// Steps back to the previous menu if the history holds one, and
    /// says whether it did.
    pub fn go_back(&mut self) -> (r: bool)
        ensures
            old(self)@.menu_history.len() > 0 ==> ({
                &&& r
                &&& final(self)@ == (HandlerSessionModel {
                    current_menu: old(self)@.menu_history.last(),
                    menu_history: old(self)@.menu_history.drop_last(),
                    menu_depth: (if old(self)@.menu_depth > 0 {
                        old(self)@.menu_depth - 1
                    } else {
                        0
                    }) as u32,
                    ..old(self)@
                })
            }),
            old(self)@.menu_history.len() == 0 ==> (!r && final(self)@ == old(self)@),
            old(self)@.wf() ==> final(self)@.wf(),
    {
        let popped = self.menu_history.pop();
        match popped {
            Some(previous_menu) => {
                self.current_menu = previous_menu;
                self.menu_depth = if self.menu_depth > 0 {
                    self.menu_depth - 1
                } else {
                    0
                };
                proof {
                    assert(final(self)@ =~= (HandlerSessionModel {
                        current_menu: old(self)@.menu_history.last(),
                        menu_history: old(self)@.menu_history.drop_last(),
                        menu_depth: (if old(self)@.menu_depth > 0 {
                            old(self)@.menu_depth - 1
                        } else {
                            0
                        }) as u32,
                        ..old(self)@
                    }));
                }
                true
            },
            None => {
                proof {
                    assert(final(self)@ =~= old(self)@);
                }
                false
            },
        }
    }

    /// Puts the session back at a default menu: history and captured
    /// data cleared, depth zero.
    pub fn reset_to_main(&mut self, default_menu: &str)
        ensures
            final(self)@ == spec_reset_to(old(self)@, default_menu@),
            final(self)@.wf(),
    {
        self.current_menu = String::from_str(default_menu);
        self.menu_history.clear();
        self.menu_depth = 0;
        self.data.clear();
        proof {
            assert(final(self)@.menu_history =~= Seq::<Seq<char>>::empty());
            assert(final(self)@.data =~= Seq::<(Seq<char>, Seq<char>)>::empty());
            assert(final(self)@ =~= spec_reset_to(old(self)@, default_menu@));
        }
    }
}

/// A session put back at a default menu.
pub open spec fn spec_reset_to(s: HandlerSessionModel, menu: Seq<char>) -> HandlerSessionModel {
    HandlerSessionModel {
        current_menu: menu,
        menu_history: Seq::empty(),
        menu_depth: 0,
        data: Seq::empty(),
        ..s
    }
}

/// A session stepped back to the previous menu.
pub open spec fn spec_back(s: HandlerSessionModel) -> HandlerSessionModel {
    HandlerSessionModel {
        current_menu: s.menu_history.last(),
        menu_history: s.menu_history.drop_last(),
        menu_depth: (if s.menu_depth > 0 {
            s.menu_depth - 1
        } else {
            0
        }) as u32,
        ..s
    }
}

/// A session stepped into a menu: the current one goes onto the
/// history, whatever menu is entered.
pub open spec fn spec_navigate(s: HandlerSessionModel, menu: Seq<char>) -> HandlerSessionModel {
    HandlerSessionModel {
        current_menu: menu,
        menu_history: s.menu_history.push(s.current_menu),
        menu_depth: ((s.menu_depth + 1) % 0x100000000) as u32,
        ..s
    }
}

impl DeepView for UssdSession {
    type V = HandlerSessionModel;

    open spec fn deep_view(&self) -> HandlerSessionModel {
        self.view()
    }
}

/// The first index at or after `i` of a menu entry under the name.
pub open spec fn spec_find_menu(ms: Seq<MenuEntry>, name: Seq<char>, i: int) -> Option<int>
    decreases ms.len() - i,
{
    if i < 0 || i >= ms.len() {
        None
    } else if ms[i].name@ == name {
        Some(i)
    } else {
        spec_find_menu(ms, name, i + 1)
    }
}

/// The first index at or after `i` of an option under the key.
pub open spec fn spec_find_option(os: Seq<MenuOption>, key: Seq<char>, i: int) -> Option<int>
    decreases os.len() - i,
{
    if i < 0 || i >= os.len() {
        None
    } else if os[i].key@ == key {
        Some(i)
    } else {
        spec_find_option(os, key, i + 1)
    }
}

/// The first index at or after `i` of a response under the name.
pub open spec fn spec_find_response(rs: Seq<ResponseEntry>, name: Seq<char>, i: int) -> Option<
    int,
>
    decreases rs.len() - i,
{
    if i < 0 || i >= rs.len() {
        None
    } else if rs[i].name@ == name {
        Some(i)
    } else {
        spec_find_response(rs, name, i + 1)
    }
}

/// The first index at or after `i` of a code mapping for the code.
pub open spec fn spec_find_mapping(cs: Seq<UssdCodeMapping>, code: Seq<char>, i: int) -> Option<
    int,
>
    decreases cs.len() - i,
{
    if i < 0 || i >= cs.len() {
        None
    } else if cs[i].code@ == code {
        Some(i)
    } else {
        spec_find_mapping(cs, code, i + 1)
    }
}

/// The option lines of a rendered menu: `<key>. <text>` per line.
pub open spec fn spec_option_lines(os: Seq<MenuOption>, n: int) -> Seq<char>
    decreases n,
{
    if n <= 0 {
        Seq::empty()
    } else {
        spec_option_lines(os, n - 1) + os[n - 1].key@ + ". "@ + os[n - 1].text@ + "\n"@
    }
}

/// A rendered menu: its title, a blank line, its option lines, and a
/// back hint when back navigation applies; an unknown menu renders as
/// the system-error reply.
pub open spec fn spec_render_menu(cfg: ClientConfig, name: Seq<char>, depth: u32) -> Seq<char> {
    match spec_find_menu(cfg.menus.menus@, name, 0) {
        None => cfg.responses.defaults.system_error@,
        Some(i) => {
            let m = cfg.menus.menus@[i].menu;
            m.title@ + "\n\n"@ + spec_option_lines(m.options@, m.options@.len() as int) + (
            if cfg.session.enable_back_navigation && depth > 0 {
                "00. Back"@
            } else {
                Seq::<char>::empty()
            })
        },
    }
}

/// The reply to a code this handler does not claim, under the
/// configured unrecognized action.
pub open spec fn spec_unrecognized_text(cfg: ClientConfig, code: Seq<char>) -> Seq<char> {
    if cfg.ussd_codes.unrecognized_action@ == "reject"@ {
        "🚫 USSD code "@ + code + " is not supported by this service.\n\n"@
            + cfg.ussd_codes.unrecognized_message@
    } else if cfg.ussd_codes.unrecognized_action@ == "default_menu"@ {
        "⚠️ USSD code "@ + code + " redirected to main menu.\n\n"@
            + cfg.ussd_codes.unrecognized_message@
    } else {
        "🔄 USSD code "@ + code + " forwarded to network.\n\n"@
            + cfg.ussd_codes.unrecognized_message@
    }
}

/// What one interpreter turn decides: the session after it and the
/// reply.
#[verifier::ext_equal]
pub struct HandlerStep {
    pub session: HandlerSessionModel,
    pub reply: Seq<char>,
}

/// A dialed `*...#` code: a mapped code opens its menu afresh; an
/// unmapped code outside a non-empty claim list is refused; any other
/// unmapped code opens the codes' default menu.
pub open spec fn spec_handle_ussd_code(
    cfg: ClientConfig,
    s: HandlerSessionModel,
    code: Seq<char>,
) -> HandlerStep {
    match spec_find_mapping(cfg.ussd_codes.codes@, code, 0) {
        Some(i) => {
            let s2 = spec_reset_to(s, cfg.ussd_codes.codes@[i].menu@);
            HandlerStep {
                session: s2,
                reply: spec_render_menu(cfg, cfg.ussd_codes.codes@[i].menu@, 0),
            }
        },
        None => {
            if cfg.ussd_codes.handle_codes@.len() > 0 && !crate::text::spec_contains_str(
                cfg.ussd_codes.handle_codes.deep_view(),
                code,
            ) {
                HandlerStep { session: s, reply: spec_unrecognized_text(cfg, code) }
            } else {
                let s2 = spec_reset_to(s, cfg.ussd_codes.default_menu@);
                HandlerStep {
                    session: s2,
                    reply: spec_render_menu(cfg, cfg.ussd_codes.default_menu@, 0),
                }
            }
        },
    }
}

/// One matched option dispatched by its action: a submenu is entered
/// while the depth allows, a response is quoted verbatim, an exit
/// resets the session; anything malformed yields the system error.
pub open spec fn spec_handle_option(
    cfg: ClientConfig,
    s: HandlerSessionModel,
    opt: MenuOption,
) -> HandlerStep {
    if opt.action@ == "submenu"@ {
        if opt.target@.len() == 0 {
            HandlerStep { session: s, reply: cfg.responses.defaults.system_error@ }
        } else if s.menu_depth >= cfg.session.max_menu_depth {
            HandlerStep {
                session: s,
                reply: "❌ Maximum menu depth reached.\n\n"@
                    + cfg.responses.defaults.invalid_option@,
            }
        } else {
            let s2 = spec_navigate(s, opt.target@);
            HandlerStep { session: s2, reply: spec_render_menu(cfg, opt.target@, s2.menu_depth) }
        }
    } else if opt.action@ == "response"@ {
        match spec_find_response(cfg.responses.responses@, opt.target@, 0) {
            Some(i) => HandlerStep { session: s, reply: cfg.responses.responses@[i].text@ },
            None => HandlerStep { session: s, reply: cfg.responses.defaults.system_error@ },
        }
    } else if opt.action@ == "exit"@ {
        HandlerStep {
            session: spec_reset_to(s, cfg.menus.default_menu@),
            reply: cfg.responses.defaults.exit_message@,
        }
    } else {
        HandlerStep { session: s, reply: cfg.responses.defaults.system_error@ }
    }
}

/// One whole interpreter turn at a clock reading: the trimmed input is
/// interpreted against an expired-check, dialed codes, back
/// navigation, and the current menu's options, exactly in that order.
pub open spec fn spec_handler_step(
    cfg: ClientConfig,
    s: HandlerSessionModel,
    raw_input: Seq<char>,
    now: u64,
) -> HandlerStep {
    let input = crate::text::spec_trim(raw_input);
    if spec_expired(s.last_activity, cfg.session.timeout_seconds, now) {
        HandlerStep {
            session: spec_reset_to(s, cfg.menus.default_menu@),
            reply: cfg.responses.defaults.session_timeout@,
        }
    } else if crate::text::spec_is_ussd_code(input) {
        spec_handle_ussd_code(cfg, s, input)
    } else if input == "00"@ && cfg.session.enable_back_navigation {
        if s.menu_history.len() > 0 {
            let s2 = spec_back(s);
            HandlerStep {
                session: s2,
                reply: spec_render_menu(cfg, s2.current_menu, s2.menu_depth),
            }
        } else {
            HandlerStep { session: s, reply: cfg.responses.defaults.exit_message@ }
        }
    } else {
        match spec_find_menu(cfg.menus.menus@, s.current_menu, 0) {
            Some(i) => {
                match spec_find_option(cfg.menus.menus@[i].menu.options@, input, 0) {
                    Some(j) => spec_handle_option(cfg, s, cfg.menus.menus@[i].menu.options@[j]),
                    None => HandlerStep {
                        session: s,
                        reply: cfg.responses.defaults.invalid_option@ + "\n\n"@
                            + spec_render_menu(cfg, s.current_menu, s.menu_depth),
                    },
                }
            },
            None => HandlerStep {
                session: spec_reset_to(s, cfg.menus.default_menu@),
                reply: cfg.responses.defaults.system_error@,
            },
        }
    }
}

/// A found menu index lies in range and carries the sought name.
pub proof fn lemma_find_menu_props(ms: Seq<MenuEntry>, name: Seq<char>, i: int)
    requires
        0 <= i <= ms.len(),
    ensures
        spec_find_menu(ms, name, i) matches Some(k) ==> i <= k < ms.len() && ms[k].name@ == name,
    decreases ms.len() - i,
{
    if i < ms.len() && ms[i].name@ != name {
        lemma_find_menu_props(ms, name, i + 1);
    }
}

/// A found option index lies in range and carries the sought key.
pub proof fn lemma_find_option_props(os: Seq<MenuOption>, key: Seq<char>, i: int)
    requires
        0 <= i <= os.len(),
    ensures
        spec_find_option(os, key, i) matches Some(k) ==> i <= k < os.len() && os[k].key@ == key,
    decreases os.len() - i,
{
    if i < os.len() && os[i].key@ != key {
        lemma_find_option_props(os, key, i + 1);
    }
}

/// A found response index lies in range and carries the sought name.
pub proof fn lemma_find_response_props(rs: Seq<ResponseEntry>, name: Seq<char>, i: int)
    requires
        0 <= i <= rs.len(),
    ensures
        spec_find_response(rs, name, i) matches Some(k) ==> i <= k < rs.len() && rs[k].name@
            == name,
    decreases rs.len() - i,
{
    if i < rs.len() && rs[i].name@ != name {
        lemma_find_response_props(rs, name, i + 1);
    }
}

/// A found mapping index lies in range and carries the sought code.
pub proof fn lemma_find_mapping_props(cs: Seq<UssdCodeMapping>, code: Seq<char>, i: int)
    requires
        0 <= i <= cs.len(),
    ensures
        spec_find_mapping(cs, code, i) matches Some(k) ==> i <= k < cs.len() && cs[k].code@
            == code,
    decreases cs.len() - i,
{
    if i < cs.len() && cs[i].code@ != code {
        lemma_find_mapping_props(cs, code, i + 1);
    }
}

/// The first menu entry under a name.
fn find_menu_index(ms: &Vec<MenuEntry>, name: &str) -> (r: Option<usize>)
    ensures
        match spec_find_menu(ms@, name@, 0) {
            Some(i) => r matches Some(u) && u as int == i,
            None => r is None,
        },
{
    let n = ms.len();
    let mut i: usize = 0;
    while i < n
        invariant
            n == ms@.len(),
            i <= n,
            spec_find_menu(ms@, name@, 0) == spec_find_menu(ms@, name@, i as int),
        decreases n - i,
    {
        if crate::text::str_eq(ms[i].name.as_str(), name) {
            return Some(i);
        }
        i = i + 1;
    }
    None
}

/// The first option under a key.
fn find_option_index(os: &Vec<MenuOption>, key: &str) -> (r: Option<usize>)
    ensures
        match spec_find_option(os@, key@, 0) {
            Some(i) => r matches Some(u) && u as int == i,
            None => r is None,
        },
{
    let n = os.len();
    let mut i: usize = 0;
    while i < n
        invariant
            n == os@.len(),
            i <= n,
            spec_find_option(os@, key@, 0) == spec_find_option(os@, key@, i as int),
        decreases n - i,
    {
        if crate::text::str_eq(os[i].key.as_str(), key) {
            return Some(i);
        }
        i = i + 1;
    }
    None
}

/// The first response entry under a name.
fn find_response_index(rs: &Vec<ResponseEntry>, name: &str) -> (r: Option<usize>)
    ensures
        match spec_find_response(rs@, name@, 0) {
            Some(i) => r matches Some(u) && u as int == i,
            None => r is None,
        },
{
    let n = rs.len();
    let mut i: usize = 0;
    while i < n
        invariant
            n == rs@.len(),
            i <= n,
            spec_find_response(rs@, name@, 0) == spec_find_response(rs@, name@, i as int),
        decreases n - i,
    {
        if crate::text::str_eq(rs[i].name.as_str(), name) {
            return Some(i);
        }
        i = i + 1;
    }
    None
}

/// The first code mapping for a code.
fn find_mapping_index(cs: &Vec<UssdCodeMapping>, code: &str) -> (r: Option<usize>)
    ensures
        match spec_find_mapping(cs@, code@, 0) {
            Some(i) => r matches Some(u) && u as int == i,
            None => r is None,
        },
{
    let n = cs.len();
    let mut i: usize = 0;
    while i < n
        invariant
            n == cs@.len(),
            i <= n,
            spec_find_mapping(cs@, code@, 0) == spec_find_mapping(cs@, code@, i as int),
        decreases n - i,
    {
        if crate::text::str_eq(cs[i].code.as_str(), code) {
            return Some(i);
        }
        i = i + 1;
    }
    None
}

/// The interpreter that answers forwarded requests from the configured
/// menu tree.
#[derive(Debug)]
pub struct UssdMenuManager {
    pub config: ClientConfig,
}

impl UssdMenuManager {
    /// An interpreter over the given configuration.
    pub fn new(config: ClientConfig) -> (r: UssdMenuManager)
        ensures
            r.config == config,
    {
        UssdMenuManager { config }
    }

    /// Renders a menu at the session's depth.
    pub fn show_menu(&self, session: &UssdSession, menu_name: &str) -> (r: String)
        ensures
            r@ == spec_render_menu(self.config, menu_name@, session@.menu_depth),
    {
        proof {
            lemma_find_menu_props(self.config.menus.menus@, menu_name@, 0);
        }
        let found = find_menu_index(&self.config.menus.menus, menu_name);
        match found {
            Some(mi) => {
                let menu = &self.config.menus.menus[mi].menu;
                let mut r = concat_strs(menu.title.as_str(), "\n\n");
                let n = menu.options.len();
                let mut i: usize = 0;
                while i < n
                    invariant
                        n == menu.options@.len(),
                        i <= n,
                        r@ =~= menu.title@ + "\n\n"@ + spec_option_lines(menu.options@, i as int),
                    decreases n - i,
                {
                    r.append(menu.options[i].key.as_str());
                    r.append(". ");
                    r.append(menu.options[i].text.as_str());
                    r.append("\n");
                    proof {
                        assert(r@ =~= menu.title@ + "\n\n"@ + spec_option_lines(
                            menu.options@,
                            i + 1,
                        ));
                    }
                    i = i + 1;
                }
                if self.config.session.enable_back_navigation && session.menu_depth > 0 {
                    r.append("00. Back");
                }
                proof {
                    assert(r@ =~= spec_render_menu(self.config, menu_name@, session@.menu_depth));
                }
                r
            },
            None => self.config.responses.defaults.system_error.clone(),
        }
    }

    /// Answers a code this handler does not claim.
    pub fn handle_unrecognized_code(&self, ussd_code: &str) -> (r: String)
        ensures
            r@ == spec_unrecognized_text(self.config, ussd_code@),
    {
        let action = self.config.ussd_codes.unrecognized_action.as_str();
        if crate::text::str_eq(action, "reject") {
            let mut r = concat_strs("🚫 USSD code ", ussd_code);
            r.append(" is not supported by this service.\n\n");
            r.append(self.config.ussd_codes.unrecognized_message.as_str());
            proof {
                assert(r@ =~= spec_unrecognized_text(self.config, ussd_code@));
            }
            r
        } else if crate::text::str_eq(action, "default_menu") {
            let mut r = concat_strs("⚠️ USSD code ", ussd_code);
            r.append(" redirected to main menu.\n\n");
            r.append(self.config.ussd_codes.unrecognized_message.as_str());
            proof {
                assert(r@ =~= spec_unrecognized_text(self.config, ussd_code@));
            }
            r
        } else {
            let mut r = concat_strs("🔄 USSD code ", ussd_code);
            r.append(" forwarded to network.\n\n");
            r.append(self.config.ussd_codes.unrecognized_message.as_str());
            proof {
                assert(r@ =~= spec_unrecognized_text(self.config, ussd_code@));
            }
            r
        }
    }

    /// Answers a dialed `*...#` code, resetting the session into the
    /// menu it opens.
    pub fn handle_ussd_code(&self, session: &mut UssdSession, ussd_code: &str) -> (r: String)
        ensures
            ({
                let step = spec_handle_ussd_code(self.config, old(session)@, ussd_code@);
                &&& final(session)@ == step.session
                &&& r@ == step.reply
            }),
    {
        proof {
            lemma_find_mapping_props(self.config.ussd_codes.codes@, ussd_code@, 0);
        }
        let found = find_mapping_index(&self.config.ussd_codes.codes, ussd_code);
        match found {
            Some(i) => {
                let menu_name = self.config.ussd_codes.codes[i].menu.clone();
                session.reset_to_main(menu_name.as_str());
                self.show_menu(session, menu_name.as_str())
            },
            None => {
                if self.config.ussd_codes.handle_codes.len() > 0 && !crate::text::contains_str(
                    &self.config.ussd_codes.handle_codes,
                    ussd_code,
                ) {
                    return self.handle_unrecognized_code(ussd_code);
                }
                let menu_name = self.config.ussd_codes.default_menu.clone();
                session.reset_to_main(menu_name.as_str());
                self.show_menu(session, menu_name.as_str())
            },
        }
    }

    /// Dispatches one matched option by its action.
    pub fn handle_menu_option(&self, session: &mut UssdSession, option: &MenuOption) -> (r:
        String)
        requires
            old(session)@.menu_depth <= u32::MAX,
        ensures
            ({
                let step = spec_handle_option(self.config, old(session)@, *option);
                &&& final(session)@ == step.session
                &&& r@ == step.reply
            }),
    {
        let action = option.action.as_str();
        if crate::text::str_eq(action, "submenu") {
            if option.target.as_str().unicode_len() == 0 {
                return self.config.responses.defaults.system_error.clone();
            }
            if session.menu_depth >= self.config.session.max_menu_depth {
                let mut r = String::from_str("❌ Maximum menu depth reached.\n\n");
                r.append(self.config.responses.defaults.invalid_option.as_str());
                return r;
            }
            session.navigate_to_menu(option.target.as_str());
            self.show_menu(session, option.target.as_str())
        } else if crate::text::str_eq(action, "response") {
            proof {
                lemma_find_response_props(self.config.responses.responses@, option.target@, 0);
            }
            let found = find_response_index(&self.config.responses.responses, option.target.as_str());
            match found {
                Some(i) => self.config.responses.responses[i].text.clone(),
                None => self.config.responses.defaults.system_error.clone(),
            }
        } else if crate::text::str_eq(action, "exit") {
            session.reset_to_main(self.config.menus.default_menu.as_str());
            self.config.responses.defaults.exit_message.clone()
        } else {
            self.config.responses.defaults.system_error.clone()
        }
    }

    /// One whole interpreter turn at a clock reading; the interpreter
    /// keeps the session's structural invariant and its depth bound.
    pub fn process_input_at(&self, session: &mut UssdSession, input: &str, now: u64) -> (r:
        String)
        ensures
            ({
                let step = spec_handler_step(self.config, old(session)@, input@, now);
                &&& final(session)@ == step.session
                &&& r@ == step.reply
            }),
            old(session)@.wf() ==> final(session)@.wf(),
            old(session)@.wf() && old(session)@.menu_depth <= self.config.session.max_menu_depth
                ==> final(session)@.menu_depth <= self.config.session.max_menu_depth,
    {
        let trimmed = crate::text::trim_str(input);
        if session.is_expired_at(self.config.session.timeout_seconds, now) {
            session.reset_to_main(self.config.menus.default_menu.as_str());
            return self.config.responses.defaults.session_timeout.clone();
        }
        if crate::text::is_ussd_code(trimmed) {
            return self.handle_ussd_code(session, trimmed);
        }
        if crate::text::str_eq(trimmed, "00") && self.config.session.enable_back_navigation {
            if session.go_back() {
                let menu_name = session.current_menu.clone();
                return self.show_menu(session, menu_name.as_str());
            } else {
                return self.config.responses.defaults.exit_message.clone();
            }
        }
        proof {
            lemma_find_menu_props(self.config.menus.menus@, old(session)@.current_menu, 0);
        }
        let found = find_menu_index(&self.config.menus.menus, session.current_menu.as_str());
        match found {
            Some(mi) => {
                proof {
                    lemma_find_option_props(
                        self.config.menus.menus@[mi as int].menu.options@,
                        trimmed@,
                        0,
                    );
                }
                let oi = find_option_index(&self.config.menus.menus[mi].menu.options, trimmed);
                match oi {
                    Some(j) => {
                        self.handle_menu_option(
                            session,
                            &self.config.menus.menus[mi].menu.options[j],
                        )
                    },
                    None => {
                        let mut r = concat_strs(
                            self.config.responses.defaults.invalid_option.as_str(),
                            "\n\n",
                        );
                        let menu_name = session.current_menu.clone();
                        let rendered = self.show_menu(session, menu_name.as_str());
                        r.append(rendered.as_str());
                        proof {
                            assert(r@ =~= spec_handler_step(
                                self.config,
                                old(session)@,
                                input@,
                                now,
                            ).reply);
                        }
                        r
                    },
                }
            },
            None => {
                session.reset_to_main(self.config.menus.default_menu.as_str());
                self.config.responses.defaults.system_error.clone()
            },
        }
    }

    /// One whole interpreter turn against some wall-clock reading.
    pub fn process_input(&self, session: &mut UssdSession, input: &str) -> (r: String)
        ensures
            exists|now: u64|
                spec_process_outcome(
                    self.config,
                    old(session)@,
                    final(session)@,
                    input@,
                    r@,
                    now,
                ),
            old(session)@.wf() ==> final(session)@.wf(),
            old(session)@.wf() && old(session)@.menu_depth <= self.config.session.max_menu_depth
                ==> final(session)@.menu_depth <= self.config.session.max_menu_depth,
    {
        let now = now_seconds();
        let r = self.process_input_at(session, input, now);
        proof {
            assert(spec_process_outcome(
                self.config,
                old(session)@,
                final(session)@,
                input@,
                r@,
                now,
            ));
        }
        r
    }

    /// The default menu as first shown to a subscriber.
    pub fn get_welcome_message(&self) -> (r: String)
        ensures
            r@ == spec_render_menu(self.config, self.config.menus.default_menu@, 0),
    {
        let temp = UssdSession::new(String::from_str("temp"));
        self.show_menu(&temp, self.config.menus.default_menu.as_str())
    }

    /// Drops the sessions expired at a clock reading; the rest keep
    /// their order.
    pub fn cleanup_expired_sessions_at(&self, sessions: &mut Vec<UssdSession>, now: u64)
        ensures
            final(sessions).deep_view() =~= spec_live_sessions(
                old(sessions).deep_view(),
                self.config.session.timeout_seconds,
                now,
            ),
    {
        let n = sessions.len();
        let mut kept: Vec<UssdSession> = Vec::new();
        let mut i: usize = 0;
        while i < n
            invariant
                n == sessions@.len(),
                sessions.deep_view().len() == n,
                forall|j: int| 0 <= j < n ==> sessions.deep_view()[j] == sessions@[j]@,
                i <= n,
                kept.deep_view() =~= spec_live_sessions(
                    sessions.deep_view().take(i as int),
                    self.config.session.timeout_seconds,
                    now,
                ),
            decreases n - i,
        {
            let expired = sessions[i].is_expired_at(self.config.session.timeout_seconds, now);
            proof {
                assert(sessions.deep_view().take(i + 1).drop_last() =~= sessions.deep_view().take(
                    i as int,
                ));
                assert(sessions.deep_view().take(i + 1).last() == sessions.deep_view()[i as int]);
            }
            if !expired {
                kept.push(sessions[i].clone());
                proof {
                    assert(kept.deep_view().last() == sessions@[i as int]@);
                    assert(kept.deep_view() =~= spec_live_sessions(
                        sessions.deep_view().take(i + 1),
                        self.config.session.timeout_seconds,
                        now,
                    ));
                }
            }
            i = i + 1;
        }
        proof {
            assert(sessions.deep_view().take(n as int) =~= sessions.deep_view());
        }
        *sessions = kept;
    }

    /// Drops the sessions expired against some wall-clock reading.
    pub fn cleanup_expired_sessions(&self, sessions: &mut Vec<UssdSession>)
        ensures
            exists|now: u64|
                spec_cleanup_outcome(
                    self.config,
                    old(sessions).deep_view(),
                    final(sessions).deep_view(),
                    now,
                ),
    {
        let now = now_seconds();
        self.cleanup_expired_sessions_at(sessions, now);
        proof {
            assert(spec_cleanup_outcome(
                self.config,
                old(sessions).deep_view(),
                final(sessions).deep_view(),
                now,
            ));
        }
    }

    /// The codes this handler serves: the claim list, or every mapped
    /// code when no claim list is set.
    pub fn get_supported_ussd_codes(&self) -> (r: Vec<String>)
        ensures
            self.config.ussd_codes.handle_codes@.len() == 0 ==> r.deep_view() =~= Seq::new(
                self.config.ussd_codes.codes@.len(),
                |i: int| self.config.ussd_codes.codes@[i].code@,
            ),
            self.config.ussd_codes.handle_codes@.len() > 0 ==> r.deep_view()
                =~= self.config.ussd_codes.handle_codes.deep_view(),
    {
        let mut r: Vec<String> = Vec::new();
        if self.config.ussd_codes.handle_codes.len() == 0 {
            let n = self.config.ussd_codes.codes.len();
            let mut i: usize = 0;
            while i < n
                invariant
                    n == self.config.ussd_codes.codes@.len(),
                    i <= n,
                    r@.len() == i,
                    forall|j: int| 0 <= j < i ==> r@[j]@ == self.config.ussd_codes.codes@[j].code@,
                decreases n - i,
            {
                r.push(self.config.ussd_codes.codes[i].code.clone());
                i = i + 1;
            }
            proof {
                assert(r.deep_view() =~= Seq::new(
                    n as nat,
                    |j: int| self.config.ussd_codes.codes@[j].code@,
                ));
            }
            r
        } else {
            let n = self.config.ussd_codes.handle_codes.len();
            let mut i: usize = 0;
            while i < n
                invariant
                    n == self.config.ussd_codes.handle_codes@.len(),
                    i <= n,
                    r@.len() == i,
                    forall|j: int|
                        0 <= j < i ==> r@[j]@ == self.config.ussd_codes.handle_codes@[j]@,
                decreases n - i,
            {
                r.push(self.config.ussd_codes.handle_codes[i].clone());
                i = i + 1;
            }
            proof {
                assert(r.deep_view() =~= self.config.ussd_codes.handle_codes.deep_view());
            }
            r
        }
    }

    /// The description of a mapped code, if one is mapped.
    pub fn get_ussd_code_description(&self, code: &str) -> (r: Option<String>)
        ensures
            match spec_find_mapping(self.config.ussd_codes.codes@, code@, 0) {
                Some(i) => r matches Some(d) && d@ == self.config.ussd_codes.codes@[i].description@,
                None => r is None,
            },
    {
        proof {
            lemma_find_mapping_props(self.config.ussd_codes.codes@, code@, 0);
        }
        let found = find_mapping_index(&self.config.ussd_codes.codes, code);
        match found {
            Some(i) => Some(self.config.ussd_codes.codes[i].description.clone()),
            None => None,
        }
    }
}

/// One interpreter turn's outcome at a clock reading: the session
/// after it and the reply are the step's.
pub open spec fn spec_process_outcome(
    cfg: ClientConfig,
    pre: HandlerSessionModel,
    post: HandlerSessionModel,
    input: Seq<char>,
    reply: Seq<char>,
    now: u64,
) -> bool {
    let step = spec_handler_step(cfg, pre, input, now);
    post == step.session && reply == step.reply
}

/// A cleanup outcome at a clock reading: exactly the live sessions
/// stay, in order.
pub open spec fn spec_cleanup_outcome(
    cfg: ClientConfig,
    pre: Seq<HandlerSessionModel>,
    post: Seq<HandlerSessionModel>,
    now: u64,
) -> bool {
    post =~= spec_live_sessions(pre, cfg.session.timeout_seconds, now)
}

impl Default for ClientConfig {
    /// The stock handler configuration: one `main` menu with a
    /// services response and an exit, and a 300-second session with
    /// depth 10 and back navigation.
    fn default() -> (r: ClientConfig)
        ensures
            r.client.system_id@ == "ForwardingClient"@,
            r.client.password@ == "forward123"@,
            r.menus.default_menu@ == "main"@,
            r.menus.menus@.len() == 1,
            r.menus.menus@[0].name@ == "main"@,
            r.menus.menus@[0].menu.title@ == "🏠 Main Menu"@,
            r.menus.menus@[0].menu.options@.len() == 2,
            r.menus.menus@[0].menu.options@[0].key@ == "1"@,
            r.menus.menus@[0].menu.options@[0].action@ == "response"@,
            r.menus.menus@[0].menu.options@[0].target@ == "services"@,
            r.menus.menus@[0].menu.options@[1].key@ == "0"@,
            r.menus.menus@[0].menu.options@[1].action@ == "exit"@,
            r.responses.responses@.len() == 1,
            r.responses.responses@[0].name@ == "services"@,
            r.responses.defaults.invalid_option@ == "❌ Invalid option. Please try again."@,
            r.responses.defaults.session_timeout@ == "⏰ Session timeout. Please try again."@,
            r.responses.defaults.system_error@ == "🔧 System error. Please try again later."@,
            r.responses.defaults.exit_message@ == "👋 Goodbye!"@,
            r.ussd_codes.default_menu@ == "main"@,
            r.ussd_codes.codes@.len() == 0,
            r.ussd_codes.handle_codes@.len() == 0,
            r.ussd_codes.unrecognized_action@ == "response"@,
            r.session.timeout_seconds == 300,
            r.session.max_menu_depth == 10,
            r.session.enable_back_navigation,
            !r.session.remember_last_menu,
    {
        let mut options: Vec<MenuOption> = Vec::new();
        options.push(
            MenuOption {
                key: String::from_str("1"),
                text: String::from_str("💰 Services"),
                action: String::from_str("response"),
                target: String::from_str("services"),
            },
        );
        options.push(
            MenuOption {
                key: String::from_str("0"),
                text: String::from_str("❌ Exit"),
                action: String::from_str("exit"),
                target: String::new(),
            },
        );
        let mut menus: Vec<MenuEntry> = Vec::new();
        menus.push(
            MenuEntry {
                name: String::from_str("main"),
                menu: MenuConfig { title: String::from_str("🏠 Main Menu"), options },
            },
        );
        let mut responses: Vec<ResponseEntry> = Vec::new();
        responses.push(
            ResponseEntry {
                name: String::from_str("services"),
                text: String::from_str(
                    "💰 Services available:\n\n1. Account Info\n2. Transactions\n3. Support\n\nReply with your choice.",
                ),
            },
        );
        ClientConfig {
            client: ClientSettings {
                host: String::from_str("127.0.0.1"),
                port: 2775,
                system_id: String::from_str("ForwardingClient"),
                password: String::from_str("forward123"),
                bind_type: String::from_str("transceiver"),
                auto_reconnect: true,
                heartbeat_interval: 30,
            },
            logging: LoggingConfig { level: String::from_str("info"), debug: false },
            ussd_codes: UssdCodeConfig {
                default_menu: String::from_str("main"),
                codes: Vec::new(),
                handle_codes: Vec::new(),
                unrecognized_action: String::from_str("response"),
                unrecognized_message: String::from_str(
                    "🔍 Unrecognized USSD code. Please try again.",
                ),
            },
            menus: MenuConfigs { default_menu: String::from_str("main"), menus },
            responses: ResponseConfigs {
                responses,
                defaults: DefaultResponses {
                    invalid_option: String::from_str("❌ Invalid option. Please try again."),
                    session_timeout: String::from_str("⏰ Session timeout. Please try again."),
                    system_error: String::from_str("🔧 System error. Please try again later."),
                    exit_message: String::from_str("👋 Goodbye!"),
                },
            },
            session: SessionConfig {
                timeout_seconds: 300,
                max_menu_depth: 10,
                enable_back_navigation: true,
                remember_last_menu: false,
            },
        }
    }
}

/// A handler session as first created for a subscriber.
pub open spec fn spec_fresh_handler_session(msisdn: Seq<char>, now: u64) -> HandlerSessionModel {
    HandlerSessionModel {
        msisdn,
        session_id: spec_handler_session_id(now),
        current_menu: "main"@,
        menu_history: Seq::empty(),
        last_activity: now,
        menu_depth: 0,
        data: Seq::empty(),
    }
}

/// The first session index at or after `i` under the MSISDN.
pub open spec fn spec_find_handler_session(
    ss: Seq<HandlerSessionModel>,
    msisdn: Seq<char>,
    i: int,
) -> Option<int>
    decreases ss.len() - i,
{
    if i < 0 || i >= ss.len() {
        None
    } else if ss[i].msisdn == msisdn {
        Some(i)
    } else {
        spec_find_handler_session(ss, msisdn, i + 1)
    }
}

/// A found session index lies in range and carries the sought MSISDN.
pub proof fn lemma_find_handler_session_props(
    ss: Seq<HandlerSessionModel>,
    msisdn: Seq<char>,
    i: int,
)
    requires
        0 <= i <= ss.len(),
    ensures
        spec_find_handler_session(ss, msisdn, i) matches Some(k) ==> i <= k < ss.len()
            && ss[k].msisdn == msisdn,
    decreases ss.len() - i,
{
    if i < ss.len() && ss[i].msisdn != msisdn {
        lemma_find_handler_session_props(ss, msisdn, i + 1);
    }
}

/// The first stored session under the MSISDN.
fn find_handler_session_index(v: &Vec<UssdSession>, msisdn: &str) -> (r: Option<usize>)
    ensures
        match spec_find_handler_session(v.deep_view(), msisdn@, 0) {
            Some(i) => r matches Some(u) && u as int == i,
            None => r is None,
        },
{
    let n = v.len();
    let mut i: usize = 0;
    while i < n
        invariant
            n == v@.len(),
            v.deep_view().len() == n,
            forall|j: int| 0 <= j < n ==> v.deep_view()[j] == v@[j]@,
            i <= n,
            spec_find_handler_session(v.deep_view(), msisdn@, 0) == spec_find_handler_session(
                v.deep_view(),
                msisdn@,
                i as int,
            ),
        decreases n - i,
    {
        if crate::text::str_eq(v[i].msisdn.as_str(), msisdn) {
            proof {
                assert(v.deep_view()[i as int].msisdn == msisdn@);
            }
            return Some(i);
        }
        proof {
            assert(v.deep_view()[i as int].msisdn != msisdn@);
        }
        i = i + 1;
    }
    None
}

/// The outcome of one forwarded request at a clock reading: the
/// subscriber's session — found under its MSISDN or freshly created —
/// takes one interpreter step and is stamped with the clock, and the
/// reply is the step's.
pub open spec fn spec_request_outcome(
    cfg: ClientConfig,
    pre: Seq<HandlerSessionModel>,
    post: Seq<HandlerSessionModel>,
    msisdn: Seq<char>,
    code: Seq<char>,
    reply: Seq<char>,
    now: u64,
) -> bool {
    let found = spec_find_handler_session(pre, msisdn, 0);
    let base = match found {
        Some(i) => pre[i],
        None => spec_fresh_handler_session(msisdn, now),
    };
    let step = spec_handler_step(cfg, base, code, now);
    let s2 = HandlerSessionModel { last_activity: now, ..step.session };
    &&& post =~= (match found {
        Some(i) => pre.update(i, s2),
        None => pre.push(s2),
    })
    &&& reply == step.reply
}

impl UssdMenuManager {
    /// Answers one forwarded request at a clock reading: looks the
    /// subscriber's session up or creates it, runs one interpreter
    /// turn, and stamps the session.
    pub fn process_ussd_request_at(
        &self,
        sessions: &mut Vec<UssdSession>,
        msisdn: &str,
        ussd_code: &str,
        now: u64,
    ) -> (r: String)
        ensures
            spec_request_outcome(
                self.config,
                old(sessions).deep_view(),
                final(sessions).deep_view(),
                msisdn@,
                ussd_code@,
                r@,
                now,
            ),
    {
        let ghost pre = sessions.deep_view();
        proof {
            lemma_find_handler_session_props(pre, msisdn@, 0);
        }
        let found = find_handler_session_index(sessions, msisdn);
        let idx: usize = match found {
            Some(i) => i,
            None => {
                let fresh = UssdSession::new_at(String::from_str(msisdn), now);
                proof {
                    assert(fresh@ =~= spec_fresh_handler_session(msisdn@, now));
                }
                sessions.push(fresh);
                sessions.len() - 1
            },
        };
        let ghost base = match spec_find_handler_session(pre, msisdn@, 0) {
            Some(i) => pre[i],
            None => spec_fresh_handler_session(msisdn@, now),
        };
        proof {
            assert(sessions@[idx as int]@ == base);
        }
        let reply = self.process_input_at(&mut sessions[idx], ussd_code, now);
        let session = &mut sessions[idx];
        session.last_activity = now;
        proof {
            let step = spec_handler_step(self.config, base, ussd_code@, now);
            let s2 = HandlerSessionModel { last_activity: now, ..step.session };
            assert(sessions@[idx as int]@ =~= s2);
            assert(sessions.deep_view() =~= (match spec_find_handler_session(pre, msisdn@, 0) {
                Some(i) => pre.update(i, s2),
                None => pre.push(s2),
            }));
        }
        reply
    }

    /// Answers one forwarded request against some wall-clock reading.
    pub fn process_ussd_request(
        &self,
        sessions: &mut Vec<UssdSession>,
        msisdn: &str,
        ussd_code: &str,
    ) -> (r: String)
        ensures
            exists|now: u64|
                spec_request_outcome(
                    self.config,
                    old(sessions).deep_view(),
                    final(sessions).deep_view(),
                    msisdn@,
                    ussd_code@,
                    r@,
                    now,
                ),
    {
        let now = now_seconds();
        let r = self.process_ussd_request_at(sessions, msisdn, ussd_code, now);
        proof {
            assert(spec_request_outcome(
                self.config,
                old(sessions).deep_view(),
                final(sessions).deep_view(),
                msisdn@,
                ussd_code@,
                r@,
                now,
            ));
        }
        r
    }
}

/// A handler message id: `FCLIENT`, the epoch seconds, and the counter
/// as at least four digits.
pub open spec fn spec_fclient_message_id(now: u64, counter: u32) -> Seq<char> {
    "FCLIENT"@ + crate::text::spec_dec_digits(now as nat) + crate::text::spec_pad4(counter as nat)
}

/// Builds a handler message id.
pub fn generate_message_id(now: u64, counter: u32) -> (r: String)
    ensures
        r@ == spec_fclient_message_id(now, counter),
{
    let mut r = String::from_str("FCLIENT");
    let secs = u64_to_dec(now);
    r.append(secs.as_str());
    let ctr = crate::text::u64_to_pad4(counter as u64);
    r.append(ctr.as_str());
    proof {
        assert(r@ =~= spec_fclient_message_id(now, counter));
    }
    r
}

/// A parsed SUBMIT_SM body, as the handler reads a forwarded request.
#[derive(Clone, Debug)]
pub struct SubmitSm {
    pub service_type: String,
    pub source_addr_ton: u8,
    pub source_addr_npi: u8,
    pub source_addr: String,
    pub dest_addr_ton: u8,
    pub dest_addr_npi: u8,
    pub destination_addr: String,
    pub esm_class: u8,
    pub protocol_id: u8,
    pub priority_flag: u8,
    pub schedule_delivery_time: String,
    pub validity_period: String,
    pub registered_delivery: u8,
    pub replace_if_present_flag: u8,
    pub data_coding: u8,
    pub sm_default_msg_id: u8,
    pub sm_length: u8,
    pub short_message: Vec<u8>,
}

impl SubmitSm {
    /// The parsed PDU presents exactly the given body model.
    pub open spec fn matches_model(self, m: crate::codec::SmBodyModel) -> bool {
        &&& self.service_type@ == crate::text::lossy_utf8(m.service_type)
        &&& self.source_addr_ton == m.source_addr_ton
        &&& self.source_addr_npi == m.source_addr_npi
        &&& self.source_addr@ == crate::text::lossy_utf8(m.source_addr)
        &&& self.dest_addr_ton == m.dest_addr_ton
        &&& self.dest_addr_npi == m.dest_addr_npi
        &&& self.destination_addr@ == crate::text::lossy_utf8(m.destination_addr)
        &&& self.esm_class == m.esm_class
        &&& self.protocol_id == m.protocol_id
        &&& self.priority_flag == m.priority_flag
        &&& self.schedule_delivery_time@ == crate::text::lossy_utf8(m.schedule_delivery_time)
        &&& self.validity_period@ == crate::text::lossy_utf8(m.validity_period)
        &&& self.registered_delivery == m.registered_delivery
        &&& self.replace_if_present_flag == m.replace_if_present_flag
        &&& self.data_coding == m.data_coding
        &&& self.sm_default_msg_id == m.sm_default_msg_id
        &&& self.sm_length == m.sm_length
        &&& self.short_message@ == m.short_message
    }
}

/// Parses a forwarded SUBMIT_SM body.
pub fn parse_submit_sm(body: &[u8]) -> (r: Result<SubmitSm, crate::codec::CodecError>)
    ensures
        crate::codec::spec_parse_sm_body(body@) matches Ok(m) ==> (r matches Ok(p)
            && p.matches_model(m)),
        crate::codec::spec_parse_sm_body(body@) matches Err(e) ==> (r matches Err(e2) && e2 == e),
{
    let f = crate::codec::parse_sm_fields(body)?;
    Ok(
        SubmitSm {
            service_type: f.service_type,
            source_addr_ton: f.source_addr_ton,
            source_addr_npi: f.source_addr_npi,
            source_addr: f.source_addr,
            dest_addr_ton: f.dest_addr_ton,
            dest_addr_npi: f.dest_addr_npi,
            destination_addr: f.destination_addr,
            esm_class: f.esm_class,
            protocol_id: f.protocol_id,
            priority_flag: f.priority_flag,
            schedule_delivery_time: f.schedule_delivery_time,
            validity_period: f.validity_period,
            registered_delivery: f.registered_delivery,
            replace_if_present_flag: f.replace_if_present_flag,
            data_coding: f.data_coding,
            sm_default_msg_id: f.sm_default_msg_id,
            sm_length: f.sm_length,
            short_message: f.short_message,
        },
    )
}

/// The outcome of one whole forwarded SUBMIT_SM turn: the response
/// with a fresh handler message id under the request's sequence
/// number, then the DELIVER_SM reply from `FORWARD` to the subscriber
/// under the stepped counter.
pub open spec fn spec_handle_submit_outcome(
    cfg: ClientConfig,
    pre_sessions: Seq<HandlerSessionModel>,
    post_sessions: Seq<HandlerSessionModel>,
    pre_counter: u32,
    post_counter: u32,
    pdu: crate::codec::PduModel,
    sm: crate::codec::SmBodyModel,
    now: u64,
    outs: Seq<crate::codec::PduModel>,
) -> bool {
    let msisdn = crate::text::lossy_utf8(sm.source_addr);
    let code = crate::text::lossy_utf8(sm.short_message);
    let c1 = crate::router::spec_next_seq(pre_counter);
    let c2 = crate::router::spec_next_seq(c1);
    &&& post_counter == c2
    &&& outs.len() == 2
    &&& outs[0].command_id == crate::codec::SUBMIT_SM_RESP
    &&& outs[0].command_status == crate::codec::ESME_ROK
    &&& outs[0].sequence_number == pdu.sequence_number
    &&& outs[0].body == crate::codec::spec_cstr(
        vstd::utf8::encode_utf8(spec_fclient_message_id(now, c1)),
    )
    &&& outs[0].command_length == crate::codec::spec_frame_len(outs[0].body.len())
    &&& exists|reply: Seq<char>|
        {
            &&& #[trigger] spec_request_outcome(
                cfg,
                pre_sessions,
                post_sessions,
                msisdn,
                code,
                reply,
                now,
            )
            &&& outs[1].command_id == crate::codec::DELIVER_SM
            &&& outs[1].command_status == crate::codec::ESME_ROK
            &&& outs[1].sequence_number == c2
            &&& outs[1].body == crate::codec::spec_ussd_sm_body(
                1,
                1,
                vstd::utf8::encode_utf8("FORWARD"@),
                1,
                1,
                vstd::utf8::encode_utf8(msisdn),
                crate::codec::spec_truncate_sm(vstd::utf8::encode_utf8(reply)),
            )
            &&& outs[1].command_length == crate::codec::spec_frame_len(outs[1].body.len())
        }
}

impl UssdMenuManager {
    /// One whole forwarded SUBMIT_SM turn at a clock reading: parse,
    /// acknowledge, interpret, reply. A truncated body is refused with
    /// nothing changed.
    pub fn handle_submit_sm(
        &self,
        sessions: &mut Vec<UssdSession>,
        counter: &mut u32,
        pdu: &crate::codec::SmppPdu,
        now: u64,
    ) -> (r: Result<Vec<crate::codec::SmppPdu>, crate::codec::CodecError>)
        ensures
            crate::codec::spec_parse_sm_body(pdu@.body) matches Err(e) ==> (r matches Err(e2)
                && e2 == e && final(sessions)@ == old(sessions)@ && *final(counter) == *old(
                counter,
            )),
            crate::codec::spec_parse_sm_body(pdu@.body) matches Ok(sm) ==> (r matches Ok(outs)
                && spec_handle_submit_outcome(
                self.config,
                old(sessions).deep_view(),
                final(sessions).deep_view(),
                *old(counter),
                *final(counter),
                pdu@,
                sm,
                now,
                outs.deep_view(),
            )),
    {
        let submit = match parse_submit_sm(pdu.body.as_slice()) {
            Ok(s) => s,
            Err(e) => {
                return Err(e);
            },
        };
        let c1: u32 = if *counter == u32::MAX {
            0
        } else {
            *counter + 1
        };
        *counter = c1;
        let mid = generate_message_id(now, c1);
        let resp = crate::codec::make_pdu(
            crate::codec::SUBMIT_SM_RESP,
            crate::codec::ESME_ROK,
            pdu.header.sequence_number,
            crate::codec::build_cstr_body(mid.as_str()),
        );
        let msisdn = submit.source_addr;
        let code = crate::text::bytes_to_text(submit.short_message.as_slice());
        let reply = self.process_ussd_request_at(sessions, msisdn.as_str(), code.as_str(), now);
        let c2: u32 = if *counter == u32::MAX {
            0
        } else {
            *counter + 1
        };
        *counter = c2;
        let body = crate::codec::build_ussd_sm_body(
            1,
            1,
            "FORWARD",
            1,
            1,
            msisdn.as_str(),
            reply.as_str().as_bytes(),
        );
        let deliver = crate::codec::make_pdu(
            crate::codec::DELIVER_SM,
            crate::codec::ESME_ROK,
            c2,
            body,
        );
        let mut outs: Vec<crate::codec::SmppPdu> = Vec::new();
        outs.push(resp);
        outs.push(deliver);
        proof {
            assert(spec_request_outcome(
                self.config,
                old(sessions).deep_view(),
                final(sessions).deep_view(),
                msisdn@,
                code@,
                reply@,
                now,
            ));
            assert(outs.deep_view().len() == 2);
        }
        Ok(outs)
    }
}

impl UssdMenuManager {
    /// Dispatches one PDU the handler reads from the gateway: a
    /// forwarded SUBMIT_SM runs a whole turn, ENQUIRE_LINK and UNBIND
    /// are answered, and everything else is discarded. The flag says
    /// whether the message loop goes on; only UNBIND ends it.
    pub fn process_pdu(
        &self,
        sessions: &mut Vec<UssdSession>,
        counter: &mut u32,
        pdu: &crate::codec::SmppPdu,
        now: u64,
    ) -> (r: Result<(Vec<crate::codec::SmppPdu>, bool), crate::codec::CodecError>)
        ensures
            ({
                let cmd = pdu@.command_id;
                &&& cmd == crate::codec::SUBMIT_SM ==> (match crate::codec::spec_parse_sm_body(
                    pdu@.body,
                ) {
                    Err(e) => r matches Err(e2) && e2 == e && final(sessions)@ == old(sessions)@
                        && *final(counter) == *old(counter),
                    Ok(sm) => r matches Ok(p) && p.1 && spec_handle_submit_outcome(
                        self.config,
                        old(sessions).deep_view(),
                        final(sessions).deep_view(),
                        *old(counter),
                        *final(counter),
                        pdu@,
                        sm,
                        now,
                        p.0.deep_view(),
                    ),
                })
                &&& cmd == crate::codec::ENQUIRE_LINK ==> (r matches Ok(p) && p.1
                    && p.0.deep_view().len() == 1 && p.0.deep_view()[0].command_id
                    == crate::codec::ENQUIRE_LINK_RESP && p.0.deep_view()[0].command_status
                    == crate::codec::ESME_ROK && p.0.deep_view()[0].sequence_number
                    == pdu@.sequence_number && p.0.deep_view()[0].body.len() == 0
                    && final(sessions)@ == old(sessions)@ && *final(counter) == *old(counter))
                &&& cmd == crate::codec::UNBIND ==> (r matches Ok(p) && !p.1
                    && p.0.deep_view().len() == 1 && p.0.deep_view()[0].command_id
                    == crate::codec::UNBIND_RESP && p.0.deep_view()[0].sequence_number
                    == pdu@.sequence_number && final(sessions)@ == old(sessions)@
                    && *final(counter) == *old(counter))
                &&& (cmd != crate::codec::SUBMIT_SM && cmd != crate::codec::ENQUIRE_LINK && cmd
                    != crate::codec::UNBIND) ==> (r matches Ok(p) && p.1 && p.0.deep_view().len()
                    == 0 && final(sessions)@ == old(sessions)@ && *final(counter) == *old(counter))
            }),
    {
        let cmd = pdu.header.command_id;
        if cmd == crate::codec::SUBMIT_SM {
            let outs = self.handle_submit_sm(sessions, counter, pdu, now)?;
            Ok((outs, true))
        } else if cmd == crate::codec::ENQUIRE_LINK {
            let resp = crate::codec::make_pdu(
                crate::codec::ENQUIRE_LINK_RESP,
                crate::codec::ESME_ROK,
                pdu.header.sequence_number,
                Vec::new(),
            );
            let mut outs: Vec<crate::codec::SmppPdu> = Vec::new();
            outs.push(resp);
            Ok((outs, true))
        } else if cmd == crate::codec::UNBIND {
            let resp = crate::codec::make_pdu(
                crate::codec::UNBIND_RESP,
                crate::codec::ESME_ROK,
                pdu.header.sequence_number,
                Vec::new(),
            );
            let mut outs: Vec<crate::codec::SmppPdu> = Vec::new();
            outs.push(resp);
            Ok((outs, false))
        } else {
            let outs: Vec<crate::codec::SmppPdu> = Vec::new();
            Ok((outs, true))
        }
    }
}

/// The sessions not yet expired at a clock reading, in their order.
pub open spec fn spec_live_sessions(
    ss: Seq<HandlerSessionModel>,
    timeout: u64,
    now: u64,
) -> Seq<HandlerSessionModel>
    decreases ss.len(),
{
    if ss.len() == 0 {
        Seq::empty()
    } else {
        let rest = spec_live_sessions(ss.drop_last(), timeout, now);
        if spec_expired(ss.last().last_activity, timeout, now) {
            rest
        } else {
            rest.push(ss.last())
        }
    }
}

} // verus!
