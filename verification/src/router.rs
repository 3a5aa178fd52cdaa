//! The gateway core: the connection registry with its role
//! classification, the response-disposition policy, and the per-PDU
//! routing engine that turns each inbound PDU into the PDUs to send
//! and the new gateway state.

use vstd::prelude::*;
use vstd::string::StringSliceAdditionalSpecFns;
use vstd::utf8::encode_utf8;

use crate::codec;
use crate::codec::CodecError;
use crate::codec::PduModel;
use crate::codec::SmppPdu;
use crate::codec::spec_cstr;
use crate::codec::spec_cstr_at;
use crate::codec::spec_after_cstr;
use crate::codec::spec_parse_sm_body;
use crate::codec::spec_frame_len;
use crate::codec::spec_truncate_sm;
use crate::codec::spec_ussd_sm_body;
use crate::config::Config;
use crate::config::ResponsePercentageConfig;
use crate::dialog::UssdSession;
use crate::dialog::UssdSessionModel;
use crate::dialog::UssdState;
use crate::dialog::generate_ussd_response;
use crate::dialog::spec_gateway_step;
use crate::text::spec_dec_digits;
use crate::text::spec_is_ussd_code;
use crate::text::lossy_utf8;
use crate::text::spec_pad4;
use crate::text::bytes_to_text;
use crate::text::is_ussd_code;
use crate::text::str_eq;
use crate::text::contains_str;
use crate::text::spec_contains_str;
use crate::text::u64_to_dec;
use crate::text::u64_to_pad4;
use crate::text::concat_strs;

verus! {

/// One bound peer in the routing table.
#[derive(Debug)]
pub struct Session {
    pub system_id: String,
    pub password: String,
    pub bound: bool,
    pub bind_type: u32,
    pub can_receive_forwards: bool,
    pub is_user_client: bool,
    pub connection_id: Option<String>,
}

/// The mathematical value of a routing-table entry.
#[verifier::ext_equal]
pub struct SessionModel {
    pub system_id: Seq<char>,
    pub password: Seq<char>,
    pub bound: bool,
    pub bind_type: u32,
    pub can_receive_forwards: bool,
    pub is_user_client: bool,
    pub connection_id: Option<Seq<char>>,
}

impl View for Session {
    type V = SessionModel;

    open spec fn view(&self) -> SessionModel {
        SessionModel {
            system_id: self.system_id@,
            password: self.password@,
            bound: self.bound,
            bind_type: self.bind_type,
            can_receive_forwards: self.can_receive_forwards,
            is_user_client: self.is_user_client,
            connection_id: match self.connection_id {
                Some(c) => Some(c@),
                None => None,
            },
        }
    }
}

impl DeepView for Session {
    type V = SessionModel;

    open spec fn deep_view(&self) -> SessionModel {
        self.view()
    }
}

impl Clone for Session {
    /// A copy that carries the same entry.
    fn clone(&self) -> (r: Session)
        ensures
            r@ == self@,
    {
        Session {
            system_id: self.system_id.clone(),
            password: self.password.clone(),
            bound: self.bound,
            bind_type: self.bind_type,
            can_receive_forwards: self.can_receive_forwards,
            is_user_client: self.is_user_client,
            connection_id: match &self.connection_id {
                Some(c) => Some(c.clone()),
                None => None,
            },
        }
    }
}

/// What the disposition policy decides for one inbound SUBMIT_SM.
#[derive(Clone, Copy, Debug, PartialEq, Eq, Structural)]
pub enum ResponseType {
    Success,
    Failure,
    NoResponse,
}

/// The disposition of a draw in `[0, 10000)` under the configured
/// shares, both in hundredths of a percent: Success below the success
/// share, Failure below the success and failure shares together,
/// NoResponse above both.
pub open spec fn spec_disposition(draw: u32, success: u32, failure: u32) -> ResponseType {
    if (draw as int) < success as int {
        ResponseType::Success
    } else if (draw as int) < success as int + failure as int {
        ResponseType::Failure
    } else {
        ResponseType::NoResponse
    }
}

/// Buckets one draw under the configured disposition shares.
pub fn determine_response_type(draw: u32, rp: &ResponsePercentageConfig) -> (r: ResponseType)
    ensures
        r == spec_disposition(draw, rp.success_percentage, rp.failure_percentage),
{
    if (draw as u64) < rp.success_percentage as u64 {
        ResponseType::Success
    } else if (draw as u64) < rp.success_percentage as u64 + rp.failure_percentage as u64 {
        ResponseType::Failure
    } else {
        ResponseType::NoResponse
    }
}

/// With the whole probability mass on failure, every draw is a Failure.
pub proof fn lemma_all_failure_disposition(draw: u32, failure: u32)
    ensures
        spec_disposition(draw, 0, failure) == (if (draw as int) < failure as int {
            ResponseType::Failure
        } else {
            ResponseType::NoResponse
        }),
{
}

/// A routing entry that can receive a gateway reply: a bound user
/// client with a live connection.
pub open spec fn spec_is_user_entry(s: SessionModel) -> bool {
    s.is_user_client && s.bound && s.connection_id is Some
}

/// A routing entry that can receive a forwarded request: a bound
/// non-user peer that claims forwards, with a live connection.
pub open spec fn spec_is_forward_entry(s: SessionModel) -> bool {
    s.can_receive_forwards && s.bound && !s.is_user_client && s.connection_id is Some
}

/// The first index at or after `i` whose entry can receive replies.
pub open spec fn spec_first_user(ss: Seq<SessionModel>, i: int) -> Option<int>
    decreases ss.len() - i,
{
    if i < 0 || i >= ss.len() {
        None
    } else if spec_is_user_entry(ss[i]) {
        Some(i)
    } else {
        spec_first_user(ss, i + 1)
    }
}

/// The first index at or after `i` whose entry can receive forwards.
pub open spec fn spec_first_forward(ss: Seq<SessionModel>, i: int) -> Option<int>
    decreases ss.len() - i,
{
    if i < 0 || i >= ss.len() {
        None
    } else if spec_is_forward_entry(ss[i]) {
        Some(i)
    } else {
        spec_first_forward(ss, i + 1)
    }
}

/// The first index whose entry carries the given system id.
pub open spec fn spec_find_system(ss: Seq<SessionModel>, sid: Seq<char>, i: int) -> Option<int>
    decreases ss.len() - i,
{
    if i < 0 || i >= ss.len() {
        None
    } else if ss[i].system_id == sid {
        Some(i)
    } else {
        spec_find_system(ss, sid, i + 1)
    }
}

/// A found index lies in range and carries the system id it was
/// sought under.
pub proof fn lemma_find_system_props(ss: Seq<SessionModel>, sid: Seq<char>, i: int)
    requires
        0 <= i <= ss.len(),
    ensures
        spec_find_system(ss, sid, i) matches Some(k) ==> i <= k < ss.len() && ss[k].system_id
            == sid,
    decreases ss.len() - i,
{
    if i < ss.len() && ss[i].system_id != sid {
        lemma_find_system_props(ss, sid, i + 1);
    }
}

/// Where a PDU produced by the router is to be written: back on the
/// connection it arrived on, or on the named registered connection.
#[derive(Clone, Debug)]
pub enum OutboundTarget {
    Origin,
    Connection(String),
}

/// One PDU the router asks its caller to send.
#[derive(Clone, Debug)]
pub struct Outbound {
    pub target: OutboundTarget,
    pub pdu: SmppPdu,
}

/// The mathematical value of an outbound instruction's target.
pub enum OutboundTargetModel {
    Origin,
    Connection(Seq<char>),
}

/// The mathematical value of an outbound instruction.
#[verifier::ext_equal]
pub struct OutboundModel {
    pub target: OutboundTargetModel,
    pub pdu: PduModel,
}

impl View for Outbound {
    type V = OutboundModel;

    open spec fn view(&self) -> OutboundModel {
        OutboundModel {
            target: match self.target {
                OutboundTarget::Origin => OutboundTargetModel::Origin,
                OutboundTarget::Connection(c) => OutboundTargetModel::Connection(c@),
            },
            pdu: self.pdu@,
        }
    }
}

impl DeepView for Outbound {
    type V = OutboundModel;

    open spec fn deep_view(&self) -> OutboundModel {
        self.view()
    }
}

/// The gateway's whole routing state: its configuration, the bind
/// registry, the per-subscriber dialog sessions, and the shared
/// sequence counter for server-originated PDUs.
#[derive(Debug)]
pub struct UssdSmppServer {
    pub config: Config,
    pub sessions: Vec<Session>,
    pub ussd_sessions: Vec<UssdSession>,
    pub sequence_counter: u32,
}

/// The mathematical value of the gateway state.
#[verifier::ext_equal]
pub struct ServerModel {
    pub config: Config,
    pub sessions: Seq<SessionModel>,
    pub ussd_sessions: Seq<UssdSessionModel>,
    pub sequence_counter: u32,
}

impl View for UssdSmppServer {
    type V = ServerModel;

    open spec fn view(&self) -> ServerModel {
        ServerModel {
            config: self.config,
            sessions: self.sessions.deep_view(),
            ussd_sessions: self.ussd_sessions.deep_view(),
            sequence_counter: self.sequence_counter,
        }
    }
}

/// The 32-bit sequence counter after one step: it wraps at the top.
pub open spec fn spec_next_seq(c: u32) -> u32 {
    if c == u32::MAX {
        0
    } else {
        (c + 1) as u32
    }
}

/// A message id: `USSD`, the epoch seconds, and the counter as at
/// least four digits.
pub open spec fn spec_message_id(now: u64, counter: u32) -> Seq<char> {
    "USSD"@ + spec_dec_digits(now as nat) + spec_pad4(counter as nat)
}

/// A dialog session id: `SESS` and the epoch seconds.
pub open spec fn spec_session_id(now: u64) -> Seq<char> {
    "SESS"@ + spec_dec_digits(now as nat)
}

/// The first index at or after `i` whose dialog session carries the
/// given MSISDN.
pub open spec fn spec_find_ussd(ss: Seq<UssdSessionModel>, msisdn: Seq<char>, i: int) -> Option<
    int,
>
    decreases ss.len() - i,
{
    if i < 0 || i >= ss.len() {
        None
    } else if ss[i].msisdn == msisdn {
        Some(i)
    } else {
        spec_find_ussd(ss, msisdn, i + 1)
    }
}

/// A dialog session as first created for a subscriber.
pub open spec fn spec_fresh_session(msisdn: Seq<char>, now: u64) -> UssdSessionModel {
    UssdSessionModel {
        msisdn,
        session_id: spec_session_id(now),
        state: UssdState::Initial,
        menu_level: 0,
        last_request: Seq::empty(),
    }
}

/// The registry after a bind of `entry.system_id`: the entry replaces
/// one bound under the same system id, or is appended.
pub open spec fn spec_upsert_session(ss: Seq<SessionModel>, entry: SessionModel) -> Seq<
    SessionModel,
> {
    match spec_find_system(ss, entry.system_id, 0) {
        Some(i) => ss.update(i, entry),
        None => ss.push(entry),
    }
}

/// The registry after a disconnect: every entry bound to the given
/// connection is gone, the rest keep their order.
pub open spec fn spec_remove_conn(ss: Seq<SessionModel>, conn: Seq<char>) -> Seq<SessionModel>
    decreases ss.len(),
{
    if ss.len() == 0 {
        Seq::empty()
    } else {
        let rest = spec_remove_conn(ss.drop_last(), conn);
        if ss.last().connection_id == Some(conn) {
            rest
        } else {
            rest.push(ss.last())
        }
    }
}

/// An empty-bodied response PDU answering the given sequence number.
pub open spec fn spec_plain_resp(pdu: PduModel, resp: PduModel, cmd: u32) -> bool {
    &&& resp.command_length == 16
    &&& resp.command_id == cmd
    &&& resp.command_status == codec::ESME_ROK
    &&& resp.sequence_number == pdu.sequence_number
    &&& resp.body.len() == 0
}

/// The effect of a bind request: a response under the mirrored command
/// id echoing the request's sequence number and carrying the gateway's
/// own system id, ESME_ROK with a registry entry for non-empty
/// credentials, ESME_RINVPASWD and an untouched registry otherwise.
pub open spec fn spec_bind_effect(
    pre: ServerModel,
    post: ServerModel,
    conn: Seq<char>,
    pdu: PduModel,
    resp: PduModel,
) -> bool {
    let sid = lossy_utf8(spec_cstr_at(pdu.body, 0));
    let pw = lossy_utf8(spec_cstr_at(pdu.body, spec_after_cstr(pdu.body, 0)));
    let ok = sid.len() > 0 && pw.len() > 0;
    &&& post.config == pre.config
    &&& post.ussd_sessions == pre.ussd_sessions
    &&& post.sequence_counter == pre.sequence_counter
    &&& resp.command_id == pdu.command_id | codec::RESPONSE_BIT
    &&& resp.sequence_number == pdu.sequence_number
    &&& resp.body == spec_cstr(encode_utf8(pre.config.smpp.system_id@))
    &&& resp.command_length == spec_frame_len(resp.body.len())
    &&& (if ok {
        &&& resp.command_status == codec::ESME_ROK
        &&& post.sessions =~= spec_upsert_session(
            pre.sessions,
            SessionModel {
                system_id: sid,
                password: pw,
                bound: true,
                bind_type: pdu.command_id,
                can_receive_forwards: spec_contains_str(
                    pre.config.client_simulator.forwarding_clients.deep_view(),
                    sid,
                ),
                is_user_client: spec_contains_str(
                    pre.config.client_simulator.user_clients.deep_view(),
                    sid,
                ),
                connection_id: Some(conn),
            },
        )
    } else {
        &&& resp.command_status == codec::ESME_RINVPASWD
        &&& post.sessions == pre.sessions
    })
}

/// The DELIVER_SM the gateway sends a user client: from short code
/// `123` to the subscriber, with the reply truncated to 255 bytes.
pub open spec fn spec_user_deliver_pdu(
    p: PduModel,
    seqn: u32,
    msisdn: Seq<char>,
    msg: Seq<u8>,
) -> bool {
    let body = spec_ussd_sm_body(
        1,
        1,
        encode_utf8("123"@),
        1,
        1,
        encode_utf8(msisdn),
        spec_truncate_sm(msg),
    );
    &&& p.command_id == codec::DELIVER_SM
    &&& p.command_status == codec::ESME_ROK
    &&& p.sequence_number == seqn
    &&& p.body == body
    &&& p.command_length == spec_frame_len(body.len())
}

/// The SUBMIT_SM the gateway forwards to a handler: the subscriber as
/// source, `FORWARD` as destination, the dialed code as the message.
pub open spec fn spec_forward_submit_pdu(
    p: PduModel,
    seqn: u32,
    msisdn: Seq<char>,
    code: Seq<char>,
) -> bool {
    let body = spec_ussd_sm_body(
        1,
        1,
        encode_utf8(msisdn),
        0,
        0,
        encode_utf8("FORWARD"@),
        spec_truncate_sm(encode_utf8(code)),
    );
    &&& p.command_id == codec::SUBMIT_SM
    &&& p.command_status == codec::ESME_ROK
    &&& p.sequence_number == seqn
    &&& p.body == body
    &&& p.command_length == spec_frame_len(body.len())
}

/// The effect of an inbound SUBMIT_SM under a given disposition draw.
/// On Failure only an error response leaves; on NoResponse nothing
/// does; on Success the response with a fresh message id leaves first,
/// then the dialog runs for the subscriber — reset first when the input
/// dials a `*...#` code — and its reply goes to the first user client,
/// or the request is forwarded to the first handler.
pub open spec fn spec_submit_effect(
    pre: ServerModel,
    post: ServerModel,
    pdu: PduModel,
    sm: codec::SmBodyModel,
    draw: u32,
    now: u64,
    outs: Seq<OutboundModel>,
) -> bool {
    let disp = spec_disposition(
        draw,
        pre.config.response_percentage.success_percentage,
        pre.config.response_percentage.failure_percentage,
    );
    match disp {
        ResponseType::Failure => {
            &&& post == pre
            &&& outs.len() == 1
            &&& outs[0].target is Origin
            &&& outs[0].pdu.command_id == codec::SUBMIT_SM_RESP
            &&& outs[0].pdu.command_status == pre.config.response_percentage.failure_error_code
            &&& outs[0].pdu.sequence_number == pdu.sequence_number
            &&& outs[0].pdu.command_length == 16
            &&& outs[0].pdu.body.len() == 0
        },
        ResponseType::NoResponse => {
            &&& post == pre
            &&& outs.len() == 0
        },
        ResponseType::Success => {
            let msisdn = lossy_utf8(sm.source_addr);
            let input = lossy_utf8(sm.short_message);
            let c1 = spec_next_seq(pre.sequence_counter);
            let mid = spec_message_id(now, c1);
            let found = spec_find_ussd(pre.ussd_sessions, msisdn, 0);
            let base = match found {
                Some(i) => pre.ussd_sessions[i],
                None => spec_fresh_session(msisdn, now),
            };
            let s1 = if spec_is_ussd_code(input) {
                crate::dialog::spec_reset_session(base)
            } else {
                base
            };
            let fwd = spec_first_forward(pre.sessions, 0);
            let step = spec_gateway_step(pre.config, s1.state, s1.menu_level, input, fwd is Some);
            let s2 = crate::dialog::UssdSessionModel {
                state: step.state,
                menu_level: step.menu_level,
                ..s1
            };
            &&& post.config == pre.config
            &&& post.sessions == pre.sessions
            &&& post.ussd_sessions =~= (match found {
                Some(i) => pre.ussd_sessions.update(i, s2),
                None => pre.ussd_sessions.push(s2),
            })
            &&& outs.len() >= 1
            &&& outs[0].target is Origin
            &&& outs[0].pdu.command_id == codec::SUBMIT_SM_RESP
            &&& outs[0].pdu.command_status == codec::ESME_ROK
            &&& outs[0].pdu.sequence_number == pdu.sequence_number
            &&& outs[0].pdu.body == spec_cstr(encode_utf8(mid))
            &&& outs[0].pdu.command_length == spec_frame_len(outs[0].pdu.body.len())
            &&& (if step.forward {
                let c2 = spec_next_seq(c1);
                &&& post.sequence_counter == c2
                &&& outs.len() == 2
                &&& (fwd matches Some(i) && outs[1].target matches OutboundTargetModel::Connection(
                    c,
                ) && Some(c) == pre.sessions[i].connection_id)
                &&& spec_forward_submit_pdu(outs[1].pdu, c2, msisdn, input)
            } else if step.reply.len() > 0 {
                let c2 = spec_next_seq(c1);
                &&& post.sequence_counter == c2
                &&& (match spec_first_user(pre.sessions, 0) {
                    Some(i) => {
                        &&& outs.len() == 2
                        &&& (outs[1].target matches OutboundTargetModel::Connection(c) && Some(c)
                            == pre.sessions[i].connection_id)
                        &&& spec_user_deliver_pdu(
                            outs[1].pdu,
                            c2,
                            msisdn,
                            encode_utf8(step.reply),
                        )
                    },
                    None => outs.len() == 1,
                })
            } else {
                &&& post.sequence_counter == c1
                &&& outs.len() == 1
            })
        },
    }
}

/// Where an entry with the system id stands, the lookup finds one.
proof fn lemma_find_system_exists(ss: Seq<SessionModel>, sid: Seq<char>, i: int, k: int)
    requires
        0 <= i <= k < ss.len(),
        ss[k].system_id == sid,
    ensures
        spec_find_system(ss, sid, i) is Some,
    decreases k - i,
{
    if ss[i].system_id != sid {
        lemma_find_system_exists(ss, sid, i + 1, k);
    }
}

/// Bind outcomes: non-empty credentials are answered ESME_ROK and
/// leave a routing entry under the bound system id; empty ones are
/// answered ESME_RINVPASWD and leave the registry untouched.
pub proof fn lemma_bind_outcomes(
    pre: ServerModel,
    post: ServerModel,
    conn: Seq<char>,
    pdu: PduModel,
    resp: PduModel,
)
    requires
        spec_bind_effect(pre, post, conn, pdu, resp),
    ensures
        ({
            let sid = lossy_utf8(spec_cstr_at(pdu.body, 0));
            let pw = lossy_utf8(spec_cstr_at(pdu.body, spec_after_cstr(pdu.body, 0)));
            &&& (sid.len() > 0 && pw.len() > 0) ==> (resp.command_status == codec::ESME_ROK
                && spec_find_system(post.sessions, sid, 0) is Some)
            &&& (sid.len() == 0 || pw.len() == 0) ==> (resp.command_status == codec::ESME_RINVPASWD
                && post.sessions == pre.sessions)
        }),
{
    let sid = lossy_utf8(spec_cstr_at(pdu.body, 0));
    let pw = lossy_utf8(spec_cstr_at(pdu.body, spec_after_cstr(pdu.body, 0)));
    if sid.len() > 0 && pw.len() > 0 {
        lemma_find_system_props(pre.sessions, sid, 0);
        match spec_find_system(pre.sessions, sid, 0) {
            Some(i) => {
                assert(post.sessions[i].system_id == sid);
                lemma_find_system_exists(post.sessions, sid, 0, i);
            },
            None => {
                let k = post.sessions.len() - 1;
                assert(post.sessions[k].system_id == sid);
                lemma_find_system_exists(post.sessions, sid, 0, k);
            },
        }
    }
}

/// With no success share, every inbound SUBMIT_SM whose draw falls in
/// the failure share is answered with the configured error status and
/// nothing else leaves: no DELIVER_SM follows and no state changes.
pub proof fn lemma_all_failure_submit(
    pre: ServerModel,
    post: ServerModel,
    pdu: PduModel,
    sm: codec::SmBodyModel,
    draw: u32,
    now: u64,
    outs: Seq<OutboundModel>,
)
    requires
        spec_submit_effect(pre, post, pdu, sm, draw, now, outs),
        pre.config.response_percentage.success_percentage == 0,
        (draw as int) < pre.config.response_percentage.failure_percentage as int,
    ensures
        post == pre,
        outs.len() == 1,
        outs[0].target is Origin,
        outs[0].pdu.command_id == codec::SUBMIT_SM_RESP,
        outs[0].pdu.command_status == pre.config.response_percentage.failure_error_code,
        outs[0].pdu.sequence_number == pdu.sequence_number,
        forall|k: int| 0 <= k < outs.len() ==> outs[k].pdu.command_id != codec::DELIVER_SM,
{
}

/// Session reset: when the dialed input has the `*...#` shape, the
/// dialog that the submit step runs starts from a session at the
/// Initial state with menu level zero — whatever state the stored
/// session held — and only then interprets the input.
pub proof fn lemma_session_reset(base: UssdSessionModel, input: Seq<char>)
    requires
        spec_is_ussd_code(input),
    ensures
        ({
            let s1 = if spec_is_ussd_code(input) {
                crate::dialog::spec_reset_session(base)
            } else {
                base
            };
            &&& s1.state is Initial
            &&& s1.menu_level == 0
            &&& s1.msisdn == base.msisdn
            &&& s1.session_id == base.session_id
        }),
{
}

/// Per-connection ordering: on a Success disposition the SUBMIT_SM
/// response is emitted first, and any DELIVER_SM comes after it.
pub proof fn lemma_resp_precedes_deliver(
    pre: ServerModel,
    post: ServerModel,
    pdu: PduModel,
    sm: codec::SmBodyModel,
    draw: u32,
    now: u64,
    outs: Seq<OutboundModel>,
)
    requires
        spec_submit_effect(pre, post, pdu, sm, draw, now, outs),
        spec_disposition(
            draw,
            pre.config.response_percentage.success_percentage,
            pre.config.response_percentage.failure_percentage,
        ) is Success,
    ensures
        outs.len() >= 1,
        outs[0].pdu.command_id == codec::SUBMIT_SM_RESP,
        forall|k: int|
            0 <= k < outs.len() && #[trigger] outs[k].pdu.command_id == codec::DELIVER_SM ==> k
                > 0,
{
}

/// Builds a message id: `USSD`, the epoch seconds, the counter padded
/// to four digits.
pub fn message_id_text(now: u64, counter: u32) -> (r: String)
    ensures
        r@ == spec_message_id(now, counter),
{
    let mut r = String::from_str("USSD");
    let secs = u64_to_dec(now);
    r.append(secs.as_str());
    let ctr = u64_to_pad4(counter as u64);
    r.append(ctr.as_str());
    proof {
        assert(r@ =~= spec_message_id(now, counter));
    }
    r
}

/// Builds a dialog session id: `SESS` and the epoch seconds.
pub fn session_id_text(now: u64) -> (r: String)
    ensures
        r@ == spec_session_id(now),
{
    let secs = u64_to_dec(now);
    let r = concat_strs("SESS", secs.as_str());
    proof {
        assert(r@ =~= spec_session_id(now));
    }
    r
}

/// The first registry index bound under the given system id.
fn find_system_index(v: &Vec<Session>, sid: &str) -> (r: Option<usize>)
    ensures
        match spec_find_system(v.deep_view(), sid@, 0) {
            Some(i) => r matches Some(u) && u as int == i,
            None => r is None,
        },
{
    let n = v.len();
    let mut i: usize = 0;
    while i < n
        invariant
            n == v@.len(),
            v.deep_view().len() == n,
            forall|j: int| 0 <= j < n ==> v.deep_view()[j] == v@[j]@,
            i <= n,
            spec_find_system(v.deep_view(), sid@, 0) == spec_find_system(
                v.deep_view(),
                sid@,
                i as int,
            ),
        decreases n - i,
    {
        if str_eq(v[i].system_id.as_str(), sid) {
            proof {
                assert(v.deep_view()[i as int].system_id == sid@);
            }
            return Some(i);
        }
        proof {
            assert(v.deep_view()[i as int].system_id != sid@);
        }
        i = i + 1;
    }
    None
}

impl UssdSmppServer {
    /// A gateway with no bound peers, no dialog sessions, and the
    /// sequence counter at 1, so that server-originated PDUs start at 2.
    pub fn new(config: Config) -> (r: UssdSmppServer)
        ensures
            r@.config == config,
            r@.sessions.len() == 0,
            r@.ussd_sessions.len() == 0,
            r@.sequence_counter == 1,
    {
        UssdSmppServer {
            config,
            sessions: Vec::new(),
            ussd_sessions: Vec::new(),
            sequence_counter: 1,
        }
    }

    /// Steps the shared counter and hands out the new value.
    pub fn get_next_sequence(&mut self) -> (r: u32)
        ensures
            r == spec_next_seq(old(self)@.sequence_counter),
            final(self)@.sequence_counter == r,
            final(self)@.config == old(self)@.config,
            final(self)@.sessions == old(self)@.sessions,
            final(self)@.ussd_sessions == old(self)@.ussd_sessions,
    {
        let c: u32 = if self.sequence_counter == u32::MAX {
            0
        } else {
            self.sequence_counter + 1
        };
        self.sequence_counter = c;
        c
    }

    /// The connection id of the first bound user client, if any.
    pub fn get_user_connection(&self) -> (r: Option<String>)
        ensures
            match spec_first_user(self@.sessions, 0) {
                Some(i) => r matches Some(c) && Some(c@) == self@.sessions[i].connection_id,
                None => r is None,
            },
    {
        let n = self.sessions.len();
        let mut i: usize = 0;
        while i < n
            invariant
                n == self.sessions@.len(),
                self@.sessions.len() == n,
                forall|j: int|
                    0 <= j < n ==> self@.sessions[j] == self.sessions@[j]@,
                i <= n,
                spec_first_user(self@.sessions, 0) == spec_first_user(self@.sessions, i as int),
            decreases n - i,
        {
            let s = &self.sessions[i];
            if s.is_user_client && s.bound && s.connection_id.is_some() {
                proof {
                    assert(spec_is_user_entry(self@.sessions[i as int]));
                }
                let c = match &s.connection_id {
                    Some(c) => c.clone(),
                    None => String::new(),
                };
                return Some(c);
            }
            proof {
                assert(!spec_is_user_entry(self@.sessions[i as int]));
            }
            i = i + 1;
        }
        None
    }

    /// The connection id of the first bound forwarding handler, if any.
    pub fn get_forwarding_connection(&self) -> (r: Option<String>)
        ensures
            match spec_first_forward(self@.sessions, 0) {
                Some(i) => r matches Some(c) && Some(c@) == self@.sessions[i].connection_id,
                None => r is None,
            },
    {
        let n = self.sessions.len();
        let mut i: usize = 0;
        while i < n
            invariant
                n == self.sessions@.len(),
                self@.sessions.len() == n,
                forall|j: int|
                    0 <= j < n ==> self@.sessions[j] == self.sessions@[j]@,
                i <= n,
                spec_first_forward(self@.sessions, 0) == spec_first_forward(
                    self@.sessions,
                    i as int,
                ),
            decreases n - i,
        {
            let s = &self.sessions[i];
            if s.can_receive_forwards && s.bound && !s.is_user_client && s.connection_id.is_some() {
                proof {
                    assert(spec_is_forward_entry(self@.sessions[i as int]));
                }
                let c = match &s.connection_id {
                    Some(c) => c.clone(),
                    None => String::new(),
                };
                return Some(c);
            }
            proof {
                assert(!spec_is_forward_entry(self@.sessions[i as int]));
            }
            i = i + 1;
        }
        None
    }

    /// Reads the system id and password from the head of a bind body.
    pub fn parse_bind_request(&self, body: &[u8]) -> (r: (String, String))
        ensures
            r.0@ == lossy_utf8(spec_cstr_at(body@, 0)),
            r.1@ == lossy_utf8(spec_cstr_at(body@, spec_after_cstr(body@, 0))),
    {
        let mut pos: usize = 0;
        let system_id = codec::read_c_string(body, &mut pos);
        let password = codec::read_c_string(body, &mut pos);
        (system_id, password)
    }

    /// Builds a bind response carrying the gateway's own system id.
    pub fn create_bind_response(&self, command_id: u32, status: u32, sequence: u32) -> (r: SmppPdu)
        ensures
            r@.command_id == command_id,
            r@.command_status == status,
            r@.sequence_number == sequence,
            r@.body == spec_cstr(encode_utf8(self@.config.smpp.system_id@)),
            r@.command_length == spec_frame_len(r@.body.len()),
    {
        let body = codec::build_cstr_body(self.config.smpp.system_id.as_str());
        codec::make_pdu(command_id, status, sequence, body)
    }

    /// Answers a bind request: registers the peer and classifies its
    /// roles when both credentials are non-empty, rejects it with
    /// ESME_RINVPASWD otherwise.
    pub fn handle_bind(&mut self, conn_id: &str, pdu: &SmppPdu) -> (r: SmppPdu)
        ensures
            spec_bind_effect(old(self)@, final(self)@, conn_id@, pdu@, r@),
    {
        let (system_id, password) = self.parse_bind_request(pdu.body.as_slice());
        let ok = system_id.as_str().unicode_len() > 0 && password.as_str().unicode_len() > 0;
        if ok {
            let can_receive_forwards = contains_str(
                &self.config.client_simulator.forwarding_clients,
                system_id.as_str(),
            );
            let is_user_client = contains_str(
                &self.config.client_simulator.user_clients,
                system_id.as_str(),
            );
            let entry = Session {
                system_id: system_id.clone(),
                password,
                bound: true,
                bind_type: pdu.header.command_id,
                can_receive_forwards,
                is_user_client,
                connection_id: Some(String::from_str(conn_id)),
            };
            self.upsert_session(entry);
            let resp_id = pdu.header.command_id | codec::RESPONSE_BIT;
            self.create_bind_response(resp_id, codec::ESME_ROK, pdu.header.sequence_number)
        } else {
            let resp_id = pdu.header.command_id | codec::RESPONSE_BIT;
            self.create_bind_response(resp_id, codec::ESME_RINVPASWD, pdu.header.sequence_number)
        }
    }

    /// Replaces the entry bound under the new entry's system id, or
    /// appends it.
    fn upsert_session(&mut self, entry: Session)
        ensures
            final(self)@.sessions =~= spec_upsert_session(old(self)@.sessions, entry@),
            final(self)@.config == old(self)@.config,
            final(self)@.ussd_sessions == old(self)@.ussd_sessions,
            final(self)@.sequence_counter == old(self)@.sequence_counter,
    {
        let idx = find_system_index(&self.sessions, entry.system_id.as_str());
        proof {
            lemma_find_system_props(old(self)@.sessions, entry@.system_id, 0);
        }
        match idx {
            Some(i) => {
                let ghost pre = self@.sessions;
                self.sessions[i] = entry;
                proof {
                    let post = self@.sessions;
                    assert forall|j: int| 0 <= j < post.len() implies post[j] == pre.update(
                        i as int,
                        entry@,
                    )[j] by {}
                    assert(post =~= pre.update(i as int, entry@));
                    assert(post =~= spec_upsert_session(pre, entry@));
                }
            },
            None => {
                let ghost pre = self@.sessions;
                self.sessions.push(entry);
                proof {
                    let post = self@.sessions;
                    assert forall|j: int| 0 <= j < post.len() implies post[j] == pre.push(
                        entry@,
                    )[j] by {}
                    assert(post =~= pre.push(entry@));
                    assert(post =~= spec_upsert_session(pre, entry@));
                }
            },
        }
    }

    /// Answers ENQUIRE_LINK with an empty response under the same
    /// sequence number.
    pub fn handle_enquire_link(&self, pdu: &SmppPdu) -> (r: SmppPdu)
        ensures
            spec_plain_resp(pdu@, r@, codec::ENQUIRE_LINK_RESP),
    {
        codec::make_pdu(
            codec::ENQUIRE_LINK_RESP,
            codec::ESME_ROK,
            pdu.header.sequence_number,
            Vec::new(),
        )
    }

    /// Answers UNBIND with an empty response under the same sequence
    /// number.
    pub fn handle_unbind(&self, pdu: &SmppPdu) -> (r: SmppPdu)
        ensures
            spec_plain_resp(pdu@, r@, codec::UNBIND_RESP),
    {
        codec::make_pdu(
            codec::UNBIND_RESP,
            codec::ESME_ROK,
            pdu.header.sequence_number,
            Vec::new(),
        )
    }

    /// Drops every routing entry bound to a closed connection.
    pub fn remove_connection(&mut self, conn_id: &str)
        ensures
            final(self)@.sessions =~= spec_remove_conn(old(self)@.sessions, conn_id@),
            final(self)@.config == old(self)@.config,
            final(self)@.ussd_sessions == old(self)@.ussd_sessions,
            final(self)@.sequence_counter == old(self)@.sequence_counter,
    {
        let n = self.sessions.len();
        let mut kept: Vec<Session> = Vec::new();
        let mut i: usize = 0;
        while i < n
            invariant
                n == self.sessions@.len(),
                self@.sessions.len() == n,
                forall|j: int|
                    0 <= j < n ==> self@.sessions[j] == self.sessions@[j]@,
                i <= n,
                kept.deep_view() =~= spec_remove_conn(
                    self@.sessions.take(i as int),
                    conn_id@,
                ),
            decreases n - i,
        {
            let s = &self.sessions[i];
            let is_mine = match &s.connection_id {
                Some(c) => str_eq(c.as_str(), conn_id),
                None => false,
            };
            proof {
                assert(self@.sessions.take(i + 1).drop_last() =~= self@.sessions.take(i as int));
                assert(self@.sessions.take(i + 1).last() == self@.sessions[i as int]);
                assert(is_mine == (self@.sessions[i as int].connection_id == Some(conn_id@)));
            }
            if !is_mine {
                kept.push(self.sessions[i].clone());
                proof {
                    assert(kept.deep_view().last() == self.sessions@[i as int]@);
                    assert(kept.deep_view() =~= spec_remove_conn(
                        self@.sessions.take(i + 1),
                        conn_id@,
                    ));
                }
            }
            i = i + 1;
        }
        proof {
            assert(self@.sessions.take(n as int) =~= self@.sessions);
        }
        self.sessions = kept;
    }
}

/// The effect of an inbound DELIVER_SM (a handler's reply): it is
/// acknowledged on its own connection, and the reply is relayed to the
/// first user client addressed to the MSISDN the handler wrote in
/// `destination_addr`; with no user client bound it is dropped.
pub open spec fn spec_deliver_effect(
    pre: ServerModel,
    post: ServerModel,
    pdu: PduModel,
    dm: codec::SmBodyModel,
    outs: Seq<OutboundModel>,
) -> bool {
    let c1 = spec_next_seq(pre.sequence_counter);
    &&& post.config == pre.config
    &&& post.sessions == pre.sessions
    &&& post.ussd_sessions == pre.ussd_sessions
    &&& post.sequence_counter == c1
    &&& outs.len() >= 1
    &&& outs[0].target is Origin
    &&& spec_plain_resp(pdu, outs[0].pdu, codec::DELIVER_SM_RESP)
    &&& (match spec_first_user(pre.sessions, 0) {
        Some(i) => {
            &&& outs.len() == 2
            &&& (outs[1].target matches OutboundTargetModel::Connection(c) && Some(c)
                == pre.sessions[i].connection_id)
            &&& spec_user_deliver_pdu(
                outs[1].pdu,
                c1,
                lossy_utf8(dm.destination_addr),
                dm.short_message,
            )
        },
        None => outs.len() == 1,
    })
}

/// The whole SUBMIT_SM step over the parse result: a truncated body is
/// refused with the state untouched, a parsed one has the submit
/// effect.
pub open spec fn spec_submit_step(
    pre: ServerModel,
    post: ServerModel,
    pdu: PduModel,
    draw: u32,
    now: u64,
    r: Result<Vec<Outbound>, CodecError>,
) -> bool {
    match spec_parse_sm_body(pdu.body) {
        Err(e) => r matches Err(e2) && e2 == e && post == pre,
        Ok(sm) => r matches Ok(outs) && spec_submit_effect(
            pre,
            post,
            pdu,
            sm,
            draw,
            now,
            outs.deep_view(),
        ),
    }
}

/// The whole DELIVER_SM step over the parse result.
pub open spec fn spec_deliver_step(
    pre: ServerModel,
    post: ServerModel,
    pdu: PduModel,
    r: Result<Vec<Outbound>, CodecError>,
) -> bool {
    match spec_parse_sm_body(pdu.body) {
        Err(e) => r matches Err(e2) && e2 == e && post == pre,
        Ok(dm) => r matches Ok(outs) && spec_deliver_effect(
            pre,
            post,
            pdu,
            dm,
            outs.deep_view(),
        ),
    }
}

/// A found index lies in range and carries the MSISDN it was sought
/// under.
pub proof fn lemma_find_ussd_props(ss: Seq<UssdSessionModel>, m: Seq<char>, i: int)
    requires
        0 <= i <= ss.len(),
    ensures
        spec_find_ussd(ss, m, i) matches Some(k) ==> i <= k < ss.len() && ss[k].msisdn == m,
    decreases ss.len() - i,
{
    if i < ss.len() && ss[i].msisdn != m {
        lemma_find_ussd_props(ss, m, i + 1);
    }
}

/// The first dialog-session index that carries the given MSISDN.
fn find_ussd_index(v: &Vec<UssdSession>, m: &str) -> (r: Option<usize>)
    ensures
        match spec_find_ussd(v.deep_view(), m@, 0) {
            Some(i) => r matches Some(u) && u as int == i,
            None => r is None,
        },
{
    let n = v.len();
    let mut i: usize = 0;
    while i < n
        invariant
            n == v@.len(),
            v.deep_view().len() == n,
            forall|j: int| 0 <= j < n ==> v.deep_view()[j] == v@[j]@,
            i <= n,
            spec_find_ussd(v.deep_view(), m@, 0) == spec_find_ussd(v.deep_view(), m@, i as int),
        decreases n - i,
    {
        if str_eq(v[i].msisdn.as_str(), m) {
            proof {
                assert(v.deep_view()[i as int].msisdn == m@);
            }
            return Some(i);
        }
        proof {
            assert(v.deep_view()[i as int].msisdn != m@);
        }
        i = i + 1;
    }
    None
}

/// Mixes a seed into a draw in `[0, 10000)` with a splitmix64-style
/// finalizer, so that consecutive clock readings spread uniformly.
pub fn mix_draw(seed: u64) -> (r: u32)
    ensures
        r < 10000,
{
    let z0 = seed.wrapping_add(0x9E3779B97F4A7C15);
    let z1 = (z0 ^ (z0 >> 30)).wrapping_mul(0xBF58476D1CE4E5B9);
    let z2 = (z1 ^ (z1 >> 27)).wrapping_mul(0x94D049BB133111EB);
    let z3 = z2 ^ (z2 >> 31);
    (z3 % 10000) as u32
}

/// One disposition draw in `[0, 10000)`, seeded from the wall clock.
pub fn draw_percent() -> (r: u32)
    ensures
        r < 10000,
{
    mix_draw(crate::clock::now_nanos())
}

impl UssdSmppServer {
    /// Routes one inbound SUBMIT_SM: refuses a truncated body, answers
    /// under the configured disposition, runs the subscriber's dialog
    /// on Success, and hands back the PDUs to send in order.
    #[verifier::rlimit(100)]
    pub fn handle_ussd_submit_sm(&mut self, pdu: &SmppPdu, draw: u32, now: u64) -> (r: Result<
        Vec<Outbound>,
        CodecError,
    >)
        ensures
            spec_submit_step(old(self)@, final(self)@, pdu@, draw, now, r),
    {
        let fields = match codec::parse_sm_fields(pdu.body.as_slice()) {
            Ok(f) => f,
            Err(e) => {
                return Err(e);
            },
        };
        let disp = determine_response_type(draw, &self.config.response_percentage);
        match disp {
            ResponseType::Failure => {
                let resp = codec::make_pdu(
                    codec::SUBMIT_SM_RESP,
                    self.config.response_percentage.failure_error_code,
                    pdu.header.sequence_number,
                    Vec::new(),
                );
                let mut outs: Vec<Outbound> = Vec::new();
                outs.push(Outbound { target: OutboundTarget::Origin, pdu: resp });
                Ok(outs)
            },
            ResponseType::NoResponse => {
                let outs: Vec<Outbound> = Vec::new();
                Ok(outs)
            },
            ResponseType::Success => {
                let c1 = self.get_next_sequence();
                let mid = message_id_text(now, c1);
                let resp_body = codec::build_cstr_body(mid.as_str());
                let resp = codec::make_pdu(
                    codec::SUBMIT_SM_RESP,
                    codec::ESME_ROK,
                    pdu.header.sequence_number,
                    resp_body,
                );
                let mut outs: Vec<Outbound> = Vec::new();
                outs.push(Outbound { target: OutboundTarget::Origin, pdu: resp });
                let msisdn = fields.source_addr;
                let input = bytes_to_text(fields.short_message.as_slice());
                let ghost pre_sessions = self@.ussd_sessions;
                proof {
                    lemma_find_ussd_props(pre_sessions, msisdn@, 0);
                }
                let found = find_ussd_index(&self.ussd_sessions, msisdn.as_str());
                let idx: usize = match found {
                    Some(i) => i,
                    None => {
                        let fresh = UssdSession {
                            msisdn: msisdn.clone(),
                            session_id: session_id_text(now),
                            state: UssdState::Initial,
                            menu_level: 0,
                            last_request: String::new(),
                        };
                        proof {
                            assert(fresh@ =~= spec_fresh_session(msisdn@, now));
                        }
                        self.ussd_sessions.push(fresh);
                        self.ussd_sessions.len() - 1
                    },
                };
                let ghost base = match spec_find_ussd(pre_sessions, msisdn@, 0) {
                    Some(i) => pre_sessions[i],
                    None => spec_fresh_session(msisdn@, now),
                };
                proof {
                    assert(self.ussd_sessions@[idx as int]@ == base);
                }
                if is_ussd_code(input.as_str()) {
                    let sref = &mut self.ussd_sessions[idx];
                    sref.state = UssdState::Initial;
                    sref.menu_level = 0;
                    sref.last_request = String::new();
                }
                let ghost s1 = if spec_is_ussd_code(input@) {
                    crate::dialog::spec_reset_session(base)
                } else {
                    base
                };
                proof {
                    assert(self.ussd_sessions@[idx as int]@ =~= s1);
                }
                let fwd_conn = self.get_forwarding_connection();
                let forward_ok = match &fwd_conn {
                    Some(_) => true,
                    None => false,
                };
                let reply = generate_ussd_response(
                    &self.config,
                    &mut self.ussd_sessions[idx],
                    input.as_str(),
                    forward_ok,
                );
                let ghost step = spec_gateway_step(
                    self@.config,
                    s1.state,
                    s1.menu_level,
                    input@,
                    forward_ok,
                );
                let ghost s2 = crate::dialog::UssdSessionModel {
                    state: step.state,
                    menu_level: step.menu_level,
                    ..s1
                };
                proof {
                    assert(self.ussd_sessions@[idx as int]@ =~= s2);
                    assert(self@.ussd_sessions =~= (match spec_find_ussd(
                        pre_sessions,
                        msisdn@,
                        0,
                    ) {
                        Some(i) => pre_sessions.update(i, s2),
                        None => pre_sessions.push(s2),
                    }));
                }
                let forwarded = match self.ussd_sessions[idx].state {
                    UssdState::Forwarded => true,
                    _ => false,
                };
                if forwarded {
                    proof {
                        assert(step.forward);
                    }
                    let c2 = self.get_next_sequence();
                    let body = codec::build_ussd_sm_body(
                        1,
                        1,
                        msisdn.as_str(),
                        0,
                        0,
                        "FORWARD",
                        input.as_str().as_bytes(),
                    );
                    let spdu = codec::make_pdu(codec::SUBMIT_SM, codec::ESME_ROK, c2, body);
                    let conn = match fwd_conn {
                        Some(c) => c,
                        None => vstd::pervasive::unreached(),
                    };
                    outs.push(Outbound { target: OutboundTarget::Connection(conn), pdu: spdu });
                } else {
                    proof {
                        assert(!step.forward);
                    }
                    if reply.as_str().unicode_len() > 0 {
                        let c2 = self.get_next_sequence();
                        let user = self.get_user_connection();
                        match user {
                            Some(conn) => {
                                let body = codec::build_ussd_sm_body(
                                    1,
                                    1,
                                    "123",
                                    1,
                                    1,
                                    msisdn.as_str(),
                                    reply.as_str().as_bytes(),
                                );
                                let dpdu = codec::make_pdu(
                                    codec::DELIVER_SM,
                                    codec::ESME_ROK,
                                    c2,
                                    body,
                                );
                                outs.push(
                                    Outbound { target: OutboundTarget::Connection(conn), pdu: dpdu },
                                );
                            },
                            None => {},
                        }
                    }
                }
                Ok(outs)
            },
        }
    }

    /// Routes one inbound DELIVER_SM — a handler's reply: acknowledges
    /// it, then relays the reply to the first bound user client,
    /// addressed to the MSISDN the handler wrote in `destination_addr`.
    pub fn handle_deliver_sm(&mut self, pdu: &SmppPdu) -> (r: Result<Vec<Outbound>, CodecError>)
        ensures
            spec_deliver_step(old(self)@, final(self)@, pdu@, r),
    {
        let fields = match codec::parse_sm_fields(pdu.body.as_slice()) {
            Ok(f) => f,
            Err(e) => {
                return Err(e);
            },
        };
        let mut outs: Vec<Outbound> = Vec::new();
        let resp = codec::make_pdu(
            codec::DELIVER_SM_RESP,
            codec::ESME_ROK,
            pdu.header.sequence_number,
            Vec::new(),
        );
        outs.push(Outbound { target: OutboundTarget::Origin, pdu: resp });
        let c1 = self.get_next_sequence();
        let user = self.get_user_connection();
        match user {
            Some(conn) => {
                let body = codec::build_ussd_sm_body(
                    1,
                    1,
                    "123",
                    1,
                    1,
                    fields.destination_addr.as_str(),
                    fields.short_message.as_slice(),
                );
                let dpdu = codec::make_pdu(codec::DELIVER_SM, codec::ESME_ROK, c1, body);
                outs.push(Outbound { target: OutboundTarget::Connection(conn), pdu: dpdu });
            },
            None => {},
        }
        Ok(outs)
    }

    /// Dispatches one inbound PDU by command id: binds are answered and
    /// registered, SUBMIT_SM and DELIVER_SM are routed, keepalive and
    /// unbind are answered, and anything else is discarded.
    pub fn process_pdu(&mut self, conn_id: &str, pdu: &SmppPdu, draw: u32, now: u64) -> (r: Result<
        Vec<Outbound>,
        CodecError,
    >)
        ensures
            ({
                let cmd = pdu@.command_id;
                &&& (cmd == codec::BIND_RECEIVER || cmd == codec::BIND_TRANSMITTER || cmd
                    == codec::BIND_TRANSCEIVER) ==> (r matches Ok(outs) && outs.deep_view().len()
                    == 1 && outs.deep_view()[0].target is Origin && spec_bind_effect(
                    old(self)@,
                    final(self)@,
                    conn_id@,
                    pdu@,
                    outs.deep_view()[0].pdu,
                ))
                &&& cmd == codec::SUBMIT_SM ==> spec_submit_step(
                    old(self)@,
                    final(self)@,
                    pdu@,
                    draw,
                    now,
                    r,
                )
                &&& cmd == codec::DELIVER_SM ==> spec_deliver_step(
                    old(self)@,
                    final(self)@,
                    pdu@,
                    r,
                )
                &&& cmd == codec::ENQUIRE_LINK ==> (r matches Ok(outs) && outs.deep_view().len()
                    == 1 && outs.deep_view()[0].target is Origin && spec_plain_resp(
                    pdu@,
                    outs.deep_view()[0].pdu,
                    codec::ENQUIRE_LINK_RESP,
                ) && final(self)@ == old(self)@)
                &&& cmd == codec::UNBIND ==> (r matches Ok(outs) && outs.deep_view().len() == 1
                    && outs.deep_view()[0].target is Origin && spec_plain_resp(
                    pdu@,
                    outs.deep_view()[0].pdu,
                    codec::UNBIND_RESP,
                ) && final(self)@ == old(self)@)
                &&& (cmd != codec::BIND_RECEIVER && cmd != codec::BIND_TRANSMITTER && cmd
                    != codec::BIND_TRANSCEIVER && cmd != codec::SUBMIT_SM && cmd
                    != codec::DELIVER_SM && cmd != codec::ENQUIRE_LINK && cmd != codec::UNBIND)
                    ==> (r matches Ok(outs) && outs.deep_view().len() == 0 && final(self)@ == old(
                    self,
                )@)
            }),
    {
        let cmd = pdu.header.command_id;
        if cmd == codec::BIND_RECEIVER || cmd == codec::BIND_TRANSMITTER || cmd
            == codec::BIND_TRANSCEIVER {
            let resp = self.handle_bind(conn_id, pdu);
            let mut outs: Vec<Outbound> = Vec::new();
            outs.push(Outbound { target: OutboundTarget::Origin, pdu: resp });
            Ok(outs)
        } else if cmd == codec::SUBMIT_SM {
            self.handle_ussd_submit_sm(pdu, draw, now)
        } else if cmd == codec::DELIVER_SM {
            self.handle_deliver_sm(pdu)
        } else if cmd == codec::ENQUIRE_LINK {
            let resp = self.handle_enquire_link(pdu);
            let mut outs: Vec<Outbound> = Vec::new();
            outs.push(Outbound { target: OutboundTarget::Origin, pdu: resp });
            Ok(outs)
        } else if cmd == codec::UNBIND {
            let resp = self.handle_unbind(pdu);
            let mut outs: Vec<Outbound> = Vec::new();
            outs.push(Outbound { target: OutboundTarget::Origin, pdu: resp });
            Ok(outs)
        } else {
            let outs: Vec<Outbound> = Vec::new();
            Ok(outs)
        }
    }
}

} // verus!
