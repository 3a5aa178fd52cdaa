//! The SMPP v3.4 wire codec: length-prefixed framing with a fixed
//! 16-byte big-endian header, and the positional body layouts shared by
//! SUBMIT_SM and DELIVER_SM.

use vstd::prelude::*;

use crate::text::lossy_utf8;
use crate::text::bytes_to_text;
use vstd::string::StringSliceAdditionalSpecFns;

verus! {

pub const BIND_RECEIVER: u32 = 0x00000001;

pub const BIND_TRANSMITTER: u32 = 0x00000002;

pub const BIND_TRANSCEIVER: u32 = 0x00000009;

pub const BIND_RECEIVER_RESP: u32 = 0x80000001;

pub const BIND_TRANSMITTER_RESP: u32 = 0x80000002;

pub const BIND_TRANSCEIVER_RESP: u32 = 0x80000009;

pub const SUBMIT_SM: u32 = 0x00000004;

pub const SUBMIT_SM_RESP: u32 = 0x80000004;

pub const DELIVER_SM: u32 = 0x00000005;

pub const DELIVER_SM_RESP: u32 = 0x80000005;

pub const UNBIND: u32 = 0x00000006;

pub const UNBIND_RESP: u32 = 0x80000006;

pub const ENQUIRE_LINK: u32 = 0x00000015;

pub const ENQUIRE_LINK_RESP: u32 = 0x80000015;

/// The bit that turns a request command id into its response id.
pub const RESPONSE_BIT: u32 = 0x80000000;

pub const ESME_ROK: u32 = 0x00000000;

pub const ESME_RINVBNDSTS: u32 = 0x00000004;

pub const ESME_RSYSERR: u32 = 0x00000008;

pub const ESME_RINVPASWD: u32 = 0x0000000E;

/// The fixed 16-byte PDU header: four 32-bit big-endian words.
#[derive(Clone, Copy, Debug, PartialEq, Eq, Structural)]
pub struct SmppHeader {
    pub command_length: u32,
    pub command_id: u32,
    pub command_status: u32,
    pub sequence_number: u32,
}

/// One framed PDU: a header and `command_length - 16` body bytes.
#[derive(Clone, Debug)]
pub struct SmppPdu {
    pub header: SmppHeader,
    pub body: Vec<u8>,
}

/// Why a frame or a body failed to parse.
#[derive(Clone, Copy, Debug, PartialEq, Eq, Structural)]
pub enum CodecError {
    /// The stream ended inside the header or inside the announced body.
    UnexpectedEof,
    /// The announced `command_length` is below the header's own 16 bytes.
    MalformedFrame,
    /// A body ended before the field being read.
    TruncatedPdu,
}

/// The mathematical value of a PDU: header words and body bytes.
#[verifier::ext_equal]
pub struct PduModel {
    pub command_length: u32,
    pub command_id: u32,
    pub command_status: u32,
    pub sequence_number: u32,
    pub body: Seq<u8>,
}

impl View for SmppPdu {
    type V = PduModel;

    open spec fn view(&self) -> PduModel {
        PduModel {
            command_length: self.header.command_length,
            command_id: self.header.command_id,
            command_status: self.header.command_status,
            sequence_number: self.header.sequence_number,
            body: self.body@,
        }
    }
}

impl DeepView for SmppPdu {
    type V = PduModel;

    open spec fn deep_view(&self) -> PduModel {
        self.view()
    }
}

impl PduModel {
    /// A well-formed PDU announces exactly its own size.
    pub open spec fn wf(self) -> bool {
        self.command_length == 16 + self.body.len()
    }
}

/// Splits a 32-bit word into its four big-endian bytes.
pub open spec fn spec_be32_bytes(x: u32) -> Seq<u8> {
    seq![
        (x / 0x1000000) as u8,
        ((x / 0x10000) % 0x100) as u8,
        ((x / 0x100) % 0x100) as u8,
        (x % 0x100) as u8,
    ]
}

/// Reads a 32-bit word from four big-endian bytes.
pub open spec fn spec_be32_value(b: Seq<u8>) -> u32
    recommends
        b.len() == 4,
{
    (b[0] * 0x1000000 + b[1] * 0x10000 + b[2] * 0x100 + b[3]) as u32
}

/// Encodes a 32-bit word as four big-endian bytes.
pub fn be32_encode(x: u32) -> (r: [u8; 4])
    ensures
        r@ =~= spec_be32_bytes(x),
{
    assert(((x >> 24) as u8) == (x / 0x1000000) as u8
        && (((x >> 16) & 0xff) as u8) == ((x / 0x10000) % 0x100) as u8
        && (((x >> 8) & 0xff) as u8) == ((x / 0x100) % 0x100) as u8
        && ((x & 0xff) as u8) == (x % 0x100) as u8) by (bit_vector);
    let b0: u8 = #[verifier::truncate] ((x >> 24) as u8);
    let b1: u8 = ((x >> 16) & 0xff) as u8;
    let b2: u8 = ((x >> 8) & 0xff) as u8;
    let b3: u8 = (x & 0xff) as u8;
    [b0, b1, b2, b3]
}

/// Decodes four big-endian bytes into a 32-bit word.
pub fn be32_decode(b0: u8, b1: u8, b2: u8, b3: u8) -> (r: u32)
    ensures
        r == spec_be32_value(seq![b0, b1, b2, b3]),
{
    assert((((b0 as u32) << 24) | ((b1 as u32) << 16) | ((b2 as u32) << 8) | (b3 as u32))
        == ((b0 as u32) * 0x1000000 + (b1 as u32) * 0x10000 + (b2 as u32) * 0x100
        + (b3 as u32)) as u32) by (bit_vector);
    ((b0 as u32) << 24) | ((b1 as u32) << 16) | ((b2 as u32) << 8) | (b3 as u32)
}

/// Splitting a word into big-endian bytes and reading them back yields the word.
pub proof fn lemma_be32_round_trip(x: u32)
    ensures
        spec_be32_value(spec_be32_bytes(x)) == x,
{
    let b0 = (x / 0x1000000) as u8;
    let b1 = ((x / 0x10000) % 0x100) as u8;
    let b2 = ((x / 0x100) % 0x100) as u8;
    let b3 = (x % 0x100) as u8;
    assert(b0 * 0x1000000 + b1 * 0x10000 + b2 * 0x100 + b3 == x) by (bit_vector)
        requires
            b0 == (x / 0x1000000) as u8 && b1 == ((x / 0x10000) % 0x100) as u8
                && b2 == ((x / 0x100) % 0x100) as u8 && b3 == (x % 0x100) as u8,
    ;
}

/// Reading four bytes as a word and splitting it again yields the bytes.
pub proof fn lemma_be32_bytes_round_trip(b: Seq<u8>)
    requires
        b.len() == 4,
    ensures
        spec_be32_bytes(spec_be32_value(b)) =~= b,
{
    let b0 = b[0];
    let b1 = b[1];
    let b2 = b[2];
    let b3 = b[3];
    let x = spec_be32_value(b);
    assert({
        let y = (b0 * 0x1000000 + b1 * 0x10000 + b2 * 0x100 + b3) as u32;
        (y / 0x1000000) as u8 == b0 && ((y / 0x10000) % 0x100) as u8 == b1
            && ((y / 0x100) % 0x100) as u8 == b2 && (y % 0x100) as u8 == b3
    }) by (bit_vector);
}

/// The wire bytes of a PDU: the four header words big-endian, then the body.
pub open spec fn spec_encode_pdu(m: PduModel) -> Seq<u8> {
    spec_be32_bytes(m.command_length) + spec_be32_bytes(m.command_id) + spec_be32_bytes(
        m.command_status,
    ) + spec_be32_bytes(m.sequence_number) + m.body
}

/// The PDU at the head of a byte string: fails with `UnexpectedEof` on
/// fewer than 16 bytes or a body shorter than announced, and with
/// `MalformedFrame` when `command_length` is below 16. Bytes past
/// `command_length` are left untouched.
pub open spec fn spec_decode_pdu(b: Seq<u8>) -> Result<PduModel, CodecError> {
    if b.len() < 16 {
        Err(CodecError::UnexpectedEof)
    } else {
        let cl = spec_be32_value(b.subrange(0, 4));
        if cl < 16 {
            Err(CodecError::MalformedFrame)
        } else if b.len() < cl {
            Err(CodecError::UnexpectedEof)
        } else {
            Ok(
                PduModel {
                    command_length: cl,
                    command_id: spec_be32_value(b.subrange(4, 8)),
                    command_status: spec_be32_value(b.subrange(8, 12)),
                    sequence_number: spec_be32_value(b.subrange(12, 16)),
                    body: b.subrange(16, cl as int),
                },
            )
        }
    }
}

/// Framing is strict: a short header, an undersized `command_length`,
/// and a short body each fail with the named error.
pub proof fn lemma_framing_strictness(b: Seq<u8>)
    ensures
        b.len() < 16 ==> spec_decode_pdu(b) == Result::<PduModel, CodecError>::Err(
            CodecError::UnexpectedEof,
        ),
        b.len() >= 16 && spec_be32_value(b.subrange(0, 4)) < 16 ==> spec_decode_pdu(b)
            == Result::<PduModel, CodecError>::Err(CodecError::MalformedFrame),
        b.len() >= 16 && spec_be32_value(b.subrange(0, 4)) >= 16 && b.len() < spec_be32_value(
            b.subrange(0, 4),
        ) ==> spec_decode_pdu(b) == Result::<PduModel, CodecError>::Err(CodecError::UnexpectedEof),
{
}

/// Serializes a PDU: header words big-endian, then the raw body.
pub fn encode_pdu(pdu: &SmppPdu) -> (r: Vec<u8>)
    ensures
        r@ == spec_encode_pdu(pdu@),
{
    let mut r: Vec<u8> = Vec::new();
    let w0 = be32_encode(pdu.header.command_length);
    let w1 = be32_encode(pdu.header.command_id);
    let w2 = be32_encode(pdu.header.command_status);
    let w3 = be32_encode(pdu.header.sequence_number);
    r.extend_from_slice(w0.as_slice());
    r.extend_from_slice(w1.as_slice());
    r.extend_from_slice(w2.as_slice());
    r.extend_from_slice(w3.as_slice());
    r.extend_from_slice(pdu.body.as_slice());
    assert(r@ =~= spec_encode_pdu(pdu@));
    r
}

/// Parses the fixed 16-byte header from the front of a buffer.
pub fn parse_header(buf: &[u8]) -> (h: SmppHeader)
    requires
        buf@.len() >= 16,
    ensures
        h.command_length == spec_be32_value(buf@.subrange(0, 4)),
        h.command_id == spec_be32_value(buf@.subrange(4, 8)),
        h.command_status == spec_be32_value(buf@.subrange(8, 12)),
        h.sequence_number == spec_be32_value(buf@.subrange(12, 16)),
{
    let cl = be32_decode(
        *vstd::slice::slice_index_get(buf, 0),
        *vstd::slice::slice_index_get(buf, 1),
        *vstd::slice::slice_index_get(buf, 2),
        *vstd::slice::slice_index_get(buf, 3),
    );
    let cid = be32_decode(
        *vstd::slice::slice_index_get(buf, 4),
        *vstd::slice::slice_index_get(buf, 5),
        *vstd::slice::slice_index_get(buf, 6),
        *vstd::slice::slice_index_get(buf, 7),
    );
    let cst = be32_decode(
        *vstd::slice::slice_index_get(buf, 8),
        *vstd::slice::slice_index_get(buf, 9),
        *vstd::slice::slice_index_get(buf, 10),
        *vstd::slice::slice_index_get(buf, 11),
    );
    let seqn = be32_decode(
        *vstd::slice::slice_index_get(buf, 12),
        *vstd::slice::slice_index_get(buf, 13),
        *vstd::slice::slice_index_get(buf, 14),
        *vstd::slice::slice_index_get(buf, 15),
    );
    proof {
        assert(seq![buf@[0], buf@[1], buf@[2], buf@[3]] =~= buf@.subrange(0, 4));
        assert(seq![buf@[4], buf@[5], buf@[6], buf@[7]] =~= buf@.subrange(4, 8));
        assert(seq![buf@[8], buf@[9], buf@[10], buf@[11]] =~= buf@.subrange(8, 12));
        assert(seq![buf@[12], buf@[13], buf@[14], buf@[15]] =~= buf@.subrange(12, 16));
    }
    SmppHeader { command_length: cl, command_id: cid, command_status: cst, sequence_number: seqn }
}

/// How many body bytes a header announces: `MalformedFrame` below 16.
pub fn header_body_len(h: &SmppHeader) -> (r: Result<u32, CodecError>)
    ensures
        h.command_length < 16 ==> r == Result::<u32, CodecError>::Err(CodecError::MalformedFrame),
        h.command_length >= 16 ==> r == Result::<u32, CodecError>::Ok(
            (h.command_length - 16) as u32,
        ),
{
    if h.command_length < 16 {
        Err(CodecError::MalformedFrame)
    } else {
        Ok(h.command_length - 16)
    }
}

/// Decodes the PDU at the head of a buffer, exactly as `spec_decode_pdu`
/// reads it.
pub fn decode_pdu(buf: &[u8]) -> (r: Result<SmppPdu, CodecError>)
    ensures
        spec_decode_pdu(buf@) matches Ok(m) ==> (r matches Ok(p) && p@ =~= m),
        spec_decode_pdu(buf@) matches Err(e) ==> (r matches Err(e2) && e2 == e),
{
    if buf.len() < 16 {
        return Err(CodecError::UnexpectedEof);
    }
    let h = parse_header(buf);
    if h.command_length < 16 {
        return Err(CodecError::MalformedFrame);
    }
    let cl = h.command_length as usize;
    if buf.len() < cl {
        return Err(CodecError::UnexpectedEof);
    }
    let body_slice = vstd::slice::slice_subrange(buf, 16, cl);
    let body = vstd::slice::slice_to_vec(body_slice);
    let p = SmppPdu { header: h, body };
    proof {
        assert(p@ =~= spec_decode_pdu(buf@)->Ok_0);
    }
    Ok(p)
}

/// Decoding what was encoded restores the PDU, for every well-formed PDU.
pub proof fn lemma_pdu_round_trip(m: PduModel)
    requires
        m.wf(),
    ensures
        spec_decode_pdu(spec_encode_pdu(m)) matches Ok(m2) && m2 =~= m,
{
    let b = spec_encode_pdu(m);
    assert(b.len() == 16 + m.body.len());
    assert(b.subrange(0, 4) =~= spec_be32_bytes(m.command_length));
    assert(b.subrange(4, 8) =~= spec_be32_bytes(m.command_id));
    assert(b.subrange(8, 12) =~= spec_be32_bytes(m.command_status));
    assert(b.subrange(12, 16) =~= spec_be32_bytes(m.sequence_number));
    lemma_be32_round_trip(m.command_length);
    lemma_be32_round_trip(m.command_id);
    lemma_be32_round_trip(m.command_status);
    lemma_be32_round_trip(m.sequence_number);
    assert(b.subrange(16, m.command_length as int) =~= m.body);
}

/// The index of the first NUL byte at or after `pos`, or the end of the
/// buffer when none follows.
pub open spec fn spec_cstr_end(b: Seq<u8>, pos: int) -> int
    decreases b.len() - pos,
{
    if pos < 0 || pos >= b.len() {
        b.len() as int
    } else if b[pos] == 0 {
        pos
    } else {
        spec_cstr_end(b, pos + 1)
    }
}

/// The bytes of the C-string starting at `pos`, without its terminator.
pub open spec fn spec_cstr_at(b: Seq<u8>, pos: int) -> Seq<u8> {
    b.subrange(pos, spec_cstr_end(b, pos))
}

/// The position just past the C-string starting at `pos`: past the
/// terminator, or the end of the buffer when the string is unterminated.
pub open spec fn spec_after_cstr(b: Seq<u8>, pos: int) -> int {
    let e = spec_cstr_end(b, pos);
    if e < b.len() {
        e + 1
    } else {
        e
    }
}

/// Where the first NUL at or after `pos` lies, and what stands before it.
pub proof fn lemma_cstr_end(b: Seq<u8>, pos: int)
    requires
        0 <= pos <= b.len(),
    ensures
        pos <= spec_cstr_end(b, pos) <= b.len(),
        spec_cstr_end(b, pos) < b.len() ==> b[spec_cstr_end(b, pos)] == 0,
        forall|k: int| pos <= k < spec_cstr_end(b, pos) ==> b[k] != 0,
    decreases b.len() - pos,
{
    if pos < b.len() && b[pos] != 0 {
        lemma_cstr_end(b, pos + 1);
    }
}

/// Reads the C-string at `*pos` as raw bytes and advances `*pos` past
/// its terminator.
pub fn read_cstr_bytes(data: &[u8], pos: &mut usize) -> (r: Vec<u8>)
    requires
        *old(pos) <= data@.len(),
    ensures
        r@ == spec_cstr_at(data@, *old(pos) as int),
        *final(pos) == spec_after_cstr(data@, *old(pos) as int),
        *old(pos) <= *final(pos) <= data@.len(),
{
    proof {
        lemma_cstr_end(data@, *pos as int);
    }
    let ghost e = spec_cstr_end(data@, *pos as int);
    let start = *pos;
    let mut i = start;
    while i < data.len() && *vstd::slice::slice_index_get(data, i) != 0
        invariant
            start <= i <= data@.len(),
            e == spec_cstr_end(data@, start as int),
            start <= e <= data@.len(),
            e < data@.len() ==> data@[e] == 0,
            forall|k: int| start <= k < e ==> data@[k] != 0,
            i <= e,
            forall|k: int| start <= k < i ==> data@[k] != 0,
        decreases data@.len() - i,
    {
        proof {
            if i == e {
                assert(data@[e] != 0);
            }
        }
        i = i + 1;
    }
    proof {
        if i < e {
            assert(data@[i as int] != 0);
        }
        assert(i == e);
    }
    let s = vstd::slice::slice_subrange(data, start, i);
    let r = vstd::slice::slice_to_vec(s);
    if i < data.len() {
        *pos = i + 1;
    } else {
        *pos = i;
    }
    r
}

/// Reads the C-string at `*pos` as text under the lossy policy and
/// advances `*pos` past its terminator.
pub fn read_c_string(data: &[u8], pos: &mut usize) -> (r: String)
    requires
        *old(pos) <= data@.len(),
    ensures
        r@ == lossy_utf8(spec_cstr_at(data@, *old(pos) as int)),
        *final(pos) == spec_after_cstr(data@, *old(pos) as int),
        *old(pos) <= *final(pos) <= data@.len(),
{
    let bytes = read_cstr_bytes(data, pos);
    bytes_to_text(bytes.as_slice())
}

/// The mathematical value of a SUBMIT_SM or DELIVER_SM body: the text
/// fields as raw bytes, the flag fields, and the short message.
#[verifier::ext_equal]
pub struct SmBodyModel {
    pub service_type: Seq<u8>,
    pub source_addr_ton: u8,
    pub source_addr_npi: u8,
    pub source_addr: Seq<u8>,
    pub dest_addr_ton: u8,
    pub dest_addr_npi: u8,
    pub destination_addr: Seq<u8>,
    pub esm_class: u8,
    pub protocol_id: u8,
    pub priority_flag: u8,
    pub schedule_delivery_time: Seq<u8>,
    pub validity_period: Seq<u8>,
    pub registered_delivery: u8,
    pub replace_if_present_flag: u8,
    pub data_coding: u8,
    pub sm_default_msg_id: u8,
    pub sm_length: u8,
    pub short_message: Seq<u8>,
}

/// The positional walk over a SUBMIT_SM or DELIVER_SM body: C-strings up
/// to their NUL, single flag bytes, then `sm_length` message bytes.
/// Fails with `TruncatedPdu` whenever a field would read past the end.
pub open spec fn spec_parse_sm_body(b: Seq<u8>) -> Result<SmBodyModel, CodecError> {
    let p1 = spec_after_cstr(b, 0);
    let p2 = spec_after_cstr(b, p1 + 2);
    let p3 = spec_after_cstr(b, p2 + 2);
    let p4 = spec_after_cstr(b, p3 + 3);
    let p5 = spec_after_cstr(b, p4);
    if p1 + 2 > b.len() || p2 + 2 > b.len() || p3 + 3 > b.len() || p5 + 5 > b.len() {
        Err(CodecError::TruncatedPdu)
    } else {
        let sm_length = b[p5 + 4];
        if p5 + 5 + sm_length > b.len() {
            Err(CodecError::TruncatedPdu)
        } else {
            Ok(
                SmBodyModel {
                    service_type: spec_cstr_at(b, 0),
                    source_addr_ton: b[p1],
                    source_addr_npi: b[p1 + 1],
                    source_addr: spec_cstr_at(b, p1 + 2),
                    dest_addr_ton: b[p2],
                    dest_addr_npi: b[p2 + 1],
                    destination_addr: spec_cstr_at(b, p2 + 2),
                    esm_class: b[p3],
                    protocol_id: b[p3 + 1],
                    priority_flag: b[p3 + 2],
                    schedule_delivery_time: spec_cstr_at(b, p3 + 3),
                    validity_period: spec_cstr_at(b, p4),
                    registered_delivery: b[p5],
                    replace_if_present_flag: b[p5 + 1],
                    data_coding: b[p5 + 2],
                    sm_default_msg_id: b[p5 + 3],
                    sm_length,
                    short_message: b.subrange(p5 + 5, p5 + 5 + sm_length),
                },
            )
        }
    }
}

/// The parsed fields of a SUBMIT_SM or DELIVER_SM body, with text fields
/// presented under the lossy policy.
#[derive(Clone, Debug)]
pub struct SmFields {
    pub service_type: String,
    pub source_addr_ton: u8,
    pub source_addr_npi: u8,
    pub source_addr: String,
    pub dest_addr_ton: u8,
    pub dest_addr_npi: u8,
    pub destination_addr: String,
    pub esm_class: u8,
    pub protocol_id: u8,
    pub priority_flag: u8,
    pub schedule_delivery_time: String,
    pub validity_period: String,
    pub registered_delivery: u8,
    pub replace_if_present_flag: u8,
    pub data_coding: u8,
    pub sm_default_msg_id: u8,
    pub sm_length: u8,
    pub short_message: Vec<u8>,
}

impl SmFields {
    /// The parsed fields present exactly the given body model.
    pub open spec fn matches_model(self, m: SmBodyModel) -> bool {
        &&& self.service_type@ == lossy_utf8(m.service_type)
        &&& self.source_addr_ton == m.source_addr_ton
        &&& self.source_addr_npi == m.source_addr_npi
        &&& self.source_addr@ == lossy_utf8(m.source_addr)
        &&& self.dest_addr_ton == m.dest_addr_ton
        &&& self.dest_addr_npi == m.dest_addr_npi
        &&& self.destination_addr@ == lossy_utf8(m.destination_addr)
        &&& self.esm_class == m.esm_class
        &&& self.protocol_id == m.protocol_id
        &&& self.priority_flag == m.priority_flag
        &&& self.schedule_delivery_time@ == lossy_utf8(m.schedule_delivery_time)
        &&& self.validity_period@ == lossy_utf8(m.validity_period)
        &&& self.registered_delivery == m.registered_delivery
        &&& self.replace_if_present_flag == m.replace_if_present_flag
        &&& self.data_coding == m.data_coding
        &&& self.sm_default_msg_id == m.sm_default_msg_id
        &&& self.sm_length == m.sm_length
        &&& self.short_message@ == m.short_message
    }
}

/// Reads one flag byte at `*pos`, or fails with `TruncatedPdu` at the end.
fn read_field_byte(data: &[u8], pos: &mut usize) -> (r: Result<u8, CodecError>)
    ensures
        *old(pos) < data@.len() ==> (r == Result::<u8, CodecError>::Ok(data@[*old(pos) as int])
            && *final(pos) == *old(pos) + 1),
        *old(pos) >= data@.len() ==> (r == Result::<u8, CodecError>::Err(CodecError::TruncatedPdu)
            && *final(pos) == *old(pos)),
{
    if *pos < data.len() {
        let b = *vstd::slice::slice_index_get(data, *pos);
        *pos = *pos + 1;
        Ok(b)
    } else {
        Err(CodecError::TruncatedPdu)
    }
}

/// Parses the shared SUBMIT_SM / DELIVER_SM body layout, exactly as
/// `spec_parse_sm_body` reads it.
pub fn parse_sm_fields(body: &[u8]) -> (r: Result<SmFields, CodecError>)
    ensures
        spec_parse_sm_body(body@) matches Ok(m) ==> (r matches Ok(f) && f.matches_model(m)),
        spec_parse_sm_body(body@) matches Err(e) ==> (r matches Err(e2) && e2 == e),
{
    let mut pos: usize = 0;
    let service_type = read_c_string(body, &mut pos);
    let ghost p1 = spec_after_cstr(body@, 0);
    let source_addr_ton = match read_field_byte(body, &mut pos) {
        Ok(v) => v,
        Err(e) => {
            return Err(e);
        },
    };
    let source_addr_npi = match read_field_byte(body, &mut pos) {
        Ok(v) => v,
        Err(e) => {
            return Err(e);
        },
    };
    proof {
        lemma_cstr_end(body@, p1 + 2);
    }
    let source_addr = read_c_string(body, &mut pos);
    let ghost p2 = spec_after_cstr(body@, p1 + 2);
    let dest_addr_ton = match read_field_byte(body, &mut pos) {
        Ok(v) => v,
        Err(e) => {
            return Err(e);
        },
    };
    let dest_addr_npi = match read_field_byte(body, &mut pos) {
        Ok(v) => v,
        Err(e) => {
            return Err(e);
        },
    };
    let destination_addr = read_c_string(body, &mut pos);
    let ghost p3 = spec_after_cstr(body@, p2 + 2);
    let esm_class = match read_field_byte(body, &mut pos) {
        Ok(v) => v,
        Err(e) => {
            return Err(e);
        },
    };
    let protocol_id = match read_field_byte(body, &mut pos) {
        Ok(v) => v,
        Err(e) => {
            return Err(e);
        },
    };
    let priority_flag = match read_field_byte(body, &mut pos) {
        Ok(v) => v,
        Err(e) => {
            return Err(e);
        },
    };
    let schedule_delivery_time = read_c_string(body, &mut pos);
    let ghost p4 = spec_after_cstr(body@, p3 + 3);
    let validity_period = read_c_string(body, &mut pos);
    let ghost p5 = spec_after_cstr(body@, p4);
    let registered_delivery = match read_field_byte(body, &mut pos) {
        Ok(v) => v,
        Err(e) => {
            return Err(e);
        },
    };
    let replace_if_present_flag = match read_field_byte(body, &mut pos) {
        Ok(v) => v,
        Err(e) => {
            return Err(e);
        },
    };
    let data_coding = match read_field_byte(body, &mut pos) {
        Ok(v) => v,
        Err(e) => {
            return Err(e);
        },
    };
    let sm_default_msg_id = match read_field_byte(body, &mut pos) {
        Ok(v) => v,
        Err(e) => {
            return Err(e);
        },
    };
    let sm_length = match read_field_byte(body, &mut pos) {
        Ok(v) => v,
        Err(e) => {
            return Err(e);
        },
    };
    if sm_length as usize > body.len() - pos {
        return Err(CodecError::TruncatedPdu);
    }
    let sm_slice = vstd::slice::slice_subrange(body, pos, pos + sm_length as usize);
    let short_message = vstd::slice::slice_to_vec(sm_slice);
    Ok(
        SmFields {
            service_type,
            source_addr_ton,
            source_addr_npi,
            source_addr,
            dest_addr_ton,
            dest_addr_npi,
            destination_addr,
            esm_class,
            protocol_id,
            priority_flag,
            schedule_delivery_time,
            validity_period,
            registered_delivery,
            replace_if_present_flag,
            data_coding,
            sm_default_msg_id,
            sm_length,
            short_message,
        },
    )
}

/// A C-string on the wire: the bytes followed by one NUL terminator.
pub open spec fn spec_cstr(s: Seq<u8>) -> Seq<u8> {
    s + seq![0u8]
}

/// A short message capped at the 255 bytes its length octet can carry.
pub open spec fn spec_truncate_sm(msg: Seq<u8>) -> Seq<u8> {
    if msg.len() <= 255 {
        msg
    } else {
        msg.take(255)
    }
}

/// The body layout shared by every USSD-bearing SUBMIT_SM and
/// DELIVER_SM this fabric emits: service type `USSD`, the given address
/// fields, esm_class 0x40 (USSD indication), default coding, and the
/// short message with its length octet.
pub open spec fn spec_ussd_sm_body(
    source_ton: u8,
    source_npi: u8,
    source: Seq<u8>,
    dest_ton: u8,
    dest_npi: u8,
    dest: Seq<u8>,
    msg: Seq<u8>,
) -> Seq<u8>
    recommends
        msg.len() <= 255,
{
    spec_cstr(seq![0x55u8, 0x53u8, 0x53u8, 0x44u8]) + seq![source_ton, source_npi] + spec_cstr(
        source,
    ) + seq![dest_ton, dest_npi] + spec_cstr(dest) + seq![0x40u8, 0u8, 0u8] + spec_cstr(
        Seq::empty(),
    ) + spec_cstr(Seq::empty()) + seq![0u8, 0u8, 0u8, 0u8] + seq![msg.len() as u8] + msg
}

/// Builds the shared USSD SUBMIT_SM / DELIVER_SM body layout,
/// truncating the message to 255 bytes.
pub fn build_ussd_sm_body(
    source_ton: u8,
    source_npi: u8,
    source: &str,
    dest_ton: u8,
    dest_npi: u8,
    dest: &str,
    msg: &[u8],
) -> (r: Vec<u8>)
    ensures
        r@ == spec_ussd_sm_body(
            source_ton,
            source_npi,
            source.spec_bytes(),
            dest_ton,
            dest_npi,
            dest.spec_bytes(),
            spec_truncate_sm(msg@),
        ),
{
    let mut r: Vec<u8> = Vec::new();
    r.push(0x55);
    r.push(0x53);
    r.push(0x53);
    r.push(0x44);
    r.push(0);
    r.push(source_ton);
    r.push(source_npi);
    r.extend_from_slice(source.as_bytes());
    r.push(0);
    r.push(dest_ton);
    r.push(dest_npi);
    r.extend_from_slice(dest.as_bytes());
    r.push(0);
    r.push(0x40);
    r.push(0);
    r.push(0);
    r.push(0);
    r.push(0);
    r.push(0);
    r.push(0);
    r.push(0);
    r.push(0);
    let m: &[u8] = if msg.len() > 255 {
        vstd::slice::slice_subrange(msg, 0, 255)
    } else {
        msg
    };
    r.push(m.len() as u8);
    r.extend_from_slice(m);
    assert(r@ =~= spec_ussd_sm_body(
        source_ton,
        source_npi,
        source.spec_bytes(),
        dest_ton,
        dest_npi,
        dest.spec_bytes(),
        spec_truncate_sm(msg@),
    ));
    r
}

/// The body of a bind request: system id, password and system type as
/// C-strings, the interface version 0x34, address TON and NPI, and an
/// empty address range.
pub open spec fn spec_bind_body(
    system_id: Seq<u8>,
    password: Seq<u8>,
    system_type: Seq<u8>,
    addr_ton: u8,
    addr_npi: u8,
) -> Seq<u8> {
    spec_cstr(system_id) + spec_cstr(password) + spec_cstr(system_type) + seq![
        0x34u8,
        addr_ton,
        addr_npi,
    ] + spec_cstr(Seq::empty())
}

/// Builds a bind request body.
pub fn build_bind_body(system_id: &str, password: &str, system_type: &str, addr_ton: u8, addr_npi: u8) -> (r:
    Vec<u8>)
    ensures
        r@ == spec_bind_body(
            system_id.spec_bytes(),
            password.spec_bytes(),
            system_type.spec_bytes(),
            addr_ton,
            addr_npi,
        ),
{
    let mut r: Vec<u8> = Vec::new();
    r.extend_from_slice(system_id.as_bytes());
    r.push(0);
    r.extend_from_slice(password.as_bytes());
    r.push(0);
    r.extend_from_slice(system_type.as_bytes());
    r.push(0);
    r.push(0x34);
    r.push(addr_ton);
    r.push(addr_npi);
    r.push(0);
    assert(r@ =~= spec_bind_body(
        system_id.spec_bytes(),
        password.spec_bytes(),
        system_type.spec_bytes(),
        addr_ton,
        addr_npi,
    ));
    r
}

/// Builds a body that holds one C-string, as bind responses and
/// SUBMIT_SM responses carry.
pub fn build_cstr_body(s: &str) -> (r: Vec<u8>)
    ensures
        r@ == spec_cstr(s.spec_bytes()),
{
    let mut r: Vec<u8> = Vec::new();
    r.extend_from_slice(s.as_bytes());
    r.push(0);
    assert(r@ =~= spec_cstr(s.spec_bytes()));
    r
}

/// The `command_length` a body of `n` bytes is framed under; the wire
/// word wraps past the 32-bit range.
pub open spec fn spec_frame_len(n: nat) -> u32 {
    ((16 + n) % 0x100000000) as u32
}

/// Frames a body under a header whose `command_length` announces it.
pub fn make_pdu(command_id: u32, command_status: u32, sequence_number: u32, body: Vec<u8>) -> (r:
    SmppPdu)
    ensures
        r@ == (PduModel {
            command_length: spec_frame_len(body@.len()),
            command_id,
            command_status,
            sequence_number,
            body: body@,
        }),
        body@.len() + 16 <= u32::MAX ==> r@.wf(),
{
    let len = body.len();
    let cl: u32 = ((16u128 + (len as u128)) % 0x100000000) as u32;
    proof {
        assert(cl == spec_frame_len(len as nat));
    }
    SmppPdu {
        header: SmppHeader { command_length: cl, command_id, command_status, sequence_number },
        body,
    }
}

/// One optional TLV parameter; the simulated flows never carry any.
#[derive(Clone, Debug)]
pub struct OptionalParam {
    pub tag: u16,
    pub length: u16,
    pub value: Vec<u8>,
}

/// A parsed SUBMIT_SM body, under the gateway's field names.
#[derive(Clone, Debug)]
pub struct SubmitSmPdu {
    pub service_type: String,
    pub source_addr_ton: u8,
    pub source_addr_npi: u8,
    pub source_addr: String,
    pub dest_addr_ton: u8,
    pub dest_addr_npi: u8,
    pub destination_addr: String,
    pub esm_class: u8,
    pub protocol_id: u8,
    pub priority_flag: u8,
    pub schedule_delivery_time: String,
    pub validity_period: String,
    pub registered_delivery: u8,
    pub replace_if_present_flag: u8,
    pub data_coding: u8,
    pub sm_default_msg_id: u8,
    pub sm_length: u8,
    pub short_message: Vec<u8>,
    pub optional_params: Vec<OptionalParam>,
}

impl SubmitSmPdu {
    /// The parsed PDU presents exactly the given body model.
    pub open spec fn matches_model(self, m: SmBodyModel) -> bool {
        &&& self.service_type@ == lossy_utf8(m.service_type)
        &&& self.source_addr_ton == m.source_addr_ton
        &&& self.source_addr_npi == m.source_addr_npi
        &&& self.source_addr@ == lossy_utf8(m.source_addr)
        &&& self.dest_addr_ton == m.dest_addr_ton
        &&& self.dest_addr_npi == m.dest_addr_npi
        &&& self.destination_addr@ == lossy_utf8(m.destination_addr)
        &&& self.esm_class == m.esm_class
        &&& self.protocol_id == m.protocol_id
        &&& self.priority_flag == m.priority_flag
        &&& self.schedule_delivery_time@ == lossy_utf8(m.schedule_delivery_time)
        &&& self.validity_period@ == lossy_utf8(m.validity_period)
        &&& self.registered_delivery == m.registered_delivery
        &&& self.replace_if_present_flag == m.replace_if_present_flag
        &&& self.data_coding == m.data_coding
        &&& self.sm_default_msg_id == m.sm_default_msg_id
        &&& self.sm_length == m.sm_length
        &&& self.short_message@ == m.short_message
        &&& self.optional_params@.len() == 0
    }
}

/// A parsed DELIVER_SM body; the layout is the SUBMIT_SM one.
#[derive(Clone, Debug)]
pub struct DeliverSmPdu {
    pub service_type: String,
    pub source_addr_ton: u8,
    pub source_addr_npi: u8,
    pub source_addr: String,
    pub dest_addr_ton: u8,
    pub dest_addr_npi: u8,
    pub destination_addr: String,
    pub esm_class: u8,
    pub protocol_id: u8,
    pub priority_flag: u8,
    pub schedule_delivery_time: String,
    pub validity_period: String,
    pub registered_delivery: u8,
    pub replace_if_present_flag: u8,
    pub data_coding: u8,
    pub sm_default_msg_id: u8,
    pub sm_length: u8,
    pub short_message: Vec<u8>,
}

impl DeliverSmPdu {
    /// The parsed PDU presents exactly the given body model.
    pub open spec fn matches_model(self, m: SmBodyModel) -> bool {
        &&& self.service_type@ == lossy_utf8(m.service_type)
        &&& self.source_addr_ton == m.source_addr_ton
        &&& self.source_addr_npi == m.source_addr_npi
        &&& self.source_addr@ == lossy_utf8(m.source_addr)
        &&& self.dest_addr_ton == m.dest_addr_ton
        &&& self.dest_addr_npi == m.dest_addr_npi
        &&& self.destination_addr@ == lossy_utf8(m.destination_addr)
        &&& self.esm_class == m.esm_class
        &&& self.protocol_id == m.protocol_id
        &&& self.priority_flag == m.priority_flag
        &&& self.schedule_delivery_time@ == lossy_utf8(m.schedule_delivery_time)
        &&& self.validity_period@ == lossy_utf8(m.validity_period)
        &&& self.registered_delivery == m.registered_delivery
        &&& self.replace_if_present_flag == m.replace_if_present_flag
        &&& self.data_coding == m.data_coding
        &&& self.sm_default_msg_id == m.sm_default_msg_id
        &&& self.sm_length == m.sm_length
        &&& self.short_message@ == m.short_message
    }
}

/// Parses a SUBMIT_SM body into the gateway's field names.
pub fn parse_submit_sm(body: &[u8]) -> (r: Result<SubmitSmPdu, CodecError>)
    ensures
        spec_parse_sm_body(body@) matches Ok(m) ==> (r matches Ok(p) && p.matches_model(m)),
        spec_parse_sm_body(body@) matches Err(e) ==> (r matches Err(e2) && e2 == e),
{
    let f = parse_sm_fields(body)?;
    Ok(
        SubmitSmPdu {
            service_type: f.service_type,
            source_addr_ton: f.source_addr_ton,
            source_addr_npi: f.source_addr_npi,
            source_addr: f.source_addr,
            dest_addr_ton: f.dest_addr_ton,
            dest_addr_npi: f.dest_addr_npi,
            destination_addr: f.destination_addr,
            esm_class: f.esm_class,
            protocol_id: f.protocol_id,
            priority_flag: f.priority_flag,
            schedule_delivery_time: f.schedule_delivery_time,
            validity_period: f.validity_period,
            registered_delivery: f.registered_delivery,
            replace_if_present_flag: f.replace_if_present_flag,
            data_coding: f.data_coding,
            sm_default_msg_id: f.sm_default_msg_id,
            sm_length: f.sm_length,
            short_message: f.short_message,
            optional_params: Vec::new(),
        },
    )
}

/// Parses a DELIVER_SM body into the gateway's field names.
pub fn parse_deliver_sm(body: &[u8]) -> (r: Result<DeliverSmPdu, CodecError>)
    ensures
        spec_parse_sm_body(body@) matches Ok(m) ==> (r matches Ok(p) && p.matches_model(m)),
        spec_parse_sm_body(body@) matches Err(e) ==> (r matches Err(e2) && e2 == e),
{
    let f = parse_sm_fields(body)?;
    Ok(
        DeliverSmPdu {
            service_type: f.service_type,
            source_addr_ton: f.source_addr_ton,
            source_addr_npi: f.source_addr_npi,
            source_addr: f.source_addr,
            dest_addr_ton: f.dest_addr_ton,
            dest_addr_npi: f.dest_addr_npi,
            destination_addr: f.destination_addr,
            esm_class: f.esm_class,
            protocol_id: f.protocol_id,
            priority_flag: f.priority_flag,
            schedule_delivery_time: f.schedule_delivery_time,
            validity_period: f.validity_period,
            registered_delivery: f.registered_delivery,
            replace_if_present_flag: f.replace_if_present_flag,
            data_coding: f.data_coding,
            sm_default_msg_id: f.sm_default_msg_id,
            sm_length: f.sm_length,
            short_message: f.short_message,
        },
    )
}

/// Re-encoding what was decoded reproduces the first `command_length`
/// bytes of any buffer that starts with a well-formed frame.
pub proof fn lemma_encode_of_decode(b: Seq<u8>)
    requires
        b.len() >= 16,
        spec_be32_value(b.subrange(0, 4)) >= 16,
        spec_be32_value(b.subrange(0, 4)) <= b.len(),
    ensures
        spec_decode_pdu(b) matches Ok(m) && spec_encode_pdu(m) =~= b.take(
            spec_be32_value(b.subrange(0, 4)) as int,
        ),
{
    let cl = spec_be32_value(b.subrange(0, 4));
    let m = spec_decode_pdu(b)->Ok_0;
    lemma_be32_bytes_round_trip(b.subrange(0, 4));
    lemma_be32_bytes_round_trip(b.subrange(4, 8));
    lemma_be32_bytes_round_trip(b.subrange(8, 12));
    lemma_be32_bytes_round_trip(b.subrange(12, 16));
    assert(spec_encode_pdu(m) =~= b.take(cl as int));
}

} // verus!
