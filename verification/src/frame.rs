//! The minimal fixed-header protocol variant: one bulk endpoint pair per
//! bus, a four-byte request header and a one-byte response status.
//!
//! Request frame: `[opcode][address][size low][size high][payload]`, the
//! payload present only for writes and transfers. Response frame:
//! `[status][payload]`. The status values form a closed taxonomy of
//! bus-level failures; of these, the host keeps the three-way distinction
//! between no-acknowledge, arbitration loss and everything else.

use vstd::prelude::*;

use crate::client::I2cError;

verus! {

/// Operation selector of a request frame. Read and write serve both buses;
/// the transfer forms and flush are the SPI extensions.
#[derive(Debug, Clone, Copy, PartialEq, Eq, Structural)]
pub enum BusOpcode {
    Read,
    Write,
    Transfer,
    TransferInPlace,
    Flush,
}

/// Status byte of a response frame: success, or one member of the closed
/// failure taxonomy.
#[derive(Debug, Clone, Copy, PartialEq, Eq, Structural)]
pub enum BusStatus {
    Success,
    NoAcknowledge,
    ArbitrationLoss,
    TxNotEmpty,
    InvalidReadBufferLength,
    InvalidWriteBufferLength,
    AddressOutOfRange,
    InvalidOpcode,
    Other,
}

/// A request frame of the minimal variant, decoded.
#[derive(Debug, PartialEq, Eq)]
pub struct BusRequest {
    pub opcode: BusOpcode,
    pub address: u8,
    pub size: u16,
    pub payload: Vec<u8>,
}

/// A response frame of the minimal variant, decoded.
#[derive(Debug, PartialEq, Eq)]
pub struct BusResponse {
    pub status: BusStatus,
    pub payload: Vec<u8>,
}

/// Mathematical form of a request frame.
pub struct BusRequestAbs {
    pub opcode: BusOpcode,
    pub address: u8,
    pub size: u16,
    pub payload: Seq<u8>,
}

/// Mathematical form of a response frame.
pub struct BusResponseAbs {
    pub status: BusStatus,
    pub payload: Seq<u8>,
}

impl View for BusRequest {
    type V = BusRequestAbs;

    open spec fn view(&self) -> BusRequestAbs {
        BusRequestAbs {
            opcode: self.opcode,
            address: self.address,
            size: self.size,
            payload: self.payload@,
        }
    }
}

impl View for BusResponse {
    type V = BusResponseAbs;

    open spec fn view(&self) -> BusResponseAbs {
        BusResponseAbs { status: self.status, payload: self.payload@ }
    }
}

// ---------------------------------------------------------------- bytes

/// Wire byte of an opcode.
pub open spec fn spec_opcode_byte(op: BusOpcode) -> u8 {
    match op {
        BusOpcode::Read => 0x00,
        BusOpcode::Write => 0x01,
        BusOpcode::Transfer => 0x02,
        BusOpcode::TransferInPlace => 0x03,
        BusOpcode::Flush => 0x04,
    }
}

/// The opcode a wire byte names, if any.
pub open spec fn spec_opcode_of_byte(b: u8) -> Option<BusOpcode> {
    if b == 0x00 {
        Some(BusOpcode::Read)
    } else if b == 0x01 {
        Some(BusOpcode::Write)
    } else if b == 0x02 {
        Some(BusOpcode::Transfer)
    } else if b == 0x03 {
        Some(BusOpcode::TransferInPlace)
    } else if b == 0x04 {
        Some(BusOpcode::Flush)
    } else {
        None
    }
}

/// Wire byte of a status.
pub open spec fn spec_status_byte(s: BusStatus) -> u8 {
    match s {
        BusStatus::Success => 0x00,
        BusStatus::NoAcknowledge => 0x01,
        BusStatus::ArbitrationLoss => 0x02,
        BusStatus::TxNotEmpty => 0x03,
        BusStatus::InvalidReadBufferLength => 0x04,
        BusStatus::InvalidWriteBufferLength => 0x05,
        BusStatus::AddressOutOfRange => 0x06,
        BusStatus::InvalidOpcode => 0xfe,
        BusStatus::Other => 0xff,
    }
}

/// The status a wire byte names, if any.
pub open spec fn spec_status_of_byte(b: u8) -> Option<BusStatus> {
    if b == 0x00 {
        Some(BusStatus::Success)
    } else if b == 0x01 {
        Some(BusStatus::NoAcknowledge)
    } else if b == 0x02 {
        Some(BusStatus::ArbitrationLoss)
    } else if b == 0x03 {
        Some(BusStatus::TxNotEmpty)
    } else if b == 0x04 {
        Some(BusStatus::InvalidReadBufferLength)
    } else if b == 0x05 {
        Some(BusStatus::InvalidWriteBufferLength)
    } else if b == 0x06 {
        Some(BusStatus::AddressOutOfRange)
    } else if b == 0xfe {
        Some(BusStatus::InvalidOpcode)
    } else if b == 0xff {
        Some(BusStatus::Other)
    } else {
        None
    }
}

/// Emits the wire byte of an opcode.
pub fn opcode_byte(op: BusOpcode) -> (r: u8)
    ensures
        r == spec_opcode_byte(op),
{
    match op {
        BusOpcode::Read => 0x00,
        BusOpcode::Write => 0x01,
        BusOpcode::Transfer => 0x02,
        BusOpcode::TransferInPlace => 0x03,
        BusOpcode::Flush => 0x04,
    }
}

/// Emits the wire byte of a status.
pub fn status_byte(s: BusStatus) -> (r: u8)
    ensures
        r == spec_status_byte(s),
{
    match s {
        BusStatus::Success => 0x00,
        BusStatus::NoAcknowledge => 0x01,
        BusStatus::ArbitrationLoss => 0x02,
        BusStatus::TxNotEmpty => 0x03,
        BusStatus::InvalidReadBufferLength => 0x04,
        BusStatus::InvalidWriteBufferLength => 0x05,
        BusStatus::AddressOutOfRange => 0x06,
        BusStatus::InvalidOpcode => 0xfe,
        BusStatus::Other => 0xff,
    }
}

/// The byte of every opcode names that opcode again.
pub proof fn lemma_opcode_byte_round_trip(op: BusOpcode)
    ensures
        spec_opcode_of_byte(spec_opcode_byte(op)) == Some(op),
{
}

/// The byte of every status names that status again.
pub proof fn lemma_status_byte_round_trip(s: BusStatus)
    ensures
        spec_status_of_byte(spec_status_byte(s)) == Some(s),
{
}

// ---------------------------------------------------------------- frames

/// The encoded form of a request frame: the four header bytes, with the
/// size in little-endian order, then the payload.
pub open spec fn spec_encode_bus_request(r: BusRequestAbs) -> Seq<u8> {
    seq![spec_opcode_byte(r.opcode), r.address, (r.size % 256) as u8, (r.size / 256) as u8]
        + r.payload
}

/// Parses a request frame: at least the four header bytes, a known opcode,
/// and whatever payload follows.
pub open spec fn spec_parse_bus_request(b: Seq<u8>) -> Option<BusRequestAbs> {
    if b.len() >= 4 {
        match spec_opcode_of_byte(b[0]) {
            Some(opcode) => Some(
                BusRequestAbs {
                    opcode,
                    address: b[1],
                    size: (b[2] + b[3] * 256) as u16,
                    payload: b.skip(4),
                },
            ),
            None => None,
        }
    } else {
        None
    }
}

/// The encoded form of a response frame: the status byte, then the payload.
pub open spec fn spec_encode_bus_response(r: BusResponseAbs) -> Seq<u8> {
    seq![spec_status_byte(r.status)] + r.payload
}

/// Parses a response frame: a known status byte, then the payload.
pub open spec fn spec_parse_bus_response(b: Seq<u8>) -> Option<BusResponseAbs> {
    if b.len() >= 1 {
        match spec_status_of_byte(b[0]) {
            Some(status) => Some(BusResponseAbs { status, payload: b.skip(1) }),
            None => None,
        }
    } else {
        None
    }
}

/// Parsing the encoded form of any request frame gives the frame back.
pub proof fn lemma_bus_request_round_trip(r: BusRequestAbs)
    ensures
        spec_parse_bus_request(spec_encode_bus_request(r)) == Some(r),
{
    let b = spec_encode_bus_request(r);
    assert(b.skip(4) =~= r.payload);
    assert(r.size % 256 + (r.size / 256) * 256 == r.size);
    lemma_opcode_byte_round_trip(r.opcode);
}

/// Parsing the encoded form of any response frame gives the frame back.
pub proof fn lemma_bus_response_round_trip(r: BusResponseAbs)
    ensures
        spec_parse_bus_response(spec_encode_bus_response(r)) == Some(r),
{
    let b = spec_encode_bus_response(r);
    assert(b.skip(1) =~= r.payload);
    lemma_status_byte_round_trip(r.status);
}

/// Encodes a request frame.
pub fn encode_bus_request(r: &BusRequest) -> (out: Vec<u8>)
    ensures
        out@ == spec_encode_bus_request(r@),
{
    let mut out: Vec<u8> = Vec::new();
    out.push(opcode_byte(r.opcode));
    out.push(r.address);
    out.push((r.size % 256) as u8);
    out.push((r.size / 256) as u8);
    let mut i: usize = 0;
    let ghost head = out@;
    while i < r.payload.len()
        invariant
            i <= r.payload@.len(),
            out@ == head + r.payload@.take(i as int),
        decreases r.payload@.len() - i,
    {
        out.push(r.payload[i]);
        assert(out@ =~= head + r.payload@.take(i as int + 1));
        i = i + 1;
    }
    proof {
        assert(r.payload@.take(r.payload@.len() as int) =~= r.payload@);
        assert(out@ =~= spec_encode_bus_request(r@));
    }
    out
}

/// Decodes a request frame; nothing for a short frame or an unknown opcode,
/// never a panic or an out-of-bounds read.
pub fn decode_bus_request(b: &Vec<u8>) -> (r: Option<BusRequest>)
    ensures
        (match r {
            Some(req) => spec_parse_bus_request(b@) == Some(req@),
            None => spec_parse_bus_request(b@) is None,
        }),
{
    if b.len() < 4 {
        return None;
    }
    let opcode = if b[0] == 0x00 {
        BusOpcode::Read
    } else if b[0] == 0x01 {
        BusOpcode::Write
    } else if b[0] == 0x02 {
        BusOpcode::Transfer
    } else if b[0] == 0x03 {
        BusOpcode::TransferInPlace
    } else if b[0] == 0x04 {
        BusOpcode::Flush
    } else {
        return None;
    };
    let size: u16 = b[2] as u16 + b[3] as u16 * 256;
    let mut payload: Vec<u8> = Vec::new();
    let mut i: usize = 4;
    while i < b.len()
        invariant
            4 <= i <= b@.len(),
            payload@ == b@.subrange(4, i as int),
        decreases b@.len() - i,
    {
        payload.push(b[i]);
        assert(payload@ =~= b@.subrange(4, i as int + 1));
        i = i + 1;
    }
    proof {
        assert(payload@ =~= b@.skip(4));
    }
    Some(BusRequest { opcode, address: b[1], size, payload })
}

/// Encodes a response frame.
pub fn encode_bus_response(r: &BusResponse) -> (out: Vec<u8>)
    ensures
        out@ == spec_encode_bus_response(r@),
{
    let mut out: Vec<u8> = Vec::new();
    out.push(status_byte(r.status));
    let mut i: usize = 0;
    let ghost head = out@;
    while i < r.payload.len()
        invariant
            i <= r.payload@.len(),
            out@ == head + r.payload@.take(i as int),
        decreases r.payload@.len() - i,
    {
        out.push(r.payload[i]);
        assert(out@ =~= head + r.payload@.take(i as int + 1));
        i = i + 1;
    }
    proof {
        assert(r.payload@.take(r.payload@.len() as int) =~= r.payload@);
        assert(out@ =~= spec_encode_bus_response(r@));
    }
    out
}

/// Decodes a response frame; nothing for an empty frame or an unknown
/// status byte.
pub fn decode_bus_response(b: &Vec<u8>) -> (r: Option<BusResponse>)
    ensures
        (match r {
            Some(resp) => spec_parse_bus_response(b@) == Some(resp@),
            None => spec_parse_bus_response(b@) is None,
        }),
{
    if b.len() < 1 {
        return None;
    }
    let status = if b[0] == 0x00 {
        BusStatus::Success
    } else if b[0] == 0x01 {
        BusStatus::NoAcknowledge
    } else if b[0] == 0x02 {
        BusStatus::ArbitrationLoss
    } else if b[0] == 0x03 {
        BusStatus::TxNotEmpty
    } else if b[0] == 0x04 {
        BusStatus::InvalidReadBufferLength
    } else if b[0] == 0x05 {
        BusStatus::InvalidWriteBufferLength
    } else if b[0] == 0x06 {
        BusStatus::AddressOutOfRange
    } else if b[0] == 0xfe {
        BusStatus::InvalidOpcode
    } else if b[0] == 0xff {
        BusStatus::Other
    } else {
        return None;
    };
    let mut payload: Vec<u8> = Vec::new();
    let mut i: usize = 1;
    while i < b.len()
        invariant
            1 <= i <= b@.len(),
            payload@ == b@.subrange(1, i as int),
        decreases b@.len() - i,
    {
        payload.push(b[i]);
        assert(payload@ =~= b@.subrange(1, i as int + 1));
        i = i + 1;
    }
    proof {
        assert(payload@ =~= b@.skip(1));
    }
    Some(BusResponse { status, payload })
}

// ---------------------------------------------------------------- taxonomy

/// The status byte a bus error maps to on the wire.
pub open spec fn spec_status_of_error(e: I2cError) -> BusStatus {
    match e {
        I2cError::NoAcknowledge => BusStatus::NoAcknowledge,
        I2cError::ArbitrationLoss => BusStatus::ArbitrationLoss,
        I2cError::Other => BusStatus::Other,
    }
}

/// Maps a bus error to its wire status.
pub fn status_of_error(e: I2cError) -> (s: BusStatus)
    ensures
        s == spec_status_of_error(e),
{
    match e {
        I2cError::NoAcknowledge => BusStatus::NoAcknowledge,
        I2cError::ArbitrationLoss => BusStatus::ArbitrationLoss,
        I2cError::Other => BusStatus::Other,
    }
}

/// The bus error a failure status maps back to on the host: the
/// no-acknowledge and arbitration-loss causes survive the wire, every other
/// failure folds into the catch-all. A success status maps to no error.
pub open spec fn spec_error_of_status(s: BusStatus) -> Option<I2cError> {
    match s {
        BusStatus::Success => None,
        BusStatus::NoAcknowledge => Some(I2cError::NoAcknowledge),
        BusStatus::ArbitrationLoss => Some(I2cError::ArbitrationLoss),
        _ => Some(I2cError::Other),
    }
}

/// Maps a wire status back to the host's bus error, if it is a failure.
pub fn error_of_status(s: BusStatus) -> (r: Option<I2cError>)
    ensures
        r == spec_error_of_status(s),
{
    match s {
        BusStatus::Success => None,
        BusStatus::NoAcknowledge => Some(I2cError::NoAcknowledge),
        BusStatus::ArbitrationLoss => Some(I2cError::ArbitrationLoss),
        _ => Some(I2cError::Other),
    }
}

/// The three-way bus error taxonomy survives a round trip over the wire:
/// what the device reports is what the host sees.
pub proof fn lemma_error_taxonomy_preserved(e: I2cError)
    ensures
        spec_error_of_status(spec_status_of_error(e)) == Some(e),
{
}

// ---------------------------------------------------------------- device

/// What the bus adapters reported for one minimal-variant operation.
#[derive(Debug, PartialEq, Eq)]
pub enum BusReply {
    /// The operation completed and carried no data.
    Done,
    /// A read or transfer completed; the buffer holds what came in.
    Data(Vec<u8>),
    /// The operation failed on the bus for this cause.
    Error(I2cError),
}

/// Mathematical form of a bus reply.
pub enum BusReplyAbs {
    Done,
    Data(Seq<u8>),
    Error(I2cError),
}

impl View for BusReply {
    type V = BusReplyAbs;

    open spec fn view(&self) -> BusReplyAbs {
        match self {
            BusReply::Done => BusReplyAbs::Done,
            BusReply::Data(d) => BusReplyAbs::Data(d@),
            BusReply::Error(e) => BusReplyAbs::Error(*e),
        }
    }
}

/// The response frame owed to a request frame, for every bus reply.
///
/// An out-of-range address (with address checking on, as on the I2C pipe)
/// and a size past the working buffer are rejected before the bus is
/// touched. A write whose size field disagrees with its payload is
/// rejected. A failed flush reports a transmit path that did not drain. A
/// bus failure reports its cause from the closed taxonomy.
pub open spec fn spec_bus_execute(
    req: BusRequestAbs,
    cap: u16,
    check_address: bool,
    reply: BusReplyAbs,
) -> BusResponseAbs {
    if check_address && req.address > 0x7f {
        BusResponseAbs { status: BusStatus::AddressOutOfRange, payload: Seq::empty() }
    } else {
        match req.opcode {
            BusOpcode::Read | BusOpcode::Transfer => if req.size > cap {
                BusResponseAbs { status: BusStatus::InvalidReadBufferLength, payload: Seq::empty() }
            } else {
                match reply {
                    BusReplyAbs::Data(d) => if d.len() >= req.size {
                        BusResponseAbs {
                            status: BusStatus::Success,
                            payload: d.take(req.size as int),
                        }
                    } else {
                        BusResponseAbs { status: BusStatus::Other, payload: Seq::empty() }
                    },
                    BusReplyAbs::Error(e) => BusResponseAbs {
                        status: spec_status_of_error(e),
                        payload: Seq::empty(),
                    },
                    BusReplyAbs::Done => BusResponseAbs {
                        status: BusStatus::Other,
                        payload: Seq::empty(),
                    },
                }
            },
            BusOpcode::Write => if req.payload.len() != req.size {
                BusResponseAbs {
                    status: BusStatus::InvalidWriteBufferLength,
                    payload: Seq::empty(),
                }
            } else {
                match reply {
                    BusReplyAbs::Done => BusResponseAbs {
                        status: BusStatus::Success,
                        payload: Seq::empty(),
                    },
                    BusReplyAbs::Error(e) => BusResponseAbs {
                        status: spec_status_of_error(e),
                        payload: Seq::empty(),
                    },
                    BusReplyAbs::Data(_) => BusResponseAbs {
                        status: BusStatus::Other,
                        payload: Seq::empty(),
                    },
                }
            },
            BusOpcode::TransferInPlace => if req.payload.len() > cap {
                BusResponseAbs { status: BusStatus::InvalidReadBufferLength, payload: Seq::empty() }
            } else {
                match reply {
                    BusReplyAbs::Data(d) => if d.len() >= req.payload.len() {
                        BusResponseAbs {
                            status: BusStatus::Success,
                            payload: d.take(req.payload.len() as int),
                        }
                    } else {
                        BusResponseAbs { status: BusStatus::Other, payload: Seq::empty() }
                    },
                    BusReplyAbs::Error(e) => BusResponseAbs {
                        status: spec_status_of_error(e),
                        payload: Seq::empty(),
                    },
                    BusReplyAbs::Done => BusResponseAbs {
                        status: BusStatus::Other,
                        payload: Seq::empty(),
                    },
                }
            },
            BusOpcode::Flush => match reply {
                BusReplyAbs::Done => BusResponseAbs {
                    status: BusStatus::Success,
                    payload: Seq::empty(),
                },
                _ => BusResponseAbs { status: BusStatus::TxNotEmpty, payload: Seq::empty() },
            },
        }
    }
}

/// Builds the response frame owed to `req` after the bus replied `reply`.
pub fn bus_execute(req: &BusRequest, cap: u16, check_address: bool, reply: &BusReply) -> (r:
    BusResponse)
    ensures
        r@ == spec_bus_execute(req@, cap, check_address, reply@),
{
    let empty: Vec<u8> = Vec::new();
    if check_address && req.address > 0x7f {
        return BusResponse { status: BusStatus::AddressOutOfRange, payload: empty };
    }
    match req.opcode {
        BusOpcode::Read | BusOpcode::Transfer => {
            if req.size > cap {
                BusResponse { status: BusStatus::InvalidReadBufferLength, payload: empty }
            } else {
                match reply {
                    BusReply::Data(d) => {
                        if d.len() >= req.size as usize {
                            let mut data = vstd::slice::slice_to_vec(d.as_slice());
                            data.truncate(req.size as usize);
                            BusResponse { status: BusStatus::Success, payload: data }
                        } else {
                            BusResponse { status: BusStatus::Other, payload: empty }
                        }
                    },
                    BusReply::Error(e) => BusResponse {
                        status: status_of_error(*e),
                        payload: empty,
                    },
                    BusReply::Done => BusResponse { status: BusStatus::Other, payload: empty },
                }
            }
        },
        BusOpcode::Write => {
            if req.payload.len() != req.size as usize {
                BusResponse { status: BusStatus::InvalidWriteBufferLength, payload: empty }
            } else {
                match reply {
                    BusReply::Done => BusResponse { status: BusStatus::Success, payload: empty },
                    BusReply::Error(e) => BusResponse {
                        status: status_of_error(*e),
                        payload: empty,
                    },
                    BusReply::Data(_) => BusResponse { status: BusStatus::Other, payload: empty },
                }
            }
        },
        BusOpcode::TransferInPlace => {
            if req.payload.len() > cap as usize {
                BusResponse { status: BusStatus::InvalidReadBufferLength, payload: empty }
            } else {
                match reply {
                    BusReply::Data(d) => {
                        if d.len() >= req.payload.len() {
                            let mut data = vstd::slice::slice_to_vec(d.as_slice());
                            data.truncate(req.payload.len());
                            BusResponse { status: BusStatus::Success, payload: data }
                        } else {
                            BusResponse { status: BusStatus::Other, payload: empty }
                        }
                    },
                    BusReply::Error(e) => BusResponse {
                        status: status_of_error(*e),
                        payload: empty,
                    },
                    BusReply::Done => BusResponse { status: BusStatus::Other, payload: empty },
                }
            }
        },
        BusOpcode::Flush => match reply {
            BusReply::Done => BusResponse { status: BusStatus::Success, payload: empty },
            _ => BusResponse { status: BusStatus::TxNotEmpty, payload: empty },
        },
    }
}

// ---------------------------------------------------------------- host

/// The request frame of a blocking SPI transfer, from what the caller
/// supplied: both a read length and write bytes make a transfer, write
/// bytes alone a write, a read length alone a read, and neither is no
/// operation at all.
pub fn spi_transfer_request(read_len: Option<u16>, write: Option<Vec<u8>>) -> (r: Option<
    BusRequest,
>)
    requires
        write matches Some(w) ==> w@.len() <= 0xffff,
    ensures
        (match (read_len, write) {
            (Some(n), Some(w)) => r matches Some(req) && req@ == (BusRequestAbs {
                opcode: BusOpcode::Transfer,
                address: 0,
                size: n,
                payload: w@,
            }),
            (None, Some(w)) => r matches Some(req) && req@ == (BusRequestAbs {
                opcode: BusOpcode::Write,
                address: 0,
                size: w@.len() as u16,
                payload: w@,
            }),
            (Some(n), None) => r matches Some(req) && req@ == (BusRequestAbs {
                opcode: BusOpcode::Read,
                address: 0,
                size: n,
                payload: Seq::empty(),
            }),
            (None, None) => r is None,
        }),
{
    match (read_len, write) {
        (Some(n), Some(w)) => Some(
            BusRequest { opcode: BusOpcode::Transfer, address: 0, size: n, payload: w },
        ),
        (None, Some(w)) => {
            let size = w.len() as u16;
            Some(BusRequest { opcode: BusOpcode::Write, address: 0, size, payload: w })
        },
        (Some(n), None) => {
            let empty: Vec<u8> = Vec::new();
            Some(BusRequest { opcode: BusOpcode::Read, address: 0, size: n, payload: empty })
        },
        (None, None) => None,
    }
}

/// What a decoded response frame means to the host: the payload on
/// success, or the preserved bus error.
pub fn bus_response_result(resp: BusResponse) -> (r: Result<Vec<u8>, I2cError>)
    ensures
        (match spec_error_of_status(resp.status) {
            None => r matches Ok(d) && d@ == resp.payload@,
            Some(e) => r == Err::<Vec<u8>, I2cError>(e),
        }),
{
    match error_of_status(resp.status) {
        None => Ok(resp.payload),
        Some(e) => Err(e),
    }
}

/// A successful request-frame parse pins the bytes down: the frame is the
/// canonical encoding of what was returned.
pub proof fn lemma_parse_bus_request_sound(b: Seq<u8>)
    ensures
        spec_parse_bus_request(b) matches Some(r) ==> b == spec_encode_bus_request(r),
{
    if let Some(r) = spec_parse_bus_request(b) {
        assert(r.size == b[2] + b[3] * 256);
        assert(r.size % 256 == b[2] && r.size / 256 == b[3]);
        assert(b =~= spec_encode_bus_request(r));
    }
}

/// A successful response-frame parse pins the bytes down likewise.
pub proof fn lemma_parse_bus_response_sound(b: Seq<u8>)
    ensures
        spec_parse_bus_response(b) matches Some(r) ==> b == spec_encode_bus_response(r),
{
    if let Some(r) = spec_parse_bus_response(b) {
        assert(b =~= spec_encode_bus_response(r));
    }
}

/// The response frame owed to a received frame: a decodable frame is
/// executed; a frame with an unknown opcode answers the invalid-opcode
/// status, and one too short to hold a header answers the catch-all. The
/// connection survives either way.
pub open spec fn spec_execute_bus_frame(
    b: Seq<u8>,
    cap: u16,
    check_address: bool,
    reply: BusReplyAbs,
) -> Seq<u8> {
    match spec_parse_bus_request(b) {
        Some(r) => spec_encode_bus_response(spec_bus_execute(r, cap, check_address, reply)),
        None => if b.len() >= 4 {
            spec_encode_bus_response(
                BusResponseAbs { status: BusStatus::InvalidOpcode, payload: Seq::empty() },
            )
        } else {
            spec_encode_bus_response(
                BusResponseAbs { status: BusStatus::Other, payload: Seq::empty() },
            )
        },
    }
}

/// Decodes one frame of this variant, executes it against the bus reply,
/// and encodes the response frame. Never panics, whatever the frame holds.
pub fn execute_bus_frame(
    frame: &Vec<u8>,
    cap: u16,
    check_address: bool,
    reply: &BusReply,
) -> (out: Vec<u8>)
    ensures
        out@ == spec_execute_bus_frame(frame@, cap, check_address, reply@),
{
    match decode_bus_request(frame) {
        Some(req) => {
            let resp = bus_execute(&req, cap, check_address, reply);
            encode_bus_response(&resp)
        },
        None => {
            let status = if frame.len() >= 4 {
                BusStatus::InvalidOpcode
            } else {
                BusStatus::Other
            };
            let empty: Vec<u8> = Vec::new();
            encode_bus_response(&BusResponse { status, payload: empty })
        },
    }
}

} // verus!
