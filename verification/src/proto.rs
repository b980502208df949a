//! The enum-framed protocol of the single-endpoint-pair variant: one
//! request and one response enum over the three bus families and the
//! configuration change, in the same compact self-describing encoding as
//! the schema frames. The device answers a request it cannot serve with
//! the invalid-request marker and keeps the connection.

use vstd::prelude::*;

use crate::codec::{
    decode_chunk, decode_u8, decode_varint16, decode_varint32, encode_chunk, encode_varint16,
    encode_varint32, lemma_take16_varint16, lemma_take32_varint32, lemma_take_chunk, spec_chunk,
    spec_take16, spec_take32, spec_take8, spec_take_chunk, spec_varint16, spec_varint32,
};
use crate::schema::{SpiPhase, SpiPolarity};
use crate::wire::{phase_byte, polarity_byte, spec_phase_byte, spec_polarity_byte};

verus! {

/// Whether the device served the request.
#[derive(Debug, Clone, Copy, PartialEq, Eq, Structural)]
pub enum Status {
    Success,
    Fail,
}

/// One of the eight GPIO lines, by index.
#[derive(Debug, Clone, Copy, PartialEq, Eq, Structural)]
pub struct Pin {
    pub index: u8,
}

/// Level of a GPIO line.
#[derive(Debug, Clone, Copy, PartialEq, Eq, Structural)]
pub enum GpioState {
    Low,
    High,
}

/// I2C operation selector.
#[derive(Debug, Clone, Copy, PartialEq, Eq, Structural)]
pub enum I2cOpcode {
    Read,
    Write,
}

/// SPI operation selector.
#[derive(Debug, Clone, Copy, PartialEq, Eq, Structural)]
pub enum SpiOpcode {
    Transfer,
    Flush,
}

/// GPIO operation selector.
#[derive(Debug, Clone, Copy, PartialEq, Eq, Structural)]
pub enum GpioOpcode {
    GetState,
    SetState,
}

/// An I2C request: the operation, the device address, the transfer size,
/// and the bytes to write, present only for writes.
#[derive(Debug, PartialEq, Eq)]
pub struct I2cRequest {
    pub opcode: I2cOpcode,
    pub address: u16,
    pub size: u16,
    pub data: Option<Vec<u8>>,
}

/// An I2C response: the status, and the address, size and data of the
/// served operation where it carries them.
#[derive(Debug, PartialEq, Eq)]
pub struct I2cResponse {
    pub status: Status,
    pub address: Option<u16>,
    pub size: Option<u16>,
    pub data: Option<Vec<u8>>,
}

/// An SPI request: the operation, the read size where one is read, and the
/// bytes to write where some are written.
#[derive(Debug, PartialEq, Eq)]
pub struct SpiRequest {
    pub opcode: SpiOpcode,
    pub size: Option<u16>,
    pub data: Option<Vec<u8>>,
}

/// An SPI response.
#[derive(Debug, PartialEq, Eq)]
pub struct SpiResponse {
    pub status: Status,
    pub size: Option<u16>,
    pub data: Option<Vec<u8>>,
}

/// A GPIO request: the operation, the pin, and the level to drive for a
/// set.
#[derive(Debug, Clone, Copy, PartialEq, Eq, Structural)]
pub struct GpioRequest {
    pub opcode: GpioOpcode,
    pub pin: Pin,
    pub state: Option<GpioState>,
}

/// A GPIO response: the status, the pin the request named, and the sampled
/// level for a get.
#[derive(Debug, Clone, Copy, PartialEq, Eq, Structural)]
pub struct GpioResponse {
    pub status: Status,
    pub pin: Pin,
    pub state: Option<GpioState>,
}

/// A configuration change for both buses.
#[derive(Debug, Clone, Copy, PartialEq, Eq, Structural)]
pub struct SetConfigRequest {
    pub i2c_frequency: u32,
    pub spi_frequency: u32,
    pub spi_phase: SpiPhase,
    pub spi_polarity: SpiPolarity,
}

/// The answer to a configuration change.
#[derive(Debug, Clone, Copy, PartialEq, Eq, Structural)]
pub struct SetConfigResponse {
    pub status: Status,
}

/// One request of this variant.
#[derive(Debug, PartialEq, Eq)]
pub enum Request {
    I2c(I2cRequest),
    Spi(SpiRequest),
    Gpio(GpioRequest),
    SetConfig(SetConfigRequest),
}

/// One response of this variant.
#[derive(Debug, PartialEq, Eq)]
pub enum Response {
    InvalidRequest,
    I2c(I2cResponse),
    Spi(SpiResponse),
    Gpio(GpioResponse),
    SetConfig(SetConfigResponse),
}

// ---------------------------------------------------------------- views

/// Mathematical form of an I2C request.
pub struct I2cRequestAbs {
    pub opcode: I2cOpcode,
    pub address: u16,
    pub size: u16,
    pub data: Option<Seq<u8>>,
}

/// Mathematical form of an I2C response.
pub struct I2cResponseAbs {
    pub status: Status,
    pub address: Option<u16>,
    pub size: Option<u16>,
    pub data: Option<Seq<u8>>,
}

/// Mathematical form of an SPI request.
pub struct SpiRequestAbs {
    pub opcode: SpiOpcode,
    pub size: Option<u16>,
    pub data: Option<Seq<u8>>,
}

/// Mathematical form of an SPI response.
pub struct SpiResponseAbs {
    pub status: Status,
    pub size: Option<u16>,
    pub data: Option<Seq<u8>>,
}

/// Mathematical form of a request.
pub enum RequestAbs {
    I2c(I2cRequestAbs),
    Spi(SpiRequestAbs),
    Gpio(GpioRequest),
    SetConfig(SetConfigRequest),
}

/// Mathematical form of a response.
pub enum ResponseAbs {
    InvalidRequest,
    I2c(I2cResponseAbs),
    Spi(SpiResponseAbs),
    Gpio(GpioResponse),
    SetConfig(SetConfigResponse),
}

/// The view of an optional byte payload.
pub open spec fn spec_opt_data(d: Option<Vec<u8>>) -> Option<Seq<u8>> {
    match d {
        None => None,
        Some(v) => Some(v@),
    }
}

impl View for I2cRequest {
    type V = I2cRequestAbs;

    open spec fn view(&self) -> I2cRequestAbs {
        I2cRequestAbs {
            opcode: self.opcode,
            address: self.address,
            size: self.size,
            data: spec_opt_data(self.data),
        }
    }
}

impl View for I2cResponse {
    type V = I2cResponseAbs;

    open spec fn view(&self) -> I2cResponseAbs {
        I2cResponseAbs {
            status: self.status,
            address: self.address,
            size: self.size,
            data: spec_opt_data(self.data),
        }
    }
}

impl View for SpiRequest {
    type V = SpiRequestAbs;

    open spec fn view(&self) -> SpiRequestAbs {
        SpiRequestAbs { opcode: self.opcode, size: self.size, data: spec_opt_data(self.data) }
    }
}

impl View for SpiResponse {
    type V = SpiResponseAbs;

    open spec fn view(&self) -> SpiResponseAbs {
        SpiResponseAbs { status: self.status, size: self.size, data: spec_opt_data(self.data) }
    }
}

impl View for Request {
    type V = RequestAbs;

    open spec fn view(&self) -> RequestAbs {
        match self {
            Request::I2c(r) => RequestAbs::I2c(r@),
            Request::Spi(r) => RequestAbs::Spi(r@),
            Request::Gpio(r) => RequestAbs::Gpio(*r),
            Request::SetConfig(r) => RequestAbs::SetConfig(*r),
        }
    }
}

impl View for Response {
    type V = ResponseAbs;

    open spec fn view(&self) -> ResponseAbs {
        match self {
            Response::InvalidRequest => ResponseAbs::InvalidRequest,
            Response::I2c(r) => ResponseAbs::I2c(r@),
            Response::Spi(r) => ResponseAbs::Spi(r@),
            Response::Gpio(r) => ResponseAbs::Gpio(*r),
            Response::SetConfig(r) => ResponseAbs::SetConfig(*r),
        }
    }
}

/// A request is within protocol bounds: every byte payload fits the
/// two-byte length prefix.
pub open spec fn request_valid(m: RequestAbs) -> bool {
    match m {
        RequestAbs::I2c(r) => match r.data {
            Some(d) => d.len() <= 0xffff,
            None => true,
        },
        RequestAbs::Spi(r) => match r.data {
            Some(d) => d.len() <= 0xffff,
            None => true,
        },
        _ => true,
    }
}

/// A response is within protocol bounds likewise.
pub open spec fn response_valid(m: ResponseAbs) -> bool {
    match m {
        ResponseAbs::I2c(r) => match r.data {
            Some(d) => d.len() <= 0xffff,
            None => true,
        },
        ResponseAbs::Spi(r) => match r.data {
            Some(d) => d.len() <= 0xffff,
            None => true,
        },
        _ => true,
    }
}

// ---------------------------------------------------------------- bytes

/// Wire byte of a status.
pub open spec fn spec_status_byte(s: Status) -> u8 {
    match s {
        Status::Success => 0,
        Status::Fail => 1,
    }
}

/// Wire byte of an I2C opcode.
pub open spec fn spec_i2c_opcode_byte(op: I2cOpcode) -> u8 {
    match op {
        I2cOpcode::Read => 0,
        I2cOpcode::Write => 1,
    }
}

/// Wire byte of an SPI opcode.
pub open spec fn spec_spi_opcode_byte(op: SpiOpcode) -> u8 {
    match op {
        SpiOpcode::Transfer => 0,
        SpiOpcode::Flush => 1,
    }
}

/// Wire byte of a GPIO opcode.
pub open spec fn spec_gpio_opcode_byte(op: GpioOpcode) -> u8 {
    match op {
        GpioOpcode::GetState => 0,
        GpioOpcode::SetState => 1,
    }
}

/// Wire byte of a GPIO level.
pub open spec fn spec_level_byte(s: GpioState) -> u8 {
    match s {
        GpioState::Low => 0,
        GpioState::High => 1,
    }
}

// ---------------------------------------------------------------- options

/// Encoding of an optional `u16`: an absence byte, or a presence byte and
/// the varint.
pub open spec fn spec_opt16(o: Option<u16>) -> Seq<u8> {
    match o {
        None => seq![0u8],
        Some(v) => seq![1u8] + spec_varint16(v),
    }
}

/// Reads an optional `u16` off the front of `b`.
pub open spec fn spec_take_opt16(b: Seq<u8>) -> Option<(Option<u16>, Seq<u8>)> {
    match spec_take8(b) {
        Some((tag, r)) => if tag == 0 {
            Some((None, r))
        } else if tag == 1 {
            match spec_take16(r) {
                Some((v, r2)) => Some((Some(v), r2)),
                None => None,
            }
        } else {
            None
        },
        None => None,
    }
}

/// Encoding of an optional byte payload.
pub open spec fn spec_opt_chunk(o: Option<Seq<u8>>) -> Seq<u8> {
    match o {
        None => seq![0u8],
        Some(s) => seq![1u8] + spec_chunk(s),
    }
}

/// Reads an optional byte payload off the front of `b`.
pub open spec fn spec_take_opt_chunk(b: Seq<u8>) -> Option<(Option<Seq<u8>>, Seq<u8>)> {
    match spec_take8(b) {
        Some((tag, r)) => if tag == 0 {
            Some((None, r))
        } else if tag == 1 {
            match spec_take_chunk(r) {
                Some((s, r2)) => Some((Some(s), r2)),
                None => None,
            }
        } else {
            None
        },
        None => None,
    }
}

/// Encoding of an optional GPIO level.
pub open spec fn spec_opt_level(o: Option<GpioState>) -> Seq<u8> {
    match o {
        None => seq![0u8],
        Some(s) => seq![1u8, spec_level_byte(s)],
    }
}

/// Reads an optional GPIO level off the front of `b`.
pub open spec fn spec_take_opt_level(b: Seq<u8>) -> Option<(Option<GpioState>, Seq<u8>)> {
    match spec_take8(b) {
        Some((tag, r)) => if tag == 0 {
            Some((None, r))
        } else if tag == 1 {
            match spec_take8(r) {
                Some((sb, r2)) => if sb == 0 {
                    Some((Some(GpioState::Low), r2))
                } else if sb == 1 {
                    Some((Some(GpioState::High), r2))
                } else {
                    None
                },
                None => None,
            }
        } else {
            None
        },
        None => None,
    }
}

/// Reading one known byte off a concatenation.
proof fn lemma_take8_byte(k: u8, rest: Seq<u8>)
    ensures
        spec_take8(seq![k] + rest) == Some((k, rest)),
{
    assert((seq![k] + rest)[0] == k);
    assert((seq![k] + rest).skip(1) =~= rest);
}

/// Reading an encoded optional `u16` gives it back.
proof fn lemma_take_opt16(o: Option<u16>, rest: Seq<u8>)
    ensures
        spec_take_opt16(spec_opt16(o) + rest) == Some((o, rest)),
{
    match o {
        None => {
            assert(spec_opt16(o) + rest =~= seq![0u8] + rest);
            lemma_take8_byte(0, rest);
        },
        Some(v) => {
            assert(spec_opt16(o) + rest =~= seq![1u8] + (spec_varint16(v) + rest));
            lemma_take8_byte(1, spec_varint16(v) + rest);
            lemma_take16_varint16(v, rest);
        },
    }
}

/// Reading an encoded optional byte payload gives it back.
proof fn lemma_take_opt_chunk(o: Option<Seq<u8>>, rest: Seq<u8>)
    requires
        o matches Some(s) ==> s.len() <= 0xffff,
    ensures
        spec_take_opt_chunk(spec_opt_chunk(o) + rest) == Some((o, rest)),
{
    match o {
        None => {
            assert(spec_opt_chunk(o) + rest =~= seq![0u8] + rest);
            lemma_take8_byte(0, rest);
        },
        Some(s) => {
            assert(spec_opt_chunk(o) + rest =~= seq![1u8] + (spec_chunk(s) + rest));
            lemma_take8_byte(1, spec_chunk(s) + rest);
            lemma_take_chunk(s, rest);
        },
    }
}

/// Reading an encoded optional GPIO level gives it back.
proof fn lemma_take_opt_level(o: Option<GpioState>, rest: Seq<u8>)
    ensures
        spec_take_opt_level(spec_opt_level(o) + rest) == Some((o, rest)),
{
    match o {
        None => {
            assert(spec_opt_level(o) + rest =~= seq![0u8] + rest);
            lemma_take8_byte(0, rest);
        },
        Some(s) => {
            assert(spec_opt_level(o) + rest =~= seq![1u8] + (seq![spec_level_byte(s)] + rest));
            lemma_take8_byte(1, seq![spec_level_byte(s)] + rest);
            lemma_take8_byte(spec_level_byte(s), rest);
        },
    }
}

// ---------------------------------------------------------------- encoding

/// The encoded form of a request: its variant selector, then its fields in
/// order.
pub open spec fn spec_encode_request(m: RequestAbs) -> Seq<u8> {
    match m {
        RequestAbs::I2c(r) => seq![0u8, spec_i2c_opcode_byte(r.opcode)] + spec_varint16(r.address)
            + spec_varint16(r.size) + spec_opt_chunk(r.data),
        RequestAbs::Spi(r) => seq![1u8, spec_spi_opcode_byte(r.opcode)] + spec_opt16(r.size)
            + spec_opt_chunk(r.data),
        RequestAbs::Gpio(r) => seq![2u8, spec_gpio_opcode_byte(r.opcode), r.pin.index]
            + spec_opt_level(r.state),
        RequestAbs::SetConfig(r) => seq![3u8] + spec_varint32(r.i2c_frequency) + spec_varint32(
            r.spi_frequency,
        ) + seq![spec_phase_byte(r.spi_phase), spec_polarity_byte(r.spi_polarity)],
    }
}

/// The encoded form of a response.
pub open spec fn spec_encode_response(m: ResponseAbs) -> Seq<u8> {
    match m {
        ResponseAbs::InvalidRequest => seq![0u8],
        ResponseAbs::I2c(r) => seq![1u8, spec_status_byte(r.status)] + spec_opt16(r.address)
            + spec_opt16(r.size) + spec_opt_chunk(r.data),
        ResponseAbs::Spi(r) => seq![2u8, spec_status_byte(r.status)] + spec_opt16(r.size)
            + spec_opt_chunk(r.data),
        ResponseAbs::Gpio(r) => seq![3u8, spec_status_byte(r.status), r.pin.index]
            + spec_opt_level(r.state),
        ResponseAbs::SetConfig(r) => seq![4u8, spec_status_byte(r.status)],
    }
}

/// Parses a whole request; only a fully consumed canonical frame counts.
pub open spec fn spec_parse_request(b: Seq<u8>) -> Option<RequestAbs> {
    match spec_take8(b) {
        None => None,
        Some((disc, r)) => if disc == 0 {
            match spec_take8(r) {
                Some((ob, r1)) => if ob <= 1 {
                    let opcode = if ob == 0 {
                        I2cOpcode::Read
                    } else {
                        I2cOpcode::Write
                    };
                    match spec_take16(r1) {
                        Some((address, r2)) => match spec_take16(r2) {
                            Some((size, r3)) => match spec_take_opt_chunk(r3) {
                                Some((data, r4)) => if r4.len() == 0 {
                                    Some(
                                        RequestAbs::I2c(
                                            I2cRequestAbs { opcode, address, size, data },
                                        ),
                                    )
                                } else {
                                    None
                                },
                                None => None,
                            },
                            None => None,
                        },
                        None => None,
                    }
                } else {
                    None
                },
                None => None,
            }
        } else if disc == 1 {
            match spec_take8(r) {
                Some((ob, r1)) => if ob <= 1 {
                    let opcode = if ob == 0 {
                        SpiOpcode::Transfer
                    } else {
                        SpiOpcode::Flush
                    };
                    match spec_take_opt16(r1) {
                        Some((size, r2)) => match spec_take_opt_chunk(r2) {
                            Some((data, r3)) => if r3.len() == 0 {
                                Some(RequestAbs::Spi(SpiRequestAbs { opcode, size, data }))
                            } else {
                                None
                            },
                            None => None,
                        },
                        None => None,
                    }
                } else {
                    None
                },
                None => None,
            }
        } else if disc == 2 {
            match spec_take8(r) {
                Some((ob, r1)) => if ob <= 1 {
                    let opcode = if ob == 0 {
                        GpioOpcode::GetState
                    } else {
                        GpioOpcode::SetState
                    };
                    match spec_take8(r1) {
                        Some((index, r2)) => match spec_take_opt_level(r2) {
                            Some((state, r3)) => if r3.len() == 0 {
                                Some(
                                    RequestAbs::Gpio(
                                        GpioRequest { opcode, pin: Pin { index }, state },
                                    ),
                                )
                            } else {
                                None
                            },
                            None => None,
                        },
                        None => None,
                    }
                } else {
                    None
                },
                None => None,
            }
        } else if disc == 3 {
            match spec_take32(r) {
                Some((i2c_frequency, r1)) => match spec_take32(r1) {
                    Some((spi_frequency, r2)) => match spec_take8(r2) {
                        Some((pb, r3)) => match spec_take8(r3) {
                            Some((ob, r4)) => if r4.len() == 0 && pb <= 1 && ob <= 1 {
                                Some(
                                    RequestAbs::SetConfig(
                                        SetConfigRequest {
                                            i2c_frequency,
                                            spi_frequency,
                                            spi_phase: if pb == 0 {
                                                SpiPhase::CaptureOnFirstTransition
                                            } else {
                                                SpiPhase::CaptureOnSecondTransition
                                            },
                                            spi_polarity: if ob == 0 {
                                                SpiPolarity::IdleLow
                                            } else {
                                                SpiPolarity::IdleHigh
                                            },
                                        },
                                    ),
                                )
                            } else {
                                None
                            },
                            None => None,
                        },
                        None => None,
                    },
                    None => None,
                },
                None => None,
            }
        } else {
            None
        },
    }
}

/// Parses a whole response; only a fully consumed canonical frame counts.
pub open spec fn spec_parse_response(b: Seq<u8>) -> Option<ResponseAbs> {
    match spec_take8(b) {
        None => None,
        Some((disc, r)) => if disc == 0 {
            if r.len() == 0 {
                Some(ResponseAbs::InvalidRequest)
            } else {
                None
            }
        } else if disc == 1 {
            match spec_take8(r) {
                Some((sb, r1)) => if sb <= 1 {
                    let status = if sb == 0 {
                        Status::Success
                    } else {
                        Status::Fail
                    };
                    match spec_take_opt16(r1) {
                        Some((address, r2)) => match spec_take_opt16(r2) {
                            Some((size, r3)) => match spec_take_opt_chunk(r3) {
                                Some((data, r4)) => if r4.len() == 0 {
                                    Some(
                                        ResponseAbs::I2c(
                                            I2cResponseAbs { status, address, size, data },
                                        ),
                                    )
                                } else {
                                    None
                                },
                                None => None,
                            },
                            None => None,
                        },
                        None => None,
                    }
                } else {
                    None
                },
                None => None,
            }
        } else if disc == 2 {
            match spec_take8(r) {
                Some((sb, r1)) => if sb <= 1 {
                    let status = if sb == 0 {
                        Status::Success
                    } else {
                        Status::Fail
                    };
                    match spec_take_opt16(r1) {
                        Some((size, r2)) => match spec_take_opt_chunk(r2) {
                            Some((data, r3)) => if r3.len() == 0 {
                                Some(ResponseAbs::Spi(SpiResponseAbs { status, size, data }))
                            } else {
                                None
                            },
                            None => None,
                        },
                        None => None,
                    }
                } else {
                    None
                },
                None => None,
            }
        } else if disc == 3 {
            match spec_take8(r) {
                Some((sb, r1)) => if sb <= 1 {
                    let status = if sb == 0 {
                        Status::Success
                    } else {
                        Status::Fail
                    };
                    match spec_take8(r1) {
                        Some((index, r2)) => match spec_take_opt_level(r2) {
                            Some((state, r3)) => if r3.len() == 0 {
                                Some(
                                    ResponseAbs::Gpio(
                                        GpioResponse { status, pin: Pin { index }, state },
                                    ),
                                )
                            } else {
                                None
                            },
                            None => None,
                        },
                        None => None,
                    }
                } else {
                    None
                },
                None => None,
            }
        } else if disc == 4 {
            match spec_take8(r) {
                Some((sb, r1)) => if r1.len() == 0 && sb <= 1 {
                    Some(
                        ResponseAbs::SetConfig(
                            SetConfigResponse {
                                status: if sb == 0 {
                                    Status::Success
                                } else {
                                    Status::Fail
                                },
                            },
                        ),
                    )
                } else {
                    None
                },
                None => None,
            }
        } else {
            None
        },
    }
}

/// Round trip of an I2C request body.
#[verifier::rlimit(50)]
proof fn lemma_request_round_trip_i2c(r: I2cRequestAbs)
    requires
        r.data matches Some(d) ==> d.len() <= 0xffff,
    ensures
        spec_parse_request(spec_encode_request(RequestAbs::I2c(r))) == Some(RequestAbs::I2c(r)),
{
    let b = spec_encode_request(RequestAbs::I2c(r));
    let ob = spec_i2c_opcode_byte(r.opcode);
    let tail = seq![ob] + (spec_varint16(r.address) + (spec_varint16(r.size) + (spec_opt_chunk(
        r.data,
    ) + Seq::<u8>::empty())));
    assert(b =~= seq![0u8] + tail);
    lemma_take8_byte(0, tail);
    lemma_take8_byte(ob, spec_varint16(r.address) + (spec_varint16(r.size) + (spec_opt_chunk(
        r.data,
    ) + Seq::<u8>::empty())));
    lemma_take16_varint16(r.address, spec_varint16(r.size) + (spec_opt_chunk(r.data)
        + Seq::<u8>::empty()));
    lemma_take16_varint16(r.size, spec_opt_chunk(r.data) + Seq::<u8>::empty());
    lemma_take_opt_chunk(r.data, Seq::<u8>::empty());
}

/// Round trip of an SPI request body.
#[verifier::rlimit(50)]
proof fn lemma_request_round_trip_spi(r: SpiRequestAbs)
    requires
        r.data matches Some(d) ==> d.len() <= 0xffff,
    ensures
        spec_parse_request(spec_encode_request(RequestAbs::Spi(r))) == Some(RequestAbs::Spi(r)),
{
    let b = spec_encode_request(RequestAbs::Spi(r));
    let ob = spec_spi_opcode_byte(r.opcode);
    let tail = seq![ob] + (spec_opt16(r.size) + (spec_opt_chunk(r.data) + Seq::<u8>::empty()));
    assert(b =~= seq![1u8] + tail);
    lemma_take8_byte(1, tail);
    lemma_take8_byte(ob, spec_opt16(r.size) + (spec_opt_chunk(r.data) + Seq::<u8>::empty()));
    lemma_take_opt16(r.size, spec_opt_chunk(r.data) + Seq::<u8>::empty());
    lemma_take_opt_chunk(r.data, Seq::<u8>::empty());
}

/// Round trip of a GPIO request body.
proof fn lemma_request_round_trip_gpio(r: GpioRequest)
    ensures
        spec_parse_request(spec_encode_request(RequestAbs::Gpio(r))) == Some(RequestAbs::Gpio(r)),
{
    let b = spec_encode_request(RequestAbs::Gpio(r));
    let ob = spec_gpio_opcode_byte(r.opcode);
    let tail = seq![ob] + (seq![r.pin.index] + (spec_opt_level(r.state) + Seq::<u8>::empty()));
    assert(b =~= seq![2u8] + tail);
    lemma_take8_byte(2, tail);
    lemma_take8_byte(ob, seq![r.pin.index] + (spec_opt_level(r.state) + Seq::<u8>::empty()));
    lemma_take8_byte(r.pin.index, spec_opt_level(r.state) + Seq::<u8>::empty());
    lemma_take_opt_level(r.state, Seq::<u8>::empty());
}

/// Round trip of a configuration request body.
proof fn lemma_request_round_trip_config(r: SetConfigRequest)
    ensures
        spec_parse_request(spec_encode_request(RequestAbs::SetConfig(r))) == Some(
            RequestAbs::SetConfig(r),
        ),
{
    let b = spec_encode_request(RequestAbs::SetConfig(r));
    let pb = spec_phase_byte(r.spi_phase);
    let ob = spec_polarity_byte(r.spi_polarity);
    let tail = spec_varint32(r.i2c_frequency) + (spec_varint32(r.spi_frequency) + (seq![pb]
        + (seq![ob] + Seq::<u8>::empty())));
    assert(b =~= seq![3u8] + tail);
    lemma_take8_byte(3, tail);
    lemma_take32_varint32(r.i2c_frequency, spec_varint32(r.spi_frequency) + (seq![pb] + (seq![ob]
        + Seq::<u8>::empty())));
    lemma_take32_varint32(r.spi_frequency, seq![pb] + (seq![ob] + Seq::<u8>::empty()));
    lemma_take8_byte(pb, seq![ob] + Seq::<u8>::empty());
    lemma_take8_byte(ob, Seq::<u8>::empty());
}

/// Decoding inverts encoding for requests of this variant.
pub proof fn lemma_request_round_trip(m: RequestAbs)
    requires
        request_valid(m),
    ensures
        spec_parse_request(spec_encode_request(m)) == Some(m),
{
    match m {
        RequestAbs::I2c(r) => lemma_request_round_trip_i2c(r),
        RequestAbs::Spi(r) => lemma_request_round_trip_spi(r),
        RequestAbs::Gpio(r) => lemma_request_round_trip_gpio(r),
        RequestAbs::SetConfig(r) => lemma_request_round_trip_config(r),
    }
}

/// Round trip of an I2C response body.
#[verifier::rlimit(50)]
proof fn lemma_response_round_trip_i2c(r: I2cResponseAbs)
    requires
        r.data matches Some(d) ==> d.len() <= 0xffff,
    ensures
        spec_parse_response(spec_encode_response(ResponseAbs::I2c(r))) == Some(
            ResponseAbs::I2c(r),
        ),
{
    let b = spec_encode_response(ResponseAbs::I2c(r));
    let sb = spec_status_byte(r.status);
    let tail = seq![sb] + (spec_opt16(r.address) + (spec_opt16(r.size) + (spec_opt_chunk(r.data)
        + Seq::<u8>::empty())));
    assert(b =~= seq![1u8] + tail);
    lemma_take8_byte(1, tail);
    lemma_take8_byte(sb, spec_opt16(r.address) + (spec_opt16(r.size) + (spec_opt_chunk(r.data)
        + Seq::<u8>::empty())));
    lemma_take_opt16(r.address, spec_opt16(r.size) + (spec_opt_chunk(r.data)
        + Seq::<u8>::empty()));
    lemma_take_opt16(r.size, spec_opt_chunk(r.data) + Seq::<u8>::empty());
    lemma_take_opt_chunk(r.data, Seq::<u8>::empty());
}

/// Round trip of an SPI response body.
#[verifier::rlimit(50)]
proof fn lemma_response_round_trip_spi(r: SpiResponseAbs)
    requires
        r.data matches Some(d) ==> d.len() <= 0xffff,
    ensures
        spec_parse_response(spec_encode_response(ResponseAbs::Spi(r))) == Some(
            ResponseAbs::Spi(r),
        ),
{
    let b = spec_encode_response(ResponseAbs::Spi(r));
    let sb = spec_status_byte(r.status);
    let tail = seq![sb] + (spec_opt16(r.size) + (spec_opt_chunk(r.data) + Seq::<u8>::empty()));
    assert(b =~= seq![2u8] + tail);
    lemma_take8_byte(2, tail);
    lemma_take8_byte(sb, spec_opt16(r.size) + (spec_opt_chunk(r.data) + Seq::<u8>::empty()));
    lemma_take_opt16(r.size, spec_opt_chunk(r.data) + Seq::<u8>::empty());
    lemma_take_opt_chunk(r.data, Seq::<u8>::empty());
}

/// Round trip of a GPIO response body.
proof fn lemma_response_round_trip_gpio(r: GpioResponse)
    ensures
        spec_parse_response(spec_encode_response(ResponseAbs::Gpio(r))) == Some(
            ResponseAbs::Gpio(r),
        ),
{
    let b = spec_encode_response(ResponseAbs::Gpio(r));
    let sb = spec_status_byte(r.status);
    let tail = seq![sb] + (seq![r.pin.index] + (spec_opt_level(r.state) + Seq::<u8>::empty()));
    assert(b =~= seq![3u8] + tail);
    lemma_take8_byte(3, tail);
    lemma_take8_byte(sb, seq![r.pin.index] + (spec_opt_level(r.state) + Seq::<u8>::empty()));
    lemma_take8_byte(r.pin.index, spec_opt_level(r.state) + Seq::<u8>::empty());
    lemma_take_opt_level(r.state, Seq::<u8>::empty());
}

/// Decoding inverts encoding for responses of this variant.
pub proof fn lemma_response_round_trip(m: ResponseAbs)
    requires
        response_valid(m),
    ensures
        spec_parse_response(spec_encode_response(m)) == Some(m),
{
    match m {
        ResponseAbs::InvalidRequest => {
            assert(spec_encode_response(m) =~= seq![0u8] + Seq::<u8>::empty());
            lemma_take8_byte(0, Seq::<u8>::empty());
        },
        ResponseAbs::I2c(r) => {
            lemma_response_round_trip_i2c(r);
        },
        ResponseAbs::Spi(r) => {
            lemma_response_round_trip_spi(r);
        },
        ResponseAbs::Gpio(r) => {
            lemma_response_round_trip_gpio(r);
        },
        ResponseAbs::SetConfig(r) => {
            let sb = spec_status_byte(r.status);
            assert(spec_encode_response(m) =~= seq![4u8] + (seq![sb] + Seq::<u8>::empty()));
            lemma_take8_byte(4, seq![sb] + Seq::<u8>::empty());
            lemma_take8_byte(sb, Seq::<u8>::empty());
        },
    }
}

// ---------------------------------------------------------------- exec codec

/// Emits the wire byte of a status.
fn status_byte(s: Status) -> (r: u8)
    ensures
        r == spec_status_byte(s),
{
    match s {
        Status::Success => 0,
        Status::Fail => 1,
    }
}

/// Appends the encoding of an optional `u16` to `out`.
fn encode_opt16(o: &Option<u16>, out: &mut Vec<u8>)
    ensures
        final(out)@ == old(out)@ + spec_opt16(*o),
{
    match o {
        None => {
            out.push(0);
            assert(out@ =~= old(out)@ + spec_opt16(*o));
        },
        Some(v) => {
            out.push(1);
            encode_varint16(*v, out);
            assert(out@ =~= old(out)@ + spec_opt16(*o));
        },
    }
}

/// Appends the encoding of an optional byte payload to `out`.
fn encode_opt_chunk(o: &Option<Vec<u8>>, out: &mut Vec<u8>)
    requires
        o matches Some(v) ==> v@.len() <= 0xffff,
    ensures
        final(out)@ == old(out)@ + spec_opt_chunk(spec_opt_data(*o)),
{
    match o {
        None => {
            out.push(0);
            assert(out@ =~= old(out)@ + spec_opt_chunk(spec_opt_data(*o)));
        },
        Some(v) => {
            out.push(1);
            encode_chunk(v, out);
            assert(out@ =~= old(out)@ + spec_opt_chunk(spec_opt_data(*o)));
        },
    }
}

/// Appends the encoding of an optional GPIO level to `out`.
fn encode_opt_level(o: &Option<GpioState>, out: &mut Vec<u8>)
    ensures
        final(out)@ == old(out)@ + spec_opt_level(*o),
{
    match o {
        None => {
            out.push(0);
            assert(out@ =~= old(out)@ + spec_opt_level(*o));
        },
        Some(s) => {
            out.push(1);
            match s {
                GpioState::Low => out.push(0),
                GpioState::High => out.push(1),
            }
            assert(out@ =~= old(out)@ + spec_opt_level(*o));
        },
    }
}

/// Decodes an optional `u16` at position `pos` of `b`.
fn decode_opt16(b: &Vec<u8>, pos: usize) -> (r: Option<(Option<u16>, usize)>)
    requires
        pos <= b@.len(),
    ensures
        (match r {
            Some((v, np)) => pos < np <= b@.len() && spec_take_opt16(b@.skip(pos as int))
                == Some((v, b@.skip(np as int))),
            None => spec_take_opt16(b@.skip(pos as int)) is None,
        }),
{
    match decode_u8(b, pos) {
        None => None,
        Some((tag, p1)) => {
            if tag == 0 {
                Some((None, p1))
            } else if tag == 1 {
                match decode_varint16(b, p1) {
                    Some((v, p2)) => Some((Some(v), p2)),
                    None => None,
                }
            } else {
                None
            }
        },
    }
}

/// Decodes an optional byte payload at position `pos` of `b`.
fn decode_opt_chunk(b: &Vec<u8>, pos: usize) -> (r: Option<(Option<Vec<u8>>, usize)>)
    requires
        pos <= b@.len(),
    ensures
        (match r {
            Some((v, np)) => pos < np <= b@.len() && spec_take_opt_chunk(b@.skip(pos as int))
                == Some((spec_opt_data(v), b@.skip(np as int))),
            None => spec_take_opt_chunk(b@.skip(pos as int)) is None,
        }),
{
    match decode_u8(b, pos) {
        None => None,
        Some((tag, p1)) => {
            if tag == 0 {
                Some((None, p1))
            } else if tag == 1 {
                match decode_chunk(b, p1) {
                    Some((v, p2)) => Some((Some(v), p2)),
                    None => None,
                }
            } else {
                None
            }
        },
    }
}

/// Decodes an optional GPIO level at position `pos` of `b`.
fn decode_opt_level(b: &Vec<u8>, pos: usize) -> (r: Option<(Option<GpioState>, usize)>)
    requires
        pos <= b@.len(),
    ensures
        (match r {
            Some((v, np)) => pos < np <= b@.len() && spec_take_opt_level(b@.skip(pos as int))
                == Some((v, b@.skip(np as int))),
            None => spec_take_opt_level(b@.skip(pos as int)) is None,
        }),
{
    match decode_u8(b, pos) {
        None => None,
        Some((tag, p1)) => {
            if tag == 0 {
                Some((None, p1))
            } else if tag == 1 {
                match decode_u8(b, p1) {
                    Some((sb, p2)) => if sb == 0 {
                        Some((Some(GpioState::Low), p2))
                    } else if sb == 1 {
                        Some((Some(GpioState::High), p2))
                    } else {
                        None
                    },
                    None => None,
                }
            } else {
                None
            }
        },
    }
}

/// Encodes a request of this variant.
pub fn encode_request(m: &Request) -> (r: Vec<u8>)
    requires
        request_valid(m@),
    ensures
        r@ == spec_encode_request(m@),
{
    let mut out: Vec<u8> = Vec::new();
    match m {
        Request::I2c(q) => {
            out.push(0);
            match q.opcode {
                I2cOpcode::Read => out.push(0),
                I2cOpcode::Write => out.push(1),
            }
            encode_varint16(q.address, &mut out);
            encode_varint16(q.size, &mut out);
            encode_opt_chunk(&q.data, &mut out);
            assert(out@ =~= spec_encode_request(m@));
        },
        Request::Spi(q) => {
            out.push(1);
            match q.opcode {
                SpiOpcode::Transfer => out.push(0),
                SpiOpcode::Flush => out.push(1),
            }
            encode_opt16(&q.size, &mut out);
            encode_opt_chunk(&q.data, &mut out);
            assert(out@ =~= spec_encode_request(m@));
        },
        Request::Gpio(q) => {
            out.push(2);
            match q.opcode {
                GpioOpcode::GetState => out.push(0),
                GpioOpcode::SetState => out.push(1),
            }
            out.push(q.pin.index);
            encode_opt_level(&q.state, &mut out);
            assert(out@ =~= spec_encode_request(m@));
        },
        Request::SetConfig(q) => {
            out.push(3);
            encode_varint32(q.i2c_frequency, &mut out);
            encode_varint32(q.spi_frequency, &mut out);
            out.push(phase_byte(q.spi_phase));
            out.push(polarity_byte(q.spi_polarity));
            assert(out@ =~= spec_encode_request(m@));
        },
    }
    out
}

/// Encodes a response of this variant.
pub fn encode_response(m: &Response) -> (r: Vec<u8>)
    requires
        response_valid(m@),
    ensures
        r@ == spec_encode_response(m@),
{
    let mut out: Vec<u8> = Vec::new();
    match m {
        Response::InvalidRequest => {
            out.push(0);
            assert(out@ =~= spec_encode_response(m@));
        },
        Response::I2c(q) => {
            out.push(1);
            out.push(status_byte(q.status));
            encode_opt16(&q.address, &mut out);
            encode_opt16(&q.size, &mut out);
            encode_opt_chunk(&q.data, &mut out);
            assert(out@ =~= spec_encode_response(m@));
        },
        Response::Spi(q) => {
            out.push(2);
            out.push(status_byte(q.status));
            encode_opt16(&q.size, &mut out);
            encode_opt_chunk(&q.data, &mut out);
            assert(out@ =~= spec_encode_response(m@));
        },
        Response::Gpio(q) => {
            out.push(3);
            out.push(status_byte(q.status));
            out.push(q.pin.index);
            encode_opt_level(&q.state, &mut out);
            assert(out@ =~= spec_encode_response(m@));
        },
        Response::SetConfig(q) => {
            out.push(4);
            out.push(status_byte(q.status));
            assert(out@ =~= spec_encode_response(m@));
        },
    }
    out
}

/// Decodes a request of this variant; exactly the canonical frames decode.
pub fn decode_request(b: &Vec<u8>) -> (r: Option<Request>)
    ensures
        (match r {
            Some(m) => spec_parse_request(b@) == Some(m@),
            None => spec_parse_request(b@) is None,
        }),
{
    proof {
        assert(b@.skip(0) =~= b@);
    }
    match decode_u8(b, 0) {
        None => None,
        Some((disc, p1)) => {
            if disc == 0 {
                match decode_u8(b, p1) {
                    Some((ob, p2)) => if ob <= 1 {
                        let opcode = if ob == 0 {
                            I2cOpcode::Read
                        } else {
                            I2cOpcode::Write
                        };
                        match decode_varint16(b, p2) {
                            Some((address, p3)) => match decode_varint16(b, p3) {
                                Some((size, p4)) => match decode_opt_chunk(b, p4) {
                                    Some((data, p5)) => if p5 == b.len() {
                                        Some(
                                            Request::I2c(
                                                I2cRequest { opcode, address, size, data },
                                            ),
                                        )
                                    } else {
                                        None
                                    },
                                    None => None,
                                },
                                None => None,
                            },
                            None => None,
                        }
                    } else {
                        None
                    },
                    None => None,
                }
            } else if disc == 1 {
                match decode_u8(b, p1) {
                    Some((ob, p2)) => if ob <= 1 {
                        let opcode = if ob == 0 {
                            SpiOpcode::Transfer
                        } else {
                            SpiOpcode::Flush
                        };
                        match decode_opt16(b, p2) {
                            Some((size, p3)) => match decode_opt_chunk(b, p3) {
                                Some((data, p4)) => if p4 == b.len() {
                                    Some(Request::Spi(SpiRequest { opcode, size, data }))
                                } else {
                                    None
                                },
                                None => None,
                            },
                            None => None,
                        }
                    } else {
                        None
                    },
                    None => None,
                }
            } else if disc == 2 {
                match decode_u8(b, p1) {
                    Some((ob, p2)) => if ob <= 1 {
                        let opcode = if ob == 0 {
                            GpioOpcode::GetState
                        } else {
                            GpioOpcode::SetState
                        };
                        match decode_u8(b, p2) {
                            Some((index, p3)) => match decode_opt_level(b, p3) {
                                Some((state, p4)) => if p4 == b.len() {
                                    Some(
                                        Request::Gpio(
                                            GpioRequest { opcode, pin: Pin { index }, state },
                                        ),
                                    )
                                } else {
                                    None
                                },
                                None => None,
                            },
                            None => None,
                        }
                    } else {
                        None
                    },
                    None => None,
                }
            } else if disc == 3 {
                match decode_varint32(b, p1) {
                    Some((i2c_frequency, p2)) => match decode_varint32(b, p2) {
                        Some((spi_frequency, p3)) => match decode_u8(b, p3) {
                            Some((pb, p4)) => match decode_u8(b, p4) {
                                Some((ob, p5)) => if p5 == b.len() && pb <= 1 && ob <= 1 {
                                    let spi_phase = if pb == 0 {
                                        SpiPhase::CaptureOnFirstTransition
                                    } else {
                                        SpiPhase::CaptureOnSecondTransition
                                    };
                                    let spi_polarity = if ob == 0 {
                                        SpiPolarity::IdleLow
                                    } else {
                                        SpiPolarity::IdleHigh
                                    };
                                    Some(
                                        Request::SetConfig(
                                            SetConfigRequest {
                                                i2c_frequency,
                                                spi_frequency,
                                                spi_phase,
                                                spi_polarity,
                                            },
                                        ),
                                    )
                                } else {
                                    None
                                },
                                None => None,
                            },
                            None => None,
                        },
                        None => None,
                    },
                    None => None,
                }
            } else {
                None
            }
        },
    }
}

/// Decodes a response of this variant; exactly the canonical frames decode.
pub fn decode_response(b: &Vec<u8>) -> (r: Option<Response>)
    ensures
        (match r {
            Some(m) => spec_parse_response(b@) == Some(m@),
            None => spec_parse_response(b@) is None,
        }),
{
    proof {
        assert(b@.skip(0) =~= b@);
    }
    match decode_u8(b, 0) {
        None => None,
        Some((disc, p1)) => {
            if disc == 0 {
                if p1 == b.len() {
                    Some(Response::InvalidRequest)
                } else {
                    None
                }
            } else if disc == 1 {
                match decode_u8(b, p1) {
                    Some((sb, p2)) => if sb <= 1 {
                        let status = if sb == 0 {
                            Status::Success
                        } else {
                            Status::Fail
                        };
                        match decode_opt16(b, p2) {
                            Some((address, p3)) => match decode_opt16(b, p3) {
                                Some((size, p4)) => match decode_opt_chunk(b, p4) {
                                    Some((data, p5)) => if p5 == b.len() {
                                        Some(
                                            Response::I2c(
                                                I2cResponse { status, address, size, data },
                                            ),
                                        )
                                    } else {
                                        None
                                    },
                                    None => None,
                                },
                                None => None,
                            },
                            None => None,
                        }
                    } else {
                        None
                    },
                    None => None,
                }
            } else if disc == 2 {
                match decode_u8(b, p1) {
                    Some((sb, p2)) => if sb <= 1 {
                        let status = if sb == 0 {
                            Status::Success
                        } else {
                            Status::Fail
                        };
                        match decode_opt16(b, p2) {
                            Some((size, p3)) => match decode_opt_chunk(b, p3) {
                                Some((data, p4)) => if p4 == b.len() {
                                    Some(Response::Spi(SpiResponse { status, size, data }))
                                } else {
                                    None
                                },
                                None => None,
                            },
                            None => None,
                        }
                    } else {
                        None
                    },
                    None => None,
                }
            } else if disc == 3 {
                match decode_u8(b, p1) {
                    Some((sb, p2)) => if sb <= 1 {
                        let status = if sb == 0 {
                            Status::Success
                        } else {
                            Status::Fail
                        };
                        match decode_u8(b, p2) {
                            Some((index, p3)) => match decode_opt_level(b, p3) {
                                Some((state, p4)) => if p4 == b.len() {
                                    Some(
                                        Response::Gpio(
                                            GpioResponse { status, pin: Pin { index }, state },
                                        ),
                                    )
                                } else {
                                    None
                                },
                                None => None,
                            },
                            None => None,
                        }
                    } else {
                        None
                    },
                    None => None,
                }
            } else if disc == 4 {
                match decode_u8(b, p1) {
                    Some((sb, p2)) => if p2 == b.len() && sb <= 1 {
                        Some(
                            Response::SetConfig(
                                SetConfigResponse {
                                    status: if sb == 0 {
                                        Status::Success
                                    } else {
                                        Status::Fail
                                    },
                                },
                            ),
                        )
                    } else {
                        None
                    },
                    None => None,
                }
            } else {
                None
            }
        },
    }
}

// ---------------------------------------------------------------- serving

/// The level of this variant that stands for a sampled level.
pub open spec fn spec_level_of(s: crate::schema::GpioState) -> GpioState {
    match s {
        crate::schema::GpioState::Low => GpioState::Low,
        crate::schema::GpioState::High => GpioState::High,
    }
}

/// Maps a sampled level into this variant.
pub fn level_of(s: crate::schema::GpioState) -> (r: GpioState)
    ensures
        r == spec_level_of(s),
{
    match s {
        crate::schema::GpioState::Low => GpioState::Low,
        crate::schema::GpioState::High => GpioState::High,
    }
}

/// The response owed to a request of this variant, for every bus outcome.
///
/// A malformed request — a write without bytes, a level set without a
/// level, a transfer that names neither direction — is answered with the
/// invalid-request marker; the connection survives. A read past the working
/// buffer capacity, a GPIO request naming a pin past the last line, and
/// every bus failure answer with the family's failure status, before any
/// hardware is touched. A served read answers with the first `size`
/// delivered bytes and echoes the address and size; a served write echoes
/// the address alone.
pub open spec fn spec_serve(
    m: RequestAbs,
    cap: u16,
    o: crate::dispatch::BusOutcomeAbs,
) -> ResponseAbs {
    match m {
        RequestAbs::I2c(r) => match r.opcode {
            I2cOpcode::Read => if r.size > cap {
                ResponseAbs::I2c(
                    I2cResponseAbs { status: Status::Fail, address: None, size: None, data: None },
                )
            } else {
                match o {
                    crate::dispatch::BusOutcomeAbs::Data(d) => if d.len() >= r.size {
                        ResponseAbs::I2c(
                            I2cResponseAbs {
                                status: Status::Success,
                                address: Some(r.address),
                                size: Some(r.size),
                                data: Some(d.take(r.size as int)),
                            },
                        )
                    } else {
                        ResponseAbs::I2c(
                            I2cResponseAbs {
                                status: Status::Fail,
                                address: None,
                                size: None,
                                data: None,
                            },
                        )
                    },
                    _ => ResponseAbs::I2c(
                        I2cResponseAbs {
                            status: Status::Fail,
                            address: None,
                            size: None,
                            data: None,
                        },
                    ),
                }
            },
            I2cOpcode::Write => if r.data is None {
                ResponseAbs::InvalidRequest
            } else {
                match o {
                    crate::dispatch::BusOutcomeAbs::Done => ResponseAbs::I2c(
                        I2cResponseAbs {
                            status: Status::Success,
                            address: Some(r.address),
                            size: None,
                            data: None,
                        },
                    ),
                    _ => ResponseAbs::I2c(
                        I2cResponseAbs {
                            status: Status::Fail,
                            address: None,
                            size: None,
                            data: None,
                        },
                    ),
                }
            },
        },
        RequestAbs::Spi(r) => match r.opcode {
            SpiOpcode::Transfer => match (r.size, r.data) {
                (None, None) => ResponseAbs::InvalidRequest,
                (Some(n), _) => if n > cap {
                    ResponseAbs::Spi(SpiResponseAbs { status: Status::Fail, size: None, data: None })
                } else {
                    match o {
                        crate::dispatch::BusOutcomeAbs::Data(d) => if d.len() >= n {
                            ResponseAbs::Spi(
                                SpiResponseAbs {
                                    status: Status::Success,
                                    size: Some(n),
                                    data: Some(d.take(n as int)),
                                },
                            )
                        } else {
                            ResponseAbs::Spi(
                                SpiResponseAbs { status: Status::Fail, size: None, data: None },
                            )
                        },
                        _ => ResponseAbs::Spi(
                            SpiResponseAbs { status: Status::Fail, size: None, data: None },
                        ),
                    }
                },
                (None, Some(_)) => match o {
                    crate::dispatch::BusOutcomeAbs::Done => ResponseAbs::Spi(
                        SpiResponseAbs { status: Status::Success, size: None, data: None },
                    ),
                    _ => ResponseAbs::Spi(
                        SpiResponseAbs { status: Status::Fail, size: None, data: None },
                    ),
                },
            },
            SpiOpcode::Flush => match o {
                crate::dispatch::BusOutcomeAbs::Done => ResponseAbs::Spi(
                    SpiResponseAbs { status: Status::Success, size: None, data: None },
                ),
                _ => ResponseAbs::Spi(
                    SpiResponseAbs { status: Status::Fail, size: None, data: None },
                ),
            },
        },
        RequestAbs::Gpio(r) => if r.pin.index >= crate::dispatch::NUM_GPIO_PINS {
            ResponseAbs::Gpio(GpioResponse { status: Status::Fail, pin: r.pin, state: None })
        } else {
            match r.opcode {
                GpioOpcode::GetState => match o {
                    crate::dispatch::BusOutcomeAbs::Level(st) => ResponseAbs::Gpio(
                        GpioResponse {
                            status: Status::Success,
                            pin: r.pin,
                            state: Some(spec_level_of(st)),
                        },
                    ),
                    _ => ResponseAbs::Gpio(
                        GpioResponse { status: Status::Fail, pin: r.pin, state: None },
                    ),
                },
                GpioOpcode::SetState => if r.state is None {
                    ResponseAbs::InvalidRequest
                } else {
                    match o {
                        crate::dispatch::BusOutcomeAbs::Done => ResponseAbs::Gpio(
                            GpioResponse { status: Status::Success, pin: r.pin, state: None },
                        ),
                        _ => ResponseAbs::Gpio(
                            GpioResponse { status: Status::Fail, pin: r.pin, state: None },
                        ),
                    }
                },
            }
        },
        RequestAbs::SetConfig(_) => match o {
            crate::dispatch::BusOutcomeAbs::ConfigApplied { i2c_ok, spi_ok } => if i2c_ok
                && spi_ok {
                ResponseAbs::SetConfig(SetConfigResponse { status: Status::Success })
            } else {
                ResponseAbs::SetConfig(SetConfigResponse { status: Status::Fail })
            },
            _ => ResponseAbs::SetConfig(SetConfigResponse { status: Status::Fail }),
        },
    }
}

/// Every owed response is within protocol bounds.
pub proof fn lemma_serve_response_valid(
    m: RequestAbs,
    cap: u16,
    o: crate::dispatch::BusOutcomeAbs,
)
    ensures
        response_valid(spec_serve(m, cap, o)),
{
}

/// Builds the response owed to `m` after the bus reported `o`, with the
/// working buffer capacity `cap`.
pub fn serve_request(m: &Request, cap: u16, o: &crate::dispatch::BusOutcome) -> (r: Response)
    ensures
        r@ == spec_serve(m@, cap, o@),
{
    match m {
        Request::I2c(q) => match q.opcode {
            I2cOpcode::Read => {
                if q.size > cap {
                    Response::I2c(
                        I2cResponse { status: Status::Fail, address: None, size: None, data: None },
                    )
                } else {
                    match o {
                        crate::dispatch::BusOutcome::Data(d) => {
                            if d.len() >= q.size as usize {
                                let mut data = vstd::slice::slice_to_vec(d.as_slice());
                                data.truncate(q.size as usize);
                                Response::I2c(
                                    I2cResponse {
                                        status: Status::Success,
                                        address: Some(q.address),
                                        size: Some(q.size),
                                        data: Some(data),
                                    },
                                )
                            } else {
                                Response::I2c(
                                    I2cResponse {
                                        status: Status::Fail,
                                        address: None,
                                        size: None,
                                        data: None,
                                    },
                                )
                            }
                        },
                        _ => Response::I2c(
                            I2cResponse {
                                status: Status::Fail,
                                address: None,
                                size: None,
                                data: None,
                            },
                        ),
                    }
                }
            },
            I2cOpcode::Write => {
                if q.data.is_none() {
                    Response::InvalidRequest
                } else {
                    match o {
                        crate::dispatch::BusOutcome::Done => Response::I2c(
                            I2cResponse {
                                status: Status::Success,
                                address: Some(q.address),
                                size: None,
                                data: None,
                            },
                        ),
                        _ => Response::I2c(
                            I2cResponse {
                                status: Status::Fail,
                                address: None,
                                size: None,
                                data: None,
                            },
                        ),
                    }
                }
            },
        },
        Request::Spi(q) => match q.opcode {
            SpiOpcode::Transfer => match (&q.size, &q.data) {
                (None, None) => Response::InvalidRequest,
                (Some(n), _) => {
                    if *n > cap {
                        Response::Spi(SpiResponse { status: Status::Fail, size: None, data: None })
                    } else {
                        match o {
                            crate::dispatch::BusOutcome::Data(d) => {
                                if d.len() >= *n as usize {
                                    let mut data = vstd::slice::slice_to_vec(d.as_slice());
                                    data.truncate(*n as usize);
                                    Response::Spi(
                                        SpiResponse {
                                            status: Status::Success,
                                            size: Some(*n),
                                            data: Some(data),
                                        },
                                    )
                                } else {
                                    Response::Spi(
                                        SpiResponse {
                                            status: Status::Fail,
                                            size: None,
                                            data: None,
                                        },
                                    )
                                }
                            },
                            _ => Response::Spi(
                                SpiResponse { status: Status::Fail, size: None, data: None },
                            ),
                        }
                    }
                },
                (None, Some(_)) => match o {
                    crate::dispatch::BusOutcome::Done => Response::Spi(
                        SpiResponse { status: Status::Success, size: None, data: None },
                    ),
                    _ => Response::Spi(
                        SpiResponse { status: Status::Fail, size: None, data: None },
                    ),
                },
            },
            SpiOpcode::Flush => match o {
                crate::dispatch::BusOutcome::Done => Response::Spi(
                    SpiResponse { status: Status::Success, size: None, data: None },
                ),
                _ => Response::Spi(SpiResponse { status: Status::Fail, size: None, data: None }),
            },
        },
        Request::Gpio(q) => if q.pin.index >= crate::dispatch::NUM_GPIO_PINS {
            Response::Gpio(GpioResponse { status: Status::Fail, pin: q.pin, state: None })
        } else {
            match q.opcode {
                GpioOpcode::GetState => match o {
                    crate::dispatch::BusOutcome::Level(st) => Response::Gpio(
                        GpioResponse {
                            status: Status::Success,
                            pin: q.pin,
                            state: Some(level_of(*st)),
                        },
                    ),
                    _ => Response::Gpio(
                        GpioResponse { status: Status::Fail, pin: q.pin, state: None },
                    ),
                },
                GpioOpcode::SetState => {
                    if q.state.is_none() {
                        Response::InvalidRequest
                    } else {
                        match o {
                            crate::dispatch::BusOutcome::Done => Response::Gpio(
                                GpioResponse { status: Status::Success, pin: q.pin, state: None },
                            ),
                            _ => Response::Gpio(
                                GpioResponse { status: Status::Fail, pin: q.pin, state: None },
                            ),
                        }
                    }
                },
            }
        },
        Request::SetConfig(_) => match o {
            crate::dispatch::BusOutcome::ConfigApplied { i2c_ok, spi_ok } => {
                if *i2c_ok && *spi_ok {
                    Response::SetConfig(SetConfigResponse { status: Status::Success })
                } else {
                    Response::SetConfig(SetConfigResponse { status: Status::Fail })
                }
            },
            _ => Response::SetConfig(SetConfigResponse { status: Status::Fail }),
        },
    }
}

/// The response frame owed to a received frame of this variant: an
/// undecodable frame is answered with the invalid-request marker and the
/// connection survives.
pub open spec fn spec_serve_frame(
    b: Seq<u8>,
    cap: u16,
    o: crate::dispatch::BusOutcomeAbs,
) -> Seq<u8> {
    match spec_parse_request(b) {
        Some(m) => spec_encode_response(spec_serve(m, cap, o)),
        None => spec_encode_response(ResponseAbs::InvalidRequest),
    }
}

/// Decodes one frame of this variant, serves it, and encodes the response
/// frame. Never panics, whatever the frame holds.
pub fn serve_frame(frame: &Vec<u8>, cap: u16, o: &crate::dispatch::BusOutcome) -> (out: Vec<u8>)
    ensures
        out@ == spec_serve_frame(frame@, cap, o@),
{
    match decode_request(frame) {
        Some(m) => {
            let resp = serve_request(&m, cap, o);
            proof {
                lemma_serve_response_valid(m@, cap, o@);
            }
            encode_response(&resp)
        },
        None => encode_response(&Response::InvalidRequest),
    }
}

// ---------------------------------------------------------------- host side

/// What an I2C read response means to the host: the bytes read exactly when
/// the device answered the I2C family with success and a payload.
pub fn i2c_read_reply(r: Response) -> (out: Option<Vec<u8>>)
    ensures
        (match r@ {
            ResponseAbs::I2c(q) => match (q.status, q.data) {
                (Status::Success, Some(d)) => out matches Some(v) && v@ == d,
                _ => out is None,
            },
            _ => out is None,
        }),
{
    match r {
        Response::I2c(q) => match (q.status, q.data) {
            (Status::Success, Some(d)) => Some(d),
            _ => None,
        },
        _ => None,
    }
}

/// What an I2C write response means to the host: done exactly when the
/// device answered the I2C family with success.
pub fn i2c_write_reply_ok(r: &Response) -> (out: bool)
    ensures
        out == (r@ matches ResponseAbs::I2c(q) && q.status == Status::Success),
{
    match r {
        Response::I2c(q) => matches!(q.status, Status::Success),
        _ => false,
    }
}

/// What an SPI transfer response means to the host: the bytes read for a
/// reading transfer, nothing meaningful otherwise.
pub fn spi_read_reply(r: Response) -> (out: Option<Vec<u8>>)
    ensures
        (match r@ {
            ResponseAbs::Spi(q) => match (q.status, q.data) {
                (Status::Success, Some(d)) => out matches Some(v) && v@ == d,
                _ => out is None,
            },
            _ => out is None,
        }),
{
    match r {
        Response::Spi(q) => match (q.status, q.data) {
            (Status::Success, Some(d)) => Some(d),
            _ => None,
        },
        _ => None,
    }
}

/// Whether an SPI response reports success, for writes and flushes.
pub fn spi_reply_ok(r: &Response) -> (out: bool)
    ensures
        out == (r@ matches ResponseAbs::Spi(q) && q.status == Status::Success),
{
    match r {
        Response::Spi(q) => matches!(q.status, Status::Success),
        _ => false,
    }
}

/// What a GPIO get response means to the host: the sampled level exactly
/// when the device answered the GPIO family with success and a level.
pub fn gpio_get_reply(r: &Response) -> (out: Option<GpioState>)
    ensures
        (match r@ {
            ResponseAbs::Gpio(q) => match (q.status, q.state) {
                (Status::Success, Some(st)) => out == Some(st),
                _ => out is None,
            },
            _ => out is None,
        }),
{
    match r {
        Response::Gpio(q) => match (q.status, q.state) {
            (Status::Success, Some(st)) => Some(st),
            _ => None,
        },
        _ => None,
    }
}

/// Whether a GPIO set response reports success.
pub fn gpio_put_reply_ok(r: &Response) -> (out: bool)
    ensures
        out == (r@ matches ResponseAbs::Gpio(q) && q.status == Status::Success),
{
    match r {
        Response::Gpio(q) => matches!(q.status, Status::Success),
        _ => false,
    }
}

/// Whether a configuration response reports success.
pub fn set_config_reply_ok(r: &Response) -> (out: bool)
    ensures
        out == (r@ matches ResponseAbs::SetConfig(q) && q.status == Status::Success),
{
    match r {
        Response::SetConfig(q) => matches!(q.status, Status::Success),
        _ => false,
    }
}

} // verus!
