//! Frame codec for the schema: every frame is a one-byte endpoint key
//! followed by the endpoint's encoded body. Requests and responses are
//! matched by key, never by body shape, so the dispatcher can route a frame
//! before it knows the body. Decoding is total: it never reads out of
//! bounds, and it accepts exactly the canonical encodings.

use vstd::prelude::*;

use crate::codec::{
    decode_chunk, decode_u8, decode_varint16, decode_varint32, encode_chunk, encode_varint16,
    encode_varint32, lemma_take16_varint16, lemma_take32_varint32, lemma_take_chunk, spec_chunk,
    spec_take16, spec_take32, spec_take8, spec_take_chunk, spec_varint16, spec_varint32,
};
use crate::schema::{
    GpioGetFail, GpioGetRequest, GpioPutFail, GpioPutRequest, GpioState, GpioWaitFail,
    GpioWaitRequest, I2cReadFail, I2cReadRequest, I2cWriteFail, I2cWriteRequest,
    SetConfigurationFail, SetConfigurationRequest, SpiFlushFail, SpiPhase, SpiPolarity,
    SpiReadFail, SpiReadRequest, SpiWriteFail, SpiWriteRequest, VersionInfo, WaitKind,
};

verus! {

/// Endpoint key of `ping`.
pub const KEY_PING: u8 = 0;

/// Endpoint key of `i2c/read`.
pub const KEY_I2C_READ: u8 = 1;

/// Endpoint key of `i2c/write`.
pub const KEY_I2C_WRITE: u8 = 2;

/// Endpoint key of `spi/read`.
pub const KEY_SPI_READ: u8 = 3;

/// Endpoint key of `spi/write`.
pub const KEY_SPI_WRITE: u8 = 4;

/// Endpoint key of `spi/flush`.
pub const KEY_SPI_FLUSH: u8 = 5;

/// Endpoint key of `gpio/get`.
pub const KEY_GPIO_GET: u8 = 6;

/// Endpoint key of `gpio/put`.
pub const KEY_GPIO_PUT: u8 = 7;

/// Endpoint key of `gpio/wait-high`.
pub const KEY_GPIO_WAIT_HIGH: u8 = 8;

/// Endpoint key of `gpio/wait-low`.
pub const KEY_GPIO_WAIT_LOW: u8 = 9;

/// Endpoint key of `gpio/wait-rising`.
pub const KEY_GPIO_WAIT_RISING: u8 = 10;

/// Endpoint key of `gpio/wait-falling`.
pub const KEY_GPIO_WAIT_FALLING: u8 = 11;

/// Endpoint key of `gpio/wait-any`.
pub const KEY_GPIO_WAIT_ANY: u8 = 12;

/// Endpoint key of `set-config`.
pub const KEY_SET_CONFIG: u8 = 13;

/// Endpoint key of `version`.
pub const KEY_VERSION: u8 = 14;

/// Key of the response the device sends for a frame it could not decode.
pub const KEY_INVALID: u8 = 15;

/// Tag byte that opens the body of a successful fallible response.
pub const TAG_OK: u8 = 0;

/// Tag byte that opens the body of a failed fallible response.
pub const TAG_ERR: u8 = 1;

// ---------------------------------------------------------------- messages

/// A decoded request frame: one variant per endpoint.
#[derive(Debug, Clone, PartialEq, Eq)]
pub enum RequestMsg {
    Ping(u32),
    I2cRead(I2cReadRequest),
    I2cWrite(I2cWriteRequest),
    SpiRead(SpiReadRequest),
    SpiWrite(SpiWriteRequest),
    SpiFlush,
    GpioGet(GpioGetRequest),
    GpioPut(GpioPutRequest),
    GpioWait(WaitKind, GpioWaitRequest),
    SetConfiguration(SetConfigurationRequest),
    Version,
}

/// Mathematical form of a request frame: byte payloads as sequences.
pub enum RequestAbs {
    Ping(u32),
    I2cRead { address: u8, count: u16 },
    I2cWrite { address: u8, contents: Seq<u8> },
    SpiRead { count: u16 },
    SpiWrite { contents: Seq<u8> },
    SpiFlush,
    GpioGet { pin: u8 },
    GpioPut { pin: u8, state: GpioState },
    GpioWait { kind: WaitKind, pin: u8 },
    SetConfiguration {
        i2c_frequency: u32,
        spi_frequency: u32,
        spi_phase: SpiPhase,
        spi_polarity: SpiPolarity,
    },
    Version,
}

impl View for RequestMsg {
    type V = RequestAbs;

    open spec fn view(&self) -> RequestAbs {
        match self {
            RequestMsg::Ping(v) => RequestAbs::Ping(*v),
            RequestMsg::I2cRead(r) => RequestAbs::I2cRead { address: r.address, count: r.count },
            RequestMsg::I2cWrite(r) => RequestAbs::I2cWrite {
                address: r.address,
                contents: r.contents@,
            },
            RequestMsg::SpiRead(r) => RequestAbs::SpiRead { count: r.count },
            RequestMsg::SpiWrite(r) => RequestAbs::SpiWrite { contents: r.contents@ },
            RequestMsg::SpiFlush => RequestAbs::SpiFlush,
            RequestMsg::GpioGet(r) => RequestAbs::GpioGet { pin: r.pin },
            RequestMsg::GpioPut(r) => RequestAbs::GpioPut { pin: r.pin, state: r.state },
            RequestMsg::GpioWait(kind, r) => RequestAbs::GpioWait { kind: *kind, pin: r.pin },
            RequestMsg::SetConfiguration(r) => RequestAbs::SetConfiguration {
                i2c_frequency: r.i2c_frequency,
                spi_frequency: r.spi_frequency,
                spi_phase: r.spi_phase,
                spi_polarity: r.spi_polarity,
            },
            RequestMsg::Version => RequestAbs::Version,
        }
    }
}

/// A request is within protocol bounds: every byte payload fits the
/// two-byte length prefix.
pub open spec fn request_abs_valid(m: RequestAbs) -> bool {
    match m {
        RequestAbs::I2cWrite { contents, .. } => contents.len() <= 0xffff,
        RequestAbs::SpiWrite { contents } => contents.len() <= 0xffff,
        _ => true,
    }
}

// ---------------------------------------------------------------- enum bytes

/// Wire byte of a GPIO level.
pub open spec fn spec_state_byte(s: GpioState) -> u8 {
    match s {
        GpioState::Low => 0,
        GpioState::High => 1,
    }
}

/// Wire byte of an SPI phase.
pub open spec fn spec_phase_byte(p: SpiPhase) -> u8 {
    match p {
        SpiPhase::CaptureOnFirstTransition => 0,
        SpiPhase::CaptureOnSecondTransition => 1,
    }
}

/// Wire byte of an SPI polarity.
pub open spec fn spec_polarity_byte(p: SpiPolarity) -> u8 {
    match p {
        SpiPolarity::IdleLow => 0,
        SpiPolarity::IdleHigh => 1,
    }
}

/// Endpoint key of a `gpio/wait-*` endpoint.
pub open spec fn spec_wait_key(k: WaitKind) -> u8 {
    match k {
        WaitKind::High => KEY_GPIO_WAIT_HIGH,
        WaitKind::Low => KEY_GPIO_WAIT_LOW,
        WaitKind::RisingEdge => KEY_GPIO_WAIT_RISING,
        WaitKind::FallingEdge => KEY_GPIO_WAIT_FALLING,
        WaitKind::AnyEdge => KEY_GPIO_WAIT_ANY,
    }
}

/// Emits the wire byte of a GPIO level.
pub fn state_byte(s: GpioState) -> (r: u8)
    ensures
        r == spec_state_byte(s),
{
    match s {
        GpioState::Low => 0,
        GpioState::High => 1,
    }
}

/// Emits the wire byte of an SPI phase.
pub fn phase_byte(p: SpiPhase) -> (r: u8)
    ensures
        r == spec_phase_byte(p),
{
    match p {
        SpiPhase::CaptureOnFirstTransition => 0,
        SpiPhase::CaptureOnSecondTransition => 1,
    }
}

/// Emits the wire byte of an SPI polarity.
pub fn polarity_byte(p: SpiPolarity) -> (r: u8)
    ensures
        r == spec_polarity_byte(p),
{
    match p {
        SpiPolarity::IdleLow => 0,
        SpiPolarity::IdleHigh => 1,
    }
}

/// Emits the endpoint key of a `gpio/wait-*` endpoint.
pub fn wait_key(k: WaitKind) -> (r: u8)
    ensures
        r == spec_wait_key(k),
{
    match k {
        WaitKind::High => KEY_GPIO_WAIT_HIGH,
        WaitKind::Low => KEY_GPIO_WAIT_LOW,
        WaitKind::RisingEdge => KEY_GPIO_WAIT_RISING,
        WaitKind::FallingEdge => KEY_GPIO_WAIT_FALLING,
        WaitKind::AnyEdge => KEY_GPIO_WAIT_ANY,
    }
}

// ---------------------------------------------------------------- encoding

/// The encoded form of a request frame: its endpoint key, then its body.
pub open spec fn spec_encode_request(m: RequestAbs) -> Seq<u8> {
    match m {
        RequestAbs::Ping(v) => seq![KEY_PING] + spec_varint32(v),
        RequestAbs::I2cRead { address, count } => seq![KEY_I2C_READ, address] + spec_varint16(
            count,
        ),
        RequestAbs::I2cWrite { address, contents } => seq![KEY_I2C_WRITE, address] + spec_chunk(
            contents,
        ),
        RequestAbs::SpiRead { count } => seq![KEY_SPI_READ] + spec_varint16(count),
        RequestAbs::SpiWrite { contents } => seq![KEY_SPI_WRITE] + spec_chunk(contents),
        RequestAbs::SpiFlush => seq![KEY_SPI_FLUSH],
        RequestAbs::GpioGet { pin } => seq![KEY_GPIO_GET, pin],
        RequestAbs::GpioPut { pin, state } => seq![KEY_GPIO_PUT, pin, spec_state_byte(state)],
        RequestAbs::GpioWait { kind, pin } => seq![spec_wait_key(kind), pin],
        RequestAbs::SetConfiguration { i2c_frequency, spi_frequency, spi_phase, spi_polarity } =>
            seq![KEY_SET_CONFIG] + spec_varint32(i2c_frequency) + spec_varint32(spi_frequency)
            + seq![spec_phase_byte(spi_phase), spec_polarity_byte(spi_polarity)],
        RequestAbs::Version => seq![KEY_VERSION],
    }
}

/// Parses the body of a request frame, given its key and the bytes after
/// the key. Succeeds only if the body is exactly consumed.
pub open spec fn spec_parse_request_body(key: u8, r: Seq<u8>) -> Option<RequestAbs> {
    if key == KEY_PING {
        match spec_take32(r) {
            Some((v, r2)) => if r2.len() == 0 {
                Some(RequestAbs::Ping(v))
            } else {
                None
            },
            None => None,
        }
    } else if key == KEY_I2C_READ {
        match spec_take8(r) {
            Some((address, r2)) => match spec_take16(r2) {
                Some((count, r3)) => if r3.len() == 0 {
                    Some(RequestAbs::I2cRead { address, count })
                } else {
                    None
                },
                None => None,
            },
            None => None,
        }
    } else if key == KEY_I2C_WRITE {
        match spec_take8(r) {
            Some((address, r2)) => match spec_take_chunk(r2) {
                Some((contents, r3)) => if r3.len() == 0 {
                    Some(RequestAbs::I2cWrite { address, contents })
                } else {
                    None
                },
                None => None,
            },
            None => None,
        }
    } else if key == KEY_SPI_READ {
        match spec_take16(r) {
            Some((count, r2)) => if r2.len() == 0 {
                Some(RequestAbs::SpiRead { count })
            } else {
                None
            },
            None => None,
        }
    } else if key == KEY_SPI_WRITE {
        match spec_take_chunk(r) {
            Some((contents, r2)) => if r2.len() == 0 {
                Some(RequestAbs::SpiWrite { contents })
            } else {
                None
            },
            None => None,
        }
    } else if key == KEY_SPI_FLUSH {
        if r.len() == 0 {
            Some(RequestAbs::SpiFlush)
        } else {
            None
        }
    } else if key == KEY_GPIO_GET {
        match spec_take8(r) {
            Some((pin, r2)) => if r2.len() == 0 {
                Some(RequestAbs::GpioGet { pin })
            } else {
                None
            },
            None => None,
        }
    } else if key == KEY_GPIO_PUT {
        match spec_take8(r) {
            Some((pin, r2)) => match spec_take8(r2) {
                Some((sb, r3)) => if r3.len() == 0 && sb == 0 {
                    Some(RequestAbs::GpioPut { pin, state: GpioState::Low })
                } else if r3.len() == 0 && sb == 1 {
                    Some(RequestAbs::GpioPut { pin, state: GpioState::High })
                } else {
                    None
                },
                None => None,
            },
            None => None,
        }
    } else if KEY_GPIO_WAIT_HIGH <= key <= KEY_GPIO_WAIT_ANY {
        let kind = if key == KEY_GPIO_WAIT_HIGH {
            WaitKind::High
        } else if key == KEY_GPIO_WAIT_LOW {
            WaitKind::Low
        } else if key == KEY_GPIO_WAIT_RISING {
            WaitKind::RisingEdge
        } else if key == KEY_GPIO_WAIT_FALLING {
            WaitKind::FallingEdge
        } else {
            WaitKind::AnyEdge
        };
        match spec_take8(r) {
            Some((pin, r2)) => if r2.len() == 0 {
                Some(RequestAbs::GpioWait { kind, pin })
            } else {
                None
            },
            None => None,
        }
    } else if key == KEY_SET_CONFIG {
        match spec_take32(r) {
            Some((i2c_frequency, r2)) => match spec_take32(r2) {
                Some((spi_frequency, r3)) => match spec_take8(r3) {
                    Some((pb, r4)) => match spec_take8(r4) {
                        Some((ob, r5)) => if r5.len() == 0 && pb <= 1 && ob <= 1 {
                            Some(RequestAbs::SetConfiguration {
                                i2c_frequency,
                                spi_frequency,
                                spi_phase: if pb == 0 {
                                    SpiPhase::CaptureOnFirstTransition
                                } else {
                                    SpiPhase::CaptureOnSecondTransition
                                },
                                spi_polarity: if ob == 0 {
                                    SpiPolarity::IdleLow
                                } else {
                                    SpiPolarity::IdleHigh
                                },
                            })
                        } else {
                            None
                        },
                        None => None,
                    },
                    None => None,
                },
                None => None,
            },
            None => None,
        }
    } else if key == KEY_VERSION {
        if r.len() == 0 {
            Some(RequestAbs::Version)
        } else {
            None
        }
    } else {
        None
    }
}

/// Parses a whole request frame.
pub open spec fn spec_parse_request(b: Seq<u8>) -> Option<RequestAbs> {
    match spec_take8(b) {
        Some((key, r)) => spec_parse_request_body(key, r),
        None => None,
    }
}

/// Reading one byte off a frame that starts with a known byte.
proof fn lemma_take8_byte(k: u8, rest: Seq<u8>)
    ensures
        spec_take8(seq![k] + rest) == Some((k, rest)),
{
    assert((seq![k] + rest)[0] == k);
    assert((seq![k] + rest).skip(1) =~= rest);
}

/// Decoding inverts encoding: parsing the encoded form of any in-bounds
/// request yields that request again.
#[verifier::rlimit(60)]
pub proof fn lemma_request_round_trip(m: RequestAbs)
    requires
        request_abs_valid(m),
    ensures
        spec_parse_request(spec_encode_request(m)) == Some(m),
{
    let b = spec_encode_request(m);
    match m {
        RequestAbs::Ping(v) => {
            assert(b =~= seq![KEY_PING] + spec_varint32(v));
            lemma_take8_byte(KEY_PING, spec_varint32(v));
            assert(spec_varint32(v) =~= spec_varint32(v) + Seq::<u8>::empty());
            lemma_take32_varint32(v, Seq::<u8>::empty());
        },
        RequestAbs::I2cRead { address, count } => {
            assert(b =~= seq![KEY_I2C_READ] + (seq![address] + spec_varint16(count)));
            lemma_take8_byte(KEY_I2C_READ, seq![address] + spec_varint16(count));
            lemma_take8_byte(address, spec_varint16(count));
            assert(spec_varint16(count) =~= spec_varint16(count) + Seq::<u8>::empty());
            lemma_take16_varint16(count, Seq::<u8>::empty());
        },
        RequestAbs::I2cWrite { address, contents } => {
            assert(b =~= seq![KEY_I2C_WRITE] + (seq![address] + spec_chunk(contents)));
            lemma_take8_byte(KEY_I2C_WRITE, seq![address] + spec_chunk(contents));
            lemma_take8_byte(address, spec_chunk(contents));
            assert(spec_chunk(contents) =~= spec_chunk(contents) + Seq::<u8>::empty());
            lemma_take_chunk(contents, Seq::<u8>::empty());
        },
        RequestAbs::SpiRead { count } => {
            assert(b =~= seq![KEY_SPI_READ] + spec_varint16(count));
            lemma_take8_byte(KEY_SPI_READ, spec_varint16(count));
            assert(spec_varint16(count) =~= spec_varint16(count) + Seq::<u8>::empty());
            lemma_take16_varint16(count, Seq::<u8>::empty());
        },
        RequestAbs::SpiWrite { contents } => {
            assert(b =~= seq![KEY_SPI_WRITE] + spec_chunk(contents));
            lemma_take8_byte(KEY_SPI_WRITE, spec_chunk(contents));
            assert(spec_chunk(contents) =~= spec_chunk(contents) + Seq::<u8>::empty());
            lemma_take_chunk(contents, Seq::<u8>::empty());
        },
        RequestAbs::SpiFlush => {
            assert(b =~= seq![KEY_SPI_FLUSH] + Seq::<u8>::empty());
            lemma_take8_byte(KEY_SPI_FLUSH, Seq::<u8>::empty());
        },
        RequestAbs::GpioGet { pin } => {
            assert(b =~= seq![KEY_GPIO_GET] + (seq![pin] + Seq::<u8>::empty()));
            lemma_take8_byte(KEY_GPIO_GET, seq![pin] + Seq::<u8>::empty());
            lemma_take8_byte(pin, Seq::<u8>::empty());
        },
        RequestAbs::GpioPut { pin, state } => {
            let sb = spec_state_byte(state);
            assert(b =~= seq![KEY_GPIO_PUT] + (seq![pin] + (seq![sb] + Seq::<u8>::empty())));
            lemma_take8_byte(KEY_GPIO_PUT, seq![pin] + (seq![sb] + Seq::<u8>::empty()));
            lemma_take8_byte(pin, seq![sb] + Seq::<u8>::empty());
            lemma_take8_byte(sb, Seq::<u8>::empty());
        },
        RequestAbs::GpioWait { kind, pin } => {
            let k = spec_wait_key(kind);
            assert(b =~= seq![k] + (seq![pin] + Seq::<u8>::empty()));
            lemma_take8_byte(k, seq![pin] + Seq::<u8>::empty());
            lemma_take8_byte(pin, Seq::<u8>::empty());
        },
        RequestAbs::SetConfiguration { i2c_frequency, spi_frequency, spi_phase, spi_polarity } => {
            let pb = spec_phase_byte(spi_phase);
            let ob = spec_polarity_byte(spi_polarity);
            let tail = spec_varint32(i2c_frequency) + (spec_varint32(spi_frequency) + (seq![pb]
                + (seq![ob] + Seq::<u8>::empty())));
            assert(b =~= seq![KEY_SET_CONFIG] + tail);
            lemma_take8_byte(KEY_SET_CONFIG, tail);
            lemma_take32_varint32(
                i2c_frequency,
                spec_varint32(spi_frequency) + (seq![pb] + (seq![ob] + Seq::<u8>::empty())),
            );
            lemma_take32_varint32(spi_frequency, seq![pb] + (seq![ob] + Seq::<u8>::empty()));
            lemma_take8_byte(pb, seq![ob] + Seq::<u8>::empty());
            lemma_take8_byte(ob, Seq::<u8>::empty());
        },
        RequestAbs::Version => {
            assert(b =~= seq![KEY_VERSION] + Seq::<u8>::empty());
            lemma_take8_byte(KEY_VERSION, Seq::<u8>::empty());
        },
    }
}

/// Encodes a request frame: its endpoint key, then its body.
pub fn encode_request(m: &RequestMsg) -> (r: Vec<u8>)
    requires
        request_abs_valid(m@),
    ensures
        r@ == spec_encode_request(m@),
{
    let mut out: Vec<u8> = Vec::new();
    match m {
        RequestMsg::Ping(v) => {
            out.push(KEY_PING);
            encode_varint32(*v, &mut out);
            assert(out@ =~= spec_encode_request(m@));
        },
        RequestMsg::I2cRead(q) => {
            out.push(KEY_I2C_READ);
            out.push(q.address);
            encode_varint16(q.count, &mut out);
            assert(out@ =~= spec_encode_request(m@));
        },
        RequestMsg::I2cWrite(q) => {
            out.push(KEY_I2C_WRITE);
            out.push(q.address);
            encode_chunk(&q.contents, &mut out);
            assert(out@ =~= spec_encode_request(m@));
        },
        RequestMsg::SpiRead(q) => {
            out.push(KEY_SPI_READ);
            encode_varint16(q.count, &mut out);
            assert(out@ =~= spec_encode_request(m@));
        },
        RequestMsg::SpiWrite(q) => {
            out.push(KEY_SPI_WRITE);
            encode_chunk(&q.contents, &mut out);
            assert(out@ =~= spec_encode_request(m@));
        },
        RequestMsg::SpiFlush => {
            out.push(KEY_SPI_FLUSH);
            assert(out@ =~= spec_encode_request(m@));
        },
        RequestMsg::GpioGet(q) => {
            out.push(KEY_GPIO_GET);
            out.push(q.pin);
            assert(out@ =~= spec_encode_request(m@));
        },
        RequestMsg::GpioPut(q) => {
            out.push(KEY_GPIO_PUT);
            out.push(q.pin);
            out.push(state_byte(q.state));
            assert(out@ =~= spec_encode_request(m@));
        },
        RequestMsg::GpioWait(kind, q) => {
            out.push(wait_key(*kind));
            out.push(q.pin);
            assert(out@ =~= spec_encode_request(m@));
        },
        RequestMsg::SetConfiguration(q) => {
            out.push(KEY_SET_CONFIG);
            encode_varint32(q.i2c_frequency, &mut out);
            encode_varint32(q.spi_frequency, &mut out);
            out.push(phase_byte(q.spi_phase));
            out.push(polarity_byte(q.spi_polarity));
            assert(out@ =~= spec_encode_request(m@));
        },
        RequestMsg::Version => {
            out.push(KEY_VERSION);
            assert(out@ =~= spec_encode_request(m@));
        },
    }
    out
}

/// Decodes a request frame. Returns the request exactly when the bytes are
/// a canonical request frame, and nothing otherwise.
pub fn decode_request(b: &Vec<u8>) -> (r: Option<RequestMsg>)
    ensures
        (match r {
            Some(m) => spec_parse_request(b@) == Some(m@),
            None => spec_parse_request(b@) is None,
        }),
{
    proof {
        assert(b@.skip(0) =~= b@);
    }
    match decode_u8(b, 0) {
        None => None,
        Some((key, p1)) => {
            if key == KEY_PING {
                match decode_varint32(b, p1) {
                    Some((v, p2)) => if p2 == b.len() {
                        Some(RequestMsg::Ping(v))
                    } else {
                        None
                    },
                    None => None,
                }
            } else if key == KEY_I2C_READ {
                match decode_u8(b, p1) {
                    Some((address, p2)) => match decode_varint16(b, p2) {
                        Some((count, p3)) => if p3 == b.len() {
                            Some(RequestMsg::I2cRead(I2cReadRequest { address, count }))
                        } else {
                            None
                        },
                        None => None,
                    },
                    None => None,
                }
            } else if key == KEY_I2C_WRITE {
                match decode_u8(b, p1) {
                    Some((address, p2)) => match decode_chunk(b, p2) {
                        Some((contents, p3)) => if p3 == b.len() {
                            Some(RequestMsg::I2cWrite(I2cWriteRequest { address, contents }))
                        } else {
                            None
                        },
                        None => None,
                    },
                    None => None,
                }
            } else if key == KEY_SPI_READ {
                match decode_varint16(b, p1) {
                    Some((count, p2)) => if p2 == b.len() {
                        Some(RequestMsg::SpiRead(SpiReadRequest { count }))
                    } else {
                        None
                    },
                    None => None,
                }
            } else if key == KEY_SPI_WRITE {
                match decode_chunk(b, p1) {
                    Some((contents, p2)) => if p2 == b.len() {
                        Some(RequestMsg::SpiWrite(SpiWriteRequest { contents }))
                    } else {
                        None
                    },
                    None => None,
                }
            } else if key == KEY_SPI_FLUSH {
                if p1 == b.len() {
                    Some(RequestMsg::SpiFlush)
                } else {
                    None
                }
            } else if key == KEY_GPIO_GET {
                match decode_u8(b, p1) {
                    Some((pin, p2)) => if p2 == b.len() {
                        Some(RequestMsg::GpioGet(GpioGetRequest { pin }))
                    } else {
                        None
                    },
                    None => None,
                }
            } else if key == KEY_GPIO_PUT {
                match decode_u8(b, p1) {
                    Some((pin, p2)) => match decode_u8(b, p2) {
                        Some((sb, p3)) => if p3 == b.len() && sb == 0 {
                            Some(RequestMsg::GpioPut(GpioPutRequest { pin, state: GpioState::Low }))
                        } else if p3 == b.len() && sb == 1 {
                            Some(
                                RequestMsg::GpioPut(GpioPutRequest { pin, state: GpioState::High }),
                            )
                        } else {
                            None
                        },
                        None => None,
                    },
                    None => None,
                }
            } else if KEY_GPIO_WAIT_HIGH <= key && key <= KEY_GPIO_WAIT_ANY {
                let kind = if key == KEY_GPIO_WAIT_HIGH {
                    WaitKind::High
                } else if key == KEY_GPIO_WAIT_LOW {
                    WaitKind::Low
                } else if key == KEY_GPIO_WAIT_RISING {
                    WaitKind::RisingEdge
                } else if key == KEY_GPIO_WAIT_FALLING {
                    WaitKind::FallingEdge
                } else {
                    WaitKind::AnyEdge
                };
                match decode_u8(b, p1) {
                    Some((pin, p2)) => if p2 == b.len() {
                        Some(RequestMsg::GpioWait(kind, GpioWaitRequest { pin }))
                    } else {
                        None
                    },
                    None => None,
                }
            } else if key == KEY_SET_CONFIG {
                match decode_varint32(b, p1) {
                    Some((i2c_frequency, p2)) => match decode_varint32(b, p2) {
                        Some((spi_frequency, p3)) => match decode_u8(b, p3) {
                            Some((pb, p4)) => match decode_u8(b, p4) {
                                Some((ob, p5)) => if p5 == b.len() && pb <= 1 && ob <= 1 {
                                    let spi_phase = if pb == 0 {
                                        SpiPhase::CaptureOnFirstTransition
                                    } else {
                                        SpiPhase::CaptureOnSecondTransition
                                    };
                                    let spi_polarity = if ob == 0 {
                                        SpiPolarity::IdleLow
                                    } else {
                                        SpiPolarity::IdleHigh
                                    };
                                    Some(
                                        RequestMsg::SetConfiguration(
                                            SetConfigurationRequest {
                                                i2c_frequency,
                                                spi_frequency,
                                                spi_phase,
                                                spi_polarity,
                                            },
                                        ),
                                    )
                                } else {
                                    None
                                },
                                None => None,
                            },
                            None => None,
                        },
                        None => None,
                    },
                    None => None,
                }
            } else if key == KEY_VERSION {
                if p1 == b.len() {
                    Some(RequestMsg::Version)
                } else {
                    None
                }
            } else {
                None
            }
        },
    }
}

// ---------------------------------------------------------------- responses

/// A decoded response frame: one variant per endpoint, plus the marker the
/// device sends for a request frame it could not decode.
#[derive(Debug, PartialEq, Eq)]
pub enum ResponseMsg {
    Pong(u32),
    I2cRead(Result<Vec<u8>, I2cReadFail>),
    I2cWrite(Result<(), I2cWriteFail>),
    SpiRead(Result<Vec<u8>, SpiReadFail>),
    SpiWrite(Result<(), SpiWriteFail>),
    SpiFlush(Result<(), SpiFlushFail>),
    GpioGet(Result<GpioState, GpioGetFail>),
    GpioPut(Result<(), GpioPutFail>),
    GpioWait(WaitKind, Result<(), GpioWaitFail>),
    SetConfiguration(Result<(), SetConfigurationFail>),
    Version(VersionInfo),
    InvalidRequest,
}

/// Mathematical form of a response frame: byte payloads as sequences.
pub enum ResponseAbs {
    Pong(u32),
    I2cRead(Result<Seq<u8>, I2cReadFail>),
    I2cWrite(Result<(), I2cWriteFail>),
    SpiRead(Result<Seq<u8>, SpiReadFail>),
    SpiWrite(Result<(), SpiWriteFail>),
    SpiFlush(Result<(), SpiFlushFail>),
    GpioGet(Result<GpioState, GpioGetFail>),
    GpioPut(Result<(), GpioPutFail>),
    GpioWait(WaitKind, Result<(), GpioWaitFail>),
    SetConfiguration(Result<(), SetConfigurationFail>),
    Version(VersionInfo),
    InvalidRequest,
}

impl View for ResponseMsg {
    type V = ResponseAbs;

    open spec fn view(&self) -> ResponseAbs {
        match self {
            ResponseMsg::Pong(v) => ResponseAbs::Pong(*v),
            ResponseMsg::I2cRead(res) => ResponseAbs::I2cRead(
                match res {
                    Ok(d) => Ok(d@),
                    Err(e) => Err(*e),
                },
            ),
            ResponseMsg::I2cWrite(res) => ResponseAbs::I2cWrite(*res),
            ResponseMsg::SpiRead(res) => ResponseAbs::SpiRead(
                match res {
                    Ok(d) => Ok(d@),
                    Err(e) => Err(*e),
                },
            ),
            ResponseMsg::SpiWrite(res) => ResponseAbs::SpiWrite(*res),
            ResponseMsg::SpiFlush(res) => ResponseAbs::SpiFlush(*res),
            ResponseMsg::GpioGet(res) => ResponseAbs::GpioGet(*res),
            ResponseMsg::GpioPut(res) => ResponseAbs::GpioPut(*res),
            ResponseMsg::GpioWait(kind, res) => ResponseAbs::GpioWait(*kind, *res),
            ResponseMsg::SetConfiguration(res) => ResponseAbs::SetConfiguration(*res),
            ResponseMsg::Version(vi) => ResponseAbs::Version(*vi),
            ResponseMsg::InvalidRequest => ResponseAbs::InvalidRequest,
        }
    }
}

/// A response is within protocol bounds: every byte payload fits the
/// two-byte length prefix.
pub open spec fn response_abs_valid(m: ResponseAbs) -> bool {
    match m {
        ResponseAbs::I2cRead(Ok(d)) => d.len() <= 0xffff,
        ResponseAbs::SpiRead(Ok(d)) => d.len() <= 0xffff,
        _ => true,
    }
}

/// Body of a fallible response that carries no payload on success: one tag
/// byte.
pub open spec fn spec_unit_body<E>(res: Result<(), E>) -> Seq<u8> {
    match res {
        Ok(_) => seq![TAG_OK],
        Err(_) => seq![TAG_ERR],
    }
}

/// Body of a fallible response that carries bytes on success.
pub open spec fn spec_data_body<E>(res: Result<Seq<u8>, E>) -> Seq<u8> {
    match res {
        Ok(d) => seq![TAG_OK] + spec_chunk(d),
        Err(_) => seq![TAG_ERR],
    }
}

/// The encoded form of a response frame: the answered endpoint's key, then
/// the body. A failure marker encodes as the error tag alone: it carries no
/// diagnostic payload.
pub open spec fn spec_encode_response(m: ResponseAbs) -> Seq<u8> {
    match m {
        ResponseAbs::Pong(v) => seq![KEY_PING] + spec_varint32(v),
        ResponseAbs::I2cRead(res) => seq![KEY_I2C_READ] + spec_data_body(res),
        ResponseAbs::I2cWrite(res) => seq![KEY_I2C_WRITE] + spec_unit_body(res),
        ResponseAbs::SpiRead(res) => seq![KEY_SPI_READ] + spec_data_body(res),
        ResponseAbs::SpiWrite(res) => seq![KEY_SPI_WRITE] + spec_unit_body(res),
        ResponseAbs::SpiFlush(res) => seq![KEY_SPI_FLUSH] + spec_unit_body(res),
        ResponseAbs::GpioGet(res) => seq![KEY_GPIO_GET] + match res {
            Ok(st) => seq![TAG_OK, spec_state_byte(st)],
            Err(_) => seq![TAG_ERR],
        },
        ResponseAbs::GpioPut(res) => seq![KEY_GPIO_PUT] + spec_unit_body(res),
        ResponseAbs::GpioWait(kind, res) => seq![spec_wait_key(kind)] + spec_unit_body(res),
        ResponseAbs::SetConfiguration(res) => seq![KEY_SET_CONFIG] + spec_unit_body(res),
        ResponseAbs::Version(vi) => seq![KEY_VERSION] + spec_varint16(vi.major) + spec_varint16(
            vi.minor,
        ) + spec_varint32(vi.patch),
        ResponseAbs::InvalidRequest => seq![KEY_INVALID],
    }
}

/// Parses the tag-only body shared by the fallible no-payload responses.
pub open spec fn spec_parse_unit_body<E>(r: Seq<u8>, err: E) -> Option<Result<(), E>> {
    match spec_take8(r) {
        Some((tag, r2)) => if r2.len() == 0 && tag == TAG_OK {
            Some(Ok(()))
        } else if r2.len() == 0 && tag == TAG_ERR {
            Some(Err(err))
        } else {
            None
        },
        None => None,
    }
}

/// Parses the body of a fallible response that carries bytes on success.
pub open spec fn spec_parse_data_body<E>(r: Seq<u8>, err: E) -> Option<Result<Seq<u8>, E>> {
    match spec_take8(r) {
        Some((tag, r2)) => if tag == TAG_OK {
            match spec_take_chunk(r2) {
                Some((d, r3)) => if r3.len() == 0 {
                    Some(Ok(d))
                } else {
                    None
                },
                None => None,
            }
        } else if tag == TAG_ERR && r2.len() == 0 {
            Some(Err(err))
        } else {
            None
        },
        None => None,
    }
}

/// Parses the body of a response frame, given its key and the bytes after
/// the key. Succeeds only if the body is exactly consumed.
pub open spec fn spec_parse_response_body(key: u8, r: Seq<u8>) -> Option<ResponseAbs> {
    if key == KEY_PING {
        match spec_take32(r) {
            Some((v, r2)) => if r2.len() == 0 {
                Some(ResponseAbs::Pong(v))
            } else {
                None
            },
            None => None,
        }
    } else if key == KEY_I2C_READ {
        match spec_parse_data_body(r, I2cReadFail) {
            Some(res) => Some(ResponseAbs::I2cRead(res)),
            None => None,
        }
    } else if key == KEY_I2C_WRITE {
        match spec_parse_unit_body(r, I2cWriteFail) {
            Some(res) => Some(ResponseAbs::I2cWrite(res)),
            None => None,
        }
    } else if key == KEY_SPI_READ {
        match spec_parse_data_body(r, SpiReadFail) {
            Some(res) => Some(ResponseAbs::SpiRead(res)),
            None => None,
        }
    } else if key == KEY_SPI_WRITE {
        match spec_parse_unit_body(r, SpiWriteFail) {
            Some(res) => Some(ResponseAbs::SpiWrite(res)),
            None => None,
        }
    } else if key == KEY_SPI_FLUSH {
        match spec_parse_unit_body(r, SpiFlushFail) {
            Some(res) => Some(ResponseAbs::SpiFlush(res)),
            None => None,
        }
    } else if key == KEY_GPIO_GET {
        match spec_take8(r) {
            Some((tag, r2)) => if tag == TAG_OK {
                match spec_take8(r2) {
                    Some((sb, r3)) => if r3.len() == 0 && sb == 0 {
                        Some(ResponseAbs::GpioGet(Ok(GpioState::Low)))
                    } else if r3.len() == 0 && sb == 1 {
                        Some(ResponseAbs::GpioGet(Ok(GpioState::High)))
                    } else {
                        None
                    },
                    None => None,
                }
            } else if tag == TAG_ERR && r2.len() == 0 {
                Some(ResponseAbs::GpioGet(Err(GpioGetFail)))
            } else {
                None
            },
            None => None,
        }
    } else if key == KEY_GPIO_PUT {
        match spec_parse_unit_body(r, GpioPutFail) {
            Some(res) => Some(ResponseAbs::GpioPut(res)),
            None => None,
        }
    } else if KEY_GPIO_WAIT_HIGH <= key <= KEY_GPIO_WAIT_ANY {
        let kind = if key == KEY_GPIO_WAIT_HIGH {
            WaitKind::High
        } else if key == KEY_GPIO_WAIT_LOW {
            WaitKind::Low
        } else if key == KEY_GPIO_WAIT_RISING {
            WaitKind::RisingEdge
        } else if key == KEY_GPIO_WAIT_FALLING {
            WaitKind::FallingEdge
        } else {
            WaitKind::AnyEdge
        };
        match spec_parse_unit_body(r, GpioWaitFail) {
            Some(res) => Some(ResponseAbs::GpioWait(kind, res)),
            None => None,
        }
    } else if key == KEY_SET_CONFIG {
        match spec_parse_unit_body(r, SetConfigurationFail) {
            Some(res) => Some(ResponseAbs::SetConfiguration(res)),
            None => None,
        }
    } else if key == KEY_VERSION {
        match spec_take16(r) {
            Some((major, r2)) => match spec_take16(r2) {
                Some((minor, r3)) => match spec_take32(r3) {
                    Some((patch, r4)) => if r4.len() == 0 {
                        Some(ResponseAbs::Version(VersionInfo { major, minor, patch }))
                    } else {
                        None
                    },
                    None => None,
                },
                None => None,
            },
            None => None,
        }
    } else if key == KEY_INVALID {
        if r.len() == 0 {
            Some(ResponseAbs::InvalidRequest)
        } else {
            None
        }
    } else {
        None
    }
}

/// Parses a whole response frame.
pub open spec fn spec_parse_response(b: Seq<u8>) -> Option<ResponseAbs> {
    match spec_take8(b) {
        Some((key, r)) => spec_parse_response_body(key, r),
        None => None,
    }
}

/// Round trip of a tag-only fallible body.
proof fn lemma_unit_body_round_trip<E>(res: Result<(), E>, err: E)
    requires
        res matches Err(e) ==> e == err,
    ensures
        spec_parse_unit_body(spec_unit_body(res), err) == Some(res),
{
    match res {
        Ok(u) => {
            assert(u == ());
            assert(res == Ok::<(), E>(u));
            assert(spec_unit_body(res) =~= seq![TAG_OK] + Seq::<u8>::empty());
            lemma_take8_byte(TAG_OK, Seq::<u8>::empty());
        },
        Err(_) => {
            assert(spec_unit_body(res) =~= seq![TAG_ERR] + Seq::<u8>::empty());
            lemma_take8_byte(TAG_ERR, Seq::<u8>::empty());
        },
    }
}

/// Round trip of a fallible body that carries bytes on success.
proof fn lemma_data_body_round_trip<E>(res: Result<Seq<u8>, E>, err: E)
    requires
        res matches Ok(d) ==> d.len() <= 0xffff,
        res matches Err(e) ==> e == err,
    ensures
        spec_parse_data_body(spec_data_body(res), err) == Some(res),
{
    match res {
        Ok(d) => {
            assert(spec_data_body(res) =~= seq![TAG_OK] + spec_chunk(d));
            lemma_take8_byte(TAG_OK, spec_chunk(d));
            assert(spec_chunk(d) =~= spec_chunk(d) + Seq::<u8>::empty());
            lemma_take_chunk(d, Seq::<u8>::empty());
        },
        Err(_) => {
            assert(spec_data_body(res) =~= seq![TAG_ERR] + Seq::<u8>::empty());
            lemma_take8_byte(TAG_ERR, Seq::<u8>::empty());
        },
    }
}

/// Decoding inverts encoding for responses as well.
#[verifier::rlimit(60)]
pub proof fn lemma_response_round_trip(m: ResponseAbs)
    requires
        response_abs_valid(m),
    ensures
        spec_parse_response(spec_encode_response(m)) == Some(m),
{
    let b = spec_encode_response(m);
    match m {
        ResponseAbs::Pong(v) => {
            assert(b =~= seq![KEY_PING] + spec_varint32(v));
            lemma_take8_byte(KEY_PING, spec_varint32(v));
            assert(spec_varint32(v) =~= spec_varint32(v) + Seq::<u8>::empty());
            lemma_take32_varint32(v, Seq::<u8>::empty());
        },
        ResponseAbs::I2cRead(res) => {
            assert(b =~= seq![KEY_I2C_READ] + spec_data_body(res));
            lemma_take8_byte(KEY_I2C_READ, spec_data_body(res));
            lemma_data_body_round_trip(res, I2cReadFail);
        },
        ResponseAbs::I2cWrite(res) => {
            assert(b =~= seq![KEY_I2C_WRITE] + spec_unit_body(res));
            lemma_take8_byte(KEY_I2C_WRITE, spec_unit_body(res));
            lemma_unit_body_round_trip(res, I2cWriteFail);
        },
        ResponseAbs::SpiRead(res) => {
            assert(b =~= seq![KEY_SPI_READ] + spec_data_body(res));
            lemma_take8_byte(KEY_SPI_READ, spec_data_body(res));
            lemma_data_body_round_trip(res, SpiReadFail);
        },
        ResponseAbs::SpiWrite(res) => {
            assert(b =~= seq![KEY_SPI_WRITE] + spec_unit_body(res));
            lemma_take8_byte(KEY_SPI_WRITE, spec_unit_body(res));
            lemma_unit_body_round_trip(res, SpiWriteFail);
        },
        ResponseAbs::SpiFlush(res) => {
            assert(b =~= seq![KEY_SPI_FLUSH] + spec_unit_body(res));
            lemma_take8_byte(KEY_SPI_FLUSH, spec_unit_body(res));
            lemma_unit_body_round_trip(res, SpiFlushFail);
        },
        ResponseAbs::GpioGet(res) => {
            match res {
                Ok(st) => {
                    assert(res == Ok::<GpioState, GpioGetFail>(st));
                    let sb = spec_state_byte(st);
                    assert(b =~= seq![KEY_GPIO_GET] + (seq![TAG_OK] + (seq![sb]
                        + Seq::<u8>::empty())));
                    lemma_take8_byte(KEY_GPIO_GET, seq![TAG_OK] + (seq![sb] + Seq::<u8>::empty()));
                    lemma_take8_byte(TAG_OK, seq![sb] + Seq::<u8>::empty());
                    lemma_take8_byte(sb, Seq::<u8>::empty());
                    if st is Low {
                        assert(spec_parse_response(b) == Some(m));
                    } else {
                        assert(spec_parse_response(b) == Some(m));
                    }
                },
                Err(e) => {
                    assert(e == GpioGetFail);
                    assert(res == Err::<GpioState, GpioGetFail>(e));
                    assert(b =~= seq![KEY_GPIO_GET] + (seq![TAG_ERR] + Seq::<u8>::empty()));
                    lemma_take8_byte(KEY_GPIO_GET, seq![TAG_ERR] + Seq::<u8>::empty());
                    lemma_take8_byte(TAG_ERR, Seq::<u8>::empty());
                },
            }
        },
        ResponseAbs::GpioPut(res) => {
            assert(b =~= seq![KEY_GPIO_PUT] + spec_unit_body(res));
            lemma_take8_byte(KEY_GPIO_PUT, spec_unit_body(res));
            lemma_unit_body_round_trip(res, GpioPutFail);
        },
        ResponseAbs::GpioWait(kind, res) => {
            assert(b =~= seq![spec_wait_key(kind)] + spec_unit_body(res));
            lemma_take8_byte(spec_wait_key(kind), spec_unit_body(res));
            lemma_unit_body_round_trip(res, GpioWaitFail);
        },
        ResponseAbs::SetConfiguration(res) => {
            assert(b =~= seq![KEY_SET_CONFIG] + spec_unit_body(res));
            lemma_take8_byte(KEY_SET_CONFIG, spec_unit_body(res));
            lemma_unit_body_round_trip(res, SetConfigurationFail);
        },
        ResponseAbs::Version(vi) => {
            let tail = spec_varint16(vi.major) + (spec_varint16(vi.minor) + (spec_varint32(
                vi.patch,
            ) + Seq::<u8>::empty()));
            assert(b =~= seq![KEY_VERSION] + tail);
            lemma_take8_byte(KEY_VERSION, tail);
            lemma_take16_varint16(vi.major, spec_varint16(vi.minor) + (spec_varint32(vi.patch)
                + Seq::<u8>::empty()));
            lemma_take16_varint16(vi.minor, spec_varint32(vi.patch) + Seq::<u8>::empty());
            lemma_take32_varint32(vi.patch, Seq::<u8>::empty());
        },
        ResponseAbs::InvalidRequest => {
            assert(b =~= seq![KEY_INVALID] + Seq::<u8>::empty());
            lemma_take8_byte(KEY_INVALID, Seq::<u8>::empty());
        },
    }
}

/// Encodes a response frame: the answered endpoint's key, then its body.
pub fn encode_response(m: &ResponseMsg) -> (r: Vec<u8>)
    requires
        response_abs_valid(m@),
    ensures
        r@ == spec_encode_response(m@),
{
    let mut out: Vec<u8> = Vec::new();
    match m {
        ResponseMsg::Pong(v) => {
            out.push(KEY_PING);
            encode_varint32(*v, &mut out);
            assert(out@ =~= spec_encode_response(m@));
        },
        ResponseMsg::I2cRead(res) => {
            out.push(KEY_I2C_READ);
            match res {
                Ok(d) => {
                    out.push(TAG_OK);
                    encode_chunk(d, &mut out);
                },
                Err(_) => {
                    out.push(TAG_ERR);
                },
            }
            assert(out@ =~= spec_encode_response(m@));
        },
        ResponseMsg::I2cWrite(res) => {
            out.push(KEY_I2C_WRITE);
            match res {
                Ok(_) => out.push(TAG_OK),
                Err(_) => out.push(TAG_ERR),
            }
            assert(out@ =~= spec_encode_response(m@));
        },
        ResponseMsg::SpiRead(res) => {
            out.push(KEY_SPI_READ);
            match res {
                Ok(d) => {
                    out.push(TAG_OK);
                    encode_chunk(d, &mut out);
                },
                Err(_) => {
                    out.push(TAG_ERR);
                },
            }
            assert(out@ =~= spec_encode_response(m@));
        },
        ResponseMsg::SpiWrite(res) => {
            out.push(KEY_SPI_WRITE);
            match res {
                Ok(_) => out.push(TAG_OK),
                Err(_) => out.push(TAG_ERR),
            }
            assert(out@ =~= spec_encode_response(m@));
        },
        ResponseMsg::SpiFlush(res) => {
            out.push(KEY_SPI_FLUSH);
            match res {
                Ok(_) => out.push(TAG_OK),
                Err(_) => out.push(TAG_ERR),
            }
            assert(out@ =~= spec_encode_response(m@));
        },
        ResponseMsg::GpioGet(res) => {
            out.push(KEY_GPIO_GET);
            match res {
                Ok(st) => {
                    out.push(TAG_OK);
                    out.push(state_byte(*st));
                },
                Err(_) => out.push(TAG_ERR),
            }
            assert(out@ =~= spec_encode_response(m@));
        },
        ResponseMsg::GpioPut(res) => {
            out.push(KEY_GPIO_PUT);
            match res {
                Ok(_) => out.push(TAG_OK),
                Err(_) => out.push(TAG_ERR),
            }
            assert(out@ =~= spec_encode_response(m@));
        },
        ResponseMsg::GpioWait(kind, res) => {
            out.push(wait_key(*kind));
            match res {
                Ok(_) => out.push(TAG_OK),
                Err(_) => out.push(TAG_ERR),
            }
            assert(out@ =~= spec_encode_response(m@));
        },
        ResponseMsg::SetConfiguration(res) => {
            out.push(KEY_SET_CONFIG);
            match res {
                Ok(_) => out.push(TAG_OK),
                Err(_) => out.push(TAG_ERR),
            }
            assert(out@ =~= spec_encode_response(m@));
        },
        ResponseMsg::Version(vi) => {
            out.push(KEY_VERSION);
            encode_varint16(vi.major, &mut out);
            encode_varint16(vi.minor, &mut out);
            encode_varint32(vi.patch, &mut out);
            assert(out@ =~= spec_encode_response(m@));
        },
        ResponseMsg::InvalidRequest => {
            out.push(KEY_INVALID);
            assert(out@ =~= spec_encode_response(m@));
        },
    }
    out
}

/// Decodes a response frame. Returns the response exactly when the bytes
/// are a canonical response frame, and nothing otherwise.
pub fn decode_response(b: &Vec<u8>) -> (r: Option<ResponseMsg>)
    ensures
        (match r {
            Some(m) => spec_parse_response(b@) == Some(m@),
            None => spec_parse_response(b@) is None,
        }),
{
    proof {
        assert(b@.skip(0) =~= b@);
    }
    match decode_u8(b, 0) {
        None => None,
        Some((key, p1)) => {
            if key == KEY_PING {
                match decode_varint32(b, p1) {
                    Some((v, p2)) => if p2 == b.len() {
                        Some(ResponseMsg::Pong(v))
                    } else {
                        None
                    },
                    None => None,
                }
            } else if key == KEY_I2C_READ {
                match decode_u8(b, p1) {
                    Some((tag, p2)) => if tag == TAG_OK {
                        match decode_chunk(b, p2) {
                            Some((d, p3)) => if p3 == b.len() {
                                Some(ResponseMsg::I2cRead(Ok(d)))
                            } else {
                                None
                            },
                            None => None,
                        }
                    } else if tag == TAG_ERR && p2 == b.len() {
                        Some(ResponseMsg::I2cRead(Err(I2cReadFail)))
                    } else {
                        None
                    },
                    None => None,
                }
            } else if key == KEY_I2C_WRITE {
                match decode_u8(b, p1) {
                    Some((tag, p2)) => if tag == TAG_OK && p2 == b.len() {
                        Some(ResponseMsg::I2cWrite(Ok(())))
                    } else if tag == TAG_ERR && p2 == b.len() {
                        Some(ResponseMsg::I2cWrite(Err(I2cWriteFail)))
                    } else {
                        None
                    },
                    None => None,
                }
            } else if key == KEY_SPI_READ {
                match decode_u8(b, p1) {
                    Some((tag, p2)) => if tag == TAG_OK {
                        match decode_chunk(b, p2) {
                            Some((d, p3)) => if p3 == b.len() {
                                Some(ResponseMsg::SpiRead(Ok(d)))
                            } else {
                                None
                            },
                            None => None,
                        }
                    } else if tag == TAG_ERR && p2 == b.len() {
                        Some(ResponseMsg::SpiRead(Err(SpiReadFail)))
                    } else {
                        None
                    },
                    None => None,
                }
            } else if key == KEY_SPI_WRITE {
                match decode_u8(b, p1) {
                    Some((tag, p2)) => if tag == TAG_OK && p2 == b.len() {
                        Some(ResponseMsg::SpiWrite(Ok(())))
                    } else if tag == TAG_ERR && p2 == b.len() {
                        Some(ResponseMsg::SpiWrite(Err(SpiWriteFail)))
                    } else {
                        None
                    },
                    None => None,
                }
            } else if key == KEY_SPI_FLUSH {
                match decode_u8(b, p1) {
                    Some((tag, p2)) => if tag == TAG_OK && p2 == b.len() {
                        Some(ResponseMsg::SpiFlush(Ok(())))
                    } else if tag == TAG_ERR && p2 == b.len() {
                        Some(ResponseMsg::SpiFlush(Err(SpiFlushFail)))
                    } else {
                        None
                    },
                    None => None,
                }
            } else if key == KEY_GPIO_GET {
                match decode_u8(b, p1) {
                    Some((tag, p2)) => if tag == TAG_OK {
                        match decode_u8(b, p2) {
                            Some((sb, p3)) => if p3 == b.len() && sb == 0 {
                                Some(ResponseMsg::GpioGet(Ok(GpioState::Low)))
                            } else if p3 == b.len() && sb == 1 {
                                Some(ResponseMsg::GpioGet(Ok(GpioState::High)))
                            } else {
                                None
                            },
                            None => None,
                        }
                    } else if tag == TAG_ERR && p2 == b.len() {
                        Some(ResponseMsg::GpioGet(Err(GpioGetFail)))
                    } else {
                        None
                    },
                    None => None,
                }
            } else if key == KEY_GPIO_PUT {
                match decode_u8(b, p1) {
                    Some((tag, p2)) => if tag == TAG_OK && p2 == b.len() {
                        Some(ResponseMsg::GpioPut(Ok(())))
                    } else if tag == TAG_ERR && p2 == b.len() {
                        Some(ResponseMsg::GpioPut(Err(GpioPutFail)))
                    } else {
                        None
                    },
                    None => None,
                }
            } else if KEY_GPIO_WAIT_HIGH <= key && key <= KEY_GPIO_WAIT_ANY {
                let kind = if key == KEY_GPIO_WAIT_HIGH {
                    WaitKind::High
                } else if key == KEY_GPIO_WAIT_LOW {
                    WaitKind::Low
                } else if key == KEY_GPIO_WAIT_RISING {
                    WaitKind::RisingEdge
                } else if key == KEY_GPIO_WAIT_FALLING {
                    WaitKind::FallingEdge
                } else {
                    WaitKind::AnyEdge
                };
                match decode_u8(b, p1) {
                    Some((tag, p2)) => if tag == TAG_OK && p2 == b.len() {
                        Some(ResponseMsg::GpioWait(kind, Ok(())))
                    } else if tag == TAG_ERR && p2 == b.len() {
                        Some(ResponseMsg::GpioWait(kind, Err(GpioWaitFail)))
                    } else {
                        None
                    },
                    None => None,
                }
            } else if key == KEY_SET_CONFIG {
                match decode_u8(b, p1) {
                    Some((tag, p2)) => if tag == TAG_OK && p2 == b.len() {
                        Some(ResponseMsg::SetConfiguration(Ok(())))
                    } else if tag == TAG_ERR && p2 == b.len() {
                        Some(ResponseMsg::SetConfiguration(Err(SetConfigurationFail)))
                    } else {
                        None
                    },
                    None => None,
                }
            } else if key == KEY_VERSION {
                match decode_varint16(b, p1) {
                    Some((major, p2)) => match decode_varint16(b, p2) {
                        Some((minor, p3)) => match decode_varint32(b, p3) {
                            Some((patch, p4)) => if p4 == b.len() {
                                Some(ResponseMsg::Version(VersionInfo { major, minor, patch }))
                            } else {
                                None
                            },
                            None => None,
                        },
                        None => None,
                    },
                    None => None,
                }
            } else if key == KEY_INVALID {
                if p1 == b.len() {
                    Some(ResponseMsg::InvalidRequest)
                } else {
                    None
                }
            } else {
                None
            }
        },
    }
}

// ---------------------------------------------------------------- soundness

/// A successful request parse pins the frame down: the bytes are exactly
/// the canonical encoding of the request returned, which is in bounds. No
/// two requests share a frame, so a decode is never ambiguous.
#[verifier::rlimit(100)]
pub proof fn lemma_parse_request_sound(b: Seq<u8>)
    ensures
        spec_parse_request(b) matches Some(m) ==> b == spec_encode_request(m)
            && request_abs_valid(m),
{
    if let Some(m) = spec_parse_request(b) {
        let (key, r) = spec_take8(b).unwrap();
        assert(b =~= seq![key] + r);
        if key == KEY_PING {
            let (v, r2) = spec_take32(r).unwrap();
            crate::codec::lemma_take32_sound(r);
            assert(r2 =~= Seq::<u8>::empty());
            assert(b =~= seq![KEY_PING] + spec_varint32(v));
        } else if key == KEY_I2C_READ {
            let (address, r2) = spec_take8(r).unwrap();
            assert(r =~= seq![address] + r2);
            let (count, r3) = spec_take16(r2).unwrap();
            crate::codec::lemma_take16_sound(r2);
            assert(r3 =~= Seq::<u8>::empty());
            assert(b =~= seq![KEY_I2C_READ, address] + spec_varint16(count));
        } else if key == KEY_I2C_WRITE {
            let (address, r2) = spec_take8(r).unwrap();
            assert(r =~= seq![address] + r2);
            let (contents, r3) = spec_take_chunk(r2).unwrap();
            crate::codec::lemma_take_chunk_sound(r2);
            assert(r3 =~= Seq::<u8>::empty());
            assert(b =~= seq![KEY_I2C_WRITE, address] + spec_chunk(contents));
        } else if key == KEY_SPI_READ {
            let (count, r2) = spec_take16(r).unwrap();
            crate::codec::lemma_take16_sound(r);
            assert(r2 =~= Seq::<u8>::empty());
            assert(b =~= seq![KEY_SPI_READ] + spec_varint16(count));
        } else if key == KEY_SPI_WRITE {
            let (contents, r2) = spec_take_chunk(r).unwrap();
            crate::codec::lemma_take_chunk_sound(r);
            assert(r2 =~= Seq::<u8>::empty());
            assert(b =~= seq![KEY_SPI_WRITE] + spec_chunk(contents));
        } else if key == KEY_SPI_FLUSH {
            assert(b =~= seq![KEY_SPI_FLUSH]);
        } else if key == KEY_GPIO_GET {
            let (pin, r2) = spec_take8(r).unwrap();
            assert(r =~= seq![pin] + r2);
            assert(r2 =~= Seq::<u8>::empty());
            assert(b =~= seq![KEY_GPIO_GET, pin]);
        } else if key == KEY_GPIO_PUT {
            let (pin, r2) = spec_take8(r).unwrap();
            assert(r =~= seq![pin] + r2);
            let (sb, r3) = spec_take8(r2).unwrap();
            assert(r2 =~= seq![sb] + r3);
            assert(r3 =~= Seq::<u8>::empty());
            assert(b =~= seq![KEY_GPIO_PUT, pin, sb]);
        } else if KEY_GPIO_WAIT_HIGH <= key <= KEY_GPIO_WAIT_ANY {
            let (pin, r2) = spec_take8(r).unwrap();
            assert(r =~= seq![pin] + r2);
            assert(r2 =~= Seq::<u8>::empty());
            assert(b =~= seq![key, pin]);
        } else if key == KEY_SET_CONFIG {
            let (i2c_frequency, r2) = spec_take32(r).unwrap();
            crate::codec::lemma_take32_sound(r);
            let (spi_frequency, r3) = spec_take32(r2).unwrap();
            crate::codec::lemma_take32_sound(r2);
            let (pb, r4) = spec_take8(r3).unwrap();
            assert(r3 =~= seq![pb] + r4);
            let (ob, r5) = spec_take8(r4).unwrap();
            assert(r4 =~= seq![ob] + r5);
            assert(r5 =~= Seq::<u8>::empty());
            assert(b =~= seq![KEY_SET_CONFIG] + spec_varint32(i2c_frequency) + spec_varint32(
                spi_frequency,
            ) + seq![pb, ob]);
        } else {
            assert(key == KEY_VERSION);
            assert(b =~= seq![KEY_VERSION]);
        }
    }
}

/// A successful response parse pins the frame down likewise.
#[verifier::rlimit(100)]
pub proof fn lemma_parse_response_sound(b: Seq<u8>)
    ensures
        spec_parse_response(b) matches Some(m) ==> b == spec_encode_response(m)
            && response_abs_valid(m),
{
    if let Some(m) = spec_parse_response(b) {
        let (key, r) = spec_take8(b).unwrap();
        assert(b =~= seq![key] + r);
        if key == KEY_PING {
            let (v, r2) = spec_take32(r).unwrap();
            crate::codec::lemma_take32_sound(r);
            assert(r2 =~= Seq::<u8>::empty());
            assert(b =~= seq![KEY_PING] + spec_varint32(v));
        } else if key == KEY_I2C_READ || key == KEY_SPI_READ {
            let (tag, r2) = spec_take8(r).unwrap();
            assert(r =~= seq![tag] + r2);
            if tag == TAG_OK {
                let (d, r3) = spec_take_chunk(r2).unwrap();
                crate::codec::lemma_take_chunk_sound(r2);
                assert(r3 =~= Seq::<u8>::empty());
                assert(b =~= seq![key, TAG_OK] + spec_chunk(d));
            } else {
                assert(r2 =~= Seq::<u8>::empty());
                assert(b =~= seq![key, TAG_ERR]);
            }
        } else if key == KEY_GPIO_GET {
            let (tag, r2) = spec_take8(r).unwrap();
            assert(r =~= seq![tag] + r2);
            if tag == TAG_OK {
                let (sb, r3) = spec_take8(r2).unwrap();
                assert(r2 =~= seq![sb] + r3);
                assert(r3 =~= Seq::<u8>::empty());
                assert(b =~= seq![KEY_GPIO_GET, TAG_OK, sb]);
            } else {
                assert(r2 =~= Seq::<u8>::empty());
                assert(b =~= seq![KEY_GPIO_GET, TAG_ERR]);
            }
        } else if key == KEY_I2C_WRITE || key == KEY_SPI_WRITE || key == KEY_SPI_FLUSH || key
            == KEY_GPIO_PUT || key == KEY_SET_CONFIG || (KEY_GPIO_WAIT_HIGH <= key
            <= KEY_GPIO_WAIT_ANY) {
            let (tag, r2) = spec_take8(r).unwrap();
            assert(r =~= seq![tag] + r2);
            assert(r2 =~= Seq::<u8>::empty());
            assert(b =~= seq![key, tag]);
        } else if key == KEY_VERSION {
            let (major, r2) = spec_take16(r).unwrap();
            crate::codec::lemma_take16_sound(r);
            let (minor, r3) = spec_take16(r2).unwrap();
            crate::codec::lemma_take16_sound(r2);
            let (patch, r4) = spec_take32(r3).unwrap();
            crate::codec::lemma_take32_sound(r3);
            assert(r4 =~= Seq::<u8>::empty());
            assert(b =~= seq![KEY_VERSION] + spec_varint16(major) + spec_varint16(minor)
                + spec_varint32(patch));
        } else {
            assert(key == KEY_INVALID);
            assert(b =~= seq![KEY_INVALID]);
        }
    }
}

/// No two in-bounds requests share an encoding: the frame alone determines
/// the request.
pub proof fn lemma_request_encoding_unambiguous(m1: RequestAbs, m2: RequestAbs)
    requires
        request_abs_valid(m1),
        request_abs_valid(m2),
        spec_encode_request(m1) == spec_encode_request(m2),
    ensures
        m1 == m2,
{
    lemma_request_round_trip(m1);
    lemma_request_round_trip(m2);
}

/// No two in-bounds responses share an encoding either.
pub proof fn lemma_response_encoding_unambiguous(m1: ResponseAbs, m2: ResponseAbs)
    requires
        response_abs_valid(m1),
        response_abs_valid(m2),
        spec_encode_response(m1) == spec_encode_response(m2),
    ensures
        m1 == m2,
{
    lemma_response_round_trip(m1);
    lemma_response_round_trip(m2);
}

} // verus!
