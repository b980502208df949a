//! Device-side dispatcher: routes one decoded request at a time to the bus
//! operation it demands and frames the response. The hardware itself is
//! outside this crate; a handler receives what the bus reported as an
//! explicit outcome value and is verified for every possible outcome.
//!
//! The dispatcher is strictly sequential: one request is taken to
//! completion, bus operation included, before the next frame is read, so
//! responses always come back in request order on a connection.

use vstd::prelude::*;

use crate::schema::{
    GpioGetFail, GpioPutFail, GpioState, GpioWaitFail, I2cReadFail, I2cWriteFail,
    SetConfigurationFail, SpiFlushFail, SpiPhase, SpiPolarity, SpiReadFail, SpiWriteFail,
    VersionInfo, WaitKind,
};
use crate::wire::{
    decode_request, encode_response, spec_encode_response, spec_parse_request, RequestAbs,
    RequestMsg, ResponseAbs, ResponseMsg,
};

verus! {

/// Capacity, in bytes, of the working buffer the device reuses for decoding
/// frames and staging bus reads. A read request for more than this many
/// bytes is rejected with the endpoint's failure marker.
pub const WORKING_BUFFER_CAPACITY: u16 = 512;

/// Number of GPIO lines the device offers, indexed 0 through 7. A request
/// naming a pin at or past this count is rejected with the endpoint's
/// failure marker before the hardware is touched.
pub const NUM_GPIO_PINS: u8 = 8;

/// Major part of the compiled-in firmware version.
pub const VERSION_MAJOR: u16 = 0;

/// Minor part of the compiled-in firmware version.
pub const VERSION_MINOR: u16 = 1;

/// Patch part of the compiled-in firmware version.
pub const VERSION_PATCH: u32 = 0;

/// The compiled-in version triple the `version` endpoint reports.
pub fn version_info() -> (r: VersionInfo)
    ensures
        r == (VersionInfo { major: VERSION_MAJOR, minor: VERSION_MINOR, patch: VERSION_PATCH }),
{
    VersionInfo { major: VERSION_MAJOR, minor: VERSION_MINOR, patch: VERSION_PATCH }
}

/// The hardware operation a request demands of the bus adapters, if any.
/// Payload bytes stay in the request itself; the action names the operation.
#[derive(Debug, Clone, Copy, PartialEq, Eq, Structural)]
pub enum BusAction {
    I2cRead { address: u8, count: u16 },
    I2cWrite { address: u8 },
    SpiRead { count: u16 },
    SpiWrite,
    SpiFlush,
    GpioGet { pin: u8 },
    GpioPut { pin: u8, state: GpioState },
    GpioWait { kind: WaitKind, pin: u8 },
    ApplyConfig {
        i2c_frequency: u32,
        spi_frequency: u32,
        spi_phase: SpiPhase,
        spi_polarity: SpiPolarity,
    },
    NoBusOperation,
}

/// What the bus adapters reported back for one operation.
#[derive(Debug, PartialEq, Eq)]
pub enum BusOutcome {
    /// The operation completed and carried no data.
    Done,
    /// A read completed; the buffer holds what the bus delivered.
    Data(Vec<u8>),
    /// A GPIO sample completed at this level.
    Level(GpioState),
    /// Both halves of a configuration change were attempted; each reports
    /// success on its own.
    ConfigApplied { i2c_ok: bool, spi_ok: bool },
    /// The operation failed on the bus.
    Failed,
}

/// Mathematical form of a bus outcome.
pub enum BusOutcomeAbs {
    Done,
    Data(Seq<u8>),
    Level(GpioState),
    ConfigApplied { i2c_ok: bool, spi_ok: bool },
    Failed,
}

impl View for BusOutcome {
    type V = BusOutcomeAbs;

    open spec fn view(&self) -> BusOutcomeAbs {
        match self {
            BusOutcome::Done => BusOutcomeAbs::Done,
            BusOutcome::Data(d) => BusOutcomeAbs::Data(d@),
            BusOutcome::Level(st) => BusOutcomeAbs::Level(*st),
            BusOutcome::ConfigApplied { i2c_ok, spi_ok } => BusOutcomeAbs::ConfigApplied {
                i2c_ok: *i2c_ok,
                spi_ok: *spi_ok,
            },
            BusOutcome::Failed => BusOutcomeAbs::Failed,
        }
    }
}

// ---------------------------------------------------------------- planning

/// The bus operation each request demands. An oversized read and a GPIO
/// request naming a pin past the last line demand none: both are rejected
/// before the bus is touched, so neither the working buffer nor the pin
/// array can ever be overrun by a request.
pub open spec fn spec_plan(m: RequestAbs) -> BusAction {
    match m {
        RequestAbs::Ping(_) => BusAction::NoBusOperation,
        RequestAbs::I2cRead { address, count } => if count > WORKING_BUFFER_CAPACITY {
            BusAction::NoBusOperation
        } else {
            BusAction::I2cRead { address, count }
        },
        RequestAbs::I2cWrite { address, .. } => BusAction::I2cWrite { address },
        RequestAbs::SpiRead { count } => if count > WORKING_BUFFER_CAPACITY {
            BusAction::NoBusOperation
        } else {
            BusAction::SpiRead { count }
        },
        RequestAbs::SpiWrite { .. } => BusAction::SpiWrite,
        RequestAbs::SpiFlush => BusAction::SpiFlush,
        RequestAbs::GpioGet { pin } => if pin >= NUM_GPIO_PINS {
            BusAction::NoBusOperation
        } else {
            BusAction::GpioGet { pin }
        },
        RequestAbs::GpioPut { pin, state } => if pin >= NUM_GPIO_PINS {
            BusAction::NoBusOperation
        } else {
            BusAction::GpioPut { pin, state }
        },
        RequestAbs::GpioWait { kind, pin } => if pin >= NUM_GPIO_PINS {
            BusAction::NoBusOperation
        } else {
            BusAction::GpioWait { kind, pin }
        },
        RequestAbs::SetConfiguration { i2c_frequency, spi_frequency, spi_phase, spi_polarity } =>
            BusAction::ApplyConfig { i2c_frequency, spi_frequency, spi_phase, spi_polarity },
        RequestAbs::Version => BusAction::NoBusOperation,
    }
}

/// Names the bus operation a decoded request demands.
pub fn plan_request(m: &RequestMsg) -> (a: BusAction)
    ensures
        a == spec_plan(m@),
{
    match m {
        RequestMsg::Ping(_) => BusAction::NoBusOperation,
        RequestMsg::I2cRead(q) => if q.count > WORKING_BUFFER_CAPACITY {
            BusAction::NoBusOperation
        } else {
            BusAction::I2cRead { address: q.address, count: q.count }
        },
        RequestMsg::I2cWrite(q) => BusAction::I2cWrite { address: q.address },
        RequestMsg::SpiRead(q) => if q.count > WORKING_BUFFER_CAPACITY {
            BusAction::NoBusOperation
        } else {
            BusAction::SpiRead { count: q.count }
        },
        RequestMsg::SpiWrite(_) => BusAction::SpiWrite,
        RequestMsg::SpiFlush => BusAction::SpiFlush,
        RequestMsg::GpioGet(q) => if q.pin >= NUM_GPIO_PINS {
            BusAction::NoBusOperation
        } else {
            BusAction::GpioGet { pin: q.pin }
        },
        RequestMsg::GpioPut(q) => if q.pin >= NUM_GPIO_PINS {
            BusAction::NoBusOperation
        } else {
            BusAction::GpioPut { pin: q.pin, state: q.state }
        },
        RequestMsg::GpioWait(kind, q) => if q.pin >= NUM_GPIO_PINS {
            BusAction::NoBusOperation
        } else {
            BusAction::GpioWait { kind: *kind, pin: q.pin }
        },
        RequestMsg::SetConfiguration(q) => BusAction::ApplyConfig {
            i2c_frequency: q.i2c_frequency,
            spi_frequency: q.spi_frequency,
            spi_phase: q.spi_phase,
            spi_polarity: q.spi_polarity,
        },
        RequestMsg::Version => BusAction::NoBusOperation,
    }
}

// ---------------------------------------------------------------- handling

/// The response owed to a request, for every possible bus outcome.
///
/// Pinned down per endpoint: ping echoes its value and never fails; an
/// oversized read is rejected whatever the bus did; a successful read
/// answers with exactly the first `count` delivered bytes; a GPIO request
/// naming a pin past the last line is rejected whatever the bus did; a
/// configuration change reports success only when both bus halves applied
/// theirs; version reports the compiled-in triple and never fails.
pub open spec fn spec_handle(m: RequestAbs, o: BusOutcomeAbs) -> ResponseAbs {
    match m {
        RequestAbs::Ping(v) => ResponseAbs::Pong(v),
        RequestAbs::I2cRead { address, count } => ResponseAbs::I2cRead(
            if count > WORKING_BUFFER_CAPACITY {
                Err(I2cReadFail)
            } else {
                match o {
                    BusOutcomeAbs::Data(d) => if d.len() >= count {
                        Ok(d.take(count as int))
                    } else {
                        Err(I2cReadFail)
                    },
                    _ => Err(I2cReadFail),
                }
            },
        ),
        RequestAbs::I2cWrite { .. } => ResponseAbs::I2cWrite(
            match o {
                BusOutcomeAbs::Done => Ok(()),
                _ => Err(I2cWriteFail),
            },
        ),
        RequestAbs::SpiRead { count } => ResponseAbs::SpiRead(
            if count > WORKING_BUFFER_CAPACITY {
                Err(SpiReadFail)
            } else {
                match o {
                    BusOutcomeAbs::Data(d) => if d.len() >= count {
                        Ok(d.take(count as int))
                    } else {
                        Err(SpiReadFail)
                    },
                    _ => Err(SpiReadFail),
                }
            },
        ),
        RequestAbs::SpiWrite { .. } => ResponseAbs::SpiWrite(
            match o {
                BusOutcomeAbs::Done => Ok(()),
                _ => Err(SpiWriteFail),
            },
        ),
        RequestAbs::SpiFlush => ResponseAbs::SpiFlush(
            match o {
                BusOutcomeAbs::Done => Ok(()),
                _ => Err(SpiFlushFail),
            },
        ),
        RequestAbs::GpioGet { pin } => ResponseAbs::GpioGet(
            if pin >= NUM_GPIO_PINS {
                Err(GpioGetFail)
            } else {
                match o {
                    BusOutcomeAbs::Level(st) => Ok(st),
                    _ => Err(GpioGetFail),
                }
            },
        ),
        RequestAbs::GpioPut { pin, .. } => ResponseAbs::GpioPut(
            if pin >= NUM_GPIO_PINS {
                Err(GpioPutFail)
            } else {
                match o {
                    BusOutcomeAbs::Done => Ok(()),
                    _ => Err(GpioPutFail),
                }
            },
        ),
        RequestAbs::GpioWait { kind, pin } => ResponseAbs::GpioWait(
            kind,
            if pin >= NUM_GPIO_PINS {
                Err(GpioWaitFail)
            } else {
                match o {
                    BusOutcomeAbs::Done => Ok(()),
                    _ => Err(GpioWaitFail),
                }
            },
        ),
        RequestAbs::SetConfiguration { .. } => ResponseAbs::SetConfiguration(
            match o {
                BusOutcomeAbs::ConfigApplied { i2c_ok, spi_ok } => if i2c_ok && spi_ok {
                    Ok(())
                } else {
                    Err(SetConfigurationFail)
                },
                _ => Err(SetConfigurationFail),
            },
        ),
        RequestAbs::Version => ResponseAbs::Version(
            VersionInfo { major: VERSION_MAJOR, minor: VERSION_MINOR, patch: VERSION_PATCH },
        ),
    }
}

/// Every owed response is within protocol bounds, so it can be framed.
pub proof fn lemma_handle_response_valid(m: RequestAbs, o: BusOutcomeAbs)
    ensures
        crate::wire::response_abs_valid(spec_handle(m, o)),
{
}

/// Copies a byte vector; the handler clones bus data into the response.
fn clone_bytes(v: &Vec<u8>) -> (r: Vec<u8>)
    ensures
        r@ == v@,
{
    let mut r: Vec<u8> = Vec::new();
    let mut i: usize = 0;
    while i < v.len()
        invariant
            i <= v@.len(),
            r@ == v@.take(i as int),
        decreases v@.len() - i,
    {
        r.push(v[i]);
        assert(r@ =~= v@.take(i as int + 1));
        i = i + 1;
    }
    assert(v@.take(v@.len() as int) =~= v@);
    r
}

/// Builds the response owed to `m` after the bus reported `o`.
pub fn handle_request(m: &RequestMsg, o: &BusOutcome) -> (r: ResponseMsg)
    ensures
        r@ == spec_handle(m@, o@),
{
    match m {
        RequestMsg::Ping(v) => ResponseMsg::Pong(*v),
        RequestMsg::I2cRead(q) => {
            if q.count > WORKING_BUFFER_CAPACITY {
                ResponseMsg::I2cRead(Err(I2cReadFail))
            } else {
                match o {
                    BusOutcome::Data(d) => {
                        if d.len() >= q.count as usize {
                            let mut data = clone_bytes(d);
                            data.truncate(q.count as usize);
                            ResponseMsg::I2cRead(Ok(data))
                        } else {
                            ResponseMsg::I2cRead(Err(I2cReadFail))
                        }
                    },
                    _ => ResponseMsg::I2cRead(Err(I2cReadFail)),
                }
            }
        },
        RequestMsg::I2cWrite(_) => ResponseMsg::I2cWrite(
            match o {
                BusOutcome::Done => Ok(()),
                _ => Err(I2cWriteFail),
            },
        ),
        RequestMsg::SpiRead(q) => {
            if q.count > WORKING_BUFFER_CAPACITY {
                ResponseMsg::SpiRead(Err(SpiReadFail))
            } else {
                match o {
                    BusOutcome::Data(d) => {
                        if d.len() >= q.count as usize {
                            let mut data = clone_bytes(d);
                            data.truncate(q.count as usize);
                            ResponseMsg::SpiRead(Ok(data))
                        } else {
                            ResponseMsg::SpiRead(Err(SpiReadFail))
                        }
                    },
                    _ => ResponseMsg::SpiRead(Err(SpiReadFail)),
                }
            }
        },
        RequestMsg::SpiWrite(_) => ResponseMsg::SpiWrite(
            match o {
                BusOutcome::Done => Ok(()),
                _ => Err(SpiWriteFail),
            },
        ),
        RequestMsg::SpiFlush => ResponseMsg::SpiFlush(
            match o {
                BusOutcome::Done => Ok(()),
                _ => Err(SpiFlushFail),
            },
        ),
        RequestMsg::GpioGet(q) => ResponseMsg::GpioGet(
            if q.pin >= NUM_GPIO_PINS {
                Err(GpioGetFail)
            } else {
                match o {
                    BusOutcome::Level(st) => Ok(*st),
                    _ => Err(GpioGetFail),
                }
            },
        ),
        RequestMsg::GpioPut(q) => ResponseMsg::GpioPut(
            if q.pin >= NUM_GPIO_PINS {
                Err(GpioPutFail)
            } else {
                match o {
                    BusOutcome::Done => Ok(()),
                    _ => Err(GpioPutFail),
                }
            },
        ),
        RequestMsg::GpioWait(kind, q) => ResponseMsg::GpioWait(
            *kind,
            if q.pin >= NUM_GPIO_PINS {
                Err(GpioWaitFail)
            } else {
                match o {
                    BusOutcome::Done => Ok(()),
                    _ => Err(GpioWaitFail),
                }
            },
        ),
        RequestMsg::SetConfiguration(_) => ResponseMsg::SetConfiguration(
            match o {
                BusOutcome::ConfigApplied { i2c_ok, spi_ok } => if *i2c_ok && *spi_ok {
                    Ok(())
                } else {
                    Err(SetConfigurationFail)
                },
                _ => Err(SetConfigurationFail),
            },
        ),
        RequestMsg::Version => ResponseMsg::Version(version_info()),
    }
}

// ---------------------------------------------------------------- framing

/// The response frame owed to a received frame: decode, handle, encode.
/// A frame that does not decode is answered with the invalid-request
/// marker; the connection itself survives.
pub open spec fn spec_dispatch(b: Seq<u8>, o: BusOutcomeAbs) -> Seq<u8> {
    match spec_parse_request(b) {
        Some(m) => spec_encode_response(spec_handle(m, o)),
        None => spec_encode_response(ResponseAbs::InvalidRequest),
    }
}

/// Decodes one request frame, handles it with the bus outcome `o`, and
/// encodes the response frame. Never panics, whatever the frame holds.
pub fn dispatch_frame(frame: &Vec<u8>, o: &BusOutcome) -> (out: Vec<u8>)
    ensures
        out@ == spec_dispatch(frame@, o@),
{
    match decode_request(frame) {
        Some(m) => {
            let resp = handle_request(&m, o);
            proof {
                lemma_handle_response_valid(m@, o@);
            }
            encode_response(&resp)
        },
        None => encode_response(&ResponseMsg::InvalidRequest),
    }
}

/// Processes the frames of one connection strictly in order: the i-th
/// response frame answers the i-th request frame, each handled to
/// completion with its own bus outcome before the next is looked at.
/// Responses are never reordered or interleaved.
pub fn process_connection(frames: &Vec<Vec<u8>>, outcomes: &Vec<BusOutcome>) -> (rs: Vec<Vec<u8>>)
    requires
        frames@.len() == outcomes@.len(),
    ensures
        rs@.len() == frames@.len(),
        forall|i: int|
            0 <= i < rs@.len() ==> rs@[i]@ == spec_dispatch(frames@[i]@, outcomes@[i]@),
{
    let mut rs: Vec<Vec<u8>> = Vec::new();
    let mut i: usize = 0;
    while i < frames.len()
        invariant
            frames@.len() == outcomes@.len(),
            i <= frames@.len(),
            rs@.len() == i,
            forall|j: int|
                0 <= j < i ==> rs@[j]@ == spec_dispatch(frames@[j]@, outcomes@[j]@),
        decreases frames@.len() - i,
    {
        let out = dispatch_frame(&frames[i], &outcomes[i]);
        rs.push(out);
        i = i + 1;
    }
    rs
}

/// Serves one logical message as the device loop does: reassembles the
/// received packets, dispatches the frame they carried, and splits the
/// response frame into the packets to transmit.
pub fn serve_message(packets: &Vec<Vec<u8>>, o: &BusOutcome) -> (out: Vec<Vec<u8>>)
    ensures
        crate::framing::spec_views(out@) == crate::framing::spec_packets(
            spec_dispatch(
                crate::framing::spec_unpackets(crate::framing::spec_views(packets@)),
                o@,
            ),
        ),
{
    let frame = crate::framing::reassemble(packets);
    let response = dispatch_frame(&frame, o);
    crate::framing::packetize(&response)
}

// ---------------------------------------------------------------- laws

/// Ping is the identity: whatever the bus did, the device answers a ping
/// carrying `v` with a pong carrying `v`.
pub proof fn lemma_ping_echoes(v: u32, o: BusOutcomeAbs)
    ensures
        spec_handle(RequestAbs::Ping(v), o) == ResponseAbs::Pong(v),
{
}

/// A read request for more than the working buffer capacity always yields
/// the endpoint's failure marker, whatever the bus outcome: the buffer can
/// never be overrun by a request.
pub proof fn lemma_oversized_read_rejected(address: u8, count: u16, o: BusOutcomeAbs)
    requires
        count > WORKING_BUFFER_CAPACITY,
    ensures
        spec_handle(RequestAbs::I2cRead { address, count }, o) == ResponseAbs::I2cRead(
            Err(I2cReadFail),
        ),
        spec_handle(RequestAbs::SpiRead { count }, o) == ResponseAbs::SpiRead(Err(SpiReadFail)),
{
}

/// A GPIO request naming a pin at or past the number of lines always
/// yields the endpoint's failure marker, whatever the bus outcome, and
/// demands no bus operation: the pin array can never be indexed out of
/// range by a request.
pub proof fn lemma_out_of_range_pin_rejected(
    pin: u8,
    state: GpioState,
    kind: WaitKind,
    o: BusOutcomeAbs,
)
    requires
        pin >= NUM_GPIO_PINS,
    ensures
        spec_handle(RequestAbs::GpioGet { pin }, o) == ResponseAbs::GpioGet(Err(GpioGetFail)),
        spec_handle(RequestAbs::GpioPut { pin, state }, o) == ResponseAbs::GpioPut(
            Err(GpioPutFail),
        ),
        spec_handle(RequestAbs::GpioWait { kind, pin }, o) == ResponseAbs::GpioWait(
            kind,
            Err(GpioWaitFail),
        ),
        spec_plan(RequestAbs::GpioGet { pin }) == BusAction::NoBusOperation,
        spec_plan(RequestAbs::GpioPut { pin, state }) == BusAction::NoBusOperation,
        spec_plan(RequestAbs::GpioWait { kind, pin }) == BusAction::NoBusOperation,
{
}

/// A configuration change reports success exactly when both the I2C and
/// the SPI halves applied theirs: a partial failure is never reported as
/// success, even though both halves are always attempted.
pub proof fn lemma_config_failure_reported(
    i2c_frequency: u32,
    spi_frequency: u32,
    spi_phase: SpiPhase,
    spi_polarity: SpiPolarity,
    i2c_ok: bool,
    spi_ok: bool,
)
    ensures
        spec_handle(
            RequestAbs::SetConfiguration { i2c_frequency, spi_frequency, spi_phase, spi_polarity },
            BusOutcomeAbs::ConfigApplied { i2c_ok, spi_ok },
        ) == ResponseAbs::SetConfiguration(
            if i2c_ok && spi_ok {
                Ok(())
            } else {
                Err(SetConfigurationFail)
            },
        ),
{
}

// ---------------------------------------------------------------- link

/// Connection state of the device: it waits for the USB endpoints, then
/// alternates between awaiting a frame and dispatching it, and falls back
/// to waiting when the transport reports the host gone.
#[derive(Debug, Clone, Copy, PartialEq, Eq, Structural)]
pub enum LinkState {
    WaitingForConnection,
    AwaitingFrame,
    Dispatching,
}

/// What the transport or the dispatcher reported.
#[derive(Debug, Clone, Copy, PartialEq, Eq, Structural)]
pub enum LinkEvent {
    EndpointsEnabled,
    FrameReceived,
    ReadError,
    HandlerReturned,
}

/// The connection state after an event.
pub open spec fn spec_link_step(s: LinkState, e: LinkEvent) -> LinkState {
    match (s, e) {
        (LinkState::WaitingForConnection, LinkEvent::EndpointsEnabled) => LinkState::AwaitingFrame,
        (LinkState::AwaitingFrame, LinkEvent::FrameReceived) => LinkState::Dispatching,
        (LinkState::AwaitingFrame, LinkEvent::ReadError) => LinkState::WaitingForConnection,
        (LinkState::Dispatching, LinkEvent::HandlerReturned) => LinkState::AwaitingFrame,
        _ => s,
    }
}

/// Advances the connection state machine by one event.
pub fn link_step(s: LinkState, e: LinkEvent) -> (r: LinkState)
    ensures
        r == spec_link_step(s, e),
{
    match (s, e) {
        (LinkState::WaitingForConnection, LinkEvent::EndpointsEnabled) => LinkState::AwaitingFrame,
        (LinkState::AwaitingFrame, LinkEvent::FrameReceived) => LinkState::Dispatching,
        (LinkState::AwaitingFrame, LinkEvent::ReadError) => LinkState::WaitingForConnection,
        (LinkState::Dispatching, LinkEvent::HandlerReturned) => LinkState::AwaitingFrame,
        _ => s,
    }
}

} // verus!
