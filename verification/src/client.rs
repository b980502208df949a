//! Host-side half of the protocol: building request frames, decoding the
//! response frame into the typed result, and keeping the two error channels
//! apart — a transport fault ("we lost the device") is never confused with
//! an endpoint failure ("the device rejected this operation").

use vstd::prelude::*;
use vstd::string::StringExecFns;

use crate::schema::{
    GpioGetFail, GpioGetRequest, GpioPutFail, GpioPutRequest, GpioState, GpioWaitFail,
    GpioWaitRequest, I2cReadFail, I2cReadRequest, I2cWriteFail, I2cWriteRequest,
    SetConfigurationFail, SetConfigurationRequest, SpiFlushFail, SpiPhase, SpiPolarity,
    SpiReadFail, SpiReadRequest, SpiWriteFail, SpiWriteRequest, VersionInfo, WaitKind,
};
use crate::wire::{
    decode_response, encode_request, spec_encode_request, spec_parse_response, spec_wait_key,
    RequestAbs, RequestMsg, ResponseAbs, ResponseMsg, KEY_GPIO_GET, KEY_GPIO_PUT, KEY_I2C_READ,
    KEY_I2C_WRITE, KEY_INVALID, KEY_PING, KEY_SET_CONFIG, KEY_SPI_FLUSH, KEY_SPI_READ,
    KEY_SPI_WRITE, KEY_VERSION,
};

verus! {

/// A transport-level fault: the device was never found, went away, or sent
/// bytes that are not the awaited response. Distinct from an endpoint's
/// failure marker, so callers can tell "the device actively rejected this"
/// from "we lost the device entirely".
#[derive(Debug, Clone, Copy, PartialEq, Eq, Structural)]
pub enum WireFault {
    /// No attached USB device matches the bridge.
    DeviceNotFound,
    /// The connection closed mid-call.
    Closed,
    /// The received frame is not a canonical response frame.
    Decode,
    /// The received frame answers a different endpoint.
    WrongEndpoint,
    /// The device reported the request frame as undecodable.
    Rejected,
}

impl WireFault {
    /// A short human-readable account of the fault, for the host's error
    /// reporting.
    pub fn describe(&self) -> (s: String)
        ensures
            (match self {
                WireFault::DeviceNotFound => s@ == "device not found"@,
                WireFault::Closed => s@ == "device disconnected"@,
                WireFault::Decode => s@ == "response decode failure"@,
                WireFault::WrongEndpoint => s@ == "response for another endpoint"@,
                WireFault::Rejected => s@ == "request rejected by the device"@,
            }),
    {
        match self {
            WireFault::DeviceNotFound => String::from_str("device not found"),
            WireFault::Closed => String::from_str("device disconnected"),
            WireFault::Decode => String::from_str("response decode failure"),
            WireFault::WrongEndpoint => String::from_str("response for another endpoint"),
            WireFault::Rejected => String::from_str("request rejected by the device"),
        }
    }
}

/// Error of one host call: either a transport fault or the endpoint's own
/// failure marker.
#[derive(Debug, Clone, Copy, PartialEq, Eq)]
pub enum PicoDeGalloError<E> {
    Comms(WireFault),
    Endpoint(E),
}

/// The three-way bus error taxonomy the host preserves for I2C: no device
/// answered, the bus arbitration was lost, or something else went wrong.
#[derive(Debug, Clone, Copy, PartialEq, Eq, Structural)]
pub enum I2cError {
    NoAcknowledge,
    ArbitrationLoss,
    Other,
}

/// Folds an endpoint's own result into the two-channel error type.
pub fn flatten_response<T, E>(r: Result<T, E>) -> (out: Result<T, PicoDeGalloError<E>>)
    ensures
        (match r {
            Ok(v) => out matches Ok(w) && w == v,
            Err(e) => out matches Err(f) && f == PicoDeGalloError::Endpoint(e),
        }),
{
    match r {
        Ok(v) => Ok(v),
        Err(e) => Err(PicoDeGalloError::Endpoint(e)),
    }
}

// ---------------------------------------------------------------- keys

/// The endpoint key a request frame carries.
pub open spec fn spec_request_key(m: RequestAbs) -> u8 {
    match m {
        RequestAbs::Ping(_) => KEY_PING,
        RequestAbs::I2cRead { .. } => KEY_I2C_READ,
        RequestAbs::I2cWrite { .. } => KEY_I2C_WRITE,
        RequestAbs::SpiRead { .. } => KEY_SPI_READ,
        RequestAbs::SpiWrite { .. } => KEY_SPI_WRITE,
        RequestAbs::SpiFlush => KEY_SPI_FLUSH,
        RequestAbs::GpioGet { .. } => KEY_GPIO_GET,
        RequestAbs::GpioPut { .. } => KEY_GPIO_PUT,
        RequestAbs::GpioWait { kind, .. } => spec_wait_key(kind),
        RequestAbs::SetConfiguration { .. } => KEY_SET_CONFIG,
        RequestAbs::Version => KEY_VERSION,
    }
}

/// The endpoint key a response frame carries.
pub open spec fn spec_response_key(m: ResponseAbs) -> u8 {
    match m {
        ResponseAbs::Pong(_) => KEY_PING,
        ResponseAbs::I2cRead(_) => KEY_I2C_READ,
        ResponseAbs::I2cWrite(_) => KEY_I2C_WRITE,
        ResponseAbs::SpiRead(_) => KEY_SPI_READ,
        ResponseAbs::SpiWrite(_) => KEY_SPI_WRITE,
        ResponseAbs::SpiFlush(_) => KEY_SPI_FLUSH,
        ResponseAbs::GpioGet(_) => KEY_GPIO_GET,
        ResponseAbs::GpioPut(_) => KEY_GPIO_PUT,
        ResponseAbs::GpioWait(kind, _) => spec_wait_key(kind),
        ResponseAbs::SetConfiguration(_) => KEY_SET_CONFIG,
        ResponseAbs::Version(_) => KEY_VERSION,
        ResponseAbs::InvalidRequest => KEY_INVALID,
    }
}

/// The dispatcher always answers on the endpoint the request named: with
/// one request in flight at a time, a decodable response correlates to the
/// request by key alone.
pub proof fn lemma_response_answers_request(
    m: RequestAbs,
    o: crate::dispatch::BusOutcomeAbs,
)
    ensures
        spec_response_key(crate::dispatch::spec_handle(m, o)) == spec_request_key(m),
{
}

// ---------------------------------------------------------------- builders

/// Frame of a `ping` request carrying `v`.
pub fn build_ping_request(v: u32) -> (r: Vec<u8>)
    ensures
        r@ == spec_encode_request(RequestAbs::Ping(v)),
{
    encode_request(&RequestMsg::Ping(v))
}

/// Frame of an `i2c/read` request for `count` bytes from `address`.
pub fn build_i2c_read_request(address: u8, count: u16) -> (r: Vec<u8>)
    ensures
        r@ == spec_encode_request(RequestAbs::I2cRead { address, count }),
{
    encode_request(&RequestMsg::I2cRead(I2cReadRequest { address, count }))
}

/// Frame of an `i2c/write` request carrying `contents` to `address`.
pub fn build_i2c_write_request(address: u8, contents: Vec<u8>) -> (r: Vec<u8>)
    requires
        contents@.len() <= 0xffff,
    ensures
        r@ == spec_encode_request(RequestAbs::I2cWrite { address, contents: contents@ }),
{
    encode_request(&RequestMsg::I2cWrite(I2cWriteRequest { address, contents }))
}

/// Frame of an `spi/read` request for `count` bytes.
pub fn build_spi_read_request(count: u16) -> (r: Vec<u8>)
    ensures
        r@ == spec_encode_request(RequestAbs::SpiRead { count }),
{
    encode_request(&RequestMsg::SpiRead(SpiReadRequest { count }))
}

/// Frame of an `spi/write` request carrying `contents`.
pub fn build_spi_write_request(contents: Vec<u8>) -> (r: Vec<u8>)
    requires
        contents@.len() <= 0xffff,
    ensures
        r@ == spec_encode_request(RequestAbs::SpiWrite { contents: contents@ }),
{
    encode_request(&RequestMsg::SpiWrite(SpiWriteRequest { contents }))
}

/// Frame of an `spi/flush` request.
pub fn build_spi_flush_request() -> (r: Vec<u8>)
    ensures
        r@ == spec_encode_request(RequestAbs::SpiFlush),
{
    encode_request(&RequestMsg::SpiFlush)
}

/// Frame of a `gpio/get` request for `pin`.
pub fn build_gpio_get_request(pin: u8) -> (r: Vec<u8>)
    ensures
        r@ == spec_encode_request(RequestAbs::GpioGet { pin }),
{
    encode_request(&RequestMsg::GpioGet(GpioGetRequest { pin }))
}

/// Frame of a `gpio/put` request driving `pin` to `state`.
pub fn build_gpio_put_request(pin: u8, state: GpioState) -> (r: Vec<u8>)
    ensures
        r@ == spec_encode_request(RequestAbs::GpioPut { pin, state }),
{
    encode_request(&RequestMsg::GpioPut(GpioPutRequest { pin, state }))
}

/// Frame of one of the `gpio/wait-*` requests on `pin`.
pub fn build_gpio_wait_request(kind: WaitKind, pin: u8) -> (r: Vec<u8>)
    ensures
        r@ == spec_encode_request(RequestAbs::GpioWait { kind, pin }),
{
    encode_request(&RequestMsg::GpioWait(kind, GpioWaitRequest { pin }))
}

/// Frame of a `set-config` request for both buses.
pub fn build_set_config_request(
    i2c_frequency: u32,
    spi_frequency: u32,
    spi_phase: SpiPhase,
    spi_polarity: SpiPolarity,
) -> (r: Vec<u8>)
    ensures
        r@ == spec_encode_request(
            RequestAbs::SetConfiguration { i2c_frequency, spi_frequency, spi_phase, spi_polarity },
        ),
{
    encode_request(
        &RequestMsg::SetConfiguration(
            SetConfigurationRequest { i2c_frequency, spi_frequency, spi_phase, spi_polarity },
        ),
    )
}

/// Frame of a `version` request.
pub fn build_version_request() -> (r: Vec<u8>)
    ensures
        r@ == spec_encode_request(RequestAbs::Version),
{
    encode_request(&RequestMsg::Version)
}

// ---------------------------------------------------------------- parsers

/// Result of decoding a response frame awaited for a `ping`: the echoed
/// value, or the transport fault that explains its absence.
pub fn parse_ping_response(frame: &Vec<u8>) -> (r: Result<u32, WireFault>)
    ensures
        (match spec_parse_response(frame@) {
            Some(ResponseAbs::Pong(v)) => r == Ok::<u32, WireFault>(v),
            Some(ResponseAbs::InvalidRequest) => r == Err::<u32, WireFault>(WireFault::Rejected),
            Some(_) => r == Err::<u32, WireFault>(WireFault::WrongEndpoint),
            None => r == Err::<u32, WireFault>(WireFault::Decode),
        }),
{
    match decode_response(frame) {
        Some(ResponseMsg::Pong(v)) => Ok(v),
        Some(ResponseMsg::InvalidRequest) => Err(WireFault::Rejected),
        Some(_) => Err(WireFault::WrongEndpoint),
        None => Err(WireFault::Decode),
    }
}

/// Result of decoding a response frame awaited for an `i2c/read`: the bytes
/// read, the endpoint's failure marker, or the transport fault.
pub fn parse_i2c_read_response(frame: &Vec<u8>) -> (r: Result<
    Vec<u8>,
    PicoDeGalloError<I2cReadFail>,
>)
    ensures
        (match spec_parse_response(frame@) {
            Some(ResponseAbs::I2cRead(Ok(d))) => r matches Ok(v) && v@ == d,
            Some(ResponseAbs::I2cRead(Err(_))) => r matches Err(f) && f
                == PicoDeGalloError::<I2cReadFail>::Endpoint(I2cReadFail),
            Some(ResponseAbs::InvalidRequest) => r matches Err(f) && f == PicoDeGalloError::<I2cReadFail>::Comms(
                WireFault::Rejected,
            ),
            Some(_) => r matches Err(f) && f == PicoDeGalloError::<I2cReadFail>::Comms(WireFault::WrongEndpoint),
            None => r matches Err(f) && f == PicoDeGalloError::<I2cReadFail>::Comms(WireFault::Decode),
        }),
{
    match decode_response(frame) {
        Some(ResponseMsg::I2cRead(res)) => flatten_response(res),
        Some(ResponseMsg::InvalidRequest) => Err(PicoDeGalloError::Comms(WireFault::Rejected)),
        Some(_) => Err(PicoDeGalloError::Comms(WireFault::WrongEndpoint)),
        None => Err(PicoDeGalloError::Comms(WireFault::Decode)),
    }
}

/// Result of decoding a response frame awaited for an `i2c/write`.
pub fn parse_i2c_write_response(frame: &Vec<u8>) -> (r: Result<
    (),
    PicoDeGalloError<I2cWriteFail>,
>)
    ensures
        (match spec_parse_response(frame@) {
            Some(ResponseAbs::I2cWrite(Ok(_))) => r is Ok,
            Some(ResponseAbs::I2cWrite(Err(_))) => r matches Err(f) && f
                == PicoDeGalloError::<I2cWriteFail>::Endpoint(I2cWriteFail),
            Some(ResponseAbs::InvalidRequest) => r matches Err(f) && f == PicoDeGalloError::<I2cWriteFail>::Comms(
                WireFault::Rejected,
            ),
            Some(_) => r matches Err(f) && f == PicoDeGalloError::<I2cWriteFail>::Comms(WireFault::WrongEndpoint),
            None => r matches Err(f) && f == PicoDeGalloError::<I2cWriteFail>::Comms(WireFault::Decode),
        }),
{
    match decode_response(frame) {
        Some(ResponseMsg::I2cWrite(res)) => flatten_response(res),
        Some(ResponseMsg::InvalidRequest) => Err(PicoDeGalloError::Comms(WireFault::Rejected)),
        Some(_) => Err(PicoDeGalloError::Comms(WireFault::WrongEndpoint)),
        None => Err(PicoDeGalloError::Comms(WireFault::Decode)),
    }
}

/// Result of decoding a response frame awaited for an `spi/read`.
pub fn parse_spi_read_response(frame: &Vec<u8>) -> (r: Result<
    Vec<u8>,
    PicoDeGalloError<SpiReadFail>,
>)
    ensures
        (match spec_parse_response(frame@) {
            Some(ResponseAbs::SpiRead(Ok(d))) => r matches Ok(v) && v@ == d,
            Some(ResponseAbs::SpiRead(Err(_))) => r matches Err(f) && f
                == PicoDeGalloError::<SpiReadFail>::Endpoint(SpiReadFail),
            Some(ResponseAbs::InvalidRequest) => r matches Err(f) && f == PicoDeGalloError::<SpiReadFail>::Comms(
                WireFault::Rejected,
            ),
            Some(_) => r matches Err(f) && f == PicoDeGalloError::<SpiReadFail>::Comms(WireFault::WrongEndpoint),
            None => r matches Err(f) && f == PicoDeGalloError::<SpiReadFail>::Comms(WireFault::Decode),
        }),
{
    match decode_response(frame) {
        Some(ResponseMsg::SpiRead(res)) => flatten_response(res),
        Some(ResponseMsg::InvalidRequest) => Err(PicoDeGalloError::Comms(WireFault::Rejected)),
        Some(_) => Err(PicoDeGalloError::Comms(WireFault::WrongEndpoint)),
        None => Err(PicoDeGalloError::Comms(WireFault::Decode)),
    }
}

/// Result of decoding a response frame awaited for an `spi/write`.
pub fn parse_spi_write_response(frame: &Vec<u8>) -> (r: Result<
    (),
    PicoDeGalloError<SpiWriteFail>,
>)
    ensures
        (match spec_parse_response(frame@) {
            Some(ResponseAbs::SpiWrite(Ok(_))) => r is Ok,
            Some(ResponseAbs::SpiWrite(Err(_))) => r matches Err(f) && f
                == PicoDeGalloError::<SpiWriteFail>::Endpoint(SpiWriteFail),
            Some(ResponseAbs::InvalidRequest) => r matches Err(f) && f == PicoDeGalloError::<SpiWriteFail>::Comms(
                WireFault::Rejected,
            ),
            Some(_) => r matches Err(f) && f == PicoDeGalloError::<SpiWriteFail>::Comms(WireFault::WrongEndpoint),
            None => r matches Err(f) && f == PicoDeGalloError::<SpiWriteFail>::Comms(WireFault::Decode),
        }),
{
    match decode_response(frame) {
        Some(ResponseMsg::SpiWrite(res)) => flatten_response(res),
        Some(ResponseMsg::InvalidRequest) => Err(PicoDeGalloError::Comms(WireFault::Rejected)),
        Some(_) => Err(PicoDeGalloError::Comms(WireFault::WrongEndpoint)),
        None => Err(PicoDeGalloError::Comms(WireFault::Decode)),
    }
}

/// Result of decoding a response frame awaited for an `spi/flush`.
pub fn parse_spi_flush_response(frame: &Vec<u8>) -> (r: Result<
    (),
    PicoDeGalloError<SpiFlushFail>,
>)
    ensures
        (match spec_parse_response(frame@) {
            Some(ResponseAbs::SpiFlush(Ok(_))) => r is Ok,
            Some(ResponseAbs::SpiFlush(Err(_))) => r matches Err(f) && f
                == PicoDeGalloError::<SpiFlushFail>::Endpoint(SpiFlushFail),
            Some(ResponseAbs::InvalidRequest) => r matches Err(f) && f == PicoDeGalloError::<SpiFlushFail>::Comms(
                WireFault::Rejected,
            ),
            Some(_) => r matches Err(f) && f == PicoDeGalloError::<SpiFlushFail>::Comms(WireFault::WrongEndpoint),
            None => r matches Err(f) && f == PicoDeGalloError::<SpiFlushFail>::Comms(WireFault::Decode),
        }),
{
    match decode_response(frame) {
        Some(ResponseMsg::SpiFlush(res)) => flatten_response(res),
        Some(ResponseMsg::InvalidRequest) => Err(PicoDeGalloError::Comms(WireFault::Rejected)),
        Some(_) => Err(PicoDeGalloError::Comms(WireFault::WrongEndpoint)),
        None => Err(PicoDeGalloError::Comms(WireFault::Decode)),
    }
}

/// Result of decoding a response frame awaited for a `gpio/get`.
pub fn parse_gpio_get_response(frame: &Vec<u8>) -> (r: Result<
    GpioState,
    PicoDeGalloError<GpioGetFail>,
>)
    ensures
        (match spec_parse_response(frame@) {
            Some(ResponseAbs::GpioGet(Ok(st))) => r == Ok::<
                GpioState,
                PicoDeGalloError<GpioGetFail>,
            >(st),
            Some(ResponseAbs::GpioGet(Err(_))) => r matches Err(f) && f
                == PicoDeGalloError::<GpioGetFail>::Endpoint(GpioGetFail),
            Some(ResponseAbs::InvalidRequest) => r matches Err(f) && f == PicoDeGalloError::<GpioGetFail>::Comms(
                WireFault::Rejected,
            ),
            Some(_) => r matches Err(f) && f == PicoDeGalloError::<GpioGetFail>::Comms(WireFault::WrongEndpoint),
            None => r matches Err(f) && f == PicoDeGalloError::<GpioGetFail>::Comms(WireFault::Decode),
        }),
{
    match decode_response(frame) {
        Some(ResponseMsg::GpioGet(res)) => flatten_response(res),
        Some(ResponseMsg::InvalidRequest) => Err(PicoDeGalloError::Comms(WireFault::Rejected)),
        Some(_) => Err(PicoDeGalloError::Comms(WireFault::WrongEndpoint)),
        None => Err(PicoDeGalloError::Comms(WireFault::Decode)),
    }
}

/// Result of decoding a response frame awaited for a `gpio/put`.
pub fn parse_gpio_put_response(frame: &Vec<u8>) -> (r: Result<
    (),
    PicoDeGalloError<GpioPutFail>,
>)
    ensures
        (match spec_parse_response(frame@) {
            Some(ResponseAbs::GpioPut(Ok(_))) => r is Ok,
            Some(ResponseAbs::GpioPut(Err(_))) => r matches Err(f) && f
                == PicoDeGalloError::<GpioPutFail>::Endpoint(GpioPutFail),
            Some(ResponseAbs::InvalidRequest) => r matches Err(f) && f == PicoDeGalloError::<GpioPutFail>::Comms(
                WireFault::Rejected,
            ),
            Some(_) => r matches Err(f) && f == PicoDeGalloError::<GpioPutFail>::Comms(WireFault::WrongEndpoint),
            None => r matches Err(f) && f == PicoDeGalloError::<GpioPutFail>::Comms(WireFault::Decode),
        }),
{
    match decode_response(frame) {
        Some(ResponseMsg::GpioPut(res)) => flatten_response(res),
        Some(ResponseMsg::InvalidRequest) => Err(PicoDeGalloError::Comms(WireFault::Rejected)),
        Some(_) => Err(PicoDeGalloError::Comms(WireFault::WrongEndpoint)),
        None => Err(PicoDeGalloError::Comms(WireFault::Decode)),
    }
}

/// Result of decoding a response frame awaited for the `gpio/wait-*`
/// endpoint of kind `kind`: a wait response of any other kind answers a
/// different endpoint.
pub fn parse_gpio_wait_response(kind: WaitKind, frame: &Vec<u8>) -> (r: Result<
    (),
    PicoDeGalloError<GpioWaitFail>,
>)
    ensures
        (match spec_parse_response(frame@) {
            Some(ResponseAbs::GpioWait(k, Ok(_))) => if k == kind {
                r is Ok
            } else {
                r matches Err(f) && f == PicoDeGalloError::<GpioWaitFail>::Comms(WireFault::WrongEndpoint)
            },
            Some(ResponseAbs::GpioWait(k, Err(_))) => if k == kind {
                r matches Err(f) && f == PicoDeGalloError::<GpioWaitFail>::Endpoint(GpioWaitFail)
            } else {
                r matches Err(f) && f == PicoDeGalloError::<GpioWaitFail>::Comms(WireFault::WrongEndpoint)
            },
            Some(ResponseAbs::InvalidRequest) => r matches Err(f) && f == PicoDeGalloError::<GpioWaitFail>::Comms(
                WireFault::Rejected,
            ),
            Some(_) => r matches Err(f) && f == PicoDeGalloError::<GpioWaitFail>::Comms(WireFault::WrongEndpoint),
            None => r matches Err(f) && f == PicoDeGalloError::<GpioWaitFail>::Comms(WireFault::Decode),
        }),
{
    match decode_response(frame) {
        Some(ResponseMsg::GpioWait(k, res)) => if k == kind {
            flatten_response(res)
        } else {
            Err(PicoDeGalloError::Comms(WireFault::WrongEndpoint))
        },
        Some(ResponseMsg::InvalidRequest) => Err(PicoDeGalloError::Comms(WireFault::Rejected)),
        Some(_) => Err(PicoDeGalloError::Comms(WireFault::WrongEndpoint)),
        None => Err(PicoDeGalloError::Comms(WireFault::Decode)),
    }
}

/// Result of decoding a response frame awaited for a `set-config`.
pub fn parse_set_config_response(frame: &Vec<u8>) -> (r: Result<
    (),
    PicoDeGalloError<SetConfigurationFail>,
>)
    ensures
        (match spec_parse_response(frame@) {
            Some(ResponseAbs::SetConfiguration(Ok(_))) => r is Ok,
            Some(ResponseAbs::SetConfiguration(Err(_))) => r matches Err(f) && f
                == PicoDeGalloError::<SetConfigurationFail>::Endpoint(SetConfigurationFail),
            Some(ResponseAbs::InvalidRequest) => r matches Err(f) && f == PicoDeGalloError::<SetConfigurationFail>::Comms(
                WireFault::Rejected,
            ),
            Some(_) => r matches Err(f) && f == PicoDeGalloError::<SetConfigurationFail>::Comms(WireFault::WrongEndpoint),
            None => r matches Err(f) && f == PicoDeGalloError::<SetConfigurationFail>::Comms(WireFault::Decode),
        }),
{
    match decode_response(frame) {
        Some(ResponseMsg::SetConfiguration(res)) => flatten_response(res),
        Some(ResponseMsg::InvalidRequest) => Err(PicoDeGalloError::Comms(WireFault::Rejected)),
        Some(_) => Err(PicoDeGalloError::Comms(WireFault::WrongEndpoint)),
        None => Err(PicoDeGalloError::Comms(WireFault::Decode)),
    }
}

/// Result of decoding a response frame awaited for a `version` request:
/// the version triple, or the transport fault that explains its absence.
pub fn parse_version_response(frame: &Vec<u8>) -> (r: Result<VersionInfo, WireFault>)
    ensures
        (match spec_parse_response(frame@) {
            Some(ResponseAbs::Version(vi)) => r == Ok::<VersionInfo, WireFault>(vi),
            Some(ResponseAbs::InvalidRequest) => r == Err::<VersionInfo, WireFault>(
                WireFault::Rejected,
            ),
            Some(_) => r == Err::<VersionInfo, WireFault>(WireFault::WrongEndpoint),
            None => r == Err::<VersionInfo, WireFault>(WireFault::Decode),
        }),
{
    match decode_response(frame) {
        Some(ResponseMsg::Version(vi)) => Ok(vi),
        Some(ResponseMsg::InvalidRequest) => Err(WireFault::Rejected),
        Some(_) => Err(WireFault::WrongEndpoint),
        None => Err(WireFault::Decode),
    }
}

} // verus!
