//! The wire schema: one request/response pair per endpoint, shared verbatim
//! by the device dispatcher and the host client. Request bodies that carry
//! raw bytes own them as a growable byte vector.

use vstd::prelude::*;

verus! {

/// Request body of the `i2c/read` endpoint.
#[derive(Debug, Clone, Copy, PartialEq, Eq, Structural)]
pub struct I2cReadRequest {
    pub address: u8,
    pub count: u16,
}

/// Failure marker of the `i2c/read` endpoint; carries no diagnostic payload.
#[derive(Debug, Clone, Copy, PartialEq, Eq, Structural)]
pub struct I2cReadFail;

/// Request body of the `i2c/write` endpoint.
#[derive(Debug, Clone, PartialEq, Eq)]
pub struct I2cWriteRequest {
    pub address: u8,
    pub contents: Vec<u8>,
}

/// Failure marker of the `i2c/write` endpoint.
#[derive(Debug, Clone, Copy, PartialEq, Eq, Structural)]
pub struct I2cWriteFail;

/// Request body of the `spi/read` endpoint.
#[derive(Debug, Clone, Copy, PartialEq, Eq, Structural)]
pub struct SpiReadRequest {
    pub count: u16,
}

/// Failure marker of the `spi/read` endpoint.
#[derive(Debug, Clone, Copy, PartialEq, Eq, Structural)]
pub struct SpiReadFail;

/// Request body of the `spi/write` endpoint.
#[derive(Debug, Clone, PartialEq, Eq)]
pub struct SpiWriteRequest {
    pub contents: Vec<u8>,
}

/// Failure marker of the `spi/write` endpoint.
#[derive(Debug, Clone, Copy, PartialEq, Eq, Structural)]
pub struct SpiWriteFail;

/// Failure marker of the `spi/flush` endpoint.
#[derive(Debug, Clone, Copy, PartialEq, Eq, Structural)]
pub struct SpiFlushFail;

/// Request body of the `gpio/get` endpoint.
#[derive(Debug, Clone, Copy, PartialEq, Eq, Structural)]
pub struct GpioGetRequest {
    pub pin: u8,
}

/// Failure marker of the `gpio/get` endpoint.
#[derive(Debug, Clone, Copy, PartialEq, Eq, Structural)]
pub struct GpioGetFail;

/// Logic level of a GPIO pin.
#[derive(Debug, Clone, Copy, PartialEq, Eq, Structural)]
pub enum GpioState {
    Low,
    High,
}

/// Request body of the `gpio/put` endpoint.
#[derive(Debug, Clone, Copy, PartialEq, Eq, Structural)]
pub struct GpioPutRequest {
    pub pin: u8,
    pub state: GpioState,
}

/// Failure marker of the `gpio/put` endpoint.
#[derive(Debug, Clone, Copy, PartialEq, Eq, Structural)]
pub struct GpioPutFail;

/// Request body shared by the five `gpio/wait-*` endpoints.
#[derive(Debug, Clone, Copy, PartialEq, Eq, Structural)]
pub struct GpioWaitRequest {
    pub pin: u8,
}

/// Failure marker of the `gpio/wait-*` endpoints.
#[derive(Debug, Clone, Copy, PartialEq, Eq, Structural)]
pub struct GpioWaitFail;

/// The condition one of the `gpio/wait-*` endpoints waits for.
#[derive(Debug, Clone, Copy, PartialEq, Eq, Structural)]
pub enum WaitKind {
    High,
    Low,
    RisingEdge,
    FallingEdge,
    AnyEdge,
}

/// When the SPI bus samples data relative to the clock transition.
#[derive(Debug, Clone, Copy, PartialEq, Eq, Structural)]
pub enum SpiPhase {
    CaptureOnFirstTransition,
    CaptureOnSecondTransition,
}

/// Idle level of the SPI clock line.
#[derive(Debug, Clone, Copy, PartialEq, Eq, Structural)]
pub enum SpiPolarity {
    IdleLow,
    IdleHigh,
}

/// Request body of the `set-config` endpoint: applied to both buses at once.
#[derive(Debug, Clone, Copy, PartialEq, Eq, Structural)]
pub struct SetConfigurationRequest {
    pub i2c_frequency: u32,
    pub spi_frequency: u32,
    pub spi_phase: SpiPhase,
    pub spi_polarity: SpiPolarity,
}

/// Failure marker of the `set-config` endpoint.
#[derive(Debug, Clone, Copy, PartialEq, Eq, Structural)]
pub struct SetConfigurationFail;

/// Response body of the `version` endpoint: the compiled-in version triple.
#[derive(Debug, Clone, Copy, PartialEq, Eq, Structural)]
pub struct VersionInfo {
    pub major: u16,
    pub minor: u16,
    pub patch: u32,
}

} // verus!
