//! Round trips of the schema frame codec: decoding the encoded form of
//! every request and response gives the original back, and malformed
//! frames are rejected rather than misread.

use pico_de_gallo::schema::{
    GpioGetFail, GpioGetRequest, GpioPutRequest, GpioState, GpioWaitRequest, I2cReadFail,
    I2cReadRequest, I2cWriteRequest, SetConfigurationFail, SetConfigurationRequest, SpiPhase,
    SpiPolarity, SpiReadRequest, SpiWriteRequest, VersionInfo, WaitKind,
};
use pico_de_gallo::wire::{
    decode_request, decode_response, encode_request, encode_response, RequestMsg, ResponseMsg,
};

fn request_round_trip(m: RequestMsg) {
    let bytes = encode_request(&m);
    let back = decode_request(&bytes).expect("a canonical frame must decode");
    assert_eq!(back, m);
}

fn response_round_trip(m: ResponseMsg) {
    let bytes = encode_response(&m);
    let back = decode_response(&bytes).expect("a canonical frame must decode");
    assert_eq!(back, m);
}

#[test]
fn i2c_write_request_round_trip() {
    // the round-trip property on the endpoint that carries an address and bytes
    request_round_trip(RequestMsg::I2cWrite(I2cWriteRequest {
        address: 0x48,
        contents: vec![0x0f, 0x10, 0xff],
    }));
    request_round_trip(RequestMsg::I2cWrite(I2cWriteRequest {
        address: 0x00,
        contents: Vec::new(),
    }));
    request_round_trip(RequestMsg::I2cWrite(I2cWriteRequest {
        address: 0x7f,
        contents: (0u8..=255).collect(),
    }));
}

#[test]
fn every_request_round_trips() {
    request_round_trip(RequestMsg::Ping(0));
    request_round_trip(RequestMsg::Ping(u32::MAX));
    request_round_trip(RequestMsg::I2cRead(I2cReadRequest { address: 0x48, count: 512 }));
    request_round_trip(RequestMsg::SpiRead(SpiReadRequest { count: 0xffff }));
    request_round_trip(RequestMsg::SpiWrite(SpiWriteRequest { contents: vec![1, 2, 3] }));
    request_round_trip(RequestMsg::SpiFlush);
    request_round_trip(RequestMsg::GpioGet(GpioGetRequest { pin: 7 }));
    request_round_trip(RequestMsg::GpioPut(GpioPutRequest { pin: 0, state: GpioState::High }));
    request_round_trip(RequestMsg::GpioPut(GpioPutRequest { pin: 3, state: GpioState::Low }));
    for kind in [
        WaitKind::High,
        WaitKind::Low,
        WaitKind::RisingEdge,
        WaitKind::FallingEdge,
        WaitKind::AnyEdge,
    ] {
        request_round_trip(RequestMsg::GpioWait(kind, GpioWaitRequest { pin: 5 }));
    }
    request_round_trip(RequestMsg::SetConfiguration(SetConfigurationRequest {
        i2c_frequency: 400_000,
        spi_frequency: 1_000_000,
        spi_phase: SpiPhase::CaptureOnSecondTransition,
        spi_polarity: SpiPolarity::IdleHigh,
    }));
    request_round_trip(RequestMsg::Version);
}

#[test]
fn every_response_round_trips() {
    response_round_trip(ResponseMsg::Pong(1234));
    response_round_trip(ResponseMsg::I2cRead(Ok(vec![0xab, 0xcd])));
    response_round_trip(ResponseMsg::I2cRead(Err(I2cReadFail)));
    response_round_trip(ResponseMsg::I2cWrite(Ok(())));
    response_round_trip(ResponseMsg::SpiRead(Ok(Vec::new())));
    response_round_trip(ResponseMsg::SpiWrite(Ok(())));
    response_round_trip(ResponseMsg::SpiFlush(Ok(())));
    response_round_trip(ResponseMsg::GpioGet(Ok(GpioState::Low)));
    response_round_trip(ResponseMsg::GpioGet(Ok(GpioState::High)));
    response_round_trip(ResponseMsg::GpioGet(Err(GpioGetFail)));
    response_round_trip(ResponseMsg::GpioPut(Ok(())));
    response_round_trip(ResponseMsg::GpioWait(WaitKind::RisingEdge, Ok(())));
    response_round_trip(ResponseMsg::SetConfiguration(Err(SetConfigurationFail)));
    response_round_trip(ResponseMsg::Version(VersionInfo { major: 1, minor: 2, patch: 3 }));
    response_round_trip(ResponseMsg::InvalidRequest);
}

#[test]
fn ping_frame_bytes_are_exact() {
    // key zero, then the value as a varint
    assert_eq!(encode_request(&RequestMsg::Ping(5)), vec![0x00, 0x05]);
    assert_eq!(encode_request(&RequestMsg::Ping(300)), vec![0x00, 0xac, 0x02]);
}

#[test]
fn i2c_read_frame_bytes_are_exact() {
    // key, address, count varint
    let bytes = encode_request(&RequestMsg::I2cRead(I2cReadRequest { address: 0x48, count: 2 }));
    assert_eq!(bytes, vec![0x01, 0x48, 0x02]);
}

#[test]
fn malformed_frames_are_rejected() {
    // empty frame
    assert!(decode_request(&Vec::new()).is_none());
    // unknown key
    assert!(decode_request(&vec![0x20]).is_none());
    // truncated body: i2c/read without its count
    assert!(decode_request(&vec![0x01, 0x48]).is_none());
    // trailing garbage after a complete body
    assert!(decode_request(&vec![0x00, 0x05, 0x99]).is_none());
    // i2c/write whose byte count exceeds what follows
    assert!(decode_request(&vec![0x02, 0x48, 0x05, 0x01]).is_none());
    // gpio/put with a level byte that names no level
    assert!(decode_request(&vec![0x07, 0x01, 0x02]).is_none());
    // response with unknown key
    assert!(decode_response(&vec![0x21]).is_none());
    // success tag with no data chunk
    assert!(decode_response(&vec![0x01, 0x00]).is_none());
}
