//! The host client's two error channels: an endpoint failure and a
//! transport fault never look alike, and a response is accepted only for
//! the endpoint it answers.

use pico_de_gallo::client::{
    flatten_response, parse_gpio_wait_response, parse_i2c_read_response, parse_i2c_write_response,
    parse_ping_response, PicoDeGalloError, WireFault,
};
use pico_de_gallo::schema::{I2cWriteFail, WaitKind};
use pico_de_gallo::wire::{encode_response, ResponseMsg};

#[test]
fn endpoint_failure_and_transport_fault_stay_apart() {
    // the device rejected the write: an endpoint failure
    let frame = encode_response(&ResponseMsg::I2cWrite(Err(I2cWriteFail)));
    assert_eq!(
        parse_i2c_write_response(&frame),
        Err(PicoDeGalloError::Endpoint(I2cWriteFail))
    );
    // the bytes are no response at all: a transport fault
    let garbage: Vec<u8> = vec![0xf0, 0x0d];
    assert_eq!(
        parse_i2c_write_response(&garbage),
        Err(PicoDeGalloError::Comms(WireFault::Decode))
    );
}

#[test]
fn a_response_for_another_endpoint_is_refused() {
    // a pong never answers an i2c/read
    let frame = encode_response(&ResponseMsg::Pong(7));
    assert_eq!(
        parse_i2c_read_response(&frame),
        Err(PicoDeGalloError::Comms(WireFault::WrongEndpoint))
    );
    // and an i2c/read response never answers a ping
    let frame = encode_response(&ResponseMsg::I2cRead(Ok(vec![1])));
    assert_eq!(parse_ping_response(&frame), Err(WireFault::WrongEndpoint));
}

#[test]
fn wait_responses_correlate_by_kind() {
    let frame = encode_response(&ResponseMsg::GpioWait(WaitKind::RisingEdge, Ok(())));
    assert_eq!(parse_gpio_wait_response(WaitKind::RisingEdge, &frame), Ok(()));
    assert_eq!(
        parse_gpio_wait_response(WaitKind::FallingEdge, &frame),
        Err(PicoDeGalloError::Comms(WireFault::WrongEndpoint))
    );
}

#[test]
fn device_rejection_is_reported_as_such() {
    let frame = encode_response(&ResponseMsg::InvalidRequest);
    assert_eq!(
        parse_i2c_read_response(&frame),
        Err(PicoDeGalloError::Comms(WireFault::Rejected))
    );
    assert_eq!(parse_ping_response(&frame), Err(WireFault::Rejected));
}

#[test]
fn flatten_keeps_the_success_and_maps_the_failure() {
    let ok: Result<u32, I2cWriteFail> = Ok(5);
    assert_eq!(flatten_response(ok), Ok(5));
    let err: Result<u32, I2cWriteFail> = Err(I2cWriteFail);
    assert_eq!(flatten_response(err), Err(PicoDeGalloError::Endpoint(I2cWriteFail)));
}

#[test]
fn every_fault_has_its_account() {
    assert_eq!(WireFault::DeviceNotFound.describe(), "device not found");
    assert_eq!(WireFault::Closed.describe(), "device disconnected");
    assert_eq!(WireFault::Decode.describe(), "response decode failure");
    assert_eq!(WireFault::WrongEndpoint.describe(), "response for another endpoint");
    assert_eq!(WireFault::Rejected.describe(), "request rejected by the device");
}
