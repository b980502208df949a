//! The device dispatcher: ping echoes, oversized reads are rejected,
//! configuration failures are reported, responses come back in request
//! order, and a write-then-read against a stubbed bus returns exactly what
//! the bus delivered.

use pico_de_gallo::client::{
    build_gpio_get_request, build_gpio_put_request, build_gpio_wait_request,
    build_i2c_read_request, build_i2c_write_request, build_ping_request, build_set_config_request,
    build_version_request, parse_gpio_get_response, parse_gpio_put_response,
    parse_gpio_wait_response, parse_i2c_read_response, parse_ping_response,
    parse_set_config_response, parse_version_response, PicoDeGalloError,
};
use pico_de_gallo::dispatch::{
    dispatch_frame, handle_request, link_step, plan_request, process_connection, serve_message,
    version_info, BusAction, BusOutcome, LinkEvent, LinkState, NUM_GPIO_PINS,
    WORKING_BUFFER_CAPACITY, VERSION_MAJOR, VERSION_MINOR, VERSION_PATCH,
};
use pico_de_gallo::framing::{packetize, reassemble};
use pico_de_gallo::schema::{
    GpioGetFail, GpioGetRequest, GpioPutFail, GpioPutRequest, GpioState, GpioWaitFail,
    I2cReadFail, I2cReadRequest, SpiPhase, SpiPolarity, SpiReadFail, SpiReadRequest, WaitKind,
};
use pico_de_gallo::wire::{decode_response, RequestMsg, ResponseMsg};

#[test]
fn ping_echoes_every_value() {
    // the device answers a ping with the same integer, whatever the bus did
    for v in [0u32, 1, 0xdead_beef, u32::MAX] {
        let frame = build_ping_request(v);
        let out = dispatch_frame(&frame, &BusOutcome::Failed);
        assert_eq!(parse_ping_response(&out), Ok(v));
    }
}

#[test]
fn oversized_i2c_read_is_rejected() {
    // one past the working buffer capacity: failure marker, not a truncated read
    let count = WORKING_BUFFER_CAPACITY + 1;
    let frame = build_i2c_read_request(0x48, count);
    // even a bus that would deliver data cannot make this succeed
    let generous = BusOutcome::Data(vec![0u8; 0x10000]);
    let out = dispatch_frame(&frame, &generous);
    assert_eq!(
        parse_i2c_read_response(&out),
        Err(PicoDeGalloError::Endpoint(I2cReadFail))
    );
    // and no bus operation is even planned for it
    let m = RequestMsg::I2cRead(I2cReadRequest { address: 0x48, count });
    assert_eq!(plan_request(&m), BusAction::NoBusOperation);
}

#[test]
fn oversized_spi_read_is_rejected() {
    let m = RequestMsg::SpiRead(SpiReadRequest { count: WORKING_BUFFER_CAPACITY + 1 });
    let resp = handle_request(&m, &BusOutcome::Data(vec![0u8; 0x10000]));
    assert_eq!(resp, ResponseMsg::SpiRead(Err(SpiReadFail)));
}

#[test]
fn in_bounds_read_returns_first_count_bytes() {
    let frame = build_i2c_read_request(0x48, 2);
    let out = dispatch_frame(&frame, &BusOutcome::Data(vec![0xab, 0xcd, 0x11, 0x22]));
    assert_eq!(parse_i2c_read_response(&out), Ok(vec![0xab, 0xcd]));
}

#[test]
fn write_then_read_scenario() {
    // write one register address, then read two bytes back, with the bus
    // stubbed to deliver a known register value
    let write = build_i2c_write_request(0x48, vec![0x0f]);
    let write_out = dispatch_frame(&write, &BusOutcome::Done);
    let decoded = decode_response(&write_out).unwrap();
    assert_eq!(decoded, ResponseMsg::I2cWrite(Ok(())));

    let read = build_i2c_read_request(0x48, 2);
    let read_out = dispatch_frame(&read, &BusOutcome::Data(vec![0xab, 0xcd]));
    assert_eq!(parse_i2c_read_response(&read_out), Ok(vec![0xab, 0xcd]));
}

#[test]
fn responses_keep_request_order() {
    // three requests on one connection answer strictly in order, even
    // though the middle one carries the slow bus operation
    let frames = vec![
        build_ping_request(1),
        build_i2c_read_request(0x10, 1),
        build_ping_request(3),
    ];
    let outcomes = vec![
        BusOutcome::Done,
        BusOutcome::Data(vec![0x55]),
        BusOutcome::Done,
    ];
    let responses = process_connection(&frames, &outcomes);
    assert_eq!(responses.len(), 3);
    assert_eq!(parse_ping_response(&responses[0]), Ok(1));
    assert_eq!(parse_i2c_read_response(&responses[1]), Ok(vec![0x55]));
    assert_eq!(parse_ping_response(&responses[2]), Ok(3));
}

#[test]
fn config_partial_failure_is_reported() {
    let frame = build_set_config_request(
        400_000,
        1_000_000,
        SpiPhase::CaptureOnFirstTransition,
        SpiPolarity::IdleLow,
    );
    // the I2C half failed although the SPI half applied: still a failure
    let out = dispatch_frame(&frame, &BusOutcome::ConfigApplied { i2c_ok: false, spi_ok: true });
    assert!(parse_set_config_response(&out).is_err());
    // the SPI half failed although the I2C half applied: still a failure
    let out = dispatch_frame(&frame, &BusOutcome::ConfigApplied { i2c_ok: true, spi_ok: false });
    assert!(parse_set_config_response(&out).is_err());
    // both halves applied: success
    let out = dispatch_frame(&frame, &BusOutcome::ConfigApplied { i2c_ok: true, spi_ok: true });
    assert_eq!(parse_set_config_response(&out), Ok(()));
}

#[test]
fn version_reports_compiled_in_triple() {
    let frame = build_version_request();
    let out = dispatch_frame(&frame, &BusOutcome::Failed);
    let vi = parse_version_response(&out).unwrap();
    assert_eq!(vi.major, VERSION_MAJOR);
    assert_eq!(vi.minor, VERSION_MINOR);
    assert_eq!(vi.patch, VERSION_PATCH);
    assert_eq!(vi, version_info());
}

#[test]
fn undecodable_frame_answers_invalid_request_and_connection_survives() {
    let garbage: Vec<u8> = vec![0x7e, 0x01, 0x02];
    let out = dispatch_frame(&garbage, &BusOutcome::Done);
    assert_eq!(decode_response(&out), Some(ResponseMsg::InvalidRequest));
    // the next frame on the same connection is served normally
    let frames = vec![garbage, build_ping_request(9)];
    let outcomes = vec![BusOutcome::Done, BusOutcome::Done];
    let responses = process_connection(&frames, &outcomes);
    assert_eq!(parse_ping_response(&responses[1]), Ok(9));
}

#[test]
fn link_state_machine_transitions() {
    let s = LinkState::WaitingForConnection;
    let s = link_step(s, LinkEvent::EndpointsEnabled);
    assert_eq!(s, LinkState::AwaitingFrame);
    let s = link_step(s, LinkEvent::FrameReceived);
    assert_eq!(s, LinkState::Dispatching);
    let s = link_step(s, LinkEvent::HandlerReturned);
    assert_eq!(s, LinkState::AwaitingFrame);
    let s = link_step(s, LinkEvent::ReadError);
    assert_eq!(s, LinkState::WaitingForConnection);
    // events that do not apply leave the state alone
    assert_eq!(
        link_step(LinkState::WaitingForConnection, LinkEvent::FrameReceived),
        LinkState::WaitingForConnection
    );
}

#[test]
fn serve_message_runs_the_whole_device_loop() {
    // the request arrives split into packets; the response leaves the same way
    let frame = build_i2c_read_request(0x48, 2);
    let packets = packetize(&frame);
    let out = serve_message(&packets, &BusOutcome::Data(vec![0xab, 0xcd]));
    let response = reassemble(&out);
    assert_eq!(parse_i2c_read_response(&response), Ok(vec![0xab, 0xcd]));
}

#[test]
fn out_of_range_pin_is_rejected() {
    // the device offers pins 0 through 7; pin 8 is past the last line
    let pin = NUM_GPIO_PINS;

    // a get is rejected even when the bus would report a level
    let frame = build_gpio_get_request(pin);
    let out = dispatch_frame(&frame, &BusOutcome::Level(GpioState::High));
    assert_eq!(
        parse_gpio_get_response(&out),
        Err(PicoDeGalloError::Endpoint(GpioGetFail))
    );

    // a put is rejected even when the bus would report completion
    let frame = build_gpio_put_request(0xff, GpioState::Low);
    let out = dispatch_frame(&frame, &BusOutcome::Done);
    assert_eq!(
        parse_gpio_put_response(&out),
        Err(PicoDeGalloError::Endpoint(GpioPutFail))
    );

    // every wait kind is rejected likewise
    for kind in [
        WaitKind::High,
        WaitKind::Low,
        WaitKind::RisingEdge,
        WaitKind::FallingEdge,
        WaitKind::AnyEdge,
    ] {
        let frame = build_gpio_wait_request(kind, pin);
        let out = dispatch_frame(&frame, &BusOutcome::Done);
        assert_eq!(
            parse_gpio_wait_response(kind, &out),
            Err(PicoDeGalloError::Endpoint(GpioWaitFail))
        );
    }

    // and no bus operation is even planned for such a pin
    let m = RequestMsg::GpioGet(GpioGetRequest { pin });
    assert_eq!(plan_request(&m), BusAction::NoBusOperation);
    let m = RequestMsg::GpioPut(GpioPutRequest { pin, state: GpioState::High });
    assert_eq!(plan_request(&m), BusAction::NoBusOperation);

    // the last in-range pin is still served
    let frame = build_gpio_get_request(NUM_GPIO_PINS - 1);
    let out = dispatch_frame(&frame, &BusOutcome::Level(GpioState::High));
    assert_eq!(parse_gpio_get_response(&out), Ok(GpioState::High));
}
