//! The enum-framed protocol variant: exact encodings, round trips, and the
//! device's serving behaviour for each request family.

use pico_de_gallo::dispatch::BusOutcome;
use pico_de_gallo::proto::{
    decode_request, decode_response, encode_request, encode_response, gpio_get_reply,
    i2c_read_reply, i2c_write_reply_ok, serve_frame, serve_request, set_config_reply_ok,
    spi_read_reply, GpioOpcode, GpioRequest, GpioResponse, GpioState, I2cOpcode, I2cRequest,
    I2cResponse, Pin, Request, Response, SetConfigRequest, SetConfigResponse, SpiOpcode,
    SpiRequest, SpiResponse, Status,
};
use pico_de_gallo::schema;
use pico_de_gallo::schema::{SpiPhase, SpiPolarity};

#[test]
fn proto_request_bytes_are_exact() {
    // variant selector, opcode, address varint, size varint, absent data
    let m = Request::I2c(I2cRequest {
        opcode: I2cOpcode::Read,
        address: 0x48,
        size: 2,
        data: None,
    });
    assert_eq!(encode_request(&m), vec![0x00, 0x00, 0x48, 0x02, 0x00]);

    // present data carries a length prefix
    let m = Request::I2c(I2cRequest {
        opcode: I2cOpcode::Write,
        address: 0x48,
        size: 1,
        data: Some(vec![0x0f]),
    });
    assert_eq!(encode_request(&m), vec![0x00, 0x01, 0x48, 0x01, 0x01, 0x01, 0x0f]);
}

#[test]
fn proto_requests_round_trip() {
    let samples = vec![
        Request::I2c(I2cRequest {
            opcode: I2cOpcode::Write,
            address: 0x200,
            size: 3,
            data: Some(vec![1, 2, 3]),
        }),
        Request::Spi(SpiRequest { opcode: SpiOpcode::Transfer, size: Some(16), data: None }),
        Request::Spi(SpiRequest {
            opcode: SpiOpcode::Transfer,
            size: None,
            data: Some(vec![9, 9]),
        }),
        Request::Spi(SpiRequest { opcode: SpiOpcode::Flush, size: None, data: None }),
        Request::Gpio(GpioRequest {
            opcode: GpioOpcode::SetState,
            pin: Pin { index: 5 },
            state: Some(GpioState::High),
        }),
        Request::Gpio(GpioRequest {
            opcode: GpioOpcode::GetState,
            pin: Pin { index: 0 },
            state: None,
        }),
        Request::SetConfig(SetConfigRequest {
            i2c_frequency: 400_000,
            spi_frequency: 1_000_000,
            spi_phase: SpiPhase::CaptureOnFirstTransition,
            spi_polarity: SpiPolarity::IdleHigh,
        }),
    ];
    for m in samples {
        let bytes = encode_request(&m);
        assert_eq!(decode_request(&bytes), Some(m));
    }
}

#[test]
fn proto_responses_round_trip() {
    let samples = vec![
        Response::InvalidRequest,
        Response::I2c(I2cResponse {
            status: Status::Success,
            address: Some(0x48),
            size: Some(2),
            data: Some(vec![0xab, 0xcd]),
        }),
        Response::I2c(I2cResponse { status: Status::Fail, address: None, size: None, data: None }),
        Response::Spi(SpiResponse { status: Status::Success, size: None, data: None }),
        Response::Gpio(GpioResponse {
            status: Status::Success,
            pin: Pin { index: 3 },
            state: Some(GpioState::Low),
        }),
        Response::SetConfig(SetConfigResponse { status: Status::Fail }),
    ];
    for m in samples {
        let bytes = encode_response(&m);
        assert_eq!(decode_response(&bytes), Some(m));
    }
}

#[test]
fn proto_malformed_frames_are_rejected() {
    assert!(decode_request(&Vec::new()).is_none());
    // unknown variant selector
    assert!(decode_request(&vec![0x04]).is_none());
    // truncated i2c request
    assert!(decode_request(&vec![0x00, 0x00, 0x48]).is_none());
    // trailing bytes after a complete request
    assert!(decode_request(&vec![0x00, 0x00, 0x48, 0x02, 0x00, 0x77]).is_none());
    // a level byte that names no level
    assert!(decode_request(&vec![0x02, 0x01, 0x05, 0x01, 0x02]).is_none());
    assert!(decode_response(&vec![0x05]).is_none());
}

#[test]
fn proto_device_serves_a_read() {
    let m = Request::I2c(I2cRequest {
        opcode: I2cOpcode::Read,
        address: 0x48,
        size: 2,
        data: None,
    });
    let r = serve_request(&m, 512, &BusOutcome::Data(vec![0xab, 0xcd, 0xee]));
    assert_eq!(
        r,
        Response::I2c(I2cResponse {
            status: Status::Success,
            address: Some(0x48),
            size: Some(2),
            data: Some(vec![0xab, 0xcd]),
        })
    );
}

#[test]
fn proto_device_rejects_what_it_cannot_serve() {
    // a write without bytes is not a servable request
    let m = Request::I2c(I2cRequest {
        opcode: I2cOpcode::Write,
        address: 0x48,
        size: 1,
        data: None,
    });
    assert_eq!(serve_request(&m, 512, &BusOutcome::Done), Response::InvalidRequest);

    // a transfer naming neither direction is not servable either
    let m = Request::Spi(SpiRequest { opcode: SpiOpcode::Transfer, size: None, data: None });
    assert_eq!(serve_request(&m, 512, &BusOutcome::Done), Response::InvalidRequest);

    // a level set without a level
    let m = Request::Gpio(GpioRequest {
        opcode: GpioOpcode::SetState,
        pin: Pin { index: 1 },
        state: None,
    });
    assert_eq!(serve_request(&m, 512, &BusOutcome::Done), Response::InvalidRequest);

    // an oversized read fails without touching the buffer
    let m = Request::I2c(I2cRequest {
        opcode: I2cOpcode::Read,
        address: 0x48,
        size: 513,
        data: None,
    });
    let r = serve_request(&m, 512, &BusOutcome::Data(vec![0u8; 4096]));
    assert_eq!(
        r,
        Response::I2c(I2cResponse { status: Status::Fail, address: None, size: None, data: None })
    );
}

#[test]
fn proto_device_reports_bus_failures_with_the_family_status() {
    let m = Request::Spi(SpiRequest { opcode: SpiOpcode::Flush, size: None, data: None });
    let r = serve_request(&m, 512, &BusOutcome::Failed);
    assert_eq!(r, Response::Spi(SpiResponse { status: Status::Fail, size: None, data: None }));

    let m = Request::Gpio(GpioRequest {
        opcode: GpioOpcode::GetState,
        pin: Pin { index: 7 },
        state: None,
    });
    let r = serve_request(&m, 512, &BusOutcome::Level(schema::GpioState::High));
    assert_eq!(
        r,
        Response::Gpio(GpioResponse {
            status: Status::Success,
            pin: Pin { index: 7 },
            state: Some(GpioState::High),
        })
    );
}

#[test]
fn proto_config_partial_failure_is_reported() {
    let m = Request::SetConfig(SetConfigRequest {
        i2c_frequency: 100_000,
        spi_frequency: 500_000,
        spi_phase: SpiPhase::CaptureOnSecondTransition,
        spi_polarity: SpiPolarity::IdleLow,
    });
    let r = serve_request(&m, 512, &BusOutcome::ConfigApplied { i2c_ok: false, spi_ok: true });
    assert_eq!(r, Response::SetConfig(SetConfigResponse { status: Status::Fail }));
    let r = serve_request(&m, 512, &BusOutcome::ConfigApplied { i2c_ok: true, spi_ok: true });
    assert_eq!(r, Response::SetConfig(SetConfigResponse { status: Status::Success }));
}

#[test]
fn proto_undecodable_frame_is_answered_not_fatal() {
    let garbage: Vec<u8> = vec![0x09, 0x01];
    let out = serve_frame(&garbage, 512, &BusOutcome::Done);
    assert_eq!(decode_response(&out), Some(Response::InvalidRequest));

    // the next, well-formed frame on the same connection is served
    let m = Request::I2c(I2cRequest {
        opcode: I2cOpcode::Read,
        address: 0x21,
        size: 1,
        data: None,
    });
    let out = serve_frame(&encode_request(&m), 512, &BusOutcome::Data(vec![0x5a]));
    assert_eq!(
        decode_response(&out),
        Some(Response::I2c(I2cResponse {
            status: Status::Success,
            address: Some(0x21),
            size: Some(1),
            data: Some(vec![0x5a]),
        }))
    );
}

#[test]
fn proto_host_interprets_replies() {
    let ok = Response::I2c(I2cResponse {
        status: Status::Success,
        address: Some(0x48),
        size: Some(2),
        data: Some(vec![0xab, 0xcd]),
    });
    assert_eq!(i2c_read_reply(ok), Some(vec![0xab, 0xcd]));

    // a failed status yields nothing even if data is present
    let bad = Response::I2c(I2cResponse {
        status: Status::Fail,
        address: None,
        size: None,
        data: Some(vec![0xab]),
    });
    assert_eq!(i2c_read_reply(bad), None);

    // a response of another family never answers this call
    let other = Response::SetConfig(SetConfigResponse { status: Status::Success });
    assert_eq!(i2c_read_reply(other), None);

    let w = Response::I2c(I2cResponse {
        status: Status::Success,
        address: Some(0x48),
        size: None,
        data: None,
    });
    assert!(i2c_write_reply_ok(&w));
    assert!(!i2c_write_reply_ok(&Response::InvalidRequest));

    let s = Response::Spi(SpiResponse {
        status: Status::Success,
        size: Some(1),
        data: Some(vec![0x55]),
    });
    assert_eq!(spi_read_reply(s), Some(vec![0x55]));

    let g = Response::Gpio(GpioResponse {
        status: Status::Success,
        pin: Pin { index: 2 },
        state: Some(GpioState::High),
    });
    assert_eq!(gpio_get_reply(&g), Some(GpioState::High));

    assert!(set_config_reply_ok(&Response::SetConfig(SetConfigResponse {
        status: Status::Success,
    })));
    assert!(!set_config_reply_ok(&Response::SetConfig(SetConfigResponse {
        status: Status::Fail,
    })));
}

#[test]
fn proto_out_of_range_pin_is_rejected() {
    // pin 8 is past the last line: failure, even with a reported level
    let m = Request::Gpio(GpioRequest {
        opcode: GpioOpcode::GetState,
        pin: Pin { index: 8 },
        state: None,
    });
    let r = serve_request(&m, 512, &BusOutcome::Level(schema::GpioState::High));
    assert_eq!(
        r,
        Response::Gpio(GpioResponse { status: Status::Fail, pin: Pin { index: 8 }, state: None })
    );

    let m = Request::Gpio(GpioRequest {
        opcode: GpioOpcode::SetState,
        pin: Pin { index: 0xff },
        state: Some(GpioState::Low),
    });
    let r = serve_request(&m, 512, &BusOutcome::Done);
    assert_eq!(
        r,
        Response::Gpio(GpioResponse {
            status: Status::Fail,
            pin: Pin { index: 0xff },
            state: None,
        })
    );
}
