//! The minimal fixed-header protocol: exact frame bytes, round trips, the
//! device-side checks, and the preserved bus-error taxonomy.

use pico_de_gallo::client::I2cError;
use pico_de_gallo::frame::{
    bus_execute, bus_response_result, decode_bus_request, decode_bus_response, encode_bus_request,
    encode_bus_response, execute_bus_frame, spi_transfer_request, BusOpcode, BusReply, BusRequest,
    BusResponse, BusStatus,
};

#[test]
fn request_frame_bytes_are_exact() {
    // read two bytes from address 0x48: opcode, address, size little-endian
    let req = BusRequest { opcode: BusOpcode::Read, address: 0x48, size: 2, payload: Vec::new() };
    assert_eq!(encode_bus_request(&req), vec![0x00, 0x48, 0x02, 0x00]);

    let req = BusRequest {
        opcode: BusOpcode::Write,
        address: 0x48,
        size: 0x0102,
        payload: vec![0xaa, 0xbb],
    };
    assert_eq!(encode_bus_request(&req), vec![0x01, 0x48, 0x02, 0x01, 0xaa, 0xbb]);
}

#[test]
fn frames_round_trip() {
    let req = BusRequest {
        opcode: BusOpcode::Transfer,
        address: 0,
        size: 300,
        payload: vec![1, 2, 3, 4],
    };
    let bytes = encode_bus_request(&req);
    assert_eq!(decode_bus_request(&bytes), Some(req));

    let resp = BusResponse { status: BusStatus::Success, payload: vec![9, 8, 7] };
    let bytes = encode_bus_response(&resp);
    assert_eq!(decode_bus_response(&bytes), Some(resp));
}

#[test]
fn malformed_bus_frames_are_rejected() {
    // shorter than the header
    assert!(decode_bus_request(&vec![0x00, 0x48, 0x02]).is_none());
    // unknown opcode
    assert!(decode_bus_request(&vec![0x05, 0x48, 0x02, 0x00]).is_none());
    // empty response
    assert!(decode_bus_response(&Vec::new()).is_none());
    // unknown status byte
    assert!(decode_bus_response(&vec![0x07]).is_none());
}

#[test]
fn device_serves_a_read_with_the_first_size_bytes() {
    let req = BusRequest { opcode: BusOpcode::Read, address: 0x48, size: 2, payload: Vec::new() };
    let resp = bus_execute(&req, 512, true, &BusReply::Data(vec![0xab, 0xcd, 0x99]));
    assert_eq!(resp.status, BusStatus::Success);
    assert_eq!(resp.payload, vec![0xab, 0xcd]);
}

#[test]
fn device_rejects_an_oversized_read() {
    let req = BusRequest { opcode: BusOpcode::Read, address: 0x48, size: 513, payload: Vec::new() };
    let resp = bus_execute(&req, 512, true, &BusReply::Data(vec![0u8; 4096]));
    assert_eq!(resp.status, BusStatus::InvalidReadBufferLength);
    assert!(resp.payload.is_empty());
}

#[test]
fn device_rejects_a_write_whose_size_disagrees() {
    let req = BusRequest { opcode: BusOpcode::Write, address: 0x48, size: 3, payload: vec![1, 2] };
    let resp = bus_execute(&req, 512, true, &BusReply::Done);
    assert_eq!(resp.status, BusStatus::InvalidWriteBufferLength);
}

#[test]
fn device_rejects_an_out_of_range_address() {
    let req = BusRequest { opcode: BusOpcode::Read, address: 0x80, size: 1, payload: Vec::new() };
    let resp = bus_execute(&req, 512, true, &BusReply::Data(vec![0x01]));
    assert_eq!(resp.status, BusStatus::AddressOutOfRange);
    // the SPI pipe carries no address; the same frame passes there
    let resp = bus_execute(&req, 512, false, &BusReply::Data(vec![0x01]));
    assert_eq!(resp.status, BusStatus::Success);
}

#[test]
fn failed_flush_reports_undrained_transmit_path() {
    let req = BusRequest { opcode: BusOpcode::Flush, address: 0, size: 0, payload: Vec::new() };
    let ok = bus_execute(&req, 512, false, &BusReply::Done);
    assert_eq!(ok.status, BusStatus::Success);
    let bad = bus_execute(&req, 512, false, &BusReply::Error(I2cError::Other));
    assert_eq!(bad.status, BusStatus::TxNotEmpty);
}

#[test]
fn bus_error_taxonomy_survives_the_wire() {
    let req = BusRequest { opcode: BusOpcode::Read, address: 0x21, size: 1, payload: Vec::new() };
    for (err, status) in [
        (I2cError::NoAcknowledge, BusStatus::NoAcknowledge),
        (I2cError::ArbitrationLoss, BusStatus::ArbitrationLoss),
        (I2cError::Other, BusStatus::Other),
    ] {
        let resp = bus_execute(&req, 512, true, &BusReply::Error(err));
        assert_eq!(resp.status, status);
        // the host maps the status back to the same cause
        assert_eq!(bus_response_result(resp), Err(err));
    }
    let ok = BusResponse { status: BusStatus::Success, payload: vec![0x55] };
    assert_eq!(bus_response_result(ok), Ok(vec![0x55]));
}

#[test]
fn spi_transfer_selects_its_mode() {
    // both directions: a transfer
    let req = spi_transfer_request(Some(4), Some(vec![1, 2, 3])).unwrap();
    assert_eq!(req.opcode, BusOpcode::Transfer);
    assert_eq!(req.size, 4);
    assert_eq!(req.payload, vec![1, 2, 3]);
    // write only: size carries the payload length
    let req = spi_transfer_request(None, Some(vec![7, 8])).unwrap();
    assert_eq!(req.opcode, BusOpcode::Write);
    assert_eq!(req.size, 2);
    // read only
    let req = spi_transfer_request(Some(16), None).unwrap();
    assert_eq!(req.opcode, BusOpcode::Read);
    assert_eq!(req.size, 16);
    assert!(req.payload.is_empty());
    // neither direction is no operation
    assert!(spi_transfer_request(None, None).is_none());
}

#[test]
fn device_answers_undecodable_bus_frames() {
    // an unknown opcode in a full header answers the invalid-opcode status
    let bad_opcode: Vec<u8> = vec![0x09, 0x48, 0x01, 0x00];
    let out = execute_bus_frame(&bad_opcode, 512, true, &BusReply::Done);
    assert_eq!(out, vec![0xfe]);

    // a frame too short for the header answers the catch-all status
    let short: Vec<u8> = vec![0x00, 0x48];
    let out = execute_bus_frame(&short, 512, true, &BusReply::Done);
    assert_eq!(out, vec![0xff]);

    // a well-formed frame on the same connection is still executed
    let req = BusRequest { opcode: BusOpcode::Read, address: 0x48, size: 1, payload: Vec::new() };
    let out = execute_bus_frame(&encode_bus_request(&req), 512, true, &BusReply::Data(vec![0x5a]));
    assert_eq!(decode_bus_response(&out).unwrap().payload, vec![0x5a]);
}
