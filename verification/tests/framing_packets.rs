//! USB packet framing: a message splits into full packets closed by one
//! short packet, and reassembly inverts the split.

use pico_de_gallo::framing::{is_final_packet, packetize, reassemble, MAX_PACKET_SIZE};

#[test]
fn empty_message_is_one_empty_packet() {
    let ps = packetize(&Vec::new());
    assert_eq!(ps, vec![Vec::<u8>::new()]);
    assert!(is_final_packet(&ps[0]));
}

#[test]
fn short_message_is_one_packet() {
    let msg: Vec<u8> = (0u8..10).collect();
    let ps = packetize(&msg);
    assert_eq!(ps, vec![msg.clone()]);
    assert_eq!(reassemble(&ps), msg);
}

#[test]
fn exact_multiple_gets_a_closing_empty_packet() {
    let msg: Vec<u8> = (0..MAX_PACKET_SIZE).map(|i| i as u8).collect();
    let ps = packetize(&msg);
    assert_eq!(ps.len(), 2);
    assert_eq!(ps[0], msg);
    assert_eq!(ps[1], Vec::<u8>::new());
    assert!(!is_final_packet(&ps[0]));
    assert!(is_final_packet(&ps[1]));
    assert_eq!(reassemble(&ps), msg);
}

#[test]
fn long_message_round_trips() {
    let msg: Vec<u8> = (0..1000).map(|i| (i % 251) as u8).collect();
    let ps = packetize(&msg);
    // all but the last packet are full, the last is short
    for p in &ps[..ps.len() - 1] {
        assert_eq!(p.len(), MAX_PACKET_SIZE);
    }
    assert!(ps.last().unwrap().len() < MAX_PACKET_SIZE);
    assert_eq!(reassemble(&ps), msg);
}
