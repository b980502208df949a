//! The GPIO wait state machine: a level wait is satisfied by the current
//! level, an edge wait only by an observed transition.

use pico_de_gallo::gpio_wait::{run_waiter, EdgeWaiter};
use pico_de_gallo::schema::{GpioState, WaitKind};

use GpioState::{High, Low};

#[test]
fn wait_for_high_returns_immediately_on_high_pin() {
    // pin currently high: the very first sample completes the wait
    assert_eq!(run_waiter(WaitKind::High, &vec![High, Low, Low]), Some(0));
}

#[test]
fn wait_for_low_returns_immediately_on_low_pin() {
    assert_eq!(run_waiter(WaitKind::Low, &vec![Low, High]), Some(0));
}

#[test]
fn wait_for_high_waits_on_low_pin() {
    assert_eq!(run_waiter(WaitKind::High, &vec![Low, Low, High]), Some(2));
    assert_eq!(run_waiter(WaitKind::High, &vec![Low, Low, Low]), None);
}

#[test]
fn rising_edge_needs_low_then_high() {
    // an already-high pin does not satisfy a rising-edge wait
    assert_eq!(run_waiter(WaitKind::RisingEdge, &vec![High, High, High]), None);
    // the wait ends at the first high sample that follows a low one
    assert_eq!(run_waiter(WaitKind::RisingEdge, &vec![High, High, Low, High]), Some(3));
    assert_eq!(run_waiter(WaitKind::RisingEdge, &vec![Low, High]), Some(1));
    // a single sample can never be an edge
    assert_eq!(run_waiter(WaitKind::RisingEdge, &vec![High]), None);
    assert_eq!(run_waiter(WaitKind::RisingEdge, &vec![Low]), None);
}

#[test]
fn falling_edge_needs_high_then_low() {
    assert_eq!(run_waiter(WaitKind::FallingEdge, &vec![Low, Low]), None);
    assert_eq!(run_waiter(WaitKind::FallingEdge, &vec![Low, High, Low]), Some(2));
    assert_eq!(run_waiter(WaitKind::FallingEdge, &vec![High, Low]), Some(1));
}

#[test]
fn any_edge_returns_on_either_transition() {
    assert_eq!(run_waiter(WaitKind::AnyEdge, &vec![Low, High]), Some(1));
    assert_eq!(run_waiter(WaitKind::AnyEdge, &vec![High, Low]), Some(1));
    assert_eq!(run_waiter(WaitKind::AnyEdge, &vec![High, High, High]), None);
    assert_eq!(run_waiter(WaitKind::AnyEdge, &vec![Low, Low, High, Low]), Some(2));
}

#[test]
fn stepwise_waiter_tracks_previous_sample() {
    let mut w = EdgeWaiter::new(WaitKind::RisingEdge);
    assert!(!w.step(High));
    assert!(!w.step(Low));
    assert!(!w.step(Low));
    assert!(w.step(High));
}
