//! Verified core of a USB bridge between a host computer and an
//! I2C/SPI/GPIO peripheral set: the wire protocol shared by the device
//! firmware and the host client, the device-side request dispatcher, and
//! the GPIO edge-wait state machine.

use vstd::prelude::*;

pub mod cli;
pub mod client;
pub mod codec;
pub mod dispatch;
pub mod frame;
pub mod framing;
pub mod gpio_wait;
pub mod proto;
pub mod scan;
pub mod schema;
pub mod text;
pub mod wire;

verus! {

/// Vendor identifier of the bridge device.
pub const MICROSOFT_VID: u16 = 0x045e;

/// Product identifier of the bridge device.
pub const PICO_DE_GALLO_PID: u16 = 0x067d;

/// True exactly when a USB device descriptor names the bridge device.
pub fn is_bridge_device(vendor_id: u16, product_id: u16) -> (r: bool)
    ensures
        r == (vendor_id == MICROSOFT_VID && product_id == PICO_DE_GALLO_PID),
{
    vendor_id == MICROSOFT_VID && product_id == PICO_DE_GALLO_PID
}

} // verus!
