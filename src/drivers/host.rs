//! The usbip-host driver, which exports local devices: the texts written to
//! its match list and rebind attributes.
use vstd::prelude::*;
use vstd::string::StringSliceAdditionalSpecFns;

use crate::text::push_all;

verus! {

/// Attribute of usbip-host that holds the bus IDs it may bind to.
pub const MATCH_BUSID_ATTRIBUTE: &'static str = "/sys/bus/usb/drivers/usbip-host/match_busid";

/// Attribute of usbip-host that hands a device back to its former driver.
pub const REBIND_ATTRIBUTE: &'static str = "/sys/bus/usb/drivers/usbip-host/rebind";

/// The usbip-host driver.
#[derive(Debug)]
pub struct UsbipHost {}

/// A change to usbip-host's match list.
#[derive(Debug, Clone, Copy, PartialEq, Eq, Structural)]
pub enum MatchListOperation {
    Add,
    Remove,
}

impl UsbipHost {
    /// The text to write to the match list attribute to add `bus_id` to it
    /// (`add <bus_id>`) or remove it (`del <bus_id>`). Binding the driver
    /// probes usbip-host only for devices on that list.
    pub fn update_bus_id_match_list(bus_id: &str, operation: MatchListOperation) -> (r: Vec<u8>)
        ensures
            r@ == (match operation {
                MatchListOperation::Add => seq![0x61u8, 0x64, 0x64, 0x20],
                MatchListOperation::Remove => seq![0x64u8, 0x65, 0x6c, 0x20],
            }) + bus_id.spec_bytes(),
    {
        let mut out: Vec<u8> = match operation {
            MatchListOperation::Add => vec![0x61, 0x64, 0x64, 0x20],
            MatchListOperation::Remove => vec![0x64, 0x65, 0x6c, 0x20],
        };
        push_all(&mut out, bus_id.as_bytes());
        out
    }

    /// The text to write to the rebind attribute to hand the device on
    /// `bus_id` back to its former driver.
    pub fn trigger_device_rebind(bus_id: &str) -> (r: Vec<u8>)
        ensures
            r@ == bus_id.spec_bytes(),
    {
        let mut out: Vec<u8> = Vec::new();
        push_all(&mut out, bus_id.as_bytes());
        assert(out@ =~= bus_id.spec_bytes());
        out
    }
}

} // verus!
