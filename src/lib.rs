//! USB/IP client library: the wire protocol used to import a device from a
//! remote host, the virtual host controller's port table and its control
//! commands, the persisted records that tie ports to remote hosts, and the
//! decisions of the attach, detach and list workflows.
use vstd::prelude::*;

pub mod client;
pub mod drivers;
pub mod hwdb;
pub mod proto;
pub mod text;
pub mod util;

use crate::proto::{field_text, RawUsbDeviceInfo};
use crate::text::bytes_equal;

verus! {

/// Speed of a USB device, as the kernel reports it.
#[derive(Debug, Clone, Copy, PartialEq, Eq, Structural)]
pub enum UsbSpeed {
    /// Still enumerating.
    Unknown,
    /// USB 1.1, 1.5 Mbit/s.
    Low,
    /// USB 1.1, 12 Mbit/s.
    Full,
    /// USB 2.0.
    High,
    /// Wireless USB 2.5.
    Wireless,
    /// USB 3.0.
    Super,
}

/// The speed that a raw speed code names.
pub open spec fn speed_of_raw(value: u32) -> Option<UsbSpeed> {
    if value == 0 {
        Some(UsbSpeed::Unknown)
    } else if value == 1 {
        Some(UsbSpeed::Low)
    } else if value == 2 {
        Some(UsbSpeed::Full)
    } else if value == 3 {
        Some(UsbSpeed::High)
    } else if value == 4 {
        Some(UsbSpeed::Wireless)
    } else if value == 5 {
        Some(UsbSpeed::Super)
    } else {
        None
    }
}

/// The speed that the kernel's `speed` device attribute names.
pub open spec fn speed_of_sysfs(s: Seq<u8>) -> Option<UsbSpeed> {
    if s == seq![0x75u8, 0x6e, 0x6b, 0x6e, 0x6f, 0x77, 0x6e] {
        Some(UsbSpeed::Unknown)
    } else if s == seq![0x31u8, 0x2e, 0x35] {
        Some(UsbSpeed::Low)
    } else if s == seq![0x31u8, 0x32] {
        Some(UsbSpeed::Full)
    } else if s == seq![0x34u8, 0x38, 0x30] {
        Some(UsbSpeed::High)
    } else if s == seq![0x35u8, 0x33, 0x2e, 0x33, 0x2d, 0x34, 0x38, 0x30] {
        Some(UsbSpeed::Wireless)
    } else if s == seq![0x35u8, 0x30, 0x30, 0x30] {
        Some(UsbSpeed::Super)
    } else {
        None
    }
}

impl UsbSpeed {
    pub open spec fn spec_raw(self) -> u32 {
        match self {
            UsbSpeed::Unknown => 0,
            UsbSpeed::Low => 1,
            UsbSpeed::Full => 2,
            UsbSpeed::High => 3,
            UsbSpeed::Wireless => 4,
            UsbSpeed::Super => 5,
        }
    }

    /// The raw code of this speed, as the wire and the kernel write it.
    pub fn raw(self) -> (r: u32)
        ensures
            r == self.spec_raw(),
    {
        match self {
            UsbSpeed::Unknown => 0,
            UsbSpeed::Low => 1,
            UsbSpeed::Full => 2,
            UsbSpeed::High => 3,
            UsbSpeed::Wireless => 4,
            UsbSpeed::Super => 5,
        }
    }

    pub fn from_raw(value: u32) -> (r: Option<Self>)
        ensures
            r == speed_of_raw(value),
    {
        if value == 0 {
            Some(UsbSpeed::Unknown)
        } else if value == 1 {
            Some(UsbSpeed::Low)
        } else if value == 2 {
            Some(UsbSpeed::Full)
        } else if value == 3 {
            Some(UsbSpeed::High)
        } else if value == 4 {
            Some(UsbSpeed::Wireless)
        } else if value == 5 {
            Some(UsbSpeed::Super)
        } else {
            None
        }
    }

    /// Reads the kernel's `speed` device attribute (`480`, `5000`, ...).
    pub fn from_sysfs(s: &[u8]) -> (r: Option<Self>)
        ensures
            r == speed_of_sysfs(s@),
    {
        let unknown: Vec<u8> = vec![0x75, 0x6e, 0x6b, 0x6e, 0x6f, 0x77, 0x6e];
        let low: Vec<u8> = vec![0x31, 0x2e, 0x35];
        let full: Vec<u8> = vec![0x31, 0x32];
        let high: Vec<u8> = vec![0x34, 0x38, 0x30];
        let wireless: Vec<u8> = vec![0x35, 0x33, 0x2e, 0x33, 0x2d, 0x34, 0x38, 0x30];
        let superspeed: Vec<u8> = vec![0x35, 0x30, 0x30, 0x30];
        assert(unknown@ == seq![0x75u8, 0x6e, 0x6b, 0x6e, 0x6f, 0x77, 0x6e]);
        assert(low@ == seq![0x31u8, 0x2e, 0x35]);
        assert(full@ == seq![0x31u8, 0x32]);
        assert(high@ == seq![0x34u8, 0x38, 0x30]);
        assert(wireless@ == seq![0x35u8, 0x33, 0x2e, 0x33, 0x2d, 0x34, 0x38, 0x30]);
        assert(superspeed@ == seq![0x35u8, 0x30, 0x30, 0x30]);
        if bytes_equal(s, unknown.as_slice()) {
            Some(UsbSpeed::Unknown)
        } else if bytes_equal(s, low.as_slice()) {
            Some(UsbSpeed::Low)
        } else if bytes_equal(s, full.as_slice()) {
            Some(UsbSpeed::Full)
        } else if bytes_equal(s, high.as_slice()) {
            Some(UsbSpeed::High)
        } else if bytes_equal(s, wireless.as_slice()) {
            Some(UsbSpeed::Wireless)
        } else if bytes_equal(s, superspeed.as_slice()) {
            Some(UsbSpeed::Super)
        } else {
            None
        }
    }
}

/// A device descriptor whose text fields were read and whose speed is known.
#[derive(Debug, PartialEq, Eq)]
pub struct UsbDeviceInfo {
    pub sys_path: String,
    pub bus_id: String,
    pub bus_num: u32,
    pub dev_num: u32,
    pub speed: UsbSpeed,
    pub id_vendor: u16,
    pub id_product: u16,
    pub bcd_device: u16,
    pub b_device_class: u8,
    pub b_device_sub_class: u8,
    pub b_device_protocol: u8,
    pub b_configuration_value: u8,
    pub b_num_configurations: u8,
    pub b_num_interfaces: u8,
}

/// A raw device descriptor with a malformed text field or an unknown speed.
#[derive(Debug, Clone, Copy, PartialEq, Eq, Structural)]
pub struct UsbDeviceInfoValidationError;

/// Whether a raw descriptor passes validation.
pub open spec fn raw_device_valid(raw: RawUsbDeviceInfo) -> bool {
    &&& field_text(raw.path@) is Some
    &&& field_text(raw.bus_id@) is Some
    &&& speed_of_raw(raw.speed) is Some
}

impl Clone for UsbDeviceInfo {
    fn clone(&self) -> (r: Self)
        ensures
            r == *self,
    {
        UsbDeviceInfo {
            sys_path: self.sys_path.clone(),
            bus_id: self.bus_id.clone(),
            bus_num: self.bus_num,
            dev_num: self.dev_num,
            speed: self.speed,
            id_vendor: self.id_vendor,
            id_product: self.id_product,
            bcd_device: self.bcd_device,
            b_device_class: self.b_device_class,
            b_device_sub_class: self.b_device_sub_class,
            b_device_protocol: self.b_device_protocol,
            b_configuration_value: self.b_configuration_value,
            b_num_configurations: self.b_num_configurations,
            b_num_interfaces: self.b_num_interfaces,
        }
    }
}

impl UsbDeviceInfo {
    /// Whether this descriptor is the validated form of `raw`.
    pub open spec fn validates(self, raw: RawUsbDeviceInfo) -> bool {
        &&& field_text(raw.path@) == Some(self.sys_path@)
        &&& field_text(raw.bus_id@) == Some(self.bus_id@)
        &&& speed_of_raw(raw.speed) == Some(self.speed)
        &&& self.bus_num == raw.bus_num
        &&& self.dev_num == raw.dev_num
        &&& self.id_vendor == raw.id_vendor
        &&& self.id_product == raw.id_product
        &&& self.bcd_device == raw.bcd_device
        &&& self.b_device_class == raw.b_device_class
        &&& self.b_device_sub_class == raw.b_device_sub_class
        &&& self.b_device_protocol == raw.b_device_protocol
        &&& self.b_configuration_value == raw.b_configuration_value
        &&& self.b_num_configurations == raw.b_num_configurations
        &&& self.b_num_interfaces == raw.b_num_interfaces
    }

    /// Validates a descriptor received on the wire: both text fields must be
    /// terminated UTF-8 and the speed code must name a speed.
    pub fn try_from_raw(value: RawUsbDeviceInfo) -> (r: Result<Self, UsbDeviceInfoValidationError>)
        ensures
            r is Ok <==> raw_device_valid(value),
            r matches Ok(d) ==> d.validates(value),
    {
        let sys_path = match value.path.text() {
            Some(s) => s,
            None => return Err(UsbDeviceInfoValidationError),
        };
        let bus_id = match value.bus_id.text() {
            Some(s) => s,
            None => return Err(UsbDeviceInfoValidationError),
        };
        let speed = match UsbSpeed::from_raw(value.speed) {
            Some(s) => s,
            None => return Err(UsbDeviceInfoValidationError),
        };
        Ok(
            UsbDeviceInfo {
                sys_path,
                bus_id,
                bus_num: value.bus_num,
                dev_num: value.dev_num,
                speed,
                id_vendor: value.id_vendor,
                id_product: value.id_product,
                bcd_device: value.bcd_device,
                b_device_class: value.b_device_class,
                b_device_sub_class: value.b_device_sub_class,
                b_device_protocol: value.b_device_protocol,
                b_configuration_value: value.b_configuration_value,
                b_num_configurations: value.b_num_configurations,
                b_num_interfaces: value.b_num_interfaces,
            },
        )
    }
}

} // verus!
