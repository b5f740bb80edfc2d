//! Reading a USB device descriptor out of the attributes that the kernel
//! exposes for a device node.
use vstd::prelude::*;
use vstd::utf8::*;

use crate::text::{is_utf8, number_of, parse_number, split_tokens, tokens};
use crate::{speed_of_sysfs, UsbDeviceInfo, UsbSpeed};

verus! {

/// Failure to read a device attribute.
#[derive(Debug, Clone, PartialEq, Eq)]
pub enum UsbInfoExtractError {
    AttributeMissing(String),
    AttributeNotUtf8(String),
    AttributeParsingFailed(String),
}

/// The attributes of a device node, as read. A path or name that is not
/// UTF-8 is `None`; so is an attribute that the node does not have.
#[derive(Debug)]
pub struct UsbDeviceAttributes {
    pub sys_path: Option<String>,
    pub sys_name: Option<String>,
    pub busnum: Option<Vec<u8>>,
    pub devnum: Option<Vec<u8>>,
    pub speed: Option<Vec<u8>>,
    pub id_vendor: Option<Vec<u8>>,
    pub id_product: Option<Vec<u8>>,
    pub bcd_device: Option<Vec<u8>>,
    pub b_device_class: Option<Vec<u8>>,
    pub b_device_sub_class: Option<Vec<u8>>,
    pub b_device_protocol: Option<Vec<u8>>,
    pub b_configuration_value: Option<Vec<u8>>,
    pub b_num_configurations: Option<Vec<u8>>,
    pub b_num_interfaces: Option<Vec<u8>>,
}

/// Why an attribute could not be read.
#[derive(Debug, Clone, Copy, PartialEq, Eq, Structural)]
pub enum AttrFailure {
    Missing,
    NotUtf8,
    Parsing,
}

pub open spec fn opt_view(a: Option<Vec<u8>>) -> Option<Seq<u8>> {
    match a {
        Some(v) => Some(v@),
        None => None,
    }
}

/// The text of an attribute, surrounding blanks aside: present, UTF-8 and a
/// single token.
pub open spec fn attr_token(a: Option<Seq<u8>>) -> Result<Option<Seq<u8>>, AttrFailure> {
    match a {
        None => Err(AttrFailure::Missing),
        Some(b) => if !valid_utf8(b) {
            Err(AttrFailure::NotUtf8)
        } else if tokens(b).len() == 1 {
            Ok(Some(tokens(b)[0]))
        } else {
            Ok(None)
        },
    }
}

/// An attribute holding a number of at most `max` in hexadecimal.
pub open spec fn attr_hex(a: Option<Seq<u8>>, max: nat) -> Result<nat, AttrFailure> {
    match attr_token(a) {
        Err(f) => Err(f),
        Ok(Some(t)) => match number_of(t, true, max) {
            Some(v) => Ok(v),
            None => Err(AttrFailure::Parsing),
        },
        Ok(None) => Err(AttrFailure::Parsing),
    }
}

/// An attribute that may hold no number: such a value reads as zero.
pub open spec fn attr_hex_or_zero(a: Option<Seq<u8>>, max: nat) -> Result<nat, AttrFailure> {
    match attr_hex(a, max) {
        Err(AttrFailure::Parsing) => Ok(0),
        r => r,
    }
}

/// The `speed` attribute.
pub open spec fn attr_speed(a: Option<Seq<u8>>) -> Result<UsbSpeed, AttrFailure> {
    match attr_token(a) {
        Err(f) => Err(f),
        Ok(Some(t)) => match speed_of_sysfs(t) {
            Some(s) => Ok(s),
            None => Err(AttrFailure::Parsing),
        },
        Ok(None) => Err(AttrFailure::Parsing),
    }
}

/// Whether `e` reports failure `f` of the attribute `name`.
pub open spec fn reports(e: UsbInfoExtractError, f: AttrFailure, name: Seq<char>) -> bool {
    match f {
        AttrFailure::Missing => e matches UsbInfoExtractError::AttributeMissing(s) && s@ == name,
        AttrFailure::NotUtf8 => e matches UsbInfoExtractError::AttributeNotUtf8(s) && s@ == name,
        AttrFailure::Parsing => e matches UsbInfoExtractError::AttributeParsingFailed(s) && s@ == name,
    }
}

/// The error of the first attribute, in reading order, that cannot be
/// read; `e` is that error. `None` where all can be read.
pub open spec fn first_failure(a: UsbDeviceAttributes) -> Option<(AttrFailure, Seq<char>)> {
    if a.sys_path is None {
        Some((AttrFailure::NotUtf8, "syspath"@))
    } else if a.sys_name is None {
        Some((AttrFailure::NotUtf8, "sysname"@))
    } else if attr_hex(opt_view(a.busnum), u32::MAX as nat) is Err {
        Some((attr_hex(opt_view(a.busnum), u32::MAX as nat)->Err_0, "busnum"@))
    } else if attr_hex(opt_view(a.devnum), u32::MAX as nat) is Err {
        Some((attr_hex(opt_view(a.devnum), u32::MAX as nat)->Err_0, "devnum"@))
    } else if attr_speed(opt_view(a.speed)) is Err {
        Some((attr_speed(opt_view(a.speed))->Err_0, "speed"@))
    } else if attr_hex(opt_view(a.id_vendor), u16::MAX as nat) is Err {
        Some((attr_hex(opt_view(a.id_vendor), u16::MAX as nat)->Err_0, "idVendor"@))
    } else if attr_hex(opt_view(a.id_product), u16::MAX as nat) is Err {
        Some((attr_hex(opt_view(a.id_product), u16::MAX as nat)->Err_0, "idProduct"@))
    } else if attr_hex(opt_view(a.bcd_device), u16::MAX as nat) is Err {
        Some((attr_hex(opt_view(a.bcd_device), u16::MAX as nat)->Err_0, "bcdDevice"@))
    } else if attr_hex(opt_view(a.b_device_class), u8::MAX as nat) is Err {
        Some((attr_hex(opt_view(a.b_device_class), u8::MAX as nat)->Err_0, "bDeviceClass"@))
    } else if attr_hex(opt_view(a.b_device_sub_class), u8::MAX as nat) is Err {
        Some((attr_hex(opt_view(a.b_device_sub_class), u8::MAX as nat)->Err_0, "bDeviceSubClass"@))
    } else if attr_hex(opt_view(a.b_device_protocol), u8::MAX as nat) is Err {
        Some((attr_hex(opt_view(a.b_device_protocol), u8::MAX as nat)->Err_0, "bDeviceProtocol"@))
    } else if attr_hex_or_zero(opt_view(a.b_configuration_value), u8::MAX as nat) is Err {
        Some(
            (
                attr_hex_or_zero(opt_view(a.b_configuration_value), u8::MAX as nat)->Err_0,
                "bConfigurationValue"@,
            ),
        )
    } else if attr_hex(opt_view(a.b_num_configurations), u8::MAX as nat) is Err {
        Some(
            (attr_hex(opt_view(a.b_num_configurations), u8::MAX as nat)->Err_0, "bNumConfigurations"@),
        )
    } else if attr_hex_or_zero(opt_view(a.b_num_interfaces), u8::MAX as nat) is Err {
        Some(
            (attr_hex_or_zero(opt_view(a.b_num_interfaces), u8::MAX as nat)->Err_0, "bNumInterfaces"@),
        )
    } else {
        None
    }
}

/// Whether `d` holds what the attributes `a` say.
pub open spec fn extracted(a: UsbDeviceAttributes, d: UsbDeviceInfo) -> bool {
    &&& a.sys_path == Some(d.sys_path)
    &&& a.sys_name == Some(d.bus_id)
    &&& attr_hex(opt_view(a.busnum), u32::MAX as nat) == Ok::<nat, AttrFailure>(d.bus_num as nat)
    &&& attr_hex(opt_view(a.devnum), u32::MAX as nat) == Ok::<nat, AttrFailure>(d.dev_num as nat)
    &&& attr_speed(opt_view(a.speed)) == Ok::<UsbSpeed, AttrFailure>(d.speed)
    &&& attr_hex(opt_view(a.id_vendor), u16::MAX as nat) == Ok::<nat, AttrFailure>(d.id_vendor as nat)
    &&& attr_hex(opt_view(a.id_product), u16::MAX as nat) == Ok::<nat, AttrFailure>(d.id_product as nat)
    &&& attr_hex(opt_view(a.bcd_device), u16::MAX as nat) == Ok::<nat, AttrFailure>(d.bcd_device as nat)
    &&& attr_hex(opt_view(a.b_device_class), u8::MAX as nat) == Ok::<nat, AttrFailure>(
        d.b_device_class as nat,
    )
    &&& attr_hex(opt_view(a.b_device_sub_class), u8::MAX as nat) == Ok::<nat, AttrFailure>(
        d.b_device_sub_class as nat,
    )
    &&& attr_hex(opt_view(a.b_device_protocol), u8::MAX as nat) == Ok::<nat, AttrFailure>(
        d.b_device_protocol as nat,
    )
    &&& attr_hex_or_zero(opt_view(a.b_configuration_value), u8::MAX as nat) == Ok::<
        nat,
        AttrFailure,
    >(d.b_configuration_value as nat)
    &&& attr_hex(opt_view(a.b_num_configurations), u8::MAX as nat) == Ok::<nat, AttrFailure>(
        d.b_num_configurations as nat,
    )
    &&& attr_hex_or_zero(opt_view(a.b_num_interfaces), u8::MAX as nat) == Ok::<nat, AttrFailure>(
        d.b_num_interfaces as nat,
    )
}

fn attr_text(a: &Option<Vec<u8>>) -> (r: Result<Option<Vec<u8>>, AttrFailure>)
    ensures
        match (r, attr_token(opt_view(*a))) {
            (Ok(Some(t)), Ok(Some(u))) => t@ == u,
            (Ok(None), Ok(None)) => true,
            (Err(f), Err(g)) => f == g,
            _ => false,
        },
{
    match a {
        None => Err(AttrFailure::Missing),
        Some(b) => {
            if !is_utf8(b.as_slice()) {
                return Err(AttrFailure::NotUtf8);
            }
            let t = split_tokens(b.as_slice());
            if t.len() == 1 {
                assert(t@[0]@ == tokens(b@)[0]);
                let mut v: Vec<Vec<u8>> = t;
                let first = v.remove(0);
                Ok(Some(first))
            } else {
                Ok(None)
            }
        },
    }
}

fn read_hex(a: &Option<Vec<u8>>, max: u64, name: &str) -> (r: Result<u64, UsbInfoExtractError>)
    ensures
        match attr_hex(opt_view(*a), max as nat) {
            Ok(v) => r == Ok::<u64, UsbInfoExtractError>(v as u64),
            Err(f) => r matches Err(e) && reports(e, f, name@),
        },
{
    let failure = match attr_text(a) {
        Ok(Some(t)) => match parse_number(t.as_slice(), true, max) {
            Some(v) => return Ok(v),
            None => AttrFailure::Parsing,
        },
        Ok(None) => AttrFailure::Parsing,
        Err(f) => f,
    };
    Err(failure_error(failure, name))
}

fn failure_error(f: AttrFailure, name: &str) -> (e: UsbInfoExtractError)
    ensures
        reports(e, f, name@),
{
    match f {
        AttrFailure::Missing => UsbInfoExtractError::AttributeMissing(name.to_owned()),
        AttrFailure::NotUtf8 => UsbInfoExtractError::AttributeNotUtf8(name.to_owned()),
        AttrFailure::Parsing => UsbInfoExtractError::AttributeParsingFailed(name.to_owned()),
    }
}

fn read_hex_or_zero(a: &Option<Vec<u8>>, max: u64, name: &str) -> (r: Result<u64, UsbInfoExtractError>)
    ensures
        match attr_hex_or_zero(opt_view(*a), max as nat) {
            Ok(v) => r == Ok::<u64, UsbInfoExtractError>(v as u64),
            Err(f) => r matches Err(e) && reports(e, f, name@),
        },
{
    let failure = match attr_text(a) {
        Ok(Some(t)) => match parse_number(t.as_slice(), true, max) {
            Some(v) => return Ok(v),
            None => return Ok(0),
        },
        Ok(None) => return Ok(0),
        Err(f) => f,
    };
    Err(failure_error(failure, name))
}

fn read_speed(a: &Option<Vec<u8>>) -> (r: Result<UsbSpeed, UsbInfoExtractError>)
    ensures
        match attr_speed(opt_view(*a)) {
            Ok(v) => r == Ok::<UsbSpeed, UsbInfoExtractError>(v),
            Err(f) => r matches Err(e) && reports(e, f, "speed"@),
        },
{
    let failure = match attr_text(a) {
        Ok(Some(t)) => match UsbSpeed::from_sysfs(t.as_slice()) {
            Some(v) => return Ok(v),
            None => AttrFailure::Parsing,
        },
        Ok(None) => AttrFailure::Parsing,
        Err(f) => f,
    };
    Err(failure_error(failure, "speed"))
}

/// Reads a device descriptor out of a device node's attributes. Numbers are
/// hexadecimal; the configuration value and the interface count read as
/// zero where they hold no number, as they do while a device is being
/// configured.
pub fn extract_usb_info(a: &UsbDeviceAttributes) -> (r: Result<UsbDeviceInfo, UsbInfoExtractError>)
    ensures
        r is Ok <==> first_failure(*a) is None,
        r matches Ok(d) ==> extracted(*a, d),
        r matches Err(e) ==> first_failure(*a) matches Some((f, name)) && reports(e, f, name),
{
    let sys_path = match &a.sys_path {
        Some(p) => p.clone(),
        None => return Err(UsbInfoExtractError::AttributeNotUtf8("syspath".to_owned())),
    };
    let bus_id = match &a.sys_name {
        Some(n) => n.clone(),
        None => return Err(UsbInfoExtractError::AttributeNotUtf8("sysname".to_owned())),
    };
    let bus_num = read_hex(&a.busnum, 0xffff_ffff, "busnum")?;
    let dev_num = read_hex(&a.devnum, 0xffff_ffff, "devnum")?;
    let speed = read_speed(&a.speed)?;
    let id_vendor = read_hex(&a.id_vendor, 0xffff, "idVendor")?;
    let id_product = read_hex(&a.id_product, 0xffff, "idProduct")?;
    let bcd_device = read_hex(&a.bcd_device, 0xffff, "bcdDevice")?;
    let b_device_class = read_hex(&a.b_device_class, 0xff, "bDeviceClass")?;
    let b_device_sub_class = read_hex(&a.b_device_sub_class, 0xff, "bDeviceSubClass")?;
    let b_device_protocol = read_hex(&a.b_device_protocol, 0xff, "bDeviceProtocol")?;
    let b_configuration_value = read_hex_or_zero(&a.b_configuration_value, 0xff, "bConfigurationValue")?;
    let b_num_configurations = read_hex(&a.b_num_configurations, 0xff, "bNumConfigurations")?;
    let b_num_interfaces = read_hex_or_zero(&a.b_num_interfaces, 0xff, "bNumInterfaces")?;
    Ok(
        UsbDeviceInfo {
            sys_path,
            bus_id,
            bus_num: bus_num as u32,
            dev_num: dev_num as u32,
            speed,
            id_vendor: id_vendor as u16,
            id_product: id_product as u16,
            bcd_device: bcd_device as u16,
            b_device_class: b_device_class as u8,
            b_device_sub_class: b_device_sub_class as u8,
            b_device_protocol: b_device_protocol as u8,
            b_configuration_value: b_configuration_value as u8,
            b_num_configurations: b_num_configurations as u8,
            b_num_interfaces: b_num_interfaces as u8,
        },
    )
}

} // verus!
