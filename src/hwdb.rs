//! Human-readable names of vendors, products and device classes, from the
//! USB ID database compiled into the `usb-ids` crate.
use vstd::prelude::*;

use usb_ids::FromId;

verus! {

/// The database's name of the vendor `vendor_id`.
pub uninterp spec fn vendor_name_of(vendor_id: u16) -> Option<Seq<char>>;

/// The database's name of the product `product_id` of vendor `vendor_id`.
pub uninterp spec fn product_name_of(vendor_id: u16, product_id: u16) -> Option<Seq<char>>;

/// The database's name of the class `class`.
pub uninterp spec fn class_name_of(class: u8) -> Option<Seq<char>>;

/// The database's name of the subclass `sub_class` of `class`.
pub uninterp spec fn sub_class_name_of(class: u8, sub_class: u8) -> Option<Seq<char>>;

/// The database's name of the protocol `protocol` of `class`/`sub_class`.
pub uninterp spec fn protocol_name_of(class: u8, sub_class: u8, protocol: u8) -> Option<Seq<char>>;

pub open spec fn opt_chars(s: Option<String>) -> Option<Seq<char>> {
    match s {
        Some(s) => Some(s@),
        None => None,
    }
}

/// Relies on `usb_ids::Vendor::from_id`: a lookup in the compiled-in
/// database, by the vendor ID alone.
#[verifier::external_body]
fn vendor_name(vendor_id: u16) -> (r: Option<String>)
    ensures
        opt_chars(r) == vendor_name_of(vendor_id),
{
    usb_ids::Vendor::from_id(vendor_id).map(|v| v.name().to_string())
}

/// Relies on `usb_ids::Device::from_vid_pid`: a lookup in the compiled-in
/// database, among the products of the vendor.
#[verifier::external_body]
fn product_name(vendor_id: u16, product_id: u16) -> (r: Option<String>)
    ensures
        opt_chars(r) == product_name_of(vendor_id, product_id),
{
    usb_ids::Device::from_vid_pid(vendor_id, product_id).map(|d| d.name().to_string())
}

/// Relies on `usb_ids::Class::from_id`: a lookup in the compiled-in
/// database, by the class code alone.
#[verifier::external_body]
fn class_name(class: u8) -> (r: Option<String>)
    ensures
        opt_chars(r) == class_name_of(class),
{
    usb_ids::Class::from_id(class).map(|c| c.name().to_string())
}

/// Relies on `usb_ids::SubClass::from_cid_scid`: a lookup in the
/// compiled-in database, among the subclasses of the class.
#[verifier::external_body]
fn sub_class_name(class: u8, sub_class: u8) -> (r: Option<String>)
    ensures
        opt_chars(r) == sub_class_name_of(class, sub_class),
{
    usb_ids::SubClass::from_cid_scid(class, sub_class).map(|s| s.name().to_string())
}

/// Relies on `usb_ids::Protocol::from_cid_scid_pid`: a lookup in the
/// compiled-in database, among the protocols of the subclass.
#[verifier::external_body]
fn protocol_name(class: u8, sub_class: u8, protocol: u8) -> (r: Option<String>)
    ensures
        opt_chars(r) == protocol_name_of(class, sub_class, protocol),
{
    usb_ids::Protocol::from_cid_scid_pid(class, sub_class, protocol).map(|p| p.name().to_string())
}

/// The vendor and product names of a device.
pub fn get_device_display_strings(vendor_id: u16, product_id: u16) -> (r: (Option<String>, Option<String>))
    ensures
        opt_chars(r.0) == vendor_name_of(vendor_id),
        opt_chars(r.1) == product_name_of(vendor_id, product_id),
{
    (vendor_name(vendor_id), product_name(vendor_id, product_id))
}

/// The class, subclass and protocol names of a class code triplet.
pub fn get_class_display_strings(class: u8, sub_class: u8, protocol: u8) -> (r: (
    Option<String>,
    Option<String>,
    Option<String>,
))
    ensures
        opt_chars(r.0) == class_name_of(class),
        opt_chars(r.1) == sub_class_name_of(class, sub_class),
        opt_chars(r.2) == protocol_name_of(class, sub_class, protocol),
{
    (class_name(class), sub_class_name(class, sub_class), protocol_name(class, sub_class, protocol))
}

} // verus!
