//! Listing the devices that a server exports: a request, then a count of
//! device descriptors, each followed by its interface records. The session
//! is fed each frame received and answers with the next one to read.
use vstd::prelude::*;

use crate::client::attach::DEFAULT_PORT;
use crate::proto::{
    header_at, read_be32, reply_check, ImportReply, OperationError, OperationHeader, OperationKind,
    UsbInterfaceInfo, LIST_DEVICES_REPLY_LEN, OPERATION_HEADER_LEN, USBIP_VERSION,
    USB_DEVICE_INFO_LEN, USB_INTERFACE_INFO_LEN, ListDevicesReply, RawUsbDeviceInfo,
};
use crate::{raw_device_valid, UsbDeviceInfo, UsbDeviceInfoValidationError};

verus! {

/// Failures of listing a server's devices.
#[derive(Debug, Clone, PartialEq, Eq)]
pub enum Error {
    /// The connection failed.
    NetworkIo(String),
    /// A frame did not have its declared length.
    Truncated,
    /// The server refused the request, or its reply header is wrong.
    Operation(OperationError),
    /// A device descriptor is malformed.
    ProtocolUsbDevice(UsbDeviceInfoValidationError),
    /// The session was handed an event that it does not expect now.
    UnexpectedEvent,
}

/// An interface of an exported device.
#[derive(Debug, Clone, Copy, PartialEq, Eq, Structural)]
pub struct ExportedDeviceInterface {
    pub b_interface_class: u8,
    pub b_interface_sub_class: u8,
    pub b_interface_protocol: u8,
}

/// A device that a server exports.
#[derive(Debug)]
pub struct ExportedDevice {
    pub host: String,
    pub port: u16,
    pub remote_device_info: UsbDeviceInfo,
    pub interfaces: Vec<ExportedDeviceInterface>,
}

/// The interface record in the four bytes `b`.
pub open spec fn interface_of(b: Seq<u8>) -> ExportedDeviceInterface {
    ExportedDeviceInterface { b_interface_class: b[0], b_interface_sub_class: b[1], b_interface_protocol: b[2] }
}

/// The bytes of a device list request: its header alone.
pub open spec fn list_request_bytes() -> Seq<u8> {
    OperationHeader { version: USBIP_VERSION, code: 0x8005, status: 0 }.wire_bytes()
}

/// What the reply header to a device list request amounts to.
pub open spec fn list_header_outcome(b: Seq<u8>) -> Result<(), Error> {
    if b.len() != OPERATION_HEADER_LEN {
        Err(Error::Truncated)
    } else {
        match reply_check(header_at(b), OperationKind::ListDevices) {
            Ok(()) => Ok(()),
            Err(e) => Err(Error::Operation(e)),
        }
    }
}

/// Whether `d` is the validated descriptor in the bytes `b`.
pub open spec fn device_in(d: UsbDeviceInfo, b: Seq<u8>) -> bool {
    exists|raw: RawUsbDeviceInfo| raw.has_fields_of(b) && d.validates(raw)
}

/// Whether the bytes `b` hold a descriptor that passes validation.
pub open spec fn device_bytes_valid(b: Seq<u8>) -> bool {
    exists|raw: RawUsbDeviceInfo| raw.has_fields_of(b) && raw_device_valid(raw)
}

/// Where a listing session stands.
#[derive(Debug)]
pub enum ListState {
    Start,
    AwaitHeader,
    AwaitCount,
    /// A descriptor is awaited; `remaining` devices are still to come,
    /// this one included.
    AwaitDevice { remaining: u32 },
    /// `left` interface records of `device` are awaited.
    AwaitInterface { remaining: u32, left: u8, device: ExportedDevice },
    Finished,
}

/// The outcome of the last step, handed to the session.
#[derive(Debug)]
pub enum ListEvent {
    Begin,
    /// The bytes received, exactly as many as were asked for.
    Received(Vec<u8>),
}

/// The next step that the session asks for.
#[derive(Debug)]
pub enum ListAction {
    /// Send `send` on the connection, then receive exactly `receive` bytes.
    Exchange { send: Vec<u8>, receive: usize },
    /// The session is over, with the devices listed.
    Finish(Result<Vec<ExportedDevice>, Error>),
}

/// A listing session for the server on `host`, with the devices complete
/// so far.
#[derive(Debug)]
pub struct ListSession {
    pub host: String,
    pub state: ListState,
    pub devices: Vec<ExportedDevice>,
}

impl ListSession {
    pub fn new(host: &str) -> (r: Self)
        ensures
            r.host@ == host@,
            r.state is Start,
            r.devices@.len() == 0,
    {
        ListSession { host: host.to_owned(), state: ListState::Start, devices: Vec::new() }
    }
}

/// Whether `a` asks to read `n` more bytes, sending nothing.
pub open spec fn reads(a: ListAction, n: usize) -> bool {
    a matches ListAction::Exchange { send, receive } && send@.len() == 0 && receive == n
}

/// Whether `d` is `base` with the interface list `ifaces`.
pub open spec fn with_interfaces(d: ExportedDevice, base: ExportedDevice, ifaces: Seq<ExportedDeviceInterface>) -> bool {
    &&& d.host == base.host
    &&& d.port == base.port
    &&& d.remote_device_info == base.remote_device_info
    &&& d.interfaces@ == ifaces
}

/// What happens once the device `d` is complete: it joins the list, and
/// the session either reads the next descriptor or finishes with the list.
pub open spec fn completes(s: ListSession, t: ListSession, a: ListAction, remaining: u32, d: ExportedDevice) -> bool {
    &&& if remaining <= 1 {
        &&& t.state is Finished
        &&& a matches ListAction::Finish(Ok(v))
        &&& v@ == s.devices@.push(d)
    } else {
        &&& t.state == ListState::AwaitDevice { remaining: (remaining - 1) as u32 }
        &&& t.devices@ == s.devices@.push(d)
        &&& reads(a, USB_DEVICE_INFO_LEN)
    }
}

/// The step that a session `s` takes on `e`, to `t`, asking for `a`.
pub open spec fn list_transition(s: ListSession, e: ListEvent, t: ListSession, a: ListAction) -> bool {
    let fail = |err: Error| t.state is Finished && a == ListAction::Finish(Err(err));
    &&& t.host == s.host
    &&& match (s.state, e) {
        (ListState::Start, ListEvent::Begin) => {
            &&& t.state is AwaitHeader
            &&& t.devices == s.devices
            &&& a matches ListAction::Exchange { send, receive }
            &&& send@ == list_request_bytes()
            &&& receive == OPERATION_HEADER_LEN
        },
        (ListState::AwaitHeader, ListEvent::Received(b)) => match list_header_outcome(b@) {
            Ok(()) => {
                &&& t.state is AwaitCount
                &&& t.devices == s.devices
                &&& reads(a, LIST_DEVICES_REPLY_LEN)
            },
            Err(err) => fail(err),
        },
        (ListState::AwaitCount, ListEvent::Received(b)) => if b@.len() != LIST_DEVICES_REPLY_LEN {
            fail(Error::Truncated)
        } else if read_be32(b@, 0) == 0 {
            &&& t.state is Finished
            &&& a matches ListAction::Finish(Ok(v))
            &&& v@ == s.devices@
        } else {
            &&& t.state == ListState::AwaitDevice { remaining: read_be32(b@, 0) }
            &&& t.devices == s.devices
            &&& reads(a, USB_DEVICE_INFO_LEN)
        },
        (ListState::AwaitDevice { remaining }, ListEvent::Received(b)) => if b@.len() != USB_DEVICE_INFO_LEN {
            fail(Error::Truncated)
        } else if !device_bytes_valid(b@) {
            fail(Error::ProtocolUsbDevice(UsbDeviceInfoValidationError))
        } else {
            exists|d: ExportedDevice| {
                &&& d.host == s.host
                &&& d.port == DEFAULT_PORT
                &&& device_in(d.remote_device_info, b@)
                &&& d.interfaces@.len() == 0
                &&& if d.remote_device_info.b_num_interfaces == 0 {
                    completes(s, t, a, remaining, d)
                } else {
                    &&& t.state == ListState::AwaitInterface {
                        remaining,
                        left: d.remote_device_info.b_num_interfaces,
                        device: d,
                    }
                    &&& t.devices == s.devices
                    &&& reads(a, USB_INTERFACE_INFO_LEN)
                }
            }
        },
        (ListState::AwaitInterface { remaining, left, device }, ListEvent::Received(b)) => if b@.len()
            != USB_INTERFACE_INFO_LEN {
            fail(Error::Truncated)
        } else {
            exists|d: ExportedDevice| {
                &&& with_interfaces(d, device, device.interfaces@.push(interface_of(b@)))
                &&& if left <= 1 {
                    completes(s, t, a, remaining, d)
                } else {
                    &&& t.state == ListState::AwaitInterface { remaining, left: (left - 1) as u8, device: d }
                    &&& t.devices == s.devices
                    &&& reads(a, USB_INTERFACE_INFO_LEN)
                }
            }
        },
        _ => fail(Error::UnexpectedEvent),
    }
}

fn complete_device(session: &mut ListSession, remaining: u32, d: ExportedDevice) -> (a: ListAction)
    requires
        old(session).state is Finished,
    ensures
        final(session).host == old(session).host,
        completes(*old(session), *final(session), a, remaining, d),
{
    session.devices.push(d);
    if remaining <= 1 {
        let mut done: Vec<ExportedDevice> = Vec::new();
        core::mem::swap(&mut session.devices, &mut done);
        ListAction::Finish(Ok(done))
    } else {
        session.state = ListState::AwaitDevice { remaining: remaining - 1 };
        let send: Vec<u8> = Vec::new();
        ListAction::Exchange { send, receive: USB_DEVICE_INFO_LEN }
    }
}

/// Takes one step of listing a server's devices: hands the frame received
/// to the session and returns the next action.
pub fn list_exported_devices(session: &mut ListSession, event: ListEvent) -> (r: ListAction)
    ensures
        list_transition(*old(session), event, *final(session), r),
{
    let mut state = ListState::Finished;
    core::mem::swap(&mut session.state, &mut state);
    match (state, event) {
        (ListState::Start, ListEvent::Begin) => {
            let h = OperationHeader::request(OperationKind::ListDevices);
            assert(0x8000u16 | 5u16 == 0x8005u16) by (bit_vector);
            session.state = ListState::AwaitHeader;
            ListAction::Exchange { send: h.encode(), receive: OPERATION_HEADER_LEN }
        },
        (ListState::AwaitHeader, ListEvent::Received(b)) => {
            match OperationHeader::decode(b.as_slice()) {
                None => ListAction::Finish(Err(Error::Truncated)),
                Some(h) => match h.check_reply(OperationKind::ListDevices) {
                    Ok(()) => {
                        session.state = ListState::AwaitCount;
                        let send: Vec<u8> = Vec::new();
                        ListAction::Exchange { send, receive: LIST_DEVICES_REPLY_LEN }
                    },
                    Err(e) => ListAction::Finish(Err(Error::Operation(e))),
                },
            }
        },
        (ListState::AwaitCount, ListEvent::Received(b)) => {
            match ListDevicesReply::decode(b.as_slice()) {
                None => ListAction::Finish(Err(Error::Truncated)),
                Some(c) => {
                    assert(c.num_devices == read_be32(b@, 0)) by {
                        assert(b@.subrange(0, 4) =~= b@);
                    }
                    if c.num_devices == 0 {
                        let mut done: Vec<ExportedDevice> = Vec::new();
                        core::mem::swap(&mut session.devices, &mut done);
                        ListAction::Finish(Ok(done))
                    } else {
                        session.state = ListState::AwaitDevice { remaining: c.num_devices };
                        let send: Vec<u8> = Vec::new();
                        ListAction::Exchange { send, receive: USB_DEVICE_INFO_LEN }
                    }
                },
            }
        },
        (ListState::AwaitDevice { remaining }, ListEvent::Received(b)) => {
            let raw = match ImportReply::decode(b.as_slice()) {
                None => return ListAction::Finish(Err(Error::Truncated)),
                Some(r) => r.usb_device,
            };
            let ghost raw_v = raw;
            let info = match UsbDeviceInfo::try_from_raw(raw) {
                Ok(d) => d,
                Err(e) => {
                    assert forall|x: RawUsbDeviceInfo| x.has_fields_of(b@) implies !raw_device_valid(x) by {
                        assert(x.path@ == raw_v.path@ && x.bus_id@ == raw_v.bus_id@ && x.speed == raw_v.speed);
                    }
                    return ListAction::Finish(Err(Error::ProtocolUsbDevice(e)));
                },
            };
            assert(device_in(info, b@));
            let n = info.b_num_interfaces;
            let d = ExportedDevice {
                host: session.host.clone(),
                port: DEFAULT_PORT,
                remote_device_info: info,
                interfaces: Vec::new(),
            };
            let ghost dg = d;
            let ghost s0 = *session;
            assert(dg.host == s0.host && dg.port == DEFAULT_PORT && device_in(dg.remote_device_info, b@)
                && dg.interfaces@.len() == 0);
            if n == 0 {
                let a = complete_device(session, remaining, d);
                assert(completes(s0, *session, a, remaining, dg));
                a
            } else {
                session.state = ListState::AwaitInterface { remaining, left: n, device: d };
                let send: Vec<u8> = Vec::new();
                let a = ListAction::Exchange { send, receive: USB_INTERFACE_INFO_LEN };
                assert(reads(a, USB_INTERFACE_INFO_LEN));
                assert(session.state == ListState::AwaitInterface {
                    remaining,
                    left: dg.remote_device_info.b_num_interfaces,
                    device: dg,
                });
                a
            }
        },
        (ListState::AwaitInterface { remaining, left, device }, ListEvent::Received(b)) => {
            let iface = match UsbInterfaceInfo::decode(b.as_slice()) {
                None => return ListAction::Finish(Err(Error::Truncated)),
                Some(i) => i,
            };
            let ghost device_v = device;
            let mut d = device;
            d.interfaces.push(
                ExportedDeviceInterface {
                    b_interface_class: iface.b_interface_class,
                    b_interface_sub_class: iface.b_interface_sub_class,
                    b_interface_protocol: iface.b_interface_protocol,
                },
            );
            let ghost dg = d;
            let ghost s0 = *session;
            assert(with_interfaces(dg, device_v, device_v.interfaces@.push(interface_of(b@))));
            if left <= 1 {
                let a = complete_device(session, remaining, d);
                assert(completes(s0, *session, a, remaining, dg));
                a
            } else {
                session.state = ListState::AwaitInterface { remaining, left: left - 1, device: d };
                let send: Vec<u8> = Vec::new();
                let a = ListAction::Exchange { send, receive: USB_INTERFACE_INFO_LEN };
                assert(reads(a, USB_INTERFACE_INFO_LEN));
                a
            }
        },
        _ => ListAction::Finish(Err(Error::UnexpectedEvent)),
    }
}

} // verus!
