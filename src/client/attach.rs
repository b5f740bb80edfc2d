//! Attaching a remote device: the import handshake, the choice of a port,
//! the attach command and the connection record, as a session that is fed
//! the outcome of each I/O step and answers with the next one.
use vstd::prelude::*;
use vstd::string::StringSliceAdditionalSpecFns;
use vstd::utf8::*;

use crate::drivers::state::{ConnectionRecord, FsStateError};
use crate::drivers::vhci::{attach_command_bytes, is_first_free, VhciHcd, VhciHcdError};
use crate::proto::{
    field_text, header_at, nul_terminated, padded, read_be32, reply_check, CharBuf, ImportReply,
    ImportRequest, OperationError, OperationHeader, OperationKind, RawUsbDeviceInfo,
    OPERATION_HEADER_LEN, SYSFS_BUS_ID_SIZE, USB_DEVICE_INFO_LEN, USBIP_VERSION,
};
use crate::text::bytes_equal;
use crate::{speed_of_raw, UsbDeviceInfo, UsbDeviceInfoValidationError};

verus! {

/// TCP port on which USB/IP servers listen.
pub const DEFAULT_PORT: u16 = 3240;

/// Failures of attaching a device.
#[derive(Debug, Clone, PartialEq, Eq)]
pub enum Error {
    /// The connection failed.
    NetworkIo(String),
    /// A reply frame did not have its declared length.
    Truncated,
    /// The bus ID does not fit the request's bus ID field.
    BusIdTooLong,
    /// The server described another device than the one requested.
    BusIdMismatch,
    /// The server's device descriptor is malformed.
    Protocol(UsbDeviceInfoValidationError),
    /// The server refused the request, or its reply header is wrong.
    Operation(OperationError),
    VhciHcdDriver(VhciHcdError),
    FsState(FsStateError),
    /// The session was handed an event that it does not expect now.
    UnexpectedEvent,
}

/// The bytes of an import request for `bus_id`: the request header and the
/// bus ID field.
pub open spec fn import_request_bytes(bus_id: Seq<u8>) -> Seq<u8> {
    OperationHeader { version: USBIP_VERSION, code: 0x8003, status: 0 }.wire_bytes() + padded(
        bus_id,
        SYSFS_BUS_ID_SIZE as nat,
    )
}

/// What the reply header to an import request amounts to.
pub open spec fn import_header_outcome(b: Seq<u8>) -> Result<(), Error> {
    if b.len() != OPERATION_HEADER_LEN {
        Err(Error::Truncated)
    } else {
        match reply_check(header_at(b), OperationKind::Import) {
            Ok(()) => Ok(()),
            Err(e) => Err(Error::Operation(e)),
        }
    }
}

/// What the device descriptor of an import reply amounts to: it must have
/// its full length, name the requested bus ID byte for byte, and pass
/// validation.
pub open spec fn import_reply_outcome(bus_id: Seq<u8>, b: Seq<u8>) -> Result<(), Error> {
    if b.len() != USB_DEVICE_INFO_LEN {
        Err(Error::Truncated)
    } else if nul_terminated(b.subrange(256, 288)) != Some(bus_id) {
        Err(Error::BusIdMismatch)
    } else if !(field_text(b.subrange(0, 256)) is Some && field_text(b.subrange(256, 288)) is Some
        && speed_of_raw(read_be32(b, 296)) is Some) {
        Err(Error::Protocol(UsbDeviceInfoValidationError))
    } else {
        Ok(())
    }
}

/// Whether `d` is the validated descriptor that the reply bytes `b` carry.
pub open spec fn device_from_reply(d: UsbDeviceInfo, b: Seq<u8>) -> bool {
    exists|raw: RawUsbDeviceInfo| raw.has_fields_of(b) && d.validates(raw)
}

/// The import request for `bus_id`; fails, sending nothing, where the bus
/// ID does not fit its field.
pub fn import_request(bus_id: &str) -> (r: Result<Vec<u8>, Error>)
    ensures
        r is Ok <==> bus_id.spec_bytes().len() < SYSFS_BUS_ID_SIZE,
        r matches Ok(b) ==> b@ == import_request_bytes(bus_id.spec_bytes()),
        r is Err ==> r == Err::<Vec<u8>, Error>(Error::BusIdTooLong),
{
    let field = match CharBuf::<SYSFS_BUS_ID_SIZE>::new(bus_id) {
        Some(f) => f,
        None => return Err(Error::BusIdTooLong),
    };
    let header = OperationHeader::request(OperationKind::Import);
    assert(0x8000u16 | 3u16 == 0x8003u16) by (bit_vector);
    let mut out = header.encode();
    let body = ImportRequest { bus_id: field }.encode();
    crate::text::push_all(&mut out, body.as_slice());
    assert(out@ =~= import_request_bytes(bus_id.spec_bytes()));
    Ok(out)
}

/// Checks the reply header to an import request.
pub fn check_import_header(b: &[u8]) -> (r: Result<(), Error>)
    ensures
        r == import_header_outcome(b@),
{
    match OperationHeader::decode(b) {
        None => Err(Error::Truncated),
        Some(h) => match h.check_reply(OperationKind::Import) {
            Ok(()) => Ok(()),
            Err(e) => Err(Error::Operation(e)),
        },
    }
}

/// Reads the device descriptor of an import reply for `bus_id`.
pub fn check_import_reply(bus_id: &str, b: &[u8]) -> (r: Result<UsbDeviceInfo, Error>)
    ensures
        r is Ok <==> import_reply_outcome(bus_id.spec_bytes(), b@) is Ok,
        r matches Err(e) ==> import_reply_outcome(bus_id.spec_bytes(), b@) == Err::<(), Error>(e),
        r matches Ok(d) ==> device_from_reply(d, b@),
{
    let reply = match ImportReply::decode(b) {
        Some(r) => r,
        None => return Err(Error::Truncated),
    };
    let raw = reply.usb_device;
    let matches = match raw.bus_id.terminated_bytes() {
        Some(t) => bytes_equal(t.as_slice(), bus_id.as_bytes()),
        None => false,
    };
    if !matches {
        return Err(Error::BusIdMismatch);
    }
    let ghost raw_v = raw;
    match UsbDeviceInfo::try_from_raw(raw) {
        Ok(d) => {
            assert(raw_v.has_fields_of(b@) && d.validates(raw_v));
            Ok(d)
        },
        Err(e) => Err(Error::Protocol(e)),
    }
}

/// The record kept for a device attached from `host`:`port` with the
/// remote bus ID `bus_id`.
pub fn record_connection(host: &str, port: u16, bus_id: &str) -> (r: ConnectionRecord)
    ensures
        r.host@ == host@,
        r.port == port,
        r.bus_id@ == bus_id@,
{
    ConnectionRecord { host: host.to_owned(), port, bus_id: bus_id.to_owned() }
}

/// Where an attach session stands.
#[derive(Debug)]
pub enum AttachState {
    /// Nothing was sent yet.
    Start,
    /// The import request was sent; its reply header is awaited.
    AwaitHeader,
    /// The reply header was accepted; the device descriptor is awaited.
    AwaitDevice,
    /// The device was accepted; a snapshot of the controller is awaited.
    AwaitController { device: UsbDeviceInfo },
    /// The attach command for `port` was handed out.
    AwaitAttach { device: UsbDeviceInfo, port: u32 },
    /// The device is attached to `port`; its record is being saved.
    AwaitSave { port: u32 },
    /// The session is over.
    Finished,
}

/// The outcome of the last step, handed to the session.
#[derive(Debug)]
pub enum AttachEvent {
    /// Start the session.
    Begin,
    /// The bytes received, exactly as many as were asked for.
    Received(Vec<u8>),
    /// A fresh snapshot of the controller.
    Controller(VhciHcd),
    /// The attach command was accepted.
    AttachDone,
    /// The port was taken in the meantime (the kernel reported it busy).
    AttachBusy,
    /// The attach command failed otherwise.
    AttachFailed(VhciHcdError),
    /// The connection record was saved.
    Saved,
    /// Saving the connection record failed.
    SaveFailed(FsStateError),
}

/// The next step that the session asks for.
#[derive(Debug)]
pub enum AttachAction {
    /// Send `send` on the connection, then receive exactly `receive` bytes.
    Exchange { send: Vec<u8>, receive: usize },
    /// Open the controller and take a snapshot of its ports.
    OpenController,
    /// Write `command` to the controller's attach attribute, handing it the
    /// session's connection.
    WriteAttach { port: u32, command: Vec<u8> },
    /// Save `record` for `port`.
    SaveRecord { port: u32, record: ConnectionRecord },
    /// The session is over, with the port the device was attached to.
    Finish(Result<u32, Error>),
}

/// An attach session for the device `bus_id` of `host`, reached through
/// the connection `socket_fd`.
#[derive(Debug)]
pub struct AttachSession {
    pub host: String,
    pub bus_id: String,
    pub socket_fd: u32,
    pub state: AttachState,
}

impl AttachSession {
    pub fn new(host: &str, bus_id: &str, socket_fd: u32) -> (r: Self)
        ensures
            r.host@ == host@,
            r.bus_id@ == bus_id@,
            r.socket_fd == socket_fd,
            r.state is Start,
    {
        AttachSession {
            host: host.to_owned(),
            bus_id: bus_id.to_owned(),
            socket_fd,
            state: AttachState::Start,
        }
    }
}

/// The step that a session in state `s` takes on `e`: its next state and
/// the action it asks for.
pub open spec fn attach_transition(
    s: AttachSession,
    e: AttachEvent,
    next: AttachState,
    a: AttachAction,
) -> bool {
    let bus_id = encode_utf8(s.bus_id@);
    let fail = |err: Error| next is Finished && a == AttachAction::Finish(Err(err));
    match (s.state, e) {
        (AttachState::Start, AttachEvent::Begin) => if bus_id.len() < SYSFS_BUS_ID_SIZE {
            &&& next is AwaitHeader
            &&& a matches AttachAction::Exchange { send, receive }
            &&& send@ == import_request_bytes(bus_id)
            &&& receive == OPERATION_HEADER_LEN
        } else {
            fail(Error::BusIdTooLong)
        },
        (AttachState::AwaitHeader, AttachEvent::Received(b)) => match import_header_outcome(b@) {
            Ok(()) => {
                &&& next is AwaitDevice
                &&& a matches AttachAction::Exchange { send, receive }
                &&& send@.len() == 0
                &&& receive == USB_DEVICE_INFO_LEN
            },
            Err(err) => fail(err),
        },
        (AttachState::AwaitDevice, AttachEvent::Received(b)) => match import_reply_outcome(
            bus_id,
            b@,
        ) {
            Ok(()) => {
                &&& next matches AttachState::AwaitController { device }
                &&& device_from_reply(device, b@)
                &&& a is OpenController
            },
            Err(err) => fail(err),
        },
        (AttachState::AwaitController { device }, AttachEvent::Controller(h)) => if exists|i: int|
            is_first_free(h.ports(), device.speed, i) {
            let i = choose|i: int| is_first_free(h.ports(), device.speed, i);
            &&& next == AttachState::AwaitAttach { device, port: i as u32 }
            &&& a matches AttachAction::WriteAttach { port, command }
            &&& port == i
            &&& command@ == attach_command_bytes(
                i as u32,
                s.socket_fd,
                device.bus_num,
                device.dev_num,
                device.speed.spec_raw(),
            )
        } else {
            fail(Error::VhciHcdDriver(VhciHcdError::NoFreePorts))
        },
        (AttachState::AwaitAttach { device, port }, AttachEvent::AttachDone) => {
            &&& next == AttachState::AwaitSave { port }
            &&& a matches AttachAction::SaveRecord { port: p, record }
            &&& p == port
            &&& record.host@ == s.host@
            &&& record.port == DEFAULT_PORT
            &&& record.bus_id@ == s.bus_id@
        },
        (AttachState::AwaitAttach { device, port }, AttachEvent::AttachBusy) => {
            &&& next == AttachState::AwaitController { device }
            &&& a is OpenController
        },
        (AttachState::AwaitAttach { .. }, AttachEvent::AttachFailed(err)) => fail(
            Error::VhciHcdDriver(err),
        ),
        (AttachState::AwaitSave { port }, AttachEvent::Saved) => {
            &&& next is Finished
            &&& a == AttachAction::Finish(Ok(port))
        },
        (AttachState::AwaitSave { .. }, AttachEvent::SaveFailed(err)) => fail(Error::FsState(err)),
        _ => fail(Error::UnexpectedEvent),
    }
}

/// Takes one step of attaching: hands the outcome of the last action to the
/// session and returns the next action. A busy port sends the session back
/// to choosing a port from a fresh snapshot, as often as it happens.
pub fn attach_device(session: &mut AttachSession, event: AttachEvent) -> (r: AttachAction)
    ensures
        final(session).host == old(session).host,
        final(session).bus_id == old(session).bus_id,
        final(session).socket_fd == old(session).socket_fd,
        attach_transition(*old(session), event, final(session).state, r),
{
    let mut state = AttachState::Finished;
    core::mem::swap(&mut session.state, &mut state);
    match (state, event) {
        (AttachState::Start, AttachEvent::Begin) => match import_request(session.bus_id.as_str()) {
            Ok(send) => {
                session.state = AttachState::AwaitHeader;
                AttachAction::Exchange { send, receive: OPERATION_HEADER_LEN }
            },
            Err(e) => AttachAction::Finish(Err(e)),
        },
        (AttachState::AwaitHeader, AttachEvent::Received(b)) => match check_import_header(
            b.as_slice(),
        ) {
            Ok(()) => {
                session.state = AttachState::AwaitDevice;
                let send: Vec<u8> = Vec::new();
                AttachAction::Exchange { send, receive: USB_DEVICE_INFO_LEN }
            },
            Err(e) => AttachAction::Finish(Err(e)),
        },
        (AttachState::AwaitDevice, AttachEvent::Received(b)) => match check_import_reply(
            session.bus_id.as_str(),
            b.as_slice(),
        ) {
            Ok(device) => {
                session.state = AttachState::AwaitController { device };
                AttachAction::OpenController
            },
            Err(e) => AttachAction::Finish(Err(e)),
        },
        (AttachState::AwaitController { device }, AttachEvent::Controller(h)) => {
            match h.get_free_port(device.speed) {
                Ok(port) => {
                    proof {
                        let c = choose|i: int| is_first_free(h.ports(), device.speed, i);
                        assert(c == port) by {
                            if c < port {
                                assert(!crate::drivers::vhci::free_for(h.ports()[c], device.speed));
                            } else if c > port {
                                assert(!crate::drivers::vhci::free_for(
                                    h.ports()[port as int],
                                    device.speed,
                                ));
                            }
                        }
                    }
                    let command = VhciHcd::attach_command(
                        port,
                        session.socket_fd,
                        device.bus_num,
                        device.dev_num,
                        device.speed.raw(),
                    );
                    session.state = AttachState::AwaitAttach { device, port };
                    AttachAction::WriteAttach { port, command }
                },
                Err(e) => {
                    assert(!exists|i: int| is_first_free(h.ports(), device.speed, i));
                    AttachAction::Finish(Err(Error::VhciHcdDriver(e)))
                },
            }
        },
        (AttachState::AwaitAttach { device, port }, AttachEvent::AttachDone) => {
            let record = record_connection(
                session.host.as_str(),
                DEFAULT_PORT,
                session.bus_id.as_str(),
            );
            session.state = AttachState::AwaitSave { port };
            AttachAction::SaveRecord { port, record }
        },
        (AttachState::AwaitAttach { device, port }, AttachEvent::AttachBusy) => {
            session.state = AttachState::AwaitController { device };
            AttachAction::OpenController
        },
        (AttachState::AwaitAttach { .. }, AttachEvent::AttachFailed(e)) => AttachAction::Finish(
            Err(Error::VhciHcdDriver(e)),
        ),
        (AttachState::AwaitSave { port }, AttachEvent::Saved) => AttachAction::Finish(Ok(port)),
        (AttachState::AwaitSave { .. }, AttachEvent::SaveFailed(e)) => AttachAction::Finish(
            Err(Error::FsState(e)),
        ),
        _ => AttachAction::Finish(Err(Error::UnexpectedEvent)),
    }
}

} // verus!
