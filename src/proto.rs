//! The USB/IP wire protocol: fixed-layout, big-endian messages and the
//! fixed-capacity text fields they carry.
use vstd::prelude::*;
use vstd::string::*;
use vstd::utf8::*;

use vstd::arithmetic::div_mod::lemma_fundamental_div_mod_converse;

use crate::text::{push_all, string_from_utf8};

verus! {

/// Version of the USB/IP protocol spoken by this library.
pub const USBIP_VERSION: u16 = 0x0111;

/// Capacity of the sys path field of a device descriptor.
pub const SYSFS_PATH_MAX: usize = 256;

/// Capacity of a bus ID field.
pub const SYSFS_BUS_ID_SIZE: usize = 32;

/// Length of an operation header on the wire.
pub const OPERATION_HEADER_LEN: usize = 8;

/// Length of a device descriptor on the wire.
pub const USB_DEVICE_INFO_LEN: usize = 312;

/// Length of an interface descriptor on the wire.
pub const USB_INTERFACE_INFO_LEN: usize = 4;

/// Length of the count that opens a device list reply.
pub const LIST_DEVICES_REPLY_LEN: usize = 4;

// ---------------------------------------------------------------------------
// Big-endian integers

/// The two bytes of `x`, most significant first.
pub open spec fn be16(x: u16) -> Seq<u8> {
    seq![(x / 256) as u8, (x % 256) as u8]
}

/// The four bytes of `x`, most significant first.
pub open spec fn be32(x: u32) -> Seq<u8> {
    seq![(x / 0x100_0000) as u8, ((x / 0x1_0000) % 256) as u8, ((x / 256) % 256) as u8, (x % 256) as u8]
}

/// The integer written by the two bytes of `b` at `i`.
pub open spec fn read_be16(b: Seq<u8>, i: int) -> u16 {
    (b[i] * 256 + b[i + 1]) as u16
}

/// The integer written by the four bytes of `b` at `i`.
pub open spec fn read_be32(b: Seq<u8>, i: int) -> u32 {
    (b[i] * 0x100_0000 + b[i + 1] * 0x1_0000 + b[i + 2] * 256 + b[i + 3]) as u32
}

fn push_be16(out: &mut Vec<u8>, x: u16)
    ensures
        final(out)@ == old(out)@ + be16(x),
{
    out.push((x / 256) as u8);
    out.push((x % 256) as u8);
    assert(final(out)@ =~= old(out)@ + be16(x));
}

fn push_be32(out: &mut Vec<u8>, x: u32)
    ensures
        final(out)@ == old(out)@ + be32(x),
{
    out.push((x / 0x100_0000) as u8);
    out.push(((x / 0x1_0000) % 256) as u8);
    out.push(((x / 256) % 256) as u8);
    out.push((x % 256) as u8);
    assert(final(out)@ =~= old(out)@ + be32(x));
}

fn get_be16(b: &[u8], i: usize) -> (r: u16)
    requires
        i + 2 <= b@.len(),
    ensures
        r == read_be16(b@, i as int),
        be16(r) == b@.subrange(i as int, i + 2),
{
    let r = (b[i] as u16) * 256 + b[i + 1] as u16;
    assert(be16(r) =~= b@.subrange(i as int, i + 2));
    r
}

proof fn lemma_be32_bytes(b0: int, b1: int, b2: int, b3: int)
    requires
        0 <= b0 < 256,
        0 <= b1 < 256,
        0 <= b2 < 256,
        0 <= b3 < 256,
    ensures
        ({
            let x = b0 * 0x100_0000 + b1 * 0x1_0000 + b2 * 256 + b3;
            &&& x / 0x100_0000 == b0
            &&& (x / 0x1_0000) % 256 == b1
            &&& (x / 256) % 256 == b2
            &&& x % 256 == b3
        }),
{
    let x = b0 * 0x100_0000 + b1 * 0x1_0000 + b2 * 256 + b3;
    lemma_fundamental_div_mod_converse(x, 0x100_0000, b0, b1 * 0x1_0000 + b2 * 256 + b3);
    lemma_fundamental_div_mod_converse(x, 0x1_0000, b0 * 256 + b1, b2 * 256 + b3);
    lemma_fundamental_div_mod_converse(b0 * 256 + b1, 256, b0, b1);
    lemma_fundamental_div_mod_converse(x, 256, b0 * 0x1_0000 + b1 * 256 + b2, b3);
    lemma_fundamental_div_mod_converse(b0 * 0x1_0000 + b1 * 256 + b2, 256, b0 * 256 + b1, b2);
}

fn get_be32(b: &[u8], i: usize) -> (r: u32)
    requires
        i + 4 <= b@.len(),
    ensures
        r == read_be32(b@, i as int),
        be32(r) == b@.subrange(i as int, i + 4),
{
    let r = (b[i] as u32) * 0x100_0000 + (b[i + 1] as u32) * 0x1_0000 + (b[i + 2] as u32) * 256
        + b[i + 3] as u32;
    proof {
        lemma_be32_bytes(b@[i as int] as int, b@[i + 1] as int, b@[i + 2] as int, b@[i + 3] as int);
    }
    assert(be32(r) =~= b@.subrange(i as int, i + 4));
    r
}

fn copy_range(b: &[u8], start: usize, len: usize) -> (r: Vec<u8>)
    requires
        start + len <= b@.len(),
    ensures
        r@ == b@.subrange(start as int, start + len),
{
    let mut r: Vec<u8> = Vec::new();
    let n = b.len();
    let mut i: usize = 0;
    while i < len
        invariant
            n == b@.len(),
            start + len <= n,
            0 <= i <= len,
            r@ == b@.subrange(start as int, start + i),
        decreases len - i,
    {
        r.push(b[start + i]);
        assert(b@.subrange(start as int, start + i + 1) =~= b@.subrange(start as int, start + i).push(b@[start + i]));
        i = i + 1;
    }
    r
}

// ---------------------------------------------------------------------------
// Operation header

/// Header that opens every request and reply of the user-space protocol.
#[derive(Debug, Clone, Copy, PartialEq, Eq, Structural)]
pub struct OperationHeader {
    pub version: u16,
    pub code: u16,
    pub status: u32,
}

/// Whether a message is a request (direction bit set) or a reply.
#[derive(Debug, Clone, Copy, PartialEq, Eq, Structural)]
pub enum Direction {
    Request,
    Reply,
}

impl Direction {
    /// The bit that this direction contributes to an operation code.
    pub open spec fn spec_bits(self) -> u16 {
        match self {
            Direction::Request => 0x8000,
            Direction::Reply => 0,
        }
    }

    pub fn bits(self) -> (r: u16)
        ensures
            r == self.spec_bits(),
    {
        match self {
            Direction::Request => 0x8000,
            Direction::Reply => 0,
        }
    }

    /// The direction that an operation code states.
    pub fn from_code(code: u16) -> (r: Self)
        ensures
            r == (if code & 0x8000 == 0 {
                Direction::Reply
            } else {
                Direction::Request
            }),
    {
        if code & 0x8000 == 0 {
            Direction::Reply
        } else {
            Direction::Request
        }
    }
}

/// Operations of the user-space protocol, exchanged before the connection
/// is handed over to the kernel.
#[derive(Debug, Clone, Copy, PartialEq, Eq, Structural)]
pub enum OperationKind {
    /// Placeholder code, accepted in a reply for any operation.
    Unspecified,
    /// Retrieve information on one device.
    DeviceInfo,
    /// Import a remote USB device.
    Import,
    /// Export a USB device to a remote host.
    Export,
    /// Withdraw a device exported to a remote host.
    UnExport,
    /// Negotiate an encryption key.
    EncryptionKey,
    /// Retrieve the list of exported USB devices.
    ListDevices,
}

/// The operation that an opcode (an operation code without its direction
/// bit) names.
pub open spec fn kind_of_opcode(op: u16) -> Option<OperationKind> {
    if op == 0x00 {
        Some(OperationKind::Unspecified)
    } else if op == 0x02 {
        Some(OperationKind::DeviceInfo)
    } else if op == 0x03 {
        Some(OperationKind::Import)
    } else if op == 0x04 {
        Some(OperationKind::EncryptionKey)
    } else if op == 0x05 {
        Some(OperationKind::ListDevices)
    } else if op == 0x06 {
        Some(OperationKind::Export)
    } else if op == 0x07 {
        Some(OperationKind::UnExport)
    } else {
        None
    }
}

impl OperationKind {
    /// The opcode of this operation.
    pub open spec fn spec_opcode(self) -> u16 {
        match self {
            OperationKind::Unspecified => 0x00,
            OperationKind::DeviceInfo => 0x02,
            OperationKind::Import => 0x03,
            OperationKind::Export => 0x06,
            OperationKind::UnExport => 0x07,
            OperationKind::EncryptionKey => 0x04,
            OperationKind::ListDevices => 0x05,
        }
    }

    pub fn opcode(self) -> (r: u16)
        ensures
            r == self.spec_opcode(),
    {
        match self {
            OperationKind::Unspecified => 0x00,
            OperationKind::DeviceInfo => 0x02,
            OperationKind::Import => 0x03,
            OperationKind::Export => 0x06,
            OperationKind::UnExport => 0x07,
            OperationKind::EncryptionKey => 0x04,
            OperationKind::ListDevices => 0x05,
        }
    }

    /// The operation that an operation code names, whatever its direction bit.
    pub fn from_code(code: u16) -> (r: Option<Self>)
        ensures
            r == kind_of_opcode(code & 0x7fff),
    {
        let op = code & 0x7fff;
        if op == 0x00 {
            Some(OperationKind::Unspecified)
        } else if op == 0x02 {
            Some(OperationKind::DeviceInfo)
        } else if op == 0x03 {
            Some(OperationKind::Import)
        } else if op == 0x04 {
            Some(OperationKind::EncryptionKey)
        } else if op == 0x05 {
            Some(OperationKind::ListDevices)
        } else if op == 0x06 {
            Some(OperationKind::Export)
        } else if op == 0x07 {
            Some(OperationKind::UnExport)
        } else {
            None
        }
    }
}

/// Status carried by a reply header.
#[derive(Debug, Clone, Copy, PartialEq, Eq, Structural)]
pub enum OperationStatus {
    /// Request completed successfully.
    Success,
    /// Request failed.
    Failure,
    /// The device is not available (already exported).
    DeviceBusy,
    /// The device is in an error state.
    DeviceError,
    /// The device does not exist on the host.
    NoSuchDevice,
    /// Some other error.
    Error,
}

/// The status that a raw status code names.
pub open spec fn status_of_raw(value: u32) -> Option<OperationStatus> {
    if value == 0 {
        Some(OperationStatus::Success)
    } else if value == 1 {
        Some(OperationStatus::Failure)
    } else if value == 2 {
        Some(OperationStatus::DeviceBusy)
    } else if value == 3 {
        Some(OperationStatus::DeviceError)
    } else if value == 4 {
        Some(OperationStatus::NoSuchDevice)
    } else if value == 5 {
        Some(OperationStatus::Error)
    } else {
        None
    }
}

impl OperationStatus {
    pub open spec fn spec_raw(self) -> u32 {
        match self {
            OperationStatus::Success => 0,
            OperationStatus::Failure => 1,
            OperationStatus::DeviceBusy => 2,
            OperationStatus::DeviceError => 3,
            OperationStatus::NoSuchDevice => 4,
            OperationStatus::Error => 5,
        }
    }

    /// The raw code of this status.
    pub fn raw(self) -> (r: u32)
        ensures
            r == self.spec_raw(),
    {
        match self {
            OperationStatus::Success => 0,
            OperationStatus::Failure => 1,
            OperationStatus::DeviceBusy => 2,
            OperationStatus::DeviceError => 3,
            OperationStatus::NoSuchDevice => 4,
            OperationStatus::Error => 5,
        }
    }

    pub fn from_raw(value: u32) -> (r: Option<Self>)
        ensures
            r == status_of_raw(value),
    {
        if value == 0 {
            Some(OperationStatus::Success)
        } else if value == 1 {
            Some(OperationStatus::Failure)
        } else if value == 2 {
            Some(OperationStatus::DeviceBusy)
        } else if value == 3 {
            Some(OperationStatus::DeviceError)
        } else if value == 4 {
            Some(OperationStatus::NoSuchDevice)
        } else if value == 5 {
            Some(OperationStatus::Error)
        } else {
            None
        }
    }
}

/// Why a reply header was refused.
#[derive(Debug, Clone, Copy, PartialEq, Eq, Structural)]
pub enum OperationError {
    RequestFailed,
    DeviceBusy,
    DeviceError,
    NoSuchDevice,
    VersionMismatch,
    DirectionMismatch,
    InvalidData,
    Other,
}

/// The failure that a reply status reports; `None` for success. A status
/// code that names no status counts as a generic error.
pub open spec fn status_failure(status: u32) -> Option<OperationError> {
    match status_of_raw(status) {
        Some(OperationStatus::Success) => None,
        Some(OperationStatus::Failure) => Some(OperationError::RequestFailed),
        Some(OperationStatus::DeviceBusy) => Some(OperationError::DeviceBusy),
        Some(OperationStatus::DeviceError) => Some(OperationError::DeviceError),
        Some(OperationStatus::NoSuchDevice) => Some(OperationError::NoSuchDevice),
        _ => Some(OperationError::Other),
    }
}

/// What a reply header for an operation of `kind` amounts to: the first
/// failed check among version, direction, opcode (where `Unspecified`
/// matches any operation) and status.
pub open spec fn reply_check(h: OperationHeader, kind: OperationKind) -> Result<(), OperationError> {
    if h.version != USBIP_VERSION {
        Err(OperationError::VersionMismatch)
    } else if h.code & 0x8000 != 0 {
        Err(OperationError::DirectionMismatch)
    } else if kind_of_opcode(h.code & 0x7fff) != Some(OperationKind::Unspecified)
        && kind_of_opcode(h.code & 0x7fff) != Some(kind) {
        Err(OperationError::InvalidData)
    } else {
        match status_failure(h.status) {
            None => Ok(()),
            Some(e) => Err(e),
        }
    }
}

/// The header written by the first eight bytes of `b`.
pub open spec fn header_at(b: Seq<u8>) -> OperationHeader {
    OperationHeader { version: read_be16(b, 0), code: read_be16(b, 2), status: read_be32(b, 4) }
}

impl OperationHeader {
    /// The eight bytes of this header on the wire.
    pub open spec fn wire_bytes(self) -> Seq<u8> {
        be16(self.version) + be16(self.code) + be32(self.status)
    }

    /// The header that opens a request for `kind`.
    pub fn request(kind: OperationKind) -> (r: Self)
        ensures
            r.version == USBIP_VERSION,
            r.code == 0x8000 | kind.spec_opcode(),
            r.status == 0,
    {
        OperationHeader { version: USBIP_VERSION, code: Direction::Request.bits() | kind.opcode(), status: 0 }
    }

    /// The header that opens a reply for `kind` with `status`.
    pub fn reply(kind: OperationKind, status: OperationStatus) -> (r: Self)
        ensures
            r.version == USBIP_VERSION,
            r.code == kind.spec_opcode(),
            r.status == status.spec_raw(),
    {
        let code = Direction::Reply.bits() | kind.opcode();
        assert(0u16 | kind.spec_opcode() == kind.spec_opcode()) by (bit_vector);
        OperationHeader { version: USBIP_VERSION, code, status: status.raw() }
    }

    /// Checks a header received in reply to a request for `kind`.
    pub fn check_reply(&self, kind: OperationKind) -> (r: Result<(), OperationError>)
        ensures
            r == reply_check(*self, kind),
    {
        if self.version != USBIP_VERSION {
            return Err(OperationError::VersionMismatch);
        }
        match Direction::from_code(self.code) {
            Direction::Reply => {},
            Direction::Request => {
                return Err(OperationError::DirectionMismatch);
            },
        }
        match OperationKind::from_code(self.code) {
            Some(OperationKind::Unspecified) => {},
            k => {
                if k != Some(kind) {
                    return Err(OperationError::InvalidData);
                }
            },
        }
        match OperationStatus::from_raw(self.status) {
            Some(OperationStatus::Success) => Ok(()),
            Some(OperationStatus::Failure) => Err(OperationError::RequestFailed),
            Some(OperationStatus::DeviceBusy) => Err(OperationError::DeviceBusy),
            Some(OperationStatus::DeviceError) => Err(OperationError::DeviceError),
            Some(OperationStatus::NoSuchDevice) => Err(OperationError::NoSuchDevice),
            _ => Err(OperationError::Other),
        }
    }

    /// The header on the wire.
    pub fn encode(&self) -> (r: Vec<u8>)
        ensures
            r@ == self.wire_bytes(),
    {
        let mut out: Vec<u8> = Vec::new();
        push_be16(&mut out, self.version);
        push_be16(&mut out, self.code);
        push_be32(&mut out, self.status);
        assert(out@ =~= self.wire_bytes());
        out
    }

    /// Reads a header from exactly eight bytes.
    pub fn decode(bytes: &[u8]) -> (r: Option<Self>)
        ensures
            r is Some <==> bytes@.len() == OPERATION_HEADER_LEN,
            r matches Some(h) ==> h.wire_bytes() == bytes@ && h == header_at(bytes@),
    {
        if bytes.len() != OPERATION_HEADER_LEN {
            return None;
        }
        let version = get_be16(bytes, 0);
        let code = get_be16(bytes, 2);
        let status = get_be32(bytes, 4);
        let h = OperationHeader { version, code, status };
        assert(h.wire_bytes() =~= bytes@);
        Some(h)
    }
}

/// A header reads back from its wire bytes unchanged.
pub proof fn lemma_header_round_trip(h: OperationHeader)
    ensures
        h.wire_bytes().len() == OPERATION_HEADER_LEN,
        header_at(h.wire_bytes()) == h,
{
    let b = h.wire_bytes();
    lemma_fundamental_div_mod_converse(h.version as int, 256, (h.version / 256) as int, (h.version % 256) as int);
    lemma_fundamental_div_mod_converse(h.code as int, 256, (h.code / 256) as int, (h.code % 256) as int);
    let s = h.status as int;
    lemma_be32_bytes(s / 0x100_0000, (s / 0x1_0000) % 256, (s / 256) % 256, s % 256);
    assert(s == (s / 0x100_0000) * 0x100_0000 + ((s / 0x1_0000) % 256) * 0x1_0000 + ((s / 256) % 256) * 256 + s % 256) by (nonlinear_arith)
        requires 0 <= s < 0x1_0000_0000;
    assert(b[0] as int == h.version / 256 && b[1] as int == h.version % 256);
    assert(b[2] as int == h.code / 256 && b[3] as int == h.code % 256);
}

/// A reply header is refused for a wrong version, then for a set direction
/// bit, then for an opcode that names neither the requested operation nor
/// the placeholder, each with its own failure.
pub proof fn lemma_reply_header_rejections(h: OperationHeader, kind: OperationKind)
    ensures
        h.version != USBIP_VERSION ==> reply_check(h, kind) == Err::<(), OperationError>(
            OperationError::VersionMismatch,
        ),
        h.version == USBIP_VERSION && h.code & 0x8000 != 0 ==> reply_check(h, kind) == Err::<
            (),
            OperationError,
        >(OperationError::DirectionMismatch),
        h.version == USBIP_VERSION && h.code & 0x8000 == 0 && kind_of_opcode(h.code & 0x7fff)
            is None ==> reply_check(h, kind) == Err::<(), OperationError>(
            OperationError::InvalidData,
        ),
        OperationError::VersionMismatch != OperationError::DirectionMismatch,
        OperationError::DirectionMismatch != OperationError::InvalidData,
        OperationError::VersionMismatch != OperationError::InvalidData,
{
}

/// The status codes 0 to 5 map one to one onto success and the five
/// failures; every other code is a generic failure.
pub proof fn lemma_status_mapping(status: u32)
    ensures
        status == 0 ==> status_failure(status) is None,
        status == 1 ==> status_failure(status) == Some(OperationError::RequestFailed),
        status == 2 ==> status_failure(status) == Some(OperationError::DeviceBusy),
        status == 3 ==> status_failure(status) == Some(OperationError::DeviceError),
        status == 4 ==> status_failure(status) == Some(OperationError::NoSuchDevice),
        status >= 5 ==> status_failure(status) == Some(OperationError::Other),
        status <= 5 ==> (status_of_raw(status) matches Some(s) && s.spec_raw() == status),
{
}

/// The operation codes survive the round trip through a request header: the
/// direction reads as a request and the opcode names the operation again.
pub proof fn lemma_request_code_round_trip(kind: OperationKind)
    ensures
        (0x8000u16 | kind.spec_opcode()) & 0x8000 != 0,
        kind_of_opcode((0x8000u16 | kind.spec_opcode()) & 0x7fff) == Some(kind),
{
    let op = kind.spec_opcode();
    assert(op <= 7);
    assert((0x8000u16 | op) & 0x8000 != 0) by (bit_vector);
    assert(op <= 7 ==> (0x8000u16 | op) & 0x7fff == op) by (bit_vector);
}

// ---------------------------------------------------------------------------
// Fixed-capacity text fields

/// `s` followed by zero bytes up to a length of `n`.
pub open spec fn padded(s: Seq<u8>, n: nat) -> Seq<u8> {
    s + Seq::new((n - s.len()) as nat, |i: int| 0u8)
}

/// Whether the first zero byte of `b` stands at `i`.
pub open spec fn is_first_nul(b: Seq<u8>, i: int) -> bool {
    &&& 0 <= i < b.len()
    &&& b[i] == 0
    &&& forall|j: int| 0 <= j < i ==> b[j] != 0
}

/// The bytes before the first zero byte of `b`; `None` where `b` holds no
/// zero byte.
pub open spec fn nul_terminated(b: Seq<u8>) -> Option<Seq<u8>> {
    if exists|i: int| is_first_nul(b, i) {
        Some(b.take(choose|i: int| is_first_nul(b, i)))
    } else {
        None
    }
}

/// The text that a field holds: its terminated bytes, where they are UTF-8.
pub open spec fn field_text(b: Seq<u8>) -> Option<Seq<char>> {
    match nul_terminated(b) {
        Some(t) => if valid_utf8(t) {
            Some(decode_utf8(t))
        } else {
            None
        },
        None => None,
    }
}

proof fn lemma_first_nul_unique(b: Seq<u8>, i: int, k: int)
    requires
        is_first_nul(b, i),
        is_first_nul(b, k),
    ensures
        i == k,
{
    if i < k {
        assert(b[i] != 0);
    } else if k < i {
        assert(b[k] != 0);
    }
}

proof fn lemma_nul_terminated_at(b: Seq<u8>, i: int)
    requires
        is_first_nul(b, i),
    ensures
        nul_terminated(b) == Some(b.take(i)),
{
    let k = choose|k: int| is_first_nul(b, k);
    lemma_first_nul_unique(b, i, k);
}

/// A text without zero bytes, written into a field with room to spare, reads
/// back as the same text.
pub proof fn lemma_text_field_round_trip(text: Seq<u8>, n: nat)
    requires
        text.len() < n,
        forall|i: int| 0 <= i < text.len() ==> text[i] != 0,
    ensures
        padded(text, n).len() == n,
        nul_terminated(padded(text, n)) == Some(text),
{
    let b = padded(text, n);
    assert(is_first_nul(b, text.len() as int));
    lemma_nul_terminated_at(b, text.len() as int);
    assert(b.take(text.len() as int) =~= text);
}

/// A fixed-capacity text field of `N` bytes, holding a text terminated by a
/// zero byte. What is received is kept as it came; reading the text out is a
/// separate step that may fail.
#[derive(Debug)]
pub struct CharBuf<const N: usize> {
    buffer: Vec<u8>,
}

impl<const N: usize> View for CharBuf<N> {
    type V = Seq<u8>;

    closed spec fn view(&self) -> Seq<u8> {
        self.buffer@
    }
}

impl<const N: usize> Clone for CharBuf<N> {
    fn clone(&self) -> (r: Self)
        ensures
            r@ == self@,
    {
        proof {
            use_type_invariant(self);
        }
        CharBuf { buffer: self.buffer.clone() }
    }
}

impl<const N: usize> CharBuf<N> {
    #[verifier::type_invariant]
    spec fn inv(self) -> bool {
        self.buffer@.len() == N
    }

    /// The field holding `value`, where `value` leaves room for the
    /// terminating zero byte; `None` otherwise (nothing is cut off).
    pub fn new(value: &str) -> (r: Option<Self>)
        ensures
            r is Some <==> value.spec_bytes().len() < N,
            r matches Some(b) ==> b@ == padded(value.spec_bytes(), N as nat),
    {
        let bytes = value.as_bytes();
        if bytes.len() >= N {
            return None;
        }
        let mut buffer: Vec<u8> = Vec::new();
        push_all(&mut buffer, bytes);
        while buffer.len() < N
            invariant
                bytes@.len() <= buffer@.len() <= N,
                buffer@ == padded(bytes@, buffer@.len() as nat),
            decreases N - buffer@.len(),
        {
            buffer.push(0);
            assert(buffer@ =~= padded(bytes@, buffer@.len() as nat));
        }
        Some(CharBuf { buffer })
    }

    /// The field holding as much of `value` as fits before the terminating
    /// zero byte. For values of local origin only.
    pub fn new_truncated(value: &str) -> (r: Self)
        requires
            N >= 1,
            is_char_boundary(
                value.spec_bytes(),
                if value.spec_bytes().len() < N { value.spec_bytes().len() as int } else { N - 1 },
            ),
        ensures
            r@ == padded(
                value.spec_bytes().take(
                    if value.spec_bytes().len() < N { value.spec_bytes().len() as int } else { N - 1 },
                ),
                N as nat,
            ),
    {
        let bytes = value.as_bytes();
        let keep: usize = if bytes.len() < N {
            bytes.len()
        } else {
            N - 1
        };
        let mut buffer: Vec<u8> = Vec::new();
        while buffer.len() < keep
            invariant
                keep <= bytes@.len(),
                keep < N,
                buffer@.len() <= keep,
                buffer@ == bytes@.take(buffer@.len() as int),
            decreases keep - buffer@.len(),
        {
            let i = buffer.len();
            buffer.push(bytes[i]);
            assert(buffer@ =~= bytes@.take(buffer@.len() as int));
        }
        let ghost kept = buffer@;
        while buffer.len() < N
            invariant
                keep <= buffer@.len() <= N,
                kept.len() == keep,
                buffer@ == padded(kept, buffer@.len() as nat),
            decreases N - buffer@.len(),
        {
            buffer.push(0);
            assert(buffer@ =~= padded(kept, buffer@.len() as nat));
        }
        CharBuf { buffer }
    }

    /// The field as it stands in `bytes`, which must hold exactly `N` bytes.
    pub fn decode(bytes: &[u8]) -> (r: Option<Self>)
        ensures
            r is Some <==> bytes@.len() == N,
            r matches Some(b) ==> b@ == bytes@,
    {
        if bytes.len() != N {
            return None;
        }
        let buffer = copy_range(bytes, 0, N);
        assert(buffer@ =~= bytes@);
        Some(CharBuf { buffer })
    }

    /// The field on the wire.
    pub fn encode(&self) -> (r: Vec<u8>)
        ensures
            r@ == self@,
            r@.len() == N,
    {
        proof {
            use_type_invariant(self);
        }
        self.buffer.clone()
    }

    /// The bytes before the terminating zero byte; `None` where the field
    /// holds none.
    pub fn terminated_bytes(&self) -> (r: Option<Vec<u8>>)
        ensures
            r is Some <==> nul_terminated(self@) is Some,
            r matches Some(t) ==> nul_terminated(self@) == Some(t@),
    {
        let b = &self.buffer;
        assert(self@ == b@);
        let mut i: usize = 0;
        while i < b.len()
            invariant
                self@ == b@,
                0 <= i <= b@.len(),
                forall|j: int| 0 <= j < i ==> b@[j] != 0,
            decreases b@.len() - i,
        {
            if b[i] == 0 {
                assert(is_first_nul(b@, i as int));
                proof {
                    lemma_nul_terminated_at(b@, i as int);
                }
                let t = copy_range(b.as_slice(), 0, i);
                assert(t@ =~= b@.take(i as int));
                return Some(t);
            }
            i = i + 1;
        }
        assert(!exists|k: int| is_first_nul(b@, k));
        None
    }

    /// The text that the field holds: the bytes before the terminating zero
    /// byte, which must be UTF-8.
    pub fn text(&self) -> (r: Option<String>)
        ensures
            r is Some <==> field_text(self@) is Some,
            r matches Some(s) ==> field_text(self@) == Some(s@),
    {
        match self.terminated_bytes() {
            Some(t) => string_from_utf8(t),
            None => None,
        }
    }
}

// ---------------------------------------------------------------------------
// Messages

/// Device descriptor as it travels on the wire.
#[derive(Debug, Clone)]
pub struct RawUsbDeviceInfo {
    pub path: CharBuf<SYSFS_PATH_MAX>,
    pub bus_id: CharBuf<SYSFS_BUS_ID_SIZE>,
    pub bus_num: u32,
    pub dev_num: u32,
    pub speed: u32,
    pub id_vendor: u16,
    pub id_product: u16,
    pub bcd_device: u16,
    pub b_device_class: u8,
    pub b_device_sub_class: u8,
    pub b_device_protocol: u8,
    pub b_configuration_value: u8,
    pub b_num_configurations: u8,
    pub b_num_interfaces: u8,
}

impl RawUsbDeviceInfo {
    /// Whether each field holds what stands at its place in `b`.
    pub open spec fn has_fields_of(self, b: Seq<u8>) -> bool {
        &&& self.path@ == b.subrange(0, 256)
        &&& self.bus_id@ == b.subrange(256, 288)
        &&& self.bus_num == read_be32(b, 288)
        &&& self.dev_num == read_be32(b, 292)
        &&& self.speed == read_be32(b, 296)
        &&& self.id_vendor == read_be16(b, 300)
        &&& self.id_product == read_be16(b, 302)
        &&& self.bcd_device == read_be16(b, 304)
        &&& self.b_device_class == b[306]
        &&& self.b_device_sub_class == b[307]
        &&& self.b_device_protocol == b[308]
        &&& self.b_configuration_value == b[309]
        &&& self.b_num_configurations == b[310]
        &&& self.b_num_interfaces == b[311]
    }

    /// The descriptor on the wire.
    pub open spec fn wire_bytes(self) -> Seq<u8> {
        self.path@ + self.bus_id@ + be32(self.bus_num) + be32(self.dev_num) + be32(self.speed)
            + be16(self.id_vendor) + be16(self.id_product) + be16(self.bcd_device) + seq![
            self.b_device_class,
            self.b_device_sub_class,
            self.b_device_protocol,
            self.b_configuration_value,
            self.b_num_configurations,
            self.b_num_interfaces,
        ]
    }

    pub fn encode(&self) -> (r: Vec<u8>)
        ensures
            r@ == self.wire_bytes(),
            r@.len() == USB_DEVICE_INFO_LEN,
    {
        let mut out = self.path.encode();
        let bus_id = self.bus_id.encode();
        push_all(&mut out, bus_id.as_slice());
        push_be32(&mut out, self.bus_num);
        push_be32(&mut out, self.dev_num);
        push_be32(&mut out, self.speed);
        push_be16(&mut out, self.id_vendor);
        push_be16(&mut out, self.id_product);
        push_be16(&mut out, self.bcd_device);
        out.push(self.b_device_class);
        out.push(self.b_device_sub_class);
        out.push(self.b_device_protocol);
        out.push(self.b_configuration_value);
        out.push(self.b_num_configurations);
        out.push(self.b_num_interfaces);
        assert(out@ =~= self.wire_bytes());
        out
    }

    /// Reads a descriptor from exactly its wire length of bytes.
    pub fn decode(bytes: &[u8]) -> (r: Option<Self>)
        ensures
            r is Some <==> bytes@.len() == USB_DEVICE_INFO_LEN,
            r matches Some(d) ==> d.wire_bytes() == bytes@ && d.has_fields_of(bytes@),
    {
        if bytes.len() != USB_DEVICE_INFO_LEN {
            return None;
        }
        let path_bytes = copy_range(bytes, 0, SYSFS_PATH_MAX);
        let bus_id_bytes = copy_range(bytes, 256, SYSFS_BUS_ID_SIZE);
        let path = match CharBuf::<SYSFS_PATH_MAX>::decode(path_bytes.as_slice()) {
            Some(p) => p,
            None => return None,
        };
        let bus_id = match CharBuf::<SYSFS_BUS_ID_SIZE>::decode(bus_id_bytes.as_slice()) {
            Some(b) => b,
            None => return None,
        };
        let d = RawUsbDeviceInfo {
            path,
            bus_id,
            bus_num: get_be32(bytes, 288),
            dev_num: get_be32(bytes, 292),
            speed: get_be32(bytes, 296),
            id_vendor: get_be16(bytes, 300),
            id_product: get_be16(bytes, 302),
            bcd_device: get_be16(bytes, 304),
            b_device_class: bytes[306],
            b_device_sub_class: bytes[307],
            b_device_protocol: bytes[308],
            b_configuration_value: bytes[309],
            b_num_configurations: bytes[310],
            b_num_interfaces: bytes[311],
        };
        assert(d.wire_bytes() =~= bytes@);
        Some(d)
    }
}

/// Interface descriptor: class, subclass and protocol, followed on the wire
/// by one reserved byte that is ignored when read and zero when written.
#[derive(Debug, Clone, Copy, PartialEq, Eq, Structural)]
pub struct UsbInterfaceInfo {
    pub b_interface_class: u8,
    pub b_interface_sub_class: u8,
    pub b_interface_protocol: u8,
}

impl UsbInterfaceInfo {
    pub open spec fn wire_bytes(self) -> Seq<u8> {
        seq![self.b_interface_class, self.b_interface_sub_class, self.b_interface_protocol, 0u8]
    }

    pub fn encode(&self) -> (r: Vec<u8>)
        ensures
            r@ == self.wire_bytes(),
    {
        let mut out: Vec<u8> = Vec::new();
        out.push(self.b_interface_class);
        out.push(self.b_interface_sub_class);
        out.push(self.b_interface_protocol);
        out.push(0);
        assert(out@ =~= self.wire_bytes());
        out
    }

    pub fn decode(bytes: &[u8]) -> (r: Option<Self>)
        ensures
            r is Some <==> bytes@.len() == USB_INTERFACE_INFO_LEN,
            r matches Some(i) ==> i.b_interface_class == bytes@[0] && i.b_interface_sub_class
                == bytes@[1] && i.b_interface_protocol == bytes@[2],
    {
        if bytes.len() != USB_INTERFACE_INFO_LEN {
            return None;
        }
        Some(
            UsbInterfaceInfo {
                b_interface_class: bytes[0],
                b_interface_sub_class: bytes[1],
                b_interface_protocol: bytes[2],
            },
        )
    }
}

/// Reply to a device list request: the number of device records that follow.
#[derive(Debug, Clone, Copy, PartialEq, Eq, Structural)]
pub struct ListDevicesReply {
    pub num_devices: u32,
}

impl ListDevicesReply {
    pub fn encode(&self) -> (r: Vec<u8>)
        ensures
            r@ == be32(self.num_devices),
    {
        let mut out: Vec<u8> = Vec::new();
        push_be32(&mut out, self.num_devices);
        out
    }

    pub fn decode(bytes: &[u8]) -> (r: Option<Self>)
        ensures
            r is Some <==> bytes@.len() == LIST_DEVICES_REPLY_LEN,
            r matches Some(l) ==> be32(l.num_devices) == bytes@,
    {
        if bytes.len() != LIST_DEVICES_REPLY_LEN {
            return None;
        }
        let num_devices = get_be32(bytes, 0);
        assert(bytes@.subrange(0, 4) =~= bytes@);
        Some(ListDevicesReply { num_devices })
    }
}

/// Request to import the device with the given bus ID.
#[derive(Debug, Clone)]
pub struct ImportRequest {
    pub bus_id: CharBuf<SYSFS_BUS_ID_SIZE>,
}

impl ImportRequest {
    pub fn encode(&self) -> (r: Vec<u8>)
        ensures
            r@ == self.bus_id@,
    {
        self.bus_id.encode()
    }

    pub fn decode(bytes: &[u8]) -> (r: Option<Self>)
        ensures
            r is Some <==> bytes@.len() == SYSFS_BUS_ID_SIZE,
            r matches Some(q) ==> q.bus_id@ == bytes@,
    {
        match CharBuf::<SYSFS_BUS_ID_SIZE>::decode(bytes) {
            Some(bus_id) => Some(ImportRequest { bus_id }),
            None => None,
        }
    }
}

/// Reply to an import request: the descriptor of the imported device.
#[derive(Debug, Clone)]
pub struct ImportReply {
    pub usb_device: RawUsbDeviceInfo,
}

impl ImportReply {
    pub fn encode(&self) -> (r: Vec<u8>)
        ensures
            r@ == self.usb_device.wire_bytes(),
    {
        self.usb_device.encode()
    }

    pub fn decode(bytes: &[u8]) -> (r: Option<Self>)
        ensures
            r is Some <==> bytes@.len() == USB_DEVICE_INFO_LEN,
            r matches Some(q) ==> q.usb_device.wire_bytes() == bytes@ && q.usb_device.has_fields_of(
                bytes@,
            ),
    {
        match RawUsbDeviceInfo::decode(bytes) {
            Some(usb_device) => Some(ImportReply { usb_device }),
            None => None,
        }
    }
}

} // verus!
