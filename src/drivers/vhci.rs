//! The virtual host controller (VHCI): a snapshot of the kernel's port
//! table, read from its `status` attributes, the choice of a free port, and
//! the commands that attach and detach a device.
use vstd::prelude::*;
use vstd::utf8::*;

use crate::text::{
    bytes_equal, lines, number_of, parse_number, push_decimal, split_lines, split_tokens,
    is_utf8, string_from_utf8, to_vec, tokens, views, decimal, ascii_chars, string_from_ascii,
    lemma_decimal_is_digits,
};
use crate::{UsbDeviceInfo, UsbSpeed};

verus! {

/// Failures of the controller driver.
#[derive(Debug, Clone, PartialEq, Eq)]
pub enum VhciHcdError {
    CreatingUdevContext(String),
    VhciDeviceNotFound,
    VhciDeviceUdev(String),
    VhciDeviceParentNotFound,
    VhciDeviceMissingUdevAttribute(String),
    VhciDeviceUtf8UdevAttribute(String),
    VhciDeviceParsingUdevAttribute(String),
    SysfsIo(String),
    SysfsPermissionDenied,
    VhciNoAvailablePorts,
    VhciNoAvailableControllers,
    EnumeratingControllers(String),
    /// The status table does not fit the port count read at open time.
    ConflictingStatusData,
    NoFreePorts,
    QueryingLocalUsbDevice { bus_id: String },
    UsbDeviceMissingUdevAttribute { bus_id: String, attribute: String },
    UsbDeviceUtf8UdevAttribute { bus_id: String, attribute: String },
    UsbDeviceParsingUdevAttribute { bus_id: String, attribute: String },
}

/// Speed class of a root hub port.
#[derive(Debug, Clone, Copy, PartialEq, Eq, Structural)]
pub enum HubSpeed {
    High,
    Super,
}

/// State of a port as the kernel reports it (codes 4 to 7).
#[derive(Debug, Clone, Copy, PartialEq, Eq, Structural)]
pub enum VhciDeviceStatus {
    /// No remote device is connected.
    NotConnected,
    /// In use, but the USB address is not assigned yet.
    NotAssigned,
    Used,
    Error,
}

/// The status that a kernel status code names.
pub open spec fn status_of_code(code: nat) -> Option<VhciDeviceStatus> {
    if code == 4 {
        Some(VhciDeviceStatus::NotConnected)
    } else if code == 5 {
        Some(VhciDeviceStatus::NotAssigned)
    } else if code == 6 {
        Some(VhciDeviceStatus::Used)
    } else if code == 7 {
        Some(VhciDeviceStatus::Error)
    } else {
        None
    }
}

/// A device imported into a port.
#[derive(Debug)]
pub struct VhciImportedDevice {
    /// Bus and device number of the device on the remote host.
    pub remote_device_id: u32,
    /// The connection handed to the kernel at attach time.
    pub socket_fd: u32,
    /// The local device that the controller created for it.
    pub device: UsbDeviceInfo,
}

/// What a port holds.
#[derive(Debug)]
pub enum VhciDeviceState {
    NotConnected,
    NotAssigned,
    Used(VhciImportedDevice),
    Error(VhciImportedDevice),
}

/// One port of the controller's table.
#[derive(Debug)]
pub struct VhciDevice {
    pub hub_speed: HubSpeed,
    pub port: u16,
    pub state: VhciDeviceState,
}

impl Clone for VhciImportedDevice {
    fn clone(&self) -> (r: Self)
        ensures
            r == *self,
    {
        VhciImportedDevice {
            remote_device_id: self.remote_device_id,
            socket_fd: self.socket_fd,
            device: self.device.clone(),
        }
    }
}

impl Clone for VhciDeviceState {
    fn clone(&self) -> (r: Self)
        ensures
            r == *self,
    {
        match self {
            VhciDeviceState::NotConnected => VhciDeviceState::NotConnected,
            VhciDeviceState::NotAssigned => VhciDeviceState::NotAssigned,
            VhciDeviceState::Used(d) => VhciDeviceState::Used(d.clone()),
            VhciDeviceState::Error(d) => VhciDeviceState::Error(d.clone()),
        }
    }
}

impl Clone for VhciDevice {
    fn clone(&self) -> (r: Self)
        ensures
            r == *self,
    {
        VhciDevice { hub_speed: self.hub_speed, port: self.port, state: self.state.clone() }
    }
}

impl VhciDevice {
    pub open spec fn spec_remote_device_id(&self) -> u32 {
        match self.state {
            VhciDeviceState::Used(d) => d.remote_device_id,
            VhciDeviceState::Error(d) => d.remote_device_id,
            _ => 0,
        }
    }

    pub open spec fn spec_status(&self) -> VhciDeviceStatus {
        match self.state {
            VhciDeviceState::NotConnected => VhciDeviceStatus::NotConnected,
            VhciDeviceState::NotAssigned => VhciDeviceStatus::NotAssigned,
            VhciDeviceState::Used(_) => VhciDeviceStatus::Used,
            VhciDeviceState::Error(_) => VhciDeviceStatus::Error,
        }
    }

    fn remote_device_id(&self) -> (r: u32)
        ensures
            r == self.spec_remote_device_id(),
    {
        match &self.state {
            VhciDeviceState::Used(d) => d.remote_device_id,
            VhciDeviceState::Error(d) => d.remote_device_id,
            _ => 0,
        }
    }

    /// Bus number of the device on the remote host; zero for a free port.
    pub fn remote_bus_num(&self) -> (r: u16)
        ensures
            r == (self.spec_remote_device_id() >> 16u32) as u16,
    {
        (self.remote_device_id() >> 16) as u16
    }

    /// Device number of the device on the remote host; zero for a free port.
    pub fn remote_dev_num(&self) -> (r: u16)
        ensures
            r == (self.spec_remote_device_id() & 0xffffu32) as u16,
    {
        (self.remote_device_id() & 0xffff) as u16
    }

    pub fn status(&self) -> (r: VhciDeviceStatus)
        ensures
            r == self.spec_status(),
    {
        match &self.state {
            VhciDeviceState::NotConnected => VhciDeviceStatus::NotConnected,
            VhciDeviceState::NotAssigned => VhciDeviceStatus::NotAssigned,
            VhciDeviceState::Used(_) => VhciDeviceStatus::Used,
            VhciDeviceState::Error(_) => VhciDeviceStatus::Error,
        }
    }

    /// The device imported into this port, if any.
    pub fn connected_device(&self) -> (r: Option<&VhciImportedDevice>)
        ensures
            r == (match self.state {
                VhciDeviceState::Used(d) => Some(&d),
                VhciDeviceState::Error(d) => Some(&d),
                _ => None,
            }),
    {
        match &self.state {
            VhciDeviceState::Used(d) => Some(d),
            VhciDeviceState::Error(d) => Some(d),
            _ => None,
        }
    }
}

// ---------------------------------------------------------------------------
// The status table grammar

/// One line of a status table, read.
pub ghost struct StatusLineView {
    pub hub: HubSpeed,
    pub port: u16,
    pub status: u32,
    pub speed: u8,
    pub device_id: u32,
    pub socket_fd: u32,
    pub local_bus_id: Seq<u8>,
}

/// One line of a status table: hub tag, port, status code, speed, device ID
/// (hexadecimal), socket and local bus ID.
#[derive(Debug)]
pub struct VhciHcdStatusLine {
    pub hub: HubSpeed,
    pub port: u16,
    pub status: u32,
    pub speed: u8,
    pub device_id: u32,
    pub socket_fd: u32,
    pub local_bus_id: Vec<u8>,
}

impl View for VhciHcdStatusLine {
    type V = StatusLineView;

    open spec fn view(&self) -> StatusLineView {
        StatusLineView {
            hub: self.hub,
            port: self.port,
            status: self.status,
            speed: self.speed,
            device_id: self.device_id,
            socket_fd: self.socket_fd,
            local_bus_id: self.local_bus_id@,
        }
    }
}

/// The hub speed that a hub tag names: `hs` or `ss`.
pub open spec fn hub_of_tag(t: Seq<u8>) -> Option<HubSpeed> {
    if t == seq![0x68u8, 0x73] {
        Some(HubSpeed::High)
    } else if t == seq![0x73u8, 0x73] {
        Some(HubSpeed::Super)
    } else {
        None
    }
}

/// A status line read against the grammar: seven blank-separated tokens,
/// the first a hub tag. Whether the status code names a state is checked
/// later, after the port number.
pub open spec fn parse_status_line(line: Seq<u8>) -> Option<StatusLineView> {
    let t = tokens(line);
    if t.len() == 7 && hub_of_tag(t[0]) is Some && number_of(t[1], false, u16::MAX as nat) is Some
        && number_of(t[2], false, u32::MAX as nat) is Some && number_of(t[3], false, u8::MAX as nat)
        is Some && number_of(
        t[4],
        true,
        u32::MAX as nat,
    ) is Some && number_of(t[5], false, u32::MAX as nat) is Some && valid_utf8(t[6]) {
        Some(
            StatusLineView {
                hub: hub_of_tag(t[0])->0,
                port: number_of(t[1], false, u16::MAX as nat)->0 as u16,
                status: number_of(t[2], false, u32::MAX as nat)->0 as u32,
                speed: number_of(t[3], false, u8::MAX as nat)->0 as u8,
                device_id: number_of(t[4], true, u32::MAX as nat)->0 as u32,
                socket_fd: number_of(t[5], false, u32::MAX as nat)->0 as u32,
                local_bus_id: t[6],
            },
        )
    } else {
        None
    }
}

fn hub_tag(t: &[u8]) -> (r: Option<HubSpeed>)
    ensures
        r == hub_of_tag(t@),
{
    if t.len() == 2 && t[0] == 0x68 && t[1] == 0x73 {
        assert(t@ =~= seq![0x68u8, 0x73]);
        Some(HubSpeed::High)
    } else if t.len() == 2 && t[0] == 0x73 && t[1] == 0x73 {
        assert(t@ =~= seq![0x73u8, 0x73]);
        Some(HubSpeed::Super)
    } else {
        None
    }
}

fn status_code(code: u64) -> (r: Option<VhciDeviceStatus>)
    ensures
        r == status_of_code(code as nat),
{
    if code == 4 {
        Some(VhciDeviceStatus::NotConnected)
    } else if code == 5 {
        Some(VhciDeviceStatus::NotAssigned)
    } else if code == 6 {
        Some(VhciDeviceStatus::Used)
    } else if code == 7 {
        Some(VhciDeviceStatus::Error)
    } else {
        None
    }
}

impl VhciHcdStatusLine {
    /// Reads one line of a status table.
    pub fn parse(line: &[u8]) -> (r: Option<Self>)
        ensures
            r is Some <==> parse_status_line(line@) is Some,
            r matches Some(l) ==> parse_status_line(line@) == Some(l@),
    {
        let t = split_tokens(line);
        if t.len() != 7 {
            return None;
        }
        assert(t@[0]@ == tokens(line@)[0]);
        assert(t@[1]@ == tokens(line@)[1]);
        assert(t@[2]@ == tokens(line@)[2]);
        assert(t@[3]@ == tokens(line@)[3]);
        assert(t@[4]@ == tokens(line@)[4]);
        assert(t@[5]@ == tokens(line@)[5]);
        assert(t@[6]@ == tokens(line@)[6]);
        let hub = match hub_tag(t[0].as_slice()) {
            Some(h) => h,
            None => return None,
        };
        let port = match parse_number(t[1].as_slice(), false, 0xffff) {
            Some(v) => v as u16,
            None => return None,
        };
        let status = match parse_number(t[2].as_slice(), false, 0xffff_ffff) {
            Some(v) => v as u32,
            None => return None,
        };
        let speed = match parse_number(t[3].as_slice(), false, 0xff) {
            Some(v) => v as u8,
            None => return None,
        };
        let device_id = match parse_number(t[4].as_slice(), true, 0xffff_ffff) {
            Some(v) => v as u32,
            None => return None,
        };
        let socket_fd = match parse_number(t[5].as_slice(), false, 0xffff_ffff) {
            Some(v) => v as u32,
            None => return None,
        };
        if !is_utf8(t[6].as_slice()) {
            return None;
        }
        let local_bus_id = to_vec(t[6].as_slice());
        Some(VhciHcdStatusLine { hub, port, status, speed, device_id, socket_fd, local_bus_id })
    }
}

/// The data lines of one controller's status text: all lines but the header.
pub open spec fn data_lines(text: Seq<u8>) -> Seq<Seq<u8>> {
    if lines(text).len() == 0 {
        seq![]
    } else {
        lines(text).drop_first()
    }
}

/// The data lines of all controllers, in scan order.
pub open spec fn all_data_lines(texts: Seq<Seq<u8>>) -> Seq<Seq<u8>>
    decreases texts.len(),
{
    if texts.len() == 0 {
        seq![]
    } else {
        all_data_lines(texts.drop_last()) + data_lines(texts.last())
    }
}

/// Whether `k` is the first of `devices` whose bus ID is `bus_id`.
pub open spec fn is_first_match(devices: Seq<UsbDeviceInfo>, bus_id: Seq<u8>, k: int) -> bool {
    &&& 0 <= k < devices.len()
    &&& encode_utf8(devices[k].bus_id@) == bus_id
    &&& forall|j: int| 0 <= j < k ==> encode_utf8(#[trigger] devices[j].bus_id@) != bus_id
}

/// The first of `devices` whose bus ID is `bus_id`.
pub open spec fn find_device(devices: Seq<UsbDeviceInfo>, bus_id: Seq<u8>) -> Option<UsbDeviceInfo> {
    if exists|k: int| is_first_match(devices, bus_id, k) {
        Some(devices[choose|k: int| is_first_match(devices, bus_id, k)])
    } else {
        None
    }
}

/// The port that a read status line with state `st` describes, given the
/// local devices; `None` where an occupied port's local device is not among
/// them.
pub open spec fn port_of_line(l: StatusLineView, st: VhciDeviceStatus, devices: Seq<UsbDeviceInfo>) -> Option<VhciDevice> {
    match st {
        VhciDeviceStatus::NotConnected => Some(
            VhciDevice { hub_speed: l.hub, port: l.port, state: VhciDeviceState::NotConnected },
        ),
        VhciDeviceStatus::NotAssigned => Some(
            VhciDevice { hub_speed: l.hub, port: l.port, state: VhciDeviceState::NotAssigned },
        ),
        VhciDeviceStatus::Used => match find_device(devices, l.local_bus_id) {
            Some(d) => Some(
                VhciDevice {
                    hub_speed: l.hub,
                    port: l.port,
                    state: VhciDeviceState::Used(
                        VhciImportedDevice {
                            remote_device_id: l.device_id,
                            socket_fd: l.socket_fd,
                            device: d,
                        },
                    ),
                },
            ),
            None => None,
        },
        VhciDeviceStatus::Error => match find_device(devices, l.local_bus_id) {
            Some(d) => Some(
                VhciDevice {
                    hub_speed: l.hub,
                    port: l.port,
                    state: VhciDeviceState::Error(
                        VhciImportedDevice {
                            remote_device_id: l.device_id,
                            socket_fd: l.socket_fd,
                            device: d,
                        },
                    ),
                },
            ),
            None => None,
        },
    }
}

/// The port that a status line gives, where it is well formed, names a port
/// inside the table, has a known status code and, if occupied, a known
/// local device.
pub open spec fn slot_of_line(line: Seq<u8>, num_ports: u32, devices: Seq<UsbDeviceInfo>) -> Option<
    VhciDevice,
> {
    match parse_status_line(line) {
        Some(l) => if l.port < num_ports {
            match status_of_code(l.status as nat) {
                Some(st) => port_of_line(l, st, devices),
                None => None,
            }
        } else {
            None
        },
        None => None,
    }
}

/// The bytes of the name of controller `c`'s status attribute: `status` for
/// the first controller, `status.<c>` for the others.
pub open spec fn status_attribute_bytes(c: nat) -> Seq<u8> {
    let base = seq![0x73u8, 0x74, 0x61, 0x74, 0x75, 0x73];
    if c == 0 {
        base
    } else {
        base + seq![0x2eu8] + decimal(c)
    }
}

/// The name of controller `c`'s status attribute.
pub open spec fn status_attribute(c: nat) -> Seq<char> {
    ascii_chars(status_attribute_bytes(c))
}

/// The name of controller `c`'s status attribute.
pub fn status_attribute_name(c: usize) -> (r: String)
    ensures
        r@ == status_attribute(c as nat),
{
    let mut b: Vec<u8> = vec![0x73, 0x74, 0x61, 0x74, 0x75, 0x73];
    if c > 0 {
        b.push(0x2e);
        push_decimal(&mut b, c as u64);
    }
    proof {
        lemma_decimal_is_digits(c as nat);
        assert(b@ =~= status_attribute_bytes(c as nat));
        assert forall|i: int| 0 <= i < b@.len() implies b@[i] < 0x80 by {
            if c > 0 && i >= 7 {
                assert(b@[i] == decimal(c as nat)[i - 7]);
            }
        }
    }
    string_from_ascii(b)
}

/// For each data line of all controllers, in scan order, the index of the
/// controller it came from.
pub open spec fn all_data_controllers(texts: Seq<Seq<u8>>) -> Seq<nat>
    decreases texts.len(),
{
    if texts.len() == 0 {
        seq![]
    } else {
        all_data_controllers(texts.drop_last()) + Seq::new(
            data_lines(texts.last()).len(),
            |j: int| (texts.len() - 1) as nat,
        )
    }
}

/// Whether `e` reports that the status attribute of controller `c` could
/// not be parsed.
pub open spec fn reports_parse_failure(e: VhciHcdError, c: nat) -> bool {
    e matches VhciHcdError::VhciDeviceParsingUdevAttribute(a) && a@ == status_attribute(c)
}

/// The error that a status line of controller `c` gives: a parse failure of
/// the controller's attribute for a line off the grammar, an unknown hub tag
/// or an unknown status code; conflicting data for a port beyond the table;
/// a failed query for an occupied port whose local device is unknown.
pub open spec fn slot_error(
    line: Seq<u8>,
    c: nat,
    num_ports: u32,
    devices: Seq<UsbDeviceInfo>,
    e: VhciHcdError,
) -> bool {
    match parse_status_line(line) {
        None => reports_parse_failure(e, c),
        Some(l) => if l.port >= num_ports {
            e == VhciHcdError::ConflictingStatusData
        } else {
            match status_of_code(l.status as nat) {
                None => reports_parse_failure(e, c),
                Some(st) => {
                    &&& port_of_line(l, st, devices) is None
                    &&& e matches VhciHcdError::QueryingLocalUsbDevice { bus_id }
                    &&& bus_id@ == decode_utf8(l.local_bus_id)
                },
            }
        },
    }
}

/// Whether the status texts of all controllers describe a table of
/// `num_ports` ports whose every line is usable.
pub open spec fn table_ok(
    num_ports: u32,
    num_controllers: u32,
    texts: Seq<Seq<u8>>,
    devices: Seq<UsbDeviceInfo>,
) -> bool {
    &&& texts.len() == num_controllers
    &&& all_data_lines(texts).len() == num_ports
    &&& forall|i: int|
        0 <= i < num_ports ==> slot_of_line(#[trigger] all_data_lines(texts)[i], num_ports, devices)
            is Some
}

/// The table that the status texts describe, where `table_ok` holds.
pub open spec fn table_of(texts: Seq<Seq<u8>>, num_ports: u32, devices: Seq<UsbDeviceInfo>) -> Seq<
    VhciDevice,
> {
    Seq::new(
        num_ports as nat,
        |i: int| slot_of_line(all_data_lines(texts)[i], num_ports, devices)->0,
    )
}

/// The number of data lines that a scan reads before it must stop: all of
/// them, but never more than the table has ports.
pub open spec fn lines_scanned(texts: Seq<Seq<u8>>, num_ports: u32) -> int {
    if all_data_lines(texts).len() < num_ports {
        all_data_lines(texts).len() as int
    } else {
        num_ports as int
    }
}

/// The error that a failed scan gives. Lines are read in scan order: the
/// first unusable line among those within the port count gives its error;
/// where there is none, a table of the wrong size gives conflicting data.
pub open spec fn scan_error(
    num_ports: u32,
    num_controllers: u32,
    texts: Seq<Seq<u8>>,
    devices: Seq<UsbDeviceInfo>,
    e: VhciHcdError,
) -> bool {
    let lines = all_data_lines(texts);
    let m = lines_scanned(texts, num_ports);
    if texts.len() != num_controllers {
        e == VhciHcdError::ConflictingStatusData
    } else {
        ||| exists|i: int|
            0 <= i < m && (forall|j: int|
                0 <= j < i ==> slot_of_line(#[trigger] lines[j], num_ports, devices) is Some)
                && slot_error(lines[i], all_data_controllers(texts)[i], num_ports, devices, e)
        ||| (forall|j: int| 0 <= j < m ==> slot_of_line(#[trigger] lines[j], num_ports, devices) is Some)
            && lines.len() != num_ports && e == VhciHcdError::ConflictingStatusData
    }
}

fn find_local_device(devices: &Vec<UsbDeviceInfo>, bus_id: &[u8]) -> (r: Option<UsbDeviceInfo>)
    ensures
        r == find_device(devices@, bus_id@),
{
    let mut k: usize = 0;
    while k < devices.len()
        invariant
            0 <= k <= devices@.len(),
            forall|j: int| 0 <= j < k ==> encode_utf8(#[trigger] devices@[j].bus_id@) != bus_id@,
        decreases devices@.len() - k,
    {
        let b = devices[k].bus_id.as_str().as_bytes();
        if bytes_equal(b, bus_id) {
            assert(is_first_match(devices@, bus_id@, k as int));
            let ghost c = choose|c: int| is_first_match(devices@, bus_id@, c);
            assert(c == k) by {
                if c < k {
                    assert(encode_utf8(devices@[c].bus_id@) != bus_id@);
                } else if c > k {
                    assert(encode_utf8(devices@[k as int].bus_id@) != bus_id@);
                }
            }
            return Some(devices[k].clone());
        }
        k = k + 1;
    }
    assert(!exists|c: int| is_first_match(devices@, bus_id@, c));
    None
}

pub open spec fn nats(v: Seq<usize>) -> Seq<nat> {
    v.map_values(|x: usize| x as nat)
}

fn collect_data_lines(texts: &Vec<Vec<u8>>) -> (r: (Vec<Vec<u8>>, Vec<usize>))
    ensures
        views(r.0@) == all_data_lines(views(texts@)),
        nats(r.1@) == all_data_controllers(views(texts@)),
{
    let mut all: Vec<Vec<u8>> = Vec::new();
    let mut ctrls: Vec<usize> = Vec::new();
    let mut c: usize = 0;
    while c < texts.len()
        invariant
            0 <= c <= texts@.len(),
            views(all@) == all_data_lines(views(texts@).take(c as int)),
            nats(ctrls@) == all_data_controllers(views(texts@).take(c as int)),
        decreases texts@.len() - c,
    {
        let ls = split_lines(texts[c].as_slice());
        assert(views(texts@).take(c + 1).drop_last() =~= views(texts@).take(c as int));
        assert(views(texts@).take(c + 1).last() == texts@[c as int]@);
        let ghost before = views(all@);
        let ghost before_c = nats(ctrls@);
        let start: usize = if ls.len() == 0 {
            0
        } else {
            1
        };
        let mut k: usize = start;
        assert(views(ls@).subrange(start as int, start as int) =~= Seq::<Seq<u8>>::empty());
        assert(before + Seq::<Seq<u8>>::empty() =~= before);
        assert(before_c + Seq::new(0, |j: int| c as nat) =~= before_c);
        while k < ls.len()
            invariant
                start <= k <= ls@.len(),
                start == (if ls@.len() == 0 {
                    0usize
                } else {
                    1usize
                }),
                views(all@) == before + views(ls@).subrange(start as int, k as int),
                nats(ctrls@) == before_c + Seq::new((k - start) as nat, |j: int| c as nat),
            decreases ls@.len() - k,
        {
            let line = to_vec(ls[k].as_slice());
            let ghost prev = all@;
            let ghost prev_c = ctrls@;
            all.push(line);
            ctrls.push(c);
            assert(views(all@) =~= views(prev).push(ls@[k as int]@));
            assert(views(ls@).subrange(start as int, k + 1) =~= views(ls@).subrange(
                start as int,
                k as int,
            ).push(ls@[k as int]@));
            assert(views(all@) =~= before + views(ls@).subrange(start as int, k + 1));
            assert(nats(ctrls@) =~= nats(prev_c).push(c as nat));
            assert(nats(ctrls@) =~= before_c + Seq::new((k + 1 - start) as nat, |j: int| c as nat));
            k = k + 1;
        }
        proof {
            let dl = data_lines(texts@[c as int]@);
            if ls@.len() == 0 {
                assert(views(all@) =~= before + dl);
            } else {
                assert(views(ls@).subrange(1, ls@.len() as int) =~= views(ls@).drop_first());
                assert(views(all@) =~= before + dl);
            }
            assert(dl.len() == ls@.len() - start);
            assert(views(texts@).take(c + 1).len() - 1 == c);
            assert(nats(ctrls@) =~= all_data_controllers(views(texts@).take(c + 1)));
        }
        c = c + 1;
    }
    assert(views(texts@).take(texts@.len() as int) =~= views(texts@));
    (all, ctrls)
}

/// The local bus IDs named by the well-formed lines of occupied ports, in
/// scan order.
pub open spec fn occupied_bus_ids(lines: Seq<Seq<u8>>) -> Seq<Seq<u8>>
    decreases lines.len(),
{
    if lines.len() == 0 {
        seq![]
    } else {
        let prev = occupied_bus_ids(lines.drop_last());
        match parse_status_line(lines.last()) {
            Some(l) => if l.status == 6 || l.status == 7 {
                prev.push(l.local_bus_id)
            } else {
                prev
            },
            None => prev,
        }
    }
}

/// The local bus IDs of the occupied ports that the status texts list: the
/// devices whose descriptors a snapshot needs.
pub fn occupied_local_bus_ids(status: &Vec<Vec<u8>>) -> (r: Vec<Vec<u8>>)
    ensures
        views(r@) == occupied_bus_ids(all_data_lines(views(status@))),
{
    let (all, _) = collect_data_lines(status);
    let ghost lv = views(all@);
    let mut r: Vec<Vec<u8>> = Vec::new();
    let mut i: usize = 0;
    while i < all.len()
        invariant
            lv == views(all@),
            0 <= i <= all@.len(),
            views(r@) == occupied_bus_ids(lv.take(i as int)),
        decreases all@.len() - i,
    {
        assert(lv.take(i + 1).drop_last() =~= lv.take(i as int));
        assert(lv.take(i + 1).last() == all@[i as int]@);
        match VhciHcdStatusLine::parse(all[i].as_slice()) {
            Some(l) => {
                if l.status == 6 || l.status == 7 {
                    let ghost prev = r@;
                    r.push(l.local_bus_id);
                    assert(views(r@) =~= views(prev).push(l@.local_bus_id));
                }
            },
            None => {},
        }
        i = i + 1;
    }
    assert(lv.take(all@.len() as int) =~= lv);
    r
}

fn scan_status(
    num_ports: u32,
    num_controllers: u32,
    texts: &Vec<Vec<u8>>,
    devices: &Vec<UsbDeviceInfo>,
) -> (r: Result<Vec<VhciDevice>, VhciHcdError>)
    ensures
        r is Ok <==> table_ok(num_ports, num_controllers, views(texts@), devices@),
        r matches Ok(t) ==> t@ == table_of(views(texts@), num_ports, devices@),
        r matches Err(e) ==> scan_error(num_ports, num_controllers, views(texts@), devices@, e),
{
    let ghost tv = views(texts@);
    if texts.len() != num_controllers as usize {
        return Err(VhciHcdError::ConflictingStatusData);
    }
    let (all, ctrls) = collect_data_lines(texts);
    let ghost lines_v = all_data_lines(tv);
    let ghost ctrls_v = all_data_controllers(tv);
    let m: usize = if all.len() < num_ports as usize {
        all.len()
    } else {
        num_ports as usize
    };
    assert(m as int == lines_scanned(tv, num_ports));
    let mut table: Vec<VhciDevice> = Vec::new();
    let mut i: usize = 0;
    while i < m
        invariant
            views(all@) == lines_v,
            lines_v == all_data_lines(tv),
            nats(ctrls@) == ctrls_v,
            ctrls_v == all_data_controllers(tv),
            tv == views(texts@),
            m as int == lines_scanned(tv, num_ports),
            m <= all@.len(),
            m <= num_ports,
            texts@.len() == num_controllers,
            0 <= i <= m,
            table@.len() == i,
            forall|j: int| 0 <= j < i ==> slot_of_line(#[trigger] lines_v[j], num_ports, devices@) is Some,
            forall|j: int| 0 <= j < i ==> table@[j] == slot_of_line(#[trigger] lines_v[j], num_ports, devices@)->0,
        decreases m - i,
    {
        assert(all@[i as int]@ == lines_v[i as int]);
        proof {
            lemma_controllers_len(tv);
        }
        assert(ctrls@[i as int] as nat == ctrls_v[i as int]);
        let line = match VhciHcdStatusLine::parse(all[i].as_slice()) {
            Some(l) => l,
            None => {
                let e = VhciHcdError::VhciDeviceParsingUdevAttribute(status_attribute_name(ctrls[i]));
                assert(slot_error(lines_v[i as int], ctrls_v[i as int], num_ports, devices@, e));
                return Err(e);
            },
        };
        if line.port as u32 >= num_ports {
            assert(slot_error(lines_v[i as int], ctrls_v[i as int], num_ports, devices@, VhciHcdError::ConflictingStatusData));
            return Err(VhciHcdError::ConflictingStatusData);
        }
        let status = match status_code(line.status as u64) {
            Some(s) => s,
            None => {
                let e = VhciHcdError::VhciDeviceParsingUdevAttribute(status_attribute_name(ctrls[i]));
                assert(slot_error(lines_v[i as int], ctrls_v[i as int], num_ports, devices@, e));
                return Err(e);
            },
        };
        let state = match status {
            VhciDeviceStatus::NotConnected => VhciDeviceState::NotConnected,
            VhciDeviceStatus::NotAssigned => VhciDeviceState::NotAssigned,
            s => {
                match find_local_device(devices, line.local_bus_id.as_slice()) {
                    Some(device) => {
                        let d = VhciImportedDevice {
                            remote_device_id: line.device_id,
                            socket_fd: line.socket_fd,
                            device,
                        };
                        if s == VhciDeviceStatus::Used {
                            VhciDeviceState::Used(d)
                        } else {
                            VhciDeviceState::Error(d)
                        }
                    },
                    None => {
                        let bus_id = match string_from_utf8(to_vec(line.local_bus_id.as_slice())) {
                            Some(b) => b,
                            None => return Err(VhciHcdError::ConflictingStatusData),
                        };
                        let e = VhciHcdError::QueryingLocalUsbDevice { bus_id };
                        assert(slot_error(lines_v[i as int], ctrls_v[i as int], num_ports, devices@, e));
                        return Err(e);
                    },
                }
            },
        };
        let slot = VhciDevice { hub_speed: line.hub, port: line.port, state };
        assert(slot == slot_of_line(lines_v[i as int], num_ports, devices@)->0);
        table.push(slot);
        i = i + 1;
    }
    if all.len() != num_ports as usize {
        return Err(VhciHcdError::ConflictingStatusData);
    }
    assert(table@ =~= table_of(tv, num_ports, devices@));
    Ok(table)
}

proof fn lemma_controllers_len(texts: Seq<Seq<u8>>)
    ensures
        all_data_controllers(texts).len() == all_data_lines(texts).len(),
    decreases texts.len(),
{
    if texts.len() > 0 {
        lemma_controllers_len(texts.drop_last());
    }
}

// ---------------------------------------------------------------------------
// The controller

/// Whether a port of hub class `hub` can take a device of `speed`: a
/// SuperSpeed device needs a SuperSpeed port, every other speed a
/// high-speed port.
pub open spec fn hub_fits(hub: HubSpeed, speed: UsbSpeed) -> bool {
    if speed == UsbSpeed::Super {
        hub == HubSpeed::Super
    } else {
        hub == HubSpeed::High
    }
}

/// Whether a port is free and fits a device of `speed`.
pub open spec fn free_for(d: VhciDevice, speed: UsbSpeed) -> bool {
    hub_fits(d.hub_speed, speed) && d.state is NotConnected
}

/// Whether `i` is the first port of `ports` that is free and fits a device
/// of `speed`.
pub open spec fn is_first_free(ports: Seq<VhciDevice>, speed: UsbSpeed, i: int) -> bool {
    &&& 0 <= i < ports.len()
    &&& free_for(ports[i], speed)
    &&& forall|j: int| 0 <= j < i ==> !free_for(#[trigger] ports[j], speed)
}

/// The text of an attach command: port, socket, device ID (bus number in
/// the upper and device number in the lower sixteen bits) and speed, in
/// decimal and separated by spaces.
pub open spec fn attach_command_bytes(rh_port: u32, socket_fd: u32, bus_num: u32, dev_num: u32, speed: u32) -> Seq<u8> {
    decimal(rh_port as nat) + seq![0x20u8] + decimal(socket_fd as nat) + seq![0x20u8] + decimal(
        ((bus_num << 16u32) | dev_num) as nat,
    ) + seq![0x20u8] + decimal(speed as nat)
}

/// The virtual host controller: port and controller counts fixed at open
/// time, and the last snapshot of the port table.
#[derive(Debug)]
pub struct VhciHcd {
    num_ports: u32,
    num_controllers: u32,
    virtual_devices: Vec<VhciDevice>,
}

impl VhciHcd {
    pub closed spec fn spec_num_ports(&self) -> u32 {
        self.num_ports
    }

    pub closed spec fn spec_num_controllers(&self) -> u32 {
        self.num_controllers
    }

    /// The port table of the last snapshot.
    pub closed spec fn ports(&self) -> Seq<VhciDevice> {
        self.virtual_devices@
    }

    /// The counts are positive and the table has one entry per port.
    pub closed spec fn wf(&self) -> bool {
        &&& self.num_ports > 0
        &&& self.num_controllers > 0
        &&& self.virtual_devices@.len() == self.num_ports
    }

    #[verifier::type_invariant]
    spec fn inv(self) -> bool {
        self.wf()
    }

    /// Opens the controller from its port count, its controller count, the
    /// status text of each controller and the local devices that imported
    /// ports refer to.
    pub fn open(
        num_ports: u32,
        num_controllers: u32,
        status: &Vec<Vec<u8>>,
        local_devices: &Vec<UsbDeviceInfo>,
    ) -> (r: Result<Self, VhciHcdError>)
        ensures
            num_ports == 0 ==> r == Err::<Self, VhciHcdError>(VhciHcdError::VhciNoAvailablePorts),
            num_ports > 0 && num_controllers == 0 ==> r == Err::<Self, VhciHcdError>(
                VhciHcdError::VhciNoAvailableControllers,
            ),
            num_ports > 0 && num_controllers > 0 ==> (r is Ok <==> table_ok(
                num_ports,
                num_controllers,
                views(status@),
                local_devices@,
            )),
            r matches Ok(h) ==> h.wf() && h.ports().len() == num_ports && h.spec_num_ports() == num_ports
                && h.spec_num_controllers() == num_controllers && h.ports() == table_of(
                views(status@),
                num_ports,
                local_devices@,
            ),
            r matches Err(e) ==> (num_ports > 0 && num_controllers > 0 ==> scan_error(
                num_ports,
                num_controllers,
                views(status@),
                local_devices@,
                e,
            )),
    {
        if num_ports == 0 {
            return Err(VhciHcdError::VhciNoAvailablePorts);
        }
        if num_controllers == 0 {
            return Err(VhciHcdError::VhciNoAvailableControllers);
        }
        match scan_status(num_ports, num_controllers, status, local_devices) {
            Ok(virtual_devices) => Ok(VhciHcd { num_ports, num_controllers, virtual_devices }),
            Err(e) => Err(e),
        }
    }

    /// Replaces the snapshot with the one that the status texts describe.
    /// On failure the snapshot is left as it was.
    pub fn refresh_improted_device_list(
        &mut self,
        status: &Vec<Vec<u8>>,
        local_devices: &Vec<UsbDeviceInfo>,
    ) -> (r: Result<(), VhciHcdError>)
        ensures
            final(self).wf(),
            final(self).ports().len() == old(self).ports().len(),
            final(self).ports().len() == final(self).spec_num_ports(),
            final(self).spec_num_ports() == old(self).spec_num_ports(),
            final(self).spec_num_controllers() == old(self).spec_num_controllers(),
            r is Ok <==> table_ok(
                old(self).spec_num_ports(),
                old(self).spec_num_controllers(),
                views(status@),
                local_devices@,
            ),
            r is Ok ==> final(self).ports() == table_of(
                views(status@),
                old(self).spec_num_ports(),
                local_devices@,
            ),
            r is Err ==> final(self).ports() == old(self).ports(),
            r matches Err(e) ==> scan_error(
                old(self).spec_num_ports(),
                old(self).spec_num_controllers(),
                views(status@),
                local_devices@,
                e,
            ),
    {
        proof {
            use_type_invariant(&*self);
        }
        match scan_status(self.num_ports, self.num_controllers, status, local_devices) {
            Ok(t) => {
                self.virtual_devices = t;
                Ok(())
            },
            Err(e) => Err(e),
        }
    }

    /// The first port, in table order, that is free and fits a device of
    /// `speed`.
    pub fn get_free_port(&self, speed: UsbSpeed) -> (r: Result<u32, VhciHcdError>)
        ensures
            r matches Ok(i) ==> i < self.spec_num_ports() && is_first_free(self.ports(), speed, i as int),
            r is Err ==> r == Err::<u32, VhciHcdError>(VhciHcdError::NoFreePorts) && forall|j: int|
                0 <= j < self.ports().len() ==> !free_for(#[trigger] self.ports()[j], speed),
    {
        proof {
            use_type_invariant(self);
        }
        let mut i: u32 = 0;
        while i < self.num_ports
            invariant
                self.wf(),
                0 <= i <= self.num_ports,
                forall|j: int| 0 <= j < i ==> !free_for(#[trigger] self.ports()[j], speed),
            decreases self.num_ports - i,
        {
            let device = &self.virtual_devices[i as usize];
            let fits = match speed {
                UsbSpeed::Super => device.hub_speed == HubSpeed::Super,
                _ => device.hub_speed == HubSpeed::High,
            };
            if fits && device.status() == VhciDeviceStatus::NotConnected {
                return Ok(i);
            }
            i = i + 1;
        }
        Err(VhciHcdError::NoFreePorts)
    }

    /// The text to write to the controller's `attach` attribute to attach
    /// the device `bus_num`/`dev_num` of `speed`, reached through
    /// `socket_fd`, to `rh_port`.
    pub fn attach_command(rh_port: u32, socket_fd: u32, bus_num: u32, dev_num: u32, speed: u32) -> (r:
        Vec<u8>)
        ensures
            r@ == attach_command_bytes(rh_port, socket_fd, bus_num, dev_num, speed),
    {
        let device_id = (bus_num << 16) | dev_num;
        let mut out: Vec<u8> = Vec::new();
        push_decimal(&mut out, rh_port as u64);
        out.push(0x20);
        push_decimal(&mut out, socket_fd as u64);
        out.push(0x20);
        push_decimal(&mut out, device_id as u64);
        out.push(0x20);
        push_decimal(&mut out, speed as u64);
        assert(out@ =~= decimal(rh_port as nat) + seq![0x20u8] + decimal(socket_fd as nat) + seq![
            0x20u8,
        ] + decimal(((bus_num << 16u32) | dev_num) as nat) + seq![0x20u8] + decimal(speed as nat));
        out
    }

    /// The text to write to the controller's `detach` attribute to detach
    /// the device on `port`.
    pub fn detach_command(port: u16) -> (r: Vec<u8>)
        ensures
            r@ == decimal(port as nat),
    {
        let mut out: Vec<u8> = Vec::new();
        push_decimal(&mut out, port as u64);
        assert(out@ =~= decimal(port as nat));
        out
    }

    /// The port count read at open time.
    pub fn num_ports_u32(&self) -> (r: u32)
        ensures
            r == self.spec_num_ports(),
    {
        self.num_ports
    }

    pub fn controller_count(&self) -> (r: u16)
        ensures
            r == self.spec_num_controllers() as u16,
    {
        self.num_controllers as u16
    }

    pub fn total_port_count(&self) -> (r: u16)
        ensures
            r == self.spec_num_ports() as u16,
    {
        self.num_ports as u16
    }

    /// The ports of the table shared evenly among the controllers.
    pub fn ports_per_controller(&self) -> (r: u16)
        requires
            self.spec_num_controllers() as u16 != 0,
        ensures
            r == (self.spec_num_ports() as u16) / (self.spec_num_controllers() as u16),
    {
        self.total_port_count() / self.controller_count()
    }

    /// The port table of the last snapshot.
    pub fn cached_imported_devices(&self) -> (r: &[VhciDevice])
        ensures
            r@ == self.ports(),
            r@.len() == self.spec_num_ports(),
            self.spec_num_ports() > 0,
            self.spec_num_controllers() > 0,
    {
        proof {
            use_type_invariant(self);
        }
        self.virtual_devices.as_slice()
    }
}

proof fn lemma_slot_error_unusable(
    line: Seq<u8>,
    c: nat,
    num_ports: u32,
    devices: Seq<UsbDeviceInfo>,
    e: VhciHcdError,
)
    requires
        slot_error(line, c, num_ports, devices, e),
    ensures
        slot_of_line(line, num_ports, devices) is None,
{
}

/// A scan succeeds only on a table of exactly the declared number of ports.
/// Where every line read is usable, fewer or more data lines than ports
/// fail with the conflicting-data error and with no other; on success the
/// table holds one port per data line, in scan order.
pub proof fn lemma_refresh_table_size(
    num_ports: u32,
    num_controllers: u32,
    texts: Seq<Seq<u8>>,
    devices: Seq<UsbDeviceInfo>,
)
    ensures
        all_data_lines(texts).len() != num_ports ==> !table_ok(
            num_ports,
            num_controllers,
            texts,
            devices,
        ),
        texts.len() == num_controllers && all_data_lines(texts).len() != num_ports && (forall|j: int|
            0 <= j < lines_scanned(texts, num_ports) ==> slot_of_line(
                #[trigger] all_data_lines(texts)[j],
                num_ports,
                devices,
            ) is Some) ==> (forall|e: VhciHcdError|
            scan_error(num_ports, num_controllers, texts, devices, e) <==> e
                == VhciHcdError::ConflictingStatusData),
        table_ok(num_ports, num_controllers, texts, devices) ==> table_of(
            texts,
            num_ports,
            devices,
        ).len() == all_data_lines(texts).len() && forall|i: int|
            0 <= i < num_ports ==> Some(#[trigger] table_of(texts, num_ports, devices)[i])
                == slot_of_line(all_data_lines(texts)[i], num_ports, devices),
{
    let lines = all_data_lines(texts);
    let m = lines_scanned(texts, num_ports);
    if texts.len() == num_controllers && lines.len() != num_ports && (forall|j: int|
        0 <= j < m ==> slot_of_line(#[trigger] lines[j], num_ports, devices) is Some) {
        assert forall|e: VhciHcdError|
            scan_error(num_ports, num_controllers, texts, devices, e) implies e
                == VhciHcdError::ConflictingStatusData by {
            if exists|i: int|
                0 <= i < m && (forall|j: int|
                    0 <= j < i ==> slot_of_line(#[trigger] lines[j], num_ports, devices) is Some)
                    && slot_error(lines[i], all_data_controllers(texts)[i], num_ports, devices, e) {
                let i = choose|i: int|
                    0 <= i < m && (forall|j: int|
                        0 <= j < i ==> slot_of_line(#[trigger] lines[j], num_ports, devices)
                            is Some) && slot_error(
                        lines[i],
                        all_data_controllers(texts)[i],
                        num_ports,
                        devices,
                        e,
                    );
                lemma_slot_error_unusable(
                    lines[i],
                    all_data_controllers(texts)[i],
                    num_ports,
                    devices,
                    e,
                );
                assert(slot_of_line(lines[i], num_ports, devices) is Some);
            }
        }
    }
}

/// The free port chosen for a speed always fits it, and on an unchanged
/// table successive choices are the same port, so never a lower one.
pub proof fn lemma_free_port_choice(ports: Seq<VhciDevice>, speed: UsbSpeed, i: int, j: int)
    requires
        is_first_free(ports, speed, i),
        is_first_free(ports, speed, j),
    ensures
        hub_fits(ports[i].hub_speed, speed),
        speed == UsbSpeed::Super ==> ports[i].hub_speed == HubSpeed::Super,
        i == j,
        i <= j,
{
    if i < j {
        assert(!free_for(ports[i], speed));
    } else if j < i {
        assert(!free_for(ports[j], speed));
    }
}

} // verus!
