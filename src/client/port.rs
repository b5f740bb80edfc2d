//! Listing the imported devices: the controller's view of each occupied
//! port joined with the connection record kept for it.
use vstd::prelude::*;

use crate::client::attach::{
    attach_transition, AttachAction, AttachEvent, AttachSession, AttachState, DEFAULT_PORT,
};
use crate::drivers::state::ConnectionRecord;
use crate::drivers::vhci::{
    VhciHcdError, HubSpeed, VhciDevice, VhciDeviceState, VhciDeviceStatus, VhciHcd,
    VhciImportedDevice,
};
use crate::text::{decimal, lemma_ascii_utf8, lemma_decimal_is_digits, push_all, push_decimal, string_from_utf8};
use crate::UsbDeviceInfo;
use vstd::utf8::*;

verus! {

/// Failures of listing the imported devices.
#[derive(Debug, Clone, PartialEq, Eq)]
pub enum Error {
    VhciHcdDriver(VhciHcdError),
    /// The local device on the bus ID could not be queried.
    QueryingLocalUsbDevice(String, String),
    MissingUdevAttribute { bus_id: String, attribute: String },
}

/// The connection record read for a port.
#[derive(Debug)]
pub struct PortRecord {
    pub port: u16,
    pub record: ConnectionRecord,
}

/// An occupied port: what the controller reports, and the remote identity
/// from its connection record where one could be read.
#[derive(Debug)]
pub struct ImportedDevice {
    pub port: u16,
    pub hub_speed: HubSpeed,
    pub status: VhciDeviceStatus,
    pub remote_host: Option<String>,
    pub remote_port: Option<u16>,
    pub remote_bus_id: Option<String>,
    pub remote_bus_num: u16,
    pub remote_dev_num: u16,
    pub local_device_info: UsbDeviceInfo,
}

/// The bytes of the URL of a remote device:
/// `usbip://<host>:<port>/<bus_id>`.
pub open spec fn url_bytes(host: Seq<char>, port: u16, bus_id: Seq<char>) -> Seq<u8> {
    seq![0x75u8, 0x73, 0x62, 0x69, 0x70, 0x3a, 0x2f, 0x2f] + encode_utf8(host) + (seq![0x3au8]
        + decimal(port as nat) + seq![0x2fu8]) + encode_utf8(bus_id)
}

impl ImportedDevice {
    /// The URL of the remote device, where its connection record was read.
    pub fn url(&self) -> (r: Option<String>)
        ensures
            r is Some <==> (self.remote_host is Some && self.remote_port is Some
                && self.remote_bus_id is Some),
            r matches Some(u) ==> encode_utf8(u@) == url_bytes(
                self.remote_host->0@,
                self.remote_port->0,
                self.remote_bus_id->0@,
            ),
    {
        let (host, port, bus_id) = match (&self.remote_host, self.remote_port, &self.remote_bus_id) {
            (Some(h), Some(p), Some(b)) => (h, p, b),
            _ => return None,
        };
        let mut b: Vec<u8> = vec![0x75, 0x73, 0x62, 0x69, 0x70, 0x3a, 0x2f, 0x2f];
        let ghost scheme = b@;
        push_all(&mut b, host.as_str().as_bytes());
        let ghost middle_start = b@.len();
        b.push(0x3a);
        push_decimal(&mut b, port as u64);
        b.push(0x2f);
        let ghost middle = b@.subrange(middle_start as int, b@.len() as int);
        push_all(&mut b, bus_id.as_str().as_bytes());
        let ghost h = encode_utf8(host@);
        let ghost bb = encode_utf8(bus_id@);
        proof {
            assert(scheme =~= seq![0x75u8, 0x73, 0x62, 0x69, 0x70, 0x3a, 0x2f, 0x2f]);
            assert(middle =~= seq![0x3au8] + decimal(port as nat) + seq![0x2fu8]);
            assert(b@ =~= url_bytes(host@, port, bus_id@));
            assert(b@ =~= ((scheme + h) + middle) + bb);
            lemma_decimal_is_digits(port as nat);
            assert forall|i: int| 0 <= i < middle.len() implies middle[i] < 0x80 by {
                if 0 < i < middle.len() - 1 {
                    assert(middle[i] == decimal(port as nat)[i - 1]);
                }
            }
            lemma_ascii_utf8(scheme);
            lemma_ascii_utf8(middle);
            encode_utf8_valid_utf8(host@);
            encode_utf8_valid_utf8(bus_id@);
            valid_utf8_concat(scheme, h);
            valid_utf8_concat(scheme + h, middle);
            valid_utf8_concat((scheme + h) + middle, bb);
            decode_utf8_encode_utf8(b@);
        }
        string_from_utf8(b)
    }
}

/// The record of the first entry of `records` for `port`.
pub open spec fn record_for(records: Seq<PortRecord>, port: u16) -> Option<ConnectionRecord>
    decreases records.len(),
{
    if records.len() == 0 {
        None
    } else if records[0].port == port {
        Some(records[0].record)
    } else {
        record_for(records.drop_first(), port)
    }
}

/// The listing entry of an occupied port `d` holding `dev`.
pub open spec fn entry_of(d: VhciDevice, dev: VhciImportedDevice, rec: Option<ConnectionRecord>) -> ImportedDevice {
    ImportedDevice {
        port: d.port,
        hub_speed: d.hub_speed,
        status: d.spec_status(),
        remote_host: match rec {
            Some(r) => Some(r.host),
            None => None,
        },
        remote_port: match rec {
            Some(r) => Some(r.port),
            None => None,
        },
        remote_bus_id: match rec {
            Some(r) => Some(r.bus_id),
            None => None,
        },
        remote_bus_num: (dev.remote_device_id >> 16u32) as u16,
        remote_dev_num: (dev.remote_device_id & 0xffffu32) as u16,
        local_device_info: dev.device,
    }
}

/// The listing of a port table: one entry per occupied port (in use or in
/// error), in table order.
pub open spec fn imported_list(ports: Seq<VhciDevice>, records: Seq<PortRecord>) -> Seq<ImportedDevice>
    decreases ports.len(),
{
    if ports.len() == 0 {
        seq![]
    } else {
        let prev = imported_list(ports.drop_last(), records);
        let d = ports.last();
        match d.state {
            VhciDeviceState::Used(dev) => prev.push(entry_of(d, dev, record_for(records, d.port))),
            VhciDeviceState::Error(dev) => prev.push(entry_of(d, dev, record_for(records, d.port))),
            _ => prev,
        }
    }
}

fn find_record(records: &Vec<PortRecord>, port: u16) -> (r: Option<ConnectionRecord>)
    ensures
        r == record_for(records@, port),
{
    let mut k: usize = 0;
    assert(records@.subrange(0, records@.len() as int) =~= records@);
    while k < records.len()
        invariant
            0 <= k <= records@.len(),
            record_for(records@, port) == record_for(records@.subrange(k as int, records@.len() as int), port),
        decreases records@.len() - k,
    {
        assert(records@.subrange(k as int, records@.len() as int).drop_first() =~= records@.subrange(k + 1, records@.len() as int));
        if records[k].port == port {
            return Some(records[k].record.clone());
        }
        k = k + 1;
    }
    assert(records@.subrange(k as int, records@.len() as int).len() == 0);
    None
}

/// Lists the occupied ports of the controller's last snapshot, each with
/// the record read for it; a port without a record keeps an unknown
/// remote identity.
pub fn list_imported_devices(vhci: &VhciHcd, records: &Vec<PortRecord>) -> (r: Vec<ImportedDevice>)
    ensures
        r@ == imported_list(vhci.ports(), records@),
{
    let devices = vhci.cached_imported_devices();
    let mut res: Vec<ImportedDevice> = Vec::new();
    let mut i: usize = 0;
    assert(devices@.take(0) =~= Seq::<VhciDevice>::empty());
    while i < devices.len()
        invariant
            devices@ == vhci.ports(),
            0 <= i <= devices@.len(),
            res@ == imported_list(devices@.take(i as int), records@),
        decreases devices@.len() - i,
    {
        let d = &devices[i];
        assert(devices@.take(i + 1).drop_last() =~= devices@.take(i as int));
        assert(devices@.take(i + 1).last() == devices@[i as int]);
        match d.connected_device() {
            Some(dev) => {
                let rec = find_record(records, d.port);
                let (remote_host, remote_port, remote_bus_id) = match rec {
                    Some(r) => (Some(r.host), Some(r.port), Some(r.bus_id)),
                    None => (None, None, None),
                };
                let entry = ImportedDevice {
                    port: d.port,
                    hub_speed: d.hub_speed,
                    status: d.status(),
                    remote_host,
                    remote_port,
                    remote_bus_id,
                    remote_bus_num: d.remote_bus_num(),
                    remote_dev_num: d.remote_dev_num(),
                    local_device_info: dev.device.clone(),
                };
                res.push(entry);
            },
            None => {},
        }
        i = i + 1;
    }
    assert(devices@.take(devices@.len() as int) =~= devices@);
    res
}

/// Every occupied port of the table has its entry in the listing.
pub proof fn lemma_listed(ports: Seq<VhciDevice>, records: Seq<PortRecord>, k: int)
    requires
        0 <= k < ports.len(),
        ports[k].state is Used || ports[k].state is Error,
    ensures
        exists|i: int|
            0 <= i < imported_list(ports, records).len() && #[trigger] imported_list(
                ports,
                records,
            )[i] == entry_of(
                ports[k],
                match ports[k].state {
                    VhciDeviceState::Used(d) => d,
                    VhciDeviceState::Error(d) => d,
                    _ => arbitrary(),
                },
                record_for(records, ports[k].port),
            ),
    decreases ports.len(),
{
    let prev = imported_list(ports.drop_last(), records);
    if k < ports.len() - 1 {
        lemma_listed(ports.drop_last(), records, k);
        assert(ports.drop_last()[k] == ports[k]);
        let i = choose|i: int|
            0 <= i < prev.len() && #[trigger] prev[i] == entry_of(
                ports[k],
                match ports[k].state {
                    VhciDeviceState::Used(d) => d,
                    VhciDeviceState::Error(d) => d,
                    _ => arbitrary(),
                },
                record_for(records, ports[k].port),
            );
        assert(imported_list(ports, records)[i] == prev[i]);
    } else {
        assert(imported_list(ports, records)[prev.len() as int] == entry_of(
            ports[k],
            match ports[k].state {
                VhciDeviceState::Used(d) => d,
                VhciDeviceState::Error(d) => d,
                _ => arbitrary(),
            },
            record_for(records, ports[k].port),
        ));
    }
}

/// A device attached through a session is listed with its remote identity:
/// where the session asked to save `record` for `port`, the record read back
/// for that port holds the same host, TCP port and bus ID, and the table
/// shows the port occupied, the listing holds an entry for the port with the
/// session's host, the default TCP port and the session's bus ID.
pub proof fn lemma_attach_then_list(
    s: AttachSession,
    e: AttachEvent,
    next: AttachState,
    port: u32,
    record: ConnectionRecord,
    ports: Seq<VhciDevice>,
    records: Seq<PortRecord>,
    k: int,
)
    requires
        attach_transition(s, e, next, AttachAction::SaveRecord { port, record }),
        0 <= k < ports.len(),
        ports[k].port as u32 == port,
        ports[k].state is Used || ports[k].state is Error,
        record_for(records, ports[k].port) matches Some(r) && r.host@ == record.host@ && r.port
            == record.port && r.bus_id@ == record.bus_id@,
    ensures
        exists|i: int|
            0 <= i < imported_list(ports, records).len() && {
                let entry = #[trigger] imported_list(ports, records)[i];
                &&& entry.port as u32 == port
                &&& entry.remote_host matches Some(h) && h@ == s.host@
                &&& entry.remote_port == Some(DEFAULT_PORT)
                &&& entry.remote_bus_id matches Some(b) && b@ == s.bus_id@
            },
{
    lemma_listed(ports, records, k);
}

} // verus!
