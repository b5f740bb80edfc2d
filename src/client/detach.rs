//! Detaching a device: the decision to detach, and its order.
use vstd::prelude::*;

use crate::drivers::state::FsStateError;
use crate::drivers::vhci::{VhciDevice, VhciHcd, VhciHcdError};
use crate::text::decimal;

verus! {

/// Failures of detaching a device.
#[derive(Debug, Clone, PartialEq, Eq)]
pub enum Error {
    VhciHcd(VhciHcdError),
    /// The port is beyond the controller's port count.
    InvalidPortNumber,
    FsState(FsStateError),
}

/// What detaching a port takes.
#[derive(Debug)]
pub enum DetachPlan {
    /// The port holds no device: nothing is to be done.
    AlreadyDetached,
    /// Delete the connection record of `port`, then write `command` to the
    /// controller's detach attribute. The record goes first, so that a
    /// crash in between leaves no record behind for a detached port.
    DeleteRecordThenDetach { port: u16, command: Vec<u8> },
}

/// Whether the table shows `port` as holding no device.
pub open spec fn already_detached(ports: Seq<VhciDevice>, port: u16) -> bool {
    exists|i: int| 0 <= i < ports.len() && (#[trigger] ports[i]).port == port && ports[i].state is NotConnected
}

/// The three ways a detach request can go.
pub ghost enum DetachDecision {
    Invalid,
    AlreadyDetached,
    Detach,
}

/// How a detach request for `port` goes on a controller with `num_ports`
/// ports and the table `ports`.
pub open spec fn detach_decision(ports: Seq<VhciDevice>, num_ports: u32, port: u16) -> DetachDecision {
    if port as u32 >= num_ports {
        DetachDecision::Invalid
    } else if already_detached(ports, port) {
        DetachDecision::AlreadyDetached
    } else {
        DetachDecision::Detach
    }
}

/// Decides how to detach the device on `port`, from the controller's last
/// snapshot.
pub fn detach_device(vhci: &VhciHcd, port: u16) -> (r: Result<DetachPlan, Error>)
    ensures
        detach_decision(vhci.ports(), vhci.spec_num_ports(), port) is Invalid <==> r == Err::<
            DetachPlan,
            Error,
        >(Error::InvalidPortNumber),
        detach_decision(vhci.ports(), vhci.spec_num_ports(), port) is AlreadyDetached <==> r matches Ok(
            DetachPlan::AlreadyDetached,
        ),
        detach_decision(vhci.ports(), vhci.spec_num_ports(), port) is Detach <==> r matches Ok(
            DetachPlan::DeleteRecordThenDetach { .. },
        ),
        r matches Ok(DetachPlan::DeleteRecordThenDetach { port: p, command }) ==> p == port
            && command@ == decimal(port as nat),
{
    if port as u32 >= vhci.num_ports_u32() {
        return Err(Error::InvalidPortNumber);
    }
    let devices = vhci.cached_imported_devices();
    let mut i: usize = 0;
    while i < devices.len()
        invariant
            devices@ == vhci.ports(),
            (port as u32) < vhci.spec_num_ports(),
            0 <= i <= devices@.len(),
            forall|j: int| 0 <= j < i ==> !((#[trigger] devices@[j]).port == port && devices@[j].state is NotConnected),
        decreases devices@.len() - i,
    {
        if devices[i].port == port && devices[i].status() == crate::drivers::vhci::VhciDeviceStatus::NotConnected {
            assert(vhci.ports()[i as int].port == port);
            return Ok(DetachPlan::AlreadyDetached);
        }
        i = i + 1;
    }
    Ok(DetachPlan::DeleteRecordThenDetach { port, command: VhciHcd::detach_command(port) })
}

/// Detaching a port that holds no device is decided the same way each time
/// the table is unchanged: nothing is done, and no record is deleted.
pub proof fn lemma_detach_idempotent(ports: Seq<VhciDevice>, num_ports: u32, port: u16)
    requires
        (port as u32) < num_ports,
        already_detached(ports, port),
    ensures
        detach_decision(ports, num_ports, port) is AlreadyDetached,
{
}

} // verus!
