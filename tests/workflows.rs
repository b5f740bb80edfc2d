use usbip::client::attach::{
    attach_device, check_import_header, import_request, AttachAction, AttachEvent, AttachSession,
    AttachState, Error as AttachError, DEFAULT_PORT,
};
use usbip::client::detach::{detach_device, DetachPlan, Error as DetachError};
use usbip::client::port::{list_imported_devices, PortRecord};
use usbip::drivers::host::{MatchListOperation, UsbipHost};
use usbip::drivers::state::{ConnectionRecord, FsStateError};
use usbip::drivers::vhci::{occupied_local_bus_ids, status_attribute_name, VhciHcdError, HubSpeed, VhciDeviceStatus, VhciHcd, VhciHcdStatusLine};
use usbip::drivers::{DriverBindingError, DriverUnbindingError, ErrnoKind, SysfsIoError};
use usbip::proto::{CharBuf, OperationError, OperationHeader, OperationKind, OperationStatus, RawUsbDeviceInfo};
use usbip::{UsbDeviceInfo, UsbSpeed};

const HEADER: &str = "hub port sta spd dev      sockfd local_busid";

fn free_line(hub: &str, port: u16) -> String {
    format!("{hub}  {port:04} 004 000 00000000 000000 0-0")
}

fn used_line(hub: &str, port: u16, devid: u32, fd: u32, bus_id: &str) -> String {
    format!("{hub}  {port:04} 006 003 {devid:08x} {fd:06} {bus_id}")
}

fn status_text(lines: &[String]) -> Vec<u8> {
    let mut t = String::from(HEADER);
    t.push('\n');
    for l in lines {
        t.push_str(l);
        t.push('\n');
    }
    t.into_bytes()
}

fn local_device(bus_id: &str, speed: UsbSpeed) -> UsbDeviceInfo {
    UsbDeviceInfo {
        sys_path: format!("/sys/devices/platform/vhci_hcd.0/usb3/{bus_id}"),
        bus_id: bus_id.to_string(),
        bus_num: 3,
        dev_num: 2,
        speed,
        id_vendor: 0x1234,
        id_product: 0x5678,
        bcd_device: 0x0100,
        b_device_class: 0,
        b_device_sub_class: 0,
        b_device_protocol: 0,
        b_configuration_value: 1,
        b_num_configurations: 1,
        b_num_interfaces: 1,
    }
}

fn remote_descriptor(bus_id: &str, speed: u32) -> Vec<u8> {
    RawUsbDeviceInfo {
        path: CharBuf::new("/sys/devices/pci0000:00/usb1/1-1").unwrap(),
        bus_id: CharBuf::new(bus_id).unwrap(),
        bus_num: 1,
        dev_num: 4,
        speed,
        id_vendor: 0x1234,
        id_product: 0x5678,
        bcd_device: 0x0100,
        b_device_class: 0,
        b_device_sub_class: 0,
        b_device_protocol: 0,
        b_configuration_value: 1,
        b_num_configurations: 1,
        b_num_interfaces: 1,
    }
    .encode()
}

fn ok_reply_header() -> Vec<u8> {
    OperationHeader::reply(OperationKind::Import, OperationStatus::Success).encode()
}

#[test]
fn status_line_grammar() {
    let l = VhciHcdStatusLine::parse(b"hs  0001 006 003 00010004 000005 3-1").unwrap();
    assert_eq!(l.hub, HubSpeed::High);
    assert_eq!(l.port, 1);
    assert_eq!(l.status, 6);
    assert_eq!(l.speed, 3);
    assert_eq!(l.device_id, 0x00010004);
    assert_eq!(l.socket_fd, 5);
    assert_eq!(l.local_bus_id, b"3-1".to_vec());
    assert!(VhciHcdStatusLine::parse(b"xs  0001 004 000 00000000 000000 0-0").is_none());
    // an unknown status code is refused later, by the scan
    assert_eq!(VhciHcdStatusLine::parse(b"hs  0001 009 000 00000000 000000 0-0").unwrap().status, 9);
    assert!(VhciHcdStatusLine::parse(b"hs  0001 004 000 00000000 000000").is_none());
    assert!(VhciHcdStatusLine::parse(b"hs  70000 004 000 00000000 000000 0-0").is_none());
    assert!(VhciHcdStatusLine::parse(b"hs  0001 004 000 0000000g 000000 0-0").is_none());
}

#[test]
fn refresh_fills_slots_in_scan_order() {
    let c0 = status_text(&[free_line("hs", 0), used_line("hs", 1, 0x00010004, 5, "3-1")]);
    let c1 = status_text(&[free_line("ss", 2), free_line("ss", 3)]);
    let devices = vec![local_device("3-1", UsbSpeed::High)];
    let h = VhciHcd::open(4, 2, &vec![c0, c1], &devices).unwrap();
    let ports = h.cached_imported_devices();
    assert_eq!(ports.len(), 4);
    assert_eq!(ports.iter().map(|p| p.port).collect::<Vec<_>>(), vec![0, 1, 2, 3]);
    assert_eq!(ports[0].status(), VhciDeviceStatus::NotConnected);
    assert_eq!(ports[1].status(), VhciDeviceStatus::Used);
    assert_eq!(ports[1].remote_bus_num(), 1);
    assert_eq!(ports[1].remote_dev_num(), 4);
    assert_eq!(ports[1].connected_device().unwrap().device.bus_id, "3-1");
    assert_eq!(ports[0].remote_bus_num(), 0);
    assert_eq!(ports[2].hub_speed, HubSpeed::Super);
    assert_eq!(h.total_port_count(), 4);
    assert_eq!(h.controller_count(), 2);
    assert_eq!(h.ports_per_controller(), 2);
}

#[test]
fn refresh_rejects_wrong_line_counts() {
    let three = status_text(&[free_line("hs", 0), free_line("hs", 1), free_line("ss", 2)]);
    let five = status_text(&[
        free_line("hs", 0),
        free_line("hs", 1),
        free_line("ss", 2),
        free_line("ss", 3),
        free_line("ss", 3),
    ]);
    let none: Vec<UsbDeviceInfo> = Vec::new();
    assert_eq!(VhciHcd::open(4, 1, &vec![three], &none).unwrap_err(), VhciHcdError::ConflictingStatusData);
    assert_eq!(VhciHcd::open(4, 1, &vec![five], &none).unwrap_err(), VhciHcdError::ConflictingStatusData);
    let four = status_text(&[free_line("hs", 0), free_line("hs", 1), free_line("ss", 2), free_line("ss", 3)]);
    assert!(VhciHcd::open(4, 1, &vec![four.clone()], &none).is_ok());
    // one controller's text for a controller count of two
    assert_eq!(VhciHcd::open(4, 2, &vec![four], &none).unwrap_err(), VhciHcdError::ConflictingStatusData);
}

#[test]
fn refresh_reports_the_first_bad_line() {
    let none: Vec<UsbDeviceInfo> = Vec::new();
    let bad = status_text(&[free_line("hs", 0), "hs  garbage".to_string()]);
    assert_eq!(
        VhciHcd::open(2, 1, &vec![bad], &none).unwrap_err(),
        VhciHcdError::VhciDeviceParsingUdevAttribute("status".to_string())
    );
    // a bad line of the second controller names that controller's attribute
    let c0 = status_text(&[free_line("hs", 0)]);
    let c1 = status_text(&["ss  0001 004 000 00000000".to_string()]);
    assert_eq!(
        VhciHcd::open(2, 2, &vec![c0.clone(), c1], &none).unwrap_err(),
        VhciHcdError::VhciDeviceParsingUdevAttribute("status.1".to_string())
    );
    let bad_hub = status_text(&[free_line("xs", 1)]);
    assert_eq!(
        VhciHcd::open(2, 2, &vec![c0.clone(), bad_hub], &none).unwrap_err(),
        VhciHcdError::VhciDeviceParsingUdevAttribute("status.1".to_string())
    );
    let bad_code = status_text(&["hs  0001 009 000 00000000 000000 0-0".to_string()]);
    assert_eq!(
        VhciHcd::open(2, 2, &vec![c0.clone(), bad_code], &none).unwrap_err(),
        VhciHcdError::VhciDeviceParsingUdevAttribute("status.1".to_string())
    );
    // the port number is checked before the status code
    let far_bad_code = status_text(&["hs  0009 009 000 00000000 000000 0-0".to_string()]);
    assert_eq!(
        VhciHcd::open(2, 2, &vec![c0, far_bad_code], &none).unwrap_err(),
        VhciHcdError::ConflictingStatusData
    );
    // a bad line within the port count is reported even when lines are too many
    let many = status_text(&["junk".to_string(), free_line("hs", 1), free_line("hs", 1)]);
    assert_eq!(
        VhciHcd::open(2, 1, &vec![many], &none).unwrap_err(),
        VhciHcdError::VhciDeviceParsingUdevAttribute("status".to_string())
    );
    let out_of_range = status_text(&[free_line("hs", 0), free_line("hs", 7)]);
    assert_eq!(VhciHcd::open(2, 1, &vec![out_of_range], &none).unwrap_err(), VhciHcdError::ConflictingStatusData);
    let unknown_device = status_text(&[used_line("hs", 0, 1, 3, "9-9"), free_line("hs", 1)]);
    assert_eq!(
        VhciHcd::open(2, 1, &vec![unknown_device], &none).unwrap_err(),
        VhciHcdError::QueryingLocalUsbDevice { bus_id: "9-9".to_string() }
    );
}

#[test]
fn open_needs_ports_and_controllers() {
    let none: Vec<UsbDeviceInfo> = Vec::new();
    assert_eq!(VhciHcd::open(0, 1, &vec![], &none).unwrap_err(), VhciHcdError::VhciNoAvailablePorts);
    assert_eq!(VhciHcd::open(2, 0, &vec![], &none).unwrap_err(), VhciHcdError::VhciNoAvailableControllers);
}

#[test]
fn failed_refresh_keeps_snapshot() {
    let none: Vec<UsbDeviceInfo> = Vec::new();
    let good = status_text(&[free_line("hs", 0), free_line("ss", 1)]);
    let mut h = VhciHcd::open(2, 1, &vec![good], &none).unwrap();
    let bad = status_text(&[free_line("hs", 0)]);
    assert!(h.refresh_improted_device_list(&vec![bad], &none).is_err());
    assert_eq!(h.cached_imported_devices().len(), 2);
    assert_eq!(h.cached_imported_devices()[1].hub_speed, HubSpeed::Super);
}

#[test]
fn free_port_matches_hub_class() {
    let devices = vec![local_device("3-1", UsbSpeed::High)];
    let text = status_text(&[
        used_line("hs", 0, 1, 3, "3-1"),
        free_line("hs", 1),
        free_line("ss", 2),
        free_line("ss", 3),
    ]);
    let h = VhciHcd::open(4, 1, &vec![text], &devices).unwrap();
    assert_eq!(h.get_free_port(UsbSpeed::High), Ok(1));
    assert_eq!(h.get_free_port(UsbSpeed::Low), Ok(1));
    assert_eq!(h.get_free_port(UsbSpeed::Super), Ok(2));
    assert_eq!(h.get_free_port(UsbSpeed::Super), Ok(2));
    let only_high = status_text(&[free_line("hs", 0), free_line("hs", 1)]);
    let h2 = VhciHcd::open(2, 1, &vec![only_high], &devices).unwrap();
    assert_eq!(h2.get_free_port(UsbSpeed::Super), Err(VhciHcdError::NoFreePorts));
}

#[test]
fn controller_commands() {
    assert_eq!(VhciHcd::attach_command(3, 7, 1, 4, 3), b"3 7 65540 3".to_vec());
    assert_eq!(VhciHcd::attach_command(0, 12, 0, 0, 5), b"0 12 0 5".to_vec());
    assert_eq!(VhciHcd::detach_command(12), b"12".to_vec());
    assert_eq!(
        UsbipHost::update_bus_id_match_list("1-1.2", MatchListOperation::Add),
        b"add 1-1.2".to_vec()
    );
    assert_eq!(
        UsbipHost::update_bus_id_match_list("1-1.2", MatchListOperation::Remove),
        b"del 1-1.2".to_vec()
    );
    assert_eq!(UsbipHost::trigger_device_rebind("2-3"), b"2-3".to_vec());
}

#[test]
fn driver_errors_by_errno() {
    let e = |kind| SysfsIoError::Other { kind, message: String::new() };
    assert_eq!(DriverBindingError::from_sysfs(e(ErrnoKind::NoDevice)), DriverBindingError::NoDevice);
    assert_eq!(DriverBindingError::from_sysfs(e(ErrnoKind::InvalidArgument)), DriverBindingError::AlreadyBoundOther);
    assert_eq!(DriverBindingError::from_sysfs(e(ErrnoKind::AlreadyExists)), DriverBindingError::AlreadyBound);
    assert_eq!(
        DriverBindingError::from_sysfs(SysfsIoError::PermissionDenied),
        DriverBindingError::Sysfs(SysfsIoError::PermissionDenied)
    );
    assert_eq!(DriverUnbindingError::from_sysfs(e(ErrnoKind::InvalidArgument)), DriverUnbindingError::NotBound);
    assert_eq!(
        DriverUnbindingError::from_sysfs(e(ErrnoKind::AlreadyExists)),
        DriverUnbindingError::Sysfs(e(ErrnoKind::AlreadyExists))
    );
}

#[test]
fn connection_record_round_trip() {
    let rec = ConnectionRecord { host: "10.0.0.5".to_string(), port: 3240, bus_id: "1-1".to_string() };
    let bytes = rec.to_bytes();
    assert_eq!(bytes, b"10.0.0.5 3240 1-1\n".to_vec());
    let back = ConnectionRecord::parse(7, &bytes).unwrap();
    assert_eq!(back, rec);
}

#[test]
fn connection_record_grammar_errors() {
    assert_eq!(ConnectionRecord::parse(7, b"10.0.0.5 3240").unwrap_err(), FsStateError::Parsing(7));
    assert_eq!(ConnectionRecord::parse(2, b"h 70000 1-1\n").unwrap_err(), FsStateError::Parsing(2));
    assert_eq!(ConnectionRecord::parse(2, b"h x 1-1\n").unwrap_err(), FsStateError::Parsing(2));
    let spaced = ConnectionRecord::parse(1, b"  host   22 2-1  \n").unwrap();
    assert_eq!((spaced.host.as_str(), spaced.port, spaced.bus_id.as_str()), ("host", 22, "2-1"));
}

#[test]
fn import_request_bytes_and_limits() {
    let req = import_request("1-1").unwrap();
    assert_eq!(req.len(), 40);
    assert_eq!(&req[..8], &[0x01, 0x11, 0x80, 0x03, 0, 0, 0, 0]);
    assert_eq!(&req[8..12], b"1-1\0");
    assert_eq!(import_request(&"1".repeat(32)).unwrap_err(), AttachError::BusIdTooLong);
    assert!(import_request(&"1".repeat(31)).is_ok());
    let busy = OperationHeader::reply(OperationKind::Import, OperationStatus::DeviceBusy).encode();
    assert_eq!(check_import_header(&busy), Err(AttachError::Operation(OperationError::DeviceBusy)));
    assert_eq!(check_import_header(&busy[..4]), Err(AttachError::Truncated));
}

fn run_handshake(session: &mut AttachSession, reply_bus_id: &str) -> AttachAction {
    match attach_device(session, AttachEvent::Begin) {
        AttachAction::Exchange { send, receive } => {
            assert_eq!(send.len(), 40);
            assert_eq!(receive, 8);
        }
        other => panic!("unexpected {other:?}"),
    }
    match attach_device(session, AttachEvent::Received(ok_reply_header())) {
        AttachAction::Exchange { send, receive } => {
            assert!(send.is_empty());
            assert_eq!(receive, 312);
        }
        other => panic!("unexpected {other:?}"),
    }
    attach_device(session, AttachEvent::Received(remote_descriptor(reply_bus_id, 3)))
}

#[test]
fn attach_then_list_reports_remote_identity() {
    let mut session = AttachSession::new("10.0.0.5", "1-1", 9);
    assert!(matches!(run_handshake(&mut session, "1-1"), AttachAction::OpenController));
    let none: Vec<UsbDeviceInfo> = Vec::new();
    let before = status_text(&[used_line("hs", 0, 0x00020001, 4, "3-1"), free_line("hs", 1), free_line("ss", 2), free_line("ss", 3)]);
    let occupied = vec![local_device("3-1", UsbSpeed::High)];
    let h = VhciHcd::open(4, 1, &vec![before], &occupied).unwrap();
    let port = match attach_device(&mut session, AttachEvent::Controller(h)) {
        AttachAction::WriteAttach { port, command } => {
            assert_eq!(command, b"1 9 65540 3".to_vec());
            port
        }
        other => panic!("unexpected {other:?}"),
    };
    assert_eq!(port, 1);
    let record = match attach_device(&mut session, AttachEvent::AttachDone) {
        AttachAction::SaveRecord { port: p, record } => {
            assert_eq!(p, 1);
            record
        }
        other => panic!("unexpected {other:?}"),
    };
    assert_eq!(record.port, DEFAULT_PORT);
    let stored = record.to_bytes();
    match attach_device(&mut session, AttachEvent::Saved) {
        AttachAction::Finish(r) => assert_eq!(r, Ok(1)),
        other => panic!("unexpected {other:?}"),
    }
    assert!(matches!(session.state, AttachState::Finished));

    // the kernel now shows the device on port 1
    let after = status_text(&[
        used_line("hs", 0, 0x00020001, 4, "3-1"),
        used_line("hs", 1, 0x00010004, 9, "3-2"),
        free_line("ss", 2),
        free_line("ss", 3),
    ]);
    let locals = vec![local_device("3-1", UsbSpeed::High), local_device("3-2", UsbSpeed::High)];
    let h = VhciHcd::open(4, 1, &vec![after], &locals).unwrap();
    let records = vec![PortRecord { port: 1, record: ConnectionRecord::parse(1, &stored).unwrap() }];
    let listed = list_imported_devices(&h, &records);
    assert_eq!(listed.len(), 2);
    assert_eq!(listed[0].port, 0);
    assert_eq!(listed[0].remote_host, None);
    assert_eq!(listed[1].port, 1);
    assert_eq!(listed[1].remote_host.as_deref(), Some("10.0.0.5"));
    assert_eq!(listed[1].remote_port, Some(3240));
    assert_eq!(listed[1].remote_bus_id.as_deref(), Some("1-1"));
    assert_eq!(listed[1].url().as_deref(), Some("usbip://10.0.0.5:3240/1-1"));
    assert_eq!(listed[0].url(), None);
    assert_eq!(listed[1].remote_bus_num, 1);
    assert_eq!(listed[1].remote_dev_num, 4);
    assert_eq!(listed[1].local_device_info.bus_id, "3-2");
    let _ = none;
}

#[test]
fn attach_rejects_misrouted_reply() {
    let mut session = AttachSession::new("10.0.0.5", "1-1", 9);
    match run_handshake(&mut session, "1-1.3") {
        AttachAction::Finish(r) => assert_eq!(r, Err(AttachError::BusIdMismatch)),
        other => panic!("unexpected {other:?}"),
    }
    assert!(matches!(session.state, AttachState::Finished));
    // a finished session asks for nothing more
    match attach_device(&mut session, AttachEvent::AttachDone) {
        AttachAction::Finish(r) => assert_eq!(r, Err(AttachError::UnexpectedEvent)),
        other => panic!("unexpected {other:?}"),
    }
}

#[test]
fn attach_reselects_after_busy_port() {
    let mut session = AttachSession::new("h", "2-1", 4);
    assert!(matches!(run_handshake(&mut session, "2-1"), AttachAction::OpenController));
    let none: Vec<UsbDeviceInfo> = Vec::new();
    let t = status_text(&[free_line("hs", 0), free_line("hs", 1)]);
    let h = VhciHcd::open(2, 1, &vec![t], &none).unwrap();
    assert!(matches!(attach_device(&mut session, AttachEvent::Controller(h)), AttachAction::WriteAttach { port: 0, .. }));
    assert!(matches!(attach_device(&mut session, AttachEvent::AttachBusy), AttachAction::OpenController));
    let locals = vec![local_device("3-1", UsbSpeed::High)];
    let t = status_text(&[used_line("hs", 0, 7, 3, "3-1"), free_line("hs", 1)]);
    let h = VhciHcd::open(2, 1, &vec![t], &locals).unwrap();
    assert!(matches!(attach_device(&mut session, AttachEvent::Controller(h)), AttachAction::WriteAttach { port: 1, .. }));
    match attach_device(&mut session, AttachEvent::AttachFailed(VhciHcdError::SysfsPermissionDenied)) {
        AttachAction::Finish(r) => assert_eq!(r, Err(AttachError::VhciHcdDriver(VhciHcdError::SysfsPermissionDenied))),
        other => panic!("unexpected {other:?}"),
    }
}

#[test]
fn attach_fails_without_free_port() {
    let mut session = AttachSession::new("h", "2-1", 4);
    assert!(matches!(run_handshake(&mut session, "2-1"), AttachAction::OpenController));
    let locals = vec![local_device("3-1", UsbSpeed::High)];
    let t = status_text(&[used_line("hs", 0, 7, 3, "3-1"), free_line("ss", 1)]);
    let h = VhciHcd::open(2, 1, &vec![t], &locals).unwrap();
    match attach_device(&mut session, AttachEvent::Controller(h)) {
        AttachAction::Finish(r) => assert_eq!(r, Err(AttachError::VhciHcdDriver(VhciHcdError::NoFreePorts))),
        other => panic!("unexpected {other:?}"),
    }
}

#[test]
fn attach_reports_server_refusal() {
    let mut session = AttachSession::new("h", "2-1", 4);
    let _ = attach_device(&mut session, AttachEvent::Begin);
    let refused = OperationHeader::reply(OperationKind::Import, OperationStatus::NoSuchDevice).encode();
    match attach_device(&mut session, AttachEvent::Received(refused)) {
        AttachAction::Finish(r) => assert_eq!(r, Err(AttachError::Operation(OperationError::NoSuchDevice))),
        other => panic!("unexpected {other:?}"),
    }
}

#[test]
fn attach_with_long_bus_id_sends_nothing() {
    let mut session = AttachSession::new("h", &"9".repeat(40), 4);
    match attach_device(&mut session, AttachEvent::Begin) {
        AttachAction::Finish(r) => assert_eq!(r, Err(AttachError::BusIdTooLong)),
        other => panic!("unexpected {other:?}"),
    }
}

#[test]
fn detach_of_free_port_is_idempotent() {
    let locals = vec![local_device("3-1", UsbSpeed::High)];
    let t = status_text(&[used_line("hs", 0, 7, 3, "3-1"), free_line("hs", 1)]);
    let h = VhciHcd::open(2, 1, &vec![t], &locals).unwrap();
    assert!(matches!(detach_device(&h, 1), Ok(DetachPlan::AlreadyDetached)));
    assert!(matches!(detach_device(&h, 1), Ok(DetachPlan::AlreadyDetached)));
    match detach_device(&h, 0) {
        Ok(DetachPlan::DeleteRecordThenDetach { port, command }) => {
            assert_eq!(port, 0);
            assert_eq!(command, b"0".to_vec());
        }
        other => panic!("unexpected {other:?}"),
    }
    assert!(matches!(detach_device(&h, 2), Err(DetachError::InvalidPortNumber)));
}

#[test]
fn occupied_ports_name_their_local_devices() {
    let c0 = status_text(&[free_line("hs", 0), used_line("hs", 1, 1, 3, "3-1")]);
    let c1 = status_text(&[used_line("ss", 2, 2, 4, "4-1"), "garbage".to_string()]);
    assert_eq!(occupied_local_bus_ids(&vec![c0, c1]), vec![b"3-1".to_vec(), b"4-1".to_vec()]);
}

#[test]
fn status_attribute_names() {
    assert_eq!(status_attribute_name(0), "status");
    assert_eq!(status_attribute_name(1), "status.1");
    assert_eq!(status_attribute_name(12), "status.12");
}
