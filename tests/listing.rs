use usbip::client::list::{
    list_exported_devices, Error as ListError, ExportedDeviceInterface, ListAction, ListEvent,
    ListSession, ListState,
};
use usbip::proto::{CharBuf, OperationError, OperationHeader, OperationKind, OperationStatus, RawUsbDeviceInfo};
use usbip::util::{extract_usb_info, UsbDeviceAttributes, UsbInfoExtractError};
use usbip::hwdb::{get_class_display_strings, get_device_display_strings};
use usbip::UsbSpeed;

fn descriptor(bus_id: &str, interfaces: u8) -> Vec<u8> {
    RawUsbDeviceInfo {
        path: CharBuf::new("/sys/devices/pci0000:00/usb1/1-1").unwrap(),
        bus_id: CharBuf::new(bus_id).unwrap(),
        bus_num: 1,
        dev_num: 2,
        speed: 2,
        id_vendor: 0x046d,
        id_product: 0xc52b,
        bcd_device: 0x1201,
        b_device_class: 0,
        b_device_sub_class: 0,
        b_device_protocol: 0,
        b_configuration_value: 1,
        b_num_configurations: 1,
        b_num_interfaces: interfaces,
    }
    .encode()
}

fn expect_read(a: ListAction, n: usize) {
    match a {
        ListAction::Exchange { send, receive } => {
            assert!(send.is_empty());
            assert_eq!(receive, n);
        }
        other => panic!("unexpected {other:?}"),
    }
}

#[test]
fn list_session_reads_devices_and_interfaces() {
    let mut s = ListSession::new("server");
    match list_exported_devices(&mut s, ListEvent::Begin) {
        ListAction::Exchange { send, receive } => {
            assert_eq!(send, vec![0x01, 0x11, 0x80, 0x05, 0, 0, 0, 0]);
            assert_eq!(receive, 8);
        }
        other => panic!("unexpected {other:?}"),
    }
    let header = OperationHeader::reply(OperationKind::ListDevices, OperationStatus::Success).encode();
    expect_read(list_exported_devices(&mut s, ListEvent::Received(header)), 4);
    expect_read(list_exported_devices(&mut s, ListEvent::Received(vec![0, 0, 0, 2])), 312);
    expect_read(list_exported_devices(&mut s, ListEvent::Received(descriptor("1-1", 2))), 4);
    expect_read(list_exported_devices(&mut s, ListEvent::Received(vec![3, 1, 2, 0])), 4);
    expect_read(list_exported_devices(&mut s, ListEvent::Received(vec![8, 6, 80, 0])), 312);
    let devices = match list_exported_devices(&mut s, ListEvent::Received(descriptor("1-2", 0))) {
        ListAction::Finish(Ok(d)) => d,
        other => panic!("unexpected {other:?}"),
    };
    assert!(matches!(s.state, ListState::Finished));
    assert_eq!(devices.len(), 2);
    assert_eq!(devices[0].host, "server");
    assert_eq!(devices[0].port, 3240);
    assert_eq!(devices[0].remote_device_info.bus_id, "1-1");
    assert_eq!(devices[0].remote_device_info.speed, UsbSpeed::Full);
    assert_eq!(
        devices[0].interfaces,
        vec![
            ExportedDeviceInterface { b_interface_class: 3, b_interface_sub_class: 1, b_interface_protocol: 2 },
            ExportedDeviceInterface { b_interface_class: 8, b_interface_sub_class: 6, b_interface_protocol: 80 },
        ]
    );
    assert_eq!(devices[1].remote_device_info.bus_id, "1-2");
    assert!(devices[1].interfaces.is_empty());
}

#[test]
fn list_session_with_no_devices() {
    let mut s = ListSession::new("server");
    let _ = list_exported_devices(&mut s, ListEvent::Begin);
    let header = OperationHeader::reply(OperationKind::ListDevices, OperationStatus::Success).encode();
    expect_read(list_exported_devices(&mut s, ListEvent::Received(header)), 4);
    match list_exported_devices(&mut s, ListEvent::Received(vec![0, 0, 0, 0])) {
        ListAction::Finish(Ok(d)) => assert!(d.is_empty()),
        other => panic!("unexpected {other:?}"),
    }
}

#[test]
fn list_session_failures() {
    let mut s = ListSession::new("server");
    let _ = list_exported_devices(&mut s, ListEvent::Begin);
    let wrong_kind = OperationHeader::reply(OperationKind::Import, OperationStatus::Success).encode();
    match list_exported_devices(&mut s, ListEvent::Received(wrong_kind)) {
        ListAction::Finish(r) => assert_eq!(r.unwrap_err(), ListError::Operation(OperationError::InvalidData)),
        other => panic!("unexpected {other:?}"),
    }

    let mut s = ListSession::new("server");
    let _ = list_exported_devices(&mut s, ListEvent::Begin);
    let header = OperationHeader::reply(OperationKind::ListDevices, OperationStatus::Success).encode();
    let _ = list_exported_devices(&mut s, ListEvent::Received(header));
    let _ = list_exported_devices(&mut s, ListEvent::Received(vec![0, 0, 0, 1]));
    let mut bad = descriptor("1-1", 0);
    bad[299] = 9; // unknown speed
    match list_exported_devices(&mut s, ListEvent::Received(bad)) {
        ListAction::Finish(r) => assert!(matches!(r.unwrap_err(), ListError::ProtocolUsbDevice(_))),
        other => panic!("unexpected {other:?}"),
    }

    let mut s = ListSession::new("server");
    match list_exported_devices(&mut s, ListEvent::Received(vec![1])) {
        ListAction::Finish(r) => assert_eq!(r.unwrap_err(), ListError::UnexpectedEvent),
        other => panic!("unexpected {other:?}"),
    }
}

fn attrs() -> UsbDeviceAttributes {
    let v = |s: &str| Some(s.as_bytes().to_vec());
    UsbDeviceAttributes {
        sys_path: Some("/sys/devices/pci0000:00/usb1/1-1".to_string()),
        sys_name: Some("1-1".to_string()),
        busnum: v("1\n"),
        devnum: v("10"),
        speed: v("480\n"),
        id_vendor: v("046d"),
        id_product: v("C52B"),
        bcd_device: v("1201"),
        b_device_class: v("00"),
        b_device_sub_class: v("00"),
        b_device_protocol: v("00"),
        b_configuration_value: v(""),
        b_num_configurations: v("1"),
        b_num_interfaces: v(" 2"),
    }
}

#[test]
fn extract_reads_hex_attributes() {
    let d = extract_usb_info(&attrs()).unwrap();
    assert_eq!(d.bus_id, "1-1");
    assert_eq!(d.bus_num, 1);
    assert_eq!(d.dev_num, 16);
    assert_eq!(d.speed, UsbSpeed::High);
    assert_eq!(d.id_vendor, 0x046d);
    assert_eq!(d.id_product, 0xc52b);
    assert_eq!(d.bcd_device, 0x1201);
    assert_eq!(d.b_configuration_value, 0);
    assert_eq!(d.b_num_interfaces, 2);
}

#[test]
fn extract_reports_first_bad_attribute() {
    let mut a = attrs();
    a.devnum = None;
    a.speed = Some(b"fast".to_vec());
    assert_eq!(extract_usb_info(&a).unwrap_err(), UsbInfoExtractError::AttributeMissing("devnum".to_string()));
    let mut a = attrs();
    a.speed = Some(b"fast".to_vec());
    assert_eq!(extract_usb_info(&a).unwrap_err(), UsbInfoExtractError::AttributeParsingFailed("speed".to_string()));
    let mut a = attrs();
    a.id_vendor = Some(vec![0xff, 0xfe]);
    assert_eq!(extract_usb_info(&a).unwrap_err(), UsbInfoExtractError::AttributeNotUtf8("idVendor".to_string()));
    let mut a = attrs();
    a.b_device_class = Some(b"100".to_vec());
    assert_eq!(
        extract_usb_info(&a).unwrap_err(),
        UsbInfoExtractError::AttributeParsingFailed("bDeviceClass".to_string())
    );
    let mut a = attrs();
    a.sys_name = None;
    assert_eq!(extract_usb_info(&a).unwrap_err(), UsbInfoExtractError::AttributeNotUtf8("sysname".to_string()));
}

#[test]
fn database_names() {
    let (vendor, product) = get_device_display_strings(0x1d6b, 0x0003);
    assert_eq!(vendor.as_deref(), Some("Linux Foundation"));
    assert_eq!(product.as_deref(), Some("3.0 root hub"));
    let (class, sub_class, protocol) = get_class_display_strings(0x03, 0x00, 0x01);
    assert_eq!(class.as_deref(), Some("Human Interface Device"));
    assert_eq!(sub_class.as_deref(), Some("No Subclass"));
    assert_eq!(protocol.as_deref(), Some("Keyboard"));
    let (class, sub_class, protocol) = get_class_display_strings(0x02, 0x02, 0x05);
    assert_eq!(class.as_deref(), Some("Communications"));
    assert_eq!(sub_class.as_deref(), Some("Abstract (modem)"));
    assert_eq!(protocol.as_deref(), Some("AT-commands (3G)"));
}
