use usbip::proto::{
    CharBuf, Direction, ImportReply, ImportRequest, ListDevicesReply, OperationError,
    OperationHeader, OperationKind, OperationStatus, RawUsbDeviceInfo, UsbInterfaceInfo,
    USBIP_VERSION,
};
use usbip::{UsbDeviceInfo, UsbSpeed};

fn raw_device(path: &str, bus_id: &str, speed: u32) -> RawUsbDeviceInfo {
    RawUsbDeviceInfo {
        path: CharBuf::new(path).unwrap(),
        bus_id: CharBuf::new(bus_id).unwrap(),
        bus_num: 1,
        dev_num: 2,
        speed,
        id_vendor: 0x1234,
        id_product: 0x5678,
        bcd_device: 0x0100,
        b_device_class: 0,
        b_device_sub_class: 0,
        b_device_protocol: 0,
        b_configuration_value: 1,
        b_num_configurations: 1,
        b_num_interfaces: 2,
    }
}

#[test]
fn text_field_round_trip() {
    let field = CharBuf::<32>::new("1-1").unwrap();
    let bytes = field.encode();
    assert_eq!(bytes.len(), 32);
    assert_eq!(&bytes[..4], b"1-1\0");
    assert!(bytes[3..].iter().all(|b| *b == 0));
    let back = CharBuf::<32>::decode(&bytes).unwrap();
    assert_eq!(back.encode(), bytes);
    assert_eq!(back.text().unwrap(), "1-1");
}

#[test]
fn text_field_keeps_received_bytes() {
    let mut bytes = vec![0xffu8; 32];
    bytes[5] = 0;
    let field = CharBuf::<32>::decode(&bytes).unwrap();
    assert_eq!(field.encode(), bytes);
    // not UTF-8: the text cannot be read, the bytes before the zero can
    assert!(field.text().is_none());
    assert_eq!(field.terminated_bytes().unwrap(), vec![0xffu8; 5]);
}

#[test]
fn text_field_without_terminator_has_no_text() {
    let bytes = vec![b'a'; 32];
    let field = CharBuf::<32>::decode(&bytes).unwrap();
    assert!(field.terminated_bytes().is_none());
    assert!(field.text().is_none());
    assert!(CharBuf::<32>::decode(&bytes[..31]).is_none());
}

#[test]
fn text_field_rejects_values_at_capacity() {
    let fits = "a".repeat(31);
    let too_long = "a".repeat(32);
    assert!(CharBuf::<32>::new(&fits).is_some());
    assert!(CharBuf::<32>::new(&too_long).is_none());
    assert!(CharBuf::<32>::new(&"a".repeat(100)).is_none());
}

#[test]
fn truncating_constructor_cuts_local_values() {
    let field = CharBuf::<4>::new_truncated("abcdef");
    assert_eq!(field.encode(), b"abc\0".to_vec());
    let short = CharBuf::<4>::new_truncated("ab");
    assert_eq!(short.encode(), b"ab\0\0".to_vec());
}

#[test]
fn request_header_bytes() {
    let h = OperationHeader::request(OperationKind::Import);
    assert_eq!(h.encode(), vec![0x01, 0x11, 0x80, 0x03, 0, 0, 0, 0]);
    let l = OperationHeader::request(OperationKind::ListDevices);
    assert_eq!(l.encode(), vec![0x01, 0x11, 0x80, 0x05, 0, 0, 0, 0]);
    let back = OperationHeader::decode(&h.encode()).unwrap();
    assert_eq!(back, h);
    assert!(OperationHeader::decode(&[0u8; 7]).is_none());
}

#[test]
fn reply_header_bytes() {
    let h = OperationHeader::reply(OperationKind::Import, OperationStatus::NoSuchDevice);
    assert_eq!(h.encode(), vec![0x01, 0x11, 0x00, 0x03, 0, 0, 0, 4]);
    let big = OperationHeader { version: 0xa1b2, code: 0xc3d4, status: 0xe5f60718 };
    assert_eq!(big.encode(), vec![0xa1, 0xb2, 0xc3, 0xd4, 0xe5, 0xf6, 0x07, 0x18]);
    assert_eq!(OperationHeader::decode(&big.encode()).unwrap(), big);
}

#[test]
fn header_checks_each_fail_differently() {
    let ok = OperationHeader { version: USBIP_VERSION, code: 0x0003, status: 0 };
    assert_eq!(ok.check_reply(OperationKind::Import), Ok(()));
    let version = OperationHeader { version: 0x0106, code: 0x0003, status: 0 };
    assert_eq!(version.check_reply(OperationKind::Import), Err(OperationError::VersionMismatch));
    let direction = OperationHeader { version: USBIP_VERSION, code: 0x8003, status: 0 };
    assert_eq!(
        direction.check_reply(OperationKind::Import),
        Err(OperationError::DirectionMismatch)
    );
    let unknown = OperationHeader { version: USBIP_VERSION, code: 0x0009, status: 0 };
    assert_eq!(unknown.check_reply(OperationKind::Import), Err(OperationError::InvalidData));
    let other = OperationHeader { version: USBIP_VERSION, code: 0x0005, status: 0 };
    assert_eq!(other.check_reply(OperationKind::Import), Err(OperationError::InvalidData));
    let wildcard = OperationHeader { version: USBIP_VERSION, code: 0x0000, status: 0 };
    assert_eq!(wildcard.check_reply(OperationKind::Import), Ok(()));
}

#[test]
fn status_codes_map_to_failures() {
    let expected = [
        Ok(()),
        Err(OperationError::RequestFailed),
        Err(OperationError::DeviceBusy),
        Err(OperationError::DeviceError),
        Err(OperationError::NoSuchDevice),
        Err(OperationError::Other),
        Err(OperationError::Other),
    ];
    for (status, want) in expected.iter().enumerate() {
        let h = OperationHeader { version: USBIP_VERSION, code: 0x0003, status: status as u32 };
        assert_eq!(h.check_reply(OperationKind::Import), *want);
    }
    assert_eq!(OperationStatus::from_raw(0), Some(OperationStatus::Success));
    assert_eq!(OperationStatus::from_raw(5), Some(OperationStatus::Error));
    assert_eq!(OperationStatus::from_raw(6), None);
}

#[test]
fn codes_name_directions_and_operations() {
    assert_eq!(Direction::from_code(0x8003), Direction::Request);
    assert_eq!(Direction::from_code(0x0003), Direction::Reply);
    assert_eq!(OperationKind::from_code(0x8005), Some(OperationKind::ListDevices));
    assert_eq!(OperationKind::from_code(0x0004), Some(OperationKind::EncryptionKey));
    assert_eq!(OperationKind::from_code(0x0007), Some(OperationKind::UnExport));
    assert_eq!(OperationKind::from_code(0x0001), None);
    assert_eq!(OperationKind::from_code(0x0008), None);
}

#[test]
fn device_descriptor_layout() {
    let raw = raw_device("/sys/devices/usb1/1-1", "1-1", 3);
    let bytes = raw.encode();
    assert_eq!(bytes.len(), 312);
    assert_eq!(&bytes[..21], b"/sys/devices/usb1/1-1");
    assert_eq!(&bytes[256..260], b"1-1\0");
    assert_eq!(&bytes[288..300], &[0, 0, 0, 1, 0, 0, 0, 2, 0, 0, 0, 3]);
    assert_eq!(&bytes[300..306], &[0x12, 0x34, 0x56, 0x78, 0x01, 0x00]);
    assert_eq!(&bytes[306..312], &[0, 0, 0, 1, 1, 2]);
    let back = RawUsbDeviceInfo::decode(&bytes).unwrap();
    assert_eq!(back.encode(), bytes);
    assert_eq!(back.id_product, 0x5678);
    let reply = ImportReply::decode(&bytes).unwrap();
    assert_eq!(reply.encode(), bytes);
    assert!(RawUsbDeviceInfo::decode(&bytes[..311]).is_none());
}

#[test]
fn device_descriptor_validation() {
    let raw = raw_device("/sys/devices/usb1/1-1", "1-1", 5);
    let d = UsbDeviceInfo::try_from_raw(raw).unwrap();
    assert_eq!(d.sys_path, "/sys/devices/usb1/1-1");
    assert_eq!(d.bus_id, "1-1");
    assert_eq!(d.speed, UsbSpeed::Super);
    assert_eq!(d.b_num_interfaces, 2);
    assert!(UsbDeviceInfo::try_from_raw(raw_device("/p", "1-1", 6)).is_err());
    let mut bytes = raw_device("/p", "1-1", 3).encode();
    for b in bytes[256..288].iter_mut() {
        *b = b'x';
    }
    let unterminated = RawUsbDeviceInfo::decode(&bytes).unwrap();
    assert!(UsbDeviceInfo::try_from_raw(unterminated).is_err());
}

#[test]
fn interface_and_count_records() {
    let i = UsbInterfaceInfo::decode(&[9, 8, 7, 0xaa]).unwrap();
    assert_eq!((i.b_interface_class, i.b_interface_sub_class, i.b_interface_protocol), (9, 8, 7));
    assert_eq!(i.encode(), vec![9, 8, 7, 0]);
    assert!(UsbInterfaceInfo::decode(&[1, 2, 3]).is_none());
    let c = ListDevicesReply::decode(&[0, 0, 1, 2]).unwrap();
    assert_eq!(c.num_devices, 258);
    assert_eq!(c.encode(), vec![0, 0, 1, 2]);
    let q = ImportRequest { bus_id: CharBuf::new("2-1.4").unwrap() };
    assert_eq!(&q.encode()[..6], b"2-1.4\0");
    assert_eq!(ImportRequest::decode(&q.encode()).unwrap().bus_id.text().unwrap(), "2-1.4");
}

#[test]
fn speeds_from_codes_and_sysfs() {
    assert_eq!(UsbSpeed::from_raw(0), Some(UsbSpeed::Unknown));
    assert_eq!(UsbSpeed::from_raw(4), Some(UsbSpeed::Wireless));
    assert_eq!(UsbSpeed::from_raw(9), None);
    assert_eq!(UsbSpeed::Super.raw(), 5);
    assert_eq!(UsbSpeed::from_sysfs(b"480"), Some(UsbSpeed::High));
    assert_eq!(UsbSpeed::from_sysfs(b"5000"), Some(UsbSpeed::Super));
    assert_eq!(UsbSpeed::from_sysfs(b"1.5"), Some(UsbSpeed::Low));
    assert_eq!(UsbSpeed::from_sysfs(b"12"), Some(UsbSpeed::Full));
    assert_eq!(UsbSpeed::from_sysfs(b"53.3-480"), Some(UsbSpeed::Wireless));
    assert_eq!(UsbSpeed::from_sysfs(b"unknown"), Some(UsbSpeed::Unknown));
    assert_eq!(UsbSpeed::from_sysfs(b"10000"), None);
}
