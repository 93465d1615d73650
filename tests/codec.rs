use mw_client::device::{cart_type_to_str, CartType, DeviceError};
use mw_client::frame::{Header, USBDataType};

#[test]
fn status_values() {
    assert_eq!(DeviceError::OK.value(), 0);
    assert_eq!(DeviceError::CARTFINDFAIL.value(), 4);
    assert_eq!(DeviceError::CLOSEFAIL.value(), 6);
    assert_eq!(DeviceError::MALLOCFAIL.value(), 9);
    assert_eq!(DeviceError::from_value(17).value(), 17);
    for v in 0..=255u8 {
        assert_eq!(DeviceError::from_value(v).value(), v);
    }
    assert_eq!(DeviceError::from_value(0), DeviceError::OK);
    assert_eq!(DeviceError::from_value(6), DeviceError::CLOSEFAIL);
    match DeviceError::from_value(30) {
        DeviceError::Other(o) => assert_eq!(o.code(), 30),
        other => panic!("expected an unnamed status, got {:?}", other),
    }
}

#[test]
fn status_numbers_are_distinct() {
    for a in 0..=255u8 {
        for b in 0..=255u8 {
            assert_eq!(DeviceError::from_value(a) == DeviceError::from_value(b), a == b);
        }
    }
}

#[test]
fn kind_tags_are_distinct() {
    for a in 0..=255u8 {
        assert_eq!(USBDataType::from_tag(a).tag(), a);
        for b in 0..=255u8 {
            assert_eq!(USBDataType::from_tag(a) == USBDataType::from_tag(b), a == b);
        }
    }
}

#[test]
fn cart_names() {
    assert_eq!(cart_type_to_str(CartType::NONE), "None");
    assert_eq!(cart_type_to_str(CartType::_64DRIVE1), "64Drive HW1");
    assert_eq!(cart_type_to_str(CartType::_64DRIVE2), "64Drive HW2");
    assert_eq!(cart_type_to_str(CartType::EVERDRIVE), "Everdrive (X7 or V3)");
    assert_eq!(cart_type_to_str(CartType::SC64), "Summercart64");
    assert_eq!(cart_type_to_str(CartType::GOPHER64), "Gopher64");
    assert_eq!(CartType::from_code(4), Some(CartType::SC64));
    assert_eq!(CartType::from_code(6), None);
}

#[test]
fn header_decodes_tag_and_length() {
    let h = Header::from_raw(0x0500_0000);
    assert_eq!(h, Header { datatype: USBDataType::HEARTBEAT, length: 0 });
    let h = Header::from_raw(0x0200_0010);
    assert_eq!(h, Header { datatype: USBDataType::RAWBINARY, length: 16 });
    let h = Header::from_raw(0xAB12_3456);
    assert_eq!(h, Header { datatype: USBDataType::from_tag(0xAB), length: 0x12_3456 });
    match h.datatype {
        USBDataType::Unknown(u) => assert_eq!(u.tag(), 0xAB),
        other => panic!("expected an unknown kind, got {:?}", other),
    }
}

#[test]
fn header_encodes_and_masks_length() {
    let h = Header { datatype: USBDataType::TEXT, length: 4 };
    assert_eq!(h.to_raw(), 0x0100_0004);
    let h = Header { datatype: USBDataType::RAWBINARY, length: 0x1FF_FFFF };
    assert_eq!(h.to_raw(), 0x02FF_FFFF);
    for raw in [0u32, 0x0300_0000, 0x0600_00FF, 0xFFFF_FFFF, 0x07AB_CDEF] {
        assert_eq!(Header::from_raw(raw).to_raw(), raw);
    }
}

#[test]
fn kind_tags() {
    assert_eq!(USBDataType::from_tag(1), USBDataType::TEXT);
    assert_eq!(USBDataType::from_tag(5), USBDataType::HEARTBEAT);
    assert!(matches!(USBDataType::from_tag(0), USBDataType::Unknown(_)));
    assert!(matches!(USBDataType::from_tag(7), USBDataType::Unknown(_)));
    assert_eq!(USBDataType::RDBPACKET.tag(), 6);
}
