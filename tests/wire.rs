use btle::{AddressType, BTAddress, CompanyID, ConversionError, MilliDBM, PackError, RSSI};

#[test]
fn expect_length_accepts_exact_and_reports_mismatch() {
    assert_eq!(PackError::expect_length(3, &[1, 2, 3]), Ok(()));
    assert_eq!(
        PackError::expect_length(3, &[1, 2]),
        Err(PackError::BadLength { expected: 3, got: 2 })
    );
    assert_eq!(
        PackError::expect_length(3, &[1, 2, 3, 4]),
        Err(PackError::BadLength { expected: 3, got: 4 })
    );
}

#[test]
fn atleast_length_accepts_longer_buffers() {
    assert_eq!(PackError::atleast_length(3, &[1, 2, 3]), Ok(()));
    assert_eq!(PackError::atleast_length(3, &[1, 2, 3, 4]), Ok(()));
    assert_eq!(
        PackError::atleast_length(3, &[1]),
        Err(PackError::BadLength { expected: 3, got: 1 })
    );
}

#[test]
fn bad_index_names_the_byte() {
    assert_eq!(PackError::bad_index(7), PackError::BadBytes { index: Some(7) });
}

#[test]
fn rssi_range_bounds() {
    assert_eq!(i8::from(RSSI::new(-127)), -127);
    assert_eq!(i8::from(RSSI::new(20)), 20);
    assert!(RSSI::try_from(-127i8).is_ok());
    assert!(RSSI::try_from(20i8).is_ok());
    assert_eq!(RSSI::try_from(21i8), Err(ConversionError(())));
    assert_eq!(RSSI::try_from(-128i8), Err(ConversionError(())));
    assert_eq!(i8::from(RSSI::default()), 0);
    assert_eq!(i8::from(RSSI::max_rssi()), 20);
    assert_eq!(i8::from(RSSI::min_rssi()), -127);
}

#[test]
fn rssi_maybe_marks_unsupported_value() {
    assert_eq!(RSSI::maybe_rssi(127), Ok(None));
    assert_eq!(RSSI::maybe_rssi(-40), Ok(Some(RSSI::new(-40))));
    assert_eq!(RSSI::maybe_rssi(50), Err(ConversionError(())));
    assert_eq!(RSSI::maybe_rssi(-128), Err(ConversionError(())));
}

#[test]
fn rssi_wire_byte_round_trip() {
    for v in -127i8..=20 {
        let x = RSSI::new(v);
        let byte = u8::from(x);
        assert_eq!(byte, v as u8);
        assert_eq!(RSSI::try_from(byte), Ok(x));
        assert_eq!(RSSI::try_from(i8::from(x)), Ok(x));
    }
    assert_eq!(u8::from(RSSI::new(-1)), 0xFF);
    assert_eq!(RSSI::try_from(0x80u8), Err(ConversionError(())));
}

#[test]
fn milli_dbm_holds_its_value() {
    assert_eq!(MilliDBM::new(-100_000).0, -100_000);
}

#[test]
fn address_pack_unpack_round_trip() {
    let a = BTAddress([0x10, 0x20, 0x30, 0x40, 0x50, 0x60]);
    let mut buf = [0u8; 6];
    assert_eq!(a.pack_into(&mut buf), Ok(()));
    assert_eq!(buf, [0x10, 0x20, 0x30, 0x40, 0x50, 0x60]);
    assert_eq!(BTAddress::unpack_from(&buf), Ok(a));
}

#[test]
fn address_length_errors() {
    assert_eq!(
        BTAddress::unpack_from(&[1, 2, 3, 4, 5]),
        Err(PackError::BadLength { expected: 6, got: 5 })
    );
    let mut short = [9u8; 5];
    assert_eq!(
        BTAddress::zeroed().pack_into(&mut short),
        Err(PackError::BadLength { expected: 6, got: 5 })
    );
    assert_eq!(short, [9u8; 5]);
}

#[test]
fn address_u64_conversions() {
    let a = BTAddress::from_u64(0xFFFF_6655_4433_2211);
    assert_eq!(a, BTAddress([0x11, 0x22, 0x33, 0x44, 0x55, 0x66]));
    assert_eq!(a.to_u64(), 0x6655_4433_2211);
    assert_eq!(BTAddress::from_u64(a.to_u64()), a);
    assert_eq!(BTAddress::zeroed().to_u64(), 0);
}

#[test]
fn address_type_from_top_bits() {
    let with_last = |b: u8| BTAddress([1, 2, 3, 4, 5, b]);
    assert_eq!(with_last(0x3F).address_type(), AddressType::NonResolvablePrivate);
    assert_eq!(with_last(0x40).address_type(), AddressType::ResolvablePrivateAddress);
    assert_eq!(with_last(0xC5).address_type(), AddressType::StaticDevice);
    assert_eq!(with_last(0x80).address_type(), AddressType::RFU);
}

#[test]
fn private_address_parts_only_for_resolvable() {
    let rpa = BTAddress([0x01, 0x02, 0x03, 0x04, 0x05, 0x46]);
    assert_eq!(rpa.private_address_parts(), Some((0x030201, 0x460504)));
    assert_eq!(BTAddress([1, 2, 3, 4, 5, 0x06]).private_address_parts(), None);
    assert_eq!(BTAddress([1, 2, 3, 4, 5, 0xC6]).private_address_parts(), None);
    assert_eq!(BTAddress([1, 2, 3, 4, 5, 0x86]).private_address_parts(), None);
}

#[test]
fn company_id_bytes() {
    let c = CompanyID(0x1234);
    assert_eq!(CompanyID::byte_len(), 2);
    assert_eq!(c.to_bytes_le(), [0x34, 0x12]);
    assert_eq!(c.to_bytes_be(), [0x12, 0x34]);
    assert_eq!(CompanyID::from_bytes_le(&c.to_bytes_le()), Some(c));
    assert_eq!(CompanyID::from_bytes_be(&c.to_bytes_be()), Some(c));
    assert_eq!(CompanyID::from_bytes_le(&[1]), None);
    assert_eq!(CompanyID::from_bytes_be(&[1, 2, 3]), None);
}
