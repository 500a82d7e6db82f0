use btle::{BTAddress, ConversionError};

#[test]
fn parses_colon_and_hyphen_forms() {
    let expected = BTAddress([0x00, 0x11, 0x22, 0x33, 0x44, 0x55]);
    assert_eq!("00:11:22:33:44:55".parse::<BTAddress>(), Ok(expected));
    assert_eq!("00-11-22-33-44-55".parse::<BTAddress>(), Ok(expected));
    assert_eq!(BTAddress::from_text("aB:cD:eF:01:23:45"), Ok(BTAddress([0xAB, 0xCD, 0xEF, 0x01, 0x23, 0x45])));
}

#[test]
fn wrong_octet_counts_fail() {
    assert_eq!("00:11:22:33:44".parse::<BTAddress>(), Err(ConversionError(())));
    assert_eq!("00:11:22:33:44:55:66".parse::<BTAddress>(), Err(ConversionError(())));
    assert_eq!("".parse::<BTAddress>(), Err(ConversionError(())));
}

#[test]
fn bad_octets_fail() {
    assert_eq!("00:11:22:33:44:GG".parse::<BTAddress>(), Err(ConversionError(())));
    assert_eq!("00:11::33:44:55".parse::<BTAddress>(), Err(ConversionError(())));
    assert_eq!("00:11:22:33:44:100".parse::<BTAddress>(), Err(ConversionError(())));
    assert_eq!("00:11:22:33:44:5\u{e9}".parse::<BTAddress>(), Err(ConversionError(())));
}

#[test]
fn octets_may_have_one_or_more_digits() {
    assert_eq!(BTAddress::from_text("0:1:2:3:4:5"), Ok(BTAddress([0, 1, 2, 3, 4, 5])));
    assert_eq!(BTAddress::from_text("000ff:1:2:3:4:5"), Ok(BTAddress([0xFF, 1, 2, 3, 4, 5])));
}

#[test]
fn signs_are_not_hex_digits() {
    assert_eq!(BTAddress::from_text("000ff:1:2:3:4:+5"), Err(ConversionError(())));
    assert_eq!("+0:11:22:33:44:55".parse::<BTAddress>(), Err(ConversionError(())));
    assert_eq!("00:11:2Z:33:44:55".parse::<BTAddress>(), Err(ConversionError(())));
}

#[test]
fn text_form_is_upper_case_and_parses_back() {
    let a = BTAddress([0x00, 0x1A, 0x2b, 0xC3, 0xfe, 0x09]);
    let t = a.to_text();
    assert_eq!(&t, b"00:1A:2B:C3:FE:09");
    let s = std::str::from_utf8(&t).unwrap();
    assert_eq!(s.parse::<BTAddress>(), Ok(a));
    assert_eq!(BTAddress::zeroed().to_text(), *b"00:00:00:00:00:00");
}
