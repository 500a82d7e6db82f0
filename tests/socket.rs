use btle::hci::socket::{
    check_os_result, event_filter, handle_libc_error, socket_filter, AdapterID, BTProtocol,
    HCIChannel, HCISocketError, SockaddrHCI, EBUSY, EPERM, FILTER_LEN,
};
use btle::hci::{EventCode, PacketType};

#[test]
fn filter_layout_for_example_tags() {
    let f = event_filter(1, 4, 0, 2);
    assert_eq!(f.len(), FILTER_LEN);
    assert_eq!(u32::from_le_bytes([f[0], f[1], f[2], f[3]]), (1 << 1) | (1 << 4));
    assert_eq!(u32::from_le_bytes([f[4], f[5], f[6], f[7]]), (1 << 0) | (1 << 2));
    assert_eq!(&f[8..14], &[0u8; 6]);
}

#[test]
fn socket_filter_admits_commands_events_and_replies() {
    let f = socket_filter();
    assert_eq!(f, [0x12, 0, 0, 0, 0x00, 0xC0, 0, 0, 0, 0, 0, 0, 0, 0]);
}

#[test]
fn error_mapping() {
    assert!(matches!(check_os_result(-1, EPERM), Err(HCISocketError::PermissionDenied)));
    assert!(matches!(check_os_result(-1, EBUSY), Err(HCISocketError::Busy)));
    assert!(matches!(check_os_result(-1, 19), Err(HCISocketError::Other(19))));
    assert!(matches!(check_os_result(0, EPERM), Ok(0)));
    assert!(matches!(check_os_result(42, EBUSY), Ok(42)));
    assert!(matches!(handle_libc_error(7), Ok(7)));
    assert!(handle_libc_error(-1).is_err());
}

#[test]
fn socket_address_and_codes() {
    let a = SockaddrHCI::new(31, AdapterID(2), HCIChannel::User);
    assert_eq!(a, SockaddrHCI { hci_family: 31, hci_dev: 2, hci_channel: 1 });
    assert_eq!(u16::from(HCIChannel::Logging), 4);
    assert_eq!(i32::from(BTProtocol::HCI), 1);
    assert_eq!(PacketType::from_u8(4), Some(PacketType::Event));
    assert_eq!(PacketType::from_u8(9), None);
    assert_eq!(EventCode::from_u8(0x0F), Some(EventCode::CommandStatus));
    assert_eq!(EventCode::CommandComplete.to_u8(), 0x0E);
}
