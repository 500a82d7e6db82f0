use btle::le::advertiser::{
    AdvertisingInterval, AdvertisingParameters, AdvertisingType, ChannelMap, Channels,
    FilterPolicy, OwnAddressType, PeerAddressType,
};
use btle::{BTAddress, ConversionError, PackError};

#[test]
fn interval_range_enforced() {
    for v in [0x0020u16, 0x00A0, 0x0800, 0x4000] {
        let i = AdvertisingInterval::try_from(v).unwrap();
        assert_eq!(u16::from(i), v);
        assert_eq!(AdvertisingInterval::try_from(u16::from(i)), Ok(i));
        assert_eq!(AdvertisingInterval::new(v), i);
    }
    for v in [0u16, 0x001F, 0x4001, 0xFFFF] {
        assert_eq!(AdvertisingInterval::try_from(v), Err(ConversionError(())));
    }
    assert_eq!(u16::from(AdvertisingInterval::default()), 0x0800);
    assert_eq!(u16::from(AdvertisingInterval::default_interval()), 0x0800);
    assert_eq!(u16::from(AdvertisingInterval::min_interval()), 0x0020);
    assert_eq!(u16::from(AdvertisingInterval::min_non_conn()), 0x00A0);
    assert_eq!(u16::from(AdvertisingInterval::max_interval()), 0x4000);
}

#[test]
fn interval_time_conversions() {
    assert_eq!(AdvertisingInterval::new(0x0800).as_microseconds(), 1_280_000);
    assert_eq!(AdvertisingInterval::new(0x0020).as_microseconds(), 20_000);
    assert_eq!(AdvertisingInterval::from_milliseconds(100).map(u16::from), Some(160));
    assert_eq!(AdvertisingInterval::from_milliseconds(10_240).map(u16::from), Some(0x4000));
    assert_eq!(AdvertisingInterval::from_milliseconds(10), None);
    assert_eq!(AdvertisingInterval::from_milliseconds(10_241), None);
    assert_eq!(AdvertisingInterval::from_millis(1_000).map(u16::from), Ok(1_600));
    assert_eq!(AdvertisingInterval::from_millis(1 << 20), Err(ConversionError(())));
}

#[test]
fn enumerations_round_trip_and_reject_unknown() {
    for v in 0u8..=4 {
        assert_eq!(u8::from(AdvertisingType::try_from(v).unwrap()), v);
    }
    assert_eq!(AdvertisingType::try_from(5), Err(ConversionError(())));
    for v in 0u8..=1 {
        assert_eq!(u8::from(PeerAddressType::try_from(v).unwrap()), v);
    }
    assert_eq!(PeerAddressType::try_from(2), Err(ConversionError(())));
    for v in 0u8..=3 {
        assert_eq!(u8::from(OwnAddressType::try_from(v).unwrap()), v);
        assert_eq!(u8::from(FilterPolicy::try_from(v).unwrap()), v);
    }
    assert_eq!(OwnAddressType::try_from(4), Err(ConversionError(())));
    assert_eq!(FilterPolicy::try_from(4), Err(ConversionError(())));
    assert_eq!(u8::from(Channels::Channel39), 2);
    assert_eq!(AdvertisingType::default(), AdvertisingType::AdvInd);
    assert_eq!(FilterPolicy::DEFAULT, FilterPolicy::All);
}

#[test]
fn channel_map_bits() {
    let mut m = ChannelMap::zeroed();
    assert!(!m.get_channel(Channels::Channel38));
    m.enable_channel(Channels::Channel38);
    assert!(m.get_channel(Channels::Channel38));
    assert!(!m.get_channel(Channels::Channel37));
    assert_eq!(u8::from(m), 0b010);
    m.enable_channel(Channels::Channel37);
    m.enable_channel(Channels::Channel39);
    assert_eq!(m, ChannelMap::all());
    m.disable_channel(Channels::Channel37);
    assert_eq!(u8::from(m), 0b110);
    assert_eq!(ChannelMap::default(), ChannelMap::new(ChannelMap::ALL_U8));
    assert_eq!(ChannelMap::try_from(8), Err(ConversionError(())));
    assert_eq!(ChannelMap::try_from(5).map(u8::from), Ok(5));
}

#[test]
fn parameter_block_length_is_fifteen() {
    assert_eq!(AdvertisingParameters::BYTE_LEN, 2 + 2 + 1 + 1 + 1 + 6 + 1 + 1);
    assert_eq!(AdvertisingParameters::BYTE_LEN, 15);
}

#[test]
fn default_parameters_round_trip() {
    let d = AdvertisingParameters::default();
    let mut buf = [0xAAu8; 15];
    assert_eq!(d.pack_into(&mut buf), Ok(()));
    assert_eq!(buf, [0x00, 0x08, 0x00, 0x08, 0, 0, 0, 0, 0, 0, 0, 0, 0, 0x07, 0]);
    assert_eq!(AdvertisingParameters::unpack_from(&buf), Ok(d));
}

#[test]
fn custom_parameters_round_trip() {
    let p = AdvertisingParameters::default()
        .with_interval(AdvertisingInterval::new(0x0100), AdvertisingInterval::new(0x0200))
        .with_address(BTAddress([1, 2, 3, 4, 5, 6]));
    assert_eq!(p.peer_address, BTAddress([1, 2, 3, 4, 5, 6]));
    assert_eq!(u16::from(p.interval_min), 0x0100);
    assert_eq!(p.advertising_type, AdvertisingType::AdvInd);
    let mut buf = [0u8; 15];
    p.pack_into(&mut buf).unwrap();
    assert_eq!(&buf[0..4], &[0x00, 0x01, 0x00, 0x02]);
    assert_eq!(&buf[7..13], &[1, 2, 3, 4, 5, 6]);
    assert_eq!(AdvertisingParameters::unpack_from(&buf), Ok(p));
}

#[test]
fn parameter_block_errors() {
    let mut short = [0u8; 14];
    assert_eq!(
        AdvertisingParameters::default().pack_into(&mut short),
        Err(PackError::BadLength { expected: 15, got: 14 })
    );
    assert_eq!(
        AdvertisingParameters::unpack_from(&[0u8; 16]),
        Err(PackError::BadLength { expected: 15, got: 16 })
    );
    let mut buf = [0u8; 15];
    AdvertisingParameters::default().pack_into(&mut buf).unwrap();
    let mut bad = buf;
    bad[0] = 0x01;
    bad[1] = 0x00;
    assert_eq!(AdvertisingParameters::unpack_from(&bad), Err(PackError::BadBytes { index: Some(0) }));
    let mut bad = buf;
    bad[4] = 9;
    assert_eq!(AdvertisingParameters::unpack_from(&bad), Err(PackError::BadBytes { index: Some(4) }));
    let mut bad = buf;
    bad[13] = 0x08;
    assert_eq!(AdvertisingParameters::unpack_from(&bad), Err(PackError::BadBytes { index: Some(13) }));
    let mut bad = buf;
    bad[14] = 4;
    assert_eq!(AdvertisingParameters::unpack_from(&bad), Err(PackError::BadBytes { index: Some(14) }));
}
