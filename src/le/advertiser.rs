//! Advertising parameters: the values a host sends to start Low Energy advertising,
//! and the parameter block they are packed into.
use crate::{u16_le, BTAddress, ConversionError, PackError, BT_ADDRESS_LEN};
use vstd::prelude::*;

verus! {

/// Advertising interval in units of 0.625 ms, within `[0x0020, 0x4000]`.
#[derive(Copy, Clone, Ord, PartialOrd, Eq, PartialEq, Structural, Hash, Debug)]
pub struct AdvertisingInterval(u16);

/// The interval values a controller accepts.
pub open spec fn interval_in_range(v: int) -> bool {
    AdvertisingInterval::MIN_U16 <= v <= AdvertisingInterval::MAX_U16
}

impl AdvertisingInterval {
    pub const BYTE_LEN: usize = 2;

    pub const MIN_U16: u16 = 0x0020u16;

    /// Shortest interval for non-connectable advertising on older controllers.
    pub const MIN_NON_CONN_U16: u16 = 0x00A0u16;

    pub const MAX_U16: u16 = 0x4000u16;

    pub const DEFAULT_U16: u16 = 0x0800u16;

    pub closed spec fn units(self) -> u16 {
        self.0
    }

    pub open spec fn wf(self) -> bool {
        interval_in_range(self.units() as int)
    }

    /// The shortest interval, 0x0020 units (20 ms).
    pub fn min_interval() -> (r: AdvertisingInterval)
        ensures
            r.units() == AdvertisingInterval::MIN_U16,
            r.wf(),
    {
        AdvertisingInterval(Self::MIN_U16)
    }

    /// The shortest interval for non-connectable advertising on older controllers,
    /// 0x00A0 units (100 ms).
    pub fn min_non_conn() -> (r: AdvertisingInterval)
        ensures
            r.units() == AdvertisingInterval::MIN_NON_CONN_U16,
            r.wf(),
    {
        AdvertisingInterval(Self::MIN_NON_CONN_U16)
    }

    /// The longest interval, 0x4000 units (10.24 s).
    pub fn max_interval() -> (r: AdvertisingInterval)
        ensures
            r.units() == AdvertisingInterval::MAX_U16,
            r.wf(),
    {
        AdvertisingInterval(Self::MAX_U16)
    }

    /// The default interval, 0x0800 units (1.28 s).
    pub fn default_interval() -> (r: AdvertisingInterval)
        ensures
            r.units() == AdvertisingInterval::DEFAULT_U16,
            r.wf(),
    {
        AdvertisingInterval(Self::DEFAULT_U16)
    }

    /// Creates an interval the caller knows to be in range.
    pub fn new(interval: u16) -> (r: AdvertisingInterval)
        requires
            interval_in_range(interval as int),
        ensures
            r.units() == interval,
            r.wf(),
    {
        AdvertisingInterval(interval)
    }

    /// Checked conversion from a count of 0.625 ms units.
    pub fn from_u16(value: u16) -> (r: Result<AdvertisingInterval, ConversionError>)
        ensures
            r == Self::from_u16_spec(value),
            match r {
                Ok(i) => interval_in_range(value as int) && i.units() == value && i.wf(),
                Err(_) => !interval_in_range(value as int),
            },
    {
        if value <= Self::MAX_U16 && value >= Self::MIN_U16 {
            Ok(AdvertisingInterval(value))
        } else {
            Err(ConversionError(()))
        }
    }

    pub closed spec fn from_u16_spec(value: u16) -> Result<AdvertisingInterval, ConversionError> {
        if interval_in_range(value as int) {
            Ok(AdvertisingInterval(value))
        } else {
            Err(ConversionError(()))
        }
    }

    /// The interval as a count of 0.625 ms units.
    pub fn to_u16(self) -> (r: u16)
        ensures
            r == self.units(),
    {
        self.0
    }

    /// The interval in microseconds.
    pub fn as_microseconds(self) -> (r: u32)
        ensures
            r == self.units() * 625,
    {
        self.0 as u32 * 625
    }

    /// The interval nearest below `milli` milliseconds (units of 0.625 ms), if in range.
    pub fn from_milliseconds(milli: u16) -> (r: Option<AdvertisingInterval>)
        ensures
            interval_in_range(milli * 16 / 10) ==> (r matches Some(i) && i.units() == milli * 16
                / 10 && i.wf()),
            !interval_in_range(milli * 16 / 10) ==> r is None,
    {
        let units: u32 = milli as u32 * 16 / 10;
        if units <= Self::MAX_U16 as u32 && units >= Self::MIN_U16 as u32 {
            Some(AdvertisingInterval(units as u16))
        } else {
            None
        }
    }

    /// The interval for a duration of `millis` milliseconds, if in range.
    pub fn from_millis(millis: u128) -> (r: Result<AdvertisingInterval, ConversionError>)
        ensures
            millis <= 0xffff && interval_in_range(millis * 16 / 10) ==> (r matches Ok(i)
                && i.units() == millis * 16 / 10),
            !(millis <= 0xffff && interval_in_range(millis * 16 / 10)) ==> r is Err,
    {
        if millis > 0xffff {
            return Err(ConversionError(()));
        }
        match Self::from_milliseconds(millis as u16) {
            Some(i) => Ok(i),
            None => Err(ConversionError(())),
        }
    }
}

impl Default for AdvertisingInterval {
    fn default() -> (r: AdvertisingInterval)
        ensures
            r.units() == AdvertisingInterval::DEFAULT_U16,
    {
        AdvertisingInterval::default_interval()
    }
}

impl TryFrom<u16> for AdvertisingInterval {
    type Error = ConversionError;

    fn try_from(value: u16) -> (r: Result<AdvertisingInterval, ConversionError>) {
        AdvertisingInterval::from_u16(value)
    }
}

impl vstd::std_specs::convert::TryFromSpecImpl<u16> for AdvertisingInterval {
    open spec fn obeys_try_from_spec() -> bool {
        true
    }

    open spec fn try_from_spec(value: u16) -> Result<AdvertisingInterval, ConversionError> {
        AdvertisingInterval::from_u16_spec(value)
    }
}

impl From<AdvertisingInterval> for u16 {
    fn from(a: AdvertisingInterval) -> (r: u16) {
        a.to_u16()
    }
}

impl vstd::std_specs::convert::FromSpecImpl<AdvertisingInterval> for u16 {
    open spec fn obeys_from_spec() -> bool {
        true
    }

    open spec fn from_spec(a: AdvertisingInterval) -> u16 {
        a.units()
    }
}

/// Kind of advertising PDU.
#[derive(Copy, Clone, Ord, PartialOrd, Eq, PartialEq, Structural, Hash, Debug)]
pub enum AdvertisingType {
    AdvInd,
    AdvDirectIndHighDutyCycle,
    AdvScanInd,
    /// Older controllers refuse an interval below 100 ms for this type.
    AdvNonnConnInd,
    AdvDirectIndLowDutyCycle,
}

impl AdvertisingType {
    pub const BYTE_LEN: usize = 1;

    pub const DEFAULT: AdvertisingType = AdvertisingType::AdvInd;

    /// The value that stands for this variant on the wire.
    pub open spec fn code(self) -> u8 {
        match self {
            AdvertisingType::AdvInd => 0u8,
            AdvertisingType::AdvDirectIndHighDutyCycle => 1u8,
            AdvertisingType::AdvScanInd => 2u8,
            AdvertisingType::AdvNonnConnInd => 3u8,
            AdvertisingType::AdvDirectIndLowDutyCycle => 4u8,
        }
    }

    /// The variant that wire value `v` stands for, if any.
    pub open spec fn from_code(v: u8) -> Option<AdvertisingType> {
        if v == 0 {
            Some(AdvertisingType::AdvInd)
        } else if v == 1 {
            Some(AdvertisingType::AdvDirectIndHighDutyCycle)
        } else if v == 2 {
            Some(AdvertisingType::AdvScanInd)
        } else if v == 3 {
            Some(AdvertisingType::AdvNonnConnInd)
        } else if v == 4 {
            Some(AdvertisingType::AdvDirectIndLowDutyCycle)
        } else {
            None
        }
    }

    pub open spec fn try_from_code(v: u8) -> Result<AdvertisingType, ConversionError> {
        match AdvertisingType::from_code(v) {
            Some(x) => Ok(x),
            None => Err(ConversionError(())),
        }
    }

    pub fn to_u8(self) -> (r: u8)
        ensures
            r == self.code(),
    {
        match self {
            AdvertisingType::AdvInd => 0,
            AdvertisingType::AdvDirectIndHighDutyCycle => 1,
            AdvertisingType::AdvScanInd => 2,
            AdvertisingType::AdvNonnConnInd => 3,
            AdvertisingType::AdvDirectIndLowDutyCycle => 4,
        }
    }

    /// Checked conversion from a wire value.
    pub fn from_u8(value: u8) -> (r: Result<AdvertisingType, ConversionError>)
        ensures
            r == AdvertisingType::try_from_code(value),
    {
        match value {
            0 => Ok(AdvertisingType::AdvInd),
            1 => Ok(AdvertisingType::AdvDirectIndHighDutyCycle),
            2 => Ok(AdvertisingType::AdvScanInd),
            3 => Ok(AdvertisingType::AdvNonnConnInd),
            4 => Ok(AdvertisingType::AdvDirectIndLowDutyCycle),
            _ => Err(ConversionError(())),
        }
    }
}

impl Default for AdvertisingType {
    fn default() -> (r: AdvertisingType)
        ensures
            r == AdvertisingType::AdvInd,
    {
        AdvertisingType::AdvInd
    }
}

impl From<AdvertisingType> for u8 {
    fn from(x: AdvertisingType) -> (r: u8) {
        x.to_u8()
    }
}

impl vstd::std_specs::convert::FromSpecImpl<AdvertisingType> for u8 {
    open spec fn obeys_from_spec() -> bool {
        true
    }

    open spec fn from_spec(x: AdvertisingType) -> u8 {
        x.code()
    }
}

impl TryFrom<u8> for AdvertisingType {
    type Error = ConversionError;

    fn try_from(value: u8) -> (r: Result<AdvertisingType, ConversionError>) {
        AdvertisingType::from_u8(value)
    }
}

impl vstd::std_specs::convert::TryFromSpecImpl<u8> for AdvertisingType {
    open spec fn obeys_try_from_spec() -> bool {
        true
    }

    open spec fn try_from_spec(value: u8) -> Result<AdvertisingType, ConversionError> {
        AdvertisingType::try_from_code(value)
    }
}

/// Kind of the peer address used in directed advertising.
#[derive(Copy, Clone, Ord, PartialOrd, Eq, PartialEq, Structural, Hash, Debug)]
pub enum PeerAddressType {
    Public,
    Random,
}

impl PeerAddressType {
    pub const BYTE_LEN: usize = 1;

    pub const DEFAULT: PeerAddressType = PeerAddressType::Public;

    /// The value that stands for this variant on the wire.
    pub open spec fn code(self) -> u8 {
        match self {
            PeerAddressType::Public => 0u8,
            PeerAddressType::Random => 1u8,
        }
    }

    /// The variant that wire value `v` stands for, if any.
    pub open spec fn from_code(v: u8) -> Option<PeerAddressType> {
        if v == 0 {
            Some(PeerAddressType::Public)
        } else if v == 1 {
            Some(PeerAddressType::Random)
        } else {
            None
        }
    }

    pub open spec fn try_from_code(v: u8) -> Result<PeerAddressType, ConversionError> {
        match PeerAddressType::from_code(v) {
            Some(x) => Ok(x),
            None => Err(ConversionError(())),
        }
    }

    pub fn to_u8(self) -> (r: u8)
        ensures
            r == self.code(),
    {
        match self {
            PeerAddressType::Public => 0,
            PeerAddressType::Random => 1,
        }
    }

    /// Checked conversion from a wire value.
    pub fn from_u8(value: u8) -> (r: Result<PeerAddressType, ConversionError>)
        ensures
            r == PeerAddressType::try_from_code(value),
    {
        match value {
            0 => Ok(PeerAddressType::Public),
            1 => Ok(PeerAddressType::Random),
            _ => Err(ConversionError(())),
        }
    }
}

impl Default for PeerAddressType {
    fn default() -> (r: PeerAddressType)
        ensures
            r == PeerAddressType::Public,
    {
        PeerAddressType::Public
    }
}

impl From<PeerAddressType> for u8 {
    fn from(x: PeerAddressType) -> (r: u8) {
        x.to_u8()
    }
}

impl vstd::std_specs::convert::FromSpecImpl<PeerAddressType> for u8 {
    open spec fn obeys_from_spec() -> bool {
        true
    }

    open spec fn from_spec(x: PeerAddressType) -> u8 {
        x.code()
    }
}

impl TryFrom<u8> for PeerAddressType {
    type Error = ConversionError;

    fn try_from(value: u8) -> (r: Result<PeerAddressType, ConversionError>) {
        PeerAddressType::from_u8(value)
    }
}

impl vstd::std_specs::convert::TryFromSpecImpl<u8> for PeerAddressType {
    open spec fn obeys_try_from_spec() -> bool {
        true
    }

    open spec fn try_from_spec(value: u8) -> Result<PeerAddressType, ConversionError> {
        PeerAddressType::try_from_code(value)
    }
}

/// Kind of address the controller advertises with.
#[derive(Copy, Clone, Ord, PartialOrd, Eq, PartialEq, Structural, Hash, Debug)]
pub enum OwnAddressType {
    PublicDevice,
    RandomDevice,
    PrivateOrPublic,
    PrivateOrRandom,
}

impl OwnAddressType {
    pub const DEFAULT: OwnAddressType = OwnAddressType::PublicDevice;

    /// The value that stands for this variant on the wire.
    pub open spec fn code(self) -> u8 {
        match self {
            OwnAddressType::PublicDevice => 0u8,
            OwnAddressType::RandomDevice => 1u8,
            OwnAddressType::PrivateOrPublic => 2u8,
            OwnAddressType::PrivateOrRandom => 3u8,
        }
    }

    /// The variant that wire value `v` stands for, if any.
    pub open spec fn from_code(v: u8) -> Option<OwnAddressType> {
        if v == 0 {
            Some(OwnAddressType::PublicDevice)
        } else if v == 1 {
            Some(OwnAddressType::RandomDevice)
        } else if v == 2 {
            Some(OwnAddressType::PrivateOrPublic)
        } else if v == 3 {
            Some(OwnAddressType::PrivateOrRandom)
        } else {
            None
        }
    }

    pub open spec fn try_from_code(v: u8) -> Result<OwnAddressType, ConversionError> {
        match OwnAddressType::from_code(v) {
            Some(x) => Ok(x),
            None => Err(ConversionError(())),
        }
    }

    pub fn to_u8(self) -> (r: u8)
        ensures
            r == self.code(),
    {
        match self {
            OwnAddressType::PublicDevice => 0,
            OwnAddressType::RandomDevice => 1,
            OwnAddressType::PrivateOrPublic => 2,
            OwnAddressType::PrivateOrRandom => 3,
        }
    }

    /// Checked conversion from a wire value.
    pub fn from_u8(value: u8) -> (r: Result<OwnAddressType, ConversionError>)
        ensures
            r == OwnAddressType::try_from_code(value),
    {
        match value {
            0 => Ok(OwnAddressType::PublicDevice),
            1 => Ok(OwnAddressType::RandomDevice),
            2 => Ok(OwnAddressType::PrivateOrPublic),
            3 => Ok(OwnAddressType::PrivateOrRandom),
            _ => Err(ConversionError(())),
        }
    }
}

impl Default for OwnAddressType {
    fn default() -> (r: OwnAddressType)
        ensures
            r == OwnAddressType::PublicDevice,
    {
        OwnAddressType::PublicDevice
    }
}

impl From<OwnAddressType> for u8 {
    fn from(x: OwnAddressType) -> (r: u8) {
        x.to_u8()
    }
}

impl vstd::std_specs::convert::FromSpecImpl<OwnAddressType> for u8 {
    open spec fn obeys_from_spec() -> bool {
        true
    }

    open spec fn from_spec(x: OwnAddressType) -> u8 {
        x.code()
    }
}

impl TryFrom<u8> for OwnAddressType {
    type Error = ConversionError;

    fn try_from(value: u8) -> (r: Result<OwnAddressType, ConversionError>) {
        OwnAddressType::from_u8(value)
    }
}

impl vstd::std_specs::convert::TryFromSpecImpl<u8> for OwnAddressType {
    open spec fn obeys_try_from_spec() -> bool {
        true
    }

    open spec fn try_from_spec(value: u8) -> Result<OwnAddressType, ConversionError> {
        OwnAddressType::try_from_code(value)
    }
}

/// Which scan and connection requests the controller processes.
#[derive(Copy, Clone, Ord, PartialOrd, Eq, PartialEq, Structural, Hash, Debug)]
pub enum FilterPolicy {
    /// Scan and connection requests from all devices (the white list is not used).
    All,
    /// Connection requests from all devices, scan requests only from white-listed devices.
    ConnectionAllScanWhitelist,
    /// Scan requests from all devices, connection requests only from white-listed devices.
    ScanAllConnectionWhitelist,
    /// Scan and connection requests only from white-listed devices.
    Whitelist,
}

impl FilterPolicy {
    pub const DEFAULT: FilterPolicy = FilterPolicy::All;

    /// The value that stands for this variant on the wire.
    pub open spec fn code(self) -> u8 {
        match self {
            FilterPolicy::All => 0u8,
            FilterPolicy::ConnectionAllScanWhitelist => 1u8,
            FilterPolicy::ScanAllConnectionWhitelist => 2u8,
            FilterPolicy::Whitelist => 3u8,
        }
    }

    /// The variant that wire value `v` stands for, if any.
    pub open spec fn from_code(v: u8) -> Option<FilterPolicy> {
        if v == 0 {
            Some(FilterPolicy::All)
        } else if v == 1 {
            Some(FilterPolicy::ConnectionAllScanWhitelist)
        } else if v == 2 {
            Some(FilterPolicy::ScanAllConnectionWhitelist)
        } else if v == 3 {
            Some(FilterPolicy::Whitelist)
        } else {
            None
        }
    }

    pub open spec fn try_from_code(v: u8) -> Result<FilterPolicy, ConversionError> {
        match FilterPolicy::from_code(v) {
            Some(x) => Ok(x),
            None => Err(ConversionError(())),
        }
    }

    pub fn to_u8(self) -> (r: u8)
        ensures
            r == self.code(),
    {
        match self {
            FilterPolicy::All => 0,
            FilterPolicy::ConnectionAllScanWhitelist => 1,
            FilterPolicy::ScanAllConnectionWhitelist => 2,
            FilterPolicy::Whitelist => 3,
        }
    }

    /// Checked conversion from a wire value.
    pub fn from_u8(value: u8) -> (r: Result<FilterPolicy, ConversionError>)
        ensures
            r == FilterPolicy::try_from_code(value),
    {
        match value {
            0 => Ok(FilterPolicy::All),
            1 => Ok(FilterPolicy::ConnectionAllScanWhitelist),
            2 => Ok(FilterPolicy::ScanAllConnectionWhitelist),
            3 => Ok(FilterPolicy::Whitelist),
            _ => Err(ConversionError(())),
        }
    }
}

impl Default for FilterPolicy {
    fn default() -> (r: FilterPolicy)
        ensures
            r == FilterPolicy::All,
    {
        FilterPolicy::All
    }
}

impl From<FilterPolicy> for u8 {
    fn from(x: FilterPolicy) -> (r: u8) {
        x.to_u8()
    }
}

impl vstd::std_specs::convert::FromSpecImpl<FilterPolicy> for u8 {
    open spec fn obeys_from_spec() -> bool {
        true
    }

    open spec fn from_spec(x: FilterPolicy) -> u8 {
        x.code()
    }
}

impl TryFrom<u8> for FilterPolicy {
    type Error = ConversionError;

    fn try_from(value: u8) -> (r: Result<FilterPolicy, ConversionError>) {
        FilterPolicy::from_u8(value)
    }
}

impl vstd::std_specs::convert::TryFromSpecImpl<u8> for FilterPolicy {
    open spec fn obeys_try_from_spec() -> bool {
        true
    }

    open spec fn try_from_spec(value: u8) -> Result<FilterPolicy, ConversionError> {
        FilterPolicy::try_from_code(value)
    }
}

/// One of the three primary advertising channels.
#[derive(Copy, Clone, Ord, PartialOrd, Eq, PartialEq, Structural, Hash, Debug)]
pub enum Channels {
    Channel37,
    Channel38,
    Channel39,
}

impl Channels {
    /// The value that stands for this variant on the wire.
    pub open spec fn code(self) -> u8 {
        match self {
            Channels::Channel37 => 0u8,
            Channels::Channel38 => 1u8,
            Channels::Channel39 => 2u8,
        }
    }

    /// The variant that wire value `v` stands for, if any.
    pub open spec fn from_code(v: u8) -> Option<Channels> {
        if v == 0 {
            Some(Channels::Channel37)
        } else if v == 1 {
            Some(Channels::Channel38)
        } else if v == 2 {
            Some(Channels::Channel39)
        } else {
            None
        }
    }

    pub open spec fn try_from_code(v: u8) -> Result<Channels, ConversionError> {
        match Channels::from_code(v) {
            Some(x) => Ok(x),
            None => Err(ConversionError(())),
        }
    }

    pub fn to_u8(self) -> (r: u8)
        ensures
            r == self.code(),
    {
        match self {
            Channels::Channel37 => 0,
            Channels::Channel38 => 1,
            Channels::Channel39 => 2,
        }
    }

    /// Checked conversion from a wire value.
    pub fn from_u8(value: u8) -> (r: Result<Channels, ConversionError>)
        ensures
            r == Channels::try_from_code(value),
    {
        match value {
            0 => Ok(Channels::Channel37),
            1 => Ok(Channels::Channel38),
            2 => Ok(Channels::Channel39),
            _ => Err(ConversionError(())),
        }
    }
}

impl From<Channels> for u8 {
    fn from(x: Channels) -> (r: u8) {
        x.to_u8()
    }
}

impl vstd::std_specs::convert::FromSpecImpl<Channels> for u8 {
    open spec fn obeys_from_spec() -> bool {
        true
    }

    open spec fn from_spec(x: Channels) -> u8 {
        x.code()
    }
}

impl TryFrom<u8> for Channels {
    type Error = ConversionError;

    fn try_from(value: u8) -> (r: Result<Channels, ConversionError>) {
        Channels::from_u8(value)
    }
}

impl vstd::std_specs::convert::TryFromSpecImpl<u8> for Channels {
    open spec fn obeys_try_from_spec() -> bool {
        true
    }

    open spec fn try_from_spec(value: u8) -> Result<Channels, ConversionError> {
        Channels::try_from_code(value)
    }
}


/// Set of enabled advertising channels: bit `k` stands for the channel whose code is `k`.
#[derive(Copy, Clone, Ord, PartialOrd, Eq, PartialEq, Structural, Hash, Debug)]
pub struct ChannelMap(u8);

/// Whether `c`'s bit is set in channel mask `m`.
pub open spec fn channel_bit(m: u8, c: Channels) -> bool {
    (m >> c.code()) & 1u8 == 1u8
}

proof fn lemma_channel_bits(m: u8, k: u8, j: u8)
    requires
        k < 3,
        j < 3,
    ensures
        ((m | (1u8 << k)) >> j) & 1u8 == 1u8 <==> (j == k || (m >> j) & 1u8 == 1u8),
        ((m & !(1u8 << k)) >> j) & 1u8 == 1u8 <==> (j != k && (m >> j) & 1u8 == 1u8),
        (m & (1u8 << k) != 0) <==> (m >> k) & 1u8 == 1u8,
        m <= 7 ==> (m | (1u8 << k)) <= 7,
        m & !(1u8 << k) <= m,
{
    assert(((m | (1u8 << k)) >> j) & 1u8 == 1u8 <==> (j == k || (m >> j) & 1u8 == 1u8))
        by (bit_vector)
        requires
            k < 3,
            j < 3,
    ;
    assert(((m & !(1u8 << k)) >> j) & 1u8 == 1u8 <==> (j != k && (m >> j) & 1u8 == 1u8))
        by (bit_vector)
        requires
            k < 3,
            j < 3,
    ;
    assert((m & (1u8 << k) != 0) <==> (m >> k) & 1u8 == 1u8) by (bit_vector)
        requires
            k < 3,
    ;
    assert(m <= 7 ==> (m | (1u8 << k)) <= 7) by (bit_vector)
        requires
            k < 3,
    ;
    assert(m & !(1u8 << k) <= m) by (bit_vector);
}

impl ChannelMap {
    pub const ALL_U8: u8 = 0x07;

    pub closed spec fn bits(self) -> u8 {
        self.0
    }

    pub open spec fn wf(self) -> bool {
        self.bits() <= ChannelMap::ALL_U8
    }

    pub open spec fn has(self, c: Channels) -> bool {
        channel_bit(self.bits(), c)
    }

    /// The map with no channel enabled.
    pub fn zeroed() -> (r: ChannelMap)
        ensures
            r.bits() == 0,
    {
        ChannelMap(0)
    }

    /// The map with all three channels enabled.
    pub fn all() -> (r: ChannelMap)
        ensures
            r.bits() == ChannelMap::ALL_U8,
    {
        ChannelMap(Self::ALL_U8)
    }

    /// Creates a map from a mask the caller knows to use only the three channel bits.
    pub fn new(map: u8) -> (r: ChannelMap)
        requires
            map <= ChannelMap::ALL_U8,
        ensures
            r.bits() == map,
            r.wf(),
    {
        ChannelMap(map)
    }

    pub fn enable_channel(&mut self, channel: Channels)
        ensures
            final(self).bits() == old(self).bits() | (1u8 << channel.code()),
            forall|c: Channels| #[trigger]
                final(self).has(c) <==> (c == channel || old(self).has(c)),
            old(self).wf() ==> final(self).wf(),
    {
        let k = channel.to_u8();
        proof {
            assert forall|c: Channels| #[trigger]
                channel_bit(self.0 | (1u8 << k), c) <==> (c == channel || channel_bit(self.0, c)) by {
                lemma_channel_bits(self.0, k, c.code());
            }
            lemma_channel_bits(self.0, k, 0);
        }
        self.0 = self.0 | (1u8 << k);
    }

    pub fn disable_channel(&mut self, channel: Channels)
        ensures
            final(self).bits() == old(self).bits() & !(1u8 << channel.code()),
            forall|c: Channels| #[trigger]
                final(self).has(c) <==> (c != channel && old(self).has(c)),
            old(self).wf() ==> final(self).wf(),
    {
        let k = channel.to_u8();
        proof {
            assert forall|c: Channels| #[trigger]
                channel_bit(self.0 & !(1u8 << k), c) <==> (c != channel && channel_bit(self.0, c)) by {
                lemma_channel_bits(self.0, k, c.code());
            }
            lemma_channel_bits(self.0, k, 0);
        }
        self.0 = self.0 & !(1u8 << k);
    }

    pub fn get_channel(self, channel: Channels) -> (r: bool)
        ensures
            r == self.has(channel),
    {
        let k = channel.to_u8();
        proof {
            lemma_channel_bits(self.0, k, 0);
        }
        self.0 & (1u8 << k) != 0
    }

    pub fn to_u8(self) -> (r: u8)
        ensures
            r == self.bits(),
    {
        self.0
    }

    /// Checked conversion from a mask; bits other than the three channel bits are refused.
    pub fn from_u8(value: u8) -> (r: Result<ChannelMap, ConversionError>)
        ensures
            r == ChannelMap::from_u8_spec(value),
            match r {
                Ok(m) => value <= ChannelMap::ALL_U8 && m.bits() == value,
                Err(_) => value > ChannelMap::ALL_U8,
            },
    {
        if value <= Self::ALL_U8 {
            Ok(ChannelMap(value))
        } else {
            Err(ConversionError(()))
        }
    }

    pub closed spec fn from_u8_spec(value: u8) -> Result<ChannelMap, ConversionError> {
        if value <= ChannelMap::ALL_U8 {
            Ok(ChannelMap(value))
        } else {
            Err(ConversionError(()))
        }
    }
}

impl Default for ChannelMap {
    fn default() -> (r: ChannelMap)
        ensures
            r.bits() == ChannelMap::ALL_U8,
    {
        ChannelMap::all()
    }
}

impl From<ChannelMap> for u8 {
    fn from(m: ChannelMap) -> (r: u8) {
        m.to_u8()
    }
}

impl vstd::std_specs::convert::FromSpecImpl<ChannelMap> for u8 {
    open spec fn obeys_from_spec() -> bool {
        true
    }

    open spec fn from_spec(m: ChannelMap) -> u8 {
        m.bits()
    }
}

impl TryFrom<u8> for ChannelMap {
    type Error = ConversionError;

    fn try_from(value: u8) -> (r: Result<ChannelMap, ConversionError>) {
        ChannelMap::from_u8(value)
    }
}

impl vstd::std_specs::convert::TryFromSpecImpl<u8> for ChannelMap {
    open spec fn obeys_try_from_spec() -> bool {
        true
    }

    open spec fn try_from_spec(value: u8) -> Result<ChannelMap, ConversionError> {
        ChannelMap::from_u8_spec(value)
    }
}


/// The parameter block of the advertising-parameters command.
#[derive(Copy, Clone, Ord, PartialOrd, Eq, PartialEq, Hash, Debug)]
pub struct AdvertisingParameters {
    pub interval_min: AdvertisingInterval,
    pub interval_max: AdvertisingInterval,
    pub advertising_type: AdvertisingType,
    pub own_address_type: OwnAddressType,
    pub peer_address_type: PeerAddressType,
    pub peer_address: BTAddress,
    pub channel_map: ChannelMap,
    pub filter_policy: FilterPolicy,
}

/// The number two bytes stand for, least significant first.
pub open spec fn le16(b0: u8, b1: u8) -> int {
    b0 + 256 * b1
}

/// Whether a block of the right length holds a valid value in every field.
pub open spec fn parameter_bytes_valid(b: Seq<u8>) -> bool {
    &&& interval_in_range(le16(b[0], b[1]))
    &&& interval_in_range(le16(b[2], b[3]))
    &&& AdvertisingType::from_code(b[4]) is Some
    &&& OwnAddressType::from_code(b[5]) is Some
    &&& PeerAddressType::from_code(b[6]) is Some
    &&& b[13] <= ChannelMap::ALL_U8
    &&& FilterPolicy::from_code(b[14]) is Some
}

/// Where the first invalid field of a block starts.
pub open spec fn first_invalid_field(b: Seq<u8>) -> usize {
    if !interval_in_range(le16(b[0], b[1])) {
        0
    } else if !interval_in_range(le16(b[2], b[3])) {
        2
    } else if AdvertisingType::from_code(b[4]) is None {
        4
    } else if OwnAddressType::from_code(b[5]) is None {
        5
    } else if PeerAddressType::from_code(b[6]) is None {
        6
    } else if b[13] > ChannelMap::ALL_U8 {
        13
    } else {
        14
    }
}

impl AdvertisingParameters {
    /// interval_min (2) + interval_max (2) + advertising_type (1) + own_address_type (1) +
    /// peer_address_type (1) + peer_address (6) + channel_map (1) + filter_policy (1)
    pub const BYTE_LEN: usize = AdvertisingInterval::BYTE_LEN * 2 + 1 + 1 + 1 + BT_ADDRESS_LEN + 1
        + 1;

    pub open spec fn wf(self) -> bool {
        &&& self.interval_min.wf()
        &&& self.interval_max.wf()
        &&& self.channel_map.wf()
    }

    /// The block's bytes, fields in declaration order, integers least significant first.
    pub open spec fn to_bytes(self) -> Seq<u8> {
        u16_le(self.interval_min.units()) + u16_le(self.interval_max.units()) + seq![
            self.advertising_type.code(),
            self.own_address_type.code(),
            self.peer_address_type.code(),
        ] + self.peer_address.0@ + seq![self.channel_map.bits(), self.filter_policy.code()]
    }

    /// These parameters with `peer_address` replaced.
    pub fn with_address(self, address: BTAddress) -> (r: AdvertisingParameters)
        ensures
            r == (AdvertisingParameters { peer_address: address, ..self }),
    {
        AdvertisingParameters { peer_address: address, ..self }
    }

    /// These parameters with both interval bounds replaced.
    pub fn with_interval(
        self,
        interval_min: AdvertisingInterval,
        interval_max: AdvertisingInterval,
    ) -> (r: AdvertisingParameters)
        ensures
            r == (AdvertisingParameters { interval_min, interval_max, ..self }),
    {
        AdvertisingParameters { interval_min, interval_max, ..self }
    }

    fn to_array(&self) -> (r: [u8; 15])
        ensures
            r@ == self.to_bytes(),
    {
        let min = self.interval_min.to_u16();
        let max = self.interval_max.to_u16();
        let a = self.peer_address.0;
        let r = [
            (min % 256) as u8,
            (min / 256) as u8,
            (max % 256) as u8,
            (max / 256) as u8,
            self.advertising_type.to_u8(),
            self.own_address_type.to_u8(),
            self.peer_address_type.to_u8(),
            a[0],
            a[1],
            a[2],
            a[3],
            a[4],
            a[5],
            self.channel_map.to_u8(),
            self.filter_policy.to_u8(),
        ];
        assert(r@ =~= self.to_bytes());
        r
    }

    /// Writes the block into a buffer of exactly `BYTE_LEN` bytes; on a length
    /// mismatch the buffer is left as it was.
    pub fn pack_into(&self, buf: &mut [u8]) -> (r: Result<(), PackError>)
        ensures
            old(buf)@.len() == AdvertisingParameters::BYTE_LEN ==> r == Ok::<(), PackError>(())
                && final(buf)@ == self.to_bytes(),
            old(buf)@.len() != AdvertisingParameters::BYTE_LEN ==> r == Err::<(), PackError>(
                PackError::BadLength {
                    expected: AdvertisingParameters::BYTE_LEN,
                    got: old(buf)@.len() as usize,
                },
            ) && final(buf)@ == old(buf)@,
    {
        match PackError::expect_length(Self::BYTE_LEN, buf) {
            Ok(()) => {},
            Err(e) => {
                return Err(e);
            },
        }
        let bytes = self.to_array();
        let mut i: usize = 0;
        while i < Self::BYTE_LEN
            invariant
                0 <= i <= AdvertisingParameters::BYTE_LEN,
                buf@.len() == AdvertisingParameters::BYTE_LEN,
                bytes@ == self.to_bytes(),
                forall|k: int| 0 <= k < i ==> buf@[k] == bytes@[k],
            decreases AdvertisingParameters::BYTE_LEN - i,
        {
            buf[i] = bytes[i];
            i = i + 1;
        }
        assert(buf@ =~= self.to_bytes());
        Ok(())
    }

    /// Reads a block from a buffer of exactly `BYTE_LEN` bytes, refusing the
    /// first field that holds an out-of-range value.
    pub fn unpack_from(buf: &[u8]) -> (r: Result<AdvertisingParameters, PackError>)
        ensures
            buf@.len() != AdvertisingParameters::BYTE_LEN ==> r == Err::<
                AdvertisingParameters,
                PackError,
            >(
                PackError::BadLength {
                    expected: AdvertisingParameters::BYTE_LEN,
                    got: buf@.len() as usize,
                },
            ),
            buf@.len() == AdvertisingParameters::BYTE_LEN && parameter_bytes_valid(buf@) ==> (r matches Ok(p)
                && p.wf() && p.to_bytes() == buf@),
            buf@.len() == AdvertisingParameters::BYTE_LEN && !parameter_bytes_valid(buf@) ==> r
                == Err::<AdvertisingParameters, PackError>(
                PackError::BadBytes { index: Some(first_invalid_field(buf@)) },
            ),
    {
        match PackError::expect_length(Self::BYTE_LEN, buf) {
            Ok(()) => {},
            Err(e) => {
                return Err(e);
            },
        }
        let interval_min = match AdvertisingInterval::from_u16(buf[0] as u16 + 256 * buf[1] as u16) {
            Ok(i) => i,
            Err(_) => {
                return Err(PackError::bad_index(0));
            },
        };
        let interval_max = match AdvertisingInterval::from_u16(buf[2] as u16 + 256 * buf[3] as u16) {
            Ok(i) => i,
            Err(_) => {
                return Err(PackError::bad_index(2));
            },
        };
        let advertising_type = match AdvertisingType::from_u8(buf[4]) {
            Ok(t) => t,
            Err(_) => {
                return Err(PackError::bad_index(4));
            },
        };
        let own_address_type = match OwnAddressType::from_u8(buf[5]) {
            Ok(t) => t,
            Err(_) => {
                return Err(PackError::bad_index(5));
            },
        };
        let peer_address_type = match PeerAddressType::from_u8(buf[6]) {
            Ok(t) => t,
            Err(_) => {
                return Err(PackError::bad_index(6));
            },
        };
        let peer_address = BTAddress([buf[7], buf[8], buf[9], buf[10], buf[11], buf[12]]);
        let channel_map = match ChannelMap::from_u8(buf[13]) {
            Ok(m) => m,
            Err(_) => {
                return Err(PackError::bad_index(13));
            },
        };
        let filter_policy = match FilterPolicy::from_u8(buf[14]) {
            Ok(f) => f,
            Err(_) => {
                return Err(PackError::bad_index(14));
            },
        };
        let p = AdvertisingParameters {
            interval_min,
            interval_max,
            advertising_type,
            own_address_type,
            peer_address_type,
            peer_address,
            channel_map,
            filter_policy,
        };
        assert(p.to_bytes() =~= buf@);
        Ok(p)
    }
}

impl Default for AdvertisingParameters {
    /// Default interval for both bounds, undirected connectable advertising from the
    /// public address, all channels, no white list.
    fn default() -> (r: AdvertisingParameters)
        ensures
            r.interval_min.units() == AdvertisingInterval::DEFAULT_U16,
            r.interval_max.units() == AdvertisingInterval::DEFAULT_U16,
            r.advertising_type == AdvertisingType::DEFAULT,
            r.own_address_type == OwnAddressType::DEFAULT,
            r.peer_address_type == PeerAddressType::DEFAULT,
            r.peer_address.0@ == seq![0u8, 0u8, 0u8, 0u8, 0u8, 0u8],
            r.channel_map.bits() == ChannelMap::ALL_U8,
            r.filter_policy == FilterPolicy::DEFAULT,
            r.wf(),
    {
        AdvertisingParameters {
            interval_min: AdvertisingInterval::default(),
            interval_max: AdvertisingInterval::default(),
            advertising_type: AdvertisingType::DEFAULT,
            own_address_type: OwnAddressType::DEFAULT,
            peer_address_type: PeerAddressType::DEFAULT,
            peer_address: BTAddress::zeroed(),
            channel_map: ChannelMap::all(),
            filter_policy: FilterPolicy::DEFAULT,
        }
    }
}


/// An interval can be made from exactly the values in `[0x0020, 0x4000]`, and
/// converting the result again gives the same interval.
pub proof fn lemma_interval_range(v: u16)
    ensures
        AdvertisingInterval::from_u16_spec(v) is Ok <==> interval_in_range(v as int),
        AdvertisingInterval::from_u16_spec(v) matches Ok(i) ==> i.units() == v
            && AdvertisingInterval::from_u16_spec(i.units()) == AdvertisingInterval::from_u16_spec(
            v,
        ),
{
}

/// A valid interval read back from its unit count is the interval that was written.
pub proof fn lemma_interval_round_trip(i: AdvertisingInterval)
    requires
        i.wf(),
    ensures
        AdvertisingInterval::from_u16_spec(i.units()) == Ok::<AdvertisingInterval, ConversionError>(i),
        u16_le(i.units()).len() == AdvertisingInterval::BYTE_LEN,
{
}

/// Each enumerated parameter read back from its wire value is the value that was written.
pub proof fn lemma_codes_round_trip(
    t: AdvertisingType,
    p: PeerAddressType,
    o: OwnAddressType,
    f: FilterPolicy,
    c: Channels,
)
    ensures
        AdvertisingType::from_code(t.code()) == Some(t),
        PeerAddressType::from_code(p.code()) == Some(p),
        OwnAddressType::from_code(o.code()) == Some(o),
        FilterPolicy::from_code(f.code()) == Some(f),
        Channels::from_code(c.code()) == Some(c),
{
}

/// A valid channel map read back from its mask is the map that was written.
pub proof fn lemma_channel_map_round_trip(m: ChannelMap)
    requires
        m.wf(),
    ensures
        ChannelMap::from_u8_spec(m.bits()) == Ok::<ChannelMap, ConversionError>(m),
{
}

/// A parameter block is `2 + 2 + 1 + 1 + 1 + 6 + 1 + 1 = 15` bytes long.
pub proof fn lemma_parameter_block_len()
    ensures
        AdvertisingParameters::BYTE_LEN == 2 + 2 + 1 + 1 + 1 + 6 + 1 + 1,
        AdvertisingParameters::BYTE_LEN == 15,
{
}

/// Valid parameters pack to exactly `BYTE_LEN` bytes that hold a valid value in every
/// field, and the only valid parameters that pack to those bytes are the parameters
/// themselves: unpacking what was packed gives back what was packed.
pub proof fn lemma_parameters_round_trip(p: AdvertisingParameters, q: AdvertisingParameters)
    requires
        p.wf(),
        q.wf(),
    ensures
        p.to_bytes().len() == AdvertisingParameters::BYTE_LEN,
        parameter_bytes_valid(p.to_bytes()),
        q.to_bytes() == p.to_bytes() ==> q == p,
{
    let b = p.to_bytes();
    assert(b[0] == p.interval_min.units() % 256 && b[1] == p.interval_min.units() / 256);
    assert(b[2] == p.interval_max.units() % 256 && b[3] == p.interval_max.units() / 256);
    assert(b[4] == p.advertising_type.code());
    assert(b[5] == p.own_address_type.code());
    assert(b[6] == p.peer_address_type.code());
    assert(b[13] == p.channel_map.bits());
    assert(b[14] == p.filter_policy.code());
    lemma_codes_round_trip(
        p.advertising_type,
        p.peer_address_type,
        p.own_address_type,
        p.filter_policy,
        Channels::Channel37,
    );
    if q.to_bytes() == b {
        let c = q.to_bytes();
        assert(c[0] == q.interval_min.units() % 256 && c[1] == q.interval_min.units() / 256);
        assert(c[2] == q.interval_max.units() % 256 && c[3] == q.interval_max.units() / 256);
        assert(c[4] == q.advertising_type.code());
        assert(c[5] == q.own_address_type.code());
        assert(c[6] == q.peer_address_type.code());
        assert(c[13] == q.channel_map.bits());
        assert(c[14] == q.filter_policy.code());
        lemma_codes_round_trip(
            q.advertising_type,
            q.peer_address_type,
            q.own_address_type,
            q.filter_policy,
            Channels::Channel37,
        );
        assert(q.interval_min.units() == p.interval_min.units());
        assert(q.interval_max.units() == p.interval_max.units());
        assert(q.channel_map.bits() == p.channel_map.bits());
        assert(q.interval_min == p.interval_min);
        assert(q.interval_max == p.interval_max);
        assert(q.channel_map == p.channel_map);
        assert forall|k: int| 0 <= k < 6 implies q.peer_address.0@[k] == p.peer_address.0@[k] by {
            assert(c[7 + k] == q.peer_address.0@[k]);
            assert(b[7 + k] == p.peer_address.0@[k]);
        }
        assert(q.peer_address.0 =~= p.peer_address.0);
    }
}

} // verus!
