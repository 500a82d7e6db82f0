//! Host Controller Interface wire layer for Bluetooth Low Energy controllers: the
//! fixed-width values that travel between host and controller, with their byte
//! layouts and validated ranges.
pub mod address_text;
pub mod hci;
pub mod le;

use vstd::prelude::*;

verus! {

/// Byte packing/unpacking error, for a value packed into or unpacked from a byte buffer.
#[derive(Copy, Clone, Ord, PartialOrd, Eq, PartialEq, Structural, Hash, Debug)]
pub enum PackError {
    BadOpcode,
    BadLength { expected: usize, got: usize },
    BadBytes { index: Option<usize> },
    InvalidFields,
}

impl PackError {
    /// Checks that `buf` is exactly `expected` bytes long.
    pub fn expect_length(expected: usize, buf: &[u8]) -> (r: Result<(), PackError>)
        ensures
            buf@.len() == expected ==> r == Ok::<(), PackError>(()),
            buf@.len() != expected ==> r == Err::<(), PackError>(
                PackError::BadLength { expected, got: buf@.len() as usize },
            ),
    {
        if buf.len() == expected {
            Ok(())
        } else {
            Err(PackError::BadLength { expected, got: buf.len() })
        }
    }

    /// Checks that `buf` holds at least `expected` bytes.
    pub fn atleast_length(expected: usize, buf: &[u8]) -> (r: Result<(), PackError>)
        ensures
            buf@.len() >= expected ==> r == Ok::<(), PackError>(()),
            buf@.len() < expected ==> r == Err::<(), PackError>(
                PackError::BadLength { expected, got: buf@.len() as usize },
            ),
    {
        if buf.len() >= expected {
            Ok(())
        } else {
            Err(PackError::BadLength { expected, got: buf.len() })
        }
    }

    /// The error for an unexpected byte at `index`.
    pub fn bad_index(index: usize) -> (r: PackError)
        ensures
            r == (PackError::BadBytes { index: Some(index) }),
    {
        PackError::BadBytes { index: Some(index) }
    }
}


/// Failure to convert a value to or from its wire form because the value is out of range.
#[derive(Copy, Clone, Ord, PartialOrd, Eq, PartialEq, Hash, Debug)]
pub struct ConversionError(pub ());

/// Received Signal Strength Indicator in dBm, within `[-127, 20]`.
#[derive(Copy, Clone, Ord, PartialOrd, Eq, PartialEq, Structural, Hash, Debug)]
pub struct RSSI(i8);

/// The dBm values that an `RSSI` can hold.
pub open spec fn rssi_in_range(dbm: int) -> bool {
    RSSI::MIN_RSSI_I8 <= dbm <= RSSI::MAX_RSSI_I8
}

impl RSSI {
    pub const MIN_RSSI_I8: i8 = -127;

    pub const MAX_RSSI_I8: i8 = 20;

    /// The wire value a controller sends when it has no signal strength to report.
    pub const UNSUPPORTED_RSSI: i8 = 127;

    pub closed spec fn dbm(self) -> i8 {
        self.0
    }

    pub closed spec fn wf(self) -> bool {
        rssi_in_range(self.0 as int)
    }

    /// The strongest signal an `RSSI` can hold, 20 dBm.
    pub fn max_rssi() -> (r: RSSI)
        ensures
            r.dbm() == RSSI::MAX_RSSI_I8,
            r.wf(),
    {
        RSSI(Self::MAX_RSSI_I8)
    }

    /// The weakest signal an `RSSI` can hold, -127 dBm.
    pub fn min_rssi() -> (r: RSSI)
        ensures
            r.dbm() == RSSI::MIN_RSSI_I8,
            r.wf(),
    {
        RSSI(Self::MIN_RSSI_I8)
    }

    /// Creates an `RSSI` from a value the caller already knows to be in range.
    pub fn new(dbm: i8) -> (r: RSSI)
        requires
            rssi_in_range(dbm as int),
        ensures
            r.dbm() == dbm,
            r.wf(),
    {
        RSSI(dbm)
    }

    /// Reads an RSSI byte as sent by a controller: a value in range, the
    /// "unsupported" marker, or an error.
    pub fn maybe_rssi(val: i8) -> (r: Result<Option<RSSI>, ConversionError>)
        ensures
            match r {
                Ok(Some(x)) => rssi_in_range(val as int) && x.dbm() == val && x.wf(),
                Ok(None) => val == RSSI::UNSUPPORTED_RSSI,
                Err(_) => !rssi_in_range(val as int) && val != RSSI::UNSUPPORTED_RSSI,
            },
    {
        if RSSI::MIN_RSSI_I8 <= val && val <= RSSI::MAX_RSSI_I8 {
            Ok(Some(RSSI(val)))
        } else if val == RSSI::UNSUPPORTED_RSSI {
            Ok(None)
        } else {
            Err(ConversionError(()))
        }
    }

    /// Checked conversion from a signed dBm value.
    pub fn from_i8(value: i8) -> (r: Result<RSSI, ConversionError>)
        ensures
            r == Self::from_i8_spec(value),
            match r {
                Ok(x) => rssi_in_range(value as int) && x.dbm() == value && x.wf(),
                Err(_) => !rssi_in_range(value as int),
            },
    {
        if value > RSSI::MAX_RSSI_I8 || value < RSSI::MIN_RSSI_I8 {
            Err(ConversionError(()))
        } else {
            Ok(RSSI(value))
        }
    }

    pub closed spec fn from_i8_spec(value: i8) -> Result<RSSI, ConversionError> {
        if rssi_in_range(value as int) {
            Ok(RSSI(value))
        } else {
            Err(ConversionError(()))
        }
    }

    /// The dBm value as a signed byte.
    pub fn to_i8(self) -> (r: i8)
        ensures
            r == self.dbm(),
    {
        self.0
    }

    /// The dBm value as the two's-complement byte sent on the wire.
    pub fn to_u8(self) -> (r: u8)
        ensures
            r == i8_wire_byte(self.dbm()),
    {
        if self.0 >= 0 {
            self.0 as u8
        } else {
            (self.0 as i16 + 256) as u8
        }
    }

    /// Checked conversion from the two's-complement wire byte.
    pub fn from_u8(value: u8) -> (r: Result<RSSI, ConversionError>)
        ensures
            r == Self::from_i8_spec(u8_wire_value(value)),
            match r {
                Ok(x) => rssi_in_range(u8_wire_value(value) as int) && x.dbm() == u8_wire_value(value),
                Err(_) => !rssi_in_range(u8_wire_value(value) as int),
            },
    {
        let signed: i8 = if value < 128 {
            value as i8
        } else {
            (value as i16 - 256) as i8
        };
        RSSI::from_i8(signed)
    }
}

/// The two's-complement byte of a signed byte.
pub open spec fn i8_wire_byte(v: i8) -> u8 {
    if v >= 0 {
        v as u8
    } else {
        (v + 256) as u8
    }
}

/// The signed byte that a two's-complement byte stands for.
pub open spec fn u8_wire_value(b: u8) -> i8 {
    if b < 128 {
        b as i8
    } else {
        (b - 256) as i8
    }
}

impl Default for RSSI {
    fn default() -> (r: RSSI)
        ensures
            r.dbm() == 0,
    {
        RSSI(0)
    }
}

impl From<RSSI> for i8 {
    fn from(rssi: RSSI) -> (r: i8) {
        rssi.to_i8()
    }
}

impl vstd::std_specs::convert::FromSpecImpl<RSSI> for i8 {
    open spec fn obeys_from_spec() -> bool {
        true
    }

    open spec fn from_spec(rssi: RSSI) -> i8 {
        rssi.dbm()
    }
}

impl From<RSSI> for u8 {
    fn from(rssi: RSSI) -> (r: u8) {
        rssi.to_u8()
    }
}

impl vstd::std_specs::convert::FromSpecImpl<RSSI> for u8 {
    open spec fn obeys_from_spec() -> bool {
        true
    }

    open spec fn from_spec(rssi: RSSI) -> u8 {
        i8_wire_byte(rssi.dbm())
    }
}

impl TryFrom<i8> for RSSI {
    type Error = ConversionError;

    fn try_from(value: i8) -> (r: Result<RSSI, ConversionError>) {
        RSSI::from_i8(value)
    }
}

impl vstd::std_specs::convert::TryFromSpecImpl<i8> for RSSI {
    open spec fn obeys_try_from_spec() -> bool {
        true
    }

    open spec fn try_from_spec(value: i8) -> Result<RSSI, ConversionError> {
        RSSI::from_i8_spec(value)
    }
}

impl TryFrom<u8> for RSSI {
    type Error = ConversionError;

    fn try_from(value: u8) -> (r: Result<RSSI, ConversionError>) {
        RSSI::from_u8(value)
    }
}

impl vstd::std_specs::convert::TryFromSpecImpl<u8> for RSSI {
    open spec fn obeys_try_from_spec() -> bool {
        true
    }

    open spec fn try_from_spec(value: u8) -> Result<RSSI, ConversionError> {
        RSSI::from_i8_spec(u8_wire_value(value))
    }
}

/// Signal strength in milli-dBm: -100 dBm is `MilliDBM(-100_000)`.
#[derive(Copy, Clone, Eq, PartialEq, Structural, Ord, PartialOrd, Hash, Debug)]
pub struct MilliDBM(pub i32);

impl MilliDBM {
    pub fn new(milli_dbm: i32) -> (r: MilliDBM)
        ensures
            r.0 == milli_dbm,
    {
        MilliDBM(milli_dbm)
    }
}

/// Length of a Bluetooth device address in bytes.
pub const BT_ADDRESS_LEN: usize = 6;

/// Bluetooth device address: six bytes, least significant first.
#[derive(Copy, Clone, Eq, PartialEq, Ord, PartialOrd, Hash, Debug)]
pub struct BTAddress(pub [u8; 6]);

/// The kind of a device address, read from the two most significant bits of its last byte.
#[derive(Copy, Clone, PartialOrd, PartialEq, Structural, Ord, Eq, Debug, Hash)]
pub enum AddressType {
    NonResolvablePrivate,
    ResolvablePrivateAddress,
    RFU,
    StaticDevice,
}

/// The address type that the top two bits of `last` select.
pub open spec fn address_type_of(last: u8) -> AddressType {
    let bits = last / 64;
    if bits == 0 {
        AddressType::NonResolvablePrivate
    } else if bits == 1 {
        AddressType::ResolvablePrivateAddress
    } else if bits == 3 {
        AddressType::StaticDevice
    } else {
        AddressType::RFU
    }
}

/// The number that three bytes stand for, least significant first.
pub open spec fn le24(b0: u8, b1: u8, b2: u8) -> int {
    b0 + 256 * b1 + 65536 * b2
}

/// The number that an address's six bytes stand for, least significant first.
pub open spec fn address_value(a: [u8; 6]) -> int {
    le24(a[0], a[1], a[2]) + 16777216 * le24(a[3], a[4], a[5])
}

/// 2^48, one past the largest address value.
pub open spec fn address_modulus() -> int {
    0x1_0000_0000_0000
}

impl BTAddress {
    pub const LEN: usize = 6;

    /// The all-zero address.
    pub fn zeroed() -> (r: BTAddress)
        ensures
            r.0@ == seq![0u8, 0u8, 0u8, 0u8, 0u8, 0u8],
    {
        let r = BTAddress([0u8, 0u8, 0u8, 0u8, 0u8, 0u8]);
        assert(r.0@ =~= seq![0u8, 0u8, 0u8, 0u8, 0u8, 0u8]);
        r
    }

    /// Creates an address from a slice the caller knows to be six bytes long.
    pub fn new(bytes: &[u8]) -> (r: BTAddress)
        requires
            bytes@.len() == BT_ADDRESS_LEN,
        ensures
            r.0@ == bytes@,
    {
        let r = BTAddress([bytes[0], bytes[1], bytes[2], bytes[3], bytes[4], bytes[5]]);
        assert(r.0@ =~= bytes@);
        r
    }

    /// The address held in the six low bytes of `u`.
    pub fn from_u64(u: u64) -> (r: BTAddress)
        ensures
            address_value(r.0) == u as int % address_modulus(),
    {
        let b0 = (u & 0xff) as u8;
        let b1 = ((u >> 8) & 0xff) as u8;
        let b2 = ((u >> 16) & 0xff) as u8;
        let b3 = ((u >> 24) & 0xff) as u8;
        let b4 = ((u >> 32) & 0xff) as u8;
        let b5 = ((u >> 40) & 0xff) as u8;
        assert(b0 + 256 * b1 + 65536 * b2 + 16777216 * (b3 + 256 * b4 + 65536 * b5)
            == u % 0x1_0000_0000_0000) by (bit_vector)
            requires
                b0 == (u & 0xff) as u8,
                b1 == ((u >> 8) & 0xff) as u8,
                b2 == ((u >> 16) & 0xff) as u8,
                b3 == ((u >> 24) & 0xff) as u8,
                b4 == ((u >> 32) & 0xff) as u8,
                b5 == ((u >> 40) & 0xff) as u8,
        ;
        BTAddress([b0, b1, b2, b3, b4, b5])
    }

    /// The number the address stands for, least significant byte first.
    pub fn to_u64(self) -> (r: u64)
        ensures
            r as int == address_value(self.0),
    {
        let a = self.0;
        let b0 = a[0];
        let b1 = a[1];
        let b2 = a[2];
        let b3 = a[3];
        let b4 = a[4];
        let b5 = a[5];
        let r = (b0 as u64) | ((b1 as u64) << 8) | ((b2 as u64) << 16) | ((b3 as u64) << 24) | ((
        b4 as u64) << 32) | ((b5 as u64) << 40);
        assert(r == b0 + 256 * b1 + 65536 * b2 + 16777216 * (b3 + 256 * b4 + 65536 * b5))
            by (bit_vector)
            requires
                r == (b0 as u64) | ((b1 as u64) << 8) | ((b2 as u64) << 16) | ((b3 as u64) << 24)
                    | ((b4 as u64) << 32) | ((b5 as u64) << 40),
        ;
        r
    }

    /// Reads an address from a buffer that must be exactly six bytes long.
    pub fn unpack_from(bytes: &[u8]) -> (r: Result<BTAddress, PackError>)
        ensures
            bytes@.len() == BT_ADDRESS_LEN ==> (r matches Ok(a) && a.0@ == bytes@),
            bytes@.len() != BT_ADDRESS_LEN ==> r == Err::<BTAddress, PackError>(
                PackError::BadLength { expected: BT_ADDRESS_LEN, got: bytes@.len() as usize },
            ),
    {
        match PackError::expect_length(BT_ADDRESS_LEN, bytes) {
            Ok(()) => Ok(BTAddress::new(bytes)),
            Err(e) => Err(e),
        }
    }

    /// Writes the address into a buffer that must be exactly six bytes long; on
    /// a length mismatch the buffer is left as it was.
    pub fn pack_into(self, bytes: &mut [u8]) -> (r: Result<(), PackError>)
        ensures
            old(bytes)@.len() == BT_ADDRESS_LEN ==> r == Ok::<(), PackError>(())
                && final(bytes)@ == self.0@,
            old(bytes)@.len() != BT_ADDRESS_LEN ==> r == Err::<(), PackError>(
                PackError::BadLength { expected: BT_ADDRESS_LEN, got: old(bytes)@.len() as usize },
            ) && final(bytes)@ == old(bytes)@,
    {
        match PackError::expect_length(BT_ADDRESS_LEN, bytes) {
            Ok(()) => {
                let mut i: usize = 0;
                while i < BT_ADDRESS_LEN
                    invariant
                        0 <= i <= BT_ADDRESS_LEN,
                        bytes@.len() == BT_ADDRESS_LEN,
                        forall|k: int| 0 <= k < i ==> bytes@[k] == self.0@[k],
                    decreases BT_ADDRESS_LEN - i,
                {
                    bytes[i] = self.0[i];
                    i = i + 1;
                }
                assert(bytes@ =~= self.0@);
                Ok(())
            },
            Err(e) => Err(e),
        }
    }

    /// The address type, from the two most significant bits of the last byte.
    pub fn address_type(self) -> (r: AddressType)
        ensures
            r == address_type_of(self.0[5]),
    {
        let last = self.0[BT_ADDRESS_LEN - 1];
        let bits = (last & 0xC0) >> 6;
        assert(bits == last / 64) by (bit_vector)
            requires
                bits == (last & 0xC0) >> 6,
        ;
        if bits == 0 {
            AddressType::NonResolvablePrivate
        } else if bits == 1 {
            AddressType::ResolvablePrivateAddress
        } else if bits == 3 {
            AddressType::StaticDevice
        } else {
            AddressType::RFU
        }
    }

    /// The 24-bit `hash` (low three bytes) and 24-bit `prand` (high three bytes,
    /// type bits included) of a resolvable private address; `None` for any other type.
    pub fn private_address_parts(self) -> (r: Option<(u32, u32)>)
        ensures
            address_type_of(self.0[5]) == AddressType::ResolvablePrivateAddress ==> (r matches Some(
                p,
            ) && p.0 as int == le24(self.0[0], self.0[1], self.0[2]) && p.1 as int == le24(
                self.0[3],
                self.0[4],
                self.0[5],
            )),
            address_type_of(self.0[5]) != AddressType::ResolvablePrivateAddress ==> r is None,
    {
        match self.address_type() {
            AddressType::ResolvablePrivateAddress => {
                let a = self.0;
                let hash = a[0] as u32 + 256 * a[1] as u32 + 65536 * a[2] as u32;
                let prand = a[3] as u32 + 256 * a[4] as u32 + 65536 * a[5] as u32;
                Some((hash, prand))
            },
            _ => None,
        }
    }
}

/// 16-bit company identifier assigned by the Bluetooth SIG.
#[derive(Copy, Clone, Eq, PartialEq, Structural, Ord, PartialOrd, Debug, Hash)]
pub struct CompanyID(pub u16);

/// The two bytes of `v`, least significant first.
pub open spec fn u16_le(v: u16) -> Seq<u8> {
    seq![(v % 256) as u8, (v / 256) as u8]
}

/// The two bytes of `v`, most significant first.
pub open spec fn u16_be(v: u16) -> Seq<u8> {
    seq![(v / 256) as u8, (v % 256) as u8]
}

impl CompanyID {
    /// Wire width of a company identifier in bytes.
    pub fn byte_len() -> (r: usize)
        ensures
            r == 2,
    {
        2
    }

    pub fn to_bytes_le(&self) -> (r: [u8; 2])
        ensures
            r@ == u16_le(self.0),
    {
        let r = [(self.0 % 256) as u8, (self.0 / 256) as u8];
        assert(r@ =~= u16_le(self.0));
        r
    }

    pub fn to_bytes_be(&self) -> (r: [u8; 2])
        ensures
            r@ == u16_be(self.0),
    {
        let r = [(self.0 / 256) as u8, (self.0 % 256) as u8];
        assert(r@ =~= u16_be(self.0));
        r
    }

    /// Reads an identifier from exactly two bytes, least significant first.
    pub fn from_bytes_le(bytes: &[u8]) -> (r: Option<CompanyID>)
        ensures
            bytes@.len() == 2 ==> (r matches Some(c) && u16_le(c.0) == bytes@),
            bytes@.len() != 2 ==> r is None,
    {
        if bytes.len() != 2 {
            return None;
        }
        let c = CompanyID(bytes[0] as u16 + 256 * bytes[1] as u16);
        assert(u16_le(c.0) =~= bytes@);
        Some(c)
    }

    /// Reads an identifier from exactly two bytes, most significant first.
    pub fn from_bytes_be(bytes: &[u8]) -> (r: Option<CompanyID>)
        ensures
            bytes@.len() == 2 ==> (r matches Some(c) && u16_be(c.0) == bytes@),
            bytes@.len() != 2 ==> r is None,
    {
        if bytes.len() != 2 {
            return None;
        }
        let c = CompanyID(256 * bytes[0] as u16 + bytes[1] as u16);
        assert(u16_be(c.0) =~= bytes@);
        Some(c)
    }
}


/// An `RSSI` read back from its signed byte, or from its wire byte, is the value
/// that was written; the wire byte is one byte wide by its type.
pub proof fn lemma_rssi_round_trip(x: RSSI)
    requires
        x.wf(),
    ensures
        RSSI::from_i8_spec(x.dbm()) == Ok::<RSSI, ConversionError>(x),
        RSSI::from_i8_spec(u8_wire_value(i8_wire_byte(x.dbm()))) == Ok::<RSSI, ConversionError>(x),
{
}

/// An `RSSI` can be made from exactly the values in `[-127, 20]`; the wire value 127
/// reads as "no signal strength", every other value out of range is refused.
pub proof fn lemma_rssi_range(v: i8)
    ensures
        RSSI::from_i8_spec(v) is Ok <==> rssi_in_range(v as int),
        RSSI::from_i8_spec(v) matches Ok(x) ==> x.dbm() == v && RSSI::from_i8_spec(x.dbm())
            == RSSI::from_i8_spec(v),
        !rssi_in_range(RSSI::UNSUPPORTED_RSSI as int),
{
}

/// An address unpacked from the bytes another address packed to is that address.
pub proof fn lemma_address_round_trip(a: BTAddress, b: BTAddress)
    requires
        b.0@ == a.0@,
    ensures
        b == a,
{
    assert(b.0 =~= a.0);
}

/// An address converted to a number and back is the same address: the number is
/// below 2^48, and no other address stands for it.
pub proof fn lemma_address_u64_round_trip(a: BTAddress, b: BTAddress)
    requires
        address_value(b.0) == address_value(a.0) % address_modulus(),
    ensures
        0 <= address_value(a.0) < address_modulus(),
        b == a,
{
    let (a0, a1, a2, a3, a4, a5) = (a.0[0], a.0[1], a.0[2], a.0[3], a.0[4], a.0[5]);
    let (b0, b1, b2, b3, b4, b5) = (b.0[0], b.0[1], b.0[2], b.0[3], b.0[4], b.0[5]);
    assert(0 <= a0 + 256 * a1 + 65536 * a2 + 16777216 * (a3 + 256 * a4 + 65536 * a5)
        < 0x1_0000_0000_0000) by (nonlinear_arith)
        requires
            a0 < 256,
            a1 < 256,
            a2 < 256,
            a3 < 256,
            a4 < 256,
            a5 < 256,
    ;
    assert(a0 == b0 && a1 == b1 && a2 == b2 && a3 == b3 && a4 == b4 && a5 == b5) by (bit_vector)
        requires
            a0 as u64 + 256 * a1 as u64 + 65536 * a2 as u64 + 16777216 * (a3 as u64 + 256
                * a4 as u64 + 65536 * a5 as u64) == b0 as u64 + 256 * b1 as u64 + 65536
                * b2 as u64 + 16777216 * (b3 as u64 + 256 * b4 as u64 + 65536 * b5 as u64),
    ;
    assert(b.0 =~= a.0);
}

/// A company identifier read back from its two bytes, in either byte order, is the
/// identifier that was written.
pub proof fn lemma_company_id_round_trip(c: CompanyID, d: CompanyID)
    ensures
        u16_le(c.0).len() == 2,
        u16_be(c.0).len() == 2,
        u16_le(d.0) == u16_le(c.0) ==> d == c,
        u16_be(d.0) == u16_be(c.0) ==> d == c,
{
    if u16_le(d.0) == u16_le(c.0) || u16_be(d.0) == u16_be(c.0) {
        assert(u16_le(d.0)[0] == u16_be(d.0)[1]);
        assert(u16_le(d.0)[1] == u16_be(d.0)[0]);
        assert(d.0 % 256 == c.0 % 256 && d.0 / 256 == c.0 / 256);
    }
}

} // verus!
