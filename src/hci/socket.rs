//! The raw Bluetooth socket transport: the address a socket is bound with, the event
//! filter installed on it, and the classification of failed OS calls.
use crate::hci::{EventCode, PacketType};
use vstd::prelude::*;

verus! {

#[verifier::external_type_specification]
#[verifier::external_body]
pub struct ExIoError(std::io::Error);

/// Socket option level of the HCI protocol.
pub const SOL_HCI: i32 = 0;

/// Socket option name of the event filter.
pub const HCI_FILTER: i32 = 2;

/// Length of the event filter option value in bytes.
pub const FILTER_LEN: usize = 14;

/// The ioctl type byte of HCI device requests (`'H'`).
pub const HCI_IOCTL_MAGIC: u8 = 0x48;

pub const HCI_DEV_UP: u8 = 201;

pub const HCI_DEV_DOWN: u8 = 202;

pub const HCI_DEV_RESET: u8 = 203;

pub const HCI_DEV_STATS: u8 = 204;

pub const HCI_GET_DEV_LIST: u8 = 210;

pub const HCI_GET_DEV_INFO: u8 = 211;

/// errno of a call refused for lack of permission.
pub const EPERM: i32 = 1;

/// errno of a call on a device or resource that is busy.
pub const EBUSY: i32 = 16;

/// Protocols of the Bluetooth socket family.
#[derive(Copy, Clone, PartialOrd, PartialEq, Structural, Ord, Eq, Hash, Debug)]
pub enum BTProtocol {
    L2CAP,
    HCI,
    SCO,
    RFCOMM,
    BNEP,
    CMTP,
    HIDP,
    AVDTP,
}

impl BTProtocol {
    /// The protocol number the socket call takes.
    pub open spec fn code(self) -> i32 {
        match self {
            BTProtocol::L2CAP => 0,
            BTProtocol::HCI => 1,
            BTProtocol::SCO => 2,
            BTProtocol::RFCOMM => 3,
            BTProtocol::BNEP => 4,
            BTProtocol::CMTP => 5,
            BTProtocol::HIDP => 6,
            BTProtocol::AVDTP => 7,
        }
    }

    pub fn to_i32(self) -> (r: i32)
        ensures
            r == self.code(),
    {
        match self {
            BTProtocol::L2CAP => 0,
            BTProtocol::HCI => 1,
            BTProtocol::SCO => 2,
            BTProtocol::RFCOMM => 3,
            BTProtocol::BNEP => 4,
            BTProtocol::CMTP => 5,
            BTProtocol::HIDP => 6,
            BTProtocol::AVDTP => 7,
        }
    }
}

impl From<BTProtocol> for i32 {
    fn from(protocol: BTProtocol) -> (r: i32) {
        protocol.to_i32()
    }
}

impl vstd::std_specs::convert::FromSpecImpl<BTProtocol> for i32 {
    open spec fn obeys_from_spec() -> bool {
        true
    }

    open spec fn from_spec(protocol: BTProtocol) -> i32 {
        protocol.code()
    }
}

/// HCI channels: each gives a different level of control over the controller.
#[derive(Copy, Clone, PartialOrd, PartialEq, Structural, Ord, Eq, Hash, Debug)]
pub enum HCIChannel {
    /// Needs elevated privileges.
    Raw,
    /// Exclusive access to the controller.
    User,
    Monitor,
    Control,
    Logging,
}

impl HCIChannel {
    /// The channel number of the socket address.
    pub open spec fn code(self) -> u16 {
        match self {
            HCIChannel::Raw => 0,
            HCIChannel::User => 1,
            HCIChannel::Monitor => 2,
            HCIChannel::Control => 3,
            HCIChannel::Logging => 4,
        }
    }

    pub fn to_u16(self) -> (r: u16)
        ensures
            r == self.code(),
    {
        match self {
            HCIChannel::Raw => 0,
            HCIChannel::User => 1,
            HCIChannel::Monitor => 2,
            HCIChannel::Control => 3,
            HCIChannel::Logging => 4,
        }
    }
}

impl From<HCIChannel> for u16 {
    fn from(channel: HCIChannel) -> (r: u16) {
        channel.to_u16()
    }
}

impl vstd::std_specs::convert::FromSpecImpl<HCIChannel> for u16 {
    open spec fn obeys_from_spec() -> bool {
        true
    }

    open spec fn from_spec(channel: HCIChannel) -> u16 {
        channel.code()
    }
}

/// Request header of the device-list ioctl.
pub struct HCIDevListReq {}

/// Index of one local controller.
#[derive(Copy, Clone, PartialOrd, PartialEq, Structural, Ord, Eq, Hash, Debug)]
pub struct AdapterID(pub u16);

/// The socket address an HCI socket is bound with.
#[derive(Copy, Clone, PartialEq, Eq, Structural, Debug)]
pub struct SockaddrHCI {
    pub hci_family: u16,
    pub hci_dev: u16,
    pub hci_channel: u16,
}

impl SockaddrHCI {
    /// The address of `channel` on adapter `adapter_id`, in address family `family`.
    pub fn new(family: u16, adapter_id: AdapterID, channel: HCIChannel) -> (r: SockaddrHCI)
        ensures
            r.hci_family == family,
            r.hci_dev == adapter_id.0,
            r.hci_channel == channel.code(),
    {
        SockaddrHCI { hci_family: family, hci_dev: adapter_id.0, hci_channel: channel.to_u16() }
    }
}

/// Failure of an OS call on an HCI socket.
#[derive(Debug)]
pub enum HCISocketError {
    PermissionDenied,
    DeviceNotFound,
    NotConnected,
    Busy,
    IO(std::io::Error),
    Other(i32),
}

/// The error that errno value `e` stands for.
pub open spec fn error_for_errno(e: i32) -> HCISocketError {
    if e == EPERM {
        HCISocketError::PermissionDenied
    } else if e == EBUSY {
        HCISocketError::Busy
    } else {
        HCISocketError::Other(e)
    }
}

impl HCISocketError {
    /// The error that errno value `e` stands for.
    pub fn from_errno(e: i32) -> (r: HCISocketError)
        ensures
            r == error_for_errno(e),
    {
        if e == EPERM {
            HCISocketError::PermissionDenied
        } else if e == EBUSY {
            HCISocketError::Busy
        } else {
            HCISocketError::Other(e)
        }
    }
}

/// The outcome of an OS call that returned `ret` and left `errno` behind: a
/// negative return is a failure classified by `errno`, any other is passed on.
pub fn check_os_result(ret: i32, errno: i32) -> (r: Result<i32, HCISocketError>)
    ensures
        ret >= 0 ==> r == Ok::<i32, HCISocketError>(ret),
        ret < 0 ==> r == Err::<i32, HCISocketError>(error_for_errno(errno)),
{
    if ret < 0 {
        Err(HCISocketError::from_errno(errno))
    } else {
        Ok(ret)
    }
}

/// Relies on nix::errno::errno: the errno value the calling thread's last failed
/// OS call left behind. Nothing is known of the value.
#[verifier::external_body]
fn last_errno() -> (r: i32) {
    nix::errno::errno()
}

/// The outcome of an OS call that returned `i`, read together with the calling
/// thread's errno.
pub fn handle_libc_error(i: i32) -> (r: Result<i32, HCISocketError>)
    ensures
        i >= 0 ==> r == Ok::<i32, HCISocketError>(i),
        i < 0 ==> exists|e: i32| r == Err::<i32, HCISocketError>(error_for_errno(e)),
{
    if i < 0 {
        let e = last_errno();
        check_os_result(i, e)
    } else {
        Ok(i)
    }
}

/// The four bytes of `v`, least significant first.
pub open spec fn u32_le(v: u32) -> Seq<u8> {
    seq![
        (v % 0x100) as u8,
        ((v / 0x100) % 0x100) as u8,
        ((v / 0x10000) % 0x100) as u8,
        (v / 0x1000000) as u8,
    ]
}

/// The mask with bits `a` and `b` set.
pub open spec fn two_bit_mask(a: u32, b: u32) -> u32 {
    (1u32 << a) | (1u32 << b)
}

/// The filter option value: packet-type mask, then event mask, little-endian, then
/// six zero bytes (event-mask extension and opcode, unused here).
pub open spec fn filter_layout(type_mask: u32, event_mask: u32) -> Seq<u8> {
    u32_le(type_mask) + u32_le(event_mask) + Seq::new(6, |i: int| 0u8)
}

fn put_u32_le(buf: &mut [u8; 14], at: usize, v: u32)
    requires
        at + 4 <= 14,
    ensures
        forall|k: int| 0 <= k < 14 && !(at <= k < at + 4) ==> final(buf)@[k] == old(buf)@[k],
        final(buf)@.subrange(at as int, at + 4) == u32_le(v),
{
    buf[at] = (v % 0x100) as u8;
    buf[at + 1] = ((v / 0x100) % 0x100) as u8;
    buf[at + 2] = ((v / 0x10000) % 0x100) as u8;
    buf[at + 3] = (v / 0x1000000) as u8;
    assert(buf@.subrange(at as int, at + 4) =~= u32_le(v));
}

/// The event filter that admits packets of types `type_a` and `type_b` and events
/// with codes `event_a` and `event_b`; each is a bit position.
pub fn event_filter(type_a: u32, type_b: u32, event_a: u32, event_b: u32) -> (r: [u8; 14])
    requires
        type_a < 32,
        type_b < 32,
        event_a < 32,
        event_b < 32,
    ensures
        r@ == filter_layout(two_bit_mask(type_a, type_b), two_bit_mask(event_a, event_b)),
{
    let type_mask = (1u32 << type_a) | (1u32 << type_b);
    let event_mask = (1u32 << event_a) | (1u32 << event_b);
    let mut filter = [0u8; 14];
    put_u32_le(&mut filter, 0, type_mask);
    put_u32_le(&mut filter, 4, event_mask);
    assert(filter@ =~= filter_layout(type_mask, event_mask)) by {
        assert(filter@.subrange(0, 4) == u32_le(type_mask));
        assert(filter@.subrange(4, 8) == u32_le(event_mask));
    }
    filter
}

/// The filter every HCI socket gets: command and event packets, command-complete and
/// command-status events.
pub fn socket_filter() -> (r: [u8; 14])
    ensures
        r@ == filter_layout(
            two_bit_mask(PacketType::Command.code() as u32, PacketType::Event.code() as u32),
            two_bit_mask(
                EventCode::CommandComplete.code() as u32,
                EventCode::CommandStatus.code() as u32,
            ),
        ),
{
    event_filter(
        PacketType::Command.to_u8() as u32,
        PacketType::Event.to_u8() as u32,
        EventCode::CommandComplete.to_u8() as u32,
        EventCode::CommandStatus.to_u8() as u32,
    )
}

} // verus!
