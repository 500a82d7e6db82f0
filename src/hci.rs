//! Host Controller Interface: packet kinds, event codes and the raw socket transport.
pub mod socket;

use vstd::prelude::*;

verus! {

/// Kind of an HCI packet, as tagged by the transport.
#[derive(Copy, Clone, Ord, PartialOrd, Eq, PartialEq, Structural, Hash, Debug)]
pub enum PacketType {
    Command,
    ACLData,
    SCOData,
    Event,
    Vendor,
}

impl PacketType {
    /// The tag that stands for this kind on the wire.
    pub open spec fn code(self) -> u8 {
        match self {
            PacketType::Command => 0x01,
            PacketType::ACLData => 0x02,
            PacketType::SCOData => 0x03,
            PacketType::Event => 0x04,
            PacketType::Vendor => 0xFF,
        }
    }

    pub fn to_u8(self) -> (r: u8)
        ensures
            r == self.code(),
    {
        match self {
            PacketType::Command => 0x01,
            PacketType::ACLData => 0x02,
            PacketType::SCOData => 0x03,
            PacketType::Event => 0x04,
            PacketType::Vendor => 0xFF,
        }
    }

    /// The kind that tag `v` stands for, if any.
    pub fn from_u8(v: u8) -> (r: Option<PacketType>)
        ensures
            match r {
                Some(t) => t.code() == v,
                None => forall|t: PacketType| t.code() != v,
            },
    {
        match v {
            0x01 => Some(PacketType::Command),
            0x02 => Some(PacketType::ACLData),
            0x03 => Some(PacketType::SCOData),
            0x04 => Some(PacketType::Event),
            0xFF => Some(PacketType::Vendor),
            _ => None,
        }
    }
}

/// The controller events this layer listens for.
#[derive(Copy, Clone, Ord, PartialOrd, Eq, PartialEq, Structural, Hash, Debug)]
pub enum EventCode {
    CommandComplete,
    CommandStatus,
}

impl EventCode {
    /// The event code that the controller sends.
    pub open spec fn code(self) -> u8 {
        match self {
            EventCode::CommandComplete => 0x0E,
            EventCode::CommandStatus => 0x0F,
        }
    }

    pub fn to_u8(self) -> (r: u8)
        ensures
            r == self.code(),
    {
        match self {
            EventCode::CommandComplete => 0x0E,
            EventCode::CommandStatus => 0x0F,
        }
    }

    /// The event that code `v` stands for, if this layer knows it.
    pub fn from_u8(v: u8) -> (r: Option<EventCode>)
        ensures
            match r {
                Some(e) => e.code() == v,
                None => forall|e: EventCode| e.code() != v,
            },
    {
        match v {
            0x0E => Some(EventCode::CommandComplete),
            0x0F => Some(EventCode::CommandStatus),
            _ => None,
        }
    }
}

} // verus!
