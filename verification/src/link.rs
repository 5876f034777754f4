//! Link-layer vocabulary: the route-family message kinds, the attribute
//! type tags carried by link messages, and the typed views of a link's raw
//! type, flag and state fields.

use vstd::prelude::*;

verus! {

/// Route-family message kind: a link was created or is being reported.
pub const RTM_NEWLINK: u16 = 16;

/// Route-family message kind: delete a link.
pub const RTM_DELLINK: u16 = 17;

/// Route-family message kind: query links.
pub const RTM_GETLINK: u16 = 18;

/// Route-family message kind: change a link.
pub const RTM_SETLINK: u16 = 19;

pub const IFLA_UNSPEC: u16 = 0;

pub const IFLA_ADDRESS: u16 = 1;

pub const IFLA_BROADCAST: u16 = 2;

pub const IFLA_IFNAME: u16 = 3;

pub const IFLA_MTU: u16 = 4;

pub const IFLA_LINK: u16 = 5;

pub const IFLA_QDISC: u16 = 6;

pub const IFLA_STATS: u16 = 7;

pub const IFLA_COST: u16 = 8;

pub const IFLA_PRIORITY: u16 = 9;

pub const IFLA_MASTER: u16 = 10;

pub const IFLA_WIRELESS: u16 = 11;

pub const IFLA_PROTINFO: u16 = 12;

pub const IFLA_TXQLEN: u16 = 13;

pub const IFLA_MAP: u16 = 14;

pub const IFLA_WEIGHT: u16 = 15;

pub const IFLA_OPERSTATE: u16 = 16;

pub const IFLA_LINKMODE: u16 = 17;

pub const IFLA_LINKINFO: u16 = 18;

pub const IFLA_NET_NS_PID: u16 = 19;

pub const IFLA_IFALIAS: u16 = 20;

pub const IFLA_NUM_VF: u16 = 21;

pub const IFLA_VFINFO_LIST: u16 = 22;

pub const IFLA_STATS64: u16 = 23;

pub const IFLA_VF_PORTS: u16 = 24;

pub const IFLA_PORT_SELF: u16 = 25;

pub const IFLA_AF_SPEC: u16 = 26;

pub const IFLA_GROUP: u16 = 27;

pub const IFLA_NET_NS_FD: u16 = 28;

pub const IFLA_EXT_MASK: u16 = 29;

pub const IFLA_PROMISCUITY: u16 = 30;

pub const IFLA_NUM_TX_QUEUES: u16 = 31;

pub const IFLA_NUM_RX_QUEUES: u16 = 32;

pub const IFLA_CARRIER: u16 = 33;

pub const IFLA_PHYS_PORT_ID: u16 = 34;

pub const IFLA_CARRIER_CHANGES: u16 = 35;

pub const IFLA_PHYS_SWITCH_ID: u16 = 36;

pub const IFLA_LINK_NETNSID: u16 = 37;

pub const IFLA_PHYS_PORT_NAME: u16 = 38;

pub const IFLA_PROTO_DOWN: u16 = 39;

pub const IFLA_GSO_MAX_SEGS: u16 = 40;

pub const IFLA_GSO_MAX_SIZE: u16 = 41;

pub const IFLA_PAD: u16 = 42;

pub const IFLA_INFO_UNSPEC: u16 = 0;

pub const IFLA_INFO_KIND: u16 = 1;

pub const IFLA_INFO_DATA: u16 = 2;

pub const IFLA_INFO_XSTATS: u16 = 3;

/// Interface hardware type. `Generic` stands in for every raw value the
/// crate does not name, so decoding never trusts a raw byte.
#[derive(Clone, Copy, Debug, PartialEq, Eq, Structural)]
pub enum IfType {
    Generic,
    Ether,
    Loopback,
}

/// The typed view of a raw interface type value.
pub open spec fn if_type_of(val: u16) -> IfType {
    if val == 1 {
        IfType::Ether
    } else if val == 772 {
        IfType::Loopback
    } else {
        IfType::Generic
    }
}

/// The raw value an interface type is written as.
pub open spec fn if_type_value_of(t: IfType) -> u16 {
    match t {
        IfType::Generic => 0,
        IfType::Ether => 1,
        IfType::Loopback => 772,
    }
}

impl IfType {
    /// Maps a raw interface type value to its typed view; unrecognized
    /// values fall back to `Generic`.
    pub fn new(val: u16) -> (r: Self)
        ensures
            r == if_type_of(val),
    {
        if val == 1 {
            IfType::Ether
        } else if val == 772 {
            IfType::Loopback
        } else {
            IfType::Generic
        }
    }

    /// The raw value this type is written as on the wire.
    pub fn value(self) -> (r: u16)
        ensures
            r == if_type_value_of(self),
    {
        match self {
            IfType::Generic => 0,
            IfType::Ether => 1,
            IfType::Loopback => 772,
        }
    }
}

/// The kinds of virtual link this crate's callers create.
#[derive(Clone, Copy, Debug, PartialEq, Eq, Structural)]
pub enum LinkType {
    Vlan,
    Veth,
    Vcan,
    Dummy,
    Ifb,
    MacVlan,
    Can,
    Bridge,
}

/// Link flag bit: the interface is up.
pub const IFF_UP: u32 = 0x1;

/// Link flag bit: a valid broadcast address is set.
pub const IFF_BROADCAST: u32 = 0x2;

/// Link flag bit: debugging is on.
pub const IFF_DEBUG: u32 = 0x4;

/// Link flag bit: the interface is a loopback device.
pub const IFF_LOOPBACK: u32 = 0x8;

/// Link flag bit: the interface is a point-to-point link.
pub const IFF_POINTOPOINT: u32 = 0x10;

/// Link flag bit: avoid trailers.
pub const IFF_NOTRAILERS: u32 = 0x20;

/// Link flag bit: the interface is operationally up.
pub const IFF_RUNNING: u32 = 0x40;

/// Link flag bit: no address resolution protocol.
pub const IFF_NOARP: u32 = 0x80;

/// Link flag bit: receive all packets.
pub const IFF_PROMISC: u32 = 0x100;

/// Link flag bit: receive all multicast packets.
pub const IFF_ALLMULTI: u32 = 0x200;

/// Link flag bit: master of a load balancer.
pub const IFF_MASTER: u32 = 0x400;

/// Link flag bit: slave of a load balancer.
pub const IFF_SLAVE: u32 = 0x800;

/// Link flag bit: multicast is supported.
pub const IFF_MULTICAST: u32 = 0x1000;

/// Link flag bit: the media type can be set.
pub const IFF_PORTSEL: u32 = 0x2000;

/// Link flag bit: automatic media selection is active.
pub const IFF_AUTOMEDIA: u32 = 0x4000;

/// Link flag bit: a dial-up device with changing addresses.
pub const IFF_DYNAMIC: u32 = 0x8000;

/// Link flag bit: the driver signals that layer 1 is up.
pub const IFF_LOWER_UP: u32 = 0x10000;

/// Link flag bit: the driver signals dormant.
pub const IFF_DORMANT: u32 = 0x20000;

/// Link flag bit: echo sent packets.
pub const IFF_ECHO: u32 = 0x40000;

/// Every link flag bit this crate knows.
pub const IFF_KNOWN: u32 = 0x7FFFF;

/// An interface's flag bits, restricted to the bits this crate knows.
#[derive(Clone, Copy, Debug, PartialEq, Eq, Structural)]
pub struct IfFlags {
    pub bits: u32,
}

impl IfFlags {
    /// Keeps the known flag bits of a raw flags field and drops the rest.
    pub fn new(val: u32) -> (r: Self)
        ensures
            r.bits == val & IFF_KNOWN,
    {
        IfFlags { bits: val & IFF_KNOWN }
    }

    /// Whether every bit of `mask` is set.
    pub fn contains(self, mask: u32) -> (r: bool)
        ensures
            r == (self.bits & mask == mask),
    {
        self.bits & mask == mask
    }
}

/// An interface's operational state. `Unknown` is both the wire value zero
/// and the fallback for every raw value the crate does not name, so
/// decoding never trusts a raw byte.
#[derive(Clone, Copy, Debug, PartialEq, Eq, Structural)]
pub enum OperState {
    Unknown,
    NotPresent,
    Down,
    LowerLayerDown,
    Testing,
    Dormant,
    Up,
}

/// The typed view of a raw operational state byte.
pub open spec fn oper_state_of(val: u8) -> OperState {
    if val == 1 {
        OperState::NotPresent
    } else if val == 2 {
        OperState::Down
    } else if val == 3 {
        OperState::LowerLayerDown
    } else if val == 4 {
        OperState::Testing
    } else if val == 5 {
        OperState::Dormant
    } else if val == 6 {
        OperState::Up
    } else {
        OperState::Unknown
    }
}

impl OperState {
    /// Maps a raw operational state byte to its typed view; unrecognized
    /// values fall back to `Unknown`.
    pub fn new(val: u8) -> (r: Self)
        ensures
            r == oper_state_of(val),
    {
        if val == 1 {
            OperState::NotPresent
        } else if val == 2 {
            OperState::Down
        } else if val == 3 {
            OperState::LowerLayerDown
        } else if val == 4 {
            OperState::Testing
        } else if val == 5 {
            OperState::Dormant
        } else if val == 6 {
            OperState::Up
        } else {
            OperState::Unknown
        }
    }
}

} // verus!
