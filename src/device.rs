use vstd::prelude::*;

use crate::hex::{concat3, encode_hex, hex_of};
use vstd::arithmetic::power2::pow2;

verus! {

/// A device GUID, as its eight bytes in network order.
#[derive(Clone, Copy, Debug, PartialEq, Eq)]
pub struct Guid(pub [u8; 8]);

impl Guid {
    /// A GUID from its bytes in network order.
    pub fn from_bytes(bytes: [u8; 8]) -> (r: Guid)
        ensures
            r.0 == bytes,
    {
        Guid(bytes)
    }

    /// The bytes in network order.
    pub fn as_bytes(&self) -> (r: &[u8; 8])
        ensures
            *r == self.0,
    {
        &self.0
    }

    /// The bytes as lower-case hexadecimal digits.
    pub fn lower_hex(&self) -> (r: String)
        ensures
            r@ == hex_of(self.0@, false),
    {
        encode_hex(self.0.as_slice(), false)
    }

    /// The bytes as upper-case hexadecimal digits.
    pub fn upper_hex(&self) -> (r: String)
        ensures
            r@ == hex_of(self.0@, true),
    {
        encode_hex(self.0.as_slice(), true)
    }

    /// The debugging form, `Guid(` and the lower-case digits and `)`.
    pub fn debug_string(&self) -> (r: String)
        ensures
            r@ == "Guid("@ + hex_of(self.0@, false) + ")"@,
    {
        let hex = self.lower_hex();
        concat3("Guid(", hex.as_str(), ")")
    }
}

/// A global identifier of a port: sixteen bytes in network order.
#[derive(Clone, Copy, Debug, PartialEq, Eq)]
pub struct Gid(pub [u8; 16]);

impl Gid {
    /// A GID from its bytes in network order.
    pub fn from_bytes(bytes: [u8; 16]) -> (r: Gid)
        ensures
            r.0 == bytes,
    {
        Gid(bytes)
    }

    /// The bytes in network order.
    pub fn as_bytes(&self) -> (r: &[u8; 16])
        ensures
            *r == self.0,
    {
        &self.0
    }

    /// Whether the interface half (the last eight bytes) is all zero.
    pub fn interface_id_is_zero(&self) -> (r: bool)
        ensures
            r == forall|i: int| 8 <= i < 16 ==> self.0@[i] == 0,
    {
        let mut i: usize = 8;
        while i < 16
            invariant
                8 <= i <= 16,
                forall|j: int| 8 <= j < i ==> self.0@[j] == 0,
            decreases 16 - i,
        {
            if self.0[i] != 0 {
                return false;
            }
            i = i + 1;
        }
        true
    }

    /// The bytes as lower-case hexadecimal digits.
    pub fn lower_hex(&self) -> (r: String)
        ensures
            r@ == hex_of(self.0@, false),
    {
        encode_hex(self.0.as_slice(), false)
    }

    /// The bytes as upper-case hexadecimal digits.
    pub fn upper_hex(&self) -> (r: String)
        ensures
            r@ == hex_of(self.0@, true),
    {
        encode_hex(self.0.as_slice(), true)
    }

    /// The debugging form, `Gid(` and the lower-case digits and `)`.
    pub fn debug_string(&self) -> (r: String)
        ensures
            r@ == "Gid("@ + hex_of(self.0@, false) + ")"@,
    {
        let hex = self.lower_hex();
        concat3("Gid(", hex.as_str(), ")")
    }
}

/// The kind of a GID table entry.
#[derive(Clone, Copy, Debug, PartialEq, Eq, Structural)]
pub enum GidType {
    IB,
    RoceV1,
    RoceV2,
}

impl GidType {
    /// Decodes a raw GID type; unknown values are not admitted.
    pub fn from_c_uint(val: u32) -> (r: GidType)
        requires
            val <= 2,
        ensures
            val == 0 ==> r == GidType::IB,
            val == 1 ==> r == GidType::RoceV1,
            val == 2 ==> r == GidType::RoceV2,
    {
        if val == 0 {
            GidType::IB
        } else if val == 1 {
            GidType::RoceV1
        } else {
            GidType::RoceV2
        }
    }
}

/// One entry of a port's GID table, as the query returned it.
#[derive(Clone, Copy, Debug, PartialEq, Eq)]
pub struct GidEntry {
    pub gid: Gid,
    pub gid_index: u32,
    pub port_num: u32,
    pub gid_type: u32,
    pub ndev_ifindex: u32,
}

impl GidEntry {
    /// The kind of the entry; only known kinds are admitted.
    pub fn gid_type(&self) -> (r: GidType)
        requires
            self.gid_type <= 2,
        ensures
            self.gid_type == 0 ==> r == GidType::IB,
            self.gid_type == 1 ==> r == GidType::RoceV1,
            self.gid_type == 2 ==> r == GidType::RoceV2,
    {
        GidType::from_c_uint(self.gid_type)
    }

    /// The GID of the entry.
    pub fn gid(&self) -> (r: Gid)
        ensures
            r == self.gid,
    {
        self.gid
    }
}

/// The logical state of a port.
#[derive(Clone, Copy, Debug, PartialEq, Eq, Structural)]
pub enum PortState {
    Nop,
    Down,
    Init,
    Armed,
    Active,
    ActiveDefer,
}

/// The raw value of each port state.
pub open spec fn port_state_value(s: PortState) -> u32 {
    match s {
        PortState::Nop => 0,
        PortState::Down => 1,
        PortState::Init => 2,
        PortState::Armed => 3,
        PortState::Active => 4,
        PortState::ActiveDefer => 5,
    }
}

impl PortState {
    /// Decodes a raw port state; unknown values are not admitted.
    pub fn from_c_uint(val: u32) -> (r: PortState)
        requires
            val <= 5,
        ensures
            port_state_value(r) == val,
    {
        match val {
            0 => PortState::Nop,
            1 => PortState::Down,
            2 => PortState::Init,
            3 => PortState::Armed,
            4 => PortState::Active,
            _ => PortState::ActiveDefer,
        }
    }
}

/// The link layer of a port.
#[derive(Clone, Copy, Debug, PartialEq, Eq, Structural)]
pub enum LinkLayer {
    Unspecified,
    Infiniband,
    Ethernet,
}

/// The raw value of each link layer.
pub open spec fn link_layer_value(l: LinkLayer) -> u32 {
    match l {
        LinkLayer::Unspecified => 0,
        LinkLayer::Infiniband => 1,
        LinkLayer::Ethernet => 2,
    }
}

impl LinkLayer {
    /// Decodes a raw link layer; unknown values are not admitted.
    pub fn from_c_uint(val: u32) -> (r: LinkLayer)
        requires
            val <= 2,
        ensures
            link_layer_value(r) == val,
    {
        match val {
            0 => LinkLayer::Unspecified,
            1 => LinkLayer::Infiniband,
            _ => LinkLayer::Ethernet,
        }
    }
}

/// A path MTU.
#[derive(Clone, Copy, Debug, PartialEq, Eq, Structural)]
pub enum Mtu {
    Mtu256,
    Mtu512,
    Mtu1024,
    Mtu2048,
    Mtu4096,
}

/// The raw level of each MTU, from 1 for 256 bytes to 5 for 4096.
pub open spec fn mtu_level(m: Mtu) -> u32 {
    match m {
        Mtu::Mtu256 => 1,
        Mtu::Mtu512 => 2,
        Mtu::Mtu1024 => 3,
        Mtu::Mtu2048 => 4,
        Mtu::Mtu4096 => 5,
    }
}

/// The number of bytes of each MTU.
pub open spec fn mtu_bytes(m: Mtu) -> usize {
    match m {
        Mtu::Mtu256 => 256,
        Mtu::Mtu512 => 512,
        Mtu::Mtu1024 => 1024,
        Mtu::Mtu2048 => 2048,
        Mtu::Mtu4096 => 4096,
    }
}

impl Mtu {
    /// Decodes a raw MTU level; levels outside `1..=5` are not admitted.
    pub fn from_c_uint(val: u32) -> (r: Mtu)
        requires
            1 <= val <= 5,
        ensures
            mtu_level(r) == val,
    {
        match val {
            1 => Mtu::Mtu256,
            2 => Mtu::Mtu512,
            3 => Mtu::Mtu1024,
            4 => Mtu::Mtu2048,
            _ => Mtu::Mtu4096,
        }
    }

    /// The raw level.
    pub fn to_u32(self) -> (r: u32)
        ensures
            r == mtu_level(self),
    {
        match self {
            Mtu::Mtu256 => 1,
            Mtu::Mtu512 => 2,
            Mtu::Mtu1024 => 3,
            Mtu::Mtu2048 => 4,
            Mtu::Mtu4096 => 5,
        }
    }

    /// The raw level, as the hardware takes it.
    pub fn to_c_uint(self) -> (r: u32)
        ensures
            r == mtu_level(self),
    {
        self.to_u32()
    }

    /// The MTU in bytes: two to the power of the level plus seven.
    pub fn size(self) -> (r: usize)
        ensures
            r == mtu_bytes(self),
            r as int == pow2((mtu_level(self) + 7) as nat),
    {
        proof {
            vstd::arithmetic::power2::lemma2_to64();
        }
        match self {
            Mtu::Mtu256 => 256,
            Mtu::Mtu512 => 512,
            Mtu::Mtu1024 => 1024,
            Mtu::Mtu2048 => 2048,
            Mtu::Mtu4096 => 4096,
        }
    }
}

/// The attributes of a port that the logic reads.
#[derive(Clone, Copy, Debug, PartialEq, Eq, Structural)]
pub struct PortAttr {
    pub state: u32,
    pub gid_tbl_len: i32,
    pub link_layer: u8,
    pub lid: u16,
    pub active_mtu: u32,
}

impl PortAttr {
    /// The port's logical state; only known states are admitted.
    pub fn state(&self) -> (r: PortState)
        requires
            self.state <= 5,
        ensures
            port_state_value(r) == self.state,
    {
        PortState::from_c_uint(self.state)
    }

    /// Length of the port's GID table; a negative length is not admitted.
    pub fn gid_table_len(&self) -> (r: u32)
        requires
            self.gid_tbl_len >= 0,
        ensures
            r == self.gid_tbl_len,
    {
        self.gid_tbl_len as u32
    }

    /// The port's link layer; only known layers are admitted.
    pub fn link_layer(&self) -> (r: LinkLayer)
        requires
            self.link_layer <= 2,
        ensures
            link_layer_value(r) == self.link_layer,
    {
        LinkLayer::from_c_uint(self.link_layer as u32)
    }

    /// The port's local identifier.
    pub fn lid(&self) -> (r: u16)
        ensures
            r == self.lid,
    {
        self.lid
    }

    /// The active MTU; only known levels are admitted.
    pub fn active_mtu(&self) -> (r: Mtu)
        requires
            1 <= self.active_mtu <= 5,
        ensures
            mtu_level(r) == self.active_mtu,
    {
        Mtu::from_c_uint(self.active_mtu)
    }
}

/// The attributes of a device that the logic reads.
#[derive(Clone, Copy, Debug, PartialEq, Eq, Structural)]
pub struct DeviceAttr {
    pub phys_port_cnt: u8,
}

impl DeviceAttr {
    /// Number of physical ports.
    pub fn physical_port_count(&self) -> (r: u8)
        ensures
            r == self.phys_port_cnt,
    {
        self.phys_port_cnt
    }
}

/// A device as enumerated: its kernel name and node GUID.
pub struct Device {
    name: String,
    guid: Guid,
}

impl Device {
    pub closed spec fn spec_name(&self) -> Seq<char> {
        self.name@
    }

    pub closed spec fn spec_guid(&self) -> Guid {
        self.guid
    }

    /// A device descriptor.
    pub fn new(name: String, guid: Guid) -> (r: Device)
        ensures
            r.spec_name() == name@,
            r.spec_guid() == guid,
    {
        Device { name, guid }
    }

    /// The kernel name of the device.
    pub fn name(&self) -> (r: &str)
        ensures
            r@ == self.spec_name(),
    {
        self.name.as_str()
    }

    /// The node GUID of the device.
    pub fn guid(&self) -> (r: Guid)
        ensures
            r == self.spec_guid(),
    {
        self.guid
    }
}

/// The devices enumerated at one point in time.
pub struct DeviceList {
    devices: Vec<Device>,
}

impl DeviceList {
    pub closed spec fn spec_devices(&self) -> Seq<Device> {
        self.devices@
    }

    /// A list of the given devices.
    pub fn new(devices: Vec<Device>) -> (r: DeviceList)
        ensures
            r.spec_devices() == devices@,
    {
        DeviceList { devices }
    }

    /// The devices.
    pub fn as_slice(&self) -> (r: &[Device])
        ensures
            r@ == self.spec_devices(),
    {
        self.devices.as_slice()
    }

    /// Number of devices.
    pub fn len(&self) -> (r: usize)
        ensures
            r == self.spec_devices().len(),
    {
        self.devices.len()
    }

    /// Whether no device was found.
    pub fn is_empty(&self) -> (r: bool)
        ensures
            r == (self.spec_devices().len() == 0),
    {
        self.devices.len() == 0
    }
}

} // verus!
