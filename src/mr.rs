use vstd::prelude::*;

use crate::error::Error;
use crate::resource::{appended, ResourceKind, ResourceTable};

verus! {

/// Access rights of a memory region or queue pair, as hardware flag bits.
#[derive(Clone, Copy, Debug, PartialEq, Eq, Structural)]
pub struct AccessFlags {
    pub bits: u32,
}

pub const ACCESS_LOCAL_WRITE: u32 = 1;
pub const ACCESS_REMOTE_WRITE: u32 = 2;
pub const ACCESS_REMOTE_READ: u32 = 4;
pub const ACCESS_REMOTE_ATOMIC: u32 = 8;
pub const ACCESS_MW_BIND: u32 = 16;
pub const ACCESS_ZERO_BASED: u32 = 32;
pub const ACCESS_ON_DEMAND: u32 = 64;
pub const ACCESS_HUGETLB: u32 = 128;
pub const ACCESS_RELAXED_ORDERING: u32 = 0x10_0000;

impl AccessFlags {
    /// No access right.
    pub fn empty() -> (r: AccessFlags)
        ensures
            r.bits == 0,
    {
        AccessFlags { bits: 0 }
    }

    /// The flags of the given bits.
    pub fn from_bits(bits: u32) -> (r: AccessFlags)
        ensures
            r.bits == bits,
    {
        AccessFlags { bits }
    }

    /// The flag bits.
    pub fn bits(self) -> (r: u32)
        ensures
            r == self.bits,
    {
        self.bits
    }

    /// The flag bits, as the hardware takes them.
    pub fn to_c_uint(self) -> (r: u32)
        ensures
            r == self.bits,
    {
        self.bits
    }

    /// The rights of both.
    pub fn union(self, other: AccessFlags) -> (r: AccessFlags)
        ensures
            r.bits == self.bits | other.bits,
    {
        AccessFlags { bits: self.bits | other.bits }
    }

    /// Whether every right of `other` is among these.
    pub fn contains(self, other: AccessFlags) -> (r: bool)
        ensures
            r == (self.bits & other.bits == other.bits),
    {
        self.bits & other.bits == other.bits
    }
}

/// A registered memory region: the range `addr .. addr + length`, its local
/// and remote keys and its access rights, together with the caller's
/// metadata. The caller keeps the memory valid and in place while the
/// region is registered.
pub struct MemoryRegion<T> {
    key: usize,
    addr: u64,
    length: usize,
    lkey: u32,
    rkey: u32,
    access: AccessFlags,
    metadata: T,
}

impl<T> MemoryRegion<T> {
    pub closed spec fn spec_key(&self) -> usize {
        self.key
    }

    pub closed spec fn spec_addr(&self) -> u64 {
        self.addr
    }

    pub closed spec fn spec_length(&self) -> usize {
        self.length
    }

    pub closed spec fn spec_lkey(&self) -> u32 {
        self.lkey
    }

    pub closed spec fn spec_rkey(&self) -> u32 {
        self.rkey
    }

    pub closed spec fn spec_access(&self) -> AccessFlags {
        self.access
    }

    pub closed spec fn spec_metadata(&self) -> T {
        self.metadata
    }

    /// The region that the registering call returned over `addr .. addr +
    /// length`, entered in `graph` with a strong reference to its protection
    /// domain `pd`, which therefore outlives it; its key is its resource id.
    /// A failed registration hands its error back and changes nothing.
    pub fn register(
        graph: &mut ResourceTable,
        pd: usize,
        created: Result<u64, Error>,
        addr: u64,
        length: usize,
        lkey: u32,
        rkey: u32,
        access: AccessFlags,
        metadata: T,
    ) -> (r: Result<MemoryRegion<T>, Error>)
        requires
            old(graph).wf(),
            old(graph).is_alive(pd as int),
        ensures
            final(graph).wf(),
            created matches Err(e) ==> (r matches Err(e2) && e2 == e && final(graph)@ == old(graph)@),
            created matches Ok(h) ==> (r matches Ok(mr) && mr.spec_key() == old(graph)@.len()
                && mr.spec_addr() == addr && mr.spec_length() == length && mr.spec_lkey() == lkey
                && mr.spec_rkey() == rkey && mr.spec_access() == access && mr.spec_metadata()
                == metadata && appended(
                old(graph)@,
                final(graph)@,
                ResourceKind::MemoryRegion,
                h,
                seq![pd],
            )),
    {
        let mut deps: Vec<usize> = Vec::new();
        deps.push(pd);
        proof {
            assert(deps@ == seq![pd]);
        }
        match graph.adopt(ResourceKind::MemoryRegion, created, deps) {
            Ok(key) => Ok(MemoryRegion { key, addr, length, lkey, rkey, access, metadata }),
            Err(e) => Err(e),
        }
    }

    /// The key of this region in the resource graph.
    pub fn key(&self) -> (r: usize)
        ensures
            r == self.spec_key(),
    {
        self.key
    }

    /// The local key.
    pub fn lkey(&self) -> (r: u32)
        ensures
            r == self.spec_lkey(),
    {
        self.lkey
    }

    /// The remote key.
    pub fn rkey(&self) -> (r: u32)
        ensures
            r == self.spec_rkey(),
    {
        self.rkey
    }

    /// The start address.
    pub fn addr_u64(&self) -> (r: u64)
        ensures
            r == self.spec_addr(),
    {
        self.addr
    }

    /// The length in bytes.
    pub fn length(&self) -> (r: usize)
        ensures
            r == self.spec_length(),
    {
        self.length
    }

    /// The access rights.
    pub fn access(&self) -> (r: AccessFlags)
        ensures
            r == self.spec_access(),
    {
        self.access
    }

    /// The caller's metadata.
    pub fn metadata(&self) -> (r: &T)
        ensures
            *r == self.spec_metadata(),
    {
        &self.metadata
    }
}

/// The type of a memory window.
#[derive(Clone, Copy, Debug, PartialEq, Eq, Structural)]
pub enum MemoryWindowType {
    Type1,
    Type2,
}

impl MemoryWindowType {
    /// The raw value.
    pub fn to_c_uint(self) -> (r: u32)
        ensures
            self == MemoryWindowType::Type1 ==> r == 1,
            self == MemoryWindowType::Type2 ==> r == 2,
    {
        match self {
            MemoryWindowType::Type1 => 1,
            MemoryWindowType::Type2 => 2,
        }
    }
}

} // verus!

verus! {

/// How device memory is to be allocated.
#[derive(Clone, Copy, Debug, PartialEq, Eq, Structural)]
pub struct DeviceMemoryOptions {
    pub length: usize,
    pub log_align_req: u32,
    pub comp_mask: u32,
}

impl Default for DeviceMemoryOptions {
    fn default() -> (r: Self)
        ensures
            r.length == 0,
            r.log_align_req == 0,
            r.comp_mask == 0,
    {
        DeviceMemoryOptions { length: 0, log_align_req: 0, comp_mask: 0 }
    }
}

} // verus!
