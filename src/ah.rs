use vstd::prelude::*;

use crate::device::Gid;
use crate::error::Error;
use crate::resource::{appended, ResourceKind, ResourceTable};

verus! {

/// The global routing header of an address handle.
#[derive(Clone, Copy, Debug, PartialEq, Eq)]
pub struct GlobalRoute {
    pub dest_gid: Gid,
    pub flow_label: u32,
    pub sgid_index: u8,
    pub hop_limit: u8,
    pub traffic_class: u8,
}

/// How an address handle is to be made: the path to a remote port.
#[derive(Clone, Copy, Debug, PartialEq, Eq)]
pub struct AddressHandleOptions {
    pub dest_lid: u16,
    pub service_level: u8,
    pub port_num: u8,
    pub global_route: Option<GlobalRoute>,
}

impl Default for AddressHandleOptions {
    fn default() -> (r: Self)
        ensures
            r.dest_lid == 0,
            r.service_level == 0,
            r.port_num == 0,
            r.global_route is None,
    {
        AddressHandleOptions { dest_lid: 0, service_level: 0, port_num: 0, global_route: None }
    }
}

impl AddressHandleOptions {
    /// The remote port's local identifier.
    pub fn dest_lid(&mut self, dest_lid: u16) -> (r: &mut Self)
        ensures
            *r == (AddressHandleOptions { dest_lid, ..*old(self) }),
            *final(self) == *final(r),
    {
        self.dest_lid = dest_lid;
        self
    }

    /// The service level.
    pub fn service_level(&mut self, service_level: u8) -> (r: &mut Self)
        ensures
            *r == (AddressHandleOptions { service_level, ..*old(self) }),
            *final(self) == *final(r),
    {
        self.service_level = service_level;
        self
    }

    /// The local port to leave by.
    pub fn port_num(&mut self, port_num: u8) -> (r: &mut Self)
        ensures
            *r == (AddressHandleOptions { port_num, ..*old(self) }),
            *final(self) == *final(r),
    {
        self.port_num = port_num;
        self
    }

    /// Routes through the global routing header `grh`.
    pub fn global_route_header(&mut self, grh: GlobalRoute) -> (r: &mut Self)
        ensures
            *r == (AddressHandleOptions { global_route: Some(grh), ..*old(self) }),
            *final(self) == *final(r),
    {
        self.global_route = Some(grh);
        self
    }

    /// Whether the path goes through a global routing header.
    pub fn is_global(&self) -> (r: bool)
        ensures
            r == self.global_route is Some,
    {
        self.global_route.is_some()
    }
}

/// An address handle: a resolved path to a remote port, made in a
/// protection domain.
pub struct AddressHandle {
    key: usize,
    options: AddressHandleOptions,
}

impl AddressHandle {
    pub closed spec fn spec_key(&self) -> usize {
        self.key
    }

    pub closed spec fn spec_options(&self) -> AddressHandleOptions {
        self.options
    }

    /// The default options.
    pub fn options() -> (r: AddressHandleOptions)
        ensures
            r.dest_lid == 0,
            r.service_level == 0,
            r.port_num == 0,
            r.global_route is None,
    {
        AddressHandleOptions::default()
    }

    /// The address handle that the creating call returned for `options`,
    /// entered in `graph` with a strong reference to its protection domain
    /// `pd`; its key is its resource id. A failed creation hands its error
    /// back and changes nothing.
    pub fn create(
        graph: &mut ResourceTable,
        pd: usize,
        created: Result<u64, Error>,
        options: &AddressHandleOptions,
    ) -> (r: Result<AddressHandle, Error>)
        requires
            old(graph).wf(),
            old(graph).is_alive(pd as int),
        ensures
            final(graph).wf(),
            created matches Err(e) ==> (r matches Err(e2) && e2 == e && final(graph)@ == old(graph)@),
            created matches Ok(h) ==> (r matches Ok(ah) && ah.spec_key() == old(graph)@.len()
                && ah.spec_options() == *options && appended(
                old(graph)@,
                final(graph)@,
                ResourceKind::AddressHandle,
                h,
                seq![pd],
            )),
    {
        let mut deps: Vec<usize> = Vec::new();
        deps.push(pd);
        proof {
            assert(deps@ == seq![pd]);
        }
        match graph.adopt(ResourceKind::AddressHandle, created, deps) {
            Ok(key) => Ok(AddressHandle { key, options: *options }),
            Err(e) => Err(e),
        }
    }

    /// The key of this address handle in the resource graph.
    pub fn key(&self) -> (r: usize)
        ensures
            r == self.spec_key(),
    {
        self.key
    }
}

} // verus!
