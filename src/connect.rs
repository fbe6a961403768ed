use vstd::prelude::*;

use crate::ah::{AddressHandleOptions, GlobalRoute};
use crate::device::{Gid, LinkLayer, Mtu, PortAttr, link_layer_value};
use crate::error::{custom_error, Error};
use crate::mr::AccessFlags;
use crate::qp::{transition_ok, ModifyOptions, QueuePairState, QueuePairType};

verus! {

/// Length of the handshake record: the queue pair number, the packet
/// sequence number, the local identifier and the GID.
pub const DEST_RECORD_LEN: usize = 26;

/// What a peer needs to reach a queue pair.
#[derive(Clone, Copy, Debug, PartialEq, Eq)]
pub struct Dest {
    pub qpn: u32,
    pub psn: u32,
    pub lid: u16,
    pub gid: Gid,
}

/// The four bytes of `x`, least significant first.
pub open spec fn le32(x: u32) -> Seq<u8> {
    seq![(x & 0xff) as u8, ((x >> 8u32) & 0xff) as u8, ((x >> 16u32) & 0xff) as u8, (x >> 24u32) as u8]
}

/// The two bytes of `x`, least significant first.
pub open spec fn le16(x: u16) -> Seq<u8> {
    seq![(x & 0xff) as u8, (x >> 8u16) as u8]
}

/// The handshake record of `d`: number, sequence number and identifier
/// least significant byte first, then the sixteen GID bytes.
pub open spec fn dest_record(d: Dest) -> Seq<u8> {
    le32(d.qpn) + le32(d.psn) + le16(d.lid) + d.gid.0@
}

fn push_le32(v: &mut Vec<u8>, x: u32)
    ensures
        final(v)@ == old(v)@ + le32(x),
{
    v.push((x & 0xff) as u8);
    v.push(((x >> 8u32) & 0xff) as u8);
    v.push(((x >> 16u32) & 0xff) as u8);
    v.push((x >> 24u32) as u8);
    proof {
        assert(v@ =~= old(v)@ + le32(x));
    }
}

fn read_le32(b: &[u8], at: usize) -> (r: u32)
    requires
        at + 4 <= b@.len(),
    ensures
        le32(r) == b@.subrange(at as int, at + 4),
{
    let b0 = b[at];
    let b1 = b[at + 1];
    let b2 = b[at + 2];
    let b3 = b[at + 3];
    let r = (b0 as u32) | ((b1 as u32) << 8u32) | ((b2 as u32) << 16u32) | ((b3 as u32) << 24u32);
    proof {
        assert((r & 0xff) as u8 == b0 && ((r >> 8u32) & 0xff) as u8 == b1 && ((r >> 16u32) & 0xff) as u8 == b2
            && (r >> 24u32) as u8 == b3) by (bit_vector)
            requires
                r == (b0 as u32) | ((b1 as u32) << 8u32) | ((b2 as u32) << 16u32) | ((b3 as u32) << 24u32),
        ;
        assert(le32(r) =~= b@.subrange(at as int, at + 4));
    }
    r
}

fn read_le16(b: &[u8], at: usize) -> (r: u16)
    requires
        at + 2 <= b@.len(),
    ensures
        le16(r) == b@.subrange(at as int, at + 2),
{
    let b0 = b[at];
    let b1 = b[at + 1];
    let r = (b0 as u16) | ((b1 as u16) << 8u16);
    proof {
        assert((r & 0xff) as u8 == b0 && (r >> 8u16) as u8 == b1) by (bit_vector)
            requires
                r == (b0 as u16) | ((b1 as u16) << 8u16),
        ;
        assert(le16(r) =~= b@.subrange(at as int, at + 2));
    }
    r
}

/// The handshake message of `d`: one byte giving the record's length, then
/// the record.
pub fn encode_dest(d: &Dest) -> (r: Vec<u8>)
    ensures
        r@ == seq![DEST_RECORD_LEN as u8] + dest_record(*d),
{
    let mut v: Vec<u8> = Vec::new();
    v.push(DEST_RECORD_LEN as u8);
    push_le32(&mut v, d.qpn);
    push_le32(&mut v, d.psn);
    v.push((d.lid & 0xff) as u8);
    v.push((d.lid >> 8u16) as u8);
    let ghost before_gid = v@;
    let mut i: usize = 0;
    while i < 16
        invariant
            i <= 16,
            v@ == before_gid + d.gid.0@.subrange(0, i as int),
        decreases 16 - i,
    {
        v.push(d.gid.0[i]);
        i = i + 1;
        proof {
            assert(d.gid.0@.subrange(0, i as int) =~= d.gid.0@.subrange(0, i - 1) + seq![d.gid.0@[i - 1]]);
        }
    }
    proof {
        assert(d.gid.0@.subrange(0, 16) =~= d.gid.0@);
        assert(v@ =~= seq![DEST_RECORD_LEN as u8] + dest_record(*d));
    }
    v
}

/// Reads a handshake record, the bytes that follow the length byte. A
/// record of any other length than 26 bytes is refused.
pub fn decode_dest(body: &[u8]) -> (r: Option<Dest>)
    ensures
        r is Some <==> body@.len() == DEST_RECORD_LEN,
        r matches Some(d) ==> dest_record(d) == body@,
{
    if body.len() != DEST_RECORD_LEN {
        return None;
    }
    let qpn = read_le32(body, 0);
    let psn = read_le32(body, 4);
    let lid = read_le16(body, 8);
    let mut raw = [0u8; 16];
    let mut i: usize = 0;
    while i < 16
        invariant
            i <= 16,
            body@.len() == DEST_RECORD_LEN,
            raw@.len() == 16,
            forall|j: int| 0 <= j < i ==> raw@[j] == body@[10 + j],
        decreases 16 - i,
    {
        raw[i] = body[10 + i];
        i = i + 1;
    }
    let d = Dest { qpn, psn, lid, gid: Gid(raw) };
    proof {
        assert(raw@ =~= body@.subrange(10, 26));
        assert(dest_record(d) =~= body@);
    }
    Some(d)
}

/// Reading back the record of a handshake message gives the record it was
/// made from.
pub proof fn lemma_dest_round_trip(d: Dest, e: Dest)
    ensures
        dest_record(d) == dest_record(e) ==> d == e,
{
    if dest_record(d) == dest_record(e) {
        let a = dest_record(d);
        let b = dest_record(e);
        assert(a[0] == b[0] && a[1] == b[1] && a[2] == b[2] && a[3] == b[3]);
        assert(a[4] == b[4] && a[5] == b[5] && a[6] == b[6] && a[7] == b[7]);
        assert(a[8] == b[8] && a[9] == b[9]);
        let (x, y) = (d.qpn, e.qpn);
        assert(x == y) by (bit_vector)
            requires
                (x & 0xff) as u8 == (y & 0xff) as u8,
                ((x >> 8u32) & 0xff) as u8 == ((y >> 8u32) & 0xff) as u8,
                ((x >> 16u32) & 0xff) as u8 == ((y >> 16u32) & 0xff) as u8,
                (x >> 24u32) as u8 == (y >> 24u32) as u8,
        ;
        let (x, y) = (d.psn, e.psn);
        assert(x == y) by (bit_vector)
            requires
                (x & 0xff) as u8 == (y & 0xff) as u8,
                ((x >> 8u32) & 0xff) as u8 == ((y >> 8u32) & 0xff) as u8,
                ((x >> 16u32) & 0xff) as u8 == ((y >> 16u32) & 0xff) as u8,
                (x >> 24u32) as u8 == (y >> 24u32) as u8,
        ;
        let (x, y) = (d.lid, e.lid);
        assert(x == y) by (bit_vector)
            requires
                (x & 0xff) as u8 == (y & 0xff) as u8,
                (x >> 8u16) as u8 == (y >> 8u16) as u8,
        ;
        assert(d.gid.0@ =~= a.subrange(10, 26));
        assert(e.gid.0@ =~= b.subrange(10, 26));
        assert(d.gid.0 == e.gid.0);
    }
}

/// The identity a peer needs to reach the local queue pair `qpn` through a
/// port. A port that is not on Ethernet must have a local identifier.
pub fn local_dest(qpn: u32, psn: u32, port: &PortAttr, gid: Gid) -> (r: Result<Dest, Error>)
    requires
        port.link_layer <= 2,
    ensures
        port.link_layer != link_layer_value(LinkLayer::Ethernet) && port.lid == 0 <==> r is Err,
        r matches Ok(d) ==> d == (Dest { qpn, psn, lid: port.lid, gid }),
{
    let lid = port.lid();
    if port.link_layer() != LinkLayer::Ethernet && lid == 0 {
        return Err(custom_error("cannot get local LID"));
    }
    Ok(Dest { qpn, psn, lid, gid })
}

/// The step from reset to init of a reliable connection: partition key 0,
/// the given port, no remote access.
pub fn init_options(port_num: u8) -> (r: ModifyOptions)
    ensures
        r == (ModifyOptions {
            qp_state: Some(QueuePairState::Initialize),
            pkey_index: Some(0),
            port_num: Some(port_num),
            qp_access_flags: Some(AccessFlags { bits: 0 }),
            ..ModifyOptions::none()
        }),
        transition_ok(QueuePairType::RC, QueuePairState::Reset, r),
{
    let mut o = ModifyOptions::default();
    o.qp_state(QueuePairState::Initialize).pkey_index(0).port_num(port_num).qp_access_flags(
        AccessFlags::empty(),
    );
    o
}

/// The path to `remote` through the local port `ib_port`: its local
/// identifier, and a global route when its GID has a nonzero interface half.
pub fn remote_path(remote: &Dest, ib_port: u8, gid_idx: u8) -> (r: AddressHandleOptions)
    ensures
        r.dest_lid == remote.lid,
        r.port_num == ib_port,
        r.service_level == 0,
        (forall|i: int| 8 <= i < 16 ==> remote.gid.0@[i] == 0) ==> r.global_route is None,
        !(forall|i: int| 8 <= i < 16 ==> remote.gid.0@[i] == 0) ==> r.global_route == Some(
            GlobalRoute {
                dest_gid: remote.gid,
                flow_label: 0,
                sgid_index: gid_idx,
                hop_limit: 1,
                traffic_class: 0,
            },
        ),
{
    let mut ah = AddressHandleOptions::default();
    ah.dest_lid(remote.lid).port_num(ib_port);
    if !remote.gid.interface_id_is_zero() {
        ah.global_route_header(
            GlobalRoute {
                dest_gid: remote.gid,
                flow_label: 0,
                sgid_index: gid_idx,
                hop_limit: 1,
                traffic_class: 0,
            },
        );
    }
    ah
}

/// The step from init to ready-to-receive towards `remote`: path MTU of
/// 1024 bytes, the remote queue pair number and sequence number, one
/// pending incoming one-sided operation, receiver-not-ready delay 12.
pub fn rtr_options(remote: &Dest, ib_port: u8, gid_idx: u8) -> (r: ModifyOptions)
    ensures
        r == (ModifyOptions {
            qp_state: Some(QueuePairState::ReadyToReceive),
            path_mtu: Some(Mtu::Mtu1024),
            dest_qp_num: Some(remote.qpn),
            rq_psn: Some(remote.psn),
            max_dest_rd_atomic: Some(1),
            min_rnr_timer: Some(12),
            ah_attr: r.ah_attr,
            ..ModifyOptions::none()
        }),
        r.ah_attr is Some,
        r.ah_attr->0.dest_lid == remote.lid,
        r.ah_attr->0.port_num == ib_port,
        transition_ok(QueuePairType::RC, QueuePairState::Initialize, r),
{
    let ah = remote_path(remote, ib_port, gid_idx);
    let mut o = ModifyOptions::default();
    o.qp_state(QueuePairState::ReadyToReceive).path_mtu(Mtu::Mtu1024).dest_qp_num(remote.qpn).rq_psn(
        remote.psn,
    ).max_dest_rd_atomic(1).min_rnr_timer(12).ah_attr(ah);
    o
}

/// The step from ready-to-receive to ready-to-send: timeout 14, seven
/// retries of each kind, the local send sequence number, one pending
/// outgoing one-sided operation.
pub fn rts_options(local: &Dest) -> (r: ModifyOptions)
    ensures
        r == (ModifyOptions {
            qp_state: Some(QueuePairState::ReadyToSend),
            timeout: Some(14),
            retry_cnt: Some(7),
            rnr_retry: Some(7),
            sq_psn: Some(local.psn),
            max_rd_atomic: Some(1),
            ..ModifyOptions::none()
        }),
        transition_ok(QueuePairType::RC, QueuePairState::ReadyToReceive, r),
{
    let mut o = ModifyOptions::default();
    o.qp_state(QueuePairState::ReadyToSend).timeout(14).retry_cnt(7).rnr_retry(7).sq_psn(
        local.psn,
    ).max_rd_atomic(1);
    o
}

/// For any local and remote identity, the three connection steps are each
/// allowed in turn on a reliable connection, and lead from reset through
/// init and ready-to-receive to ready-to-send.
pub proof fn lemma_connection_steps(
    local: Dest,
    remote: Dest,
    ib_port: u8,
    init: ModifyOptions,
    rtr: ModifyOptions,
    rts: ModifyOptions,
)
    requires
        init == (ModifyOptions {
            qp_state: Some(QueuePairState::Initialize),
            pkey_index: Some(0),
            port_num: Some(ib_port),
            qp_access_flags: Some(AccessFlags { bits: 0 }),
            ..ModifyOptions::none()
        }),
        rtr.qp_state == Some(QueuePairState::ReadyToReceive) && rtr.path_mtu is Some
            && rtr.dest_qp_num == Some(remote.qpn) && rtr.rq_psn == Some(remote.psn)
            && rtr.max_dest_rd_atomic is Some && rtr.min_rnr_timer is Some && rtr.ah_attr is Some,
        rts.qp_state == Some(QueuePairState::ReadyToSend) && rts.sq_psn == Some(local.psn)
            && rts.timeout is Some && rts.retry_cnt is Some && rts.rnr_retry is Some
            && rts.max_rd_atomic is Some,
    ensures
        transition_ok(QueuePairType::RC, QueuePairState::Reset, init),
        transition_ok(QueuePairType::RC, init.qp_state->0, rtr),
        transition_ok(QueuePairType::RC, rtr.qp_state->0, rts),
        rts.qp_state->0 == QueuePairState::ReadyToSend,
{
}

} // verus!
