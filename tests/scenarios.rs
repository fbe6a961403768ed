use rdma::cc::CompChannel;
use rdma::connect::{decode_dest, encode_dest, init_options, local_dest, rtr_options, rts_options, Dest};
use rdma::cq::CompletionQueue;
use rdma::device::{Gid, PortAttr};
use rdma::driver::{dispatch_batch, keep_draining, on_channel_event, work_request, RemoteAccess, WorkRequest};
use rdma::mr::{AccessFlags, MemoryRegion, ACCESS_LOCAL_WRITE, ACCESS_REMOTE_WRITE};
use rdma::qp::{QueuePair, QueuePairState, QueuePairType};
use rdma::resource::{ResourceKind, ResourceTable};
use rdma::wc::{Opcode, WorkCompletion};
use rdma::work::{OpKind, PollAction, WorkTable};
use rdma::wr::{Opcode as WrOpcode, Sge, SEND_SIGNALED};

fn post_pending<T>(table: &mut WorkTable<T>, id: rdma::work::WorkId, waker: u64) -> u64 {
    let tag = match table.poll(id) {
        PollAction::Submit(tag) => tag,
        PollAction::Ready(_) => panic!("a pending operation is not ready"),
    };
    assert!(table.submitted(id, waker, Ok(())).is_none());
    tag
}

fn connect_rc(qp: &mut QueuePair, local: &Dest, remote: &Dest) {
    for options in [init_options(1), rtr_options(remote, 1, 0), rts_options(local)] {
        qp.check_modify(&options).unwrap();
        qp.modify(&options, 0).unwrap();
    }
}

#[test]
fn loopback_send_and_recv() {
    let mut graph = ResourceTable::new();
    let ctx = graph.adopt(ResourceKind::Context, Ok(0x10), vec![]).unwrap();
    let pd = graph.adopt(ResourceKind::ProtectionDomain, Ok(0x20), vec![ctx]).unwrap();
    let mut cc = CompChannel::create(&mut graph, ctx, Ok(0x30)).unwrap();
    let mut options = CompletionQueue::options();
    options.cqe(16).channel(&cc);
    let mut cq = CompletionQueue::create_bound(&mut graph, ctx, Ok(0x40), &options, &mut cc).unwrap();
    assert_eq!(graph.handle(cq.key()), 0x40);

    let mut qp_options = QueuePair::options();
    qp_options.send_cq(&cq).recv_cq(&cq).qp_type(QueuePairType::RC).sq_sig_all(true);
    let mut qp = QueuePair::create(&mut graph, pd, Ok(0x50), 17, &qp_options).unwrap();
    // the queue pair keeps its protection domain and queues alive
    assert!(graph.release(pd).is_empty());
    assert!(graph.release(cq.key()).is_empty());
    let local = Dest { qpn: qp.number().raw_value(), psn: 100, lid: 1, gid: Gid::from_bytes([0; 16]) };
    connect_rc(&mut qp, &local, &local);
    assert_eq!(qp.state(), QueuePairState::ReadyToSend);

    let mut table: WorkTable<Vec<u8>> = WorkTable::new();
    let send = table.insert(OpKind::Send, vec![1u8; 32]).ok().unwrap();
    let recv = table.insert(OpKind::Recv, vec![0u8; 32]).ok().unwrap();
    let send_tag = post_pending(&mut table, send, 1);
    let recv_tag = post_pending(&mut table, recv, 2);

    cq.req_notify_all(0).unwrap();
    on_channel_event(&mut cq, 0).unwrap();
    assert!(cq.armed());
    let wcs = vec![
        WorkCompletion { wr_id: send_tag, status: 0, opcode: 0, byte_len: 32, imm_data: None },
        WorkCompletion { wr_id: recv_tag, status: 0, opcode: 128, byte_len: 32, imm_data: None },
    ];
    assert_eq!(wcs[0].opcode(), Opcode::Send);
    assert_eq!(wcs[1].opcode(), Opcode::Recv);
    assert_eq!(dispatch_batch(&mut table, &wcs), Ok(vec![1, 2]));
    match table.poll(recv) {
        PollAction::Ready(out) => {
            assert_eq!(out.result, Ok(Some(32)));
            assert_eq!(out.payload, vec![0u8; 32]);
        }
        PollAction::Submit(_) => panic!("the receive is completed"),
    }
    match table.poll(send) {
        PollAction::Ready(out) => assert_eq!(out.result, Ok(None)),
        PollAction::Submit(_) => panic!("the send is completed"),
    }
    let cq_key = cq.key();
    assert_eq!(graph.release(qp.key()), vec![qp.key(), cq_key, pd]);
    assert_eq!(cq.destroy(&mut cc), 1);
    assert_eq!(cc.bound_count(), 0);
}

#[test]
fn write_returns_buffer_after_one_dispatch() {
    let buffer = vec![0u8; 1024];
    let access = AccessFlags::from_bits(ACCESS_LOCAL_WRITE | ACCESS_REMOTE_WRITE);
    let mut graph = ResourceTable::new();
    let ctx = graph.adopt(ResourceKind::Context, Ok(0x10), vec![]).unwrap();
    let pd = graph.adopt(ResourceKind::ProtectionDomain, Ok(0x20), vec![ctx]).unwrap();
    let mr = MemoryRegion::register(&mut graph, pd, Ok(0x30), 0x7000, buffer.len(), 0x11, 0x22, access, ()).unwrap();
    assert_eq!(mr.length(), 1024);
    // the region keeps its protection domain alive
    assert!(graph.release(pd).is_empty());
    assert_eq!(graph.release(mr.key()), vec![mr.key(), pd]);
    let remote = RemoteAccess { addr: 0x9000, length: 1024, rkey: 0x33 };

    let mut table: WorkTable<Vec<u8>> = WorkTable::new();
    let id = table.insert(OpKind::Write, buffer).ok().unwrap();
    let tag = match table.poll(id) {
        PollAction::Submit(tag) => tag,
        PollAction::Ready(_) => panic!("a pending operation is not ready"),
    };
    let sge = Sge { addr: mr.addr_u64(), length: 256, lkey: mr.lkey() };
    match work_request(OpKind::Write, tag, vec![sge], Some(remote)) {
        WorkRequest::Send(sr) => {
            assert_eq!(sr.wr_id, tag);
            assert_eq!(sr.opcode, WrOpcode::Write);
            assert_eq!(sr.remote_addr, 0x9000);
            assert_eq!(sr.rkey, 0x33);
            assert_eq!(sr.send_flags.bits, SEND_SIGNALED);
            assert_eq!(sr.sg_list[0].length, 256);
        }
        WorkRequest::Recv(_) => panic!("a write goes to the send queue"),
    }
    assert!(table.submitted(id, 5, Ok(())).is_none());
    let wc = WorkCompletion { wr_id: tag, status: 0, opcode: 1, byte_len: 256, imm_data: None };
    assert_eq!(dispatch_batch(&mut table, &[wc]), Ok(vec![5]));
    match table.poll(id) {
        PollAction::Ready(out) => {
            assert_eq!(out.result, Ok(Some(256)));
            assert_eq!(out.payload, vec![0u8; 1024]);
        }
        PollAction::Submit(_) => panic!("the write is completed"),
    }
}

#[test]
fn one_event_drains_two_completions() {
    let mut graph = ResourceTable::new();
    let ctx = graph.adopt(ResourceKind::Context, Ok(1), vec![]).unwrap();
    let mut cc = CompChannel::create(&mut graph, ctx, Ok(2)).unwrap();
    let mut options = CompletionQueue::options();
    options.cqe(8).channel(&cc);
    let mut cq = CompletionQueue::create_bound(&mut graph, ctx, Ok(3), &options, &mut cc).unwrap();

    cq.req_notify_all(0).unwrap();
    let mut table: WorkTable<u8> = WorkTable::new();
    let a = table.insert(OpKind::Send, 1).ok().unwrap();
    let b = table.insert(OpKind::Send, 2).ok().unwrap();
    let ta = post_pending(&mut table, a, 10);
    let tb = post_pending(&mut table, b, 20);

    assert_eq!(cc.wait_outcome(0, cq.key()), Ok(cq.key()));
    // the rearm fails: the event is still taken in, and the queue stays unarmed
    assert_eq!(on_channel_event(&mut cq, 11), Err(rdma::error::Error::Os(11)));
    assert!(!cq.armed());
    let batch = vec![
        WorkCompletion { wr_id: ta, status: 0, opcode: 0, byte_len: 1, imm_data: None },
        WorkCompletion { wr_id: tb, status: 0, opcode: 0, byte_len: 1, imm_data: None },
    ];
    assert!(keep_draining(batch.len()));
    assert_eq!(dispatch_batch(&mut table, &batch), Ok(vec![10, 20]));
    assert!(!keep_draining(0));
    assert_eq!(cq.events_consumed(), 1);
    assert_eq!(cq.events_acked(), 1);
    assert_eq!(cq.destroy(&mut cc), 1);
}

#[test]
fn handshake_record_round_trip() {
    let mut raw = [0u8; 16];
    raw[0] = 0xfe;
    raw[15] = 0x65;
    let dest = Dest { qpn: 0x0102_0304, psn: 0x00ab_cdef, lid: 0x1234, gid: Gid::from_bytes(raw) };
    let msg = encode_dest(&dest);
    assert_eq!(msg.len(), 27);
    assert_eq!(msg[0], 26);
    assert_eq!(&msg[1..5], &[4, 3, 2, 1]);
    assert_eq!(&msg[9..11], &[0x34, 0x12]);
    assert_eq!(decode_dest(&msg[1..]), Some(dest));
    assert_eq!(decode_dest(&msg[2..]), None);
}

#[test]
fn local_dest_needs_a_lid_off_ethernet() {
    let gid = Gid::from_bytes([0; 16]);
    let ib = PortAttr { state: 4, gid_tbl_len: 1, link_layer: 1, lid: 0, active_mtu: 3 };
    assert!(local_dest(5, 6, &ib, gid).is_err());
    let eth = PortAttr { link_layer: 2, ..ib };
    assert_eq!(local_dest(5, 6, &eth, gid), Ok(Dest { qpn: 5, psn: 6, lid: 0, gid }));
}

#[test]
fn rtr_routes_globally_with_interface_id() {
    let mut raw = [0u8; 16];
    raw[8] = 1;
    let remote = Dest { qpn: 9, psn: 10, lid: 3, gid: Gid::from_bytes(raw) };
    let o = rtr_options(&remote, 1, 2);
    let grh = o.ah_attr.unwrap().global_route.unwrap();
    assert_eq!(grh.sgid_index, 2);
    assert_eq!(grh.hop_limit, 1);
    let plain = Dest { gid: Gid::from_bytes([0; 16]), ..remote };
    assert!(rtr_options(&plain, 1, 2).ah_attr.unwrap().global_route.is_none());
}
