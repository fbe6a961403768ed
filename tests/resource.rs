use rdma::cc::{CompChannel, EventError};
use rdma::cq::CompletionQueue;
use rdma::error::{check_ret, create_resource, custom_error, from_errno, Error};
use rdma::qp::{
    ModifyOptions, QueryOptions, QueuePair, QueuePairAttr, QueuePairCapacity, QueuePairNumber, QueuePairState,
    QueuePairType, QP_CAP, QP_STATE, query_outcome,
};
use rdma::resource::{ResourceKind, ResourceTable};

#[test]
fn release_destroys_dependents_first() {
    let mut graph = ResourceTable::new();
    let ctx = graph.create(ResourceKind::Context, 1, vec![]);
    let pd = graph.create(ResourceKind::ProtectionDomain, 2, vec![ctx]);
    let qp = graph.create(ResourceKind::QueuePair, 3, vec![pd]);
    assert!(graph.release(ctx).is_empty());
    assert!(graph.alive(ctx));
    assert!(graph.release(pd).is_empty());
    assert!(graph.alive(pd));
    assert_eq!(graph.release(qp), vec![qp, pd, ctx]);
    assert!(!graph.alive(ctx));
    assert_eq!(graph.handle(pd), 2);
    assert_eq!(graph.kind(qp), ResourceKind::QueuePair);
}

#[test]
fn strong_ref_keeps_alive() {
    let mut graph = ResourceTable::new();
    let ctx = graph.create(ResourceKind::Context, 1, vec![]);
    graph.strong_ref(ctx);
    assert_eq!(graph.strong_count(ctx), 2);
    assert!(graph.release(ctx).is_empty());
    assert_eq!(graph.release(ctx), vec![ctx]);
    assert_eq!(graph.len(), 1);
}

#[test]
fn adopt_takes_the_creation_outcome() {
    let mut graph = ResourceTable::new();
    let ctx = graph.adopt(ResourceKind::Context, create_resource(0x10, 0, "failed to open device"), vec![]).unwrap();
    let failed = graph.adopt(
        ResourceKind::ProtectionDomain,
        create_resource(0, 12, "failed to allocate protection domain"),
        vec![ctx],
    );
    assert_eq!(failed, Err(Error::Os(12)));
    assert_eq!(graph.len(), 1);
    let pd = graph.adopt(ResourceKind::ProtectionDomain, Ok(0x20), vec![ctx]).unwrap();
    assert_eq!(pd, 1);
    assert_eq!(graph.handle(pd), 0x20);
}

fn graph_with_context() -> (ResourceTable, usize) {
    let mut graph = ResourceTable::new();
    let ctx = graph.adopt(ResourceKind::Context, Ok(0x10), vec![]).unwrap();
    (graph, ctx)
}

#[test]
fn destroying_bound_queue_removes_one_ref() {
    let (mut graph, ctx) = graph_with_context();
    let mut cc = CompChannel::create(&mut graph, ctx, Ok(0x20)).unwrap();
    let mut options = CompletionQueue::options();
    options.channel(&cc).user_data(3);
    let cq1 = CompletionQueue::create_bound(&mut graph, ctx, Ok(0x31), &options, &mut cc).unwrap();
    let cq2 = CompletionQueue::create_bound(&mut graph, ctx, Ok(0x32), &options, &mut cc).unwrap();
    let (k1, k2) = (cq1.key(), cq2.key());
    assert_eq!(cc.bound_count(), 2);
    assert!(cc.is_bound(k1));
    assert_eq!(cq1.user_data(), 3);
    assert_eq!(cq1.channel(), Some(cc.key()));
    assert_eq!(cq1.destroy(&mut cc), 0);
    assert_eq!(cc.bound_count(), 1);
    assert!(!cc.is_bound(k1));
    assert!(cc.is_bound(k2));
    assert_eq!(cc.wait_outcome(0, k1), Err(EventError::QueueDestroyed));
    assert_eq!(cc.wait_outcome(0, k2), Ok(k2));
    assert_eq!(cc.wait_outcome(5, k2), Err(EventError::Wait(5)));
    assert_eq!(cq2.destroy(&mut cc), 0);
    assert_eq!(cc.bound_count(), 0);
}

#[test]
fn failed_creation_leaves_graph() {
    let (mut graph, ctx) = graph_with_context();
    let mut cc = CompChannel::create(&mut graph, ctx, Ok(0x20)).unwrap();
    assert!(CompChannel::create(&mut graph, ctx, Err(Error::Os(12))).is_err());
    let mut options = CompletionQueue::options();
    options.channel(&cc);
    assert!(CompletionQueue::create_bound(&mut graph, ctx, Err(Error::Os(12)), &options, &mut cc).is_err());
    assert_eq!(cc.bound_count(), 0);
    assert_eq!(graph.len(), 2);
}

#[test]
fn acknowledgments_follow_events() {
    let (mut graph, ctx) = graph_with_context();
    let mut options = CompletionQueue::options();
    options.cqe(4);
    let mut cq = CompletionQueue::create(&mut graph, ctx, Ok(0x40), &options).unwrap();
    assert_eq!(cq.cqe(), 4);
    assert_eq!(graph.kind(cq.key()), ResourceKind::CompletionQueue);
    assert!(!cq.armed());
    assert_eq!(cq.req_notify_solicited(95), Err(Error::Os(95)));
    assert!(!cq.armed());
    cq.req_notify_all(0).unwrap();
    assert!(cq.armed());
    cq.record_event();
    assert!(!cq.armed());
    cq.req_notify_solicited(0).unwrap();
    cq.record_event();
    cq.ack_cq_events(2);
    assert_eq!(cq.events_acked(), 2);
    assert_eq!(cq.destroy_unbound(), 2);
}

#[test]
fn poll_count_maps_errors() {
    assert_eq!(CompletionQueue::poll_count(3, 8), Ok(3));
    assert_eq!(CompletionQueue::poll_count(0, 8), Ok(0));
    assert_eq!(CompletionQueue::poll_count(-5, 8), Err(Error::Os(5)));
}

#[test]
fn error_helpers() {
    assert_eq!(from_errno(12), Error::Os(12));
    assert_eq!(custom_error("boom"), Error::Custom("boom".to_string()));
    assert_eq!(create_resource(0x100, 0, "x"), Ok(0x100));
    assert_eq!(create_resource(0, 12, "x"), Err(Error::Os(12)));
    assert_eq!(create_resource(0, 0, "no queue"), Err(Error::Custom("no queue".to_string())));
    assert_eq!(check_ret(0), Ok(()));
    assert_eq!(check_ret(22), Err(Error::Os(22)));
}

fn rc_or_ud_qp(qp_type: QueuePairType) -> QueuePair {
    let (mut graph, ctx) = graph_with_context();
    let pd = graph.adopt(ResourceKind::ProtectionDomain, Ok(0x20), vec![ctx]).unwrap();
    let mut options = QueuePair::options();
    options.qp_type(qp_type).sq_sig_all(false).user_data(4);
    QueuePair::create(&mut graph, pd, Ok(0x30), 33, &options).unwrap()
}

#[test]
fn modify_failure_keeps_state() {
    let mut qp = rc_or_ud_qp(QueuePairType::UD);
    assert_eq!(qp.number(), QueuePairNumber::new(33));
    assert_eq!(qp.user_data(), 4);
    let mut init = ModifyOptions::default();
    init.qp_state(QueuePairState::Initialize).pkey_index(0).port_num(1);
    assert!(qp.check_modify(&init).is_err());
    init.qkey(0x1111);
    qp.check_modify(&init).unwrap();
    assert_eq!(qp.modify(&init, 22), Err(Error::Os(22)));
    assert_eq!(qp.state(), QueuePairState::Reset);
    assert_eq!(qp.modify(&init, 0), Ok(()));
    assert_eq!(qp.state(), QueuePairState::Initialize);
    assert_eq!(init.mask(), QP_STATE + 16 + 32 + 64);
}

#[test]
fn skipping_a_step_is_refused() {
    let qp = rc_or_ud_qp(QueuePairType::RC);
    let mut rts = ModifyOptions::default();
    rts.qp_state(QueuePairState::ReadyToSend).sq_psn(1).timeout(14).retry_cnt(7).rnr_retry(7).max_rd_atomic(1);
    assert!(qp.check_modify(&rts).is_err());
    let mut err = ModifyOptions::default();
    err.qp_state(QueuePairState::Error);
    assert!(qp.check_modify(&err).is_ok());
}

#[test]
fn failed_queue_pair_creation_keeps_no_reference() {
    let (mut graph, ctx) = graph_with_context();
    let pd = graph.adopt(ResourceKind::ProtectionDomain, Ok(0x20), vec![ctx]).unwrap();
    let mut options = QueuePair::options();
    options.qp_type(QueuePairType::RC).sq_sig_all(true);
    assert!(QueuePair::create(&mut graph, pd, Err(Error::Os(12)), 1, &options).is_err());
    assert_eq!(graph.release(pd), vec![pd]);
}

#[test]
fn query_attr_by_mask() {
    let mut q = QueryOptions::default();
    q.cap().qp_state();
    assert_eq!(q.mask, QP_CAP | QP_STATE);
    let cap = QueuePairCapacity { max_send_wr: 8, ..QueuePairCapacity::default() };
    let attr = query_outcome(&q, 0, cap, 3).unwrap();
    assert_eq!(attr.cap(), Some(cap));
    assert_eq!(attr.qp_state(), Some(QueuePairState::ReadyToSend));
    assert_eq!(query_outcome(&q, 22, cap, 3), Err(Error::Os(22)));
    let none = QueuePairAttr { mask: 0, cap, qp_state: 9 };
    assert_eq!(none.cap(), None);
    assert_eq!(none.qp_state(), None);
    assert_eq!(QueuePairState::Error.to_c_uint(), 6);
    assert_eq!(QueuePairType::RC.to_c_uint(), 2);
}

#[test]
fn failed_step_outside_the_table_keeps_state() {
    let mut qp = rc_or_ud_qp(QueuePairType::RC);
    let mut rts = ModifyOptions::default();
    rts.qp_state(QueuePairState::ReadyToSend).sq_psn(1);
    assert!(qp.check_modify(&rts).is_err());
    assert_eq!(qp.modify(&rts, 22), Err(Error::Os(22)));
    assert_eq!(qp.state(), QueuePairState::Reset);
}

#[test]
fn releasing_bound_queue_unbinds_and_destroys() {
    let (mut graph, ctx) = graph_with_context();
    let mut cc = CompChannel::create(&mut graph, ctx, Ok(0x20)).unwrap();
    let mut options = CompletionQueue::options();
    options.channel(&cc);
    let cq = CompletionQueue::create_bound(&mut graph, ctx, Ok(0x31), &options, &mut cc).unwrap();
    let key = cq.key();
    let (acks, destroyed) = cq.release_bound(&mut graph, &mut cc);
    assert_eq!(acks, 0);
    assert_eq!(destroyed, vec![key]);
    assert!(!graph.alive(key));
    assert_eq!(cc.bound_count(), 0);
    assert_eq!(cc.wait_outcome(0, key), Err(EventError::QueueDestroyed));
    assert!(graph.alive(cc.key()));
}

#[test]
fn address_handle_holds_its_domain() {
    let (mut graph, ctx) = graph_with_context();
    let pd = graph.adopt(ResourceKind::ProtectionDomain, Ok(0x20), vec![ctx]).unwrap();
    let mut options = rdma::ah::AddressHandle::options();
    options.dest_lid(7).port_num(1);
    assert!(rdma::ah::AddressHandle::create(&mut graph, pd, Err(Error::Os(12)), &options).is_err());
    let ah = rdma::ah::AddressHandle::create(&mut graph, pd, Ok(0x40), &options).unwrap();
    assert_eq!(graph.kind(ah.key()), ResourceKind::AddressHandle);
    assert!(graph.release(pd).is_empty());
    assert_eq!(graph.release(ah.key()), vec![ah.key(), pd]);
}
