use rdma::wc::{WorkCompletion, WorkCompletionError};
use rdma::work::{decode_tag, encode_tag, DispatchError, OpError, OpKind, PollAction, State, WorkId, WorkTable};

fn completion(tag: u64, status: u32, opcode: u32, byte_len: u32) -> WorkCompletion {
    WorkCompletion { wr_id: tag, status, opcode, byte_len, imm_data: None }
}

fn submit<T>(table: &mut WorkTable<T>, id: WorkId, waker: u64) -> u64 {
    let tag = match table.poll(id) {
        PollAction::Submit(tag) => tag,
        PollAction::Ready(_) => panic!("a pending operation is not ready"),
    };
    assert!(table.submitted(id, waker, Ok(())).is_none());
    tag
}

#[test]
fn tag_round_trip() {
    for id in [
        WorkId { index: 0, generation: 0 },
        WorkId { index: 7, generation: 3 },
        WorkId { index: u32::MAX, generation: u32::MAX },
    ] {
        assert_eq!(decode_tag(encode_tag(id)), id);
    }
    assert_eq!(encode_tag(WorkId { index: 5, generation: 1 }), (1u64 << 32) + 5);
}

#[test]
fn recv_reports_byte_count_and_payload() {
    let mut table: WorkTable<Vec<u8>> = WorkTable::new();
    let id = table.insert(OpKind::Recv, vec![0u8; 64]).ok().unwrap();
    assert_eq!(table.state_of(id), Some(State::Pending));
    let tag = submit(&mut table, id, 11);
    assert_eq!(table.state_of(id), Some(State::Running));
    assert_eq!(table.complete(&WorkCompletion { imm_data: Some(5), ..completion(tag, 0, 128, 48) }), Ok(11));
    assert_eq!(table.state_of(id), Some(State::Completed));
    match table.poll(id) {
        PollAction::Ready(out) => {
            assert_eq!(out.result, Ok(Some(48)));
            assert_eq!(out.imm_data, Some(5));
            assert_eq!(out.payload.len(), 64);
        }
        PollAction::Submit(_) => panic!("a completed operation is ready"),
    }
    assert_eq!(table.state_of(id), Some(State::Invalid));
}

#[test]
fn failed_post_completes_inline() {
    let mut table: WorkTable<u32> = WorkTable::new();
    let id = table.insert(OpKind::Send, 77).ok().unwrap();
    let _ = table.poll(id);
    let out = table.submitted(id, 1, Err(12)).unwrap();
    assert_eq!(out.result, Err(OpError::Post(12)));
    assert_eq!(out.payload, 77);
    assert_eq!(table.state_of(id), Some(State::Invalid));
}

#[test]
fn completion_error_is_the_result() {
    let mut table: WorkTable<u32> = WorkTable::new();
    let id = table.insert(OpKind::Send, 1).ok().unwrap();
    let tag = submit(&mut table, id, 2);
    assert_eq!(table.complete(&completion(tag, 5, 0, 0)), Ok(2));
    match table.poll(id) {
        PollAction::Ready(out) => assert_eq!(out.result, Err(OpError::Completion(WorkCompletionError::WRFlush))),
        PollAction::Submit(_) => panic!("a completed operation is ready"),
    }
}

#[test]
fn unknown_status_is_refused() {
    let mut table: WorkTable<u32> = WorkTable::new();
    let id = table.insert(OpKind::Send, 1).ok().unwrap();
    let tag = submit(&mut table, id, 2);
    assert_eq!(table.complete(&completion(tag, 24, 0, 0)), Err(DispatchError::UnknownStatus));
    assert_eq!(table.state_of(id), Some(State::Running));
}

#[test]
fn stale_and_repeated_tags_are_refused() {
    let mut table: WorkTable<u32> = WorkTable::new();
    let id = table.insert(OpKind::Send, 1).ok().unwrap();
    let tag = submit(&mut table, id, 2);
    assert_eq!(table.complete(&completion(tag, 0, 0, 0)), Ok(2));
    // a second completion under the same tag finds no running record
    assert_eq!(table.complete(&completion(tag, 0, 0, 0)), Err(DispatchError::UnknownTag));
    let _ = table.poll(id);
    assert_eq!(table.release(id), None);
    assert_eq!(table.state_of(id), None);
    // the slot is reused under the next generation; the old tag stays dead
    let next = table.insert(OpKind::Send, 3).ok().unwrap();
    assert_eq!(next.index, id.index);
    assert_eq!(next.generation, id.generation + 1);
    let next_tag = submit(&mut table, next, 4);
    assert_ne!(next_tag, tag);
    assert_eq!(table.complete(&completion(tag, 0, 0, 0)), Err(DispatchError::UnknownTag));
    assert_eq!(table.complete(&completion(next_tag, 0, 0, 0)), Ok(4));
    assert_eq!(table.slot_count(), 1);
}

#[test]
fn consumed_operation_stays_invalid() {
    let mut table: WorkTable<u32> = WorkTable::new();
    let id = table.insert(OpKind::Write, 9).ok().unwrap();
    let tag = submit(&mut table, id, 1);
    assert_eq!(table.complete(&completion(tag, 0, 1, 256)), Ok(1));
    match table.poll(id) {
        PollAction::Ready(out) => {
            assert_eq!(out.result, Ok(Some(256)));
            assert_eq!(out.payload, 9);
        }
        PollAction::Submit(_) => panic!("a completed operation is ready"),
    }
    // polling again is a usage error: the record no longer admits a poll
    assert_eq!(table.state_of(id), Some(State::Invalid));
}

#[test]
fn release_returns_unposted_payload() {
    let mut table: WorkTable<u32> = WorkTable::new();
    let a = table.insert(OpKind::Read, 5).ok().unwrap();
    let b = table.insert(OpKind::Read, 6).ok().unwrap();
    assert_eq!(b.index, 1);
    assert_eq!(table.release(a), Some(5));
    assert_eq!(table.state_of(b), Some(State::Pending));
}
