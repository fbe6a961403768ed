use rdma::wc::{Opcode, WorkCompletion, WorkCompletionError};

const ALL_ERRORS: [WorkCompletionError; 23] = [
    WorkCompletionError::LocalLength,
    WorkCompletionError::LocalQPOperation,
    WorkCompletionError::LocalEEContextOperation,
    WorkCompletionError::LocalProtection,
    WorkCompletionError::WRFlush,
    WorkCompletionError::MWBind,
    WorkCompletionError::BadResponse,
    WorkCompletionError::LocalAccess,
    WorkCompletionError::RemoteInvalidRequest,
    WorkCompletionError::RemoteAccess,
    WorkCompletionError::RemoteOperation,
    WorkCompletionError::RetryExceeded,
    WorkCompletionError::RnrRetryExceeded,
    WorkCompletionError::LocalRDDViolation,
    WorkCompletionError::RemoteInvalidRDRequest,
    WorkCompletionError::RemoteAborted,
    WorkCompletionError::InvalidEEContextNumber,
    WorkCompletionError::InvalidEEContextState,
    WorkCompletionError::Fatal,
    WorkCompletionError::ResponseTimeout,
    WorkCompletionError::General,
    WorkCompletionError::TagMatching,
    WorkCompletionError::TagMatchingRndvIncomplete,
];

#[test]
fn continuous() {
    let mut numbers: Vec<u32> = ALL_ERRORS.iter().map(|e| e.to_c_uint()).collect();
    numbers.sort_unstable();
    assert_eq!(numbers.first().copied().unwrap(), 1);
    assert_eq!(numbers.last().copied().unwrap(), numbers.len() as u32);
}

#[test]
fn status_decodes_each_error() {
    for e in ALL_ERRORS {
        assert_eq!(WorkCompletionError::from_c_uint(e.to_c_uint()), e);
        assert_eq!(WorkCompletionError::result(e.to_c_uint()), Err(e));
    }
    assert_eq!(WorkCompletionError::result(0), Ok(()));
    assert_eq!(WorkCompletionError::result(5), Err(WorkCompletionError::WRFlush));
}

#[test]
fn status_out_of_range_is_refused() {
    assert_eq!(WorkCompletionError::try_result(24), None);
    assert_eq!(WorkCompletionError::try_result(u32::MAX), None);
    assert_eq!(WorkCompletionError::try_result(23), Some(Err(WorkCompletionError::TagMatchingRndvIncomplete)));
    assert_eq!(WorkCompletionError::try_result(0), Some(Ok(())));
}

#[test]
fn opcodes_decode() {
    assert_eq!(Opcode::from_c_uint(0), Opcode::Send);
    assert_eq!(Opcode::from_c_uint(2), Opcode::RdmaRead);
    assert_eq!(Opcode::from_c_uint(128), Opcode::Recv);
    assert_eq!(Opcode::from_c_uint(137), Opcode::Driver3);
    assert_eq!(Opcode::try_from_c_uint(8), None);
    assert_eq!(Opcode::try_from_c_uint(127), None);
    assert_eq!(Opcode::try_from_c_uint(138), None);
    assert_eq!(Opcode::RecvRdmaWithImm.to_c_uint(), 129);
}

#[test]
fn completion_accessors() {
    let wc = WorkCompletion { wr_id: 42, status: 0, opcode: 128, byte_len: 64, imm_data: Some(9) };
    assert_eq!(wc.wr_id(), 42);
    assert_eq!(wc.status(), 0);
    assert_eq!(wc.byte_len(), 64);
    assert_eq!(wc.opcode(), Opcode::Recv);
}
