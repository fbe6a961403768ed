use vstd::prelude::*;

verus! {

/// Raw status value of a successful work completion.
pub const WC_SUCCESS: u32 = 0;

/// Raw status value of the last known completion error.
pub const WC_LAST_ERROR: u32 = 23;

/// A work completion record as delivered by a completion queue poll.
#[derive(Clone, Copy, Debug, PartialEq, Eq, Structural)]
pub struct WorkCompletion {
    pub wr_id: u64,
    pub status: u32,
    pub opcode: u32,
    pub byte_len: u32,
    pub imm_data: Option<u32>,
}

/// Kind of work that a completion reports.
#[derive(Clone, Copy, Debug, PartialEq, Eq, Structural)]
pub enum Opcode {
    Send,
    RdmaWrite,
    RdmaRead,
    CompSwap,
    FetchAdd,
    BindMw,
    LocalInv,
    Tso,
    Recv,
    RecvRdmaWithImm,
    TmAdd,
    TmDel,
    TmSync,
    TmRecv,
    TmNoTag,
    Driver1,
    Driver2,
    Driver3,
}

/// The raw value of each completion opcode.
pub open spec fn opcode_value(op: Opcode) -> u32 {
    match op {
        Opcode::Send => 0,
        Opcode::RdmaWrite => 1,
        Opcode::RdmaRead => 2,
        Opcode::CompSwap => 3,
        Opcode::FetchAdd => 4,
        Opcode::BindMw => 5,
        Opcode::LocalInv => 6,
        Opcode::Tso => 7,
        Opcode::Recv => 128,
        Opcode::RecvRdmaWithImm => 129,
        Opcode::TmAdd => 130,
        Opcode::TmDel => 131,
        Opcode::TmSync => 132,
        Opcode::TmRecv => 133,
        Opcode::TmNoTag => 134,
        Opcode::Driver1 => 135,
        Opcode::Driver2 => 136,
        Opcode::Driver3 => 137,
    }
}

/// A raw completion opcode that names a known kind.
pub open spec fn is_known_opcode(val: u32) -> bool {
    val <= 7 || (128 <= val && val <= 137)
}

impl Opcode {
    /// Decodes a raw completion opcode; unknown values are not admitted.
    pub fn from_c_uint(val: u32) -> (r: Opcode)
        requires
            is_known_opcode(val),
        ensures
            opcode_value(r) == val,
    {
        match val {
            0 => Opcode::Send,
            1 => Opcode::RdmaWrite,
            2 => Opcode::RdmaRead,
            3 => Opcode::CompSwap,
            4 => Opcode::FetchAdd,
            5 => Opcode::BindMw,
            6 => Opcode::LocalInv,
            7 => Opcode::Tso,
            128 => Opcode::Recv,
            129 => Opcode::RecvRdmaWithImm,
            130 => Opcode::TmAdd,
            131 => Opcode::TmDel,
            132 => Opcode::TmSync,
            133 => Opcode::TmRecv,
            134 => Opcode::TmNoTag,
            135 => Opcode::Driver1,
            136 => Opcode::Driver2,
            _ => Opcode::Driver3,
        }
    }

    /// Decodes a raw completion opcode, or `None` for a value outside the known set.
    pub fn try_from_c_uint(val: u32) -> (r: Option<Opcode>)
        ensures
            r is Some <==> is_known_opcode(val),
            r matches Some(op) ==> opcode_value(op) == val,
    {
        if is_known_opcode_exec(val) {
            Some(Opcode::from_c_uint(val))
        } else {
            None
        }
    }

    /// The raw value of this opcode.
    pub fn to_c_uint(self) -> (r: u32)
        ensures
            r == opcode_value(self),
            is_known_opcode(r),
    {
        match self {
            Opcode::Send => 0,
            Opcode::RdmaWrite => 1,
            Opcode::RdmaRead => 2,
            Opcode::CompSwap => 3,
            Opcode::FetchAdd => 4,
            Opcode::BindMw => 5,
            Opcode::LocalInv => 6,
            Opcode::Tso => 7,
            Opcode::Recv => 128,
            Opcode::RecvRdmaWithImm => 129,
            Opcode::TmAdd => 130,
            Opcode::TmDel => 131,
            Opcode::TmSync => 132,
            Opcode::TmRecv => 133,
            Opcode::TmNoTag => 134,
            Opcode::Driver1 => 135,
            Opcode::Driver2 => 136,
            Opcode::Driver3 => 137,
        }
    }
}

fn is_known_opcode_exec(val: u32) -> (r: bool)
    ensures
        r == is_known_opcode(val),
{
    val <= 7 || (128 <= val && val <= 137)
}

/// Hardware error reported in a work completion's status field.
#[derive(Clone, Copy, Debug, PartialEq, Eq, Structural)]
pub enum WorkCompletionError {
    LocalLength,
    LocalQPOperation,
    LocalEEContextOperation,
    LocalProtection,
    WRFlush,
    MWBind,
    BadResponse,
    LocalAccess,
    RemoteInvalidRequest,
    RemoteAccess,
    RemoteOperation,
    RetryExceeded,
    RnrRetryExceeded,
    LocalRDDViolation,
    RemoteInvalidRDRequest,
    RemoteAborted,
    InvalidEEContextNumber,
    InvalidEEContextState,
    Fatal,
    ResponseTimeout,
    General,
    TagMatching,
    TagMatchingRndvIncomplete,
}

/// The raw status value of each completion error: the errors are numbered
/// one after another from 1.
pub open spec fn status_value(e: WorkCompletionError) -> u32 {
    match e {
        WorkCompletionError::LocalLength => 1,
        WorkCompletionError::LocalQPOperation => 2,
        WorkCompletionError::LocalEEContextOperation => 3,
        WorkCompletionError::LocalProtection => 4,
        WorkCompletionError::WRFlush => 5,
        WorkCompletionError::MWBind => 6,
        WorkCompletionError::BadResponse => 7,
        WorkCompletionError::LocalAccess => 8,
        WorkCompletionError::RemoteInvalidRequest => 9,
        WorkCompletionError::RemoteAccess => 10,
        WorkCompletionError::RemoteOperation => 11,
        WorkCompletionError::RetryExceeded => 12,
        WorkCompletionError::RnrRetryExceeded => 13,
        WorkCompletionError::LocalRDDViolation => 14,
        WorkCompletionError::RemoteInvalidRDRequest => 15,
        WorkCompletionError::RemoteAborted => 16,
        WorkCompletionError::InvalidEEContextNumber => 17,
        WorkCompletionError::InvalidEEContextState => 18,
        WorkCompletionError::Fatal => 19,
        WorkCompletionError::ResponseTimeout => 20,
        WorkCompletionError::General => 21,
        WorkCompletionError::TagMatching => 22,
        WorkCompletionError::TagMatchingRndvIncomplete => 23,
    }
}

/// A raw status value that names success or a known error.
pub open spec fn is_known_status(status: u32) -> bool {
    status <= WC_LAST_ERROR
}

/// What a known raw status means: success, or the error numbered so.
pub open spec fn status_result(status: u32) -> Result<(), WorkCompletionError>
    recommends
        is_known_status(status),
{
    if status == WC_SUCCESS {
        Ok(())
    } else {
        Err(choose|e: WorkCompletionError| status_value(e) == status)
    }
}

impl WorkCompletionError {
    /// Decodes a raw status into success or a completion error. A status
    /// outside the known range is not admitted: it aborts decoding.
    pub fn result(status: u32) -> (r: Result<(), WorkCompletionError>)
        requires
            is_known_status(status),
        ensures
            r is Ok <==> status == WC_SUCCESS,
            r matches Err(e) ==> status_value(e) == status,
    {
        if status == WC_SUCCESS {
            Ok(())
        } else {
            Err(WorkCompletionError::from_c_uint(status))
        }
    }

    /// Decodes a raw status, or `None` when the value is outside the known
    /// range; no unknown value is mapped to a default error.
    pub fn try_result(status: u32) -> (r: Option<Result<(), WorkCompletionError>>)
        ensures
            r is None <==> !is_known_status(status),
            r matches Some(res) ==> (res is Ok <==> status == WC_SUCCESS),
            r matches Some(Err(e)) ==> status_value(e) == status,
    {
        if status <= WC_LAST_ERROR {
            Some(WorkCompletionError::result(status))
        } else {
            None
        }
    }

    /// The raw status value of this error.
    pub fn to_c_uint(self) -> (r: u32)
        ensures
            r == status_value(self),
            1 <= r <= WC_LAST_ERROR,
    {
        match self {
            WorkCompletionError::LocalLength => 1,
            WorkCompletionError::LocalQPOperation => 2,
            WorkCompletionError::LocalEEContextOperation => 3,
            WorkCompletionError::LocalProtection => 4,
            WorkCompletionError::WRFlush => 5,
            WorkCompletionError::MWBind => 6,
            WorkCompletionError::BadResponse => 7,
            WorkCompletionError::LocalAccess => 8,
            WorkCompletionError::RemoteInvalidRequest => 9,
            WorkCompletionError::RemoteAccess => 10,
            WorkCompletionError::RemoteOperation => 11,
            WorkCompletionError::RetryExceeded => 12,
            WorkCompletionError::RnrRetryExceeded => 13,
            WorkCompletionError::LocalRDDViolation => 14,
            WorkCompletionError::RemoteInvalidRDRequest => 15,
            WorkCompletionError::RemoteAborted => 16,
            WorkCompletionError::InvalidEEContextNumber => 17,
            WorkCompletionError::InvalidEEContextState => 18,
            WorkCompletionError::Fatal => 19,
            WorkCompletionError::ResponseTimeout => 20,
            WorkCompletionError::General => 21,
            WorkCompletionError::TagMatching => 22,
            WorkCompletionError::TagMatchingRndvIncomplete => 23,
        }
    }

    /// Decodes a raw error status in `1..=23`.
    pub fn from_c_uint(val: u32) -> (r: WorkCompletionError)
        requires
            1 <= val <= WC_LAST_ERROR,
        ensures
            status_value(r) == val,
    {
        match val {
            1 => WorkCompletionError::LocalLength,
            2 => WorkCompletionError::LocalQPOperation,
            3 => WorkCompletionError::LocalEEContextOperation,
            4 => WorkCompletionError::LocalProtection,
            5 => WorkCompletionError::WRFlush,
            6 => WorkCompletionError::MWBind,
            7 => WorkCompletionError::BadResponse,
            8 => WorkCompletionError::LocalAccess,
            9 => WorkCompletionError::RemoteInvalidRequest,
            10 => WorkCompletionError::RemoteAccess,
            11 => WorkCompletionError::RemoteOperation,
            12 => WorkCompletionError::RetryExceeded,
            13 => WorkCompletionError::RnrRetryExceeded,
            14 => WorkCompletionError::LocalRDDViolation,
            15 => WorkCompletionError::RemoteInvalidRDRequest,
            16 => WorkCompletionError::RemoteAborted,
            17 => WorkCompletionError::InvalidEEContextNumber,
            18 => WorkCompletionError::InvalidEEContextState,
            19 => WorkCompletionError::Fatal,
            20 => WorkCompletionError::ResponseTimeout,
            21 => WorkCompletionError::General,
            22 => WorkCompletionError::TagMatching,
            _ => WorkCompletionError::TagMatchingRndvIncomplete,
        }
    }
}

/// Each completion error has its own raw status, inside the known range,
/// and decoding that status gives the error back.
pub proof fn lemma_status_round_trip(e: WorkCompletionError, f: WorkCompletionError)
    ensures
        1 <= status_value(e) <= WC_LAST_ERROR,
        status_value(e) == status_value(f) ==> e == f,
        status_result(status_value(e)) == Err::<(), WorkCompletionError>(e),
{
    assert(status_value(e) != WC_SUCCESS);
    let g = choose|g: WorkCompletionError| status_value(g) == status_value(e);
    assert(status_value(g) == status_value(e));
}

impl WorkCompletion {
    /// The raw status of the completion.
    pub fn status(&self) -> (r: u32)
        ensures
            r == self.status,
    {
        self.status
    }

    /// The correlation tag of the completed request.
    pub fn wr_id(&self) -> (r: u64)
        ensures
            r == self.wr_id,
    {
        self.wr_id
    }

    /// Number of bytes transferred.
    pub fn byte_len(&self) -> (r: u32)
        ensures
            r == self.byte_len,
    {
        self.byte_len
    }

    /// The decoded opcode; only completions with a known opcode are admitted.
    pub fn opcode(&self) -> (r: Opcode)
        requires
            is_known_opcode(self.opcode),
        ensures
            opcode_value(r) == self.opcode,
    {
        Opcode::from_c_uint(self.opcode)
    }
}

/// A status beyond the known range names no completion error: decoding it
/// cannot fall back on some variant, and `result` does not admit it.
pub proof fn lemma_unknown_status_names_no_error(status: u32)
    requires
        !is_known_status(status),
    ensures
        forall|e: WorkCompletionError| status_value(e) != status,
{
    assert forall|e: WorkCompletionError| status_value(e) != status by {
        lemma_status_round_trip(e, e);
    }
}

} // verus!
