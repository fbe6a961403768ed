use vstd::prelude::*;

use crate::wc::{is_known_status, status_value, WorkCompletion, WorkCompletionError, WC_SUCCESS};

verus! {

/// Number of distinct slot indices that a correlation tag can carry.
pub const TAG_SLOT_RANGE: u64 = 0x1_0000_0000;

/// The kinds of asynchronous operation: they share one state machine and
/// differ in how a completion is read.
#[derive(Clone, Copy, Debug, PartialEq, Eq, Structural)]
pub enum OpKind {
    Send,
    Recv,
    Write,
    Read,
}

/// Handle of an operation record: a slot index and the generation of the
/// slot at the time the record was placed in it.
#[derive(Clone, Copy, Debug, PartialEq, Eq, Structural)]
pub struct WorkId {
    pub index: u32,
    pub generation: u32,
}

/// The observable state of an operation record.
#[derive(Clone, Copy, Debug, PartialEq, Eq, Structural)]
pub enum State {
    Pending,
    Running,
    Completed,
    Invalid,
}

/// Why an operation ended without a value.
#[derive(Clone, Copy, Debug, PartialEq, Eq, Structural)]
pub enum OpError {
    /// Posting the work request failed with this error code.
    Post(i32),
    /// The hardware reported this completion error.
    Completion(WorkCompletionError),
}

/// Why a drained completion could not be dispatched.
#[derive(Clone, Copy, Debug, PartialEq, Eq, Structural)]
pub enum DispatchError {
    /// The tag names no record that is waiting for its completion.
    UnknownTag,
    /// The completion's status lies outside the known enumeration.
    UnknownStatus,
}

/// A record's state together with what that state holds. The payload is
/// present exactly while the record has not handed it back.
pub enum Step<T> {
    Pending { payload: T },
    Running { payload: T, waker: u64 },
    Completed {
        payload: T,
        waker: u64,
        status: Result<(), WorkCompletionError>,
        byte_len: u32,
        imm_data: Option<u32>,
    },
    Invalid,
}

pub struct Record<T> {
    pub kind: OpKind,
    pub step: Step<T>,
}

pub struct Slot<T> {
    pub generation: u32,
    pub record: Option<Record<T>>,
}

/// What an operation hands back when it is finished: its result and the
/// ownership of its buffers.
pub struct OpOutput<T> {
    pub result: Result<Option<usize>, OpError>,
    pub imm_data: Option<u32>,
    pub payload: T,
}

/// What a poll of a record asks the caller to do.
pub enum PollAction<T> {
    /// Post the work request under this correlation tag, then report the
    /// outcome with `WorkTable::submitted`.
    Submit(u64),
    /// The operation is finished.
    Ready(OpOutput<T>),
}

/// The correlation tag carried by the work request of a record.
pub open spec fn tag_of(id: WorkId) -> u64 {
    (id.generation as int * TAG_SLOT_RANGE as int + id.index as int) as u64
}

/// Encodes a record handle as a correlation tag.
pub fn encode_tag(id: WorkId) -> (r: u64)
    ensures
        r == tag_of(id),
        r as int == id.generation as int * TAG_SLOT_RANGE as int + id.index as int,
{
    proof {
        assert(id.generation as int * TAG_SLOT_RANGE as int + id.index as int <= u64::MAX)
            by (nonlinear_arith)
            requires
                id.generation <= u32::MAX,
                id.index <= u32::MAX,
                TAG_SLOT_RANGE == 0x1_0000_0000u64,
        ;
    }
    (id.generation as u64) * TAG_SLOT_RANGE + (id.index as u64)
}

/// Decodes a correlation tag into the record handle it was made from.
pub fn decode_tag(tag: u64) -> (r: WorkId)
    ensures
        tag_of(r) == tag,
{
    let generation = tag / TAG_SLOT_RANGE;
    let index = tag % TAG_SLOT_RANGE;
    proof {
        assert(generation <= u32::MAX) by (nonlinear_arith)
            requires
                generation == tag / TAG_SLOT_RANGE,
                TAG_SLOT_RANGE == 0x1_0000_0000u64,
        ;
        assert(tag as int == generation as int * TAG_SLOT_RANGE as int + index as int)
            by (nonlinear_arith)
            requires
                generation == tag / TAG_SLOT_RANGE,
                index == tag % TAG_SLOT_RANGE,
                TAG_SLOT_RANGE > 0,
        ;
    }
    WorkId { index: index as u32, generation: generation as u32 }
}

/// Decoding the tag of a record handle gives that handle back, and two
/// handles never share a tag.
pub proof fn lemma_tag_round_trip(a: WorkId, b: WorkId)
    ensures
        tag_of(a) == tag_of(b) ==> a == b,
{
    if tag_of(a) == tag_of(b) {
        let ta = a.generation as int * TAG_SLOT_RANGE as int + a.index as int;
        let tb = b.generation as int * TAG_SLOT_RANGE as int + b.index as int;
        assert(ta <= u64::MAX && tb <= u64::MAX) by (nonlinear_arith)
            requires
                a.generation <= u32::MAX,
                a.index <= u32::MAX,
                b.generation <= u32::MAX,
                b.index <= u32::MAX,
                TAG_SLOT_RANGE == 0x1_0000_0000u64,
                ta == a.generation as int * TAG_SLOT_RANGE as int + a.index as int,
                tb == b.generation as int * TAG_SLOT_RANGE as int + b.index as int,
        ;
        assert(ta == tb);
        assert(a.generation == b.generation && a.index == b.index) by (nonlinear_arith)
            requires
                ta == tb,
                a.index < TAG_SLOT_RANGE,
                b.index < TAG_SLOT_RANGE,
                ta == a.generation as int * TAG_SLOT_RANGE as int + a.index as int,
                tb == b.generation as int * TAG_SLOT_RANGE as int + b.index as int,
                a.generation >= 0,
                b.generation >= 0,
        ;
    }
}

/// The state shown for a step.
pub open spec fn state_of<T>(step: Step<T>) -> State {
    match step {
        Step::Pending { .. } => State::Pending,
        Step::Running { .. } => State::Running,
        Step::Completed { .. } => State::Completed,
        Step::Invalid => State::Invalid,
    }
}

/// The result that a finished operation of `kind` reports for a decoded
/// completion status and byte count: receives, one-sided writes and reads
/// report how many bytes were moved.
pub open spec fn completion_output(
    kind: OpKind,
    status: Result<(), WorkCompletionError>,
    byte_len: u32,
) -> Result<Option<usize>, OpError> {
    match status {
        Err(e) => Err(OpError::Completion(e)),
        Ok(()) => match kind {
            OpKind::Recv | OpKind::Read | OpKind::Write => Ok(Some(byte_len as usize)),
            OpKind::Send => Ok(None),
        },
    }
}

/// A decoded completion status that stands for this raw status.
pub open spec fn decodes_to(status: u32, r: Result<(), WorkCompletionError>) -> bool {
    &&& r is Ok <==> status == WC_SUCCESS
    &&& r matches Err(e) ==> status_value(e) == status
}

/// The slot table of in-flight asynchronous operations. Each record is
/// found from its correlation tag, which names its slot and the slot's
/// generation, so a stale or repeated completion never reaches a record
/// that has since taken the slot.
pub struct WorkTable<T> {
    slots: Vec<Slot<T>>,
}

impl<T> View for WorkTable<T> {
    type V = Seq<Slot<T>>;

    closed spec fn view(&self) -> Seq<Slot<T>> {
        self.slots@
    }
}

fn complete_step<T>(kind: OpKind, payload: T, waker: u64, wc: &WorkCompletion) -> (r: Step<T>)
    requires
        is_known_status(wc.status),
    ensures
        r matches Step::Completed { payload: p, waker: w, status, byte_len, imm_data } && p
            == payload && w == waker && decodes_to(wc.status, status) && byte_len == wc.byte_len
            && imm_data == wc.imm_data,
{
    let status = WorkCompletionError::result(wc.status);
    Step::Completed { payload, waker, status, byte_len: wc.byte_len, imm_data: wc.imm_data }
}

fn output_value(kind: OpKind, status: Result<(), WorkCompletionError>, byte_len: u32) -> (r: Result<
    Option<usize>,
    OpError,
>)
    ensures
        r == completion_output(kind, status, byte_len),
{
    match status {
        Err(e) => Err(OpError::Completion(e)),
        Ok(()) => match kind {
            OpKind::Recv | OpKind::Read | OpKind::Write => Ok(Some(byte_len as usize)),
            OpKind::Send => Ok(None),
        },
    }
}

impl<T> WorkTable<T> {
    /// Every slot index fits in a correlation tag.
    pub open spec fn wf(&self) -> bool {
        self@.len() <= TAG_SLOT_RANGE
    }

    /// A slot that a new record may take.
    pub open spec fn is_free_slot(s: Slot<T>) -> bool {
        s.record is None && s.generation < u32::MAX
    }

    /// The handle names a record that is still held in the table.
    pub open spec fn is_live(&self, id: WorkId) -> bool {
        &&& id.index < self@.len()
        &&& self@[id.index as int].generation == id.generation
        &&& self@[id.index as int].record is Some
    }

    /// The record that a live handle names.
    pub open spec fn record(&self, id: WorkId) -> Record<T> {
        self@[id.index as int].record->0
    }

    /// The state of the record that a live handle names.
    pub open spec fn state(&self, id: WorkId) -> State {
        state_of(self.record(id).step)
    }

    /// Every slot but `index` is as it was.
    pub open spec fn others_unchanged(old_t: Seq<Slot<T>>, new_t: Seq<Slot<T>>, index: int) -> bool {
        &&& new_t.len() == old_t.len()
        &&& forall|j: int| 0 <= j < old_t.len() && j != index ==> new_t[j] == old_t[j]
    }

    /// An empty table.
    pub fn new() -> (r: Self)
        ensures
            r@ == Seq::<Slot<T>>::empty(),
            r.wf(),
    {
        WorkTable { slots: Vec::new() }
    }

    /// Number of slots, free or taken.
    pub fn slot_count(&self) -> (r: usize)
        ensures
            r == self@.len(),
    {
        self.slots.len()
    }

    /// Places a new pending record of `kind` that owns `payload`. The first
    /// free slot is reused; without one a slot is added. Only when every
    /// possible slot is taken is the payload handed back.
    pub fn insert(&mut self, kind: OpKind, payload: T) -> (r: Result<WorkId, T>)
        requires
            old(self).wf(),
        ensures
            final(self).wf(),
            match r {
                Ok(id) => {
                    &&& final(self).is_live(id)
                    &&& final(self).record(id).kind == kind
                    &&& final(self).record(id).step == Step::Pending { payload }
                    &&& id.index <= old(self)@.len()
                    &&& id.index < old(self)@.len() ==> Self::is_free_slot(
                        old(self)@[id.index as int],
                    ) && old(self)@[id.index as int].generation == id.generation
                    &&& id.index == old(self)@.len() ==> id.generation == 0
                        && final(self)@.len() == old(self)@.len() + 1
                    &&& id.index < old(self)@.len() ==> final(self)@.len() == old(self)@.len()
                    &&& forall|j: int|
                        0 <= j < old(self)@.len() && j != id.index ==> final(self)@[j]
                            == old(self)@[j]
                    &&& forall|j: int|
                        0 <= j < id.index ==> !Self::is_free_slot(#[trigger] old(self)@[j])
                },
                Err(p) => {
                    &&& p == payload
                    &&& final(self)@ == old(self)@
                    &&& old(self)@.len() == TAG_SLOT_RANGE
                    &&& forall|j: int|
                        0 <= j < old(self)@.len() ==> !Self::is_free_slot(#[trigger] old(self)@[j])
                },
            },
    {
        let len = self.slots.len();
        let mut i: usize = 0;
        while i < len
            invariant
                len == self.slots@.len(),
                len <= TAG_SLOT_RANGE,
                self@ == old(self)@,
                i <= len,
                forall|j: int| 0 <= j < i ==> !Self::is_free_slot(#[trigger] self@[j]),
            decreases len - i,
        {
            if self.slots[i].record.is_none() && self.slots[i].generation < u32::MAX {
                let generation = self.slots[i].generation;
                let slot = Slot { generation, record: Some(Record { kind, step: Step::Pending { payload } }) };
                self.slots.set(i, slot);
                return Ok(WorkId { index: i as u32, generation });
            }
            i = i + 1;
        }
        if (len as u64) < TAG_SLOT_RANGE {
            let slot = Slot { generation: 0, record: Some(Record { kind, step: Step::Pending { payload } }) };
            self.slots.push(slot);
            Ok(WorkId { index: len as u32, generation: 0 })
        } else {
            Err(payload)
        }
    }

    fn replace_slot(&mut self, i: usize, slot: Slot<T>) -> (prev: Slot<T>)
        requires
            i < old(self)@.len(),
        ensures
            prev == old(self)@[i as int],
            final(self)@ == old(self)@.update(i as int, slot),
    {
        let mut prev = slot;
        std::mem::swap(&mut self.slots[i], &mut prev);
        prev
    }

    /// The state of the record that `id` names, or `None` when the handle
    /// names no record held in the table.
    pub fn state_of(&self, id: WorkId) -> (r: Option<State>)
        ensures
            r is Some <==> self.is_live(id),
            r matches Some(s) ==> s == self.state(id),
    {
        let i = id.index as usize;
        if i < self.slots.len() && self.slots[i].generation == id.generation {
            match &self.slots[i].record {
                Some(rec) => Some(
                    match &rec.step {
                        Step::Pending { .. } => State::Pending,
                        Step::Running { .. } => State::Running,
                        Step::Completed { .. } => State::Completed,
                        Step::Invalid => State::Invalid,
                    },
                ),
                None => None,
            }
        } else {
            None
        }
    }

    /// Polls the record that `id` names. A pending record asks to be posted
    /// under its correlation tag; a completed one hands back its result and
    /// payload exactly once and becomes invalid. Polling a record that is
    /// running, or that already handed back its result, is a usage error.
    pub fn poll(&mut self, id: WorkId) -> (r: PollAction<T>)
        requires
            old(self).is_live(id),
            old(self).state(id) == State::Pending || old(self).state(id) == State::Completed,
        ensures
            final(self).wf() == old(self).wf(),
            old(self).state(id) == State::Pending ==> r == PollAction::<T>::Submit(tag_of(id))
                && final(self)@ == old(self)@,
            old(self).state(id) == State::Completed ==> {
                &&& Self::others_unchanged(old(self)@, final(self)@, id.index as int)
                &&& final(self).is_live(id)
                &&& final(self).state(id) == State::Invalid
                &&& final(self).record(id).kind == old(self).record(id).kind
                &&& old(self).record(id).step matches Step::Completed {
                    payload,
                    status,
                    byte_len,
                    imm_data,
                    ..
                } && r matches PollAction::Ready(out) && out.payload == payload && out.result
                    == completion_output(old(self).record(id).kind, status, byte_len)
                    && out.imm_data == imm_data
            },
    {
        let i = id.index as usize;
        let pending = match &self.slots[i].record {
            Some(rec) => match &rec.step {
                Step::Pending { .. } => true,
                _ => false,
            },
            None => false,
        };
        if pending {
            return PollAction::Submit(encode_tag(id));
        }
        let generation = self.slots[i].generation;
        let prev = self.replace_slot(i, Slot { generation, record: None });
        let rec = prev.record.unwrap();
        let kind = rec.kind;
        match rec.step {
            Step::Completed { payload, status, byte_len, imm_data, .. } => {
                let result = output_value(kind, status, byte_len);
                self.replace_slot(i, Slot { generation, record: Some(Record { kind, step: Step::Invalid }) });
                PollAction::Ready(OpOutput { result, imm_data, payload })
            },
            _ => {
                proof {
                    assert(false);
                }
                PollAction::Submit(0)
            },
        }
    }

    /// Reports the outcome of posting the work request of a pending record.
    /// When the post succeeded the record is running and keeps `waker`, to be
    /// woken on its completion. When it failed the operation is over at once:
    /// the error and payload come back and the record is invalid.
    pub fn submitted(&mut self, id: WorkId, waker: u64, posted: Result<(), i32>) -> (r: Option<
        OpOutput<T>,
    >)
        requires
            old(self).is_live(id),
            old(self).state(id) == State::Pending,
        ensures
            final(self).wf() == old(self).wf(),
            Self::others_unchanged(old(self)@, final(self)@, id.index as int),
            final(self).is_live(id),
            final(self).record(id).kind == old(self).record(id).kind,
            old(self).record(id).step matches Step::Pending { payload } && match posted {
                Ok(()) => r is None && final(self).record(id).step == Step::Running {
                    payload,
                    waker,
                },
                Err(e) => {
                    &&& final(self).state(id) == State::Invalid
                    &&& r matches Some(out) && out.payload == payload && out.result == Err::<
                        Option<usize>,
                        OpError,
                    >(OpError::Post(e)) && out.imm_data is None
                },
            },
    {
        let i = id.index as usize;
        let generation = self.slots[i].generation;
        let prev = self.replace_slot(i, Slot { generation, record: None });
        let rec = prev.record.unwrap();
        let kind = rec.kind;
        match rec.step {
            Step::Pending { payload } => match posted {
                Ok(()) => {
                    let step = Step::Running { payload, waker };
                    self.replace_slot(i, Slot { generation, record: Some(Record { kind, step }) });
                    None
                },
                Err(e) => {
                    self.replace_slot(i, Slot { generation, record: Some(Record { kind, step: Step::Invalid }) });
                    Some(OpOutput { result: Err(OpError::Post(e)), imm_data: None, payload })
                },
            },
            _ => {
                proof {
                    assert(false);
                }
                None
            },
        }
    }

    /// Dispatches one drained completion: its tag is decoded back into the
    /// record that was posted under it, which must be running. That record
    /// takes the completion's status and counts, becomes completed, and its
    /// waker is returned to be woken. A tag that names no running record,
    /// or a status outside the known enumeration, changes nothing.
    pub fn complete(&mut self, wc: &WorkCompletion) -> (r: Result<u64, DispatchError>)
        ensures
            final(self).wf() == old(self).wf(),
            ({
                let id = choose|id: WorkId| tag_of(id) == wc.wr_id;
                let running = old(self).is_live(id) && old(self).state(id) == State::Running;
                &&& tag_of(id) == wc.wr_id
                &&& !running ==> r == Err::<u64, DispatchError>(DispatchError::UnknownTag)
                    && final(self)@ == old(self)@
                &&& running && !is_known_status(wc.status) ==> r == Err::<u64, DispatchError>(
                    DispatchError::UnknownStatus,
                ) && final(self)@ == old(self)@
                &&& running && is_known_status(wc.status) ==> {
                    &&& Self::others_unchanged(old(self)@, final(self)@, id.index as int)
                    &&& final(self).is_live(id)
                    &&& final(self).record(id).kind == old(self).record(id).kind
                    &&& old(self).record(id).step matches Step::Running { payload, waker } && (
                    r == Ok::<u64, DispatchError>(waker) && (final(self).record(
                        id,
                    ).step matches Step::Completed {
                        payload: p,
                        waker: w,
                        status,
                        byte_len,
                        imm_data,
                    } && p == payload && w == waker && decodes_to(wc.status, status) && byte_len
                        == wc.byte_len && imm_data == wc.imm_data))
                }
            }),
    {
        let id = decode_tag(wc.wr_id);
        proof {
            let c = choose|c: WorkId| tag_of(c) == wc.wr_id;
            lemma_tag_round_trip(c, id);
        }
        let i = id.index as usize;
        if i >= self.slots.len() || self.slots[i].generation != id.generation {
            return Err(DispatchError::UnknownTag);
        }
        let running = match &self.slots[i].record {
            Some(rec) => match &rec.step {
                Step::Running { .. } => true,
                _ => false,
            },
            None => false,
        };
        if !running {
            return Err(DispatchError::UnknownTag);
        }
        if wc.status > crate::wc::WC_LAST_ERROR {
            return Err(DispatchError::UnknownStatus);
        }
        let generation = self.slots[i].generation;
        let prev = self.replace_slot(i, Slot { generation, record: None });
        let rec = prev.record.unwrap();
        let kind = rec.kind;
        match rec.step {
            Step::Running { payload, waker } => {
                let step = complete_step(kind, payload, waker, wc);
                self.replace_slot(i, Slot { generation, record: Some(Record { kind, step }) });
                Ok(waker)
            },
            _ => {
                proof {
                    assert(false);
                }
                Err(DispatchError::UnknownTag)
            },
        }
    }

    /// Drops the record that `id` names and frees its slot for reuse under
    /// the next generation. A slot whose generation cannot grow any more is
    /// retired. Dropping a running record is not admitted: the hardware may
    /// still write its buffers and its tag is still live.
    pub fn release(&mut self, id: WorkId) -> (r: Option<T>)
        requires
            old(self).is_live(id),
            old(self).state(id) != State::Running,
        ensures
            final(self).wf() == old(self).wf(),
            Self::others_unchanged(old(self)@, final(self)@, id.index as int),
            final(self)@[id.index as int].record is None,
            final(self)@[id.index as int].generation == if id.generation < u32::MAX {
                (id.generation + 1) as u32
            } else {
                id.generation
            },
            !final(self).is_live(id),
            match old(self).record(id).step {
                Step::Pending { payload } => r == Some(payload),
                Step::Completed { payload, .. } => r == Some(payload),
                _ => r is None,
            },
    {
        let i = id.index as usize;
        let generation = if id.generation < u32::MAX {
            id.generation + 1
        } else {
            id.generation
        };
        let prev = self.replace_slot(i, Slot { generation, record: None });
        let rec = prev.record.unwrap();
        match rec.step {
            Step::Pending { payload } => Some(payload),
            Step::Completed { payload, .. } => Some(payload),
            _ => None,
        }
    }
}

/// Once a record has handed back its result it is invalid, and no poll is
/// admitted on it any more: a second poll is refused rather than answered.
pub proof fn lemma_consumed_not_pollable<T>(t: WorkTable<T>, id: WorkId)
    requires
        t.is_live(id),
        t.state(id) == State::Invalid,
    ensures
        !(t.state(id) == State::Pending || t.state(id) == State::Completed),
{
}

/// A completion dispatched under the tag of a record finds that same record
/// again, whatever handle the tag came from.
pub proof fn lemma_dispatch_finds_record(id: WorkId, wr_id: u64)
    requires
        wr_id == tag_of(id),
    ensures
        (choose|c: WorkId| tag_of(c) == wr_id) == id,
{
    let c = choose|c: WorkId| tag_of(c) == wr_id;
    assert(tag_of(id) == wr_id);
    lemma_tag_round_trip(c, id);
}

/// A completion carrying the tag of a record that already completed, or
/// already handed back its result, names that record and finds it not
/// running: `complete` refuses it, so no operation completes twice.
pub proof fn lemma_completed_once<T>(t: WorkTable<T>, id: WorkId, wr_id: u64)
    requires
        t.is_live(id),
        t.state(id) == State::Completed || t.state(id) == State::Invalid,
        wr_id == tag_of(id),
    ensures
        (choose|c: WorkId| tag_of(c) == wr_id) == id,
        !(t.is_live(id) && t.state(id) == State::Running),
{
    lemma_dispatch_finds_record(id, wr_id);
}

} // verus!
