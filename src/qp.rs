use vstd::prelude::*;

use crate::ah::AddressHandleOptions;
use crate::cq::CompletionQueue;
use crate::device::Mtu;
use crate::error::{custom_error, from_errno, Error};
use crate::mr::AccessFlags;
use crate::resource::{appended, ResourceKind, ResourceTable};

verus! {

pub const QP_STATE: u32 = 1;
pub const QP_ACCESS_FLAGS: u32 = 8;
pub const QP_PKEY_INDEX: u32 = 16;
pub const QP_PORT: u32 = 32;
pub const QP_QKEY: u32 = 64;
pub const QP_AV: u32 = 128;
pub const QP_PATH_MTU: u32 = 256;
pub const QP_TIMEOUT: u32 = 512;
pub const QP_RETRY_CNT: u32 = 1024;
pub const QP_RNR_RETRY: u32 = 2048;
pub const QP_RQ_PSN: u32 = 4096;
pub const QP_MAX_QP_RD_ATOMIC: u32 = 8192;
pub const QP_MIN_RNR_TIMER: u32 = 32768;
pub const QP_SQ_PSN: u32 = 65536;
pub const QP_MAX_DEST_RD_ATOMIC: u32 = 131072;
pub const QP_CAP: u32 = 524288;
pub const QP_DEST_QPN: u32 = 1048576;

/// The states of a queue pair.
#[derive(Clone, Copy, Debug, PartialEq, Eq, Structural)]
pub enum QueuePairState {
    Reset,
    Initialize,
    ReadyToReceive,
    ReadyToSend,
    SendQueueDrained,
    SendQueueError,
    Error,
    Unknown,
}

/// The raw value of each state.
pub open spec fn qp_state_value(s: QueuePairState) -> u32 {
    match s {
        QueuePairState::Reset => 0,
        QueuePairState::Initialize => 1,
        QueuePairState::ReadyToReceive => 2,
        QueuePairState::ReadyToSend => 3,
        QueuePairState::SendQueueDrained => 4,
        QueuePairState::SendQueueError => 5,
        QueuePairState::Error => 6,
        QueuePairState::Unknown => 7,
    }
}

impl QueuePairState {
    /// Decodes a raw state reported by the hardware; values outside `0..=6`
    /// are not admitted.
    pub fn from_c_uint(val: u32) -> (r: QueuePairState)
        requires
            val <= 6,
        ensures
            qp_state_value(r) == val,
    {
        match val {
            0 => QueuePairState::Reset,
            1 => QueuePairState::Initialize,
            2 => QueuePairState::ReadyToReceive,
            3 => QueuePairState::ReadyToSend,
            4 => QueuePairState::SendQueueDrained,
            5 => QueuePairState::SendQueueError,
            _ => QueuePairState::Error,
        }
    }

    /// The raw value.
    pub fn to_c_uint(self) -> (r: u32)
        ensures
            r == qp_state_value(self),
    {
        match self {
            QueuePairState::Reset => 0,
            QueuePairState::Initialize => 1,
            QueuePairState::ReadyToReceive => 2,
            QueuePairState::ReadyToSend => 3,
            QueuePairState::SendQueueDrained => 4,
            QueuePairState::SendQueueError => 5,
            QueuePairState::Error => 6,
            QueuePairState::Unknown => 7,
        }
    }
}

/// The transport of a queue pair.
#[derive(Clone, Copy, Debug, PartialEq, Eq, Structural)]
pub enum QueuePairType {
    RC,
    UC,
    UD,
    Driver,
    XrcRecv,
    XrcSend,
}

impl QueuePairType {
    /// The raw value.
    pub fn to_c_uint(self) -> (r: u32)
        ensures
            self == QueuePairType::RC ==> r == 2,
            self == QueuePairType::UC ==> r == 3,
            self == QueuePairType::UD ==> r == 4,
            self == QueuePairType::XrcSend ==> r == 9,
            self == QueuePairType::XrcRecv ==> r == 10,
            self == QueuePairType::Driver ==> r == 255,
    {
        match self {
            QueuePairType::RC => 2,
            QueuePairType::UC => 3,
            QueuePairType::UD => 4,
            QueuePairType::XrcSend => 9,
            QueuePairType::XrcRecv => 10,
            QueuePairType::Driver => 255,
        }
    }
}

/// Sizes of the send and receive queues of a queue pair.
#[derive(Clone, Copy, Debug, PartialEq, Eq, Structural)]
pub struct QueuePairCapacity {
    pub max_send_wr: u32,
    pub max_recv_wr: u32,
    pub max_send_sge: u32,
    pub max_recv_sge: u32,
    pub max_inline_data: u32,
}

impl Default for QueuePairCapacity {
    fn default() -> (r: Self)
        ensures
            r.max_send_wr == 0,
            r.max_recv_wr == 0,
            r.max_send_sge == 0,
            r.max_recv_sge == 0,
            r.max_inline_data == 0,
    {
        QueuePairCapacity {
            max_send_wr: 0,
            max_recv_wr: 0,
            max_send_sge: 0,
            max_recv_sge: 0,
            max_inline_data: 0,
        }
    }
}

/// The number that names a queue pair in the connection handshake.
#[derive(Clone, Copy, Debug, PartialEq, Eq, Hash, Structural)]
pub struct QueuePairNumber(pub u32);

impl QueuePairNumber {
    /// The number with the given raw value.
    pub fn new(raw_value: u32) -> (r: QueuePairNumber)
        ensures
            r.0 == raw_value,
    {
        QueuePairNumber(raw_value)
    }

    /// The raw value.
    pub fn raw_value(self) -> (r: u32)
        ensures
            r == self.0,
    {
        self.0
    }
}

/// How a queue pair is to be created. The transport and the signalling of
/// all sends must be chosen.
#[derive(Clone, Copy, Debug, PartialEq, Eq, Structural)]
pub struct QueuePairOptions {
    pub user_data: usize,
    pub send_cq: Option<usize>,
    pub recv_cq: Option<usize>,
    pub qp_type: Option<QueuePairType>,
    pub sq_sig_all: Option<bool>,
    pub cap: QueuePairCapacity,
}

impl Default for QueuePairOptions {
    fn default() -> (r: Self)
        ensures
            r.user_data == 0,
            r.send_cq is None,
            r.recv_cq is None,
            r.qp_type is None,
            r.sq_sig_all is None,
            r.cap == (QueuePairCapacity {
                max_send_wr: 0,
                max_recv_wr: 0,
                max_send_sge: 0,
                max_recv_sge: 0,
                max_inline_data: 0,
            }),
    {
        QueuePairOptions {
            user_data: 0,
            send_cq: None,
            recv_cq: None,
            qp_type: None,
            sq_sig_all: None,
            cap: QueuePairCapacity::default(),
        }
    }
}

impl QueuePairOptions {
    /// Sets the opaque tag that the queue pair carries.
    pub fn user_data(&mut self, user_data: usize) -> (r: &mut Self)
        ensures
            *r == (QueuePairOptions { user_data, ..*old(self) }),
            *final(self) == *final(r),
    {
        self.user_data = user_data;
        self
    }

    /// Sets the completion queue of the send queue.
    pub fn send_cq(&mut self, send_cq: &CompletionQueue) -> (r: &mut Self)
        ensures
            *r == (QueuePairOptions { send_cq: Some(send_cq.spec_key()), ..*old(self) }),
            *final(self) == *final(r),
    {
        self.send_cq = Some(send_cq.key());
        self
    }

    /// Sets the completion queue of the receive queue.
    pub fn recv_cq(&mut self, recv_cq: &CompletionQueue) -> (r: &mut Self)
        ensures
            *r == (QueuePairOptions { recv_cq: Some(recv_cq.spec_key()), ..*old(self) }),
            *final(self) == *final(r),
    {
        self.recv_cq = Some(recv_cq.key());
        self
    }

    /// Sets the transport.
    pub fn qp_type(&mut self, qp_type: QueuePairType) -> (r: &mut Self)
        ensures
            *r == (QueuePairOptions { qp_type: Some(qp_type), ..*old(self) }),
            *final(self) == *final(r),
    {
        self.qp_type = Some(qp_type);
        self
    }

    /// Sets whether every send is signalled.
    pub fn sq_sig_all(&mut self, sq_sig_all: bool) -> (r: &mut Self)
        ensures
            *r == (QueuePairOptions { sq_sig_all: Some(sq_sig_all), ..*old(self) }),
            *final(self) == *final(r),
    {
        self.sq_sig_all = Some(sq_sig_all);
        self
    }

    /// Sets the queue sizes.
    pub fn cap(&mut self, cap: QueuePairCapacity) -> (r: &mut Self)
        ensures
            *r == (QueuePairOptions { cap, ..*old(self) }),
            *final(self) == *final(r),
    {
        self.cap = cap;
        self
    }
}

/// The attributes that one modify call changes; an absent one is left as
/// it is.
#[derive(Clone, Copy, Debug, PartialEq, Eq)]
pub struct ModifyOptions {
    pub qp_state: Option<QueuePairState>,
    pub pkey_index: Option<u16>,
    pub port_num: Option<u8>,
    pub qp_access_flags: Option<AccessFlags>,
    pub qkey: Option<u32>,
    pub path_mtu: Option<Mtu>,
    pub dest_qp_num: Option<u32>,
    pub rq_psn: Option<u32>,
    pub max_dest_rd_atomic: Option<u8>,
    pub min_rnr_timer: Option<u8>,
    pub ah_attr: Option<AddressHandleOptions>,
    pub sq_psn: Option<u32>,
    pub timeout: Option<u8>,
    pub retry_cnt: Option<u8>,
    pub rnr_retry: Option<u8>,
    pub max_rd_atomic: Option<u8>,
}

impl Default for ModifyOptions {
    fn default() -> (r: Self)
        ensures
            r == ModifyOptions::none(),
    {
        ModifyOptions {
            qp_state: None,
            pkey_index: None,
            port_num: None,
            qp_access_flags: None,
            qkey: None,
            path_mtu: None,
            dest_qp_num: None,
            rq_psn: None,
            max_dest_rd_atomic: None,
            min_rnr_timer: None,
            ah_attr: None,
            sq_psn: None,
            timeout: None,
            retry_cnt: None,
            rnr_retry: None,
            max_rd_atomic: None,
        }
    }
}

/// The mask bit of an attribute that is present.
#[verifier::opaque]
pub open spec fn bit_if<A>(o: Option<A>, bit: u32) -> int {
    if o is Some {
        bit as int
    } else {
        0
    }
}

fn mask_bit<A>(o: &Option<A>, bit: u32) -> (r: u32)
    ensures
        r <= bit,
        r == bit_if(*o, bit),
{
    reveal(bit_if);
    match o {
        Some(_) => bit,
        None => 0,
    }
}

impl ModifyOptions {
    /// Options that change nothing.
    pub open spec fn none() -> ModifyOptions {
        ModifyOptions {
            qp_state: None,
            pkey_index: None,
            port_num: None,
            qp_access_flags: None,
            qkey: None,
            path_mtu: None,
            dest_qp_num: None,
            rq_psn: None,
            max_dest_rd_atomic: None,
            min_rnr_timer: None,
            ah_attr: None,
            sq_psn: None,
            timeout: None,
            retry_cnt: None,
            rnr_retry: None,
            max_rd_atomic: None,
        }
    }

    /// The attribute mask of the present attributes: each has its own bit.
    pub open spec fn spec_mask(&self) -> int {
        bit_if(self.qp_state, QP_STATE) + bit_if(self.qp_access_flags, QP_ACCESS_FLAGS) + bit_if(
            self.pkey_index,
            QP_PKEY_INDEX,
        ) + bit_if(self.port_num, QP_PORT) + bit_if(self.qkey, QP_QKEY) + bit_if(
            self.ah_attr,
            QP_AV,
        ) + bit_if(self.path_mtu, QP_PATH_MTU) + bit_if(self.timeout, QP_TIMEOUT) + bit_if(
            self.retry_cnt,
            QP_RETRY_CNT,
        ) + bit_if(self.rnr_retry, QP_RNR_RETRY) + bit_if(self.rq_psn, QP_RQ_PSN) + bit_if(
            self.max_rd_atomic,
            QP_MAX_QP_RD_ATOMIC,
        ) + bit_if(self.min_rnr_timer, QP_MIN_RNR_TIMER) + bit_if(self.sq_psn, QP_SQ_PSN)
            + bit_if(self.max_dest_rd_atomic, QP_MAX_DEST_RD_ATOMIC) + bit_if(
            self.dest_qp_num,
            QP_DEST_QPN,
        )
    }

    /// The attribute mask that the hardware call takes.
    pub fn mask(&self) -> (r: u32)
        ensures
            r == self.spec_mask(),
    {
        let m: u32 = mask_bit(&self.qp_state, QP_STATE);
        let m: u32 = m + mask_bit(&self.qp_access_flags, QP_ACCESS_FLAGS);
        let m: u32 = m + mask_bit(&self.pkey_index, QP_PKEY_INDEX);
        let m: u32 = m + mask_bit(&self.port_num, QP_PORT);
        let m: u32 = m + mask_bit(&self.qkey, QP_QKEY);
        let m: u32 = m + mask_bit(&self.ah_attr, QP_AV);
        let m: u32 = m + mask_bit(&self.path_mtu, QP_PATH_MTU);
        let m: u32 = m + mask_bit(&self.timeout, QP_TIMEOUT);
        let m: u32 = m + mask_bit(&self.retry_cnt, QP_RETRY_CNT);
        let m: u32 = m + mask_bit(&self.rnr_retry, QP_RNR_RETRY);
        let m: u32 = m + mask_bit(&self.rq_psn, QP_RQ_PSN);
        let m: u32 = m + mask_bit(&self.max_rd_atomic, QP_MAX_QP_RD_ATOMIC);
        let m: u32 = m + mask_bit(&self.min_rnr_timer, QP_MIN_RNR_TIMER);
        let m: u32 = m + mask_bit(&self.sq_psn, QP_SQ_PSN);
        let m: u32 = m + mask_bit(&self.max_dest_rd_atomic, QP_MAX_DEST_RD_ATOMIC);
        let m: u32 = m + mask_bit(&self.dest_qp_num, QP_DEST_QPN);
        m
    }
}
impl ModifyOptions {
    /// Sets the attribute: the state to move to.
    pub fn qp_state(&mut self, qp_state: QueuePairState) -> (r: &mut Self)
        ensures
            *r == (ModifyOptions { qp_state: Some(qp_state), ..*old(self) }),
            *final(self) == *final(r),
    {
        self.qp_state = Some(qp_state);
        self
    }

    /// Sets the attribute: the partition key index.
    pub fn pkey_index(&mut self, pkey_index: u16) -> (r: &mut Self)
        ensures
            *r == (ModifyOptions { pkey_index: Some(pkey_index), ..*old(self) }),
            *final(self) == *final(r),
    {
        self.pkey_index = Some(pkey_index);
        self
    }

    /// Sets the attribute: the physical port.
    pub fn port_num(&mut self, port_num: u8) -> (r: &mut Self)
        ensures
            *r == (ModifyOptions { port_num: Some(port_num), ..*old(self) }),
            *final(self) == *final(r),
    {
        self.port_num = Some(port_num);
        self
    }

    /// Sets the attribute: the remote access rights.
    pub fn qp_access_flags(&mut self, qp_access_flags: AccessFlags) -> (r: &mut Self)
        ensures
            *r == (ModifyOptions { qp_access_flags: Some(qp_access_flags), ..*old(self) }),
            *final(self) == *final(r),
    {
        self.qp_access_flags = Some(qp_access_flags);
        self
    }

    /// Sets the attribute: the queue key of a datagram queue pair.
    pub fn qkey(&mut self, qkey: u32) -> (r: &mut Self)
        ensures
            *r == (ModifyOptions { qkey: Some(qkey), ..*old(self) }),
            *final(self) == *final(r),
    {
        self.qkey = Some(qkey);
        self
    }

    /// Sets the attribute: the path MTU.
    pub fn path_mtu(&mut self, path_mtu: Mtu) -> (r: &mut Self)
        ensures
            *r == (ModifyOptions { path_mtu: Some(path_mtu), ..*old(self) }),
            *final(self) == *final(r),
    {
        self.path_mtu = Some(path_mtu);
        self
    }

    /// Sets the attribute: the remote queue pair number.
    pub fn dest_qp_num(&mut self, dest_qp_num: u32) -> (r: &mut Self)
        ensures
            *r == (ModifyOptions { dest_qp_num: Some(dest_qp_num), ..*old(self) }),
            *final(self) == *final(r),
    {
        self.dest_qp_num = Some(dest_qp_num);
        self
    }

    /// Sets the attribute: the packet sequence number the receive queue starts at.
    pub fn rq_psn(&mut self, rq_psn: u32) -> (r: &mut Self)
        ensures
            *r == (ModifyOptions { rq_psn: Some(rq_psn), ..*old(self) }),
            *final(self) == *final(r),
    {
        self.rq_psn = Some(rq_psn);
        self
    }

    /// Sets the attribute: the number of incoming one-sided reads and atomics that may be pending.
    pub fn max_dest_rd_atomic(&mut self, max_dest_rd_atomic: u8) -> (r: &mut Self)
        ensures
            *r == (ModifyOptions { max_dest_rd_atomic: Some(max_dest_rd_atomic), ..*old(self) }),
            *final(self) == *final(r),
    {
        self.max_dest_rd_atomic = Some(max_dest_rd_atomic);
        self
    }

    /// Sets the attribute: the delay before a receiver-not-ready retry.
    pub fn min_rnr_timer(&mut self, min_rnr_timer: u8) -> (r: &mut Self)
        ensures
            *r == (ModifyOptions { min_rnr_timer: Some(min_rnr_timer), ..*old(self) }),
            *final(self) == *final(r),
    {
        self.min_rnr_timer = Some(min_rnr_timer);
        self
    }

    /// Sets the attribute: the path to the remote port.
    pub fn ah_attr(&mut self, ah_attr: AddressHandleOptions) -> (r: &mut Self)
        ensures
            *r == (ModifyOptions { ah_attr: Some(ah_attr), ..*old(self) }),
            *final(self) == *final(r),
    {
        self.ah_attr = Some(ah_attr);
        self
    }

    /// Sets the attribute: the packet sequence number the send queue starts at.
    pub fn sq_psn(&mut self, sq_psn: u32) -> (r: &mut Self)
        ensures
            *r == (ModifyOptions { sq_psn: Some(sq_psn), ..*old(self) }),
            *final(self) == *final(r),
    {
        self.sq_psn = Some(sq_psn);
        self
    }

    /// Sets the attribute: the local acknowledgement timeout.
    pub fn timeout(&mut self, timeout: u8) -> (r: &mut Self)
        ensures
            *r == (ModifyOptions { timeout: Some(timeout), ..*old(self) }),
            *final(self) == *final(r),
    {
        self.timeout = Some(timeout);
        self
    }

    /// Sets the attribute: the number of retries on a timeout.
    pub fn retry_cnt(&mut self, retry_cnt: u8) -> (r: &mut Self)
        ensures
            *r == (ModifyOptions { retry_cnt: Some(retry_cnt), ..*old(self) }),
            *final(self) == *final(r),
    {
        self.retry_cnt = Some(retry_cnt);
        self
    }

    /// Sets the attribute: the number of retries on a receiver-not-ready answer.
    pub fn rnr_retry(&mut self, rnr_retry: u8) -> (r: &mut Self)
        ensures
            *r == (ModifyOptions { rnr_retry: Some(rnr_retry), ..*old(self) }),
            *final(self) == *final(r),
    {
        self.rnr_retry = Some(rnr_retry);
        self
    }

    /// Sets the attribute: the number of outgoing one-sided reads and atomics that may be pending.
    pub fn max_rd_atomic(&mut self, max_rd_atomic: u8) -> (r: &mut Self)
        ensures
            *r == (ModifyOptions { max_rd_atomic: Some(max_rd_atomic), ..*old(self) }),
            *final(self) == *final(r),
    {
        self.max_rd_atomic = Some(max_rd_atomic);
        self
    }
}

/// Which attributes a query asks for, as a mask.
#[derive(Clone, Copy, Debug, PartialEq, Eq, Structural)]
pub struct QueryOptions {
    pub mask: u32,
}

impl Default for QueryOptions {
    fn default() -> (r: Self)
        ensures
            r.mask == 0,
    {
        QueryOptions { mask: 0 }
    }
}

impl QueryOptions {
    /// Asks for the queue sizes.
    pub fn cap(&mut self) -> (r: &mut Self)
        ensures
            r.mask == old(self).mask | QP_CAP,
            *final(self) == *final(r),
    {
        self.mask = self.mask | QP_CAP;
        self
    }

    /// Asks for the state.
    pub fn qp_state(&mut self) -> (r: &mut Self)
        ensures
            r.mask == old(self).mask | QP_STATE,
            *final(self) == *final(r),
    {
        self.mask = self.mask | QP_STATE;
        self
    }
}

/// What a query returned, with the mask it was asked with.
#[derive(Clone, Copy, Debug, PartialEq, Eq, Structural)]
pub struct QueuePairAttr {
    pub mask: u32,
    pub cap: QueuePairCapacity,
    pub qp_state: u32,
}

impl QueuePairAttr {
    /// The queue sizes, if the query asked for them.
    pub fn cap(&self) -> (r: Option<QueuePairCapacity>)
        ensures
            r is Some <==> self.mask & QP_CAP != 0,
            r matches Some(c) ==> c == self.cap,
    {
        if self.mask & QP_CAP != 0 {
            Some(self.cap)
        } else {
            None
        }
    }

    /// The state, if the query asked for it; only known states are admitted.
    pub fn qp_state(&self) -> (r: Option<QueuePairState>)
        requires
            self.mask & QP_STATE != 0 ==> self.qp_state <= 6,
        ensures
            r is Some <==> self.mask & QP_STATE != 0,
            r matches Some(st) ==> qp_state_value(st) == self.qp_state,
    {
        if self.mask & QP_STATE != 0 {
            Some(QueuePairState::from_c_uint(self.qp_state))
        } else {
            None
        }
    }
}

/// Whether one modify call with `o` may move a queue pair of transport `t`
/// out of state `from`: it must name the new state, and carry the
/// attributes that the step needs. Reset to init takes the port, the
/// partition key index and the access rights (a datagram queue pair takes
/// its queue key instead); init to ready-to-receive takes the path, path
/// MTU, remote queue pair number, receive sequence number and incoming
/// one-sided limits (a datagram queue pair nothing more, an unreliable
/// connection no limits); ready-to-receive to ready-to-send takes the send
/// sequence number, and on a reliable connection the timeout, retry counts
/// and outgoing one-sided limit. Any state may be reset or put in error.
pub open spec fn transition_ok(t: QueuePairType, from: QueuePairState, o: ModifyOptions) -> bool {
    match o.qp_state {
        None => false,
        Some(to) => {
            if to == QueuePairState::Reset || to == QueuePairState::Error {
                true
            } else if from == QueuePairState::Reset && to == QueuePairState::Initialize {
                o.pkey_index is Some && o.port_num is Some && if t == QueuePairType::UD {
                    o.qkey is Some
                } else {
                    o.qp_access_flags is Some
                }
            } else if from == QueuePairState::Initialize && to == QueuePairState::ReadyToReceive {
                t == QueuePairType::UD || (o.ah_attr is Some && o.path_mtu is Some
                    && o.dest_qp_num is Some && o.rq_psn is Some && (t == QueuePairType::UC || (
                o.max_dest_rd_atomic is Some && o.min_rnr_timer is Some)))
            } else if from == QueuePairState::ReadyToReceive && to == QueuePairState::ReadyToSend {
                o.sq_psn is Some && (t != QueuePairType::RC || (o.timeout is Some && o.retry_cnt
                    is Some && o.rnr_retry is Some && o.max_rd_atomic is Some))
            } else {
                (from == QueuePairState::ReadyToSend && to == QueuePairState::SendQueueDrained) || ((
                from == QueuePairState::SendQueueDrained || from == QueuePairState::SendQueueError
                    || from == QueuePairState::ReadyToSend) && to == QueuePairState::ReadyToSend)
            }
        },
    }
}

/// Decides `transition_ok`.
pub fn check_transition(t: QueuePairType, from: QueuePairState, o: &ModifyOptions) -> (r: bool)
    ensures
        r == transition_ok(t, from, *o),
{
    match o.qp_state {
        None => false,
        Some(to) => {
            if to == QueuePairState::Reset || to == QueuePairState::Error {
                true
            } else if from == QueuePairState::Reset && to == QueuePairState::Initialize {
                o.pkey_index.is_some() && o.port_num.is_some() && if t == QueuePairType::UD {
                    o.qkey.is_some()
                } else {
                    o.qp_access_flags.is_some()
                }
            } else if from == QueuePairState::Initialize && to == QueuePairState::ReadyToReceive {
                t == QueuePairType::UD || (o.ah_attr.is_some() && o.path_mtu.is_some()
                    && o.dest_qp_num.is_some() && o.rq_psn.is_some() && (t == QueuePairType::UC || (
                o.max_dest_rd_atomic.is_some() && o.min_rnr_timer.is_some())))
            } else if from == QueuePairState::ReadyToReceive && to == QueuePairState::ReadyToSend {
                o.sq_psn.is_some() && (t != QueuePairType::RC || (o.timeout.is_some()
                    && o.retry_cnt.is_some() && o.rnr_retry.is_some() && o.max_rd_atomic.is_some()))
            } else {
                (from == QueuePairState::ReadyToSend && to == QueuePairState::SendQueueDrained) || ((
                from == QueuePairState::SendQueueDrained || from == QueuePairState::SendQueueError
                    || from == QueuePairState::ReadyToSend) && to == QueuePairState::ReadyToSend)
            }
        },
    }
}

/// What a queue pair holds strong references to: its protection domain,
/// then its send and its receive completion queue, where they are set.
pub open spec fn qp_deps(pd: usize, o: QueuePairOptions) -> Seq<usize> {
    seq![pd] + match o.send_cq {
        Some(c) => seq![c],
        None => Seq::empty(),
    } + match o.recv_cq {
        Some(c) => seq![c],
        None => Seq::empty(),
    }
}

/// The attributes that a query with `options` returned: the hardware's
/// answer when it succeeded, read under the options' mask, else its error.
pub fn query_outcome(options: &QueryOptions, ret: i32, cap: QueuePairCapacity, qp_state: u32) -> (r:
    Result<QueuePairAttr, Error>)
    ensures
        ret != 0 ==> r == Err::<QueuePairAttr, Error>(Error::Os(ret)),
        ret == 0 ==> r == Ok::<QueuePairAttr, Error>(QueuePairAttr { mask: options.mask, cap, qp_state }),
{
    if ret != 0 {
        Err(from_errno(ret))
    } else {
        Ok(QueuePairAttr { mask: options.mask, cap, qp_state })
    }
}

/// A queue pair: its number, transport and state, the completion queues it
/// reports to, and the options it was made with.
pub struct QueuePair {
    key: usize,
    number: QueuePairNumber,
    qp_type: QueuePairType,
    state: QueuePairState,
    options: QueuePairOptions,
}

impl QueuePair {
    pub closed spec fn spec_key(&self) -> usize {
        self.key
    }

    pub closed spec fn spec_number(&self) -> QueuePairNumber {
        self.number
    }

    pub closed spec fn spec_type(&self) -> QueuePairType {
        self.qp_type
    }

    pub closed spec fn spec_state(&self) -> QueuePairState {
        self.state
    }

    pub closed spec fn spec_options(&self) -> QueuePairOptions {
        self.options
    }

    /// The default options.
    pub fn options() -> (r: QueuePairOptions)
        ensures
            r.qp_type is None,
            r.sq_sig_all is None,
            r.send_cq is None,
            r.recv_cq is None,
            r.user_data == 0,
    {
        QueuePairOptions::default()
    }

    /// The queue pair that the creating call returned for `options`, under
    /// the number the hardware assigned, entered in `graph` with strong
    /// references to its protection domain `pd` and to the completion
    /// queues the options name; its key is its resource id and it starts in
    /// the reset state. The transport and the signalling of sends must have
    /// been chosen. A failed creation hands its error back and changes
    /// nothing.
    pub fn create(
        graph: &mut ResourceTable,
        pd: usize,
        created: Result<u64, Error>,
        number: u32,
        options: &QueuePairOptions,
    ) -> (r: Result<QueuePair, Error>)
        requires
            old(graph).wf(),
            old(graph).is_alive(pd as int),
            options.qp_type is Some,
            options.sq_sig_all is Some,
            options.send_cq matches Some(c) ==> old(graph).is_alive(c as int),
            options.recv_cq matches Some(c) ==> old(graph).is_alive(c as int),
        ensures
            final(graph).wf(),
            created matches Err(e) ==> (r matches Err(e2) && e2 == e && final(graph)@ == old(graph)@),
            created matches Ok(h) ==> (r matches Ok(qp) && qp.spec_key() == old(graph)@.len()
                && qp.spec_number() == QueuePairNumber(number) && qp.spec_type()
                == options.qp_type->0 && qp.spec_state() == QueuePairState::Reset
                && qp.spec_options() == *options && appended(
                old(graph)@,
                final(graph)@,
                ResourceKind::QueuePair,
                h,
                qp_deps(pd, *options),
            )),
    {
        let mut deps: Vec<usize> = Vec::new();
        deps.push(pd);
        match options.send_cq {
            Some(c) => deps.push(c),
            None => {},
        }
        match options.recv_cq {
            Some(c) => deps.push(c),
            None => {},
        }
        proof {
            assert(deps@ =~= qp_deps(pd, *options));
        }
        let key = match graph.adopt(ResourceKind::QueuePair, created, deps) {
            Ok(key) => key,
            Err(e) => {
                return Err(e);
            },
        };
        let qp_type = match options.qp_type {
            Some(t) => t,
            None => QueuePairType::RC,
        };
        Ok(
            QueuePair {
                key,
                number: QueuePairNumber(number),
                qp_type,
                state: QueuePairState::Reset,
                options: *options,
            },
        )
    }

    /// The key of this queue pair.
    pub fn key(&self) -> (r: usize)
        ensures
            r == self.spec_key(),
    {
        self.key
    }

    /// The number that names this queue pair in the handshake.
    pub fn number(&self) -> (r: QueuePairNumber)
        ensures
            r == self.spec_number(),
    {
        self.number
    }

    /// The opaque tag given at creation.
    pub fn user_data(&self) -> (r: usize)
        ensures
            r == self.spec_options().user_data,
    {
        self.options.user_data
    }

    /// The transport.
    pub fn qp_type(&self) -> (r: QueuePairType)
        ensures
            r == self.spec_type(),
    {
        self.qp_type
    }

    /// The current state.
    pub fn state(&self) -> (r: QueuePairState)
        ensures
            r == self.spec_state(),
    {
        self.state
    }

    /// The completion queue of the send queue, if any.
    pub fn send_cq(&self) -> (r: Option<usize>)
        ensures
            r == self.spec_options().send_cq,
    {
        self.options.send_cq
    }

    /// The completion queue of the receive queue, if any.
    pub fn recv_cq(&self) -> (r: Option<usize>)
        ensures
            r == self.spec_options().recv_cq,
    {
        self.options.recv_cq
    }

    /// Whether `options` is a step this queue pair may take now; an error
    /// says it is not.
    pub fn check_modify(&self, options: &ModifyOptions) -> (r: Result<(), Error>)
        ensures
            r is Ok <==> transition_ok(self.spec_type(), self.spec_state(), *options),
    {
        if check_transition(self.qp_type, self.state, options) {
            Ok(())
        } else {
            Err(custom_error("invalid queue pair state transition"))
        }
    }

    /// Records the outcome `ret` of the modify call made with `options`. On
    /// success, which only an allowed step can have, the queue pair is in the
    /// state that the options name; on any failure it stays in its prior
    /// state and the hardware error is returned.
    pub fn modify(&mut self, options: &ModifyOptions, ret: i32) -> (r: Result<(), Error>)
        requires
            ret == 0 ==> transition_ok(old(self).spec_type(), old(self).spec_state(), *options),
        ensures
            final(self).spec_key() == old(self).spec_key(),
            final(self).spec_number() == old(self).spec_number(),
            final(self).spec_type() == old(self).spec_type(),
            final(self).spec_options() == old(self).spec_options(),
            ret == 0 ==> r is Ok && final(self).spec_state() == options.qp_state->0,
            ret != 0 ==> r == Err::<(), Error>(Error::Os(ret)) && final(self).spec_state()
                == old(self).spec_state(),
    {
        if ret != 0 {
            return Err(from_errno(ret));
        }
        match options.qp_state {
            Some(to) => {
                self.state = to;
            },
            None => {},
        }
        Ok(())
    }
}

} // verus!
