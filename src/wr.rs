use vstd::prelude::*;

verus! {

/// One scatter/gather entry: a local range and the key that covers it.
#[derive(Clone, Copy, Debug, PartialEq, Eq, Structural)]
pub struct Sge {
    pub addr: u64,
    pub length: u32,
    pub lkey: u32,
}

/// The kind of work a send request asks for.
#[derive(Clone, Copy, Debug, PartialEq, Eq, Structural)]
pub enum Opcode {
    Send,
    SendWithImm,
    Write,
    Read,
    AtomicFetchAdd,
    AtomicCAS,
}

/// The raw value of each send opcode.
pub open spec fn wr_opcode_value(op: Opcode) -> u32 {
    match op {
        Opcode::Write => 0,
        Opcode::Send => 2,
        Opcode::SendWithImm => 3,
        Opcode::Read => 4,
        Opcode::AtomicCAS => 5,
        Opcode::AtomicFetchAdd => 6,
    }
}

impl Opcode {
    /// The raw value.
    pub fn to_c_uint(self) -> (r: u32)
        ensures
            r == wr_opcode_value(self),
    {
        match self {
            Opcode::Write => 0,
            Opcode::Send => 2,
            Opcode::SendWithImm => 3,
            Opcode::Read => 4,
            Opcode::AtomicCAS => 5,
            Opcode::AtomicFetchAdd => 6,
        }
    }
}

pub const SEND_FENCE: u32 = 1;
pub const SEND_SIGNALED: u32 = 2;
pub const SEND_SOLICITED: u32 = 4;
pub const SEND_INLINE: u32 = 8;
pub const SEND_IP_CSUM: u32 = 16;

/// Flags of a send request, as hardware flag bits.
#[derive(Clone, Copy, Debug, PartialEq, Eq, Structural)]
pub struct SendFlags {
    pub bits: u32,
}

/// A send-queue work request.
#[derive(Debug, PartialEq, Eq)]
pub struct SendRequest {
    pub wr_id: u64,
    pub sg_list: Vec<Sge>,
    pub opcode: Opcode,
    pub send_flags: SendFlags,
    pub imm_data: u32,
    pub remote_addr: u64,
    pub rkey: u32,
    pub ud_ah: u64,
    pub ud_remote_qpn: u32,
    pub ud_remote_qkey: u32,
    pub next: Option<Box<SendRequest>>,
}

impl SendRequest {
    /// A request with every field zero and an empty list.
    pub fn zeroed() -> (r: SendRequest)
        ensures
            r.wr_id == 0,
            r.sg_list@.len() == 0,
            r.opcode == Opcode::Write,
            r.send_flags.bits == 0,
            r.imm_data == 0,
            r.remote_addr == 0,
            r.rkey == 0,
            r.ud_ah == 0,
            r.ud_remote_qpn == 0,
            r.ud_remote_qkey == 0,
            r.next is None,
    {
        SendRequest {
            wr_id: 0,
            sg_list: Vec::new(),
            opcode: Opcode::Write,
            send_flags: SendFlags { bits: 0 },
            imm_data: 0,
            remote_addr: 0,
            rkey: 0,
            ud_ah: 0,
            ud_remote_qpn: 0,
            ud_remote_qkey: 0,
            next: None,
        }
    }

    /// Sets the correlation tag.
    pub fn id(&mut self, id: u64) -> (r: &mut Self)
        ensures
            *r == (SendRequest { wr_id: id, ..*old(self) }),
            *final(self) == *final(r),
    {
        self.wr_id = id;
        self
    }

    /// Chains `next` after this request, to be posted with it.
    pub fn next(&mut self, next: SendRequest) -> (r: &mut Self)
        ensures
            *r == (SendRequest { next: Some(Box::new(next)), ..*old(self) }),
            *final(self) == *final(r),
    {
        self.next = Some(Box::new(next));
        self
    }

    /// Sets the scatter/gather list.
    pub fn sg_list(&mut self, sg_list: Vec<Sge>) -> (r: &mut Self)
        ensures
            *r == (SendRequest { sg_list, ..*old(self) }),
            *final(self) == *final(r),
    {
        self.sg_list = sg_list;
        self
    }

    /// Sets the opcode.
    pub fn opcode(&mut self, opcode: Opcode) -> (r: &mut Self)
        ensures
            *r == (SendRequest { opcode, ..*old(self) }),
            *final(self) == *final(r),
    {
        self.opcode = opcode;
        self
    }

    /// Sets the flags.
    pub fn send_flags(&mut self, send_flags: SendFlags) -> (r: &mut Self)
        ensures
            *r == (SendRequest { send_flags, ..*old(self) }),
            *final(self) == *final(r),
    {
        self.send_flags = send_flags;
        self
    }

    /// Sets the address handle of a datagram send.
    pub fn ud_ah(&mut self, ah: u64) -> (r: &mut Self)
        ensures
            *r == (SendRequest { ud_ah: ah, ..*old(self) }),
            *final(self) == *final(r),
    {
        self.ud_ah = ah;
        self
    }

    /// Sets the remote queue pair number of a datagram send.
    pub fn ud_remote_qpn(&mut self, remote_qpn: u32) -> (r: &mut Self)
        ensures
            *r == (SendRequest { ud_remote_qpn: remote_qpn, ..*old(self) }),
            *final(self) == *final(r),
    {
        self.ud_remote_qpn = remote_qpn;
        self
    }

    /// Sets the remote queue key of a datagram send.
    pub fn ud_remote_qkey(&mut self, remote_qkey: u32) -> (r: &mut Self)
        ensures
            *r == (SendRequest { ud_remote_qkey: remote_qkey, ..*old(self) }),
            *final(self) == *final(r),
    {
        self.ud_remote_qkey = remote_qkey;
        self
    }

    /// Sets the remote address of a one-sided operation.
    pub fn rdma_remote_addr(&mut self, remote_addr: u64) -> (r: &mut Self)
        ensures
            *r == (SendRequest { remote_addr, ..*old(self) }),
            *final(self) == *final(r),
    {
        self.remote_addr = remote_addr;
        self
    }

    /// Sets the remote key of a one-sided operation.
    pub fn rdma_rkey(&mut self, rkey: u32) -> (r: &mut Self)
        ensures
            *r == (SendRequest { rkey, ..*old(self) }),
            *final(self) == *final(r),
    {
        self.rkey = rkey;
        self
    }

    /// Sets the immediate data.
    pub fn imm_data(&mut self, imm_data: u32) -> (r: &mut Self)
        ensures
            *r == (SendRequest { imm_data, ..*old(self) }),
            *final(self) == *final(r),
    {
        self.imm_data = imm_data;
        self
    }
}

/// A receive-queue work request.
#[derive(Debug, PartialEq, Eq)]
pub struct RecvRequest {
    pub wr_id: u64,
    pub sg_list: Vec<Sge>,
    pub next: Option<Box<RecvRequest>>,
}

impl RecvRequest {
    /// A request with a zero tag and an empty list.
    pub fn zeroed() -> (r: RecvRequest)
        ensures
            r.wr_id == 0,
            r.sg_list@.len() == 0,
            r.next is None,
    {
        RecvRequest { wr_id: 0, sg_list: Vec::new(), next: None }
    }

    /// Chains `next` after this request, to be posted with it.
    pub fn next(&mut self, next: RecvRequest) -> (r: &mut Self)
        ensures
            *r == (RecvRequest { next: Some(Box::new(next)), ..*old(self) }),
            *final(self) == *final(r),
    {
        self.next = Some(Box::new(next));
        self
    }

    /// Sets the correlation tag.
    pub fn id(&mut self, id: u64) -> (r: &mut Self)
        ensures
            *r == (RecvRequest { wr_id: id, ..*old(self) }),
            *final(self) == *final(r),
    {
        self.wr_id = id;
        self
    }

    /// Sets the scatter/gather list.
    pub fn sg_list(&mut self, sg_list: Vec<Sge>) -> (r: &mut Self)
        ensures
            *r == (RecvRequest { sg_list, ..*old(self) }),
            *final(self) == *final(r),
    {
        self.sg_list = sg_list;
        self
    }
}

} // verus!
