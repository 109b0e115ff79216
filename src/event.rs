//! Bodies of the process events, one type per kind.
use crate::constants::{
    PROC_EVENT_COMM, PROC_EVENT_COREDUMP, PROC_EVENT_EXEC, PROC_EVENT_EXIT, PROC_EVENT_FORK,
    PROC_EVENT_GID, PROC_EVENT_NONE, PROC_EVENT_PTRACE, PROC_EVENT_SID, PROC_EVENT_UID,
    TASK_COMM_LEN,
};
use crate::error::DecodeError;
use crate::wire::{copy_prefix, le32, lemma_le_encodings, push_u32, read_u32, u32_at};
use vstd::prelude::*;

verus! {

broadcast use vstd::array::group_array_axioms;

/// Length of the body of a `ProcAckMessage`.
pub const PROC_ACK_LEN: usize = 4;

/// Reply of the kernel to a control operation.
#[derive(Debug, Clone, Copy, PartialEq, Eq, Default)]
pub struct ProcAckMessage {
    pub err: u32,
}

impl ProcAckMessage {
    /// The bytes of this body: each field in turn, four bytes each.
    pub open spec fn spec_bytes(self) -> Seq<u8> {
        le32(self.err)
    }

    /// The body that the first bytes of `s` hold.
    pub open spec fn spec_from(s: Seq<u8>) -> ProcAckMessage {
        ProcAckMessage {
            err: u32_at(s, 0),
        }
    }

    /// Decoding the bytes of a body, whatever follows them, gives the body back.
    pub proof fn lemma_round_trip(self, rest: Seq<u8>)
        ensures
            self.spec_bytes().len() == PROC_ACK_LEN,
            ProcAckMessage::spec_from(self.spec_bytes() + rest) == self,
    {
        lemma_le_encodings();
        let s = self.spec_bytes() + rest;
        assert(s.subrange(0, 4) =~= le32(self.err));
    }

    /// Decodes a body from the start of `buffer`.
    pub fn parse(buffer: &[u8]) -> (r: Result<ProcAckMessage, DecodeError>)
        ensures
            r == (if buffer@.len() < PROC_ACK_LEN {
                Err(DecodeError::Truncated)
            } else {
                Ok(ProcAckMessage::spec_from(buffer@))
            }),
    {
        if buffer.len() < PROC_ACK_LEN {
            return Err(DecodeError::Truncated);
        }
        let err = read_u32(buffer, 0);
        Ok(ProcAckMessage { err })
    }

    /// Number of bytes that `emit` writes.
    pub fn buffer_len(&self) -> (r: usize)
        ensures
            r == self.spec_bytes().len(),
    {
        proof {
            lemma_le_encodings();
        }
        PROC_ACK_LEN
    }

    /// Appends the bytes of this body.
    pub fn write_to(&self, out: &mut Vec<u8>)
        ensures
            final(out)@ == old(out)@ + self.spec_bytes(),
    {
        push_u32(out, self.err);
        assert(out@ =~= old(out)@ + self.spec_bytes());
    }

    /// Writes the bytes of this body at the start of `buffer`.
    pub fn emit(&self, buffer: &mut [u8])
        requires
            self.spec_bytes().len() <= old(buffer)@.len(),
        ensures
            final(buffer)@ == self.spec_bytes() + old(buffer)@.skip(self.spec_bytes().len() as int),
    {
        let mut bytes: Vec<u8> = Vec::new();
        self.write_to(&mut bytes);
        copy_prefix(buffer, bytes.as_slice());
    }
}

/// Length of the body of a `ForkMessage`.
pub const FORK_LEN: usize = 16;

/// A process forked.
#[derive(Debug, Clone, Copy, PartialEq, Eq, Default)]
pub struct ForkMessage {
    pub parent_pid: u32,
    pub parent_tgid: u32,
    pub child_pid: u32,
    pub child_tgid: u32,
}

impl ForkMessage {
    /// The bytes of this body: each field in turn, four bytes each.
    pub open spec fn spec_bytes(self) -> Seq<u8> {
        le32(self.parent_pid) + le32(self.parent_tgid) + le32(self.child_pid) + le32(self.child_tgid)
    }

    /// The body that the first bytes of `s` hold.
    pub open spec fn spec_from(s: Seq<u8>) -> ForkMessage {
        ForkMessage {
            parent_pid: u32_at(s, 0),
            parent_tgid: u32_at(s, 4),
            child_pid: u32_at(s, 8),
            child_tgid: u32_at(s, 12),
        }
    }

    /// Decoding the bytes of a body, whatever follows them, gives the body back.
    pub proof fn lemma_round_trip(self, rest: Seq<u8>)
        ensures
            self.spec_bytes().len() == FORK_LEN,
            ForkMessage::spec_from(self.spec_bytes() + rest) == self,
    {
        lemma_le_encodings();
        let s = self.spec_bytes() + rest;
        assert(s.subrange(0, 4) =~= le32(self.parent_pid));
        assert(s.subrange(4, 8) =~= le32(self.parent_tgid));
        assert(s.subrange(8, 12) =~= le32(self.child_pid));
        assert(s.subrange(12, 16) =~= le32(self.child_tgid));
    }

    /// Decodes a body from the start of `buffer`.
    pub fn parse(buffer: &[u8]) -> (r: Result<ForkMessage, DecodeError>)
        ensures
            r == (if buffer@.len() < FORK_LEN {
                Err(DecodeError::Truncated)
            } else {
                Ok(ForkMessage::spec_from(buffer@))
            }),
    {
        if buffer.len() < FORK_LEN {
            return Err(DecodeError::Truncated);
        }
        let parent_pid = read_u32(buffer, 0);
        let parent_tgid = read_u32(buffer, 4);
        let child_pid = read_u32(buffer, 8);
        let child_tgid = read_u32(buffer, 12);
        Ok(ForkMessage { parent_pid, parent_tgid, child_pid, child_tgid })
    }

    /// Number of bytes that `emit` writes.
    pub fn buffer_len(&self) -> (r: usize)
        ensures
            r == self.spec_bytes().len(),
    {
        proof {
            lemma_le_encodings();
        }
        FORK_LEN
    }

    /// Appends the bytes of this body.
    pub fn write_to(&self, out: &mut Vec<u8>)
        ensures
            final(out)@ == old(out)@ + self.spec_bytes(),
    {
        push_u32(out, self.parent_pid);
        push_u32(out, self.parent_tgid);
        push_u32(out, self.child_pid);
        push_u32(out, self.child_tgid);
        assert(out@ =~= old(out)@ + self.spec_bytes());
    }

    /// Writes the bytes of this body at the start of `buffer`.
    pub fn emit(&self, buffer: &mut [u8])
        requires
            self.spec_bytes().len() <= old(buffer)@.len(),
        ensures
            final(buffer)@ == self.spec_bytes() + old(buffer)@.skip(self.spec_bytes().len() as int),
    {
        let mut bytes: Vec<u8> = Vec::new();
        self.write_to(&mut bytes);
        copy_prefix(buffer, bytes.as_slice());
    }
}

/// Length of the body of a `ExecMessage`.
pub const EXEC_LEN: usize = 8;

/// A process called exec.
#[derive(Debug, Clone, Copy, PartialEq, Eq, Default)]
pub struct ExecMessage {
    pub pid: u32,
    pub tgid: u32,
}

impl ExecMessage {
    /// The bytes of this body: each field in turn, four bytes each.
    pub open spec fn spec_bytes(self) -> Seq<u8> {
        le32(self.pid) + le32(self.tgid)
    }

    /// The body that the first bytes of `s` hold.
    pub open spec fn spec_from(s: Seq<u8>) -> ExecMessage {
        ExecMessage {
            pid: u32_at(s, 0),
            tgid: u32_at(s, 4),
        }
    }

    /// Decoding the bytes of a body, whatever follows them, gives the body back.
    pub proof fn lemma_round_trip(self, rest: Seq<u8>)
        ensures
            self.spec_bytes().len() == EXEC_LEN,
            ExecMessage::spec_from(self.spec_bytes() + rest) == self,
    {
        lemma_le_encodings();
        let s = self.spec_bytes() + rest;
        assert(s.subrange(0, 4) =~= le32(self.pid));
        assert(s.subrange(4, 8) =~= le32(self.tgid));
    }

    /// Decodes a body from the start of `buffer`.
    pub fn parse(buffer: &[u8]) -> (r: Result<ExecMessage, DecodeError>)
        ensures
            r == (if buffer@.len() < EXEC_LEN {
                Err(DecodeError::Truncated)
            } else {
                Ok(ExecMessage::spec_from(buffer@))
            }),
    {
        if buffer.len() < EXEC_LEN {
            return Err(DecodeError::Truncated);
        }
        let pid = read_u32(buffer, 0);
        let tgid = read_u32(buffer, 4);
        Ok(ExecMessage { pid, tgid })
    }

    /// Number of bytes that `emit` writes.
    pub fn buffer_len(&self) -> (r: usize)
        ensures
            r == self.spec_bytes().len(),
    {
        proof {
            lemma_le_encodings();
        }
        EXEC_LEN
    }

    /// Appends the bytes of this body.
    pub fn write_to(&self, out: &mut Vec<u8>)
        ensures
            final(out)@ == old(out)@ + self.spec_bytes(),
    {
        push_u32(out, self.pid);
        push_u32(out, self.tgid);
        assert(out@ =~= old(out)@ + self.spec_bytes());
    }

    /// Writes the bytes of this body at the start of `buffer`.
    pub fn emit(&self, buffer: &mut [u8])
        requires
            self.spec_bytes().len() <= old(buffer)@.len(),
        ensures
            final(buffer)@ == self.spec_bytes() + old(buffer)@.skip(self.spec_bytes().len() as int),
    {
        let mut bytes: Vec<u8> = Vec::new();
        self.write_to(&mut bytes);
        copy_prefix(buffer, bytes.as_slice());
    }
}

/// Length of the body of a `UidChangeMessage`.
pub const UID_CHANGE_LEN: usize = 16;

/// A process changed its user ids.
#[derive(Debug, Clone, Copy, PartialEq, Eq, Default)]
pub struct UidChangeMessage {
    pub process_pid: u32,
    pub process_tgid: u32,
    pub uid: u32,
    pub euid: u32,
}

impl UidChangeMessage {
    /// The bytes of this body: each field in turn, four bytes each.
    pub open spec fn spec_bytes(self) -> Seq<u8> {
        le32(self.process_pid) + le32(self.process_tgid) + le32(self.uid) + le32(self.euid)
    }

    /// The body that the first bytes of `s` hold.
    pub open spec fn spec_from(s: Seq<u8>) -> UidChangeMessage {
        UidChangeMessage {
            process_pid: u32_at(s, 0),
            process_tgid: u32_at(s, 4),
            uid: u32_at(s, 8),
            euid: u32_at(s, 12),
        }
    }

    /// Decoding the bytes of a body, whatever follows them, gives the body back.
    pub proof fn lemma_round_trip(self, rest: Seq<u8>)
        ensures
            self.spec_bytes().len() == UID_CHANGE_LEN,
            UidChangeMessage::spec_from(self.spec_bytes() + rest) == self,
    {
        lemma_le_encodings();
        let s = self.spec_bytes() + rest;
        assert(s.subrange(0, 4) =~= le32(self.process_pid));
        assert(s.subrange(4, 8) =~= le32(self.process_tgid));
        assert(s.subrange(8, 12) =~= le32(self.uid));
        assert(s.subrange(12, 16) =~= le32(self.euid));
    }

    /// Decodes a body from the start of `buffer`.
    pub fn parse(buffer: &[u8]) -> (r: Result<UidChangeMessage, DecodeError>)
        ensures
            r == (if buffer@.len() < UID_CHANGE_LEN {
                Err(DecodeError::Truncated)
            } else {
                Ok(UidChangeMessage::spec_from(buffer@))
            }),
    {
        if buffer.len() < UID_CHANGE_LEN {
            return Err(DecodeError::Truncated);
        }
        let process_pid = read_u32(buffer, 0);
        let process_tgid = read_u32(buffer, 4);
        let uid = read_u32(buffer, 8);
        let euid = read_u32(buffer, 12);
        Ok(UidChangeMessage { process_pid, process_tgid, uid, euid })
    }

    /// Number of bytes that `emit` writes.
    pub fn buffer_len(&self) -> (r: usize)
        ensures
            r == self.spec_bytes().len(),
    {
        proof {
            lemma_le_encodings();
        }
        UID_CHANGE_LEN
    }

    /// Appends the bytes of this body.
    pub fn write_to(&self, out: &mut Vec<u8>)
        ensures
            final(out)@ == old(out)@ + self.spec_bytes(),
    {
        push_u32(out, self.process_pid);
        push_u32(out, self.process_tgid);
        push_u32(out, self.uid);
        push_u32(out, self.euid);
        assert(out@ =~= old(out)@ + self.spec_bytes());
    }

    /// Writes the bytes of this body at the start of `buffer`.
    pub fn emit(&self, buffer: &mut [u8])
        requires
            self.spec_bytes().len() <= old(buffer)@.len(),
        ensures
            final(buffer)@ == self.spec_bytes() + old(buffer)@.skip(self.spec_bytes().len() as int),
    {
        let mut bytes: Vec<u8> = Vec::new();
        self.write_to(&mut bytes);
        copy_prefix(buffer, bytes.as_slice());
    }
}

/// Length of the body of a `GidChangeMessage`.
pub const GID_CHANGE_LEN: usize = 16;

/// A process changed its group ids.
#[derive(Debug, Clone, Copy, PartialEq, Eq, Default)]
pub struct GidChangeMessage {
    pub process_pid: u32,
    pub process_tgid: u32,
    pub gid: u32,
    pub egid: u32,
}

impl GidChangeMessage {
    /// The bytes of this body: each field in turn, four bytes each.
    pub open spec fn spec_bytes(self) -> Seq<u8> {
        le32(self.process_pid) + le32(self.process_tgid) + le32(self.gid) + le32(self.egid)
    }

    /// The body that the first bytes of `s` hold.
    pub open spec fn spec_from(s: Seq<u8>) -> GidChangeMessage {
        GidChangeMessage {
            process_pid: u32_at(s, 0),
            process_tgid: u32_at(s, 4),
            gid: u32_at(s, 8),
            egid: u32_at(s, 12),
        }
    }

    /// Decoding the bytes of a body, whatever follows them, gives the body back.
    pub proof fn lemma_round_trip(self, rest: Seq<u8>)
        ensures
            self.spec_bytes().len() == GID_CHANGE_LEN,
            GidChangeMessage::spec_from(self.spec_bytes() + rest) == self,
    {
        lemma_le_encodings();
        let s = self.spec_bytes() + rest;
        assert(s.subrange(0, 4) =~= le32(self.process_pid));
        assert(s.subrange(4, 8) =~= le32(self.process_tgid));
        assert(s.subrange(8, 12) =~= le32(self.gid));
        assert(s.subrange(12, 16) =~= le32(self.egid));
    }

    /// Decodes a body from the start of `buffer`.
    pub fn parse(buffer: &[u8]) -> (r: Result<GidChangeMessage, DecodeError>)
        ensures
            r == (if buffer@.len() < GID_CHANGE_LEN {
                Err(DecodeError::Truncated)
            } else {
                Ok(GidChangeMessage::spec_from(buffer@))
            }),
    {
        if buffer.len() < GID_CHANGE_LEN {
            return Err(DecodeError::Truncated);
        }
        let process_pid = read_u32(buffer, 0);
        let process_tgid = read_u32(buffer, 4);
        let gid = read_u32(buffer, 8);
        let egid = read_u32(buffer, 12);
        Ok(GidChangeMessage { process_pid, process_tgid, gid, egid })
    }

    /// Number of bytes that `emit` writes.
    pub fn buffer_len(&self) -> (r: usize)
        ensures
            r == self.spec_bytes().len(),
    {
        proof {
            lemma_le_encodings();
        }
        GID_CHANGE_LEN
    }

    /// Appends the bytes of this body.
    pub fn write_to(&self, out: &mut Vec<u8>)
        ensures
            final(out)@ == old(out)@ + self.spec_bytes(),
    {
        push_u32(out, self.process_pid);
        push_u32(out, self.process_tgid);
        push_u32(out, self.gid);
        push_u32(out, self.egid);
        assert(out@ =~= old(out)@ + self.spec_bytes());
    }

    /// Writes the bytes of this body at the start of `buffer`.
    pub fn emit(&self, buffer: &mut [u8])
        requires
            self.spec_bytes().len() <= old(buffer)@.len(),
        ensures
            final(buffer)@ == self.spec_bytes() + old(buffer)@.skip(self.spec_bytes().len() as int),
    {
        let mut bytes: Vec<u8> = Vec::new();
        self.write_to(&mut bytes);
        copy_prefix(buffer, bytes.as_slice());
    }
}

/// Length of the body of a `SidMessage`.
pub const SID_LEN: usize = 8;

/// A process started a new session.
#[derive(Debug, Clone, Copy, PartialEq, Eq, Default)]
pub struct SidMessage {
    pub parent_pid: u32,
    pub parent_tgid: u32,
}

impl SidMessage {
    /// The bytes of this body: each field in turn, four bytes each.
    pub open spec fn spec_bytes(self) -> Seq<u8> {
        le32(self.parent_pid) + le32(self.parent_tgid)
    }

    /// The body that the first bytes of `s` hold.
    pub open spec fn spec_from(s: Seq<u8>) -> SidMessage {
        SidMessage {
            parent_pid: u32_at(s, 0),
            parent_tgid: u32_at(s, 4),
        }
    }

    /// Decoding the bytes of a body, whatever follows them, gives the body back.
    pub proof fn lemma_round_trip(self, rest: Seq<u8>)
        ensures
            self.spec_bytes().len() == SID_LEN,
            SidMessage::spec_from(self.spec_bytes() + rest) == self,
    {
        lemma_le_encodings();
        let s = self.spec_bytes() + rest;
        assert(s.subrange(0, 4) =~= le32(self.parent_pid));
        assert(s.subrange(4, 8) =~= le32(self.parent_tgid));
    }

    /// Decodes a body from the start of `buffer`.
    pub fn parse(buffer: &[u8]) -> (r: Result<SidMessage, DecodeError>)
        ensures
            r == (if buffer@.len() < SID_LEN {
                Err(DecodeError::Truncated)
            } else {
                Ok(SidMessage::spec_from(buffer@))
            }),
    {
        if buffer.len() < SID_LEN {
            return Err(DecodeError::Truncated);
        }
        let parent_pid = read_u32(buffer, 0);
        let parent_tgid = read_u32(buffer, 4);
        Ok(SidMessage { parent_pid, parent_tgid })
    }

    /// Number of bytes that `emit` writes.
    pub fn buffer_len(&self) -> (r: usize)
        ensures
            r == self.spec_bytes().len(),
    {
        proof {
            lemma_le_encodings();
        }
        SID_LEN
    }

    /// Appends the bytes of this body.
    pub fn write_to(&self, out: &mut Vec<u8>)
        ensures
            final(out)@ == old(out)@ + self.spec_bytes(),
    {
        push_u32(out, self.parent_pid);
        push_u32(out, self.parent_tgid);
        assert(out@ =~= old(out)@ + self.spec_bytes());
    }

    /// Writes the bytes of this body at the start of `buffer`.
    pub fn emit(&self, buffer: &mut [u8])
        requires
            self.spec_bytes().len() <= old(buffer)@.len(),
        ensures
            final(buffer)@ == self.spec_bytes() + old(buffer)@.skip(self.spec_bytes().len() as int),
    {
        let mut bytes: Vec<u8> = Vec::new();
        self.write_to(&mut bytes);
        copy_prefix(buffer, bytes.as_slice());
    }
}

/// Length of the body of a `PtraceMessage`.
pub const PTRACE_LEN: usize = 16;

/// A process was attached to or detached from a tracer.
#[derive(Debug, Clone, Copy, PartialEq, Eq, Default)]
pub struct PtraceMessage {
    pub parent_pid: u32,
    pub parent_tgid: u32,
    pub tracer_pid: u32,
    pub tracer_tgid: u32,
}

impl PtraceMessage {
    /// The bytes of this body: each field in turn, four bytes each.
    pub open spec fn spec_bytes(self) -> Seq<u8> {
        le32(self.parent_pid) + le32(self.parent_tgid) + le32(self.tracer_pid) + le32(self.tracer_tgid)
    }

    /// The body that the first bytes of `s` hold.
    pub open spec fn spec_from(s: Seq<u8>) -> PtraceMessage {
        PtraceMessage {
            parent_pid: u32_at(s, 0),
            parent_tgid: u32_at(s, 4),
            tracer_pid: u32_at(s, 8),
            tracer_tgid: u32_at(s, 12),
        }
    }

    /// Decoding the bytes of a body, whatever follows them, gives the body back.
    pub proof fn lemma_round_trip(self, rest: Seq<u8>)
        ensures
            self.spec_bytes().len() == PTRACE_LEN,
            PtraceMessage::spec_from(self.spec_bytes() + rest) == self,
    {
        lemma_le_encodings();
        let s = self.spec_bytes() + rest;
        assert(s.subrange(0, 4) =~= le32(self.parent_pid));
        assert(s.subrange(4, 8) =~= le32(self.parent_tgid));
        assert(s.subrange(8, 12) =~= le32(self.tracer_pid));
        assert(s.subrange(12, 16) =~= le32(self.tracer_tgid));
    }

    /// Decodes a body from the start of `buffer`.
    pub fn parse(buffer: &[u8]) -> (r: Result<PtraceMessage, DecodeError>)
        ensures
            r == (if buffer@.len() < PTRACE_LEN {
                Err(DecodeError::Truncated)
            } else {
                Ok(PtraceMessage::spec_from(buffer@))
            }),
    {
        if buffer.len() < PTRACE_LEN {
            return Err(DecodeError::Truncated);
        }
        let parent_pid = read_u32(buffer, 0);
        let parent_tgid = read_u32(buffer, 4);
        let tracer_pid = read_u32(buffer, 8);
        let tracer_tgid = read_u32(buffer, 12);
        Ok(PtraceMessage { parent_pid, parent_tgid, tracer_pid, tracer_tgid })
    }

    /// Number of bytes that `emit` writes.
    pub fn buffer_len(&self) -> (r: usize)
        ensures
            r == self.spec_bytes().len(),
    {
        proof {
            lemma_le_encodings();
        }
        PTRACE_LEN
    }

    /// Appends the bytes of this body.
    pub fn write_to(&self, out: &mut Vec<u8>)
        ensures
            final(out)@ == old(out)@ + self.spec_bytes(),
    {
        push_u32(out, self.parent_pid);
        push_u32(out, self.parent_tgid);
        push_u32(out, self.tracer_pid);
        push_u32(out, self.tracer_tgid);
        assert(out@ =~= old(out)@ + self.spec_bytes());
    }

    /// Writes the bytes of this body at the start of `buffer`.
    pub fn emit(&self, buffer: &mut [u8])
        requires
            self.spec_bytes().len() <= old(buffer)@.len(),
        ensures
            final(buffer)@ == self.spec_bytes() + old(buffer)@.skip(self.spec_bytes().len() as int),
    {
        let mut bytes: Vec<u8> = Vec::new();
        self.write_to(&mut bytes);
        copy_prefix(buffer, bytes.as_slice());
    }
}

/// Length of the body of a `CommandMessage`.
pub const COMMAND_LEN: usize = 24;

/// A process changed its command name.
#[derive(Debug, Clone, Copy, PartialEq, Eq, Default)]
pub struct CommandMessage {
    pub parent_pid: u32,
    pub parent_tgid: u32,
    /// The new name, as the kernel stores it; not always terminated by a zero.
    pub comm: [u8; 16],
}

/// The command name field that `s` holds at `off`.
pub open spec fn comm_at(s: Seq<u8>, off: int) -> [u8; 16] {
    choose|a: [u8; 16]| a@ == s.subrange(off, off + 16)
}

/// Two command names with the same bytes are the same.
pub proof fn lemma_comm_by_bytes(a: [u8; 16], b: [u8; 16])
    requires
        a@ == b@,
    ensures
        a == b,
{
    assert(a =~= b);
}

impl CommandMessage {
    /// The bytes of this body: the two ids, then the name as it stands.
    pub open spec fn spec_bytes(self) -> Seq<u8> {
        le32(self.parent_pid) + le32(self.parent_tgid) + self.comm@
    }

    /// The body that the first bytes of `s` hold.
    pub open spec fn spec_from(s: Seq<u8>) -> CommandMessage {
        CommandMessage { parent_pid: u32_at(s, 0), parent_tgid: u32_at(s, 4), comm: comm_at(s, 8) }
    }

    /// Decoding the bytes of a body, whatever follows them, gives the body back.
    pub proof fn lemma_round_trip(self, rest: Seq<u8>)
        ensures
            self.spec_bytes().len() == COMMAND_LEN,
            CommandMessage::spec_from(self.spec_bytes() + rest) == self,
    {
        lemma_le_encodings();
        let s = self.spec_bytes() + rest;
        assert(s.subrange(0, 4) =~= le32(self.parent_pid));
        assert(s.subrange(4, 8) =~= le32(self.parent_tgid));
        assert(s.subrange(8, 24) =~= self.comm@);
        let c = comm_at(s, 8);
        assert(c@ == s.subrange(8, 24));
        lemma_comm_by_bytes(c, self.comm);
    }

    /// Decodes a body from the start of `buffer`.
    pub fn parse(buffer: &[u8]) -> (r: Result<CommandMessage, DecodeError>)
        ensures
            r == (if buffer@.len() < COMMAND_LEN {
                Err(DecodeError::Truncated)
            } else {
                Ok(CommandMessage::spec_from(buffer@))
            }),
    {
        if buffer.len() < COMMAND_LEN {
            return Err(DecodeError::Truncated);
        }
        let parent_pid = read_u32(buffer, 0);
        let parent_tgid = read_u32(buffer, 4);
        let mut comm: [u8; 16] = [0u8; 16];
        let mut i: usize = 0;
        while i < TASK_COMM_LEN
            invariant
                i <= TASK_COMM_LEN,
                buffer@.len() >= COMMAND_LEN,
                comm@.len() == 16,
                forall|k: int| 0 <= k < i ==> comm@[k] == buffer@[8 + k],
            decreases TASK_COMM_LEN - i,
        {
            comm[i] = buffer[8 + i];
            i = i + 1;
        }
        proof {
            assert(comm@ =~= buffer@.subrange(8, 24));
            lemma_comm_by_bytes(comm, comm_at(buffer@, 8));
        }
        Ok(CommandMessage { parent_pid, parent_tgid, comm })
    }

    /// Number of bytes that `emit` writes.
    pub fn buffer_len(&self) -> (r: usize)
        ensures
            r == self.spec_bytes().len(),
    {
        proof {
            lemma_le_encodings();
        }
        COMMAND_LEN
    }

    /// Appends the bytes of this body.
    pub fn write_to(&self, out: &mut Vec<u8>)
        ensures
            final(out)@ == old(out)@ + self.spec_bytes(),
    {
        push_u32(out, self.parent_pid);
        push_u32(out, self.parent_tgid);
        out.extend_from_slice(self.comm.as_slice());
        assert(out@ =~= old(out)@ + self.spec_bytes());
    }

    /// Writes the bytes of this body at the start of `buffer`.
    pub fn emit(&self, buffer: &mut [u8])
        requires
            self.spec_bytes().len() <= old(buffer)@.len(),
        ensures
            final(buffer)@ == self.spec_bytes() + old(buffer)@.skip(self.spec_bytes().len() as int),
    {
        let mut bytes: Vec<u8> = Vec::new();
        self.write_to(&mut bytes);
        copy_prefix(buffer, bytes.as_slice());
    }
}

/// Length of the body of a `CoreDumpMessage`.
pub const CORE_DUMP_LEN: usize = 16;

/// A process dumped core.
#[derive(Debug, Clone, Copy, PartialEq, Eq, Default)]
pub struct CoreDumpMessage {
    pub process_pid: u32,
    pub process_tgid: u32,
    pub parent_pid: u32,
    pub parent_tgid: u32,
}

impl CoreDumpMessage {
    /// The bytes of this body: each field in turn, four bytes each.
    pub open spec fn spec_bytes(self) -> Seq<u8> {
        le32(self.process_pid) + le32(self.process_tgid) + le32(self.parent_pid) + le32(self.parent_tgid)
    }

    /// The body that the first bytes of `s` hold.
    pub open spec fn spec_from(s: Seq<u8>) -> CoreDumpMessage {
        CoreDumpMessage {
            process_pid: u32_at(s, 0),
            process_tgid: u32_at(s, 4),
            parent_pid: u32_at(s, 8),
            parent_tgid: u32_at(s, 12),
        }
    }

    /// Decoding the bytes of a body, whatever follows them, gives the body back.
    pub proof fn lemma_round_trip(self, rest: Seq<u8>)
        ensures
            self.spec_bytes().len() == CORE_DUMP_LEN,
            CoreDumpMessage::spec_from(self.spec_bytes() + rest) == self,
    {
        lemma_le_encodings();
        let s = self.spec_bytes() + rest;
        assert(s.subrange(0, 4) =~= le32(self.process_pid));
        assert(s.subrange(4, 8) =~= le32(self.process_tgid));
        assert(s.subrange(8, 12) =~= le32(self.parent_pid));
        assert(s.subrange(12, 16) =~= le32(self.parent_tgid));
    }

    /// Decodes a body from the start of `buffer`.
    pub fn parse(buffer: &[u8]) -> (r: Result<CoreDumpMessage, DecodeError>)
        ensures
            r == (if buffer@.len() < CORE_DUMP_LEN {
                Err(DecodeError::Truncated)
            } else {
                Ok(CoreDumpMessage::spec_from(buffer@))
            }),
    {
        if buffer.len() < CORE_DUMP_LEN {
            return Err(DecodeError::Truncated);
        }
        let process_pid = read_u32(buffer, 0);
        let process_tgid = read_u32(buffer, 4);
        let parent_pid = read_u32(buffer, 8);
        let parent_tgid = read_u32(buffer, 12);
        Ok(CoreDumpMessage { process_pid, process_tgid, parent_pid, parent_tgid })
    }

    /// Number of bytes that `emit` writes.
    pub fn buffer_len(&self) -> (r: usize)
        ensures
            r == self.spec_bytes().len(),
    {
        proof {
            lemma_le_encodings();
        }
        CORE_DUMP_LEN
    }

    /// Appends the bytes of this body.
    pub fn write_to(&self, out: &mut Vec<u8>)
        ensures
            final(out)@ == old(out)@ + self.spec_bytes(),
    {
        push_u32(out, self.process_pid);
        push_u32(out, self.process_tgid);
        push_u32(out, self.parent_pid);
        push_u32(out, self.parent_tgid);
        assert(out@ =~= old(out)@ + self.spec_bytes());
    }

    /// Writes the bytes of this body at the start of `buffer`.
    pub fn emit(&self, buffer: &mut [u8])
        requires
            self.spec_bytes().len() <= old(buffer)@.len(),
        ensures
            final(buffer)@ == self.spec_bytes() + old(buffer)@.skip(self.spec_bytes().len() as int),
    {
        let mut bytes: Vec<u8> = Vec::new();
        self.write_to(&mut bytes);
        copy_prefix(buffer, bytes.as_slice());
    }
}

/// Length of the body of a `ExitMessage`.
pub const EXIT_LEN: usize = 24;

/// A process exited.
#[derive(Debug, Clone, Copy, PartialEq, Eq, Default)]
pub struct ExitMessage {
    pub process_pid: u32,
    pub process_tgid: u32,
    pub exit_code: u32,
    pub exit_signal: u32,
    pub parent_pid: u32,
    pub parent_tgid: u32,
}

impl ExitMessage {
    /// The bytes of this body: each field in turn, four bytes each.
    pub open spec fn spec_bytes(self) -> Seq<u8> {
        le32(self.process_pid) + le32(self.process_tgid) + le32(self.exit_code) + le32(self.exit_signal) + le32(self.parent_pid) + le32(self.parent_tgid)
    }

    /// The body that the first bytes of `s` hold.
    pub open spec fn spec_from(s: Seq<u8>) -> ExitMessage {
        ExitMessage {
            process_pid: u32_at(s, 0),
            process_tgid: u32_at(s, 4),
            exit_code: u32_at(s, 8),
            exit_signal: u32_at(s, 12),
            parent_pid: u32_at(s, 16),
            parent_tgid: u32_at(s, 20),
        }
    }

    /// Decoding the bytes of a body, whatever follows them, gives the body back.
    pub proof fn lemma_round_trip(self, rest: Seq<u8>)
        ensures
            self.spec_bytes().len() == EXIT_LEN,
            ExitMessage::spec_from(self.spec_bytes() + rest) == self,
    {
        lemma_le_encodings();
        let s = self.spec_bytes() + rest;
        assert(s.subrange(0, 4) =~= le32(self.process_pid));
        assert(s.subrange(4, 8) =~= le32(self.process_tgid));
        assert(s.subrange(8, 12) =~= le32(self.exit_code));
        assert(s.subrange(12, 16) =~= le32(self.exit_signal));
        assert(s.subrange(16, 20) =~= le32(self.parent_pid));
        assert(s.subrange(20, 24) =~= le32(self.parent_tgid));
    }

    /// Decodes a body from the start of `buffer`.
    pub fn parse(buffer: &[u8]) -> (r: Result<ExitMessage, DecodeError>)
        ensures
            r == (if buffer@.len() < EXIT_LEN {
                Err(DecodeError::Truncated)
            } else {
                Ok(ExitMessage::spec_from(buffer@))
            }),
    {
        if buffer.len() < EXIT_LEN {
            return Err(DecodeError::Truncated);
        }
        let process_pid = read_u32(buffer, 0);
        let process_tgid = read_u32(buffer, 4);
        let exit_code = read_u32(buffer, 8);
        let exit_signal = read_u32(buffer, 12);
        let parent_pid = read_u32(buffer, 16);
        let parent_tgid = read_u32(buffer, 20);
        Ok(ExitMessage { process_pid, process_tgid, exit_code, exit_signal, parent_pid, parent_tgid })
    }

    /// Number of bytes that `emit` writes.
    pub fn buffer_len(&self) -> (r: usize)
        ensures
            r == self.spec_bytes().len(),
    {
        proof {
            lemma_le_encodings();
        }
        EXIT_LEN
    }

    /// Appends the bytes of this body.
    pub fn write_to(&self, out: &mut Vec<u8>)
        ensures
            final(out)@ == old(out)@ + self.spec_bytes(),
    {
        push_u32(out, self.process_pid);
        push_u32(out, self.process_tgid);
        push_u32(out, self.exit_code);
        push_u32(out, self.exit_signal);
        push_u32(out, self.parent_pid);
        push_u32(out, self.parent_tgid);
        assert(out@ =~= old(out)@ + self.spec_bytes());
    }

    /// Writes the bytes of this body at the start of `buffer`.
    pub fn emit(&self, buffer: &mut [u8])
        requires
            self.spec_bytes().len() <= old(buffer)@.len(),
        ensures
            final(buffer)@ == self.spec_bytes() + old(buffer)@.skip(self.spec_bytes().len() as int),
    {
        let mut bytes: Vec<u8> = Vec::new();
        self.write_to(&mut bytes);
        copy_prefix(buffer, bytes.as_slice());
    }
}

/// A process event, by kind.
#[derive(Debug, Clone, Copy, PartialEq, Eq)]
pub enum ProcConnectorEvent {
    Ack(ProcAckMessage),
    Fork(ForkMessage),
    Exec(ExecMessage),
    UidChange(UidChangeMessage),
    GidChange(GidChangeMessage),
    Sid(SidMessage),
    Ptrace(PtraceMessage),
    Command(CommandMessage),
    CoreDump(CoreDumpMessage),
    Exit(ExitMessage),
}

/// Whether `what` is the kind of one of the events above.
pub open spec fn is_known_event(what: u32) -> bool {
    what == PROC_EVENT_NONE
    || what == PROC_EVENT_FORK
    || what == PROC_EVENT_EXEC
    || what == PROC_EVENT_UID
    || what == PROC_EVENT_GID
    || what == PROC_EVENT_SID
    || what == PROC_EVENT_PTRACE
    || what == PROC_EVENT_COMM
    || what == PROC_EVENT_COREDUMP
    || what == PROC_EVENT_EXIT
}

/// Length of the body of an event of kind `what`.
pub open spec fn event_body_len(what: u32) -> nat {
    if what == PROC_EVENT_NONE {
        PROC_ACK_LEN as nat
    } else if what == PROC_EVENT_FORK {
        FORK_LEN as nat
    } else if what == PROC_EVENT_EXEC {
        EXEC_LEN as nat
    } else if what == PROC_EVENT_UID {
        UID_CHANGE_LEN as nat
    } else if what == PROC_EVENT_GID {
        GID_CHANGE_LEN as nat
    } else if what == PROC_EVENT_SID {
        SID_LEN as nat
    } else if what == PROC_EVENT_PTRACE {
        PTRACE_LEN as nat
    } else if what == PROC_EVENT_COMM {
        COMMAND_LEN as nat
    } else if what == PROC_EVENT_COREDUMP {
        CORE_DUMP_LEN as nat
    } else {
        EXIT_LEN as nat
    }
}

/// The event of kind `what` whose body starts `p`.
pub open spec fn event_from(what: u32, p: Seq<u8>) -> ProcConnectorEvent {
    if what == PROC_EVENT_NONE {
        ProcConnectorEvent::Ack(ProcAckMessage::spec_from(p))
    } else if what == PROC_EVENT_FORK {
        ProcConnectorEvent::Fork(ForkMessage::spec_from(p))
    } else if what == PROC_EVENT_EXEC {
        ProcConnectorEvent::Exec(ExecMessage::spec_from(p))
    } else if what == PROC_EVENT_UID {
        ProcConnectorEvent::UidChange(UidChangeMessage::spec_from(p))
    } else if what == PROC_EVENT_GID {
        ProcConnectorEvent::GidChange(GidChangeMessage::spec_from(p))
    } else if what == PROC_EVENT_SID {
        ProcConnectorEvent::Sid(SidMessage::spec_from(p))
    } else if what == PROC_EVENT_PTRACE {
        ProcConnectorEvent::Ptrace(PtraceMessage::spec_from(p))
    } else if what == PROC_EVENT_COMM {
        ProcConnectorEvent::Command(CommandMessage::spec_from(p))
    } else if what == PROC_EVENT_COREDUMP {
        ProcConnectorEvent::CoreDump(CoreDumpMessage::spec_from(p))
    } else {
        ProcConnectorEvent::Exit(ExitMessage::spec_from(p))
    }
}

/// Decoding of an event body of kind `what`: an unknown kind is an error that
/// carries it, a body shorter than its kind needs is truncated.
pub open spec fn spec_parse_event(what: u32, p: Seq<u8>) -> Result<ProcConnectorEvent, DecodeError> {
    if !is_known_event(what) {
        Err(DecodeError::UnknownEvent(what))
    } else if p.len() < event_body_len(what) {
        Err(DecodeError::Truncated)
    } else {
        Ok(event_from(what, p))
    }
}

impl ProcConnectorEvent {
    /// The kind that identifies this event on the wire.
    pub open spec fn what(self) -> u32 {
        match self {
            ProcConnectorEvent::Ack(_) => PROC_EVENT_NONE,
            ProcConnectorEvent::Fork(_) => PROC_EVENT_FORK,
            ProcConnectorEvent::Exec(_) => PROC_EVENT_EXEC,
            ProcConnectorEvent::UidChange(_) => PROC_EVENT_UID,
            ProcConnectorEvent::GidChange(_) => PROC_EVENT_GID,
            ProcConnectorEvent::Sid(_) => PROC_EVENT_SID,
            ProcConnectorEvent::Ptrace(_) => PROC_EVENT_PTRACE,
            ProcConnectorEvent::Command(_) => PROC_EVENT_COMM,
            ProcConnectorEvent::CoreDump(_) => PROC_EVENT_COREDUMP,
            ProcConnectorEvent::Exit(_) => PROC_EVENT_EXIT,
        }
    }

    /// The bytes of the body of this event.
    pub open spec fn spec_bytes(self) -> Seq<u8> {
        match self {
            ProcConnectorEvent::Ack(m) => m.spec_bytes(),
            ProcConnectorEvent::Fork(m) => m.spec_bytes(),
            ProcConnectorEvent::Exec(m) => m.spec_bytes(),
            ProcConnectorEvent::UidChange(m) => m.spec_bytes(),
            ProcConnectorEvent::GidChange(m) => m.spec_bytes(),
            ProcConnectorEvent::Sid(m) => m.spec_bytes(),
            ProcConnectorEvent::Ptrace(m) => m.spec_bytes(),
            ProcConnectorEvent::Command(m) => m.spec_bytes(),
            ProcConnectorEvent::CoreDump(m) => m.spec_bytes(),
            ProcConnectorEvent::Exit(m) => m.spec_bytes(),
        }
    }

    /// Decoding the body of an event under its own kind, whatever follows the
    /// body, gives the event back; its kind is known and its body has the
    /// length that the kind asks for.
    pub proof fn lemma_round_trip(self, rest: Seq<u8>)
        ensures
            is_known_event(self.what()),
            self.spec_bytes().len() == event_body_len(self.what()),
            spec_parse_event(self.what(), self.spec_bytes() + rest) == Ok::<ProcConnectorEvent, DecodeError>(self),
    {
        match self {
            ProcConnectorEvent::Ack(m) => m.lemma_round_trip(rest),
            ProcConnectorEvent::Fork(m) => m.lemma_round_trip(rest),
            ProcConnectorEvent::Exec(m) => m.lemma_round_trip(rest),
            ProcConnectorEvent::UidChange(m) => m.lemma_round_trip(rest),
            ProcConnectorEvent::GidChange(m) => m.lemma_round_trip(rest),
            ProcConnectorEvent::Sid(m) => m.lemma_round_trip(rest),
            ProcConnectorEvent::Ptrace(m) => m.lemma_round_trip(rest),
            ProcConnectorEvent::Command(m) => m.lemma_round_trip(rest),
            ProcConnectorEvent::CoreDump(m) => m.lemma_round_trip(rest),
            ProcConnectorEvent::Exit(m) => m.lemma_round_trip(rest),
        }
    }

    /// The kind that identifies this event on the wire.
    pub fn kind(&self) -> (r: u32)
        ensures
            r == self.what(),
    {
        match self {
            ProcConnectorEvent::Ack(_) => PROC_EVENT_NONE,
            ProcConnectorEvent::Fork(_) => PROC_EVENT_FORK,
            ProcConnectorEvent::Exec(_) => PROC_EVENT_EXEC,
            ProcConnectorEvent::UidChange(_) => PROC_EVENT_UID,
            ProcConnectorEvent::GidChange(_) => PROC_EVENT_GID,
            ProcConnectorEvent::Sid(_) => PROC_EVENT_SID,
            ProcConnectorEvent::Ptrace(_) => PROC_EVENT_PTRACE,
            ProcConnectorEvent::Command(_) => PROC_EVENT_COMM,
            ProcConnectorEvent::CoreDump(_) => PROC_EVENT_COREDUMP,
            ProcConnectorEvent::Exit(_) => PROC_EVENT_EXIT,
        }
    }

    /// Decodes the body of an event of kind `what` from the start of `payload`.
    pub fn parse(what: u32, payload: &[u8]) -> (r: Result<ProcConnectorEvent, DecodeError>)
        ensures
            r == spec_parse_event(what, payload@),
    {
        if what == PROC_EVENT_NONE {
            match ProcAckMessage::parse(payload) {
                Ok(m) => Ok(ProcConnectorEvent::Ack(m)),
                Err(e) => Err(e),
            }
        } else if what == PROC_EVENT_FORK {
            match ForkMessage::parse(payload) {
                Ok(m) => Ok(ProcConnectorEvent::Fork(m)),
                Err(e) => Err(e),
            }
        } else if what == PROC_EVENT_EXEC {
            match ExecMessage::parse(payload) {
                Ok(m) => Ok(ProcConnectorEvent::Exec(m)),
                Err(e) => Err(e),
            }
        } else if what == PROC_EVENT_UID {
            match UidChangeMessage::parse(payload) {
                Ok(m) => Ok(ProcConnectorEvent::UidChange(m)),
                Err(e) => Err(e),
            }
        } else if what == PROC_EVENT_GID {
            match GidChangeMessage::parse(payload) {
                Ok(m) => Ok(ProcConnectorEvent::GidChange(m)),
                Err(e) => Err(e),
            }
        } else if what == PROC_EVENT_SID {
            match SidMessage::parse(payload) {
                Ok(m) => Ok(ProcConnectorEvent::Sid(m)),
                Err(e) => Err(e),
            }
        } else if what == PROC_EVENT_PTRACE {
            match PtraceMessage::parse(payload) {
                Ok(m) => Ok(ProcConnectorEvent::Ptrace(m)),
                Err(e) => Err(e),
            }
        } else if what == PROC_EVENT_COMM {
            match CommandMessage::parse(payload) {
                Ok(m) => Ok(ProcConnectorEvent::Command(m)),
                Err(e) => Err(e),
            }
        } else if what == PROC_EVENT_COREDUMP {
            match CoreDumpMessage::parse(payload) {
                Ok(m) => Ok(ProcConnectorEvent::CoreDump(m)),
                Err(e) => Err(e),
            }
        } else if what == PROC_EVENT_EXIT {
            match ExitMessage::parse(payload) {
                Ok(m) => Ok(ProcConnectorEvent::Exit(m)),
                Err(e) => Err(e),
            }
        } else {
            Err(DecodeError::UnknownEvent(what))
        }
    }

    /// Number of bytes that `emit` writes.
    pub fn buffer_len(&self) -> (r: usize)
        ensures
            r == self.spec_bytes().len(),
    {
        match self {
            ProcConnectorEvent::Ack(m) => m.buffer_len(),
            ProcConnectorEvent::Fork(m) => m.buffer_len(),
            ProcConnectorEvent::Exec(m) => m.buffer_len(),
            ProcConnectorEvent::UidChange(m) => m.buffer_len(),
            ProcConnectorEvent::GidChange(m) => m.buffer_len(),
            ProcConnectorEvent::Sid(m) => m.buffer_len(),
            ProcConnectorEvent::Ptrace(m) => m.buffer_len(),
            ProcConnectorEvent::Command(m) => m.buffer_len(),
            ProcConnectorEvent::CoreDump(m) => m.buffer_len(),
            ProcConnectorEvent::Exit(m) => m.buffer_len(),
        }
    }

    /// Appends the bytes of the body of this event.
    pub fn write_to(&self, out: &mut Vec<u8>)
        ensures
            final(out)@ == old(out)@ + self.spec_bytes(),
    {
        match self {
            ProcConnectorEvent::Ack(m) => m.write_to(out),
            ProcConnectorEvent::Fork(m) => m.write_to(out),
            ProcConnectorEvent::Exec(m) => m.write_to(out),
            ProcConnectorEvent::UidChange(m) => m.write_to(out),
            ProcConnectorEvent::GidChange(m) => m.write_to(out),
            ProcConnectorEvent::Sid(m) => m.write_to(out),
            ProcConnectorEvent::Ptrace(m) => m.write_to(out),
            ProcConnectorEvent::Command(m) => m.write_to(out),
            ProcConnectorEvent::CoreDump(m) => m.write_to(out),
            ProcConnectorEvent::Exit(m) => m.write_to(out),
        }
    }

    /// Writes the bytes of the body of this event at the start of `buffer`.
    pub fn emit(&self, buffer: &mut [u8])
        requires
            self.spec_bytes().len() <= old(buffer)@.len(),
        ensures
            final(buffer)@ == self.spec_bytes() + old(buffer)@.skip(self.spec_bytes().len() as int),
    {
        match self {
            ProcConnectorEvent::Ack(m) => m.emit(buffer),
            ProcConnectorEvent::Fork(m) => m.emit(buffer),
            ProcConnectorEvent::Exec(m) => m.emit(buffer),
            ProcConnectorEvent::UidChange(m) => m.emit(buffer),
            ProcConnectorEvent::GidChange(m) => m.emit(buffer),
            ProcConnectorEvent::Sid(m) => m.emit(buffer),
            ProcConnectorEvent::Ptrace(m) => m.emit(buffer),
            ProcConnectorEvent::Command(m) => m.emit(buffer),
            ProcConnectorEvent::CoreDump(m) => m.emit(buffer),
            ProcConnectorEvent::Exit(m) => m.emit(buffer),
        }
    }
}

} // verus!
