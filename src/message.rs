//! Connector messages and the process connector messages they carry.
use crate::constants::{
    CN_IDX_PROC, CONNECTOR_HEADER_LEN, NLMSG_DONE, PROC_CN_MCAST_IGNORE, PROC_CN_MCAST_LISTEN,
    PROC_CONTROL_LEN, PROC_EVENT_HEADER_LEN,
};
use crate::error::DecodeError;
use crate::event::{spec_parse_event, ProcConnectorEvent, EXIT_LEN};
use crate::wire::{
    copy_at, copy_prefix, le16, le32, le64, lemma_le_encodings, push_u16, push_u32, push_u64, read_u16,
    read_u32, read_u64, u16_at, u32_at, u64_at,
};
use vstd::prelude::*;

verus! {

/// What the process connector exchanges: the two control operations, or an
/// event with the cpu it fired on and its timestamp.
#[derive(Debug, Clone, Copy, PartialEq, Eq)]
pub enum ProcConnectorMessage {
    ProcMcastListen,
    ProcMcastIgnore,
    Event((u32, u64, ProcConnectorEvent)),
}

/// Decoding of a process event: kind, cpu and timestamp, then the body that
/// the kind selects.
pub open spec fn spec_parse_proc_event(d: Seq<u8>) -> Result<ProcConnectorMessage, DecodeError> {
    if d.len() < PROC_EVENT_HEADER_LEN {
        Err(DecodeError::Truncated)
    } else {
        match spec_parse_event(u32_at(d, 0), d.skip(PROC_EVENT_HEADER_LEN as int)) {
            Ok(e) => Ok(ProcConnectorMessage::Event((u32_at(d, 4), u64_at(d, 8), e))),
            Err(x) => Err(x),
        }
    }
}

impl ProcConnectorMessage {
    /// The bytes of this message: the operation of a control message, or the
    /// kind, cpu, timestamp and body of an event.
    pub open spec fn spec_bytes(self) -> Seq<u8> {
        match self {
            ProcConnectorMessage::ProcMcastListen => le32(PROC_CN_MCAST_LISTEN),
            ProcConnectorMessage::ProcMcastIgnore => le32(PROC_CN_MCAST_IGNORE),
            ProcConnectorMessage::Event((cpu, timestamp, e)) => le32(e.what()) + le32(cpu) + le64(
                timestamp,
            ) + e.spec_bytes(),
        }
    }

    /// Decoding the bytes of an event, whatever follows them, gives the event
    /// back.
    pub proof fn lemma_round_trip(self, rest: Seq<u8>)
        requires
            self is Event,
        ensures
            spec_parse_proc_event(self.spec_bytes() + rest) == Ok::<ProcConnectorMessage, DecodeError>(self),
    {
        lemma_le_encodings();
        let (cpu, timestamp, e) = self->Event_0;
        let s = self.spec_bytes() + rest;
        e.lemma_round_trip(rest);
        assert(s.subrange(0, 4) =~= le32(e.what()));
        assert(s.subrange(4, 8) =~= le32(cpu));
        assert(s.subrange(8, 16) =~= le64(timestamp));
        assert(s.skip(16) =~= e.spec_bytes() + rest);
    }

    /// No process connector message is longer than an exit event.
    pub proof fn lemma_len_bound(self)
        ensures
            self.spec_bytes().len() <= PROC_EVENT_HEADER_LEN + EXIT_LEN,
    {
        lemma_le_encodings();
        if let ProcConnectorMessage::Event((_, _, e)) = self {
            e.lemma_round_trip(Seq::empty());
        }
    }

    /// Decodes a process event from the start of `buffer`.
    pub fn parse_event(buffer: &[u8]) -> (r: Result<ProcConnectorMessage, DecodeError>)
        ensures
            r == spec_parse_proc_event(buffer@),
    {
        if buffer.len() < PROC_EVENT_HEADER_LEN {
            return Err(DecodeError::Truncated);
        }
        let what = read_u32(buffer, 0);
        let cpu = read_u32(buffer, 4);
        let timestamp = read_u64(buffer, 8);
        let body = vstd::slice::slice_subrange(buffer, PROC_EVENT_HEADER_LEN, buffer.len());
        assert(body@ =~= buffer@.skip(PROC_EVENT_HEADER_LEN as int));
        match ProcConnectorEvent::parse(what, body) {
            Ok(e) => Ok(ProcConnectorMessage::Event((cpu, timestamp, e))),
            Err(x) => Err(x),
        }
    }

    /// Number of bytes that `emit` writes.
    pub fn buffer_len(&self) -> (r: usize)
        ensures
            r == self.spec_bytes().len(),
    {
        proof {
            lemma_le_encodings();
        }
        match self {
            ProcConnectorMessage::ProcMcastListen => PROC_CONTROL_LEN,
            ProcConnectorMessage::ProcMcastIgnore => PROC_CONTROL_LEN,
            ProcConnectorMessage::Event((_, _, e)) => {
                let n = e.buffer_len();
                proof {
                    e.lemma_round_trip(Seq::empty());
                }
                PROC_EVENT_HEADER_LEN + n
            },
        }
    }

    /// Appends the bytes of this message.
    pub fn write_to(&self, out: &mut Vec<u8>)
        ensures
            final(out)@ == old(out)@ + self.spec_bytes(),
    {
        match self {
            ProcConnectorMessage::ProcMcastListen => push_u32(out, PROC_CN_MCAST_LISTEN),
            ProcConnectorMessage::ProcMcastIgnore => push_u32(out, PROC_CN_MCAST_IGNORE),
            ProcConnectorMessage::Event((cpu, timestamp, e)) => {
                push_u32(out, e.kind());
                push_u32(out, *cpu);
                push_u64(out, *timestamp);
                e.write_to(out);
                assert(out@ =~= old(out)@ + self.spec_bytes());
            },
        }
    }

    /// Writes the bytes of this message into a whole connector buffer, at the
    /// header's data offset; the header before it and the bytes after it stay.
    pub fn emit(&self, buffer: &mut [u8])
        requires
            CONNECTOR_HEADER_LEN + self.spec_bytes().len() <= old(buffer)@.len(),
        ensures
            final(buffer)@ == old(buffer)@.take(CONNECTOR_HEADER_LEN as int) + self.spec_bytes()
                + old(buffer)@.skip(CONNECTOR_HEADER_LEN + self.spec_bytes().len()),
    {
        let mut bytes: Vec<u8> = Vec::new();
        self.write_to(&mut bytes);
        copy_at(buffer, CONNECTOR_HEADER_LEN, bytes.as_slice());
    }
}

/// The fixed header that starts every connector message.
#[derive(Debug, Clone, Copy, PartialEq, Eq, Structural, Default)]
pub struct ConnectorMsgHeader {
    pub idx: u32,
    pub val: u32,
    pub seq: u32,
    pub ack: u32,
    pub len: u16,
    pub flags: u16,
}

impl ConnectorMsgHeader {
    /// The bytes of this header, its fields in turn.
    pub open spec fn spec_bytes(self) -> Seq<u8> {
        le32(self.idx) + le32(self.val) + le32(self.seq) + le32(self.ack) + le16(self.len) + le16(
            self.flags,
        )
    }

    /// The header that the first bytes of `s` hold.
    pub open spec fn spec_from(s: Seq<u8>) -> ConnectorMsgHeader {
        ConnectorMsgHeader {
            idx: u32_at(s, 0),
            val: u32_at(s, 4),
            seq: u32_at(s, 8),
            ack: u32_at(s, 12),
            len: u16_at(s, 16),
            flags: u16_at(s, 18),
        }
    }

    /// Decoding the bytes of a header, whatever follows them, gives the header
    /// back.
    pub proof fn lemma_round_trip(self, rest: Seq<u8>)
        ensures
            self.spec_bytes().len() == CONNECTOR_HEADER_LEN,
            ConnectorMsgHeader::spec_from(self.spec_bytes() + rest) == self,
    {
        lemma_le_encodings();
        let s = self.spec_bytes() + rest;
        assert(s.subrange(0, 4) =~= le32(self.idx));
        assert(s.subrange(4, 8) =~= le32(self.val));
        assert(s.subrange(8, 12) =~= le32(self.seq));
        assert(s.subrange(12, 16) =~= le32(self.ack));
        assert(s.subrange(16, 18) =~= le16(self.len));
        assert(s.subrange(18, 20) =~= le16(self.flags));
    }

    /// Reads a header from the start of `buffer`, which must be long enough.
    pub fn read(buffer: &[u8]) -> (r: ConnectorMsgHeader)
        requires
            buffer@.len() >= CONNECTOR_HEADER_LEN,
        ensures
            r == ConnectorMsgHeader::spec_from(buffer@),
    {
        ConnectorMsgHeader {
            idx: read_u32(buffer, 0),
            val: read_u32(buffer, 4),
            seq: read_u32(buffer, 8),
            ack: read_u32(buffer, 12),
            len: read_u16(buffer, 16),
            flags: read_u16(buffer, 18),
        }
    }

    /// Number of bytes that `emit` writes.
    pub fn buffer_len(&self) -> (r: usize)
        ensures
            r == self.spec_bytes().len(),
    {
        proof {
            lemma_le_encodings();
        }
        CONNECTOR_HEADER_LEN
    }

    /// Appends the bytes of this header.
    pub fn write_to(&self, out: &mut Vec<u8>)
        ensures
            final(out)@ == old(out)@ + self.spec_bytes(),
    {
        push_u32(out, self.idx);
        push_u32(out, self.val);
        push_u32(out, self.seq);
        push_u32(out, self.ack);
        push_u16(out, self.len);
        push_u16(out, self.flags);
        assert(out@ =~= old(out)@ + self.spec_bytes());
    }

    /// Writes the bytes of this header at the start of `buffer`.
    pub fn emit(&self, buffer: &mut [u8])
        requires
            CONNECTOR_HEADER_LEN <= old(buffer)@.len(),
        ensures
            final(buffer)@ == self.spec_bytes() + old(buffer)@.skip(CONNECTOR_HEADER_LEN as int),
    {
        let mut bytes: Vec<u8> = Vec::new();
        self.write_to(&mut bytes);
        proof {
            lemma_le_encodings();
        }
        copy_prefix(buffer, bytes.as_slice());
    }
}

/// What a connector message carries: a process connector message, or the
/// traffic of another connector protocol, whose bytes are not kept.
#[derive(Debug, Clone, Copy, PartialEq, Eq)]
pub enum ConnectorMessagePayload {
    ProcConnector(ProcConnectorMessage),
    Other,
}

impl ConnectorMessagePayload {
    /// The bytes of this payload; another protocol's payload has none.
    pub open spec fn spec_bytes(self) -> Seq<u8> {
        match self {
            ConnectorMessagePayload::ProcConnector(m) => m.spec_bytes(),
            ConnectorMessagePayload::Other => Seq::empty(),
        }
    }
}

/// A connector message: its header and what it carries.
#[derive(Debug, Clone, Copy, PartialEq, Eq)]
pub struct ConnectorMessage {
    pub header: ConnectorMsgHeader,
    pub payload: ConnectorMessagePayload,
}

impl ConnectorMessage {
    /// The bytes of this message: the header, then the payload.
    pub open spec fn spec_bytes(self) -> Seq<u8> {
        self.header.spec_bytes() + self.payload.spec_bytes()
    }

    /// The header declares the length of the payload, and a process connector
    /// payload travels under the process connector's index.
    pub open spec fn well_formed(self) -> bool {
        &&& self.header.len as nat == self.payload.spec_bytes().len()
        &&& (self.payload is ProcConnector ==> self.header.idx == CN_IDX_PROC)
    }

    /// No connector message is longer than a header and an exit event.
    pub proof fn payload_len_bound(self)
        ensures
            self.spec_bytes().len() <= CONNECTOR_HEADER_LEN + PROC_EVENT_HEADER_LEN + EXIT_LEN,
    {
        lemma_le_encodings();
        if let ConnectorMessagePayload::ProcConnector(m) = self.payload {
            m.lemma_len_bound();
        }
    }

    /// Generic netlink message type under which this message travels.
    pub fn message_type(&self) -> (r: u16)
        ensures
            r == NLMSG_DONE,
    {
        match self.payload {
            ConnectorMessagePayload::ProcConnector(_) => NLMSG_DONE,
            ConnectorMessagePayload::Other => NLMSG_DONE,
        }
    }

    /// Number of bytes that `emit` writes.
    pub fn buffer_len(&self) -> (r: usize)
        ensures
            r == self.spec_bytes().len(),
    {
        let h = self.header.buffer_len();
        match &self.payload {
            ConnectorMessagePayload::ProcConnector(m) => {
                proof {
                    lemma_le_encodings();
                    m.lemma_len_bound();
                }
                h + m.buffer_len()
            },
            ConnectorMessagePayload::Other => h,
        }
    }

    /// Appends the bytes of this message.
    pub fn write_to(&self, out: &mut Vec<u8>)
        ensures
            final(out)@ == old(out)@ + self.spec_bytes(),
    {
        self.header.write_to(out);
        match &self.payload {
            ConnectorMessagePayload::ProcConnector(m) => m.write_to(out),
            ConnectorMessagePayload::Other => {},
        }
        assert(out@ =~= old(out)@ + self.spec_bytes());
    }

    /// Writes the header, then the payload, at the start of `buffer`; the
    /// payload of another protocol writes nothing.
    pub fn emit(&self, buffer: &mut [u8])
        requires
            self.spec_bytes().len() <= old(buffer)@.len(),
        ensures
            final(buffer)@ == self.spec_bytes() + old(buffer)@.skip(self.spec_bytes().len() as int),
    {
        proof {
            lemma_le_encodings();
        }
        self.header.emit(buffer);
        match &self.payload {
            ConnectorMessagePayload::ProcConnector(m) => {
                m.emit(buffer);
                assert(buffer@ =~= self.spec_bytes() + old(buffer)@.skip(
                    self.spec_bytes().len() as int,
                ));
            },
            ConnectorMessagePayload::Other => {
                assert(buffer@ =~= self.spec_bytes() + old(buffer)@.skip(
                    self.spec_bytes().len() as int,
                ));
            },
        }
    }
}

} // verus!
