//! A view of a connector message's bytes, and its decoding.
use crate::constants::{CN_IDX_PROC, CONNECTOR_HEADER_LEN};
use crate::error::DecodeError;
use crate::message::{
    spec_parse_proc_event, ConnectorMessage, ConnectorMessagePayload, ConnectorMsgHeader,
    ProcConnectorMessage,
};
use vstd::prelude::*;
use vstd::slice::slice_subrange;

verus! {

/// Decoding of a connector message. A buffer shorter than the header is
/// truncated. Under another protocol's index the payload is `Other` and the
/// bytes after the header are not read; under the process connector's index
/// they are decoded as a process event.
pub open spec fn spec_parse_connector(s: Seq<u8>) -> Result<ConnectorMessage, DecodeError> {
    if s.len() < CONNECTOR_HEADER_LEN {
        Err(DecodeError::Truncated)
    } else {
        let header = ConnectorMsgHeader::spec_from(s);
        if header.idx != CN_IDX_PROC {
            Ok(ConnectorMessage { header, payload: ConnectorMessagePayload::Other })
        } else {
            match spec_parse_proc_event(s.skip(CONNECTOR_HEADER_LEN as int)) {
                Ok(m) => Ok(
                    ConnectorMessage { header, payload: ConnectorMessagePayload::ProcConnector(m) },
                ),
                Err(e) => Err(e),
            }
        }
    }
}

/// The bytes of a connector message, over a borrowed buffer.
pub struct ConnectorBuffer<T> {
    buffer: T,
}

impl<'a> ConnectorBuffer<&'a [u8]> {
    /// The bytes this view covers.
    pub closed spec fn bytes(&self) -> Seq<u8> {
        self.buffer@
    }

    /// A view of `buffer`.
    pub fn new(buffer: &'a [u8]) -> (r: ConnectorBuffer<&'a [u8]>)
        ensures
            r.bytes() == buffer@,
    {
        ConnectorBuffer { buffer }
    }

    /// Number of bytes in the buffer.
    pub fn length(&self) -> (r: usize)
        ensures
            r == self.bytes().len(),
    {
        self.buffer.len()
    }

    /// A view of `buffer`. It always succeeds: lengths are checked as the
    /// fields are read.
    pub fn new_checked(buffer: &'a [u8]) -> (r: Result<ConnectorBuffer<&'a [u8]>, DecodeError>)
        ensures
            r is Ok,
            r matches Ok(b) && b.bytes() == buffer@,
    {
        Ok(ConnectorBuffer::new(buffer))
    }

    /// The whole buffer.
    pub fn inner(&self) -> (r: &'a [u8])
        ensures
            r@ == self.bytes(),
    {
        self.buffer
    }

    /// Decodes the connector message that the buffer holds. The netlink
    /// message type does not take part. Under the process connector's index
    /// the bytes after the header are always read as an event, so a listen or
    /// ignore operation (four bytes) decodes as `Truncated`, not back to
    /// itself.
    pub fn parse_with_param(&self, _message_type: u16) -> (r: Result<ConnectorMessage, DecodeError>)
        ensures
            r == spec_parse_connector(self.bytes()),
    {
        let buffer = self.buffer;
        if buffer.len() < CONNECTOR_HEADER_LEN {
            return Err(DecodeError::Truncated);
        }
        let header = ConnectorMsgHeader::read(buffer);
        if header.idx != CN_IDX_PROC {
            return Ok(ConnectorMessage { header, payload: ConnectorMessagePayload::Other });
        }
        let data = slice_subrange(buffer, CONNECTOR_HEADER_LEN, buffer.len());
        assert(data@ =~= buffer@.skip(CONNECTOR_HEADER_LEN as int));
        match ProcConnectorMessage::parse_event(data) {
            Ok(m) => Ok(
                ConnectorMessage { header, payload: ConnectorMessagePayload::ProcConnector(m) },
            ),
            Err(e) => Err(e),
        }
    }
}

impl<'a> ConnectorBuffer<&'a mut [u8]> {
    /// The bytes this view covers.
    pub closed spec fn bytes_mut(&self) -> Seq<u8> {
        self.buffer@
    }

    /// A writable view of `buffer`.
    pub fn new_mut(buffer: &'a mut [u8]) -> (r: ConnectorBuffer<&'a mut [u8]>)
        ensures
            r.bytes_mut() == old(buffer)@,
    {
        ConnectorBuffer { buffer }
    }

    /// The whole buffer, to write into.
    pub fn inner_mut(&mut self) -> (r: &mut [u8])
        ensures
            r@ == old(self).bytes_mut(),
            final(self).bytes_mut() == final(r)@,
    {
        &mut *self.buffer
    }
}

} // verus!
