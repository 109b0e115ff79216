//! Laws that relate encoding and decoding.
use crate::buffer::spec_parse_connector;
use crate::constants::{CN_IDX_PROC, CONNECTOR_HEADER_LEN, PROC_EVENT_HEADER_LEN};
use crate::error::DecodeError;
use crate::event::{event_body_len, is_known_event, spec_parse_event, ProcConnectorEvent};
use crate::message::{
    spec_parse_proc_event, ConnectorMessage, ConnectorMessagePayload, ConnectorMsgHeader,
    ProcConnectorMessage,
};
use crate::wire::u32_at;
use vstd::prelude::*;

verus! {

/// Decoding the bytes of a well-formed connector message that carries a
/// process event gives that message back.
pub proof fn lemma_decode_encode(m: ConnectorMessage)
    requires
        m.well_formed(),
        m.payload matches ConnectorMessagePayload::ProcConnector(p) && p is Event,
    ensures
        spec_parse_connector(m.spec_bytes()) == Ok::<ConnectorMessage, DecodeError>(m),
{
    let p = m.payload->ProcConnector_0;
    let s = m.spec_bytes();
    m.header.lemma_round_trip(p.spec_bytes());
    p.lemma_round_trip(Seq::empty());
    assert(s.skip(CONNECTOR_HEADER_LEN as int) =~= p.spec_bytes() + Seq::empty());
}

/// Each event body decodes, under its own kind, to the event it encodes; a
/// body shorter than its kind asks for is truncated.
pub proof fn lemma_event_codec(e: ProcConnectorEvent, short: Seq<u8>)
    ensures
        spec_parse_event(e.what(), e.spec_bytes()) == Ok::<ProcConnectorEvent, DecodeError>(e),
        short.len() < e.spec_bytes().len() ==> spec_parse_event(e.what(), short) == Err::<
            ProcConnectorEvent,
            DecodeError,
        >(DecodeError::Truncated),
{
    e.lemma_round_trip(Seq::empty());
    assert(e.spec_bytes() + Seq::empty() =~= e.spec_bytes());
}

/// A buffer under another protocol's index decodes to its header and `Other`,
/// whatever follows the header.
pub proof fn lemma_foreign_protocol(s: Seq<u8>, tail: Seq<u8>)
    requires
        s.len() >= CONNECTOR_HEADER_LEN,
        u32_at(s, 0) != CN_IDX_PROC,
    ensures
        spec_parse_connector(s) == Ok::<ConnectorMessage, DecodeError>(
            ConnectorMessage {
                header: ConnectorMsgHeader::spec_from(s),
                payload: ConnectorMessagePayload::Other,
            },
        ),
        spec_parse_connector(s.take(CONNECTOR_HEADER_LEN as int) + tail) == spec_parse_connector(s),
{
    let t = s.take(CONNECTOR_HEADER_LEN as int) + tail;
    assert(t.subrange(0, 4) =~= s.subrange(0, 4));
    assert(t.subrange(4, 8) =~= s.subrange(4, 8));
    assert(t.subrange(8, 12) =~= s.subrange(8, 12));
    assert(t.subrange(12, 16) =~= s.subrange(12, 16));
    assert(t.subrange(16, 18) =~= s.subrange(16, 18));
    assert(t.subrange(18, 20) =~= s.subrange(18, 20));
}

/// A process event of an unknown kind is an error that carries the kind, both
/// on its own and inside a connector message.
pub proof fn lemma_unknown_event(s: Seq<u8>)
    requires
        s.len() >= CONNECTOR_HEADER_LEN + PROC_EVENT_HEADER_LEN,
        u32_at(s, 0) == CN_IDX_PROC,
        !is_known_event(u32_at(s, CONNECTOR_HEADER_LEN as int)),
    ensures
        spec_parse_proc_event(s.skip(CONNECTOR_HEADER_LEN as int)) == Err::<
            ProcConnectorMessage,
            DecodeError,
        >(DecodeError::UnknownEvent(u32_at(s, CONNECTOR_HEADER_LEN as int))),
        spec_parse_connector(s) == Err::<ConnectorMessage, DecodeError>(
            DecodeError::UnknownEvent(u32_at(s, CONNECTOR_HEADER_LEN as int)),
        ),
{
    let d = s.skip(CONNECTOR_HEADER_LEN as int);
    assert(d.subrange(0, 4) =~= s.subrange(20, 24));
}

} // verus!
