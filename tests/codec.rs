use proc_connector::buffer::ConnectorBuffer;
use proc_connector::constants::{
    CN_IDX_PROC, CN_VAL_PROC, NLMSG_DONE, PROC_CN_MCAST_IGNORE, PROC_CN_MCAST_LISTEN,
    PROC_EVENT_COMM, PROC_EVENT_EXIT, PROC_EVENT_FORK,
};
use proc_connector::error::DecodeError;
use proc_connector::event::{
    CommandMessage, CoreDumpMessage, ExecMessage, ExitMessage, ForkMessage, GidChangeMessage,
    ProcAckMessage, ProcConnectorEvent, PtraceMessage, SidMessage, UidChangeMessage,
};
use proc_connector::message::{
    ConnectorMessage, ConnectorMessagePayload, ConnectorMsgHeader, ProcConnectorMessage,
};

fn all_events() -> Vec<ProcConnectorEvent> {
    vec![
        ProcConnectorEvent::Ack(ProcAckMessage { err: 7 }),
        ProcConnectorEvent::Fork(ForkMessage {
            parent_pid: 1,
            parent_tgid: 2,
            child_pid: 3,
            child_tgid: 4,
        }),
        ProcConnectorEvent::Exec(ExecMessage { pid: 10, tgid: 11 }),
        ProcConnectorEvent::UidChange(UidChangeMessage {
            process_pid: 5,
            process_tgid: 6,
            uid: 1000,
            euid: 0,
        }),
        ProcConnectorEvent::GidChange(GidChangeMessage {
            process_pid: 5,
            process_tgid: 6,
            gid: 100,
            egid: 101,
        }),
        ProcConnectorEvent::Sid(SidMessage { parent_pid: 42, parent_tgid: 43 }),
        ProcConnectorEvent::Ptrace(PtraceMessage {
            parent_pid: 8,
            parent_tgid: 9,
            tracer_pid: 12,
            tracer_tgid: 13,
        }),
        ProcConnectorEvent::Command(CommandMessage {
            parent_pid: 77,
            parent_tgid: 78,
            comm: *b"bash\0\0\0\0\0\0\0\0\0\0\0\0",
        }),
        ProcConnectorEvent::CoreDump(CoreDumpMessage {
            process_pid: 21,
            process_tgid: 22,
            parent_pid: 23,
            parent_tgid: 24,
        }),
        ProcConnectorEvent::Exit(ExitMessage {
            process_pid: 31,
            process_tgid: 32,
            exit_code: 0xffff_ffff,
            exit_signal: 17,
            parent_pid: 33,
            parent_tgid: 34,
        }),
    ]
}

fn event_message(cpu: u32, timestamp: u64, event: ProcConnectorEvent) -> ConnectorMessage {
    let payload = ProcConnectorMessage::Event((cpu, timestamp, event));
    ConnectorMessage {
        header: ConnectorMsgHeader {
            idx: CN_IDX_PROC,
            val: CN_VAL_PROC,
            seq: 9,
            ack: 3,
            len: payload.buffer_len() as u16,
            flags: 0x10,
        },
        payload: ConnectorMessagePayload::ProcConnector(payload),
    }
}

fn encode(m: &ConnectorMessage) -> Vec<u8> {
    let mut buf = vec![0u8; m.buffer_len()];
    m.emit(&mut buf);
    buf
}

fn decode(bytes: &[u8]) -> Result<ConnectorMessage, DecodeError> {
    ConnectorBuffer::new(bytes).parse_with_param(NLMSG_DONE)
}

#[test]
fn listen_message_encodes_to_twenty_four_bytes() {
    let m = ConnectorMessage {
        header: ConnectorMsgHeader { idx: CN_IDX_PROC, val: CN_VAL_PROC, seq: 0, ack: 0, len: 4, flags: 0 },
        payload: ConnectorMessagePayload::ProcConnector(ProcConnectorMessage::ProcMcastListen),
    };
    assert_eq!(m.buffer_len(), 24);
    let buf = encode(&m);
    assert_eq!(buf.len(), 24);
    assert_eq!(&buf[20..24], &PROC_CN_MCAST_LISTEN.to_le_bytes());
    assert_eq!(&buf[0..4], &[1, 0, 0, 0]);
    assert_eq!(&buf[4..8], &[1, 0, 0, 0]);
    assert_eq!(&buf[16..18], &[4, 0]);
}

#[test]
fn ignore_message_encodes_its_operation_after_the_header() {
    let m = ProcConnectorMessage::ProcMcastIgnore;
    assert_eq!(m.buffer_len(), 4);
    let mut buf = [0xaau8; 26];
    m.emit(&mut buf);
    assert_eq!(&buf[0..20], &[0xaa; 20]);
    assert_eq!(&buf[20..24], &PROC_CN_MCAST_IGNORE.to_le_bytes());
    assert_eq!(&buf[24..26], &[0xaa, 0xaa]);
}

#[test]
fn event_emits_kind_cpu_and_timestamp_after_the_header() {
    let e = all_events()[1];
    let m = ProcConnectorMessage::Event((5, 0x1122334455667788, e));
    let mut buf = vec![0x55u8; 20 + m.buffer_len()];
    m.emit(&mut buf);
    assert_eq!(&buf[0..20], &[0x55; 20]);
    assert_eq!(&buf[20..24], &PROC_EVENT_FORK.to_le_bytes());
    assert_eq!(&buf[24..28], &5u32.to_le_bytes());
    assert_eq!(&buf[28..36], &0x1122334455667788u64.to_le_bytes());
    assert_eq!(&buf[36..40], &1u32.to_le_bytes());
    assert_eq!(&buf[48..52], &4u32.to_le_bytes());
    assert_eq!(ProcConnectorMessage::parse_event(&buf[20..]), Ok(m));
}

#[test]
fn fork_event_decodes_from_thirty_six_bytes() {
    let mut buf: Vec<u8> = Vec::new();
    buf.extend_from_slice(&PROC_EVENT_FORK.to_le_bytes());
    buf.extend_from_slice(&0u32.to_le_bytes());
    buf.extend_from_slice(&123456789u64.to_le_bytes());
    for v in [100u32, 100, 200, 200] {
        buf.extend_from_slice(&v.to_le_bytes());
    }
    buf.extend_from_slice(&[0, 0, 0, 0]);
    assert_eq!(buf.len(), 36);
    let m = ProcConnectorMessage::parse_event(&buf).unwrap();
    assert_eq!(
        m,
        ProcConnectorMessage::Event((
            0,
            123456789,
            ProcConnectorEvent::Fork(ForkMessage {
                parent_pid: 100,
                parent_tgid: 100,
                child_pid: 200,
                child_tgid: 200,
            }),
        ))
    );
}

#[test]
fn every_event_survives_a_round_trip() {
    for (i, e) in all_events().into_iter().enumerate() {
        let m = event_message(i as u32, 1_000_000 + i as u64, e);
        let bytes = encode(&m);
        assert_eq!(bytes.len(), 20 + 16 + e.buffer_len());
        assert_eq!(decode(&bytes), Ok(m));
    }
}

#[test]
fn every_event_body_round_trips_at_its_exact_size() {
    for e in all_events() {
        let mut body = vec![0u8; e.buffer_len()];
        e.emit(&mut body);
        assert_eq!(ProcConnectorEvent::parse(e.kind(), &body), Ok(e));
    }
}

#[test]
fn short_event_bodies_are_truncated() {
    for e in all_events() {
        let mut body = vec![0u8; e.buffer_len()];
        e.emit(&mut body);
        let short = &body[..body.len() - 1];
        assert_eq!(ProcConnectorEvent::parse(e.kind(), short), Err(DecodeError::Truncated));
    }
}

#[test]
fn event_body_lengths() {
    let lens: Vec<usize> = all_events().iter().map(|e| e.buffer_len()).collect();
    assert_eq!(lens, vec![4, 16, 8, 16, 16, 8, 16, 24, 16, 24]);
}

#[test]
fn truncated_connector_message_is_an_error() {
    let m = event_message(1, 2, all_events()[9]);
    let bytes = encode(&m);
    for cut in [0usize, 19, 20, 35, 36, bytes.len() - 1] {
        assert_eq!(decode(&bytes[..cut]), Err(DecodeError::Truncated));
    }
}

#[test]
fn foreign_protocol_is_other_whatever_follows() {
    let mut bytes: Vec<u8> = Vec::new();
    for v in [2u32, 1, 5, 6] {
        bytes.extend_from_slice(&v.to_le_bytes());
    }
    bytes.extend_from_slice(&8u16.to_le_bytes());
    bytes.extend_from_slice(&1u16.to_le_bytes());
    let expected = ConnectorMessage {
        header: ConnectorMsgHeader { idx: 2, val: 1, seq: 5, ack: 6, len: 8, flags: 1 },
        payload: ConnectorMessagePayload::Other,
    };
    assert_eq!(decode(&bytes), Ok(expected));
    bytes.extend_from_slice(&[0xff; 8]);
    assert_eq!(decode(&bytes), Ok(expected));
}

#[test]
fn unknown_event_kind_is_reported() {
    let mut bytes: Vec<u8> = Vec::new();
    for v in [CN_IDX_PROC, CN_VAL_PROC, 0, 0] {
        bytes.extend_from_slice(&v.to_le_bytes());
    }
    bytes.extend_from_slice(&[20, 0, 0, 0]);
    bytes.extend_from_slice(&0xffff_ffffu32.to_le_bytes());
    bytes.extend_from_slice(&[0u8; 12]);
    bytes.extend_from_slice(&[0u8; 24]);
    assert_eq!(decode(&bytes), Err(DecodeError::UnknownEvent(0xffff_ffff)));
    assert_eq!(
        ProcConnectorMessage::parse_event(&bytes[20..]),
        Err(DecodeError::UnknownEvent(0xffff_ffff))
    );
}

#[test]
fn other_payload_encodes_only_the_header() {
    let m = ConnectorMessage {
        header: ConnectorMsgHeader { idx: 3, val: 4, seq: 0, ack: 0, len: 0, flags: 0 },
        payload: ConnectorMessagePayload::Other,
    };
    assert_eq!(m.buffer_len(), 20);
    assert_eq!(encode(&m), vec![3, 0, 0, 0, 4, 0, 0, 0, 0, 0, 0, 0, 0, 0, 0, 0, 0, 0, 0, 0]);
    assert_eq!(m.message_type(), NLMSG_DONE);
}

#[test]
fn exit_event_encodes_fields_in_order() {
    let e = all_events()[9];
    let mut m: Vec<u8> = Vec::new();
    ProcConnectorMessage::Event((2, 0x0102030405060708, e)).write_to(&mut m);
    assert_eq!(&m[0..4], &PROC_EVENT_EXIT.to_le_bytes());
    assert_eq!(&m[4..8], &[2, 0, 0, 0]);
    assert_eq!(&m[8..16], &[8, 7, 6, 5, 4, 3, 2, 1]);
    assert_eq!(&m[16..20], &31u32.to_le_bytes());
    assert_eq!(&m[24..28], &[0xff, 0xff, 0xff, 0xff]);
    assert_eq!(&m[36..40], &34u32.to_le_bytes());
}

#[test]
fn command_name_is_copied_verbatim() {
    let mut body: Vec<u8> = Vec::new();
    body.extend_from_slice(&PROC_EVENT_COMM.to_le_bytes());
    body.extend_from_slice(&3u32.to_le_bytes());
    body.extend_from_slice(&99u64.to_le_bytes());
    body.extend_from_slice(&5u32.to_le_bytes());
    body.extend_from_slice(&6u32.to_le_bytes());
    let name: [u8; 16] = *b"abcdefghijklmnop";
    body.extend_from_slice(&name);
    let m = ProcConnectorMessage::parse_event(&body).unwrap();
    assert_eq!(
        m,
        ProcConnectorMessage::Event((
            3,
            99,
            ProcConnectorEvent::Command(CommandMessage { parent_pid: 5, parent_tgid: 6, comm: name }),
        ))
    );
}

#[test]
fn header_emit_keeps_the_rest_of_the_buffer() {
    let h = ConnectorMsgHeader { idx: 0x01020304, val: 5, seq: 6, ack: 7, len: 0x0809, flags: 0x0a0b };
    let mut buf = [0xeeu8; 22];
    h.emit(&mut buf);
    assert_eq!(&buf[0..4], &[4, 3, 2, 1]);
    assert_eq!(&buf[16..20], &[9, 8, 0x0b, 0x0a]);
    assert_eq!(&buf[20..22], &[0xee, 0xee]);
    assert_eq!(ConnectorMsgHeader::read(&buf), h);
}

#[test]
fn buffer_view_accessors() {
    let data = [1u8, 2, 3];
    let b = ConnectorBuffer::new_checked(&data[..]).unwrap();
    assert_eq!(b.length(), 3);
    assert_eq!(b.inner(), &data[..]);
    assert_eq!(ConnectorBuffer::new(&data[..]).length(), 3);
    let mut raw = [0u8; 4];
    {
        let mut w = ConnectorBuffer::new_mut(&mut raw[..]);
        w.inner_mut()[2] = 9;
    }
    assert_eq!(raw, [0, 0, 9, 0]);
}

#[test]
fn single_bodies_parse_and_reject_short_input() {
    assert_eq!(ProcAckMessage::parse(&[1, 0, 0, 0]), Ok(ProcAckMessage { err: 1 }));
    assert_eq!(ProcAckMessage::parse(&[1, 0, 0]), Err(DecodeError::Truncated));
    assert_eq!(ExecMessage::parse(&[1, 0, 0, 0, 2, 0, 0, 0, 9]), Ok(ExecMessage { pid: 1, tgid: 2 }));
    assert_eq!(SidMessage::parse(&[1, 0, 0, 0, 2, 0, 0]), Err(DecodeError::Truncated));
    assert_eq!(CommandMessage::parse(&[0u8; 23]), Err(DecodeError::Truncated));
}

#[test]
fn control_messages_do_not_decode_back() {
    for op in [ProcConnectorMessage::ProcMcastListen, ProcConnectorMessage::ProcMcastIgnore] {
        let m = ConnectorMessage {
            header: ConnectorMsgHeader { idx: CN_IDX_PROC, val: CN_VAL_PROC, seq: 0, ack: 0, len: 4, flags: 0 },
            payload: ConnectorMessagePayload::ProcConnector(op),
        };
        assert_eq!(decode(&encode(&m)), Err(DecodeError::Truncated));
    }
}
