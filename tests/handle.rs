use proc_connector::constants::{CN_IDX_PROC, CN_VAL_PROC, NLMSG_DONE};
use proc_connector::handle::{
    kernel_mcast, Delivery, Error, ErrorMessage, Handle, InboundMessage, InboundPayload,
    NetlinkHeader, NetlinkMessage, SocketAddr, Subscription, TransportError,
};
use proc_connector::message::{
    ConnectorMessage, ConnectorMessagePayload, ConnectorMsgHeader, ProcConnectorMessage,
};

fn reply(payload: InboundPayload) -> InboundMessage {
    InboundMessage {
        header: NetlinkHeader { length: 36, message_type: 2, flags: 0, sequence_number: 1, port_number: 0 },
        payload,
    }
}

#[test]
fn enable_events_succeeds_without_a_reply() {
    let mut h = Handle::new();
    assert_eq!(h.subscription, Subscription::Uninitialized);
    let out = h.enable_events(4242);
    assert_eq!(h.subscription, Subscription::Pending);
    assert_eq!(out.delivery, Delivery::Notify);
    assert_eq!(out.destination, SocketAddr { port_number: 0, multicast_groups: 0 });
    assert_eq!(h.submitted(Ok(())), Ok(()));
    assert_eq!(h.subscription, Subscription::Subscribed);
}

#[test]
fn enable_events_builds_the_listen_message() {
    let mut h = Handle::new();
    let out = h.enable_events(77);
    let expected = ConnectorMessage {
        header: ConnectorMsgHeader { idx: CN_IDX_PROC, val: CN_VAL_PROC, seq: 0, ack: 0, len: 4, flags: 0 },
        payload: ConnectorMessagePayload::ProcConnector(ProcConnectorMessage::ProcMcastListen),
    };
    assert_eq!(out.message.payload, expected);
    assert_eq!(
        out.message.header,
        NetlinkHeader { length: 40, message_type: NLMSG_DONE, flags: 0, sequence_number: 0, port_number: 77 }
    );
}

#[test]
fn refused_subscription_is_request_failed() {
    let mut h = Handle::new();
    let _ = h.enable_events(1);
    assert_eq!(h.submitted(Err(TransportError)), Err(Error::RequestFailed));
    assert_eq!(h.subscription, Subscription::Uninitialized);
}

#[test]
fn request_goes_to_the_kernel() {
    let mut h = Handle::new();
    let m = ConnectorMessage {
        header: ConnectorMsgHeader { idx: 9, val: 9, seq: 1, ack: 0, len: 0, flags: 0 },
        payload: ConnectorMessagePayload::Other,
    };
    let framed = NetlinkMessage::from_connector(m);
    assert_eq!(framed.header.length, 36);
    assert_eq!(framed.header.message_type, NLMSG_DONE);
    let out = h.request(framed);
    assert_eq!(out.message, framed);
    assert_eq!(out.destination, kernel_mcast());
    assert_eq!(out.delivery, Delivery::Request);
    assert_eq!(h.subscription, Subscription::Uninitialized);
    assert_eq!(h.submitted(Ok(())), Ok(()));
    assert_eq!(h.subscription, Subscription::Uninitialized);
}

#[test]
fn kernel_error_reply_is_netlink_error() {
    let err = ErrorMessage { code: -13, header: vec![1, 2, 3, 4] };
    let r = Handle::acked_request(reply(InboundPayload::Error(err.clone())));
    assert_eq!(r, Err(Error::NetlinkError(err)));
}

#[test]
fn ack_reply_is_success() {
    assert_eq!(Handle::acked_request(reply(InboundPayload::Ack)), Ok(()));
}

#[test]
fn other_reply_is_unexpected_message() {
    let m = reply(InboundPayload::Other(vec![5, 6]));
    assert_eq!(Handle::acked_request(m.clone()), Err(Error::UnexpectedMessage(m)));
}
