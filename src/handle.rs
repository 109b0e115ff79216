//! The connection handle: what it sends to the kernel, and what the
//! transport's answers mean.
//!
//! The handle does no I/O itself. Each operation returns the framed message
//! and its destination; whoever owns the netlink socket sends it and hands the
//! outcome back to the handle.
//!
//! Two choices are made here on purpose: a subscription is sent from the
//! caller's process id as it is (not incremented), and it is a plain
//! notification that waits for no acknowledgement from the kernel.
use crate::constants::{CN_IDX_PROC, CN_VAL_PROC, NLMSG_DONE, PROC_CONTROL_LEN};
use crate::message::{
    ConnectorMessage, ConnectorMessagePayload, ConnectorMsgHeader, ProcConnectorMessage,
};
use crate::wire::lemma_le_encodings;
use vstd::prelude::*;

verus! {

/// Length of the generic netlink header.
pub const NETLINK_HEADER_LEN: u32 = 16;

/// A netlink address: a port and a set of multicast groups.
#[derive(Debug, Clone, Copy, PartialEq, Eq, Structural)]
pub struct SocketAddr {
    pub port_number: u32,
    pub multicast_groups: u32,
}

/// The kernel's connector address: port 0, group 0.
pub open spec fn spec_kernel_mcast() -> SocketAddr {
    SocketAddr { port_number: 0, multicast_groups: 0 }
}

/// The kernel's connector address, where requests and subscriptions go.
pub fn kernel_mcast() -> (r: SocketAddr)
    ensures
        r == spec_kernel_mcast(),
{
    SocketAddr { port_number: 0, multicast_groups: 0 }
}

/// The fields of the generic netlink header that this protocol sets.
#[derive(Debug, Clone, Copy, PartialEq, Eq, Structural, Default)]
pub struct NetlinkHeader {
    pub length: u32,
    pub message_type: u16,
    pub flags: u16,
    pub sequence_number: u32,
    pub port_number: u32,
}

/// A connector message framed for generic netlink.
#[derive(Debug, Clone, Copy, PartialEq, Eq)]
pub struct NetlinkMessage {
    pub header: NetlinkHeader,
    pub payload: ConnectorMessage,
}

impl NetlinkMessage {
    /// Frames `message`: the length and type follow from it; flags, sequence
    /// number and port are left zero for the caller to set.
    pub fn from_connector(message: ConnectorMessage) -> (r: NetlinkMessage)
        ensures
            r.payload == message,
            r.header == (NetlinkHeader {
                length: (NETLINK_HEADER_LEN + message.spec_bytes().len()) as u32,
                message_type: NLMSG_DONE,
                flags: 0,
                sequence_number: 0,
                port_number: 0,
            }),
    {
        proof {
            message.payload_len_bound();
        }
        let n = message.buffer_len();
        let header = NetlinkHeader {
            length: NETLINK_HEADER_LEN + n as u32,
            message_type: message.message_type(),
            flags: 0,
            sequence_number: 0,
            port_number: 0,
        };
        NetlinkMessage { header, payload: message }
    }
}

/// How the transport should send a message.
#[derive(Debug, Clone, Copy, PartialEq, Eq, Structural)]
pub enum Delivery {
    /// Send, and pass on every reply that correlates with it.
    Request,
    /// Send without waiting for any reply.
    Notify,
}

/// A message for the transport to send, with its destination.
#[derive(Debug, Clone, Copy, PartialEq, Eq)]
pub struct Outbound {
    pub message: NetlinkMessage,
    pub destination: SocketAddr,
    pub delivery: Delivery,
}

/// The transport refused to send a message (the socket was closed, its buffer
/// was full).
#[derive(Debug, Clone, Copy, PartialEq, Eq, Structural)]
pub struct TransportError;

/// An error that the kernel reported: its code and the header of the message
/// it refers to.
#[derive(Debug, Clone, PartialEq, Eq)]
pub struct ErrorMessage {
    pub code: i32,
    pub header: Vec<u8>,
}

/// What a reply from the kernel carries, at the generic netlink level.
#[derive(Debug, Clone, PartialEq, Eq)]
pub enum InboundPayload {
    Ack,
    Error(ErrorMessage),
    Other(Vec<u8>),
}

/// A reply from the kernel.
#[derive(Debug, Clone, PartialEq, Eq)]
pub struct InboundMessage {
    pub header: NetlinkHeader,
    pub payload: InboundPayload,
}

/// Why an operation of the handle failed.
#[derive(Debug, Clone, PartialEq, Eq)]
pub enum Error {
    /// The transport did not send the message.
    RequestFailed,
    /// The kernel answered with an error.
    NetlinkError(ErrorMessage),
    /// The kernel answered with something other than an acknowledgement.
    UnexpectedMessage(InboundMessage),
}

/// Where a handle stands with the kernel's process events.
#[derive(Debug, Clone, Copy, PartialEq, Eq, Structural)]
pub enum Subscription {
    Uninitialized,
    /// The subscription was handed to the transport; its outcome is not known.
    Pending,
    Subscribed,
}

/// The subscription message: listen, under the process connector's index.
pub open spec fn spec_listen_message() -> ConnectorMessage {
    ConnectorMessage {
        header: ConnectorMsgHeader {
            idx: CN_IDX_PROC,
            val: CN_VAL_PROC,
            seq: 0,
            ack: 0,
            len: PROC_CONTROL_LEN as u16,
            flags: 0,
        },
        payload: ConnectorMessagePayload::ProcConnector(ProcConnectorMessage::ProcMcastListen),
    }
}

/// A handle to a netlink connection that carries connector messages.
#[derive(Debug, Clone, Copy, PartialEq, Eq, Structural)]
pub struct Handle {
    pub subscription: Subscription,
}

impl Handle {
    /// A handle that has not subscribed yet.
    pub fn new() -> (r: Handle)
        ensures
            r.subscription == Subscription::Uninitialized,
    {
        Handle { subscription: Subscription::Uninitialized }
    }

    /// Sends `message` to the kernel; the transport passes on every reply.
    pub fn request(&mut self, message: NetlinkMessage) -> (r: Outbound)
        ensures
            r == (Outbound {
                message,
                destination: spec_kernel_mcast(),
                delivery: Delivery::Request,
            }),
            *final(self) == *old(self),
    {
        Outbound { message, destination: kernel_mcast(), delivery: Delivery::Request }
    }

    /// Subscribes to the process events: a listen message from `pid`, with
    /// sequence number and flags zero, sent as a notification. The handle then
    /// waits for the transport's outcome.
    pub fn enable_events(&mut self, pid: u32) -> (r: Outbound)
        ensures
            r.message.payload == spec_listen_message(),
            r.message.header == (NetlinkHeader {
                length: (NETLINK_HEADER_LEN + spec_listen_message().spec_bytes().len()) as u32,
                message_type: NLMSG_DONE,
                flags: 0,
                sequence_number: 0,
                port_number: pid,
            }),
            r.destination == spec_kernel_mcast(),
            r.delivery == Delivery::Notify,
            final(self).subscription == Subscription::Pending,
    {
        proof {
            lemma_le_encodings();
        }
        let inner_payload = ProcConnectorMessage::ProcMcastListen;
        let len = inner_payload.buffer_len() as u16;
        let msg = ConnectorMessage {
            header: ConnectorMsgHeader {
                idx: CN_IDX_PROC,
                val: CN_VAL_PROC,
                seq: 0,
                ack: 0,
                len,
                flags: 0,
            },
            payload: ConnectorMessagePayload::ProcConnector(inner_payload),
        };
        let mut req = NetlinkMessage::from_connector(msg);
        req.header.sequence_number = 0;
        req.header.flags = 0;
        req.header.port_number = pid;
        self.subscription = Subscription::Pending;
        Outbound { message: req, destination: kernel_mcast(), delivery: Delivery::Notify }
    }

    /// Takes the transport's outcome for the last message handed out. A
    /// refusal is `RequestFailed`. A pending subscription becomes subscribed
    /// once sent, and uninitialized again if refused; no reply is awaited.
    pub fn submitted(&mut self, outcome: Result<(), TransportError>) -> (r: Result<(), Error>)
        ensures
            outcome is Ok ==> r is Ok,
            outcome is Err ==> r == Err::<(), Error>(Error::RequestFailed),
            final(self).subscription == (if old(self).subscription != Subscription::Pending {
                old(self).subscription
            } else if outcome is Ok {
                Subscription::Subscribed
            } else {
                Subscription::Uninitialized
            }),
    {
        let pending = match self.subscription {
            Subscription::Pending => true,
            _ => false,
        };
        match outcome {
            Ok(()) => {
                if pending {
                    self.subscription = Subscription::Subscribed;
                }
                Ok(())
            },
            Err(_) => {
                if pending {
                    self.subscription = Subscription::Uninitialized;
                }
                Err(Error::RequestFailed)
            },
        }
    }

    /// Resolves a request that expects one acknowledgement from the first
    /// reply: an acknowledgement is success, a kernel error is `NetlinkError`
    /// with that error, anything else is `UnexpectedMessage` with the reply.
    pub fn acked_request(reply: InboundMessage) -> (r: Result<(), Error>)
        ensures
            r == (match reply.payload {
                InboundPayload::Ack => Ok(()),
                InboundPayload::Error(e) => Err(Error::NetlinkError(e)),
                InboundPayload::Other(_) => Err(Error::UnexpectedMessage(reply)),
            }),
    {
        match reply.payload {
            InboundPayload::Ack => Ok(()),
            InboundPayload::Error(e) => Err(Error::NetlinkError(e)),
            InboundPayload::Other(bytes) => Err(
                Error::UnexpectedMessage(
                    InboundMessage { header: reply.header, payload: InboundPayload::Other(bytes) },
                ),
            ),
        }
    }
}

} // verus!
