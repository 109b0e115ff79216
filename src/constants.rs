//! Protocol constants of the process event connector.
use vstd::prelude::*;

verus! {

/// Connector index of the process events source.
pub const CN_IDX_PROC: u32 = 1;
/// Connector value of the process events source.
pub const CN_VAL_PROC: u32 = 1;

/// Control operation: start receiving process events.
pub const PROC_CN_MCAST_LISTEN: u32 = 1;
/// Control operation: stop receiving process events.
pub const PROC_CN_MCAST_IGNORE: u32 = 2;

/// Event kinds, as the `what` field of a process event carries them.
pub const PROC_EVENT_NONE: u32 = 0;
pub const PROC_EVENT_FORK: u32 = 1;
pub const PROC_EVENT_EXEC: u32 = 2;
pub const PROC_EVENT_UID: u32 = 4;
pub const PROC_EVENT_GID: u32 = 0x40;
pub const PROC_EVENT_SID: u32 = 0x80;
pub const PROC_EVENT_PTRACE: u32 = 0x100;
pub const PROC_EVENT_COMM: u32 = 0x200;
pub const PROC_EVENT_COREDUMP: u32 = 0x40000000;
pub const PROC_EVENT_EXIT: u32 = 0x80000000;

/// Generic netlink message type under which connector messages travel.
pub const NLMSG_DONE: u16 = 3;

/// Length of the connector header.
pub const CONNECTOR_HEADER_LEN: usize = 20;
/// Length of a control operation (listen or ignore).
pub const PROC_CONTROL_LEN: usize = 4;
/// Length of the part of a process event before its kind-specific body:
/// kind, cpu and timestamp.
pub const PROC_EVENT_HEADER_LEN: usize = 16;
/// Length of the kernel's command name field.
pub const TASK_COMM_LEN: usize = 16;

} // verus!
