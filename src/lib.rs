//! Codec and subscription protocol for the Linux process event connector.
//!
//! `buffer` decodes connector messages from bytes, `message` and `event`
//! encode them, `laws` states how the two relate, and `handle` holds the
//! decisions of a connection handle that subscribes to the kernel's events.
pub mod buffer;
pub mod constants;
pub mod error;
pub mod event;
pub mod handle;
pub mod laws;
pub mod message;
pub mod wire;
