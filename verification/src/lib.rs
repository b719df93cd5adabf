//! Remote debugger adapter core.
//!
//! Bridges a running script virtual machine to an external debugger client
//! speaking a legacy length-prefixed binary protocol. This crate holds the
//! verified logic: the wire codec, the message-kind tables, the payload
//! reader, the session state and its handlers, and the two-phase packet
//! state machine. The embedding host supplies the transport (a nonblocking
//! TCP stream) and feeds the bytes it reads into [`debugger::RemoteDebuggerBackend::tick`].

pub mod backend;
pub mod buffer;
pub mod callstack;
pub mod debugger;
pub mod decimal;
pub mod laws;
pub mod message;
pub mod reader;
pub mod serialize;
pub mod swd;
