//! Supervision core for an external, long-running VPN client subprocess:
//! the connect/disconnect/status state machine, the invocation grammar and
//! credential channel of the wrapped binary, the bounded success/failure
//! polling, and the one-shot final cleanup — each transition and payload
//! specified exactly and proved. A thin driver performs the actual process,
//! file and timer I/O and feeds its observations back as plain values.

pub mod config;
pub mod decimal;
pub mod invocation;
pub mod laws;
pub mod probe;
pub mod supervisor;
