//! Lifecycle and control-plane dispatch for an HTTP stub server.
//!
//! The library holds the logic: path normalisation, request routing and the
//! replies of the control plane, the stub message model, and the decisions of
//! the server lifecycle. Binding sockets and running threads is left to the
//! caller.

pub mod path;
pub mod router;
pub mod lifecycle;
pub mod stub;
