//! Client-side TLS stream adapter: a connection state machine, the polling
//! decisions of the read/write/flush/shutdown paths, and the early-data
//! (0-RTT) controller, each with a verified contract. Transport I/O is left
//! to the caller, which drives the state machine one non-blocking step at a
//! time.

pub mod early;
pub mod laws;
pub mod session;
pub mod state;
pub mod stream;
