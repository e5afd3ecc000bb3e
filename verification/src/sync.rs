//! Coordination tools shared by the client and the surrogate server.

pub mod atomic;
pub mod shutdown;
