//! A contract module whose single query asks its target to run the very same
//! query against itself, producing an unbounded chain of cross-module calls
//! that the host must cut off.
pub mod host;
pub mod msg;
pub mod probe;
pub mod response;
pub mod contract;
