//! What the whole node shares.
pub mod constants;
