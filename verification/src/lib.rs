//! The boundary between a host program and a reference-counted native
//! object system: who owns a handle, which closure a native event reaches,
//! and how values cross in each direction.

pub mod error;
pub mod ownership;
pub mod property;
pub mod signal;
pub mod thread_guard;
pub mod translate;
pub mod value;
