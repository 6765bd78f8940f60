//! Boundary-safe handle registry: engines live inside the library and are
//! reached from outside only through decimal-encoded 64-bit handle ids.
pub mod codec;
pub mod dispatch;
pub mod error;
pub mod registry;
pub mod sync_args;
