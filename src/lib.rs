//! A command bridge: a fixed set of named host operations that an untrusted
//! front-end may invoke, with argument validation, a startup-built registry,
//! and structured errors that become plain strings only at the boundary.

pub mod args;
pub mod dispatch;
pub mod error;
pub mod host;
pub mod registry;
