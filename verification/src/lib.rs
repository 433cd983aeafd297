//! Lifecycle control for a local intercepting proxy: the edits to the static
//! name-resolution table that switch redirection of one hostname on and off,
//! and the state machine that supervises the proxy process.

pub mod hosts;
pub mod hosts_laws;
pub mod lifecycle;
pub mod lifecycle_laws;
pub mod lines;
pub mod report;
pub mod supervisor;
pub mod text;
pub mod wire;
