//! Verified core of a TCP traffic observer.
//!
//! The library models the probe-to-consumer pipeline of a kernel tracing
//! tool: a correlation store pairing entry/return hooks of traced kernel
//! functions, the fixed-layout event record exchanged between kernel and
//! userspace, a byte-level codec for that record, a filter engine, and the
//! per-record formatting and delivery logic of the per-CPU pollers.

pub mod codec;
pub mod discovery;
pub mod event;
pub mod filter;
pub mod format;
pub mod pipeline;
pub mod probes;
pub mod store;

pub use event::TcpEvent;
pub use event::TrafficDirection;
