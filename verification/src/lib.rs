//! Core of an automated purchase-attempt orchestrator for time-gated ticket
//! sales: task submission and validation, a registry of task states, an
//! executor state machine with a bounded retry budget, and a notification
//! dispatcher that fans a result message out to independently configured
//! channels.
//!
//! Everything here is pure logic, verified by Verus. Network transports,
//! serialization and the user interface live outside this crate and drive
//! these functions with plain values.

pub mod dispatch;
pub mod executor;
pub mod mask;
pub mod push;
pub mod taskmanager;
pub mod text;
