//! Synchronized viewing of a collection of manga: several viewers browse the
//! same pages in lockstep, and the shared position moves one step only when
//! every connected viewer has voted for the same direction.
//!
//! The library decides; it performs no input or output. A server around it
//! owns the sockets and queues, hands in what arrives, and sends out what
//! comes back.

pub mod broadcast;
pub mod collection;
pub mod consensus;
pub mod decimal;
pub mod laws;
pub mod navigation;
pub mod page;
pub mod resolver;
pub mod session;
pub mod snapshot;
pub mod state;
pub mod system;
pub mod types;
pub mod viewer;
