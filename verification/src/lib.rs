//! Decision and actuation rules of a price-driven heating manager.
//!
//! The crate holds the rules only: the threshold policy, the encoding of
//! device commands, the publishing session and the event-loop driver as state
//! machines. Network and database access belong to the program around it.

pub mod command;
pub mod driver;
pub mod handshake;
pub mod identity;
pub mod policy;
pub mod session;
pub mod settings;
