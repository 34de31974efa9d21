//! A verified event loop for a terminal wallet client.
//!
//! The loop multiplexes two event sources — asynchronous wallet updates from
//! a background sync process, and line-oriented operator commands — mutating
//! an in-memory wallet model and keeping a durable store in step with it.
//! All I/O lives outside this crate; the logic here decides, for every event,
//! how the state changes and which external action must follow.

pub mod command;
pub mod event_loop;
pub mod laws;
pub mod storage;
pub mod wallet;
