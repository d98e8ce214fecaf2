//! Core of a multi-room real-time chat server.
//!
//! Each room's live state is owned by a single actor; this crate holds that
//! actor's state machine and the decision logic around it: priority-multiplexed
//! scheduling, join-notify debouncing, the write-behind persistence batching,
//! the webhook retry policy, and the management-surface rules. All state
//! transitions are verified; the surrounding sockets, database and HTTP glue
//! live outside the library and drive it by plain values.

pub mod callback;
pub mod config;
pub mod db;
pub mod error;
pub mod handler;
pub mod ids;
pub mod models;
pub mod registry;
pub mod room;
pub mod sched;
pub mod sync;
pub mod sys;
pub mod userset;
