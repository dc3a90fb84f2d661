//! An asynchronous I/O reactor core.
//!
//! The crate bridges readiness notifications from a non-blocking I/O
//! multiplexer into the suspend/resume polling model of a task executor.
//! It holds the decision logic of that bridge: the per-resource readiness
//! records, the reactor's event dispatch, the shutdown state machine of a
//! reactor that runs on a background thread, and the poll/attempt/clear
//! protocol that every non-blocking resource follows.

pub mod io;
pub mod task;
pub mod reactor;
pub mod uds;
