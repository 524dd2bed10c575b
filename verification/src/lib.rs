//! An input-event layer between a platform window callback and application
//! code: raw key/pointer notifications become a queryable keyboard state
//! machine and a pointer state machine, each with bounded event queues.

pub mod error;
pub mod keyboard;
pub mod mouse;
pub mod notification;
