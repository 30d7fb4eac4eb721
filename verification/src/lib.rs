//! Notification housekeeping for a message service with four paginated feeds:
//! walking each feed to its end, merging the feeds into one collection keyed by
//! id, and deleting a chosen subset one call at a time.
//!
//! Nothing here performs I/O. Each piece of outside work is described by a value
//! (a [`wire::Request`], a [`worker::WorkerAction`]) that the caller carries out,
//! handing the outcome back as a [`wire::Reply`].

pub mod json;
pub mod notify;
pub mod page;
pub mod pager;
pub mod viewer;
pub mod wire;
pub mod worker;
