//! Decision logic of a live-room popup service: popups shown during a live
//! stream, their display schedules, and impression/click statistics.
//!
//! The service stores everything in SQLite and answers over HTTP; this crate
//! holds the part that decides: which rows a request writes, how an update
//! merges into a stored row, which query a listing runs, and which reply each
//! outcome of a query is answered with.

pub mod models;
pub mod query;
pub mod reply;
pub mod stamps;
pub mod popup_handler;
pub mod schedule_handler;
pub mod stats_handler;
