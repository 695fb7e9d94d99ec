//! A verified core for a command-line client of a hosted task service.
//!
//! The crate covers the pieces whose behaviour is worth pinning down
//! exactly: capturing an OAuth authorization redirect (query-string
//! parsing and anti-forgery state validation), the access-token record
//! and its on-disk codec with expiry checking, and the due-date
//! time-frame filter over fetched projects and tasks.  Network and file
//! plumbing stays outside, driven through small step/event interfaces.

pub mod auth;
pub mod data;
pub mod errors;
pub mod filter;
pub mod query;
pub mod text;
pub mod timeframe;
pub mod token_store;
