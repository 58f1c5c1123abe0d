//! Filesystem-style operations over flat object-storage key spaces.
//!
//! The crate holds the decision logic of a storage tool: how keys are
//! normalised and joined, how a source tree maps onto a destination, how a
//! chunked transfer advances, how transfers are run side by side within
//! bounds, how a bulk deletion aggregates failures, and how sizes and listings
//! are rendered. Every function carries a contract that is checked by Verus.
//! Talking to a backend is left to the caller, which performs the actions the
//! library asks for and reports back what happened.

pub mod cat;
pub mod cli;
pub mod config;
pub mod confirm;
pub mod constants;
pub mod copy;
pub mod delete;
pub mod download;
pub mod entry;
pub mod error;
pub mod list;
pub mod mkdir;
pub mod path;
pub mod progress;
pub mod resolve;
pub mod schedule;
pub mod size;
pub mod stat;
pub mod storage;
pub mod text;
pub mod transfer;
pub mod upload;
pub mod usage;
