//! Verified core of an UltraStar karaoke chart toolkit.
//!
//! The library parses chart files (a line-oriented note script with header
//! tags, notes, line breaks, duet player switches and an end sentinel) into
//! typed song records, and independently validates charts, collecting every
//! defect with line numbers instead of stopping at the first one.
//!
//! Everything that computes is specified and verified; reading files and
//! checking the filesystem for referenced assets is left to the surrounding
//! application, which hands the library plain values.

pub mod api;
pub mod classify;
pub mod config;
pub mod decimal;
pub mod indexer;
pub mod laws;
pub mod num;
pub mod parser;
pub mod paths;
pub mod range;
pub mod text;
pub mod types;
pub mod validator;
