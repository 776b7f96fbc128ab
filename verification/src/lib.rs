//! Relocation decision engine for a media library organizer.
//!
//! Media files are classified by a fixed extension set, given a destination
//! bucket of the form `root/year/month/day` derived from their embedded
//! capture timestamp (with a configurable day-wrap offset), and moved there
//! under a collision-safe move/skip/dedupe/trash policy. Every decision the
//! engine makes is a pure function with a proved contract; reading metadata,
//! walking directories and touching the filesystem are left to the caller.

pub mod classify;
pub mod config;
pub mod engine;
pub mod errors;
pub mod resolve;
pub mod text;
pub mod timestamp;
