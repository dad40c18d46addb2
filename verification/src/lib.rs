//! Resolution of synchronized lyrics for a song title and artist.
//!
//! The library holds the pipeline's logic, verified end to end: query
//! deduplication, source fallthrough over a file cache, a local database and
//! a remote search-and-lyric service, malformed-timestamp repair, blank-line
//! suppression, and a per-title timing correction. Callers perform the I/O
//! the resolver asks for and hand each reply back to the matching step
//! function.

pub mod db;
pub mod lines;
pub mod parse;
pub mod query;
pub mod repair;
pub mod search;
pub mod text;
