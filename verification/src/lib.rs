//! Converts zip archives into newline-delimited JSON records.
//!
//! Each record carries one archive entry's bytes (base64-encoded) together
//! with its metadata: entry name, source archive name, byte count and a
//! normalized last-modified timestamp.  Size ceilings on the archive and on
//! each entry guarantee that no single oversized input can exhaust memory or
//! abort the stream: anything over a ceiling is skipped, never fatal.

pub mod bounded;
pub mod errors;
pub mod payload;
pub mod json;
pub mod pipeline;
pub mod record;
pub mod timestamp;
pub mod zip;
