//! Log capture and remote archival subsystem.
//!
//! An embedded diagnostics core for a desktop shell: a bounded, FIFO-evicting
//! in-memory log store, a codec for log entries, an in-memory zip archive
//! builder for two named log streams, and a sequential fail-fast pipeline
//! that obtains an upload credential and ships the archive to a remote
//! object store.

pub mod archive;
pub mod clock;
pub mod credential;
pub mod entry;
pub mod lines;
pub mod params;
pub mod pipeline;
pub mod shared;
pub mod store;
pub mod timestamp;
