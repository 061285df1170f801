//! Persistence shim for a graph editor's node-layout blob.
//!
//! The store keeps one opaque text blob in a fixed file under the
//! platform's per-user local data directory. It resolves that location,
//! creates the app's subfolder when missing, and overwrites or reads the
//! file whole. A missing file on read is not an error: it stands for
//! "no data yet" and loads as the empty string.

pub mod error;
pub mod laws;
pub mod location;
pub mod store;
