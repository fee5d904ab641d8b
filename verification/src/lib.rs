//! Logic of a small command-line client for a private torrent tracker.
//!
//! The crate holds everything the tool decides or computes: the
//! configuration format (serializing and parsing), the download URL,
//! cookie header and save path for a torrent, the selection of files
//! that a bulk clean removes, and the error model. Network, filesystem
//! and subprocess work stays with the caller, which hands plain values
//! in and takes plain values back.

pub mod config;
pub mod errors;
pub mod text;
pub mod torrent;
