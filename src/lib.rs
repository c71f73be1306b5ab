//! Persistence logic for a desktop to-do list: the stored to-do list with its
//! read-time backfill of creation timestamps, and the saved window geometry.
//!
//! The functions here decide what a read returns from what was found in the
//! backing file; locating, reading, decoding and writing the files is left to
//! the host application.

pub mod error;
pub mod todos;
pub mod window_state;
