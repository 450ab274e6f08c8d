//! Purging a music library of files that are not music.
//!
//! The library classifies the entries of a music library as kept (music,
//! and by choice other audio, documents and folder-level album art) or as
//! purged (everything else), and decides for each purged file, one file
//! system action at a time, how it is simulated, removed, or copied under a
//! backup root and then removed. It touches no file itself: the caller lists
//! the library, performs each action and reports back whether it succeeded.

pub mod catalog;
pub mod classify;
pub mod entry;
pub mod error;
pub mod executor;
pub mod filters;
pub mod paths;
pub mod report;
pub mod text;
