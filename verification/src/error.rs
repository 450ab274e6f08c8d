//! The errors that end a run, and the reasons for which one file fails.

use vstd::prelude::*;

verus! {

/// Which of the two roots a path stands for.
#[derive(Clone, Copy, Debug, PartialEq, Eq, Structural)]
pub enum Root {
    /// The root of the music library.
    Library,
    /// The root under which purged files are backed up.
    Backup,
}

/// An error that ends the run before any file is processed.
#[derive(Clone, Debug, PartialEq, Eq)]
pub enum RunError {
    /// A root does not exist.
    PathNotFound { root: Root, path: String },
    /// The library cannot be listed.
    EnumerationError { path: String },
}

/// The reason for which one file could not be processed.
#[derive(Clone, Copy, Debug, PartialEq, Eq, Structural)]
pub enum FailureReason {
    /// A directory under the backup root could not be created.
    DirectoryCreateFailed,
    /// The file could not be copied under the backup root.
    CopyFailed,
    /// The file could not be removed from the library.
    DeleteFailed,
}

} // verus!
