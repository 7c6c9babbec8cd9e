//! The failures a synchronization run can end with. The first one aborts the
//! whole run; there is no partial-failure collection.

use vstd::prelude::*;
use vstd::string::StringExecFns;

verus! {

/// Why a synchronization run stopped.
#[derive(Clone, Copy, Debug, PartialEq, Eq, Structural)]
pub enum SyncError {
    /// A path resolved without permission to create it does not exist.
    PathNotFound,
    /// The destination directory or one of its ancestors could not be created.
    DirectoryCreateFailed,
    /// The resolved destination is a regular file, not a directory.
    DestinationNotDirectory,
    /// Copying a file's bytes failed.
    CopyFailed,
}

impl SyncError {
    /// A diagnostic line for the error stream.
    pub fn message(&self) -> (r: String)
        ensures
            match self {
                SyncError::PathNotFound => r@ == "path does not exist"@,
                SyncError::DirectoryCreateFailed => r@ == "error creating folder"@,
                SyncError::DestinationNotDirectory => r@ == "destination must be a directory"@,
                SyncError::CopyFailed => r@ == "error copying file"@,
            },
    {
        match self {
            SyncError::PathNotFound => String::from_str("path does not exist"),
            SyncError::DirectoryCreateFailed => String::from_str("error creating folder"),
            SyncError::DestinationNotDirectory => String::from_str("destination must be a directory"),
            SyncError::CopyFailed => String::from_str("error copying file"),
        }
    }
}

} // verus!
