//! Model of what the filesystem reports about a path and its entries.

use vstd::prelude::*;

verus! {

/// One filesystem entry of a directory listing, as reported by the OS:
/// its bare name, its absolute path, whether it is a regular file
/// (otherwise it is taken for a directory), and its modification time
/// in nanoseconds. Only equality of modification times ever matters.
#[derive(Debug)]
pub struct DirEntry {
    pub name: String,
    pub path: String,
    pub is_file: bool,
    pub mtime: u128,
}

/// What resolving a path yields: a directory together with its immediate
/// (one-level) listing, or a regular file.
#[derive(Debug)]
pub enum FileType {
    Dir(Vec<DirEntry>),
    File,
}

impl FileType {
    /// The directory listing, if this resolved to a directory.
    pub fn files(self) -> (r: Option<Vec<DirEntry>>)
        ensures
            match self {
                FileType::Dir(entries) => r == Some(entries),
                FileType::File => r is None,
            },
    {
        if let FileType::Dir(entries) = self {
            Some(entries)
        } else {
            None
        }
    }
}

} // verus!
