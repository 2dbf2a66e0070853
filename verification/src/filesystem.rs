//! What is known of an open file.

use vstd::prelude::*;

verus! {

/// Which file a path led to.
#[derive(Clone, Copy, Debug, PartialEq, Eq, Structural)]
pub struct FileId {
    /// The device that holds the file.
    pub dev: u64,
    /// The file's number on that device.
    pub ino: u64,
}

/// One of the two files of a database.
pub struct FileState {
    /// The path under which the file was opened.
    pub path: String,
    /// The file itself.
    pub id: FileId,
    /// The length of the file, as far as executed operations have changed it.
    pub size: u64,
}

} // verus!
