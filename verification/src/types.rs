//! What the listing of a remote folder tells of one entry.

use vstd::prelude::*;

verus! {

/// One entry of a remote folder.
#[derive(Clone, Debug, PartialEq, Eq)]
pub struct GdriveFile {
    /// The entry's path below the folder that was listed.
    pub path: String,
    /// The entry's own name.
    pub name: String,
    /// Whether the entry is a folder.
    pub is_dir: bool,
    /// The entry's size in bytes, as the remote tells it.
    pub size: i64,
    /// The entry's media type.
    pub mime_type: String,
}

} // verus!
