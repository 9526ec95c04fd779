//! Records of the folder and file listing endpoints, reduced to the
//! fields the sync logic reads.

use vstd::prelude::*;

verus! {

/// One folder of a course: its id, display name and optional parent.
/// The full set of a course's folders forms a forest.
#[derive(Debug, Clone)]
pub struct FolderResp {
    pub id: i64,
    pub name: String,
    pub parent_folder_id: Option<i64>,
}

/// One remote file record: identity, verifier token for URL synthesis,
/// the folder it sits in, display name, direct download URL (possibly
/// empty), byte size and timestamps.
#[derive(Debug, Clone)]
pub struct FileResp {
    pub id: i64,
    pub uuid: String,
    pub folder_id: i64,
    pub display_name: String,
    pub url: String,
    pub size: i64,
    pub created_at: String,
    pub updated_at: String,
    pub modified_at: String,
}

} // verus!
