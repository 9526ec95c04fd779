//! Records of the module listing endpoints, reduced to the fields the
//! sync logic reads.

use vstd::prelude::*;

verus! {

/// One module of a course: a named, ordered container of items.
#[derive(Debug, Clone)]
pub struct ModuleResp {
    pub id: i64,
    pub name: String,
    pub position: i64,
}

/// One item of a module: its position and title, the indent depth at
/// which it is shown, its kind (`File`, `SubHeader`, `ExternalUrl`, ...),
/// and, depending on the kind, the id of the underlying file record or an
/// external URL.
#[derive(Debug, Clone)]
pub struct ModuleItemResp {
    pub id: i64,
    pub module_id: i64,
    pub position: i64,
    pub title: String,
    pub indent: i64,
    pub type_: String,
    pub content_id: Option<i64>,
    pub url: Option<String>,
}

} // verus!
