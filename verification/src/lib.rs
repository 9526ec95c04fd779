//! Mirrors a remote course content tree onto a local filesystem.
//!
//! The library holds the logic of the sync tool: the paginated listing
//! cursor, the link-header parser, the download-engine state, and the two
//! sync planners with their path resolution and skip rules. The binary
//! around it performs the HTTP requests, the filesystem writes and the
//! worker concurrency, feeding their outcomes back into these functions.

use std::collections::HashMap;
use vstd::prelude::*;

use crate::canvas_api::files::{FileResp, FolderResp};
use crate::path::{sanitize_file_name, spec_sanitize};

pub mod canvas_api;
pub mod download;
pub mod path;
pub mod sync;

verus! {

broadcast use vstd::std_specs::hash::group_hash_axioms;

/// One remote file on its way to disk: the logical folder path it will
/// live under, its display name, remote byte size, timestamps and
/// download URL.
#[derive(Debug)]
pub struct File {
    pub folder_path: Vec<String>,
    pub file_name: String,
    pub size: i64,
    pub created_at: String,
    pub updated_at: String,
    pub modified_at: String,
    pub url: String,
}

/// Each name of a sequence, sanitized.
pub open spec fn spec_sanitize_all(names: Seq<Seq<char>>) -> Seq<Seq<char>> {
    Seq::new(names.len(), |i: int| spec_sanitize(names[i]))
}

/// The folder a record points at next: its parent, or 0 at a root.
pub open spec fn spec_parent(f: FolderResp) -> i64 {
    match f.parent_folder_id {
        Some(p) => p,
        None => 0,
    }
}

/// The chain of folder names from `id` upward, leaf first. The walk stops
/// at a root (id 0), at an id the map does not hold (that folder's
/// listing failed; the file then gets an incomplete prefix rather than
/// failing the run), or when the fuel runs out (which cuts a cycle in
/// inconsistent remote data).
pub open spec fn spec_folder_chain(m: Map<i64, FolderResp>, id: i64, fuel: nat) -> Seq<Seq<char>>
    decreases fuel,
{
    if fuel == 0 || id == 0 || !m.contains_key(id) {
        Seq::empty()
    } else {
        seq![m[id].name@] + spec_folder_chain(m, spec_parent(m[id]), (fuel - 1) as nat)
    }
}

impl File {
    /// Each folder path segment with its reserved characters replaced.
    pub open spec fn spec_sanitized_folder_path(self) -> Seq<Seq<char>> {
        spec_sanitize_all(self.folder_path.deep_view())
    }

    /// The relative local path of this file: the sanitized folder
    /// segments followed by the sanitized file name.
    pub open spec fn spec_local_path(self) -> Seq<Seq<char>> {
        self.spec_sanitized_folder_path().push(spec_sanitize(self.file_name@))
    }

    /// The skip rule: a local copy counts as up to date exactly when it
    /// exists and its byte length equals the remote size. Nothing else —
    /// not content, not timestamps — is compared.
    pub open spec fn spec_matches(self, local_len: Option<u64>) -> bool {
        match local_len {
            Some(n) => self.size >= 0 && n == self.size as u64,
            None => false,
        }
    }

    /// A fresh `File` from a listing record: the record's name, size,
    /// timestamps and URL, with no folder path resolved yet.
    pub fn from_resp(value: FileResp) -> (f: File)
        ensures
            f.folder_path@.len() == 0,
            f.file_name == value.display_name,
            f.size == value.size,
            f.created_at == value.created_at,
            f.updated_at == value.updated_at,
            f.modified_at == value.modified_at,
            f.url == value.url,
    {
        File {
            folder_path: Vec::new(),
            file_name: value.display_name,
            size: value.size,
            created_at: value.created_at,
            updated_at: value.updated_at,
            modified_at: value.modified_at,
            url: value.url,
        }
    }

    /// Resolves the logical folder path of this file: the names of the
    /// folders from `folder_id` up to the root, in root-first order.
    pub fn set_folder_path(&mut self, folder_map: &HashMap<i64, FolderResp>, folder_id: i64)
        ensures
            final(self).folder_path.deep_view() == spec_folder_chain(
                folder_map@,
                folder_id,
                folder_map@.len(),
            ).reverse(),
            final(self).file_name == old(self).file_name,
            final(self).size == old(self).size,
            final(self).created_at == old(self).created_at,
            final(self).updated_at == old(self).updated_at,
            final(self).modified_at == old(self).modified_at,
            final(self).url == old(self).url,
    {
        let total = folder_map.len();
        let ghost m = folder_map@;
        let mut chain: Vec<String> = Vec::new();
        let mut cur: i64 = folder_id;
        let mut steps: usize = 0;
        while cur != 0 && steps < total && folder_map.contains_key(&cur)
            invariant
                total == m.len(),
                m == folder_map@,
                steps <= total,
                spec_folder_chain(m, folder_id, total as nat) == chain.deep_view()
                    + spec_folder_chain(m, cur, (total - steps) as nat),
            decreases total - steps,
        {
            let folder = match folder_map.get(&cur) {
                Some(f) => f,
                None => vstd::pervasive::unreached(),
            };
            chain.push(folder.name.clone());
            cur = match folder.parent_folder_id {
                Some(p) => p,
                None => 0,
            };
            steps = steps + 1;
            proof {
                assert(spec_folder_chain(m, folder_id, total as nat) =~~= chain.deep_view()
                    + spec_folder_chain(m, cur, (total - steps) as nat));
            }
        }
        proof {
            assert(spec_folder_chain(m, folder_id, total as nat) =~~= chain.deep_view());
        }
        self.folder_path.clear();
        let ghost chain0 = chain.deep_view();
        while chain.len() > 0
            invariant
                chain@.len() <= chain0.len(),
                self.folder_path.deep_view() + chain.deep_view().reverse() == chain0.reverse(),
                chain.deep_view() == chain0.subrange(0, chain@.len() as int),
                self.file_name == old(self).file_name,
                self.size == old(self).size,
                self.created_at == old(self).created_at,
                self.updated_at == old(self).updated_at,
                self.modified_at == old(self).modified_at,
                self.url == old(self).url,
            decreases chain.len(),
        {
            match chain.pop() {
                Some(x) => {
                    self.folder_path.push(x);
                },
                None => {},
            }
            proof {
                assert(self.folder_path.deep_view() + chain.deep_view().reverse()
                    =~~= chain0.reverse());
                assert(chain.deep_view() =~~= chain0.subrange(0, chain@.len() as int));
            }
        }
        proof {
            assert(self.folder_path.deep_view() =~~= chain0.reverse());
        }
    }

    /// Whether the local copy described by `local_len` (its byte length,
    /// or `None` when no file exists there) already matches this file
    /// under the skip rule.
    pub fn local_file_matches(&self, local_len: Option<u64>) -> (r: bool)
        ensures
            r == self.spec_matches(local_len),
    {
        match local_len {
            Some(n) => self.size >= 0 && n == self.size as u64,
            None => false,
        }
    }

    /// The download this file asks for: its URL, aimed at its local
    /// path.
    pub fn into_task(self) -> (t: crate::download::DownloadTask)
        ensures
            t.url == self.url,
            t.path.deep_view() == self.spec_local_path(),
    {
        let path = self.local_path();
        crate::download::DownloadTask { url: self.url, path }
    }

    /// The relative local path of this file, as sanitized segments.
    pub fn local_path(&self) -> (r: Vec<String>)
        ensures
            r.deep_view() == self.spec_local_path(),
    {
        let mut path = self.sanitized_folder_path();
        path.push(self.sanitized_file_name());
        proof {
            assert(path.deep_view() =~~= self.spec_local_path());
        }
        path
    }

    /// The folder path segments, each sanitized.
    pub fn sanitized_folder_path(&self) -> (r: Vec<String>)
        ensures
            r.deep_view() == self.spec_sanitized_folder_path(),
    {
        let mut out: Vec<String> = Vec::new();
        let n = self.folder_path.len();
        let mut i: usize = 0;
        while i < n
            invariant
                i <= n,
                n == self.folder_path@.len(),
                out@.len() == i,
                forall|j: int| 0 <= j < i ==> out@[j]@ == spec_sanitize(self.folder_path@[j]@),
            decreases n - i,
        {
            out.push(sanitize_file_name(self.folder_path[i].as_str()));
            i = i + 1;
        }
        proof {
            assert(forall|j: int| 0 <= j < n ==> out.deep_view()[j] == out@[j]@);
            assert(forall|j: int|
                0 <= j < n ==> self.folder_path.deep_view()[j] == self.folder_path@[j]@);
            assert(out.deep_view() =~~= self.spec_sanitized_folder_path());
        }
        out
    }

    /// The file name with its reserved characters replaced.
    pub fn sanitized_file_name(&self) -> (r: String)
        ensures
            r@ == spec_sanitize(self.file_name@),
    {
        sanitize_file_name(self.file_name.as_str())
    }
}

} // verus!
