//! The sync planners: the nesting stack of module sub-headings, the
//! folder map, URL synthesis, path resolution and the skip rule.
//!
//! The functions here take the decoded remote records and the observed
//! state of the local filesystem as plain values, and decide what to do:
//! which download to submit, which shortcut file to write, which item to
//! skip. The binary drives the listings and performs what is decided.

use std::collections::HashMap;
use vstd::prelude::*;

use crate::File;
use crate::canvas_api::files::{FileResp, FolderResp};
use crate::canvas_api::modules::ModuleItemResp;
use crate::canvas_api::{build_url, i64_dec_string, spec_build_url, spec_i64_dec};
use crate::download::DownloadTask;
use crate::path::{sanitize_file_name, spec_sanitize};
use crate::spec_folder_chain;

verus! {

broadcast use vstd::std_specs::hash::group_hash_axioms;

/// What one sync run works on: the course and the destination root,
/// given as path segments.
pub struct SyncConfig {
    pub courseid: i64,
    pub path: Vec<String>,
}

/// Depths strictly increase from the bottom of the stack to the top:
/// the stack holds one active ancestor chain of sub-headings.
pub open spec fn spec_depths_increasing(s: Seq<(i64, String)>) -> bool {
    forall|i: int, j: int| 0 <= i < j < s.len() ==> s[i].0 < s[j].0
}

/// The stack after every entry at depth `indent` or deeper is removed:
/// entries leave from the top until one shallower than `indent` remains.
pub open spec fn spec_keep_below(s: Seq<(i64, String)>, indent: i64) -> Seq<(i64, String)>
    decreases s.len(),
{
    if s.len() == 0 {
        s
    } else if s.last().0 < indent {
        s
    } else {
        spec_keep_below(s.drop_last(), indent)
    }
}

/// The titles of the stack entries, bottom first.
pub open spec fn spec_titles(s: Seq<(i64, String)>) -> Seq<String> {
    Seq::new(s.len(), |i: int| s[i].1)
}

/// The active chain of module sub-headings while a module's items are
/// walked in position order: `(depth, title)` pairs with strictly
/// increasing depths. The current titles, bottom first, are the path
/// segments under the module's folder for any file met after them.
pub struct IndentStack {
    stack: Vec<(i64, String)>,
}

impl IndentStack {
    /// The entries, bottom first.
    pub closed spec fn spec_entries(self) -> Seq<(i64, String)> {
        self.stack@
    }

    /// The stack only ever holds an ancestor chain: strictly increasing
    /// depths.
    pub open spec fn wf(self) -> bool {
        spec_depths_increasing(self.spec_entries())
    }

    /// An empty stack.
    pub fn new() -> (s: Self)
        ensures
            s.spec_entries().len() == 0,
            s.wf(),
    {
        IndentStack { stack: Vec::new() }
    }

    /// Enters a heading: removes every entry at depth `indent` or deeper,
    /// then pushes `(indent, item)` on top.
    pub fn add(&mut self, indent: i64, item: String)
        requires
            old(self).wf(),
        ensures
            final(self).spec_entries() == spec_keep_below(old(self).spec_entries(), indent).push(
                (indent, item),
            ),
            final(self).wf(),
    {
        let ghost s0 = self.stack@;
        while self.stack.len() > 0 && self.stack[self.stack.len() - 1].0 >= indent
            invariant
                spec_depths_increasing(s0),
                self.stack@.len() <= s0.len(),
                self.stack@ == s0.subrange(0, self.stack@.len() as int),
                spec_keep_below(s0, indent) == spec_keep_below(self.stack@, indent),
            decreases self.stack.len(),
        {
            self.stack.pop();
            proof {
                assert(self.stack@ =~= s0.subrange(0, self.stack@.len() as int));
            }
        }
        proof {
            assert(spec_keep_below(self.stack@, indent) == self.stack@);
        }
        self.stack.push((indent, item));
    }

    /// The titles currently on the stack, bottom first.
    pub fn get(&self) -> (r: Vec<String>)
        ensures
            r@ == spec_titles(self.spec_entries()),
    {
        let mut out: Vec<String> = Vec::new();
        let n = self.stack.len();
        let mut i: usize = 0;
        while i < n
            invariant
                i <= n,
                n == self.stack@.len(),
                out@ == spec_titles(self.stack@).subrange(0, i as int),
            decreases n - i,
        {
            out.push(self.stack[i].1.clone());
            i = i + 1;
            proof {
                assert(out@ =~= spec_titles(self.stack@).subrange(0, i as int));
            }
        }
        proof {
            assert(out@ =~= spec_titles(self.stack@));
        }
        out
    }
}

/// Entering a heading removes exactly the entries at its depth or
/// deeper: on a well-formed stack, what remains below the new entry are
/// precisely the old entries of strictly shallower depth.
pub proof fn lemma_add_prunes_deeper(s: Seq<(i64, String)>, indent: i64)
    requires
        spec_depths_increasing(s),
    ensures
        spec_keep_below(s, indent) == s.filter(|p: (i64, String)| p.0 < indent),
    decreases s.len(),
{
    reveal(Seq::filter);
    if s.len() == 0 {
        assert(s.filter(|p: (i64, String)| p.0 < indent) =~= s);
    } else if s.last().0 < indent {
        assert(spec_depths_increasing(s.drop_last()));
        lemma_add_prunes_deeper(s.drop_last(), indent);
        assert(forall|i: int| 0 <= i < s.len() - 1 ==> s.drop_last()[i].0 < indent);
        assert(s.drop_last().filter(|p: (i64, String)| p.0 < indent) =~= spec_keep_below(
            s.drop_last(),
            indent,
        ));
        lemma_keep_all(s.drop_last(), indent);
        assert(s.filter(|p: (i64, String)| p.0 < indent) =~= s);
    } else {
        assert(spec_depths_increasing(s.drop_last()));
        lemma_add_prunes_deeper(s.drop_last(), indent);
    }
}

/// A stack whose entries all sit below `indent` keeps every entry.
proof fn lemma_keep_all(s: Seq<(i64, String)>, indent: i64)
    requires
        forall|i: int| 0 <= i < s.len() ==> s[i].0 < indent,
    ensures
        s.filter(|p: (i64, String)| p.0 < indent) == s,
    decreases s.len(),
{
    reveal(Seq::filter);
    if s.len() > 0 {
        lemma_keep_all(s.drop_last(), indent);
        assert(s.drop_last().push(s.last()) =~= s);
    }
}

/// The id-to-folder mapping of a course: each record under its id, a
/// later record with the same id replacing an earlier one.
pub open spec fn spec_folder_map(s: Seq<FolderResp>) -> Map<i64, FolderResp>
    decreases s.len(),
{
    if s.len() == 0 {
        Map::empty()
    } else {
        spec_folder_map(s.drop_last()).insert(s.last().id, s.last())
    }
}

/// Builds the folder lookup map from the listed records, in listing
/// order.
pub fn folder_map_from_list(folders: Vec<FolderResp>) -> (m: HashMap<i64, FolderResp>)
    ensures
        m@ == spec_folder_map(folders@),
{
    let ghost all = folders@;
    let mut folders = folders;
    let mut m: HashMap<i64, FolderResp> = HashMap::new();
    while folders.len() > 0
        invariant
            folders@.len() <= all.len(),
            folders@ =~= all.subrange(all.len() - folders@.len(), all.len() as int),
            m@ == spec_folder_map(all.subrange(0, all.len() - folders@.len())),
        decreases folders.len(),
    {
        let f = folders.remove(0);
        m.insert(f.id, f);
        proof {
            let done = all.len() - folders@.len();
            assert(all.subrange(0, done).drop_last() =~= all.subrange(0, done - 1));
            assert(folders@ =~= all.subrange(done, all.len() as int));
        }
    }
    proof {
        assert(all.subrange(0, all.len() as int) =~= all);
    }
    m
}

/// The download path synthesized for a file whose record carries no URL:
/// its id and verifier token spliced into the provider's direct download
/// route.
pub open spec fn spec_synth_path(id: int, uuid: Seq<char>) -> Seq<char> {
    "/files/"@ + spec_i64_dec(id) + "/download?download_frd=1&verifier="@ + uuid
}

/// The URL a file will be fetched from: the one its record carries, or,
/// when that is empty, the synthesized direct download URL.
pub open spec fn spec_file_url(host: Seq<char>, id: int, uuid: Seq<char>, url: Seq<char>) -> Seq<
    char,
> {
    if url.len() == 0 {
        spec_build_url(host, spec_synth_path(id, uuid))
    } else {
        url
    }
}

/// Builds the synthesized download path for a record without a URL.
fn synth_download_path(id: i64, uuid: &String) -> (r: String)
    ensures
        r@ == spec_synth_path(id as int, uuid@),
{
    let mut p = String::from_str("/files/");
    let digits = i64_dec_string(id);
    p.append(digits.as_str());
    p.append("/download?download_frd=1&verifier=");
    p.append(uuid.as_str());
    p
}

/// The fetch URL of a record: its own, or the synthesized one when the
/// record's is empty. The caller treats synthesis as a provider quirk
/// worth a warning, not an error.
pub fn resolve_file_url(resp: &FileResp, host: &str) -> (r: String)
    ensures
        r@ == spec_file_url(host@, resp.id as int, resp.uuid@, resp.url@),
{
    if resp.url.as_str().is_empty() {
        let path = synth_download_path(resp.id, &resp.uuid);
        build_url(host, path.as_str())
    } else {
        resp.url.clone()
    }
}

/// Turns a file-listing record into a `File` ready for the skip check:
/// the fetch URL resolved, and the folder path resolved from the folder
/// map through the record's folder id.
pub fn resolve_course_file(resp: FileResp, folders: &HashMap<i64, FolderResp>, host: &str) -> (f:
    File)
    ensures
        f.url@ == spec_file_url(host@, resp.id as int, resp.uuid@, resp.url@),
        f.file_name == resp.display_name,
        f.size == resp.size,
        f.created_at == resp.created_at,
        f.updated_at == resp.updated_at,
        f.modified_at == resp.modified_at,
        f.folder_path.deep_view() == spec_folder_chain(
            folders@,
            resp.folder_id,
            folders@.len(),
        ).reverse(),
{
    let url = resolve_file_url(&resp, host);
    let folder_id = resp.folder_id;
    let mut f = File::from_resp(resp);
    f.url = url;
    f.set_folder_path(folders, folder_id);
    f
}

/// The skip rule applied: the download to submit for `f`, or `None` when
/// the local copy (of the observed byte length, `None` when absent)
/// already matches.
pub fn plan_download(f: &File, local_len: Option<u64>) -> (r: Option<DownloadTask>)
    ensures
        r is Some <==> !f.spec_matches(local_len),
        match r {
            Some(t) => t.url == f.url && t.path.deep_view() == f.spec_local_path(),
            None => true,
        },
{
    if f.local_file_matches(local_len) {
        None
    } else {
        Some(DownloadTask { url: f.url.clone(), path: f.local_path() })
    }
}

/// A destination whose byte length equals the remote size matches, so a
/// second run over an unchanged remote and a populated destination plans
/// no download: the flat sync is idempotent.
pub proof fn lemma_skip_rule_idempotent(f: File)
    requires
        f.size >= 0,
    ensures
        f.spec_matches(Some(f.size as u64)),
{
}


/// What one module item asks of the run: a heading entered the stack, a
/// file record to fetch by content id, a shortcut file to write, nothing,
/// or a malformed record (a `File` item without a content id) that is
/// skipped and logged rather than failing the run.
#[derive(Debug)]
pub enum ModuleItemAction {
    Heading,
    FetchFile(i64),
    WriteLink(String, String, Vec<String>),
    Ignore,
    Malformed,
}

/// The directory a module item's shortcut file goes to: the destination
/// root, then `Modules`, the sanitized module name and the sanitized
/// item title.
pub open spec fn spec_link_dir(root: Seq<Seq<char>>, module_name: Seq<char>, title: Seq<char>)
    -> Seq<Seq<char>> {
    root + seq!["Modules"@, spec_sanitize(module_name), spec_sanitize(title)]
}

/// The views of the stack titles, bottom first.
pub open spec fn spec_title_views(s: Seq<(i64, String)>) -> Seq<Seq<char>> {
    Seq::new(s.len(), |i: int| s[i].1@)
}

/// The logical folder path of a module file: `Modules`, the module's
/// name, then the active sub-heading titles, bottom first.
pub open spec fn spec_module_dir(module_name: Seq<char>, entries: Seq<(i64, String)>) -> Seq<
    Seq<char>,
> {
    seq!["Modules"@, module_name] + spec_title_views(entries)
}

/// Decides one module item, in position order. A `SubHeader` enters the
/// stack at its indent depth; a `File` asks for its record by content
/// id; an `ExternalUrl` or `ExternalTool` with a URL asks for a shortcut
/// file; everything else is ignored.
pub fn module_item_step(
    stack: &mut IndentStack,
    item: &ModuleItemResp,
    module_name: &str,
    config: &SyncConfig,
) -> (a: ModuleItemAction)
    requires
        old(stack).wf(),
    ensures
        final(stack).wf(),
        item.type_@ == "SubHeader"@ ==> a is Heading && final(stack).spec_entries()
            == spec_keep_below(old(stack).spec_entries(), item.indent).push(
            (item.indent, item.title),
        ),
        item.type_@ != "SubHeader"@ ==> final(stack).spec_entries() == old(stack).spec_entries(),
        item.type_@ == "File"@ ==> match item.content_id {
            Some(id) => a == ModuleItemAction::FetchFile(id),
            None => a is Malformed,
        },
        (item.type_@ == "ExternalUrl"@ || item.type_@ == "ExternalTool"@) ==> match item.url {
            Some(u) => (a matches ModuleItemAction::WriteLink(lu, lt, lp) && lu == u && lt
                == item.title && lp.deep_view() == spec_link_dir(
                config.path.deep_view(),
                module_name@,
                item.title@,
            )),
            None => a is Ignore,
        },
        !(item.type_@ == "SubHeader"@ || item.type_@ == "File"@ || item.type_@ == "ExternalUrl"@
            || item.type_@ == "ExternalTool"@) ==> a is Ignore,
{
    proof {
        reveal_strlit("SubHeader");
        reveal_strlit("File");
        reveal_strlit("ExternalUrl");
        reveal_strlit("ExternalTool");
        assert("SubHeader"@.len() == 9);
        assert("File"@.len() == 4);
        assert("ExternalUrl"@.len() == 11);
        assert("ExternalTool"@.len() == 12);
    }
    if item.type_ == String::from_str("SubHeader") {
        stack.add(item.indent, item.title.clone());
        ModuleItemAction::Heading
    } else if item.type_ == String::from_str("File") {
        match item.content_id {
            Some(id) => ModuleItemAction::FetchFile(id),
            None => ModuleItemAction::Malformed,
        }
    } else if item.type_ == String::from_str("ExternalUrl") || item.type_ == String::from_str(
        "ExternalTool",
    ) {
        match &item.url {
            Some(u) => {
                let mut p = config.path.clone();
                p.push(String::from_str("Modules"));
                p.push(sanitize_file_name(module_name));
                p.push(sanitize_file_name(item.title.as_str()));
                proof {
                    assert(forall|j: int| 0 <= j < p@.len() ==> p.deep_view()[j] == p@[j]@);
                    assert(forall|j: int|
                        0 <= j < config.path@.len() ==> config.path.deep_view()[j]
                            == config.path@[j]@);
                    assert(p.deep_view() =~~= spec_link_dir(
                        config.path.deep_view(),
                        module_name@,
                        item.title@,
                    ));
                }
                ModuleItemAction::WriteLink(u.clone(), item.title.clone(), p)
            },
            None => ModuleItemAction::Ignore,
        }
    } else {
        ModuleItemAction::Ignore
    }
}

/// Turns a module file's record into a `File` ready for the skip check:
/// the fetch URL resolved, and the folder path placed under `Modules`,
/// the module's name and the active sub-heading titles.
pub fn resolve_module_file(
    resp: FileResp,
    module_name: &str,
    stack: &IndentStack,
    host: &str,
) -> (f: File)
    ensures
        f.url@ == spec_file_url(host@, resp.id as int, resp.uuid@, resp.url@),
        f.file_name == resp.display_name,
        f.size == resp.size,
        f.created_at == resp.created_at,
        f.updated_at == resp.updated_at,
        f.modified_at == resp.modified_at,
        f.folder_path.deep_view() == spec_module_dir(module_name@, stack.spec_entries()),
{
    let url = resolve_file_url(&resp, host);
    let mut f = File::from_resp(resp);
    f.url = url;
    let mut fp: Vec<String> = Vec::new();
    fp.push(String::from_str("Modules"));
    fp.push(String::from_str(module_name));
    let mut titles = stack.get();
    fp.append(&mut titles);
    proof {
        assert(forall|j: int| 0 <= j < fp@.len() ==> fp.deep_view()[j] == fp@[j]@);
        assert(fp.deep_view() =~~= spec_module_dir(module_name@, stack.spec_entries()));
    }
    f.folder_path = fp;
    f
}

} // verus!
