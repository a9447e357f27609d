//! The runtime housekeeping of the service: build artifacts under the
//! workspace that may be removed, the browser profiles it left in its
//! temporary directory, and the reports of cleaning both up.

use vstd::prelude::*;
use crate::ordering::{sort_by_key, sorted_by_key, text_le, SortKey};
use crate::response::{error_response, is_error_response, ApiResponse};
use crate::text::{owned, starts_with, text_eq, views};
use vstd::multiset::Multiset;

verus! {

// ---------------------------------------------------------------------------
// Reports

/// One removable artifact found under the workspace.
pub struct RuntimeArtifactItem {
    pub name: String,
    pub path: String,
    pub kind: &'static str,
    pub bytes: u64,
    pub cleanup_hint: &'static str,
}

/// The removable artifacts under the workspace, by path.
pub struct RuntimeArtifactStatus {
    pub workspace_dir: String,
    pub item_count: usize,
    pub total_bytes: u64,
    pub items: Vec<RuntimeArtifactItem>,
}

/// What became of one artifact.
pub struct RuntimeArtifactCleanupItem {
    pub name: String,
    pub path: String,
    pub kind: &'static str,
    pub bytes: u64,
    pub status: &'static str,
    pub error: Option<String>,
}

/// What an artifact cleanup removed.
pub struct RuntimeArtifactCleanupReport {
    pub removed_count: usize,
    pub failed_count: usize,
    pub removed_bytes: u64,
    pub items: Vec<RuntimeArtifactCleanupItem>,
}

/// One temporary browser profile.
pub struct RuntimeTempProfileCleanupItem {
    pub profile_name: String,
    pub status: &'static str,
    pub bytes: u64,
    pub error: Option<String>,
}

/// The temporary profiles a cleanup would remove, and those it would keep.
pub struct RuntimeTempProfileCleanupPreview {
    pub candidate_count: usize,
    pub candidate_bytes: u64,
    pub skipped_user_window_count: usize,
    pub skipped_user_window_bytes: u64,
    pub items: Vec<RuntimeTempProfileCleanupItem>,
}

/// What a temporary profile cleanup removed and kept.
pub struct RuntimeTempProfileCleanupReport {
    pub removed_count: usize,
    pub failed_count: usize,
    pub skipped_user_window_count: usize,
    pub removed_bytes: u64,
    pub skipped_user_window_bytes: u64,
    pub items: Vec<RuntimeTempProfileCleanupItem>,
}

impl SortKey for RuntimeArtifactItem {
    open spec fn sort_key(&self) -> Seq<char> {
        self.path@
    }

    fn sort_key_str(&self) -> (r: &str) {
        self.path.as_str()
    }
}

/// `a + b`, stopping at `u64::MAX`.
pub open spec fn saturating(a: int, b: int) -> u64 {
    if a + b > u64::MAX {
        u64::MAX
    } else {
        (a + b) as u64
    }
}

// ---------------------------------------------------------------------------
// Artifacts under the workspace

/// A kind of build artifact the service looks for.
#[derive(Debug, Clone, Copy, PartialEq, Eq)]
pub struct RuntimeArtifactCandidate {
    pub name: &'static str,
    pub relative_path: &'static str,
    pub kind: &'static str,
    pub cleanup_hint: &'static str,
}

pub open spec fn candidate_view(c: RuntimeArtifactCandidate) -> (Seq<char>, Seq<char>, Seq<char>, Seq<char>) {
    (c.name@, c.relative_path@, c.kind@, c.cleanup_hint@)
}

/// The artifacts the service looks for, in order.
pub open spec fn candidate_table() -> Seq<(Seq<char>, Seq<char>, Seq<char>, Seq<char>)> {
    seq![
        ("target"@, "target"@, "build_target"@, "Remove after final delivery or space warning"@),
        ("node_modules"@, "node_modules"@, "node_modules"@, "Remove if a Node toolchain was used unexpectedly"@),
        (".next"@, ".next"@, "web_build"@, "Remove generated web build output"@),
        ("dist"@, "dist"@, "web_build"@, "Remove generated web build output"@),
        ("src-tauri target"@, "src-tauri/target"@, "tauri_build_target"@, "Remove generated Tauri build output"@),
        ("apps/web node_modules"@, "apps/web/node_modules"@, "web_node_modules"@, "Remove if a Node toolchain was used unexpectedly"@),
        ("apps/web .next"@, "apps/web/.next"@, "web_build"@, "Remove generated web build output"@),
        ("apps/web dist"@, "apps/web/dist"@, "web_build"@, "Remove generated web build output"@),
        ("apps/desktop target"@, "apps/desktop/target"@, "desktop_build_target"@, "Remove generated desktop build output"@),
        ("apps/desktop src-tauri target"@, "apps/desktop/src-tauri/target"@, "desktop_tauri_build_target"@, "Remove generated desktop Tauri build output"@),
        (".pytest_cache"@, ".pytest_cache"@, "python_test_cache"@, "Remove unused Python test cache"@),
    ]
}

pub fn runtime_artifact_candidates() -> (r: Vec<RuntimeArtifactCandidate>)
    ensures
        r@.map_values(|c: RuntimeArtifactCandidate| candidate_view(c)) == candidate_table(),
{
    let mut v: Vec<RuntimeArtifactCandidate> = Vec::new();
    v.push(RuntimeArtifactCandidate { name: "target", relative_path: "target", kind: "build_target", cleanup_hint: "Remove after final delivery or space warning" });
    v.push(RuntimeArtifactCandidate { name: "node_modules", relative_path: "node_modules", kind: "node_modules", cleanup_hint: "Remove if a Node toolchain was used unexpectedly" });
    v.push(RuntimeArtifactCandidate { name: ".next", relative_path: ".next", kind: "web_build", cleanup_hint: "Remove generated web build output" });
    v.push(RuntimeArtifactCandidate { name: "dist", relative_path: "dist", kind: "web_build", cleanup_hint: "Remove generated web build output" });
    v.push(RuntimeArtifactCandidate { name: "src-tauri target", relative_path: "src-tauri/target", kind: "tauri_build_target", cleanup_hint: "Remove generated Tauri build output" });
    v.push(RuntimeArtifactCandidate { name: "apps/web node_modules", relative_path: "apps/web/node_modules", kind: "web_node_modules", cleanup_hint: "Remove if a Node toolchain was used unexpectedly" });
    v.push(RuntimeArtifactCandidate { name: "apps/web .next", relative_path: "apps/web/.next", kind: "web_build", cleanup_hint: "Remove generated web build output" });
    v.push(RuntimeArtifactCandidate { name: "apps/web dist", relative_path: "apps/web/dist", kind: "web_build", cleanup_hint: "Remove generated web build output" });
    v.push(RuntimeArtifactCandidate { name: "apps/desktop target", relative_path: "apps/desktop/target", kind: "desktop_build_target", cleanup_hint: "Remove generated desktop build output" });
    v.push(RuntimeArtifactCandidate { name: "apps/desktop src-tauri target", relative_path: "apps/desktop/src-tauri/target", kind: "desktop_tauri_build_target", cleanup_hint: "Remove generated desktop Tauri build output" });
    v.push(RuntimeArtifactCandidate { name: ".pytest_cache", relative_path: ".pytest_cache", kind: "python_test_cache", cleanup_hint: "Remove unused Python test cache" });
    proof {
        assert(candidate_view(v@[0]) == candidate_table()[0]);
        assert(candidate_view(v@[1]) == candidate_table()[1]);
        assert(candidate_view(v@[2]) == candidate_table()[2]);
        assert(candidate_view(v@[3]) == candidate_table()[3]);
        assert(candidate_view(v@[4]) == candidate_table()[4]);
        assert(candidate_view(v@[5]) == candidate_table()[5]);
        assert(candidate_view(v@[6]) == candidate_table()[6]);
        assert(candidate_view(v@[7]) == candidate_table()[7]);
        assert(candidate_view(v@[8]) == candidate_table()[8]);
        assert(candidate_view(v@[9]) == candidate_table()[9]);
        assert(candidate_view(v@[10]) == candidate_table()[10]);
        assert(v@.map_values(|c: RuntimeArtifactCandidate| candidate_view(c)) =~= candidate_table());
    }
    v
}

/// An item as its fields' values.
pub open spec fn item_view(i: RuntimeArtifactItem) -> (Seq<char>, Seq<char>, Seq<char>, u64, Seq<char>) {
    (i.name@, i.path@, i.kind@, i.bytes, i.cleanup_hint@)
}

/// The items of the candidates found among the first `n`: `dirs[k]` holds
/// the path and size of candidate `k`'s directory when it exists.
pub open spec fn candidate_items(dirs: Seq<Option<(String, u64)>>, n: int) -> Seq<(Seq<char>, Seq<char>, Seq<char>, u64, Seq<char>)>
    decreases n,
{
    if n <= 0 {
        Seq::empty()
    } else {
        let rest = candidate_items(dirs, n - 1);
        let c = candidate_table()[n - 1];
        match dirs[n - 1] {
            Some((p, b)) => rest.push((c.0, p@, c.2, b, c.3)),
            None => rest,
        }
    }
}

/// The items of the bytecode caches found.
pub open spec fn cache_items(dirs: Seq<(String, u64)>) -> Seq<(Seq<char>, Seq<char>, Seq<char>, u64, Seq<char>)> {
    dirs.map_values(|d: (String, u64)| ("__pycache__"@, d.0@, "python_bytecode_cache"@, d.1, "Remove unused Python bytecode cache"@))
}

/// The sum of the items' sizes, stopping at `u64::MAX`.
pub open spec fn total_bytes(items: Seq<RuntimeArtifactItem>) -> u64
    decreases items.len(),
{
    if items.len() == 0 {
        0
    } else {
        saturating(total_bytes(items.drop_last()) as int, items.last().bytes as int)
    }
}

/// The artifacts under `workspace_dir`: `candidate_dirs` holds, for each
/// candidate in order, its directory's path and size when it exists;
/// `bytecode_cache_dirs` the bytecode caches found. The items are sorted by
/// path and summed.
pub fn runtime_artifact_status_for_workspace(
    workspace_dir: String,
    candidate_dirs: Vec<Option<(String, u64)>>,
    bytecode_cache_dirs: Vec<(String, u64)>,
) -> (r: RuntimeArtifactStatus)
    requires
        candidate_dirs@.len() == candidate_table().len(),
    ensures
        r.workspace_dir == workspace_dir,
        r.item_count == r.items@.len(),
        r.total_bytes == total_bytes(r.items@),
        forall|i: int, j: int| 0 <= i < j < r.items@.len() ==> text_le(#[trigger] r.items@[i].path@, #[trigger] r.items@[j].path@),
        r.items@.map_values(|x: RuntimeArtifactItem| item_view(x)).to_multiset() == (candidate_items(candidate_dirs@, candidate_dirs@.len() as int) + cache_items(bytecode_cache_dirs@)).to_multiset(),
{
    let candidates = runtime_artifact_candidates();
    let ghost table = candidate_table();
    let mut keyed: Vec<RuntimeArtifactItem> = Vec::new();
    let mut i: usize = 0;
    while i < candidate_dirs.len()
        invariant
            i <= candidate_dirs@.len(),
            candidate_dirs@.len() == table.len(),
            table == candidate_table(),
            candidates@.map_values(|c: RuntimeArtifactCandidate| candidate_view(c)) == table,
            keyed@.map_values(|x: RuntimeArtifactItem| item_view(x)) == candidate_items(candidate_dirs@, i as int),
        decreases candidate_dirs.len() - i,
    {
        match &candidate_dirs[i] {
            Some((path, bytes)) => {
                let c = candidates[i];
                assert(candidate_view(c) == table[i as int]);
                let item = RuntimeArtifactItem {
                    name: owned(c.name),
                    path: path.clone(),
                    kind: c.kind,
                    bytes: *bytes,
                    cleanup_hint: c.cleanup_hint,
                };
                let ghost before = keyed@;
                let ghost view = item_view(item);
                keyed.push(item);
                assert(keyed@.map_values(|x: RuntimeArtifactItem| item_view(x)) =~= before.map_values(|x: RuntimeArtifactItem| item_view(x)).push(view));
            },
            None => {},
        }
        i = i + 1;
    }
    let mut k: usize = 0;
    let ghost base = keyed@.map_values(|x: RuntimeArtifactItem| item_view(x));
    while k < bytecode_cache_dirs.len()
        invariant
            k <= bytecode_cache_dirs@.len(),
            keyed@.map_values(|x: RuntimeArtifactItem| item_view(x)) == base + cache_items(bytecode_cache_dirs@.subrange(0, k as int)),
        decreases bytecode_cache_dirs.len() - k,
    {
        let (path, bytes) = (&bytecode_cache_dirs[k].0, bytecode_cache_dirs[k].1);
        let item = RuntimeArtifactItem {
            name: owned("__pycache__"),
            path: path.clone(),
            kind: "python_bytecode_cache",
            bytes,
            cleanup_hint: "Remove unused Python bytecode cache",
        };
        let ghost before = keyed@;
        let ghost view = item_view(item);
        keyed.push(item);
        assert(keyed@.map_values(|x: RuntimeArtifactItem| item_view(x)) =~= before.map_values(|x: RuntimeArtifactItem| item_view(x)).push(view));
        assert(cache_items(bytecode_cache_dirs@.subrange(0, k + 1)) =~= cache_items(bytecode_cache_dirs@.subrange(0, k as int)).push(view));
        k = k + 1;
    }
    assert(bytecode_cache_dirs@.subrange(0, bytecode_cache_dirs@.len() as int) =~= bytecode_cache_dirs@);
    let ghost unsorted = keyed@;
    let sorted = sort_by_key(keyed);
    proof {
        crate::ordering::lemma_multiset_map(sorted@, unsorted, |x: RuntimeArtifactItem| item_view(x));
    }
    let mut total: u64 = 0;
    let mut i: usize = 0;
    while i < sorted.len()
        invariant
            i <= sorted@.len(),
            total == total_bytes(sorted@.subrange(0, i as int)),
        decreases sorted.len() - i,
    {
        assert(sorted@.subrange(0, i + 1).drop_last() =~= sorted@.subrange(0, i as int));
        total = total.saturating_add(sorted[i].bytes);
        i = i + 1;
    }
    assert(sorted@.subrange(0, sorted@.len() as int) =~= sorted@);
    proof {
        assert forall|i: int, j: int| 0 <= i < j < sorted@.len() implies text_le(#[trigger] sorted@[i].path@, #[trigger] sorted@[j].path@) by {
            assert(text_le(sorted@[i].sort_key(), sorted@[j].sort_key()));
        }
    }
    let items = sorted;
    RuntimeArtifactStatus { workspace_dir, item_count: items.len(), total_bytes: total, items }
}

// ---------------------------------------------------------------------------
// Removing artifacts

/// What removing one artifact came to.
pub enum ArtifactRemoval {
    /// The artifact lies outside the workspace, or is the workspace itself.
    Unsafe,
    Removed,
    /// It was already gone.
    Missing,
    Failed(String),
}

/// An artifact cleanup that has removed nothing yet.
pub fn empty_artifact_cleanup_report() -> (r: RuntimeArtifactCleanupReport)
    ensures
        r.removed_count == 0 && r.failed_count == 0 && r.removed_bytes == 0 && r.items@.len() == 0,
{
    RuntimeArtifactCleanupReport { removed_count: 0, failed_count: 0, removed_bytes: 0, items: Vec::new() }
}

/// The status and error an outcome gives an artifact.
pub open spec fn removal_view(o: ArtifactRemoval) -> (Seq<char>, Option<Seq<char>>) {
    match o {
        ArtifactRemoval::Unsafe => ("failed"@, Some("refuse to remove artifact outside workspace"@)),
        ArtifactRemoval::Removed => ("removed"@, None),
        ArtifactRemoval::Missing => ("missing"@, None),
        ArtifactRemoval::Failed(e) => ("failed"@, Some(e@)),
    }
}

/// Records what became of one artifact: removed ones count with their
/// size, refused and failed ones as failures, missing ones as neither.
pub fn record_artifact_cleanup(
    report: &mut RuntimeArtifactCleanupReport,
    item: RuntimeArtifactItem,
    outcome: ArtifactRemoval,
)
    requires
        old(report).removed_count < usize::MAX,
        old(report).failed_count < usize::MAX,
    ensures
        final(report).removed_count == old(report).removed_count + if outcome is Removed { 1int } else { 0int },
        final(report).failed_count == old(report).failed_count + if outcome is Unsafe || outcome is Failed { 1int } else { 0int },
        final(report).removed_bytes == if outcome is Removed {
            saturating(old(report).removed_bytes as int, item.bytes as int)
        } else {
            old(report).removed_bytes
        },
        final(report).items@.len() == old(report).items@.len() + 1,
        final(report).items@.drop_last() == old(report).items@,
        ({
            let x = final(report).items@.last();
            &&& x.name == item.name && x.path == item.path && x.kind == item.kind && x.bytes == item.bytes
            &&& (x.status@, match x.error { Some(e) => Some(e@), None => None }) == removal_view(outcome)
        }),
{
    let (status, error): (&'static str, Option<String>) = match outcome {
        ArtifactRemoval::Unsafe => {
            report.failed_count = report.failed_count + 1;
            ("failed", Some(owned("refuse to remove artifact outside workspace")))
        },
        ArtifactRemoval::Removed => {
            report.removed_count = report.removed_count + 1;
            report.removed_bytes = report.removed_bytes.saturating_add(item.bytes);
            ("removed", None)
        },
        ArtifactRemoval::Missing => ("missing", None),
        ArtifactRemoval::Failed(e) => {
            report.failed_count = report.failed_count + 1;
            ("failed", Some(e))
        },
    };
    let ghost before = report.items@;
    report.items.push(RuntimeArtifactCleanupItem {
        name: item.name,
        path: item.path,
        kind: item.kind,
        bytes: item.bytes,
        status,
        error,
    });
    assert(report.items@.drop_last() =~= before);
}

/// `path` lies under `root`: the components of `root` are the first
/// components of `path` (`Path::starts_with`, which compares whole
/// components on every platform).
pub open spec fn path_under(root: Seq<Seq<char>>, path: Seq<Seq<char>>) -> bool {
    root.len() <= path.len() && path.subrange(0, root.len() as int) == root
}

/// An artifact may be removed when its canonical path lies under the
/// canonical workspace and is not the workspace itself; both paths are
/// given as their components, in order.
pub fn runtime_artifact_path_is_safe_to_remove(root: &Vec<String>, path: &Vec<String>) -> (r: bool)
    ensures
        r == (path_under(views(root@), views(path@)) && views(path@) != views(root@)),
{
    let ghost rv = views(root@);
    let ghost pv = views(path@);
    if root.len() >= path.len() {
        proof {
            if path_under(rv, pv) {
                assert(pv.subrange(0, rv.len() as int) =~= pv);
            }
        }
        return false;
    }
    let mut i: usize = 0;
    while i < root.len()
        invariant
            root@.len() < path@.len(),
            i <= root@.len(),
            rv == views(root@),
            pv == views(path@),
            pv.subrange(0, i as int) == rv.subrange(0, i as int),
        decreases root.len() - i,
    {
        if !text_eq(root[i].as_str(), path[i].as_str()) {
            proof {
                assert(rv[i as int] == root@[i as int]@);
                assert(pv[i as int] == path@[i as int]@);
                if path_under(rv, pv) {
                    assert(pv.subrange(0, rv.len() as int)[i as int] == pv[i as int]);
                }
            }
            return false;
        }
        proof {
            assert(rv[i as int] == root@[i as int]@);
            assert(pv[i as int] == path@[i as int]@);
            assert(pv.subrange(0, i + 1) =~= pv.subrange(0, i as int).push(pv[i as int]));
            assert(rv.subrange(0, i + 1) =~= rv.subrange(0, i as int).push(rv[i as int]));
        }
        i = i + 1;
    }
    proof {
        assert(rv.subrange(0, rv.len() as int) =~= rv);
        assert(pv.len() != rv.len());
    }
    true
}

/// What a directory walk does with one entry.
#[derive(Debug, Clone, Copy, PartialEq, Eq)]
pub enum WalkDecision {
    /// Not a directory (or its name is not text): pass it by.
    Skip,
    /// A directory with the name looked for: report it, do not descend.
    Found,
    /// A build, dependency or version-control directory, or one of the
    /// protected data and backup directories: do not descend.
    Prune,
    Descend,
}

pub open spec fn walk_decision_for(name: Option<Seq<char>>, is_dir: bool, target: Seq<char>, protected: bool) -> WalkDecision {
    if !is_dir {
        WalkDecision::Skip
    } else {
        match name {
            None => WalkDecision::Skip,
            Some(n) => if n == target {
                WalkDecision::Found
            } else if n == "target"@ || n == "node_modules"@ || n == ".next"@ || n == "dist"@ || n == ".git"@ || protected {
                WalkDecision::Prune
            } else {
                WalkDecision::Descend
            },
        }
    }
}

/// The walk's decision on an entry: its name (when it is text), whether it
/// is a directory, the name looked for, and whether it is the workspace's
/// `data` or `backups` directory.
pub fn walk_decision(name: Option<&str>, is_dir: bool, target: &str, protected: bool) -> (r: WalkDecision)
    ensures
        r == walk_decision_for(match name { Some(n) => Some(n@), None => None }, is_dir, target@, protected),
{
    if !is_dir {
        return WalkDecision::Skip;
    }
    match name {
        None => WalkDecision::Skip,
        Some(n) => if text_eq(n, target) {
            WalkDecision::Found
        } else if text_eq(n, "target") || text_eq(n, "node_modules") || text_eq(n, ".next") || text_eq(n, "dist") || text_eq(n, ".git") || protected {
            WalkDecision::Prune
        } else {
            WalkDecision::Descend
        },
    }
}

/// How many files a tree holds and how many bytes, the bytes summed up to
/// `u64::MAX`.
#[derive(Debug, Clone, Copy, PartialEq, Eq)]
pub struct FileInventory {
    pub count: usize,
    pub bytes: u64,
}

impl FileInventory {
    pub fn empty() -> (r: FileInventory)
        ensures
            r.count == 0 && r.bytes == 0,
    {
        FileInventory { count: 0, bytes: 0 }
    }

    /// Counts one more file of `bytes`.
    pub fn add(self, bytes: u64) -> (r: FileInventory)
        requires
            self.count < usize::MAX,
        ensures
            r.count == self.count + 1,
            r.bytes == saturating(self.bytes as int, bytes as int),
    {
        FileInventory { count: self.count + 1, bytes: self.bytes.saturating_add(bytes) }
    }
}

// ---------------------------------------------------------------------------
// Temporary browser profiles

/// A profile directory in the temporary directory.
pub struct TempProfileDir {
    pub name: String,
    pub bytes: u64,
    /// The name is one the service gives the profiles it owns.
    pub owned: bool,
}

/// What a cleanup does with a profile.
#[derive(Debug, Clone, Copy, PartialEq, Eq)]
pub enum TempProfileDisposition {
    /// A user's window profile: kept and counted.
    SkipUserWindow,
    /// A profile the service owns: removed.
    Candidate,
    /// Anything else: left alone, not listed.
    Ignore,
}

pub open spec fn disposition_for(name: Seq<char>, owned: bool, user_window_prefix: Seq<char>) -> TempProfileDisposition {
    if user_window_prefix.is_prefix_of(name) {
        TempProfileDisposition::SkipUserWindow
    } else if owned {
        TempProfileDisposition::Candidate
    } else {
        TempProfileDisposition::Ignore
    }
}

pub fn temp_profile_disposition(dir: &TempProfileDir, user_window_prefix: &str) -> (r: TempProfileDisposition)
    ensures
        r == disposition_for(dir.name@, dir.owned, user_window_prefix@),
{
    if starts_with(dir.name.as_str(), user_window_prefix) {
        TempProfileDisposition::SkipUserWindow
    } else if dir.owned {
        TempProfileDisposition::Candidate
    } else {
        TempProfileDisposition::Ignore
    }
}

impl SortKey for TempProfileDir {
    open spec fn sort_key(&self) -> Seq<char> {
        self.name@
    }

    fn sort_key_str(&self) -> (r: &str) {
        self.name.as_str()
    }
}

/// The profile directories sorted by name.
pub fn sorted_temp_profile_dirs(dirs: Vec<TempProfileDir>) -> (r: Vec<TempProfileDir>)
    ensures
        sorted_by_key(r@),
        r@.to_multiset() == dirs@.to_multiset(),
{
    sort_by_key(dirs)
}


/// A listed profile as its name, status, size and whether an error is
/// recorded.
pub open spec fn profile_item_view(i: RuntimeTempProfileCleanupItem) -> (Seq<char>, Seq<char>, u64, Option<Seq<char>>) {
    (i.profile_name@, i.status@, i.bytes, match i.error { Some(e) => Some(e@), None => None })
}

/// A preview's counts, sums and listed items.
pub struct PreviewView {
    pub candidate_count: int,
    pub candidate_bytes: u64,
    pub skipped_count: int,
    pub skipped_bytes: u64,
    pub items: Seq<(Seq<char>, Seq<char>, u64, Option<Seq<char>>)>,
}

/// The preview of the profiles `dirs`, taken in the order given: user
/// window profiles are listed as skipped, owned ones as candidates, the
/// others not at all.
pub open spec fn preview_of(dirs: Seq<TempProfileDir>, prefix: Seq<char>) -> PreviewView
    decreases dirs.len(),
{
    if dirs.len() == 0 {
        PreviewView { candidate_count: 0, candidate_bytes: 0, skipped_count: 0, skipped_bytes: 0, items: Seq::empty() }
    } else {
        let p = preview_of(dirs.drop_last(), prefix);
        let d = dirs.last();
        match disposition_for(d.name@, d.owned, prefix) {
            TempProfileDisposition::SkipUserWindow => PreviewView {
                skipped_count: p.skipped_count + 1,
                skipped_bytes: saturating(p.skipped_bytes as int, d.bytes as int),
                items: p.items.push((d.name@, "skipped_user_window"@, d.bytes, None)),
                ..p
            },
            TempProfileDisposition::Candidate => PreviewView {
                candidate_count: p.candidate_count + 1,
                candidate_bytes: saturating(p.candidate_bytes as int, d.bytes as int),
                items: p.items.push((d.name@, "candidate"@, d.bytes, None)),
                ..p
            },
            TempProfileDisposition::Ignore => p,
        }
    }
}

pub open spec fn preview_matches(r: RuntimeTempProfileCleanupPreview, v: PreviewView) -> bool {
    &&& r.candidate_count == v.candidate_count
    &&& r.candidate_bytes == v.candidate_bytes
    &&& r.skipped_user_window_count == v.skipped_count
    &&& r.skipped_user_window_bytes == v.skipped_bytes
    &&& r.items@.map_values(|i: RuntimeTempProfileCleanupItem| profile_item_view(i)) == v.items
}

proof fn lemma_preview_counts(dirs: Seq<TempProfileDir>, prefix: Seq<char>)
    ensures
        preview_of(dirs, prefix).candidate_count + preview_of(dirs, prefix).skipped_count <= dirs.len(),
        preview_of(dirs, prefix).candidate_count >= 0,
        preview_of(dirs, prefix).skipped_count >= 0,
    decreases dirs.len(),
{
    if dirs.len() > 0 {
        lemma_preview_counts(dirs.drop_last(), prefix);
    }
}

/// What a cleanup of the temporary profiles `dirs` would do: the profiles
/// sorted by name, user window profiles kept and counted, those the
/// service owns listed as candidates with their sizes.
pub fn preview_temp_profiles(dirs: Vec<TempProfileDir>, user_window_prefix: &str) -> (r: RuntimeTempProfileCleanupPreview)
    ensures
        exists|s: Seq<TempProfileDir>|
            sorted_by_key(s) && s.to_multiset() == dirs@.to_multiset() && #[trigger] preview_matches(r, preview_of(s, user_window_prefix@)),
{
    let sorted = sorted_temp_profile_dirs(dirs);
    let mut r = RuntimeTempProfileCleanupPreview {
        candidate_count: 0,
        candidate_bytes: 0,
        skipped_user_window_count: 0,
        skipped_user_window_bytes: 0,
        items: Vec::new(),
    };
    let mut i: usize = 0;
    proof {
        assert(sorted@.subrange(0, 0) =~= Seq::<TempProfileDir>::empty());
        assert(r.items@.map_values(|i: RuntimeTempProfileCleanupItem| profile_item_view(i)) =~= Seq::empty());
    }
    while i < sorted.len()
        invariant
            i <= sorted@.len(),
            preview_matches(r, preview_of(sorted@.subrange(0, i as int), user_window_prefix@)),
        decreases sorted.len() - i,
    {
        let ghost prev = sorted@.subrange(0, i as int);
        let ghost next = sorted@.subrange(0, i + 1);
        proof {
            assert(next.drop_last() =~= prev);
            lemma_preview_counts(prev, user_window_prefix@);
        }
        let d = &sorted[i];
        let ghost before = r.items@;
        match temp_profile_disposition(d, user_window_prefix) {
            TempProfileDisposition::SkipUserWindow => {
                r.skipped_user_window_count = r.skipped_user_window_count + 1;
                r.skipped_user_window_bytes = r.skipped_user_window_bytes.saturating_add(d.bytes);
                let item = RuntimeTempProfileCleanupItem { profile_name: d.name.clone(), status: "skipped_user_window", bytes: d.bytes, error: None };
                r.items.push(item);
            },
            TempProfileDisposition::Candidate => {
                r.candidate_count = r.candidate_count + 1;
                r.candidate_bytes = r.candidate_bytes.saturating_add(d.bytes);
                let item = RuntimeTempProfileCleanupItem { profile_name: d.name.clone(), status: "candidate", bytes: d.bytes, error: None };
                r.items.push(item);
            },
            TempProfileDisposition::Ignore => {},
        }
        proof {
            reveal_strlit("skipped_user_window");
            reveal_strlit("candidate");
            assert(r.items@.map_values(|i: RuntimeTempProfileCleanupItem| profile_item_view(i)) =~= preview_of(next, user_window_prefix@).items);
        }
        i = i + 1;
    }
    assert(sorted@.subrange(0, sorted@.len() as int) =~= sorted@);
    r
}

/// A temporary profile cleanup that has done nothing yet.
pub fn empty_temp_profile_cleanup_report() -> (r: RuntimeTempProfileCleanupReport)
    ensures
        r.removed_count == 0 && r.failed_count == 0 && r.skipped_user_window_count == 0,
        r.removed_bytes == 0 && r.skipped_user_window_bytes == 0 && r.items@.len() == 0,
{
    RuntimeTempProfileCleanupReport {
        removed_count: 0,
        failed_count: 0,
        skipped_user_window_count: 0,
        removed_bytes: 0,
        skipped_user_window_bytes: 0,
        items: Vec::new(),
    }
}

/// Counts a user window profile of `bytes` that the cleanup keeps.
pub fn record_skipped_user_window(report: &mut RuntimeTempProfileCleanupReport, bytes: u64)
    requires
        old(report).skipped_user_window_count < usize::MAX,
    ensures
        final(report).skipped_user_window_count == old(report).skipped_user_window_count + 1,
        final(report).skipped_user_window_bytes == saturating(old(report).skipped_user_window_bytes as int, bytes as int),
        final(report).removed_count == old(report).removed_count,
        final(report).failed_count == old(report).failed_count,
        final(report).removed_bytes == old(report).removed_bytes,
        final(report).items@ == old(report).items@,
{
    report.skipped_user_window_count = report.skipped_user_window_count + 1;
    report.skipped_user_window_bytes = report.skipped_user_window_bytes.saturating_add(bytes);
}

/// Records the removal of the owned profile `name` of `bytes`: `Ok` when it
/// was removed, `Err` with the error's text when it was not.
pub fn record_temp_profile_removal(
    report: &mut RuntimeTempProfileCleanupReport,
    name: String,
    bytes: u64,
    outcome: Result<(), String>,
)
    requires
        old(report).removed_count < usize::MAX,
        old(report).failed_count < usize::MAX,
    ensures
        final(report).removed_count == old(report).removed_count + if outcome is Ok { 1int } else { 0int },
        final(report).failed_count == old(report).failed_count + if outcome is Err { 1int } else { 0int },
        final(report).removed_bytes == if outcome is Ok {
            saturating(old(report).removed_bytes as int, bytes as int)
        } else {
            old(report).removed_bytes
        },
        final(report).skipped_user_window_count == old(report).skipped_user_window_count,
        final(report).skipped_user_window_bytes == old(report).skipped_user_window_bytes,
        final(report).items@.drop_last() == old(report).items@,
        final(report).items@.len() == old(report).items@.len() + 1,
        profile_item_view(final(report).items@.last()) == match outcome {
            Ok(_) => (name@, "removed"@, bytes, None),
            Err(e) => (name@, "failed"@, bytes, Some(e@)),
        },
{
    let ghost before = report.items@;
    let ghost n = name@;
    match outcome {
        Ok(_) => {
            report.removed_count = report.removed_count + 1;
            report.removed_bytes = report.removed_bytes.saturating_add(bytes);
            report.items.push(RuntimeTempProfileCleanupItem { profile_name: name, status: "removed", bytes, error: None });
        },
        Err(e) => {
            report.failed_count = report.failed_count + 1;
            report.items.push(RuntimeTempProfileCleanupItem { profile_name: name, status: "failed", bytes, error: Some(e) });
        },
    }
    assert(report.items@.drop_last() =~= before);
}

/// The answer to a cleanup request that was not confirmed: `None` when
/// `confirm_cleanup` is set, else 400 with `confirm_cleanup must be true`.
pub fn cleanup_confirmation_error(confirm_cleanup: bool) -> (r: Option<ApiResponse>)
    ensures
        confirm_cleanup <==> r is None,
        r matches Some(resp) ==> is_error_response(resp, 400, "confirm_cleanup must be true"@),
{
    if confirm_cleanup {
        None
    } else {
        Some(error_response(400, "confirm_cleanup must be true"))
    }
}

} // verus!
