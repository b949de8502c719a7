//! Indexes of other roots that are borrowed for reading, and what git said of roots.
//!
//! A few borrowed indexes are kept. A hit becomes the most recent entry; a new one displaces the
//! least recent. An entry stands for one published state of an artifact: a newer state of the
//! same file replaces it.

use vstd::prelude::*;

use crate::config::Platform;
use crate::path_map;
use crate::path_map::PathMap;
use crate::path_text;
use crate::path_text::{components, same_path};
use crate::paths::PartView;

verus! {

/// How many borrowed indexes, and how many resolved roots, are kept.
pub const BORROWED_INDEX_CACHE_CAPACITY: usize = 4;

/// What a root's `.git` entry is.
#[derive(Debug, Clone, Copy, PartialEq, Eq, Structural)]
pub enum GitEntryKind {
    Missing,
    File,
    Directory,
    Other,
}

/// A root's `.git` entry at one moment; `modified` is its time of change, where it has one.
#[derive(Debug, Clone, Copy, PartialEq, Eq, Structural)]
pub struct GitEntrySignature {
    pub kind: GitEntryKind,
    pub modified: Option<u64>,
}

impl DeepView for GitEntrySignature {
    type V = GitEntrySignature;

    open spec fn deep_view(&self) -> GitEntrySignature {
        *self
    }
}

/// What looking at a directory entry told.
#[derive(Debug, Clone, Copy, PartialEq, Eq, Structural)]
pub enum EntryProbe {
    File,
    Directory,
    /// A link or another kind of entry.
    Other,
    NotFound,
    Failed,
}

/// The signature of an entry: one that could not be looked at counts as present, of no known
/// time.
pub open spec fn entry_signature(probe: EntryProbe, modified: Option<u64>) -> GitEntrySignature {
    match probe {
        EntryProbe::File => GitEntrySignature { kind: GitEntryKind::File, modified },
        EntryProbe::Directory => GitEntrySignature { kind: GitEntryKind::Directory, modified },
        EntryProbe::Other => GitEntrySignature { kind: GitEntryKind::Other, modified },
        EntryProbe::NotFound => GitEntrySignature { kind: GitEntryKind::Missing, modified: None },
        EntryProbe::Failed => GitEntrySignature { kind: GitEntryKind::Other, modified: None },
    }
}

/// The signature of a root's `.git` entry.
pub fn git_entry_signature(probe: EntryProbe, modified: Option<u64>) -> (signature:
    GitEntrySignature)
    ensures
        signature == entry_signature(probe, modified),
{
    match probe {
        EntryProbe::File => GitEntrySignature { kind: GitEntryKind::File, modified },
        EntryProbe::Directory => GitEntrySignature { kind: GitEntryKind::Directory, modified },
        EntryProbe::Other => GitEntrySignature { kind: GitEntryKind::Other, modified },
        EntryProbe::NotFound => GitEntrySignature { kind: GitEntryKind::Missing, modified: None },
        EntryProbe::Failed => GitEntrySignature { kind: GitEntryKind::Other, modified: None },
    }
}

/// What was learned of a root's worktree, and the `.git` entry under which.
#[derive(Debug)]
pub struct WorktreeBridgeCacheEntry {
    pub git_entry: GitEntrySignature,
    pub is_worktree_bridge: bool,
    pub git_common_dir: Option<String>,
}

/// The model of [`WorktreeBridgeCacheEntry`].
pub struct WorktreeBridgeView {
    pub git_entry: GitEntrySignature,
    pub is_worktree_bridge: bool,
    pub git_common_dir: Option<Seq<char>>,
}

impl DeepView for WorktreeBridgeCacheEntry {
    type V = WorktreeBridgeView;

    open spec fn deep_view(&self) -> WorktreeBridgeView {
        WorktreeBridgeView {
            git_entry: self.git_entry,
            is_worktree_bridge: self.is_worktree_bridge,
            git_common_dir: self.git_common_dir.deep_view(),
        }
    }
}

/// What was learned of the worktrees of roots.
#[derive(Debug)]
pub struct WorktreeBridgeCache {
    /// How the roots are spelled.
    pub platform: Platform,
    pub entries: PathMap<WorktreeBridgeCacheEntry>,
}

/// What is known of a root, as long as its `.git` entry is the one it was learned under.
pub open spec fn known_bridge(
    platform: Platform,
    entries: Seq<(Seq<char>, WorktreeBridgeView)>,
    root: Seq<char>,
    signature: GitEntrySignature,
) -> Option<(bool, Option<Seq<char>>)> {
    match path_map::path_get(platform, entries, components(platform, root)) {
        Some(entry) => if entry.git_entry == signature {
            Some((entry.is_worktree_bridge, entry.git_common_dir))
        } else {
            None
        },
        None => None,
    }
}

impl WorktreeBridgeCache {
    pub fn new(platform: Platform) -> (cache: Self)
        ensures
            cache.platform == platform,
            cache.entries.deep_view() == Seq::<(Seq<char>, WorktreeBridgeView)>::empty(),
    {
        WorktreeBridgeCache { platform, entries: PathMap::new() }
    }

    /// What is known of a root, as long as its `.git` entry is the one it was learned under.
    pub fn cached_worktree_bridge(
        &self,
        canonical_root: &str,
        signature: GitEntrySignature,
    ) -> (known:
        Option<(bool, Option<String>)>)
        ensures
            known.deep_view() == known_bridge(
                self.platform,
                self.entries.deep_view(),
                canonical_root@,
                signature,
            ),
    {
        match self.entries.get(self.platform, canonical_root) {
            Some(entry) => {
                if entry.git_entry == signature {
                    let dir = match &entry.git_common_dir {
                        Some(dir) => Some(dir.clone()),
                        None => None,
                    };
                    Some((entry.is_worktree_bridge, dir))
                } else {
                    None
                }
            },
            None => None,
        }
    }

    /// Notes what git said of a root.
    pub fn cache_worktree_bridge(
        &mut self,
        canonical_root: String,
        signature: GitEntrySignature,
        is_worktree_bridge: bool,
        git_common_dir: String,
    )
        ensures
            final(self).platform == old(self).platform,
            final(self).entries.deep_view() == path_map::path_put(
                old(self).platform,
                old(self).entries.deep_view(),
                canonical_root@,
                WorktreeBridgeView {
                    git_entry: signature,
                    is_worktree_bridge,
                    git_common_dir: Some(git_common_dir@),
                },
            ),
    {
        let platform = self.platform;
        self.entries.put(
            platform,
            canonical_root,
            WorktreeBridgeCacheEntry {
                git_entry: signature,
                is_worktree_bridge,
                git_common_dir: Some(git_common_dir),
            },
        );
    }
}

/// What git said of a root is known until the root's `.git` entry changes, in whatever spelling
/// the root is asked for.
pub proof fn law_bridge_is_known_until_git_changes(
    platform: Platform,
    entries: Seq<(Seq<char>, WorktreeBridgeView)>,
    root: Seq<char>,
    asked: Seq<char>,
    learned: WorktreeBridgeView,
    signature: GitEntrySignature,
)
    requires
        same_path(platform, root, asked),
    ensures
        known_bridge(
            platform,
            path_map::path_put(platform, entries, root, learned),
            asked,
            signature,
        ) == (if signature == learned.git_entry {
            Some((learned.is_worktree_bridge, learned.git_common_dir))
        } else {
            None
        }),
{
    path_map::law_put_then_get(platform, entries, root, learned, components(platform, asked));
}

/// One published state of an artifact file.
#[derive(Debug)]
pub struct BorrowedArtifactGeneration {
    pub path: String,
    pub generation: u64,
}

/// What a borrowed index is kept under.
#[derive(Debug)]
pub struct BorrowedIndexCacheKey {
    pub canonical_root: String,
    pub artifact: BorrowedArtifactGeneration,
}

/// The model of [`BorrowedIndexCacheKey`].
#[verifier::ext_equal]
pub struct BorrowedKeyView {
    pub canonical_root: Seq<PartView>,
    pub path: Seq<PartView>,
    pub generation: u64,
}

/// The model of a key on a platform.
pub open spec fn key_view(platform: Platform, key: BorrowedIndexCacheKey) -> BorrowedKeyView {
    BorrowedKeyView {
        canonical_root: components(platform, key.canonical_root@),
        path: components(platform, key.artifact.path@),
        generation: key.artifact.generation,
    }
}

/// The models of entries on a platform.
pub open spec fn keyed(
    platform: Platform,
    entries: Seq<(BorrowedIndexCacheKey, BorrowedIndexCacheValue)>,
) -> Seq<(BorrowedKeyView, BorrowedIndexCacheValue)> {
    Seq::new(entries.len(), |i: int| (key_view(platform, entries[i].0), entries[i].1))
}

/// An artifact that was opened for reading: an index, by the number that the application gave
/// it, or none.
#[derive(Debug, Clone, Copy, PartialEq, Eq, Structural)]
pub enum ReadOnlyArtifact {
    Opened(u64),
    Absent,
    Cancelled,
}

/// A borrowed index.
#[derive(Debug, Clone, Copy, PartialEq, Eq, Structural)]
pub enum BorrowedIndexCacheValue {
    Search(ReadOnlyArtifact),
    Semantic(ReadOnlyArtifact),
}

/// The indexes and roots that are kept, least recent first.
#[derive(Debug)]
pub struct BorrowedIndexCache {
    /// How paths are spelled.
    pub platform: Platform,
    pub entries: Vec<(BorrowedIndexCacheKey, BorrowedIndexCacheValue)>,
    pub resolved_roots: Vec<(String, GitEntrySignature)>,
}

/// The model of [`BorrowedIndexCache`].
#[verifier::ext_equal]
pub struct BorrowedCacheView {
    pub platform: Platform,
    pub entries: Seq<(BorrowedKeyView, BorrowedIndexCacheValue)>,
    pub resolved_roots: Seq<(Seq<char>, GitEntrySignature)>,
}

impl DeepView for BorrowedIndexCache {
    type V = BorrowedCacheView;

    open spec fn deep_view(&self) -> BorrowedCacheView {
        BorrowedCacheView {
            platform: self.platform,
            entries: keyed(self.platform, self.entries@),
            resolved_roots: self.resolved_roots.deep_view(),
        }
    }
}

/// Where the first entry for a key and a kind of index stands; the number of entries where there
/// is none.
pub open spec fn place_of(
    entries: Seq<(BorrowedKeyView, BorrowedIndexCacheValue)>,
    key: BorrowedKeyView,
    semantic: bool,
) -> int
    decreases entries.len(),
{
    if entries.len() == 0 {
        0
    } else if entries[0].0 == key && (entries[0].1 is Semantic) == semantic {
        0
    } else {
        1 + place_of(entries.drop_first(), key, semantic)
    }
}

/// The index of a borrowed value.
pub open spec fn artifact_of(value: BorrowedIndexCacheValue) -> ReadOnlyArtifact {
    match value {
        BorrowedIndexCacheValue::Search(artifact) => artifact,
        BorrowedIndexCacheValue::Semantic(artifact) => artifact,
    }
}

/// The entry at a place becomes the most recent one.
pub open spec fn made_recent<T>(entries: Seq<T>, place: int) -> Seq<T> {
    if 0 <= place < entries.len() {
        entries.remove(place).push(entries[place])
    } else {
        entries
    }
}

/// The most recent of the entries that are kept.
pub open spec fn within_capacity<T>(entries: Seq<T>) -> Seq<T> {
    if entries.len() > BORROWED_INDEX_CACHE_CAPACITY {
        entries.skip(entries.len() - BORROWED_INDEX_CACHE_CAPACITY)
    } else {
        entries
    }
}

/// The entries but for those of one artifact file of one root.
pub open spec fn without_artifact(
    entries: Seq<(BorrowedKeyView, BorrowedIndexCacheValue)>,
    key: BorrowedKeyView,
) -> Seq<(BorrowedKeyView, BorrowedIndexCacheValue)>
    decreases entries.len(),
{
    if entries.len() == 0 {
        entries
    } else {
        let kept = without_artifact(entries.drop_last(), key);
        let last = entries.last();
        if last.0.canonical_root != key.canonical_root || last.0.path != key.path {
            kept.push(last)
        } else {
            kept
        }
    }
}

/// Where a root stands among those resolved; their number where it does not.
pub open spec fn root_place(
    platform: Platform,
    roots: Seq<(Seq<char>, GitEntrySignature)>,
    root: Seq<char>,
) -> int
    decreases roots.len(),
{
    if roots.len() == 0 {
        0
    } else if same_path(platform, roots[0].0, root) {
        0
    } else {
        1 + root_place(platform, roots.drop_first(), root)
    }
}

/// The cache once an index was put in.
pub open spec fn with_index(
    cache: BorrowedCacheView,
    key: BorrowedKeyView,
    value: BorrowedIndexCacheValue,
) -> BorrowedCacheView {
    BorrowedCacheView {
        entries: within_capacity(without_artifact(cache.entries, key).push((key, value))),
        ..cache
    }
}

/// The root that a path was resolved to, as long as its `.git` entry is as it was.
pub open spec fn known_root(
    platform: Platform,
    roots: Seq<(Seq<char>, GitEntrySignature)>,
    root: Seq<char>,
    signature: GitEntrySignature,
) -> Option<Seq<char>> {
    let place = root_place(platform, roots, root);
    if place < roots.len() && roots[place].1 == signature {
        Some(roots[place].0)
    } else {
        None
    }
}

/// The roots once one was looked up: it becomes the most recent one, or is forgotten where its
/// `.git` entry changed.
pub open spec fn roots_looked_up(
    platform: Platform,
    roots: Seq<(Seq<char>, GitEntrySignature)>,
    root: Seq<char>,
    signature: GitEntrySignature,
) -> Seq<(Seq<char>, GitEntrySignature)> {
    let place = root_place(platform, roots, root);
    if known_root(platform, roots, root, signature) is Some {
        made_recent(roots, place)
    } else if place < roots.len() {
        roots.remove(place)
    } else {
        roots
    }
}

/// The roots but for one of them.
pub open spec fn without_root(
    platform: Platform,
    roots: Seq<(Seq<char>, GitEntrySignature)>,
    root: Seq<char>,
) -> Seq<(Seq<char>, GitEntrySignature)>
    decreases roots.len(),
{
    if roots.len() == 0 {
        roots
    } else {
        let kept = without_root(platform, roots.drop_last(), root);
        if same_path(platform, roots.last().0, root) {
            kept
        } else {
            kept.push(roots.last())
        }
    }
}

/// The roots once a resolved one was noted.
pub open spec fn with_root(
    platform: Platform,
    roots: Seq<(Seq<char>, GitEntrySignature)>,
    root: Seq<char>,
    signature: GitEntrySignature,
) -> Seq<(Seq<char>, GitEntrySignature)> {
    within_capacity(without_root(platform, roots, root).push((root, signature)))
}

fn same_key(
    platform: Platform,
    a: &BorrowedIndexCacheKey,
    b: &BorrowedIndexCacheKey,
) -> (same: bool)
    ensures
        same == (key_view(platform, *a) == key_view(platform, *b)),
{
    let same = path_text::is_same_path(
        platform,
        a.canonical_root.as_str(),
        b.canonical_root.as_str(),
    ) && path_text::is_same_path(
        platform,
        a.artifact.path.as_str(),
        b.artifact.path.as_str(),
    ) && a.artifact.generation == b.artifact.generation;
    assert(same ==> key_view(platform, *a) =~= key_view(platform, *b));
    same
}

/// Drops the least recent items until no more than the capacity is left.
fn trim_to_capacity<T>(items: &mut Vec<T>)
    ensures
        final(items)@ == within_capacity(old(items)@),
{
    let ghost all = items@;
    let ghost mut dropped: int = 0;
    assert(all.skip(0) =~= all);
    while items.len() > BORROWED_INDEX_CACHE_CAPACITY
        invariant
            0 <= dropped <= all.len(),
            items@ == all.skip(dropped),
            items@.len() == all.len() - dropped,
            dropped > 0 ==> items@.len() >= BORROWED_INDEX_CACHE_CAPACITY,
        decreases items.len(),
    {
        let _ = items.remove(0);
        proof {
            dropped = dropped + 1;
            assert(items@ =~= all.skip(dropped));
        }
    }
}

impl BorrowedIndexCache {
    pub fn new(platform: Platform) -> (cache: Self)
        ensures
            cache.deep_view() == (BorrowedCacheView {
                platform,
                entries: Seq::empty(),
                resolved_roots: Seq::empty(),
            }),
    {
        BorrowedIndexCache { platform, entries: Vec::new(), resolved_roots: Vec::new() }
    }

    fn find(&self, key: &BorrowedIndexCacheKey, semantic: bool) -> (place: usize)
        ensures
            place == place_of(self.deep_view().entries, key_view(self.platform, *key), semantic),
            place <= self.entries@.len(),
            place < self.entries@.len() ==> (self.entries@[place as int].1 is Semantic) == semantic,
    {
        let ghost all = self.deep_view().entries;
        let ghost wanted = key_view(self.platform, *key);
        let mut i: usize = 0;
        assert(all.skip(0) =~= all);
        while i < self.entries.len()
            invariant
                i <= self.entries.len(),
                all == self.deep_view().entries,
                wanted == key_view(self.platform, *key),
                place_of(all, wanted, semantic) == i + place_of(
                    all.skip(i as int),
                    wanted,
                    semantic,
                ),
            decreases self.entries.len() - i,
        {
            let entry = &self.entries[i];
            let is_semantic = match entry.1 {
                BorrowedIndexCacheValue::Semantic(_) => true,
                BorrowedIndexCacheValue::Search(_) => false,
            };
            assert(all.skip(i as int)[0] == (key_view(self.platform, entry.0), entry.1));
            if is_semantic == semantic && same_key(self.platform, &entry.0, key) {
                return i;
            }
            assert(all.skip(i as int).drop_first() =~= all.skip(i + 1));
            i = i + 1;
        }
        i
    }

    fn touch(&mut self, key: &BorrowedIndexCacheKey, semantic: bool) -> (found: Option<
        ReadOnlyArtifact,
    >)
        ensures
            ({
                let entries = old(self).deep_view().entries;
                let place = place_of(entries, key_view(old(self).platform, *key), semantic);
                &&& found == (if place < entries.len() {
                    Some(artifact_of(entries[place].1))
                } else {
                    None
                })
                &&& final(self).deep_view() == (BorrowedCacheView {
                    entries: made_recent(entries, place),
                    ..old(self).deep_view()
                })
            }),
    {
        let place = self.find(key, semantic);
        if place >= self.entries.len() {
            return None;
        }
        let ghost before = self.deep_view().entries;
        let entry = self.entries.remove(place);
        let artifact = match entry.1 {
            BorrowedIndexCacheValue::Search(artifact) => artifact,
            BorrowedIndexCacheValue::Semantic(artifact) => artifact,
        };
        assert(before[place as int] == (key_view(self.platform, entry.0), entry.1));
        self.entries.push(entry);
        assert(keyed(self.platform, self.entries@) =~= made_recent(before, place as int));
        Some(artifact)
    }

    /// The borrowed search index of a key; it becomes the most recent entry.
    pub fn search(&mut self, key: &BorrowedIndexCacheKey) -> (found: Option<ReadOnlyArtifact>)
        ensures
            ({
                let entries = old(self).deep_view().entries;
                let place = place_of(entries, key_view(old(self).platform, *key), false);
                &&& found == (if place < entries.len() {
                    Some(artifact_of(entries[place].1))
                } else {
                    None
                })
                &&& final(self).deep_view() == (BorrowedCacheView {
                    entries: made_recent(entries, place),
                    ..old(self).deep_view()
                })
            }),
    {
        self.touch(key, false)
    }

    /// The borrowed semantic index of a key; it becomes the most recent entry.
    pub fn semantic(&mut self, key: &BorrowedIndexCacheKey) -> (found: Option<ReadOnlyArtifact>)
        ensures
            ({
                let entries = old(self).deep_view().entries;
                let place = place_of(entries, key_view(old(self).platform, *key), true);
                &&& found == (if place < entries.len() {
                    Some(artifact_of(entries[place].1))
                } else {
                    None
                })
                &&& final(self).deep_view() == (BorrowedCacheView {
                    entries: made_recent(entries, place),
                    ..old(self).deep_view()
                })
            }),
    {
        self.touch(key, true)
    }

    /// Puts an index in as the most recent entry; it replaces what is kept for the same file of
    /// the same root.
    pub fn insert(&mut self, key: BorrowedIndexCacheKey, value: BorrowedIndexCacheValue)
        ensures
            final(self).deep_view() == with_index(
                old(self).deep_view(),
                key_view(old(self).platform, key),
                value,
            ),
    {
        let platform = self.platform;
        let ghost all = self.deep_view().entries;
        let ghost added = key_view(platform, key);
        let mut entries: Vec<(BorrowedIndexCacheKey, BorrowedIndexCacheValue)> = Vec::new();
        std::mem::swap(&mut entries, &mut self.entries);
        assert(keyed(platform, self.entries@) =~= without_artifact(all.take(0), added));
        for entry in iter: entries
            invariant
                iter.seq() == entries@,
                keyed(platform, entries@) == all,
                added == key_view(platform, key),
                platform == self.platform,
                platform == old(self).platform,
                keyed(platform, self.entries@) == without_artifact(all.take(iter.index()), added),
                self.resolved_roots == old(self).resolved_roots,
        {
            let ghost place = iter.index();
            proof {
                assert(all[place] == (key_view(platform, entry.0), entry.1));
                assert(all.take(place + 1).drop_last() =~= all.take(place));
                assert(all.take(place + 1).last() == all[place]);
            }
            if !path_text::is_same_path(
                platform,
                entry.0.canonical_root.as_str(),
                key.canonical_root.as_str(),
            ) || !path_text::is_same_path(
                platform,
                entry.0.artifact.path.as_str(),
                key.artifact.path.as_str(),
            ) {
                let ghost before = keyed(platform, self.entries@);
                self.entries.push(entry);
                assert(keyed(platform, self.entries@) =~= before.push(all[place]));
            }
        }
        assert(all.take(all.len() as int) =~= all);
        let ghost before = keyed(platform, self.entries@);
        self.entries.push((key, value));
        let ghost longer = self.entries@;
        assert(keyed(platform, longer) =~= before.push((added, value)));
        trim_to_capacity(&mut self.entries);
        assert(keyed(platform, self.entries@) =~= within_capacity(keyed(platform, longer)));
    }

    /// The root that a path was resolved to, as long as its `.git` entry is as it was; the entry
    /// is otherwise forgotten.
    pub fn resolved_root(&mut self, requested_root: &str, signature: GitEntrySignature) -> (root:
        Option<String>)
        ensures
            root.deep_view() == known_root(
                old(self).platform,
                old(self).deep_view().resolved_roots,
                requested_root@,
                signature,
            ),
            final(self).deep_view() == (BorrowedCacheView {
                resolved_roots: roots_looked_up(
                    old(self).platform,
                    old(self).deep_view().resolved_roots,
                    requested_root@,
                    signature,
                ),
                ..old(self).deep_view()
            }),
    {
        let ghost all = self.deep_view().resolved_roots;
        let mut i: usize = 0;
        assert(all.skip(0) =~= all);
        while i < self.resolved_roots.len() && !path_text::is_same_path(
            self.platform,
            self.resolved_roots[i].0.as_str(),
            requested_root,
        )
            invariant
                i <= self.resolved_roots.len(),
                all == self.deep_view().resolved_roots,
                self.deep_view() == old(self).deep_view(),
                root_place(self.platform, all, requested_root@) == i + root_place(
                    self.platform,
                    all.skip(i as int),
                    requested_root@,
                ),
            decreases self.resolved_roots.len() - i,
        {
            proof {
                assert(all.skip(i as int)[0] == self.resolved_roots@[i as int].deep_view());
                assert(all.skip(i as int).drop_first() =~= all.skip(i + 1));
            }
            i = i + 1;
        }
        if i >= self.resolved_roots.len() {
            return None;
        }
        proof {
            assert(all.skip(i as int)[0] == self.resolved_roots@[i as int].deep_view());
        }
        let entry = self.resolved_roots.remove(i);
        assert(all[i as int] == entry.deep_view());
        assert(self.resolved_roots.deep_view() =~= all.remove(i as int));
        if entry.1 != signature {
            return None;
        }
        let root = entry.0.clone();
        self.resolved_roots.push(entry);
        assert(self.resolved_roots.deep_view() =~= made_recent(all, i as int));
        Some(root)
    }

    /// Notes a resolved root as the most recent one.
    pub fn remember_resolved_root(&mut self, root: String, signature: GitEntrySignature)
        ensures
            final(self).deep_view() == (BorrowedCacheView {
                resolved_roots: with_root(
                    old(self).platform,
                    old(self).deep_view().resolved_roots,
                    root@,
                    signature,
                ),
                ..old(self).deep_view()
            }),
    {
        let platform = self.platform;
        let ghost start = self.deep_view();
        let ghost all = start.resolved_roots;
        let ghost added = root@;
        let mut roots: Vec<(String, GitEntrySignature)> = Vec::new();
        std::mem::swap(&mut roots, &mut self.resolved_roots);
        let mut next: Vec<(String, GitEntrySignature)> = Vec::new();
        assert(next.deep_view() =~= without_root(platform, all.take(0), added));
        for known in iter: roots
            invariant
                iter.seq() == roots@,
                roots.deep_view() == all,
                added == root@,
                next.deep_view() == without_root(platform, all.take(iter.index()), added),
        {
            let ghost place = iter.index();
            let ghost item = known.deep_view();
            proof {
                assert(all[place] == item);
                assert(all.take(place + 1).drop_last() =~= all.take(place));
                assert(all.take(place + 1).last() == all[place]);
            }
            if !path_text::is_same_path(platform, known.0.as_str(), root.as_str()) {
                let ghost before = next.deep_view();
                next.push(known);
                assert(next.deep_view() =~= before.push(item));
            }
        }
        assert(all.take(all.len() as int) =~= all);
        let ghost before = next.deep_view();
        next.push((root, signature));
        assert(next.deep_view() =~= before.push((added, signature)));
        let ghost longer = next.deep_view();
        trim_to_capacity(&mut next);
        assert(next.deep_view() =~= within_capacity(longer));
        self.resolved_roots = next;
        assert(self.deep_view() =~= BorrowedCacheView {
            resolved_roots: with_root(platform, start.resolved_roots, added, signature),
            ..start
        });
    }

    /// Starts to resolve a path in another checkout to its root. `requested` is the canonical
    /// form of an absolute path that exists, with the signature of the `.git` entry below it; the
    /// answer is the root where it is known, and `None` where it has to be resolved.
    pub fn resolve_external_git_root(
        &mut self,
        requested: Option<(&str, GitEntrySignature)>,
    ) -> (root:
        Option<String>)
        ensures
            match requested {
                Some((path, signature)) => {
                    &&& root.deep_view() == known_root(
                        old(self).platform,
                        old(self).deep_view().resolved_roots,
                        path@,
                        signature,
                    )
                    &&& final(self).deep_view() == (BorrowedCacheView {
                        resolved_roots: roots_looked_up(
                            old(self).platform,
                            old(self).deep_view().resolved_roots,
                            path@,
                            signature,
                        ),
                        ..old(self).deep_view()
                    })
                },
                None => root is None && final(self).deep_view() == old(self).deep_view(),
            },
    {
        match requested {
            Some((path, signature)) => self.resolved_root(path, signature),
            None => None,
        }
    }

    /// Takes up the root that a path was resolved to: it is remembered only where the path is
    /// the root itself.
    pub fn note_external_git_root(
        &mut self,
        requested: Option<&str>,
        root: String,
        signature: GitEntrySignature,
    )
        ensures
            final(self).deep_view() == (if requested matches Some(path) && same_path(
                old(self).platform,
                path@,
                root@,
            ) {
                BorrowedCacheView {
                    resolved_roots: with_root(
                        old(self).platform,
                        old(self).deep_view().resolved_roots,
                        root@,
                        signature,
                    ),
                    ..old(self).deep_view()
                }
            } else {
                old(self).deep_view()
            }),
    {
        if let Some(path) = requested {
            if path_text::is_same_path(self.platform, path, root.as_str()) {
                self.remember_resolved_root(root, signature);
            }
        }
    }

    /// Forgets everything.
    pub fn clear(&mut self)
        ensures
            final(self).deep_view() == (BorrowedCacheView {
                platform: old(self).platform,
                entries: Seq::empty(),
                resolved_roots: Seq::empty(),
            }),
    {
        self.entries = Vec::new();
        self.resolved_roots = Vec::new();
        assert(self.deep_view().entries =~= Seq::empty());
        assert(self.deep_view().resolved_roots =~= Seq::empty());
    }

    /// Takes up what was opened for a key: an index is kept, but an artifact that is absent, or
    /// whose opening was cancelled, is not.
    pub fn keep_opened(
        &mut self,
        key: BorrowedIndexCacheKey,
        opened: ReadOnlyArtifact,
        semantic: bool,
    ) -> (out: ReadOnlyArtifact)
        ensures
            out == opened,
            final(self).deep_view() == (if opened is Opened {
                with_index(
                    old(self).deep_view(),
                    key_view(old(self).platform, key),
                    if semantic {
                        BorrowedIndexCacheValue::Semantic(opened)
                    } else {
                        BorrowedIndexCacheValue::Search(opened)
                    },
                )
            } else {
                old(self).deep_view()
            }),
    {
        match opened {
            ReadOnlyArtifact::Opened(_) => {
                let value = if semantic {
                    BorrowedIndexCacheValue::Semantic(opened)
                } else {
                    BorrowedIndexCacheValue::Search(opened)
                };
                self.insert(key, value);
            },
            _ => {},
        }
        opened
    }
}

/// What to do for a request for a borrowed index.
#[derive(Debug)]
pub enum BorrowStep {
    /// The answer is known.
    Answer(ReadOnlyArtifact),
    /// Open the artifact and hand it to [`BorrowedIndexCache::keep_opened`].
    Open(BorrowedIndexCacheKey),
}

impl BorrowedIndexCache {
    /// Starts a request for a borrowed index of a root: without a published artifact there is
    /// none, a kept one is handed out, and another one is opened.
    pub fn open_borrowed_index(
        &mut self,
        canonical_root: String,
        artifact: Option<BorrowedArtifactGeneration>,
        semantic: bool,
    ) -> (step: BorrowStep)
        ensures
            match artifact {
                None => {
                    &&& step == BorrowStep::Answer(ReadOnlyArtifact::Absent)
                    &&& final(self).deep_view() == old(self).deep_view()
                },
                Some(artifact) => {
                    let key = BorrowedIndexCacheKey { canonical_root, artifact };
                    let entries = old(self).deep_view().entries;
                    let place = place_of(entries, key_view(old(self).platform, key), semantic);
                    &&& step == (if place < entries.len() {
                        BorrowStep::Answer(artifact_of(entries[place].1))
                    } else {
                        BorrowStep::Open(key)
                    })
                    &&& final(self).deep_view() == (BorrowedCacheView {
                        entries: made_recent(entries, place),
                        ..old(self).deep_view()
                    })
                },
            },
    {
        match artifact {
            None => BorrowStep::Answer(ReadOnlyArtifact::Absent),
            Some(artifact) => {
                let key = BorrowedIndexCacheKey { canonical_root, artifact };
                match self.touch(&key, semantic) {
                    Some(found) => BorrowStep::Answer(found),
                    None => BorrowStep::Open(key),
                }
            },
        }
    }
}

/// No more indexes are kept than the capacity.
pub proof fn law_cache_stays_within_capacity(
    cache: BorrowedCacheView,
    key: BorrowedKeyView,
    value: BorrowedIndexCacheValue,
)
    ensures
        with_index(cache, key, value).entries.len() <= BORROWED_INDEX_CACHE_CAPACITY,
{
}

/// An index that was put in is found afterwards, whichever was kept before.
pub proof fn law_inserted_index_is_found(
    cache: BorrowedCacheView,
    key: BorrowedKeyView,
    value: BorrowedIndexCacheValue,
)
    ensures
        ({
            let entries = with_index(cache, key, value).entries;
            let place = place_of(entries, key, value is Semantic);
            place < entries.len() && entries[place].1 == value
        }),
{
    let kept = without_artifact(cache.entries, key);
    lemma_without_artifact(cache.entries, key);
    let entries = with_index(cache, key, value).entries;
    let last = entries.len() - 1;
    assert(entries[last] == (key, value));
    assert forall|k: int| 0 <= k < last implies #[trigger] entries[k].0 != key by {
        let shift = if kept.len() + 1 > BORROWED_INDEX_CACHE_CAPACITY {
            kept.len() + 1 - BORROWED_INDEX_CACHE_CAPACITY
        } else {
            0
        };
        assert(entries[k] == kept[k + shift]);
    }
    lemma_place(entries, key, value is Semantic, last);
}

/// No entry of the artifact file is left.
proof fn lemma_without_artifact(
    entries: Seq<(BorrowedKeyView, BorrowedIndexCacheValue)>,
    key: BorrowedKeyView,
)
    ensures
        forall|k: int|
            0 <= k < without_artifact(entries, key).len() ==> {
                let entry = #[trigger] without_artifact(entries, key)[k];
                entry.0.canonical_root != key.canonical_root || entry.0.path != key.path
            },
    decreases entries.len(),
{
    if entries.len() > 0 {
        let kept = without_artifact(entries.drop_last(), key);
        lemma_without_artifact(entries.drop_last(), key);
        let out = without_artifact(entries, key);
        assert forall|k: int| 0 <= k < out.len() implies {
            let entry = #[trigger] out[k];
            entry.0.canonical_root != key.canonical_root || entry.0.path != key.path
        } by {
            if k < kept.len() {
                assert(out[k] == kept[k]);
            }
        }
    }
}

/// An entry that no earlier one shares its key with is the first.
proof fn lemma_place(
    entries: Seq<(BorrowedKeyView, BorrowedIndexCacheValue)>,
    key: BorrowedKeyView,
    semantic: bool,
    place: int,
)
    requires
        0 <= place < entries.len(),
        entries[place].0 == key,
        (entries[place].1 is Semantic) == semantic,
        forall|k: int| 0 <= k < place ==> #[trigger] entries[k].0 != key,
    ensures
        place_of(entries, key, semantic) == place,
    decreases place,
{
    if place > 0 {
        let rest = entries.drop_first();
        assert forall|k: int| 0 <= k < place - 1 implies #[trigger] rest[k].0 != key by {
            assert(rest[k] == entries[k + 1]);
        }
        assert(entries[0].0 != key);
        lemma_place(rest, key, semantic, place - 1);
    }
}

/// The entries of other artifact files than that of a key.
pub open spec fn of_other_files(key: BorrowedKeyView) -> spec_fn(
    (BorrowedKeyView, BorrowedIndexCacheValue),
) -> bool {
    |entry: (BorrowedKeyView, BorrowedIndexCacheValue)|
        !(entry.0.canonical_root == key.canonical_root && entry.0.path == key.path)
}

/// The roots that are other paths than a root.
pub open spec fn of_other_roots(platform: Platform, root: Seq<char>) -> spec_fn(
    (Seq<char>, GitEntrySignature),
) -> bool {
    |entry: (Seq<char>, GitEntrySignature)| components(platform, entry.0) != components(platform, root)
}

proof fn lemma_without_artifact_is_filtered(
    entries: Seq<(BorrowedKeyView, BorrowedIndexCacheValue)>,
    key: BorrowedKeyView,
)
    ensures
        without_artifact(entries, key) == entries.filter(of_other_files(key)),
    decreases entries.len(),
{
    reveal(Seq::filter);
    if entries.len() > 0 {
        lemma_without_artifact_is_filtered(entries.drop_last(), key);
    } else {
        assert(entries =~= entries.filter(of_other_files(key)));
    }
}

proof fn lemma_without_root_is_filtered(
    platform: Platform,
    roots: Seq<(Seq<char>, GitEntrySignature)>,
    root: Seq<char>,
)
    ensures
        without_root(platform, roots, root) == roots.filter(of_other_roots(platform, root)),
    decreases roots.len(),
{
    reveal(Seq::filter);
    if roots.len() > 0 {
        lemma_without_root_is_filtered(platform, roots.drop_last(), root);
    } else {
        assert(roots =~= roots.filter(of_other_roots(platform, root)));
    }
}

/// A new index replaces every earlier state of its artifact file and becomes the most recent one.
/// The indexes of other files stay in order; only where four of them are kept already do the least
/// recent ones make room. The resolved roots stay as they are.
pub proof fn law_new_index_displaces_the_least_recent(
    cache: BorrowedCacheView,
    key: BorrowedKeyView,
    value: BorrowedIndexCacheValue,
)
    ensures
        ({
            let others = cache.entries.filter(of_other_files(key));
            let after = with_index(cache, key, value);
            &&& after.resolved_roots == cache.resolved_roots
            &&& after.platform == cache.platform
            &&& others.len() <= 3 ==> after.entries == others.push((key, value))
            &&& others.len() > 3 ==> after.entries == others.skip(others.len() - 3).push((key, value))
        }),
{
    lemma_without_artifact_is_filtered(cache.entries, key);
    let others = cache.entries.filter(of_other_files(key));
    if others.len() > 3 {
        assert(others.push((key, value)).skip(others.len() + 1 - 4) =~= others.skip(
            others.len() - 3,
        ).push((key, value)));
    }
}

/// A root that is remembered replaces what was known of it and becomes the most recent one; of the
/// others, the least recent make room.
pub proof fn law_new_root_displaces_the_least_recent(
    platform: Platform,
    roots: Seq<(Seq<char>, GitEntrySignature)>,
    root: Seq<char>,
    signature: GitEntrySignature,
)
    ensures
        ({
            let others = roots.filter(of_other_roots(platform, root));
            let after = with_root(platform, roots, root, signature);
            &&& others.len() <= 3 ==> after == others.push((root, signature))
            &&& others.len() > 3 ==> after == others.skip(others.len() - 3).push((root, signature))
        }),
{
    lemma_without_root_is_filtered(platform, roots, root);
    let others = roots.filter(of_other_roots(platform, root));
    if others.len() > 3 {
        assert(others.push((root, signature)).skip(others.len() + 1 - 4) =~= others.skip(
            others.len() - 3,
        ).push((root, signature)));
    }
}

/// The first entry of a key and of the kind asked for is the one that is found, and without one
/// nothing is.
pub proof fn law_index_is_found_by_key_and_kind(
    entries: Seq<(BorrowedKeyView, BorrowedIndexCacheValue)>,
    key: BorrowedKeyView,
    semantic: bool,
)
    ensures
        ({
            let place = place_of(entries, key, semantic);
            &&& 0 <= place <= entries.len()
            &&& place < entries.len() ==> entries[place].0 == key && (entries[place].1 is Semantic
                <==> semantic)
            &&& forall|i: int|
                0 <= i < place ==> !((#[trigger] entries[i]).0 == key && (entries[i].1 is Semantic
                    <==> semantic))
        }),
    decreases entries.len(),
{
    if entries.len() > 0 && !(entries[0].0 == key && (entries[0].1 is Semantic) == semantic) {
        let rest = entries.drop_first();
        law_index_is_found_by_key_and_kind(rest, key, semantic);
        let place = place_of(entries, key, semantic);
        assert forall|i: int| 0 <= i < place implies !((#[trigger] entries[i]).0 == key && (
        entries[i].1 is Semantic <==> semantic)) by {
            if i > 0 {
                assert(rest[i - 1] == entries[i]);
            }
        }
    }
}

/// What is kept is handed out as it was put in, whichever kind of index it is.
pub proof fn law_kept_index_is_handed_out(artifact: ReadOnlyArtifact)
    ensures
        artifact_of(BorrowedIndexCacheValue::Search(artifact)) == artifact,
        artifact_of(BorrowedIndexCacheValue::Semantic(artifact)) == artifact,
{
}

/// An entry that is looked up becomes the last one, the others keep their order, and none is lost.
pub proof fn law_looked_up_entry_becomes_recent<T>(entries: Seq<T>, place: int, i: int)
    requires
        0 <= place < entries.len(),
        0 <= i < entries.len() - 1,
    ensures
        made_recent(entries, place).len() == entries.len(),
        made_recent(entries, place).last() == entries[place],
        made_recent(entries, place)[i] == (if i < place {
            entries[i]
        } else {
            entries[i + 1]
        }),
        made_recent(entries, entries.len() as int) == entries,
{
}

/// Two keys are the same where they stand for the same root, the same artifact file and the same
/// published state, however the paths are spelled.
pub proof fn law_keys_stand_for_published_states(
    platform: Platform,
    a: BorrowedIndexCacheKey,
    b: BorrowedIndexCacheKey,
)
    ensures
        key_view(platform, a) == key_view(platform, b) <==> same_path(
            platform,
            a.canonical_root@,
            b.canonical_root@,
        ) && same_path(platform, a.artifact.path@, b.artifact.path@) && a.artifact.generation
            == b.artifact.generation,
{
    if same_path(platform, a.canonical_root@, b.canonical_root@) && same_path(
        platform,
        a.artifact.path@,
        b.artifact.path@,
    ) && a.artifact.generation == b.artifact.generation {
        assert(key_view(platform, a) =~= key_view(platform, b));
    }
}

proof fn lemma_root_place(
    platform: Platform,
    roots: Seq<(Seq<char>, GitEntrySignature)>,
    root: Seq<char>,
)
    ensures
        ({
            let place = root_place(platform, roots, root);
            &&& 0 <= place <= roots.len()
            &&& place < roots.len() ==> same_path(platform, roots[place].0, root)
            &&& forall|i: int|
                0 <= i < place ==> !same_path(platform, (#[trigger] roots[i]).0, root)
        }),
    decreases roots.len(),
{
    if roots.len() > 0 && !same_path(platform, roots[0].0, root) {
        let rest = roots.drop_first();
        lemma_root_place(platform, rest, root);
        let place = root_place(platform, roots, root);
        assert forall|i: int| 0 <= i < place implies !same_path(
            platform,
            (#[trigger] roots[i]).0,
            root,
        ) by {
            if i > 0 {
                assert(rest[i - 1] == roots[i]);
            }
        }
    }
}

/// A root that was resolved is known until its `.git` entry changes: `i` is where it is kept. Asked
/// for with another signature it is forgotten, asked for with its own it becomes the most recent
/// one.
pub proof fn law_root_is_known_until_git_changes(
    platform: Platform,
    roots: Seq<(Seq<char>, GitEntrySignature)>,
    i: int,
    asked: Seq<char>,
    signature: GitEntrySignature,
)
    requires
        0 <= i < roots.len(),
        same_path(platform, roots[i].0, asked),
        forall|k: int| 0 <= k < i ==> !same_path(platform, (#[trigger] roots[k]).0, asked),
    ensures
        roots[i].1 == signature ==> {
            &&& known_root(platform, roots, asked, signature) == Some(roots[i].0)
            &&& roots_looked_up(platform, roots, asked, signature) == roots.remove(i).push(roots[i])
        },
        roots[i].1 != signature ==> {
            &&& known_root(platform, roots, asked, signature) is None
            &&& roots_looked_up(platform, roots, asked, signature) == roots.remove(i)
        },
{
    lemma_root_place(platform, roots, asked);
    let place = root_place(platform, roots, asked);
    if place < i {
        assert(!same_path(platform, roots[place].0, asked));
    }
}

/// A root that was never resolved is not known, and asking for it changes nothing.
pub proof fn law_unresolved_root_is_unknown(
    platform: Platform,
    roots: Seq<(Seq<char>, GitEntrySignature)>,
    asked: Seq<char>,
    signature: GitEntrySignature,
)
    requires
        forall|k: int| 0 <= k < roots.len() ==> !same_path(platform, (#[trigger] roots[k]).0, asked),
    ensures
        known_root(platform, roots, asked, signature) is None,
        roots_looked_up(platform, roots, asked, signature) == roots,
{
    lemma_root_place(platform, roots, asked);
}

/// The kinds of entries are told apart, only an entry that was looked at has a time, and only one
/// that is not there is missing.
pub proof fn law_signature_tells_the_entry(probe: EntryProbe, modified: Option<u64>)
    ensures
        entry_signature(probe, modified).kind == GitEntryKind::Missing <==> probe
            == EntryProbe::NotFound,
        entry_signature(probe, modified).kind == GitEntryKind::File <==> probe == EntryProbe::File,
        entry_signature(probe, modified).kind == GitEntryKind::Directory <==> probe
            == EntryProbe::Directory,
        entry_signature(probe, modified).modified == (if probe == EntryProbe::NotFound || probe
            == EntryProbe::Failed {
            None
        } else {
            modified
        }),
{
}

} // verus!
