//! What the roots of one process share: the database handle, the counts of watchers, roots and
//! routes, and the choice of a root whose semantic index another root may adopt.

use vstd::prelude::*;
use vstd::string::*;

use crate::config::Platform;
use crate::path_text;
use crate::path_text::same_path;
use crate::semantic_status::{SemanticIndexStatus, SemanticStatusView};
use crate::text;

verus! {

/// The database that is open, by the path it was opened under and the number that the
/// application gave the connection.
#[derive(Debug)]
pub struct OpenDatabase {
    pub path: String,
    pub connection: u64,
}

/// What the roots of one process share.
#[derive(Debug)]
pub struct App {
    /// How paths are spelled.
    pub platform: Platform,
    pub db: Option<OpenDatabase>,
    pub active_watchers: usize,
    pub active_actor_roots: usize,
    pub open_routes: usize,
}

/// One more, starting again at zero after the largest number.
pub open spec fn one_more(count: usize) -> usize {
    if count == usize::MAX {
        0
    } else {
        (count + 1) as usize
    }
}

/// One less, but not below zero.
pub open spec fn one_less(count: usize) -> usize {
    if count == 0 {
        0
    } else {
        (count - 1) as usize
    }
}

impl App {
    pub fn new(platform: Platform) -> (app: Self)
        ensures
            app == (App {
                platform,
                db: None,
                active_watchers: 0,
                active_actor_roots: 0,
                open_routes: 0,
            }),
    {
        App { platform, db: None, active_watchers: 0, active_actor_roots: 0, open_routes: 0 }
    }

    /// The connection that is open under a path, where there is one; another one has to be
    /// opened and handed to [`App::install_db`].
    pub fn open_db(&self, key: &str) -> (connection: Option<u64>)
        ensures
            connection == (match self.db {
                Some(open) => if same_path(self.platform, open.path@, key@) {
                    Some(open.connection)
                } else {
                    None
                },
                None => None,
            }),
    {
        match &self.db {
            Some(open) => {
                if path_text::is_same_path(self.platform, open.path.as_str(), key) {
                    Some(open.connection)
                } else {
                    None
                }
            },
            None => None,
        }
    }

    /// Takes over a connection that was opened under a path.
    pub fn install_db(&mut self, key: String, connection: u64)
        ensures
            *final(self) == (App {
                db: Some(OpenDatabase { path: key, connection }),
                ..*old(self)
            }),
    {
        self.db = Some(OpenDatabase { path: key, connection });
    }

    /// Takes over a connection that belongs to no path.
    pub fn set_db(&mut self, connection: u64)
        ensures
            final(self).db matches Some(open) && open.path@ == Seq::<char>::empty()
                && open.connection == connection,
            *final(self) == (App { db: final(self).db, ..*old(self) }),
    {
        self.db = Some(OpenDatabase { path: String::new(), connection });
    }

    pub fn clear_db(&mut self)
        ensures
            *final(self) == (App { db: None, ..*old(self) }),
    {
        self.db = None;
    }

    /// Drops the connection where it is that of a path, or of none: another root's database
    /// stays.
    pub fn clear_db_for_path(&mut self, key: &str)
        ensures
            *final(self) == (App {
                db: without_db_of(old(self).platform, old(self).db, key@),
                ..*old(self)
            }),
    {
        let matches_path = match &self.db {
            Some(open) => {
                open.path.as_str().is_empty() || path_text::is_same_path(
                    self.platform,
                    open.path.as_str(),
                    key,
                )
            },
            None => false,
        };
        if matches_path {
            self.db = None;
        }
    }

    /// The connection that is open.
    pub fn db(&self) -> (connection: Option<u64>)
        ensures
            connection == (match self.db {
                Some(open) => Some(open.connection),
                None => None,
            }),
    {
        match &self.db {
            Some(open) => Some(open.connection),
            None => None,
        }
    }

    pub fn watcher_started(&mut self)
        ensures
            *final(self) == (App {
                active_watchers: one_more(old(self).active_watchers),
                ..*old(self)
            }),
    {
        self.active_watchers = self.active_watchers.wrapping_add(1);
    }

    pub fn watcher_stopped(&mut self)
        ensures
            *final(self) == (App {
                active_watchers: one_less(old(self).active_watchers),
                ..*old(self)
            }),
    {
        self.active_watchers = self.active_watchers.saturating_sub(1);
    }

    pub fn watcher_count(&self) -> (count: usize)
        ensures
            count == self.active_watchers,
    {
        self.active_watchers
    }

    pub fn actor_root_registered(&mut self)
        ensures
            *final(self) == (App {
                active_actor_roots: one_more(old(self).active_actor_roots),
                ..*old(self)
            }),
    {
        self.active_actor_roots = self.active_actor_roots.wrapping_add(1);
    }

    pub fn actor_root_unregistered(&mut self)
        ensures
            *final(self) == (App {
                active_actor_roots: one_less(old(self).active_actor_roots),
                ..*old(self)
            }),
    {
        self.active_actor_roots = self.active_actor_roots.saturating_sub(1);
    }

    pub fn actor_root_count(&self) -> (count: usize)
        ensures
            count == self.active_actor_roots,
    {
        self.active_actor_roots
    }

    pub fn set_open_route_count(&mut self, count: usize)
        ensures
            *final(self) == (App { open_routes: count, ..*old(self) }),
    {
        self.open_routes = count;
    }

    pub fn open_route_count(&self) -> (count: usize)
        ensures
            count == self.open_routes,
    {
        self.open_routes
    }
}

/// The database once that of a path was dropped: one of another path stays.
pub open spec fn without_db_of(
    platform: Platform,
    db: Option<OpenDatabase>,
    key: Seq<char>,
) -> Option<OpenDatabase> {
    match db {
        Some(open) => if open.path@.len() == 0 || same_path(platform, open.path@, key) {
            None
        } else {
            Some(open)
        },
        None => None,
    }
}

/// A failed configure of one root does not drop the database that another root uses.
pub proof fn law_other_roots_keep_the_database(
    platform: Platform,
    open: OpenDatabase,
    other: Seq<char>,
)
    requires
        open.path@.len() > 0,
        !same_path(platform, open.path@, other),
    ensures
        without_db_of(platform, Some(open), other) == Some(open),
        without_db_of(platform, Some(open), open.path@) is None,
{
}

/// The key of a database: its canonical path; where it does not exist, its name below its
/// canonical directory.
pub fn database_path_key(
    platform: Platform,
    path: &str,
    canonical: Option<&str>,
    parent: Option<&str>,
    canonical_parent: Option<&str>,
    file_name: Option<&str>,
) -> (key: String)
    ensures
        key@ == database_key(
            platform,
            path@,
            canonical.deep_view(),
            parent.deep_view(),
            canonical_parent.deep_view(),
            file_name.deep_view(),
        ),
{
    if let Some(canonical) = canonical {
        return canonical.to_owned();
    }
    let parent = match parent {
        Some(parent) => parent,
        None => {
            return path.to_owned();
        },
    };
    let directory = match canonical_parent {
        Some(canonical) => canonical,
        None => parent,
    };
    match file_name {
        Some(name) => path_text::join_path(platform, directory, name),
        None => path_text::join_path(platform, directory, path),
    }
}

/// The key of a database.
pub open spec fn database_key(
    platform: Platform,
    path: Seq<char>,
    canonical: Option<Seq<char>>,
    parent: Option<Seq<char>>,
    canonical_parent: Option<Seq<char>>,
    file_name: Option<Seq<char>>,
) -> Seq<char> {
    match (canonical, parent) {
        (Some(canonical), _) => canonical,
        (None, None) => path,
        (None, Some(parent)) => path_text::seen_from(
            platform,
            match canonical_parent {
                Some(canonical) => canonical,
                None => parent,
            },
            match file_name {
                Some(name) => name,
                None => path,
            },
        ),
    }
}

/// A root that is registered in this process, as far as its semantic index may be adopted.
#[derive(Debug)]
pub struct ResidentRoot {
    /// The root that it is registered under, in the form that roots are compared in.
    pub registered_root: String,
    /// The canonical root of its caches, in the same form.
    pub cache_root: Option<String>,
    /// The key of its shared artifacts.
    pub artifact_cache_key: Option<String>,
    /// What its semantic index is doing.
    pub semantic: SemanticIndexStatus,
}

/// Whether the semantic index of a root may be adopted by another: another root of the same
/// artifacts whose index is settled.
pub open spec fn may_lend(
    platform: Platform,
    candidate: ResidentRoot,
    borrower: Seq<char>,
    key: Seq<char>,
) -> bool {
    &&& !same_path(platform, candidate.registered_root@, borrower)
    &&& candidate.cache_root matches Some(root) && same_path(
        platform,
        root@,
        candidate.registered_root@,
    )
    &&& candidate.artifact_cache_key.deep_view() == Some(key)
    &&& candidate.semantic.deep_view() matches SemanticStatusView::Ready { refreshing, .. }
        && refreshing.len() == 0
}

fn lends(platform: Platform, candidate: &ResidentRoot, borrower: &str, key: &str) -> (yes: bool)
    ensures
        yes == may_lend(platform, *candidate, borrower@, key@),
{
    if path_text::is_same_path(platform, candidate.registered_root.as_str(), borrower) {
        return false;
    }
    let own = match &candidate.cache_root {
        Some(root) => path_text::is_same_path(
            platform,
            root.as_str(),
            candidate.registered_root.as_str(),
        ),
        None => false,
    };
    let same_key = match &candidate.artifact_cache_key {
        Some(known) => text::same_text(known.as_str(), key),
        None => false,
    };
    own && same_key && candidate.semantic.is_settled()
}

/// The roots whose semantic index may be adopted, by their places, in order: the application
/// asks each in turn until one lends its index.
pub fn adopt_resident_semantic_index(
    platform: Platform,
    candidates: &Vec<ResidentRoot>,
    borrower: &str,
    artifact_cache_key: &str,
) -> (lenders: Vec<usize>)
    ensures
        forall|k: int|
            0 <= k < lenders@.len() ==> (#[trigger] lenders@[k]) < candidates@.len() && may_lend(
                platform,
                candidates@[lenders@[k] as int],
                borrower@,
                artifact_cache_key@,
            ),
        forall|i: int, j: int| 0 <= i < j < lenders@.len() ==> lenders@[i] < lenders@[j],
        forall|i: int|
            0 <= i < candidates@.len() && may_lend(
                platform,
                #[trigger] candidates@[i],
                borrower@,
                artifact_cache_key@,
            ) ==> lenders@.contains(i as usize),
{
    let mut lenders: Vec<usize> = Vec::new();
    let mut i: usize = 0;
    while i < candidates.len()
        invariant
            i <= candidates@.len(),
            forall|k: int|
                0 <= k < lenders@.len() ==> (#[trigger] lenders@[k]) < i && may_lend(
                    platform,
                    candidates@[lenders@[k] as int],
                    borrower@,
                    artifact_cache_key@,
                ),
            forall|a: int, b: int| 0 <= a < b < lenders@.len() ==> lenders@[a] < lenders@[b],
            forall|j: int|
                0 <= j < i && may_lend(
                    platform,
                    #[trigger] candidates@[j],
                    borrower@,
                    artifact_cache_key@,
                ) ==> lenders@.contains(j as usize),
        decreases candidates.len() - i,
    {
        if lends(platform, &candidates[i], borrower, artifact_cache_key) {
            let ghost before = lenders@;
            lenders.push(i);
            proof {
                assert(lenders@[before.len() as int] == i);
                assert forall|j: int|
                    0 <= j < i + 1 && may_lend(
                        platform,
                        #[trigger] candidates@[j],
                        borrower@,
                        artifact_cache_key@,
                    ) implies lenders@.contains(j as usize) by {
                    if j < i {
                        let k = choose|k: int| 0 <= k < before.len() && before[k] == j as usize;
                        assert(lenders@[k] == j as usize);
                    }
                }
            }
        }
        i = i + 1;
    }
    lenders
}

/// A count goes up and down by one, and not below zero.
pub proof fn law_counts_go_by_one(count: usize)
    ensures
        count < usize::MAX ==> one_more(count) == count + 1,
        count < usize::MAX ==> one_less(one_more(count)) == count,
        count > 0 ==> one_less(count) == count - 1,
        one_less(0) == 0,
{
}

/// The database of a path is dropped under any spelling of that path; without a path, whatever
/// database is open is.
pub proof fn law_database_is_dropped_under_its_path(
    platform: Platform,
    open: OpenDatabase,
    key: Seq<char>,
)
    ensures
        same_path(platform, open.path@, key) ==> without_db_of(platform, Some(open), key) is None,
        open.path@.len() == 0 ==> without_db_of(platform, Some(open), key) is None,
        without_db_of(platform, None, key) is None,
{
}

/// A database goes by its canonical path. One that does not exist yet goes by its name below its
/// directory, canonical where that is known; a path without a directory goes by itself.
pub proof fn law_database_goes_by_its_canonical_path(
    platform: Platform,
    path: Seq<char>,
    canonical: Seq<char>,
    parent: Option<Seq<char>>,
    directory: Seq<char>,
    canonical_parent: Option<Seq<char>>,
    name: Seq<char>,
    file_name: Option<Seq<char>>,
)
    ensures
        database_key(platform, path, Some(canonical), parent, canonical_parent, file_name)
            == canonical,
        database_key(platform, path, None, None, canonical_parent, file_name) == path,
        database_key(platform, path, None, Some(directory), Some(canonical), Some(name))
            == path_text::seen_from(platform, canonical, name),
        database_key(platform, path, None, Some(directory), None, Some(name))
            == path_text::seen_from(platform, directory, name),
        database_key(platform, path, None, Some(directory), Some(canonical), None)
            == path_text::seen_from(platform, canonical, path),
{
}

/// No root lends its index to itself, and none that is not settled, not its own cache root or of
/// other artifacts does; every other root does.
pub proof fn law_settled_roots_of_the_same_artifacts_lend(
    platform: Platform,
    candidate: ResidentRoot,
    borrower: Seq<char>,
    key: Seq<char>,
)
    ensures
        ({
            let lends = may_lend(platform, candidate, borrower, key);
            &&& same_path(platform, candidate.registered_root@, borrower) ==> !lends
            &&& candidate.cache_root is None ==> !lends
            &&& candidate.artifact_cache_key is None ==> !lends
            &&& !(candidate.semantic is Ready) ==> !lends
            &&& (candidate.semantic.deep_view() matches SemanticStatusView::Ready {
                refreshing,
                ..
            } && refreshing.len() > 0) ==> !lends
            &&& (candidate.artifact_cache_key matches Some(own) && own@ != key) ==> !lends
            &&& (candidate.cache_root matches Some(root) && !same_path(
                platform,
                root@,
                candidate.registered_root@,
            )) ==> !lends
            &&& (!same_path(platform, candidate.registered_root@, borrower)
                && candidate.cache_root is Some && same_path(
                platform,
                candidate.cache_root->0@,
                candidate.registered_root@,
            ) && candidate.artifact_cache_key is Some && candidate.artifact_cache_key->0@ == key && (
            candidate.semantic.deep_view() matches SemanticStatusView::Ready { refreshing, .. }
                && refreshing.len() == 0)) ==> lends
        }),
{
}

} // verus!
