//! Which ignore files the watcher's matcher is built from.

use vstd::prelude::*;
use vstd::string::*;

use crate::config::Platform;
use crate::context::AppContext;
use crate::lifecycle;
use crate::path_text;
use crate::path_text::{join_path, same_path, seen_from};
use crate::text;

verus! {

/// The files to build the matcher from, in order, as far as they exist: git's global excludes,
/// the root's ignore files, and the repository's own excludes, which a linked worktree shares
/// with its repository.
pub open spec fn ignore_files(
    platform: Platform,
    root: Seq<char>,
    git_common_dir: Option<Seq<char>>,
    global_excludes: Option<Seq<char>>,
) -> Seq<Seq<char>> {
    let git_dir = match git_common_dir {
        Some(dir) => dir,
        None => seen_from(platform, root, ".git"@),
    };
    let own = seq![
        seen_from(platform, root, ".gitignore"@),
        seen_from(platform, root, ".aftignore"@),
        seen_from(platform, seen_from(platform, git_dir, "info"@), "exclude"@),
    ];
    match global_excludes {
        Some(path) => seq![path] + own,
        None => own,
    }
}

/// The files to build the matcher from, in order, as far as they exist.
pub fn ignore_file_candidates(
    platform: Platform,
    root: &str,
    git_common_dir: Option<&str>,
    global_excludes: Option<&str>,
) -> (files: Vec<String>)
    ensures
        files.deep_view() == ignore_files(
            platform,
            root@,
            git_common_dir.deep_view(),
            global_excludes.deep_view(),
        ),
{
    let mut files: Vec<String> = Vec::new();
    if let Some(path) = global_excludes {
        files.push(path.to_owned());
    }
    files.push(join_path(platform, root, ".gitignore"));
    files.push(join_path(platform, root, ".aftignore"));
    let info = match git_common_dir {
        Some(dir) => join_path(platform, dir, "info"),
        None => join_path(platform, join_path(platform, root, ".git").as_str(), "info"),
    };
    files.push(join_path(platform, info.as_str(), "exclude"));
    assert(files.deep_view() =~= ignore_files(
        platform,
        root@,
        git_common_dir.deep_view(),
        global_excludes.deep_view(),
    ));
    files
}

/// Directories that are not searched for ignore files: what is in them is not the project's own.
pub open spec fn is_infra_dir(name: Seq<char>) -> bool {
    name == "node_modules"@ || name == "target"@ || name == ".git"@ || name == ".opencode"@ || name
        == ".alfonso"@
}

/// Whether an entry is searched for ignore files.
pub fn walks_into(name: &str) -> (yes: bool)
    ensures
        yes == !is_infra_dir(name@),
{
    !(text::same_text(name, "node_modules") || text::same_text(name, "target") || text::same_text(
        name,
        ".git",
    ) || text::same_text(name, ".opencode") || text::same_text(name, ".alfonso"))
}

/// Whether an entry below the root is an ignore file that is not one of the root's own.
pub open spec fn is_nested_ignore(
    platform: Platform,
    root: Seq<char>,
    path: Seq<char>,
    name: Seq<char>,
) -> bool {
    ||| name == ".gitignore"@ && !same_path(platform, path, seen_from(platform, root, ".gitignore"@))
    ||| name == ".aftignore"@ && !same_path(platform, path, seen_from(platform, root, ".aftignore"@))
}

/// Whether an entry below the root is an ignore file that is not one of the root's own.
pub fn nested_ignore_file(platform: Platform, root: &str, path: &str, name: &str) -> (yes: bool)
    ensures
        yes == is_nested_ignore(platform, root@, path@, name@),
{
    (text::same_text(name, ".gitignore") && !path_text::is_same_path(
        platform,
        path,
        join_path(platform, root, ".gitignore").as_str(),
    )) || (text::same_text(name, ".aftignore") && !path_text::is_same_path(
        platform,
        path,
        join_path(platform, root, ".aftignore").as_str(),
    ))
}

impl AppContext {
    /// Starts to rebuild the matcher: the files to build it from, or `None` without a root; then
    /// there is no matcher. `canonical_root` is what the file system says of the root.
    pub fn rebuild_gitignore(
        &self,
        canonical_root: Option<&str>,
        global_excludes: Option<&str>,
    ) -> (files:
        Option<Vec<String>>)
        ensures
            files.deep_view() == (match self.config.project_root {
                Some(root) => Some(
                    ignore_files(
                        self.platform,
                        match canonical_root {
                            Some(canonical) => canonical@,
                            None => root@,
                        },
                        self.role.git_common_dir.deep_view(),
                        global_excludes.deep_view(),
                    ),
                ),
                None => None,
            }),
    {
        let configured = match &self.config.project_root {
            Some(root) => root.as_str(),
            None => {
                return None;
            },
        };
        let root = match canonical_root {
            Some(canonical) => canonical,
            None => configured,
        };
        let common = match &self.role.git_common_dir {
            Some(dir) => Some(dir.as_str()),
            None => None,
        };
        Some(ignore_file_candidates(self.platform, root, common, global_excludes))
    }

    /// Ends a rebuild, or clears the matcher: answers whether the matcher that was built is
    /// kept. One that holds no pattern is not.
    pub fn set_gitignore(&mut self, patterns: Option<u64>) -> (keep: bool)
        ensures
            keep == (patterns matches Some(count) && count > 0),
            *final(self) == (AppContext {
                gitignore_generation: lifecycle::next_count(old(self).gitignore_generation),
                ..*old(self)
            }),
    {
        let _ = self.note_gitignore_changed();
        match patterns {
            Some(count) => count > 0,
            None => false,
        }
    }

    /// Clears the matcher.
    pub fn clear_gitignore(&mut self)
        ensures
            *final(self) == (AppContext {
                gitignore_generation: lifecycle::next_count(old(self).gitignore_generation),
                ..*old(self)
            }),
    {
        let _ = self.set_gitignore(None);
    }
}

/// The root's own ignore files are read in every case, and behind git's global excludes, where
/// there are any. The repository's own excludes come last, from the directory that the checkouts
/// share, where there is one.
pub proof fn law_ignore_files_in_order(
    platform: Platform,
    root: Seq<char>,
    shared: Seq<char>,
    global: Seq<char>,
)
    ensures
        ignore_files(platform, root, None, None).len() == 3,
        ignore_files(platform, root, None, None)[0] == seen_from(platform, root, ".gitignore"@),
        ignore_files(platform, root, None, None)[1] == seen_from(platform, root, ".aftignore"@),
        ignore_files(platform, root, None, None)[2] == seen_from(
            platform,
            seen_from(platform, seen_from(platform, root, ".git"@), "info"@),
            "exclude"@,
        ),
        ignore_files(platform, root, Some(shared), None) == ignore_files(
            platform,
            root,
            None,
            None,
        ).update(2, seen_from(platform, seen_from(platform, shared, "info"@), "exclude"@)),
        ignore_files(platform, root, None, Some(global)) == seq![global] + ignore_files(
            platform,
            root,
            None,
            None,
        ),
        ignore_files(platform, root, Some(shared), Some(global)) == seq![global] + ignore_files(
            platform,
            root,
            Some(shared),
            None,
        ),
{
    assert(ignore_files(platform, root, Some(shared), None) =~= ignore_files(
        platform,
        root,
        None,
        None,
    ).update(2, seen_from(platform, seen_from(platform, shared, "info"@), "exclude"@)));
}

/// An ignore file below the root is a nested one; the root's own are none, and no other file is.
pub proof fn law_ignore_files_below_the_root_are_nested(
    platform: Platform,
    root: Seq<char>,
    path: Seq<char>,
    name: Seq<char>,
)
    ensures
        is_nested_ignore(platform, root, path, name) ==> name == ".gitignore"@ || name
            == ".aftignore"@,
        same_path(platform, path, seen_from(platform, root, ".gitignore"@)) ==> !is_nested_ignore(
            platform,
            root,
            path,
            ".gitignore"@,
        ),
        same_path(platform, path, seen_from(platform, root, ".aftignore"@)) ==> !is_nested_ignore(
            platform,
            root,
            path,
            ".aftignore"@,
        ),
        !same_path(platform, path, seen_from(platform, root, ".gitignore"@)) ==> is_nested_ignore(
            platform,
            root,
            path,
            ".gitignore"@,
        ),
        !same_path(platform, path, seen_from(platform, root, ".aftignore"@)) ==> is_nested_ignore(
            platform,
            root,
            path,
            ".aftignore"@,
        ),
        is_infra_dir(".git"@) && is_infra_dir("node_modules"@) && is_infra_dir("target"@),
        is_infra_dir(".opencode"@) && is_infra_dir(".alfonso"@),
        !is_infra_dir(".gitignore"@) && !is_infra_dir(".aftignore"@),
{
    reveal_strlit(".gitignore");
    reveal_strlit(".aftignore");
    reveal_strlit(".git");
    reveal_strlit("node_modules");
    reveal_strlit("target");
    reveal_strlit(".opencode");
    reveal_strlit(".alfonso");
    assert(".gitignore"@.len() == 10 && ".aftignore"@.len() == 10);
    assert(".git"@.len() == 4 && "node_modules"@.len() == 12 && "target"@.len() == 6);
    assert(".opencode"@.len() == 9 && ".alfonso"@.len() == 8);
    assert(".gitignore"@[1] == 'g');
    assert(".aftignore"@[1] == 'a');
}

} // verus!
