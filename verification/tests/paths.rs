use std::cell::Cell;
use std::collections::HashMap;

use aft::config::{Config, Platform};
use aft::context::AppContext;
use aft::json::{object_get, Json};
use aft::memory_admission::MemoryAdmissionLedger;
use aft::path_check::{
    conclude_path, conclude_write_location, judge_path, judge_write_location, resolve_relative_path,
    restriction_context, PathCheck, PathSpelling, RestrictionStep,
};
use aft::path_prefix::PathPrefix;
use aft::paths::{
    normalize_path, pending_path_in_roots, replay_candidates, EntryKind, FsAnswer, FsQuestion,
    LenientWalk, Part, PathParts,
};
use aft::protocol::Response;

fn parse(text: &str) -> PathParts {
    let mut path = PathParts::new();
    if text.starts_with('/') {
        path.push(Part::Root);
    }
    for (index, name) in text.split('/').enumerate() {
        match name {
            "" => {}
            "." if index > 0 => {}
            "." => path.push(Part::Current),
            ".." => path.push(Part::Parent),
            name => path.push(Part::Normal(name.to_string())),
        }
    }
    path
}

fn spell(path: &PathParts) -> String {
    let mut out = String::new();
    for part in &path.parts {
        let name = match part {
            Part::Prefix(_) => "C:",
            Part::Root => {
                out.push('/');
                continue;
            }
            Part::Current => ".",
            Part::Parent => "..",
            Part::Normal(name) => name.as_str(),
        };
        if !out.is_empty() && !out.ends_with('/') {
            out.push('/');
        }
        out.push_str(name);
    }
    out
}

enum Node {
    Dir,
    File,
    Link(&'static str),
}

struct Fs {
    nodes: HashMap<String, Node>,
    root_lookups: Cell<usize>,
}

impl Fs {
    fn new() -> Fs {
        let mut nodes = HashMap::new();
        nodes.insert("/".to_string(), Node::Dir);
        Fs { nodes, root_lookups: Cell::new(0) }
    }

    fn with(mut self, path: &str, node: Node) -> Fs {
        self.nodes.insert(path.to_string(), node);
        self
    }

    /// The canonical path, following links as the operating system does.
    fn canonical(&self, text: &str, follow_last: bool, depth: usize) -> Option<String> {
        if depth > 40 || !text.starts_with('/') {
            return None;
        }
        let mut resolved = "/".to_string();
        let names: Vec<&str> = text.split('/').filter(|n| !n.is_empty() && *n != ".").collect();
        for (index, name) in names.iter().enumerate() {
            if !matches!(self.nodes.get(&resolved), Some(Node::Dir)) {
                return None;
            }
            if *name == ".." {
                let cut = resolved.rfind('/').unwrap_or(0);
                resolved = if cut == 0 { "/".to_string() } else { resolved[..cut].to_string() };
                continue;
            }
            let next = if resolved == "/" { format!("/{name}") } else { format!("{resolved}/{name}") };
            match self.nodes.get(&next) {
                None => return None,
                Some(Node::Link(target)) if follow_last || index + 1 < names.len() => {
                    let joined = if target.starts_with('/') {
                        target.to_string()
                    } else {
                        format!("{resolved}/{target}")
                    };
                    resolved = self.canonical(&joined, true, depth + 1)?;
                }
                Some(_) => resolved = next,
            }
        }
        Some(resolved)
    }

    fn answer(&self, question: FsQuestion) -> FsAnswer {
        match question {
            FsQuestion::Canonicalize(path) => {
                FsAnswer::Path(self.canonical(&spell(&path), true, 0).map(|text| parse(&text)))
            }
            FsQuestion::Entry(path) => {
                let kind = match self.canonical(&spell(&path), false, 0) {
                    None => EntryKind::Missing,
                    Some(found) => match self.nodes.get(&found) {
                        Some(Node::Link(_)) => EntryKind::Symlink,
                        _ => EntryKind::Other,
                    },
                };
                FsAnswer::Entry(kind)
            }
            FsQuestion::ReadLink(path) => FsAnswer::Path(
                self.canonical(&spell(&path), false, 0)
                    .and_then(|found| match self.nodes.get(&found) {
                        Some(Node::Link(target)) => Some(parse(target)),
                        _ => None,
                    }),
            ),
            FsQuestion::Exists(path) => {
                FsAnswer::Yes(self.canonical(&spell(&path), true, 0).is_some())
            }
            FsQuestion::IsDir(path) => FsAnswer::Yes(
                self.canonical(&spell(&path), true, 0)
                    .is_some_and(|found| matches!(self.nodes.get(&found), Some(Node::Dir))),
            ),
        }
    }

    fn canonicalize_lenient(&self, text: &str) -> Option<PathParts> {
        let mut walk = LenientWalk::begin(parse(text));
        while let Some(question) = walk.question() {
            walk = walk.answer(self.answer(question));
        }
        walk.finish()
    }

    fn run(&self, check: PathCheck) -> Option<PathParts> {
        let mut check = check;
        while let Some(question) = check.question() {
            check = check.answer(self.answer(question));
        }
        check.finish()
    }

    fn restriction_root(&self, ctx: &mut AppContext, raw: &str) -> String {
        let exists = ctx
            .path_restriction_root_memo
            .as_ref()
            .is_some_and(|memo| self.canonical(&memo.resolved_root, true, 0).is_some());
        match ctx.remembered_restriction_root(raw, exists) {
            Some(root) => root,
            None => {
                self.root_lookups.set(self.root_lookups.get() + 1);
                let canonical = self.canonical(raw, true, 0);
                ctx.remember_restriction_root(raw.to_string(), canonical)
            }
        }
    }

    fn validate_path(&self, ctx: &mut AppContext, req: &str, text: &str) -> Result<String, Response> {
        let raw = match ctx.path_restriction_context(req) {
            RestrictionStep::Unrestricted => return Ok(text.to_string()),
            RestrictionStep::Refuse(response) => return Err(response),
            RestrictionStep::Restrict(raw) => raw,
        };
        let root = self.restriction_root(ctx, &raw);
        let context = restriction_context(parse(&raw), parse(&root), &parse(text));
        let spelling = PathSpelling {
            given: text.to_string(),
            looked_up: spell(&context.path_for_resolution),
            resolved_root: root,
        };
        let found = self.run(PathCheck::of_path(&context));
        let verdict = judge_path(found, &context.resolved_root);
        conclude_path(req, verdict, false, &spelling).map(|path| spell(&path))
    }

    fn validate_write_location(
        &self,
        ctx: &mut AppContext,
        req: &str,
        text: &str,
    ) -> Result<String, Response> {
        let raw = match ctx.path_restriction_context(req) {
            RestrictionStep::Unrestricted => return Ok(text.to_string()),
            RestrictionStep::Refuse(response) => return Err(response),
            RestrictionStep::Restrict(raw) => raw,
        };
        let root = self.restriction_root(ctx, &raw);
        let context = restriction_context(parse(&raw), parse(&root), &parse(text));
        let spelling = PathSpelling {
            given: text.to_string(),
            looked_up: spell(&context.path_for_resolution),
            resolved_root: root,
        };
        let (check, name) = PathCheck::of_write_location(&context).expect("path has a name");
        let verdict = judge_write_location(self.run(check), name, &context.resolved_root);
        conclude_write_location(req, verdict, &spelling).map(|path| spell(&path))
    }

    fn take_pending(&self, ctx: &mut AppContext, root: &str) -> Vec<String> {
        let roots = vec![parse(root)];
        let contained = ctx
            .pending_callgraph_store_paths()
            .iter()
            .map(|text| {
                let path = parse(text);
                let resolved = replay_candidates(&path, &roots)
                    .iter()
                    .map(|candidate| {
                        (self.canonicalize_lenient(&spell(candidate)), self.canonicalize_lenient(root))
                    })
                    .collect();
                pending_path_in_roots(Platform::Unix, &path, &roots, &resolved)
            })
            .collect();
        ctx.take_pending_callgraph_store_paths(&contained)
    }
}

fn test_context(project_root: Option<&str>, restrict: bool) -> AppContext {
    let mut config = Config::default();
    config.project_root = project_root.map(str::to_string);
    config.restrict_to_project_root = restrict;
    AppContext::new(config, Platform::Unix)
}

fn code(response: &Response) -> String {
    match object_get(&response.to_document(), "code") {
        Some(Json::Text(code)) => code.clone(),
        other => panic!("no code: {other:?}"),
    }
}

fn two_roots() -> Fs {
    Fs::new().with("/root", Node::Dir).with("/outside", Node::Dir)
}

#[test]
fn standalone_validate_path_parity_without_force_restrict() {
    let fs = two_roots();
    let outside_path = "/outside/outside.txt";

    let mut unrestricted = test_context(Some("/root"), false);
    assert_eq!(
        fs.validate_path(&mut unrestricted, "standalone-unrestricted", outside_path)
            .expect("unrestricted standalone validates"),
        outside_path
    );

    let mut restricted = test_context(Some("/root"), true);
    let err = fs
        .validate_path(&mut restricted, "standalone-restricted", outside_path)
        .expect_err("restricted standalone rejects outside root");
    assert_eq!(code(&err), "path_outside_root");
}

#[test]
fn path_restriction_root_memo_canonicalizes_once_for_1000_validations() {
    let fs = two_roots().with("/root/target.txt", Node::File);
    let mut ctx = test_context(Some("/root"), true);
    for request in 0..1_000 {
        let validated = fs
            .validate_path(&mut ctx, &format!("memo-{request}"), "/root/target.txt")
            .expect("in-root path validates");
        assert_eq!(validated, "/root/target.txt");
    }
    assert_eq!(
        fs.root_lookups.get(),
        1,
        "the configured root should be canonicalized once instead of once per validation"
    );
}

#[test]
fn path_restriction_root_memo_recanonicalizes_after_cached_target_disappears() {
    let first = Fs::new()
        .with("/w", Node::Dir)
        .with("/w/first", Node::Dir)
        .with("/w/second", Node::Dir)
        .with("/w/root", Node::Link("/w/first"))
        .with("/w/first/inside.txt", Node::File);
    let mut ctx = test_context(Some("/w/root"), true);
    assert_eq!(
        first.validate_path(&mut ctx, "first-target", "inside.txt").expect("first target validates"),
        "/w/first/inside.txt"
    );
    assert_eq!(ctx.path_restriction_root_memo.as_ref().unwrap().resolved_root, "/w/first");

    let second = Fs::new()
        .with("/w", Node::Dir)
        .with("/w/second", Node::Dir)
        .with("/w/root", Node::Link("/w/second"))
        .with("/w/second/inside.txt", Node::File);
    assert_eq!(
        second
            .validate_path(&mut ctx, "second-target", "inside.txt")
            .expect("second target validates"),
        "/w/second/inside.txt"
    );
    assert_eq!(ctx.path_restriction_root_memo.as_ref().unwrap().resolved_root, "/w/second");
}

#[test]
fn force_restrict_guard_refcounts_duplicate_request_ids() {
    let fs = two_roots();
    let outside_path = "/outside/outside.txt";
    let mut ctx = test_context(Some("/root"), false);

    assert!(fs.validate_path(&mut ctx, "dup", outside_path).is_ok());
    ctx.force_restrict_guard("dup");
    ctx.force_restrict_guard("dup");
    assert!(fs.validate_path(&mut ctx, "dup", outside_path).is_err());
    ctx.release_force_restrict("dup");
    assert!(
        fs.validate_path(&mut ctx, "dup", outside_path).is_err(),
        "duplicate guard must keep the request over-restricted"
    );
    ctx.release_force_restrict("dup");
    assert!(fs.validate_path(&mut ctx, "dup", outside_path).is_ok());
    assert!(!ctx.request_force_restrict("dup"));
}

#[test]
fn validate_write_location_keeps_final_symlink_as_the_authorized_location() {
    let fs = two_roots()
        .with("/outside/file", Node::File)
        .with("/root/file.txt", Node::Link("/outside/file"));
    let mut ctx = test_context(Some("/root"), false);
    ctx.force_restrict_guard("write-location-final-link");
    let validated = fs
        .validate_write_location(&mut ctx, "write-location-final-link", "/root/file.txt")
        .expect("the in-root link location is writable");
    assert_eq!(validated, "/root/file.txt");
    let read = fs.validate_path(&mut ctx, "write-location-final-link", "/root/file.txt");
    assert_eq!(code(&read.expect_err("the link's target lies outside")), "path_outside_root");
}

#[test]
fn validate_write_location_rejects_symlinked_parent_escape() {
    let fs = two_roots().with("/root/linked-parent", Node::Link("/outside"));
    let mut ctx = test_context(Some("/root"), false);
    ctx.force_restrict_guard("write-location-parent-link");
    let error = fs
        .validate_write_location(
            &mut ctx,
            "write-location-parent-link",
            "/root/linked-parent/file.txt",
        )
        .expect_err("a symlinked parent must not escape the project root");
    assert_eq!(code(&error), "path_outside_root");
}

#[test]
fn validate_write_location_rejects_outside_link_to_inside_file() {
    let fs = two_roots()
        .with("/root/inside.txt", Node::File)
        .with("/outside/outside-link.txt", Node::Link("/root/inside.txt"));
    let mut ctx = test_context(Some("/root"), false);
    ctx.force_restrict_guard("write-location-outside-link");
    let error = fs
        .validate_write_location(
            &mut ctx,
            "write-location-outside-link",
            "/outside/outside-link.txt",
        )
        .expect_err("an out-of-root lexical location must remain blocked");
    assert_eq!(code(&error), "path_outside_root");
}

#[test]
fn forced_restrict_without_project_root_fails_closed() {
    let fs = Fs::new();
    let mut ctx = test_context(None, false);
    ctx.force_restrict_guard("missing-root");
    let err = fs
        .validate_path(&mut ctx, "missing-root", "relative.txt")
        .expect_err("forced restriction without a root must fail closed");
    assert_eq!(code(&err), "path_outside_root");

    let write_err = fs
        .validate_write_location(&mut ctx, "missing-root", "relative.txt")
        .expect_err("write-location validation must also fail closed");
    assert_eq!(code(&write_err), "path_outside_root");
}

#[test]
fn take_pending_callgraph_store_paths_drops_paths_outside_current_root() {
    let fs = Fs::new()
        .with("/tmp", Node::Dir)
        .with("/tmp/project", Node::Dir)
        .with("/tmp/foreign", Node::Dir);
    let mut ctx = test_context(Some("/tmp/project"), false);
    let inside = "/tmp/project/kept.rs".to_string();
    ctx.add_pending_callgraph_store_paths(vec![
        inside.clone(),
        "/tmp/foreign/previous-root-file.rs".to_string(),
        "/tmp/project/../foreign/escaped.rs".to_string(),
    ]);

    assert_eq!(
        fs.take_pending(&mut ctx, "/tmp/project"),
        vec![inside],
        "pending replay must drop foreign and dot-dot-escaping paths"
    );
}

#[test]
fn take_pending_callgraph_store_paths_drops_symlink_dotdot_escape() {
    let fs = Fs::new()
        .with("/project", Node::Dir)
        .with("/foreign", Node::Dir)
        .with("/foreign/dir", Node::Dir)
        .with("/foreign/secret.rs", Node::File)
        .with("/foreign/reentry-secret.rs", Node::File)
        .with("/project/link", Node::Link("/foreign/dir"))
        .with("/project/dangling", Node::Link("/foreign/nonexistent-target"))
        .with("/project/plain.rs", Node::File);
    let mut ctx = test_context(Some("/project"), false);
    let kept = "/project/kept.rs".to_string();
    ctx.add_pending_callgraph_store_paths(vec![
        "/project/link/../secret.rs".to_string(),
        "/project/link/dead/../../deep-secret.rs".to_string(),
        "/project/dead/../link/../reentry-secret.rs".to_string(),
        "/project/dangling/../via-dangling.rs".to_string(),
        "/project/plain.rs/../via-file.rs".to_string(),
        kept.clone(),
    ]);

    assert_eq!(
        fs.take_pending(&mut ctx, "/project"),
        vec![kept],
        "symlink-plus-dotdot escapes must be dropped with filesystem-first semantics"
    );
}

#[test]
fn take_pending_callgraph_store_paths_keeps_relative_and_deleted_paths() {
    let fs = Fs::new().with("/project", Node::Dir);
    let mut ctx = test_context(Some("/project"), false);
    let relative = "src/relative.rs".to_string();
    let deleted = "/project/never-created.rs".to_string();
    ctx.add_pending_callgraph_store_paths(vec![relative.clone(), deleted.clone()]);

    let mut taken = fs.take_pending(&mut ctx, "/project");
    taken.sort();
    let mut expected = vec![relative, deleted];
    expected.sort();
    assert_eq!(
        taken, expected,
        "root-relative and deleted in-root paths must survive the filter"
    );
}

#[test]
fn normal_paths_keep_only_dots_that_cannot_be_undone() {
    for (given, expected) in [
        ("/a/./b", "/a/b"),
        ("/a/../b", "/b"),
        ("/../a", "/../a"),
        ("a/../../b", "../b"),
        ("a/b", "a/b"),
        ("..", ".."),
        ("../../x", "../../x"),
        ("../../../x", "../../../x"),
        ("/a/./b/../c", "/a/c"),
    ] {
        let normal = normalize_path(&parse(given));
        assert_eq!(spell(&normal), expected, "{given}");
        assert_eq!(normalize_path(&normal), normal);
    }
}

#[test]
fn relative_paths_stand_below_the_root_or_the_current_directory() {
    let here = parse("/cwd");
    let root = parse("/root");
    assert_eq!(spell(&resolve_relative_path(&parse("a"), Some(&root), &here)), "/root/a");
    assert_eq!(spell(&resolve_relative_path(&parse("a"), None, &here)), "/cwd/a");
    assert_eq!(spell(&resolve_relative_path(&parse("/a"), Some(&root), &here)), "/a");
}

#[test]
fn new_files_below_the_root_are_allowed_and_named_in_full() {
    let fs = two_roots().with("/root/src", Node::Dir);
    let mut ctx = test_context(Some("/root"), true);
    assert_eq!(fs.validate_path(&mut ctx, "r", "src/new.rs").expect("allowed"), "/root/src/new.rs");
    assert_eq!(
        fs.validate_write_location(&mut ctx, "r", "src/new.rs").expect("allowed"),
        "/root/src/new.rs"
    );
    assert!(fs.validate_path(&mut ctx, "r", "src/../../outside/x").is_err());
}

#[test]
fn broken_links_that_lead_outside_are_refused() {
    let fs = two_roots().with("/root/broken", Node::Link("/outside/missing"));
    let mut ctx = test_context(Some("/root"), true);
    let error = fs.validate_path(&mut ctx, "r", "/root/broken").expect_err("leads outside");
    assert_eq!(code(&error), "path_outside_root");
}

#[test]
fn lenient_walks_follow_existing_links_and_keep_missing_tails() {
    let fs = Fs::new()
        .with("/a", Node::Dir)
        .with("/b", Node::Dir)
        .with("/a/link", Node::Link("/b"));
    let spelled = |text: &str| fs.canonicalize_lenient(text).map(|path| spell(&path));
    assert_eq!(spelled("/a/link/x/y").as_deref(), Some("/b/x/y"));
    assert_eq!(spelled("/a/missing/../link/z").as_deref(), Some("/b/z"));
    assert_eq!(spelled("/b").as_deref(), Some("/b"));
}

fn windows(parts: &[&str]) -> PathParts {
    let mut path = PathParts::new();
    for part in parts {
        path.push(match *part {
            "C:" => Part::Prefix(PathPrefix::Disk('C')),
            "/" => Part::Root,
            name => Part::Normal(name.to_string()),
        });
    }
    path
}

#[test]
fn take_pending_callgraph_store_paths_drops_drive_relative_paths() {
    let cwd = windows(&["C:", "/", "work"]);
    let kept = windows(&["C:", "/", "work", "kept.rs"]);
    let cwd_file = windows(&["C:", "under-drive-cwd.rs"]);
    let root_relative = windows(&["/", "root-relative.rs"]);
    assert!(!cwd_file.is_absolute(Platform::Windows), "C:foo must classify as relative");
    let inside = |path: &PathParts| {
        // However the file system resolves it, here to a file below the root.
        let resolved = vec![(Some(kept.copy()), Some(cwd.copy()))];
        pending_path_in_roots(Platform::Windows, path, &vec![cwd.copy()], &resolved)
    };
    assert!(
        !inside(&cwd_file),
        "drive-relative spelling must be rejected even when the drive CWD is inside the root"
    );
    assert!(!inside(&root_relative), "root-relative spelling must be rejected");
    assert!(inside(&kept));

    let mut ctx = test_context(Some("C:/work"), false);
    ctx.add_pending_callgraph_store_paths(vec![
        "C:drive-relative.rs".to_string(),
        "/root-relative.rs".to_string(),
        "C:/work/kept.rs".to_string(),
    ]);
    let contained = ctx
        .pending_callgraph_store_paths()
        .iter()
        .map(|text| match text.as_str() {
            "C:drive-relative.rs" => inside(&cwd_file),
            "/root-relative.rs" => inside(&root_relative),
            _ => inside(&kept),
        })
        .collect();
    assert_eq!(
        ctx.take_pending_callgraph_store_paths(&contained),
        vec!["C:/work/kept.rs".to_string()],
        "drive-relative and root-relative spellings must be rejected"
    );
}

#[test]
fn prefixes_stay_where_a_root_replaces_a_path() {
    let base = windows(&["C:", "/", "a"]);
    assert_eq!(base.join(&windows(&["/", "b"])), windows(&["C:", "/", "b"]));
    assert_eq!(base.join(&windows(&["C:", "b"])), windows(&["C:", "b"]));
    assert_eq!(base.join(&windows(&["b"])), windows(&["C:", "/", "a", "b"]));
    let mut path = windows(&["C:", "/", "a"]);
    assert!(path.pop());
    assert!(!path.pop());
    assert_eq!(path, windows(&["C:", "/"]));
    path.push(Part::Parent);
    assert_eq!(normalize_path(&path), path);
}

#[test]
fn verbatim_paths_take_no_dots() {
    let verbatim = || Part::Prefix(PathPrefix::VerbatimDisk('C'));
    let mut path = PathParts { parts: vec![verbatim()] };
    assert!(path.is_absolute(Platform::Windows));
    path.push(Part::Normal("a".to_string()));
    assert_eq!(path.parts, vec![verbatim(), Part::Root, Part::Normal("a".to_string())]);
    path.push(Part::Current);
    path.push(Part::Parent);
    path.push(Part::Parent);
    assert_eq!(path.parts, vec![verbatim(), Part::Root]);
    let spelled = PathParts { parts: vec![verbatim(), Part::Root, Part::Parent] };
    assert_eq!(normalize_path(&spelled).parts, vec![verbatim(), Part::Root]);
    let device = PathParts { parts: vec![Part::Prefix(PathPrefix::DeviceNs("x".to_string()))] };
    assert!(device.is_absolute(Platform::Windows));
}

#[test]
fn the_remembered_root_goes_by_its_spelling() {
    let mut ctx = test_context(Some("/a/b"), true);
    let canonical = Some("/real".to_string());
    ctx.remember_restriction_root("/a/b".to_string(), canonical);
    assert_eq!(ctx.remembered_restriction_root("/a/b", true).as_deref(), Some("/real"));
    assert_eq!(ctx.remembered_restriction_root("/a//b", true), None);
    assert_eq!(ctx.remembered_restriction_root("/a/b", false), None);

    let configured = |root: &str| Config { project_root: Some(root.to_string()), ..Config::default() };
    let mut ledger = MemoryAdmissionLedger::new(None);
    ctx.set_config(configured("/a/b"), &mut ledger);
    assert!(ctx.path_restriction_root_memo.is_some());
    ctx.set_config(configured("/a//b"), &mut ledger);
    assert!(ctx.path_restriction_root_memo.is_none());
}
