//! What resolving and confining paths promises as a whole.

use vstd::prelude::*;

use crate::config::Platform;
use crate::context::AppContext;
use crate::path_check;
use crate::path_check::PathVerdictView;
use crate::path_prefix;
use crate::paths;
use crate::paths::{EntryKind, FsView, PartView};

verus! {

/// A path starts with another exactly where it is that one and more components behind it.
pub proof fn law_path_starts_with_its_directories(
    base: Seq<PartView>,
    rest: Seq<PartView>,
    path: Seq<PartView>,
)
    ensures
        paths::begins_with(base + rest, base),
        paths::begins_with(path, base) ==> path == base + path.skip(base.len() as int),
        path.len() < base.len() ==> !paths::begins_with(path, base),
        (path.len() > 0 && base.len() > 0 && path[0] != base[0]) ==> !paths::begins_with(path, base),
{
    assert((base + rest).take(base.len() as int) =~= base);
    if paths::begins_with(path, base) {
        assert(path =~= path.take(base.len() as int) + path.skip(base.len() as int));
    }
    if path.len() > 0 && base.len() > 0 && base.len() <= path.len() {
        assert(path.take(base.len() as int)[0] == path[0]);
    }
}

/// On Unix a path is absolute exactly where it starts at the root; on Windows exactly where it
/// starts with a prefix, a drive only with its root behind it.
pub proof fn law_absolute_paths_start_somewhere(path: Seq<PartView>)
    ensures
        paths::is_absolute(Platform::Unix, path) <==> path.len() > 0 && path[0] is Root,
        paths::is_absolute(Platform::Windows, path) ==> path.len() > 0 && path[0] is Prefix,
        (path.len() > 0 && path[0] is Prefix && !(path[0]->Prefix_0 is Disk))
            ==> paths::is_absolute(Platform::Windows, path),
        (path.len() > 0 && path[0] is Prefix && path[0]->Prefix_0 is Disk) ==> (
        paths::is_absolute(Platform::Windows, path) <==> path.len() > 1 && path[1] is Root),
{
}

/// A path without an anchor is below what it is joined to, component by component; an absolute one
/// stands for itself, and behind a drive a bare root keeps the drive.
pub proof fn law_joined_path_is_below_or_stands_alone(
    base: Seq<PartView>,
    rest: Seq<PartView>,
)
    ensures
        (rest.len() > 0 && rest[0] is Prefix) ==> paths::joined(base, rest) == rest,
        (rest.len() > 0 && rest[0] is Root && !(base.len() > 0 && base[0] is Prefix))
            ==> paths::joined(base, rest) == rest,
        (!paths::is_verbatim_path(base) && rest.len() > 0 && (rest[0] is Normal
            || rest[0] is Parent)) ==> paths::joined(base, rest) == base + rest,
        (!paths::is_verbatim_path(base) && base.len() > 0 && rest.len() > 0 && rest[0] is Current)
            ==> paths::joined(base, rest) == base + rest.skip(1),
        rest.len() == 0 ==> paths::joined(base, rest) == base,
        (!paths::is_verbatim_path(base) && base.len() > 0 && base[0] is Prefix && rest.len() > 0
            && rest[0] is Root) ==> paths::joined(base, rest) == seq![base[0]] + rest,
        paths::is_verbatim_path(base) <==> base.len() > 0 && base[0] is Prefix
            && path_prefix::is_verbatim(base[0]->Prefix_0),
        paths::is_anchored(base) <==> base.len() > 0 && (base[0] is Root || base[0] is Prefix),
{
    if rest.len() == 0 {
        assert(base + rest =~= base);
    }
    if rest.len() > 0 {
        assert(rest.drop_first() =~= rest.skip(1));
    }
}

/// A name that is put behind a path is its last name, and its directory is that path, unless that
/// is a bare verbatim prefix. A prefix and a root have no directory.
pub proof fn law_name_and_directory(path: Seq<PartView>, name: Seq<char>)
    ensures
        paths::last_name(paths::below(path, name)) == Some(name),
        !(paths::is_verbatim_path(path) && path.len() == 1) ==> {
            &&& paths::popped(paths::below(path, name)) == path
            &&& paths::parent_or_empty(paths::below(path, name)) == path
            &&& paths::below(path, name) == path.push(PartView::Normal(name))
        },
        (paths::is_verbatim_path(path) && path.len() == 1) ==> paths::below(path, name) == seq![
            path[0],
            PartView::Root,
            PartView::Normal(name),
        ],
        (path.len() == 0 || path.last() is Root || path.last() is Prefix) ==> {
            &&& paths::popped(path) == path
            &&& paths::parent_or_empty(path).len() == 0
            &&& paths::last_name(path) is None
        },
{
    assert(path.push(PartView::Normal(name)).drop_last() =~= path);
    if paths::is_verbatim_path(path) && path.len() == 1 {
        assert(paths::below(path, name) =~= seq![
            path[0],
            PartView::Root,
            PartView::Normal(name),
        ]);
    }
}

/// Resolving by spelling: `.` says nothing, `..` takes back the name before it, and a name stays,
/// unless it stands behind a bare verbatim prefix, which needs a root first.
pub proof fn law_spelling_is_resolved_in_order(path: Seq<PartView>, name: Seq<char>)
    ensures
        paths::normalized(path.push(PartView::Current)) == paths::normalized(path),
        !(paths::normalized(path).len() == 1 && paths::is_verbatim_path(paths::normalized(path)))
            ==> paths::normalized(path.push(PartView::Normal(name)).push(PartView::Parent))
            == paths::normalized(path),
        !(paths::normalized(path).len() == 1 && paths::is_verbatim_path(paths::normalized(path)))
            ==> paths::normalized(path.push(PartView::Normal(name))) == paths::normalized(
            path,
        ).push(PartView::Normal(name)),
        (!paths::is_verbatim_path(paths::normalized(path)) && (paths::normalized(path).len() == 0
            || !(paths::normalized(path).last() is Normal))) ==> paths::normalized(
            path.push(PartView::Parent),
        ) == paths::normalized(path).push(PartView::Parent),
{
    let named = path.push(PartView::Normal(name));
    assert(path.push(PartView::Current).drop_last() =~= path);
    assert(named.drop_last() =~= path);
    assert(named.push(PartView::Parent).drop_last() =~= named);
    assert(path.push(PartView::Parent).drop_last() =~= path);
    let front = paths::normalized(path);
    assert(front.push(PartView::Normal(name)).drop_last() =~= front);
    if !(front.len() == 1 && paths::is_verbatim_path(front)) {
        assert(paths::normalized(named) == front.push(PartView::Normal(name)));
    }
}

/// A file that exists goes by its canonical path. Below a directory that is missing, names count as
/// they are spelled, and `..` takes the last of them back.
pub proof fn law_missing_names_are_taken_as_spelled(
    fs: FsView,
    path: Seq<PartView>,
    rest: Seq<PartView>,
    resolved: Seq<PartView>,
    missing: Seq<Seq<char>>,
    name: Seq<char>,
)
    requires
        missing.len() > 0,
    ensures
        (fs.canonical)(path) is Some ==> paths::canonical_lenient(fs, path) == (fs.canonical)(path),
        paths::lenient_walk(fs, Seq::<PartView>::empty(), resolved, missing) == Some(
            paths::extended(resolved, paths::named(missing)),
        ),
        paths::lenient_walk(fs, seq![PartView::Normal(name)] + rest, resolved, missing)
            == paths::lenient_walk(fs, rest, resolved, missing.push(name)),
        paths::lenient_walk(
            fs,
            seq![PartView::Normal(name), PartView::Parent] + rest,
            resolved,
            missing,
        ) == paths::lenient_walk(fs, rest, resolved, missing),
        paths::lenient_walk(fs, seq![PartView::Current] + rest, resolved, missing)
            == paths::lenient_walk(fs, rest, resolved, missing),
{
    let first = seq![PartView::Normal(name)] + rest;
    assert(first.drop_first() =~= rest);
    let back = seq![PartView::Normal(name), PartView::Parent] + rest;
    assert(back.drop_first() =~= seq![PartView::Parent] + rest);
    assert((seq![PartView::Parent] + rest).drop_first() =~= rest);
    assert(missing.push(name).drop_last() =~= missing);
    let up = seq![PartView::Parent] + rest;
    assert(back[0] == PartView::Normal(name));
    assert(up[0] == PartView::Parent);
    assert(paths::lenient_walk(fs, back, resolved, missing) == paths::lenient_walk(
        fs,
        up,
        resolved,
        missing.push(name),
    ));
    assert(paths::lenient_walk(fs, up, resolved, missing.push(name)) == paths::lenient_walk(
        fs,
        rest,
        resolved,
        missing,
    ));
    let current = seq![PartView::Current] + rest;
    assert(current.drop_first() =~= rest);
}

/// As long as nothing is missing each name is looked up: one that exists is followed to where it
/// leads, one that does not is the first that is missing, and a link that leads nowhere, or another
/// failure, ends the walk. `..` leaves a directory, and nothing else.
pub proof fn law_existing_names_are_followed(
    fs: FsView,
    rest: Seq<PartView>,
    resolved: Seq<PartView>,
    name: Seq<char>,
)
    ensures
        ({
            let none = Seq::<Seq<char>>::empty();
            let candidate = paths::below(resolved, name);
            let walk = paths::lenient_walk(
                fs,
                seq![PartView::Normal(name)] + rest,
                resolved,
                none,
            );
            let up = paths::lenient_walk(fs, seq![PartView::Parent] + rest, resolved, none);
            &&& (fs.canonical)(candidate) matches Some(found) ==> walk == paths::lenient_walk(
                fs,
                rest,
                found,
                none,
            )
            &&& ((fs.canonical)(candidate) is None && (fs.entry)(candidate) == EntryKind::Missing)
                ==> walk == paths::lenient_walk(fs, rest, resolved, seq![name])
            &&& ((fs.canonical)(candidate) is None && (fs.entry)(candidate) != EntryKind::Missing)
                ==> walk is None
            &&& (resolved.len() > 0 && !(fs.is_dir)(resolved)) ==> up is None
            &&& (resolved.len() == 0 || (fs.is_dir)(resolved)) ==> up == paths::lenient_walk(
                fs,
                rest,
                paths::popped(resolved),
                none,
            )
        }),
{
    assert((seq![PartView::Normal(name)] + rest).drop_first() =~= rest);
    assert((seq![PartView::Parent] + rest).drop_first() =~= rest);
    assert(Seq::<Seq<char>>::empty().push(name) =~= seq![name]);
}

/// A path lies within one of several roots exactly where it may be taken up at all and its canonical
/// form, seen from a root, lies below that root's; a path or root without a canonical form lies
/// nowhere.
pub proof fn law_containment_needs_one_root(
    platform: Platform,
    fs: FsView,
    path: Seq<PartView>,
    roots: Seq<Seq<PartView>>,
    place: int,
    found: Seq<PartView>,
    root: Seq<PartView>,
)
    ensures
        (paths::is_anchored(path) && !paths::is_absolute(platform, path)) ==> !paths::within_roots(
            platform,
            fs,
            path,
            roots,
        ),
        (0 <= place < roots.len() && (paths::is_absolute(platform, path) || !paths::is_anchored(
            path,
        )) && paths::canonical_lenient(fs, paths::joined(roots[place], path)) == Some(found)
            && paths::canonical_lenient(fs, roots[place]) == Some(root) && paths::begins_with(
            found,
            root,
        )) ==> paths::within_roots(platform, fs, path, roots),
        paths::within_roots(platform, fs, path, roots) ==> roots.len() > 0,
        (forall|i: int|
            0 <= i < roots.len() ==> paths::canonical_lenient(
                fs,
                paths::joined(#[trigger] roots[i], path),
            ) is None) ==> !paths::within_roots(platform, fs, path, roots),
        paths::within_root(Some(found), Some(root)) <==> paths::begins_with(found, root),
        !paths::within_root(None, Some(root)),
        !paths::within_root(Some(found), None),
        !paths::within_root(None, None),
{
    if 0 <= place < roots.len() && paths::canonical_lenient(fs, paths::joined(roots[place], path))
        == Some(found) && paths::canonical_lenient(fs, roots[place]) == Some(root)
        && paths::begins_with(found, root) {
        assert(paths::within_root(
            paths::canonical_lenient(fs, paths::joined(roots[place], path)),
            paths::canonical_lenient(fs, roots[place]),
        ));
    }
}

/// A path is allowed exactly where it leads to a place within the root; one that leads elsewhere is
/// outside, and one that leads out by a link says so.
pub proof fn law_verdict_goes_by_where_a_path_leads(path: Seq<PartView>, root: Seq<PartView>)
    ensures
        paths::begins_with(path, root) ==> path_check::verdict(Some(path), root)
            == PathVerdictView::Allowed(path),
        !paths::begins_with(path, root) ==> path_check::verdict(Some(path), root)
            == PathVerdictView::Outside(path),
        path_check::verdict(None, root) == PathVerdictView::EscapesByLink,
{
}

/// A link leads out where it cannot be read, where its target lies outside both as the file system
/// knows it and as it is spelled, or where it leads on to a link that leads out; a link whose target
/// lies within and is no link does not. More than forty hops lead out.
pub proof fn law_link_leads_out_with_its_target(
    fs: FsView,
    link: Seq<PartView>,
    root: Seq<PartView>,
    target: Seq<PartView>,
    depth: nat,
)
    requires
        depth <= 40,
    ensures
        (fs.link)(link) is None ==> path_check::chain_escapes(fs, link, root, depth),
        (fs.link)(link) == Some(target) ==> ({
            let there = paths::normalized(
                paths::joined(paths::parent_or_empty(link), target),
            );
            let inside = paths::begins_with(there, root) || (match (fs.canonical)(there) {
                Some(found) => paths::begins_with(found, root),
                None => false,
            });
            &&& !inside ==> path_check::chain_escapes(fs, link, root, depth)
            &&& (inside && (fs.entry)(there) != EntryKind::Symlink) ==> !path_check::chain_escapes(
                fs,
                link,
                root,
                depth,
            )
            &&& (inside && (fs.entry)(there) == EntryKind::Symlink) ==> path_check::chain_escapes(
                fs,
                link,
                root,
                depth,
            ) == path_check::chain_escapes(fs, there, root, depth + 1)
        }),
        path_check::chain_escapes(fs, link, root, 41),
{
}

/// A path escapes exactly where one of its components, from one on, is a link within the root, in
/// either spelling of the root, that leads out.
pub proof fn law_path_escapes_by_one_of_its_links(
    fs: FsView,
    candidate: Seq<PartView>,
    root: Seq<PartView>,
    raw_root: Seq<PartView>,
    from: nat,
)
    ensures
        path_check::escapes_from(fs, candidate, root, raw_root, from) <==> exists|component: int|
            from <= component < candidate.len() && #[trigger] leads_out(
                fs,
                candidate.take(component + 1),
                root,
                raw_root,
            ),
    decreases candidate.len() - from,
{
    if from < candidate.len() {
        law_path_escapes_by_one_of_its_links(fs, candidate, root, raw_root, from + 1);
        if leads_out(fs, candidate.take((from + 1) as int), root, raw_root) {
            assert(path_check::escapes_from(fs, candidate, root, raw_root, from));
        }
        if path_check::escapes_from(fs, candidate, root, raw_root, from)
            && !path_check::escapes_from(fs, candidate, root, raw_root, from + 1) {
            assert(leads_out(fs, candidate.take((from + 1) as int), root, raw_root));
        }
    }
}

/// Whether a component is a link within the root, in either spelling of it, that leads out.
pub open spec fn leads_out(
    fs: FsView,
    component: Seq<PartView>,
    root: Seq<PartView>,
    raw_root: Seq<PartView>,
) -> bool {
    &&& (fs.entry)(component) == EntryKind::Symlink
    &&& paths::begins_with(component, root) || paths::begins_with(component, raw_root)
    &&& path_check::chain_escapes(fs, component, root, 0)
}

/// A path that does not exist is taken as its longest existing part leads, with the missing names
/// behind it; one that exists as the file system knows it.
pub proof fn law_missing_path_follows_its_existing_part(
    fs: FsView,
    path: Seq<PartView>,
    name: Seq<char>,
)
    ensures
        (fs.exists)(path) ==> path_check::with_existing_ancestors(fs, path) == (match (
        fs.canonical)(path) {
            Some(found) => found,
            None => path,
        }),
        !(fs.exists)(path.push(PartView::Normal(name))) ==> path_check::with_existing_ancestors(
            fs,
            path.push(PartView::Normal(name)),
        ) == paths::below(path_check::with_existing_ancestors(fs, path), name),
{
    assert(path.push(PartView::Normal(name)).drop_last() =~= path);
}

/// Where a path leads: to what the file system knows; where it knows nothing, nowhere if a link of
/// it leads out, and else to its existing part with the rest behind it.
pub proof fn law_resolution_asks_the_file_system_first(
    fs: FsView,
    target: Seq<PartView>,
    candidate: Seq<PartView>,
    root: Seq<PartView>,
    raw_root: Seq<PartView>,
)
    ensures
        (fs.canonical)(target) is Some ==> path_check::resolution(
            fs,
            target,
            candidate,
            root,
            raw_root,
        ) == (fs.canonical)(target),
        (fs.canonical)(target) is None ==> {
            let out = path_check::resolution(fs, target, candidate, root, raw_root);
            &&& out is None <==> path_check::escapes_from(fs, candidate, root, raw_root, 0)
            &&& out is Some ==> out == Some(path_check::with_existing_ancestors(fs, candidate))
        },
{
}

/// What is written lies below where its directory leads, under its own name; where the directory
/// leads out, it is not written.
pub proof fn law_written_file_lies_in_its_directory(
    directory: Seq<PartView>,
    name: Seq<char>,
)
    ensures
        path_check::write_location(None, name) is None,
        path_check::write_location(Some(directory), name) == Some(
            paths::normalized(paths::below(directory, name)),
        ),
        (paths::is_normal(directory) && !paths::is_verbatim_path(directory))
            ==> path_check::write_location(Some(directory), name) == Some(
            directory.push(PartView::Normal(name)),
        ),
{
    if paths::is_normal(directory) && !paths::is_verbatim_path(directory) {
        paths::lemma_normal_is_kept(directory);
        assert(directory.push(PartView::Normal(name)).drop_last() =~= directory);
    }
}

/// Paths of a request are confined where the configuration or the request asks for it and there is
/// a root; a request that asks for it without a root is refused, and no other is.
pub proof fn law_request_is_confined_where_asked(context: AppContext, req_id: Seq<char>)
    ensures
        ({
            let (confined, refused) = path_check::restriction(context, req_id);
            let asked = crate::text_map::map_get(
                context.force_restrict_requests.deep_view(),
                req_id,
            ) is Some;
            let rooted = context.config.project_root is Some;
            &&& confined <==> rooted && (asked || context.config.restrict_to_project_root)
            &&& refused <==> asked && !rooted
        }),
{
}

} // verus!
