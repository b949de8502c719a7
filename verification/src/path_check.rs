//! Confinement of paths to the project root.
//!
//! A path is resolved by the file system where it exists. Otherwise every existing component is
//! looked at first: a link within the root that leads out of it, at any hop, is rejected before
//! the rest of the path is taken as it is spelled.

use vstd::prelude::*;
use vstd::string::*;

use crate::context::{AppContext, PathRestrictionRootMemo};
use crate::paths;
use crate::paths::{normalize_path, EntryKind, FsAnswer, FsQuestion, FsView, Part, PartView, PathParts};
use crate::protocol;
use crate::protocol::Response;
use crate::text;

verus! {

/// How many hops of a chain of links are followed.
pub const MAX_LINK_HOPS: usize = 40;

/// What a path is checked against, and how it is looked up.
#[derive(Debug)]
pub struct PathRestrictionContext {
    /// The root as it is configured.
    pub raw_root: PathParts,
    /// The root as the file system knows it.
    pub resolved_root: PathParts,
    pub path_for_resolution: PathParts,
}

/// Where a link leads, by its spelling: a relative target starts beside the link.
pub open spec fn link_target(link: Seq<PartView>, target: Seq<PartView>) -> Seq<PartView> {
    paths::normalized(paths::joined(paths::parent_or_empty(link), target))
}

/// Whether a chain of links leads out of the root: a hop that cannot be read, a hop whose target
/// lies outside, by the file system and by its spelling, and one hop too many do.
pub open spec fn chain_escapes(
    fs: FsView,
    link: Seq<PartView>,
    root: Seq<PartView>,
    depth: nat,
) -> bool
    decreases MAX_LINK_HOPS + 1 - depth,
{
    if depth > MAX_LINK_HOPS {
        true
    } else {
        match (fs.link)(link) {
            None => true,
            Some(target) => {
                let resolved = link_target(link, target);
                ||| !paths::begins_with(paths::canonical_or_self(fs, resolved), root)
                    && !paths::begins_with(resolved, root)
                ||| (fs.entry)(resolved) == EntryKind::Symlink && chain_escapes(
                    fs,
                    resolved,
                    root,
                    depth + 1,
                )
            },
        }
    }
}

/// Whether a component of a path is a link within the root, in either spelling of the root.
pub open spec fn link_within(
    fs: FsView,
    component: Seq<PartView>,
    root: Seq<PartView>,
    raw_root: Seq<PartView>,
) -> bool {
    (fs.entry)(component) == EntryKind::Symlink && (paths::begins_with(component, root)
        || paths::begins_with(component, raw_root))
}

/// Whether a component of a path, from one on, is a link within the root that leads out of it.
pub open spec fn escapes_from(
    fs: FsView,
    candidate: Seq<PartView>,
    root: Seq<PartView>,
    raw_root: Seq<PartView>,
    from: nat,
) -> bool
    decreases candidate.len() - from,
{
    if from >= candidate.len() {
        false
    } else {
        let component = candidate.take((from + 1) as int);
        ||| link_within(fs, component, root, raw_root) && chain_escapes(fs, component, root, 0)
        ||| escapes_from(fs, candidate, root, raw_root, from + 1)
    }
}

/// The path with its longest existing part resolved and the rest as it is spelled.
pub open spec fn with_existing_ancestors(fs: FsView, path: Seq<PartView>) -> Seq<PartView>
    decreases path.len(),
{
    if (fs.exists)(path) || paths::last_name(path) is None {
        paths::canonical_or_self(fs, path)
    } else {
        paths::pushed(with_existing_ancestors(fs, path.drop_last()), path.last())
    }
}

/// Where a path leads: `target` is looked up; where it does not exist, `candidate` is checked
/// component by component, and `None` says that it leads out by a link.
pub open spec fn resolution(
    fs: FsView,
    target: Seq<PartView>,
    candidate: Seq<PartView>,
    root: Seq<PartView>,
    raw_root: Seq<PartView>,
) -> Option<Seq<PartView>> {
    match (fs.canonical)(target) {
        Some(resolved) => Some(resolved),
        None => if escapes_from(fs, candidate, root, raw_root, 0) {
            None
        } else {
            Some(with_existing_ancestors(fs, candidate))
        },
    }
}

/// Where a check stands.
#[derive(Debug)]
pub enum CheckStage {
    /// The target is looked up.
    Target,
    /// The component with so many before it is looked at.
    Component(usize),
    /// A link of the chain that starts at a component is read.
    ReadLink { component: usize, link: PathParts, depth: usize },
    /// Where the link leads is looked up.
    LinkTarget { component: usize, target: PathParts, depth: usize },
    /// What stands where the link leads is looked at.
    LinkEntry { component: usize, target: PathParts, depth: usize },
    /// Whether a part of the path exists is asked; `tail` is the rest.
    Existing { path: PathParts, tail: PathParts },
    /// The existing part is looked up.
    Ancestor { path: PathParts, tail: PathParts },
    Done(Option<PathParts>),
}

/// The check of one path against a root.
#[derive(Debug)]
pub struct PathCheck {
    pub target: PathParts,
    pub candidate: PathParts,
    pub resolved_root: PathParts,
    pub raw_root: PathParts,
    pub stage: CheckStage,
}

impl PathCheck {
    /// A component that is looked at is one of the path's, and no chain is followed too far.
    pub open spec fn well_formed(self) -> bool {
        let count = self.candidate.parts@.len();
        match self.stage {
            CheckStage::Component(component) => component < count,
            CheckStage::ReadLink { component, depth, .. } => component < count && depth
                <= MAX_LINK_HOPS,
            CheckStage::LinkTarget { component, depth, .. } => component < count && depth
                <= MAX_LINK_HOPS,
            CheckStage::LinkEntry { component, depth, .. } => component < count && depth
                <= MAX_LINK_HOPS,
            _ => true,
        }
    }

    /// What is left once a chain of links did not lead out.
    pub open spec fn after_component(self, fs: FsView, component: int) -> Option<Seq<PartView>> {
        let candidate = self.candidate.deep_view();
        if escapes_from(
            fs,
            candidate,
            self.resolved_root.deep_view(),
            self.raw_root.deep_view(),
            (component + 1) as nat,
        ) {
            None
        } else {
            Some(with_existing_ancestors(fs, candidate))
        }
    }

    /// Whether the chain goes on where a link leads, and out of the root.
    pub open spec fn hop_escapes(self, fs: FsView, target: Seq<PartView>, depth: int) -> bool {
        (fs.entry)(target) == EntryKind::Symlink && chain_escapes(
            fs,
            target,
            self.resolved_root.deep_view(),
            (depth + 1) as nat,
        )
    }

    /// What the check comes to in a file system.
    pub open spec fn outcome(self, fs: FsView) -> Option<Seq<PartView>> {
        let candidate = self.candidate.deep_view();
        let root = self.resolved_root.deep_view();
        let raw_root = self.raw_root.deep_view();
        match self.stage {
            CheckStage::Target => resolution(
                fs,
                self.target.deep_view(),
                candidate,
                root,
                raw_root,
            ),
            CheckStage::Component(component) => if escapes_from(
                fs,
                candidate,
                root,
                raw_root,
                component as nat,
            ) {
                None
            } else {
                Some(with_existing_ancestors(fs, candidate))
            },
            CheckStage::ReadLink { component, link, depth } => if chain_escapes(
                fs,
                link.deep_view(),
                root,
                depth as nat,
            ) {
                None
            } else {
                self.after_component(fs, component as int)
            },
            CheckStage::LinkTarget { component, target, depth } => if (!paths::begins_with(
                paths::canonical_or_self(fs, target.deep_view()),
                root,
            ) && !paths::begins_with(target.deep_view(), root)) || self.hop_escapes(
                fs,
                target.deep_view(),
                depth as int,
            ) {
                None
            } else {
                self.after_component(fs, component as int)
            },
            CheckStage::LinkEntry { component, target, depth } => if self.hop_escapes(
                fs,
                target.deep_view(),
                depth as int,
            ) {
                None
            } else {
                self.after_component(fs, component as int)
            },
            CheckStage::Existing { path, tail } => Some(
                paths::extended(with_existing_ancestors(fs, path.deep_view()), tail.deep_view()),
            ),
            CheckStage::Ancestor { path, tail } => Some(
                paths::extended(
                    paths::canonical_or_self(fs, path.deep_view()),
                    tail.deep_view(),
                ),
            ),
            CheckStage::Done(found) => found.deep_view(),
        }
    }

    /// How many more answers the check takes at most.
    pub open spec fn steps_left(self) -> int {
        let count = self.candidate.parts@.len() as int;
        let last = 2 * count + 4;
        match self.stage {
            CheckStage::Target => 130 * count + last + 1,
            CheckStage::Component(component) => 130 * (count - component) + last,
            CheckStage::ReadLink { component, depth, .. } => 130 * (count - component) + last - 1
                - 3 * depth,
            CheckStage::LinkTarget { component, depth, .. } => 130 * (count - component) + last - 2
                - 3 * depth,
            CheckStage::LinkEntry { component, depth, .. } => 130 * (count - component) + last - 3
                - 3 * depth,
            CheckStage::Existing { path, .. } => 2 * (path.parts@.len() as int) + 2,
            CheckStage::Ancestor { .. } => 1,
            CheckStage::Done(_) => 0,
        }
    }

    /// Whether a question is the one that the check asks.
    pub open spec fn asks(self, question: FsQuestion) -> bool {
        match self.stage {
            CheckStage::Target => question matches FsQuestion::Canonicalize(path)
                && path.deep_view() == self.target.deep_view(),
            CheckStage::Component(component) => question matches FsQuestion::Entry(path)
                && path.deep_view() == self.candidate.deep_view().take(component + 1),
            CheckStage::ReadLink { link, .. } => question matches FsQuestion::ReadLink(path)
                && path.deep_view() == link.deep_view(),
            CheckStage::LinkTarget { target, .. } => question matches FsQuestion::Canonicalize(path)
                && path.deep_view() == target.deep_view(),
            CheckStage::LinkEntry { target, .. } => question matches FsQuestion::Entry(path)
                && path.deep_view() == target.deep_view(),
            CheckStage::Existing { path, .. } => question matches FsQuestion::Exists(asked)
                && asked.deep_view() == path.deep_view(),
            CheckStage::Ancestor { path, .. } => question matches FsQuestion::Canonicalize(asked)
                && asked.deep_view() == path.deep_view(),
            CheckStage::Done(_) => false,
        }
    }

    /// Whether a file system gives an answer to what the check asks.
    pub open spec fn answered_by(self, fs: FsView, answer: FsAnswer) -> bool {
        exists|question: FsQuestion| self.asks(question) && paths::answers(fs, question, answer)
    }

    /// What the check asks next; `None` once it is done.
    pub fn question(&self) -> (question: Option<FsQuestion>)
        requires
            self.well_formed(),
        ensures
            question is None <==> self.stage is Done,
            question matches Some(question) ==> self.asks(question),
    {
        let count: usize = self.candidate.parts.len();
        match &self.stage {
            CheckStage::Target => Some(FsQuestion::Canonicalize(self.target.copy())),
            CheckStage::Component(component) => {
                assert(*component < count);
                Some(FsQuestion::Entry(self.candidate.prefix(*component + 1)))
            },
            CheckStage::ReadLink { link, .. } => Some(FsQuestion::ReadLink(link.copy())),
            CheckStage::LinkTarget { target, .. } => Some(FsQuestion::Canonicalize(target.copy())),
            CheckStage::LinkEntry { target, .. } => Some(FsQuestion::Entry(target.copy())),
            CheckStage::Existing { path, .. } => Some(FsQuestion::Exists(path.copy())),
            CheckStage::Ancestor { path, .. } => Some(FsQuestion::Canonicalize(path.copy())),
            CheckStage::Done(_) => None,
        }
    }

    /// Looks at the components from one on; after the last one, at what exists of the path.
    fn look_at(self, component: usize) -> (next: Self)
        requires
            component <= self.candidate.parts@.len(),
        ensures
            next.well_formed(),
            next.steps_left() <= 130 * (self.candidate.parts@.len() - component) + 2
                * self.candidate.parts@.len() + 4,
            forall|fs: FsView| #[trigger]
                next.outcome(fs) == (if escapes_from(
                    fs,
                    self.candidate.deep_view(),
                    self.resolved_root.deep_view(),
                    self.raw_root.deep_view(),
                    component as nat,
                ) {
                    None
                } else {
                    Some(with_existing_ancestors(fs, self.candidate.deep_view()))
                }),
    {
        let mut check = self;
        if component < check.candidate.parts.len() {
            check.stage = CheckStage::Component(component);
            check
        } else {
            let path = check.candidate.copy();
            let tail = PathParts::new();
            proof {
                assert(path.parts@.len() == path.deep_view().len());
                assert(path.deep_view().len() == check.candidate.deep_view().len());
                assert(tail.deep_view().len() == 0);
            }
            check.stage = CheckStage::Existing { path, tail };
            check
        }
    }

    fn escape(self) -> (next: Self)
        ensures
            next.well_formed(),
            next.stage is Done,
            forall|fs: FsView| #[trigger] next.outcome(fs) is None,
    {
        let mut check = self;
        check.stage = CheckStage::Done(None);
        check
    }

    /// Goes on with an answer: in every file system that gives it, the check still comes to what
    /// it came to before, and is nearer to its end.
    pub fn answer(self, answer: FsAnswer) -> (next: Self)
        requires
            self.well_formed(),
            !(self.stage is Done),
        ensures
            next.well_formed(),
            0 <= next.steps_left() < self.steps_left(),
            forall|fs: FsView| #[trigger]
                self.answered_by(fs, answer) ==> next.outcome(fs) == self.outcome(fs),
    {
        let count: usize = self.candidate.parts.len();
        let mut check = self;
        let mut stage = CheckStage::Target;
        std::mem::swap(&mut stage, &mut check.stage);
        match stage {
            CheckStage::Target => {
                if let FsAnswer::Path(Some(found)) = answer {
                    check.stage = CheckStage::Done(Some(found));
                    return check;
                }
                check.look_at(0)
            },
            CheckStage::Component(component) => {
                assert(component < count);
                if let FsAnswer::Entry(EntryKind::Symlink) = answer {
                    let link = check.candidate.prefix(component + 1);
                    if link.starts_with(&check.resolved_root) || link.starts_with(&check.raw_root) {
                        check.stage = CheckStage::ReadLink { component, link, depth: 0 };
                        return check;
                    }
                }
                check.look_at(component + 1)
            },
            CheckStage::ReadLink { component, link, depth } => {
                match answer {
                    FsAnswer::Path(Some(found)) => {
                        let target = normalize_path(&link.parent_or_empty().join(&found));
                        check.stage = CheckStage::LinkTarget { component, target, depth };
                        check
                    },
                    _ => check.escape(),
                }
            },
            CheckStage::LinkTarget { component, target, depth } => {
                let canonical_inside = match &answer {
                    FsAnswer::Path(Some(found)) => found.starts_with(&check.resolved_root),
                    _ => target.starts_with(&check.resolved_root),
                };
                if !canonical_inside && !target.starts_with(&check.resolved_root) {
                    return check.escape();
                }
                check.stage = CheckStage::LinkEntry { component, target, depth };
                check
            },
            CheckStage::LinkEntry { component, target, depth } => {
                assert(component < count);
                match answer {
                    FsAnswer::Entry(EntryKind::Symlink) => {
                        if depth + 1 > MAX_LINK_HOPS {
                            return check.escape();
                        }
                        check.stage = CheckStage::ReadLink {
                            component,
                            link: target,
                            depth: depth + 1,
                        };
                        check
                    },
                    _ => check.look_at(component + 1),
                }
            },
            CheckStage::Existing { path, tail } => {
                match answer {
                    FsAnswer::Yes(true) => {
                        check.stage = CheckStage::Ancestor { path, tail };
                        check
                    },
                    _ => {
                        let mut path = path;
                        let mut tail = tail;
                        let ghost whole = path.deep_view();
                        let ghost rest = tail.deep_view();
                        match path.file_name() {
                            Some(name) => {
                                let ghost spelled = name@;
                                let _ = path.pop();
                                tail.parts.insert(0, Part::Normal(name));
                                proof {
                                    assert(tail.deep_view() =~= seq![PartView::Normal(spelled)]
                                        + rest);
                                    assert(whole.last() == PartView::Normal(spelled));
                                    assert(path.deep_view() =~= whole.drop_last());
                                    assert(path.parts@.len() == path.deep_view().len());
                                    assert(whole.len() == path.deep_view().len() + 1);
                                    assert forall|p: Seq<PartView>| #[trigger]
                                        paths::extended(p, tail.deep_view()) == paths::extended(
                                            paths::pushed(p, whole.last()),
                                            rest,
                                        ) by {
                                        paths::lemma_extended_behind(p, whole.last(), rest);
                                    }
                                }
                                check.stage = CheckStage::Existing { path, tail };
                            },
                            None => {
                                check.stage = CheckStage::Ancestor { path, tail };
                            },
                        }
                        check
                    },
                }
            },
            CheckStage::Ancestor { path, tail } => {
                let mut found = match answer {
                    FsAnswer::Path(Some(found)) => found,
                    _ => path,
                };
                found.extend(&tail);
                check.stage = CheckStage::Done(Some(found));
                check
            },
            CheckStage::Done(found) => {
                check.stage = CheckStage::Done(found);
                check
            },
        }
    }

    /// Where the path leads, once the check is done; `None` where it leads out by a link.
    pub fn finish(self) -> (found: Option<PathParts>)
        requires
            self.stage is Done,
        ensures
            forall|fs: FsView| found.deep_view() == #[trigger] self.outcome(fs),
    {
        match self.stage {
            CheckStage::Done(found) => found,
            _ => None,
        }
    }

    /// Starts the check of a path that is read or edited.
    pub fn of_path(context: &PathRestrictionContext) -> (check: PathCheck)
        ensures
            check.well_formed(),
            !(check.stage is Done),
            forall|fs: FsView| #[trigger]
                check.outcome(fs) == resolution(
                    fs,
                    context.path_for_resolution.deep_view(),
                    paths::normalized(context.path_for_resolution.deep_view()),
                    context.resolved_root.deep_view(),
                    context.raw_root.deep_view(),
                ),
    {
        PathCheck {
            target: context.path_for_resolution.copy(),
            candidate: normalize_path(&context.path_for_resolution),
            resolved_root: context.resolved_root.copy(),
            raw_root: context.raw_root.copy(),
            stage: CheckStage::Target,
        }
    }

    /// Starts the check of the directory of a path that is written, and returns the name that
    /// stays as it is; `None` where the path has no name of its own.
    pub fn of_write_location(context: &PathRestrictionContext) -> (out: Option<
        (PathCheck, String),
    >)
        ensures
            ({
                let whole = paths::normalized(context.path_for_resolution.deep_view());
                match out {
                    Some((check, name)) => {
                        &&& paths::last_name(whole) == Some(name@)
                        &&& check.well_formed()
                        &&& !(check.stage is Done)
                        &&& forall|fs: FsView| #[trigger]
                            check.outcome(fs) == resolution(
                                fs,
                                whole.drop_last(),
                                whole.drop_last(),
                                context.resolved_root.deep_view(),
                                context.raw_root.deep_view(),
                            )
                    },
                    None => paths::last_name(whole) is None,
                }
            }),
    {
        let whole = normalize_path(&context.path_for_resolution);
        let name = match whole.file_name() {
            Some(name) => name,
            None => {
                return None;
            },
        };
        let parent = whole.parent_or_empty();
        let check = PathCheck {
            target: parent.copy(),
            candidate: parent,
            resolved_root: context.resolved_root.copy(),
            raw_root: context.raw_root.copy(),
            stage: CheckStage::Target,
        };
        Some((check, name))
    }
}

/// What a check decides.
#[derive(Debug)]
pub enum PathVerdict {
    Allowed(PathParts),
    /// The path lies outside and is named as it was looked up.
    EscapesByLink,
    /// The path lies outside; where it leads.
    Outside(PathParts),
}

/// The model of [`PathVerdict`].
pub enum PathVerdictView {
    Allowed(Seq<PartView>),
    EscapesByLink,
    Outside(Seq<PartView>),
}

impl DeepView for PathVerdict {
    type V = PathVerdictView;

    open spec fn deep_view(&self) -> PathVerdictView {
        match *self {
            PathVerdict::Allowed(path) => PathVerdictView::Allowed(path.deep_view()),
            PathVerdict::EscapesByLink => PathVerdictView::EscapesByLink,
            PathVerdict::Outside(path) => PathVerdictView::Outside(path.deep_view()),
        }
    }
}

/// The verdict on where a path leads.
pub open spec fn verdict(resolved: Option<Seq<PartView>>, root: Seq<PartView>) -> PathVerdictView {
    match resolved {
        None => PathVerdictView::EscapesByLink,
        Some(path) => if paths::begins_with(path, root) {
            PathVerdictView::Allowed(path)
        } else {
            PathVerdictView::Outside(path)
        },
    }
}

/// The verdict on a path, from where it leads.
pub fn judge_path(resolved: Option<PathParts>, resolved_root: &PathParts) -> (out: PathVerdict)
    ensures
        out.deep_view() == verdict(resolved.deep_view(), resolved_root.deep_view()),
{
    match resolved {
        None => PathVerdict::EscapesByLink,
        Some(path) => {
            if path.starts_with(resolved_root) {
                PathVerdict::Allowed(path)
            } else {
                PathVerdict::Outside(path)
            }
        },
    }
}

/// The path that is written, from where its directory leads.
pub open spec fn write_location(
    directory: Option<Seq<PartView>>,
    name: Seq<char>,
) -> Option<Seq<PartView>> {
    match directory {
        Some(directory) => Some(
            paths::normalized(paths::below(directory, name)),
        ),
        None => None,
    }
}

/// The verdict on a path that is written, from where its directory leads: the last component is
/// not followed.
pub fn judge_write_location(
    directory: Option<PathParts>,
    name: String,
    resolved_root: &PathParts,
) -> (out: PathVerdict)
    ensures
        out.deep_view() == verdict(
            write_location(directory.deep_view(), name@),
            resolved_root.deep_view(),
        ),
{
    match directory {
        None => PathVerdict::EscapesByLink,
        Some(directory) => {
            let mut whole = directory;
            whole.push(Part::Normal(name));
            judge_path(Some(normalize_path(&whole)), resolved_root)
        },
    }
}

/// The message that a path lies outside the root.
pub open spec fn outside_message(path: Seq<char>, root: Seq<char>) -> Seq<char> {
    "path '"@ + path + "' is outside the project root '"@ + root + "'"@
}

/// The response that a path lies outside the root.
pub fn path_error_response(req_id: &str, path: &str, resolved_root: &str) -> (response: Response)
    ensures
        response.deep_view() == protocol::error_response(
            req_id@,
            "path_outside_root"@,
            outside_message(path@, resolved_root@),
        ),
{
    let mut message = "path '".to_owned();
    message.append(path);
    message.append("' is outside the project root '");
    message.append(resolved_root);
    message.append("'");
    Response::error(req_id, "path_outside_root", message)
}

/// How a path is spelled in messages: as it was given, as it was looked up, and the root.
#[derive(Debug)]
pub struct PathSpelling {
    pub given: String,
    pub looked_up: String,
    pub resolved_root: String,
}

/// What a request to read or edit a path is answered. A path outside the root is allowed only
/// where it is an artifact of the session that asks.
pub fn conclude_path(
    req_id: &str,
    verdict: PathVerdict,
    owned_artifact: bool,
    spelling: &PathSpelling,
) -> (out: Result<PathParts, Response>)
    ensures
        match verdict {
            PathVerdict::Allowed(path) => out == Ok::<PathParts, Response>(path),
            PathVerdict::EscapesByLink => out matches Err(response) && response.deep_view()
                == protocol::error_response(
                req_id@,
                "path_outside_root"@,
                outside_message(spelling.looked_up@, spelling.resolved_root@),
            ),
            PathVerdict::Outside(path) => if owned_artifact {
                out == Ok::<PathParts, Response>(path)
            } else {
                out matches Err(response) && response.deep_view() == protocol::error_response(
                    req_id@,
                    "path_outside_root"@,
                    outside_message(spelling.given@, spelling.resolved_root@),
                )
            },
        },
{
    match verdict {
        PathVerdict::Allowed(path) => Ok(path),
        PathVerdict::EscapesByLink => Err(
            path_error_response(
                req_id,
                spelling.looked_up.as_str(),
                spelling.resolved_root.as_str(),
            ),
        ),
        PathVerdict::Outside(path) => {
            if owned_artifact {
                Ok(path)
            } else {
                Err(
                    path_error_response(
                        req_id,
                        spelling.given.as_str(),
                        spelling.resolved_root.as_str(),
                    ),
                )
            }
        },
    }
}

/// What a request to write a path is answered: there is no exception for artifacts, and the path
/// is named as it was given.
pub fn conclude_write_location(
    req_id: &str,
    verdict: PathVerdict,
    spelling: &PathSpelling,
) -> (out: Result<PathParts, Response>)
    ensures
        match verdict {
            PathVerdict::Allowed(path) => out == Ok::<PathParts, Response>(path),
            _ => out matches Err(response) && response.deep_view() == protocol::error_response(
                req_id@,
                "path_outside_root"@,
                outside_message(spelling.given@, spelling.resolved_root@),
            ),
        },
{
    match verdict {
        PathVerdict::Allowed(path) => Ok(path),
        _ => Err(
            path_error_response(req_id, spelling.given.as_str(), spelling.resolved_root.as_str()),
        ),
    }
}

/// Whether a request is confined, and to what.
#[derive(Debug)]
pub enum RestrictionStep {
    /// The path is taken as it was given.
    Unrestricted,
    /// The request is refused.
    Refuse(Response),
    /// The path is checked against the configured root.
    Restrict(String),
}

/// Whether a path is confined for a request: by the configuration, or because the request asks
/// for it. A request that asks for it without a root is refused.
pub open spec fn restriction(context: AppContext, req_id: Seq<char>) -> (bool, bool) {
    let forced = context.restricting(req_id) is Some;
    (
        (context.config.restrict_to_project_root || forced) && context.config.project_root is Some,
        forced && context.config.project_root is None,
    )
}

impl AppContext {
    /// Whether a path is confined for a request, and to which configured root.
    pub fn path_restriction_context(&self, req_id: &str) -> (step: RestrictionStep)
        ensures
            match step {
                RestrictionStep::Unrestricted => restriction(*self, req_id@) == (false, false),
                RestrictionStep::Refuse(response) => {
                    &&& restriction(*self, req_id@).1
                    &&& response.deep_view() == protocol::error_response(
                        req_id@,
                        "path_outside_root"@,
                        "project root is required when path restriction is forced"@,
                    )
                },
                RestrictionStep::Restrict(root) => {
                    &&& restriction(*self, req_id@).0
                    &&& Some(root) == self.config.project_root
                },
            },
    {
        let forced = self.request_force_restrict(req_id);
        if !self.config.restrict_to_project_root && !forced {
            return RestrictionStep::Unrestricted;
        }
        match &self.config.project_root {
            Some(root) => RestrictionStep::Restrict(root.clone()),
            None => {
                if forced {
                    RestrictionStep::Refuse(
                        Response::error(
                            req_id,
                            "path_outside_root",
                            "project root is required when path restriction is forced".to_owned(),
                        ),
                    )
                } else {
                    RestrictionStep::Unrestricted
                }
            },
        }
    }

    /// The containment root that is remembered for a configured root, as that is spelled, where
    /// it still exists; else it has to be looked up and handed to
    /// [`AppContext::remember_restriction_root`].
    pub fn remembered_restriction_root(&self, root: &str, remembered_exists: bool) -> (resolved:
        Option<String>)
        ensures
            resolved == (match self.path_restriction_root_memo {
                Some(memo) => if memo.configured_root@ == root@ && remembered_exists {
                    Some(memo.resolved_root)
                } else {
                    None
                },
                None => None,
            }),
    {
        match &self.path_restriction_root_memo {
            Some(memo) => {
                if text::same_text(memo.configured_root.as_str(), root) && remembered_exists {
                    Some(memo.resolved_root.clone())
                } else {
                    None
                }
            },
            None => None,
        }
    }

    /// Remembers the containment root of a configured root: what the file system says, or the
    /// root as it is spelled where it says nothing.
    pub fn remember_restriction_root(&mut self, root: String, canonical: Option<String>) -> (resolved:
        String)
        ensures
            resolved == (match canonical {
                Some(canonical) => canonical,
                None => root,
            }),
            *final(self) == (AppContext {
                path_restriction_root_memo: Some(
                    PathRestrictionRootMemo { configured_root: root, resolved_root: resolved },
                ),
                ..*old(self)
            }),
    {
        let resolved = match canonical {
            Some(canonical) => canonical,
            None => root.clone(),
        };
        self.path_restriction_root_memo = Some(
            PathRestrictionRootMemo { configured_root: root, resolved_root: resolved.clone() },
        );
        resolved
    }
}

/// How a path is looked up: a relative one below the configured root.
pub fn restriction_context(raw_root: PathParts, resolved_root: PathParts, path: &PathParts) -> (context:
    PathRestrictionContext)
    ensures
        context.raw_root == raw_root,
        context.resolved_root == resolved_root,
        context.path_for_resolution.deep_view() == paths::joined(
            raw_root.deep_view(),
            path.deep_view(),
        ),
{
    let path_for_resolution = raw_root.join(path);
    PathRestrictionContext { raw_root, resolved_root, path_for_resolution }
}

/// The path that a possibly relative one stands for: below the project root, or below the
/// current directory where no root is configured.
pub fn resolve_relative_path(
    path: &PathParts,
    project_root: Option<&PathParts>,
    current_dir: &PathParts,
) -> (out: PathParts)
    ensures
        out.deep_view() == (match project_root {
            Some(root) => paths::joined(root.deep_view(), path.deep_view()),
            None => paths::joined(current_dir.deep_view(), path.deep_view()),
        }),
{
    match project_root {
        Some(root) => root.join(path),
        None => current_dir.join(path),
    }
}

/// A path that is allowed lies within the root.
pub proof fn law_allowed_path_lies_within(resolved: Option<Seq<PartView>>, root: Seq<PartView>)
    ensures
        verdict(resolved, root) matches PathVerdictView::Allowed(path) ==> paths::begins_with(
            path,
            root,
        ),
{
}

/// A link within the root that leads out of it keeps the path from being allowed, where the file
/// system does not know the path: at whatever component the link stands.
pub proof fn law_escaping_link_is_rejected(
    fs: FsView,
    target: Seq<PartView>,
    candidate: Seq<PartView>,
    root: Seq<PartView>,
    raw_root: Seq<PartView>,
    component: nat,
)
    requires
        (fs.canonical)(target) is None,
        component < candidate.len(),
        link_within(fs, candidate.take((component + 1) as int), root, raw_root),
        chain_escapes(fs, candidate.take((component + 1) as int), root, 0),
    ensures
        verdict(resolution(fs, target, candidate, root, raw_root), root)
            == PathVerdictView::EscapesByLink,
{
    lemma_later_component_escapes(fs, candidate, root, raw_root, 0, component);
}

proof fn lemma_later_component_escapes(
    fs: FsView,
    candidate: Seq<PartView>,
    root: Seq<PartView>,
    raw_root: Seq<PartView>,
    from: nat,
    component: nat,
)
    requires
        from <= component < candidate.len(),
        link_within(fs, candidate.take((component + 1) as int), root, raw_root),
        chain_escapes(fs, candidate.take((component + 1) as int), root, 0),
    ensures
        escapes_from(fs, candidate, root, raw_root, from),
    decreases component - from,
{
    if from < component {
        lemma_later_component_escapes(fs, candidate, root, raw_root, from + 1, component);
    }
}

/// A chain of links that cannot be read to its end, or that never ends, leads out.
pub proof fn law_unreadable_chain_escapes(fs: FsView, link: Seq<PartView>, root: Seq<PartView>)
    ensures
        (fs.link)(link) is None ==> chain_escapes(fs, link, root, 0),
        chain_escapes(fs, link, root, (MAX_LINK_HOPS + 1) as nat),
{
}

/// Where the file system knows a path, only where it leads counts, not how it is spelled.
pub proof fn law_existing_path_goes_by_its_canonical_form(
    fs: FsView,
    target: Seq<PartView>,
    candidate: Seq<PartView>,
    root: Seq<PartView>,
    raw_root: Seq<PartView>,
)
    requires
        (fs.canonical)(target) is Some,
    ensures
        verdict(resolution(fs, target, candidate, root, raw_root), root) == verdict(
            (fs.canonical)(target),
            root,
        ),
{
}

/// The refusal of a path names the path and then the root that it is not in, each in quotes.
pub proof fn law_refusal_names_path_and_root(path: Seq<char>, root: Seq<char>)
    ensures
        ({
            let message = outside_message(path, root);
            &&& message.subrange(6, 6 + path.len() as int) == path
            &&& message[5] == '\'' && message[6 + path.len() as int] == '\''
            &&& message.last() == '\''
            &&& message.subrange(message.len() - 1 - root.len(), message.len() - 1) == root
            &&& message[message.len() - 2 - root.len()] == '\''
        }),
{
    reveal_strlit("path '");
    reveal_strlit("' is outside the project root '");
    reveal_strlit("'");
    let message = outside_message(path, root);
    let middle = "' is outside the project root '"@;
    assert("path '"@.len() == 6 && "path '"@[5] == '\'');
    assert("'"@.len() == 1 && "'"@[0] == '\'');
    assert(middle[0] == '\'' && middle[middle.len() - 1] == '\'');
    assert(message.subrange(6, 6 + path.len() as int) =~= path);
    assert(message.subrange(message.len() - 1 - root.len(), message.len() - 1) =~= root);
}

} // verus!
