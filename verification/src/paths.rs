//! Paths as lists of components, and what the file system says of them.
//!
//! A path is an optional prefix, which on Windows names a drive, a share or a device, an optional
//! root, and then names, `.` and `..`. Behind a verbatim prefix `.` and `..` mean nothing to the
//! file system, and so a path that is put behind one is resolved by its spelling. What depends on
//! the file system is stated over a model of it, and computed by walks that ask one question at a
//! time: the application looks the answer up and hands it in. Whatever file system the answers
//! came from, a walk ends as the model says.

use vstd::prelude::*;
use vstd::string::*;

use crate::config::Platform;
use crate::path_prefix::{is_verbatim, PathPrefix, PrefixView};
use crate::text;

verus! {

/// A component of a path.
#[derive(Debug, PartialEq, Eq)]
pub enum Part {
    /// A drive, a share or a device.
    Prefix(PathPrefix),
    Root,
    Current,
    Parent,
    Normal(String),
}

/// The model of [`Part`].
pub enum PartView {
    Prefix(PrefixView),
    Root,
    Current,
    Parent,
    Normal(Seq<char>),
}

impl DeepView for Part {
    type V = PartView;

    open spec fn deep_view(&self) -> PartView {
        match *self {
            Part::Prefix(prefix) => PartView::Prefix(prefix.deep_view()),
            Part::Root => PartView::Root,
            Part::Current => PartView::Current,
            Part::Parent => PartView::Parent,
            Part::Normal(name) => PartView::Normal(name@),
        }
    }
}

impl Part {
    pub fn copy(&self) -> (out: Part)
        ensures
            out.deep_view() == self.deep_view(),
    {
        match self {
            Part::Prefix(prefix) => Part::Prefix(prefix.copy()),
            Part::Root => Part::Root,
            Part::Current => Part::Current,
            Part::Parent => Part::Parent,
            Part::Normal(name) => Part::Normal(name.clone()),
        }
    }

    /// Whether two components are the same.
    pub fn same(&self, other: &Part) -> (same: bool)
        ensures
            same == (self.deep_view() == other.deep_view()),
    {
        match (self, other) {
            (Part::Prefix(a), Part::Prefix(b)) => a.same(b),
            (Part::Root, Part::Root) => true,
            (Part::Current, Part::Current) => true,
            (Part::Parent, Part::Parent) => true,
            (Part::Normal(a), Part::Normal(b)) => text::same_text(a.as_str(), b.as_str()),
            _ => false,
        }
    }
}

/// A path.
#[derive(Debug, PartialEq, Eq)]
pub struct PathParts {
    pub parts: Vec<Part>,
}

impl DeepView for PathParts {
    type V = Seq<PartView>;

    open spec fn deep_view(&self) -> Seq<PartView> {
        self.parts.deep_view()
    }
}

/// Whether a path starts with all components of another.
pub open spec fn begins_with(path: Seq<PartView>, base: Seq<PartView>) -> bool {
    base.len() <= path.len() && path.take(base.len() as int) == base
}

/// Whether a path stands on its own: it starts at the root, on Windows at that of a drive, or at
/// another prefix, behind which a root goes without saying.
pub open spec fn is_absolute(platform: Platform, path: Seq<PartView>) -> bool {
    match platform {
        Platform::Unix => path.len() > 0 && path[0] is Root,
        Platform::Windows => path.len() > 0 && match path[0] {
            PartView::Prefix(prefix) => !(prefix is Disk) || (path.len() > 1 && path[1] is Root),
            _ => false,
        },
    }
}

/// Whether a path starts with a verbatim prefix.
pub open spec fn is_verbatim_path(path: Seq<PartView>) -> bool {
    path.len() > 0 && (path[0] matches PartView::Prefix(prefix) && is_verbatim(prefix))
}

/// The path without its last component, where that is a name.
pub open spec fn without_name(path: Seq<PartView>) -> Seq<PartView> {
    if path.len() > 0 && path.last() is Normal {
        path.drop_last()
    } else {
        path
    }
}

/// The components of a verbatim path once those of another one were taken up, one by one: `..`
/// takes back a name, and a root all but the prefix.
pub open spec fn taken_up(base: Seq<PartView>, rest: Seq<PartView>) -> Seq<PartView>
    decreases rest.len(),
{
    if rest.len() == 0 {
        base
    } else {
        let front = taken_up(base, rest.drop_last());
        match rest.last() {
            PartView::Root => seq![front[0], PartView::Root],
            PartView::Current => front,
            PartView::Parent => without_name(front),
            part => front.push(part),
        }
    }
}

/// A verbatim path whose components stand behind a root.
pub open spec fn rooted(path: Seq<PartView>) -> Seq<PartView> {
    if path.len() > 1 && !(path[1] is Root) {
        path.insert(1, PartView::Root)
    } else {
        path
    }
}

/// Whether a path starts with a prefix or a root.
pub open spec fn is_anchored(path: Seq<PartView>) -> bool {
    path.len() > 0 && (path[0] is Prefix || path[0] is Root)
}

/// A path below another one. One with a prefix stands for itself, and one with a root but no
/// prefix keeps at most the prefix of the other.
pub open spec fn joined(base: Seq<PartView>, rest: Seq<PartView>) -> Seq<PartView> {
    if rest.len() > 0 && rest[0] is Prefix {
        rest
    } else if is_verbatim_path(base) && rest.len() > 0 {
        rooted(taken_up(base, rest))
    } else if rest.len() > 0 && rest[0] is Root {
        if base.len() > 0 && base[0] is Prefix {
            seq![base[0]] + rest
        } else {
            rest
        }
    } else if base.len() > 0 && rest.len() > 0 && rest[0] is Current {
        base + rest.drop_first()
    } else {
        base + rest
    }
}

/// Whether a path has a last component that can be left out.
pub open spec fn has_parent(path: Seq<PartView>) -> bool {
    path.len() > 0 && !(path.last() is Root) && !(path.last() is Prefix)
}

/// The path without its last component; a prefix and a root stay.
pub open spec fn popped(path: Seq<PartView>) -> Seq<PartView> {
    if has_parent(path) {
        path.drop_last()
    } else {
        path
    }
}

/// The path with one more component: a prefix replaces it, and a root all of it but its prefix.
/// `.` adds nothing to a path that is not empty, and behind a verbatim prefix `..` takes back a
/// name.
pub open spec fn pushed(path: Seq<PartView>, part: PartView) -> Seq<PartView> {
    match part {
        PartView::Prefix(_) => seq![part],
        PartView::Root => if path.len() > 0 && path[0] is Prefix {
            seq![path[0], part]
        } else {
            seq![part]
        },
        PartView::Current => if path.len() == 0 {
            path.push(part)
        } else {
            path
        },
        PartView::Parent => if is_verbatim_path(path) {
            without_name(path)
        } else {
            path.push(part)
        },
        PartView::Normal(_) => rooted_behind(path).push(part),
    }
}

/// A path that a name can stand behind: a bare verbatim prefix needs a root first.
pub open spec fn rooted_behind(path: Seq<PartView>) -> Seq<PartView> {
    if path.len() == 1 && is_verbatim_path(path) {
        path.push(PartView::Root)
    } else {
        path
    }
}

/// The path with more components, one by one.
pub open spec fn extended(path: Seq<PartView>, more: Seq<PartView>) -> Seq<PartView>
    decreases more.len(),
{
    if more.len() == 0 {
        path
    } else {
        pushed(extended(path, more.drop_last()), more.last())
    }
}

/// Adding a component before others is adding them all.
pub proof fn lemma_extended_behind(path: Seq<PartView>, part: PartView, more: Seq<PartView>)
    ensures
        extended(pushed(path, part), more) == extended(path, seq![part] + more),
    decreases more.len(),
{
    let all = seq![part] + more;
    if more.len() == 0 {
        assert(all =~= seq![part]);
        assert(all.drop_last() =~= Seq::<PartView>::empty());
        assert(extended(path, all.drop_last()) == path);
    } else {
        lemma_extended_behind(path, part, more.drop_last());
        assert(all.drop_last() =~= seq![part] + more.drop_last());
    }
}

/// The path with `.` and `..` resolved by their spelling alone: `..` takes back the name before
/// it. Where there is none it stays, so that a path that leads out still shows it; behind a
/// verbatim prefix it goes.
pub open spec fn normalized(path: Seq<PartView>) -> Seq<PartView>
    decreases path.len(),
{
    if path.len() == 0 {
        path
    } else {
        let front = normalized(path.drop_last());
        match path.last() {
            PartView::Parent => if front.len() > 0 && front.last() is Normal {
                front.drop_last()
            } else {
                pushed(front, PartView::Parent)
            },
            PartView::Current => front,
            part => pushed(front, part),
        }
    }
}

/// Names as components.
pub open spec fn named(names: Seq<Seq<char>>) -> Seq<PartView> {
    names.map_values(|name: Seq<char>| PartView::Normal(name))
}

impl PathParts {
    /// The empty path.
    pub fn new() -> (path: Self)
        ensures
            path.deep_view() == Seq::<PartView>::empty(),
    {
        let path = PathParts { parts: Vec::new() };
        assert(path.deep_view() =~= Seq::<PartView>::empty());
        path
    }

    /// A copy of the path.
    pub fn copy(&self) -> (out: PathParts)
        ensures
            out.deep_view() == self.deep_view(),
    {
        self.prefix(self.parts.len())
    }

    /// The first components of the path.
    pub fn prefix(&self, count: usize) -> (out: PathParts)
        requires
            count <= self.parts@.len(),
        ensures
            out.deep_view() == self.deep_view().take(count as int),
    {
        let mut parts: Vec<Part> = Vec::new();
        let mut i: usize = 0;
        while i < count
            invariant
                i <= count <= self.parts@.len(),
                parts@.len() == i,
                forall|k: int|
                    0 <= k < i ==> (#[trigger] parts@[k]).deep_view()
                        == self.parts@[k].deep_view(),
            decreases count - i,
        {
            parts.push(self.parts[i].copy());
            i = i + 1;
        }
        let out = PathParts { parts };
        assert(out.deep_view() =~= self.deep_view().take(count as int));
        out
    }

    /// Whether the path starts with all components of another.
    pub fn starts_with(&self, base: &PathParts) -> (yes: bool)
        ensures
            yes == begins_with(self.deep_view(), base.deep_view()),
    {
        if base.parts.len() > self.parts.len() {
            return false;
        }
        let mut i: usize = 0;
        while i < base.parts.len()
            invariant
                i <= base.parts@.len() <= self.parts@.len(),
                forall|k: int|
                    0 <= k < i ==> (#[trigger] self.parts@[k]).deep_view()
                        == base.parts@[k].deep_view(),
            decreases base.parts.len() - i,
        {
            if !self.parts[i].same(&base.parts[i]) {
                assert(self.deep_view().take(base.parts@.len() as int)[i as int]
                    != base.deep_view()[i as int]);
                return false;
            }
            i = i + 1;
        }
        assert(self.deep_view().take(base.parts@.len() as int) =~= base.deep_view());
        true
    }

    /// Whether the path stands on its own.
    pub fn is_absolute(&self, platform: Platform) -> (yes: bool)
        ensures
            yes == is_absolute(platform, self.deep_view()),
    {
        if self.parts.len() == 0 {
            return false;
        }
        match platform {
            Platform::Unix => match &self.parts[0] {
                Part::Root => true,
                _ => false,
            },
            Platform::Windows => match &self.parts[0] {
                Part::Prefix(prefix) => {
                    if !prefix.is_disk() {
                        return true;
                    }
                    if self.parts.len() < 2 {
                        return false;
                    }
                    match &self.parts[1] {
                        Part::Root => true,
                        _ => false,
                    }
                },
                _ => false,
            },
        }
    }

    /// Whether the path starts with a prefix or a root.
    pub fn is_anchored(&self) -> (yes: bool)
        ensures
            yes == is_anchored(self.deep_view()),
    {
        if self.parts.len() == 0 {
            return false;
        }
        match &self.parts[0] {
            Part::Prefix(_) => true,
            Part::Root => true,
            _ => false,
        }
    }

    fn has_prefix(&self) -> (yes: bool)
        ensures
            yes == (self.deep_view().len() > 0 && self.deep_view()[0] is Prefix),
    {
        if self.parts.len() == 0 {
            return false;
        }
        match &self.parts[0] {
            Part::Prefix(_) => true,
            _ => false,
        }
    }

    fn is_verbatim(&self) -> (yes: bool)
        ensures
            yes == is_verbatim_path(self.deep_view()),
    {
        if self.parts.len() == 0 {
            return false;
        }
        match &self.parts[0] {
            Part::Prefix(prefix) => prefix.is_verbatim(),
            _ => false,
        }
    }

    fn drop_name(&mut self)
        ensures
            final(self).deep_view() == without_name(old(self).deep_view()),
    {
        let ghost before = self.deep_view();
        if self.parts.len() == 0 {
            return ;
        }
        let last = self.parts.len() - 1;
        assert(before.last() == self.parts@[last as int].deep_view());
        let named = match &self.parts[last] {
            Part::Normal(_) => true,
            _ => false,
        };
        if named {
            let _ = self.parts.pop();
            assert(self.deep_view() =~= before.drop_last());
        }
    }

    /// Takes up the components of another path behind a verbatim prefix.
    pub fn take_up(&self, rest: &PathParts) -> (out: PathParts)
        requires
            is_verbatim_path(self.deep_view()),
        ensures
            out.deep_view() == taken_up(self.deep_view(), rest.deep_view()),
            out.parts@.len() > 0,
    {
        let ghost base = self.deep_view();
        let ghost more = rest.deep_view();
        let mut out = self.copy();
        let mut i: usize = 0;
        assert(more.take(0) =~= Seq::<PartView>::empty());
        while i < rest.parts.len()
            invariant
                i <= rest.parts@.len(),
                more == rest.deep_view(),
                base.len() > 0,
                base[0] is Prefix,
                out.deep_view() == taken_up(base, more.take(i as int)),
                out.deep_view().len() > 0,
                out.deep_view()[0] == base[0] || out.deep_view()[0] is Prefix,
            decreases rest.parts.len() - i,
        {
            let ghost before = out.deep_view();
            proof {
                assert(more[i as int] == rest.parts@[i as int].deep_view());
                assert(more.take(i + 1).drop_last() =~= more.take(i as int));
                assert(more.take(i + 1).last() == more[i as int]);
            }
            match &rest.parts[i] {
                Part::Root => {
                    let mut start = out.prefix(1);
                    let ghost first = start.deep_view();
                    start.parts.push(Part::Root);
                    assert(start.deep_view() =~= first.push(PartView::Root));
                    out = start;
                    assert(out.deep_view() =~= seq![before[0], PartView::Root]);
                },
                Part::Current => {},
                Part::Parent => {
                    out.drop_name();
                },
                part => {
                    out.parts.push(part.copy());
                    assert(out.deep_view() =~= before.push(more[i as int]));
                },
            }
            i = i + 1;
        }
        assert(more.take(more.len() as int) =~= more);
        assert(out.deep_view().len() == out.parts@.len());
        out
    }

    /// A path below this one. One with a prefix stands for itself, and one with a root but no
    /// prefix keeps at most the prefix of this one.
    pub fn join(&self, rest: &PathParts) -> (out: PathParts)
        ensures
            out.deep_view() == joined(self.deep_view(), rest.deep_view()),
    {
        if !rest.has_prefix() && rest.parts.len() > 0 && self.is_verbatim() {
            let mut out = self.take_up(rest);
            let ghost before = out.deep_view();
            if out.parts.len() > 1 {
                let bare = match &out.parts[1] {
                    Part::Root => false,
                    _ => true,
                };
                if bare {
                    out.parts.insert(1, Part::Root);
                    assert(out.deep_view() =~= before.insert(1, PartView::Root));
                }
            }
            return out;
        }
        if rest.is_anchored() {
            if rest.has_prefix() || !self.has_prefix() {
                return rest.copy();
            }
            let mut out = self.prefix(1);
            let ghost start = self.deep_view().take(1);
            let ghost more = rest.deep_view();
            let mut i: usize = 0;
            assert(start + more.take(0) =~= start);
            while i < rest.parts.len()
                invariant
                    i <= rest.parts@.len(),
                    more == rest.deep_view(),
                    out.deep_view() == start + more.take(i as int),
                decreases rest.parts.len() - i,
            {
                let ghost before = out.deep_view();
                out.parts.push(rest.parts[i].copy());
                proof {
                    assert(out.deep_view() =~= before.push(more[i as int]));
                    assert(out.deep_view() =~= start + more.take(i + 1));
                }
                i = i + 1;
            }
            proof {
                assert(more.take(more.len() as int) =~= more);
                assert(start =~= seq![self.deep_view()[0]]);
            }
            return out;
        }
        let mut out = self.copy();
        let mut i: usize = 0;
        if self.parts.len() > 0 && rest.parts.len() > 0 {
            match &rest.parts[0] {
                Part::Current => {
                    i = 1;
                },
                _ => {},
            }
        }
        let ghost from = i as int;
        let ghost base = self.deep_view();
        let ghost more = rest.deep_view();
        assert(base + more.subrange(from, from) =~= base);
        while i < rest.parts.len()
            invariant
                0 <= from <= i <= rest.parts@.len(),
                more == rest.deep_view(),
                out.deep_view() == base + more.subrange(from, i as int),
            decreases rest.parts.len() - i,
        {
            let ghost before = out.deep_view();
            out.parts.push(rest.parts[i].copy());
            proof {
                assert(out.deep_view() =~= before.push(more[i as int]));
                assert(out.deep_view() =~= base + more.subrange(from, i + 1));
            }
            i = i + 1;
        }
        proof {
            if from == 1 {
                assert(more.subrange(1, more.len() as int) =~= more.drop_first());
            } else {
                assert(more.subrange(0, more.len() as int) =~= more);
            }
        }
        out
    }

    /// Leaves out the last component and answers whether there was one.
    pub fn pop(&mut self) -> (done: bool)
        ensures
            done == has_parent(old(self).deep_view()),
            final(self).deep_view() == popped(old(self).deep_view()),
    {
        let ghost before = self.deep_view();
        if self.parts.len() == 0 {
            return false;
        }
        let last = self.parts.len() - 1;
        assert(before.last() == self.parts@[last as int].deep_view());
        match &self.parts[last] {
            Part::Prefix(_) => {
                return false;
            },
            Part::Root => {
                return false;
            },
            _ => {},
        }
        let _ = self.parts.pop();
        assert(self.deep_view() =~= before.drop_last());
        true
    }

    /// Adds a component.
    pub fn push(&mut self, part: Part)
        ensures
            final(self).deep_view() == pushed(old(self).deep_view(), part.deep_view()),
    {
        let ghost before = self.deep_view();
        let ghost added = part.deep_view();
        match &part {
            Part::Prefix(_) => {
                self.parts = Vec::new();
            },
            Part::Root => {
                if self.has_prefix() {
                    self.parts = self.prefix(1).parts;
                    assert(self.deep_view() =~= before.take(1));
                    assert(self.deep_view()[0] == before[0]);
                } else {
                    self.parts = Vec::new();
                }
            },
            Part::Current => {
                if self.parts.len() > 0 {
                    return ;
                }
            },
            Part::Parent => {
                if self.is_verbatim() {
                    self.drop_name();
                    return ;
                }
            },
            Part::Normal(_) => {
                if self.parts.len() == 1 && self.is_verbatim() {
                    self.parts.push(Part::Root);
                    assert(self.deep_view() =~= before.push(PartView::Root));
                }
            },
        }
        self.parts.push(part);
        assert(self.deep_view() =~= pushed(before, added));
    }

    /// Adds components, one by one.
    pub fn extend(&mut self, more: &PathParts)
        ensures
            final(self).deep_view() == extended(old(self).deep_view(), more.deep_view()),
    {
        let ghost start = self.deep_view();
        let ghost added = more.deep_view();
        let mut i: usize = 0;
        assert(added.take(0) =~= Seq::<PartView>::empty());
        while i < more.parts.len()
            invariant
                i <= more.parts@.len(),
                added == more.deep_view(),
                self.deep_view() == extended(start, added.take(i as int)),
            decreases more.parts.len() - i,
        {
            proof {
                assert(added[i as int] == more.parts@[i as int].deep_view());
                assert(added.take(i + 1).drop_last() =~= added.take(i as int));
                assert(added.take(i + 1).last() == added[i as int]);
            }
            self.push(more.parts[i].copy());
            i = i + 1;
        }
        assert(added.take(added.len() as int) =~= added);
    }

    /// The name of the last component, where it is one.
    pub fn file_name(&self) -> (name: Option<String>)
        ensures
            name.deep_view() == last_name(self.deep_view()),
    {
        if self.parts.len() == 0 {
            return None;
        }
        let last = self.parts.len() - 1;
        assert(self.deep_view().last() == self.parts@[last as int].deep_view());
        match &self.parts[last] {
            Part::Normal(name) => Some(name.clone()),
            _ => None,
        }
    }

    /// The path without its last component; empty where there is none to leave out.
    pub fn parent_or_empty(&self) -> (out: PathParts)
        ensures
            out.deep_view() == parent_or_empty(self.deep_view()),
    {
        let mut out = self.copy();
        if out.pop() {
            out
        } else {
            PathParts::new()
        }
    }
}

/// The name of the last component, where it is one.
pub open spec fn last_name(path: Seq<PartView>) -> Option<Seq<char>> {
    if path.len() == 0 {
        None
    } else {
        match path.last() {
            PartView::Normal(name) => Some(name),
            _ => None,
        }
    }
}

/// The path without its last component; empty where there is none to leave out.
pub open spec fn parent_or_empty(path: Seq<PartView>) -> Seq<PartView> {
    if has_parent(path) {
        path.drop_last()
    } else {
        Seq::empty()
    }
}

/// Resolves `.` and `..` by their spelling alone.
pub fn normalize_path(path: &PathParts) -> (out: PathParts)
    ensures
        out.deep_view() == normalized(path.deep_view()),
{
    let ghost all = path.deep_view();
    let mut out = PathParts::new();
    let mut i: usize = 0;
    assert(all.take(0) =~= Seq::<PartView>::empty());
    while i < path.parts.len()
        invariant
            i <= path.parts@.len(),
            all == path.deep_view(),
            out.deep_view() == normalized(all.take(i as int)),
        decreases path.parts.len() - i,
    {
        proof {
            assert(all[i as int] == path.parts@[i as int].deep_view());
            assert(all.take(i + 1).drop_last() =~= all.take(i as int));
            assert(all.take(i + 1).last() == all[i as int]);
        }
        match &path.parts[i] {
            Part::Parent => {
                if out.file_name().is_some() {
                    let _ = out.pop();
                } else {
                    out.push(Part::Parent);
                }
            },
            Part::Current => {},
            part => {
                out.push(part.copy());
            },
        }
        i = i + 1;
    }
    assert(all.take(all.len() as int) =~= all);
    out
}

/// A path whose prefix and root stand in front, if anywhere.
pub open spec fn anchored_in_front(path: Seq<PartView>) -> bool {
    forall|i: int|
        0 <= i < path.len() ==> match #[trigger] path[i] {
            PartView::Prefix(_) => i == 0,
            PartView::Root => i == 0 || (i == 1 && path[0] is Prefix),
            _ => true,
        }
}

/// A normal form: no `.`, the prefix and the root in front, if anywhere, and no name before a
/// `..`; behind a verbatim prefix a root and no `..` at all.
pub open spec fn is_normal(path: Seq<PartView>) -> bool {
    &&& anchored_in_front(path)
    &&& is_verbatim_path(path) ==> {
        &&& path.len() > 1 ==> path[1] is Root
        &&& forall|i: int| 0 <= i < path.len() ==> !(#[trigger] path[i] is Parent)
    }
    &&& forall|i: int| 0 <= i < path.len() ==> !(#[trigger] path[i] is Current)
    &&& forall|i: int, j: int|
        0 <= i < j < path.len() && #[trigger] path[j] is Parent ==> !(#[trigger] path[i] is Normal)
}

/// A normal form is its own normal form.
pub(crate) proof fn lemma_normal_is_kept(path: Seq<PartView>)
    requires
        is_normal(path),
    ensures
        normalized(path) == path,
    decreases path.len(),
{
    if path.len() > 0 {
        let front = path.drop_last();
        assert(forall|i: int| 0 <= i < front.len() ==> front[i] == path[i]);
        lemma_normal_is_kept(front);
        let last = path[path.len() - 1];
        if last is Parent && front.len() > 0 {
            assert(!(path[path.len() - 2] is Normal));
        }
        assert(pushed(front, last) =~= path || last is Parent);
        assert(front.push(last) =~= path);
    }
}

/// Resolving a path by its spelling leaves no `.` in it and no name before a `..`, and resolving
/// it once more changes nothing.
pub proof fn law_normal_form_is_normal(path: Seq<PartView>)
    requires
        anchored_in_front(path),
    ensures
        normalized(normalized(path)) == normalized(path),
        is_normal(normalized(path)),
{
    lemma_normalized_is_normal(path);
    lemma_normal_is_kept(normalized(path));
}

proof fn lemma_normalized_is_normal(path: Seq<PartView>)
    requires
        anchored_in_front(path),
    ensures
        is_normal(normalized(path)),
        path.len() == 1 && path[0] is Prefix ==> normalized(path) == path,
    decreases path.len(),
{
    if path.len() > 0 {
        let front = path.drop_last();
        assert(forall|i: int| 0 <= i < front.len() ==> front[i] == path[i]);
        lemma_normalized_is_normal(front);
        let before = normalized(front);
        let out = normalized(path);
        let last = path[path.len() - 1];
        if last is Parent && !(before.len() > 0 && before.last() is Normal) {
            assert forall|i: int| 0 <= i < before.len() implies !(#[trigger] before[i] is
                Normal) by {
                let end = before[before.len() - 1];
                assert(end is Parent || end is Root || end is Prefix);
            }
        }
        if last is Prefix {
            assert(out =~= path);
        }
        if last is Root && path.len() == 2 {
            assert(before == front);
            assert(out =~= path);
        }
        assert(is_normal(out));
    }
}

/// What a directory entry is, without following links.
#[derive(Debug, Clone, Copy, PartialEq, Eq, Structural)]
pub enum EntryKind {
    Missing,
    /// Looking failed for another reason.
    Failed,
    Symlink,
    Other,
}

/// A file system, as far as paths are checked against it.
pub struct FsView {
    /// The canonical path, where the path leads to something that exists.
    pub canonical: spec_fn(Seq<PartView>) -> Option<Seq<PartView>>,
    pub entry: spec_fn(Seq<PartView>) -> EntryKind,
    /// Where a link points to.
    pub link: spec_fn(Seq<PartView>) -> Option<Seq<PartView>>,
    pub exists: spec_fn(Seq<PartView>) -> bool,
    pub is_dir: spec_fn(Seq<PartView>) -> bool,
}

/// The canonical path, or the path itself where there is none.
pub open spec fn canonical_or_self(fs: FsView, path: Seq<PartView>) -> Seq<PartView> {
    match (fs.canonical)(path) {
        Some(canonical) => canonical,
        None => path,
    }
}

/// What a walk asks about the file system.
#[derive(Debug)]
pub enum FsQuestion {
    Canonicalize(PathParts),
    Entry(PathParts),
    ReadLink(PathParts),
    Exists(PathParts),
    IsDir(PathParts),
}

/// What the application found.
#[derive(Debug)]
pub enum FsAnswer {
    /// For [`FsQuestion::Canonicalize`] and [`FsQuestion::ReadLink`]; `None` where that failed.
    Path(Option<PathParts>),
    /// For [`FsQuestion::Entry`].
    Entry(EntryKind),
    /// For [`FsQuestion::Exists`] and [`FsQuestion::IsDir`].
    Yes(bool),
}

/// Whether an answer is the one that a file system gives to a question.
pub open spec fn answers(fs: FsView, question: FsQuestion, answer: FsAnswer) -> bool {
    match question {
        FsQuestion::Canonicalize(path) => answer matches FsAnswer::Path(found)
            && found.deep_view() == (fs.canonical)(path.deep_view()),
        FsQuestion::ReadLink(path) => answer matches FsAnswer::Path(found) && found.deep_view() == (
        fs.link)(path.deep_view()),
        FsQuestion::Entry(path) => answer matches FsAnswer::Entry(found) && found == (fs.entry)(
            path.deep_view(),
        ),
        FsQuestion::Exists(path) => answer matches FsAnswer::Yes(found) && found == (fs.exists)(
            path.deep_view(),
        ),
        FsQuestion::IsDir(path) => answer matches FsAnswer::Yes(found) && found == (fs.is_dir)(
            path.deep_view(),
        ),
    }
}

// ---- Canonical paths of files that may be gone ----

/// The rest of the walk: `resolved` is canonical, `missing` are names below it that do not
/// exist. Existing components are resolved by the file system; below a missing one names are
/// taken as they are spelled, until `..` leads back. A link that leads nowhere, another failure,
/// and `..` below what is no directory end the walk without a path.
pub open spec fn lenient_walk(
    fs: FsView,
    rest: Seq<PartView>,
    resolved: Seq<PartView>,
    missing: Seq<Seq<char>>,
) -> Option<Seq<PartView>>
    decreases rest.len(),
{
    if rest.len() == 0 {
        Some(extended(resolved, named(missing)))
    } else {
        let tail = rest.drop_first();
        match rest[0] {
            PartView::Prefix(_) | PartView::Root => lenient_walk(
                fs,
                tail,
                canonical_or_self(fs, pushed(resolved, rest[0])),
                missing,
            ),
            PartView::Current => lenient_walk(fs, tail, resolved, missing),
            PartView::Parent => if missing.len() > 0 {
                lenient_walk(fs, tail, resolved, missing.drop_last())
            } else if resolved.len() > 0 && !(fs.is_dir)(resolved) {
                None
            } else {
                lenient_walk(fs, tail, popped(resolved), missing)
            },
            PartView::Normal(name) => if missing.len() > 0 {
                lenient_walk(fs, tail, resolved, missing.push(name))
            } else {
                let candidate = below(resolved, name);
                match (fs.canonical)(candidate) {
                    Some(canonical) => lenient_walk(fs, tail, canonical, missing),
                    None => if (fs.entry)(candidate) == EntryKind::Missing {
                        lenient_walk(fs, tail, resolved, missing.push(name))
                    } else {
                        None
                    },
                }
            },
        }
    }
}

/// The canonical path of a file that may be gone.
pub open spec fn canonical_lenient(fs: FsView, path: Seq<PartView>) -> Option<Seq<PartView>> {
    match (fs.canonical)(path) {
        Some(canonical) => Some(canonical),
        None => lenient_walk(fs, path, Seq::empty(), Seq::empty()),
    }
}

/// Where a walk stands.
#[derive(Debug)]
pub enum LenientStage {
    /// The whole path is looked up.
    Whole,
    /// A prefix or a root is looked up.
    Anchor,
    /// `..` is taken: the resolved path has to be a directory.
    Directory,
    /// A component is looked up.
    Candidate(String),
    /// A component that could not be resolved is looked at.
    Absent(String),
    Done(Option<PathParts>),
}

/// The walk to the canonical path of a file that may be gone.
#[derive(Debug)]
pub struct LenientWalk {
    pub path: PathParts,
    /// How many components were taken.
    pub taken: usize,
    pub resolved: PathParts,
    pub missing: Vec<String>,
    pub stage: LenientStage,
}

/// A path with one more name.
pub open spec fn below(path: Seq<PartView>, name: Seq<char>) -> Seq<PartView> {
    pushed(path, PartView::Normal(name))
}

impl LenientWalk {
    /// No more components are taken than there are, and one that is looked up comes before
    /// anything is missing.
    pub open spec fn well_formed(self) -> bool {
        &&& self.taken <= self.path.parts@.len()
        &&& (self.stage is Directory || self.stage is Candidate || self.stage is Absent)
            ==> self.missing@.len() == 0
    }

    /// What the walk comes to in a file system.
    pub open spec fn outcome(self, fs: FsView) -> Option<Seq<PartView>> {
        let rest = self.path.deep_view().skip(self.taken as int);
        let resolved = self.resolved.deep_view();
        let missing = self.missing.deep_view();
        match self.stage {
            LenientStage::Whole => match (fs.canonical)(self.path.deep_view()) {
                Some(canonical) => Some(canonical),
                None => lenient_walk(fs, rest, resolved, missing),
            },
            LenientStage::Anchor => lenient_walk(
                fs,
                rest,
                canonical_or_self(fs, resolved),
                missing,
            ),
            LenientStage::Directory => if (fs.is_dir)(resolved) {
                lenient_walk(fs, rest, popped(resolved), missing)
            } else {
                None
            },
            LenientStage::Candidate(name) => match (fs.canonical)(below(resolved, name@)) {
                Some(canonical) => lenient_walk(fs, rest, canonical, missing),
                None => if (fs.entry)(below(resolved, name@)) == EntryKind::Missing {
                    lenient_walk(fs, rest, resolved, missing.push(name@))
                } else {
                    None
                },
            },
            LenientStage::Absent(name) => if (fs.entry)(below(resolved, name@))
                == EntryKind::Missing {
                lenient_walk(fs, rest, resolved, missing.push(name@))
            } else {
                None
            },
            LenientStage::Done(found) => found.deep_view(),
        }
    }

    /// How many more answers the walk takes at most.
    pub open spec fn steps_left(self) -> nat {
        let ahead = 2 * (self.path.parts@.len() - self.taken);
        (match self.stage {
            LenientStage::Whole => ahead + 2,
            LenientStage::Anchor => ahead + 1,
            LenientStage::Directory => ahead + 1,
            LenientStage::Candidate(_) => ahead + 2,
            LenientStage::Absent(_) => ahead + 1,
            LenientStage::Done(_) => 0,
        }) as nat
    }

    /// Starts a walk.
    pub fn begin(path: PathParts) -> (walk: Self)
        ensures
            walk.well_formed(),
            forall|fs: FsView| #[trigger]
                walk.outcome(fs) == canonical_lenient(fs, path.deep_view()),
    {
        let walk = LenientWalk {
            path,
            taken: 0,
            resolved: PathParts::new(),
            missing: Vec::new(),
            stage: LenientStage::Whole,
        };
        proof {
            assert(walk.path.deep_view().skip(0) =~= walk.path.deep_view());
            assert(walk.missing.deep_view() =~= Seq::<Seq<char>>::empty());
        }
        walk
    }

    fn candidate(&self, name: &String) -> (path: PathParts)
        ensures
            path.deep_view() == below(self.resolved.deep_view(), name@),
    {
        let mut path = self.resolved.copy();
        path.push(Part::Normal(name.clone()));
        path
    }

    /// What the walk asks next; `None` once it is done.
    pub fn question(&self) -> (question: Option<FsQuestion>)
        ensures
            question is None <==> self.stage is Done,
            question matches Some(question) ==> self.asks(question),
    {
        match &self.stage {
            LenientStage::Whole => Some(FsQuestion::Canonicalize(self.path.copy())),
            LenientStage::Anchor => Some(FsQuestion::Canonicalize(self.resolved.copy())),
            LenientStage::Directory => Some(FsQuestion::IsDir(self.resolved.copy())),
            LenientStage::Candidate(name) => Some(FsQuestion::Canonicalize(self.candidate(name))),
            LenientStage::Absent(name) => Some(FsQuestion::Entry(self.candidate(name))),
            LenientStage::Done(_) => None,
        }
    }

    /// Whether a question is the one that the walk asks.
    pub open spec fn asks(self, question: FsQuestion) -> bool {
        match self.stage {
            LenientStage::Whole => question matches FsQuestion::Canonicalize(path)
                && path.deep_view() == self.path.deep_view(),
            LenientStage::Anchor => question matches FsQuestion::Canonicalize(path)
                && path.deep_view() == self.resolved.deep_view(),
            LenientStage::Directory => question matches FsQuestion::IsDir(path) && path.deep_view()
                == self.resolved.deep_view(),
            LenientStage::Candidate(name) => question matches FsQuestion::Canonicalize(path)
                && path.deep_view() == below(self.resolved.deep_view(), name@),
            LenientStage::Absent(name) => question matches FsQuestion::Entry(path)
                && path.deep_view() == below(self.resolved.deep_view(), name@),
            LenientStage::Done(_) => false,
        }
    }

    /// Whether a file system gives an answer to what the walk asks.
    pub open spec fn answered_by(self, fs: FsView, answer: FsAnswer) -> bool {
        exists|question: FsQuestion| self.asks(question) && answers(fs, question, answer)
    }

    /// Takes components up to the next question, or to the end.
    fn proceed(self) -> (next: Self)
        requires
            self.taken <= self.path.parts@.len(),
        ensures
            next.well_formed(),
            next.steps_left() <= 2 * (self.path.parts@.len() - self.taken),
            forall|fs: FsView| #[trigger]
                next.outcome(fs) == lenient_walk(
                    fs,
                    self.path.deep_view().skip(self.taken as int),
                    self.resolved.deep_view(),
                    self.missing.deep_view(),
                ),
    {
        let ghost start = self;
        let ghost all = self.path.deep_view();
        let mut walk = self;
        while walk.taken < walk.path.parts.len()
            invariant
                start == self,
                walk.path == start.path,
                all == walk.path.deep_view(),
                start.taken <= walk.taken <= walk.path.parts@.len(),
                forall|fs: FsView|
                    #![trigger lenient_walk(fs, all.skip(start.taken as int), start.resolved.deep_view(), start.missing.deep_view())]
                    lenient_walk(
                        fs,
                        all.skip(walk.taken as int),
                        walk.resolved.deep_view(),
                        walk.missing.deep_view(),
                    ) == lenient_walk(
                        fs,
                        all.skip(start.taken as int),
                        start.resolved.deep_view(),
                        start.missing.deep_view(),
                    ),
            decreases walk.path.parts.len() - walk.taken,
        {
            let at = walk.taken;
            let ghost rest = all.skip(at as int);
            let ghost resolved = walk.resolved.deep_view();
            let ghost missing = walk.missing.deep_view();
            proof {
                assert(rest[0] == walk.path.parts@[at as int].deep_view());
                assert(rest.drop_first() =~= all.skip(at + 1));
            }
            walk.taken = at + 1;
            let part = walk.path.parts[at].copy();
            match part {
                Part::Prefix(name) => {
                    walk.resolved.push(Part::Prefix(name));
                    walk.stage = LenientStage::Anchor;
                    return walk;
                },
                Part::Root => {
                    walk.resolved.push(Part::Root);
                    walk.stage = LenientStage::Anchor;
                    return walk;
                },
                Part::Current => {},
                Part::Parent => {
                    if walk.missing.len() > 0 {
                        let _ = walk.missing.pop();
                        assert(walk.missing.deep_view() =~= missing.drop_last());
                    } else {
                        assert(missing =~= Seq::<Seq<char>>::empty());
                        if walk.resolved.parts.len() > 0 {
                            walk.stage = LenientStage::Directory;
                            return walk;
                        }
                        assert(popped(resolved) == resolved);
                    }
                },
                Part::Normal(name) => {
                    if walk.missing.len() > 0 {
                        let ghost spelled = name@;
                        walk.missing.push(name);
                        assert(walk.missing.deep_view() =~= missing.push(spelled));
                    } else {
                        walk.stage = LenientStage::Candidate(name);
                        return walk;
                    }
                },
            }
        }
        let mut found = walk.resolved.copy();
        let mut i: usize = 0;
        let ghost base = walk.resolved.deep_view();
        let ghost names = walk.missing.deep_view();
        assert(named(names.take(0)) =~= Seq::<PartView>::empty());
        while i < walk.missing.len()
            invariant
                i <= walk.missing@.len(),
                names == walk.missing.deep_view(),
                found.deep_view() == extended(base, named(names.take(i as int))),
            decreases walk.missing.len() - i,
        {
            found.push(Part::Normal(walk.missing[i].clone()));
            proof {
                assert(names[i as int] == walk.missing@[i as int]@);
                assert(named(names.take(i + 1)).drop_last() =~= named(names.take(i as int)));
            }
            i = i + 1;
        }
        proof {
            assert(names.take(names.len() as int) =~= names);
            assert(all.skip(all.len() as int) =~= Seq::<PartView>::empty());
        }
        walk.stage = LenientStage::Done(Some(found));
        walk
    }

    fn fail(self) -> (next: Self)
        requires
            self.well_formed(),
        ensures
            next.well_formed(),
            next.stage is Done,
            forall|fs: FsView| #[trigger] next.outcome(fs) is None,
    {
        let mut walk = self;
        walk.stage = LenientStage::Done(None);
        walk
    }

    /// Goes on with an answer: in every file system that gives it, the walk still comes to what
    /// it came to before, and is nearer to its end.
    pub fn answer(self, answer: FsAnswer) -> (next: Self)
        requires
            self.well_formed(),
            !(self.stage is Done),
        ensures
            next.well_formed(),
            next.steps_left() < self.steps_left(),
            forall|fs: FsView| #[trigger]
                self.answered_by(fs, answer) ==> next.outcome(fs) == self.outcome(fs),
    {
        let mut walk = self;
        let ghost resolved = walk.resolved.deep_view();
        let ghost missing = walk.missing.deep_view();
        let mut stage = LenientStage::Whole;
        std::mem::swap(&mut stage, &mut walk.stage);
        match stage {
            LenientStage::Whole => {
                if let FsAnswer::Path(Some(found)) = answer {
                    walk.stage = LenientStage::Done(Some(found));
                    return walk;
                }
                walk.proceed()
            },
            LenientStage::Anchor => {
                if let FsAnswer::Path(Some(found)) = answer {
                    walk.resolved = found;
                }
                walk.proceed()
            },
            LenientStage::Directory => {
                match answer {
                    FsAnswer::Yes(true) => {
                        let _ = walk.resolved.pop();
                        walk.proceed()
                    },
                    _ => walk.fail(),
                }
            },
            LenientStage::Candidate(name) => {
                if let FsAnswer::Path(Some(found)) = answer {
                    walk.resolved = found;
                    return walk.proceed();
                }
                walk.stage = LenientStage::Absent(name);
                walk
            },
            LenientStage::Absent(name) => {
                match answer {
                    FsAnswer::Entry(EntryKind::Missing) => {
                        let ghost spelled = name@;
                        walk.missing.push(name);
                        assert(walk.missing.deep_view() =~= missing.push(spelled));
                        walk.proceed()
                    },
                    _ => walk.fail(),
                }
            },
            LenientStage::Done(found) => {
                walk.stage = LenientStage::Done(found);
                walk
            },
        }
    }

    /// The canonical path, once the walk is done; `None` where there is none.
    pub fn finish(self) -> (found: Option<PathParts>)
        requires
            self.stage is Done,
        ensures
            forall|fs: FsView| found.deep_view() == #[trigger] self.outcome(fs),
    {
        match self.stage {
            LenientStage::Done(found) => found,
            _ => None,
        }
    }
}

// ---- Containment of paths that wait ----

/// Whether a path may be taken up: a relative one is relative to a root, and so has neither a
/// prefix nor a root of its own.
pub open spec fn may_be_replayed(platform: Platform, path: Seq<PartView>) -> bool {
    is_absolute(platform, path) || !is_anchored(path)
}

/// Whether a path lies within one of the roots of a file system; a relative one is relative to
/// the root. A path or root that has no canonical form lies nowhere.
pub open spec fn within_roots(
    platform: Platform,
    fs: FsView,
    path: Seq<PartView>,
    roots: Seq<Seq<PartView>>,
) -> bool {
    may_be_replayed(platform, path) && exists|i: int|
        0 <= i < roots.len() && within_root(
            canonical_lenient(fs, joined(roots[i], path)),
            canonical_lenient(fs, #[trigger] roots[i]),
        )
}

/// Whether a canonical path lies within a canonical root.
pub open spec fn within_root(
    path: Option<Seq<PartView>>,
    root: Option<Seq<PartView>>,
) -> bool {
    match (path, root) {
        (Some(path), Some(root)) => begins_with(path, root),
        _ => false,
    }
}

/// The paths to look up for a path and some roots, one for each root.
pub fn replay_candidates(path: &PathParts, roots: &Vec<PathParts>) -> (candidates: Vec<PathParts>)
    ensures
        candidates@.len() == roots@.len(),
        forall|i: int|
            0 <= i < roots@.len() ==> (#[trigger] candidates@[i]).deep_view() == joined(
                roots@[i].deep_view(),
                path.deep_view(),
            ),
{
    let mut candidates: Vec<PathParts> = Vec::new();
    let mut i: usize = 0;
    while i < roots.len()
        invariant
            i <= roots@.len(),
            candidates@.len() == i,
            forall|k: int|
                0 <= k < i ==> (#[trigger] candidates@[k]).deep_view() == joined(
                    roots@[k].deep_view(),
                    path.deep_view(),
                ),
        decreases roots.len() - i,
    {
        candidates.push(roots[i].join(path));
        i = i + 1;
    }
    candidates
}

/// Whether a path lies within one of the roots. `resolved` holds, for each root, the canonical
/// forms of the path that is looked up for it and of the root itself.
pub fn pending_path_in_roots(
    platform: Platform,
    path: &PathParts,
    roots: &Vec<PathParts>,
    resolved: &Vec<(Option<PathParts>, Option<PathParts>)>,
) -> (yes: bool)
    ensures
        forall|fs: FsView|
            resolved_by(fs, path.deep_view(), roots.deep_view(), resolved.deep_view()) ==> yes
                == #[trigger] within_roots(platform, fs, path.deep_view(), roots.deep_view()),
{
    if !path.is_absolute(platform) && path.is_anchored() {
        return false;
    }
    let ghost model = resolved.deep_view();
    let mut found = false;
    let mut i: usize = 0;
    while i < resolved.len()
        invariant
            i <= resolved@.len(),
            model == resolved.deep_view(),
            found == (exists|k: int|
                0 <= k < i && #[trigger] within_root(model[k].0, model[k].1)),
        decreases resolved.len() - i,
    {
        let pair = &resolved[i];
        let inside = match (&pair.0, &pair.1) {
            (Some(path), Some(root)) => path.starts_with(root),
            _ => false,
        };
        proof {
            assert(model[i as int] == pair.deep_view());
            assert(inside == within_root(model[i as int].0, model[i as int].1));
            if found {
                let k = choose|k: int| 0 <= k < i && #[trigger] within_root(model[k].0, model[k].1);
                assert(0 <= k < i + 1 && within_root(model[k].0, model[k].1));
            }
        }
        if inside {
            found = true;
        }
        i = i + 1;
    }
    proof {
        assert forall|fs: FsView|
            resolved_by(fs, path.deep_view(), roots.deep_view(), model) implies found
            == #[trigger] within_roots(platform, fs, path.deep_view(), roots.deep_view()) by {
            let roots_model = roots.deep_view();
            if found {
                let k = choose|k: int|
                    0 <= k < model.len() && #[trigger] within_root(model[k].0, model[k].1);
                assert(0 <= k < roots_model.len() && within_root(
                    canonical_lenient(fs, joined(roots_model[k], path.deep_view())),
                    canonical_lenient(fs, roots_model[k]),
                ));
            }
            if within_roots(platform, fs, path.deep_view(), roots_model) {
                let k = choose|k: int|
                    0 <= k < roots_model.len() && within_root(
                        canonical_lenient(fs, joined(roots_model[k], path.deep_view())),
                        canonical_lenient(fs, #[trigger] roots_model[k]),
                    );
                assert(within_root(model[k].0, model[k].1));
            }
        }
    }
    found
}

/// Whether canonical forms are those of a file system.
pub open spec fn resolved_by(
    fs: FsView,
    path: Seq<PartView>,
    roots: Seq<Seq<PartView>>,
    resolved: Seq<(Option<Seq<PartView>>, Option<Seq<PartView>>)>,
) -> bool {
    &&& resolved.len() == roots.len()
    &&& forall|i: int|
        0 <= i < roots.len() ==> {
            &&& (#[trigger] resolved[i]).0 == canonical_lenient(
                fs,
                joined(roots[i], path),
            )
            &&& resolved[i].1 == canonical_lenient(fs, roots[i])
        }
}

/// A path that leads out of every root, by links or by `..`, lies within none, however it is
/// spelled: only where its canonical form leads counts.
pub proof fn law_containment_goes_by_canonical_form(
    platform: Platform,
    fs: FsView,
    path: Seq<PartView>,
    other: Seq<PartView>,
    root: Seq<PartView>,
)
    requires
        may_be_replayed(platform, path) && may_be_replayed(platform, other),
        canonical_lenient(fs, joined(root, path)) == canonical_lenient(fs, joined(root, other)),
    ensures
        within_roots(platform, fs, path, seq![root]) == within_roots(
            platform,
            fs,
            other,
            seq![root],
        ),
{
    let roots = seq![root];
    assert(roots[0] == root);
    if within_roots(platform, fs, path, roots) {
        assert(within_root(
            canonical_lenient(fs, joined(roots[0], other)),
            canonical_lenient(fs, roots[0]),
        ));
    }
    if within_roots(platform, fs, other, roots) {
        assert(within_root(
            canonical_lenient(fs, joined(roots[0], path)),
            canonical_lenient(fs, roots[0]),
        ));
    }
}

} // verus!
