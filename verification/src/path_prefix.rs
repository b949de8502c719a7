//! The prefixes of Windows paths: drives, shares, devices, and the verbatim forms, in which only
//! a backslash separates and `.` is a component like any other.

use vstd::prelude::*;

use crate::text;

verus! {

/// What a Windows path starts with.
#[derive(Debug, PartialEq, Eq)]
pub enum PathPrefix {
    /// `\\?\name`.
    Verbatim(String),
    /// `\\?\UNC\server\share`.
    VerbatimUnc(String, String),
    /// `\\?\C:`, by the upper-case letter.
    VerbatimDisk(char),
    /// `\\.\name`: a device.
    DeviceNs(String),
    /// `\\server\share`.
    Unc(String, String),
    /// `C:`, by the upper-case letter.
    Disk(char),
}

/// The model of [`PathPrefix`].
pub enum PrefixView {
    Verbatim(Seq<char>),
    VerbatimUnc(Seq<char>, Seq<char>),
    VerbatimDisk(char),
    DeviceNs(Seq<char>),
    Unc(Seq<char>, Seq<char>),
    Disk(char),
}

impl DeepView for PathPrefix {
    type V = PrefixView;

    open spec fn deep_view(&self) -> PrefixView {
        match *self {
            PathPrefix::Verbatim(name) => PrefixView::Verbatim(name@),
            PathPrefix::VerbatimUnc(server, share) => PrefixView::VerbatimUnc(server@, share@),
            PathPrefix::VerbatimDisk(letter) => PrefixView::VerbatimDisk(letter),
            PathPrefix::DeviceNs(name) => PrefixView::DeviceNs(name@),
            PathPrefix::Unc(server, share) => PrefixView::Unc(server@, share@),
            PathPrefix::Disk(letter) => PrefixView::Disk(letter),
        }
    }
}

/// Whether paths behind a prefix are taken as they are spelled.
pub open spec fn is_verbatim(prefix: PrefixView) -> bool {
    prefix is Verbatim || prefix is VerbatimUnc || prefix is VerbatimDisk
}

/// Whether a character separates the components of a Windows path.
pub open spec fn separates(c: char) -> bool {
    c == '/' || c == '\\'
}

pub open spec fn is_letter(c: char) -> bool {
    ('a' <= c && c <= 'z') || ('A' <= c && c <= 'Z')
}

/// A letter in upper case.
pub open spec fn upper(c: char) -> char {
    if 'a' <= c && c <= 'z' {
        (c as int - 32) as char
    } else {
        c
    }
}

/// Whether a drive, a letter and a colon, stands at a place.
pub open spec fn drive_at(path: Seq<char>, at: int) -> bool {
    at + 2 <= path.len() && is_letter(path[at]) && path[at + 1] == ':'
}

/// Whether a character ends a name of a prefix.
pub open spec fn ends_name(verbatim: bool, c: char) -> bool {
    if verbatim {
        c == '\\'
    } else {
        separates(c)
    }
}

/// Where a name that starts at a place ends.
pub open spec fn name_end(path: Seq<char>, from: int, verbatim: bool) -> int
    decreases path.len() - from,
{
    if from < 0 || from >= path.len() || ends_name(verbatim, path[from]) {
        from
    } else {
        name_end(path, from + 1, verbatim)
    }
}

/// A server and a share from a place on, and where they end: a separator stands between the two,
/// and without a share the end is that of the server.
pub open spec fn server_and_share(path: Seq<char>, from: int, verbatim: bool) -> (
    Seq<char>,
    Seq<char>,
    int,
) {
    let middle = name_end(path, from, verbatim);
    let end = name_end(path, middle + 1, verbatim);
    if middle + 1 < end <= path.len() {
        (path.subrange(from, middle), path.subrange(middle + 1, end), end)
    } else {
        (path.subrange(from, middle), Seq::empty(), middle)
    }
}

/// Whether a path starts with `\\?\`, spelled with backslashes alone.
pub open spec fn starts_verbatim(path: Seq<char>) -> bool {
    path.len() >= 4 && path[0] == '\\' && path[1] == '\\' && path[2] == '?' && path[3] == '\\'
}

/// Whether `UNC` and a separator stand behind `\\?\`.
pub open spec fn names_verbatim_share(path: Seq<char>) -> bool {
    path.len() >= 8 && path[4] == 'U' && path[5] == 'N' && path[6] == 'C' && separates(path[7])
}

/// The prefix of a path that starts with `\\?\`, and its length.
pub open spec fn verbatim_prefix(path: Seq<char>) -> (PrefixView, int) {
    if names_verbatim_share(path) {
        let (server, share, end) = server_and_share(path, 8, true);
        (PrefixView::VerbatimUnc(server, share), end)
    } else if drive_at(path, 4) && (path.len() == 6 || separates(path[6])) {
        (PrefixView::VerbatimDisk(upper(path[4])), 6)
    } else {
        let end = name_end(path, 4, true);
        (PrefixView::Verbatim(path.subrange(4, end)), end)
    }
}

/// The prefix of a Windows path and its length, where it has one.
pub open spec fn windows_prefix(path: Seq<char>) -> Option<(PrefixView, int)> {
    if starts_verbatim(path) {
        Some(verbatim_prefix(path))
    } else if path.len() >= 2 && separates(path[0]) && separates(path[1]) {
        if path.len() >= 4 && path[2] == '.' && separates(path[3]) {
            let end = name_end(path, 4, false);
            Some((PrefixView::DeviceNs(path.subrange(4, end)), end))
        } else {
            let (server, share, end) = server_and_share(path, 2, false);
            if server.len() > 0 && share.len() > 0 {
                Some((PrefixView::Unc(server, share), end))
            } else {
                None
            }
        }
    } else if drive_at(path, 0) {
        Some((PrefixView::Disk(upper(path[0])), 2))
    } else {
        None
    }
}

/// The rank of a prefix among the kinds of prefixes.
pub open spec fn prefix_rank(prefix: PrefixView) -> int {
    match prefix {
        PrefixView::Verbatim(_) => 0,
        PrefixView::VerbatimUnc(_, _) => 1,
        PrefixView::VerbatimDisk(_) => 2,
        PrefixView::DeviceNs(_) => 3,
        PrefixView::Unc(_, _) => 4,
        PrefixView::Disk(_) => 5,
    }
}

/// Whether a pair of texts comes before another.
pub open spec fn pair_less(a: (Seq<char>, Seq<char>), b: (Seq<char>, Seq<char>)) -> bool {
    if a.0 == b.0 {
        text::text_less(a.1, b.1)
    } else {
        text::text_less(a.0, b.0)
    }
}

/// Whether a prefix comes before another.
pub open spec fn prefix_less(a: PrefixView, b: PrefixView) -> bool {
    match (a, b) {
        (PrefixView::Verbatim(x), PrefixView::Verbatim(y)) => text::text_less(x, y),
        (PrefixView::VerbatimUnc(x, s), PrefixView::VerbatimUnc(y, t)) => pair_less(
            (x, s),
            (y, t),
        ),
        (PrefixView::VerbatimDisk(x), PrefixView::VerbatimDisk(y)) => x < y,
        (PrefixView::DeviceNs(x), PrefixView::DeviceNs(y)) => text::text_less(x, y),
        (PrefixView::Unc(x, s), PrefixView::Unc(y, t)) => pair_less((x, s), (y, t)),
        (PrefixView::Disk(x), PrefixView::Disk(y)) => x < y,
        _ => prefix_rank(a) < prefix_rank(b),
    }
}

proof fn lemma_pair_less_transitive(
    a: (Seq<char>, Seq<char>),
    b: (Seq<char>, Seq<char>),
    c: (Seq<char>, Seq<char>),
)
    requires
        pair_less(a, b),
        pair_less(b, c),
    ensures
        pair_less(a, c),
{
    if a.0 == b.0 && b.0 == c.0 {
        text::lemma_text_less_transitive(a.1, b.1, c.1);
    } else if a.0 != b.0 && b.0 != c.0 {
        text::lemma_text_less_transitive(a.0, b.0, c.0);
        if a.0 == c.0 {
            text::lemma_text_less_irreflexive(a.0);
        }
    }
}

/// The order of prefixes is transitive.
pub proof fn lemma_prefix_less_transitive(a: PrefixView, b: PrefixView, c: PrefixView)
    requires
        prefix_less(a, b),
        prefix_less(b, c),
    ensures
        prefix_less(a, c),
{
    match (a, b, c) {
        (PrefixView::Verbatim(x), PrefixView::Verbatim(y), PrefixView::Verbatim(z)) => {
            text::lemma_text_less_transitive(x, y, z);
        },
        (PrefixView::DeviceNs(x), PrefixView::DeviceNs(y), PrefixView::DeviceNs(z)) => {
            text::lemma_text_less_transitive(x, y, z);
        },
        (
            PrefixView::VerbatimUnc(x, s),
            PrefixView::VerbatimUnc(y, t),
            PrefixView::VerbatimUnc(z, u),
        ) => {
            lemma_pair_less_transitive((x, s), (y, t), (z, u));
        },
        (PrefixView::Unc(x, s), PrefixView::Unc(y, t), PrefixView::Unc(z, u)) => {
            lemma_pair_less_transitive((x, s), (y, t), (z, u));
        },
        _ => {},
    }
}

/// No prefix comes before itself.
pub proof fn lemma_prefix_less_irreflexive(a: PrefixView)
    ensures
        !prefix_less(a, a),
{
    match a {
        PrefixView::Verbatim(name) => text::lemma_text_less_irreflexive(name),
        PrefixView::DeviceNs(name) => text::lemma_text_less_irreflexive(name),
        PrefixView::VerbatimUnc(_, share) => text::lemma_text_less_irreflexive(share),
        PrefixView::Unc(_, share) => text::lemma_text_less_irreflexive(share),
        _ => {},
    }
}

/// Of two different prefixes one comes before the other.
pub proof fn lemma_prefix_less_total(a: PrefixView, b: PrefixView)
    ensures
        a == b || prefix_less(a, b) || prefix_less(b, a),
{
    match (a, b) {
        (PrefixView::Verbatim(x), PrefixView::Verbatim(y)) => text::lemma_text_less_total(x, y),
        (PrefixView::DeviceNs(x), PrefixView::DeviceNs(y)) => text::lemma_text_less_total(x, y),
        (PrefixView::VerbatimUnc(x, s), PrefixView::VerbatimUnc(y, t)) => {
            text::lemma_text_less_total(x, y);
            text::lemma_text_less_total(s, t);
        },
        (PrefixView::Unc(x, s), PrefixView::Unc(y, t)) => {
            text::lemma_text_less_total(x, y);
            text::lemma_text_less_total(s, t);
        },
        _ => {},
    }
}

/// A prefix is at least as long as what introduces it, and no longer than the path.
pub proof fn lemma_prefix_fits(path: Seq<char>)
    ensures
        windows_prefix(path) matches Some((_, end)) ==> 0 < end <= path.len(),
{
    lemma_name_end(path, 2, false);
    lemma_name_end(path, 4, false);
    lemma_name_end(path, 4, true);
    lemma_name_end(path, 8, true);
}

proof fn lemma_name_end(path: Seq<char>, from: int, verbatim: bool)
    ensures
        from <= name_end(path, from, verbatim),
        from <= path.len() ==> name_end(path, from, verbatim) <= path.len(),
    decreases path.len() - from,
{
    if !(from < 0 || from >= path.len() || ends_name(verbatim, path[from])) {
        lemma_name_end(path, from + 1, verbatim);
    }
}

pub fn is_separator(c: char) -> (yes: bool)
    ensures
        yes == separates(c),
{
    c == '/' || c == '\\'
}

fn upper_letter(c: char) -> (out: char)
    ensures
        out == upper(c),
{
    if 'a' <= c && c <= 'z' {
        ((c as u8) - 32) as char
    } else {
        c
    }
}

fn is_drive_at(chars: &Vec<char>, at: usize) -> (yes: bool)
    requires
        at <= chars@.len(),
    ensures
        yes == drive_at(chars@, at as int),
{
    if chars.len() - at < 2 {
        return false;
    }
    let c = chars[at];
    let letter = ('a' <= c && c <= 'z') || ('A' <= c && c <= 'Z');
    letter && chars[at + 1] == ':'
}

fn is_name_end(verbatim: bool, c: char) -> (yes: bool)
    ensures
        yes == ends_name(verbatim, c),
{
    if verbatim {
        c == '\\'
    } else {
        is_separator(c)
    }
}

fn find_name_end(chars: &Vec<char>, from: usize, verbatim: bool) -> (end: usize)
    requires
        from <= chars@.len(),
    ensures
        end == name_end(chars@, from as int, verbatim),
        from <= end <= chars@.len(),
{
    let mut i: usize = from;
    while i < chars.len() && !is_name_end(verbatim, chars[i])
        invariant
            from <= i <= chars@.len(),
            name_end(chars@, from as int, verbatim) == name_end(chars@, i as int, verbatim),
        decreases chars.len() - i,
    {
        i = i + 1;
    }
    i
}

fn find_server_and_share(chars: &Vec<char>, from: usize, verbatim: bool) -> (found: (
    String,
    String,
    usize,
))
    requires
        from <= chars@.len(),
    ensures
        (found.0@, found.1@, found.2 as int) == server_and_share(chars@, from as int, verbatim),
        found.2 <= chars@.len(),
{
    let middle = find_name_end(chars, from, verbatim);
    let server = text::text_of(chars, from, middle);
    if middle < chars.len() {
        let end = find_name_end(chars, middle + 1, verbatim);
        if end > middle + 1 {
            return (server, text::text_of(chars, middle + 1, end), end);
        }
    }
    let share = String::new();
    assert(share@ =~= Seq::<char>::empty());
    (server, share, middle)
}

/// The prefix of a Windows path and its length, where it has one.
pub fn find_prefix(chars: &Vec<char>) -> (found: Option<(PathPrefix, usize)>)
    ensures
        match found {
            Some((prefix, end)) => windows_prefix(chars@) == Some((prefix.deep_view(), end as int))
                && 0 < end <= chars@.len(),
            None => windows_prefix(chars@) is None,
        },
{
    proof {
        lemma_prefix_fits(chars@);
    }
    let len: usize = chars.len();
    if len >= 4 && chars[0] == '\\' && chars[1] == '\\' && chars[2] == '?' && chars[3] == '\\' {
        if len >= 8 && chars[4] == 'U' && chars[5] == 'N' && chars[6] == 'C' && is_separator(
            chars[7],
        ) {
            let (server, share, end) = find_server_and_share(chars, 8, true);
            return Some((PathPrefix::VerbatimUnc(server, share), end));
        }
        if is_drive_at(chars, 4) && (len == 6 || is_separator(chars[6])) {
            return Some((PathPrefix::VerbatimDisk(upper_letter(chars[4])), 6));
        }
        let end = find_name_end(chars, 4, true);
        return Some((PathPrefix::Verbatim(text::text_of(chars, 4, end)), end));
    }
    if len >= 2 && is_separator(chars[0]) && is_separator(chars[1]) {
        if len >= 4 && chars[2] == '.' && is_separator(chars[3]) {
            let end = find_name_end(chars, 4, false);
            return Some((PathPrefix::DeviceNs(text::text_of(chars, 4, end)), end));
        }
        let (server, share, end) = find_server_and_share(chars, 2, false);
        if server.as_str().is_empty() || share.as_str().is_empty() {
            return None;
        }
        return Some((PathPrefix::Unc(server, share), end));
    }
    if is_drive_at(chars, 0) {
        return Some((PathPrefix::Disk(upper_letter(chars[0])), 2));
    }
    None
}

fn rank_of(prefix: &PathPrefix) -> (rank: u8)
    ensures
        rank == prefix_rank(prefix.deep_view()),
{
    match prefix {
        PathPrefix::Verbatim(_) => 0,
        PathPrefix::VerbatimUnc(_, _) => 1,
        PathPrefix::VerbatimDisk(_) => 2,
        PathPrefix::DeviceNs(_) => 3,
        PathPrefix::Unc(_, _) => 4,
        PathPrefix::Disk(_) => 5,
    }
}

fn pair_before(a: &String, s: &String, b: &String, t: &String) -> (less: bool)
    ensures
        less == pair_less((a@, s@), (b@, t@)),
{
    if text::same_text(a.as_str(), b.as_str()) {
        text::text_before(s.as_str(), t.as_str())
    } else {
        text::text_before(a.as_str(), b.as_str())
    }
}

impl PathPrefix {
    pub fn copy(&self) -> (out: PathPrefix)
        ensures
            out.deep_view() == self.deep_view(),
    {
        match self {
            PathPrefix::Verbatim(name) => PathPrefix::Verbatim(name.clone()),
            PathPrefix::VerbatimUnc(server, share) => PathPrefix::VerbatimUnc(
                server.clone(),
                share.clone(),
            ),
            PathPrefix::VerbatimDisk(letter) => PathPrefix::VerbatimDisk(*letter),
            PathPrefix::DeviceNs(name) => PathPrefix::DeviceNs(name.clone()),
            PathPrefix::Unc(server, share) => PathPrefix::Unc(server.clone(), share.clone()),
            PathPrefix::Disk(letter) => PathPrefix::Disk(*letter),
        }
    }

    /// Whether two prefixes are the same.
    pub fn same(&self, other: &PathPrefix) -> (same: bool)
        ensures
            same == (self.deep_view() == other.deep_view()),
    {
        match (self, other) {
            (PathPrefix::Verbatim(a), PathPrefix::Verbatim(b)) => text::same_text(
                a.as_str(),
                b.as_str(),
            ),
            (PathPrefix::VerbatimUnc(a, s), PathPrefix::VerbatimUnc(b, t)) => text::same_text(
                a.as_str(),
                b.as_str(),
            ) && text::same_text(s.as_str(), t.as_str()),
            (PathPrefix::VerbatimDisk(a), PathPrefix::VerbatimDisk(b)) => *a == *b,
            (PathPrefix::DeviceNs(a), PathPrefix::DeviceNs(b)) => text::same_text(
                a.as_str(),
                b.as_str(),
            ),
            (PathPrefix::Unc(a, s), PathPrefix::Unc(b, t)) => text::same_text(
                a.as_str(),
                b.as_str(),
            ) && text::same_text(s.as_str(), t.as_str()),
            (PathPrefix::Disk(a), PathPrefix::Disk(b)) => *a == *b,
            _ => false,
        }
    }

    /// Whether the prefix comes before another.
    pub fn before(&self, other: &PathPrefix) -> (less: bool)
        ensures
            less == prefix_less(self.deep_view(), other.deep_view()),
    {
        match (self, other) {
            (PathPrefix::Verbatim(a), PathPrefix::Verbatim(b)) => text::text_before(
                a.as_str(),
                b.as_str(),
            ),
            (PathPrefix::VerbatimUnc(a, s), PathPrefix::VerbatimUnc(b, t)) => pair_before(
                a,
                s,
                b,
                t,
            ),
            (PathPrefix::VerbatimDisk(a), PathPrefix::VerbatimDisk(b)) => *a < *b,
            (PathPrefix::DeviceNs(a), PathPrefix::DeviceNs(b)) => text::text_before(
                a.as_str(),
                b.as_str(),
            ),
            (PathPrefix::Unc(a, s), PathPrefix::Unc(b, t)) => pair_before(a, s, b, t),
            (PathPrefix::Disk(a), PathPrefix::Disk(b)) => *a < *b,
            _ => rank_of(self) < rank_of(other),
        }
    }

    /// Whether paths behind the prefix are taken as they are spelled.
    pub fn is_verbatim(&self) -> (yes: bool)
        ensures
            yes == is_verbatim(self.deep_view()),
    {
        match self {
            PathPrefix::Verbatim(_) => true,
            PathPrefix::VerbatimUnc(_, _) => true,
            PathPrefix::VerbatimDisk(_) => true,
            _ => false,
        }
    }

    /// Whether the prefix is a drive.
    pub fn is_disk(&self) -> (yes: bool)
        ensures
            yes == (self.deep_view() is Disk),
    {
        match self {
            PathPrefix::Disk(_) => true,
            _ => false,
        }
    }
}

/// A letter and a colon in front name a drive, in whatever case; a name or a single separator in
/// front is no prefix.
pub proof fn law_drives_and_plain_paths(letter: char, rest: Seq<char>, path: Seq<char>)
    ensures
        is_letter(letter) ==> windows_prefix(seq![letter, ':'] + rest) == Some(
            (PrefixView::Disk(upper(letter)), 2int),
        ),
        ('a' <= letter && letter <= 'z') ==> upper(letter) as int == letter as int - 'a' as int
            + 'A' as int,
        !('a' <= letter && letter <= 'z') ==> upper(letter) == letter,
        is_letter(letter) <==> ('a' <= letter && letter <= 'z') || ('A' <= letter && letter <= 'Z'),
        (path.len() > 1 && path[0] != '/' && path[0] != '\\' && path[1] != ':') ==> windows_prefix(
            path,
        ) is None,
        path.len() < 2 ==> windows_prefix(path) is None,
        (path.len() > 1 && separates(path[0]) && !separates(path[1])) ==> windows_prefix(path) is
            None,
{
    let drive = seq![letter, ':'] + rest;
    assert(drive[0] == letter);
    assert(drive[1] == ':');
}

proof fn lemma_name_ends(path: Seq<char>, from: int, verbatim: bool)
    requires
        0 <= from <= path.len(),
    ensures
        from <= name_end(path, from, verbatim) <= path.len(),
        forall|i: int|
            from <= i < name_end(path, from, verbatim) ==> !ends_name(verbatim, #[trigger] path[i]),
        name_end(path, from, verbatim) < path.len() ==> ends_name(
            verbatim,
            path[name_end(path, from, verbatim)],
        ),
    decreases path.len() - from,
{
    if from < path.len() && !ends_name(verbatim, path[from]) {
        lemma_name_ends(path, from + 1, verbatim);
    }
}

/// Two separators in front name a server and a share, where both are there: each reaches up to the
/// next separator. Behind `\\\\.\\` stands a device, and behind `\\\\?\\` a verbatim prefix.
pub proof fn law_shares_and_devices(path: Seq<char>)
    ensures
        windows_prefix(path) matches Some((PrefixView::Unc(server, share), end)) ==> {
            &&& separates(path[0]) && separates(path[1])
            &&& server.len() > 0 && share.len() > 0
            &&& end == 3 + server.len() + share.len()
            &&& end <= path.len()
            &&& path.subrange(2, 2 + server.len() as int) == server
            &&& separates(path[2 + server.len() as int])
            &&& path.subrange(3 + server.len() as int, end) == share
            &&& end < path.len() ==> separates(path[end])
            &&& forall|i: int| 2 <= i < 2 + server.len() ==> !separates(#[trigger] path[i])
        },
        windows_prefix(path) matches Some((PrefixView::DeviceNs(name), end)) ==> {
            &&& separates(path[0]) && separates(path[1]) && path[2] == '.' && separates(path[3])
            &&& end == 4 + name.len()
            &&& path.subrange(4, end) == name
            &&& end < path.len() ==> separates(path[end])
        },
        (path.len() >= 4 && path[0] == '\\' && path[1] == '\\' && path[2] == '?' && path[3] == '\\')
            <==> (windows_prefix(path) matches Some((prefix, _)) && is_verbatim(prefix)),
{
    if path.len() >= 2 {
        lemma_name_ends(path, 2, false);
        let middle = name_end(path, 2, false);
        if middle + 1 <= path.len() {
            lemma_name_ends(path, middle + 1, false);
        }
    }
    if path.len() >= 4 {
        lemma_name_ends(path, 4, false);
    }
}

/// Whether components behind a prefix are taken as they are spelled shows in its kind, and prefixes
/// of one kind are ordered by what they name.
pub proof fn law_prefix_kinds(a: char, b: char, name: Seq<char>, share: Seq<char>)
    ensures
        is_verbatim(PrefixView::Verbatim(name)),
        is_verbatim(PrefixView::VerbatimUnc(name, share)),
        is_verbatim(PrefixView::VerbatimDisk(a)),
        !is_verbatim(PrefixView::DeviceNs(name)),
        !is_verbatim(PrefixView::Unc(name, share)),
        !is_verbatim(PrefixView::Disk(a)),
        prefix_less(PrefixView::Disk(a), PrefixView::Disk(b)) <==> a < b,
        prefix_less(PrefixView::Verbatim(name), PrefixView::VerbatimUnc(name, share)),
        prefix_less(PrefixView::VerbatimUnc(name, share), PrefixView::VerbatimDisk(a)),
        prefix_less(PrefixView::VerbatimDisk(a), PrefixView::DeviceNs(name)),
        prefix_less(PrefixView::DeviceNs(name), PrefixView::Unc(name, share)),
        prefix_less(PrefixView::Unc(name, share), PrefixView::Disk(a)),
{
}

} // verus!
