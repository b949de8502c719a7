//! What a write tells the language servers: which files changed, how, and whether the writer
//! waits for diagnostics.

use vstd::prelude::*;
use vstd::string::*;

use crate::config::UserServerDefView;
use crate::context::{AppContext, PendingReconciliationState};
use crate::json;
use crate::json::{object_get, Json, JsonView};
use crate::path_set;
use crate::pending;
use crate::status_bar::StatusBarState;
use crate::text;

verus! {

/// How long a writer waits for diagnostics, in milliseconds, where it does not say.
pub const DEFAULT_WAIT_MS: u64 = 3000;

/// The longest that a writer waits for diagnostics, in milliseconds.
pub const MAX_WAIT_MS: u64 = 10000;

/// How a file changed.
#[derive(Debug, Clone, Copy, PartialEq, Eq, Structural)]
pub enum FileChange {
    Created,
    Changed,
    Deleted,
}

impl DeepView for FileChange {
    type V = FileChange;

    open spec fn deep_view(&self) -> FileChange {
        *self
    }
}

/// The change that a word names, in lower case, upper case or capitalised.
pub open spec fn named_change(word: Seq<char>) -> Option<FileChange> {
    if word == "created"@ || word == "CREATED"@ || word == "Created"@ {
        Some(FileChange::Created)
    } else if word == "changed"@ || word == "CHANGED"@ || word == "Changed"@ {
        Some(FileChange::Changed)
    } else if word == "deleted"@ || word == "DELETED"@ || word == "Deleted"@ {
        Some(FileChange::Deleted)
    } else {
        None
    }
}

/// The change that a word names.
pub fn parse_file_change_type(word: &str) -> (change: Option<FileChange>)
    ensures
        change == named_change(word@),
{
    if text::same_text(word, "created") || text::same_text(word, "CREATED") || text::same_text(
        word,
        "Created",
    ) {
        Some(FileChange::Created)
    } else if text::same_text(word, "changed") || text::same_text(word, "CHANGED")
        || text::same_text(word, "Changed") {
        Some(FileChange::Changed)
    } else if text::same_text(word, "deleted") || text::same_text(word, "DELETED")
        || text::same_text(word, "Deleted") {
        Some(FileChange::Deleted)
    } else {
        None
    }
}

/// The change of a file of which nothing is said, by whether it is there.
pub open spec fn change_by_state(exists: bool) -> FileChange {
    if exists {
        FileChange::Changed
    } else {
        FileChange::Deleted
    }
}

/// The change of a file of which nothing is said, by whether it is there.
pub fn change_type_from_current_state(exists: bool) -> (change: FileChange)
    ensures
        change == change_by_state(exists),
{
    if exists {
        FileChange::Changed
    } else {
        FileChange::Deleted
    }
}

/// The list of written files in a request's parameters.
pub open spec fn written_items(params: JsonView) -> Option<Seq<JsonView>> {
    match json::object_value(params, "multi_file_write_paths"@) {
        Some(JsonView::List(items)) => Some(items),
        _ => None,
    }
}

/// The texts of a list.
pub open spec fn texts_of(items: Seq<JsonView>) -> Seq<Seq<char>>
    decreases items.len(),
{
    if items.len() == 0 {
        Seq::empty()
    } else {
        let front = texts_of(items.drop_last());
        match items.last() {
            JsonView::Text(text) => front.push(text),
            _ => front,
        }
    }
}

/// The files that a write names by their paths alone, where it names any.
pub open spec fn write_paths(params: JsonView) -> Option<Seq<Seq<char>>> {
    match written_items(params) {
        Some(items) => if texts_of(items).len() > 0 {
            Some(texts_of(items))
        } else {
            None
        },
        None => None,
    }
}

/// The list of written files in a request's parameters.
fn items_of<'a>(params: &'a Json) -> (items: Option<&'a Vec<Json>>)
    ensures
        match items {
            Some(items) => written_items(params.deep_view()) == Some(items.deep_view()),
            None => written_items(params.deep_view()) is None,
        },
{
    match object_get(params, "multi_file_write_paths") {
        Some(value) => match value {
            Json::List(items) => {
                assert(value.deep_view()->List_0 =~= items.deep_view());
                Some(items)
            },
            _ => None,
        },
        None => None,
    }
}

/// The files that a write names by their paths alone, where it names any.
pub fn multi_file_write_paths(params: &Json) -> (paths: Option<Vec<String>>)
    ensures
        paths.deep_view() == write_paths(params.deep_view()),
{
    let items = match items_of(params) {
        Some(items) => items,
        None => {
            return None;
        },
    };
    let ghost all = items.deep_view();
    let mut paths: Vec<String> = Vec::new();
    let mut i: usize = 0;
    assert(paths.deep_view() =~= texts_of(all.take(0)));
    while i < items.len()
        invariant
            i <= items@.len(),
            all == items.deep_view(),
            paths.deep_view() == texts_of(all.take(i as int)),
        decreases items.len() - i,
    {
        proof {
            assert(all.take(i + 1).drop_last() =~= all.take(i as int));
            assert(all.take(i + 1).last() == items@[i as int].deep_view());
        }
        if let Json::Text(path) = &items[i] {
            let ghost before = paths.deep_view();
            paths.push(path.clone());
            assert(paths.deep_view() =~= before.push(path@));
        }
        i = i + 1;
    }
    assert(all.take(all.len() as int) =~= all);
    if paths.len() > 0 {
        Some(paths)
    } else {
        None
    }
}

/// A file that a write names together with what happened to it, where it says so.
#[derive(Debug)]
pub struct WatchedEntry {
    pub path: String,
    pub change: Option<FileChange>,
}

/// The model of [`WatchedEntry`].
pub struct WatchedEntryView {
    pub path: Seq<char>,
    pub change: Option<FileChange>,
}

impl DeepView for WatchedEntry {
    type V = WatchedEntryView;

    open spec fn deep_view(&self) -> WatchedEntryView {
        WatchedEntryView { path: self.path@, change: self.change }
    }
}

/// What an item says of a file.
pub open spec fn watched_entry(item: JsonView) -> Option<WatchedEntryView> {
    match json::object_value(item, "path"@) {
        Some(JsonView::Text(path)) => Some(
            WatchedEntryView {
                path,
                change: match json::object_value(item, "type"@) {
                    Some(JsonView::Text(word)) => named_change(word),
                    _ => None,
                },
            },
        ),
        _ => None,
    }
}

/// What the items of a list say of files.
pub open spec fn watched_entries(items: Seq<JsonView>) -> Seq<WatchedEntryView>
    decreases items.len(),
{
    if items.len() == 0 {
        Seq::empty()
    } else {
        let front = watched_entries(items.drop_last());
        match watched_entry(items.last()) {
            Some(entry) => front.push(entry),
            None => front,
        }
    }
}

fn entry_of(item: &Json) -> (entry: Option<WatchedEntry>)
    ensures
        entry.deep_view() == watched_entry(item.deep_view()),
{
    let path = match object_get(item, "path") {
        Some(Json::Text(path)) => path.clone(),
        _ => {
            return None;
        },
    };
    let change = match object_get(item, "type") {
        Some(Json::Text(word)) => parse_file_change_type(word.as_str()),
        _ => None,
    };
    Some(WatchedEntry { path, change })
}

/// The files that a write names together with what happened to them.
pub fn watched_entries_from_params(params: &Json) -> (entries: Vec<WatchedEntry>)
    ensures
        entries.deep_view() == (match written_items(params.deep_view()) {
            Some(items) => watched_entries(items),
            None => Seq::empty(),
        }),
{
    let mut entries: Vec<WatchedEntry> = Vec::new();
    assert(entries.deep_view() =~= Seq::<WatchedEntryView>::empty());
    let items = match items_of(params) {
        Some(items) => items,
        None => {
            return entries;
        },
    };
    let ghost all = items.deep_view();
    let mut i: usize = 0;
    assert(entries.deep_view() =~= watched_entries(all.take(0)));
    while i < items.len()
        invariant
            i <= items@.len(),
            all == items.deep_view(),
            entries.deep_view() == watched_entries(all.take(i as int)),
        decreases items.len() - i,
    {
        proof {
            assert(all.take(i + 1).drop_last() =~= all.take(i as int));
            assert(all.take(i + 1).last() == items@[i as int].deep_view());
        }
        if let Some(entry) = entry_of(&items[i]) {
            let ghost before = entries.deep_view();
            let ghost added = entry.deep_view();
            entries.push(entry);
            assert(entries.deep_view() =~= before.push(added));
        }
        i = i + 1;
    }
    assert(all.take(all.len() as int) =~= all);
    entries
}

/// What the application knows of a file that was named.
#[derive(Debug, Clone, Copy, PartialEq, Eq, Structural)]
pub struct FileFacts {
    /// The file configures a server or a workspace.
    pub is_config: bool,
    pub exists: bool,
}

/// The changes of configuration files that servers are told of: what was said of a file, or
/// else what is true of it now.
pub open spec fn config_events(
    entries: Seq<WatchedEntryView>,
    facts: Seq<FileFacts>,
) -> Seq<(Seq<char>, FileChange)>
    decreases entries.len(),
{
    if entries.len() == 0 {
        Seq::empty()
    } else {
        let front = config_events(entries.drop_last(), facts);
        let at = entries.len() - 1;
        if at < facts.len() && facts[at].is_config {
            let change = match entries.last().change {
                Some(change) => change,
                None => change_by_state(facts[at].exists),
            };
            front.push((entries.last().path, change))
        } else {
            front
        }
    }
}

/// The changes of configuration files that servers are told of; there are facts for every
/// entry, in order.
pub fn watched_file_events(entries: Vec<WatchedEntry>, facts: &Vec<FileFacts>) -> (events: Vec<
    (String, FileChange),
>)
    ensures
        events.deep_view() == config_events(entries.deep_view(), facts@),
{
    let ghost all = entries.deep_view();
    let count: usize = entries.len();
    let mut events: Vec<(String, FileChange)> = Vec::new();
    let mut i: usize = 0;
    assert(events.deep_view() =~= config_events(all.take(0), facts@));
    for entry in iter: entries
        invariant
            iter.seq() == entries@,
            all == entries.deep_view(),
            count == entries@.len(),
            i == iter.index(),
            events.deep_view() == config_events(all.take(iter.index()), facts@),
    {
        let ghost place = iter.index();
        proof {
            assert(all[place] == entry.deep_view());
            assert(all.take(place + 1).drop_last() =~= all.take(place));
            assert(all.take(place + 1).last() == all[place]);
        }
        if i < facts.len() && facts[i].is_config {
            let change = match entry.change {
                Some(change) => change,
                None => change_type_from_current_state(facts[i].exists),
            };
            let ghost before = events.deep_view();
            let ghost path = entry.path@;
            events.push((entry.path, change));
            assert(events.deep_view() =~= before.push((path, change)));
        }
        i = i + 1;
    }
    assert(all.take(all.len() as int) =~= all);
    events
}

/// Paths of which nothing more is said.
pub open spec fn bare_entries(paths: Seq<Seq<char>>) -> Seq<WatchedEntryView> {
    paths.map_values(|path: Seq<char>| WatchedEntryView { path, change: None })
}

fn to_entries(paths: &Vec<String>) -> (entries: Vec<WatchedEntry>)
    ensures
        entries.deep_view() == bare_entries(paths.deep_view()),
{
    let mut entries: Vec<WatchedEntry> = Vec::new();
    let mut i: usize = 0;
    while i < paths.len()
        invariant
            i <= paths@.len(),
            entries@.len() == i,
            forall|k: int|
                0 <= k < i ==> (#[trigger] entries@[k]).deep_view() == (WatchedEntryView {
                    path: paths@[k]@,
                    change: None,
                }),
        decreases paths.len() - i,
    {
        entries.push(WatchedEntry { path: paths[i].clone(), change: None });
        i = i + 1;
    }
    assert(entries.deep_view() =~= bare_entries(paths.deep_view()));
    entries
}

/// Whether a writer waits for diagnostics, and how long.
pub open spec fn diagnostics_wait(params: JsonView) -> Option<u64> {
    if json::object_value(params, "diagnostics"@) == Some(JsonView::Bool(true)) {
        match json::object_value(params, "wait_ms"@) {
            Some(JsonView::Unsigned(wait)) => Some(
                if wait < MAX_WAIT_MS {
                    wait
                } else {
                    MAX_WAIT_MS
                },
            ),
            _ => Some(DEFAULT_WAIT_MS),
        }
    } else {
        None
    }
}

/// Whether a writer waits for diagnostics, and how long.
pub fn post_write_wait(params: &Json) -> (wait: Option<u64>)
    ensures
        wait == diagnostics_wait(params.deep_view()),
{
    let wanted = match object_get(params, "diagnostics") {
        Some(Json::Bool(wanted)) => *wanted,
        _ => false,
    };
    if !wanted {
        return None;
    }
    match object_get(params, "wait_ms") {
        Some(Json::Unsigned(wait)) => {
            if *wait < MAX_WAIT_MS {
                Some(*wait)
            } else {
                Some(MAX_WAIT_MS)
            }
        },
        _ => Some(DEFAULT_WAIT_MS),
    }
}

/// What follows a write: the files of which servers may have to be told, and the wait for
/// diagnostics; without one the servers are told and nothing is collected.
#[derive(Debug)]
pub struct PostWritePlan {
    pub watched: Vec<WatchedEntry>,
    pub wait_ms: Option<u64>,
}

/// The files of which servers may have to be told: those named by their paths alone, or else
/// those named together with what happened to them.
pub open spec fn watched_after_write(params: JsonView) -> Seq<WatchedEntryView> {
    match write_paths(params) {
        Some(paths) => bare_entries(paths),
        None => match written_items(params) {
            Some(items) => watched_entries(items),
            None => Seq::empty(),
        },
    }
}

/// The root markers of all servers, in order.
pub open spec fn root_markers_of(servers: Seq<UserServerDefView>) -> Seq<Seq<char>>
    decreases servers.len(),
{
    if servers.len() == 0 {
        Seq::empty()
    } else {
        root_markers_of(servers.drop_last()) + servers.last().root_markers
    }
}

impl AppContext {
    /// Plans what follows the write of a file: the files that changed wait for background scans,
    /// and the counts of the status bar are older than the latest edit.
    pub fn lsp_post_write(&mut self, file_path: &str, params: &Json) -> (plan: PostWritePlan)
        ensures
            plan.watched.deep_view() == watched_after_write(params.deep_view()),
            plan.wait_ms == diagnostics_wait(params.deep_view()),
            final(self).pending.deep_view() == (pending::PendingView {
                tier2: path_set::with_paths(
                    old(self).platform,
                    old(self).pending.deep_view().tier2,
                    match write_paths(params.deep_view()) {
                        Some(paths) => paths,
                        None => seq![file_path@],
                    },
                ),
                ..old(self).pending.deep_view()
            }),
            *final(self) == (AppContext {
                pending: PendingReconciliationState {
                    tier2: final(self).pending.tier2,
                    ..old(self).pending
                },
                status_bar: StatusBarState {
                    tier2: old(self).status_bar.tier2.marked_stale(),
                    ..old(self).status_bar
                },
                ..*old(self)
            }),
            pending::keeps_pending_sets(*old(self), *final(self)),
    {
        let platform = self.platform;
        let wait_ms = post_write_wait(params);
        let watched = match multi_file_write_paths(params) {
            Some(paths) => {
                let watched = to_entries(&paths);
                self.pending.tier2.extend(platform, paths);
                watched
            },
            None => {
                let mut paths: Vec<String> = Vec::new();
                paths.push(file_path.to_owned());
                assert(paths.deep_view() =~= seq![file_path@]);
                self.pending.tier2.extend(platform, paths);
                watched_entries_from_params(params)
            },
        };
        let _ = self.mark_status_bar_tier2_stale();
        PostWritePlan { watched, wait_ms }
    }

    /// Plans what follows a write of several files at once.
    pub fn lsp_post_multi_file_write(&mut self, file_paths: Vec<String>, params: &Json) -> (plan:
        PostWritePlan)
        ensures
            plan.watched.deep_view() == bare_entries(file_paths.deep_view()),
            plan.wait_ms == diagnostics_wait(params.deep_view()),
            final(self).pending.deep_view() == (pending::PendingView {
                tier2: path_set::with_paths(
                    old(self).platform,
                    old(self).pending.deep_view().tier2,
                    file_paths.deep_view(),
                ),
                ..old(self).pending.deep_view()
            }),
            *final(self) == (AppContext {
                pending: PendingReconciliationState {
                    tier2: final(self).pending.tier2,
                    ..old(self).pending
                },
                status_bar: StatusBarState {
                    tier2: old(self).status_bar.tier2.marked_stale(),
                    ..old(self).status_bar
                },
                ..*old(self)
            }),
            pending::keeps_pending_sets(*old(self), *final(self)),
    {
        let platform = self.platform;
        let watched = to_entries(&file_paths);
        self.pending.tier2.extend(platform, file_paths);
        let _ = self.mark_status_bar_tier2_stale();
        PostWritePlan { watched, wait_ms: post_write_wait(params) }
    }

    /// Whether the servers' drain may have anything to do. `events` says whether they sent
    /// anything, where the application looked without waiting, and is `None` where they were
    /// busy: that counts as work.
    pub fn lsp_drain_has_work(events: Option<bool>) -> (yes: bool)
        ensures
            yes == (events != Some(false)),
    {
        match events {
            Some(waiting) => waiting,
            None => true,
        }
    }

    /// The names that mark the root of a project for a configured server, of all servers in
    /// order.
    pub fn custom_lsp_root_markers(&self) -> (markers: Vec<String>)
        ensures
            markers.deep_view() == root_markers_of(self.config.lsp_servers.deep_view()),
    {
        let ghost all = self.config.lsp_servers.deep_view();
        let mut markers: Vec<String> = Vec::new();
        let mut i: usize = 0;
        assert(markers.deep_view() =~= root_markers_of(all.take(0)));
        while i < self.config.lsp_servers.len()
            invariant
                i <= self.config.lsp_servers@.len(),
                all == self.config.lsp_servers.deep_view(),
                markers.deep_view() == root_markers_of(all.take(i as int)),
            decreases self.config.lsp_servers.len() - i,
        {
            let ghost before = markers.deep_view();
            let mut more = text::copy_texts(&self.config.lsp_servers[i].root_markers);
            let ghost added = more.deep_view();
            markers.append(&mut more);
            proof {
                assert(all.take(i + 1).drop_last() =~= all.take(i as int));
                assert(all.take(i + 1).last() == self.config.lsp_servers@[i as int].deep_view());
                assert(markers.deep_view() =~= before + added);
            }
            i = i + 1;
        }
        assert(all.take(all.len() as int) =~= all);
        markers
    }
}

/// A writer never waits longer than the longest wait.
pub proof fn law_wait_is_capped(params: JsonView)
    ensures
        diagnostics_wait(params) matches Some(wait) ==> wait <= MAX_WAIT_MS,
{
}

/// The words for a change, each in lower case, upper case and capitalised; no other word names one.
pub proof fn law_words_for_changes(word: Seq<char>)
    ensures
        named_change("created"@) == Some(FileChange::Created),
        named_change("CREATED"@) == Some(FileChange::Created),
        named_change("Created"@) == Some(FileChange::Created),
        named_change("changed"@) == Some(FileChange::Changed),
        named_change("CHANGED"@) == Some(FileChange::Changed),
        named_change("Changed"@) == Some(FileChange::Changed),
        named_change("deleted"@) == Some(FileChange::Deleted),
        named_change("DELETED"@) == Some(FileChange::Deleted),
        named_change("Deleted"@) == Some(FileChange::Deleted),
        named_change(word) is Some ==> word.len() == 7 && (word[0] == 'c' || word[0] == 'C'
            || word[0] == 'd' || word[0] == 'D'),
        named_change(word) == Some(FileChange::Deleted) <==> named_change(word) is Some && (word[0]
            == 'd' || word[0] == 'D'),
        named_change(word) == Some(FileChange::Created) <==> named_change(word) is Some && (word[1]
            == 'r' || word[1] == 'R'),
{
    reveal_strlit("created");
    reveal_strlit("CREATED");
    reveal_strlit("Created");
    reveal_strlit("changed");
    reveal_strlit("CHANGED");
    reveal_strlit("Changed");
    reveal_strlit("deleted");
    reveal_strlit("DELETED");
    reveal_strlit("Deleted");
    assert("created"@[0] == 'c' && "CREATED"@[0] == 'C' && "Created"@[0] == 'C');
    assert("changed"@[0] == 'c' && "CHANGED"@[0] == 'C' && "Changed"@[0] == 'C');
    assert("deleted"@[0] == 'd' && "DELETED"@[0] == 'D' && "Deleted"@[0] == 'D');
    assert("created"@[1] == 'r' && "CREATED"@[1] == 'R' && "Created"@[1] == 'r');
    assert("changed"@[1] == 'h' && "CHANGED"@[1] == 'H' && "Changed"@[1] == 'h');
    assert("deleted"@[1] == 'e' && "DELETED"@[1] == 'E' && "Deleted"@[1] == 'e');
}

/// Of the paths that a write lists, each text is taken, in order, and anything else is passed over.
/// Without any text no path is listed.
pub proof fn law_written_paths_are_the_texts(items: Seq<JsonView>, item: JsonView, params: JsonView)
    ensures
        texts_of(Seq::empty()).len() == 0,
        (item matches JsonView::Text(path) ==> texts_of(items.push(item)) == texts_of(items).push(
            path,
        )),
        !(item is Text) ==> texts_of(items.push(item)) == texts_of(items),
        (json::object_value(params, "multi_file_write_paths"@) matches Some(JsonView::List(listed))
            ==> (if texts_of(listed).len() > 0 {
            write_paths(params) == Some(texts_of(listed))
        } else {
            write_paths(params) is None
        })),
        !(json::object_value(params, "multi_file_write_paths"@) matches Some(JsonView::List(_)))
            ==> write_paths(params) is None && written_items(params) is None,
{
    assert(items.push(item).drop_last() =~= items);
}

/// An entry of a write is watched where it has a path, which is a text; its change is the one that
/// it names, where it names one.
pub proof fn law_watched_entry_names_path_and_change(
    items: Seq<JsonView>,
    item: JsonView,
    path: Seq<char>,
    word: Seq<char>,
)
    ensures
        !(json::object_value(item, "path"@) matches Some(JsonView::Text(_))) ==> watched_entries(
            items.push(item),
        ) == watched_entries(items),
        json::object_value(item, "path"@) == Some(JsonView::Text(path)) ==> {
            let entries = watched_entries(items.push(item));
            &&& entries.len() == watched_entries(items).len() + 1
            &&& entries.drop_last() == watched_entries(items)
            &&& entries.last().path == path
            &&& json::object_value(item, "type"@) == Some(JsonView::Text(word))
                ==> entries.last().change == named_change(word)
            &&& !(json::object_value(item, "type"@) matches Some(JsonView::Text(_)))
                ==> entries.last().change is None
        },
{
    assert(items.push(item).drop_last() =~= items);
    if watched_entry(item) is Some {
        assert(watched_entries(items.push(item)).drop_last() =~= watched_entries(items));
    }
}

/// The servers are told of a file exactly where it is one that configures them: of the change that
/// the write names, or else of a deletion where the file is gone and of a change where it is there.
pub proof fn law_servers_are_told_of_their_files(
    entries: Seq<WatchedEntryView>,
    entry: WatchedEntryView,
    facts: Seq<FileFacts>,
    change: FileChange,
)
    requires
        facts.len() == entries.len() + 1,
    ensures
        !facts.last().is_config ==> config_events(entries.push(entry), facts) == config_events(
            entries,
            facts,
        ),
        facts.last().is_config ==> {
            let events = config_events(entries.push(entry), facts);
            &&& entry.change == Some(change) ==> events == config_events(entries, facts).push(
                (entry.path, change),
            )
            &&& entry.change is None && facts.last().exists ==> events == config_events(
                entries,
                facts,
            ).push((entry.path, FileChange::Changed))
            &&& entry.change is None && !facts.last().exists ==> events == config_events(
                entries,
                facts,
            ).push((entry.path, FileChange::Deleted))
        },
{
    assert(entries.push(entry).drop_last() =~= entries);
}

/// A writer waits exactly where it asks for diagnostics: for as long as it says, at most ten
/// seconds, and for three where it does not say.
pub proof fn law_writer_says_how_long_it_waits(params: JsonView, wait: u64)
    ensures
        diagnostics_wait(params) is Some <==> json::object_value(params, "diagnostics"@) == Some(
            JsonView::Bool(true),
        ),
        diagnostics_wait(params) is Some ==> {
            let said = json::object_value(params, "wait_ms"@);
            &&& said == Some(JsonView::Unsigned(wait)) && wait <= 10000 ==> diagnostics_wait(params)
                == Some(wait)
            &&& said == Some(JsonView::Unsigned(wait)) && wait > 10000 ==> diagnostics_wait(params)
                == Some(10000u64)
            &&& !(said matches Some(JsonView::Unsigned(_))) ==> diagnostics_wait(params) == Some(
                3000u64,
            )
        },
{
}

/// Paths that are listed as texts are watched one by one, without a change that they name; only
/// where no text is listed do entries with a path and a change count.
pub proof fn law_texts_are_watched_before_entries(params: JsonView, items: Seq<JsonView>, i: int)
    requires
        json::object_value(params, "multi_file_write_paths"@) == Some(JsonView::List(items)),
    ensures
        0 <= i < texts_of(items).len() ==> {
            let watched = watched_after_write(params);
            &&& watched.len() == texts_of(items).len()
            &&& watched[i].path == texts_of(items)[i]
            &&& watched[i].change is None
        },
        texts_of(items).len() == 0 ==> watched_after_write(params) == watched_entries(items),
{
}

/// The markers of all servers stand one behind another, in the order of the servers.
pub proof fn law_root_markers_are_collected(
    servers: Seq<UserServerDefView>,
    server: UserServerDefView,
)
    ensures
        root_markers_of(Seq::empty()).len() == 0,
        root_markers_of(servers.push(server)) == root_markers_of(servers) + server.root_markers,
{
    assert(servers.push(server).drop_last() =~= servers);
}

} // verus!
