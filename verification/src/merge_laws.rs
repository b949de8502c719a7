//! What laying documents over each other promises, setting by setting.

use vstd::prelude::*;

use crate::config::{Platform, DEFAULT_INSPECT_DIAGNOSTICS_TIMEOUT_MS};
use crate::config_laws;
use crate::memory;
use crate::memory_laws;
use crate::merge;
use crate::merge::DroppedKeyView;
use crate::path_set;
use crate::path_text::same_path;
use crate::raw::{
    RawAftConfigView, RawBash, RawExperimental, RawExperimentalBash, RawInspectDuplicatesView,
    RawInspectView, RawLspView, RawSandboxView, RawSemanticView, RawWorktree,
};
use crate::text;
use crate::text_map;

verus! {

/// What is set where the later document sets it, else what the earlier one sets.
pub open spec fn later_wins<T>(later: Option<T>, earlier: Option<T>, out: Option<T>) -> bool {
    &&& later is Some ==> out == later
    &&& later is None ==> out == earlier
}

/// What a map that may be unset says of a key.
pub open spec fn says<V>(map: Option<Seq<(Seq<char>, V)>>, key: Seq<char>) -> Option<V> {
    match map {
        Some(pairs) => text_map::map_get(pairs, key),
        None => None,
    }
}

/// Whether a map that may be unset holds its keys in order, so none twice.
pub open spec fn is_ordered<V>(map: Option<Seq<(Seq<char>, V)>>) -> bool {
    match map {
        Some(pairs) => text_map::keys_in_order(pairs),
        None => true,
    }
}

proof fn lemma_ordered_names_differ<V>(pairs: Seq<(Seq<char>, V)>)
    requires
        text_map::keys_in_order(pairs),
    ensures
        memory::names_distinct(pairs),
{
    assert forall|i: int, j: int| 0 <= i < j < pairs.len() implies (#[trigger] pairs[i]).0 != (
    #[trigger] pairs[j]).0 by {
        assert(text::text_less(pairs[i].0, pairs[j].0));
        text::lemma_text_less_irreflexive(pairs[i].0);
    }
}

/// A map laid over another says of each key what the later one says, and what the earlier one says
/// where the later one says nothing: no entry is lost and none is made up.
pub proof fn law_merged_map_keeps_both<V>(
    base: Option<Seq<(Seq<char>, V)>>,
    over: Option<Seq<(Seq<char>, V)>>,
    key: Seq<char>,
)
    requires
        is_ordered(base),
        is_ordered(over),
    ensures
        later_wins(says(over, key), says(base, key), says(merge::map_merged(base, over), key)),
        is_ordered(merge::map_merged(base, over)),
        base is Some ==> merge::map_merged(base, over) is Some,
{
    if let Some(more) = over {
        let start = match base {
            Some(start) => start,
            None => Seq::empty(),
        };
        lemma_ordered_names_differ(more);
        memory_laws::lemma_put_all_reads(start, more, key);
        text_map::law_put_all_keeps_order(start, more);
    }
}

/// After a project document is laid over others, the tool of a language is the project's where the
/// project names one for that language, and the earlier one otherwise; for formatters and for
/// type checkers alike.
pub proof fn law_project_tools_join_the_earlier_ones(
    platform: Platform,
    base: RawAftConfigView,
    project: RawAftConfigView,
    language: Seq<char>,
)
    requires
        is_ordered(base.formatter),
        is_ordered(project.formatter),
        is_ordered(base.checker),
        is_ordered(project.checker),
    ensures
        ({
            let laid = merge::project_laid(platform, base, project);
            &&& later_wins(
                says(project.formatter, language),
                says(base.formatter, language),
                says(laid.formatter, language),
            )
            &&& later_wins(
                says(project.checker, language),
                says(base.checker, language),
                says(laid.checker, language),
            )
            &&& is_ordered(laid.formatter)
            &&& is_ordered(laid.checker)
        }),
{
    law_merged_map_keeps_both(base.formatter, project.formatter, language);
    law_merged_map_keeps_both(base.checker, project.checker, language);
}

/// Whether a list that may be unset names a text.
pub open spec fn lists(list: Option<Seq<Seq<char>>>, name: Seq<char>) -> bool {
    list matches Some(names) && names.contains(name)
}

proof fn lemma_appended(
    list: Seq<Seq<char>>,
    more: Seq<Seq<char>>,
    barred: Option<Seq<char>>,
    name: Seq<char>,
)
    ensures
        merge::appended(list, more, barred).contains(name) <==> list.contains(name) || (
        more.contains(name) && barred != Some(name)),
        list.no_duplicates() ==> merge::appended(list, more, barred).no_duplicates(),
        merge::appended(list, more, barred).len() >= list.len(),
        forall|i: int|
            0 <= i < list.len() ==> #[trigger] merge::appended(list, more, barred)[i] == list[i],
    decreases more.len(),
{
    if more.len() > 0 {
        let before = merge::appended(list, more.drop_last(), barred);
        let last = more.last();
        lemma_appended(list, more.drop_last(), barred, name);
        lemma_appended(list, more.drop_last(), barred, last);
        let out = merge::appended(list, more, barred);
        assert(more =~= more.drop_last().push(last));
        if more.drop_last().contains(name) {
            let n = choose|n: int| 0 <= n < more.len() - 1 && more.drop_last()[n] == name;
            assert(more[n] == name);
        }
        if more.contains(name) && name != last {
            let n = choose|n: int| 0 <= n < more.len() && more[n] == name;
            assert(more.drop_last()[n] == name);
        }
        assert(more[more.len() - 1] == last);
        if !(before.contains(last) || barred == Some(last)) {
            assert(out == before.push(last));
            assert(out[before.len() as int] == last);
            if before.contains(name) {
                let n = choose|n: int| 0 <= n < before.len() && before[n] == name;
                assert(out[n] == name);
            }
            if out.contains(name) && name != last {
                let n = choose|n: int| 0 <= n < out.len() && out[n] == name;
                assert(before[n] == name);
            }
        }
    }
}

/// A tool is disabled where an earlier tier disables it or the project does, but the project cannot
/// disable `aft_safety`; no tool is named twice once a project names any.
pub proof fn law_disabled_tools_join(
    base: Option<Seq<Seq<char>>>,
    over: Option<Seq<Seq<char>>>,
    name: Seq<char>,
)
    ensures
        ({
            let out = merge::disabled_tools_merged(base, over);
            &&& lists(out, name) <==> lists(base, name) || (lists(over, name) && name
                != "aft_safety"@)
            &&& over is None ==> out == base
            &&& over is Some && out is Some && out->0.len() > 0 ==> out->0.no_duplicates()
        }),
{
    if let Some(more) = over {
        let start = match base {
            Some(start) => start,
            None => Seq::empty(),
        };
        let kept = merge::appended(Seq::empty(), start, None);
        lemma_appended(Seq::empty(), start, None, name);
        lemma_appended(kept, more, Some("aft_safety"@), name);
        let merged = merge::appended(kept, more, Some("aft_safety"@));
        if merged.len() == 0 {
            assert(!merged.contains(name));
        }
    }
}

proof fn lemma_paths_appended(
    platform: Platform,
    list: Seq<Seq<char>>,
    more: Seq<Seq<char>>,
    path: Seq<char>,
)
    ensures
        path_set::has_path(platform, merge::paths_appended(platform, list, more), path)
            <==> path_set::has_path(platform, list, path) || path_set::has_path(
            platform,
            more,
            path,
        ),
    decreases more.len(),
{
    if more.len() > 0 {
        let front = more.drop_last();
        let last = more.last();
        let before = merge::paths_appended(platform, list, front);
        let out = merge::paths_appended(platform, list, more);
        lemma_paths_appended(platform, list, front, path);
        if path_set::has_path(platform, more, path) {
            let n = choose|n: int|
                0 <= n < more.len() && same_path(platform, #[trigger] more[n], path);
            if n < front.len() {
                assert(same_path(platform, front[n], path));
            }
        }
        if path_set::has_path(platform, front, path) {
            let n = choose|n: int|
                0 <= n < front.len() && same_path(platform, #[trigger] front[n], path);
            assert(same_path(platform, more[n], path));
        }
        if same_path(platform, last, path) {
            assert(same_path(platform, more[more.len() - 1], path));
            if path_set::has_path(platform, before, last) {
                let n = choose|n: int|
                    0 <= n < before.len() && same_path(platform, #[trigger] before[n], last);
                assert(same_path(platform, before[n], path));
            } else {
                assert(same_path(platform, out[before.len() as int], path));
            }
        }
        if path_set::has_path(platform, before, path) {
            let n = choose|n: int|
                0 <= n < before.len() && same_path(platform, #[trigger] before[n], path);
            assert(same_path(platform, out[n], path));
        }
        if path_set::has_path(platform, out, path) {
            let n = choose|n: int|
                0 <= n < out.len() && same_path(platform, #[trigger] out[n], path);
            if n < before.len() {
                assert(same_path(platform, before[n], path));
            }
        }
    }
}

/// The sandbox after a project: it is on where an earlier tier or the project switches it on, off
/// only where an earlier tier says so; what may be written is what the earlier tiers allow; a read
/// is denied where either denies it.
pub proof fn law_sandbox_is_joined_towards_safety(
    platform: Platform,
    base: Option<RawSandboxView>,
    project: Option<RawSandboxView>,
    path: Seq<char>,
)
    ensures
        ({
            let out = merge::sandbox_merged(platform, base, project);
            let on = (match out { Some(s) => s.enabled, None => None });
            let was_on = (match base { Some(s) => s.enabled, None => None });
            let asked = (match project { Some(s) => s.enabled, None => None });
            let denies = (match out { Some(s) => s.read_deny, None => None });
            let denied = (match base { Some(s) => s.read_deny, None => None });
            let more = (match project { Some(s) => s.read_deny, None => None });
            &&& asked == Some(true) ==> on == Some(true)
            &&& asked != Some(true) ==> on == was_on
            &&& (match out { Some(s) => s.write_allow, None => None }) == (match base { Some(s) => s.write_allow, None => None })
            &&& more is None ==> denies == denied
            &&& more is Some ==> denies is Some
            &&& (denies matches Some(all) && path_set::has_path(platform, all, path)) <==> (denied
                matches Some(all) && path_set::has_path(platform, all, path)) || (more matches Some(
                all,
            ) && path_set::has_path(platform, all, path))
        }),
{
    let none = Seq::<Seq<char>>::empty();
    assert(!path_set::has_path(platform, none, path));
    if let Some(section) = project {
        if let Some(denies) = section.read_deny {
            let start = (match base { Some(s) => s.read_deny, None => None });
            let list = match start {
                Some(list) => list,
                None => none,
            };
            lemma_paths_appended(platform, list, denies, path);
        }
    }
}

/// A project chooses the model and the budgets of background embedding; the backend, its endpoint, its
/// credentials and the interactive budget stay those of the earlier tiers.
pub proof fn law_project_chooses_model_and_budgets(base: Option<RawSemanticView>, over: Option<RawSemanticView>)
    ensures
        ({
            let out = merge::semantic_merged(base, over);
            &&& later_wins(
                (match over { Some(s) => s.model, None => None }),
                (match base { Some(s) => s.model, None => None }),
                (match out { Some(s) => s.model, None => None }),
            )
            &&& later_wins(
                (match over { Some(s) => s.timeout_ms, None => None }),
                (match base { Some(s) => s.timeout_ms, None => None }),
                (match out { Some(s) => s.timeout_ms, None => None }),
            )
            &&& later_wins(
                (match over { Some(s) => s.max_batch_size, None => None }),
                (match base { Some(s) => s.max_batch_size, None => None }),
                (match out { Some(s) => s.max_batch_size, None => None }),
            )
            &&& later_wins(
                (match over { Some(s) => s.max_files, None => None }),
                (match base { Some(s) => s.max_files, None => None }),
                (match out { Some(s) => s.max_files, None => None }),
            )
            &&& (match out { Some(s) => s.backend, None => None }) == (match base { Some(s) => s.backend, None => None })
            &&& (match out { Some(s) => s.base_url, None => None }) == (match base { Some(s) => s.base_url, None => None })
            &&& (match out { Some(s) => s.api_key_env, None => None }) == (match base { Some(s) => s.api_key_env, None => None })
            &&& (match out { Some(s) => s.query_timeout_ms, None => None }) == (match base { Some(s) => s.query_timeout_ms, None => None })
        }),
{
    reveal(merge::or_else);
}

/// A project chooses the Python server and whether diagnostics follow edits; which servers run, and
/// how they are installed, stays as the earlier tiers say.
pub proof fn law_project_chooses_python_server(base: Option<RawLspView>, over: Option<RawLspView>)
    ensures
        ({
            let out = merge::lsp_merged(base, over);
            &&& later_wins(
                (match over { Some(s) => s.python, None => None }),
                (match base { Some(s) => s.python, None => None }),
                (match out { Some(s) => s.python, None => None }),
            )
            &&& later_wins(
                (match over { Some(s) => s.diagnostics_on_edit, None => None }),
                (match base { Some(s) => s.diagnostics_on_edit, None => None }),
                (match out { Some(s) => s.diagnostics_on_edit, None => None }),
            )
            &&& (match out { Some(s) => s.servers, None => None }) == (match base { Some(s) => s.servers, None => None })
            &&& (match out { Some(s) => s.disabled, None => None }) == (match base { Some(s) => s.disabled, None => None })
            &&& (match out { Some(s) => s.auto_install, None => None }) == (match base { Some(s) => s.auto_install, None => None })
            &&& (match out { Some(s) => s.grace_days, None => None }) == (match base { Some(s) => s.grace_days, None => None })
            &&& (match out { Some(s) => s.versions, None => None }) == (match base { Some(s) => s.versions, None => None })
        }),
{
    reveal(merge::or_else);
}

/// Legacy bash flags are joined one by one.
pub proof fn law_legacy_bash_flags_join(base: Option<RawExperimentalBash>, over: Option<RawExperimentalBash>)
    ensures
        ({
            let out = merge::experimental_bash_merged(base, over);
            &&& later_wins(
                (match over { Some(s) => s.rewrite, None => None }),
                (match base { Some(s) => s.rewrite, None => None }),
                (match out { Some(s) => s.rewrite, None => None }),
            )
            &&& later_wins(
                (match over { Some(s) => s.compress, None => None }),
                (match base { Some(s) => s.compress, None => None }),
                (match out { Some(s) => s.compress, None => None }),
            )
            &&& later_wins(
                (match over { Some(s) => s.background, None => None }),
                (match base { Some(s) => s.background, None => None }),
                (match out { Some(s) => s.background, None => None }),
            )
            &&& later_wins(
                (match over { Some(s) => s.long_running_reminder_enabled, None => None }),
                (match base { Some(s) => s.long_running_reminder_enabled, None => None }),
                (match out { Some(s) => s.long_running_reminder_enabled, None => None }),
            )
            &&& later_wins(
                (match over { Some(s) => s.long_running_reminder_interval_ms, None => None }),
                (match base { Some(s) => s.long_running_reminder_interval_ms, None => None }),
                (match out { Some(s) => s.long_running_reminder_interval_ms, None => None }),
            )
        }),
{
    reveal(merge::or_else);
}

/// The linked-worktree settings are joined one by one.
pub proof fn law_worktree_settings_join(base: Option<RawWorktree>, over: Option<RawWorktree>)
    ensures
        ({
            let out = merge::worktree_merged(base, over);
            &&& later_wins(
                (match over { Some(s) => s.ram_overlay, None => None }),
                (match base { Some(s) => s.ram_overlay, None => None }),
                (match out { Some(s) => s.ram_overlay, None => None }),
            )
        }),
{
    reveal(merge::or_else);
}

/// The settings of duplicate detection are joined one by one.
pub proof fn law_duplicate_settings_join(base: Option<RawInspectDuplicatesView>, over: Option<RawInspectDuplicatesView>)
    ensures
        ({
            let out = merge::duplicates_merged(base, over);
            &&& later_wins(
                (match over { Some(s) => s.expected_mirrors, None => None }),
                (match base { Some(s) => s.expected_mirrors, None => None }),
                (match out { Some(s) => s.expected_mirrors, None => None }),
            )
        }),
{
    reveal(merge::or_else);
}

/// The inspection settings are joined one by one; of the deadline for diagnostics the longer one
/// counts, against the default where no earlier tier sets one.
pub proof fn law_inspection_settings_join(
    base: Option<RawInspectView>,
    over: Option<RawInspectView>,
)
    ensures
        ({
            let out = merge::inspect_merged(base, over);
            &&& later_wins(
                (match over { Some(s) => s.enabled, None => None }),
                (match base { Some(s) => s.enabled, None => None }),
                (match out { Some(s) => s.enabled, None => None }),
            )
            &&& later_wins(
                (match over { Some(s) => s.tier2_idle_minutes, None => None }),
                (match base { Some(s) => s.tier2_idle_minutes, None => None }),
                (match out { Some(s) => s.tier2_idle_minutes, None => None }),
            )
            &&& later_wins(
                (match over { Some(s) => s.categories, None => None }),
                (match base { Some(s) => s.categories, None => None }),
                (match out { Some(s) => s.categories, None => None }),
            )
            &&& later_wins(
                (match over { Some(s) => s.tier2_soft_deadline_ms, None => None }),
                (match base { Some(s) => s.tier2_soft_deadline_ms, None => None }),
                (match out { Some(s) => s.tier2_soft_deadline_ms, None => None }),
            )
            &&& later_wins(
                (match over { Some(s) => s.max_drill_down_items, None => None }),
                (match base { Some(s) => s.max_drill_down_items, None => None }),
                (match out { Some(s) => s.max_drill_down_items, None => None }),
            )
            &&& (match out { Some(s) => s.duplicates, None => None }) == merge::duplicates_merged(
                (match base { Some(s) => s.duplicates, None => None }),
                (match over { Some(s) => s.duplicates, None => None }),
            )
            &&& ({
                let asked = (match over { Some(s) => s.diagnostics_timeout_ms, None => None });
                let had = (match base { Some(s) => s.diagnostics_timeout_ms, None => None });
                let got = (match out { Some(s) => s.diagnostics_timeout_ms, None => None });
                let floor = match had {
                    Some(ms) => ms,
                    None => DEFAULT_INSPECT_DIAGNOSTICS_TIMEOUT_MS,
                };
                &&& asked is None ==> got == had
                &&& asked matches Some(ms) ==> {
                    &&& got is Some
                    &&& got->0 >= ms
                    &&& got->0 >= floor
                    &&& got->0 == ms || got->0 == floor
                }
            })
        }),
{
    reveal(merge::or_else);
}

/// The legacy experimental settings are joined one by one.
pub proof fn law_experimental_settings_join(
    base: Option<RawExperimental>,
    over: Option<RawExperimental>,
)
    ensures
        ({
            let out = merge::experimental_merged(base, over);
            &&& later_wins(
                (match over { Some(s) => s.lsp_ty, None => None }),
                (match base { Some(s) => s.lsp_ty, None => None }),
                (match out { Some(s) => s.lsp_ty, None => None }),
            )
            &&& (match out { Some(s) => s.bash, None => None }) == merge::experimental_bash_merged(
                (match base { Some(s) => s.bash, None => None }),
                (match over { Some(s) => s.bash, None => None }),
            )
        }),
{
    reveal(merge::or_else);
}

/// What a bash section says of `rewrite`: a switch speaks for it.
pub open spec fn says_rewrite(section: Option<RawBash>) -> Option<bool> {
    match section {
        Some(RawBash::Bool(on)) => Some(on),
        Some(RawBash::Features(features)) => features.rewrite,
        None => None,
    }
}

/// What a bash section says of `compress`: a switch speaks for it.
pub open spec fn says_compress(section: Option<RawBash>) -> Option<bool> {
    match section {
        Some(RawBash::Bool(on)) => Some(on),
        Some(RawBash::Features(features)) => features.compress,
        None => None,
    }
}

/// What a bash section says of `background`: a switch speaks for it.
pub open spec fn says_background(section: Option<RawBash>) -> Option<bool> {
    match section {
        Some(RawBash::Bool(on)) => Some(on),
        Some(RawBash::Features(features)) => features.background,
        None => None,
    }
}

/// What a bash section says of `host_fallback`.
pub open spec fn says_host_fallback(section: Option<RawBash>) -> Option<bool> {
    match section {
        Some(RawBash::Bool(on)) => None,
        Some(RawBash::Features(features)) => features.host_fallback,
        None => None,
    }
}

/// What a bash section says of `subagent_background`.
pub open spec fn says_subagent_background(section: Option<RawBash>) -> Option<bool> {
    match section {
        Some(RawBash::Bool(on)) => None,
        Some(RawBash::Features(features)) => features.subagent_background,
        None => None,
    }
}

/// What a bash section says of `detach_on_user_message`.
pub open spec fn says_detach_on_user_message(section: Option<RawBash>) -> Option<bool> {
    match section {
        Some(RawBash::Bool(on)) => None,
        Some(RawBash::Features(features)) => features.detach_on_user_message,
        None => None,
    }
}

/// What a bash section says of `long_running_reminder_enabled`.
pub open spec fn says_long_running_reminder_enabled(section: Option<RawBash>) -> Option<bool> {
    match section {
        Some(RawBash::Bool(on)) => None,
        Some(RawBash::Features(features)) => features.long_running_reminder_enabled,
        None => None,
    }
}

/// What a bash section says of `long_running_reminder_interval_ms`.
pub open spec fn says_long_running_reminder_interval_ms(section: Option<RawBash>) -> Option<u64> {
    match section {
        Some(RawBash::Bool(on)) => None,
        Some(RawBash::Features(features)) => features.long_running_reminder_interval_ms,
        None => None,
    }
}

/// What a bash section says of `foreground_wait_window_ms`.
pub open spec fn says_foreground_wait_window_ms(section: Option<RawBash>) -> Option<u64> {
    match section {
        Some(RawBash::Bool(on)) => None,
        Some(RawBash::Features(features)) => features.foreground_wait_window_ms,
        None => None,
    }
}

/// What a bash section says of `powershell_tool`.
pub open spec fn says_powershell_tool(section: Option<RawBash>) -> Option<bool> {
    match section {
        Some(RawBash::Bool(on)) => None,
        Some(RawBash::Features(features)) => features.powershell_tool,
        None => None,
    }
}

/// The bash settings are joined one by one, whether they are written as a switch or as features.
pub proof fn law_bash_settings_join(base: Option<RawBash>, over: Option<RawBash>)
    ensures
        ({
            let out = merge::bash_merged(base, over);
            &&& (base is Some || over is Some) ==> out is Some
            &&& (base is None && over is None) ==> out is None
            &&& later_wins(says_rewrite(over), says_rewrite(base), says_rewrite(out))
            &&& later_wins(says_compress(over), says_compress(base), says_compress(out))
            &&& later_wins(says_background(over), says_background(base), says_background(out))
            &&& later_wins(says_host_fallback(over), says_host_fallback(base), says_host_fallback(out))
            &&& later_wins(says_subagent_background(over), says_subagent_background(base), says_subagent_background(out))
            &&& later_wins(says_detach_on_user_message(over), says_detach_on_user_message(base), says_detach_on_user_message(out))
            &&& later_wins(says_long_running_reminder_enabled(over), says_long_running_reminder_enabled(base), says_long_running_reminder_enabled(out))
            &&& later_wins(says_long_running_reminder_interval_ms(over), says_long_running_reminder_interval_ms(base), says_long_running_reminder_interval_ms(out))
            &&& later_wins(says_foreground_wait_window_ms(over), says_foreground_wait_window_ms(base), says_foreground_wait_window_ms(out))
            &&& later_wins(says_powershell_tool(over), says_powershell_tool(base), says_powershell_tool(out))
        }),
{
    reveal(merge::or_else);
}

/// A trusted document laid over another decides every setting that it sets, and leaves every other
/// as it was.
pub proof fn law_trusted_document_decides_what_it_sets(
    base: RawAftConfigView,
    over: RawAftConfigView,
)
    ensures
        ({
            let out = merge::trusted(base, over);
            &&& later_wins(over.schema, base.schema, out.schema)
            &&& later_wins(over.enabled, base.enabled, out.enabled)
            &&& later_wins(over.edit_mode, base.edit_mode, out.edit_mode)
            &&& later_wins(over.format_on_edit, base.format_on_edit, out.format_on_edit)
            &&& later_wins(over.formatter_timeout_secs, base.formatter_timeout_secs, out.formatter_timeout_secs)
            &&& later_wins(over.type_checker_timeout_secs, base.type_checker_timeout_secs, out.type_checker_timeout_secs)
            &&& later_wins(over.validate_on_edit, base.validate_on_edit, out.validate_on_edit)
            &&& later_wins(over.formatter, base.formatter, out.formatter)
            &&& later_wins(over.checker, base.checker, out.checker)
            &&& later_wins(over.configure_warnings_delivery, base.configure_warnings_delivery, out.configure_warnings_delivery)
            &&& later_wins(over.hoist_builtin_tools, base.hoist_builtin_tools, out.hoist_builtin_tools)
            &&& later_wins(over.tool_surface, base.tool_surface, out.tool_surface)
            &&& later_wins(over.disabled_tools, base.disabled_tools, out.disabled_tools)
            &&& later_wins(over.restrict_to_project_root, base.restrict_to_project_root, out.restrict_to_project_root)
            &&& later_wins(over.search_index, base.search_index, out.search_index)
            &&& later_wins(over.index, base.index, out.index)
            &&& later_wins(over.memory, base.memory, out.memory)
            &&& later_wins(over.semantic_search, base.semantic_search, out.semantic_search)
            &&& later_wins(over.callgraph_store, base.callgraph_store, out.callgraph_store)
            &&& later_wins(over.callgraph_chunk_size, base.callgraph_chunk_size, out.callgraph_chunk_size)
            &&& later_wins(over.inspect, base.inspect, out.inspect)
            &&& later_wins(over.backup, base.backup, out.backup)
            &&& later_wins(over.worktree, base.worktree, out.worktree)
            &&& later_wins(over.gh_shim, base.gh_shim, out.gh_shim)
            &&& later_wins(over.gh_read, base.gh_read, out.gh_read)
            &&& later_wins(over.git, base.git, out.git)
            &&& later_wins(over.sandbox, base.sandbox, out.sandbox)
            &&& later_wins(over.bash, base.bash, out.bash)
            &&& later_wins(over.experimental, base.experimental, out.experimental)
            &&& later_wins(over.lsp, base.lsp, out.lsp)
            &&& later_wins(over.url_fetch_allow_private, base.url_fetch_allow_private, out.url_fetch_allow_private)
            &&& later_wins(over.semantic, base.semantic, out.semantic)
            &&& later_wins(over.auto_update, base.auto_update, out.auto_update)
            &&& later_wins(over.bridge, base.bridge, out.bridge)
            &&& later_wins(over.subc, base.subc, out.subc)
            &&& later_wins(over.harnesses, base.harnesses, out.harnesses)
        }),
{
    reveal(merge::or_else);
}

/// A project document decides the settings that are safe for it, has its sections joined with the
/// earlier ones, and leaves every other setting as it was.
pub proof fn law_project_document_decides_what_is_safe(
    platform: Platform,
    base: RawAftConfigView,
    project: RawAftConfigView,
)
    ensures
        ({
            let out = merge::project_laid(platform, base, project);
            &&& later_wins(project.enabled, base.enabled, out.enabled)
            &&& later_wins(project.edit_mode, base.edit_mode, out.edit_mode)
            &&& later_wins(project.format_on_edit, base.format_on_edit, out.format_on_edit)
            &&& later_wins(project.validate_on_edit, base.validate_on_edit, out.validate_on_edit)
            &&& later_wins(project.configure_warnings_delivery, base.configure_warnings_delivery, out.configure_warnings_delivery)
            &&& later_wins(project.hoist_builtin_tools, base.hoist_builtin_tools, out.hoist_builtin_tools)
            &&& later_wins(project.tool_surface, base.tool_surface, out.tool_surface)
            &&& later_wins(project.search_index, base.search_index, out.search_index)
            &&& later_wins(project.semantic_search, base.semantic_search, out.semantic_search)
            &&& later_wins(project.callgraph_store, base.callgraph_store, out.callgraph_store)
            &&& later_wins(project.callgraph_chunk_size, base.callgraph_chunk_size, out.callgraph_chunk_size)
            &&& later_wins(project.git, base.git, out.git)
            &&& out.schema == base.schema
            &&& out.formatter_timeout_secs == base.formatter_timeout_secs
            &&& out.type_checker_timeout_secs == base.type_checker_timeout_secs
            &&& out.restrict_to_project_root == base.restrict_to_project_root
            &&& out.index == base.index
            &&& out.memory == base.memory
            &&& out.backup == base.backup
            &&& out.gh_shim == base.gh_shim
            &&& out.gh_read == base.gh_read
            &&& out.url_fetch_allow_private == base.url_fetch_allow_private
            &&& out.auto_update == base.auto_update
            &&& out.bridge == base.bridge
            &&& out.subc == base.subc
            &&& out.harnesses == base.harnesses
            &&& out.formatter == merge::map_merged(base.formatter, project.formatter)
            &&& out.checker == merge::map_merged(base.checker, project.checker)
            &&& out.disabled_tools == merge::disabled_tools_merged(base.disabled_tools, project.disabled_tools)
            &&& out.semantic == merge::semantic_merged(base.semantic, project.semantic)
            &&& out.lsp == merge::lsp_merged(base.lsp, project.lsp)
            &&& out.experimental == merge::experimental_merged(base.experimental, project.experimental)
            &&& out.bash == merge::bash_merged(base.bash, project.bash)
            &&& out.inspect == merge::inspect_merged(base.inspect, project.inspect)
            &&& out.worktree == merge::worktree_merged(base.worktree, project.worktree)
            &&& out.sandbox == merge::sandbox_merged(platform, base.sandbox, project.sandbox)
        }),
{
    reveal(merge::or_else);
}

/// What a tier may not set is recorded: one entry for each such key that its document sets and for
/// no other, in a fixed order, behind what was recorded before.
pub proof fn law_drops_name_what_the_tier_may_not_set(
    document: RawAftConfigView,
    tier: Seq<char>,
    dropped: Seq<DroppedKeyView>,
)
    ensures
        ({
            let settings = config_laws::user_only_settings(document);
            let added = config_laws::noted(Seq::empty(), settings, tier);
            &&& merge::drops_recorded(document, tier, dropped) == dropped + added
            &&& config_laws::one_entry_each(added, settings, tier)
            &&& settings.len() == 25
        }),
{
    let settings = config_laws::user_only_settings(document);
    config_laws::lemma_recorded_drops_are_noted(document, tier, dropped);
    config_laws::lemma_noted_appends(dropped, settings, tier);
    config_laws::lemma_user_only_keys_differ(document);
    config_laws::lemma_one_entry_each(settings, tier);
}

} // verus!
