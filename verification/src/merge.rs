//! Merging configuration documents across the user/project trust boundary.

use vstd::prelude::*;

use crate::config::{Platform, DEFAULT_INSPECT_DIAGNOSTICS_TIMEOUT_MS};
use crate::path_set;
use crate::raw;
use crate::raw::{
    RawAftConfig, RawAftConfigView, RawBash, RawBashFeatures, RawChecker, RawExperimental,
    RawExperimentalBash, RawFormatter, RawInspect, RawInspectDuplicates, RawInspectDuplicatesView,
    RawInspectView, RawLsp, RawLspView, RawSandbox, RawSandboxView, RawSemantic, RawSemanticView,
    RawWorktree,
};
use crate::text;
use crate::text_map;
use crate::text_map::TextMap;

verus! {

/// The overriding value where there is one, the other otherwise.
#[verifier::opaque]
pub open spec fn or_else<T>(over: Option<T>, base: Option<T>) -> Option<T> {
    if over is Some {
        over
    } else {
        base
    }
}

fn or<T: DeepView>(over: Option<T>, base: Option<T>) -> (out: Option<T>)
    ensures
        out == or_else(over, base),
        out.deep_view() == or_else(over.deep_view(), base.deep_view()),
{
    reveal(or_else);
    match over {
        Some(value) => Some(value),
        None => base,
    }
}

/// The value where there is one, the fallback otherwise.
pub open spec fn or_value<T>(value: Option<T>, fallback: T) -> T {
    match value {
        Some(value) => value,
        None => fallback,
    }
}

/// A map laid over another. Laying nothing over nothing leaves the map unset.
pub open spec fn map_merged<V>(
    base: Option<Seq<(Seq<char>, V)>>,
    over: Option<Seq<(Seq<char>, V)>>,
) -> Option<Seq<(Seq<char>, V)>> {
    match over {
        None => base,
        Some(over) => if over.len() == 0 && or_value(base, Seq::empty()).len() == 0 {
            base
        } else {
            Some(text_map::map_put_all(or_value(base, Seq::empty()), over))
        },
    }
}

fn merge_map<T: DeepView>(base: &mut Option<TextMap<T>>, over: Option<TextMap<T>>)
    ensures
        final(base).deep_view() == map_merged(old(base).deep_view(), over.deep_view()),
{
    let over = match over {
        Some(over) => over,
        None => {
            return ;
        },
    };
    let unset = match base {
        Some(target) => target.is_empty(),
        None => true,
    };
    if over.is_empty() && unset {
        return ;
    }
    let mut target = match base.take() {
        Some(target) => target,
        None => TextMap::new(),
    };
    target.extend(over);
    *base = Some(target);
}

/// Lays the formatters of one tier over those of another.
pub fn merge_formatter_map(
    base: &mut Option<TextMap<RawFormatter>>,
    override_map: Option<TextMap<RawFormatter>>,
)
    ensures
        final(base).deep_view() == map_merged(old(base).deep_view(), override_map.deep_view()),
{
    merge_map(base, override_map);
}

/// Lays the type checkers of one tier over those of another.
pub fn merge_checker_map(
    base: &mut Option<TextMap<RawChecker>>,
    override_map: Option<TextMap<RawChecker>>,
)
    ensures
        final(base).deep_view() == map_merged(old(base).deep_view(), override_map.deep_view()),
{
    merge_map(base, override_map);
}

/// `list` with the texts of `more` appended that it does not hold yet, except a barred one.
pub open spec fn appended(
    list: Seq<Seq<char>>,
    more: Seq<Seq<char>>,
    barred: Option<Seq<char>>,
) -> Seq<Seq<char>>
    decreases more.len(),
{
    if more.len() == 0 {
        list
    } else {
        let before = appended(list, more.drop_last(), barred);
        if before.contains(more.last()) || barred == Some(more.last()) {
            before
        } else {
            before.push(more.last())
        }
    }
}

fn append_new(list: &mut Vec<String>, more: &Vec<String>, barred: Option<&str>)
    ensures
        final(list).deep_view() == appended(
            old(list).deep_view(),
            more.deep_view(),
            barred.deep_view(),
        ),
{
    let ghost start = list.deep_view();
    let ghost model = more.deep_view();
    let mut i: usize = 0;
    assert(model.take(0) =~= Seq::empty());
    while i < more.len()
        invariant
            i <= more.len(),
            model == more.deep_view(),
            list.deep_view() == appended(start, model.take(i as int), barred.deep_view()),
        decreases more.len() - i,
    {
        proof {
            assert(model[i as int] == more@[i as int]@);
            assert(model.take(i + 1).drop_last() =~= model.take(i as int));
            assert(model.take(i + 1).last() == model[i as int]);
        }
        let item = more[i].as_str();
        let is_barred = match barred {
            Some(name) => text::same_text(name, item),
            None => false,
        };
        if !is_barred && !text::list_contains(list, item) {
            let ghost before = list.deep_view();
            list.push(more[i].clone());
            assert(list.deep_view() =~= before.push(model[i as int]));
        }
        i = i + 1;
    }
    assert(model.take(model.len() as int) =~= model);
}

/// The tools that both tiers disable, each once and in order; a project cannot disable
/// `aft_safety`.
pub open spec fn disabled_tools_merged(
    base: Option<Seq<Seq<char>>>,
    over: Option<Seq<Seq<char>>>,
) -> Option<Seq<Seq<char>>> {
    match over {
        None => base,
        Some(over) => {
            let kept = appended(Seq::empty(), or_value(base, Seq::empty()), None);
            let merged = appended(kept, over, Some("aft_safety"@));
            if merged.len() > 0 {
                Some(merged)
            } else {
                base
            }
        },
    }
}

/// Adds the tools that a project disables.
pub fn merge_disabled_tools(base: &mut Option<Vec<String>>, override_tools: Option<Vec<String>>)
    ensures
        final(base).deep_view() == disabled_tools_merged(
            old(base).deep_view(),
            override_tools.deep_view(),
        ),
{
    let over = match override_tools {
        Some(over) => over,
        None => {
            return ;
        },
    };
    let mut merged: Vec<String> = Vec::new();
    assert(merged.deep_view() =~= Seq::<Seq<char>>::empty());
    match base {
        Some(tools) => {
            append_new(&mut merged, tools, None);
        },
        None => {},
    }
    append_new(&mut merged, &over, Some("aft_safety"));
    assert(merged.deep_view().len() == merged@.len());
    if merged.len() > 0 {
        *base = Some(merged);
    }
}

/// The semantic section after a project: it may choose the model and the budgets of background
/// work, not the backend, its endpoint, its credentials or the interactive budget.
pub open spec fn semantic_merged(
    base: Option<RawSemanticView>,
    over: Option<RawSemanticView>,
) -> Option<RawSemanticView> {
    let start = or_value(base, raw::unset_semantic());
    let project = or_value(over, raw::unset_semantic());
    let merged = RawSemanticView {
        model: or_else(project.model, start.model),
        timeout_ms: or_else(project.timeout_ms, start.timeout_ms),
        max_batch_size: or_else(project.max_batch_size, start.max_batch_size),
        max_files: or_else(project.max_files, start.max_files),
        ..start
    };
    if raw::empty_semantic(merged) {
        None
    } else {
        Some(merged)
    }
}

/// Merges the semantic section of a project.
pub fn merge_semantic_config(
    base: Option<RawSemantic>,
    override_semantic: Option<RawSemantic>,
) -> (out: Option<RawSemantic>)
    ensures
        out.deep_view() == semantic_merged(base.deep_view(), override_semantic.deep_view()),
{
    let start = match base {
        Some(start) => start,
        None => RawSemantic::default(),
    };
    let project = match override_semantic {
        Some(project) => project,
        None => RawSemantic::default(),
    };
    let merged = RawSemantic {
        backend: start.backend,
        model: or(project.model, start.model),
        base_url: start.base_url,
        api_key_env: start.api_key_env,
        timeout_ms: or(project.timeout_ms, start.timeout_ms),
        query_timeout_ms: start.query_timeout_ms,
        max_batch_size: or(project.max_batch_size, start.max_batch_size),
        max_files: or(project.max_files, start.max_files),
    };
    if merged.is_empty() {
        None
    } else {
        Some(merged)
    }
}

/// The language server section after a project: it may choose the Python server and whether
/// diagnostics follow edits, not which binaries run.
pub open spec fn lsp_merged(base: Option<RawLspView>, over: Option<RawLspView>) -> Option<
    RawLspView,
> {
    let start = or_value(base, raw::unset_lsp());
    let project = or_value(over, raw::unset_lsp());
    let merged = RawLspView {
        python: or_else(project.python, start.python),
        diagnostics_on_edit: or_else(project.diagnostics_on_edit, start.diagnostics_on_edit),
        ..start
    };
    if raw::empty_lsp(merged) {
        None
    } else {
        Some(merged)
    }
}

/// Merges the language server section of a project.
pub fn merge_lsp_config(base: Option<RawLsp>, override_lsp: Option<RawLsp>) -> (out: Option<RawLsp>)
    ensures
        out.deep_view() == lsp_merged(base.deep_view(), override_lsp.deep_view()),
{
    let start = match base {
        Some(start) => start,
        None => RawLsp::default(),
    };
    let project = match override_lsp {
        Some(project) => project,
        None => RawLsp::default(),
    };
    let merged = RawLsp {
        servers: start.servers,
        disabled: start.disabled,
        python: or(project.python, start.python),
        diagnostics_on_edit: or(project.diagnostics_on_edit, start.diagnostics_on_edit),
        auto_install: start.auto_install,
        grace_days: start.grace_days,
        versions: start.versions,
    };
    if merged.is_empty() {
        None
    } else {
        Some(merged)
    }
}

pub open spec fn experimental_bash_merged(
    base: Option<RawExperimentalBash>,
    over: Option<RawExperimentalBash>,
) -> Option<RawExperimentalBash> {
    match over {
        None => base,
        Some(over) => {
            let start = or_value(base, raw::unset_experimental_bash());
            let merged = RawExperimentalBash {
                rewrite: or_else(over.rewrite, start.rewrite),
                compress: or_else(over.compress, start.compress),
                background: or_else(over.background, start.background),
                long_running_reminder_enabled: or_else(
                    over.long_running_reminder_enabled,
                    start.long_running_reminder_enabled,
                ),
                long_running_reminder_interval_ms: or_else(
                    over.long_running_reminder_interval_ms,
                    start.long_running_reminder_interval_ms,
                ),
            };
            if raw::any_experimental_bash(merged) {
                Some(merged)
            } else {
                None
            }
        },
    }
}

/// Merges legacy bash flags.
pub fn merge_experimental_bash(
    base: Option<RawExperimentalBash>,
    override_bash: Option<RawExperimentalBash>,
) -> (out: Option<RawExperimentalBash>)
    ensures
        out.deep_view() == experimental_bash_merged(base, override_bash),
{
    let over = match override_bash {
        Some(over) => over,
        None => {
            return base;
        },
    };
    let start = match base {
        Some(start) => start,
        None => RawExperimentalBash::default(),
    };
    let merged = RawExperimentalBash {
        rewrite: or(over.rewrite, start.rewrite),
        compress: or(over.compress, start.compress),
        background: or(over.background, start.background),
        long_running_reminder_enabled: or(
            over.long_running_reminder_enabled,
            start.long_running_reminder_enabled,
        ),
        long_running_reminder_interval_ms: or(
            over.long_running_reminder_interval_ms,
            start.long_running_reminder_interval_ms,
        ),
    };
    if merged.has_any_value() {
        Some(merged)
    } else {
        None
    }
}

pub open spec fn experimental_merged(
    base: Option<RawExperimental>,
    over: Option<RawExperimental>,
) -> Option<RawExperimental> {
    match over {
        None => base,
        Some(over) => {
            let start = or_value(base, raw::unset_experimental());
            let merged = RawExperimental {
                lsp_ty: or_else(over.lsp_ty, start.lsp_ty),
                bash: experimental_bash_merged(start.bash, over.bash),
            };
            if raw::empty_experimental(merged) {
                None
            } else {
                Some(merged)
            }
        },
    }
}

/// Merges the legacy experimental section.
pub fn merge_experimental_config(
    base: Option<RawExperimental>,
    override_experimental: Option<RawExperimental>,
) -> (out: Option<RawExperimental>)
    ensures
        out.deep_view() == experimental_merged(base, override_experimental),
{
    let over = match override_experimental {
        Some(over) => over,
        None => {
            return base;
        },
    };
    let start = match base {
        Some(start) => start,
        None => RawExperimental::default(),
    };
    let merged = RawExperimental {
        bash: merge_experimental_bash(start.bash, over.bash),
        lsp_ty: or(over.lsp_ty, start.lsp_ty),
    };
    if merged.is_empty() {
        None
    } else {
        Some(merged)
    }
}

/// The bash section as features: a switch stands for the three feature flags.
pub open spec fn bash_expanded(value: RawBash) -> RawBashFeatures {
    match value {
        RawBash::Bool(enabled) => RawBashFeatures {
            rewrite: Some(enabled),
            compress: Some(enabled),
            background: Some(enabled),
            ..raw::unset_bash_features()
        },
        RawBash::Features(features) => features,
    }
}

/// Writes the bash section as features.
pub fn expand_bash_for_merge(value: &RawBash) -> (out: RawBashFeatures)
    ensures
        out == bash_expanded(*value),
{
    match value {
        RawBash::Bool(enabled) => RawBashFeatures {
            rewrite: Some(*enabled),
            compress: Some(*enabled),
            background: Some(*enabled),
            host_fallback: None,
            subagent_background: None,
            detach_on_user_message: None,
            long_running_reminder_enabled: None,
            long_running_reminder_interval_ms: None,
            foreground_wait_window_ms: None,
            powershell_tool: None,
        },
        RawBash::Features(features) => *features,
    }
}

pub open spec fn bash_merged(base: Option<RawBash>, over: Option<RawBash>) -> Option<RawBash> {
    match (base, over) {
        (Some(base), Some(over)) => {
            let start = bash_expanded(base);
            let over = bash_expanded(over);
            Some(
                RawBash::Features(
                    RawBashFeatures {
                        rewrite: or_else(over.rewrite, start.rewrite),
                        compress: or_else(over.compress, start.compress),
                        background: or_else(over.background, start.background),
                        host_fallback: or_else(over.host_fallback, start.host_fallback),
                        subagent_background: or_else(
                            over.subagent_background,
                            start.subagent_background,
                        ),
                        detach_on_user_message: or_else(
                            over.detach_on_user_message,
                            start.detach_on_user_message,
                        ),
                        long_running_reminder_enabled: or_else(
                            over.long_running_reminder_enabled,
                            start.long_running_reminder_enabled,
                        ),
                        long_running_reminder_interval_ms: or_else(
                            over.long_running_reminder_interval_ms,
                            start.long_running_reminder_interval_ms,
                        ),
                        foreground_wait_window_ms: or_else(
                            over.foreground_wait_window_ms,
                            start.foreground_wait_window_ms,
                        ),
                        powershell_tool: or_else(over.powershell_tool, start.powershell_tool),
                    },
                ),
            )
        },
        _ => or_else(over, base),
    }
}

/// Merges the bash section.
pub fn merge_bash_config(base: Option<RawBash>, override_bash: Option<RawBash>) -> (out: Option<
    RawBash,
>)
    ensures
        out == bash_merged(base, override_bash),
{
    match (base, override_bash) {
        (Some(base), Some(over)) => {
            let start = expand_bash_for_merge(&base);
            let over = expand_bash_for_merge(&over);
            Some(
                RawBash::Features(
                    RawBashFeatures {
                        rewrite: or(over.rewrite, start.rewrite),
                        compress: or(over.compress, start.compress),
                        background: or(over.background, start.background),
                        host_fallback: or(over.host_fallback, start.host_fallback),
                        subagent_background: or(
                            over.subagent_background,
                            start.subagent_background,
                        ),
                        detach_on_user_message: or(
                            over.detach_on_user_message,
                            start.detach_on_user_message,
                        ),
                        long_running_reminder_enabled: or(
                            over.long_running_reminder_enabled,
                            start.long_running_reminder_enabled,
                        ),
                        long_running_reminder_interval_ms: or(
                            over.long_running_reminder_interval_ms,
                            start.long_running_reminder_interval_ms,
                        ),
                        foreground_wait_window_ms: or(
                            over.foreground_wait_window_ms,
                            start.foreground_wait_window_ms,
                        ),
                        powershell_tool: or(over.powershell_tool, start.powershell_tool),
                    },
                ),
            )
        },
        (base, over) => {
            reveal(or_else);
            or(over, base)
        },
    }
}

pub open spec fn duplicates_merged(
    base: Option<RawInspectDuplicatesView>,
    over: Option<RawInspectDuplicatesView>,
) -> Option<RawInspectDuplicatesView> {
    match over {
        None => base,
        Some(over) => {
            let start = or_value(base, raw::unset_inspect_duplicates());
            let mirrors = or_else(over.expected_mirrors, start.expected_mirrors);
            if mirrors is None {
                None
            } else {
                Some(RawInspectDuplicatesView { expected_mirrors: mirrors })
            }
        },
    }
}

/// Merges duplicate detection settings.
pub fn merge_inspect_duplicates(
    base: Option<RawInspectDuplicates>,
    override_duplicates: Option<RawInspectDuplicates>,
) -> (out: Option<RawInspectDuplicates>)
    ensures
        out.deep_view() == duplicates_merged(base.deep_view(), override_duplicates.deep_view()),
{
    let over = match override_duplicates {
        Some(over) => over,
        None => {
            return base;
        },
    };
    let start = match base {
        Some(start) => start,
        None => RawInspectDuplicates::default(),
    };
    let merged = RawInspectDuplicates {
        expected_mirrors: or(over.expected_mirrors, start.expected_mirrors),
    };
    if merged.is_empty() {
        None
    } else {
        Some(merged)
    }
}

/// The diagnostics deadline after a project: it may ask for more time than the user's effective
/// deadline, never for less.
pub open spec fn timeout_raised(base: Option<u64>, project: Option<u64>) -> Option<u64> {
    match project {
        None => base,
        Some(project) => {
            let user = or_value(base, DEFAULT_INSPECT_DIAGNOSTICS_TIMEOUT_MS);
            Some(
                if project > user {
                    project
                } else {
                    user
                },
            )
        },
    }
}

pub open spec fn inspect_merged(
    base: Option<RawInspectView>,
    over: Option<RawInspectView>,
) -> Option<RawInspectView> {
    match over {
        None => base,
        Some(over) => {
            let start = or_value(base, raw::unset_inspect());
            let merged = RawInspectView {
                enabled: or_else(over.enabled, start.enabled),
                diagnostics_timeout_ms: timeout_raised(
                    start.diagnostics_timeout_ms,
                    over.diagnostics_timeout_ms,
                ),
                tier2_idle_minutes: or_else(over.tier2_idle_minutes, start.tier2_idle_minutes),
                categories: or_else(over.categories, start.categories),
                tier2_soft_deadline_ms: or_else(
                    over.tier2_soft_deadline_ms,
                    start.tier2_soft_deadline_ms,
                ),
                max_drill_down_items: or_else(
                    over.max_drill_down_items,
                    start.max_drill_down_items,
                ),
                duplicates: duplicates_merged(start.duplicates, over.duplicates),
            };
            if raw::empty_inspect(merged) {
                None
            } else {
                Some(merged)
            }
        },
    }
}

/// Merges the inspection section of a project.
pub fn merge_inspect_config(
    base: Option<RawInspect>,
    override_inspect: Option<RawInspect>,
) -> (out: Option<RawInspect>)
    ensures
        out.deep_view() == inspect_merged(base.deep_view(), override_inspect.deep_view()),
{
    let over = match override_inspect {
        Some(over) => over,
        None => {
            return base;
        },
    };
    let start = match base {
        Some(start) => start,
        None => RawInspect::default(),
    };
    let diagnostics_timeout_ms = match over.diagnostics_timeout_ms {
        None => start.diagnostics_timeout_ms,
        Some(project) => {
            let user: u64 = match start.diagnostics_timeout_ms {
                Some(user) => user,
                None => DEFAULT_INSPECT_DIAGNOSTICS_TIMEOUT_MS,
            };
            Some(
                if project > user {
                    project
                } else {
                    user
                },
            )
        },
    };
    let merged = RawInspect {
        enabled: or(over.enabled, start.enabled),
        diagnostics_timeout_ms,
        tier2_idle_minutes: or(over.tier2_idle_minutes, start.tier2_idle_minutes),
        categories: or(over.categories, start.categories),
        tier2_soft_deadline_ms: or(over.tier2_soft_deadline_ms, start.tier2_soft_deadline_ms),
        max_drill_down_items: or(over.max_drill_down_items, start.max_drill_down_items),
        duplicates: merge_inspect_duplicates(start.duplicates, over.duplicates),
    };
    if merged.is_empty() {
        None
    } else {
        Some(merged)
    }
}

pub open spec fn worktree_merged(base: Option<RawWorktree>, over: Option<RawWorktree>) -> Option<
    RawWorktree,
> {
    match over {
        None => base,
        Some(over) => {
            let start = or_value(base, raw::unset_worktree());
            let overlay = or_else(over.ram_overlay, start.ram_overlay);
            if overlay is None {
                None
            } else {
                Some(RawWorktree { ram_overlay: overlay })
            }
        },
    }
}

/// Merges the linked-worktree section.
pub fn merge_worktree_config(
    base: Option<RawWorktree>,
    override_worktree: Option<RawWorktree>,
) -> (out: Option<RawWorktree>)
    ensures
        out.deep_view() == worktree_merged(base, override_worktree),
{
    let over = match override_worktree {
        Some(over) => over,
        None => {
            return base;
        },
    };
    let start = match base {
        Some(start) => start,
        None => RawWorktree::default(),
    };
    let merged = RawWorktree { ram_overlay: or(over.ram_overlay, start.ram_overlay) };
    if merged.is_empty() {
        None
    } else {
        Some(merged)
    }
}

/// `list` with the paths of `more` appended that it does not hold yet.
pub open spec fn paths_appended(
    platform: Platform,
    list: Seq<Seq<char>>,
    more: Seq<Seq<char>>,
) -> Seq<Seq<char>>
    decreases more.len(),
{
    if more.len() == 0 {
        list
    } else {
        let before = paths_appended(platform, list, more.drop_last());
        if path_set::has_path(platform, before, more.last()) {
            before
        } else {
            before.push(more.last())
        }
    }
}

fn append_new_paths(platform: Platform, list: &mut Vec<String>, more: &Vec<String>)
    ensures
        final(list).deep_view() == paths_appended(platform, old(list).deep_view(), more.deep_view()),
{
    let ghost start = list.deep_view();
    let ghost model = more.deep_view();
    let mut i: usize = 0;
    assert(model.take(0) =~= Seq::empty());
    while i < more.len()
        invariant
            i <= more.len(),
            model == more.deep_view(),
            list.deep_view() == paths_appended(platform, start, model.take(i as int)),
        decreases more.len() - i,
    {
        proof {
            assert(model[i as int] == more@[i as int]@);
            assert(model.take(i + 1).drop_last() =~= model.take(i as int));
            assert(model.take(i + 1).last() == model[i as int]);
        }
        if !path_set::holds_path(platform, list, more[i].as_str()) {
            let ghost before = list.deep_view();
            list.push(more[i].clone());
            assert(list.deep_view() =~= before.push(model[i as int]));
        }
        i = i + 1;
    }
    assert(model.take(model.len() as int) =~= model);
}

/// The sandbox section after a project: it may switch the sandbox on and deny more reads; it can
/// neither switch the sandbox off nor allow writes.
pub open spec fn sandbox_merged(
    platform: Platform,
    base: Option<RawSandboxView>,
    project: Option<RawSandboxView>,
) -> Option<RawSandboxView> {
    match project {
        None => base,
        Some(project) => {
            let start = or_value(base, raw::unset_sandbox());
            let merged = RawSandboxView {
                enabled: if project.enabled == Some(true) {
                    Some(true)
                } else {
                    start.enabled
                },
                write_allow: start.write_allow,
                read_deny: match project.read_deny {
                    Some(denies) => Some(
                        paths_appended(platform, or_value(start.read_deny, Seq::empty()), denies),
                    ),
                    None => start.read_deny,
                },
            };
            if merged.enabled is Some || merged.write_allow is Some || merged.read_deny is Some {
                Some(merged)
            } else {
                None
            }
        },
    }
}

/// Merges the sandbox section of a project.
pub fn merge_project_sandbox(
    platform: Platform,
    base: Option<RawSandbox>,
    project: Option<RawSandbox>,
) -> (out: Option<RawSandbox>)
    ensures
        out.deep_view() == sandbox_merged(platform, base.deep_view(), project.deep_view()),
{
    let project = match project {
        Some(project) => project,
        None => {
            return base;
        },
    };
    let start = match base {
        Some(start) => start,
        None => RawSandbox::default(),
    };
    let read_deny = match project.read_deny {
        Some(more) => {
            let mut denies = match start.read_deny {
                Some(denies) => denies,
                None => {
                    let none: Vec<String> = Vec::new();
                    assert(none.deep_view() =~= Seq::<Seq<char>>::empty());
                    none
                },
            };
            append_new_paths(platform, &mut denies, &more);
            Some(denies)
        },
        None => start.read_deny,
    };
    let enabled = match project.enabled {
        Some(true) => Some(true),
        _ => start.enabled,
    };
    let merged = RawSandbox { enabled, write_allow: start.write_allow, read_deny };
    if merged.enabled.is_some() || merged.write_allow.is_some() || merged.read_deny.is_some() {
        Some(merged)
    } else {
        None
    }
}

/// A trusted document laid over another: what it sets wins.
pub open spec fn trusted(base: RawAftConfigView, over: RawAftConfigView) -> RawAftConfigView {
    RawAftConfigView {
        schema: or_else(over.schema, base.schema),
        enabled: or_else(over.enabled, base.enabled),
        edit_mode: or_else(over.edit_mode, base.edit_mode),
        format_on_edit: or_else(over.format_on_edit, base.format_on_edit),
        formatter_timeout_secs: or_else(over.formatter_timeout_secs, base.formatter_timeout_secs),
        type_checker_timeout_secs: or_else(over.type_checker_timeout_secs, base.type_checker_timeout_secs),
        validate_on_edit: or_else(over.validate_on_edit, base.validate_on_edit),
        formatter: or_else(over.formatter, base.formatter),
        checker: or_else(over.checker, base.checker),
        configure_warnings_delivery: or_else(over.configure_warnings_delivery, base.configure_warnings_delivery),
        hoist_builtin_tools: or_else(over.hoist_builtin_tools, base.hoist_builtin_tools),
        tool_surface: or_else(over.tool_surface, base.tool_surface),
        disabled_tools: or_else(over.disabled_tools, base.disabled_tools),
        restrict_to_project_root: or_else(over.restrict_to_project_root, base.restrict_to_project_root),
        search_index: or_else(over.search_index, base.search_index),
        index: or_else(over.index, base.index),
        memory: or_else(over.memory, base.memory),
        semantic_search: or_else(over.semantic_search, base.semantic_search),
        callgraph_store: or_else(over.callgraph_store, base.callgraph_store),
        callgraph_chunk_size: or_else(over.callgraph_chunk_size, base.callgraph_chunk_size),
        inspect: or_else(over.inspect, base.inspect),
        backup: or_else(over.backup, base.backup),
        worktree: or_else(over.worktree, base.worktree),
        gh_shim: or_else(over.gh_shim, base.gh_shim),
        gh_read: or_else(over.gh_read, base.gh_read),
        git: or_else(over.git, base.git),
        sandbox: or_else(over.sandbox, base.sandbox),
        bash: or_else(over.bash, base.bash),
        experimental: or_else(over.experimental, base.experimental),
        lsp: or_else(over.lsp, base.lsp),
        url_fetch_allow_private: or_else(over.url_fetch_allow_private, base.url_fetch_allow_private),
        semantic: or_else(over.semantic, base.semantic),
        auto_update: or_else(over.auto_update, base.auto_update),
        bridge: or_else(over.bridge, base.bridge),
        subc: or_else(over.subc, base.subc),
        harnesses: or_else(over.harnesses, base.harnesses),
    }
}

/// Lays a trusted document over `base`.
pub fn merge_trusted_config(
    base: RawAftConfig,
    override_config: RawAftConfig,
) -> (out: RawAftConfig)
    ensures
        out.deep_view() == trusted(base.deep_view(), override_config.deep_view()),
{
    RawAftConfig {
        schema: or(override_config.schema, base.schema),
        enabled: or(override_config.enabled, base.enabled),
        edit_mode: or(override_config.edit_mode, base.edit_mode),
        format_on_edit: or(override_config.format_on_edit, base.format_on_edit),
        formatter_timeout_secs: or(override_config.formatter_timeout_secs, base.formatter_timeout_secs),
        type_checker_timeout_secs: or(override_config.type_checker_timeout_secs, base.type_checker_timeout_secs),
        validate_on_edit: or(override_config.validate_on_edit, base.validate_on_edit),
        formatter: or(override_config.formatter, base.formatter),
        checker: or(override_config.checker, base.checker),
        configure_warnings_delivery: or(override_config.configure_warnings_delivery, base.configure_warnings_delivery),
        hoist_builtin_tools: or(override_config.hoist_builtin_tools, base.hoist_builtin_tools),
        tool_surface: or(override_config.tool_surface, base.tool_surface),
        disabled_tools: or(override_config.disabled_tools, base.disabled_tools),
        restrict_to_project_root: or(override_config.restrict_to_project_root, base.restrict_to_project_root),
        search_index: or(override_config.search_index, base.search_index),
        index: or(override_config.index, base.index),
        memory: or(override_config.memory, base.memory),
        semantic_search: or(override_config.semantic_search, base.semantic_search),
        callgraph_store: or(override_config.callgraph_store, base.callgraph_store),
        callgraph_chunk_size: or(override_config.callgraph_chunk_size, base.callgraph_chunk_size),
        inspect: or(override_config.inspect, base.inspect),
        backup: or(override_config.backup, base.backup),
        worktree: or(override_config.worktree, base.worktree),
        gh_shim: or(override_config.gh_shim, base.gh_shim),
        gh_read: or(override_config.gh_read, base.gh_read),
        git: or(override_config.git, base.git),
        sandbox: or(override_config.sandbox, base.sandbox),
        bash: or(override_config.bash, base.bash),
        experimental: or(override_config.experimental, base.experimental),
        lsp: or(override_config.lsp, base.lsp),
        url_fetch_allow_private: or(override_config.url_fetch_allow_private, base.url_fetch_allow_private),
        semantic: or(override_config.semantic, base.semantic),
        auto_update: or(override_config.auto_update, base.auto_update),
        bridge: or(override_config.bridge, base.bridge),
        subc: or(override_config.subc, base.subc),
        harnesses: or(override_config.harnesses, base.harnesses),
    }
}

/// A project document laid over what the tiers before it gave: fields that are safe for a
/// project win, sections are merged field by field, and everything else stays as it was.
pub open spec fn project_laid(
    platform: Platform,
    base: RawAftConfigView,
    project: RawAftConfigView,
) -> RawAftConfigView {
    RawAftConfigView {
        enabled: or_else(project.enabled, base.enabled),
        edit_mode: or_else(project.edit_mode, base.edit_mode),
        format_on_edit: or_else(project.format_on_edit, base.format_on_edit),
        validate_on_edit: or_else(project.validate_on_edit, base.validate_on_edit),
        configure_warnings_delivery: or_else(project.configure_warnings_delivery, base.configure_warnings_delivery),
        hoist_builtin_tools: or_else(project.hoist_builtin_tools, base.hoist_builtin_tools),
        tool_surface: or_else(project.tool_surface, base.tool_surface),
        search_index: or_else(project.search_index, base.search_index),
        semantic_search: or_else(project.semantic_search, base.semantic_search),
        callgraph_store: or_else(project.callgraph_store, base.callgraph_store),
        callgraph_chunk_size: or_else(project.callgraph_chunk_size, base.callgraph_chunk_size),
        git: or_else(project.git, base.git),
        formatter: map_merged(base.formatter, project.formatter),
        checker: map_merged(base.checker, project.checker),
        disabled_tools: disabled_tools_merged(base.disabled_tools, project.disabled_tools),
        semantic: semantic_merged(base.semantic, project.semantic),
        lsp: lsp_merged(base.lsp, project.lsp),
        experimental: experimental_merged(base.experimental, project.experimental),
        bash: bash_merged(base.bash, project.bash),
        inspect: inspect_merged(base.inspect, project.inspect),
        worktree: worktree_merged(base.worktree, project.worktree),
        sandbox: sandbox_merged(platform, base.sandbox, project.sandbox),
        ..base
    }
}

/// Lays a project document over `base`.
pub fn merge_project_config(
    platform: Platform,
    base: RawAftConfig,
    project: RawAftConfig,
) -> (out: RawAftConfig)
    ensures
        out.deep_view() == project_laid(platform, base.deep_view(), project.deep_view()),
{
    let mut formatter = base.formatter;
    merge_formatter_map(&mut formatter, project.formatter);
    let mut checker = base.checker;
    merge_checker_map(&mut checker, project.checker);
    let mut disabled_tools = base.disabled_tools;
    merge_disabled_tools(&mut disabled_tools, project.disabled_tools);
    RawAftConfig {
        schema: base.schema,
        enabled: or(project.enabled, base.enabled),
        edit_mode: or(project.edit_mode, base.edit_mode),
        format_on_edit: or(project.format_on_edit, base.format_on_edit),
        formatter_timeout_secs: base.formatter_timeout_secs,
        type_checker_timeout_secs: base.type_checker_timeout_secs,
        validate_on_edit: or(project.validate_on_edit, base.validate_on_edit),
        formatter,
        checker,
        configure_warnings_delivery: or(project.configure_warnings_delivery, base.configure_warnings_delivery),
        hoist_builtin_tools: or(project.hoist_builtin_tools, base.hoist_builtin_tools),
        tool_surface: or(project.tool_surface, base.tool_surface),
        disabled_tools,
        restrict_to_project_root: base.restrict_to_project_root,
        search_index: or(project.search_index, base.search_index),
        index: base.index,
        memory: base.memory,
        semantic_search: or(project.semantic_search, base.semantic_search),
        callgraph_store: or(project.callgraph_store, base.callgraph_store),
        callgraph_chunk_size: or(project.callgraph_chunk_size, base.callgraph_chunk_size),
        inspect: merge_inspect_config(base.inspect, project.inspect),
        backup: base.backup,
        worktree: merge_worktree_config(base.worktree, project.worktree),
        gh_shim: base.gh_shim,
        gh_read: base.gh_read,
        git: or(project.git, base.git),
        sandbox: merge_project_sandbox(platform, base.sandbox, project.sandbox),
        bash: merge_bash_config(base.bash, project.bash),
        experimental: merge_experimental_config(base.experimental, project.experimental),
        lsp: merge_lsp_config(base.lsp, project.lsp),
        url_fetch_allow_private: base.url_fetch_allow_private,
        semantic: merge_semantic_config(base.semantic, project.semantic),
        auto_update: base.auto_update,
        bridge: base.bridge,
        subc: base.subc,
        harnesses: base.harnesses,
    }
}

pub const USER_ONLY_REASON: &'static str =
    "security: this setting only honors user-level config and project values are ignored";

pub const SEMANTIC_SECRET_REASON: &'static str =
    "security: semantic backend credentials and endpoints must come from user-level config";

pub const LSP_USER_ONLY_REASON: &'static str =
    "security: LSP executable-origin and diagnostic-suppression settings must come from user-level config";

/// A key that was ignored at the trust boundary between user and project.
#[derive(Debug, PartialEq, Eq)]
pub struct DroppedKey {
    pub key: String,
    pub tier: String,
    pub reason: String,
}

/// The model of [`DroppedKey`].
pub struct DroppedKeyView {
    pub key: Seq<char>,
    pub tier: Seq<char>,
    pub reason: Seq<char>,
}

impl DeepView for DroppedKey {
    type V = DroppedKeyView;

    open spec fn deep_view(&self) -> DroppedKeyView {
        DroppedKeyView {
            key: self.key.deep_view(),
            tier: self.tier.deep_view(),
            reason: self.reason.deep_view(),
        }
    }
}


/// Appends one dropped key.
pub fn push_drop(dropped: &mut Vec<DroppedKey>, key: &str, tier: &str, reason: &str)
    ensures
        final(dropped).deep_view() == old(dropped).deep_view().push(
            DroppedKeyView { key: key@, tier: tier@, reason: reason@ },
        ),
{
    let ghost before = dropped.deep_view();
    dropped.push(
        DroppedKey { key: key.to_owned(), tier: tier.to_owned(), reason: reason.to_owned() },
    );
    assert(dropped.deep_view() =~= before.push(
        DroppedKeyView { key: key@, tier: tier@, reason: reason@ },
    ));
}

/// `dropped`, with a key added where it was set.
#[verifier::opaque]
pub open spec fn drop_noted(
    dropped: Seq<DroppedKeyView>,
    set: bool,
    key: Seq<char>,
    tier: Seq<char>,
    reason: Seq<char>,
) -> Seq<DroppedKeyView> {
    if set {
        dropped.push(DroppedKeyView { key, tier, reason })
    } else {
        dropped
    }
}

fn note_drop(dropped: &mut Vec<DroppedKey>, set: bool, key: &str, tier: &str, reason: &str)
    ensures
        final(dropped).deep_view() == drop_noted(
            old(dropped).deep_view(),
            set,
            key@,
            tier@,
            reason@,
        ),
{
    reveal(drop_noted);
    if set {
        push_drop(dropped, key, tier, reason);
    }
}

/// The drops of whole sections and top-level switches.
pub open spec fn shared_drops(
    raw: RawAftConfigView,
    tier: Seq<char>,
    dropped: Seq<DroppedKeyView>,
) -> Seq<DroppedKeyView> {
    let dropped = drop_noted(dropped, raw.restrict_to_project_root is Some, "restrict_to_project_root"@, tier, USER_ONLY_REASON@);
    let dropped = drop_noted(dropped, raw.url_fetch_allow_private is Some, "url_fetch_allow_private"@, tier, USER_ONLY_REASON@);
    let dropped = drop_noted(dropped, raw.formatter_timeout_secs is Some, "formatter_timeout_secs"@, tier, USER_ONLY_REASON@);
    let dropped = drop_noted(dropped, raw.type_checker_timeout_secs is Some, "type_checker_timeout_secs"@, tier, USER_ONLY_REASON@);
    let dropped = drop_noted(dropped, raw.auto_update is Some, "auto_update"@, tier, USER_ONLY_REASON@);
    let dropped = drop_noted(dropped, raw.bridge is Some, "bridge"@, tier, USER_ONLY_REASON@);
    let dropped = drop_noted(dropped, raw.subc is Some, "subc"@, tier, USER_ONLY_REASON@);
    let dropped = drop_noted(dropped, raw.backup is Some, "backup"@, tier, USER_ONLY_REASON@);
    let dropped = drop_noted(dropped, raw.gh_shim is Some, "gh_shim"@, tier, USER_ONLY_REASON@);
    let dropped = drop_noted(dropped, raw.gh_read is Some, "gh_read"@, tier, USER_ONLY_REASON@);
    dropped
}

fn record_shared_drops(raw: &RawAftConfig, tier: &str, dropped: &mut Vec<DroppedKey>)
    ensures
        final(dropped).deep_view() == shared_drops(raw.deep_view(), tier@, old(dropped).deep_view()),
{
    note_drop(dropped, raw.restrict_to_project_root.is_some(), "restrict_to_project_root", tier, USER_ONLY_REASON);
    note_drop(dropped, raw.url_fetch_allow_private.is_some(), "url_fetch_allow_private", tier, USER_ONLY_REASON);
    note_drop(dropped, raw.formatter_timeout_secs.is_some(), "formatter_timeout_secs", tier, USER_ONLY_REASON);
    note_drop(dropped, raw.type_checker_timeout_secs.is_some(), "type_checker_timeout_secs", tier, USER_ONLY_REASON);
    note_drop(dropped, raw.auto_update.is_some(), "auto_update", tier, USER_ONLY_REASON);
    note_drop(dropped, raw.bridge.is_some(), "bridge", tier, USER_ONLY_REASON);
    note_drop(dropped, raw.subc.is_some(), "subc", tier, USER_ONLY_REASON);
    note_drop(dropped, raw.backup.is_some(), "backup", tier, USER_ONLY_REASON);
    note_drop(dropped, raw.gh_shim.is_some(), "gh_shim", tier, USER_ONLY_REASON);
    note_drop(dropped, raw.gh_read.is_some(), "gh_read", tier, USER_ONLY_REASON);
}

/// The drops of the index, sandbox and tool settings.
pub open spec fn guarded_drops(
    raw: RawAftConfigView,
    tier: Seq<char>,
    dropped: Seq<DroppedKeyView>,
) -> Seq<DroppedKeyView> {
    let dropped = drop_noted(dropped, raw.index is Some && raw.index->0.roots is Some, "index.roots"@, tier, USER_ONLY_REASON@);
    let dropped = drop_noted(dropped, raw.index is Some && raw.index->0.resource_policy is Some, "index.resource_policy"@, tier, USER_ONLY_REASON@);
    let dropped = drop_noted(dropped, raw.sandbox is Some && raw.sandbox->0.enabled == Some(false), "sandbox.enabled"@, tier, USER_ONLY_REASON@);
    let dropped = drop_noted(dropped, raw.sandbox is Some && raw.sandbox->0.write_allow is Some, "sandbox.write_allow"@, tier, USER_ONLY_REASON@);
    let dropped = drop_noted(dropped, raw.disabled_tools is Some && raw.disabled_tools->0.contains("aft_safety"@), "disabled_tools.aft_safety"@, tier, USER_ONLY_REASON@);
    dropped
}

fn record_guarded_drops(raw: &RawAftConfig, tier: &str, dropped: &mut Vec<DroppedKey>)
    ensures
        final(dropped).deep_view() == guarded_drops(raw.deep_view(), tier@, old(dropped).deep_view()),
{
    note_drop(dropped, match &raw.index {
        Some(section) => section.roots.is_some(),
        None => false,
    }, "index.roots", tier, USER_ONLY_REASON);
    note_drop(dropped, match &raw.index {
        Some(section) => section.resource_policy.is_some(),
        None => false,
    }, "index.resource_policy", tier, USER_ONLY_REASON);
    note_drop(dropped, match &raw.sandbox {
        Some(section) => section.enabled == Some(false),
        None => false,
    }, "sandbox.enabled", tier, USER_ONLY_REASON);
    note_drop(dropped, match &raw.sandbox {
        Some(section) => section.write_allow.is_some(),
        None => false,
    }, "sandbox.write_allow", tier, USER_ONLY_REASON);
    note_drop(dropped, match &raw.disabled_tools {
        Some(tools) => text::list_contains(tools, "aft_safety"),
        None => false,
    }, "disabled_tools.aft_safety", tier, USER_ONLY_REASON);
}

/// The drops of the semantic section.
pub open spec fn semantic_drops(
    raw: RawAftConfigView,
    tier: Seq<char>,
    dropped: Seq<DroppedKeyView>,
) -> Seq<DroppedKeyView> {
    let dropped = drop_noted(dropped, raw.semantic is Some && raw.semantic->0.backend is Some, "semantic.backend"@, tier, SEMANTIC_SECRET_REASON@);
    let dropped = drop_noted(dropped, raw.semantic is Some && raw.semantic->0.base_url is Some, "semantic.base_url"@, tier, SEMANTIC_SECRET_REASON@);
    let dropped = drop_noted(dropped, raw.semantic is Some && raw.semantic->0.api_key_env is Some, "semantic.api_key_env"@, tier, SEMANTIC_SECRET_REASON@);
    let dropped = drop_noted(dropped, raw.semantic is Some && raw.semantic->0.query_timeout_ms is Some, "semantic.query_timeout_ms"@, tier, USER_ONLY_REASON@);
    dropped
}

fn record_semantic_drops(raw: &RawAftConfig, tier: &str, dropped: &mut Vec<DroppedKey>)
    ensures
        final(dropped).deep_view() == semantic_drops(raw.deep_view(), tier@, old(dropped).deep_view()),
{
    note_drop(dropped, match &raw.semantic {
        Some(section) => section.backend.is_some(),
        None => false,
    }, "semantic.backend", tier, SEMANTIC_SECRET_REASON);
    note_drop(dropped, match &raw.semantic {
        Some(section) => section.base_url.is_some(),
        None => false,
    }, "semantic.base_url", tier, SEMANTIC_SECRET_REASON);
    note_drop(dropped, match &raw.semantic {
        Some(section) => section.api_key_env.is_some(),
        None => false,
    }, "semantic.api_key_env", tier, SEMANTIC_SECRET_REASON);
    note_drop(dropped, match &raw.semantic {
        Some(section) => section.query_timeout_ms.is_some(),
        None => false,
    }, "semantic.query_timeout_ms", tier, USER_ONLY_REASON);
}

/// The drops of the language server section.
pub open spec fn lsp_drops(
    raw: RawAftConfigView,
    tier: Seq<char>,
    dropped: Seq<DroppedKeyView>,
) -> Seq<DroppedKeyView> {
    let dropped = drop_noted(dropped, raw.lsp is Some && raw.lsp->0.servers is Some, "lsp.servers"@, tier, LSP_USER_ONLY_REASON@);
    let dropped = drop_noted(dropped, raw.lsp is Some && raw.lsp->0.versions is Some, "lsp.versions"@, tier, LSP_USER_ONLY_REASON@);
    let dropped = drop_noted(dropped, raw.lsp is Some && raw.lsp->0.auto_install is Some, "lsp.auto_install"@, tier, LSP_USER_ONLY_REASON@);
    let dropped = drop_noted(dropped, raw.lsp is Some && raw.lsp->0.grace_days is Some, "lsp.grace_days"@, tier, LSP_USER_ONLY_REASON@);
    let dropped = drop_noted(dropped, raw.lsp is Some && raw.lsp->0.disabled is Some, "lsp.disabled"@, tier, LSP_USER_ONLY_REASON@);
    let dropped = drop_noted(dropped, raw.memory is Some, "memory"@, tier, USER_ONLY_REASON@);
    dropped
}

fn record_lsp_drops(raw: &RawAftConfig, tier: &str, dropped: &mut Vec<DroppedKey>)
    ensures
        final(dropped).deep_view() == lsp_drops(raw.deep_view(), tier@, old(dropped).deep_view()),
{
    note_drop(dropped, match &raw.lsp {
        Some(section) => section.servers.is_some(),
        None => false,
    }, "lsp.servers", tier, LSP_USER_ONLY_REASON);
    note_drop(dropped, match &raw.lsp {
        Some(section) => section.versions.is_some(),
        None => false,
    }, "lsp.versions", tier, LSP_USER_ONLY_REASON);
    note_drop(dropped, match &raw.lsp {
        Some(section) => section.auto_install.is_some(),
        None => false,
    }, "lsp.auto_install", tier, LSP_USER_ONLY_REASON);
    note_drop(dropped, match &raw.lsp {
        Some(section) => section.grace_days.is_some(),
        None => false,
    }, "lsp.grace_days", tier, LSP_USER_ONLY_REASON);
    note_drop(dropped, match &raw.lsp {
        Some(section) => section.disabled.is_some(),
        None => false,
    }, "lsp.disabled", tier, LSP_USER_ONLY_REASON);
    note_drop(dropped, raw.memory.is_some(), "memory", tier, USER_ONLY_REASON);
}

/// `dropped` with the keys added that a document sets although its tier may not.
pub open spec fn drops_recorded(
    raw: RawAftConfigView,
    tier: Seq<char>,
    dropped: Seq<DroppedKeyView>,
) -> Seq<DroppedKeyView> {
    let dropped = shared_drops(raw, tier, dropped);
    let dropped = guarded_drops(raw, tier, dropped);
    let dropped = semantic_drops(raw, tier, dropped);
    lsp_drops(raw, tier, dropped)
}

/// Records which keys a document sets although its tier may not.
pub fn record_project_drops(raw: &RawAftConfig, tier: &str, dropped: &mut Vec<DroppedKey>)
    ensures
        final(dropped).deep_view() == drops_recorded(
            raw.deep_view(),
            tier@,
            old(dropped).deep_view(),
        ),
{
    record_shared_drops(raw, tier, dropped);
    record_guarded_drops(raw, tier, dropped);
    record_semantic_drops(raw, tier, dropped);
    record_lsp_drops(raw, tier, dropped);
}

} // verus!
