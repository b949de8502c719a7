//! Laws of reading configuration documents.

use vstd::prelude::*;

use crate::config;
use crate::config::SemanticBackend;
use crate::decode;
use crate::decode::{
    all_keys_are, as_any_usize, as_bridge_timeout_ms, as_co_author, as_drill_down_items,
    as_extensions, as_nonnegative_number, as_optional, as_positive_u64, as_positive_usize,
    as_servers, as_timeout_secs, as_trimmed_text, as_trimmed_texts, as_versions, Decode, field_of,
    is_aft_config_key, is_memory_key,
};
use crate::json::{Json, JsonView};
use crate::raw;
use crate::raw::{
    RawAftConfig, RawBackup, RawBash, RawBashFeatures, RawBridge, RawChecker,
    RawConfigureWarningsDelivery, RawEditMode, RawEditModeView, RawExperimental,
    RawExperimentalBash, RawFormatter, RawGhRead, RawGhShim, RawGit, RawIndex, RawIndexRoot,
    RawInspect, RawInspectDuplicates, RawLsp, RawLspServerEntry, RawMemory, RawPythonLsp,
    RawSandbox, RawSemantic, RawSubc, RawToolSurface, RawValidateOnEdit, RawWorktree,
};
use crate::text;
use crate::text_map;
use crate::text_map::TextMap;

verus! {

/// What stands under a key; nothing counts as null.
pub open spec fn under(entries: Seq<(Seq<char>, JsonView)>, key: Seq<char>) -> JsonView {
    match text_map::map_get(entries, key) {
        Some(field) => field,
        None => JsonView::Null,
    }
}

/// A section on memory can be read exactly where each of its fields can; a field is what stands under
/// its own name, and is unset without.
pub proof fn law_memory_fields_are_read_by_name(entries: Seq<(Seq<char>, JsonView)>)
    ensures
        ({
            let read = RawMemory::decoded(JsonView::Object(entries));
            &&& read is Some <==> {
                &&& forall|i: int| 0 <= i < entries.len() ==> is_memory_key(#[trigger] entries[i].0)
                &&& as_positive_u64(under(entries, "limit_bytes"@)) is Some
            }
            &&& read matches Some(raw) ==> {
                &&& as_positive_u64(under(entries, "limit_bytes"@)) == Some(raw.limit_bytes)
            }
        }),
{
    let known = |key: Seq<char>| is_memory_key(key);
    assert(all_keys_are(JsonView::Object(entries), known) <==> (forall|i: int|
        0 <= i < entries.len() ==> is_memory_key(#[trigger] entries[i].0))) by {
        if all_keys_are(JsonView::Object(entries), known) {
            assert forall|i: int| 0 <= i < entries.len() implies is_memory_key(#[trigger] entries[i].0) by {
                assert(known(entries[i].0));
            }
        }
        if forall|i: int| 0 <= i < entries.len() ==> is_memory_key(#[trigger] entries[i].0) {
            assert forall|i: int| 0 <= i < entries.len() implies known(#[trigger] entries[i].0) by {}
        }
    }
}

/// Written as a list, the section holds its fields in their order; those that the list is too
/// short for are unset.
pub proof fn law_memory_fields_are_read_in_order(items: Seq<JsonView>)
    ensures
        RawMemory::decoded(JsonView::List(items)) is Some ==> items.len() <= 1,
        RawMemory::decoded(JsonView::List(items)) matches Some(raw) ==> {
            &&& items.len() > 0 ==> as_positive_u64(items[0]) == Some(raw.limit_bytes)
            &&& items.len() <= 0 ==> raw.limit_bytes is None
        },
{
}

/// A section on semantic search can be read exactly where each of its fields can; a field is what stands under
/// its own name, and is unset without.
pub proof fn law_semantic_fields_are_read_by_name(entries: Seq<(Seq<char>, JsonView)>)
    ensures
        ({
            let read = RawSemantic::decoded(JsonView::Object(entries));
            &&& read is Some <==> {
                &&& as_optional::<SemanticBackend>(under(entries, "backend"@)) is Some
                &&& as_trimmed_text(under(entries, "model"@)) is Some
                &&& as_trimmed_text(under(entries, "base_url"@)) is Some
                &&& as_trimmed_text(under(entries, "api_key_env"@)) is Some
                &&& as_positive_u64(under(entries, "timeout_ms"@)) is Some
                &&& as_positive_u64(under(entries, "query_timeout_ms"@)) is Some
                &&& as_positive_usize(under(entries, "max_batch_size"@)) is Some
                &&& as_positive_usize(under(entries, "max_files"@)) is Some
            }
            &&& read matches Some(raw) ==> {
                &&& as_optional::<SemanticBackend>(under(entries, "backend"@)) == Some(raw.backend)
                &&& as_trimmed_text(under(entries, "model"@)) == Some(raw.model)
                &&& as_trimmed_text(under(entries, "base_url"@)) == Some(raw.base_url)
                &&& as_trimmed_text(under(entries, "api_key_env"@)) == Some(raw.api_key_env)
                &&& as_positive_u64(under(entries, "timeout_ms"@)) == Some(raw.timeout_ms)
                &&& as_positive_u64(under(entries, "query_timeout_ms"@)) == Some(raw.query_timeout_ms)
                &&& as_positive_usize(under(entries, "max_batch_size"@)) == Some(raw.max_batch_size)
                &&& as_positive_usize(under(entries, "max_files"@)) == Some(raw.max_files)
            }
        }),
{
    reveal(field_of);
}

/// Written as a list, the section holds its fields in their order; those that the list is too
/// short for are unset.
pub proof fn law_semantic_fields_are_read_in_order(items: Seq<JsonView>)
    ensures
        RawSemantic::decoded(JsonView::List(items)) is Some ==> 1 <= items.len() <= 8,
        RawSemantic::decoded(JsonView::List(items)) matches Some(raw) ==> {
            &&& items.len() > 0 ==> as_optional::<SemanticBackend>(items[0]) == Some(raw.backend)
            &&& items.len() > 1 ==> as_trimmed_text(items[1]) == Some(raw.model)
            &&& items.len() <= 1 ==> raw.model is None
            &&& items.len() > 2 ==> as_trimmed_text(items[2]) == Some(raw.base_url)
            &&& items.len() <= 2 ==> raw.base_url is None
            &&& items.len() > 3 ==> as_trimmed_text(items[3]) == Some(raw.api_key_env)
            &&& items.len() <= 3 ==> raw.api_key_env is None
            &&& items.len() > 4 ==> as_positive_u64(items[4]) == Some(raw.timeout_ms)
            &&& items.len() <= 4 ==> raw.timeout_ms is None
            &&& items.len() > 5 ==> as_positive_u64(items[5]) == Some(raw.query_timeout_ms)
            &&& items.len() <= 5 ==> raw.query_timeout_ms is None
            &&& items.len() > 6 ==> as_positive_usize(items[6]) == Some(raw.max_batch_size)
            &&& items.len() <= 6 ==> raw.max_batch_size is None
            &&& items.len() > 7 ==> as_positive_usize(items[7]) == Some(raw.max_files)
            &&& items.len() <= 7 ==> raw.max_files is None
        },
{
    reveal(field_of);
}

/// A section on a language server can be read exactly where each of its fields can; a field is what stands under
/// its own name, and is unset without.
pub proof fn law_lsp_server_entry_fields_are_read_by_name(entries: Seq<(Seq<char>, JsonView)>)
    ensures
        ({
            let read = RawLspServerEntry::decoded(JsonView::Object(entries));
            &&& read is Some <==> {
                &&& as_extensions(under(entries, "extensions"@)) is Some
                &&& as_trimmed_text(under(entries, "binary"@)) is Some
                &&& as_optional::<Vec<String>>(under(entries, "args"@)) is Some
                &&& as_trimmed_texts(under(entries, "root_markers"@)) is Some
                &&& as_optional::<bool>(under(entries, "disabled"@)) is Some
                &&& as_optional::<TextMap<String>>(under(entries, "env"@)) is Some
                &&& as_optional::<Json>(under(entries, "initialization_options"@)) is Some
            }
            &&& read matches Some(raw) ==> {
                &&& as_extensions(under(entries, "extensions"@)) == Some(raw.extensions)
                &&& as_trimmed_text(under(entries, "binary"@)) == Some(raw.binary)
                &&& as_optional::<Vec<String>>(under(entries, "args"@)) == Some(raw.args)
                &&& as_trimmed_texts(under(entries, "root_markers"@)) == Some(raw.root_markers)
                &&& as_optional::<bool>(under(entries, "disabled"@)) == Some(raw.disabled)
                &&& as_optional::<TextMap<String>>(under(entries, "env"@)) == Some(raw.env)
                &&& as_optional::<Json>(under(entries, "initialization_options"@)) == Some(raw.initialization_options)
            }
        }),
{
    reveal(field_of);
}

/// Written as a list, the section holds its fields in their order; those that the list is too
/// short for are unset.
pub proof fn law_lsp_server_entry_fields_are_read_in_order(items: Seq<JsonView>)
    ensures
        RawLspServerEntry::decoded(JsonView::List(items)) is Some ==> items.len() <= 7,
        RawLspServerEntry::decoded(JsonView::List(items)) matches Some(raw) ==> {
            &&& items.len() > 0 ==> as_extensions(items[0]) == Some(raw.extensions)
            &&& items.len() <= 0 ==> raw.extensions is None
            &&& items.len() > 1 ==> as_trimmed_text(items[1]) == Some(raw.binary)
            &&& items.len() <= 1 ==> raw.binary is None
            &&& items.len() > 2 ==> as_optional::<Vec<String>>(items[2]) == Some(raw.args)
            &&& items.len() <= 2 ==> raw.args is None
            &&& items.len() > 3 ==> as_trimmed_texts(items[3]) == Some(raw.root_markers)
            &&& items.len() <= 3 ==> raw.root_markers is None
            &&& items.len() > 4 ==> as_optional::<bool>(items[4]) == Some(raw.disabled)
            &&& items.len() <= 4 ==> raw.disabled is None
            &&& items.len() > 5 ==> as_optional::<TextMap<String>>(items[5]) == Some(raw.env)
            &&& items.len() <= 5 ==> raw.env is None
            &&& items.len() > 6 ==> as_optional::<Json>(items[6]) == Some(raw.initialization_options)
            &&& items.len() <= 6 ==> raw.initialization_options is None
        },
{
    reveal(field_of);
}

/// A section on language servers can be read exactly where each of its fields can; a field is what stands under
/// its own name, and is unset without.
pub proof fn law_lsp_fields_are_read_by_name(entries: Seq<(Seq<char>, JsonView)>)
    ensures
        ({
            let read = RawLsp::decoded(JsonView::Object(entries));
            &&& read is Some <==> {
                &&& as_servers(under(entries, "servers"@)) is Some
                &&& as_trimmed_texts(under(entries, "disabled"@)) is Some
                &&& as_optional::<RawPythonLsp>(under(entries, "python"@)) is Some
                &&& as_optional::<bool>(under(entries, "diagnostics_on_edit"@)) is Some
                &&& as_optional::<bool>(under(entries, "auto_install"@)) is Some
                &&& as_positive_u64(under(entries, "grace_days"@)) is Some
                &&& as_versions(under(entries, "versions"@)) is Some
            }
            &&& read matches Some(raw) ==> {
                &&& as_servers(under(entries, "servers"@)) == Some(raw.servers)
                &&& as_trimmed_texts(under(entries, "disabled"@)) == Some(raw.disabled)
                &&& as_optional::<RawPythonLsp>(under(entries, "python"@)) == Some(raw.python)
                &&& as_optional::<bool>(under(entries, "diagnostics_on_edit"@)) == Some(raw.diagnostics_on_edit)
                &&& as_optional::<bool>(under(entries, "auto_install"@)) == Some(raw.auto_install)
                &&& as_positive_u64(under(entries, "grace_days"@)) == Some(raw.grace_days)
                &&& as_versions(under(entries, "versions"@)) == Some(raw.versions)
            }
        }),
{
    reveal(field_of);
}

/// Written as a list, the section holds its fields in their order; those that the list is too
/// short for are unset.
pub proof fn law_lsp_fields_are_read_in_order(items: Seq<JsonView>)
    ensures
        RawLsp::decoded(JsonView::List(items)) is Some ==> 5 <= items.len() <= 7,
        RawLsp::decoded(JsonView::List(items)) matches Some(raw) ==> {
            &&& items.len() > 0 ==> as_servers(items[0]) == Some(raw.servers)
            &&& items.len() > 1 ==> as_trimmed_texts(items[1]) == Some(raw.disabled)
            &&& items.len() > 2 ==> as_optional::<RawPythonLsp>(items[2]) == Some(raw.python)
            &&& items.len() > 3 ==> as_optional::<bool>(items[3]) == Some(raw.diagnostics_on_edit)
            &&& items.len() > 4 ==> as_optional::<bool>(items[4]) == Some(raw.auto_install)
            &&& items.len() > 5 ==> as_positive_u64(items[5]) == Some(raw.grace_days)
            &&& items.len() <= 5 ==> raw.grace_days is None
            &&& items.len() > 6 ==> as_versions(items[6]) == Some(raw.versions)
            &&& items.len() <= 6 ==> raw.versions is None
        },
{
    reveal(field_of);
}

/// A section on the shell can be read exactly where each of its fields can; a field is what stands under
/// its own name, and is unset without.
pub proof fn law_bash_features_fields_are_read_by_name(entries: Seq<(Seq<char>, JsonView)>)
    ensures
        ({
            let read = RawBashFeatures::decoded(JsonView::Object(entries));
            &&& read is Some <==> {
                &&& as_optional::<bool>(under(entries, "rewrite"@)) is Some
                &&& as_optional::<bool>(under(entries, "compress"@)) is Some
                &&& as_optional::<bool>(under(entries, "background"@)) is Some
                &&& as_optional::<bool>(under(entries, "host_fallback"@)) is Some
                &&& as_optional::<bool>(under(entries, "subagent_background"@)) is Some
                &&& as_optional::<bool>(under(entries, "detach_on_user_message"@)) is Some
                &&& as_optional::<bool>(under(entries, "long_running_reminder_enabled"@)) is Some
                &&& as_positive_u64(under(entries, "long_running_reminder_interval_ms"@)) is Some
                &&& as_positive_u64(under(entries, "foreground_wait_window_ms"@)) is Some
                &&& as_optional::<bool>(under(entries, "powershell_tool"@)) is Some
            }
            &&& read matches Some(raw) ==> {
                &&& as_optional::<bool>(under(entries, "rewrite"@)) == Some(raw.rewrite)
                &&& as_optional::<bool>(under(entries, "compress"@)) == Some(raw.compress)
                &&& as_optional::<bool>(under(entries, "background"@)) == Some(raw.background)
                &&& as_optional::<bool>(under(entries, "host_fallback"@)) == Some(raw.host_fallback)
                &&& as_optional::<bool>(under(entries, "subagent_background"@)) == Some(raw.subagent_background)
                &&& as_optional::<bool>(under(entries, "detach_on_user_message"@)) == Some(raw.detach_on_user_message)
                &&& as_optional::<bool>(under(entries, "long_running_reminder_enabled"@)) == Some(raw.long_running_reminder_enabled)
                &&& as_positive_u64(under(entries, "long_running_reminder_interval_ms"@)) == Some(raw.long_running_reminder_interval_ms)
                &&& as_positive_u64(under(entries, "foreground_wait_window_ms"@)) == Some(raw.foreground_wait_window_ms)
                &&& as_optional::<bool>(under(entries, "powershell_tool"@)) == Some(raw.powershell_tool)
            }
        }),
{
    reveal(field_of);
}

/// Written as a list, the section holds its fields in their order; those that the list is too
/// short for are unset.
pub proof fn law_bash_features_fields_are_read_in_order(items: Seq<JsonView>)
    ensures
        RawBashFeatures::decoded(JsonView::List(items)) is Some ==> items.len() <= 10,
        RawBashFeatures::decoded(JsonView::List(items)) matches Some(raw) ==> {
            &&& items.len() > 0 ==> as_optional::<bool>(items[0]) == Some(raw.rewrite)
            &&& items.len() <= 0 ==> raw.rewrite is None
            &&& items.len() > 1 ==> as_optional::<bool>(items[1]) == Some(raw.compress)
            &&& items.len() <= 1 ==> raw.compress is None
            &&& items.len() > 2 ==> as_optional::<bool>(items[2]) == Some(raw.background)
            &&& items.len() <= 2 ==> raw.background is None
            &&& items.len() > 3 ==> as_optional::<bool>(items[3]) == Some(raw.host_fallback)
            &&& items.len() <= 3 ==> raw.host_fallback is None
            &&& items.len() > 4 ==> as_optional::<bool>(items[4]) == Some(raw.subagent_background)
            &&& items.len() <= 4 ==> raw.subagent_background is None
            &&& items.len() > 5 ==> as_optional::<bool>(items[5]) == Some(raw.detach_on_user_message)
            &&& items.len() <= 5 ==> raw.detach_on_user_message is None
            &&& items.len() > 6 ==> as_optional::<bool>(items[6]) == Some(raw.long_running_reminder_enabled)
            &&& items.len() <= 6 ==> raw.long_running_reminder_enabled is None
            &&& items.len() > 7 ==> as_positive_u64(items[7]) == Some(raw.long_running_reminder_interval_ms)
            &&& items.len() <= 7 ==> raw.long_running_reminder_interval_ms is None
            &&& items.len() > 8 ==> as_positive_u64(items[8]) == Some(raw.foreground_wait_window_ms)
            &&& items.len() <= 8 ==> raw.foreground_wait_window_ms is None
            &&& items.len() > 9 ==> as_optional::<bool>(items[9]) == Some(raw.powershell_tool)
            &&& items.len() <= 9 ==> raw.powershell_tool is None
        },
{
    reveal(field_of);
}

/// A section on the experimental shell can be read exactly where each of its fields can; a field is what stands under
/// its own name, and is unset without.
pub proof fn law_experimental_bash_fields_are_read_by_name(entries: Seq<(Seq<char>, JsonView)>)
    ensures
        ({
            let read = RawExperimentalBash::decoded(JsonView::Object(entries));
            &&& read is Some <==> {
                &&& as_optional::<bool>(under(entries, "rewrite"@)) is Some
                &&& as_optional::<bool>(under(entries, "compress"@)) is Some
                &&& as_optional::<bool>(under(entries, "background"@)) is Some
                &&& as_optional::<bool>(under(entries, "long_running_reminder_enabled"@)) is Some
                &&& as_positive_u64(under(entries, "long_running_reminder_interval_ms"@)) is Some
            }
            &&& read matches Some(raw) ==> {
                &&& as_optional::<bool>(under(entries, "rewrite"@)) == Some(raw.rewrite)
                &&& as_optional::<bool>(under(entries, "compress"@)) == Some(raw.compress)
                &&& as_optional::<bool>(under(entries, "background"@)) == Some(raw.background)
                &&& as_optional::<bool>(under(entries, "long_running_reminder_enabled"@)) == Some(raw.long_running_reminder_enabled)
                &&& as_positive_u64(under(entries, "long_running_reminder_interval_ms"@)) == Some(raw.long_running_reminder_interval_ms)
            }
        }),
{
    reveal(field_of);
}

/// Written as a list, the section holds its fields in their order; those that the list is too
/// short for are unset.
pub proof fn law_experimental_bash_fields_are_read_in_order(items: Seq<JsonView>)
    ensures
        RawExperimentalBash::decoded(JsonView::List(items)) is Some ==> items.len() <= 5,
        RawExperimentalBash::decoded(JsonView::List(items)) matches Some(raw) ==> {
            &&& items.len() > 0 ==> as_optional::<bool>(items[0]) == Some(raw.rewrite)
            &&& items.len() <= 0 ==> raw.rewrite is None
            &&& items.len() > 1 ==> as_optional::<bool>(items[1]) == Some(raw.compress)
            &&& items.len() <= 1 ==> raw.compress is None
            &&& items.len() > 2 ==> as_optional::<bool>(items[2]) == Some(raw.background)
            &&& items.len() <= 2 ==> raw.background is None
            &&& items.len() > 3 ==> as_optional::<bool>(items[3]) == Some(raw.long_running_reminder_enabled)
            &&& items.len() <= 3 ==> raw.long_running_reminder_enabled is None
            &&& items.len() > 4 ==> as_positive_u64(items[4]) == Some(raw.long_running_reminder_interval_ms)
            &&& items.len() <= 4 ==> raw.long_running_reminder_interval_ms is None
        },
{
    reveal(field_of);
}

/// A section on experiments can be read exactly where each of its fields can; a field is what stands under
/// its own name, and is unset without.
pub proof fn law_experimental_fields_are_read_by_name(entries: Seq<(Seq<char>, JsonView)>)
    ensures
        ({
            let read = RawExperimental::decoded(JsonView::Object(entries));
            &&& read is Some <==> {
                &&& as_optional::<RawExperimentalBash>(under(entries, "bash"@)) is Some
                &&& as_optional::<bool>(under(entries, "lsp_ty"@)) is Some
            }
            &&& read matches Some(raw) ==> {
                &&& as_optional::<RawExperimentalBash>(under(entries, "bash"@)) == Some(raw.bash)
                &&& as_optional::<bool>(under(entries, "lsp_ty"@)) == Some(raw.lsp_ty)
            }
        }),
{
    reveal(field_of);
}

/// Written as a list, the section holds its fields in their order; those that the list is too
/// short for are unset.
pub proof fn law_experimental_fields_are_read_in_order(items: Seq<JsonView>)
    ensures
        RawExperimental::decoded(JsonView::List(items)) is Some ==> items.len() <= 2,
        RawExperimental::decoded(JsonView::List(items)) matches Some(raw) ==> {
            &&& items.len() > 0 ==> as_optional::<RawExperimentalBash>(items[0]) == Some(raw.bash)
            &&& items.len() <= 0 ==> raw.bash is None
            &&& items.len() > 1 ==> as_optional::<bool>(items[1]) == Some(raw.lsp_ty)
            &&& items.len() <= 1 ==> raw.lsp_ty is None
        },
{
    reveal(field_of);
}

/// A section on duplicates can be read exactly where each of its fields can; a field is what stands under
/// its own name, and is unset without.
pub proof fn law_inspect_duplicates_fields_are_read_by_name(entries: Seq<(Seq<char>, JsonView)>)
    ensures
        ({
            let read = RawInspectDuplicates::decoded(JsonView::Object(entries));
            &&& read is Some <==> {
                &&& as_optional::<Vec<(String, String)>>(under(entries, "expected_mirrors"@)) is Some
            }
            &&& read matches Some(raw) ==> {
                &&& as_optional::<Vec<(String, String)>>(under(entries, "expected_mirrors"@)) == Some(raw.expected_mirrors)
            }
        }),
{
    reveal(field_of);
}

/// Written as a list, the section holds its fields in their order; those that the list is too
/// short for are unset.
pub proof fn law_inspect_duplicates_fields_are_read_in_order(items: Seq<JsonView>)
    ensures
        RawInspectDuplicates::decoded(JsonView::List(items)) is Some ==> items.len() <= 1,
        RawInspectDuplicates::decoded(JsonView::List(items)) matches Some(raw) ==> {
            &&& items.len() > 0 ==> as_optional::<Vec<(String, String)>>(items[0]) == Some(raw.expected_mirrors)
            &&& items.len() <= 0 ==> raw.expected_mirrors is None
        },
{
    reveal(field_of);
}

/// A section on inspections can be read exactly where each of its fields can; a field is what stands under
/// its own name, and is unset without.
pub proof fn law_inspect_fields_are_read_by_name(entries: Seq<(Seq<char>, JsonView)>)
    ensures
        ({
            let read = RawInspect::decoded(JsonView::Object(entries));
            &&& read is Some <==> {
                &&& as_optional::<bool>(under(entries, "enabled"@)) is Some
                &&& as_positive_u64(under(entries, "diagnostics_timeout_ms"@)) is Some
                &&& as_nonnegative_number(under(entries, "tier2_idle_minutes"@)) is Some
                &&& as_optional::<TextMap<bool>>(under(entries, "categories"@)) is Some
                &&& as_positive_u64(under(entries, "tier2_soft_deadline_ms"@)) is Some
                &&& as_drill_down_items(under(entries, "max_drill_down_items"@)) is Some
                &&& as_optional::<RawInspectDuplicates>(under(entries, "duplicates"@)) is Some
            }
            &&& read matches Some(raw) ==> {
                &&& as_optional::<bool>(under(entries, "enabled"@)) == Some(raw.enabled)
                &&& as_positive_u64(under(entries, "diagnostics_timeout_ms"@)) == Some(raw.diagnostics_timeout_ms)
                &&& as_nonnegative_number(under(entries, "tier2_idle_minutes"@)) == Some(raw.tier2_idle_minutes)
                &&& as_optional::<TextMap<bool>>(under(entries, "categories"@)) == Some(raw.categories)
                &&& as_positive_u64(under(entries, "tier2_soft_deadline_ms"@)) == Some(raw.tier2_soft_deadline_ms)
                &&& as_drill_down_items(under(entries, "max_drill_down_items"@)) == Some(raw.max_drill_down_items)
                &&& as_optional::<RawInspectDuplicates>(under(entries, "duplicates"@)) == Some(raw.duplicates)
            }
        }),
{
    reveal(field_of);
}

/// Written as a list, the section holds its fields in their order; those that the list is too
/// short for are unset.
pub proof fn law_inspect_fields_are_read_in_order(items: Seq<JsonView>)
    ensures
        RawInspect::decoded(JsonView::List(items)) is Some ==> items.len() <= 7,
        RawInspect::decoded(JsonView::List(items)) matches Some(raw) ==> {
            &&& items.len() > 0 ==> as_optional::<bool>(items[0]) == Some(raw.enabled)
            &&& items.len() <= 0 ==> raw.enabled is None
            &&& items.len() > 1 ==> as_positive_u64(items[1]) == Some(raw.diagnostics_timeout_ms)
            &&& items.len() <= 1 ==> raw.diagnostics_timeout_ms is None
            &&& items.len() > 2 ==> as_nonnegative_number(items[2]) == Some(raw.tier2_idle_minutes)
            &&& items.len() <= 2 ==> raw.tier2_idle_minutes is None
            &&& items.len() > 3 ==> as_optional::<TextMap<bool>>(items[3]) == Some(raw.categories)
            &&& items.len() <= 3 ==> raw.categories is None
            &&& items.len() > 4 ==> as_positive_u64(items[4]) == Some(raw.tier2_soft_deadline_ms)
            &&& items.len() <= 4 ==> raw.tier2_soft_deadline_ms is None
            &&& items.len() > 5 ==> as_drill_down_items(items[5]) == Some(raw.max_drill_down_items)
            &&& items.len() <= 5 ==> raw.max_drill_down_items is None
            &&& items.len() > 6 ==> as_optional::<RawInspectDuplicates>(items[6]) == Some(raw.duplicates)
            &&& items.len() <= 6 ==> raw.duplicates is None
        },
{
    reveal(field_of);
}

/// A section on the bridge can be read exactly where each of its fields can; a field is what stands under
/// its own name, and is unset without.
pub proof fn law_bridge_fields_are_read_by_name(entries: Seq<(Seq<char>, JsonView)>)
    ensures
        ({
            let read = RawBridge::decoded(JsonView::Object(entries));
            &&& read is Some <==> {
                &&& as_bridge_timeout_ms(under(entries, "request_timeout_ms"@)) is Some
                &&& as_positive_u64(under(entries, "hang_threshold"@)) is Some
            }
            &&& read matches Some(raw) ==> {
                &&& as_bridge_timeout_ms(under(entries, "request_timeout_ms"@)) == Some(raw.request_timeout_ms)
                &&& as_positive_u64(under(entries, "hang_threshold"@)) == Some(raw.hang_threshold)
            }
        }),
{
}

/// Written as a list, the section holds its fields in their order; those that the list is too
/// short for are unset.
pub proof fn law_bridge_fields_are_read_in_order(items: Seq<JsonView>)
    ensures
        RawBridge::decoded(JsonView::List(items)) is Some ==> items.len() <= 2,
        RawBridge::decoded(JsonView::List(items)) matches Some(raw) ==> {
            &&& items.len() > 0 ==> as_bridge_timeout_ms(items[0]) == Some(raw.request_timeout_ms)
            &&& items.len() <= 0 ==> raw.request_timeout_ms is None
            &&& items.len() > 1 ==> as_positive_u64(items[1]) == Some(raw.hang_threshold)
            &&& items.len() <= 1 ==> raw.hang_threshold is None
        },
{
}

/// A section on the connection can be read exactly where each of its fields can; a field is what stands under
/// its own name, and is unset without.
pub proof fn law_subc_fields_are_read_by_name(entries: Seq<(Seq<char>, JsonView)>)
    ensures
        ({
            let read = RawSubc::decoded(JsonView::Object(entries));
            &&& read is Some <==> {
                &&& as_optional::<String>(under(entries, "connection_file"@)) is Some
                &&& as_optional::<bool>(under(entries, "client_reaper"@)) is Some
            }
            &&& read matches Some(raw) ==> {
                &&& as_optional::<String>(under(entries, "connection_file"@)) == Some(raw.connection_file)
                &&& as_optional::<bool>(under(entries, "client_reaper"@)) == Some(raw.client_reaper)
            }
        }),
{
    reveal(field_of);
}

/// Written as a list, the section holds its fields in their order; those that the list is too
/// short for are unset.
pub proof fn law_subc_fields_are_read_in_order(items: Seq<JsonView>)
    ensures
        RawSubc::decoded(JsonView::List(items)) is Some ==> items.len() <= 2,
        RawSubc::decoded(JsonView::List(items)) matches Some(raw) ==> {
            &&& items.len() > 0 ==> as_optional::<String>(items[0]) == Some(raw.connection_file)
            &&& items.len() <= 0 ==> raw.connection_file is None
            &&& items.len() > 1 ==> as_optional::<bool>(items[1]) == Some(raw.client_reaper)
            &&& items.len() <= 1 ==> raw.client_reaper is None
        },
{
    reveal(field_of);
}

/// A section on worktrees can be read exactly where each of its fields can; a field is what stands under
/// its own name, and is unset without.
pub proof fn law_worktree_fields_are_read_by_name(entries: Seq<(Seq<char>, JsonView)>)
    ensures
        ({
            let read = RawWorktree::decoded(JsonView::Object(entries));
            &&& read is Some <==> {
                &&& as_optional::<bool>(under(entries, "ram_overlay"@)) is Some
            }
            &&& read matches Some(raw) ==> {
                &&& as_optional::<bool>(under(entries, "ram_overlay"@)) == Some(raw.ram_overlay)
            }
        }),
{
    reveal(field_of);
}

/// Written as a list, the section holds its fields in their order; those that the list is too
/// short for are unset.
pub proof fn law_worktree_fields_are_read_in_order(items: Seq<JsonView>)
    ensures
        RawWorktree::decoded(JsonView::List(items)) is Some ==> items.len() <= 1,
        RawWorktree::decoded(JsonView::List(items)) matches Some(raw) ==> {
            &&& items.len() > 0 ==> as_optional::<bool>(items[0]) == Some(raw.ram_overlay)
            &&& items.len() <= 0 ==> raw.ram_overlay is None
        },
{
    reveal(field_of);
}

/// A section on the shim can be read exactly where each of its fields can; a field is what stands under
/// its own name, and is unset without.
pub proof fn law_gh_shim_fields_are_read_by_name(entries: Seq<(Seq<char>, JsonView)>)
    ensures
        ({
            let read = RawGhShim::decoded(JsonView::Object(entries));
            &&& read is Some <==> {
                &&& as_optional::<bool>(under(entries, "enabled"@)) is Some
                &&& as_trimmed_text(under(entries, "binary_path"@)) is Some
            }
            &&& read matches Some(raw) ==> {
                &&& as_optional::<bool>(under(entries, "enabled"@)) == Some(raw.enabled)
                &&& as_trimmed_text(under(entries, "binary_path"@)) == Some(raw.binary_path)
            }
        }),
{
    reveal(field_of);
}

/// Written as a list, the section holds its fields in their order; those that the list is too
/// short for are unset.
pub proof fn law_gh_shim_fields_are_read_in_order(items: Seq<JsonView>)
    ensures
        RawGhShim::decoded(JsonView::List(items)) is Some ==> items.len() <= 2,
        RawGhShim::decoded(JsonView::List(items)) matches Some(raw) ==> {
            &&& items.len() > 0 ==> as_optional::<bool>(items[0]) == Some(raw.enabled)
            &&& items.len() <= 0 ==> raw.enabled is None
            &&& items.len() > 1 ==> as_trimmed_text(items[1]) == Some(raw.binary_path)
            &&& items.len() <= 1 ==> raw.binary_path is None
        },
{
    reveal(field_of);
}

/// A section on reading issues can be read exactly where each of its fields can; a field is what stands under
/// its own name, and is unset without.
pub proof fn law_gh_read_fields_are_read_by_name(entries: Seq<(Seq<char>, JsonView)>)
    ensures
        ({
            let read = RawGhRead::decoded(JsonView::Object(entries));
            &&& read is Some <==> {
                &&& as_optional::<bool>(under(entries, "enabled"@)) is Some
            }
            &&& read matches Some(raw) ==> {
                &&& as_optional::<bool>(under(entries, "enabled"@)) == Some(raw.enabled)
            }
        }),
{
    reveal(field_of);
}

/// Written as a list, the section holds its fields in their order; those that the list is too
/// short for are unset.
pub proof fn law_gh_read_fields_are_read_in_order(items: Seq<JsonView>)
    ensures
        RawGhRead::decoded(JsonView::List(items)) is Some ==> items.len() <= 1,
        RawGhRead::decoded(JsonView::List(items)) matches Some(raw) ==> {
            &&& items.len() > 0 ==> as_optional::<bool>(items[0]) == Some(raw.enabled)
            &&& items.len() <= 0 ==> raw.enabled is None
        },
{
    reveal(field_of);
}

/// A section on git can be read exactly where each of its fields can; a field is what stands under
/// its own name, and is unset without.
pub proof fn law_git_fields_are_read_by_name(entries: Seq<(Seq<char>, JsonView)>)
    ensures
        ({
            let read = RawGit::decoded(JsonView::Object(entries));
            &&& read is Some <==> {
                &&& as_co_author(under(entries, "co_author"@)) is Some
            }
            &&& read matches Some(raw) ==> {
                &&& as_co_author(under(entries, "co_author"@)) == Some(raw.co_author)
            }
        }),
{
}

/// Written as a list, the section holds its fields in their order; those that the list is too
/// short for are unset.
pub proof fn law_git_fields_are_read_in_order(items: Seq<JsonView>)
    ensures
        RawGit::decoded(JsonView::List(items)) is Some ==> items.len() <= 1,
        RawGit::decoded(JsonView::List(items)) matches Some(raw) ==> {
            &&& items.len() > 0 ==> as_co_author(items[0]) == Some(raw.co_author)
            &&& items.len() <= 0 ==> raw.co_author is None
        },
{
}

/// A section on backups can be read exactly where each of its fields can; a field is what stands under
/// its own name, and is unset without.
pub proof fn law_backup_fields_are_read_by_name(entries: Seq<(Seq<char>, JsonView)>)
    ensures
        ({
            let read = RawBackup::decoded(JsonView::Object(entries));
            &&& read is Some <==> {
                &&& as_optional::<bool>(under(entries, "enabled"@)) is Some
                &&& as_positive_usize(under(entries, "max_depth"@)) is Some
                &&& as_positive_u64(under(entries, "max_file_size"@)) is Some
            }
            &&& read matches Some(raw) ==> {
                &&& as_optional::<bool>(under(entries, "enabled"@)) == Some(raw.enabled)
                &&& as_positive_usize(under(entries, "max_depth"@)) == Some(raw.max_depth)
                &&& as_positive_u64(under(entries, "max_file_size"@)) == Some(raw.max_file_size)
            }
        }),
{
    reveal(field_of);
}

/// Written as a list, the section holds its fields in their order; those that the list is too
/// short for are unset.
pub proof fn law_backup_fields_are_read_in_order(items: Seq<JsonView>)
    ensures
        RawBackup::decoded(JsonView::List(items)) is Some ==> items.len() <= 3,
        RawBackup::decoded(JsonView::List(items)) matches Some(raw) ==> {
            &&& items.len() > 0 ==> as_optional::<bool>(items[0]) == Some(raw.enabled)
            &&& items.len() <= 0 ==> raw.enabled is None
            &&& items.len() > 1 ==> as_positive_usize(items[1]) == Some(raw.max_depth)
            &&& items.len() <= 1 ==> raw.max_depth is None
            &&& items.len() > 2 ==> as_positive_u64(items[2]) == Some(raw.max_file_size)
            &&& items.len() <= 2 ==> raw.max_file_size is None
        },
{
    reveal(field_of);
}

/// A section on the sandbox can be read exactly where each of its fields can; a field is what stands under
/// its own name, and is unset without.
pub proof fn law_sandbox_fields_are_read_by_name(entries: Seq<(Seq<char>, JsonView)>)
    ensures
        ({
            let read = RawSandbox::decoded(JsonView::Object(entries));
            &&& read is Some <==> {
                &&& as_optional::<bool>(under(entries, "enabled"@)) is Some
                &&& as_optional::<Vec<String>>(under(entries, "write_allow"@)) is Some
                &&& as_optional::<Vec<String>>(under(entries, "read_deny"@)) is Some
            }
            &&& read matches Some(raw) ==> {
                &&& as_optional::<bool>(under(entries, "enabled"@)) == Some(raw.enabled)
                &&& as_optional::<Vec<String>>(under(entries, "write_allow"@)) == Some(raw.write_allow)
                &&& as_optional::<Vec<String>>(under(entries, "read_deny"@)) == Some(raw.read_deny)
            }
        }),
{
    reveal(field_of);
}

/// Written as a list, the section holds its fields in their order; those that the list is too
/// short for are unset.
pub proof fn law_sandbox_fields_are_read_in_order(items: Seq<JsonView>)
    ensures
        RawSandbox::decoded(JsonView::List(items)) is Some ==> items.len() <= 3,
        RawSandbox::decoded(JsonView::List(items)) matches Some(raw) ==> {
            &&& items.len() > 0 ==> as_optional::<bool>(items[0]) == Some(raw.enabled)
            &&& items.len() <= 0 ==> raw.enabled is None
            &&& items.len() > 1 ==> as_optional::<Vec<String>>(items[1]) == Some(raw.write_allow)
            &&& items.len() <= 1 ==> raw.write_allow is None
            &&& items.len() > 2 ==> as_optional::<Vec<String>>(items[2]) == Some(raw.read_deny)
            &&& items.len() <= 2 ==> raw.read_deny is None
        },
{
    reveal(field_of);
}

/// A section on indexes can be read exactly where each of its fields can; a field is what stands under
/// its own name, and is unset without.
pub proof fn law_index_fields_are_read_by_name(entries: Seq<(Seq<char>, JsonView)>)
    ensures
        ({
            let read = RawIndex::decoded(JsonView::Object(entries));
            &&& read is Some <==> {
                &&& as_optional::<Vec<RawIndexRoot>>(under(entries, "roots"@)) is Some
                &&& as_optional::<String>(under(entries, "resource_policy"@)) is Some
            }
            &&& read matches Some(raw) ==> {
                &&& as_optional::<Vec<RawIndexRoot>>(under(entries, "roots"@)) == Some(raw.roots)
                &&& as_optional::<String>(under(entries, "resource_policy"@)) == Some(raw.resource_policy)
            }
        }),
{
    reveal(field_of);
}

/// Written as a list, the section holds its fields in their order; those that the list is too
/// short for are unset.
pub proof fn law_index_fields_are_read_in_order(items: Seq<JsonView>)
    ensures
        RawIndex::decoded(JsonView::List(items)) is Some ==> items.len() <= 2,
        RawIndex::decoded(JsonView::List(items)) matches Some(raw) ==> {
            &&& items.len() > 0 ==> as_optional::<Vec<RawIndexRoot>>(items[0]) == Some(raw.roots)
            &&& items.len() <= 0 ==> raw.roots is None
            &&& items.len() > 1 ==> as_optional::<String>(items[1]) == Some(raw.resource_policy)
            &&& items.len() <= 1 ==> raw.resource_policy is None
        },
{
    reveal(field_of);
}

/// A document can be read exactly where it holds known keys alone and each of its fields can be
/// read; a field is what stands under its own name, and is unset without.
pub proof fn law_aft_config_fields_are_read_by_name(entries: Seq<(Seq<char>, JsonView)>)
    ensures
        ({
            let read = RawAftConfig::decoded(JsonView::Object(entries));
            &&& read is Some <==> {
                &&& forall|i: int| 0 <= i < entries.len() ==> is_aft_config_key(#[trigger] entries[i].0)
                &&& as_optional::<String>(under(entries, "$schema"@)) is Some
                &&& as_optional::<bool>(under(entries, "enabled"@)) is Some
                &&& as_optional::<RawEditMode>(under(entries, "edit_mode"@)) is Some
                &&& as_optional::<bool>(under(entries, "format_on_edit"@)) is Some
                &&& as_timeout_secs(under(entries, "formatter_timeout_secs"@)) is Some
                &&& as_timeout_secs(under(entries, "type_checker_timeout_secs"@)) is Some
                &&& as_optional::<RawValidateOnEdit>(under(entries, "validate_on_edit"@)) is Some
                &&& as_optional::<TextMap<RawFormatter>>(under(entries, "formatter"@)) is Some
                &&& as_optional::<TextMap<RawChecker>>(under(entries, "checker"@)) is Some
                &&& as_optional::<RawConfigureWarningsDelivery>(under(entries, "configure_warnings_delivery"@)) is Some
                &&& as_optional::<bool>(under(entries, "hoist_builtin_tools"@)) is Some
                &&& as_optional::<RawToolSurface>(under(entries, "tool_surface"@)) is Some
                &&& as_optional::<Vec<String>>(under(entries, "disabled_tools"@)) is Some
                &&& as_optional::<bool>(under(entries, "restrict_to_project_root"@)) is Some
                &&& as_optional::<bool>(under(entries, "search_index"@)) is Some
                &&& as_optional::<RawIndex>(under(entries, "index"@)) is Some
                &&& as_optional::<RawMemory>(under(entries, "memory"@)) is Some
                &&& as_optional::<bool>(under(entries, "semantic_search"@)) is Some
                &&& as_optional::<bool>(under(entries, "callgraph_store"@)) is Some
                &&& as_any_usize(under(entries, "callgraph_chunk_size"@)) is Some
                &&& as_optional::<RawInspect>(under(entries, "inspect"@)) is Some
                &&& as_optional::<RawBackup>(under(entries, "backup"@)) is Some
                &&& as_optional::<RawWorktree>(under(entries, "worktree"@)) is Some
                &&& as_optional::<RawGhShim>(under(entries, "gh_shim"@)) is Some
                &&& as_optional::<RawGhRead>(under(entries, "gh_read"@)) is Some
                &&& as_optional::<RawGit>(under(entries, "git"@)) is Some
                &&& as_optional::<RawSandbox>(under(entries, "sandbox"@)) is Some
                &&& as_optional::<RawBash>(under(entries, "bash"@)) is Some
                &&& as_optional::<RawExperimental>(under(entries, "experimental"@)) is Some
                &&& as_optional::<RawLsp>(under(entries, "lsp"@)) is Some
                &&& as_optional::<bool>(under(entries, "url_fetch_allow_private"@)) is Some
                &&& as_optional::<RawSemantic>(under(entries, "semantic"@)) is Some
                &&& as_optional::<bool>(under(entries, "auto_update"@)) is Some
                &&& as_optional::<RawBridge>(under(entries, "bridge"@)) is Some
                &&& as_optional::<RawSubc>(under(entries, "subc"@)) is Some
                &&& as_optional::<TextMap<Json>>(under(entries, "harnesses"@)) is Some
            }
            &&& read matches Some(raw) ==> {
                &&& as_optional::<String>(under(entries, "$schema"@)) == Some(raw.schema)
                &&& as_optional::<bool>(under(entries, "enabled"@)) == Some(raw.enabled)
                &&& as_optional::<RawEditMode>(under(entries, "edit_mode"@)) == Some(raw.edit_mode)
                &&& as_optional::<bool>(under(entries, "format_on_edit"@)) == Some(raw.format_on_edit)
                &&& as_timeout_secs(under(entries, "formatter_timeout_secs"@)) == Some(raw.formatter_timeout_secs)
                &&& as_timeout_secs(under(entries, "type_checker_timeout_secs"@)) == Some(raw.type_checker_timeout_secs)
                &&& as_optional::<RawValidateOnEdit>(under(entries, "validate_on_edit"@)) == Some(raw.validate_on_edit)
                &&& as_optional::<TextMap<RawFormatter>>(under(entries, "formatter"@)) == Some(raw.formatter)
                &&& as_optional::<TextMap<RawChecker>>(under(entries, "checker"@)) == Some(raw.checker)
                &&& as_optional::<RawConfigureWarningsDelivery>(under(entries, "configure_warnings_delivery"@)) == Some(raw.configure_warnings_delivery)
                &&& as_optional::<bool>(under(entries, "hoist_builtin_tools"@)) == Some(raw.hoist_builtin_tools)
                &&& as_optional::<RawToolSurface>(under(entries, "tool_surface"@)) == Some(raw.tool_surface)
                &&& as_optional::<Vec<String>>(under(entries, "disabled_tools"@)) == Some(raw.disabled_tools)
                &&& as_optional::<bool>(under(entries, "restrict_to_project_root"@)) == Some(raw.restrict_to_project_root)
                &&& as_optional::<bool>(under(entries, "search_index"@)) == Some(raw.search_index)
                &&& as_optional::<RawIndex>(under(entries, "index"@)) == Some(raw.index)
                &&& as_optional::<RawMemory>(under(entries, "memory"@)) == Some(raw.memory)
                &&& as_optional::<bool>(under(entries, "semantic_search"@)) == Some(raw.semantic_search)
                &&& as_optional::<bool>(under(entries, "callgraph_store"@)) == Some(raw.callgraph_store)
                &&& as_any_usize(under(entries, "callgraph_chunk_size"@)) == Some(raw.callgraph_chunk_size)
                &&& as_optional::<RawInspect>(under(entries, "inspect"@)) == Some(raw.inspect)
                &&& as_optional::<RawBackup>(under(entries, "backup"@)) == Some(raw.backup)
                &&& as_optional::<RawWorktree>(under(entries, "worktree"@)) == Some(raw.worktree)
                &&& as_optional::<RawGhShim>(under(entries, "gh_shim"@)) == Some(raw.gh_shim)
                &&& as_optional::<RawGhRead>(under(entries, "gh_read"@)) == Some(raw.gh_read)
                &&& as_optional::<RawGit>(under(entries, "git"@)) == Some(raw.git)
                &&& as_optional::<RawSandbox>(under(entries, "sandbox"@)) == Some(raw.sandbox)
                &&& as_optional::<RawBash>(under(entries, "bash"@)) == Some(raw.bash)
                &&& as_optional::<RawExperimental>(under(entries, "experimental"@)) == Some(raw.experimental)
                &&& as_optional::<RawLsp>(under(entries, "lsp"@)) == Some(raw.lsp)
                &&& as_optional::<bool>(under(entries, "url_fetch_allow_private"@)) == Some(raw.url_fetch_allow_private)
                &&& as_optional::<RawSemantic>(under(entries, "semantic"@)) == Some(raw.semantic)
                &&& as_optional::<bool>(under(entries, "auto_update"@)) == Some(raw.auto_update)
                &&& as_optional::<RawBridge>(under(entries, "bridge"@)) == Some(raw.bridge)
                &&& as_optional::<RawSubc>(under(entries, "subc"@)) == Some(raw.subc)
                &&& as_optional::<TextMap<Json>>(under(entries, "harnesses"@)) == Some(raw.harnesses)
            }
        }),
{
    reveal(field_of);
    let known = |key: Seq<char>| is_aft_config_key(key);
    assert(all_keys_are(JsonView::Object(entries), known) <==> (forall|i: int|
        0 <= i < entries.len() ==> is_aft_config_key(#[trigger] entries[i].0))) by {
        if all_keys_are(JsonView::Object(entries), known) {
            assert forall|i: int| 0 <= i < entries.len() implies is_aft_config_key(#[trigger] entries[i].0) by {
                assert(known(entries[i].0));
            }
        }
        if forall|i: int| 0 <= i < entries.len() ==> is_aft_config_key(#[trigger] entries[i].0) {
            assert forall|i: int| 0 <= i < entries.len() implies known(#[trigger] entries[i].0) by {}
        }
    }
}

/// A field that is absent or null is unset; a whole number is taken in its range alone, and nothing
/// else is taken for one.
pub proof fn law_numbers_are_read_in_their_range(value: JsonView, n: u64)
    ensures
        decode::as_positive_u64(JsonView::Null) == Some(None::<u64>),
        decode::as_positive_u64(JsonView::Unsigned(n)) == (if n >= 1 {
            Some(Some(n))
        } else {
            None
        }),
        decode::as_bridge_timeout_ms(JsonView::Null) == Some(None::<u64>),
        decode::as_bridge_timeout_ms(JsonView::Unsigned(n)) == (if n >= 1000 {
            Some(Some(n))
        } else {
            None
        }),
        decode::as_any_usize(JsonView::Null) == Some(None::<usize>),
        n <= usize::MAX ==> decode::as_any_usize(JsonView::Unsigned(n)) == Some(Some(n as usize)),
        n > usize::MAX ==> decode::as_any_usize(JsonView::Unsigned(n)) is None,
        decode::as_positive_usize(JsonView::Null) == Some(None::<usize>),
        1 <= n <= usize::MAX ==> decode::as_positive_usize(JsonView::Unsigned(n)) == Some(
            Some(n as usize),
        ),
        n == 0 || n > usize::MAX ==> decode::as_positive_usize(JsonView::Unsigned(n)) is None,
        decode::as_drill_down_items(JsonView::Null) == Some(None::<usize>),
        1 <= n <= 100 ==> decode::as_drill_down_items(JsonView::Unsigned(n)) == Some(
            Some(n as usize),
        ),
        n == 0 || n > 100 ==> decode::as_drill_down_items(JsonView::Unsigned(n)) is None,
        decode::as_timeout_secs(JsonView::Null) == Some(None::<u32>),
        1 <= n <= 600 ==> decode::as_timeout_secs(JsonView::Unsigned(n)) == Some(Some(n as u32)),
        n == 0 || n > 600 ==> decode::as_timeout_secs(JsonView::Unsigned(n)) is None,
        !(value is Null) && !(value is Unsigned) ==> {
            &&& decode::as_positive_u64(value) is None
            &&& decode::as_bridge_timeout_ms(value) is None
            &&& decode::as_any_usize(value) is None
            &&& decode::as_positive_usize(value) is None
            &&& decode::as_drill_down_items(value) is None
            &&& decode::as_timeout_secs(value) is None
        },
{
}

/// A switch is read from a truth value alone, and a text from a text alone.
pub proof fn law_switches_and_texts_are_read(value: JsonView, on: bool, t: Seq<char>)
    ensures
        as_optional::<bool>(JsonView::Null) == Some(None::<bool>),
        as_optional::<bool>(JsonView::Bool(on)) == Some(Some(on)),
        !(value is Null) && !(value is Bool) ==> as_optional::<bool>(value) is None,
        as_optional::<String>(JsonView::Null) == Some(None::<Seq<char>>),
        as_optional::<String>(JsonView::Text(t)) == Some(Some(t)),
        !(value is Null) && !(value is Text) ==> as_optional::<String>(value) is None,
        as_trimmed_text(JsonView::Null) == Some(None::<Seq<char>>),
        text::trimmed(t).len() > 0 ==> as_trimmed_text(JsonView::Text(t)) == Some(
            Some(text::trimmed(t)),
        ),
        text::trimmed(t).len() == 0 ==> as_trimmed_text(JsonView::Text(t)) is None,
        !(value is Null) && !(value is Text) ==> as_trimmed_text(value) is None,
        as_co_author(JsonView::Null) == Some(None::<Seq<char>>),
        as_co_author(JsonView::Text(t)) == (match config::co_author(t) {
            Some(normal) => Some(Some(normal)),
            None => None,
        }),
        !(value is Null) && !(value is Text) ==> as_co_author(value) is None,
{
}

/// A list of texts is read item by item, in order, and not at all where one item is no text; where
/// texts are trimmed, none may be empty, and of extensions there is at least one, with more than
/// dots in it.
pub proof fn law_lists_of_texts_are_read(items: Seq<JsonView>, value: JsonView, i: int)
    requires
        0 <= i < items.len(),
    ensures
        as_optional::<Vec<String>>(JsonView::List(items)) matches Some(Some(texts)) ==> {
            &&& texts.len() == items.len()
            &&& items[i] == JsonView::Text(texts[i])
        },
        !(items[i] is Text) ==> as_optional::<Vec<String>>(JsonView::List(items)) is None,
        (forall|k: int| 0 <= k < items.len() ==> (#[trigger] items[k]) is Text) ==> as_optional::<
            Vec<String>,
        >(JsonView::List(items)) is Some,
        as_trimmed_texts(JsonView::List(items)) matches Some(Some(texts)) ==> {
            &&& texts.len() == items.len()
            &&& items[i] is Text
            &&& texts[i] == text::trimmed(items[i]->Text_0)
            &&& texts[i].len() > 0
        },
        (forall|k: int|
            0 <= k < items.len() ==> (#[trigger] items[k]) is Text && text::trimmed(
                items[k]->Text_0,
            ).len() > 0) ==> as_trimmed_texts(JsonView::List(items)) is Some,
        as_extensions(JsonView::List(items)) matches Some(Some(texts)) ==> {
            &&& texts.len() == items.len()
            &&& items[i] is Text
            &&& texts[i] == text::trimmed(items[i]->Text_0)
            &&& text::without_leading_dots(texts[i]).len() > 0
        },
        as_extensions(JsonView::List(Seq::empty())) is None,
        as_extensions(JsonView::Null) == Some(None::<Seq<Seq<char>>>),
        as_trimmed_texts(JsonView::Null) == Some(None::<Seq<Seq<char>>>),
        !(value is Null) && !(value is List) ==> as_trimmed_texts(value) is None && as_extensions(
            value,
        ) is None && as_optional::<Vec<String>>(value) is None,
{
    let read = as_optional::<Vec<String>>(JsonView::List(items));
    assert(<String as decode::Decode>::decoded(items[i]) is Some <==> items[i] is Text);
    if forall|k: int| 0 <= k < items.len() ==> (#[trigger] items[k]) is Text {
        assert forall|k: int| 0 <= k < items.len() implies <String as decode::Decode>::decoded(
            #[trigger] items[k],
        ) is Some by {}
        let texts = read->0->0;
        assert forall|k: int| 0 <= k < items.len() implies #[trigger] texts[k] == items[k]->Text_0 by {}
    }
}

/// What is refused as a number below zero has a minus sign and a digit that is not zero in front of
/// any exponent; anything else that is a number is taken, and a whole number always is.
pub proof fn law_numbers_below_zero_are_refused(number: Seq<char>, n: u64, at: int, value: JsonView)
    ensures
        as_nonnegative_number(JsonView::Null) == Some(None::<JsonView>),
        as_nonnegative_number(JsonView::Unsigned(n)) == Some(Some(JsonView::Unsigned(n))),
        number.len() > 0 && number[0] != '-' ==> as_nonnegative_number(JsonView::Float(number))
            == Some(Some(JsonView::Float(number))),
        (number.len() > 0 && number[0] == '-' && 0 <= at < number.len() && '1' <= number[at] <= '9'
            && !number.contains('e') && !number.contains('E')) ==> as_nonnegative_number(
            JsonView::Float(number),
        ) is None,
        (forall|k: int| 0 <= k < number.len() ==> !('1' <= #[trigger] number[k] <= '9'))
            ==> as_nonnegative_number(JsonView::Float(number)) == Some(
            Some(JsonView::Float(number)),
        ),
        !(value is Null) && !(value is Unsigned) && !(value is Float) ==> as_nonnegative_number(
            value,
        ) is None,
{
    if number.len() > 0 && number[0] == '-' && 0 <= at < number.len() && '1' <= number[at] <= '9'
        && !number.contains('e') && !number.contains('E') {
        assert forall|k: int| 0 <= k < at implies number[k] != 'e' && number[k] != 'E' by {
            assert(number.contains(number[k]));
        }
        assert(decode::is_below_zero(number));
    }
}

/// The names of servers and of packages are trimmed, and none may be empty; of two entries of the
/// same name the later one counts.
pub proof fn law_names_are_trimmed(
    servers: Seq<(Seq<char>, crate::raw::RawLspServerEntryView)>,
    server: (Seq<char>, crate::raw::RawLspServerEntryView),
    versions: Seq<(Seq<char>, Seq<char>)>,
    version: (Seq<char>, Seq<char>),
    name: Seq<char>,
)
    ensures
        decode::decoded_servers(Seq::empty()) is Some,
        decode::decoded_servers(servers.push(server)) is Some <==> decode::decoded_servers(
            servers,
        ) is Some && text::trimmed(server.0).len() > 0,
        decode::decoded_servers(servers.push(server)) matches Some(map) ==> text_map::map_get(
            map,
            name,
        ) == (if name == text::trimmed(server.0) {
            Some(server.1)
        } else {
            text_map::map_get(decode::decoded_servers(servers)->0, name)
        }),
        decode::decoded_versions(Seq::empty()) is Some,
        decode::decoded_versions(versions.push(version)) is Some <==> decode::decoded_versions(
            versions,
        ) is Some && text::trimmed(version.0).len() > 0 && text::trimmed(version.1).len() > 0,
        decode::decoded_versions(versions.push(version)) matches Some(map) ==> text_map::map_get(
            map,
            name,
        ) == (if name == text::trimmed(version.0) {
            Some(text::trimmed(version.1))
        } else {
            text_map::map_get(decode::decoded_versions(versions)->0, name)
        }),
{
    assert(servers.push(server).drop_last() =~= servers);
    assert(versions.push(version).drop_last() =~= versions);
    if decode::decoded_servers(servers.push(server)) is Some {
        text_map::law_put_then_get(
            decode::decoded_servers(servers)->0,
            text::trimmed(server.0),
            server.1,
            name,
        );
    }
    if decode::decoded_versions(versions.push(version)) is Some {
        text_map::law_put_then_get(
            decode::decoded_versions(versions)->0,
            text::trimmed(version.0),
            text::trimmed(version.1),
            name,
        );
    }
}

/// The shell is switched on or off as a whole, or described feature by feature.
pub proof fn law_shell_is_switched_or_described(value: JsonView, on: bool)
    ensures
        RawBash::decoded(JsonView::Bool(on)) == Some(RawBash::Bool(on)),
        !(value is Bool) ==> (RawBash::decoded(value) is Some <==> RawBashFeatures::decoded(
            value,
        ) is Some),
        !(value is Bool) ==> (RawBashFeatures::decoded(value) matches Some(features)
            ==> RawBash::decoded(value) == Some(RawBash::Features(features))),
{
}

/// An edit mode is read from any text: the two known ones, and any other as it is.
pub proof fn law_edit_modes_are_read(word: Seq<char>, value: JsonView)
    ensures
        RawEditMode::decoded(JsonView::Text("default"@)) == Some(RawEditModeView::Default),
        RawEditMode::decoded(JsonView::Text("hashline"@)) == Some(RawEditModeView::Hashline),
        word != "default"@ && word != "hashline"@ ==> RawEditMode::decoded(JsonView::Text(word))
            == Some(RawEditModeView::Unknown(word)),
        !(value is Text) ==> RawEditMode::decoded(value) is None,
{
    reveal_strlit("default");
    reveal_strlit("hashline");
    assert("default"@.len() != "hashline"@.len());
}

/// An index root is an object; what stands in it under another name than its path and its indexes is
/// kept as unknown.
pub proof fn law_index_root_keeps_what_is_unknown(
    entries: Seq<(Seq<char>, JsonView)>,
    entry: (Seq<char>, JsonView),
    name: Seq<char>,
    value: JsonView,
)
    ensures
        !(value is Object) ==> RawIndexRoot::decoded(value) is None,
        RawIndexRoot::decoded(JsonView::Object(entries)) is Some <==> as_optional::<String>(
            under(entries, "path"@),
        ) is Some && as_optional::<Vec<String>>(under(entries, "indexes"@)) is Some,
        RawIndexRoot::decoded(JsonView::Object(entries)) matches Some(raw) ==> {
            &&& as_optional::<String>(under(entries, "path"@)) == Some(raw.path)
            &&& as_optional::<Vec<String>>(under(entries, "indexes"@)) == Some(raw.indexes)
            &&& raw.unknown == decode::unknown_entries(entries)
        },
        decode::unknown_entries(Seq::empty()).len() == 0,
        entry.0 == "path"@ || entry.0 == "indexes"@ ==> decode::unknown_entries(
            entries.push(entry),
        ) == decode::unknown_entries(entries),
        entry.0 != "path"@ && entry.0 != "indexes"@ ==> text_map::map_get(
            decode::unknown_entries(entries.push(entry)),
            name,
        ) == (if name == entry.0 {
            Some(entry.1)
        } else {
            text_map::map_get(decode::unknown_entries(entries), name)
        }),
{
    assert(entries.push(entry).drop_last() =~= entries);
    text_map::law_put_then_get(decode::unknown_entries(entries), entry.0, entry.1, name);
}

/// A section that sets none of its fields is unset, though it may name them.
pub proof fn law_memory_that_sets_nothing_is_unset(entries: Seq<(Seq<char>, JsonView)>)
    requires
        forall|i: int| 0 <= i < entries.len() ==> is_memory_key(#[trigger] entries[i].0),
        under(entries, "limit_bytes"@) is Null,
    ensures
        RawMemory::decoded(JsonView::Object(entries)) == Some(raw::unset_memory()),
{
    law_memory_fields_are_read_by_name(entries);
    assert(RawMemory::decoded(JsonView::Object(entries))->0 =~= raw::unset_memory());
}

/// A section that sets none of its fields is unset, whatever else stands in it.
pub proof fn law_semantic_that_sets_nothing_is_unset(entries: Seq<(Seq<char>, JsonView)>)
    requires
        under(entries, "backend"@) is Null,
        under(entries, "model"@) is Null,
        under(entries, "base_url"@) is Null,
        under(entries, "api_key_env"@) is Null,
        under(entries, "timeout_ms"@) is Null,
        under(entries, "query_timeout_ms"@) is Null,
        under(entries, "max_batch_size"@) is Null,
        under(entries, "max_files"@) is Null,
    ensures
        RawSemantic::decoded(JsonView::Object(entries)) == Some(raw::unset_semantic()),
{
    law_semantic_fields_are_read_by_name(entries);
    assert(RawSemantic::decoded(JsonView::Object(entries))->0 =~= raw::unset_semantic());
}

/// A section that sets none of its fields is unset, whatever else stands in it.
pub proof fn law_lsp_server_entry_that_sets_nothing_is_unset(entries: Seq<(Seq<char>, JsonView)>)
    requires
        under(entries, "extensions"@) is Null,
        under(entries, "binary"@) is Null,
        under(entries, "args"@) is Null,
        under(entries, "root_markers"@) is Null,
        under(entries, "disabled"@) is Null,
        under(entries, "env"@) is Null,
        under(entries, "initialization_options"@) is Null,
    ensures
        RawLspServerEntry::decoded(JsonView::Object(entries)) == Some(raw::unset_lsp_server_entry()),
{
    law_lsp_server_entry_fields_are_read_by_name(entries);
    assert(RawLspServerEntry::decoded(JsonView::Object(entries))->0 =~= raw::unset_lsp_server_entry());
}

/// A section that sets none of its fields is unset, whatever else stands in it.
pub proof fn law_lsp_that_sets_nothing_is_unset(entries: Seq<(Seq<char>, JsonView)>)
    requires
        under(entries, "servers"@) is Null,
        under(entries, "disabled"@) is Null,
        under(entries, "python"@) is Null,
        under(entries, "diagnostics_on_edit"@) is Null,
        under(entries, "auto_install"@) is Null,
        under(entries, "grace_days"@) is Null,
        under(entries, "versions"@) is Null,
    ensures
        RawLsp::decoded(JsonView::Object(entries)) == Some(raw::unset_lsp()),
{
    law_lsp_fields_are_read_by_name(entries);
    assert(RawLsp::decoded(JsonView::Object(entries))->0 =~= raw::unset_lsp());
}

/// A section that sets none of its fields is unset, whatever else stands in it.
pub proof fn law_bash_features_that_sets_nothing_is_unset(entries: Seq<(Seq<char>, JsonView)>)
    requires
        under(entries, "rewrite"@) is Null,
        under(entries, "compress"@) is Null,
        under(entries, "background"@) is Null,
        under(entries, "host_fallback"@) is Null,
        under(entries, "subagent_background"@) is Null,
        under(entries, "detach_on_user_message"@) is Null,
        under(entries, "long_running_reminder_enabled"@) is Null,
        under(entries, "long_running_reminder_interval_ms"@) is Null,
        under(entries, "foreground_wait_window_ms"@) is Null,
        under(entries, "powershell_tool"@) is Null,
    ensures
        RawBashFeatures::decoded(JsonView::Object(entries)) == Some(raw::unset_bash_features()),
{
    law_bash_features_fields_are_read_by_name(entries);
    assert(RawBashFeatures::decoded(JsonView::Object(entries))->0 =~= raw::unset_bash_features());
}

/// A section that sets none of its fields is unset, whatever else stands in it.
pub proof fn law_experimental_bash_that_sets_nothing_is_unset(entries: Seq<(Seq<char>, JsonView)>)
    requires
        under(entries, "rewrite"@) is Null,
        under(entries, "compress"@) is Null,
        under(entries, "background"@) is Null,
        under(entries, "long_running_reminder_enabled"@) is Null,
        under(entries, "long_running_reminder_interval_ms"@) is Null,
    ensures
        RawExperimentalBash::decoded(JsonView::Object(entries)) == Some(raw::unset_experimental_bash()),
{
    law_experimental_bash_fields_are_read_by_name(entries);
    assert(RawExperimentalBash::decoded(JsonView::Object(entries))->0 =~= raw::unset_experimental_bash());
}

/// A section that sets none of its fields is unset, whatever else stands in it.
pub proof fn law_experimental_that_sets_nothing_is_unset(entries: Seq<(Seq<char>, JsonView)>)
    requires
        under(entries, "bash"@) is Null,
        under(entries, "lsp_ty"@) is Null,
    ensures
        RawExperimental::decoded(JsonView::Object(entries)) == Some(raw::unset_experimental()),
{
    law_experimental_fields_are_read_by_name(entries);
    assert(RawExperimental::decoded(JsonView::Object(entries))->0 =~= raw::unset_experimental());
}

/// A section that sets none of its fields is unset, whatever else stands in it.
pub proof fn law_inspect_duplicates_that_sets_nothing_is_unset(entries: Seq<(Seq<char>, JsonView)>)
    requires
        under(entries, "expected_mirrors"@) is Null,
    ensures
        RawInspectDuplicates::decoded(JsonView::Object(entries)) == Some(raw::unset_inspect_duplicates()),
{
    law_inspect_duplicates_fields_are_read_by_name(entries);
    assert(RawInspectDuplicates::decoded(JsonView::Object(entries))->0 =~= raw::unset_inspect_duplicates());
}

/// A section that sets none of its fields is unset, whatever else stands in it.
pub proof fn law_inspect_that_sets_nothing_is_unset(entries: Seq<(Seq<char>, JsonView)>)
    requires
        under(entries, "enabled"@) is Null,
        under(entries, "diagnostics_timeout_ms"@) is Null,
        under(entries, "tier2_idle_minutes"@) is Null,
        under(entries, "categories"@) is Null,
        under(entries, "tier2_soft_deadline_ms"@) is Null,
        under(entries, "max_drill_down_items"@) is Null,
        under(entries, "duplicates"@) is Null,
    ensures
        RawInspect::decoded(JsonView::Object(entries)) == Some(raw::unset_inspect()),
{
    law_inspect_fields_are_read_by_name(entries);
    assert(RawInspect::decoded(JsonView::Object(entries))->0 =~= raw::unset_inspect());
}

/// A section that sets none of its fields is unset, whatever else stands in it.
pub proof fn law_bridge_that_sets_nothing_is_unset(entries: Seq<(Seq<char>, JsonView)>)
    requires
        under(entries, "request_timeout_ms"@) is Null,
        under(entries, "hang_threshold"@) is Null,
    ensures
        RawBridge::decoded(JsonView::Object(entries)) == Some(raw::unset_bridge()),
{
    law_bridge_fields_are_read_by_name(entries);
    assert(RawBridge::decoded(JsonView::Object(entries))->0 =~= raw::unset_bridge());
}

/// A section that sets none of its fields is unset, whatever else stands in it.
pub proof fn law_subc_that_sets_nothing_is_unset(entries: Seq<(Seq<char>, JsonView)>)
    requires
        under(entries, "connection_file"@) is Null,
        under(entries, "client_reaper"@) is Null,
    ensures
        RawSubc::decoded(JsonView::Object(entries)) == Some(raw::unset_subc()),
{
    law_subc_fields_are_read_by_name(entries);
    assert(RawSubc::decoded(JsonView::Object(entries))->0 =~= raw::unset_subc());
}

/// A section that sets none of its fields is unset, whatever else stands in it.
pub proof fn law_worktree_that_sets_nothing_is_unset(entries: Seq<(Seq<char>, JsonView)>)
    requires
        under(entries, "ram_overlay"@) is Null,
    ensures
        RawWorktree::decoded(JsonView::Object(entries)) == Some(raw::unset_worktree()),
{
    law_worktree_fields_are_read_by_name(entries);
    assert(RawWorktree::decoded(JsonView::Object(entries))->0 =~= raw::unset_worktree());
}

/// A section that sets none of its fields is unset, whatever else stands in it.
pub proof fn law_gh_shim_that_sets_nothing_is_unset(entries: Seq<(Seq<char>, JsonView)>)
    requires
        under(entries, "enabled"@) is Null,
        under(entries, "binary_path"@) is Null,
    ensures
        RawGhShim::decoded(JsonView::Object(entries)) == Some(raw::unset_gh_shim()),
{
    law_gh_shim_fields_are_read_by_name(entries);
    assert(RawGhShim::decoded(JsonView::Object(entries))->0 =~= raw::unset_gh_shim());
}

/// A section that sets none of its fields is unset, whatever else stands in it.
pub proof fn law_gh_read_that_sets_nothing_is_unset(entries: Seq<(Seq<char>, JsonView)>)
    requires
        under(entries, "enabled"@) is Null,
    ensures
        RawGhRead::decoded(JsonView::Object(entries)) == Some(raw::unset_gh_read()),
{
    law_gh_read_fields_are_read_by_name(entries);
    assert(RawGhRead::decoded(JsonView::Object(entries))->0 =~= raw::unset_gh_read());
}

/// A section that sets none of its fields is unset, whatever else stands in it.
pub proof fn law_git_that_sets_nothing_is_unset(entries: Seq<(Seq<char>, JsonView)>)
    requires
        under(entries, "co_author"@) is Null,
    ensures
        RawGit::decoded(JsonView::Object(entries)) == Some(raw::unset_git()),
{
    law_git_fields_are_read_by_name(entries);
    assert(RawGit::decoded(JsonView::Object(entries))->0 =~= raw::unset_git());
}

/// A section that sets none of its fields is unset, whatever else stands in it.
pub proof fn law_backup_that_sets_nothing_is_unset(entries: Seq<(Seq<char>, JsonView)>)
    requires
        under(entries, "enabled"@) is Null,
        under(entries, "max_depth"@) is Null,
        under(entries, "max_file_size"@) is Null,
    ensures
        RawBackup::decoded(JsonView::Object(entries)) == Some(raw::unset_backup()),
{
    law_backup_fields_are_read_by_name(entries);
    assert(RawBackup::decoded(JsonView::Object(entries))->0 =~= raw::unset_backup());
}

/// A section that sets none of its fields is unset, whatever else stands in it.
pub proof fn law_sandbox_that_sets_nothing_is_unset(entries: Seq<(Seq<char>, JsonView)>)
    requires
        under(entries, "enabled"@) is Null,
        under(entries, "write_allow"@) is Null,
        under(entries, "read_deny"@) is Null,
    ensures
        RawSandbox::decoded(JsonView::Object(entries)) == Some(raw::unset_sandbox()),
{
    law_sandbox_fields_are_read_by_name(entries);
    assert(RawSandbox::decoded(JsonView::Object(entries))->0 =~= raw::unset_sandbox());
}

/// A section that sets none of its fields is unset, whatever else stands in it.
pub proof fn law_index_that_sets_nothing_is_unset(entries: Seq<(Seq<char>, JsonView)>)
    requires
        under(entries, "roots"@) is Null,
        under(entries, "resource_policy"@) is Null,
    ensures
        RawIndex::decoded(JsonView::Object(entries)) == Some(raw::unset_index()),
{
    law_index_fields_are_read_by_name(entries);
    assert(RawIndex::decoded(JsonView::Object(entries))->0 =~= raw::unset_index());
}

/// A document that sets none of its fields is unset, though it may name them.
pub proof fn law_aft_config_that_sets_nothing_is_unset(entries: Seq<(Seq<char>, JsonView)>)
    requires
        forall|i: int| 0 <= i < entries.len() ==> is_aft_config_key(#[trigger] entries[i].0),
        under(entries, "$schema"@) is Null,
        under(entries, "enabled"@) is Null,
        under(entries, "edit_mode"@) is Null,
        under(entries, "format_on_edit"@) is Null,
        under(entries, "formatter_timeout_secs"@) is Null,
        under(entries, "type_checker_timeout_secs"@) is Null,
        under(entries, "validate_on_edit"@) is Null,
        under(entries, "formatter"@) is Null,
        under(entries, "checker"@) is Null,
        under(entries, "configure_warnings_delivery"@) is Null,
        under(entries, "hoist_builtin_tools"@) is Null,
        under(entries, "tool_surface"@) is Null,
        under(entries, "disabled_tools"@) is Null,
        under(entries, "restrict_to_project_root"@) is Null,
        under(entries, "search_index"@) is Null,
        under(entries, "index"@) is Null,
        under(entries, "memory"@) is Null,
        under(entries, "semantic_search"@) is Null,
        under(entries, "callgraph_store"@) is Null,
        under(entries, "callgraph_chunk_size"@) is Null,
        under(entries, "inspect"@) is Null,
        under(entries, "backup"@) is Null,
        under(entries, "worktree"@) is Null,
        under(entries, "gh_shim"@) is Null,
        under(entries, "gh_read"@) is Null,
        under(entries, "git"@) is Null,
        under(entries, "sandbox"@) is Null,
        under(entries, "bash"@) is Null,
        under(entries, "experimental"@) is Null,
        under(entries, "lsp"@) is Null,
        under(entries, "url_fetch_allow_private"@) is Null,
        under(entries, "semantic"@) is Null,
        under(entries, "auto_update"@) is Null,
        under(entries, "bridge"@) is Null,
        under(entries, "subc"@) is Null,
        under(entries, "harnesses"@) is Null,
    ensures
        RawAftConfig::decoded(JsonView::Object(entries)) == Some(raw::unset_aft_config()),
{
    law_aft_config_fields_are_read_by_name(entries);
    assert(RawAftConfig::decoded(JsonView::Object(entries))->0 =~= raw::unset_aft_config());
}

/// The known keys of a document, and of its section on memory, are the names of their fields.
pub proof fn law_every_field_is_a_known_key(key: Seq<char>)
    ensures
        is_aft_config_key(key) <==> seq![
            "$schema"@,
            "enabled"@,
            "edit_mode"@,
            "format_on_edit"@,
            "formatter_timeout_secs"@,
            "type_checker_timeout_secs"@,
            "validate_on_edit"@,
            "formatter"@,
            "checker"@,
            "configure_warnings_delivery"@,
            "hoist_builtin_tools"@,
            "tool_surface"@,
            "disabled_tools"@,
            "restrict_to_project_root"@,
            "search_index"@,
            "index"@,
            "memory"@,
            "semantic_search"@,
            "callgraph_store"@,
            "callgraph_chunk_size"@,
            "inspect"@,
            "backup"@,
            "worktree"@,
            "gh_shim"@,
            "gh_read"@,
            "git"@,
            "sandbox"@,
            "bash"@,
            "experimental"@,
            "lsp"@,
            "url_fetch_allow_private"@,
            "semantic"@,
            "auto_update"@,
            "bridge"@,
            "subc"@,
            "harnesses"@,
        ].contains(key),
        is_memory_key(key) <==> key == "limit_bytes"@,
{
    let names = seq![
        "$schema"@,
        "enabled"@,
        "edit_mode"@,
        "format_on_edit"@,
        "formatter_timeout_secs"@,
        "type_checker_timeout_secs"@,
        "validate_on_edit"@,
        "formatter"@,
        "checker"@,
        "configure_warnings_delivery"@,
        "hoist_builtin_tools"@,
        "tool_surface"@,
        "disabled_tools"@,
        "restrict_to_project_root"@,
        "search_index"@,
        "index"@,
        "memory"@,
        "semantic_search"@,
        "callgraph_store"@,
        "callgraph_chunk_size"@,
        "inspect"@,
        "backup"@,
        "worktree"@,
        "gh_shim"@,
        "gh_read"@,
        "git"@,
        "sandbox"@,
        "bash"@,
        "experimental"@,
        "lsp"@,
        "url_fetch_allow_private"@,
        "semantic"@,
        "auto_update"@,
        "bridge"@,
        "subc"@,
        "harnesses"@,
    ];
    assert(names[0] == "$schema"@);
    assert(names[1] == "enabled"@);
    assert(names[2] == "edit_mode"@);
    assert(names[3] == "format_on_edit"@);
    assert(names[4] == "formatter_timeout_secs"@);
    assert(names[5] == "type_checker_timeout_secs"@);
    assert(names[6] == "validate_on_edit"@);
    assert(names[7] == "formatter"@);
    assert(names[8] == "checker"@);
    assert(names[9] == "configure_warnings_delivery"@);
    assert(names[10] == "hoist_builtin_tools"@);
    assert(names[11] == "tool_surface"@);
    assert(names[12] == "disabled_tools"@);
    assert(names[13] == "restrict_to_project_root"@);
    assert(names[14] == "search_index"@);
    assert(names[15] == "index"@);
    assert(names[16] == "memory"@);
    assert(names[17] == "semantic_search"@);
    assert(names[18] == "callgraph_store"@);
    assert(names[19] == "callgraph_chunk_size"@);
    assert(names[20] == "inspect"@);
    assert(names[21] == "backup"@);
    assert(names[22] == "worktree"@);
    assert(names[23] == "gh_shim"@);
    assert(names[24] == "gh_read"@);
    assert(names[25] == "git"@);
    assert(names[26] == "sandbox"@);
    assert(names[27] == "bash"@);
    assert(names[28] == "experimental"@);
    assert(names[29] == "lsp"@);
    assert(names[30] == "url_fetch_allow_private"@);
    assert(names[31] == "semantic"@);
    assert(names[32] == "auto_update"@);
    assert(names[33] == "bridge"@);
    assert(names[34] == "subc"@);
    assert(names[35] == "harnesses"@);
}

/// The name of a choice is written as a text, or as the only key of an object, with nothing under
/// it; anything else names none.
pub proof fn law_choices_are_named(
    name: Seq<char>,
    field: JsonView,
    more: Seq<(Seq<char>, JsonView)>,
    value: JsonView,
)
    ensures
        decode::tag_of(JsonView::Text(name)) == Some(name),
        decode::tag_of(JsonView::Object(seq![(name, JsonView::Null)])) == Some(name),
        !(field is Null) ==> decode::tag_of(JsonView::Object(seq![(name, field)])) is None,
        more.len() != 1 ==> decode::tag_of(JsonView::Object(more)) is None,
        !(value is Text) && !(value is Object) ==> decode::tag_of(value) is None,
{
}

/// A choice is read under its own name, and under no other.
pub proof fn law_semantic_backend_is_read_by_name(choice: SemanticBackend, word: Seq<char>)
    ensures
        SemanticBackend::decoded(JsonView::Text(choice.name())) == Some(choice),
        SemanticBackend::decoded(JsonView::Text(word)) == Some(choice) ==> word == choice.name(),
{
    choice.law_names_round_trip(word);
}

/// A choice is read under its own name, and under no other.
pub proof fn law_validate_on_edit_is_read_by_name(choice: RawValidateOnEdit, word: Seq<char>)
    ensures
        RawValidateOnEdit::decoded(JsonView::Text(choice.name())) == Some(choice),
        RawValidateOnEdit::decoded(JsonView::Text(word)) == Some(choice) ==> word == choice.name(),
{
    choice.law_names_round_trip(word);
}

/// A choice is read under its own name, and under no other.
pub proof fn law_formatter_is_read_by_name(choice: RawFormatter, word: Seq<char>)
    ensures
        RawFormatter::decoded(JsonView::Text(choice.name())) == Some(choice),
        RawFormatter::decoded(JsonView::Text(word)) == Some(choice) ==> word == choice.name(),
{
    choice.law_names_round_trip(word);
}

/// A choice is read under its own name, and under no other.
pub proof fn law_checker_is_read_by_name(choice: RawChecker, word: Seq<char>)
    ensures
        RawChecker::decoded(JsonView::Text(choice.name())) == Some(choice),
        RawChecker::decoded(JsonView::Text(word)) == Some(choice) ==> word == choice.name(),
{
    choice.law_names_round_trip(word);
}

/// A choice is read under its own name, and under no other.
pub proof fn law_configure_warnings_delivery_is_read_by_name(choice: RawConfigureWarningsDelivery, word: Seq<char>)
    ensures
        RawConfigureWarningsDelivery::decoded(JsonView::Text(choice.name())) == Some(choice),
        RawConfigureWarningsDelivery::decoded(JsonView::Text(word)) == Some(choice) ==> word == choice.name(),
{
    choice.law_names_round_trip(word);
}

/// A choice is read under its own name, and under no other.
pub proof fn law_tool_surface_is_read_by_name(choice: RawToolSurface, word: Seq<char>)
    ensures
        RawToolSurface::decoded(JsonView::Text(choice.name())) == Some(choice),
        RawToolSurface::decoded(JsonView::Text(word)) == Some(choice) ==> word == choice.name(),
{
    choice.law_names_round_trip(word);
}

/// A choice is read under its own name, and under no other.
pub proof fn law_python_lsp_is_read_by_name(choice: RawPythonLsp, word: Seq<char>)
    ensures
        RawPythonLsp::decoded(JsonView::Text(choice.name())) == Some(choice),
        RawPythonLsp::decoded(JsonView::Text(word)) == Some(choice) ==> word == choice.name(),
{
    choice.law_names_round_trip(word);
}

/// A map is read entry by entry, and not at all where one value cannot be read; of two entries with
/// the same key the later one counts.
pub proof fn law_maps_are_read_entry_by_entry<T: Decode>(
    entries: Seq<(Seq<char>, JsonView)>,
    entry: (Seq<char>, JsonView),
    name: Seq<char>,
)
    ensures
        decode::decoded_entries::<T>(Seq::empty()) is Some,
        decode::decoded_entries::<T>(entries.push(entry)) is Some <==> decode::decoded_entries::<T>(
            entries,
        ) is Some && T::decoded(entry.1) is Some,
        decode::decoded_entries::<T>(entries.push(entry)) matches Some(map) ==> text_map::map_get(
            map,
            name,
        ) == (if name == entry.0 {
            T::decoded(entry.1)
        } else {
            text_map::map_get(decode::decoded_entries::<T>(entries)->0, name)
        }),
{
    assert(entries.push(entry).drop_last() =~= entries);
    if decode::decoded_entries::<T>(entries.push(entry)) is Some {
        text_map::law_put_then_get(
            decode::decoded_entries::<T>(entries)->0,
            entry.0,
            T::decoded(entry.1)->0,
            name,
        );
    }
}

} // verus!
