# aft

The decision-making core of the AFT engine, verified with Verus: how tiers of configuration
become one configuration, how memory is admitted and accounted for, and what a root does with
its indexes, its callgraph store and the paths it is asked for.

- `src/` is the library. Every function states in its contract what it returns or changes, over
  mathematical models of texts, maps, paths and file systems. Outside facts (what is on disk,
  whether a lock was free, what a build came to) reach it as plain arguments; where such a fact is
  needed in the middle of a decision, the decision is a step that names the next question.
- `app/` performs what the library decides: it reads files, measures the process, walks
  directories, holds locks and runs threads.
- `tests/` run the library on concrete values, with the file system and the stores played by
  small stand-ins.

Where to start reading:

| Topic | Modules |
| --- | --- |
| Configuration | `raw`, `decode`, `merge`, `config_resolve`, `config`, `config_laws`, `jsonc` |
| Memory | `memory_admission`, `memory`, `root_memory` |
| State of a root | `context`, `lifecycle`, `artifacts`, `callgraph`, `pending`, `semantic_status` |
| Reports | `health`, `status_bar`, `runtime` |
| Paths | `path_prefix`, `path_text`, `paths`, `path_check`, `path_order`, `path_set`, `path_map`, `ignore_plan` |
| Requests | `protocol`, `error`, `lsp_params`, `json` |
| Process | `app_state`, `borrowed_cache` |

What is believed without proof is marked `external_body`, `external_type_specification` or
`assume_specification`: parsing JSON text (`json`), quoting a text for a message and appending a
character (`text`), and the allocator's own statistics (`memory`).
