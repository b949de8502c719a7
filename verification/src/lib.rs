//! Configuration resolution, memory accounting and runtime decisions of the AFT engine.

pub mod app_state;
pub mod artifact_laws;
pub mod artifacts;
pub mod borrowed_cache;
pub mod callgraph;
pub mod callgraph_laws;
pub mod config;
pub mod config_laws;
pub mod config_resolve;
pub mod context;
pub mod decode;
pub mod decode_laws;
pub mod error;
pub mod health;
pub mod ignore_plan;
pub mod json;
pub mod jsonc;
pub mod lifecycle;
pub mod lsp_params;
pub mod memory;
pub mod memory_admission;
pub mod memory_laws;
pub mod merge;
pub mod merge_laws;
pub mod path_check;
pub mod path_laws;
pub mod path_map;
pub mod path_order;
pub mod path_prefix;
pub mod path_set;
pub mod path_text;
pub mod paths;
pub mod pending;
pub mod protocol;
pub mod raw;
pub mod resolve_laws;
pub mod root_memory;
pub mod runtime;
pub mod semantic_status;
pub mod status_bar;
pub mod text;
pub mod text_laws;
pub mod text_map;
