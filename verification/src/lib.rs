//! `stui_runtime` — the decision logic of the stui streaming runtime:
//! media identifiers and classifications, per-verb metadata merging,
//! source resolution, plugin registry bookkeeping, wire conversion and
//! small text utilities, each stated and proved with Verus.

pub mod text;

pub mod media;
pub mod sort;
pub mod abi;
pub mod merge;
pub mod wire_metadata;
pub mod wire;
pub mod request;
pub mod outcome;
pub mod sources;
pub mod dispatch;
pub mod ipc;
pub mod registry;
pub mod ipc_types;
pub mod trace;
pub mod subtitles;
pub mod search_scoped;
pub mod cli;
pub mod catalog;
pub mod dispatch_map;
pub mod plugin_call;
pub mod catalog_search;
pub mod video_enrich;
pub mod music_enrich;
pub mod fanart;
pub mod lastfm;
pub mod mdblist;
pub mod error;
pub mod indexer;
pub mod logging;
pub mod ipc_batcher;
pub mod episodes;
pub mod events;
pub mod fan_out;
pub mod ipc_dispatch;
pub mod media_item;
pub mod metadata_backend;
pub mod pipeline;
pub mod verb_calls;
pub mod scope_run;
