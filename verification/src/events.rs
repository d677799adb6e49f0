//! Every internal event the runtime emits onto its event bus, and the
//! short label each is logged under.

use vstd::prelude::*;
use crate::catalog::CatalogEntry;
use crate::media::StreamCandidate;

verus! {

/// Every event the runtime can emit. Times and positions are the bits of
/// `f64` seconds.
#[derive(Debug, Clone)]
pub enum RuntimeEvent {
    SearchRequested { query: String, tab: String },
    SearchResultsReady { query: String, tab: String, provider: String, count: usize },
    MediaSelected { entry_id: String, title: String },
    StreamsResolved { entry_id: String, candidates: Vec<StreamCandidate> },
    StreamSelected { entry_id: String, url: String, protocol: String, quality: Option<String> },
    PlaybackStarted { title: String, url: String, duration: u64 },
    PlaybackProgress { position: u64, duration: u64, paused: bool, cache_percent: u64 },
    /// `reason` is `eof`, `quit` or `error`.
    PlaybackEnded { reason: String, error: Option<String> },
    StreamSwitchRequested { entry_id: String },
    ProviderError { provider: String, message: String },
    ProviderSuccess { provider: String, latency_ms: u64 },
    ProviderRateLimited { provider: String, retry_after_secs: u64 },
    ProviderTimedOut { provider: String, timeout_ms: u64 },
    AllCandidatesExhausted { entry_id: String },
    PluginLoaded { id: String, name: String, version: String, capabilities: Vec<String> },
    PluginUnloaded { id: String, name: String },
    PluginError { name: String, message: String },
    /// `cache` is `search`, `metadata`, `streams` or `catalog`.
    CachePopulated { cache: String, key: String },
    /// `source` is `cache` or `live`.
    CatalogRefreshed { tab: String, entries: Vec<CatalogEntry>, source: String },
    /// `key` is dot-separated; `value` is JSON text.
    ConfigChanged { key: String, value: String },
    ShutdownRequested,
}

/// The label an event is logged under.
pub open spec fn event_name(e: RuntimeEvent) -> Seq<char> {
    match e {
        RuntimeEvent::SearchRequested { .. } => "search_requested"@,
        RuntimeEvent::SearchResultsReady { .. } => "search_results_ready"@,
        RuntimeEvent::MediaSelected { .. } => "media_selected"@,
        RuntimeEvent::StreamsResolved { .. } => "streams_resolved"@,
        RuntimeEvent::StreamSelected { .. } => "stream_selected"@,
        RuntimeEvent::PlaybackStarted { .. } => "playback_started"@,
        RuntimeEvent::PlaybackProgress { .. } => "playback_progress"@,
        RuntimeEvent::PlaybackEnded { .. } => "playback_ended"@,
        RuntimeEvent::StreamSwitchRequested { .. } => "stream_switch_requested"@,
        RuntimeEvent::ProviderError { .. } => "provider_error"@,
        RuntimeEvent::ProviderSuccess { .. } => "provider_success"@,
        RuntimeEvent::PluginLoaded { .. } => "plugin_loaded"@,
        RuntimeEvent::PluginUnloaded { .. } => "plugin_unloaded"@,
        RuntimeEvent::PluginError { .. } => "plugin_error"@,
        RuntimeEvent::CachePopulated { .. } => "cache_populated"@,
        RuntimeEvent::CatalogRefreshed { .. } => "catalog_refreshed"@,
        RuntimeEvent::ShutdownRequested => "shutdown_requested"@,
        RuntimeEvent::ProviderRateLimited { .. } => "provider_rate_limited"@,
        RuntimeEvent::ProviderTimedOut { .. } => "provider_timed_out"@,
        RuntimeEvent::AllCandidatesExhausted { .. } => "all_candidates_exhausted"@,
        RuntimeEvent::ConfigChanged { .. } => "config_changed"@,
    }
}

impl RuntimeEvent {
    /// The label this event is logged under (see `event_name`).
    pub fn name(&self) -> (r: &'static str)
        ensures
            r@ == event_name(*self),
    {
        match self {
            RuntimeEvent::SearchRequested { .. } => "search_requested",
            RuntimeEvent::SearchResultsReady { .. } => "search_results_ready",
            RuntimeEvent::MediaSelected { .. } => "media_selected",
            RuntimeEvent::StreamsResolved { .. } => "streams_resolved",
            RuntimeEvent::StreamSelected { .. } => "stream_selected",
            RuntimeEvent::PlaybackStarted { .. } => "playback_started",
            RuntimeEvent::PlaybackProgress { .. } => "playback_progress",
            RuntimeEvent::PlaybackEnded { .. } => "playback_ended",
            RuntimeEvent::StreamSwitchRequested { .. } => "stream_switch_requested",
            RuntimeEvent::ProviderError { .. } => "provider_error",
            RuntimeEvent::ProviderSuccess { .. } => "provider_success",
            RuntimeEvent::PluginLoaded { .. } => "plugin_loaded",
            RuntimeEvent::PluginUnloaded { .. } => "plugin_unloaded",
            RuntimeEvent::PluginError { .. } => "plugin_error",
            RuntimeEvent::CachePopulated { .. } => "cache_populated",
            RuntimeEvent::CatalogRefreshed { .. } => "catalog_refreshed",
            RuntimeEvent::ShutdownRequested => "shutdown_requested",
            RuntimeEvent::ProviderRateLimited { .. } => "provider_rate_limited",
            RuntimeEvent::ProviderTimedOut { .. } => "provider_timed_out",
            RuntimeEvent::AllCandidatesExhausted { .. } => "all_candidates_exhausted",
            RuntimeEvent::ConfigChanged { .. } => "config_changed",
        }
    }
}

} // verus!
