//! IPC request, response and event records: the plain values the host
//! serialises to and from the TUI's JSON lines.

use vstd::prelude::*;
use crate::abi::{
    ArtworkRequest, ArtworkResponse, CreditsRequest, CreditsResponse, EnrichRequest, IdMap,
    LookupRequest, PluginEntry, RelatedRequest,
};
use crate::ipc::MediaTab;

verus! {

#[derive(Debug)]
pub struct PlayRequest {
    /// Correlation ID echoed back in the player_started event.
    pub id: String,
    /// Catalog entry ID (e.g. `"tt0816692"`).
    pub entry_id: String,
    /// Provider that owns this entry.
    pub provider: String,
    /// IMDB ID for subtitle/metadata enrichment.
    pub imdb_id: String,
    /// UI tab the play request originated from (used to route audio to MPD).
    pub tab: Option<MediaTab>,
}

#[derive(Debug)]
pub struct ResolveRequest {
    pub id: String,
    pub entry_id: String,
    pub provider: String,
}

#[derive(Debug)]
pub struct GetStreamsRequest {
    pub id: String,
    pub entry_id: String,
    // Fields of the stream-provider flow (episode streams); a caller that
    // passes only `entry_id` gets the resolve fan-out instead.
    pub title: String,
    pub year: Option<u32>,
    pub kind: Option<String>,
    pub season: Option<u32>,
    pub episode: Option<u32>,
    pub external_ids: IdMap,
    pub imdb_id: Option<String>,
    pub tmdb_id: Option<String>,
}

#[derive(Debug)]
pub struct MetadataRequest {
    pub id: String,
    pub entry_id: String,
    /// Legacy field kept for the original "fetch the bag of metadata for
    /// this entry" callers. The episodes path leaves it empty and routes
    /// via `id_source` instead.
    pub provider: String,
    /// Discriminator selecting the metadata sub-flow. Today only
    /// `"episodes"` is honoured; legacy callers omit this and receive the
    /// generic detail-bag flow.
    pub kind: String,
    /// Plugin id to route the request to (e.g. `"tmdb"`). When empty the
    /// runtime peels a `<provider>-<id>` prefix from `entry_id`, falling
    /// back to `"tmdb"` for the episodes verb.
    pub id_source: String,
    /// Season number for the episodes verb. Ignored otherwise.
    pub season: u32,
    /// Cross-provider id map from the catalog entry, e.g.
    /// `{"imdb": "tt12345", "tvdb": "67890"}`. Used by the episodes
    /// fallback chain — when TMDB fails, the runtime reuses
    /// `external_ids["tvdb"]` to retry against the TVDB-native client
    /// without needing a roundtrip back to TMDB to discover the id.
    pub external_ids: IdMap,
}

#[derive(Debug)]
pub struct LoadPluginRequest {
    /// Filesystem path to the plugin directory (must contain `plugin.toml`).
    pub path: String,
}

#[derive(Debug)]
pub struct UnloadPluginRequest {
    pub plugin_id: String,
}

/// Force-refresh a catalog tab. The runtime clears its in-mem SearchCache
/// entries for this tab's scope, then re-dispatches provider searches as
/// if the TTL had expired.
#[derive(Debug)]
pub struct CatalogRefreshRequest {
    pub id: Option<String>,
    pub tab: MediaTab,
}

/// IPC wrapper for a `Lookup` request routed to a specific plugin.
#[derive(Debug, Clone)]
pub struct LookupIpcRequest {
    /// Correlation ID echoed back in `LookupIpcResponse`.
    pub query_id: u64,
    /// Plugin name to route this request to.
    pub plugin: String,
    pub inner: LookupRequest,
}

/// IPC wrapper for an `Enrich` request routed to a specific plugin.
#[derive(Debug, Clone)]
pub struct EnrichIpcRequest {
    /// Correlation ID echoed back in `EnrichIpcResponse`.
    pub query_id: u64,
    /// Plugin name to route this request to.
    pub plugin: String,
    pub inner: EnrichRequest,
}

/// IPC wrapper for a `GetArtwork` request routed to a specific plugin.
#[derive(Debug, Clone)]
pub struct ArtworkIpcRequest {
    /// Correlation ID echoed back in `ArtworkIpcResponse`.
    pub query_id: u64,
    /// Plugin name to route this request to.
    pub plugin: String,
    pub inner: ArtworkRequest,
}

/// IPC wrapper for a `GetCredits` request routed to a specific plugin.
#[derive(Debug, Clone)]
pub struct CreditsIpcRequest {
    /// Correlation ID echoed back in `CreditsIpcResponse`.
    pub query_id: u64,
    /// Plugin name to route this request to.
    pub plugin: String,
    pub inner: CreditsRequest,
}

/// IPC wrapper for a `Related` request routed to a specific plugin.
#[derive(Debug, Clone)]
pub struct RelatedIpcRequest {
    /// Correlation ID echoed back in `RelatedIpcResponse`.
    pub query_id: u64,
    /// Plugin name to route this request to.
    pub plugin: String,
    pub inner: RelatedRequest,
}

#[derive(Debug)]
pub struct ResolveResponse {
    pub id: String,
    pub stream_url: String,
    pub quality: Option<String>,
    pub subtitles: Vec<SubtitleTrack>,
}

/// Sent once after all providers have either returned partials or hit
/// the deadline. Marks the end of the streaming phase so the TUI can
/// clear the in-flight spinner.
#[derive(Debug, Clone)]
pub struct StreamsCompleteWire {
    pub entry_id: String,
    pub season: u32,
    pub episode: u32,
    /// Optional last-resort error string when no provider returned
    /// any results. The TUI shows this in the streams column instead
    /// of the "no streams found" placeholder.
    pub error: Option<String>,
}

#[derive(Debug)]
pub struct PluginListResponse {
    pub plugins: Vec<PluginInfo>,
}

#[derive(Debug)]
pub struct PluginLoadedResponse {
    pub plugin_id: String,
    pub name: String,
}

#[derive(Debug)]
pub struct PluginUnloadedResponse {
    pub plugin_id: String,
}

#[derive(Debug)]
pub struct SetPluginEnabledRequest {
    pub plugin_id: String,
    pub enabled: bool,
}

#[derive(Debug)]
pub struct PluginEnabledResponse {
    pub plugin_id: String,
    pub enabled: bool,
}

#[derive(Debug)]
pub struct ErrorResponse {
    pub id: Option<String>,
    pub code: ErrorCode,
    pub message: String,
}

/// One configurable field for a provider (e.g. an API key slot).
#[derive(Debug, Clone)]
pub struct ProviderField {
    /// Config key path, e.g. `"plugins.tmdb.api_key"`.
    pub key: String,
    /// Human-readable label shown in the TUI.
    pub label: String,
    /// Short hint shown below the input field.
    pub hint: String,
    /// Whether to mask the value (passwords / API keys).
    pub masked: bool,
    /// Whether a non-empty value is currently configured.
    pub configured: bool,
    /// Whether this field is required for the plugin to work.
    pub required: bool,
    /// Current value (masked in TUI if masked=true).
    pub value: String,
}

/// Configuration schema for one provider.
#[derive(Debug, Clone)]
pub struct ProviderSchema {
    pub id: String,
    pub name: String,
    pub description: String,
    /// Plugin type: "metadata", "stream", "subtitle", etc.
    pub plugin_type: String,
    /// Provider is active (enabled and fully configured).
    pub active: bool,
    pub fields: Vec<ProviderField>,
}

/// Response payload for `GetProviderSettings`.
#[derive(Debug, Clone)]
pub struct ProviderSettingsResponse {
    pub providers: Vec<ProviderSchema>,
}

/// A single MPD audio output device.
#[derive(Debug, Clone)]
pub struct MpdOutputInfo {
    pub id: u32,
    pub name: String,
    pub plugin: String,
    pub enabled: bool,
}

/// Response to `GetMpdOutputs`.
#[derive(Debug, Clone)]
pub struct MpdOutputsResponse {
    pub outputs: Vec<MpdOutputInfo>,
}

#[derive(Debug, Clone)]
pub struct MpdGetQueueRequest {
    pub id: String,
}

/// `what` is one of `"artists"`, `"albums"`, `"songs"`.  `artist` is required
/// when `what == "albums"` or `what == "songs"`; `album` is required when
/// `what == "songs"`.  Empty string means "no filter".
#[derive(Debug, Clone)]
pub struct MpdListRequest {
    pub id: String,
    pub what: String,
    pub artist: String,
    pub album: String,
    /// Raw MPD `Date:` value used to disambiguate multiple releases of the
    /// same album (e.g. a 1996 original vs a 2007 remaster sharing the
    /// Album/Artist tags). Empty means no date filter.
    pub date: String,
}

#[derive(Debug, Clone)]
pub struct MpdBrowseRequest {
    pub id: String,
    /// Relative path inside the MPD music directory.  Empty = root.
    pub path: String,
}

#[derive(Debug, Clone)]
pub struct MpdGetPlaylistsRequest {
    pub id: String,
}

#[derive(Debug, Clone)]
pub struct MpdGetPlaylistRequest {
    pub id: String,
    pub name: String,
}

/// One artist in the MPD library.
#[derive(Debug, Clone)]
pub struct MpdArtistWire {
    pub name: String,
}

/// One album in the MPD library.
#[derive(Debug, Clone)]
pub struct MpdAlbumWire {
    pub title: String,
    pub artist: String,
    /// Release year as a string (MPD returns `Date:` which may be full date or year).
    pub year: String,
    /// Raw MPD `Date:` value (e.g. "1996-11-01"), kept so the TUI can echo
    /// it back when asking for this specific release's tracks. Empty if the
    /// album has no Date tag.
    pub date: String,
    /// Pre-normalized artist value, populated only when normalization changed it.
    pub raw_artist: String,
    /// Pre-normalized album title, populated only when normalization changed it.
    pub raw_title: String,
}

/// A saved MPD playlist descriptor (name + last-modified timestamp).
#[derive(Debug, Clone)]
pub struct MpdSavedPlaylistWire {
    pub name: String,
    /// ISO-8601 timestamp as returned by MPD; empty when unknown.
    pub modified: String,
}

/// Request for a lastfm album's tracklist via album.getInfo.
/// (artist, album) is sufficient — lastfm's API resolves to a unique
/// release. `id` is the request correlation id used to route the
/// response back to the right pending caller in the TUI.
#[derive(Debug, Clone)]
pub struct LastfmAlbumTracksRequest {
    pub id: String,
    pub artist: String,
    pub album: String,
}

/// Response carrying the tracklist for a lastfm album. `tracks`
/// preserves the order returned by last.fm (which is the album's
/// canonical ordering). Empty when the album wasn't found or the
/// API returned no `tracks.track[]` block.
#[derive(Debug, Clone)]
pub struct LastfmAlbumTracksResponse {
    pub id: String,
    pub artist: String,
    pub album: String,
    pub tracks: Vec<LastfmAlbumTrackWire>,
}

/// One track in a lastfm album response. `number` is 1-based.
/// `duration_secs` is None when last.fm doesn't have a duration
/// (some sparse releases). `mbid` is the recording's MusicBrainz id
/// when available — useful for downstream lookups.
#[derive(Debug, Clone)]
pub struct LastfmAlbumTrackWire {
    pub number: u32,
    pub title: String,
    pub duration_secs: Option<u32>,
    pub mbid: Option<String>,
}

/// Request for the metadata-source plugins that contribute to a kind's
/// detail-card fan-out. Drives the Settings → Metadata Sources screen.
/// `kind` is the lowercase TUI tab label: "movies" / "series" /
/// "anime" / "music". `id` correlates the response back to the caller.
#[derive(Debug, Clone)]
pub struct MetadataPluginsForKindRequest {
    pub id: String,
    pub kind: String,
}

/// Response describing every plugin that the runtime would route a
/// detail-metadata request to for `kind`. Three lists, mutually
/// disjoint after the dedupe step the runtime applies:
///
///   - `priority`: plugin names from the user's configured priority
///     list, in the order they'll be consulted.
///   - `discovered`: plugin names auto-discovered via manifest tags
///     (`tags = ["<kind>"]`) that aren't already in the priority list.
///   - `disabled`: plugin names the user has explicitly excluded.
///
/// The TUI renders these as a single editable list with status chips
/// per row (priority N / discovered / disabled) and a toggle key that
/// edits the disabled list via `set_config`.
#[derive(Debug, Clone)]
pub struct MetadataPluginsForKindResponse {
    pub id: String,
    pub kind: String,
    pub priority: Vec<String>,
    pub discovered: Vec<String>,
    pub disabled: Vec<String>,
}

#[derive(Debug, Clone)]
pub struct MpdGetPlaylistsResponse {
    pub id: String,
    pub playlists: Vec<MpdSavedPlaylistWire>,
}

/// Which MPD entity types to search.
#[derive(Debug, Clone, Copy, PartialEq, Eq)]
pub enum MpdScope {
    Artist,
    Album,
    Track,
}

/// Request to search the MPD library by artist, album, or track.
#[derive(Debug, Clone)]
pub struct MpdSearchRequest {
    pub id: String,
    pub query: String,
    pub scopes: Vec<MpdScope>,
    pub limit: u32,
    pub query_id: u64,
}

/// Error variants for MPD search.
#[derive(Debug, Clone, PartialEq)]
pub enum MpdSearchError {
    NotConnected,
    CommandFailed { message: String },
}

#[derive(Debug, Clone)]
pub struct GetAlbumArtRequest {
    pub id: String,
    /// Relative path to the audio file within the MPD music directory.
    pub file: String,
}

#[derive(Debug, Clone)]
pub struct GetAlbumArtResponse {
    pub id: String,
    /// Absolute path to the cached image file, or empty if no art found.
    pub path: String,
}

#[derive(Debug, Clone)]
pub struct MarkTagExceptionRequest {
    pub id: String,
    pub field: String,
    pub raw_value: String,
}

#[derive(Debug, Clone)]
pub struct ActionATagsPreviewRequest {
    pub id: String,
    pub scope: TagWriteScope,
}

#[derive(Debug, Clone)]
pub enum TagWriteScope {
    Album {
        artist: String,
        album: String,
        date: String,
    },
    Artist {
        artist: String,
    },
    Library,
}

#[derive(Debug, Clone)]
pub struct ActionATagsApplyRequest {
    pub id: String,
    pub job_id: String,
}

#[derive(Debug, Clone)]
pub struct ActionATagsCancelRequest {
    pub id: String,
    pub job_id: String,
}

#[derive(Debug, Clone)]
pub struct MarkTagExceptionResponse {
    pub id: String,
    pub added: bool,
}

#[derive(Debug, Clone)]
pub struct TagDiffRowWire {
    pub file: String,
    pub field: String,
    pub old_value: String,
    pub new_value: String,
}

#[derive(Debug, Clone)]
pub struct ActionATagsPreviewResponse {
    pub id: String,
    pub job_id: String,
    pub rows: Vec<TagDiffRowWire>,
    pub total_files: usize,
}

#[derive(Debug, Clone)]
pub struct ActionATagsApplyResponse {
    pub id: String,
    pub succeeded: usize,
    pub failed: usize,
    pub skipped_cancelled: usize,
    pub failures: Vec<String>,
    pub rescan_path: String,
}

#[derive(Debug, Clone)]
pub struct ActionATagsCancelResponse {
    pub id: String,
    pub cancelled: bool,
}

/// Response to a `Lookup` IPC request.
#[derive(Debug, Clone)]
pub struct LookupIpcResponse {
    /// Correlation ID echoing the originating `LookupIpcRequest::query_id`.
    pub query_id: u64,
    pub entry: PluginEntry,
}

/// Response to an `Enrich` IPC request.
#[derive(Debug, Clone)]
pub struct EnrichIpcResponse {
    /// Correlation ID echoing the originating `EnrichIpcRequest::query_id`.
    pub query_id: u64,
    pub entry: PluginEntry,
}

/// Response to a `GetArtwork` IPC request.
#[derive(Debug, Clone)]
pub struct ArtworkIpcResponse {
    /// Correlation ID echoing the originating `ArtworkIpcRequest::query_id`.
    pub query_id: u64,
    pub inner: ArtworkResponse,
}

/// Response to a `GetCredits` IPC request.
#[derive(Debug, Clone)]
pub struct CreditsIpcResponse {
    /// Correlation ID echoing the originating `CreditsIpcRequest::query_id`.
    pub query_id: u64,
    pub inner: CreditsResponse,
}

/// Response to a `Related` IPC request.
#[derive(Debug, Clone)]
pub struct RelatedIpcResponse {
    /// Correlation ID echoing the originating `RelatedIpcRequest::query_id`.
    pub query_id: u64,
    pub items: Vec<PluginEntry>,
}

/// Wire shape for a single episode. Mirrors the TUI's `ipc.EpisodeEntry`
/// (and `sdk::EpisodeWire`) field-for-field — Go side decodes by JSON tag
/// so no Rust-level type alias on the TUI is needed.
#[derive(Debug, Clone)]
pub struct EpisodeEntryWire {
    pub season: u32,
    pub episode: u32,
    pub title: String,
    pub air_date: Option<String>,
    pub runtime_mins: Option<u32>,
    pub provider: String,
    pub entry_id: String,
}

/// Response payload for `Response::EpisodesLoaded`. The `id` field is
/// echoed by `inject_id_into_response` only if missing, but we set it
/// explicitly so the TUI's pending-id router always finds a match.
#[derive(Debug, Clone)]
pub struct EpisodesLoadedResponse {
    pub id: String,
    pub episodes: Vec<EpisodeEntryWire>,
}

#[derive(Debug)]
pub struct SetPluginReposRequest {
    pub repos: Vec<String>,
}

#[derive(Debug)]
pub struct PluginReposResponse {
    pub repos: Vec<String>,
}

/// Request payload for `InstallPlugin`.
#[derive(Debug)]
pub struct InstallPluginRequest {
    /// Exact plugin name from the registry entry.
    pub name: String,
    /// Semver version string from the registry entry.
    pub version: String,
    /// Download URL for the plugin bundle.
    pub binary_url: String,
    /// SHA-256 checksum in the form `"sha256:<hex>"`.
    pub checksum: String,
}

/// A single entry in the registry index.
#[derive(Debug, Clone)]
pub struct RegistryEntryWire {
    pub name: String,
    pub version: String,
    pub plugin_type: String,
    pub description: String,
    pub author: String,
    pub homepage: Option<String>,
    pub binary_url: String,
    pub checksum: String,
    /// Whether this plugin is already installed (matching name in plugin_dir).
    pub installed: bool,
}

/// Response to `BrowseRegistry`.
#[derive(Debug, Clone)]
pub struct RegistryIndexResponse {
    pub entries: Vec<RegistryEntryWire>,
    /// Repo URLs that failed to fetch (for user-visible warning).
    pub failed_repos: Vec<String>,
}

/// Response to `InstallPlugin`.
#[derive(Debug, Clone)]
pub struct PluginInstalledResponse {
    pub name: String,
    pub version: String,
    /// Installed directory path.
    pub path: String,
}

/// Pushed when the catalog attempted to refresh a tab but the provider
/// fan-out returned zero entries (every provider errored, or no provider
/// could respond). Signals "offline / network unreachable" to the TUI so
/// it can flag the grid as stale. Entries already on screen continue to
/// display from the disk grid cache — the runtime just doesn't overwrite
/// them with an empty result.
#[derive(Debug)]
pub struct CatalogStaleEvent {
    pub tab: String,
    /// Short human-readable description of why the refresh produced no
    /// entries. E.g. "no active providers", "all providers errored",
    /// "network offline". Meant for status-bar display; not an error code.
    pub reason: String,
}

/// Pushed when a plugin is hot-loaded or hot-unloaded.
#[derive(Debug)]
pub struct PluginToastEvent {
    pub plugin_name: String,
    pub version: String,
    pub plugin_type: String,
    pub message: String,
}

/// Pushed when mpv exits.
#[derive(Debug)]
pub struct PlayerEndedEvent {
    /// `"eof"` | `"quit"` | `"error"`
    pub reason: String,
    pub error: String,
}

/// A subtitle track (language + URL).
#[derive(Debug, Clone)]
pub struct SubtitleTrack {
    pub language: String,
    pub url: String,
    /// `"srt"` | `"vtt"` | `"ass"`
    pub format: String,
}

/// Plugin metadata as reported to the TUI.
#[derive(Debug, Clone)]
pub struct PluginInfo {
    pub id: String,
    pub name: String,
    pub version: String,
    pub plugin_type: String,
    pub status: PluginStatus,
    /// Mirror of `status == Loaded` but kept as an explicit bool so the
    /// TUI doesn't need to know the full status enum to decide whether
    /// to show the Enable vs Disable action. Stays in sync with
    /// `status` inside `list_plugins`.
    pub enabled: bool,
    /// Tags for organizing plugins (e.g., "movies", "music", "anime", "tv", "subtitles")
    pub tags: Vec<String>,
    /// One-line description from plugin.toml [plugin] description field.
    pub description: String,
    /// Author from plugin.toml [meta] author field.
    pub author: String,
}

#[derive(Debug, Clone, PartialEq, Eq)]
pub enum PluginStatus {
    Loaded,
    Failed,
    Disabled,
}

#[derive(Debug, Clone)]
pub enum ErrorCode {
    PluginNotFound,
    PluginLoadFailed,
    SearchFailed,
    ResolveFailed,
    MetadataFailed,
    InvalidRequest,
    Internal,
}

/// User preferences for stream ranking (subset of RankingPolicy).
#[derive(Debug, Clone)]
pub struct StreamPreferencesWire {
    pub prefer_protocol: Option<String>,
    pub max_resolution: Option<String>,
    pub max_size_mb: u64,
    pub min_seeders: u32,
    pub avoid_labels: Vec<String>,
    pub prefer_hdr: bool,
    pub prefer_codecs: Vec<String>,
}

#[derive(Debug)]
pub struct SetStreamPolicyRequest {
    pub policy: StreamPreferencesWire,
}

#[derive(Debug)]
pub struct StreamPolicyResponse {
    pub policy: StreamPreferencesWire,
}

#[derive(Debug, Clone)]
pub struct GetWatchHistoryEntryRequest {
    pub id: String,
}

#[derive(Debug, Clone)]
pub struct GetWatchHistoryInProgressRequest {
    pub tab: String,
}

#[derive(Debug, Clone)]
pub struct MarkWatchHistoryCompletedRequest {
    pub id: String,
}

#[derive(Debug, Clone)]
pub struct RemoveWatchHistoryEntryRequest {
    pub id: String,
}

#[derive(Debug, Clone)]
pub struct WatchHistoryUpsertResponse {
    pub success: bool,
}

#[derive(Debug, Clone)]
pub struct WatchHistoryPositionUpdateResponse {
    pub success: bool,
}

#[derive(Debug, Clone)]
pub struct WatchHistoryRemoveResponse {
    pub success: bool,
}

#[derive(Debug, Clone)]
pub struct GetMediaCacheTabRequest {
    pub tab: String,
}

#[derive(Debug, Clone)]
pub struct GetMediaCacheAllRequest {}

#[derive(Debug, Clone)]
pub struct GetMediaCacheStatsRequest {}

#[derive(Debug, Clone)]
pub struct ClearMediaCacheRequest {}

#[derive(Debug, Clone)]
pub struct MediaCacheStatsResponse {
    pub total_count: usize,
    pub last_updated: i64,
}

#[derive(Debug, Clone)]
pub struct MediaCacheClearResponse {
    pub success: bool,
}

#[derive(Debug, Clone)]
pub struct SetStoragePathsRequest {
    pub movies: Option<String>,
    pub series: Option<String>,
    pub music: Option<String>,
    pub anime: Option<String>,
    pub podcasts: Option<String>,
}

#[derive(Debug, Clone)]
pub struct StoragePathsResponse {
    pub movies: String,
    pub series: String,
    pub music: String,
    pub anime: String,
    pub podcasts: String,
}

#[derive(Debug, Clone)]
pub struct SetDspConfigRequest {
    pub enabled: Option<bool>,
    pub output_sample_rate: Option<u32>,
    pub upsample_ratio: Option<u32>,
    pub filter_type: Option<String>,
    pub resample_enabled: Option<bool>,
    pub dsd_to_pcm_enabled: Option<bool>,
    pub output_mode: Option<String>,
    pub convolution_enabled: Option<bool>,
    pub convolution_bypass: Option<bool>,
    pub buffer_size: Option<usize>,
}

#[derive(Debug, Clone)]
pub struct LoadConvolutionFilterRequest {
    pub path: String,
}

#[derive(Debug, Clone)]
pub struct DspStatusResponse {
    pub enabled: bool,
    pub output_sample_rate: u32,
    pub resample_enabled: bool,
    pub dsd_to_pcm_enabled: bool,
    pub convolution_enabled: bool,
    pub convolution_bypass: bool,
    pub active: bool,
}

#[derive(Debug, Clone)]
pub struct SaveDspProfileRequest {
    pub name: String,
}

#[derive(Debug, Clone)]
pub struct LoadDspProfileRequest {
    pub name: String,
}

#[derive(Debug, Clone)]
pub struct DeleteDspProfileRequest {
    pub name: String,
}

/// Plugins listed without an `enabled` flag are enabled.
pub fn pluginfo_default_enabled() -> (r: bool)
    ensures
        r,
{
    true
}

} // verus!
