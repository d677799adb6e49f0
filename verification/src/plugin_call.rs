//! Single-plugin scoped search through a WASM supervisor: the plugin lookup
//! before the call, the classification of ABI failures, and the conversion
//! of each returned entry to its wire form.

use vstd::prelude::*;
use std::sync::Arc;
use crate::abi::{EntryKind, PluginEntry, SearchScope, opt_view};
use crate::ipc::{MediaEntry, MediaTab, MediaType};
use crate::registry::PluginRegistry;
use crate::text::{contains, contains_sub, decimal, decimal_string, owned, push_str};

verus! {

/// Most plugin calls the runtime runs at once, process-wide.
pub const MAX_CONCURRENT_PLUGIN_CALLS: usize = 8;

/// Page size asked of a plugin by a scoped search.
pub const SCOPED_SEARCH_LIMIT: u32 = 100;

/// A failure reported by the plugin ABI layer.
#[derive(Debug, Clone)]
pub enum AbiError {
    /// The plugin ran and failed; the message is the plugin's.
    Execution(String),
    /// The plugin was built against another ABI version.
    VersionMismatch { plugin: u32, host: u32 },
}

/// The text of an ABI failure.
pub open spec fn abi_error_text(e: AbiError) -> Seq<char> {
    match e {
        AbiError::Execution(m) => "plugin execution failed: "@ + m@,
        AbiError::VersionMismatch { plugin, host } => "ABI version mismatch: plugin "@ + decimal(
            plugin as nat,
        ) + ", host "@ + decimal(host as nat),
    }
}

impl AbiError {
    /// The text of this failure (see `abi_error_text`).
    pub fn message(&self) -> (r: String)
        ensures
            r@ == abi_error_text(*self),
    {
        match self {
            AbiError::Execution(m) => {
                let mut s = owned("plugin execution failed: ");
                push_str(&mut s, m.as_str());
                s
            },
            AbiError::VersionMismatch { plugin, host } => {
                let mut s = owned("ABI version mismatch: plugin ");
                let p = decimal_string(*plugin as u64);
                push_str(&mut s, p.as_str());
                push_str(&mut s, ", host ");
                let h = decimal_string(*host as u64);
                push_str(&mut s, h.as_str());
                s
            },
        }
    }
}

/// Why a single-plugin search failed.
#[derive(Debug, Clone)]
pub enum PluginCallError {
    /// No plugin with the given id is registered.
    PluginNotFound(String),
    /// The plugin does not support the requested scope.
    UnsupportedScope,
    /// The plugin call exceeded its timeout.
    Timeout,
    /// Any other failure (crash, serialisation error, etc.).
    Other(String),
}

/// The user-facing text of a call failure.
pub open spec fn call_error_text(e: PluginCallError) -> Seq<char> {
    match e {
        PluginCallError::PluginNotFound(id) => "plugin '"@ + id@ + "' not found"@,
        PluginCallError::UnsupportedScope => "plugin does not support this scope"@,
        PluginCallError::Timeout => "plugin call timed out"@,
        PluginCallError::Other(m) => m@,
    }
}

impl PluginCallError {
    /// The user-facing text of this failure (see `call_error_text`).
    pub fn message(&self) -> (r: String)
        ensures
            r@ == call_error_text(*self),
    {
        match self {
            PluginCallError::PluginNotFound(id) => {
                let mut s = owned("plugin '");
                push_str(&mut s, id.as_str());
                push_str(&mut s, "' not found");
                s
            },
            PluginCallError::UnsupportedScope => owned("plugin does not support this scope"),
            PluginCallError::Timeout => owned("plugin call timed out"),
            PluginCallError::Other(m) => m.clone(),
        }
    }
}

/// The classification of an ABI failure: an execution failure naming the
/// SDK's `unsupported_scope` code is an unsupported scope, one that says
/// "timed out" is a timeout, any other keeps its message; every other ABI
/// failure is `Other` with its text.
pub open spec fn classified(e: AbiError, r: PluginCallError) -> bool {
    match e {
        AbiError::Execution(m) => if contains_sub(m@, "unsupported_scope"@) {
            r is UnsupportedScope
        } else if contains_sub(m@, "timed out"@) {
            r is Timeout
        } else {
            r matches PluginCallError::Other(t) && t@ == m@
        },
        _ => r matches PluginCallError::Other(t) && t@ == abi_error_text(e),
    }
}

/// Map an ABI failure to a call failure (see `classified`).
pub fn map_abi_error(e: AbiError) -> (r: PluginCallError)
    ensures
        classified(e, r),
{
    match &e {
        AbiError::Execution(msg) => {
            if contains(msg.as_str(), "unsupported_scope") {
                PluginCallError::UnsupportedScope
            } else if contains(msg.as_str(), "timed out") {
                PluginCallError::Timeout
            } else {
                PluginCallError::Other(msg.clone())
            }
        },
        _ => PluginCallError::Other(e.message()),
    }
}

/// The tab an entry of kind `k` is shown in: music kinds in Music, movies
/// in Movies, series and episodes in Series.
pub open spec fn tab_for_kind(k: EntryKind) -> MediaTab {
    match k {
        EntryKind::Artist | EntryKind::Album | EntryKind::Track => MediaTab::Music,
        EntryKind::Movie => MediaTab::Movies,
        EntryKind::Series | EntryKind::Episode => MediaTab::Series,
    }
}

/// The tab an entry of kind `k` is shown in (see `tab_for_kind`).
pub fn media_tab_for_kind(k: EntryKind) -> (t: MediaTab)
    ensures
        t == tab_for_kind(k),
{
    match k {
        EntryKind::Artist | EntryKind::Album | EntryKind::Track => MediaTab::Music,
        EntryKind::Movie => MediaTab::Movies,
        EntryKind::Series | EntryKind::Episode => MediaTab::Series,
    }
}

/// `m` is the wire form of plugin entry `e` from provider `provider`, shown
/// in tab `tab`, with `rating` the text of the entry's rating: ids, title,
/// texts and per-kind fields carried over, the year as decimal text, the
/// default media type, and no per-source scores.
pub open spec fn is_wire_entry_in(
    m: MediaEntry,
    e: PluginEntry,
    provider: Seq<char>,
    tab: MediaTab,
    rating: Option<String>,
) -> bool {
    &&& m.id == e.id
    &&& m.title == e.title
    &&& opt_view(m.year) == match e.year {
        Some(y) => Some(decimal(y as nat)),
        None => None,
    }
    &&& m.genre == e.genre
    &&& m.rating == rating
    &&& m.description == e.description
    &&& m.poster_url == e.poster_url
    &&& m.provider@ == provider
    &&& m.tab == tab
    &&& m.media_type == MediaType::Movie
    &&& m.ratings@.len() == 0
    &&& m.imdb_id == e.imdb_id
    &&& m.tmdb_id is None
    &&& m.mal_id is None
    &&& m.anilist_id is None
    &&& m.kitsu_id is None
    &&& m.original_language is None
    &&& m.kind == e.kind
    &&& m.source == e.source
    &&& m.artist_name == e.artist_name
    &&& m.album_name == e.album_name
    &&& m.track_number == e.track_number
    &&& m.season == e.season
    &&& m.episode == e.episode
    &&& m.season_count is None
    &&& !m.has_specials
}

/// The wire form of a plugin's search entry shown in tab `tab` (see
/// `is_wire_entry_in`). The entry's rating is an `f32`; the caller passes
/// its text, which is `None` exactly when the entry has no rating.
pub fn plugin_entry_to_media_entry(
    e: PluginEntry,
    provider_name: &str,
    tab: MediaTab,
    rating: Option<String>,
) -> (m: MediaEntry)
    requires
        rating is Some == e.rating is Some,
    ensures
        is_wire_entry_in(m, e, provider_name@, tab, rating),
{
    let year = match e.year {
        Some(y) => Some(decimal_string(y as u64)),
        None => None,
    };
    MediaEntry {
        id: e.id,
        title: e.title,
        year,
        genre: e.genre,
        rating,
        description: e.description,
        poster_url: e.poster_url,
        provider: owned(provider_name),
        tab,
        media_type: MediaType::Movie,
        ratings: Vec::new(),
        imdb_id: e.imdb_id,
        tmdb_id: None,
        mal_id: None,
        anilist_id: None,
        kitsu_id: None,
        original_language: None,
        kind: e.kind,
        source: e.source,
        artist_name: e.artist_name,
        album_name: e.album_name,
        track_number: e.track_number,
        season: e.season,
        episode: e.episode,
        season_count: None,
        has_specials: false,
    }
}

/// The wire form of a plugin's scoped-search entry: shown in the tab of
/// its kind (see `tab_for_kind`, `is_wire_entry_in`).
pub fn abi_entry_to_media_entry(e: PluginEntry, provider_name: &str, rating: Option<String>) -> (m: MediaEntry)
    requires
        rating is Some == e.rating is Some,
    ensures
        is_wire_entry_in(m, e, provider_name@, tab_for_kind(e.kind), rating),
{
    let tab = media_tab_for_kind(e.kind);
    plugin_entry_to_media_entry(e, provider_name, tab, rating)
}

/// What a scoped search asks one plugin.
#[derive(Debug, Clone)]
pub struct SearchRequest {
    pub query: String,
    pub scope: SearchScope,
    pub page: u32,
    pub limit: u32,
    pub per_scope_limit: Option<u32>,
    pub locale: Option<String>,
}

/// The request a single-plugin scoped search sends: the query and scope,
/// first page, `SCOPED_SEARCH_LIMIT` results, no per-scope limit or locale.
pub fn scoped_search_request(query: &str, scope: SearchScope) -> (r: SearchRequest)
    ensures
        r.query@ == query@,
        r.scope == scope,
        r.page == 0,
        r.limit == SCOPED_SEARCH_LIMIT,
        r.per_scope_limit is None,
        r.locale is None,
{
    SearchRequest {
        query: owned(query),
        scope,
        page: 0,
        limit: SCOPED_SEARCH_LIMIT,
        per_scope_limit: None,
        locale: None,
    }
}

/// The text of the failure for a registered plugin without a supervisor.
pub open spec fn no_supervisor_text(id: Seq<char>) -> Seq<char> {
    "no WASM supervisor for plugin '"@ + id + "' — non-WASM or load failed"@
}

/// The supervisor a single-plugin search calls: `PluginNotFound` when no
/// plugin has id `plugin_id`, `Other` when it has no WASM supervisor.
pub fn supervisor_for_call<C, S>(reg: &PluginRegistry<C, S>, plugin_id: &str) -> (r: Result<Arc<S>, PluginCallError>)
    ensures
        reg.plugin_of(plugin_id@) is None ==> (r matches Err(PluginCallError::PluginNotFound(id)) && id@ == plugin_id@),
        reg.plugin_of(plugin_id@) is Some ==> match reg.supervisor_of(plugin_id@) {
            Some(s) => r == Ok::<Arc<S>, PluginCallError>(s),
            None => r matches Err(PluginCallError::Other(m)) && m@ == no_supervisor_text(plugin_id@),
        },
{
    if reg.get(plugin_id).is_none() {
        return Err(PluginCallError::PluginNotFound(owned(plugin_id)));
    }
    match reg.wasm_supervisor_for(plugin_id) {
        Some(s) => Ok(s),
        None => {
            let mut m = owned("no WASM supervisor for plugin '");
            push_str(&mut m, plugin_id);
            push_str(&mut m, "' — non-WASM or load failed");
            Err(PluginCallError::Other(m))
        },
    }
}

/// The provider name stamped on a plugin's entries: the registered plugin's
/// display name, else its id.
pub fn provider_name_for<C, S>(reg: &PluginRegistry<C, S>, plugin_id: &str) -> (r: String)
    ensures
        r@ == match reg.plugin_of(plugin_id@) {
            Some(p) => p.name@,
            None => plugin_id@,
        },
{
    match reg.get(plugin_id) {
        Some(p) => p.name.clone(),
        None => owned(plugin_id),
    }
}

} // verus!
