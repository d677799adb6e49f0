//! Where a detail-metadata call goes: the runtime-native TVDB and fanart
//! sources or a plugin's supervisor, with the fanart artwork adapter and
//! the errors answered when a native client is missing.

use vstd::prelude::*;
use crate::abi::{ArtworkResponse, ArtworkSize, ArtworkVariant, EnrichResponse, EntryKind, MetadataVerb, PluginEntry};
use crate::text::{owned, push_str, str_eq};

verus! {

/// What answers one metadata call.
#[derive(Debug, Clone, Copy, PartialEq, Eq, Structural)]
pub enum MetadataBackend {
    /// The runtime-native TVDB client.
    Tvdb,
    /// The runtime-native fanart.tv client.
    Fanart,
    /// TVDB, asked for something it does not do.
    TvdbUnsupported,
    /// The named plugin, through its supervisor.
    Plugin,
}

/// The backend of a call: `tvdb` serves enrich, credits and artwork itself
/// and refuses related; `fanart` serves artwork itself; every other call
/// goes to the plugin.
pub open spec fn backend_of(plugin: Seq<char>, verb: MetadataVerb) -> MetadataBackend {
    if plugin == "tvdb"@ {
        match verb {
            MetadataVerb::Enrich | MetadataVerb::Credits | MetadataVerb::Artwork => MetadataBackend::Tvdb,
            MetadataVerb::Related => MetadataBackend::TvdbUnsupported,
            _ => MetadataBackend::Plugin,
        }
    } else if plugin == "fanart"@ && verb == MetadataVerb::Artwork {
        MetadataBackend::Fanart
    } else {
        MetadataBackend::Plugin
    }
}

/// The backend of a call (see `backend_of`).
pub fn metadata_backend(plugin: &str, verb: MetadataVerb) -> (r: MetadataBackend)
    ensures
        r == backend_of(plugin@, verb),
{
    if str_eq(plugin, "tvdb") {
        match verb {
            MetadataVerb::Enrich | MetadataVerb::Credits | MetadataVerb::Artwork => MetadataBackend::Tvdb,
            MetadataVerb::Related => MetadataBackend::TvdbUnsupported,
            _ => MetadataBackend::Plugin,
        }
    } else if str_eq(plugin, "fanart") && verb == MetadataVerb::Artwork {
        MetadataBackend::Fanart
    } else {
        MetadataBackend::Plugin
    }
}

/// The error of a call to a native source whose client is not configured.
pub fn client_unavailable(source: &str) -> (r: String)
    ensures
        r@ == source@ + ": client not available"@,
{
    let mut s = owned(source);
    push_str(&mut s, ": client not available");
    s
}

/// The error of a related call routed to TVDB.
pub fn tvdb_related_unsupported() -> (r: String)
    ensures
        r@ == "tvdb: related not implemented"@,
{
    owned("tvdb: related not implemented")
}

/// The bits of the `f32` confidence 1.0.
pub const FULL_CONFIDENCE_BITS: u32 = 0x3f80_0000;

/// A plugin's enriched entry as an enrich answer, with full confidence
/// (the supervisor drops the plugin's own).
pub fn enrich_answer(entry: PluginEntry) -> (r: EnrichResponse)
    ensures
        r.entry == entry,
        r.confidence == FULL_CONFIDENCE_BITS,
{
    EnrichResponse { entry, confidence: FULL_CONFIDENCE_BITS }
}

/// The fanart endpoint family of a request.
#[derive(Debug, Clone, Copy, PartialEq, Eq, Structural)]
pub enum FanartEndpoint {
    Movies,
    Tv,
}

/// The `Debug` name of an entry kind.
pub open spec fn kind_debug(k: EntryKind) -> Seq<char> {
    match k {
        EntryKind::Artist => "Artist"@,
        EntryKind::Album => "Album"@,
        EntryKind::Track => "Track"@,
        EntryKind::Movie => "Movie"@,
        EntryKind::Series => "Series"@,
        EntryKind::Episode => "Episode"@,
    }
}

/// The fanart endpoint of an artwork request's kind: movies for movies,
/// TV for series and episodes; any other kind is refused.
pub fn fanart_endpoint(kind: EntryKind) -> (r: Result<FanartEndpoint, String>)
    ensures
        match kind {
            EntryKind::Movie => r == Ok::<FanartEndpoint, String>(FanartEndpoint::Movies),
            EntryKind::Series | EntryKind::Episode => r == Ok::<FanartEndpoint, String>(FanartEndpoint::Tv),
            _ => r matches Err(e) && e@ == "fanart: unsupported kind "@ + kind_debug(kind),
        },
{
    match kind {
        EntryKind::Movie => Ok(FanartEndpoint::Movies),
        EntryKind::Series | EntryKind::Episode => Ok(FanartEndpoint::Tv),
        _ => {
            let mut e = owned("fanart: unsupported kind ");
            let name = match kind {
                EntryKind::Artist => "Artist",
                EntryKind::Album => "Album",
                _ => "Track",
            };
            push_str(&mut e, name);
            Err(e)
        },
    }
}

/// The path segment and error label of an endpoint family.
pub fn fanart_path(e: FanartEndpoint) -> (r: &'static str)
    ensures
        r@ == match e {
            FanartEndpoint::Movies => "movies"@,
            FanartEndpoint::Tv => "tv"@,
        },
{
    match e {
        FanartEndpoint::Movies => "movies",
        FanartEndpoint::Tv => "tv",
    }
}

/// The error of a failed fanart fetch.
pub fn fanart_fetch_error(e: FanartEndpoint, err: &str) -> (r: String)
    ensures
        r@ == match e {
            FanartEndpoint::Movies => "fanart: movie artwork: "@,
            FanartEndpoint::Tv => "fanart: tv artwork: "@,
        } + err@,
{
    let mut s = match e {
        FanartEndpoint::Movies => owned("fanart: movie artwork: "),
        FanartEndpoint::Tv => owned("fanart: tv artwork: "),
    };
    push_str(&mut s, err);
    s
}

/// The artwork answer of fanart's URLs, in order: each a full-resolution
/// JPEG variant of unknown size.
pub fn fanart_variants(urls: Vec<String>) -> (r: ArtworkResponse)
    ensures
        r.variants@.len() == urls@.len(),
        forall|i: int|
            0 <= i < urls@.len() ==> (#[trigger] r.variants@[i]).url == urls@[i] && r.variants@[i].size
                == ArtworkSize::HiRes && r.variants@[i].mime@ == "image/jpeg"@ && r.variants@[i].width is None
                && r.variants@[i].height is None,
{
    let ghost all = urls@;
    let n = urls.len();
    let mut rest = urls;
    let mut out: Vec<ArtworkVariant> = Vec::new();
    let mut i: usize = 0;
    assert(rest@ =~= all.subrange(0, all.len() as int));
    while rest.len() > 0
        invariant
            n == all.len(),
            i + rest@.len() == all.len(),
            rest@ =~= all.subrange(i as int, all.len() as int),
            out@.len() == i,
            forall|j: int|
                0 <= j < i ==> (#[trigger] out@[j]).url == all[j] && out@[j].size == ArtworkSize::HiRes
                    && out@[j].mime@ == "image/jpeg"@ && out@[j].width is None && out@[j].height is None,
        decreases rest@.len(),
    {
        let url = rest.remove(0);
        assert(url == all[i as int]);
        out.push(ArtworkVariant { size: ArtworkSize::HiRes, url, mime: owned("image/jpeg"), width: None, height: None });
        i += 1;
    }
    ArtworkResponse { variants: out }
}

} // verus!
