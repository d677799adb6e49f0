//! Central media domain types: namespaced identifiers, coarse content
//! classification, playable stream candidates and their protocols.

use vstd::prelude::*;
use vstd::string::*;
use crate::text::{chars_of, owned, push_char, push_str, str_eq, starts_with, ends_with, contains, contains_sub, to_lowercase, unicode_lowercase, ascii_lower_seq};

verus! {

// ── MediaId ──────────────────────────────────────────────────────────────────

/// Namespaced media identifier: `"namespace:key"` on the wire
/// (`tmdb:movie:tt0816692`, `imdb:tt0816692`, `local:/path/file.mkv`).
#[derive(Debug, Clone, PartialEq, Eq, Hash)]
pub struct MediaId {
    /// The provider namespace (e.g. "tmdb", "imdb", "prowlarr", "local").
    pub namespace: String,
    /// The provider-local key (e.g. IMDB ID, internal numeric ID, file path).
    pub key: String,
}

/// `i` is the position of the first `c` in `s`.
pub open spec fn is_first_pos(s: Seq<char>, c: char, i: int) -> bool {
    &&& 0 <= i < s.len()
    &&& s[i] == c
    &&& forall|j: int| 0 <= j < i ==> s[j] != c
}

/// The wire form of an id whose namespace has no colon parses back to the
/// same namespace and key: its colon is the first one, with the namespace
/// before it and the key after it.
pub proof fn lemma_media_id_round_trip(ns: Seq<char>, key: Seq<char>)
    requires
        forall|j: int| 0 <= j < ns.len() ==> ns[j] != ':',
    ensures
        is_first_pos(ns + seq![':'] + key, ':', ns.len() as int),
        (ns + seq![':'] + key).subrange(0, ns.len() as int) == ns,
        (ns + seq![':'] + key).subrange(ns.len() as int + 1, (ns + seq![':'] + key).len() as int) == key,
{
    let s = ns + seq![':'] + key;
    assert(s[ns.len() as int] == ':');
    assert forall|j: int| 0 <= j < ns.len() implies s[j] != ':' by {
        assert(s[j] == ns[j]);
    }
    assert(s.subrange(0, ns.len() as int) =~= ns);
    assert(s.subrange(ns.len() as int + 1, s.len() as int) =~= key);
}

impl MediaId {
    pub fn new(namespace: &str, key: &str) -> (r: MediaId)
        ensures
            r.namespace@ == namespace@,
            r.key@ == key@,
    {
        MediaId { namespace: owned(namespace), key: owned(key) }
    }

    /// Parse a `"namespace:key"` string at its first colon. Without a colon
    /// the whole string is the key and the namespace is `"unknown"`.
    pub fn parse(s: &str) -> (r: MediaId)
        ensures
            (forall|j: int| 0 <= j < s@.len() ==> s@[j] != ':') ==> {
                &&& r.namespace@ == "unknown"@
                &&& r.key@ == s@
            },
            forall|i: int|
                is_first_pos(s@, ':', i) ==> {
                    &&& r.namespace@ == s@.subrange(0, i)
                    &&& r.key@ == s@.subrange(i + 1, s@.len() as int)
                },
    {
        let v = chars_of(s);
        let n = v.len();
        let mut i: usize = 0;
        while i < n
            invariant
                v@ == s@,
                n == s@.len(),
                i <= n,
                forall|j: int| 0 <= j < i ==> s@[j] != ':',
            decreases n - i,
        {
            if v[i] == ':' {
                let ns = owned(s.substring_char(0, i));
                let key = owned(s.substring_char(i + 1, n));
                proof {
                    assert forall|k: int| is_first_pos(s@, ':', k) implies k == i by {
                        if k < i {
                        } else if k > i {
                            assert(s@[i as int] == ':');
                        }
                    }
                }
                return MediaId { namespace: ns, key };
            }
            i += 1;
        }
        MediaId { namespace: owned("unknown"), key: owned(s) }
    }

    /// The canonical `"namespace:key"` wire form.
    pub fn to_string_id(&self) -> (r: String)
        ensures
            r@ == self.namespace@ + seq![':'] + self.key@,
    {
        let mut r = owned(self.namespace.as_str());
        push_char(&mut r, ':');
        push_str(&mut r, self.key.as_str());
        r
    }
}

// ── MediaSource ──────────────────────────────────────────────────────────────

/// Coarse content-type classification: drives which providers are queried,
/// which TUI tab an item belongs to and which player path is taken.
#[derive(Debug, Clone, Copy, PartialEq, Eq, Hash, Default)]
pub enum MediaSource {
    /// A theatrical or home-release film.
    #[default]
    Movie,
    /// A multi-episode TV show or streaming series.
    Series,
    /// A single episode of a series.
    Episode,
    /// A music track, single, or song.
    Track,
    /// A music album or playlist.
    Album,
    /// A live or on-demand internet radio station.
    Radio,
    /// A podcast episode.
    Podcast,
    /// An online video (YouTube, PeerTube, Odysee, etc.).
    Video,
    /// A locally-indexed media file.
    LocalFile,
    /// Content type is not yet determined or not classifiable.
    Unknown,
}

/// The TUI tab label of each source.
pub open spec fn tab_label_of(s: MediaSource) -> Seq<char> {
    match s {
        MediaSource::Movie => "Movies"@,
        MediaSource::Series => "Series"@,
        MediaSource::Episode => "Series"@,
        MediaSource::Track => "Music"@,
        MediaSource::Album => "Music"@,
        MediaSource::Radio => "Radio"@,
        MediaSource::Podcast => "Podcasts"@,
        MediaSource::Video => "Videos"@,
        MediaSource::LocalFile => "Library"@,
        MediaSource::Unknown => "Other"@,
    }
}

/// The source a lowercase tab name selects.
pub open spec fn source_of_tab(l: Seq<char>) -> MediaSource {
    if l == "movies"@ {
        MediaSource::Movie
    } else if l == "series"@ {
        MediaSource::Series
    } else if l == "music"@ {
        MediaSource::Track
    } else if l == "library"@ {
        MediaSource::LocalFile
    } else if l == "radio"@ {
        MediaSource::Radio
    } else if l == "podcasts"@ {
        MediaSource::Podcast
    } else if l == "videos"@ {
        MediaSource::Video
    } else {
        MediaSource::Unknown
    }
}

/// The sources a tab of their own shows.
pub open spec fn has_own_tab(s: MediaSource) -> bool {
    !(s is Episode || s is Album || s is Unknown)
}

/// A source with a tab of its own is selected again by its tab label,
/// lowercased.
pub proof fn lemma_tab_label_round_trip(s: MediaSource)
    requires
        has_own_tab(s),
    ensures
        source_of_tab(ascii_lower_seq(tab_label_of(s))) == s,
{
    reveal_strlit("Movies");
    reveal_strlit("movies");
    reveal_strlit("Series");
    reveal_strlit("series");
    reveal_strlit("Music");
    reveal_strlit("music");
    reveal_strlit("Radio");
    reveal_strlit("radio");
    reveal_strlit("Podcasts");
    reveal_strlit("podcasts");
    reveal_strlit("Videos");
    reveal_strlit("videos");
    reveal_strlit("Library");
    reveal_strlit("library");
    let l = ascii_lower_seq(tab_label_of(s));
    match s {
        MediaSource::Movie => {
            assert(l =~= "movies"@);
            assert(source_of_tab(l) == MediaSource::Movie);
        },
        MediaSource::Series => {
            assert(l =~= "series"@);
            assert(l[0] != "movies"@[0]);
        },
        MediaSource::Track => {
            assert(l =~= "music"@);
            assert(l != "movies"@ && l != "series"@);
        },
        MediaSource::Radio => {
            assert(l =~= "radio"@);
            assert(l[0] != "movies"@[0] && l[0] != "series"@[0] && l[0] != "music"@[0]);
            assert(l.len() != "library"@.len());
        },
        MediaSource::Podcast => {
            assert(l =~= "podcasts"@);
            assert(l.len() != "movies"@.len() && l.len() != "series"@.len() && l.len() != "music"@.len());
            assert(l.len() != "library"@.len() && l.len() != "radio"@.len());
        },
        MediaSource::Video => {
            assert(l =~= "videos"@);
            assert(l[0] != "movies"@[0] && l[0] != "series"@[0] && l[0] != "music"@[0]);
            assert(l.len() != "library"@.len() && l.len() != "radio"@.len() && l.len() != "podcasts"@.len());
        },
        MediaSource::LocalFile => {
            assert(l =~= "library"@);
            assert(l != "movies"@ && l != "series"@ && l != "music"@);
        },
        _ => {},
    }
}

impl MediaSource {
    /// Short label suitable for display in the TUI tab bar.
    pub fn tab_label(&self) -> (r: &'static str)
        ensures
            r@ == tab_label_of(*self),
    {
        match self {
            MediaSource::Movie => "Movies",
            MediaSource::Series => "Series",
            MediaSource::Episode => "Series",
            MediaSource::Track => "Music",
            MediaSource::Album => "Music",
            MediaSource::Radio => "Radio",
            MediaSource::Podcast => "Podcasts",
            MediaSource::Video => "Videos",
            MediaSource::LocalFile => "Library",
            MediaSource::Unknown => "Other",
        }
    }

    /// True if this source type is audio-only (no video track expected).
    pub fn is_audio_only(&self) -> (r: bool)
        ensures
            r == (*self == MediaSource::Track || *self == MediaSource::Album || *self
                == MediaSource::Radio || *self == MediaSource::Podcast),
    {
        match self {
            MediaSource::Track | MediaSource::Album | MediaSource::Radio
            | MediaSource::Podcast => true,
            _ => false,
        }
    }

    /// True if this source typically resolves via torrent or magnet.
    pub fn supports_torrent(&self) -> (r: bool)
        ensures
            r == (*self == MediaSource::Movie || *self == MediaSource::Series || *self
                == MediaSource::Episode || *self == MediaSource::Track || *self
                == MediaSource::Album),
    {
        match self {
            MediaSource::Movie | MediaSource::Series | MediaSource::Episode
            | MediaSource::Track | MediaSource::Album => true,
            _ => false,
        }
    }

    /// The source selected by an already-lowercased tab name.
    pub fn from_tab_lowercase(l: &str) -> (r: MediaSource)
        ensures
            r == source_of_tab(l@),
    {
        if str_eq(l, "movies") {
            MediaSource::Movie
        } else if str_eq(l, "series") {
            MediaSource::Series
        } else if str_eq(l, "music") {
            MediaSource::Track
        } else if str_eq(l, "library") {
            MediaSource::LocalFile
        } else if str_eq(l, "radio") {
            MediaSource::Radio
        } else if str_eq(l, "podcasts") {
            MediaSource::Podcast
        } else if str_eq(l, "videos") {
            MediaSource::Video
        } else {
            MediaSource::Unknown
        }
    }

    /// Best-guess `MediaSource` from a legacy `MediaTab` string, matched
    /// case-insensitively.
    pub fn from_tab_str(tab: &str) -> (r: MediaSource)
        ensures
            r == source_of_tab(unicode_lowercase(tab@)),
    {
        let l = to_lowercase(tab);
        MediaSource::from_tab_lowercase(l.as_str())
    }

    /// All sources that map to the "browse" tabs (shown in the main grid).
    pub fn browseable() -> (r: Vec<MediaSource>)
        ensures
            r@ == seq![
                MediaSource::Movie,
                MediaSource::Series,
                MediaSource::Track,
                MediaSource::Radio,
                MediaSource::Podcast,
                MediaSource::Video,
            ],
    {
        let r = vec![
            MediaSource::Movie,
            MediaSource::Series,
            MediaSource::Track,
            MediaSource::Radio,
            MediaSource::Podcast,
            MediaSource::Video,
        ];
        assert(r@ =~= seq![
            MediaSource::Movie,
            MediaSource::Series,
            MediaSource::Track,
            MediaSource::Radio,
            MediaSource::Podcast,
            MediaSource::Video,
        ]);
        r
    }
}

// ── StreamProtocol ───────────────────────────────────────────────────────────

/// Wire protocol of a playable stream.
#[derive(Debug, Clone, Copy, PartialEq, Eq)]
pub enum StreamProtocol {
    /// BitTorrent: `.torrent` file URL.
    Torrent,
    /// BitTorrent: `magnet:?xt=urn:btih:…` URI.
    Magnet,
    /// Plain HTTP/HTTPS progressive download or direct file URL.
    Http,
    /// HTTP Live Streaming `.m3u8`.
    Hls,
    /// MPEG-DASH `.mpd` manifest.
    Dash,
    /// RTMP live stream.
    Rtmp,
    /// Protocol unknown or not yet classified.
    Unknown,
}

/// The protocol of a URL, given the URL and its lowercase form.
pub open spec fn protocol_of(url: Seq<char>, lower: Seq<char>) -> StreamProtocol {
    if "magnet:"@.is_prefix_of(url) {
        StreamProtocol::Magnet
    } else if ".torrent"@.is_suffix_of(lower) {
        StreamProtocol::Torrent
    } else if contains_sub(lower, ".m3u8"@) {
        StreamProtocol::Hls
    } else if contains_sub(lower, ".mpd"@) {
        StreamProtocol::Dash
    } else if "rtmp://"@.is_prefix_of(lower) {
        StreamProtocol::Rtmp
    } else if "http://"@.is_prefix_of(lower) || "https://"@.is_prefix_of(lower) {
        StreamProtocol::Http
    } else {
        StreamProtocol::Unknown
    }
}

/// Magnet links are magnet streams; any other URL whose lowercase form
/// ends in `.torrent` is a torrent, whatever its scheme — a `.torrent`
/// file served over HTTP goes to aria2, not straight to the player.
pub proof fn lemma_torrent_files(url: Seq<char>, lower: Seq<char>)
    ensures
        "magnet:"@.is_prefix_of(url) ==> protocol_of(url, lower) == StreamProtocol::Magnet,
        !"magnet:"@.is_prefix_of(url) && ".torrent"@.is_suffix_of(lower) ==> protocol_of(url, lower)
            == StreamProtocol::Torrent,
{
}

/// The classes after magnet links and torrents, in order: a playlist
/// (`.m3u8` anywhere) is HLS, else a manifest (`.mpd` anywhere) is DASH,
/// else an `rtmp://` URL is RTMP, else an `http://` or `https://` URL is
/// plain HTTP; anything else is unknown.
pub proof fn lemma_protocol_classes(url: Seq<char>, lower: Seq<char>)
    ensures
        !"magnet:"@.is_prefix_of(url) && !".torrent"@.is_suffix_of(lower) ==> {
            &&& contains_sub(lower, ".m3u8"@) ==> protocol_of(url, lower) == StreamProtocol::Hls
            &&& !contains_sub(lower, ".m3u8"@) && contains_sub(lower, ".mpd"@) ==> protocol_of(url, lower)
                == StreamProtocol::Dash
            &&& !contains_sub(lower, ".m3u8"@) && !contains_sub(lower, ".mpd"@) && "rtmp://"@.is_prefix_of(lower)
                ==> protocol_of(url, lower) == StreamProtocol::Rtmp
            &&& !contains_sub(lower, ".m3u8"@) && !contains_sub(lower, ".mpd"@) && !"rtmp://"@.is_prefix_of(lower)
                && ("http://"@.is_prefix_of(lower) || "https://"@.is_prefix_of(lower)) ==> protocol_of(url, lower)
                == StreamProtocol::Http
            &&& !contains_sub(lower, ".m3u8"@) && !contains_sub(lower, ".mpd"@) && !"rtmp://"@.is_prefix_of(lower)
                && !"http://"@.is_prefix_of(lower) && !"https://"@.is_prefix_of(lower) ==> protocol_of(url, lower)
                == StreamProtocol::Unknown
        },
{
}

impl StreamProtocol {
    /// Classify a URL given its lowercase form `lower`.
    pub fn classify(url: &str, lower: &str) -> (r: StreamProtocol)
        ensures
            r == protocol_of(url@, lower@),
            "magnet:"@.is_prefix_of(url@) ==> r == StreamProtocol::Magnet,
            !"magnet:"@.is_prefix_of(url@) && ".torrent"@.is_suffix_of(lower@) ==> r == StreamProtocol::Torrent,
    {
        proof {
            lemma_torrent_files(url@, lower@);
        }
        if starts_with(url, "magnet:") {
            return StreamProtocol::Magnet;
        }
        if ends_with(lower, ".torrent") {
            return StreamProtocol::Torrent;
        }
        if contains(lower, ".m3u8") {
            return StreamProtocol::Hls;
        }
        if contains(lower, ".mpd") {
            return StreamProtocol::Dash;
        }
        if starts_with(lower, "rtmp://") {
            return StreamProtocol::Rtmp;
        }
        if starts_with(lower, "http://") || starts_with(lower, "https://") {
            return StreamProtocol::Http;
        }
        StreamProtocol::Unknown
    }

    /// Detect the protocol from a URL string.
    pub fn from_url(url: &str) -> (r: StreamProtocol)
        ensures
            r == protocol_of(url@, unicode_lowercase(url@)),
            "magnet:"@.is_prefix_of(url@) ==> r == StreamProtocol::Magnet,
            !"magnet:"@.is_prefix_of(url@) && ".torrent"@.is_suffix_of(unicode_lowercase(url@)) ==> r
                == StreamProtocol::Torrent,
    {
        let lower = to_lowercase(url);
        StreamProtocol::classify(url, lower.as_str())
    }

    /// True if this stream requires aria2c to download before mpv can open it.
    pub fn needs_aria2(&self) -> (r: bool)
        ensures
            r == (*self == StreamProtocol::Torrent || *self == StreamProtocol::Magnet),
    {
        match self {
            StreamProtocol::Torrent | StreamProtocol::Magnet => true,
            _ => false,
        }
    }

    /// True if mpv can open this URL directly without preprocessing.
    pub fn is_direct(&self) -> (r: bool)
        ensures
            r == (*self == StreamProtocol::Http || *self == StreamProtocol::Hls || *self
                == StreamProtocol::Dash || *self == StreamProtocol::Rtmp),
    {
        match self {
            StreamProtocol::Http | StreamProtocol::Hls | StreamProtocol::Dash
            | StreamProtocol::Rtmp => true,
            _ => false,
        }
    }
}

// ── StreamCandidate ──────────────────────────────────────────────────────────

/// A subtitle track bundled directly with a stream.
#[derive(Debug, Clone)]
pub struct BundledSubtitle {
    pub language: String,
    pub url: String,
    /// `"srt"` | `"vtt"` | `"ass"`
    pub format: String,
}

/// A single resolved, playable stream — the unit passed between resolver,
/// quality ranker and player bridge.
#[derive(Debug, Clone)]
pub struct StreamCandidate {
    /// Playable URL: HTTP URL, magnet URI, or .torrent URL.
    pub url: String,
    /// Protocol classification.
    pub protocol: StreamProtocol,
    /// Human-readable quality label, e.g. `"1080p"`.
    pub quality: Option<String>,
    /// Estimated bitrate in kbps.
    pub bitrate_kbps: Option<u32>,
    /// Number of seeders (torrents only).
    pub seeders: Option<u32>,
    /// Source type label, e.g. `"BluRay"`, `"WEB-DL"`.
    pub source: Option<String>,
    /// Codec string, e.g. `"HEVC"`.
    pub codec: Option<String>,
    /// Name or identifier of the provider that returned this stream.
    pub provider: String,
    /// Raw name / title returned by the provider.
    pub name: String,
    /// Subtitle tracks bundled with this stream.
    pub subtitles: Vec<BundledSubtitle>,
    /// Approximate total file size in bytes.
    pub size_bytes: Option<u64>,
    /// Primary audio language tag.
    pub audio_lang: Option<String>,
    /// Subtitle language tags available in-stream.
    pub subtitle_langs: Vec<String>,
    /// Measured network latency in milliseconds.
    pub latency_ms: Option<u32>,
    /// Measured download throughput in kbps.
    pub throughput_kbps: Option<u32>,
}

impl StreamCandidate {
    /// Construct a candidate from a bare URL, inferring the protocol.
    pub fn from_url(url: &str, provider: &str) -> (r: StreamCandidate)
        ensures
            r.url@ == url@,
            r.name@ == url@,
            r.provider@ == provider@,
            r.protocol == protocol_of(url@, unicode_lowercase(url@)),
            !"magnet:"@.is_prefix_of(url@) && ".torrent"@.is_suffix_of(unicode_lowercase(url@)) ==> r.protocol
                == StreamProtocol::Torrent,
            r.quality is None,
            r.bitrate_kbps is None,
            r.seeders is None,
            r.source is None,
            r.codec is None,
            r.subtitles@.len() == 0,
            r.size_bytes is None,
            r.audio_lang is None,
            r.subtitle_langs@.len() == 0,
            r.latency_ms is None,
            r.throughput_kbps is None,
    {
        let protocol = StreamProtocol::from_url(url);
        StreamCandidate {
            protocol,
            name: owned(url),
            url: owned(url),
            provider: owned(provider),
            quality: None,
            bitrate_kbps: None,
            seeders: None,
            source: None,
            codec: None,
            subtitles: Vec::new(),
            size_bytes: None,
            audio_lang: None,
            subtitle_langs: Vec::new(),
            latency_ms: None,
            throughput_kbps: None,
        }
    }

    /// True if this stream needs aria2c (torrent or magnet).
    pub fn needs_aria2(&self) -> (r: bool)
        ensures
            r == (self.protocol == StreamProtocol::Torrent || self.protocol
                == StreamProtocol::Magnet),
    {
        self.protocol.needs_aria2()
    }
}

// ── Episode / track extras ───────────────────────────────────────────────────

/// Episode-specific metadata, attached to a media item of an episode.
#[derive(Debug, Clone)]
pub struct EpisodeInfo {
    pub season: u32,
    pub episode: u32,
    pub series_title: String,
    /// Parent series `MediaId` string.
    pub series_id: Option<String>,
    pub runtime_mins: Option<u32>,
    /// ISO 8601 air date.
    pub air_date: Option<String>,
}

/// Track/music-specific metadata, attached to a media item of a track.
#[derive(Debug, Clone)]
pub struct TrackInfo {
    pub artist: String,
    pub album: Option<String>,
    /// Parent album `MediaId` string.
    pub album_id: Option<String>,
    pub track_number: Option<u32>,
    pub duration_secs: Option<u32>,
    /// International Standard Recording Code.
    pub isrc: Option<String>,
}

} // verus!
