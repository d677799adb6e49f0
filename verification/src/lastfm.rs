//! last.fm `album.getInfo` tracklists: the request URL, the duration
//! field's two shapes, and the projection of an answer into wire tracks.

use vstd::prelude::*;
use crate::cli::{digits_value, is_digit, parse_usize, parsed_usize};
use crate::ipc_types::LastfmAlbumTrackWire;
use crate::text::{owned, push_str};

verus! {

/// Whether `c` is left as is by URL encoding: ASCII letters and digits and
/// `-`, `.`, `_`, `~`.
pub open spec fn unreserved(c: char) -> bool {
    ('0' <= c && c <= '9') || ('A' <= c && c <= 'Z') || ('a' <= c && c <= 'z') || c == '-' || c == '.'
        || c == '_' || c == '~'
}

/// An uppercase hexadecimal digit.
pub open spec fn hex_digit(d: int) -> char {
    if d < 10 {
        (('0' as int) + d) as char
    } else {
        (('A' as int) + d - 10) as char
    }
}

/// A byte percent-encoded: `%` and its two uppercase hex digits.
pub open spec fn percent_byte(b: int) -> Seq<char> {
    seq!['%', hex_digit(b / 16), hex_digit(b % 16)]
}

/// The UTF-8 bytes of a character.
pub open spec fn utf8_bytes(c: char) -> Seq<int> {
    let n = c as int;
    if n < 0x80 {
        seq![n]
    } else if n < 0x800 {
        seq![0xC0 + n / 64, 0x80 + n % 64]
    } else if n < 0x10000 {
        seq![0xE0 + n / 4096, 0x80 + (n / 64) % 64, 0x80 + n % 64]
    } else {
        seq![0xF0 + n / 262144, 0x80 + (n / 4096) % 64, 0x80 + (n / 64) % 64, 0x80 + n % 64]
    }
}

/// The percent-encoding of one character: itself when unreserved, else
/// each of its UTF-8 bytes percent-encoded.
pub open spec fn encode_char(c: char) -> Seq<char> {
    if unreserved(c) {
        seq![c]
    } else {
        utf8_bytes(c).map_values(|b: int| percent_byte(b)).flatten()
    }
}

/// The percent-encoding of a text, character by character.
pub open spec fn percent_encoded(s: Seq<char>) -> Seq<char>
    decreases s.len(),
{
    if s.len() == 0 {
        Seq::empty()
    } else {
        percent_encoded(s.drop_last()) + encode_char(s.last())
    }
}

/// Calls `urlencoding::encode`, which copies the bytes of ASCII letters,
/// digits and `-`, `.`, `_`, `~` and writes every other byte of the UTF-8
/// text as `%` and two uppercase hex digits (`percent_encoded`).
#[verifier::external_body]
fn url_encode(s: &str) -> (r: String)
    ensures
        r@ == percent_encoded(s@),
{
    urlencoding::encode(s).into_owned()
}

/// The `album.getInfo` URL for an artist and album, with the API key.
pub open spec fn album_info_url_of(artist: Seq<char>, album: Seq<char>, key: Seq<char>) -> Seq<char> {
    "https://ws.audioscrobbler.com/2.0?method=album.getInfo&artist="@ + percent_encoded(artist)
        + "&album="@ + percent_encoded(album) + "&api_key="@ + key + "&format=json&autocorrect=1"@
}

/// The `album.getInfo` URL (see `album_info_url_of`).
pub fn album_info_url(artist: &str, album: &str, key: &str) -> (r: String)
    ensures
        r@ == album_info_url_of(artist@, album@, key@),
{
    let mut s = owned("https://ws.audioscrobbler.com/2.0?method=album.getInfo&artist=");
    let a = url_encode(artist);
    push_str(&mut s, a.as_str());
    push_str(&mut s, "&album=");
    let al = url_encode(album);
    push_str(&mut s, al.as_str());
    push_str(&mut s, "&api_key=");
    push_str(&mut s, key);
    push_str(&mut s, "&format=json&autocorrect=1");
    s
}

/// A track duration as last.fm sends it: a number of seconds, or text.
#[derive(Debug, Clone)]
pub enum DurationField {
    Int(i64),
    Str(String),
}

/// What `str::parse::<u32>` accepts: an unsigned literal whose value fits
/// in 32 bits.
pub open spec fn parsed_u32(s: Seq<char>) -> Option<nat> {
    match parsed_usize(s) {
        Some(v) => if v <= u32::MAX { Some(v) } else { None },
        None => None,
    }
}

/// The seconds of a duration: a positive number (cut to 32 bits), or text
/// that parses as a positive 32-bit number; anything else is no duration.
pub open spec fn duration_secs_of(d: DurationField) -> Option<u32> {
    match d {
        DurationField::Int(n) => if n > 0 { Some(n as u32) } else { None },
        DurationField::Str(s) => match parsed_u32(s@) {
            Some(v) => if v > 0 { Some(v as u32) } else { None },
            None => None,
        },
    }
}

impl DurationField {
    /// The seconds of this duration (see `duration_secs_of`).
    pub fn into_secs(self) -> (r: Option<u32>)
        ensures
            r == duration_secs_of(self),
    {
        match self {
            DurationField::Int(n) => {
                if n > 0 {
                    Some(n as u32)
                } else {
                    None
                }
            },
            DurationField::Str(s) => match parse_usize(s.as_str()) {
                Some(v) => {
                    if v <= 0xffff_ffff && v > 0 {
                        Some(v as u32)
                    } else {
                        None
                    }
                },
                None => None,
            },
        }
    }
}

/// One track of an `album.getInfo` answer.
#[derive(Debug, Clone)]
pub struct RawTrack {
    pub name: Option<String>,
    pub duration: Option<DurationField>,
    pub mbid: Option<String>,
    /// The `@attr.rank` ordering, when present.
    pub rank: Option<u32>,
}

/// The top level of an `album.getInfo` answer: the album's tracks (absent
/// when the album or its listing is), or an error message.
#[derive(Debug, Clone)]
pub struct AlbumEnvelope {
    pub tracks: Option<Vec<RawTrack>>,
    pub message: Option<String>,
}

/// `w` is the wire form of the `i`-th track `t`: its rank (else its
/// position from 1), its name (else empty), its duration, and its MusicBrainz
/// id when non-empty.
pub open spec fn is_wire_track(w: LastfmAlbumTrackWire, t: RawTrack, i: int) -> bool {
    &&& w.number == match t.rank {
        Some(r) => r as int,
        None => i + 1,
    }
    &&& w.title@ == match t.name {
        Some(n) => n@,
        None => Seq::<char>::empty(),
    }
    &&& w.duration_secs == match t.duration {
        Some(d) => duration_secs_of(d),
        None => None,
    }
    &&& w.mbid == match t.mbid {
        Some(m) => if m@.len() > 0 { Some(m) } else { None },
        None => None,
    }
}

/// The tracklist of an answer: an error with `"lastfm: "` and the message
/// when last.fm sent one, else one wire track per listed track (none when
/// the answer lists none).
pub fn album_tracks(env: AlbumEnvelope) -> (r: Result<Vec<LastfmAlbumTrackWire>, String>)
    requires
        env.tracks matches Some(ts) ==> ts@.len() < u32::MAX,
    ensures
        env.message matches Some(m) ==> (r matches Err(e) && e@ == "lastfm: "@ + m@),
        env.message is None ==> (r matches Ok(ws) && match env.tracks {
            None => ws@.len() == 0,
            Some(ts) => ws@.len() == ts@.len() && forall|i: int|
                0 <= i < ts@.len() ==> is_wire_track(#[trigger] ws@[i], ts@[i], i),
        }),
{
    match env.message {
        Some(m) => {
            let mut e = owned("lastfm: ");
            push_str(&mut e, m.as_str());
            return Err(e);
        },
        None => {},
    }
    let raw = match env.tracks {
        Some(t) => t,
        None => {
            return Ok(Vec::new());
        },
    };
    let ghost all = raw@;
    let n = raw.len();
    let mut rest = raw;
    let mut out: Vec<LastfmAlbumTrackWire> = Vec::new();
    let mut i: usize = 0;
    assert(rest@ =~= all.subrange(0, all.len() as int));
    while rest.len() > 0
        invariant
            n == all.len(),
            n < u32::MAX,
            i + rest@.len() == all.len(),
            rest@ =~= all.subrange(i as int, all.len() as int),
            out@.len() == i,
            forall|j: int| 0 <= j < i ==> is_wire_track(#[trigger] out@[j], all[j], j),
        decreases rest@.len(),
    {
        let t = rest.remove(0);
        assert(t == all[i as int]);
        let number = match t.rank {
            Some(r) => r,
            None => (i as u32) + 1,
        };
        let title = match t.name {
            Some(nm) => nm,
            None => String::new(),
        };
        let duration_secs = match t.duration {
            Some(d) => d.into_secs(),
            None => None,
        };
        let mbid = match t.mbid {
            Some(m) => if m.unicode_len() > 0 {
                Some(m)
            } else {
                None
            },
            None => None,
        };
        out.push(LastfmAlbumTrackWire { number, title, duration_secs, mbid });
        i += 1;
    }
    Ok(out)
}

} // verus!
