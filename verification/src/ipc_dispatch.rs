//! The decisions of the IPC front end that need no plugin: which lines are
//! read as requests, the version handshake, the run mode and socket path,
//! the tab a play request names, the metadata sub-flow, and the storage
//! settings a request changes.

use vstd::prelude::*;
use crate::ipc::MediaTab;
use crate::ipc_types::SetStoragePathsRequest;
use crate::subtitles::{utf8_len, utf8_length};
use crate::text::{decimal, ends_with, owned, push_decimal_wide, push_str, str_eq, trim, trim_spec};

verus! {

/// The IPC protocol version this runtime speaks.
pub const CURRENT_IPC_VERSION: u32 = 1;

/// Largest request line accepted, in bytes.
pub const MAX_MSG_SIZE: usize = 1048576;

/// Whether the client's version is compatible: an old client that sends
/// none is taken as compatible; otherwise the versions must match.
pub fn ping_version_ok(client: Option<u32>) -> (r: bool)
    ensures
        r == match client {
            Some(v) => v == CURRENT_IPC_VERSION,
            None => true,
        },
{
    match client {
        Some(v) => v == CURRENT_IPC_VERSION,
        None => true,
    }
}

/// What the loop does with a received line.
#[derive(Debug, Clone)]
pub enum LineCheck {
    /// Blank after trimming: ignore it.
    Empty,
    /// Longer than `MAX_MSG_SIZE` bytes: answer `payload_too_large` with
    /// this message.
    TooLarge(String),
    /// Parse this trimmed line as a request.
    Request(String),
}

/// The too-large message for a line of `n` bytes.
pub open spec fn too_large_text(n: nat) -> Seq<char> {
    "message size "@ + decimal(n) + " exceeds limit "@ + decimal(MAX_MSG_SIZE as nat)
}

/// How a received line is handled: trimmed; blank lines ignored; lines
/// over `MAX_MSG_SIZE` UTF-8 bytes refused; others parsed.
pub fn check_line(line: &str) -> (r: LineCheck)
    ensures
        trim_spec(line@).len() == 0 ==> r is Empty,
        trim_spec(line@).len() > 0 && utf8_len(trim_spec(line@)) > MAX_MSG_SIZE ==> (r matches LineCheck::TooLarge(m)
            && m@ == too_large_text(utf8_len(trim_spec(line@)))),
        trim_spec(line@).len() > 0 && utf8_len(trim_spec(line@)) <= MAX_MSG_SIZE ==> (r matches LineCheck::Request(t)
            && t@ == trim_spec(line@)),
{
    let t = trim(line);
    if t.unicode_len() == 0 {
        return LineCheck::Empty;
    }
    let n = utf8_length(t.as_str());
    if n > MAX_MSG_SIZE as u128 {
        let mut m = owned("message size ");
        push_decimal_wide(&mut m, n);
        push_str(&mut m, " exceeds limit ");
        push_decimal_wide(&mut m, MAX_MSG_SIZE as u128);
        LineCheck::TooLarge(m)
    } else {
        LineCheck::Request(t)
    }
}

/// How the runtime runs, from its command line.
#[derive(Debug, Clone)]
pub struct RunMode {
    /// `daemon` as the first argument: serve a Unix socket.
    pub daemon: bool,
    /// The path after the first `--socket`, if any.
    pub socket: Option<String>,
}

/// The argument after the first `--socket`, scanning from `i`.
pub open spec fn socket_arg_from(args: Seq<String>, i: int) -> Option<String>
    decreases args.len() - i,
{
    if i < 0 || i + 1 >= args.len() {
        None
    } else if args[i]@ == "--socket"@ {
        Some(args[i + 1])
    } else {
        socket_arg_from(args, i + 1)
    }
}

/// The run mode of a command line (`args[0]` is the program).
pub fn run_mode(args: &Vec<String>) -> (r: RunMode)
    ensures
        r.daemon == (args@.len() > 1 && args@[1]@ == "daemon"@),
        r.socket == socket_arg_from(args@, 0),
{
    let daemon = args.len() > 1 && str_eq(args[1].as_str(), "daemon");
    let mut i: usize = 0;
    let mut socket: Option<String> = None;
    while i < args.len()
        invariant
            socket_arg_from(args@, 0) == socket_arg_from(args@, i as int),
            socket is None,
            daemon == (args@.len() > 1 && args@[1]@ == "daemon"@),
        ensures
            socket_arg_from(args@, 0) is None,
            socket is None,
            daemon == (args@.len() > 1 && args@[1]@ == "daemon"@),
        decreases args@.len() - i,
    {
        if i + 1 >= args.len() {
            break;
        }
        if str_eq(args[i].as_str(), "--socket") {
            socket = Some(args[i + 1].clone());
            assert(socket == socket_arg_from(args@, i as int));
            return RunMode { daemon, socket };
        }
        i += 1;
    }
    RunMode { daemon, socket }
}

/// `base` joined with the relative path `part`, as `Path::join` does it:
/// `part` alone for an empty base, no extra separator after a trailing
/// `/`.
pub open spec fn path_join(base: Seq<char>, part: Seq<char>) -> Seq<char> {
    if base.len() == 0 {
        part
    } else if base.last() == '/' {
        base + part
    } else {
        base + "/"@ + part
    }
}

/// `base` joined with the relative path `part` (see `path_join`).
pub fn join_path(base: &str, part: &str) -> (r: String)
    ensures
        r@ == path_join(base@, part@),
{
    let mut s = owned(base);
    if base.unicode_len() == 0 {
        return owned(part);
    }
    if !ends_with(base, "/") {
        push_str(&mut s, "/");
    }
    push_str(&mut s, part);
    proof {
        reveal_strlit("/");
        if base@.last() == '/' {
            assert("/"@.is_suffix_of(base@)) by {
                assert(base@.subrange(base@.len() - 1, base@.len() as int) =~= "/"@);
            }
        } else {
            assert(!"/"@.is_suffix_of(base@)) by {
                if "/"@.is_suffix_of(base@) {
                    assert(base@[base@.len() - 1] == "/"@[0]);
                }
            }
        }
    }
    s
}

/// The default socket path: `stui.sock` in `$XDG_RUNTIME_DIR`, else in
/// `$HOME/.local/run`, else in `/tmp/.local/run`.
pub open spec fn socket_path_of(xdg: Option<Seq<char>>, home: Option<Seq<char>>) -> Seq<char> {
    let base = match xdg {
        Some(x) => x,
        None => path_join(
            path_join(
                match home {
                    Some(h) => h,
                    None => "/tmp"@,
                },
                ".local"@,
            ),
            "run"@,
        ),
    };
    path_join(base, "stui.sock"@)
}

/// The default socket path from the two environment values (see
/// `socket_path_of`).
pub fn default_socket_path(xdg_runtime_dir: Option<String>, home: Option<String>) -> (r: String)
    ensures
        r@ == socket_path_of(
            match xdg_runtime_dir {
                Some(x) => Some(x@),
                None => None,
            },
            match home {
                Some(h) => Some(h@),
                None => None,
            },
        ),
{
    let base = match xdg_runtime_dir {
        Some(x) => x,
        None => {
            let h = match home {
                Some(h) => h,
                None => owned("/tmp"),
            };
            let l = join_path(h.as_str(), ".local");
            join_path(l.as_str(), "run")
        },
    };
    join_path(base.as_str(), "stui.sock")
}

/// The tab a play request names: music, radio and podcasts only.
pub fn play_tab(tab: &str) -> (r: Option<MediaTab>)
    ensures
        r == if tab@ == "music"@ {
            Some(MediaTab::Music)
        } else if tab@ == "radio"@ {
            Some(MediaTab::Radio)
        } else if tab@ == "podcasts"@ {
            Some(MediaTab::Podcasts)
        } else {
            None::<MediaTab>
        },
{
    if str_eq(tab, "music") {
        Some(MediaTab::Music)
    } else if str_eq(tab, "radio") {
        Some(MediaTab::Radio)
    } else if str_eq(tab, "podcasts") {
        Some(MediaTab::Podcasts)
    } else {
        None
    }
}

/// Whether a metadata request is the episodes sub-flow; every other kind
/// is answered "Metadata plugins not yet implemented".
pub fn is_episodes_request(kind: &str) -> (r: bool)
    ensures
        r == (kind@ == "episodes"@),
{
    str_eq(kind, "episodes")
}

/// The text answered for a metadata kind other than episodes.
pub fn metadata_unimplemented_message() -> (r: String)
    ensures
        r@ == "Metadata plugins not yet implemented"@,
{
    owned("Metadata plugins not yet implemented")
}

/// The setting written for one storage path.
pub open spec fn storage_entry(key: Seq<char>, path: Option<String>) -> Seq<(Seq<char>, Seq<char>)> {
    match path {
        Some(p) => seq![(key, p@)],
        None => Seq::empty(),
    }
}

/// The settings a storage-paths request writes, in order: movies, series,
/// music, anime, podcasts, each only when given.
pub open spec fn storage_settings_of(r: SetStoragePathsRequest) -> Seq<(Seq<char>, Seq<char>)> {
    storage_entry("storage.movies"@, r.movies) + storage_entry("storage.series"@, r.series) + storage_entry(
        "storage.music"@,
        r.music,
    ) + storage_entry("storage.anime"@, r.anime) + storage_entry("storage.podcasts"@, r.podcasts)
}

/// Append the setting of one storage path, if given.
fn push_storage(out: &mut Vec<(String, String)>, key: &str, path: &Option<String>)
    ensures
        final(out)@.map_values(|e: (String, String)| (e.0@, e.1@)) == old(out)@.map_values(
            |e: (String, String)| (e.0@, e.1@),
        ) + storage_entry(key@, *path),
{
    let ghost before = out@.map_values(|e: (String, String)| (e.0@, e.1@));
    match path {
        Some(p) => {
            out.push((owned(key), p.clone()));
            assert(out@.map_values(|e: (String, String)| (e.0@, e.1@)) =~= before + storage_entry(key@, *path));
        },
        None => {
            assert(out@.map_values(|e: (String, String)| (e.0@, e.1@)) =~= before + storage_entry(key@, *path));
        },
    }
}

/// The settings a storage-paths request writes (see
/// `storage_settings_of`), as setting key and path.
pub fn storage_settings(r: &SetStoragePathsRequest) -> (out: Vec<(String, String)>)
    ensures
        out@.map_values(|e: (String, String)| (e.0@, e.1@)) == storage_settings_of(*r),
{
    let mut out: Vec<(String, String)> = Vec::new();
    assert(out@.map_values(|e: (String, String)| (e.0@, e.1@)) =~= Seq::<(Seq<char>, Seq<char>)>::empty());
    push_storage(&mut out, "storage.movies", &r.movies);
    push_storage(&mut out, "storage.series", &r.series);
    push_storage(&mut out, "storage.music", &r.music);
    push_storage(&mut out, "storage.anime", &r.anime);
    push_storage(&mut out, "storage.podcasts", &r.podcasts);
    assert(storage_settings_of(*r) =~= Seq::<(Seq<char>, Seq<char>)>::empty() + storage_entry(
        "storage.movies"@,
        r.movies,
    ) + storage_entry("storage.series"@, r.series) + storage_entry("storage.music"@, r.music)
        + storage_entry("storage.anime"@, r.anime) + storage_entry("storage.podcasts"@, r.podcasts));
    out
}

} // verus!
