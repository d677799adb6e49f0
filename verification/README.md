# stui_runtime

The decision logic of the stui streaming runtime, written in Verus: every
function in `src/` carries a `requires` / `ensures` contract and is proved.

## Layout

- `src/` — the verified library.
  - Text and numbers: `text` (string helpers over character sequences),
    `sort` (stable sorting by key, first-wins deduplication), `cli`
    (duration text, argument parsing, `parse::<usize>` / `parse::<i64>`).
  - Domain types: `media`, `media_item`, `abi`, `ipc`, `ipc_types`,
    `wire_metadata`, `events`, `error`.
  - Plugins: `registry` (loaded plugins, sandbox contexts, supervisors),
    `dispatch` (manifest capabilities), `dispatch_map` (plugins per search
    scope), `plugin_call` (single-plugin scoped search), `sources`
    (metadata source resolution), `metadata_backend`.
  - Search: `search_scoped` (dedup-merge of scope results, the
    partial/final timing machine), `scope_run` (one scope's run, event by
    event, and the frames it sends), `catalog_search` (live catalog search
    plan, stream resolution plan), `episodes` (TVDB hits and the episodes
    verb), `pipeline`, `fan_out`.
  - Metadata: `request`, `verb_calls` (per-plugin verb requests), `merge`,
    `wire`, `outcome`, `subtitles`,
    `catalog`, `video_enrich`, `music_enrich`, `fanart`, `lastfm`,
    `mdblist`.
  - Front end: `ipc_dispatch`, `ipc_batcher`, `indexer`, `logging`,
    `trace`.
- `tests/` — ordinary Rust tests of the library.
- `app/` — the `stui-runtime` program: argument handling, logging setup,
  and the NDJSON request loop on stdin/stdout or a Unix socket.

Calls into other crates (`urlencoding`, `tracing-subscriber`) and a few std
functions stand behind small trusted wrappers whose contracts name what
they return.
