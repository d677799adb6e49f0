use std::io::Write;
use std::sync::{Arc, Mutex};
use stui_runtime::trace::TraceEmitter;

struct BufWriter(Arc<Mutex<Vec<u8>>>);

impl Write for BufWriter {
    fn write(&mut self, data: &[u8]) -> std::io::Result<usize> {
        self.0.lock().unwrap().extend_from_slice(data);
        Ok(data.len())
    }
    fn flush(&mut self) -> std::io::Result<()> {
        Ok(())
    }
}

fn make_buf_emitter() -> (TraceEmitter<BufWriter>, Arc<Mutex<Vec<u8>>>) {
    let buf: Arc<Mutex<Vec<u8>>> = Default::default();
    let emitter = TraceEmitter::with_writer(BufWriter(Arc::clone(&buf)));
    (emitter, buf)
}

fn read_buf(buf: &Arc<Mutex<Vec<u8>>>) -> String {
    String::from_utf8(buf.lock().unwrap().clone()).unwrap()
}

#[test]
fn disabled_by_default_no_output() {
    let (mut emitter, buf) = make_buf_emitter();
    emitter.search(3, 100);
    emitter.resolve(12);
    emitter.bench(8);
    emitter.fallback("timeout");
    emitter.provider_error("prov", "http 503");
    assert_eq!(read_buf(&buf), "", "disabled emitter must produce no output");
}

#[test]
fn enable_sets_flag() {
    let mut emitter = TraceEmitter::new();
    assert!(!emitter.is_enabled());
    emitter.enable();
    assert!(emitter.is_enabled());
}

#[test]
fn search_format() {
    let (mut emitter, buf) = make_buf_emitter();
    emitter.enable();
    emitter.search(3, 120);
    assert_eq!(read_buf(&buf).trim(), "[trace] search: 3 providers (120ms)");
}

#[test]
fn resolve_format() {
    let (mut emitter, buf) = make_buf_emitter();
    emitter.enable();
    emitter.resolve(12);
    assert_eq!(read_buf(&buf).trim(), "[trace] resolve: 12 streams");
}

#[test]
fn bench_format() {
    let (mut emitter, buf) = make_buf_emitter();
    emitter.enable();
    emitter.bench(8);
    assert_eq!(read_buf(&buf).trim(), "[trace] bench: 8 tested");
}

#[test]
fn fallback_format() {
    let (mut emitter, buf) = make_buf_emitter();
    emitter.enable();
    emitter.fallback("timeout");
    assert_eq!(read_buf(&buf).trim(), "[trace] fallback: timeout");
}

#[test]
fn provider_error_format() {
    let (mut emitter, buf) = make_buf_emitter();
    emitter.enable();
    emitter.provider_error("yts", "http 503");
    assert_eq!(read_buf(&buf).trim(), "[trace] provider: yts failed (http 503)");
}

#[test]
fn no_streams_fallback_format() {
    let (mut emitter, buf) = make_buf_emitter();
    emitter.enable();
    emitter.fallback("no streams after bench");
    assert_eq!(read_buf(&buf).trim(), "[trace] fallback: no streams after bench");
}

#[test]
fn emit_writes_prefixed_line_only_when_enabled() {
    let (mut emitter, buf) = make_buf_emitter();
    emitter.emit("quiet");
    emitter.enable();
    emitter.emit("rank: picked #4 (score 0.82)");
    assert_eq!(read_buf(&buf), "[trace] rank: picked #4 (score 0.82)\n");
}

#[test]
fn disable_stops_output() {
    let (mut emitter, buf) = make_buf_emitter();
    emitter.enable();
    emitter.fallback("one");
    emitter.disable();
    assert!(!emitter.is_enabled());
    emitter.fallback("two");
    assert_eq!(read_buf(&buf), "[trace] fallback: one\n");
}

#[test]
fn emitted_text_carries_prefix_and_newline() {
    let (mut emitter, buf) = make_buf_emitter();
    emitter.enable();
    emitter.search(3, 120);
    emitter.resolve(12);
    assert_eq!(read_buf(&buf), "[trace] search: 3 providers (120ms)\n[trace] resolve: 12 streams\n");
}
