//! Live structured pipeline trace: `[trace] stage: detail` lines written
//! to a writer (stderr by default) as each pipeline stage completes. Every
//! method is a no-op while the emitter is disabled.

use vstd::prelude::*;
use crate::text::{decimal, decimal_string, owned, push_str};

verus! {

/// The standard error stream handle, carried opaquely.
#[verifier::external_type_specification]
#[verifier::external_body]
pub struct ExStderr(std::io::Stderr);

/// Calls std `std::io::stderr`.
#[verifier::external_body]
fn stderr_handle() -> std::io::Stderr {
    std::io::stderr()
}

/// One trace call.
pub enum TraceCall {
    Search(usize, u64),
    Resolve(usize),
    Bench(usize),
    Fallback(Seq<char>),
    ProviderError(Seq<char>, Seq<char>),
}

/// The detail of a call's trace line (after `[trace] `).
pub open spec fn trace_detail(c: TraceCall) -> Seq<char> {
    match c {
        TraceCall::Search(n, ms) => "search: "@ + decimal(n as nat) + " providers ("@ + decimal(ms as nat)
            + "ms)"@,
        TraceCall::Resolve(n) => "resolve: "@ + decimal(n as nat) + " streams"@,
        TraceCall::Bench(n) => "bench: "@ + decimal(n as nat) + " tested"@,
        TraceCall::Fallback(reason) => "fallback: "@ + reason,
        TraceCall::ProviderError(name, reason) => "provider: "@ + name + " failed ("@ + reason + ")"@,
    }
}

/// The text a line is written as: the `[trace] ` prefix, the line, and a
/// newline.
pub open spec fn trace_text(line: Seq<char>) -> Seq<char> {
    "[trace] "@ + line + "\n"@
}

/// What the writer has been handed after a call: the call's text when the
/// emitter is enabled, nothing more otherwise.
pub open spec fn after_call(enabled: bool, written: Seq<char>, c: TraceCall) -> Seq<char> {
    if enabled {
        written + trace_text(trace_detail(c))
    } else {
        written
    }
}

/// What the writer has been handed after a run of calls.
pub open spec fn after_calls(enabled: bool, written: Seq<char>, cs: Seq<TraceCall>) -> Seq<char>
    decreases cs.len(),
{
    if cs.len() == 0 {
        written
    } else {
        after_calls(enabled, after_call(enabled, written, cs[0]), cs.drop_first())
    }
}

/// A disabled emitter writes nothing, whatever calls it gets.
pub proof fn lemma_disabled_writes_nothing(written: Seq<char>, cs: Seq<TraceCall>)
    ensures
        after_calls(false, written, cs) == written,
    decreases cs.len(),
{
    if cs.len() > 0 {
        lemma_disabled_writes_nothing(written, cs.drop_first());
    }
}

/// Pipeline trace emitter over writer `W`.
pub struct TraceEmitter<W> {
    enabled: bool,
    writer: W,
    /// The text handed to the writer so far.
    handed: Ghost<Seq<char>>,
}

impl TraceEmitter<std::io::Stderr> {
    /// A disabled emitter writing to stderr.
    pub fn new() -> (r: Self)
        ensures
            !r.is_enabled_spec(),
            r.written().len() == 0,
    {
        TraceEmitter { enabled: false, writer: stderr_handle(), handed: Ghost(Seq::empty()) }
    }
}

impl<W: std::io::Write> TraceEmitter<W> {
    /// Whether the emitter writes.
    pub closed spec fn is_enabled_spec(&self) -> bool {
        self.enabled
    }

    /// The text handed to the writer so far.
    pub closed spec fn written(&self) -> Seq<char> {
        self.handed@
    }

    /// Hands `text` to the writer with `std::io::Write::write_all`; a write
    /// error is ignored, as a trace is best-effort.
    #[verifier::external_body]
    fn write_text(&mut self, text: &str)
        ensures
            final(self).written() == old(self).written() + text@,
            final(self).is_enabled_spec() == old(self).is_enabled_spec(),
    {
        let _ = self.writer.write_all(text.as_bytes());
    }

    /// A disabled emitter writing to `w` (used to capture output).
    pub fn with_writer(w: W) -> (r: Self)
        ensures
            !r.is_enabled_spec(),
            r.written().len() == 0,
    {
        TraceEmitter { enabled: false, writer: w, handed: Ghost(Seq::empty()) }
    }

    /// Turn the emitter on.
    pub fn enable(&mut self)
        ensures
            final(self).is_enabled_spec(),
            final(self).written() == old(self).written(),
    {
        self.enabled = true;
    }

    /// Turn the emitter off.
    pub fn disable(&mut self)
        ensures
            !final(self).is_enabled_spec(),
            final(self).written() == old(self).written(),
    {
        self.enabled = false;
    }

    /// Whether the emitter writes.
    pub fn is_enabled(&self) -> (r: bool)
        ensures
            r == self.is_enabled_spec(),
    {
        self.enabled
    }

    /// Write `[trace] ` + `line` and a newline when enabled; otherwise nothing.
    pub fn emit(&mut self, line: &str)
        ensures
            final(self).is_enabled_spec() == old(self).is_enabled_spec(),
            final(self).written() == if old(self).is_enabled_spec() {
                old(self).written() + trace_text(line@)
            } else {
                old(self).written()
            },
    {
        if self.enabled {
            let mut text = owned("[trace] ");
            push_str(&mut text, line);
            push_str(&mut text, "\n");
            self.write_text(text.as_str());
        }
    }

    /// `search: <n> providers (<ms>ms)`.
    pub fn search(&mut self, n_providers: usize, elapsed_ms: u64)
        ensures
            final(self).is_enabled_spec() == old(self).is_enabled_spec(),
            final(self).written() == after_call(
                old(self).is_enabled_spec(),
                old(self).written(),
                TraceCall::Search(n_providers, elapsed_ms),
            ),
    {
        let mut line = owned("search: ");
        push_str(&mut line, decimal_string(n_providers as u64).as_str());
        push_str(&mut line, " providers (");
        push_str(&mut line, decimal_string(elapsed_ms).as_str());
        push_str(&mut line, "ms)");
        self.emit(line.as_str());
    }

    /// `resolve: <n> streams`.
    pub fn resolve(&mut self, n_streams: usize)
        ensures
            final(self).is_enabled_spec() == old(self).is_enabled_spec(),
            final(self).written() == after_call(
                old(self).is_enabled_spec(),
                old(self).written(),
                TraceCall::Resolve(n_streams),
            ),
    {
        let mut line = owned("resolve: ");
        push_str(&mut line, decimal_string(n_streams as u64).as_str());
        push_str(&mut line, " streams");
        self.emit(line.as_str());
    }

    /// `bench: <n> tested`.
    pub fn bench(&mut self, n_tested: usize)
        ensures
            final(self).is_enabled_spec() == old(self).is_enabled_spec(),
            final(self).written() == after_call(
                old(self).is_enabled_spec(),
                old(self).written(),
                TraceCall::Bench(n_tested),
            ),
    {
        let mut line = owned("bench: ");
        push_str(&mut line, decimal_string(n_tested as u64).as_str());
        push_str(&mut line, " tested");
        self.emit(line.as_str());
    }

    /// `fallback: <reason>`.
    pub fn fallback(&mut self, reason: &str)
        ensures
            final(self).is_enabled_spec() == old(self).is_enabled_spec(),
            final(self).written() == after_call(
                old(self).is_enabled_spec(),
                old(self).written(),
                TraceCall::Fallback(reason@),
            ),
    {
        let mut line = owned("fallback: ");
        push_str(&mut line, reason);
        self.emit(line.as_str());
    }

    /// `provider: <name> failed (<reason>)`.
    pub fn provider_error(&mut self, name: &str, reason: &str)
        ensures
            final(self).is_enabled_spec() == old(self).is_enabled_spec(),
            final(self).written() == after_call(
                old(self).is_enabled_spec(),
                old(self).written(),
                TraceCall::ProviderError(name@, reason@),
            ),
    {
        let mut line = owned("provider: ");
        push_str(&mut line, name);
        push_str(&mut line, " failed (");
        push_str(&mut line, reason);
        push_str(&mut line, ")");
        self.emit(line.as_str());
    }
}

} // verus!
