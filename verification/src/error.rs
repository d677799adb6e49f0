//! The runtime's error type: its variants, its text, the short message a
//! toast shows, and which failures are retried or count against a
//! provider's health.

use vstd::prelude::*;
use crate::text::{decimal, decimal_string, owned, push_str};

verus! {

/// A failure anywhere in the runtime. Failures that come from outside
/// (I/O, JSON, HTTP, ad-hoc chains) carry their text.
#[derive(Debug, Clone)]
pub enum StuidError {
    Io(String),
    Json(String),
    Http(String),
    PluginNotFound(String),
    PluginLoad { name: String, reason: String },
    PluginAbi(String),
    Provider { provider: String, reason: String },
    NoStream { entry_id: String },
    Mpv(String),
    Aria2(String),
    Config(String),
    Ipc(String),
    /// The provider was rate-limited (HTTP 429 or explicit backoff).
    RateLimited { provider: String, retry_after_secs: u64 },
    /// The provider did not answer within its timeout.
    ProviderTimeout { provider: String, timeout_ms: u64 },
    /// A playing stream failed mid-playback.
    StreamFailure { url: String, reason: String },
    /// Every stream candidate was tried.
    AllCandidatesExhausted { entry_id: String },
    Cache(String),
    Other(String),
}

/// The text of a failure.
pub open spec fn error_text(e: StuidError) -> Seq<char> {
    match e {
        StuidError::Io(m) => "I/O error: "@ + m@,
        StuidError::Json(m) => "JSON error: "@ + m@,
        StuidError::Http(m) => "HTTP error: "@ + m@,
        StuidError::PluginNotFound(m) => "plugin not found: "@ + m@,
        StuidError::PluginLoad { name, reason } => "plugin load failed ("@ + name@ + "): "@ + reason@,
        StuidError::PluginAbi(m) => "plugin ABI error: "@ + m@,
        StuidError::Provider { provider, reason } => "provider '"@ + provider@ + "' failed: "@ + reason@,
        StuidError::NoStream { entry_id } => "no stream found for '"@ + entry_id@ + "'"@,
        StuidError::Mpv(m) => "mpv error: "@ + m@,
        StuidError::Aria2(m) => "aria2 error: "@ + m@,
        StuidError::Config(m) => "config error: "@ + m@,
        StuidError::Ipc(m) => "IPC protocol error: "@ + m@,
        StuidError::RateLimited { provider, retry_after_secs } => "provider '"@ + provider@
            + "' rate limited (retry after "@ + decimal(retry_after_secs as nat) + "s)"@,
        StuidError::ProviderTimeout { provider, timeout_ms } => "provider '"@ + provider@ + "' timed out after "@
            + decimal(timeout_ms as nat) + "ms"@,
        StuidError::StreamFailure { url, reason } => "stream failed ("@ + reason@ + "): "@ + url@,
        StuidError::AllCandidatesExhausted { entry_id } => "all stream candidates exhausted for '"@ + entry_id@
            + "'"@,
        StuidError::Cache(m) => "cache error: "@ + m@,
        StuidError::Other(m) => m@,
    }
}

/// The short message of a failure for a toast: friendlier words for the
/// failures users meet most, the failure's text otherwise.
pub open spec fn user_text(e: StuidError) -> Seq<char> {
    match e {
        StuidError::NoStream { entry_id } => "No streams found for \""@ + entry_id@ + "\""@,
        StuidError::RateLimited { provider, retry_after_secs } => provider@ + " rate limited — retrying in "@
            + decimal(retry_after_secs as nat) + "s"@,
        StuidError::ProviderTimeout { provider, .. } => provider@ + " timed out"@,
        StuidError::StreamFailure { reason, .. } => "Stream failed: "@ + reason@,
        StuidError::AllCandidatesExhausted { .. } => "No working streams found"@,
        StuidError::Mpv(m) => "Player error: "@ + m@,
        StuidError::PluginNotFound(m) => "Plugin not found: "@ + m@,
        _ => error_text(e),
    }
}

/// Whether a failed operation can be retried without user action:
/// provider failures, rate limits, timeouts, stream failures and missing
/// streams.
pub open spec fn recoverable(e: StuidError) -> bool {
    e is Provider || e is RateLimited || e is ProviderTimeout || e is StreamFailure || e is NoStream
}

/// Whether a failure counts against the provider's health: provider
/// failures, rate limits and timeouts.
pub open spec fn provider_failure(e: StuidError) -> bool {
    e is Provider || e is RateLimited || e is ProviderTimeout
}

/// Every failure that counts against a provider is also retried: a health
/// penalty never ends the attempt.
pub proof fn lemma_provider_failure_recoverable(e: StuidError)
    ensures
        provider_failure(e) ==> recoverable(e),
{
}

/// `a` followed by `b`.
fn concat2(a: &str, b: &str) -> (r: String)
    ensures
        r@ == a@ + b@,
{
    let mut s = owned(a);
    push_str(&mut s, b);
    s
}

/// `a`, `b`, `c` in sequence.
fn concat3(a: &str, b: &str, c: &str) -> (r: String)
    ensures
        r@ == a@ + b@ + c@,
{
    let mut s = owned(a);
    push_str(&mut s, b);
    push_str(&mut s, c);
    s
}

/// `a`, `b`, `c`, `d` in sequence.
fn concat4(a: &str, b: &str, c: &str, d: &str) -> (r: String)
    ensures
        r@ == a@ + b@ + c@ + d@,
{
    let mut s = owned(a);
    push_str(&mut s, b);
    push_str(&mut s, c);
    push_str(&mut s, d);
    s
}

/// `a`, `b`, `c`, `d`, `e` in sequence.
fn concat5(a: &str, b: &str, c: &str, d: &str, e: &str) -> (r: String)
    ensures
        r@ == a@ + b@ + c@ + d@ + e@,
{
    let mut s = owned(a);
    push_str(&mut s, b);
    push_str(&mut s, c);
    push_str(&mut s, d);
    push_str(&mut s, e);
    s
}

impl StuidError {
    pub fn plugin_not_found(name: String) -> (r: Self)
        ensures
            r == StuidError::PluginNotFound(name),
    {
        StuidError::PluginNotFound(name)
    }

    pub fn plugin_load(name: String, reason: String) -> (r: Self)
        ensures
            r == (StuidError::PluginLoad { name, reason }),
    {
        StuidError::PluginLoad { name, reason }
    }

    pub fn provider(provider: String, reason: String) -> (r: Self)
        ensures
            r == (StuidError::Provider { provider, reason }),
    {
        StuidError::Provider { provider, reason }
    }

    pub fn no_stream(entry_id: String) -> (r: Self)
        ensures
            r == (StuidError::NoStream { entry_id }),
    {
        StuidError::NoStream { entry_id }
    }

    pub fn mpv(msg: String) -> (r: Self)
        ensures
            r == StuidError::Mpv(msg),
    {
        StuidError::Mpv(msg)
    }

    pub fn config(msg: String) -> (r: Self)
        ensures
            r == StuidError::Config(msg),
    {
        StuidError::Config(msg)
    }

    pub fn ipc(msg: String) -> (r: Self)
        ensures
            r == StuidError::Ipc(msg),
    {
        StuidError::Ipc(msg)
    }

    pub fn rate_limited(provider: String, retry_after_secs: u64) -> (r: Self)
        ensures
            r == (StuidError::RateLimited { provider, retry_after_secs }),
    {
        StuidError::RateLimited { provider, retry_after_secs }
    }

    pub fn stream_failure(url: String, reason: String) -> (r: Self)
        ensures
            r == (StuidError::StreamFailure { url, reason }),
    {
        StuidError::StreamFailure { url, reason }
    }

    /// Whether the failed operation can be retried without user action
    /// (see `recoverable`).
    pub fn is_recoverable(&self) -> (r: bool)
        ensures
            r == recoverable(*self),
    {
        match self {
            StuidError::Provider { .. } | StuidError::RateLimited { .. } | StuidError::ProviderTimeout { .. }
            | StuidError::StreamFailure { .. } | StuidError::NoStream { .. } => true,
            _ => false,
        }
    }

    /// Whether the failure counts against the provider's health (see
    /// `provider_failure`).
    pub fn is_provider_failure(&self) -> (r: bool)
        ensures
            r == provider_failure(*self),
    {
        match self {
            StuidError::Provider { .. } | StuidError::RateLimited { .. } | StuidError::ProviderTimeout { .. } => true,
            _ => false,
        }
    }

    /// The text of this failure (see `error_text`).
    pub fn message(&self) -> (r: String)
        ensures
            r@ == error_text(*self),
    {
        match self {
            StuidError::Io(m) => concat2("I/O error: ", m.as_str()),
            StuidError::Json(m) => concat2("JSON error: ", m.as_str()),
            StuidError::Http(m) => concat2("HTTP error: ", m.as_str()),
            StuidError::PluginNotFound(m) => concat2("plugin not found: ", m.as_str()),
            StuidError::PluginLoad { name, reason } => concat4(
                "plugin load failed (",
                name.as_str(),
                "): ",
                reason.as_str(),
            ),
            StuidError::PluginAbi(m) => concat2("plugin ABI error: ", m.as_str()),
            StuidError::Provider { provider, reason } => concat4(
                "provider '",
                provider.as_str(),
                "' failed: ",
                reason.as_str(),
            ),
            StuidError::NoStream { entry_id } => concat3("no stream found for '", entry_id.as_str(), "'"),
            StuidError::Mpv(m) => concat2("mpv error: ", m.as_str()),
            StuidError::Aria2(m) => concat2("aria2 error: ", m.as_str()),
            StuidError::Config(m) => concat2("config error: ", m.as_str()),
            StuidError::Ipc(m) => concat2("IPC protocol error: ", m.as_str()),
            StuidError::RateLimited { provider, retry_after_secs } => {
                let n = decimal_string(*retry_after_secs);
                concat5(
                    "provider '",
                    provider.as_str(),
                    "' rate limited (retry after ",
                    n.as_str(),
                    "s)",
                )
            },
            StuidError::ProviderTimeout { provider, timeout_ms } => {
                let n = decimal_string(*timeout_ms);
                concat5("provider '", provider.as_str(), "' timed out after ", n.as_str(), "ms")
            },
            StuidError::StreamFailure { url, reason } => concat4(
                "stream failed (",
                reason.as_str(),
                "): ",
                url.as_str(),
            ),
            StuidError::AllCandidatesExhausted { entry_id } => concat3(
                "all stream candidates exhausted for '",
                entry_id.as_str(),
                "'",
            ),
            StuidError::Cache(m) => concat2("cache error: ", m.as_str()),
            StuidError::Other(m) => m.clone(),
        }
    }

    /// The short message for a toast (see `user_text`).
    pub fn user_message(&self) -> (r: String)
        ensures
            r@ == user_text(*self),
    {
        match self {
            StuidError::NoStream { entry_id } => concat3("No streams found for \"", entry_id.as_str(), "\""),
            StuidError::RateLimited { provider, retry_after_secs } => {
                let n = decimal_string(*retry_after_secs);
                concat4(provider.as_str(), " rate limited — retrying in ", n.as_str(), "s")
            },
            StuidError::ProviderTimeout { provider, .. } => concat2(provider.as_str(), " timed out"),
            StuidError::StreamFailure { reason, .. } => concat2("Stream failed: ", reason.as_str()),
            StuidError::AllCandidatesExhausted { .. } => owned("No working streams found"),
            StuidError::Mpv(m) => concat2("Player error: ", m.as_str()),
            StuidError::PluginNotFound(m) => concat2("Plugin not found: ", m.as_str()),
            _ => self.message(),
        }
    }
}

} // verus!
