//! The choice of the log filter: the `STUI_LOG` setting wins over the
//! configured level, and a filter that does not parse falls back to `info`.

use vstd::prelude::*;
use crate::text::owned;

verus! {

/// Logging settings.
#[derive(Debug, Clone)]
pub struct LoggingConfig {
    /// The filter directives (e.g. `info`, `stui_runtime=debug,warn`).
    pub level: String,
    /// A file that also receives the logs, if any.
    pub log_file: Option<String>,
}

/// The settings for logging at `level` to the terminal only.
pub fn config_for_level(level: &str) -> (c: LoggingConfig)
    ensures
        c.level@ == level@,
        c.log_file is None,
{
    LoggingConfig { level: owned(level), log_file: None }
}

/// Name for whether `tracing_subscriber::EnvFilter::try_new` accepts the
/// directives `s`.
pub uninterp spec fn filter_accepts(s: Seq<char>) -> bool;

/// Calls `tracing_subscriber::EnvFilter::try_new` and reports whether the
/// directives parsed. The answer is named `filter_accepts`; the directive
/// grammar is not restated.
#[verifier::external_body]
fn parses_as_filter(s: &str) -> (r: bool)
    ensures
        r == filter_accepts(s@),
{
    tracing_subscriber::EnvFilter::try_new(s).is_ok()
}

/// The filter asked for: the `STUI_LOG` value when set, else the
/// configured level.
pub open spec fn requested_filter(env: Option<Seq<char>>, cfg: LoggingConfig) -> Seq<char> {
    match env {
        Some(v) => v,
        None => cfg.level@,
    }
}

/// The filter to install and the filter asked for: the one asked for when
/// it parses, else `info`.
pub fn filter_choice(env: Option<String>, cfg: &LoggingConfig) -> (r: (String, String))
    ensures
        r.1@ == requested_filter(
            match env {
                Some(v) => Some(v@),
                None => None,
            },
            *cfg,
        ),
        r.0@ == if filter_accepts(r.1@) { r.1@ } else { "info"@ },
{
    let asked = match env {
        Some(v) => v,
        None => cfg.level.clone(),
    };
    if parses_as_filter(asked.as_str()) {
        (asked.clone(), asked)
    } else {
        (owned("info"), asked)
    }
}

} // verus!
