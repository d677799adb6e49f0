//! The pipeline's decisions: which page offset a search asks for and which
//! stream-ranking strategy applies.

use vstd::prelude::*;

verus! {

/// Results per search page.
pub const SEARCH_PAGE_SIZE: usize = 50;

/// The offset of a 1-based search page (page 0 counts as page 1).
pub fn search_offset(page: u32) -> (r: usize)
    requires
        (if page == 0 { 0 } else { page - 1 }) * SEARCH_PAGE_SIZE <= usize::MAX,
    ensures
        r == (if page == 0 { 0 } else { page - 1 }) * SEARCH_PAGE_SIZE,
{
    let p = if page == 0 { 0 } else { page - 1 };
    (p as usize) * SEARCH_PAGE_SIZE
}

/// How streams for an entry are ranked.
#[derive(Debug, Clone, Copy, PartialEq, Eq, Structural)]
pub enum StreamStrategy {
    /// By quality alone.
    Quality,
    /// Quality blended with provider reliability.
    Health,
    /// Quality and reliability, then re-ranked by probed speed.
    Benchmark,
}

/// The ranking strategy: benchmarking when enabled, else reliability
/// blending when any reliability score is known, else quality alone.
pub fn stream_strategy(health_known: bool, benchmark_enabled: bool) -> (r: StreamStrategy)
    ensures
        r == if benchmark_enabled {
            StreamStrategy::Benchmark
        } else if health_known {
            StreamStrategy::Health
        } else {
            StreamStrategy::Quality
        },
{
    if !health_known && !benchmark_enabled {
        StreamStrategy::Quality
    } else if benchmark_enabled {
        StreamStrategy::Benchmark
    } else {
        StreamStrategy::Health
    }
}

} // verus!
