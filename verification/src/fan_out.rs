//! Folding the answers of a provider fan-out: first success wins for the
//! single-answer verbs, successes before the deadline are kept for the
//! parallel ones, and the stream fan-out skips providers that serve no
//! streams or whose circuit is open.

use vstd::prelude::*;
use crate::sources::names;
use crate::text::{owned, push_str};

verus! {

/// The answer of a first-success fan-out over `outs`, the providers'
/// answers in call order: the first success, else the last failure, else
/// (no provider at all) `none`.
pub open spec fn first_success_of<T>(outs: Seq<Result<T, String>>, none: Seq<char>) -> Result<T, Seq<char>>
    decreases outs.len(),
{
    if outs.len() == 0 {
        Err(none)
    } else {
        match outs[0] {
            Ok(v) => Ok(v),
            Err(e) => match first_success_of(outs.drop_first(), none) {
                Ok(v) => Ok(v),
                Err(later) => if outs.len() == 1 { Err(e@) } else { Err(later) },
            },
        }
    }
}

/// A first-success fan-out succeeds exactly when some provider did, and
/// then with the first success.
pub proof fn lemma_first_success_ok<T>(outs: Seq<Result<T, String>>, none: Seq<char>)
    ensures
        first_success_of(outs, none) is Ok <==> exists|i: int| 0 <= i < outs.len() && #[trigger] outs[i] is Ok,
        forall|i: int|
            0 <= i < outs.len() && #[trigger] outs[i] is Ok && (forall|j: int| 0 <= j < i ==> outs[j] is Err)
                ==> first_success_of(outs, none) == Ok::<T, Seq<char>>(outs[i]->Ok_0),
    decreases outs.len(),
{
    if outs.len() > 0 {
        let rest = outs.drop_first();
        lemma_first_success_ok(rest, none);
        assert forall|i: int| 1 <= i < outs.len() implies #[trigger] outs[i] == rest[i - 1] by {}
        if exists|i: int| 0 <= i < outs.len() && #[trigger] outs[i] is Ok {
            let i = choose|i: int| 0 <= i < outs.len() && #[trigger] outs[i] is Ok;
            if i > 0 && outs[0] is Err {
                assert(rest[i - 1] is Ok);
            }
        }
        if first_success_of(outs, none) is Ok && outs[0] is Err {
            let k = choose|k: int| 0 <= k < rest.len() && #[trigger] rest[k] is Ok;
            assert(outs[k + 1] is Ok);
        }
        assert forall|i: int|
            0 <= i < outs.len() && #[trigger] outs[i] is Ok && (forall|j: int| 0 <= j < i ==> outs[j] is Err)
                implies first_success_of(outs, none) == Ok::<T, Seq<char>>(outs[i]->Ok_0) by {
            if i > 0 {
                assert(outs[0] is Err);
                assert(rest[i - 1] is Ok);
                assert forall|j: int| 0 <= j < i - 1 implies rest[j] is Err by {
                    assert(outs[j + 1] is Err);
                }
            }
        }
    }
}

/// The answer of a first-success fan-out (see `first_success_of`). Callers
/// stop calling providers at the first success, so `outs` ends there.
pub fn first_success<T>(outs: Vec<Result<T, String>>, none_msg: &str) -> (r: Result<T, String>)
    ensures
        match first_success_of(outs@, none_msg@) {
            Ok(v) => r == Ok::<T, String>(v),
            Err(m) => r matches Err(e) && e@ == m,
        },
    decreases outs@.len(),
{
    let mut outs = outs;
    if outs.len() == 0 {
        return Err(owned(none_msg));
    }
    let ghost all = outs@;
    let first = outs.remove(0);
    assert(outs@ =~= all.drop_first());
    match first {
        Ok(v) => Ok(v),
        Err(e) => {
            let n = outs.len();
            let rest = first_success(outs, none_msg);
            match rest {
                Ok(v) => Ok(v),
                Err(later) => if n == 0 {
                    Err(e)
                } else {
                    Err(later)
                },
            }
        },
    }
}

/// The failure text of a first-success verb with no provider configured.
pub fn no_providers_message(verb: &str) -> (r: String)
    ensures
        r@ == "no "@ + verb@ + " providers configured"@,
{
    let mut s = owned("no ");
    push_str(&mut s, verb);
    push_str(&mut s, " providers configured");
    s
}

/// The successes among `outs`, in order.
pub open spec fn successes<T>(outs: Seq<Result<T, String>>) -> Seq<T>
    decreases outs.len(),
{
    if outs.len() == 0 {
        Seq::empty()
    } else {
        successes(outs.drop_last()) + match outs.last() {
            Ok(v) => seq![v],
            Err(_) => Seq::empty(),
        }
    }
}

/// Keep the successes of the answers that arrived before the deadline, in
/// arrival order; failed sources are dropped.
pub fn collect_successes<T>(outs: Vec<Result<T, String>>) -> (r: Vec<T>)
    ensures
        r@ == successes(outs@),
{
    let ghost all = outs@;
    let n = outs.len();
    let mut rest = outs;
    let mut out: Vec<T> = Vec::new();
    let mut i: usize = 0;
    assert(rest@ =~= all.subrange(0, all.len() as int));
    while rest.len() > 0
        invariant
            n == all.len(),
            i + rest@.len() == all.len(),
            rest@ =~= all.subrange(i as int, all.len() as int),
            out@ == successes(all.subrange(0, i as int)),
        decreases rest@.len(),
    {
        let o = rest.remove(0);
        assert(o == all[i as int]);
        assert(all.subrange(0, i + 1).drop_last() =~= all.subrange(0, i as int));
        match o {
            Ok(v) => {
                out.push(v);
            },
            Err(_) => {},
        }
        i += 1;
        assert(out@ =~= successes(all.subrange(0, i as int)));
    }
    assert(all.subrange(0, all.len() as int) =~= all);
    out
}

/// A built-in stream provider as the fan-out sees it.
#[derive(Debug, Clone)]
pub struct StreamProviderState {
    pub name: String,
    /// Whether it serves streams at all.
    pub has_streams: bool,
    /// Whether its circuit breaker lets calls through (always, without one).
    pub available: bool,
}

/// The stream providers called, and those skipped because their circuit is
/// open, each in order; providers without streams are neither.
pub fn plan_stream_fan_out(providers: &Vec<StreamProviderState>) -> (r: (Vec<String>, Vec<String>))
    ensures
        names(r.0@) == providers@.filter(|p: StreamProviderState| p.has_streams && p.available).map_values(
            |p: StreamProviderState| p.name@,
        ),
        names(r.1@) == providers@.filter(|p: StreamProviderState| p.has_streams && !p.available).map_values(
            |p: StreamProviderState| p.name@,
        ),
{
    let ghost call = |p: StreamProviderState| p.has_streams && p.available;
    let ghost skip = |p: StreamProviderState| p.has_streams && !p.available;
    let mut called: Vec<String> = Vec::new();
    let mut skipped: Vec<String> = Vec::new();
    let mut i: usize = 0;
    while i < providers.len()
        invariant
            i <= providers@.len(),
            call == (|p: StreamProviderState| p.has_streams && p.available),
            skip == (|p: StreamProviderState| p.has_streams && !p.available),
            names(called@) == providers@.subrange(0, i as int).filter(call).map_values(
                |p: StreamProviderState| p.name@,
            ),
            names(skipped@) == providers@.subrange(0, i as int).filter(skip).map_values(
                |p: StreamProviderState| p.name@,
            ),
        decreases providers@.len() - i,
    {
        let p = &providers[i];
        let ghost pre = providers@.subrange(0, i as int);
        assert(providers@.subrange(0, i + 1) =~= pre.push(*p));
        proof {
            crate::sources::lemma_filter_push(pre, *p, call);
            crate::sources::lemma_filter_push(pre, *p, skip);
        }
        if p.has_streams {
            if p.available {
                let ghost before = names(called@);
                called.push(p.name.clone());
                assert(names(called@) =~= before.push(p.name@));
                assert(pre.filter(call).push(*p).map_values(|p: StreamProviderState| p.name@) =~= pre.filter(
                    call,
                ).map_values(|p: StreamProviderState| p.name@).push(p.name@));
            } else {
                let ghost before = names(skipped@);
                skipped.push(p.name.clone());
                assert(names(skipped@) =~= before.push(p.name@));
                assert(pre.filter(skip).push(*p).map_values(|p: StreamProviderState| p.name@) =~= pre.filter(
                    skip,
                ).map_values(|p: StreamProviderState| p.name@).push(p.name@));
            }
        }
        i += 1;
    }
    assert(providers@.subrange(0, providers@.len() as int) =~= providers@);
    (called, skipped)
}

} // verus!
