//! The connection-health monitor: records each latency sample and runs the
//! warn/recover hysteresis of every connection.
//!
//! The monitor owns a connection's online indicator (busy while warned,
//! online otherwise); the presence rotation owns its activity. Neither ever
//! sets what the other owns, so the two never contend on one connection.

use std::collections::HashMap;
use vstd::prelude::*;
use crate::ping::NANOS_PER_MILLI;
use crate::storage::Latency;

verus! {

broadcast use vstd::std_specs::hash::group_hash_axioms;

/// The latency, in milliseconds, above which a connection is warned.
pub const SHARD_PING_WARN_MIN: u64 = 200;

/// What a sample did to a connection's warning state.
#[derive(Clone, Copy, Debug, PartialEq, Eq, Structural)]
pub enum Transition {
    /// The latency rose above the threshold: warn once and show busy.
    Warned,
    /// The latency fell below the threshold again: log the recovery and show
    /// online.
    Recovered,
    /// No change of state.
    Unchanged,
}

/// One latency measurement of a connection, in nanoseconds (zero while the
/// gateway has none).
#[derive(Clone, Copy, Debug, PartialEq, Eq, Structural)]
pub struct Sample {
    pub shard: u64,
    pub ping_ns: u64,
}

/// The record that `m` holds for `shard`, if any.
pub open spec fn record_of(m: Map<u64, Latency>, shard: u64) -> Option<Latency> {
    if m.contains_key(shard) {
        Some(m[shard])
    } else {
        None
    }
}

/// A connection's new record and transition after a sample of `ping_ns`,
/// given its previous record (none for a connection not seen before, which
/// starts unwarned).
pub open spec fn observe(prev: Option<Latency>, ping_ns: u64, threshold_ms: u64) -> (Latency, Transition) {
    let warned = match prev {
        Some(l) => l.warned,
        None => false,
    };
    let ms = ping_ns / NANOS_PER_MILLI;
    if ms > threshold_ms && !warned {
        (Latency { ping_ns, warned: true }, Transition::Warned)
    } else if warned && ms < threshold_ms {
        (Latency { ping_ns, warned: false }, Transition::Recovered)
    } else {
        (Latency { ping_ns, warned }, Transition::Unchanged)
    }
}

/// The map after recording one sample.
pub open spec fn after_sample(m: Map<u64, Latency>, s: Sample, threshold_ms: u64) -> Map<u64, Latency> {
    m.insert(s.shard, observe(record_of(m, s.shard), s.ping_ns, threshold_ms).0)
}

/// The transition that a sample makes on the map it is recorded in.
pub open spec fn transition_of(m: Map<u64, Latency>, s: Sample, threshold_ms: u64) -> Transition {
    observe(record_of(m, s.shard), s.ping_ns, threshold_ms).1
}

/// The map after recording the samples in order.
pub open spec fn after_samples(m: Map<u64, Latency>, samples: Seq<Sample>, threshold_ms: u64) -> Map<u64, Latency>
    decreases samples.len(),
{
    if samples.len() == 0 {
        m
    } else {
        after_sample(after_samples(m, samples.drop_last(), threshold_ms), samples.last(), threshold_ms)
    }
}

/// Records a sample of `ping_ns` for `shard`: creates the record of a new
/// connection, updates the latency, and applies the hysteresis rule.
pub fn record_sample(latency: &mut HashMap<u64, Latency>, sample: Sample, threshold_ms: u64) -> (t: Transition)
    ensures
        final(latency)@ == after_sample(old(latency)@, sample, threshold_ms),
        t == transition_of(old(latency)@, sample, threshold_ms),
{
    let warned = match latency.get(&sample.shard) {
        Some(l) => l.warned,
        None => false,
    };
    let ms = sample.ping_ns / NANOS_PER_MILLI;
    let (record, t) = if ms > threshold_ms && !warned {
        (Latency { ping_ns: sample.ping_ns, warned: true }, Transition::Warned)
    } else if warned && ms < threshold_ms {
        (Latency { ping_ns: sample.ping_ns, warned: false }, Transition::Recovered)
    } else {
        (Latency { ping_ns: sample.ping_ns, warned }, Transition::Unchanged)
    };
    latency.insert(sample.shard, record);
    t
}

/// One monitor tick: records the samples in order into `latency`, and gives
/// the transition of each.
pub fn monitor_tick(latency: &mut HashMap<u64, Latency>, samples: &Vec<Sample>, threshold_ms: u64) -> (r: Vec<Transition>)
    ensures
        final(latency)@ == after_samples(old(latency)@, samples@, threshold_ms),
        r@.len() == samples@.len(),
        forall|i: int|
            0 <= i < samples@.len() ==> #[trigger] r@[i] == transition_of(
                after_samples(old(latency)@, samples@.subrange(0, i), threshold_ms),
                samples@[i],
                threshold_ms,
            ),
{
    let ghost start = latency@;
    let mut out: Vec<Transition> = Vec::new();
    let n = samples.len();
    let mut i: usize = 0;
    while i < n
        invariant
            n == samples@.len(),
            i <= n,
            latency@ == after_samples(start, samples@.subrange(0, i as int), threshold_ms),
            out@.len() == i,
            forall|j: int|
                0 <= j < i ==> #[trigger] out@[j] == transition_of(
                    after_samples(start, samples@.subrange(0, j), threshold_ms),
                    samples@[j],
                    threshold_ms,
                ),
        decreases n - i,
    {
        let s = samples[i];
        let t = record_sample(latency, s, threshold_ms);
        proof {
            let next = samples@.subrange(0, i + 1);
            assert(next.drop_last() =~= samples@.subrange(0, i as int));
            assert(next.last() == s);
        }
        out.push(t);
        i = i + 1;
    }
    proof {
        assert(samples@.subrange(0, n as int) =~= samples@);
    }
    out
}

/// While a connection stays above the threshold it is warned only once: after
/// a sample above the threshold, a second one above it changes nothing.
pub proof fn lemma_single_warning(m: Map<u64, Latency>, a: Sample, b: Sample, threshold_ms: u64)
    requires
        a.shard == b.shard,
        a.ping_ns / NANOS_PER_MILLI > threshold_ms,
        b.ping_ns / NANOS_PER_MILLI > threshold_ms,
    ensures
        transition_of(after_sample(m, a, threshold_ms), b, threshold_ms) == Transition::Unchanged,
        after_sample(m, a, threshold_ms)[a.shard].warned,
{
}

/// A warning and a recovery alternate: a connection is warned only from the
/// normal state and recovers only from the warned state, each time changing
/// that state.
pub proof fn lemma_transitions_alternate(m: Map<u64, Latency>, s: Sample, threshold_ms: u64)
    ensures
        transition_of(m, s, threshold_ms) == Transition::Warned ==> {
            &&& !(record_of(m, s.shard) matches Some(l) && l.warned)
            &&& after_sample(m, s, threshold_ms)[s.shard].warned
        },
        transition_of(m, s, threshold_ms) == Transition::Recovered ==> {
            &&& record_of(m, s.shard) matches Some(l) && l.warned
            &&& !after_sample(m, s, threshold_ms)[s.shard].warned
        },
        transition_of(m, s, threshold_ms) == Transition::Unchanged ==> after_sample(m, s, threshold_ms)[s.shard].warned == (record_of(m, s.shard) matches Some(l) && l.warned),
{
}

} // verus!
