//! The `ping` command: reports the latency of the connection it was invoked on.

use std::collections::HashMap;
use vstd::prelude::*;
use crate::commands::{CommandError, Reply};
use crate::storage::Latency;

verus! {

broadcast use vstd::std_specs::hash::group_hash_axioms;

/// Nanoseconds in a millisecond.
pub const NANOS_PER_MILLI: u64 = 1_000_000;

/// What `ping` answers on connection `shard` given the latency map: the
/// measured latency when one is known, else the still-starting reply with
/// `TooEarly` (a zero measurement) or `InvalidData` (no record).
pub open spec fn ping_outcome(latency: Map<u64, Latency>, shard: u64) -> (Reply, Result<(), CommandError>) {
    if !latency.contains_key(shard) {
        (Reply::StillStarting, Err(CommandError::InvalidData))
    } else if latency[shard].ping_ns == 0 {
        (Reply::StillStarting, Err(CommandError::TooEarly))
    } else {
        (Reply::Pong { latency_ms: latency[shard].ping_ns / NANOS_PER_MILLI, shard }, Ok(()))
    }
}

/// Runs `ping` on connection `shard`: the reply to send and the command's
/// result.
pub fn execute(latency: &HashMap<u64, Latency>, shard: u64) -> (r: (Reply, Result<(), CommandError>))
    ensures
        r == ping_outcome(latency@, shard),
{
    match latency.get(&shard) {
        Some(record) => {
            if record.ping_ns > 0 {
                (Reply::Pong { latency_ms: record.ping_ns / NANOS_PER_MILLI, shard }, Ok(()))
            } else {
                (Reply::StillStarting, Err(CommandError::TooEarly))
            }
        },
        None => (Reply::StillStarting, Err(CommandError::InvalidData)),
    }
}

} // verus!
