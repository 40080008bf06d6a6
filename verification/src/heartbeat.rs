//! The heartbeat task's decisions.
//!
//! The task itself is plumbing: a ticker with the skip-missed-ticks
//! policy, a channel of sequence updates drained without blocking on each
//! tick, and a shutdown signal.  What it computes on each tick — which
//! sequence number it has observed last and the exact frame it emits — is
//! decided here.

use vstd::prelude::*;

use crate::wire::{heartbeat_frame, heartbeat_json};

verus! {

/// The sequence number after draining a batch of updates: the last update
/// wins, and none leaves the current number standing.
pub open spec fn spec_latest(current: u64, updates: Seq<u64>) -> u64 {
    if updates.len() == 0 {
        current
    } else {
        updates.last()
    }
}

/// The sequence number the heartbeat carries after draining a batch of
/// updates.
pub fn latest_sequence(current: u64, updates: &Vec<u64>) -> (r: u64)
    ensures
        r == spec_latest(current, updates@),
{
    if updates.len() == 0 {
        current
    } else {
        updates[updates.len() - 1]
    }
}

/// One tick of the heartbeat task: drain the updates, then emit the
/// heartbeat frame carrying the latest observed sequence number.  Returns
/// the frame text and the number it carries, which the task keeps for the
/// next tick.
pub fn heartbeat_tick(current: u64, updates: &Vec<u64>) -> (r: (String, u64))
    ensures
        r.1 == spec_latest(current, updates@),
        r.0@ == heartbeat_json(Some(r.1)),
{
    let latest = latest_sequence(current, updates);
    let frame = heartbeat_frame(Some(latest));
    (frame, latest)
}

} // verus!
