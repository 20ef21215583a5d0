//! The background scheduler's decision logic: two long-running stages keep
//! the cache warm, yielding to interactive traffic.
//!
//! The stages' outside work — sleeping, enumerating the registry, checking
//! and writing cache entries — is the caller's. Every decision a stage
//! makes between those steps is a function here: whether a pass may begin,
//! what to do with one enumerated item, and what a finished pass means for
//! the exhaustion flag.

use vstd::prelude::*;

verus! {

/// The two process-wide worker flags, as the values a stage read for one
/// decision. `live_traffic` is true while any interactive request runs;
/// `thumbnail_stage_exhausted` is true once a full thumbnail pass found no
/// missing entry.
#[derive(Clone, Copy, PartialEq, Eq, Structural, Debug)]
pub struct WorkerFlags {
    /// At least one interactive request is being served.
    pub live_traffic: bool,
    /// A full thumbnail-stage pass completed without finding a miss.
    pub thumbnail_stage_exhausted: bool,
}

/// What a scanning stage does with one enumerated source path.
#[derive(Clone, Copy, PartialEq, Eq, Structural, Debug)]
pub enum ItemDecision {
    /// Interactive traffic became active: abort this pass, marking it
    /// interrupted.
    AbortPass,
    /// The cache already holds this item's entry: move on.
    SkipCached,
    /// Generate the derivative for this item, then sleep the short
    /// inter-item delay.
    Generate,
}

/// Whether the thumbnail stage may begin a pass: only while no interactive
/// traffic is active.
pub fn thumbnail_pass_gate(flags: WorkerFlags) -> (proceed: bool)
    ensures
        proceed <==> !flags.live_traffic,
{
    !flags.live_traffic
}

/// Whether the preview stage may begin a pass: only after the thumbnail
/// stage is exhausted, and only while no interactive traffic is active.
pub fn preview_pass_gate(flags: WorkerFlags) -> (proceed: bool)
    ensures
        proceed <==> flags.thumbnail_stage_exhausted && !flags.live_traffic,
        !flags.thumbnail_stage_exhausted ==> !proceed,
        flags.live_traffic ==> !proceed,
{
    flags.thumbnail_stage_exhausted && !flags.live_traffic
}

/// Decides one enumerated item, from the flags as re-read for this item
/// and the cache-existence check. The stage never generates while
/// interactive traffic is active.
pub fn scan_item_decision(live_traffic: bool, entry_cached: bool) -> (d: ItemDecision)
    ensures
        d == ItemDecision::AbortPass <==> live_traffic,
        d == ItemDecision::SkipCached <==> !live_traffic && entry_cached,
        d == ItemDecision::Generate <==> !live_traffic && !entry_cached,
        live_traffic ==> d != ItemDecision::Generate,
{
    if live_traffic {
        ItemDecision::AbortPass
    } else if entry_cached {
        ItemDecision::SkipCached
    } else {
        ItemDecision::Generate
    }
}

/// The exhaustion flag after a thumbnail pass: set exactly when the pass
/// ran to completion and found no missing entry; a pass that was
/// interrupted, or found at least one miss, leaves the stage unexhausted.
pub fn thumbnail_pass_end(interrupted: bool, misses: u64) -> (exhausted: bool)
    ensures
        exhausted <==> !interrupted && misses == 0,
{
    !interrupted && misses == 0
}

/// A pass's running miss count after one item, saturating at the counter's
/// ceiling: a decision to generate is a miss.
pub fn count_item_miss(misses: u64, decision: ItemDecision) -> (r: u64)
    ensures
        decision == ItemDecision::Generate ==> r == if misses < u64::MAX {
            misses + 1
        } else {
            misses as int
        },
        decision != ItemDecision::Generate ==> r == misses,
        r == 0 <==> misses == 0 && decision != ItemDecision::Generate,
{
    match decision {
        ItemDecision::Generate => {
            if misses < u64::MAX {
                misses + 1
            } else {
                misses
            }
        },
        _ => misses,
    }
}

} // verus!
