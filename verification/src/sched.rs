//! The room actor's port multiplexing policy.
//!
//! Four bounded inbound ports feed one actor. High-priority, control and
//! stats traffic is always served before normal traffic, and a sustained
//! run of normal messages yields after a fixed slice so that a late-arriving
//! high-priority message is never starved.

use vstd::prelude::*;

verus! {

/// The most normal-priority messages the actor handles in one burst before
/// re-checking the higher-priority ports.
pub const NORMAL_SLICE: u32 = 200;

/// What the actor does next, given which ports have a message waiting.
#[derive(Clone, Copy, Debug, PartialEq, Eq, Structural)]
pub enum SchedAction {
    ServeHigh,
    ServeControl,
    ServeStats,
    ServeNormal,
    Yield,
}

/// The scheduling decision: strict priority over the three urgent ports,
/// then normal traffic while the slice lasts, then a yield back to the
/// ready-wait.
pub open spec fn spec_next_action(
    high_ready: bool,
    control_ready: bool,
    stats_ready: bool,
    normal_ready: bool,
    served_normal: u32,
) -> SchedAction {
    if high_ready {
        SchedAction::ServeHigh
    } else if control_ready {
        SchedAction::ServeControl
    } else if stats_ready {
        SchedAction::ServeStats
    } else if normal_ready && served_normal < NORMAL_SLICE {
        SchedAction::ServeNormal
    } else {
        SchedAction::Yield
    }
}

/// Picks the port the actor serves next. `served_normal` counts the normal
/// messages handled since the last yield.
pub fn next_action(
    high_ready: bool,
    control_ready: bool,
    stats_ready: bool,
    normal_ready: bool,
    served_normal: u32,
) -> (a: SchedAction)
    ensures
        a == spec_next_action(high_ready, control_ready, stats_ready, normal_ready, served_normal),
{
    if high_ready {
        SchedAction::ServeHigh
    } else if control_ready {
        SchedAction::ServeControl
    } else if stats_ready {
        SchedAction::ServeStats
    } else if normal_ready && served_normal < NORMAL_SLICE {
        SchedAction::ServeNormal
    } else {
        SchedAction::Yield
    }
}

/// A waiting urgent message preempts normal traffic at once, and a burst of
/// normal messages never exceeds the slice: under a sustained normal-priority
/// flood, an urgent message is served after at most `NORMAL_SLICE` normal
/// messages.
pub proof fn lemma_urgent_served_within_slice(
    high_ready: bool,
    control_ready: bool,
    stats_ready: bool,
    normal_ready: bool,
    served_normal: u32,
)
    ensures
        high_ready ==> spec_next_action(
            high_ready,
            control_ready,
            stats_ready,
            normal_ready,
            served_normal,
        ) == SchedAction::ServeHigh,
        (high_ready || control_ready || stats_ready) ==> spec_next_action(
            high_ready,
            control_ready,
            stats_ready,
            normal_ready,
            served_normal,
        ) != SchedAction::ServeNormal,
        spec_next_action(high_ready, control_ready, stats_ready, normal_ready, served_normal)
            == SchedAction::ServeNormal ==> served_normal < NORMAL_SLICE,
{
}

} // verus!
