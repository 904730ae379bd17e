//! What triggered a fork detection and what was done about it.

use vstd::prelude::*;

verus! {

/// What triggered a fork detection.
#[derive(Debug, PartialEq, Eq, Structural)]
pub enum ForkTriggerType {
    AdoptionThreshold,
    TimeBased,
    Manual,
    Emergency,
    Consensus,
}

/// The action taken in response to a fork detection.
#[derive(Debug, PartialEq, Eq, Structural)]
pub enum ForkAction {
    ForkExecuted,
    ForkScheduled,
    ForkRejected,
    MonitoringIncreased,
    AlertSent,
}

} // verus!
