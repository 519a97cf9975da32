//! The two quality-of-service profiles the bridge uses: best-effort,
//! keep-last-1, volatile for high-rate telemetry and control topics, and
//! reliable, keep-all, transient-local for the one-shot static-info topics.

use vstd::prelude::*;

verus! {

#[derive(Debug, Clone, Copy, PartialEq, Eq, Structural)]
pub enum HistoryPolicy {
    KeepLast,
    KeepAll,
}

#[derive(Debug, Clone, Copy, PartialEq, Eq, Structural)]
pub enum ReliabilityPolicy {
    BestEffort,
    Reliable,
}

#[derive(Debug, Clone, Copy, PartialEq, Eq, Structural)]
pub enum DurabilityPolicy {
    Volatile,
    TransientLocal,
}

/// The subset of a bus profile that the bridge chooses deliberately.
#[derive(Debug, Clone, Copy, PartialEq, Eq, Structural)]
pub struct QosProfile {
    pub history: HistoryPolicy,
    pub depth: usize,
    pub reliability: ReliabilityPolicy,
    pub durability: DurabilityPolicy,
}

/// The profile for high-rate telemetry and control topics: stale samples are
/// dropped rather than redelivered.
pub fn best_effort() -> (q: QosProfile)
    ensures
        q == (QosProfile {
            history: HistoryPolicy::KeepLast,
            depth: 1,
            reliability: ReliabilityPolicy::BestEffort,
            durability: DurabilityPolicy::Volatile,
        }),
{
    QosProfile {
        history: HistoryPolicy::KeepLast,
        depth: 1,
        reliability: ReliabilityPolicy::BestEffort,
        durability: DurabilityPolicy::Volatile,
    }
}

/// The profile for one-shot static-info topics: late subscribers still
/// receive the last sample.
pub fn latched() -> (q: QosProfile)
    ensures
        q == (QosProfile {
            history: HistoryPolicy::KeepAll,
            depth: 1,
            reliability: ReliabilityPolicy::Reliable,
            durability: DurabilityPolicy::TransientLocal,
        }),
{
    QosProfile {
        history: HistoryPolicy::KeepAll,
        depth: 1,
        reliability: ReliabilityPolicy::Reliable,
        durability: DurabilityPolicy::TransientLocal,
    }
}

} // verus!
