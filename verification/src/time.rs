//! Per-tick time bookkeeping.
//!
//! The simulator reports an authoritative `(frame, elapsed time)` pair once
//! per tick.  `TimeBuffer` remembers the previous observation and derives a
//! `TimeDelta` for the current one.  Deltas are zero on the very first
//! observation; a decrease of either component signals a simulator reset and
//! starts a fresh epoch with zero deltas, so deltas never go negative.

use vstd::prelude::*;

verus! {

/// The derived per-tick time information.  `time` is the simulator's elapsed
/// time in nanoseconds.
#[derive(Debug, Clone, Copy, PartialEq, Eq, Structural)]
pub struct TimeDelta {
    pub frame: u64,
    pub frame_delta: u64,
    pub time: u64,
    pub time_delta: u64,
}

/// Remembers the previous tick's `(frame, time)` observation.
#[derive(Debug, Clone, Copy)]
pub struct TimeBuffer {
    prev: Option<(u64, u64)>,
}

/// What `TimeBuffer::step` returns for a previous observation `prev` and a
/// current observation `(frame, time)`.
pub open spec fn spec_step(prev: Option<(u64, u64)>, frame: u64, time: u64) -> TimeDelta {
    match prev {
        Some((prev_frame, prev_time)) => {
            if prev_frame <= frame && prev_time <= time {
                TimeDelta {
                    frame,
                    frame_delta: (frame - prev_frame) as u64,
                    time,
                    time_delta: (time - prev_time) as u64,
                }
            } else {
                TimeDelta { frame, frame_delta: 0, time, time_delta: 0 }
            }
        },
        None => TimeDelta { frame, frame_delta: 0, time, time_delta: 0 },
    }
}

impl TimeBuffer {
    /// The previous observation, if any.
    pub closed spec fn prev_observation(self) -> Option<(u64, u64)> {
        self.prev
    }

    /// Derives the deltas for the current observation and records it as the
    /// new previous one.
    pub fn step(&mut self, frame: u64, time: u64) -> (delta: TimeDelta)
        ensures
            delta == spec_step(old(self).prev_observation(), frame, time),
            final(self).prev_observation() == Some((frame, time)),
    {
        let delta = match self.prev {
            Some((prev_frame, prev_time)) => {
                if prev_frame <= frame && prev_time <= time {
                    TimeDelta {
                        frame,
                        frame_delta: frame - prev_frame,
                        time,
                        time_delta: time - prev_time,
                    }
                } else {
                    TimeDelta { frame, frame_delta: 0, time, time_delta: 0 }
                }
            },
            None => TimeDelta { frame, frame_delta: 0, time, time_delta: 0 },
        };
        self.prev = Some((frame, time));
        delta
    }
}

/// Law: within one epoch (no reset), the derived deltas vanish exactly when
/// the corresponding component did not advance: stepping the same tick data
/// again gives zero deltas, and a zero delta never hides real progress.
pub proof fn lemma_delta_zero_iff_no_advance(prev_frame: u64, prev_time: u64, frame: u64, time: u64)
    requires
        prev_frame <= frame,
        prev_time <= time,
    ensures
        spec_step(Some((prev_frame, prev_time)), frame, time).frame_delta == 0 <==> frame
            == prev_frame,
        spec_step(Some((prev_frame, prev_time)), frame, time).time_delta == 0 <==> time
            == prev_time,
{
}

impl Default for TimeBuffer {
    /// A fresh buffer with no previous observation.
    fn default() -> (r: Self)
        ensures
            r.prev_observation() is None,
    {
        TimeBuffer { prev: None }
    }
}

} // verus!
