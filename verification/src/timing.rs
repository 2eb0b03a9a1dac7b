//! Timing coordinator: two independent cadences — a fast one bounding input
//! latency and a slow one bounding how often the service directory is
//! re-polled — plus a "force immediate refresh" override. Time is carried
//! as milliseconds on a monotonic clock supplied by the caller.

use vstd::prelude::*;

verus! {

/// The two cadences and their last-fired instants, with the forced-refresh
/// override. Once `refresh_forced` is set, the next data-due check answers
/// yes whatever the elapsed time.
#[derive(Clone, Copy, PartialEq, Eq, Structural, Debug)]
pub struct Timing {
    pub last_input_poll: u64,
    pub input_cadence: u64,
    pub last_data_poll: u64,
    pub data_cadence: u64,
    pub refresh_forced: bool,
}

/// Whether a data refresh is due at instant `now`: either one was forced,
/// or a full data cadence has elapsed since the last poll.
pub open spec fn data_due(t: Timing, now: u64) -> bool {
    t.refresh_forced || (now >= t.last_data_poll && now - t.last_data_poll >= t.data_cadence)
}

/// How much of the current input slice is left at instant `now`: the input
/// cadence minus the time elapsed since the input tick last fired, floored
/// at zero.
pub open spec fn input_slice(t: Timing, now: u64) -> int {
    let elapsed = if now >= t.last_input_poll {
        now - t.last_input_poll
    } else {
        0
    };
    if elapsed >= t.input_cadence {
        0
    } else {
        t.input_cadence - elapsed
    }
}

impl Timing {
    /// Both cadences start their first interval at `now`, with no refresh
    /// forced.
    pub fn new(now: u64, input_cadence: u64, data_cadence: u64) -> (r: Self)
        ensures
            r == (Timing {
                last_input_poll: now,
                input_cadence,
                last_data_poll: now,
                data_cadence,
                refresh_forced: false,
            }),
    {
        Timing {
            last_input_poll: now,
            input_cadence,
            last_data_poll: now,
            data_cadence,
            refresh_forced: false,
        }
    }

    /// Ask whether the service directory should be re-polled at `now`.
    pub fn data_refresh_due(&self, now: u64) -> (r: bool)
        ensures
            r == data_due(*self, now),
    {
        if self.refresh_forced {
            true
        } else {
            now >= self.last_data_poll && now - self.last_data_poll >= self.data_cadence
        }
    }

    /// Record that a data poll ran at `now` (whether it succeeded or not):
    /// the next one is due a full cadence later, and any forced refresh is
    /// consumed.
    pub fn mark_data_polled(&mut self, now: u64)
        ensures
            *final(self) == (Timing { last_data_poll: now, refresh_forced: false, ..*old(self) }),
    {
        self.last_data_poll = now;
        self.refresh_forced = false;
    }

    /// Demand that the next data-due check answers yes regardless of the
    /// elapsed time.
    pub fn force_refresh(&mut self)
        ensures
            *final(self) == (Timing { refresh_forced: true, ..*old(self) }),
            forall|now: u64| data_due(*final(self), now),
    {
        self.refresh_forced = true;
    }

    /// How long input polling may block at `now` before the current input
    /// slice runs out.
    pub fn input_slice_remaining(&self, now: u64) -> (r: u64)
        ensures
            r as int == input_slice(*self, now),
    {
        let elapsed: u64 = if now >= self.last_input_poll {
            now - self.last_input_poll
        } else {
            0
        };
        if elapsed >= self.input_cadence {
            0
        } else {
            self.input_cadence - elapsed
        }
    }

    /// Start a new input slice at `now` if the current one has run out;
    /// otherwise let it keep running.
    pub fn tick_input(&mut self, now: u64)
        ensures
            *final(self) == if input_slice(*old(self), now) == 0 {
                Timing { last_input_poll: now, ..*old(self) }
            } else {
                *old(self)
            },
    {
        let remaining = self.input_slice_remaining(now);
        if remaining == 0 {
            self.last_input_poll = now;
        }
    }
}

} // verus!
