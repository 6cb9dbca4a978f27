//! The session clock: wall-clock time split into time spent running and time
//! spent paused.
//!
//! Instants and spans are whole nanoseconds. An instant is a reading of
//! whatever clock the caller samples; only differences between readings matter.

use vstd::prelude::*;

verus! {

/// The state of a session clock, as mathematics.
pub struct ClockModel {
    /// The instant at which the clock was started.
    pub started_at: nat,
    /// The instant of the latest sample.
    pub last_sample_instant: nat,
    /// Time accumulated while running.
    pub active_elapsed: nat,
    /// Time accumulated while paused.
    pub paused_elapsed: nat,
    /// Whether the next sample adds to the paused time.
    pub is_paused: bool,
}

impl ClockModel {
    /// Every nanosecond between the start and the latest sample is accounted
    /// for exactly once, as active or as paused.
    pub open spec fn valid(self) -> bool {
        self.started_at + self.active_elapsed + self.paused_elapsed == self.last_sample_instant
    }

    /// A clock started at `now`: running, with nothing elapsed.
    pub open spec fn start(now: nat) -> ClockModel {
        ClockModel {
            started_at: now,
            last_sample_instant: now,
            active_elapsed: 0,
            paused_elapsed: 0,
            is_paused: false,
        }
    }

    /// The clock after a sample taken `delta` later than the latest one: the
    /// whole of `delta` goes to the paused time if the clock is paused, and to
    /// the active time if it is not.
    pub open spec fn advance(self, delta: nat) -> ClockModel {
        ClockModel {
            last_sample_instant: self.last_sample_instant + delta,
            active_elapsed: if self.is_paused {
                self.active_elapsed
            } else {
                self.active_elapsed + delta
            },
            paused_elapsed: if self.is_paused {
                self.paused_elapsed + delta
            } else {
                self.paused_elapsed
            },
            ..self
        }
    }

    /// The clock with its pause flag flipped and no time moved.
    pub open spec fn toggle_pause(self) -> ClockModel {
        ClockModel { is_paused: !self.is_paused, ..self }
    }
}

/// A clock that attributes elapsed wall-clock time to running or to pausing.
#[derive(Clone, Copy, Debug)]
pub struct SessionClock {
    started_at: u64,
    last_sample: u64,
    active: u64,
    paused: u64,
    is_paused: bool,
}

impl View for SessionClock {
    type V = ClockModel;

    closed spec fn view(&self) -> ClockModel {
        ClockModel {
            started_at: self.started_at as nat,
            last_sample_instant: self.last_sample as nat,
            active_elapsed: self.active as nat,
            paused_elapsed: self.paused as nat,
            is_paused: self.is_paused,
        }
    }
}

impl SessionClock {
    #[verifier::type_invariant]
    spec fn well_formed(self) -> bool {
        self@.valid()
    }

    /// Starts a clock at the instant `now`.
    pub fn start(now: u64) -> (clock: SessionClock)
        ensures
            clock@ == ClockModel::start(now as nat),
    {
        SessionClock { started_at: now, last_sample: now, active: 0, paused: 0, is_paused: false }
    }

    /// Takes a sample at the instant `now` and accounts for the time since the
    /// latest sample.
    ///
    /// A reading earlier than the latest sample has no elapsed time to account
    /// for, and is left out.
    pub fn advance(&mut self, now: u64)
        requires
            now >= old(self)@.last_sample_instant,
        ensures
            final(self)@ == old(self)@.advance((now - old(self)@.last_sample_instant) as nat),
            final(self)@.valid(),
    {
        proof {
            use_type_invariant(&*self);
        }
        let delta: u64 = now - self.last_sample;
        if self.is_paused {
            *self = SessionClock { last_sample: now, paused: self.paused + delta, ..*self };
        } else {
            *self = SessionClock { last_sample: now, active: self.active + delta, ..*self };
        }
    }

    /// Flips between running and paused. No time is moved: the split is made
    /// by the samples alone.
    pub fn toggle_pause(&mut self)
        ensures
            final(self)@ == old(self)@.toggle_pause(),
            final(self)@.valid(),
    {
        proof {
            use_type_invariant(&*self);
        }
        *self = SessionClock { is_paused: !self.is_paused, ..*self };
    }

    /// The instant at which the clock was started.
    pub fn started_at(&self) -> (instant: u64)
        ensures
            instant == self@.started_at,
    {
        self.started_at
    }

    /// The instant of the latest sample.
    pub fn last_sample_instant(&self) -> (instant: u64)
        ensures
            instant == self@.last_sample_instant,
    {
        self.last_sample
    }

    /// The nanoseconds accumulated while running.
    pub fn active_elapsed(&self) -> (nanos: u64)
        ensures
            nanos == self@.active_elapsed,
    {
        self.active
    }

    /// The nanoseconds accumulated while paused.
    pub fn paused_elapsed(&self) -> (nanos: u64)
        ensures
            nanos == self@.paused_elapsed,
    {
        self.paused
    }

    /// Whether the clock is paused.
    pub fn is_paused(&self) -> (paused_now: bool)
        ensures
            paused_now == self@.is_paused,
    {
        self.is_paused
    }
}

} // verus!
