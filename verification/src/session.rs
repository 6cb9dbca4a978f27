//! One session: a task's countdown from its start to its expiry.

use vstd::prelude::*;
use vstd::string::StringExecFns;
use crate::clock::{ClockModel, SessionClock};
use crate::format::{format_time, time_text};
use crate::task::Task;
use crate::urgency::{classify, tier_of_ratio, UrgencyTier};

verus! {

/// The number of nanoseconds in a second.
pub const NANOS_PER_SECOND: u64 = 1_000_000_000;

/// Why no session was started.
#[derive(Clone, Copy, Debug, PartialEq, Eq, Structural)]
pub enum SessionError {
    /// The task allots no time, or less than none: the fraction of the time
    /// used up would be undefined.
    ZeroOrNegativeDuration,
}

/// What the presentation renders after each change.
#[derive(Clone, Debug, PartialEq, Eq)]
pub struct Display {
    /// The countdown label.
    pub label: String,
    /// How close the deadline is.
    pub tier: UrgencyTier,
    /// The distractions recorded so far.
    pub distraction_count: u64,
    /// Whether the session is paused.
    pub is_paused: bool,
}

/// A `Display`, as mathematics.
pub struct DisplayModel {
    pub label: Seq<char>,
    pub tier: UrgencyTier,
    pub distraction_count: nat,
    pub is_paused: bool,
}

impl View for Display {
    type V = DisplayModel;

    open spec fn view(&self) -> DisplayModel {
        DisplayModel {
            label: self.label@,
            tier: self.tier,
            distraction_count: self.distraction_count as nat,
            is_paused: self.is_paused,
        }
    }
}

/// What a session reports after it has been brought up to date.
#[derive(Clone, Debug, PartialEq, Eq)]
pub enum Refresh {
    /// The allotted time is used up; there is nothing further to show.
    Expired,
    /// The session goes on, and this is what to show.
    Show(Display),
}

/// A `Refresh`, as mathematics.
pub enum RefreshModel {
    Expired,
    Show(DisplayModel),
}

impl View for Refresh {
    type V = RefreshModel;

    open spec fn view(&self) -> RefreshModel {
        match self {
            Refresh::Expired => RefreshModel::Expired,
            Refresh::Show(display) => RefreshModel::Show(display@),
        }
    }
}

/// The state of a session, as mathematics. Spans are whole nanoseconds, the
/// target whole seconds.
pub struct SessionModel {
    pub project: Seq<char>,
    pub description: Seq<char>,
    /// The allotted time, in seconds.
    pub target_seconds: int,
    pub clock: ClockModel,
    pub distraction_count: nat,
}

impl SessionModel {
    /// The target is positive and the clock accounts for all sampled time.
    pub open spec fn valid(self) -> bool {
        self.target_seconds > 0 && self.clock.valid()
    }

    /// The session that starts at `now` for a task: running, nothing elapsed,
    /// no distraction recorded.
    pub open spec fn start(
        project: Seq<char>,
        description: Seq<char>,
        duration_seconds: int,
        now: nat,
    ) -> SessionModel {
        SessionModel {
            project,
            description,
            target_seconds: duration_seconds,
            clock: ClockModel::start(now),
            distraction_count: 0,
        }
    }

    /// The allotted time in nanoseconds.
    pub open spec fn target_nanos(self) -> int {
        self.target_seconds * NANOS_PER_SECOND
    }

    /// The active time has reached the target.
    pub open spec fn expired(self) -> bool {
        self.clock.active_elapsed >= self.target_nanos()
    }

    /// The whole seconds left of the target, zero once it is reached.
    pub open spec fn remaining_seconds(self) -> nat {
        if self.expired() {
            0
        } else {
            ((self.target_nanos() - self.clock.active_elapsed) / (NANOS_PER_SECOND as int)) as nat
        }
    }

    /// The whole seconds spent paused.
    pub open spec fn paused_seconds(self) -> nat {
        self.clock.paused_elapsed / (NANOS_PER_SECOND as nat)
    }

    /// The tier of the fraction `active_elapsed / target`.
    pub open spec fn tier(self) -> UrgencyTier {
        tier_of_ratio(self.clock.active_elapsed as int, self.target_nanos())
    }

    /// The countdown label: the time left behind a minus sign, preceded while
    /// paused by the time spent paused.
    pub open spec fn label(self) -> Seq<char> {
        if self.clock.is_paused {
            "Paused: "@ + time_text(self.paused_seconds()) + " / -"@ + time_text(
                self.remaining_seconds(),
            )
        } else {
            "-"@ + time_text(self.remaining_seconds())
        }
    }

    /// What the presentation is to render for this state.
    pub open spec fn display(self) -> DisplayModel {
        DisplayModel {
            label: self.label(),
            tier: self.tier(),
            distraction_count: self.distraction_count,
            is_paused: self.clock.is_paused,
        }
    }

    /// What the session reports of this state: that it has expired, or what
    /// to render.
    pub open spec fn refresh(self) -> RefreshModel {
        if self.expired() {
            RefreshModel::Expired
        } else {
            RefreshModel::Show(self.display())
        }
    }

    /// The session after a sample taken `delta` after the latest one.
    pub open spec fn tick(self, delta: nat) -> SessionModel {
        SessionModel { clock: self.clock.advance(delta), ..self }
    }

    /// The session with its pause flag flipped.
    pub open spec fn toggle_pause(self) -> SessionModel {
        SessionModel { clock: self.clock.toggle_pause(), ..self }
    }

    /// The session after a request to change the target by `delta` seconds:
    /// changed if the new target is positive, and as before if it is not.
    pub open spec fn adjust_duration(self, delta: int) -> SessionModel {
        if self.target_seconds + delta > 0 {
            SessionModel { target_seconds: self.target_seconds + delta, ..self }
        } else {
            self
        }
    }

    /// The session with one more distraction recorded.
    pub open spec fn record_distraction(self) -> SessionModel {
        SessionModel { distraction_count: self.distraction_count + 1, ..self }
    }
}

/// One operation on a session.
pub enum SessionOp {
    /// A clock sample taken `nanos` after the latest one.
    Tick { nanos: nat },
    /// A pause or a resume.
    TogglePause,
    /// A request to change the target by `seconds`.
    AdjustDuration { seconds: int },
    /// One distraction.
    RecordDistraction,
}

impl SessionModel {
    /// The session after one operation.
    pub open spec fn apply(self, op: SessionOp) -> SessionModel {
        match op {
            SessionOp::Tick { nanos } => self.tick(nanos),
            SessionOp::TogglePause => self.toggle_pause(),
            SessionOp::AdjustDuration { seconds } => self.adjust_duration(seconds),
            SessionOp::RecordDistraction => self.record_distraction(),
        }
    }

    /// The session after the operations `ops`, applied first to last.
    pub open spec fn run(self, ops: Seq<SessionOp>) -> SessionModel
        decreases ops.len(),
    {
        if ops.len() == 0 {
            self
        } else {
            self.run(ops.drop_last()).apply(ops.last())
        }
    }

    /// All the time that the clock has accounted for, active and paused.
    pub open spec fn accounted(self) -> nat {
        self.clock.active_elapsed + self.clock.paused_elapsed
    }
}

/// The sum of the deltas of the ticks among `ops`.
pub open spec fn ticked(ops: Seq<SessionOp>) -> nat
    decreases ops.len(),
{
    if ops.len() == 0 {
        0
    } else {
        ticked(ops.drop_last()) + match ops.last() {
            SessionOp::Tick { nanos } => nanos,
            _ => 0,
        }
    }
}

/// `op` leaves the deadline of `session` at or behind its active time: it is
/// no adjustment, or an adjustment by zero or less, or one whose new target
/// the active time has reached already.
pub open spec fn keeps_deadline(session: SessionModel, op: SessionOp) -> bool {
    op matches SessionOp::AdjustDuration { seconds } ==> seconds <= 0 || (session.target_seconds
        + seconds) * NANOS_PER_SECOND <= session.clock.active_elapsed
}

/// No time is lost or counted twice: whatever is done to a session, pauses and
/// resumes included, the active and the paused time grow together by exactly
/// the sum of the ticks' deltas, and so does the instant of the latest sample.
/// This holds after every operation along the way, and the session stays valid.
pub proof fn law_time_accounting(session: SessionModel, ops: Seq<SessionOp>)
    requires
        session.valid(),
    ensures
        forall|k: int|
            0 <= k <= ops.len() ==> {
                let reached = #[trigger] session.run(ops.subrange(0, k));
                &&& reached.valid()
                &&& reached.accounted() == session.accounted() + ticked(ops.subrange(0, k))
                &&& reached.clock.last_sample_instant == session.clock.last_sample_instant
                    + ticked(ops.subrange(0, k))
                &&& reached.clock.started_at == session.clock.started_at
            },
        session.run(ops).accounted() == session.accounted() + ticked(ops),
{
    assert forall|k: int| 0 <= k <= ops.len() implies {
        let reached = #[trigger] session.run(ops.subrange(0, k));
        &&& reached.valid()
        &&& reached.accounted() == session.accounted() + ticked(ops.subrange(0, k))
        &&& reached.clock.last_sample_instant == session.clock.last_sample_instant + ticked(
            ops.subrange(0, k),
        )
        &&& reached.clock.started_at == session.clock.started_at
    } by {
        lemma_run_accounting(session, ops.subrange(0, k));
    }
    assert(ops.subrange(0, ops.len() as int) =~= ops);
}

proof fn lemma_run_accounting(session: SessionModel, ops: Seq<SessionOp>)
    requires
        session.valid(),
    ensures
        session.run(ops).valid(),
        session.run(ops).accounted() == session.accounted() + ticked(ops),
        session.run(ops).clock.last_sample_instant == session.clock.last_sample_instant + ticked(
            ops,
        ),
        session.run(ops).clock.started_at == session.clock.started_at,
    decreases ops.len(),
{
    if ops.len() > 0 {
        lemma_run_accounting(session, ops.drop_last());
    }
}

/// Expiry sets in exactly when the active time reaches the target: a tick
/// leaves the session expired if and only if the active time, with the tick's
/// delta added unless the session is paused, is at least the target.
pub proof fn law_expiry_onset(session: SessionModel, delta: nat)
    ensures
        session.tick(delta).expired() <==> (if session.clock.is_paused {
            session.clock.active_elapsed
        } else {
            session.clock.active_elapsed + delta
        }) >= session.target_nanos(),
        session.expired() ==> session.tick(delta).expired(),
{
}

/// An expired session is still expired after an operation exactly when the
/// operation keeps the deadline at or behind the active time. Ticks, pauses,
/// resumes and distractions always do; an adjustment does unless it moves the
/// target past the active time.
pub proof fn law_expiry_after_op(session: SessionModel, op: SessionOp)
    requires
        session.valid(),
        session.expired(),
    ensures
        session.apply(op).expired() <==> keeps_deadline(session, op),
{
}

/// An expired session stays expired for as long as every operation keeps the
/// deadline at or behind the active time of the session it is applied to.
pub proof fn law_expiry_is_permanent(session: SessionModel, ops: Seq<SessionOp>)
    requires
        session.valid(),
        session.expired(),
        forall|i: int|
            0 <= i < ops.len() ==> keeps_deadline(
                #[trigger] session.run(ops.subrange(0, i)),
                ops[i],
            ),
    ensures
        forall|k: int| 0 <= k <= ops.len() ==> (#[trigger] session.run(ops.subrange(0, k))).expired(),
        session.run(ops).expired(),
    decreases ops.len(),
{
    assert(ops.subrange(0, ops.len() as int) =~= ops);
    if ops.len() == 0 {
        assert forall|k: int| 0 <= k <= ops.len() implies (#[trigger] session.run(
            ops.subrange(0, k),
        )).expired() by {
            assert(ops.subrange(0, k) =~= ops);
        }
    } else {
        let shorter = ops.drop_last();
        assert forall|i: int| 0 <= i < shorter.len() implies keeps_deadline(
            #[trigger] session.run(shorter.subrange(0, i)),
            shorter[i],
        ) by {
            assert(shorter.subrange(0, i) =~= ops.subrange(0, i));
            assert(keeps_deadline(session.run(ops.subrange(0, i)), ops[i]));
        }
        law_expiry_is_permanent(session, shorter);
        let before = session.run(shorter);
        assert(shorter =~= ops.subrange(0, ops.len() - 1));
        assert(keeps_deadline(session.run(ops.subrange(0, ops.len() - 1)), ops[ops.len() - 1]));
        lemma_run_accounting(session, shorter);
        law_expiry_after_op(before, ops.last());
        assert forall|k: int| 0 <= k <= ops.len() implies (#[trigger] session.run(
            ops.subrange(0, k),
        )).expired() by {
            if k < ops.len() {
                assert(ops.subrange(0, k) =~= shorter.subrange(0, k));
            }
        }
    }
}

/// An adjustment whose result would be zero or less changes nothing; any other
/// changes the target by exactly the delta and nothing else: the clock, with
/// its pause flag, and the distraction count stay as they were.
pub proof fn law_adjust_duration(session: SessionModel, delta: int)
    ensures
        session.target_seconds + delta <= 0 ==> session.adjust_duration(delta) == session,
        session.target_seconds + delta > 0 ==> session.adjust_duration(delta) == (SessionModel {
            target_seconds: session.target_seconds + delta,
            ..session
        }),
        session.adjust_duration(delta).clock == session.clock,
        session.adjust_duration(delta).distraction_count == session.distraction_count,
        session.adjust_duration(delta).project == session.project,
        session.adjust_duration(delta).description == session.description,
{
}

/// A running task: its target, its clock and its distraction count.
#[derive(Debug)]
pub struct Session {
    project: String,
    description: String,
    target_seconds: i64,
    clock: SessionClock,
    distraction_count: u64,
}

impl View for Session {
    type V = SessionModel;

    closed spec fn view(&self) -> SessionModel {
        SessionModel {
            project: self.project@,
            description: self.description@,
            target_seconds: self.target_seconds as int,
            clock: self.clock@,
            distraction_count: self.distraction_count as nat,
        }
    }
}

impl Session {
    #[verifier::type_invariant]
    spec fn well_formed(self) -> bool {
        self@.valid()
    }

    /// Starts a session for `task` at the instant `now`.
    ///
    /// A task that allots no time, or a negative time, is refused.
    pub fn start(task: Task, now: u64) -> (result: Result<Session, SessionError>)
        ensures
            task.duration_seconds <= 0 ==> result == Err::<Session, SessionError>(
                SessionError::ZeroOrNegativeDuration,
            ),
            task.duration_seconds > 0 ==> (result matches Ok(session) && session@
                == SessionModel::start(
                task.project@,
                task.description@,
                task.duration_seconds as int,
                now as nat,
            ) && session@.valid()),
    {
        if task.duration_seconds <= 0 {
            return Err(SessionError::ZeroOrNegativeDuration);
        }
        let clock = SessionClock::start(now);
        Ok(
            Session {
                project: task.project,
                description: task.description,
                target_seconds: task.duration_seconds,
                clock,
                distraction_count: 0,
            },
        )
    }

    /// Takes a clock sample at the instant `now`: the time since the latest
    /// sample is added to the paused time if the session is paused and to the
    /// active time if it is not. Reports expiry, detected after the addition,
    /// or what to render.
    ///
    /// A reading earlier than the latest sample is left out.
    pub fn tick(&mut self, now: u64) -> (refresh: Refresh)
        requires
            now >= old(self)@.clock.last_sample_instant,
        ensures
            final(self)@ == old(self)@.tick(
                (now - old(self)@.clock.last_sample_instant) as nat,
            ),
            final(self)@.valid(),
            refresh@ == final(self)@.refresh(),
    {
        proof {
            use_type_invariant(&*self);
        }
        let mut clock = self.clock;
        clock.advance(now);
        self.clock = clock;
        self.refresh()
    }

    /// Pauses a running session and resumes a paused one. No time is moved.
    /// Reports the state as a tick with no elapsed time would.
    pub fn toggle_pause(&mut self) -> (refresh: Refresh)
        ensures
            final(self)@ == old(self)@.toggle_pause(),
            final(self)@.valid(),
            refresh@ == final(self)@.refresh(),
    {
        proof {
            use_type_invariant(&*self);
        }
        let mut clock = self.clock;
        clock.toggle_pause();
        self.clock = clock;
        self.refresh()
    }

    /// Changes the target by `delta` seconds if the new target is positive,
    /// and leaves it as it is otherwise. Reports the state as a tick with no
    /// elapsed time would.
    ///
    /// A new target too large for 64 bits is left out.
    pub fn adjust_duration(&mut self, delta: i64) -> (refresh: Refresh)
        requires
            old(self)@.target_seconds + delta <= i64::MAX,
        ensures
            final(self)@ == old(self)@.adjust_duration(delta as int),
            final(self)@.valid(),
            refresh@ == final(self)@.refresh(),
    {
        proof {
            use_type_invariant(&*self);
        }
        let target: i64 = self.target_seconds + delta;
        if target > 0 {
            self.target_seconds = target;
        }
        self.refresh()
    }

    /// Records one distraction.
    ///
    /// A count too large for 64 bits is left out.
    pub fn record_distraction(&mut self)
        requires
            old(self)@.distraction_count < u64::MAX,
        ensures
            final(self)@ == old(self)@.record_distraction(),
            final(self)@.valid(),
    {
        proof {
            use_type_invariant(&*self);
        }
        self.distraction_count = self.distraction_count + 1;
    }

    /// Whether the session is over: its active time has reached the target,
    /// or the presentation reports that it is no longer visible.
    pub fn is_expired(&self, visible: bool) -> (expired: bool)
        ensures
            expired == (self@.expired() || !visible),
    {
        self.target_reached() || !visible
    }

    /// Whether the active time has reached the target.
    pub fn target_reached(&self) -> (reached: bool)
        ensures
            reached == self@.expired(),
    {
        proof {
            use_type_invariant(self);
        }
        let target_nanos: u128 = (self.target_seconds as u128) * (NANOS_PER_SECOND as u128);
        (self.clock.active_elapsed() as u128) >= target_nanos
    }

    /// The whole seconds left of the target, zero once it is reached.
    pub fn remaining_seconds(&self) -> (seconds: u64)
        ensures
            seconds == self@.remaining_seconds(),
    {
        proof {
            use_type_invariant(self);
        }
        let target_nanos: u128 = (self.target_seconds as u128) * (NANOS_PER_SECOND as u128);
        let active: u128 = self.clock.active_elapsed() as u128;
        if active >= target_nanos {
            0
        } else {
            ((target_nanos - active) / (NANOS_PER_SECOND as u128)) as u64
        }
    }

    /// The tier of the fraction of the target that is used up.
    pub fn tier(&self) -> (tier: UrgencyTier)
        ensures
            tier == self@.tier(),
    {
        proof {
            use_type_invariant(self);
        }
        let target_nanos: u128 = (self.target_seconds as u128) * (NANOS_PER_SECOND as u128);
        classify(self.clock.active_elapsed() as u128, target_nanos)
    }

    /// What the presentation is to render for the session as it stands.
    pub fn display(&self) -> (display: Display)
        ensures
            display@ == self@.display(),
    {
        let remaining = format_time(self.remaining_seconds());
        let mut label = String::new();
        if self.clock.is_paused() {
            let paused = format_time(self.clock.paused_elapsed() / NANOS_PER_SECOND);
            label.append("Paused: ");
            label.append(paused.as_str());
            label.append(" / -");
        } else {
            label.append("-");
        }
        label.append(remaining.as_str());
        assert(label@ =~= self@.label());
        Display {
            label,
            tier: self.tier(),
            distraction_count: self.distraction_count,
            is_paused: self.clock.is_paused(),
        }
    }

    /// Reports expiry, or what to render.
    pub fn refresh(&self) -> (refresh: Refresh)
        ensures
            refresh@ == self@.refresh(),
    {
        if self.target_reached() {
            Refresh::Expired
        } else {
            Refresh::Show(self.display())
        }
    }

    /// The project that the task belongs to.
    pub fn project(&self) -> (project: &str)
        ensures
            project@ == self@.project,
    {
        self.project.as_str()
    }

    /// What is to be done.
    pub fn description(&self) -> (description: &str)
        ensures
            description@ == self@.description,
    {
        self.description.as_str()
    }

    /// The allotted time, in seconds. It is positive, as every session's is.
    pub fn target_seconds(&self) -> (seconds: i64)
        ensures
            seconds == self@.target_seconds,
            self@.valid(),
    {
        proof {
            use_type_invariant(self);
        }
        self.target_seconds
    }

    /// The distractions recorded so far.
    pub fn distraction_count(&self) -> (count: u64)
        ensures
            count == self@.distraction_count,
    {
        self.distraction_count
    }

    /// The session's clock.
    pub fn clock(&self) -> (clock: &SessionClock)
        ensures
            clock@ == self@.clock,
            clock@.valid(),
    {
        proof {
            use_type_invariant(self);
        }
        &self.clock
    }
}

} // verus!
