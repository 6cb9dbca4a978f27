//! The event dispatcher: every intent, from the user or from the tick source,
//! is applied to the session controller one at a time, in arrival order.

use std::collections::VecDeque;
use vstd::prelude::*;
use crate::controller::SessionController;
use crate::parse::seconds_of_token;
use crate::session::{Display, DisplayModel, Refresh, SessionModel};
use crate::task::TaskForm;

verus! {

/// The recommended cadence of the tick source, in milliseconds: fine enough
/// for a smooth countdown, coarse enough to avoid busy work.
pub const TICK_INTERVAL_MILLIS: u64 = 200;

/// A request to change the state, raised by the user or by the tick source.
/// Each carries what was sampled outside when it was raised.
#[derive(Clone, Debug, PartialEq, Eq)]
pub enum Intent {
    /// The user asks for a session on the task that the configuration form
    /// describes; `now` is the instant of the request.
    NewTaskRequested { form: TaskForm, now: u64 },
    /// The tick source fired at the instant `now`, and the presentation
    /// reports whether the session is still `visible`.
    TickElapsed { now: u64, visible: bool },
    /// The user asks to pause or to resume.
    PauseToggleRequested,
    /// The user reports a distraction.
    DistractionRequested,
    /// The user asks to change the target by so many seconds.
    DurationAdjustRequested { delta_seconds: i64 },
}

/// What the presentation is to do after an intent has been applied.
#[derive(Clone, Debug, PartialEq, Eq)]
pub enum Effect {
    /// Nothing: the intent was dropped, or there is nothing new to show.
    Nothing,
    /// A session has started where there was none: hide the configuration
    /// screen, show the session, render this, and arm the tick source.
    SessionStarted(Display),
    /// A session has started in place of the one there was: hide the
    /// configuration screen, show the new session and render this. The tick
    /// source is armed already and stays so.
    SessionReplaced(Display),
    /// Render this.
    Render(Display),
    /// The session is over: disarm the tick source, hide the session, and
    /// show the configuration screen.
    SessionEnded,
}

/// An `Effect`, as mathematics.
pub enum EffectModel {
    Nothing,
    SessionStarted(DisplayModel),
    SessionReplaced(DisplayModel),
    Render(DisplayModel),
    SessionEnded,
}

impl View for Effect {
    type V = EffectModel;

    open spec fn view(&self) -> EffectModel {
        match self {
            Effect::Nothing => EffectModel::Nothing,
            Effect::SessionStarted(display) => EffectModel::SessionStarted(display@),
            Effect::SessionReplaced(display) => EffectModel::SessionReplaced(display@),
            Effect::Render(display) => EffectModel::Render(display@),
            Effect::SessionEnded => EffectModel::SessionEnded,
        }
    }
}

/// What is to be rendered for a session that has just been brought up to
/// date: its display while it is live, nothing once it has expired.
pub open spec fn render_of(session: SessionModel) -> EffectModel {
    if session.expired() {
        EffectModel::Nothing
    } else {
        EffectModel::Render(session.display())
    }
}

/// A request for a new task. Where the time field is a duration token and
/// the duration is positive, a session starts at `now`, in place of any
/// session there was: the effect reports a start where there was none and a
/// replacement where there was one. Otherwise the request is dropped and
/// whatever session there was goes on.
pub open spec fn on_new_task(session: Option<SessionModel>, form: TaskForm, now: u64) -> (
    Option<SessionModel>,
    EffectModel,
) {
    match seconds_of_token(form.duration@) {
        Some(seconds) => if seconds > 0 {
            let started = SessionModel::start(form.project@, form.description@, seconds, now as nat);
            (
                Some(started),
                if session is Some {
                    EffectModel::SessionReplaced(started.display())
                } else {
                    EffectModel::SessionStarted(started.display())
                },
            )
        } else {
            (session, EffectModel::Nothing)
        },
        None => (session, EffectModel::Nothing),
    }
}

/// A tick. Without a session it is dropped. A session that has expired, or
/// is no longer visible, ends. A reading earlier than the latest sample is
/// dropped. Otherwise the session takes the sample, and ends if that makes it
/// expire.
pub open spec fn on_tick(session: Option<SessionModel>, now: u64, visible: bool) -> (
    Option<SessionModel>,
    EffectModel,
) {
    match session {
        None => (session, EffectModel::Nothing),
        Some(s) => if s.expired() || !visible {
            (None, EffectModel::SessionEnded)
        } else if now < s.clock.last_sample_instant {
            (session, EffectModel::Nothing)
        } else {
            let ticked = s.tick((now - s.clock.last_sample_instant) as nat);
            if ticked.expired() {
                (None, EffectModel::SessionEnded)
            } else {
                (Some(ticked), EffectModel::Render(ticked.display()))
            }
        },
    }
}

/// A pause or a resume.
pub open spec fn on_pause_toggle(session: Option<SessionModel>) -> (
    Option<SessionModel>,
    EffectModel,
) {
    match session {
        None => (session, EffectModel::Nothing),
        Some(s) => (Some(s.toggle_pause()), render_of(s.toggle_pause())),
    }
}

/// A distraction. It is counted while a session exists, and dropped where
/// the count would no longer fit in 64 bits.
pub open spec fn on_distraction(session: Option<SessionModel>) -> (
    Option<SessionModel>,
    EffectModel,
) {
    match session {
        Some(s) => if s.distraction_count < u64::MAX {
            (Some(s.record_distraction()), EffectModel::Render(s.record_distraction().display()))
        } else {
            (session, EffectModel::Nothing)
        },
        None => (session, EffectModel::Nothing),
    }
}

/// A request to change the target. It is dropped where the new target would
/// no longer fit in 64 bits.
pub open spec fn on_duration_adjust(session: Option<SessionModel>, delta_seconds: i64) -> (
    Option<SessionModel>,
    EffectModel,
) {
    match session {
        Some(s) => if s.target_seconds + delta_seconds <= i64::MAX {
            (
                Some(s.adjust_duration(delta_seconds as int)),
                render_of(s.adjust_duration(delta_seconds as int)),
            )
        } else {
            (session, EffectModel::Nothing)
        },
        None => (session, EffectModel::Nothing),
    }
}

/// The session after one intent, if there is one then, and the effect of the
/// intent.
pub open spec fn step(session: Option<SessionModel>, intent: Intent) -> (
    Option<SessionModel>,
    EffectModel,
) {
    match intent {
        Intent::NewTaskRequested { form, now } => on_new_task(session, form, now),
        Intent::TickElapsed { now, visible } => on_tick(session, now, visible),
        Intent::PauseToggleRequested => on_pause_toggle(session),
        Intent::DistractionRequested => on_distraction(session),
        Intent::DurationAdjustRequested { delta_seconds } => on_duration_adjust(
            session,
            delta_seconds,
        ),
    }
}

/// The session after the intents `intents`, applied one at a time from the
/// first to the last, and their effects in the same order.
pub open spec fn run(session: Option<SessionModel>, intents: Seq<Intent>) -> (
    Option<SessionModel>,
    Seq<EffectModel>,
)
    decreases intents.len(),
{
    if intents.len() == 0 {
        (session, Seq::empty())
    } else {
        let (next, effect) = step(session, intents[0]);
        let (last, effects) = run(next, intents.subrange(1, intents.len() as int));
        (last, seq![effect] + effects)
    }
}

/// The state of a dispatcher, as mathematics.
pub struct DispatcherModel {
    /// The session, if there is one.
    pub session: Option<SessionModel>,
    /// The intents that have arrived and are not applied yet, oldest first.
    pub pending: Seq<Intent>,
}

/// Owns the session controller and the queue of intents, and applies the
/// intents to the controller.
#[derive(Debug)]
pub struct Dispatcher {
    controller: SessionController,
    pending: VecDeque<Intent>,
}

impl View for Dispatcher {
    type V = DispatcherModel;

    closed spec fn view(&self) -> DispatcherModel {
        DispatcherModel { session: self.controller@, pending: self.pending@ }
    }
}

impl Dispatcher {
    /// A dispatcher without a session and with nothing pending.
    pub fn new() -> (dispatcher: Dispatcher)
        ensures
            dispatcher@.session is None,
            dispatcher@.pending.len() == 0,
    {
        Dispatcher { controller: SessionController::new(), pending: VecDeque::new() }
    }

    /// Applies one intent at once, ahead of whatever is pending.
    pub fn dispatch(&mut self, intent: Intent) -> (effect: Effect)
        ensures
            (final(self)@.session, effect@) == step(old(self)@.session, intent),
            final(self)@.pending == old(self)@.pending,
    {
        match intent {
            Intent::NewTaskRequested { form, now } => {
                let replaces: bool = self.controller.session().is_some();
                match form.get_task() {
                    Some(task) => match self.controller.start(task, now) {
                        Ok(display) => if replaces {
                            Effect::SessionReplaced(display)
                        } else {
                            Effect::SessionStarted(display)
                        },
                        Err(_) => Effect::Nothing,
                    },
                    None => Effect::Nothing,
                }
            },
            Intent::TickElapsed { now, visible } => {
                let last_sample: u64 = match self.controller.session() {
                    Some(session) => session.clock().last_sample_instant(),
                    None => {
                        return Effect::Nothing;
                    },
                };
                if self.controller.is_expired(visible) {
                    self.controller.end();
                    return Effect::SessionEnded;
                }
                if now < last_sample {
                    return Effect::Nothing;
                }
                match self.controller.tick(now) {
                    Refresh::Show(display) => Effect::Render(display),
                    Refresh::Expired => {
                        self.controller.end();
                        Effect::SessionEnded
                    },
                }
            },
            Intent::PauseToggleRequested => {
                if self.controller.session().is_none() {
                    return Effect::Nothing;
                }
                match self.controller.toggle_pause() {
                    Refresh::Show(display) => Effect::Render(display),
                    Refresh::Expired => Effect::Nothing,
                }
            },
            Intent::DistractionRequested => {
                let count: u64 = match self.controller.session() {
                    Some(session) => session.distraction_count(),
                    None => {
                        return Effect::Nothing;
                    },
                };
                if count == u64::MAX {
                    return Effect::Nothing;
                }
                self.controller.record_distraction();
                match self.controller.session() {
                    Some(session) => Effect::Render(session.display()),
                    None => Effect::Nothing,
                }
            },
            Intent::DurationAdjustRequested { delta_seconds } => {
                let target: i64 = match self.controller.session() {
                    Some(session) => session.target_seconds(),
                    None => {
                        return Effect::Nothing;
                    },
                };
                if delta_seconds > i64::MAX - target {
                    return Effect::Nothing;
                }
                match self.controller.adjust_duration(delta_seconds) {
                    Refresh::Show(display) => Effect::Render(display),
                    Refresh::Expired => Effect::Nothing,
                }
            },
        }
    }

    /// Puts an intent at the end of the queue.
    pub fn submit(&mut self, intent: Intent)
        ensures
            final(self)@.session == old(self)@.session,
            final(self)@.pending == old(self)@.pending.push(intent),
    {
        self.pending.push_back(intent);
    }

    /// Applies the oldest pending intent, if there is one, and gives its
    /// effect.
    pub fn process_next(&mut self) -> (effect: Option<Effect>)
        ensures
            old(self)@.pending.len() == 0 ==> effect is None && final(self)@ == old(self)@,
            old(self)@.pending.len() > 0 ==> ({
                &&& effect matches Some(e)
                &&& (final(self)@.session, e@) == step(old(self)@.session, old(self)@.pending[0])
                &&& final(self)@.pending == old(self)@.pending.subrange(
                    1,
                    old(self)@.pending.len() as int,
                )
            }),
    {
        match self.pending.pop_front() {
            Some(intent) => Some(self.dispatch(intent)),
            None => None,
        }
    }

    /// Applies every pending intent, oldest first, and gives their effects in
    /// that order.
    pub fn process_all(&mut self) -> (effects: Vec<Effect>)
        ensures
            final(self)@.pending.len() == 0,
            final(self)@.session == run(old(self)@.session, old(self)@.pending).0,
            effects@.len() == old(self)@.pending.len(),
            effects@.len() == run(old(self)@.session, old(self)@.pending).1.len(),
            forall|i: int|
                0 <= i < effects@.len() ==> (#[trigger] effects@[i])@ == run(
                    old(self)@.session,
                    old(self)@.pending,
                ).1[i],
    {
        let mut effects: Vec<Effect> = Vec::new();
        let ghost whole = run(self@.session, self@.pending);
        let ghost mut done: Seq<EffectModel> = Seq::empty();
        proof {
            lemma_run_length(self@.session, self@.pending);
        }
        loop
            invariant
                whole.0 == run(self@.session, self@.pending).0,
                whole.1 == done + run(self@.session, self@.pending).1,
                done.len() == effects@.len(),
                forall|i: int| 0 <= i < effects@.len() ==> (#[trigger] effects@[i])@ == done[i],
            ensures
                self@.pending.len() == 0,
                whole.0 == self@.session,
                whole.1 == done,
                done.len() == effects@.len(),
                forall|i: int| 0 <= i < effects@.len() ==> (#[trigger] effects@[i])@ == done[i],
            decreases self@.pending.len(),
        {
            let ghost before = self@;
            match self.process_next() {
                Some(effect) => {
                    proof {
                        let rest = run(self@.session, self@.pending);
                        assert(run(before.session, before.pending).1 == seq![effect@] + rest.1);
                        assert(done + (seq![effect@] + rest.1) =~= done.push(effect@) + rest.1);
                        done = done.push(effect@);
                    }
                    effects.push(effect);
                },
                None => {
                    assert(done + Seq::<EffectModel>::empty() =~= done);
                    break ;
                },
            }
        }
        effects
    }

    /// The number of intents that are pending.
    pub fn pending(&self) -> (count: usize)
        ensures
            count == self@.pending.len(),
    {
        self.pending.len()
    }

    /// The session controller.
    pub fn controller(&self) -> (controller: &SessionController)
        ensures
            controller@ == self@.session,
    {
        &self.controller
    }
}

/// One where there is a session, and with it an armed tick source; zero where
/// there is none.
pub open spec fn armed(session: Option<SessionModel>) -> int {
    if session is Some {
        1
    } else {
        0
    }
}

/// What an effect does to the tick source: one for arming it, minus one for
/// disarming it, zero for leaving it alone.
pub open spec fn arming(effect: EffectModel) -> int {
    match effect {
        EffectModel::SessionStarted(_) => 1,
        EffectModel::SessionEnded => -1,
        _ => 0,
    }
}

/// The armings among `effects` less the disarmings.
pub open spec fn net_arming(effects: Seq<EffectModel>) -> int
    decreases effects.len(),
{
    if effects.len() == 0 {
        0
    } else {
        arming(effects[0]) + net_arming(effects.subrange(1, effects.len() as int))
    }
}

/// A session is reported as started only where there was none, and as ended
/// only where there was one: an intent reports a start exactly when it leaves
/// a session where there was none, and an end exactly when it leaves none
/// where there was one. A replacement is reported only where a session was
/// and a session is left, so it arms nothing. A valid session stays valid.
pub proof fn law_step_pairs_start_and_end(session: Option<SessionModel>, intent: Intent)
    requires
        session matches Some(s) ==> s.valid(),
    ensures
        ({
            let (next, effect) = step(session, intent);
            &&& effect is SessionStarted <==> session is None && next is Some
            &&& effect is SessionEnded <==> session is Some && next is None
            &&& effect is SessionReplaced ==> session is Some && next is Some
            &&& arming(effect) == armed(next) - armed(session)
            &&& next matches Some(s) ==> s.valid()
        }),
{
}

/// Arming and disarming of the tick source pair up: over any stream of
/// intents the armings less the disarmings are one if a session was left
/// where there was none, minus one if none was left where there was one, and
/// zero otherwise. As this holds of every stream, the source is never armed
/// twice in a row, nor disarmed twice; a session that replaces another runs
/// on the arming of the one it replaced.
pub proof fn law_arming_is_paired(session: Option<SessionModel>, intents: Seq<Intent>)
    requires
        session matches Some(s) ==> s.valid(),
    ensures
        net_arming(run(session, intents).1) == armed(run(session, intents).0) - armed(session),
        run(session, intents).0 matches Some(s) ==> s.valid(),
    decreases intents.len(),
{
    if intents.len() > 0 {
        let (next, effect) = step(session, intents[0]);
        let rest = intents.subrange(1, intents.len() as int);
        law_step_pairs_start_and_end(session, intents[0]);
        law_arming_is_paired(next, rest);
        let effects = run(session, intents).1;
        assert(effects[0] == effect);
        assert(effects.subrange(1, effects.len() as int) =~= run(next, rest).1);
    }
}

/// Every intent has exactly one effect.
pub proof fn lemma_run_length(session: Option<SessionModel>, intents: Seq<Intent>)
    ensures
        run(session, intents).1.len() == intents.len(),
    decreases intents.len(),
{
    if intents.len() > 0 {
        lemma_run_length(step(session, intents[0]).0, intents.subrange(1, intents.len() as int));
    }
}

} // verus!
