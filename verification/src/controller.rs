//! The session controller: at most one session at a time, from idle through
//! running and paused to expired.

use vstd::prelude::*;
use crate::session::{Display, Refresh, RefreshModel, Session, SessionError, SessionModel};
use crate::task::Task;

verus! {

/// Where the controller stands.
#[derive(Clone, Copy, Debug, PartialEq, Eq, Structural)]
pub enum SessionState {
    /// No session.
    Idle,
    /// A session is counting down.
    Running,
    /// A session is counting the time it spends paused.
    Paused,
    /// The session's active time has reached its target.
    Expired,
}

/// The state of a controller that holds `session`.
pub open spec fn state_of(session: Option<SessionModel>) -> SessionState {
    match session {
        None => SessionState::Idle,
        Some(s) => if s.expired() {
            SessionState::Expired
        } else if s.clock.is_paused {
            SessionState::Paused
        } else {
            SessionState::Running
        },
    }
}

/// What a controller that holds `session` reports: expiry where there is no
/// session, and the session's own report where there is one.
pub open spec fn refresh_of(session: Option<SessionModel>) -> RefreshModel {
    match session {
        None => RefreshModel::Expired,
        Some(s) => s.refresh(),
    }
}

/// Holds the session, if there is one, and applies every operation to it.
/// Without a session every operation but `start` changes nothing.
#[derive(Debug)]
pub struct SessionController {
    session: Option<Session>,
}

impl View for SessionController {
    type V = Option<SessionModel>;

    closed spec fn view(&self) -> Option<SessionModel> {
        match self.session {
            Some(session) => Some(session@),
            None => None,
        }
    }
}

impl SessionController {
    /// A controller without a session.
    pub fn new() -> (controller: SessionController)
        ensures
            controller@ is None,
    {
        SessionController { session: None }
    }

    /// Starts a session for `task` at the instant `now`, in place of any
    /// session there was, and gives what to render for it.
    ///
    /// A task that allots no time, or a negative time, is refused, and the
    /// controller stays as it was.
    pub fn start(&mut self, task: Task, now: u64) -> (result: Result<Display, SessionError>)
        ensures
            task.duration_seconds <= 0 ==> final(self)@ == old(self)@ && result == Err::<
                Display,
                SessionError,
            >(SessionError::ZeroOrNegativeDuration),
            task.duration_seconds > 0 ==> ({
                let session = SessionModel::start(
                    task.project@,
                    task.description@,
                    task.duration_seconds as int,
                    now as nat,
                );
                &&& final(self)@ == Some(session)
                &&& session.valid()
                &&& result matches Ok(display)
                &&& display@ == session.display()
            }),
    {
        match Session::start(task, now) {
            Ok(session) => {
                let display = session.display();
                self.session = Some(session);
                Ok(display)
            },
            Err(error) => Err(error),
        }
    }

    /// Ends the session, if there is one.
    pub fn end(&mut self)
        ensures
            final(self)@ is None,
    {
        self.session = None;
    }

    /// Takes a clock sample for the session at the instant `now`.
    ///
    /// A reading earlier than the session's latest sample is left out.
    pub fn tick(&mut self, now: u64) -> (refresh: Refresh)
        requires
            old(self)@ matches Some(s) ==> now >= s.clock.last_sample_instant,
        ensures
            final(self)@ == match old(self)@ {
                Some(s) => Some(s.tick((now - s.clock.last_sample_instant) as nat)),
                None => None,
            },
            refresh@ == refresh_of(final(self)@),
    {
        match &mut self.session {
            Some(session) => session.tick(now),
            None => Refresh::Expired,
        }
    }

    /// Pauses a running session and resumes a paused one.
    pub fn toggle_pause(&mut self) -> (refresh: Refresh)
        ensures
            final(self)@ == match old(self)@ {
                Some(s) => Some(s.toggle_pause()),
                None => None,
            },
            refresh@ == refresh_of(final(self)@),
    {
        match &mut self.session {
            Some(session) => session.toggle_pause(),
            None => Refresh::Expired,
        }
    }

    /// Changes the session's target by `delta` seconds if the new target is
    /// positive.
    ///
    /// A new target too large for 64 bits is left out.
    pub fn adjust_duration(&mut self, delta: i64) -> (refresh: Refresh)
        requires
            old(self)@ matches Some(s) ==> s.target_seconds + delta <= i64::MAX,
        ensures
            final(self)@ == match old(self)@ {
                Some(s) => Some(s.adjust_duration(delta as int)),
                None => None,
            },
            refresh@ == refresh_of(final(self)@),
    {
        match &mut self.session {
            Some(session) => session.adjust_duration(delta),
            None => Refresh::Expired,
        }
    }

    /// Records one distraction against the session.
    ///
    /// A count too large for 64 bits is left out.
    pub fn record_distraction(&mut self)
        requires
            old(self)@ matches Some(s) ==> s.distraction_count < u64::MAX,
        ensures
            final(self)@ == match old(self)@ {
                Some(s) => Some(s.record_distraction()),
                None => None,
            },
    {
        match &mut self.session {
            Some(session) => session.record_distraction(),
            None => {},
        }
    }

    /// Whether nothing is live: there is no session, or its active time has
    /// reached its target, or the presentation reports that it is no longer
    /// visible.
    pub fn is_expired(&self, visible: bool) -> (expired: bool)
        ensures
            expired == match self@ {
                Some(s) => s.expired() || !visible,
                None => true,
            },
    {
        match &self.session {
            Some(session) => session.is_expired(visible),
            None => true,
        }
    }

    /// Where the controller stands.
    pub fn state(&self) -> (state: SessionState)
        ensures
            state == state_of(self@),
    {
        match &self.session {
            None => SessionState::Idle,
            Some(session) => if session.target_reached() {
                SessionState::Expired
            } else if session.clock().is_paused() {
                SessionState::Paused
            } else {
                SessionState::Running
            },
        }
    }

    /// The session, if there is one.
    pub fn session(&self) -> (session: Option<&Session>)
        ensures
            match session {
                Some(s) => self@ == Some(s@),
                None => self@ is None,
            },
    {
        self.session.as_ref()
    }
}

} // verus!
