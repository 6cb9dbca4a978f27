//! Time-boxed task sessions: a countdown state machine with pause accounting,
//! urgency tiers, and a serialized intent dispatcher.

pub mod clock;
pub mod controller;
pub mod decimal;
pub mod dispatch;
pub mod format;
pub mod parse;
pub mod session;
pub mod task;
pub mod urgency;

pub use clock::SessionClock;
pub use controller::{SessionController, SessionState};
pub use dispatch::{Dispatcher, Effect, Intent, TICK_INTERVAL_MILLIS};
pub use format::format_time;
pub use parse::{format_token, parse_time, TimeFormatError, TimeUnit};
pub use session::{Display, Refresh, Session, SessionError, NANOS_PER_SECOND};
pub use task::{Task, TaskForm};
pub use urgency::{classify, UrgencyTier};
