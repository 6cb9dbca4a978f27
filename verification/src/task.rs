//! The task to be timed, and the configuration form it is made from.

use vstd::prelude::*;
use crate::parse::{parse_time, seconds_of_token};

verus! {

/// A task as the configuration screen hands it over.
#[derive(Clone, Debug, PartialEq, Eq)]
pub struct Task {
    /// The project that the task belongs to.
    pub project: String,
    /// What is to be done.
    pub description: String,
    /// The time allotted, in seconds. Zero and negative values can be written
    /// here; no session starts from them.
    pub duration_seconds: i64,
}

/// The fields of the configuration screen, as the user left them.
#[derive(Clone, Debug, PartialEq, Eq)]
pub struct TaskForm {
    /// The project field.
    pub project: String,
    /// The task field.
    pub description: String,
    /// The time field: a duration token such as `25m`.
    pub duration: String,
}

impl TaskForm {
    /// The task that the form describes: its project and description as they
    /// stand, and the seconds that its time field denotes. `None` where the
    /// time field is no duration token.
    pub fn get_task(self) -> (task: Option<Task>)
        ensures
            match seconds_of_token(self.duration@) {
                Some(seconds) => {
                    &&& task matches Some(t)
                    &&& t.project@ == self.project@
                    &&& t.description@ == self.description@
                    &&& t.duration_seconds == seconds
                },
                None => task is None,
            },
    {
        match parse_time(self.duration.as_str()) {
            Ok(seconds) => Some(
                Task {
                    project: self.project,
                    description: self.description,
                    duration_seconds: seconds,
                },
            ),
            Err(_) => None,
        }
    }
}

} // verus!
