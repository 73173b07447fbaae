//! The errors a scheduler operation can report. Both are recoverable and
//! carry the task id that triggered them.

use vstd::prelude::*;
use vstd::string::StringExecFns;

verus! {

pub type SchedulerResult<T> = Result<T, SchedulerError>;

#[derive(Debug, Clone)]
pub enum SchedulerError {
    /// `register_task` was called with an id that is already present.
    DuplicateTaskId(String),
    /// `remove_task` or `spawn_task` was called with an id that is not
    /// (or no longer) present.
    TaskNotFound(String),
}

impl SchedulerError {
    /// The id the failed operation was called with.
    pub open spec fn spec_task_id(&self) -> Seq<char> {
        match self {
            SchedulerError::DuplicateTaskId(id) => id@,
            SchedulerError::TaskNotFound(id) => id@,
        }
    }

    /// A human-readable description of the error.
    pub fn message(&self) -> (s: String)
        ensures
            match self {
                SchedulerError::DuplicateTaskId(id) => s@ == "a task already exists with the id "@
                    + id@,
                SchedulerError::TaskNotFound(id) => s@ == "could not find a task with the id "@
                    + id@,
            },
    {
        match self {
            SchedulerError::DuplicateTaskId(id) => "a task already exists with the id ".to_owned().concat(
                id.as_str(),
            ),
            SchedulerError::TaskNotFound(id) => "could not find a task with the id ".to_owned().concat(
                id.as_str(),
            ),
        }
    }
}

} // verus!
