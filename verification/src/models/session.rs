//! Sessions that track the task being worked on and when they were last
//! active.

use vstd::prelude::*;
use crate::ids::{is_v4_uuid, new_v4_uuid, utc_now, Timestamp};
use crate::models::task::{Task, TaskId};

verus! {

/// Identifier of a session.
#[derive(Clone, Copy, Debug, PartialEq, Eq, Structural)]
pub struct SessionId(pub u128);

/// A work session: its tasks, the current one, and its activity times.
#[derive(Clone, Debug)]
pub struct Session {
    pub id: SessionId,
    pub current_task: Option<TaskId>,
    pub tasks: Vec<Task>,
    pub created_at: Timestamp,
    pub last_active: Timestamp,
}

impl Session {
    /// A fresh session with a random id and no tasks.
    pub fn new() -> (s: Self)
        ensures
            is_v4_uuid(s.id.0),
            s.created_at.nanos < 2_000_000_000,
            s.last_active.nanos < 2_000_000_000,
            s.current_task is None,
            s.tasks@.len() == 0,
    {
        let id = SessionId(new_v4_uuid());
        let created_at = utc_now();
        let last_active = utc_now();
        Session { id, current_task: None, tasks: Vec::new(), created_at, last_active }
    }

    /// Appends a task, makes it the current task, and marks the session
    /// active at `now`.
    pub fn add_task_at(&mut self, task: Task, now: Timestamp)
        ensures
            final(self).current_task == Some(task.id),
            final(self).tasks@ == old(self).tasks@.push(task),
            final(self).last_active == now,
            final(self).id == old(self).id,
            final(self).created_at == old(self).created_at,
    {
        self.current_task = Some(task.id);
        self.tasks.push(task);
        self.last_active = now;
    }

    /// Appends a task, makes it the current task, and marks the session
    /// active now (the clock's reading is handed to `add_task_at`).
    pub fn add_task(&mut self, task: Task)
        ensures
            final(self).current_task == Some(task.id),
            final(self).tasks@ == old(self).tasks@.push(task),
            final(self).last_active.nanos < 2_000_000_000,
            final(self).id == old(self).id,
            final(self).created_at == old(self).created_at,
    {
        let now = utc_now();
        self.add_task_at(task, now);
    }
}

} // verus!
