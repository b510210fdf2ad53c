//! Execution models: sessions that own tasks, tasks made of steps, and
//! checkpoints of a task's state.

pub mod session;
pub mod task;

use vstd::prelude::*;
use crate::ids::{is_v4_uuid, new_v4_uuid, utc_now, Timestamp};

verus! {

/// The life-cycle state of a task.
#[derive(Clone, Copy, Debug, PartialEq, Eq, Structural)]
pub enum TaskStatus {
    Pending,
    Running,
    Completed,
    Failed,
    Paused,
}

/// The life-cycle state of a step.
#[derive(Clone, Copy, Debug, PartialEq, Eq, Structural)]
pub enum StepStatus {
    Pending,
    Running,
    Completed,
    Failed,
}

/// Identifier of a session.
#[derive(Clone, Copy, Debug, PartialEq, Eq, Structural)]
pub struct SessionId(pub u128);

/// Identifier of a task.
#[derive(Clone, Copy, Debug, PartialEq, Eq, Structural)]
pub struct TaskId(pub u128);

/// Identifier of a checkpoint.
#[derive(Clone, Copy, Debug, PartialEq, Eq, Structural)]
pub struct CheckpointId(pub u128);

/// A work session: the tasks it holds, and the one being worked on.
#[derive(Clone, Debug)]
pub struct Session {
    pub id: SessionId,
    pub created_at: Timestamp,
    pub tasks: Vec<Task>,
    pub current_task: Option<TaskId>,
}

impl Session {
    /// A fresh session: a random id, created now, with no tasks.
    pub fn new() -> (s: Self)
        ensures
            is_v4_uuid(s.id.0),
            s.created_at.nanos < 2_000_000_000,
            s.tasks@.len() == 0,
            s.current_task is None,
    {
        Session { id: SessionId(new_v4_uuid()), created_at: utc_now(), tasks: Vec::new(), current_task: None }
    }

    /// Appends a task to the session's tasks.
    pub fn add_task(&mut self, task: Task)
        ensures
            final(self).tasks@ == old(self).tasks@.push(task),
            final(self).id == old(self).id,
            final(self).created_at == old(self).created_at,
            final(self).current_task == old(self).current_task,
    {
        self.tasks.push(task);
    }
}

/// A task: a description and the steps that carry it out.
#[derive(Clone, Debug)]
pub struct Task {
    pub id: TaskId,
    pub description: String,
    pub status: TaskStatus,
    pub steps: Vec<Step>,
    pub created_at: Timestamp,
    pub updated_at: Timestamp,
}

impl Task {
    /// A fresh pending task with no steps and a random id.
    pub fn new(description: String) -> (t: Self)
        ensures
            is_v4_uuid(t.id.0),
            t.created_at.nanos < 2_000_000_000,
            t.updated_at.nanos < 2_000_000_000,
            t.description@ == description@,
            t.status == TaskStatus::Pending,
            t.steps@.len() == 0,
    {
        let id = TaskId(new_v4_uuid());
        let created_at = utc_now();
        let updated_at = utc_now();
        Task { id, description, status: TaskStatus::Pending, steps: Vec::new(), created_at, updated_at }
    }

    /// Appends a pending step with no output and no checkpoint.
    pub fn add_step(&mut self, description: String)
        ensures
            final(self).steps@.len() == old(self).steps@.len() + 1,
            final(self).steps@.drop_last() == old(self).steps@,
            final(self).steps@.last().description@ == description@,
            final(self).steps@.last().status == StepStatus::Pending,
            final(self).steps@.last().output is None,
            final(self).steps@.last().checkpoint_id is None,
            final(self).id == old(self).id,
            final(self).description == old(self).description,
            final(self).status == old(self).status,
            final(self).created_at == old(self).created_at,
            final(self).updated_at == old(self).updated_at,
    {
        self.steps.push(Step { description, status: StepStatus::Pending, output: None, checkpoint_id: None });
        assert(self.steps@.drop_last() =~= old(self).steps@);
    }
}

/// One step of a task.
#[derive(Clone, Debug)]
pub struct Step {
    pub description: String,
    pub status: StepStatus,
    pub output: Option<String>,
    pub checkpoint_id: Option<CheckpointId>,
}

/// A snapshot of a task's state inside a session.
#[derive(Clone, Debug)]
pub struct Checkpoint {
    pub id: CheckpointId,
    pub task_id: TaskId,
    pub session_id: SessionId,
    pub timestamp: Timestamp,
    pub state_snapshot: serde_json::Value,
}

impl Checkpoint {
    /// A checkpoint of the given task and session, taken now, with a random id.
    pub fn new(task_id: TaskId, session_id: SessionId, state_snapshot: serde_json::Value) -> (c: Self)
        ensures
            is_v4_uuid(c.id.0),
            c.timestamp.nanos < 2_000_000_000,
            c.task_id == task_id,
            c.session_id == session_id,
            c.state_snapshot == state_snapshot,
    {
        Checkpoint { id: CheckpointId(new_v4_uuid()), task_id, session_id, timestamp: utc_now(), state_snapshot }
    }
}

} // verus!
