//! Tasks whose steps carry their own identifiers and whose failures carry
//! a reason.

use vstd::prelude::*;
use crate::ids::{is_v4_uuid, new_v4_uuid, utc_now, Timestamp};

verus! {

/// Identifier of a task.
#[derive(Clone, Copy, Debug, PartialEq, Eq, Structural)]
pub struct TaskId(pub u128);

/// Identifier of a step.
#[derive(Clone, Copy, Debug, PartialEq, Eq, Structural)]
pub struct StepId(pub u128);

/// The life-cycle state of a step; a failure says why.
#[derive(Clone, Debug, PartialEq)]
pub enum StepStatus {
    Pending,
    Running,
    Completed,
    Failed(String),
}

/// One step of a task.
#[derive(Clone, Debug)]
pub struct Step {
    pub id: StepId,
    pub description: String,
    pub status: StepStatus,
    pub output: Option<String>,
}

/// The life-cycle state of a task; a failure says why, and a paused task
/// waits at a checkpoint.
#[derive(Clone, Debug, PartialEq)]
pub enum TaskStatus {
    Pending,
    Running,
    Completed,
    Failed(String),
    PausedAtCheckpoint,
}

/// A task: a description and the steps that carry it out.
#[derive(Clone, Debug)]
pub struct Task {
    pub id: TaskId,
    pub description: String,
    pub status: TaskStatus,
    pub steps: Vec<Step>,
    pub created_at: Timestamp,
    pub updated_at: Timestamp,
}

impl Task {
    /// A fresh pending task with no steps and a random id, created and
    /// updated at one and the same instant.
    pub fn new(description: String) -> (t: Self)
        ensures
            is_v4_uuid(t.id.0),
            t.created_at.nanos < 2_000_000_000,
            t.description@ == description@,
            t.status is Pending,
            t.steps@.len() == 0,
            t.created_at == t.updated_at,
    {
        let id = TaskId(new_v4_uuid());
        let now = utc_now();
        Task { id, description, status: TaskStatus::Pending, steps: Vec::new(), created_at: now, updated_at: now }
    }

    /// Appends a pending step with the given id and no output, and marks
    /// the task as updated at `now`.
    pub fn add_step_at(&mut self, description: String, step_id: StepId, now: Timestamp)
        ensures
            final(self).steps@.len() == old(self).steps@.len() + 1,
            final(self).steps@.drop_last() == old(self).steps@,
            final(self).steps@.last().id == step_id,
            final(self).steps@.last().description@ == description@,
            final(self).steps@.last().status is Pending,
            final(self).steps@.last().output is None,
            final(self).updated_at == now,
            final(self).id == old(self).id,
            final(self).description == old(self).description,
            final(self).status == old(self).status,
            final(self).created_at == old(self).created_at,
    {
        let step = Step { id: step_id, description, status: StepStatus::Pending, output: None };
        self.steps.push(step);
        self.updated_at = now;
        assert(self.steps@.drop_last() =~= old(self).steps@);
    }

    /// Appends a pending step with a random id and no output, and marks
    /// the task as updated now (the drawn id and the clock's reading are
    /// handed to `add_step_at`).
    pub fn add_step(&mut self, description: String)
        ensures
            final(self).steps@.len() == old(self).steps@.len() + 1,
            final(self).steps@.drop_last() == old(self).steps@,
            is_v4_uuid(final(self).steps@.last().id.0),
            final(self).steps@.last().description@ == description@,
            final(self).steps@.last().status is Pending,
            final(self).steps@.last().output is None,
            final(self).updated_at.nanos < 2_000_000_000,
            final(self).id == old(self).id,
            final(self).description == old(self).description,
            final(self).status == old(self).status,
            final(self).created_at == old(self).created_at,
    {
        let step_id = StepId(new_v4_uuid());
        let now = utc_now();
        self.add_step_at(description, step_id, now);
    }
}

} // verus!
