//! Storage models: sessions, tasks, steps and checkpoints, and the flat
//! records (identifiers as text) in which sessions and checkpoints are
//! written to the database.

pub mod checkpoint;

use vstd::prelude::*;
use crate::ids::{
    is_v4_uuid, new_v4_uuid, parse_uuid_or_nil, parsed_uuid, utc_now, uuid_text, uuid_to_string,
    Timestamp,
};

verus! {

/// Identifier of a session.
#[derive(Clone, Copy, Debug, PartialEq, Eq, Structural)]
pub struct SessionId(pub u128);

/// Identifier of a task.
#[derive(Clone, Copy, Debug, PartialEq, Eq, Structural)]
pub struct TaskId(pub u128);

/// Identifier of a checkpoint.
#[derive(Clone, Copy, Debug, PartialEq, Eq, Structural)]
pub struct CheckpointId(pub u128);

/// The life-cycle state of a task.
#[derive(Clone, Copy, Debug, PartialEq, Eq, Structural)]
pub enum TaskStatus {
    Pending,
    Running,
    Completed,
    Failed,
    Paused,
}

/// The life-cycle state of a step.
#[derive(Clone, Copy, Debug, PartialEq, Eq, Structural)]
pub enum StepStatus {
    Pending,
    Running,
    Completed,
    Failed,
}

/// A work session: its tasks and the one being worked on.
#[derive(Debug)]
pub struct Session {
    pub id: SessionId,
    pub created_at: Timestamp,
    pub tasks: Vec<Task>,
    pub current_task: Option<TaskId>,
}

impl Session {
    /// A fresh session: a random id, created now, with no tasks.
    pub fn new() -> (s: Self)
        ensures
            is_v4_uuid(s.id.0),
            s.created_at.nanos < 2_000_000_000,
            s.tasks@.len() == 0,
            s.current_task is None,
    {
        Session { id: SessionId(new_v4_uuid()), created_at: utc_now(), tasks: Vec::new(), current_task: None }
    }

    /// Appends a task to the session's tasks.
    pub fn add_task(&mut self, task: Task)
        ensures
            final(self).tasks@ == old(self).tasks@.push(task),
            final(self).id == old(self).id,
            final(self).created_at == old(self).created_at,
            final(self).current_task == old(self).current_task,
    {
        self.tasks.push(task);
    }
}

impl Session {
    /// `self` and `other` hold the same identifier, time, current task,
    /// and tasks that agree field by field.
    pub open spec fn same_as(self, other: Session) -> bool {
        &&& self.id == other.id
        &&& self.created_at == other.created_at
        &&& self.current_task == other.current_task
        &&& same_tasks(self.tasks@, other.tasks@)
    }
}

/// Two task lists of one length whose tasks agree field by field.
pub open spec fn same_tasks(a: Seq<Task>, b: Seq<Task>) -> bool {
    &&& a.len() == b.len()
    &&& forall|i: int| 0 <= i < a.len() ==> (#[trigger] a[i]).same_as(b[i])
}

impl Clone for Session {
    fn clone(&self) -> (r: Self)
        ensures
            r.same_as(*self),
    {
        Session {
            id: self.id,
            created_at: self.created_at,
            tasks: self.tasks.clone(),
            current_task: self.current_task,
        }
    }
}

/// A task: a description and the steps that carry it out.
#[derive(Debug)]
pub struct Task {
    pub id: TaskId,
    pub description: String,
    pub status: TaskStatus,
    pub steps: Vec<Step>,
    pub created_at: Timestamp,
    pub updated_at: Timestamp,
}

impl Task {
    /// A fresh pending task with no steps and a random id.
    pub fn new(description: String) -> (t: Self)
        ensures
            is_v4_uuid(t.id.0),
            t.created_at.nanos < 2_000_000_000,
            t.updated_at.nanos < 2_000_000_000,
            t.description@ == description@,
            t.status == TaskStatus::Pending,
            t.steps@.len() == 0,
    {
        let id = TaskId(new_v4_uuid());
        let created_at = utc_now();
        let updated_at = utc_now();
        Task { id, description, status: TaskStatus::Pending, steps: Vec::new(), created_at, updated_at }
    }

    /// Appends a pending step with no output and no checkpoint.
    pub fn add_step(&mut self, description: String)
        ensures
            final(self).steps@.len() == old(self).steps@.len() + 1,
            final(self).steps@.drop_last() == old(self).steps@,
            final(self).steps@.last().description@ == description@,
            final(self).steps@.last().status == StepStatus::Pending,
            final(self).steps@.last().output is None,
            final(self).steps@.last().checkpoint_id is None,
            final(self).id == old(self).id,
            final(self).description == old(self).description,
            final(self).status == old(self).status,
            final(self).created_at == old(self).created_at,
            final(self).updated_at == old(self).updated_at,
    {
        self.steps.push(Step { description, status: StepStatus::Pending, output: None, checkpoint_id: None });
        assert(self.steps@.drop_last() =~= old(self).steps@);
    }
}

impl Task {
    /// `self` and `other` agree on every field (the steps as sequences).
    pub open spec fn same_as(self, other: Task) -> bool {
        &&& self.id == other.id
        &&& self.description == other.description
        &&& self.status == other.status
        &&& self.steps@ == other.steps@
        &&& self.created_at == other.created_at
        &&& self.updated_at == other.updated_at
    }
}

impl Clone for Task {
    fn clone(&self) -> (r: Self)
        ensures
            r.same_as(*self),
    {
        let steps = self.steps.clone();
        assert(steps@ =~= self.steps@);
        Task {
            id: self.id,
            description: self.description.clone(),
            status: self.status,
            steps,
            created_at: self.created_at,
            updated_at: self.updated_at,
        }
    }
}

/// One step of a task.
#[derive(Debug)]
pub struct Step {
    pub description: String,
    pub status: StepStatus,
    pub output: Option<String>,
    pub checkpoint_id: Option<CheckpointId>,
}

impl Clone for Step {
    fn clone(&self) -> (r: Self)
        ensures
            r == *self,
    {
        let output = match &self.output {
            Some(text) => Some(text.clone()),
            None => None,
        };
        Step { description: self.description.clone(), status: self.status, output, checkpoint_id: self.checkpoint_id }
    }
}

/// A snapshot of a task's state inside a session.
#[derive(Clone, Debug)]
pub struct Checkpoint {
    pub id: CheckpointId,
    pub task_id: TaskId,
    pub session_id: SessionId,
    pub timestamp: Timestamp,
    pub state_snapshot: serde_json::Value,
}

impl Checkpoint {
    /// A checkpoint of the given task and session, taken now, with a random id.
    pub fn new(task_id: TaskId, session_id: SessionId, state_snapshot: serde_json::Value) -> (c: Self)
        ensures
            is_v4_uuid(c.id.0),
            c.timestamp.nanos < 2_000_000_000,
            c.task_id == task_id,
            c.session_id == session_id,
            c.state_snapshot == state_snapshot,
    {
        Checkpoint { id: CheckpointId(new_v4_uuid()), task_id, session_id, timestamp: utc_now(), state_snapshot }
    }
}

/// A checkpoint as written to the database: its identifiers as
/// hyphenated text, and no id of its own (the record's key holds it).
#[derive(Debug)]
pub struct CheckpointRecord {
    pub task_id: String,
    pub session_id: String,
    pub timestamp: Timestamp,
    pub state_snapshot: serde_json::Value,
}

/// A session as written to the database: the current task as hyphenated
/// text, and no id of its own.
#[derive(Debug)]
pub struct SessionRecord {
    pub created_at: Timestamp,
    pub tasks: Vec<Task>,
    pub current_task: Option<String>,
}

/// The identifier that a record's text stands for: the UUID that it
/// parses to, or the nil UUID where it is not one.
pub open spec fn id_of_text(text: Seq<char>) -> u128 {
    match parsed_uuid(text) {
        Some(id) => id,
        None => 0,
    }
}

impl CheckpointRecord {
    /// `self` is the record of checkpoint `c`.
    pub open spec fn is_record_of(self, c: Checkpoint) -> bool {
        &&& self.task_id@ == uuid_text(c.task_id.0)
        &&& self.session_id@ == uuid_text(c.session_id.0)
        &&& self.timestamp == c.timestamp
        &&& self.state_snapshot == c.state_snapshot
    }

    /// `c` is the checkpoint that this record stands for when stored under
    /// `id`: an identifier text reads as the UUID it parses to, the nil
    /// UUID where it is no UUID, and the UUID whose hyphenated text it is.
    pub open spec fn read_as(self, id: u128, c: Checkpoint) -> bool {
        &&& c.id == CheckpointId(id)
        &&& c.task_id == TaskId(id_of_text(self.task_id@))
        &&& c.session_id == SessionId(id_of_text(self.session_id@))
        &&& forall|t: u128| self.task_id@ == uuid_text(t) ==> c.task_id == TaskId(t)
        &&& forall|t: u128| self.session_id@ == uuid_text(t) ==> c.session_id == SessionId(t)
        &&& c.timestamp == self.timestamp
        &&& c.state_snapshot == self.state_snapshot
    }

    /// The record of a checkpoint.
    pub fn from(c: &Checkpoint) -> (r: Self)
        ensures
            r.is_record_of(*c),
    {
        CheckpointRecord {
            task_id: uuid_to_string(c.task_id.0),
            session_id: uuid_to_string(c.session_id.0),
            timestamp: c.timestamp,
            state_snapshot: c.state_snapshot.clone(),
        }
    }

    /// The checkpoint that this record, stored under `id`, stands for.
    /// An identifier text that is no UUID reads as the nil UUID.
    pub fn into_checkpoint(self, id: u128) -> (c: Checkpoint)
        ensures
            self.read_as(id, c),
    {
        let task_id = parse_uuid_or_nil(self.task_id.as_str());
        let session_id = parse_uuid_or_nil(self.session_id.as_str());
        Checkpoint {
            id: CheckpointId(id),
            task_id: TaskId(task_id),
            session_id: SessionId(session_id),
            timestamp: self.timestamp,
            state_snapshot: self.state_snapshot,
        }
    }
}

/// Writing a checkpoint as a record and reading the record back under the
/// checkpoint's id gives the same checkpoint.
pub proof fn lemma_checkpoint_record_roundtrip(c: Checkpoint, r: CheckpointRecord, back: Checkpoint)
    requires
        r.is_record_of(c),
        r.read_as(c.id.0, back),
    ensures
        back == c,
{
}

impl SessionRecord {
    /// The record of a session.
    pub fn from(s: &Session) -> (r: Self)
        ensures
            r.created_at == s.created_at,
            same_tasks(r.tasks@, s.tasks@),
            r.current_task is Some <==> s.current_task is Some,
            s.current_task matches Some(t) ==> r.current_task.unwrap()@ == uuid_text(t.0),
    {
        let current_task = match s.current_task {
            Some(t) => Some(uuid_to_string(t.0)),
            None => None,
        };
        let tasks = s.tasks.clone();
        SessionRecord { created_at: s.created_at, tasks, current_task }
    }
}

} // verus!
