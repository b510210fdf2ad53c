//! The decisions of the core runtime. The runtime's loop (awaiting the
//! memory layer and the model runtime) calls these: what configuration to
//! start with, what a new session or task holds, whether a task may run,
//! and what its execution records.

use vstd::prelude::*;
use crate::ids::{is_v4_uuid, new_v4_uuid, utc_now, Timestamp};
use crate::json::{json_string, json_string_of};
use crate::memory::MemoryView;
use crate::schemas::{Checkpoint, CheckpointId, InferenceConfig, Session, SessionId, Task, TaskId, TaskStatus};

verus! {

/// The configuration the runtime starts with, and whether it must be
/// written to memory (it must where memory held none).
pub struct StartupConfig {
    pub config: InferenceConfig,
    pub persist: bool,
}

/// The configuration to start with: the stored one, or else the default
/// one (for the machine's available parallelism), which is then to be stored.
pub fn startup_config(
    loaded: Option<InferenceConfig>,
    available_parallelism: Option<usize>,
) -> (r: StartupConfig)
    ensures
        match loaded {
            Some(c) => r.config == c && !r.persist,
            None => r.config.is_default_for(available_parallelism) && r.persist,
        },
        loaded is None ==> (match available_parallelism {
            Some(n) => r.config.n_threads == n,
            None => r.config.n_threads == 4,
        }),
{
    match loaded {
        Some(c) => StartupConfig { config: c, persist: false },
        None => StartupConfig {
            config: InferenceConfig::default_with_parallelism(available_parallelism),
            persist: true,
        },
    }
}

/// A new session with a random id and the given title and description.
pub fn new_session(title: Option<String>, description: Option<String>) -> (s: Session)
    ensures
        is_v4_uuid(s.id),
        s.title == title,
        s.description == description,
        s.created_at.nanos < 2_000_000_000,
        s.updated_at.nanos < 2_000_000_000,
{
    let id = new_v4_uuid();
    let created_at = utc_now();
    let updated_at = utc_now();
    Session { id, title, description, created_at, updated_at }
}

/// A new pending task of the given session, with a random id and no parent.
pub fn new_task(session_id: SessionId, description: String) -> (t: Task)
    ensures
        is_v4_uuid(t.id),
        t.session_id == session_id,
        t.description == description,
        t.status == TaskStatus::Pending,
        t.parent_id is None,
        t.created_at.nanos < 2_000_000_000,
        t.updated_at.nanos < 2_000_000_000,
{
    let id = new_v4_uuid();
    let created_at = utc_now();
    let updated_at = utc_now();
    Task { id, session_id, description, status: TaskStatus::Pending, created_at, updated_at, parent_id: None }
}

/// Why a task could not be executed.
#[derive(Clone, Copy, Debug, PartialEq, Eq, Structural)]
pub enum ExecutionError {
    /// No task is stored under the id.
    NotFound(TaskId),
    /// The task is stored, but not pending.
    NotPending(TaskStatus),
}

/// The outcome of starting a task, given what memory returned for its id:
/// not found, not pending, or the task marked running (to be stored).
pub open spec fn start_outcome(task_id: TaskId, loaded: Option<Task>, started: Result<Task, ExecutionError>) -> bool {
    match loaded {
        None => started == Err::<Task, ExecutionError>(ExecutionError::NotFound(task_id)),
        Some(t) => if t.status != TaskStatus::Pending {
            started == Err::<Task, ExecutionError>(ExecutionError::NotPending(t.status))
        } else {
            started matches Ok(r) && r.id == t.id && r.session_id == t.session_id
                && r.description == t.description && r.status == TaskStatus::Running
                && r.created_at == t.created_at && r.parent_id == t.parent_id
        },
    }
}

/// Starts, at time `now`, the execution of the task that memory returned
/// for `task_id`: only a pending task may run; it becomes running, updated
/// at `now`, and keeps every other field.
pub fn start_task(task_id: TaskId, loaded: Option<Task>, now: Timestamp) -> (r: Result<Task, ExecutionError>)
    ensures
        start_outcome(task_id, loaded, r),
        r matches Ok(t) ==> t.updated_at == now,
{
    match loaded {
        None => Err(ExecutionError::NotFound(task_id)),
        Some(mut task) => {
            if task.status != TaskStatus::Pending {
                Err(ExecutionError::NotPending(task.status))
            } else {
                task.status = TaskStatus::Running;
                task.updated_at = now;
                Ok(task)
            }
        },
    }
}

/// Starts the execution of the task that memory returned for `task_id`,
/// now (the clock's reading is handed to `start_task`).
pub fn begin_execution(task_id: TaskId, loaded: Option<Task>) -> (r: Result<Task, ExecutionError>)
    ensures
        start_outcome(task_id, loaded, r),
        r matches Ok(t) ==> t.updated_at.nanos < 2_000_000_000,
{
    let now = utc_now();
    start_task(task_id, loaded, now)
}

/// The state that an execution's checkpoint records.
pub open spec fn executed_state() -> Seq<char> {
    "task_executed_via_llama_runtime"@
}

/// What finishing a task records: its first checkpoint (with a random id),
/// and the task marked completed.
pub open spec fn finish_outcome(task: Task, checkpoint: Checkpoint, done: Task) -> bool {
    &&& is_v4_uuid(checkpoint.id)
    &&& completed(task, checkpoint, done)
}

/// The checkpoint and the completed task that finishing `task` records,
/// whatever their id and times.
pub open spec fn completed(task: Task, checkpoint: Checkpoint, done: Task) -> bool {
    &&& checkpoint.task_id == task.id
    &&& checkpoint.sequence == 1
    &&& checkpoint.state == json_string_of(executed_state())
    &&& done.id == task.id
    &&& done.session_id == task.session_id
    &&& done.description == task.description
    &&& done.status == TaskStatus::Completed
    &&& done.created_at == task.created_at
    &&& done.parent_id == task.parent_id
}

/// Finishes a running task with the given checkpoint id and times: the
/// checkpoint to store, taken at `checkpoint_time`, and the task completed,
/// updated at `done_time`.
pub fn complete_task(task: Task, checkpoint_id: CheckpointId, checkpoint_time: Timestamp, done_time: Timestamp) -> (r: (
    Checkpoint,
    Task,
))
    ensures
        completed(task, r.0, r.1),
        r.0.id == checkpoint_id,
        r.0.created_at == checkpoint_time,
        r.1.updated_at == done_time,
{
    proof {
        reveal_strlit("task_executed_via_llama_runtime");
    }
    let checkpoint = Checkpoint {
        id: checkpoint_id,
        task_id: task.id,
        sequence: 1,
        state: json_string("task_executed_via_llama_runtime"),
        created_at: checkpoint_time,
    };
    let mut done = task;
    done.status = TaskStatus::Completed;
    done.updated_at = done_time;
    (checkpoint, done)
}

/// Finishes a running task (after the model was loaded, where a model was
/// given), now: a random checkpoint id and the clock's readings are handed
/// to `complete_task`.
pub fn finish_execution(task: Task) -> (r: (Checkpoint, Task))
    ensures
        finish_outcome(task, r.0, r.1),
        r.0.created_at.nanos < 2_000_000_000,
        r.1.updated_at.nanos < 2_000_000_000,
{
    let checkpoint_id = new_v4_uuid();
    let checkpoint_time = utc_now();
    let done_time = utc_now();
    complete_task(task, checkpoint_id, checkpoint_time, done_time)
}

/// How the execution of `running` concludes after the model load: with the
/// load's error, or with the checkpoint and completed task that finishing
/// records.
pub open spec fn conclude_outcome<E>(running: Task, model_load: Result<(), E>, r: Result<(Checkpoint, Task), E>) -> bool {
    match model_load {
        Ok(_) => r matches Ok(records) && finish_outcome(running, records.0, records.1),
        Err(e) => r == Err::<(Checkpoint, Task), E>(e),
    }
}

/// Concludes the execution of a running task once the model load is over
/// (`Ok` where no model was asked for): where the load failed, its error is
/// returned and nothing more is recorded, so the task stays stored as
/// running and no checkpoint is taken; else the task is finished now, as
/// `finish_execution` does.
pub fn conclude_execution<E>(running: Task, model_load: Result<(), E>) -> (r: Result<(Checkpoint, Task), E>)
    ensures
        conclude_outcome(running, model_load, r),
        r matches Ok(records) ==> records.0.created_at.nanos < 2_000_000_000
            && records.1.updated_at.nanos < 2_000_000_000,
{
    match model_load {
        Ok(_) => Ok(finish_execution(running)),
        Err(e) => Err(e),
    }
}

/// A task runs only from pending, and a run that starts ends completed,
/// keeping the task's identity, session, description and creation time.
pub proof fn lemma_execution_lifecycle(
    task_id: TaskId,
    loaded: Option<Task>,
    started: Result<Task, ExecutionError>,
    checkpoint: Checkpoint,
    done: Task,
)
    requires
        start_outcome(task_id, loaded, started),
        started matches Ok(running) ==> finish_outcome(running, checkpoint, done),
    ensures
        started is Ok <==> (loaded matches Some(t) && t.status == TaskStatus::Pending),
        loaded is None ==> started == Err::<Task, ExecutionError>(ExecutionError::NotFound(task_id)),
        started is Ok ==> {
            let t = loaded->Some_0;
            &&& done.status == TaskStatus::Completed
            &&& done.id == t.id
            &&& done.session_id == t.session_id
            &&& done.description == t.description
            &&& done.created_at == t.created_at
            &&& checkpoint.task_id == t.id
        },
{
}

/// A task created into memory and then executed there (loaded, started,
/// stored running, finished, its checkpoint and completed self stored)
/// loads back completed, with its checkpoint stored under the
/// checkpoint's id; the session records are untouched.
pub proof fn lemma_task_lifecycle_in_memory(
    m: MemoryView,
    task: Task,
    started: Result<Task, ExecutionError>,
    checkpoint: Checkpoint,
    done: Task,
)
    requires
        task.status == TaskStatus::Pending,
        start_outcome(task.id, m.with_task(task).task(task.id), started),
        started matches Ok(running) ==> finish_outcome(running, checkpoint, done),
    ensures
        started is Ok,
        ({
            let running = started->Ok_0;
            let after = m.with_task(task).with_task(running).with_checkpoint(checkpoint).with_task(done);
            &&& after.task(task.id) == Some(done)
            &&& done.status == TaskStatus::Completed
            &&& after.checkpoint(checkpoint.id) == Some(checkpoint)
            &&& checkpoint.task_id == task.id
            &&& after.sessions == m.sessions
        }),
{
    let running = started->Ok_0;
    assert(running.id == task.id);
}

/// A task whose model fails to load stays as the start of its execution
/// left it: stored running under its id, with no checkpoint recorded, and
/// the execution fails with the load's error.
pub proof fn lemma_failed_load_leaves_task_running<E>(
    m: MemoryView,
    task: Task,
    started: Result<Task, ExecutionError>,
    error: E,
    concluded: Result<(Checkpoint, Task), E>,
)
    requires
        task.status == TaskStatus::Pending,
        start_outcome(task.id, m.with_task(task).task(task.id), started),
        started matches Ok(running) ==> conclude_outcome(running, Err::<(), E>(error), concluded),
    ensures
        started is Ok,
        concluded == Err::<(Checkpoint, Task), E>(error),
        ({
            let running = started->Ok_0;
            let after = m.with_task(task).with_task(running);
            &&& after.task(task.id) == Some(running)
            &&& running.status == TaskStatus::Running
            &&& after.checkpoints == m.checkpoints
            &&& after.sessions == m.sessions
        }),
{
    let running = started->Ok_0;
    assert(running.id == task.id);
}

} // verus!
