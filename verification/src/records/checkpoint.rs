//! Checkpoints that record the step a task had reached and its state as
//! serialized text.

use vstd::prelude::*;
use crate::ids::{is_v4_uuid, new_v4_uuid, utc_now, Timestamp};
use crate::records::TaskStatus;

verus! {

/// Identifier of a checkpoint.
#[derive(Clone, Copy, Debug, PartialEq, Eq, Structural)]
pub struct CheckpointId(pub u128);

/// A snapshot of a task at one of its steps.
#[derive(Clone, Debug)]
pub struct Checkpoint {
    pub id: CheckpointId,
    pub task_id: u128,
    pub session_id: u128,
    pub step_index: usize,
    pub task_status: TaskStatus,
    pub timestamp: Timestamp,
    pub serialized_state: String,
}

impl Checkpoint {
    /// A checkpoint taken now, with a random id.
    pub fn new(
        task_id: u128,
        session_id: u128,
        step_index: usize,
        task_status: TaskStatus,
        serialized_state: String,
    ) -> (c: Self)
        ensures
            is_v4_uuid(c.id.0),
            c.timestamp.nanos < 2_000_000_000,
            c.task_id == task_id,
            c.session_id == session_id,
            c.step_index == step_index,
            c.task_status == task_status,
            c.serialized_state@ == serialized_state@,
    {
        Checkpoint {
            id: CheckpointId(new_v4_uuid()),
            task_id,
            session_id,
            step_index,
            task_status,
            timestamp: utc_now(),
            serialized_state,
        }
    }
}

} // verus!
