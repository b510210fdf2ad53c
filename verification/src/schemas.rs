//! Domain models stored by the memory layer: sessions, tasks,
//! checkpoints, skills and the inference configuration.

use vstd::prelude::*;
use crate::ids::Timestamp;

verus! {

/// Identifier of a session (a UUID held as its 128-bit value).
pub type SessionId = u128;

/// Identifier of a task.
pub type TaskId = u128;

/// Identifier of a checkpoint.
pub type CheckpointId = u128;

/// Identifier of a skill.
pub type SkillId = u128;

/// A conversation or work session.
#[derive(Clone, Debug)]
pub struct Session {
    pub id: SessionId,
    pub title: Option<String>,
    pub description: Option<String>,
    pub created_at: Timestamp,
    pub updated_at: Timestamp,
}

/// A unit of work inside a session.
#[derive(Clone, Debug)]
pub struct Task {
    pub id: TaskId,
    pub session_id: SessionId,
    pub description: String,
    pub status: TaskStatus,
    pub created_at: Timestamp,
    pub updated_at: Timestamp,
    pub parent_id: Option<TaskId>,
}

/// The life-cycle state of a task.
#[derive(Clone, Copy, Debug, PartialEq, Eq, Structural)]
pub enum TaskStatus {
    Pending,
    Running,
    Completed,
    Failed,
    Paused,
}

/// A saved point of a task's execution.
#[derive(Clone, Debug)]
pub struct Checkpoint {
    pub id: CheckpointId,
    pub task_id: TaskId,
    pub sequence: u32,
    pub state: serde_json::Value,
    pub created_at: Timestamp,
}

/// A stored skill: named, versioned code.
#[derive(Clone, Debug)]
pub struct Skill {
    pub id: SkillId,
    pub name: String,
    pub description: String,
    pub code: String,
    pub version: String,
    pub created_at: Timestamp,
}

/// Settings of the LLM inference engine.
#[derive(Clone, Debug)]
pub struct InferenceConfig {
    pub use_gpu: bool,
    pub n_gpu_layers: i32,
    pub vram_budget_mb: u64,
    pub context_size: u32,
    pub seed: Option<u64>,
    pub n_threads: usize,
    pub n_threads_batch: usize,
    pub memory_pressure_threshold: u8,
    pub cache_type_k: String,
    pub cache_type_v: String,
    pub flash_attn: bool,
    pub no_mmap: bool,
}

/// The thread count used when the machine's parallelism is unknown.
pub const FALLBACK_THREADS: usize = 4;

/// The number of inference threads: the machine's available parallelism,
/// or `FALLBACK_THREADS` where it could not be read.
pub open spec fn default_thread_count(available_parallelism: Option<usize>) -> usize {
    match available_parallelism {
        Some(n) => n,
        None => FALLBACK_THREADS,
    }
}

impl InferenceConfig {
    /// `self` is the default configuration for the given available
    /// parallelism (`None` where the machine's could not be read).
    pub open spec fn is_default_for(self, available_parallelism: Option<usize>) -> bool {
        &&& self.use_gpu
        &&& self.n_gpu_layers == -1
        &&& self.vram_budget_mb == 0
        &&& self.context_size == 8192
        &&& self.seed == Some(42u64)
        &&& self.n_threads == default_thread_count(available_parallelism)
        &&& self.n_threads_batch == 0
        &&& self.memory_pressure_threshold == 85
        &&& self.cache_type_k@ == "q8_0"@
        &&& self.cache_type_v@ == "q8_0"@
        &&& self.flash_attn
        &&& self.no_mmap
    }

    /// The default configuration. The thread count is the machine's
    /// available parallelism, which the caller reads and passes in
    /// (`None` where it could not be read, giving `FALLBACK_THREADS`).
    pub fn default_with_parallelism(available_parallelism: Option<usize>) -> (c: Self)
        ensures
            c.is_default_for(available_parallelism),
            available_parallelism matches Some(n) ==> c.n_threads == n,
            available_parallelism is None ==> c.n_threads == 4,
            c.n_threads_batch == 0,
    {
        proof {
            reveal_strlit("q8_0");
        }
        let n_threads = match available_parallelism {
            Some(n) => n,
            None => FALLBACK_THREADS,
        };
        InferenceConfig {
            use_gpu: true,
            n_gpu_layers: -1,
            vram_budget_mb: 0,
            context_size: 8192,
            seed: Some(42),
            n_threads,
            n_threads_batch: 0,
            memory_pressure_threshold: 85,
            cache_type_k: "q8_0".to_owned(),
            cache_type_v: "q8_0".to_owned(),
            flash_attn: true,
            no_mmap: true,
        }
    }
}

/// The default configuration runs as many inference threads as the machine
/// offers, for every reported parallelism, and four where none was reported;
/// its batch thread count is left unset (zero).
pub proof fn lemma_default_threads_follow_parallelism(c: InferenceConfig, available_parallelism: Option<usize>)
    requires
        c.is_default_for(available_parallelism),
    ensures
        available_parallelism matches Some(n) ==> c.n_threads == n,
        available_parallelism is None ==> c.n_threads == 4,
        c.n_threads_batch == 0,
{
}

} // verus!
