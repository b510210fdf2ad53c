use merix::memory::EtherealMemory;
use merix::ids::Timestamp;
use merix::runtime::{
    begin_execution, complete_task, conclude_execution, finish_execution, new_session, new_task, start_task, startup_config, ExecutionError,
};
use merix::schemas::{InferenceConfig, TaskStatus};

fn is_v4(id: u128) -> bool {
    uuid::Uuid::from_u128(id).get_version_num() == 4
}

/// Runs a task as the runtime's loop does: load, start, store, finish,
/// store the checkpoint and the completed task.
fn execute(mem: &mut EtherealMemory, task_id: u128) -> Result<(), ExecutionError> {
    let running = begin_execution(task_id, mem.load_task(task_id))?;
    mem.store_task(running.clone());
    let (checkpoint, done) = finish_execution(running);
    mem.store_checkpoint(checkpoint);
    mem.store_task(done);
    Ok(())
}

#[test]
fn test_core_task_state_lifecycle() {
    let mut mem = EtherealMemory::new();
    let session = new_session(Some("Test Session".into()), None);
    mem.store_session(session.clone());
    let task = new_task(session.id, "Test task".into());
    mem.store_task(task.clone());
    execute(&mut mem, task.id).unwrap();
    let loaded = mem.load_task(task.id).unwrap();
    assert_eq!(loaded.status, TaskStatus::Completed);
}

#[test]
fn test_core_llm_configuration() {
    let mut mem = EtherealMemory::new();
    let start = startup_config(mem.load_inference_config(), Some(8));
    assert!(start.persist);
    mem.store_inference_config(start.config);
    let mut config = InferenceConfig::default_with_parallelism(Some(8));
    config.use_gpu = true;
    config.n_gpu_layers = 42;
    mem.store_inference_config(config);
    let loaded = mem.load_inference_config().unwrap();
    assert!(loaded.use_gpu);
    assert_eq!(loaded.n_gpu_layers, 42);
}

#[test]
fn startup_keeps_a_stored_config() {
    let mut stored = InferenceConfig::default_with_parallelism(Some(2));
    stored.context_size = 1024;
    let start = startup_config(Some(stored), Some(16));
    assert!(!start.persist);
    assert_eq!(start.config.context_size, 1024);
    assert_eq!(start.config.n_threads, 2);
}

#[test]
fn startup_defaults_when_none_stored() {
    let start = startup_config(None, Some(16));
    assert!(start.persist);
    assert_eq!(start.config.n_threads, 16);
    assert_eq!(start.config.context_size, 8192);
}

#[test]
fn new_session_and_task_fields() {
    let s = new_session(Some("T".into()), Some("D".into()));
    assert!(is_v4(s.id));
    assert_eq!(s.title.as_deref(), Some("T"));
    assert_eq!(s.description.as_deref(), Some("D"));
    let t = new_task(s.id, "do it".into());
    assert!(is_v4(t.id));
    assert_eq!(t.session_id, s.id);
    assert_eq!(t.description, "do it");
    assert_eq!(t.status, TaskStatus::Pending);
    assert!(t.parent_id.is_none());
    assert_ne!(s.id, t.id);
}

#[test]
fn execution_of_missing_task_fails() {
    let mut mem = EtherealMemory::new();
    assert_eq!(execute(&mut mem, 99), Err(ExecutionError::NotFound(99)));
}

#[test]
fn execution_twice_fails_on_completed() {
    let mut mem = EtherealMemory::new();
    let t = new_task(1, "x".into());
    mem.store_task(t.clone());
    execute(&mut mem, t.id).unwrap();
    assert_eq!(execute(&mut mem, t.id), Err(ExecutionError::NotPending(TaskStatus::Completed)));
}

#[test]
fn begin_marks_running_and_finish_records_checkpoint() {
    let t = new_task(5, "y".into());
    let running = begin_execution(t.id, Some(t.clone())).unwrap();
    assert_eq!(running.status, TaskStatus::Running);
    assert_eq!(running.id, t.id);
    assert_eq!(running.created_at, t.created_at);
    let (checkpoint, done) = finish_execution(running);
    assert_eq!(checkpoint.task_id, t.id);
    assert_eq!(checkpoint.sequence, 1);
    assert_eq!(checkpoint.state, serde_json::Value::String("task_executed_via_llama_runtime".to_string()));
    assert!(is_v4(checkpoint.id));
    assert_eq!(done.status, TaskStatus::Completed);
    assert_eq!(done.session_id, 5);
}

#[test]
fn begin_refuses_running_task() {
    let mut t = new_task(5, "y".into());
    t.status = TaskStatus::Running;
    assert_eq!(begin_execution(t.id, Some(t.clone())).unwrap_err(), ExecutionError::NotPending(TaskStatus::Running));
}

#[test]
fn start_and_complete_at_given_times() {
    let t = new_task(5, "z".into());
    let now = Timestamp { secs: 1_700_000_000, nanos: 5 };
    let running = start_task(t.id, Some(t.clone()), now).unwrap();
    assert_eq!(running.updated_at, now);
    assert_eq!(running.created_at, t.created_at);
    assert_eq!(running.status, TaskStatus::Running);
    let c_time = Timestamp { secs: 1_700_000_001, nanos: 0 };
    let d_time = Timestamp { secs: 1_700_000_002, nanos: 7 };
    let (checkpoint, done) = complete_task(running, 77, c_time, d_time);
    assert_eq!(checkpoint.id, 77);
    assert_eq!(checkpoint.created_at, c_time);
    assert_eq!(done.updated_at, d_time);
    assert_eq!(done.status, TaskStatus::Completed);
    assert_eq!(start_task(9, None, now).unwrap_err(), ExecutionError::NotFound(9));
}

#[test]
fn failed_model_load_leaves_task_running() {
    let mut mem = EtherealMemory::new();
    let t = new_task(3, "needs a model".into());
    mem.store_task(t.clone());
    let running = begin_execution(t.id, mem.load_task(t.id)).unwrap();
    mem.store_task(running.clone());
    let concluded = conclude_execution(running, Err::<(), String>("model file missing".to_string()));
    assert_eq!(concluded.unwrap_err(), "model file missing");
    assert_eq!(mem.load_task(t.id).unwrap().status, TaskStatus::Running);
    assert_eq!(begin_execution(t.id, mem.load_task(t.id)).unwrap_err(), ExecutionError::NotPending(TaskStatus::Running));
}

#[test]
fn successful_model_load_completes_task() {
    let mut mem = EtherealMemory::new();
    let t = new_task(4, "with a model".into());
    mem.store_task(t.clone());
    let running = begin_execution(t.id, mem.load_task(t.id)).unwrap();
    mem.store_task(running.clone());
    let (checkpoint, done) = conclude_execution(running, Ok::<(), String>(())).unwrap();
    assert_eq!(checkpoint.task_id, t.id);
    assert_eq!(checkpoint.sequence, 1);
    assert!(is_v4(checkpoint.id));
    mem.store_checkpoint(checkpoint.clone());
    mem.store_task(done);
    assert_eq!(mem.load_task(t.id).unwrap().status, TaskStatus::Completed);
    assert_eq!(mem.load_checkpoint(checkpoint.id).unwrap().task_id, t.id);
}
