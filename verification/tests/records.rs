use merix::ids::{parse_uuid_or_nil, Timestamp};
use merix::records::checkpoint::Checkpoint as StepCheckpoint;
use merix::records::{
    Checkpoint, CheckpointId, CheckpointRecord, Session, SessionId, SessionRecord, StepStatus, Task, TaskId,
    TaskStatus,
};

#[test]
fn checkpoint_record_roundtrip() {
    let task = TaskId(uuid::Uuid::new_v4().as_u128());
    let session = SessionId(uuid::Uuid::new_v4().as_u128());
    let c = Checkpoint::new(task, session, serde_json::Value::Bool(true));
    let record = CheckpointRecord::from(&c);
    assert_eq!(record.task_id, uuid::Uuid::from_u128(task.0).to_string());
    assert_eq!(record.session_id, uuid::Uuid::from_u128(session.0).to_string());
    let back = record.into_checkpoint(c.id.0);
    assert_eq!(back.id, c.id);
    assert_eq!(back.task_id, c.task_id);
    assert_eq!(back.session_id, c.session_id);
    assert_eq!(back.timestamp, c.timestamp);
    assert_eq!(back.state_snapshot, c.state_snapshot);
}

#[test]
fn checkpoint_record_with_bad_ids_reads_nil() {
    let record = CheckpointRecord {
        task_id: "not-a-uuid".to_string(),
        session_id: "550E8400-E29B-41D4-A716-446655440000".to_string(),
        timestamp: Timestamp { secs: 3, nanos: 4 },
        state_snapshot: serde_json::Value::Null,
    };
    let c = record.into_checkpoint(7);
    assert_eq!(c.id, CheckpointId(7));
    assert_eq!(c.task_id, TaskId(0));
    assert_eq!(c.session_id.0, uuid::Uuid::parse_str("550e8400-e29b-41d4-a716-446655440000").unwrap().as_u128());
}

#[test]
fn parse_or_nil() {
    assert_eq!(parse_uuid_or_nil("garbage"), 0);
    assert_eq!(parse_uuid_or_nil("00000000-0000-0000-0000-000000000001"), 1);
}

#[test]
fn session_record_keeps_tasks_and_current() {
    let mut s = Session::new();
    let mut t = Task::new("write".to_string());
    t.add_step("first".to_string());
    let tid = t.id;
    s.add_task(t);
    s.current_task = Some(tid);
    let record = SessionRecord::from(&s);
    assert_eq!(record.created_at, s.created_at);
    assert_eq!(record.tasks.len(), 1);
    assert_eq!(record.tasks[0].id, tid);
    assert_eq!(record.tasks[0].steps.len(), 1);
    assert_eq!(record.current_task, Some(uuid::Uuid::from_u128(tid.0).to_string()));
    let empty = SessionRecord::from(&Session::new());
    assert!(empty.current_task.is_none());
}

#[test]
fn storage_task_steps() {
    let mut t = Task::new("job".to_string());
    assert_eq!(t.status, TaskStatus::Pending);
    t.add_step("a".to_string());
    t.add_step("b".to_string());
    assert_eq!(t.steps.len(), 2);
    assert_eq!(t.steps[1].description, "b");
    assert_eq!(t.steps[1].status, StepStatus::Pending);
    assert!(t.steps[1].output.is_none());
    let copy = t.clone();
    assert_eq!(copy.steps.len(), 2);
    assert_eq!(copy.description, "job");
}

#[test]
fn step_checkpoint_new() {
    let c = StepCheckpoint::new(1, 2, 3, TaskStatus::Paused, "{}".to_string());
    assert_eq!(c.task_id, 1);
    assert_eq!(c.session_id, 2);
    assert_eq!(c.step_index, 3);
    assert_eq!(c.task_status, TaskStatus::Paused);
    assert_eq!(c.serialized_state, "{}");
    assert_eq!(uuid::Uuid::from_u128(c.id.0).get_version_num(), 4);
}
