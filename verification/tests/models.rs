use merix::models::session::Session as TrackedSession;
use merix::ids::Timestamp;
use merix::models::task::{
    StepId, StepStatus as TrackedStepStatus, Task as TrackedTask, TaskStatus as TrackedTaskStatus,
};
use merix::models::{Checkpoint, Session, SessionId, StepStatus, Task, TaskId, TaskStatus};

#[test]
fn session_starts_empty_and_appends() {
    let mut s = Session::new();
    assert!(s.tasks.is_empty());
    assert!(s.current_task.is_none());
    let t1 = Task::new("one".to_string());
    let t2 = Task::new("two".to_string());
    s.add_task(t1);
    s.add_task(t2);
    assert_eq!(s.tasks.len(), 2);
    assert_eq!(s.tasks[0].description, "one");
    assert_eq!(s.tasks[1].description, "two");
    assert!(s.current_task.is_none());
}

#[test]
fn task_steps_append_pending() {
    let mut t = Task::new("t".to_string());
    assert_eq!(t.status, TaskStatus::Pending);
    t.add_step("s1".to_string());
    assert_eq!(t.steps.len(), 1);
    assert_eq!(t.steps[0].description, "s1");
    assert_eq!(t.steps[0].status, StepStatus::Pending);
    assert!(t.steps[0].checkpoint_id.is_none());
}

#[test]
fn checkpoint_keeps_its_ids() {
    let c = Checkpoint::new(TaskId(5), SessionId(6), serde_json::Value::Null);
    assert_eq!(c.task_id, TaskId(5));
    assert_eq!(c.session_id, SessionId(6));
    assert_eq!(c.state_snapshot, serde_json::Value::Null);
}

#[test]
fn tracked_session_sets_current_task() {
    let mut s = TrackedSession::new();
    assert!(s.current_task.is_none());
    let t = TrackedTask::new("x".to_string());
    let id = t.id;
    s.add_task(t);
    assert_eq!(s.current_task, Some(id));
    assert_eq!(s.tasks.len(), 1);
}

#[test]
fn tracked_task_steps_have_ids() {
    let mut t = TrackedTask::new("x".to_string());
    assert_eq!(t.status, TrackedTaskStatus::Pending);
    assert_eq!(t.created_at, t.updated_at);
    t.add_step("a".to_string());
    t.add_step("b".to_string());
    assert_eq!(t.steps.len(), 2);
    assert_ne!(t.steps[0].id, t.steps[1].id);
    assert_eq!(t.steps[1].status, TrackedStepStatus::Pending);
    assert_eq!(t.steps[1].description, "b");
}

#[test]
fn tracked_updates_at_given_times() {
    let now = Timestamp { secs: 42, nanos: 1 };
    let mut s = TrackedSession::new();
    let t = TrackedTask::new("x".to_string());
    let id = t.id;
    s.add_task_at(t, now);
    assert_eq!(s.last_active, now);
    assert_eq!(s.current_task, Some(id));
    let mut t = TrackedTask::new("y".to_string());
    t.add_step_at("a".to_string(), StepId(3), now);
    assert_eq!(t.updated_at, now);
    assert_eq!(t.steps[0].id, StepId(3));
    assert_eq!(t.steps[0].description, "a");
}
