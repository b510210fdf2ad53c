use merix::ids::Timestamp;
use merix::memory::{fix_id_in_value, EtherealMemory};
use merix::schemas::{Checkpoint, InferenceConfig, Session, Skill, Task, TaskStatus};

fn at(secs: i64) -> Timestamp {
    Timestamp { secs, nanos: 0 }
}

fn session(id: u128, title: &str) -> Session {
    Session { id, title: Some(title.to_string()), description: None, created_at: at(1), updated_at: at(2) }
}

#[test]
fn test_ethereal_memory_basic() {
    let mut mem = EtherealMemory::new();
    let session_id = uuid::Uuid::new_v4().as_u128();
    let s = session(session_id, "Test Session");
    mem.store_session(s.clone());
    let loaded = mem.load_session(session_id).unwrap();
    assert_eq!(loaded.id, session_id);
}

#[test]
fn ethereal_roundtrip_of_every_kind() {
    let mut mem = EtherealMemory::new();
    assert!(mem.init().is_ok());
    let session_id = 11u128;
    let task_id = 22u128;
    let checkpoint_id = 33u128;
    let skill_id = 44u128;
    mem.store_session(Session {
        id: session_id,
        title: Some("Integration Test Session".to_string()),
        description: Some("Testing full memory roundtrip".to_string()),
        created_at: at(5),
        updated_at: at(6),
    });
    mem.store_task(Task {
        id: task_id,
        session_id,
        description: "Test task description".to_string(),
        status: TaskStatus::Running,
        created_at: at(7),
        updated_at: at(8),
        parent_id: None,
    });
    let mut state = serde_json::Map::new();
    state.insert("key".to_string(), serde_json::Value::String("value".to_string()));
    state.insert("progress".to_string(), serde_json::Value::from(75u64));
    let state = serde_json::Value::Object(state);
    mem.store_checkpoint(Checkpoint { id: checkpoint_id, task_id, sequence: 42, state: state.clone(), created_at: at(9) });
    mem.store_skill(Skill {
        id: skill_id,
        name: "test_skill".to_string(),
        description: "A test skill for integration".to_string(),
        code: String::new(),
        version: "1.0.0".to_string(),
        created_at: at(10),
    });

    let s = mem.load_session(session_id).unwrap();
    assert_eq!(s.title.as_deref(), Some("Integration Test Session"));
    assert_eq!(s.description.as_deref(), Some("Testing full memory roundtrip"));
    let t = mem.load_task(task_id).unwrap();
    assert_eq!(t.description, "Test task description");
    assert_eq!(t.status, TaskStatus::Running);
    let c = mem.load_checkpoint(checkpoint_id).unwrap();
    assert_eq!(c.sequence, 42);
    assert_eq!(c.state, state);
    let k = mem.load_skill(skill_id).unwrap();
    assert_eq!(k.name, "test_skill");
    assert_eq!(k.version, "1.0.0");
}

#[test]
fn load_of_missing_ids_is_none() {
    let mut mem = EtherealMemory::new();
    mem.store_session(session(1, "a"));
    assert!(mem.load_session(2).is_none());
    assert!(mem.load_task(1).is_none());
    assert!(mem.load_checkpoint(1).is_none());
    assert!(mem.load_skill(1).is_none());
    assert!(mem.load_inference_config().is_none());
}

#[test]
fn store_replaces_under_same_id() {
    let mut mem = EtherealMemory::new();
    mem.store_session(session(1, "first"));
    mem.store_session(session(2, "other"));
    mem.store_session(session(1, "second"));
    assert_eq!(mem.load_session(1).unwrap().title.as_deref(), Some("second"));
    assert_eq!(mem.load_session(2).unwrap().title.as_deref(), Some("other"));
}

#[test]
fn inference_config_store_and_load() {
    let mut mem = EtherealMemory::new();
    let mut config = InferenceConfig::default_with_parallelism(Some(8));
    config.n_gpu_layers = 42;
    mem.store_inference_config(config);
    let loaded = mem.load_inference_config().unwrap();
    assert_eq!(loaded.n_gpu_layers, 42);
    assert_eq!(loaded.n_threads, 8);
    let mut second = InferenceConfig::default_with_parallelism(None);
    second.use_gpu = false;
    mem.store_inference_config(second);
    let loaded = mem.load_inference_config().unwrap();
    assert!(!loaded.use_gpu);
    assert_eq!(loaded.n_gpu_layers, -1);
}

#[test]
fn fix_id_replaces_existing_id_only() {
    let id = uuid::Uuid::parse_str("550e8400-e29b-41d4-a716-446655440000").unwrap().as_u128();
    let mut obj = serde_json::Map::new();
    obj.insert("id".to_string(), serde_json::Value::from(7u64));
    obj.insert("name".to_string(), serde_json::Value::String("x".to_string()));
    let fixed = fix_id_in_value(serde_json::Value::Object(obj), id);
    assert_eq!(fixed["id"], serde_json::Value::String("550e8400-e29b-41d4-a716-446655440000".to_string()));
    assert_eq!(fixed["name"], serde_json::Value::String("x".to_string()));

    let mut no_id = serde_json::Map::new();
    no_id.insert("name".to_string(), serde_json::Value::String("y".to_string()));
    let untouched = fix_id_in_value(serde_json::Value::Object(no_id.clone()), id);
    assert_eq!(untouched, serde_json::Value::Object(no_id));
}
