//! The ethereal (in-memory) memory layer: sessions, tasks, checkpoints,
//! skills and the inference configuration, held in concurrent maps
//! (`dashmap::DashMap`) keyed by identifier.

use vstd::prelude::*;
use dashmap::DashMap;
use crate::ids::{uuid_text, uuid_to_string};
use crate::json::{json_string, json_string_of, set_existing_field, with_existing_field_of};
use crate::schemas::{Checkpoint, InferenceConfig, Session, Skill, Task};
use crate::utilities::MerixError;

verus! {

#[verifier::external_type_specification]
#[verifier::external_body]
#[verifier::reject_recursive_types(K)]
#[verifier::reject_recursive_types(V)]
#[verifier::reject_recursive_types(S)]
pub struct ExDashMap<K, V, S>(DashMap<K, V, S>);

/// A concurrent map of sessions by identifier.
pub type SessionMap = DashMap<u128, Session>;

/// A concurrent map of tasks by identifier.
pub type TaskMap = DashMap<u128, Task>;

/// A concurrent map of checkpoints by identifier.
pub type CheckpointMap = DashMap<u128, Checkpoint>;

/// A concurrent map of skills by identifier.
pub type SkillMap = DashMap<u128, Skill>;

/// A concurrent map of inference configurations by key text.
pub type ConfigMap = DashMap<String, InferenceConfig>;

/// The entries that a map of sessions holds, by identifier.
pub uninterp spec fn session_entries(m: SessionMap) -> Map<u128, Session>;

/// `DashMap::new` for sessions: an empty map.
#[verifier::external_body]
fn session_map_new() -> (r: SessionMap)
    ensures
        session_entries(r).dom() == Set::<u128>::empty(),
{
    DashMap::new()
}

/// `DashMap::insert` for sessions: the key now maps to the value, whatever it
/// held before; no other entry changes.
#[verifier::external_body]
fn session_map_insert(m: &mut SessionMap, key: u128, value: Session)
    ensures
        session_entries(*final(m)) == session_entries(*old(m)).insert(key, value),
{
    m.insert(key, value);
}

/// `DashMap::get` for sessions, cloning the value found: the entry under the
/// key, if any. The clone that `derive(Clone)` writes copies every field.
#[verifier::external_body]
fn session_map_get(m: &SessionMap, key: u128) -> (r: Option<Session>)
    ensures
        r == (if session_entries(*m).dom().contains(key) {
            Some(session_entries(*m)[key])
        } else {
            None
        }),
{
    m.get(&key).map(|e| e.value().clone())
}

/// The entries that a map of tasks holds, by identifier.
pub uninterp spec fn task_entries(m: TaskMap) -> Map<u128, Task>;

/// `DashMap::new` for tasks: an empty map.
#[verifier::external_body]
fn task_map_new() -> (r: TaskMap)
    ensures
        task_entries(r).dom() == Set::<u128>::empty(),
{
    DashMap::new()
}

/// `DashMap::insert` for tasks: the key now maps to the value, whatever it
/// held before; no other entry changes.
#[verifier::external_body]
fn task_map_insert(m: &mut TaskMap, key: u128, value: Task)
    ensures
        task_entries(*final(m)) == task_entries(*old(m)).insert(key, value),
{
    m.insert(key, value);
}

/// `DashMap::get` for tasks, cloning the value found: the entry under the
/// key, if any. The clone that `derive(Clone)` writes copies every field.
#[verifier::external_body]
fn task_map_get(m: &TaskMap, key: u128) -> (r: Option<Task>)
    ensures
        r == (if task_entries(*m).dom().contains(key) {
            Some(task_entries(*m)[key])
        } else {
            None
        }),
{
    m.get(&key).map(|e| e.value().clone())
}

/// The entries that a map of checkpoints holds, by identifier.
pub uninterp spec fn checkpoint_entries(m: CheckpointMap) -> Map<u128, Checkpoint>;

/// `DashMap::new` for checkpoints: an empty map.
#[verifier::external_body]
fn checkpoint_map_new() -> (r: CheckpointMap)
    ensures
        checkpoint_entries(r).dom() == Set::<u128>::empty(),
{
    DashMap::new()
}

/// `DashMap::insert` for checkpoints: the key now maps to the value, whatever it
/// held before; no other entry changes.
#[verifier::external_body]
fn checkpoint_map_insert(m: &mut CheckpointMap, key: u128, value: Checkpoint)
    ensures
        checkpoint_entries(*final(m)) == checkpoint_entries(*old(m)).insert(key, value),
{
    m.insert(key, value);
}

/// `DashMap::get` for checkpoints, cloning the value found: the entry under the
/// key, if any. The clone that `derive(Clone)` writes copies every field.
#[verifier::external_body]
fn checkpoint_map_get(m: &CheckpointMap, key: u128) -> (r: Option<Checkpoint>)
    ensures
        r == (if checkpoint_entries(*m).dom().contains(key) {
            Some(checkpoint_entries(*m)[key])
        } else {
            None
        }),
{
    m.get(&key).map(|e| e.value().clone())
}

/// The entries that a map of skills holds, by identifier.
pub uninterp spec fn skill_entries(m: SkillMap) -> Map<u128, Skill>;

/// `DashMap::new` for skills: an empty map.
#[verifier::external_body]
fn skill_map_new() -> (r: SkillMap)
    ensures
        skill_entries(r).dom() == Set::<u128>::empty(),
{
    DashMap::new()
}

/// `DashMap::insert` for skills: the key now maps to the value, whatever it
/// held before; no other entry changes.
#[verifier::external_body]
fn skill_map_insert(m: &mut SkillMap, key: u128, value: Skill)
    ensures
        skill_entries(*final(m)) == skill_entries(*old(m)).insert(key, value),
{
    m.insert(key, value);
}

/// `DashMap::get` for skills, cloning the value found: the entry under the
/// key, if any. The clone that `derive(Clone)` writes copies every field.
#[verifier::external_body]
fn skill_map_get(m: &SkillMap, key: u128) -> (r: Option<Skill>)
    ensures
        r == (if skill_entries(*m).dom().contains(key) {
            Some(skill_entries(*m)[key])
        } else {
            None
        }),
{
    m.get(&key).map(|e| e.value().clone())
}

/// The entries of the configuration map, by key text.
pub uninterp spec fn config_entries(m: ConfigMap) -> Map<
    Seq<char>,
    InferenceConfig,
>;

/// `DashMap::new` for configurations: an empty map.
#[verifier::external_body]
fn config_map_new() -> (r: ConfigMap)
    ensures
        config_entries(r).dom() == Set::<Seq<char>>::empty(),
{
    DashMap::new()
}

/// `DashMap::insert` for configurations: the key text now maps to the
/// value; no other entry changes.
#[verifier::external_body]
fn config_map_insert(m: &mut ConfigMap, key: String, value: InferenceConfig)
    ensures
        config_entries(*final(m)) == config_entries(*old(m)).insert(key@, value),
{
    m.insert(key, value);
}

/// `DashMap::get` for configurations by key text, cloning the value found.
#[verifier::external_body]
fn config_map_get(m: &ConfigMap, key: &str) -> (r: Option<InferenceConfig>)
    ensures
        r == (if config_entries(*m).dom().contains(key@) {
            Some(config_entries(*m)[key@])
        } else {
            None
        }),
{
    m.get(key).map(|e| e.value().clone())
}

/// The key under which the one inference configuration is kept.
pub open spec fn global_key() -> Seq<char> {
    "global"@
}

/// What the ethereal memory holds.
#[verifier::ext_equal]
pub struct MemoryView {
    pub sessions: Map<u128, Session>,
    pub tasks: Map<u128, Task>,
    pub checkpoints: Map<u128, Checkpoint>,
    pub skills: Map<u128, Skill>,
    pub configs: Map<Seq<char>, InferenceConfig>,
}

/// The value under a key, if any.
pub open spec fn lookup<K, V>(m: Map<K, V>, key: K) -> Option<V> {
    if m.dom().contains(key) {
        Some(m[key])
    } else {
        None
    }
}

impl MemoryView {
    /// The empty memory.
    pub open spec fn empty() -> MemoryView {
        MemoryView {
            sessions: Map::empty(),
            tasks: Map::empty(),
            checkpoints: Map::empty(),
            skills: Map::empty(),
            configs: Map::empty(),
        }
    }

    /// The session stored under `id`, if any.
    pub open spec fn session(self, id: u128) -> Option<Session> {
        lookup(self.sessions, id)
    }

    /// The memory after storing `session` under its id.
    pub open spec fn with_session(self, session: Session) -> MemoryView {
        MemoryView { sessions: self.sessions.insert(session.id, session), ..self }
    }

    /// The task stored under `id`, if any.
    pub open spec fn task(self, id: u128) -> Option<Task> {
        lookup(self.tasks, id)
    }

    /// The memory after storing `task` under its id.
    pub open spec fn with_task(self, task: Task) -> MemoryView {
        MemoryView { tasks: self.tasks.insert(task.id, task), ..self }
    }

    /// The checkpoint stored under `id`, if any.
    pub open spec fn checkpoint(self, id: u128) -> Option<Checkpoint> {
        lookup(self.checkpoints, id)
    }

    /// The memory after storing `checkpoint` under its id.
    pub open spec fn with_checkpoint(self, checkpoint: Checkpoint) -> MemoryView {
        MemoryView { checkpoints: self.checkpoints.insert(checkpoint.id, checkpoint), ..self }
    }

    /// The skill stored under `id`, if any.
    pub open spec fn skill(self, id: u128) -> Option<Skill> {
        lookup(self.skills, id)
    }

    /// The memory after storing `skill` under its id.
    pub open spec fn with_skill(self, skill: Skill) -> MemoryView {
        MemoryView { skills: self.skills.insert(skill.id, skill), ..self }
    }

    /// The stored inference configuration, if one was stored.
    pub open spec fn config(self) -> Option<InferenceConfig> {
        lookup(self.configs, global_key())
    }

    /// The memory after storing `config` as the inference configuration.
    pub open spec fn with_config(self, config: InferenceConfig) -> MemoryView {
        MemoryView { configs: self.configs.insert(global_key(), config), ..self }
    }
}

/// In-memory storage of the runtime's state, one concurrent map per kind
/// of record.
pub struct EtherealMemory {
    sessions: SessionMap,
    tasks: TaskMap,
    checkpoints: CheckpointMap,
    skills: SkillMap,
    inference_config: ConfigMap,
}

impl View for EtherealMemory {
    type V = MemoryView;

    closed spec fn view(&self) -> MemoryView {
        MemoryView {
            sessions: session_entries(self.sessions),
            tasks: task_entries(self.tasks),
            checkpoints: checkpoint_entries(self.checkpoints),
            skills: skill_entries(self.skills),
            configs: config_entries(self.inference_config),
        }
    }
}

impl EtherealMemory {
    /// An empty memory.
    pub fn new() -> (m: Self)
        ensures
            m@ == MemoryView::empty(),
    {
        let m = EtherealMemory {
            sessions: session_map_new(),
            tasks: task_map_new(),
            checkpoints: checkpoint_map_new(),
            skills: skill_map_new(),
            inference_config: config_map_new(),
        };
        assert(m@ =~= MemoryView::empty());
        m
    }

    /// Prepares the memory for use; in memory there is nothing to prepare,
    /// so it always succeeds.
    pub fn init(&self) -> (r: Result<(), MerixError>)
        ensures
            r is Ok,
    {
        Ok(())
    }

    /// Stores a session under its id, replacing any session stored under that id.
    pub fn store_session(&mut self, session: Session)
        ensures
            final(self)@ == old(self)@.with_session(session),
    {
        let id = session.id;
        session_map_insert(&mut self.sessions, id, session);
    }

    /// The session stored under `id`, if any.
    pub fn load_session(&self, id: u128) -> (r: Option<Session>)
        ensures
            r == self@.session(id),
    {
        session_map_get(&self.sessions, id)
    }

    /// Stores a task under its id, replacing any task stored under that id.
    pub fn store_task(&mut self, task: Task)
        ensures
            final(self)@ == old(self)@.with_task(task),
    {
        let id = task.id;
        task_map_insert(&mut self.tasks, id, task);
    }

    /// The task stored under `id`, if any.
    pub fn load_task(&self, id: u128) -> (r: Option<Task>)
        ensures
            r == self@.task(id),
    {
        task_map_get(&self.tasks, id)
    }

    /// Stores a checkpoint under its id, replacing any checkpoint stored under that id.
    pub fn store_checkpoint(&mut self, checkpoint: Checkpoint)
        ensures
            final(self)@ == old(self)@.with_checkpoint(checkpoint),
    {
        let id = checkpoint.id;
        checkpoint_map_insert(&mut self.checkpoints, id, checkpoint);
    }

    /// The checkpoint stored under `id`, if any.
    pub fn load_checkpoint(&self, id: u128) -> (r: Option<Checkpoint>)
        ensures
            r == self@.checkpoint(id),
    {
        checkpoint_map_get(&self.checkpoints, id)
    }

    /// Stores a skill under its id, replacing any skill stored under that id.
    pub fn store_skill(&mut self, skill: Skill)
        ensures
            final(self)@ == old(self)@.with_skill(skill),
    {
        let id = skill.id;
        skill_map_insert(&mut self.skills, id, skill);
    }

    /// The skill stored under `id`, if any.
    pub fn load_skill(&self, id: u128) -> (r: Option<Skill>)
        ensures
            r == self@.skill(id),
    {
        skill_map_get(&self.skills, id)
    }

    /// Stores the inference configuration, replacing the one stored before.
    pub fn store_inference_config(&mut self, config: InferenceConfig)
        ensures
            final(self)@ == old(self)@.with_config(config),
    {
        let key = "global".to_owned();
        proof {
            reveal_strlit("global");
        }
        config_map_insert(&mut self.inference_config, key, config);
    }

    /// The stored inference configuration, if one was stored.
    pub fn load_inference_config(&self) -> (r: Option<InferenceConfig>)
        ensures
            r == self@.config(),
    {
        proof {
            reveal_strlit("global");
        }
        config_map_get(&self.inference_config, "global")
    }
}

/// A record read back from the database with its `id` field (where it
/// has one) replaced by the hyphenated text of the id it was stored under.
pub fn fix_id_in_value(value: serde_json::Value, id: u128) -> (r: serde_json::Value)
    ensures
        r == with_existing_field_of(value, "id"@, json_string_of(uuid_text(id))),
{
    proof {
        reveal_strlit("id");
    }
    let text = uuid_to_string(id);
    set_existing_field(value, "id", json_string(text.as_str()))
}

/// A load gives back what the last store under the same id wrote, and a
/// store under one id leaves every other id, and every other kind of
/// record, as it was.
pub proof fn lemma_load_after_store(m: MemoryView, session: Session, task: Task, checkpoint: Checkpoint, skill: Skill, config: InferenceConfig, id: u128)
    ensures
        m.with_session(session).session(session.id) == Some(session),
        m.with_task(task).task(task.id) == Some(task),
        m.with_checkpoint(checkpoint).checkpoint(checkpoint.id) == Some(checkpoint),
        m.with_skill(skill).skill(skill.id) == Some(skill),
        m.with_config(config).config() == Some(config),
        id != session.id ==> m.with_session(session).session(id) == m.session(id),
        id != task.id ==> m.with_task(task).task(id) == m.task(id),
        id != checkpoint.id ==> m.with_checkpoint(checkpoint).checkpoint(id) == m.checkpoint(id),
        id != skill.id ==> m.with_skill(skill).skill(id) == m.skill(id),
        m.with_session(session).task(id) == m.task(id),
        m.with_task(task).session(id) == m.session(id),
        m.with_checkpoint(checkpoint).task(id) == m.task(id),
        m.with_skill(skill).session(id) == m.session(id),
        m.with_config(config).session(id) == m.session(id),
        m.with_config(config).task(id) == m.task(id),
        m.with_session(session).config() == m.config(),
        m.with_task(task).config() == m.config(),
{
}

} // verus!
