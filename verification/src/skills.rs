//! Skills: their descriptions, the registry that loads and unloads them,
//! and the built-in context analyzer.

use vstd::prelude::*;
use crate::json::{json_number, json_number_of, json_object, json_object_of, json_string, json_string_of};
use crate::mcp::{ToolCall};
use crate::registry::{apply_ops, last_op_index, lemma_apply_ops, lemma_states_follow_ops, NameTable};
use crate::schemas::SessionId;

verus! {

/// What a skill is called, its version, what it does, who wrote it, and
/// the capabilities it uses (such as `memory_read` or `tool_call`).
#[derive(Clone, Debug)]
pub struct SkillMetadata {
    pub name: String,
    pub version: String,
    pub description: String,
    pub author: String,
    pub capabilities: Vec<String>,
}

/// A skill's description and the entry point it is loaded from.
#[derive(Clone, Debug)]
pub struct SkillManifest {
    pub metadata: SkillMetadata,
    pub entrypoint: String,
}

/// A skill: its description. (Running it, which reaches the memory layer
/// and the tools, is the caller's.)
pub trait Skill {
    fn metadata(&self) -> SkillMetadata;
}

/// Why a skill could not run or be unloaded.
#[derive(Clone, Debug)]
pub enum SkillError {
    /// No skill is registered under the name.
    NotFound(String),
    /// The skill needs a session and none was given.
    SessionRequired,
}

impl SkillError {
    /// The error's message text.
    pub open spec fn message_spec(self) -> Seq<char> {
        match self {
            SkillError::NotFound(name) => "Skill not found: "@ + name@,
            SkillError::SessionRequired => "session_id required"@,
        }
    }

    /// The error's message.
    pub fn to_string(&self) -> (s: String)
        ensures
            s@ == self.message_spec(),
    {
        proof {
            reveal_strlit("Skill not found: ");
            reveal_strlit("session_id required");
        }
        match self {
            SkillError::NotFound(name) => {
                let mut s = "Skill not found: ".to_owned();
                s.append(name.as_str());
                s
            },
            SkillError::SessionRequired => "session_id required".to_owned(),
        }
    }
}

/// The registered skills, by name.
pub struct SkillRegistry<S> {
    skills: NameTable<S>,
}

impl<S: Skill> SkillRegistry<S> {
    /// The registry is consistent.
    pub closed spec fn wf(&self) -> bool {
        self.skills.wf()
    }

    /// The registered skills, by name.
    pub closed spec fn skills(&self) -> Map<Seq<char>, S> {
        self.skills.view()
    }

    /// An empty registry.
    pub fn new() -> (r: Self)
        ensures
            r.wf(),
            r.skills() == Map::<Seq<char>, S>::empty(),
    {
        SkillRegistry { skills: NameTable::new() }
    }

    /// Registers a skill under the name its metadata gives, replacing a
    /// skill registered under that name.
    pub fn register_skill(&mut self, skill: S)
        requires
            old(self).wf(),
        ensures
            final(self).wf(),
            exists|m: SkillMetadata|
                call_ensures(S::metadata, (&skill,), m) && final(self).skills() == old(self).skills().insert(m.name@, skill),
    {
        let metadata = skill.metadata();
        let ghost m = metadata;
        let name = metadata.name;
        self.skills.insert(name, skill);
        assert(call_ensures(S::metadata, (&skill,), m) && self.skills() == old(self).skills().insert(m.name@, skill));
    }

    /// The names of the registered skills, in registration order.
    pub closed spec fn skill_names(&self) -> Seq<Seq<char>> {
        self.skills.names()
    }

    /// The descriptions of the registered skills: for each name, in
    /// registration order, what the skill under it describes itself as.
    pub fn list_skills(&self) -> (list: Vec<SkillMetadata>)
        requires
            self.wf(),
        ensures
            list@.len() == self.skill_names().len(),
            list@.len() == self.skills().dom().len(),
            self.skill_names().no_duplicates(),
            forall|n: Seq<char>| self.skills().dom().contains(n) <==> self.skill_names().contains(n),
            forall|i: int|
                0 <= i < list@.len() ==> call_ensures(
                    S::metadata,
                    (&self.skills()[self.skill_names()[i]],),
                    #[trigger] list@[i],
                ),
    {
        let mut list: Vec<SkillMetadata> = Vec::new();
        let n = self.skills.len();
        proof {
            self.skills.lemma_names();
        }
        let mut i: usize = 0;
        while i < n
            invariant
                self.skills.wf(),
                n == self.skills.values().len(),
                i <= n,
                list@.len() == i,
                forall|j: int| 0 <= j < i ==> call_ensures(S::metadata, (&self.skills.values()[j],), #[trigger] list@[j]),
            decreases n - i,
        {
            let m = self.skills.value_at(i).metadata();
            list.push(m);
            i = i + 1;
        }
        proof {
            self.skills.lemma_names();
        }
        list
    }

    /// The skill to execute under `skill_name`; an error where none is
    /// registered under it.
    pub fn find_skill(&self, skill_name: &str) -> (r: Result<&S, SkillError>)
        requires
            self.wf(),
        ensures
            match r {
                Ok(s) => self.skills().dom().contains(skill_name@) && *s == self.skills()[skill_name@],
                Err(e) => !self.skills().dom().contains(skill_name@) && (e matches SkillError::NotFound(n)
                    && n@ == skill_name@),
            },
    {
        match self.skills.get(skill_name) {
            Some(s) => Ok(s),
            None => Err(SkillError::NotFound(skill_name.to_owned())),
        }
    }

    /// Unloads the skill under `skill_name`; an error where none is
    /// registered under it.
    pub fn unload_skill(&mut self, skill_name: &str) -> (r: Result<(), SkillError>)
        requires
            old(self).wf(),
        ensures
            final(self).wf(),
            final(self).skills() == old(self).skills().remove(skill_name@),
            r is Ok <==> old(self).skills().dom().contains(skill_name@),
            r matches Err(e) ==> (e matches SkillError::NotFound(n) && n@ == skill_name@),
    {
        if self.skills.remove(skill_name) {
            Ok(())
        } else {
            Err(SkillError::NotFound(skill_name.to_owned()))
        }
    }
}

/// Registrations and unloads on a registry that starts empty: `states`
/// are the registry's skills after each operation (`register_skill` puts
/// `ops[i]`'s skill under `ops[i]`'s name, the name its metadata gave;
/// `unload_skill` of a name removes it, as `(name, None)`). Afterwards a
/// name is found (by `find_skill`, and listed by `list_skills`) exactly
/// when the last operation on it was a registration, and it finds the
/// skill so registered; a name never registered, or unloaded since, is not
/// found and its unload fails.
pub proof fn lemma_skills_after_operations<S>(states: Seq<Map<Seq<char>, S>>, ops: Seq<(Seq<char>, Option<S>)>)
    requires
        states.len() == ops.len() + 1,
        states[0] == Map::<Seq<char>, S>::empty(),
        forall|i: int|
            0 <= i < ops.len() ==> #[trigger] states[i + 1] == match ops[i].1 {
                Some(v) => states[i].insert(ops[i].0, v),
                None => states[i].remove(ops[i].0),
            },
    ensures
        forall|n: Seq<char>|
            #[trigger] states.last().dom().contains(n) <==> (last_op_index(ops, n) >= 0
                && ops[last_op_index(ops, n)].1 is Some),
        forall|n: Seq<char>|
            #[trigger] states.last().dom().contains(n) ==> states.last()[n] == ops[last_op_index(ops, n)].1->Some_0,
{
    lemma_states_follow_ops(states, ops);
    assert(ops.take(ops.len() as int) =~= ops);
    assert(states[ops.len() as int] == apply_ops(ops));
    assert(states.last() == states[ops.len() as int]);
    assert forall|n: Seq<char>|
        #[trigger] states.last().dom().contains(n) <==> (last_op_index(ops, n) >= 0
            && ops[last_op_index(ops, n)].1 is Some) by {
        lemma_apply_ops(ops, n);
    }
    assert forall|n: Seq<char>|
        #[trigger] states.last().dom().contains(n) implies states.last()[n] == ops[last_op_index(ops, n)].1->Some_0 by {
        lemma_apply_ops(ops, n);
    }
}

/// The decimal digits of a number.
pub open spec fn decimal_text(n: nat) -> Seq<char>
    decreases n,
{
    if n < 10 {
        seq![(n + 48) as char]
    } else {
        decimal_text(n / 10).push(((n % 10) + 48) as char)
    }
}

/// The digit character of a value below ten.
fn digit_text(d: usize) -> (s: &'static str)
    requires
        d < 10,
    ensures
        s@ == seq![((d as nat) + 48) as char],
{
    proof {
        reveal_strlit("0");
        reveal_strlit("1");
        reveal_strlit("2");
        reveal_strlit("3");
        reveal_strlit("4");
        reveal_strlit("5");
        reveal_strlit("6");
        reveal_strlit("7");
        reveal_strlit("8");
        reveal_strlit("9");
    }
    let s = match d {
        0 => "0",
        1 => "1",
        2 => "2",
        3 => "3",
        4 => "4",
        5 => "5",
        6 => "6",
        7 => "7",
        8 => "8",
        _ => "9",
    };
    assert(s@ =~= seq![((d as nat) + 48) as char]);
    s
}

/// The decimal text of a number.
fn usize_to_string(n: usize) -> (s: String)
    ensures
        s@ == decimal_text(n as nat),
    decreases n,
{
    if n < 10 {
        digit_text(n).to_owned()
    } else {
        let mut s = usize_to_string(n / 10);
        s.append(digit_text(n % 10));
        assert(s@ =~= decimal_text((n / 10) as nat).push(((n % 10) as nat + 48) as char));
        s
    }
}

/// The built-in skill that analyzes a session's context and suggests the
/// next step, through the memory layer and the `echo` tool.
pub struct ContextAnalyzerSkill;

impl Skill for ContextAnalyzerSkill {
    fn metadata(&self) -> (m: SkillMetadata)
        ensures
            is_context_analyzer_metadata(m),
    {
        ContextAnalyzerSkill::describe()
    }
}

/// The description of the context analyzer: its name, version, purpose,
/// author, and the capabilities `memory_read` and `tool_call`.
pub open spec fn is_context_analyzer_metadata(m: SkillMetadata) -> bool {
    &&& m.name@ == "context_analyzer"@
    &&& m.version@ == "0.1.0"@
    &&& m.description@ == "Analyzes session context and suggests next steps using memory + tools"@
    &&& m.author@ == "Merix Core"@
    &&& m.capabilities@.len() == 2
    &&& m.capabilities@[0]@ == "memory_read"@
    &&& m.capabilities@[1]@ == "tool_call"@
}

/// The suggestion that a context analysis ends with.
pub open spec fn suggestion_text() -> Seq<char> {
    "Task decomposition complete \u{2013} ready for next step"@
}

impl ContextAnalyzerSkill {
    /// The skill's description.
    pub fn describe() -> (m: SkillMetadata)
        ensures
            is_context_analyzer_metadata(m),
    {
        proof {
            reveal_strlit("context_analyzer");
            reveal_strlit("0.1.0");
            reveal_strlit("Analyzes session context and suggests next steps using memory + tools");
            reveal_strlit("Merix Core");
            reveal_strlit("memory_read");
            reveal_strlit("tool_call");
        }
        let mut capabilities: Vec<String> = Vec::new();
        capabilities.push("memory_read".to_owned());
        capabilities.push("tool_call".to_owned());
        SkillMetadata {
            name: "context_analyzer".to_owned(),
            version: "0.1.0".to_owned(),
            description: "Analyzes session context and suggests next steps using memory + tools".to_owned(),
            author: "Merix Core".to_owned(),
            capabilities,
        }
    }

    /// The session the analysis runs on; an error where none was given.
    pub fn required_session(session_id: Option<SessionId>) -> (r: Result<SessionId, SkillError>)
        ensures
            match session_id {
                Some(id) => r matches Ok(got) && got == id,
                None => r matches Err(SkillError::SessionRequired),
            },
    {
        match session_id {
            Some(id) => Ok(id),
            None => Err(SkillError::SessionRequired),
        }
    }

    /// The `echo` call that summarizes a context of `context_len` characters:
    /// its message is `Context summary: <context_len>`.
    pub fn summary_call(context_len: usize) -> (c: ToolCall)
        ensures
            c.tool_name@ == "echo"@,
            c.input == json_object_of(
                seq!["message"@],
                seq![json_string_of("Context summary: "@ + decimal_text(context_len as nat))],
            ),
    {
        proof {
            reveal_strlit("echo");
            reveal_strlit("message");
            reveal_strlit("Context summary: ");
        }
        let mut message = "Context summary: ".to_owned();
        let digits = usize_to_string(context_len);
        message.append(digits.as_str());
        let mut keys: Vec<String> = Vec::new();
        keys.push("message".to_owned());
        let mut values: Vec<serde_json::Value> = Vec::new();
        values.push(json_string(message.as_str()));
        assert(keys@.map_values(|k: String| k@) =~= seq!["message"@]);
        assert(values@ =~= seq![json_string_of("Context summary: "@ + decimal_text(context_len as nat))]);
        ToolCall { tool_name: "echo".to_owned(), input: json_object(keys, values) }
    }

    /// The analysis: the context's length, the tool's output, and the
    /// suggested next step.
    pub fn analysis(context_len: u64, tool_output: serde_json::Value) -> (v: serde_json::Value)
        ensures
            v == json_object_of(
                seq!["context_length"@, "tool_result"@, "suggestion"@],
                seq![json_number_of(context_len), tool_output, json_string_of(suggestion_text())],
            ),
    {
        proof {
            reveal_strlit("context_length");
            reveal_strlit("tool_result");
            reveal_strlit("suggestion");
            reveal_strlit("Task decomposition complete \u{2013} ready for next step");
        }
        let mut keys: Vec<String> = Vec::new();
        keys.push("context_length".to_owned());
        keys.push("tool_result".to_owned());
        keys.push("suggestion".to_owned());
        let mut values: Vec<serde_json::Value> = Vec::new();
        values.push(json_number(context_len));
        values.push(tool_output);
        values.push(json_string("Task decomposition complete \u{2013} ready for next step"));
        assert(keys@.map_values(|k: String| k@) =~= seq!["context_length"@, "tool_result"@, "suggestion"@]);
        assert(values@ =~= seq![json_number_of(context_len), tool_output, json_string_of(suggestion_text())]);
        json_object(keys, values)
    }
}

} // verus!
