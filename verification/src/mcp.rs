//! The MCP tooling system: tool descriptions, calls and results, the
//! registry of tools with the capabilities each is allowed, and the two
//! built-in tools.

use vstd::prelude::*;
use dashmap::DashMap;
use crate::ids::{parse_uuid, parsed_uuid};
use crate::json::{
    json_array, json_array_of, json_object, json_object_of, json_string, json_string_of, str_field,
    str_field_of,
};
use crate::registry::{apply_ops, last_op_index, lemma_apply_ops, lemma_states_follow_ops, NameTable};

verus! {

/// What a tool is called, what it does, and the JSON schemas of its input
/// and output.
#[derive(Clone, Debug)]
pub struct ToolMetadata {
    pub name: String,
    pub description: String,
    pub input_schema: serde_json::Value,
    pub output_schema: serde_json::Value,
}

/// A request to run a tool on an input.
#[derive(Clone, Debug)]
pub struct ToolCall {
    pub tool_name: String,
    pub input: serde_json::Value,
}

/// What a tool run produced.
#[derive(Clone, Debug)]
pub struct ToolResult {
    pub tool_name: String,
    pub output: serde_json::Value,
    pub success: bool,
    pub error: Option<String>,
}

/// A tool: its description. (Running it, which reaches the memory layer,
/// is the caller's.)
pub trait Tool {
    fn metadata(&self) -> ToolMetadata;
}

/// Why a tool call failed.
#[derive(Clone, Debug)]
pub enum ToolError {
    /// No tool is registered under the name.
    NotFound(String),
    /// The input lacks a required string field.
    MissingField(String),
    /// A field does not hold a UUID.
    InvalidUuid,
}

impl ToolError {
    /// The error's message text.
    pub open spec fn message_spec(self) -> Seq<char> {
        match self {
            ToolError::NotFound(name) => "Tool not found: "@ + name@,
            ToolError::MissingField(field) => field@ + " is required"@,
            ToolError::InvalidUuid => "invalid UUID"@,
        }
    }

    /// The error's message.
    pub fn to_string(&self) -> (s: String)
        ensures
            s@ == self.message_spec(),
    {
        proof {
            reveal_strlit("Tool not found: ");
            reveal_strlit(" is required");
            reveal_strlit("invalid UUID");
        }
        match self {
            ToolError::NotFound(name) => {
                let mut s = "Tool not found: ".to_owned();
                s.append(name.as_str());
                s
            },
            ToolError::MissingField(field) => {
                let mut s = field.clone();
                s.append(" is required");
                s
            },
            ToolError::InvalidUuid => "invalid UUID".to_owned(),
        }
    }
}

/// The capabilities allowed to each tool, by tool name.
pub type PermissionMap = DashMap<String, Vec<String>>;

/// The capabilities that a permission map allows, by tool name.
pub uninterp spec fn permission_entries(m: PermissionMap) -> Map<Seq<char>, Seq<String>>;

/// `DashMap::new` for permissions: an empty map.
#[verifier::external_body]
fn permission_map_new() -> (r: PermissionMap)
    ensures
        permission_entries(r).dom() == Set::<Seq<char>>::empty(),
{
    DashMap::new()
}

/// `DashMap::insert` for permissions: the tool name now maps to the
/// capabilities; no other entry changes.
#[verifier::external_body]
fn permission_map_insert(m: &mut PermissionMap, key: String, value: Vec<String>)
    ensures
        permission_entries(*final(m)) == permission_entries(*old(m)).insert(key@, value@),
{
    m.insert(key, value);
}

/// `DashMap::get` for permissions, reading whether the capabilities under
/// the tool name are empty: `None` where the name has no entry.
#[verifier::external_body]
fn permission_map_is_empty_at(m: &PermissionMap, key: &str) -> (r: Option<bool>)
    ensures
        r == (if permission_entries(*m).dom().contains(key@) {
            Some(permission_entries(*m)[key@].len() == 0)
        } else {
            None
        }),
{
    m.get(key).map(|e| e.value().is_empty())
}

/// The tools, by name, and the capabilities allowed to each.
pub struct ToolRegistry<T> {
    tools: NameTable<T>,
    permissions: PermissionMap,
}

/// A tool ready to run, and whether it runs with no explicit permission
/// (a registered, empty capability list), which the caller warns of.
pub struct Dispatch<'a, T> {
    pub tool: &'a T,
    pub unrestricted: bool,
}

impl<T: Tool> ToolRegistry<T> {
    /// The registry is consistent.
    pub closed spec fn wf(&self) -> bool {
        self.tools.wf()
    }

    /// The registered tools, by name.
    pub closed spec fn tools(&self) -> Map<Seq<char>, T> {
        self.tools.view()
    }

    /// The names of the registered tools, in registration order.
    pub closed spec fn tool_names(&self) -> Seq<Seq<char>> {
        self.tools.names()
    }

    /// The allowed capabilities, by tool name.
    pub closed spec fn permissions(&self) -> Map<Seq<char>, Seq<String>> {
        permission_entries(self.permissions)
    }

    /// An empty registry.
    pub fn new() -> (r: Self)
        ensures
            r.wf(),
            r.tools() == Map::<Seq<char>, T>::empty(),
            r.permissions() == Map::<Seq<char>, Seq<String>>::empty(),
    {
        let r = ToolRegistry { tools: NameTable::new(), permissions: permission_map_new() };
        assert(r.permissions() =~= Map::<Seq<char>, Seq<String>>::empty());
        r
    }

    /// Registers a tool under the name its metadata gives, with the
    /// capabilities it is allowed; a tool already registered under that
    /// name is replaced.
    pub fn register_tool(&mut self, tool: T, allowed_capabilities: Vec<String>)
        requires
            old(self).wf(),
        ensures
            final(self).wf(),
            exists|m: ToolMetadata|
                call_ensures(T::metadata, (&tool,), m)
                    && final(self).tools() == old(self).tools().insert(m.name@, tool)
                    && final(self).permissions() == old(self).permissions().insert(m.name@, allowed_capabilities@),
    {
        let metadata = tool.metadata();
        let ghost m = metadata;
        let name = metadata.name;
        permission_map_insert(&mut self.permissions, name.clone(), allowed_capabilities);
        self.tools.insert(name, tool);
        assert(call_ensures(T::metadata, (&tool,), m) && self.tools() == old(self).tools().insert(m.name@, tool));
    }

    /// The descriptions of the registered tools: for each name, in
    /// registration order, what the tool under it describes itself as.
    pub fn discover_tools(&self) -> (list: Vec<ToolMetadata>)
        requires
            self.wf(),
        ensures
            list@.len() == self.tool_names().len(),
            list@.len() == self.tools().dom().len(),
            self.tool_names().no_duplicates(),
            forall|n: Seq<char>| self.tools().dom().contains(n) <==> self.tool_names().contains(n),
            forall|i: int|
                0 <= i < list@.len() ==> call_ensures(
                    T::metadata,
                    (&self.tools()[self.tool_names()[i]],),
                    #[trigger] list@[i],
                ),
    {
        let mut list: Vec<ToolMetadata> = Vec::new();
        let n = self.tools.len();
        let mut i: usize = 0;
        proof {
            self.tools.lemma_names();
        }
        while i < n
            invariant
                self.tools.wf(),
                n == self.tools.values().len(),
                i <= n,
                list@.len() == i,
                forall|j: int| 0 <= j < i ==> call_ensures(T::metadata, (&self.tools.values()[j],), #[trigger] list@[j]),
            decreases n - i,
        {
            let m = self.tools.value_at(i).metadata();
            list.push(m);
            i = i + 1;
        }
        proof {
            self.tools.lemma_names();
        }
        list
    }

    /// Looks up the tool a call names: the tool, and whether it has no
    /// explicit permission; an error where no tool has that name.
    pub fn prepare_call(&self, call: &ToolCall) -> (r: Result<Dispatch<'_, T>, ToolError>)
        requires
            self.wf(),
        ensures
            match r {
                Ok(d) => self.tools().dom().contains(call.tool_name@) && *d.tool == self.tools()[call.tool_name@]
                    && d.unrestricted == (self.permissions().dom().contains(call.tool_name@)
                        && self.permissions()[call.tool_name@].len() == 0),
                Err(e) => !self.tools().dom().contains(call.tool_name@) && (e matches ToolError::NotFound(n)
                    && n@ == call.tool_name@),
            },
    {
        match self.tools.get(call.tool_name.as_str()) {
            Some(tool) => {
                let unrestricted = match permission_map_is_empty_at(&self.permissions, call.tool_name.as_str()) {
                    Some(empty) => empty,
                    None => false,
                };
                Ok(Dispatch { tool, unrestricted })
            },
            None => Err(ToolError::NotFound(call.tool_name.clone())),
        }
    }
}

/// The registrations of `tools[i]` under `names[i]`, in order, as table
/// operations.
pub open spec fn registration_ops<T>(names: Seq<Seq<char>>, tools: Seq<T>) -> Seq<(Seq<char>, Option<T>)> {
    Seq::new(names.len(), |i: int| (names[i], Some(tools[i])))
}

/// The `k`-th entry of a discovery describes the tool last registered
/// under the `k`-th name: `j` is that registration, no later one uses the
/// name, and the entry is what the tool's `metadata` gave.
pub open spec fn describes_last_registration<T: Tool>(
    names: Seq<Seq<char>>,
    tools: Seq<T>,
    order: Seq<Seq<char>>,
    list: Seq<ToolMetadata>,
    k: int,
) -> bool {
    let j = last_op_index(registration_ops(names, tools), order[k]);
    &&& 0 <= j < names.len()
    &&& names[j] == order[k]
    &&& forall|l: int| j < l < names.len() ==> names[l] != order[k]
    &&& call_ensures(T::metadata, (&tools[j],), list[k])
}

/// Registrations into a registry that starts empty, followed by a
/// discovery: `states` are the registry's tools after each registration
/// (`register_tool` puts the `i`-th tool under `names[i]`, the name its
/// metadata gave); `order` and `list` are what `discover_tools` reports of
/// the last state. Discovery then lists one entry for each distinct name
/// registered, and each entry is what the tool last registered under that
/// name describes itself as.
pub proof fn lemma_discovery_after_registrations<T: Tool>(
    states: Seq<Map<Seq<char>, T>>,
    names: Seq<Seq<char>>,
    tools: Seq<T>,
    order: Seq<Seq<char>>,
    list: Seq<ToolMetadata>,
)
    requires
        names.len() == tools.len(),
        states.len() == names.len() + 1,
        states[0] == Map::<Seq<char>, T>::empty(),
        forall|i: int| 0 <= i < names.len() ==> #[trigger] states[i + 1] == states[i].insert(names[i], tools[i]),
        list.len() == order.len(),
        order.no_duplicates(),
        forall|n: Seq<char>| states.last().dom().contains(n) <==> order.contains(n),
        forall|i: int| 0 <= i < list.len() ==> call_ensures(T::metadata, (&states.last()[order[i]],), #[trigger] list[i]),
    ensures
        forall|n: Seq<char>| order.contains(n) <==> names.contains(n),
        forall|k: int|
            0 <= k < list.len() ==> #[trigger] describes_last_registration(names, tools, order, list, k),
{
    let ops = registration_ops(names, tools);
    assert forall|i: int| 0 <= i < ops.len() implies #[trigger] states[i + 1] == match ops[i].1 {
        Some(v) => states[i].insert(ops[i].0, v),
        None => states[i].remove(ops[i].0),
    } by {
        assert(states[i + 1] == states[i].insert(names[i], tools[i]));
    }
    lemma_states_follow_ops(states, ops);
    assert(ops.take(ops.len() as int) =~= ops);
    assert(states[names.len() as int] == apply_ops(ops));
    assert(states.last() == states[names.len() as int]);
    assert forall|n: Seq<char>| order.contains(n) <==> names.contains(n) by {
        lemma_apply_ops(ops, n);
        let k = last_op_index(ops, n);
        if names.contains(n) {
            let j = choose|j: int| 0 <= j < names.len() && names[j] == n;
            assert(ops[j].0 == n);
            assert(k >= j);
        }
        if k >= 0 {
            assert(names[k] == n);
        }
    }
    assert forall|k: int| 0 <= k < list.len() implies describes_last_registration(names, tools, order, list, k) by {
        let n = order[k];
        assert(order.contains(n));
        lemma_apply_ops(ops, n);
        let j = last_op_index(ops, n);
        assert(j >= 0);
        assert(names[j] == n);
        assert forall|l: int| j < l < names.len() implies names[l] != order[k] by {
            assert(ops[l].0 == names[l]);
        }
        assert(states.last()[n] == tools[j]);
    }
}

/// The schema of an object with one required string property.
pub open spec fn one_string_field_schema(field: Seq<char>) -> serde_json::Value {
    json_object_of(
        seq!["type"@, "properties"@, "required"@],
        seq![
            json_string_of("object"@),
            json_object_of(seq![field], seq![json_object_of(seq!["type"@], seq![json_string_of("string"@)])]),
            json_array_of(seq![json_string_of(field)]),
        ],
    )
}

/// The schema of a string.
pub open spec fn string_schema() -> serde_json::Value {
    json_object_of(seq!["type"@], seq![json_string_of("string"@)])
}

/// The text keys as sequences.
pub open spec fn key_texts(keys: Seq<String>) -> Seq<Seq<char>> {
    keys.map_values(|k: String| k@)
}

/// A JSON object with one key.
fn object1(key: &str, value: serde_json::Value) -> (v: serde_json::Value)
    ensures
        v == json_object_of(seq![key@], seq![value]),
{
    let mut keys: Vec<String> = Vec::new();
    keys.push(key.to_owned());
    let mut values: Vec<serde_json::Value> = Vec::new();
    values.push(value);
    assert(key_texts(keys@) =~= seq![key@]);
    assert(values@ =~= seq![value]);
    json_object(keys, values)
}

/// `{"type": "string"}`.
fn string_schema_value() -> (v: serde_json::Value)
    ensures
        v == string_schema(),
{
    proof {
        reveal_strlit("type");
        reveal_strlit("string");
    }
    object1("type", json_string("string"))
}

/// The schema of an object with one required string property `field`.
fn one_string_field_schema_value(field: &str) -> (v: serde_json::Value)
    ensures
        v == one_string_field_schema(field@),
{
    proof {
        reveal_strlit("type");
        reveal_strlit("properties");
        reveal_strlit("required");
        reveal_strlit("object");
    }
    let property = object1(field, string_schema_value());
    let mut items: Vec<serde_json::Value> = Vec::new();
    items.push(json_string(field));
    assert(items@ =~= seq![json_string_of(field@)]);
    let required = json_array(items);
    let mut keys: Vec<String> = Vec::new();
    keys.push("type".to_owned());
    keys.push("properties".to_owned());
    keys.push("required".to_owned());
    let mut values: Vec<serde_json::Value> = Vec::new();
    values.push(json_string("object"));
    values.push(property);
    values.push(required);
    assert(key_texts(keys@) =~= seq!["type"@, "properties"@, "required"@]);
    assert(values@ =~= seq![json_string_of("object"@), property, required]);
    json_object(keys, values)
}

/// A built-in tool that answers a session's reconstructed context.
pub struct MemoryQueryTool;

/// A built-in test tool that echoes its input's message.
pub struct EchoTool;

impl Tool for MemoryQueryTool {
    fn metadata(&self) -> (m: ToolMetadata)
        ensures
            is_memory_query_metadata(m),
    {
        MemoryQueryTool::describe()
    }
}

impl Tool for EchoTool {
    fn metadata(&self) -> (m: ToolMetadata)
        ensures
            is_echo_metadata(m),
    {
        EchoTool::describe()
    }
}

/// The description of the memory query tool: `memory_query`, taking a
/// `session_id` string and answering a string.
pub open spec fn is_memory_query_metadata(m: ToolMetadata) -> bool {
    &&& m.name@ == "memory_query"@
    &&& m.description@ == "Query the memory layer for context reconstruction"@
    &&& m.input_schema == one_string_field_schema("session_id"@)
    &&& m.output_schema == string_schema()
}

/// The description of the echo tool: `echo`, taking a `message` string and
/// answering a string.
pub open spec fn is_echo_metadata(m: ToolMetadata) -> bool {
    &&& m.name@ == "echo"@
    &&& m.description@ == "Echo input back as output (test tool)"@
    &&& m.input_schema == one_string_field_schema("message"@)
    &&& m.output_schema == string_schema()
}

impl MemoryQueryTool {
    /// The tool's description: `memory_query`, taking a `session_id` string.
    pub fn describe() -> (m: ToolMetadata)
        ensures
            is_memory_query_metadata(m),
    {
        proof {
            reveal_strlit("memory_query");
            reveal_strlit("Query the memory layer for context reconstruction");
            reveal_strlit("session_id");
        }
        ToolMetadata {
            name: "memory_query".to_owned(),
            description: "Query the memory layer for context reconstruction".to_owned(),
            input_schema: one_string_field_schema_value("session_id"),
            output_schema: string_schema_value(),
        }
    }

    /// The session that a query names: the UUID in its `session_id` field;
    /// an error where the field is missing or no UUID.
    pub fn session_to_query(input: &serde_json::Value) -> (r: Result<u128, ToolError>)
        ensures
            match str_field_of(*input, "session_id"@) {
                None => r matches Err(ToolError::MissingField(f)) && f@ == "session_id"@,
                Some(text) => match parsed_uuid(text) {
                    Some(id) => r == Ok::<u128, ToolError>(id),
                    None => r matches Err(ToolError::InvalidUuid),
                },
            },
    {
        proof {
            reveal_strlit("session_id");
        }
        match str_field(input, "session_id") {
            None => MemoryQueryTool::query_session(None, None),
            Some(text) => {
                let parsed = parse_uuid(text.as_str());
                MemoryQueryTool::query_session(Some(text), parsed)
            },
        }
    }

    /// The session a query names, given its `session_id` field (`None`
    /// where missing or no string) and what that text parsed to as a UUID:
    /// the UUID; an error where the field is missing or no UUID.
    pub fn query_session(field: Option<String>, parsed: Option<u128>) -> (r: Result<u128, ToolError>)
        ensures
            match field {
                None => r matches Err(ToolError::MissingField(f)) && f@ == "session_id"@,
                Some(_) => match parsed {
                    Some(id) => r == Ok::<u128, ToolError>(id),
                    None => r matches Err(ToolError::InvalidUuid),
                },
            },
    {
        proof {
            reveal_strlit("session_id");
        }
        match field {
            None => Err(ToolError::MissingField("session_id".to_owned())),
            Some(_) => match parsed {
                Some(id) => Ok(id),
                None => Err(ToolError::InvalidUuid),
            },
        }
    }

    /// The result of a query whose context was reconstructed.
    pub fn answer(context: serde_json::Value) -> (r: ToolResult)
        ensures
            r.tool_name@ == "memory_query"@,
            r.output == context,
            r.success,
            r.error is None,
    {
        proof {
            reveal_strlit("memory_query");
        }
        ToolResult { tool_name: "memory_query".to_owned(), output: context, success: true, error: None }
    }
}

/// The message an echo answers with: the input's `message` string, or a
/// placeholder where it has none.
pub open spec fn echo_message(input: serde_json::Value) -> Seq<char> {
    match str_field_of(input, "message"@) {
        Some(m) => m,
        None => "no message provided"@,
    }
}

impl EchoTool {
    /// The tool's description: `echo`, taking a `message` string.
    pub fn describe() -> (m: ToolMetadata)
        ensures
            is_echo_metadata(m),
    {
        proof {
            reveal_strlit("echo");
            reveal_strlit("Echo input back as output (test tool)");
            reveal_strlit("message");
        }
        ToolMetadata {
            name: "echo".to_owned(),
            description: "Echo input back as output (test tool)".to_owned(),
            input_schema: one_string_field_schema_value("message"),
            output_schema: string_schema_value(),
        }
    }

    /// Runs the echo: the input's message as a JSON string.
    pub fn execute(&self, input: &serde_json::Value) -> (r: ToolResult)
        ensures
            r.tool_name@ == "echo"@,
            r.output == json_string_of(echo_message(*input)),
            r.success,
            r.error is None,
    {
        proof {
            reveal_strlit("echo");
            reveal_strlit("message");
            reveal_strlit("no message provided");
        }
        EchoTool::reply(str_field(input, "message"))
    }

    /// The echo's result, given the input's `message` string (`None` where
    /// missing or no string): that message, or a placeholder, as a JSON string.
    pub fn reply(message: Option<String>) -> (r: ToolResult)
        ensures
            r.tool_name@ == "echo"@,
            r.output == json_string_of(
                match message {
                    Some(m) => m@,
                    None => "no message provided"@,
                },
            ),
            r.success,
            r.error is None,
    {
        proof {
            reveal_strlit("echo");
            reveal_strlit("no message provided");
        }
        let output = match message {
            Some(m) => json_string(m.as_str()),
            None => json_string("no message provided"),
        };
        ToolResult { tool_name: "echo".to_owned(), output, success: true, error: None }
    }
}

} // verus!
