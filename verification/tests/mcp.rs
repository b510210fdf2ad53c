use merix::mcp::{EchoTool, MemoryQueryTool, Tool, ToolCall, ToolError, ToolMetadata, ToolRegistry};

fn obj(pairs: Vec<(&str, serde_json::Value)>) -> serde_json::Value {
    let mut m = serde_json::Map::new();
    for (k, v) in pairs {
        m.insert(k.to_string(), v);
    }
    serde_json::Value::Object(m)
}

fn s(text: &str) -> serde_json::Value {
    serde_json::Value::String(text.to_string())
}

#[test]
fn echo_metadata() {
    let m = EchoTool.metadata();
    assert_eq!(m.name, "echo");
    assert_eq!(m.description, "Echo input back as output (test tool)");
    let expected = obj(vec![
        ("type", s("object")),
        ("properties", obj(vec![("message", obj(vec![("type", s("string"))]))])),
        ("required", serde_json::Value::Array(vec![s("message")])),
    ]);
    assert_eq!(m.input_schema, expected);
    assert_eq!(m.output_schema, obj(vec![("type", s("string"))]));
}

#[test]
fn memory_query_metadata() {
    let m = MemoryQueryTool.metadata();
    assert_eq!(m.name, "memory_query");
    assert_eq!(m.input_schema["required"], serde_json::Value::Array(vec![s("session_id")]));
    assert_eq!(m.input_schema["properties"]["session_id"]["type"], s("string"));
}

#[test]
fn echo_returns_message() {
    let r = EchoTool.execute(&obj(vec![("message", s("hello"))]));
    assert_eq!(r.tool_name, "echo");
    assert_eq!(r.output, s("hello"));
    assert!(r.success);
    assert!(r.error.is_none());
}

#[test]
fn echo_without_message() {
    let r = EchoTool.execute(&obj(vec![("other", s("x"))]));
    assert_eq!(r.output, s("no message provided"));
    let r = EchoTool.execute(&obj(vec![("message", serde_json::Value::from(3u64))]));
    assert_eq!(r.output, s("no message provided"));
}

#[test]
fn memory_query_parses_session() {
    let id = uuid::Uuid::new_v4();
    let got = MemoryQueryTool::session_to_query(&obj(vec![("session_id", s(&id.to_string()))])).unwrap();
    assert_eq!(got, id.as_u128());
    let missing = MemoryQueryTool::session_to_query(&obj(vec![])).unwrap_err();
    assert_eq!(missing.to_string(), "session_id is required");
    let bad = MemoryQueryTool::session_to_query(&obj(vec![("session_id", s("nope"))])).unwrap_err();
    assert_eq!(bad.to_string(), "invalid UUID");
    let answer = MemoryQueryTool::answer(s("ctx"));
    assert_eq!(answer.tool_name, "memory_query");
    assert_eq!(answer.output, s("ctx"));
}

struct Named(&'static str);

impl Tool for Named {
    fn metadata(&self) -> ToolMetadata {
        ToolMetadata {
            name: self.0.to_string(),
            description: String::new(),
            input_schema: serde_json::Value::Null,
            output_schema: serde_json::Value::Null,
        }
    }
}

#[test]
fn registry_register_discover_and_dispatch() {
    let mut reg: ToolRegistry<Named> = ToolRegistry::new();
    assert!(reg.discover_tools().is_empty());
    reg.register_tool(Named("a"), vec!["memory_read".to_string()]);
    reg.register_tool(Named("b"), vec![]);
    reg.register_tool(Named("a"), vec![]);
    let names: Vec<String> = reg.discover_tools().into_iter().map(|m| m.name).collect();
    assert_eq!(names, vec!["a".to_string(), "b".to_string()]);
    let call = ToolCall { tool_name: "b".to_string(), input: serde_json::Value::Null };
    let d = reg.prepare_call(&call).ok().unwrap();
    assert_eq!(d.tool.0, "b");
    assert!(d.unrestricted);
    let missing = ToolCall { tool_name: "zzz".to_string(), input: serde_json::Value::Null };
    match reg.prepare_call(&missing) {
        Err(e @ ToolError::NotFound(_)) => assert_eq!(e.to_string(), "Tool not found: zzz"),
        _ => panic!("not found expected"),
    }
}

#[test]
fn registry_restricted_tool() {
    let mut reg: ToolRegistry<Named> = ToolRegistry::new();
    reg.register_tool(Named("a"), vec!["memory_read".to_string()]);
    let call = ToolCall { tool_name: "a".to_string(), input: serde_json::Value::Null };
    assert!(!reg.prepare_call(&call).ok().unwrap().unrestricted);
}

#[test]
fn echo_reply_from_message_field() {
    let r = EchoTool::reply(Some("hi there".to_string()));
    assert_eq!(r.tool_name, "echo");
    assert_eq!(r.output, s("hi there"));
    assert!(r.success);
    assert!(r.error.is_none());
    let r = EchoTool::reply(None);
    assert_eq!(r.output, s("no message provided"));
}

#[test]
fn query_session_from_field_and_parse() {
    assert_eq!(MemoryQueryTool::query_session(Some("x".to_string()), Some(42)).unwrap(), 42);
    let missing = MemoryQueryTool::query_session(None, None).unwrap_err();
    assert!(matches!(&missing, ToolError::MissingField(f) if f == "session_id"));
    assert_eq!(missing.to_string(), "session_id is required");
    let bad = MemoryQueryTool::query_session(Some("nope".to_string()), None).unwrap_err();
    assert!(matches!(bad, ToolError::InvalidUuid));
}
