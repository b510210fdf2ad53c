use merix::skills::{ContextAnalyzerSkill, Skill, SkillError, SkillManifest, SkillMetadata, SkillRegistry};

struct Named(&'static str);

impl Skill for Named {
    fn metadata(&self) -> SkillMetadata {
        SkillMetadata {
            name: self.0.to_string(),
            version: "1".to_string(),
            description: String::new(),
            author: String::new(),
            capabilities: vec![],
        }
    }
}

#[test]
fn context_analyzer_metadata() {
    let m = ContextAnalyzerSkill.metadata();
    assert_eq!(m.name, "context_analyzer");
    assert_eq!(m.version, "0.1.0");
    assert_eq!(m.author, "Merix Core");
    assert_eq!(m.capabilities, vec!["memory_read".to_string(), "tool_call".to_string()]);
    let manifest = SkillManifest { metadata: m, entrypoint: "main".to_string() };
    assert_eq!(manifest.entrypoint, "main");
}

#[test]
fn context_analyzer_pieces() {
    assert_eq!(ContextAnalyzerSkill::required_session(Some(9)).ok(), Some(9));
    let err = ContextAnalyzerSkill::required_session(None).unwrap_err();
    assert_eq!(err.to_string(), "session_id required");
    let call = ContextAnalyzerSkill::summary_call(123);
    assert_eq!(call.tool_name, "echo");
    assert_eq!(call.input["message"], serde_json::Value::String("Context summary: 123".to_string()));
    let out = ContextAnalyzerSkill::analysis(123, serde_json::Value::Bool(true));
    assert_eq!(out["context_length"], serde_json::Value::from(123u64));
    assert_eq!(out["tool_result"], serde_json::Value::Bool(true));
    assert_eq!(
        out["suggestion"],
        serde_json::Value::String("Task decomposition complete \u{2013} ready for next step".to_string())
    );
}

#[test]
fn summary_of_zero_context() {
    let call = ContextAnalyzerSkill::summary_call(0);
    assert_eq!(call.input["message"], serde_json::Value::String("Context summary: 0".to_string()));
}

#[test]
fn skill_registry_lifecycle() {
    let mut reg: SkillRegistry<Named> = SkillRegistry::new();
    assert!(reg.list_skills().is_empty());
    reg.register_skill(Named("x"));
    reg.register_skill(Named("y"));
    reg.register_skill(Named("x"));
    assert_eq!(reg.list_skills().len(), 2);
    assert_eq!(reg.find_skill("y").ok().unwrap().0, "y");
    assert!(reg.unload_skill("x").is_ok());
    match reg.unload_skill("x") {
        Err(e @ SkillError::NotFound(_)) => assert_eq!(e.to_string(), "Skill not found: x"),
        _ => panic!("not found expected"),
    }
    match reg.find_skill("x") {
        Err(e) => assert_eq!(e.to_string(), "Skill not found: x"),
        Ok(_) => panic!("unloaded"),
    }
    assert_eq!(reg.list_skills().len(), 1);
}
