use uzu_llm::handle::{GenerateResponse, ModelHandle};
use uzu_llm::registry::{ModelRegistry, RegistryError};

fn handle(name: &str, size: u64) -> ModelHandle {
    ModelHandle { name: name.to_string(), size }
}

fn response(text: &str, tokens: u64, stopped: bool, reason: &str) -> GenerateResponse {
    GenerateResponse {
        text: text.to_string(),
        tokens_generated: tokens,
        stopped,
        stop_reason: reason.to_string(),
    }
}

#[test]
fn unload_never_loaded_fails_and_registry_unchanged() {
    let mut reg = ModelRegistry::new();
    let r = reg.unload_model("never.bin");
    match r {
        Err(RegistryError::NotLoaded { path }) => assert_eq!(path, "never.bin"),
        _ => panic!("expected NotLoaded"),
    }
    assert_eq!(reg.list_models().len(), 0);

    // also from a non-empty registry
    reg.load_model("other.bin", Ok(handle("other", 1))).unwrap();
    let before = reg.list_models();
    assert!(reg.unload_model("never.bin").is_err());
    assert_eq!(reg.list_models(), before);
}

#[test]
fn load_twice_is_idempotent() {
    let mut reg = ModelRegistry::new();
    assert!(reg.load_model("m.bin", Ok(handle("m", 7))).is_ok());
    assert!(reg.load_model("m.bin", Ok(handle("m2", 9))).is_ok());
    assert_eq!(reg.list_models(), vec!["m.bin".to_string()]);
    // the first handle is kept, never reloaded
    let info = reg.model_info("m.bin").unwrap();
    assert_eq!(info.name, "m");
    assert_eq!(info.size, 7);
    assert!(info.loaded);
}

#[test]
fn load_failure_leaves_registry_unchanged() {
    let mut reg = ModelRegistry::new();
    let r = reg.load_model("bad.bin", Err("unsupported format".to_string()));
    match r {
        Err(RegistryError::LoadFailure { reason }) => assert_eq!(reason, "unsupported format"),
        _ => panic!("expected LoadFailure"),
    }
    assert_eq!(reg.list_models().len(), 0);
}

#[test]
fn generate_auto_loads_and_matches_explicit_load() {
    // generate on a never-loaded path
    let mut direct = ModelRegistry::new();
    let r1 = direct.generate_text(
        "m.bin",
        Ok(handle("m", 7)),
        Ok(response("hi", 2, true, "eos")),
    );

    // explicit load, then the same generation
    let mut staged = ModelRegistry::new();
    staged.load_model("m.bin", Ok(handle("m", 7))).unwrap();
    let r2 = staged.generate_text(
        "m.bin",
        Ok(handle("m", 7)),
        Ok(response("hi", 2, true, "eos")),
    );

    assert_eq!(r1, r2);
    assert_eq!(direct.list_models(), staged.list_models());
}

#[test]
fn list_after_loading_two_and_unloading_one() {
    let mut reg = ModelRegistry::new();
    reg.load_model("a.bin", Ok(handle("a", 1))).unwrap();
    reg.load_model("b.bin", Ok(handle("b", 2))).unwrap();
    reg.unload_model("a.bin").unwrap();
    assert_eq!(reg.list_models(), vec!["b.bin".to_string()]);
}

#[test]
fn list_keeps_insertion_order() {
    let mut reg = ModelRegistry::new();
    reg.load_model("z.bin", Ok(handle("z", 1))).unwrap();
    reg.load_model("a.bin", Ok(handle("a", 2))).unwrap();
    reg.load_model("m.bin", Ok(handle("m", 3))).unwrap();
    assert_eq!(
        reg.list_models(),
        vec!["z.bin".to_string(), "a.bin".to_string(), "m.bin".to_string()]
    );
}

#[test]
fn paths_are_exact_strings() {
    let mut reg = ModelRegistry::new();
    reg.load_model("./m.bin", Ok(handle("m", 1))).unwrap();
    assert!(!reg.contains_model("m.bin"));
    assert!(reg.contains_model("./m.bin"));
}

#[test]
fn generation_failure_keeps_handle_registered() {
    let mut reg = ModelRegistry::new();
    let r = reg.generate_text(
        "m.bin",
        Ok(handle("m", 7)),
        Err("backend out of memory".to_string()),
    );
    assert_eq!(r, Err("Generation failed: backend out of memory".to_string()));
    assert!(reg.contains_model("m.bin"));
}

#[test]
fn scenario_load_then_list() {
    let mut reg = ModelRegistry::new();
    assert!(reg.load_model("m.bin", Ok(handle("m", 42))).is_ok());
    assert_eq!(reg.list_models(), vec!["m.bin".to_string()]);
}

#[test]
fn scenario_generate_without_prior_load() {
    let mut reg = ModelRegistry::new();
    let out = reg
        .generate_text(
            "m.bin",
            Ok(handle("m", 42)),
            Ok(response("Hello back", 16, true, "max_tokens")),
        )
        .unwrap();
    let v: serde_json::Value = serde_json::from_str(&out).unwrap();
    let tokens = v.get("tokens_generated").and_then(|t| t.as_u64()).unwrap();
    assert!(tokens <= 16);
    assert!(reg.contains_model("m.bin"));
}

#[test]
fn scenario_info_on_failing_construction() {
    let mut reg = ModelRegistry::new();
    let r = reg.get_model_info("missing.bin", Err("no such file".to_string()));
    assert_eq!(r, Err("Failed to load model: no such file".to_string()));
    assert!(!reg.list_models().contains(&"missing.bin".to_string()));
}

#[test]
fn scenario_unload_then_unload_again() {
    let mut reg = ModelRegistry::new();
    reg.load_model("m.bin", Ok(handle("m", 42))).unwrap();
    assert!(reg.unload_model("m.bin").is_ok());
    let again = reg.unload_model("m.bin");
    match again {
        Err(RegistryError::NotLoaded { path }) => assert_eq!(path, "m.bin"),
        _ => panic!("expected NotLoaded"),
    }
}

#[test]
fn info_reports_handle_metadata() {
    let mut reg = ModelRegistry::new();
    let out = reg.get_model_info("m.bin", Ok(handle("tiny-llm", 123456))).unwrap();
    assert_eq!(out, "{\"loaded\":true,\"name\":\"tiny-llm\",\"size\":123456}");
}

#[test]
fn error_messages_match_reporting_format() {
    let e1 = RegistryError::LoadFailure { reason: "boom".to_string() };
    assert_eq!(e1.message(), "Failed to load model: boom");
    let e2 = RegistryError::NotLoaded { path: "x.bin".to_string() };
    assert_eq!(e2.message(), "Model not loaded: x.bin");
}
