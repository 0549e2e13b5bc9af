use uzu_llm::cli::{parse_cli_command, run_cli_command, tokenize, CliCommand, CliOptions};
use uzu_llm::dispatch::{
    cli_invoke, cli_list_methods, inference_invoke, inference_list_methods, ServiceFailure,
};
use uzu_llm::handle::{GenerateResponse, ModelHandle};
use uzu_llm::jsonarg::decode_generate_args;
use uzu_llm::jsonout::{generate_response_json, string_list_json};
use uzu_llm::registry::ModelRegistry;

fn handle(name: &str, size: u64) -> ModelHandle {
    ModelHandle { name: name.to_string(), size }
}

fn response(text: &str, tokens: u64, stopped: bool, reason: &str) -> GenerateResponse {
    GenerateResponse {
        text: text.to_string(),
        tokens_generated: tokens,
        stopped,
        stop_reason: reason.to_string(),
    }
}

fn ok_engine() -> (Result<ModelHandle, String>, Result<GenerateResponse, String>) {
    (Ok(handle("m", 7)), Ok(response("out", 3, true, "eos")))
}

fn no_options() -> CliOptions {
    CliOptions { max_tokens: None, temperature: None }
}

#[test]
fn tokenize_splits_on_whitespace_runs() {
    let toks = tokenize("  load \t m.bin \n");
    assert_eq!(toks, vec!["load".to_string(), "m.bin".to_string()]);
    assert_eq!(tokenize(""), Vec::<String>::new());
    assert_eq!(tokenize("   \t "), Vec::<String>::new());
}

#[test]
fn parse_joins_prompt_with_single_spaces() {
    match parse_cli_command("generate m.bin  tell me   a story ", &no_options()).unwrap() {
        CliCommand::Generate { path, prompt, max_tokens, temperature } => {
            assert_eq!(path, "m.bin");
            assert_eq!(prompt, "tell me a story");
            assert_eq!(max_tokens, None);
            assert_eq!(temperature, None);
        }
        _ => panic!("expected generate"),
    }
}

#[test]
fn parse_carries_the_options_map_into_generate() {
    let options = CliOptions { max_tokens: Some(16), temperature: Some("0.7".to_string()) };
    match parse_cli_command("generate m.bin hello", &options).unwrap() {
        CliCommand::Generate { path, prompt, max_tokens, temperature } => {
            assert_eq!(path, "m.bin");
            assert_eq!(prompt, "hello");
            assert_eq!(max_tokens, Some(16));
            assert_eq!(temperature, Some("0.7".to_string()));
        }
        _ => panic!("expected generate"),
    }
    // the options belong to generate alone; other commands ignore them
    assert!(matches!(
        parse_cli_command("load m.bin", &options),
        Ok(CliCommand::Load { .. })
    ));
}

#[test]
fn help_and_empty_report_usage_summary() {
    let mut reg = ModelRegistry::new();
    let (built, gen) = ok_engine();
    let summary = run_cli_command(&mut reg, "help", &no_options(), built, gen).unwrap();
    assert!(summary.starts_with("Commands: load <model-path>"));
    let (built, gen) = ok_engine();
    assert_eq!(run_cli_command(&mut reg, "  ", &no_options(), built, gen), Ok(summary));
    assert!(matches!(parse_cli_command("", &no_options()), Ok(CliCommand::Help)));
    assert_eq!(reg.list_models().len(), 0);
}

#[test]
fn parse_rejects_incomplete_commands() {
    assert_eq!(parse_cli_command("load", &no_options()).err(), Some("Usage: load <model-path>".to_string()));
    assert_eq!(parse_cli_command("unload", &no_options()).err(), Some("Usage: unload <model-path>".to_string()));
    assert_eq!(
        parse_cli_command("generate m.bin", &no_options()).err(),
        Some("Usage: generate <model-path> <prompt> [--max-tokens <n>]".to_string())
    );
    assert_eq!(parse_cli_command("info", &no_options()).err(), Some("Usage: info <model-path>".to_string()));
    assert_eq!(
        parse_cli_command("frobnicate x", &no_options()).err(),
        Some("Unknown command: frobnicate".to_string())
    );
}

#[test]
fn cli_load_unload_list_round_trip() {
    let mut reg = ModelRegistry::new();
    let (built, gen) = ok_engine();
    let r = run_cli_command(&mut reg, "load m.bin", &no_options(), built, gen);
    assert_eq!(r, Ok("Model loaded: m.bin".to_string()));

    let (built, gen) = ok_engine();
    let r = run_cli_command(&mut reg, "list", &no_options(), built, gen);
    assert_eq!(r, Ok("[\"m.bin\"]".to_string()));

    let (built, gen) = ok_engine();
    let r = run_cli_command(&mut reg, "unload m.bin", &no_options(), built, gen);
    assert_eq!(r, Ok("Model unloaded: m.bin".to_string()));

    let (built, gen) = ok_engine();
    let r = run_cli_command(&mut reg, "unload m.bin", &no_options(), built, gen);
    assert_eq!(r, Err("Model not loaded: m.bin".to_string()));
}

#[test]
fn cli_generate_and_info_auto_load() {
    let mut reg = ModelRegistry::new();
    let (built, gen) = ok_engine();
    let r = run_cli_command(&mut reg, "generate m.bin hello there", &no_options(), built, gen).unwrap();
    assert_eq!(
        r,
        "{\"stop_reason\":\"eos\",\"stopped\":true,\"text\":\"out\",\"tokens_generated\":3}"
    );
    let (built, gen) = ok_engine();
    let r = run_cli_command(&mut reg, "info m.bin", &no_options(), built, gen).unwrap();
    assert_eq!(r, "{\"loaded\":true,\"name\":\"m\",\"size\":7}");
    assert_eq!(reg.list_models(), vec!["m.bin".to_string()]);
}

#[test]
fn cli_invoke_routes_methods() {
    let mut reg = ModelRegistry::new();
    let (built, gen) = ok_engine();
    let r = cli_invoke(&mut reg, "run_command", "load m.bin", &no_options(), built, gen);
    assert_eq!(r.ok(), Some("Model loaded: m.bin".to_string()));

    let (built, gen) = ok_engine();
    let r = cli_invoke(&mut reg, "list_commands", "", &no_options(), built, gen).ok().unwrap();
    // the summary is itself a JSON document listing the five commands
    let v: serde_json::Value = serde_json::from_str(&r).unwrap();
    let arr = v.as_array().unwrap();
    assert_eq!(arr.len(), 5);
    assert_eq!(arr[0].get("name").and_then(|n| n.as_str()), Some("load"));
    assert_eq!(arr[3].get("usage").and_then(|n| n.as_str()),
        Some("generate <model-path> <prompt> [--max-tokens <n>] [--temperature <t>]"));

    let (built, gen) = ok_engine();
    match cli_invoke(&mut reg, "bogus", "", &no_options(), built, gen) {
        Err(ServiceFailure::MethodNotFound { method }) => assert_eq!(method, "bogus"),
        _ => panic!("expected MethodNotFound"),
    }
}

#[test]
fn inference_invoke_generates_from_json_payload() {
    let mut reg = ModelRegistry::new();
    let (built, gen) = ok_engine();
    let payload = "{\"model_path\":\"m.bin\",\"prompt\":\"Hello\",\"max_tokens\":16}";
    let r = inference_invoke(&mut reg, "generate", payload, built, gen);
    assert_eq!(
        r.ok(),
        Some("{\"stop_reason\":\"eos\",\"stopped\":true,\"text\":\"out\",\"tokens_generated\":3}"
            .to_string())
    );
    assert!(reg.contains_model("m.bin"));
}

#[test]
fn inference_invoke_rejects_bad_payload_and_method() {
    let mut reg = ModelRegistry::new();
    let (built, gen) = ok_engine();
    match inference_invoke(&mut reg, "generate", "not json", built, gen) {
        Err(ServiceFailure::Invocation { .. }) => {}
        _ => panic!("expected Invocation error"),
    }
    assert_eq!(reg.list_models().len(), 0);

    let (built, gen) = ok_engine();
    match inference_invoke(&mut reg, "embed", "{}", built, gen) {
        Err(ServiceFailure::MethodNotFound { method }) => assert_eq!(method, "embed"),
        _ => panic!("expected MethodNotFound"),
    }
}

#[test]
fn decode_accepts_full_and_minimal_payloads() {
    let (path, req) = decode_generate_args(
        "{\"model_path\":\"m.bin\",\"prompt\":\"Hi\",\"max_tokens\":8,\"temperature\":0.7}",
    )
    .unwrap();
    assert_eq!(path, "m.bin");
    assert_eq!(req.prompt, "Hi");
    assert_eq!(req.max_tokens, Some(8));
    assert_eq!(req.temperature, Some("0.7".to_string()));

    let (path, req) =
        decode_generate_args("{\"model_path\":\"m.bin\",\"prompt\":\"Hi\"}").unwrap();
    assert_eq!(path, "m.bin");
    assert_eq!(req.max_tokens, None);
    assert_eq!(req.temperature, None);

    let (_, req) = decode_generate_args(
        "{\"model_path\":\"m.bin\",\"prompt\":\"Hi\",\"max_tokens\":null,\"temperature\":null}",
    )
    .unwrap();
    assert_eq!(req.max_tokens, None);
    assert_eq!(req.temperature, None);

    // the temperature text is the parsed value rendered back, not the
    // spelling the payload used
    let (_, req) = decode_generate_args(
        "{\"model_path\":\"m.bin\",\"prompt\":\"Hi\",\"temperature\":0.70}",
    )
    .unwrap();
    assert_eq!(req.temperature, Some("0.7".to_string()));
}

#[test]
fn decode_rejects_missing_or_mistyped_fields() {
    assert_eq!(
        decode_generate_args("{\"prompt\":\"Hi\"}").map(|_| ()),
        Err("missing field `model_path`".to_string())
    );
    assert_eq!(
        decode_generate_args("{\"model_path\":3,\"prompt\":\"Hi\"}").map(|_| ()),
        Err("invalid field `model_path`: expected a string".to_string())
    );
    assert_eq!(
        decode_generate_args("{\"model_path\":\"m\"}").map(|_| ()),
        Err("missing field `prompt`".to_string())
    );
    assert_eq!(
        decode_generate_args("{\"model_path\":\"m\",\"prompt\":\"x\",\"max_tokens\":-1}").map(|_| ()),
        Err("invalid field `max_tokens`: expected an unsigned integer".to_string())
    );
    assert_eq!(
        decode_generate_args("{\"model_path\":\"m\",\"prompt\":\"x\",\"temperature\":\"hot\"}")
            .map(|_| ()),
        Err("invalid field `temperature`: expected a number".to_string())
    );
    assert!(decode_generate_args("{not json").is_err());
}

#[test]
fn method_discovery_lists_both_services() {
    let cli = cli_list_methods();
    assert_eq!(cli.len(), 2);
    assert_eq!(cli[0].name, "run_command");
    assert_eq!(cli[1].name, "list_commands");
    let inf = inference_list_methods();
    assert_eq!(inf.len(), 1);
    assert_eq!(inf[0].name, "generate");
    assert_eq!(inf[0].description, "Generate text using loaded model");
}

#[test]
fn response_json_escapes_and_round_trips() {
    let resp = response("line1\nline2 \"quoted\" \\ tab\t", 5, false, "cancel");
    let out = generate_response_json(&resp);
    assert_eq!(
        out,
        "{\"stop_reason\":\"cancel\",\"stopped\":false,\"text\":\"line1\\nline2 \\\"quoted\\\" \\\\ tab\\t\",\"tokens_generated\":5}"
    );
    // serde_json reads back exactly the values that went in
    let v: serde_json::Value = serde_json::from_str(&out).unwrap();
    assert_eq!(v.get("text").and_then(|t| t.as_str()), Some("line1\nline2 \"quoted\" \\ tab\t"));
    assert_eq!(v.get("tokens_generated").and_then(|t| t.as_u64()), Some(5));
    assert_eq!(v.get("stopped").and_then(|t| t.as_bool()), Some(false));
}

#[test]
fn list_json_handles_empty_and_control_characters() {
    assert_eq!(string_list_json(&vec![]), "[]");
    let items = vec!["a.bin".to_string(), "weird\u{1}name".to_string()];
    assert_eq!(string_list_json(&items), "[\"a.bin\",\"weird\\u0001name\"]");
    let v: serde_json::Value = serde_json::from_str(&string_list_json(&items)).unwrap();
    assert_eq!(v.as_array().unwrap().len(), 2);
    assert_eq!(v.as_array().unwrap()[1].as_str(), Some("weird\u{1}name"));
}

#[test]
fn response_json_numeric_extremes() {
    let out = generate_response_json(&response("", 0, true, ""));
    assert_eq!(out, "{\"stop_reason\":\"\",\"stopped\":true,\"text\":\"\",\"tokens_generated\":0}");
    let out = generate_response_json(&response("x", u64::MAX, false, "cap"));
    assert_eq!(
        out,
        "{\"stop_reason\":\"cap\",\"stopped\":false,\"text\":\"x\",\"tokens_generated\":18446744073709551615}"
    );
}

#[test]
fn response_json_keeps_non_ascii_text_raw() {
    let out = generate_response_json(&response("h\u{e9}llo \u{2192} done", 1, true, "eos"));
    assert!(out.contains("h\u{e9}llo \u{2192} done"));
    let v: serde_json::Value = serde_json::from_str(&out).unwrap();
    assert_eq!(v.get("text").and_then(|t| t.as_str()), Some("h\u{e9}llo \u{2192} done"));
}

#[test]
fn list_escapes_pathological_paths_end_to_end() {
    let mut reg = ModelRegistry::new();
    let (built, gen) = ok_engine();
    let r = run_cli_command(&mut reg, "load a\"b.bin", &no_options(), built, gen);
    assert_eq!(r, Ok("Model loaded: a\"b.bin".to_string()));
    let (built, gen) = ok_engine();
    let listed = run_cli_command(&mut reg, "list", &no_options(), built, gen).unwrap();
    assert_eq!(listed, "[\"a\\\"b.bin\"]");
    let v: serde_json::Value = serde_json::from_str(&listed).unwrap();
    assert_eq!(v.as_array().unwrap()[0].as_str(), Some("a\"b.bin"));
}
