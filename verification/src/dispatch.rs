use vstd::prelude::*;
use crate::cli::{run_cli_command, spec_cli_result, spec_cli_state, CliOptions};
use crate::handle::{GenerateRequest, GenerateResponse, ModelHandle};
use crate::jsonarg::{
    decode_generate_args, json_accepts, json_str_field, spec_decode_error, spec_decode_ok,
};
use crate::registry::{built_view, gen_view, load_state, spec_generate_result, ModelRegistry};
use crate::strutil::{str_eq, str_to_string};

verus! {

broadcast use vstd::string::group_string_axioms;

/// Failure of a boundary invocation: an unknown method, or an invocation
/// that went wrong (malformed payload, usage error, or a registry or engine
/// failure), with its message.
pub enum ServiceFailure {
    MethodNotFound { method: String },
    Invocation { message: String },
}

/// One method a service front-end offers, for discovery calls.
pub struct ServiceMethodDesc {
    pub name: String,
    pub description: String,
}

/// The static JSON summary of the CLI commands, as the `list_commands`
/// method reports it: an array of command descriptors with sorted keys.
pub open spec fn spec_list_commands_json() -> Seq<char> {
    "[{\"description\":\"Load a model\",\"name\":\"load\",\"usage\":\"load <model-path>\"},{\"description\":\"Unload a model\",\"name\":\"unload\",\"usage\":\"unload <model-path>\"},{\"description\":\"List loaded models\",\"name\":\"list\",\"usage\":\"list\"},{\"description\":\"Generate text\",\"name\":\"generate\",\"usage\":\"generate <model-path> <prompt> [--max-tokens <n>] [--temperature <t>]\"},{\"description\":\"Show model info\",\"name\":\"info\",\"usage\":\"info <model-path>\"}]"@
}

proof fn lemma_cli_methods_distinct()
    ensures
        "run_command"@ != "list_commands"@,
{
    reveal_strlit("run_command");
    reveal_strlit("list_commands");
    assert("run_command"@.len() == 11);
    assert("list_commands"@.len() == 13);
}

/// The CLI service front-end: `run_command` runs one CLI request (its
/// options map and engine outcomes are handed in as for
/// `run_cli_command`), `list_commands` reports the static command summary,
/// and any other method name fails with "method not found". CLI failures
/// surface as invocation errors.
pub fn cli_invoke(
    reg: &mut ModelRegistry,
    method: &str,
    args: &str,
    options: &CliOptions,
    built: Result<ModelHandle, String>,
    gen: Result<GenerateResponse, String>,
) -> (r: Result<String, ServiceFailure>)
    requires
        old(reg).wf(),
    ensures
        final(reg).wf(),
        method@ == "run_command"@ ==> final(reg)@ == spec_cli_state(
            old(reg)@,
            args@,
            built_view(built),
        ) && (match spec_cli_result(old(reg)@, args@, built_view(built), gen_view(gen)) {
            Ok(t) => r matches Ok(v) && v@ == t,
            Err(m) => r matches Err(ServiceFailure::Invocation { message }) && message@ == m,
        }),
        method@ == "list_commands"@ ==> final(reg)@ == old(reg)@ && (r matches Ok(t) && t@
            == spec_list_commands_json()),
        method@ != "run_command"@ && method@ != "list_commands"@ ==> final(reg)@ == old(reg)@ && (
        r matches Err(ServiceFailure::MethodNotFound { method: m }) && m@ == method@),
{
    proof {
        lemma_cli_methods_distinct();
    }
    if str_eq(method, "run_command") {
        match run_cli_command(reg, args, options, built, gen) {
            Ok(t) => Ok(t),
            Err(m) => Err(ServiceFailure::Invocation { message: m }),
        }
    } else if str_eq(method, "list_commands") {
        Ok(
            str_to_string(
                "[{\"description\":\"Load a model\",\"name\":\"load\",\"usage\":\"load <model-path>\"},{\"description\":\"Unload a model\",\"name\":\"unload\",\"usage\":\"unload <model-path>\"},{\"description\":\"List loaded models\",\"name\":\"list\",\"usage\":\"list\"},{\"description\":\"Generate text\",\"name\":\"generate\",\"usage\":\"generate <model-path> <prompt> [--max-tokens <n>] [--temperature <t>]\"},{\"description\":\"Show model info\",\"name\":\"info\",\"usage\":\"info <model-path>\"}]",
            ),
        )
    } else {
        Err(ServiceFailure::MethodNotFound { method: str_to_string(method) })
    }
}

/// Runs a decoded generation request: an undecodable payload surfaces as an
/// invocation error, a decoded one as a generation against the registry
/// under its model path, with the auto-load policy of `generate_text`.
pub fn run_generate_method(
    reg: &mut ModelRegistry,
    decoded: Result<(String, GenerateRequest), String>,
    built: Result<ModelHandle, String>,
    gen: Result<GenerateResponse, String>,
) -> (r: Result<String, ServiceFailure>)
    requires
        old(reg).wf(),
    ensures
        final(reg).wf(),
        decoded matches Err(e) ==> final(reg)@ == old(reg)@ && (r matches Err(
            ServiceFailure::Invocation { message },
        ) && message@ == e@),
        decoded matches Ok(d) ==> final(reg)@ == load_state(old(reg)@, d.0@, built_view(built)) && (
        match spec_generate_result(old(reg)@, d.0@, built_view(built), gen_view(gen)) {
            Ok(t) => r matches Ok(v) && v@ == t,
            Err(m) => r matches Err(ServiceFailure::Invocation { message }) && message@ == m,
        }),
{
    match decoded {
        Err(e) => Err(ServiceFailure::Invocation { message: e }),
        Ok((path, _request)) => match reg.generate_text(path.as_str(), built, gen) {
            Ok(t) => Ok(t),
            Err(m) => Err(ServiceFailure::Invocation { message: m }),
        },
    }
}

/// The inference service front-end: exactly one method, `generate`, whose
/// payload is decoded by `decode_generate_args` and run by
/// `run_generate_method`; any other method name fails with "method not
/// found". A payload that does not parse as JSON, or whose fields do not
/// decode, fails with an invocation error and leaves the registry
/// unchanged; a decoded payload runs the generation against its model
/// path, with the auto-load policy of `generate_text`.
pub fn inference_invoke(
    reg: &mut ModelRegistry,
    method: &str,
    args: &str,
    built: Result<ModelHandle, String>,
    gen: Result<GenerateResponse, String>,
) -> (r: Result<String, ServiceFailure>)
    requires
        old(reg).wf(),
    ensures
        final(reg).wf(),
        method@ != "generate"@ ==> final(reg)@ == old(reg)@ && (r matches Err(
            ServiceFailure::MethodNotFound { method: m },
        ) && m@ == method@),
        method@ == "generate"@ && !json_accepts(args@) ==> final(reg)@ == old(reg)@ && (r matches Err(
            ServiceFailure::Invocation { .. },
        )),
        method@ == "generate"@ && json_accepts(args@) && !spec_decode_ok(args@) ==> final(reg)@
            == old(reg)@ && (r matches Err(ServiceFailure::Invocation { message }) && message@
            == spec_decode_error(args@)),
        method@ == "generate"@ && spec_decode_ok(args@) ==> ({
            let p = json_str_field(args@, "model_path"@)->Some_0;
            &&& final(reg)@ == load_state(old(reg)@, p, built_view(built))
            &&& match spec_generate_result(old(reg)@, p, built_view(built), gen_view(gen)) {
                Ok(t) => r matches Ok(v) && v@ == t,
                Err(m) => r matches Err(ServiceFailure::Invocation { message }) && message@ == m,
            }
        }),
{
    if str_eq(method, "generate") {
        let decoded = decode_generate_args(args);
        let ghost gdec = decoded;
        let r = run_generate_method(reg, decoded, built, gen);
        proof {
            match gdec {
                Ok(d) => {
                    assert(reg@ == load_state(old(reg)@, d.0@, built_view(built)));
                },
                Err(_) => {
                    assert(reg@ == old(reg)@);
                },
            }
        }
        r
    } else {
        Err(ServiceFailure::MethodNotFound { method: str_to_string(method) })
    }
}

/// The methods of the CLI service, for discovery.
pub fn cli_list_methods() -> (r: Vec<ServiceMethodDesc>)
    ensures
        r@.len() == 2,
        r@[0].name@ == "run_command"@ && r@[0].description@ == "Run a CLI command"@,
        r@[1].name@ == "list_commands"@ && r@[1].description@ == "List available commands"@,
{
    let mut v: Vec<ServiceMethodDesc> = Vec::new();
    v.push(
        ServiceMethodDesc {
            name: str_to_string("run_command"),
            description: str_to_string("Run a CLI command"),
        },
    );
    v.push(
        ServiceMethodDesc {
            name: str_to_string("list_commands"),
            description: str_to_string("List available commands"),
        },
    );
    v
}

/// The methods of the inference service, for discovery.
pub fn inference_list_methods() -> (r: Vec<ServiceMethodDesc>)
    ensures
        r@.len() == 1,
        r@[0].name@ == "generate"@ && r@[0].description@
            == "Generate text using loaded model"@,
{
    let mut v: Vec<ServiceMethodDesc> = Vec::new();
    v.push(
        ServiceMethodDesc {
            name: str_to_string("generate"),
            description: str_to_string("Generate text using loaded model"),
        },
    );
    v
}

} // verus!
