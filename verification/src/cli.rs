use vstd::prelude::*;
use vstd::string::*;
use crate::handle::{GenerateResponse, HandleView, ModelHandle};
use crate::jsonout::{spec_string_list_json, string_list_json};
use crate::registry::{
    built_view, gen_view, load_ok, load_state, reg_contains, reg_keys, spec_generate_result,
    spec_info_result, spec_load_failure_message, spec_not_loaded_message, unload_state, EntryView,
    ModelRegistry,
};
use crate::strutil::{opt_string_view, str_eq, str_to_string};

verus! {

broadcast use vstd::string::group_string_axioms;

/// The whitespace that separates CLI tokens: the ASCII whitespace characters.
pub open spec fn is_cli_ws(c: char) -> bool {
    c == ' ' || c == '\t' || c == '\n' || c == '\r' || c == '\u{c}'
}

/// The whitespace-separated tokens of `s` from position `i` on: maximal runs
/// of non-whitespace characters, in order.
pub open spec fn spec_tokens_from(s: Seq<char>, i: int) -> Seq<Seq<char>>
    decreases s.len() - i,
{
    if i < 0 || i >= s.len() {
        Seq::empty()
    } else if is_cli_ws(s[i]) {
        spec_tokens_from(s, i + 1)
    } else if i + 1 < s.len() && !is_cli_ws(s[i + 1]) {
        let rest = spec_tokens_from(s, i + 1);
        rest.update(0, seq![s[i]] + rest[0])
    } else {
        seq![seq![s[i]]] + spec_tokens_from(s, i + 1)
    }
}

/// The whitespace-separated tokens of `s`.
pub open spec fn spec_tokens(s: Seq<char>) -> Seq<Seq<char>> {
    spec_tokens_from(s, 0)
}

proof fn lemma_tokens_from_nonempty(s: Seq<char>, i: int)
    requires
        0 <= i < s.len(),
        !is_cli_ws(s[i]),
    ensures
        spec_tokens_from(s, i).len() >= 1,
    decreases s.len() - i,
{
    if i + 1 < s.len() && !is_cli_ws(s[i + 1]) {
        lemma_tokens_from_nonempty(s, i + 1);
    }
}

fn ws_char(c: char) -> (r: bool)
    ensures
        r == is_cli_ws(c),
{
    c == ' ' || c == '\t' || c == '\n' || c == '\r' || c == '\u{c}'
}

/// Splits `s` at whitespace into its tokens.
pub fn tokenize(s: &str) -> (r: Vec<String>)
    ensures
        r.deep_view() == spec_tokens(s@),
{
    let n = s.unicode_len();
    let mut r: Vec<String> = Vec::new();
    let mut i: usize = n;
    proof {
        assert(r.deep_view() =~= spec_tokens_from(s@, n as int));
    }
    while i > 0
        invariant
            n == s@.len(),
            i <= n,
            r.deep_view() == spec_tokens_from(s@, i as int),
        decreases i,
    {
        i = i - 1;
        let c = s.get_char(i);
        if ws_char(c) {
        } else if i + 1 < n && !ws_char(s.get_char(i + 1)) {
            proof {
                lemma_tokens_from_nonempty(s@, i + 1 as int);
            }
            let ghost prev = r.deep_view();
            let head = r.remove(0);
            let mut t = String::new();
            t.push(c);
            t.append(head.as_str());
            r.insert(0, t);
            proof {
                assert(t@ =~= seq![c] + prev[0]);
                assert(r.deep_view() =~= prev.update(0, seq![c] + prev[0]));
            }
        } else {
            let ghost prev = r.deep_view();
            let mut t = String::new();
            t.push(c);
            r.insert(0, t);
            proof {
                assert(t@ =~= seq![c]);
                assert(r.deep_view() =~= seq![seq![c]] + prev);
            }
        }
    }
    r
}

/// The tokens rejoined with single spaces.
pub open spec fn spec_join_spaces(ts: Seq<Seq<char>>) -> Seq<char>
    decreases ts.len(),
{
    if ts.len() == 0 {
        Seq::empty()
    } else if ts.len() == 1 {
        ts[0]
    } else {
        spec_join_spaces(ts.drop_last()) + " "@ + ts.last()
    }
}

/// Joins `parts[from..]` with single spaces.
fn join_tokens(parts: &Vec<String>, from: usize) -> (r: String)
    requires
        from <= parts@.len(),
    ensures
        r@ == spec_join_spaces(parts.deep_view().subrange(from as int, parts.deep_view().len() as int)),
{
    let n = parts.len();
    let mut r = String::new();
    let mut i: usize = from;
    while i < n
        invariant
            from <= i <= n,
            n == parts@.len(),
            n == parts.deep_view().len(),
            r@ == spec_join_spaces(parts.deep_view().subrange(from as int, i as int)),
        decreases n - i,
    {
        if i > from {
            r.append(" ");
        }
        r.append(parts[i].as_str());
        proof {
            let dv = parts.deep_view();
            let cur = dv.subrange(from as int, i + 1 as int);
            assert(cur.drop_last() =~= dv.subrange(from as int, i as int));
            assert(cur.last() == dv[i as int]);
            assert(dv[i as int] == parts@[i as int]@);
            assert(r@ =~= spec_join_spaces(cur));
        }
        i = i + 1;
    }
    r
}

/// The options map of a CLI request, parsed out of `--flag value` pairs by
/// the boundary: the core does not parse flags itself. Both options belong
/// to the generate command; the temperature is carried as decimal text, as
/// in `GenerateRequest`.
pub struct CliOptions {
    pub max_tokens: Option<u64>,
    pub temperature: Option<String>,
}

/// One CLI command, decoded and validated. A generate command carries the
/// request's options beside the path and the rejoined prompt, so the caller
/// that performs the engine call receives everything the request named.
pub enum CliCommand {
    Load { path: String },
    Unload { path: String },
    ListModels,
    Generate { path: String, prompt: String, max_tokens: Option<u64>, temperature: Option<String> },
    Info { path: String },
    Help,
}

/// The static usage summary that `help` (or an empty request) reports.
pub open spec fn spec_usage_summary() -> Seq<char> {
    "Commands: load <model-path> | unload <model-path> | list | generate <model-path> <prompt> [--max-tokens <n>] [--temperature <t>] | info <model-path> | help"@
}

/// Whether the token list is a complete command: a known verb with at least
/// its required arguments.
pub open spec fn spec_parse_ok(ts: Seq<Seq<char>>) -> bool {
    if ts.len() == 0 || ts[0] == "help"@ {
        true
    } else if ts[0] == "load"@ || ts[0] == "unload"@ || ts[0] == "info"@ {
        ts.len() >= 2
    } else if ts[0] == "list"@ {
        true
    } else if ts[0] == "generate"@ {
        ts.len() >= 3
    } else {
        false
    }
}

/// The usage or unknown-command message for a token list that is not a
/// complete command (such a list is never empty: an empty request is the
/// help command).
pub open spec fn spec_parse_error(ts: Seq<Seq<char>>) -> Seq<char>
    recommends
        !spec_parse_ok(ts),
{
    if ts[0] == "load"@ {
        "Usage: load <model-path>"@
    } else if ts[0] == "unload"@ {
        "Usage: unload <model-path>"@
    } else if ts[0] == "generate"@ {
        "Usage: generate <model-path> <prompt> [--max-tokens <n>]"@
    } else if ts[0] == "info"@ {
        "Usage: info <model-path>"@
    } else {
        "Unknown command: "@ + ts[0]
    }
}

/// Whether `cmd` is the command the token list and options map denote.
pub open spec fn spec_cmd_matches(cmd: CliCommand, ts: Seq<Seq<char>>, opts: CliOptions) -> bool {
    match cmd {
        CliCommand::Load { path } => ts.len() >= 2 && ts[0] == "load"@ && path@ == ts[1],
        CliCommand::Unload { path } => ts.len() >= 2 && ts[0] == "unload"@ && path@ == ts[1],
        CliCommand::ListModels => ts.len() >= 1 && ts[0] == "list"@,
        CliCommand::Generate { path, prompt, max_tokens, temperature } => ts.len() >= 3 && ts[0]
            == "generate"@ && path@ == ts[1] && prompt@ == spec_join_spaces(
            ts.subrange(2, ts.len() as int),
        ) && max_tokens == opts.max_tokens && opt_string_view(temperature) == opt_string_view(
            opts.temperature,
        ),
        CliCommand::Info { path } => ts.len() >= 2 && ts[0] == "info"@ && path@ == ts[1],
        CliCommand::Help => ts.len() == 0 || ts[0] == "help"@,
    }
}

proof fn lemma_cli_verbs_distinct()
    ensures
        "load"@ != "unload"@,
        "load"@ != "list"@,
        "load"@ != "generate"@,
        "load"@ != "info"@,
        "unload"@ != "list"@,
        "unload"@ != "generate"@,
        "unload"@ != "info"@,
        "list"@ != "generate"@,
        "list"@ != "info"@,
        "generate"@ != "info"@,
        "help"@ != "load"@,
        "help"@ != "unload"@,
        "help"@ != "list"@,
        "help"@ != "generate"@,
        "help"@ != "info"@,
{
    reveal_strlit("load");
    reveal_strlit("unload");
    reveal_strlit("list");
    reveal_strlit("generate");
    reveal_strlit("info");
    reveal_strlit("help");
    assert("load"@.len() == 4);
    assert("unload"@.len() == 6);
    assert("list"@.len() == 4);
    assert("generate"@.len() == 8);
    assert("info"@.len() == 4);
    assert("help"@.len() == 4);
    assert("load"@[1] != "list"@[1]);
    assert("load"@[0] != "info"@[0]);
    assert("list"@[0] != "info"@[0]);
    assert("help"@[0] != "load"@[0]);
    assert("help"@[0] != "list"@[0]);
    assert("help"@[0] != "info"@[0]);
}

/// Decodes a CLI request into a command: the first token is the verb, the
/// rest its arguments, and a generate prompt is the remaining tokens
/// rejoined with single spaces. An empty request or `help` asks for the
/// usage summary; an unknown verb or too few arguments yields the usage
/// message, never a registry call.
pub fn parse_cli_command(args: &str, options: &CliOptions) -> (r: Result<CliCommand, String>)
    ensures
        ({
            let ts = spec_tokens(args@);
            &&& (r is Ok) == spec_parse_ok(ts)
            &&& (r matches Ok(cmd) ==> spec_cmd_matches(cmd, ts, *options))
            &&& (r matches Err(m) ==> m@ == spec_parse_error(ts))
        }),
{
    proof {
        lemma_cli_verbs_distinct();
    }
    let parts = tokenize(args);
    proof {
        let ts = spec_tokens(args@);
        assert(parts.deep_view() == ts);
        assert(parts.deep_view().len() == parts@.len());
        assert(forall|k: int| 0 <= k < parts@.len() ==> ts[k] == parts@[k]@);
    }
    if parts.len() == 0 {
        return Ok(CliCommand::Help);
    }
    let head = &parts[0];
    if str_eq(head.as_str(), "help") {
        Ok(CliCommand::Help)
    } else if str_eq(head.as_str(), "load") {
        if parts.len() < 2 {
            Err(str_to_string("Usage: load <model-path>"))
        } else {
            Ok(CliCommand::Load { path: parts[1].clone() })
        }
    } else if str_eq(head.as_str(), "unload") {
        if parts.len() < 2 {
            Err(str_to_string("Usage: unload <model-path>"))
        } else {
            Ok(CliCommand::Unload { path: parts[1].clone() })
        }
    } else if str_eq(head.as_str(), "list") {
        Ok(CliCommand::ListModels)
    } else if str_eq(head.as_str(), "generate") {
        if parts.len() < 3 {
            Err(str_to_string("Usage: generate <model-path> <prompt> [--max-tokens <n>]"))
        } else {
            let prompt = join_tokens(&parts, 2);
            let temperature = match &options.temperature {
                Some(t) => Some(t.clone()),
                None => None,
            };
            Ok(
                CliCommand::Generate {
                    path: parts[1].clone(),
                    prompt,
                    max_tokens: options.max_tokens,
                    temperature,
                },
            )
        }
    } else if str_eq(head.as_str(), "info") {
        if parts.len() < 2 {
            Err(str_to_string("Usage: info <model-path>"))
        } else {
            Ok(CliCommand::Info { path: parts[1].clone() })
        }
    } else {
        let mut m = String::from_str("Unknown command: ");
        m.append(head.as_str());
        Err(m)
    }
}

/// The registry state after running a CLI request: load and the auto-loading
/// verbs apply the load step for their path, unload removes its path, and
/// everything else (including incomplete commands) leaves the state alone.
pub open spec fn spec_cli_state(
    r0: Seq<EntryView>,
    args: Seq<char>,
    built: Result<HandleView, Seq<char>>,
) -> Seq<EntryView> {
    let ts = spec_tokens(args);
    if !spec_parse_ok(ts) {
        r0
    } else if ts.len() == 0 || ts[0] == "help"@ {
        r0
    } else if ts[0] == "load"@ || ts[0] == "generate"@ || ts[0] == "info"@ {
        load_state(r0, ts[1], built)
    } else if ts[0] == "unload"@ {
        unload_state(r0, ts[1])
    } else {
        r0
    }
}

/// What running a CLI request reports: a confirmation, listing or JSON
/// payload on success, and a usage, load, not-loaded or generation failure
/// message otherwise.
pub open spec fn spec_cli_result(
    r0: Seq<EntryView>,
    args: Seq<char>,
    built: Result<HandleView, Seq<char>>,
    gen: Result<crate::handle::GenerateResponseView, Seq<char>>,
) -> Result<Seq<char>, Seq<char>> {
    let ts = spec_tokens(args);
    if !spec_parse_ok(ts) {
        Err(spec_parse_error(ts))
    } else if ts.len() == 0 || ts[0] == "help"@ {
        Ok(spec_usage_summary())
    } else if ts[0] == "load"@ {
        if load_ok(r0, ts[1], built) {
            Ok("Model loaded: "@ + ts[1])
        } else {
            Err(spec_load_failure_message(built->Err_0))
        }
    } else if ts[0] == "unload"@ {
        if reg_contains(r0, ts[1]) {
            Ok("Model unloaded: "@ + ts[1])
        } else {
            Err(spec_not_loaded_message(ts[1]))
        }
    } else if ts[0] == "list"@ {
        Ok(spec_string_list_json(reg_keys(r0)))
    } else if ts[0] == "generate"@ {
        spec_generate_result(r0, ts[1], built, gen)
    } else {
        spec_info_result(r0, ts[1], built)
    }
}

/// Runs one CLI request against the registry. `options` is the request's
/// options map (meaningful for `generate`); `built` and `gen` are the
/// engine outcomes for the command's path, consulted only where the command
/// calls for them (construction for the auto-loading verbs when the path is
/// absent, generation for `generate` — the caller performs the engine call
/// with the prompt and options the parsed command carries).
pub fn run_cli_command(
    reg: &mut ModelRegistry,
    args: &str,
    options: &CliOptions,
    built: Result<ModelHandle, String>,
    gen: Result<GenerateResponse, String>,
) -> (r: Result<String, String>)
    requires
        old(reg).wf(),
    ensures
        final(reg).wf(),
        final(reg)@ == spec_cli_state(old(reg)@, args@, built_view(built)),
        ({
            let res = spec_cli_result(old(reg)@, args@, built_view(built), gen_view(gen));
            match r {
                Ok(t) => res matches Ok(v) && t@ == v,
                Err(m) => res matches Err(v) && m@ == v,
            }
        }),
{
    proof {
        lemma_cli_verbs_distinct();
    }
    match parse_cli_command(args, options) {
        Err(m) => Err(m),
        Ok(cmd) => match cmd {
            CliCommand::Load { path } => match reg.load_model(path.as_str(), built) {
                Ok(()) => {
                    let mut s = String::from_str("Model loaded: ");
                    s.append(path.as_str());
                    Ok(s)
                },
                Err(e) => Err(e.message()),
            },
            CliCommand::Unload { path } => match reg.unload_model(path.as_str()) {
                Ok(()) => {
                    let mut s = String::from_str("Model unloaded: ");
                    s.append(path.as_str());
                    Ok(s)
                },
                Err(e) => Err(e.message()),
            },
            CliCommand::ListModels => {
                let models = reg.list_models();
                Ok(string_list_json(&models))
            },
            CliCommand::Generate { path, .. } => reg.generate_text(path.as_str(), built, gen),
            CliCommand::Info { path } => reg.get_model_info(path.as_str(), built),
            CliCommand::Help => Ok(
                str_to_string(
                    "Commands: load <model-path> | unload <model-path> | list | generate <model-path> <prompt> [--max-tokens <n>] [--temperature <t>] | info <model-path> | help",
                ),
            ),
        },
    }
}

} // verus!
