use vstd::prelude::*;
use vstd::string::*;
use crate::handle::{GenerateResponse, GenerateResponseView, HandleView, ModelHandle, ModelInfo};
use crate::jsonout::{
    generate_response_json, model_info_json, spec_generate_response_json, spec_model_info_json,
};
use crate::strutil::{str_eq, str_to_string};

verus! {

/// Abstract value of one registry entry: a model path and the handle stored
/// under it.
pub ghost struct EntryView {
    pub path: Seq<char>,
    pub handle: HandleView,
}

/// Error returned by registry operations.
#[derive(Debug)]
pub enum RegistryError {
    /// The engine could not construct a handle for the path; carries the
    /// engine's reason. The registry is left unchanged.
    LoadFailure { reason: String },
    /// An unload referenced a path with no entry. A caller error, never a
    /// transient condition.
    NotLoaded { path: String },
}

/// Whether `r` holds an entry for path `p`.
pub open spec fn reg_contains(r: Seq<EntryView>, p: Seq<char>) -> bool {
    exists|i: int| 0 <= i < r.len() && r[i].path == p
}

/// The paths of `r`, in entry order.
pub open spec fn reg_keys(r: Seq<EntryView>) -> Seq<Seq<char>> {
    Seq::new(r.len(), |i: int| r[i].path)
}

/// The handle stored under `p`; meaningful when `r` is well formed and
/// contains `p`.
pub open spec fn reg_handle(r: Seq<EntryView>, p: Seq<char>) -> HandleView {
    r[choose|i: int| 0 <= i < r.len() && r[i].path == p].handle
}

/// Well-formedness: at most one entry per path.
pub open spec fn reg_wf(r: Seq<EntryView>) -> bool {
    forall|i: int, j: int| 0 <= i < j < r.len() ==> r[i].path != r[j].path
}

/// The registry state after a load of `p` whose engine construction came out
/// as `built`: a no-op when `p` is present, an appended entry when the engine
/// produced a handle, and the unchanged state when it failed.
pub open spec fn load_state(
    r: Seq<EntryView>,
    p: Seq<char>,
    built: Result<HandleView, Seq<char>>,
) -> Seq<EntryView> {
    if reg_contains(r, p) {
        r
    } else {
        match built {
            Ok(h) => r.push(EntryView { path: p, handle: h }),
            Err(_) => r,
        }
    }
}

/// Whether a load of `p` with engine outcome `built` succeeds.
pub open spec fn load_ok(r: Seq<EntryView>, p: Seq<char>, built: Result<HandleView, Seq<char>>) -> bool {
    reg_contains(r, p) || built is Ok
}

/// The registry state after an unload of `p`: the entry for `p` removed, or
/// the unchanged state when there is none.
pub open spec fn unload_state(r: Seq<EntryView>, p: Seq<char>) -> Seq<EntryView> {
    if reg_contains(r, p) {
        r.remove(choose|i: int| 0 <= i < r.len() && r[i].path == p)
    } else {
        r
    }
}

/// The engine construction outcome, abstracted to handle view and reason text.
pub open spec fn built_view(b: Result<ModelHandle, String>) -> Result<HandleView, Seq<char>> {
    match b {
        Ok(h) => Ok(h@),
        Err(m) => Err(m@),
    }
}

/// The engine generation outcome, abstracted to response view and reason
/// text.
pub open spec fn gen_view(g: Result<GenerateResponse, String>) -> Result<
    GenerateResponseView,
    Seq<char>,
> {
    match g {
        Ok(resp) => Ok(resp@),
        Err(m) => Err(m@),
    }
}

/// The message reported when the engine could not construct a handle.
pub open spec fn spec_load_failure_message(reason: Seq<char>) -> Seq<char> {
    "Failed to load model: "@ + reason
}

/// The message reported when an unload targets an absent path.
pub open spec fn spec_not_loaded_message(path: Seq<char>) -> Seq<char> {
    "Model not loaded: "@ + path
}

/// The message reported when the engine failed mid-generation.
pub open spec fn spec_generation_failed_message(reason: Seq<char>) -> Seq<char> {
    "Generation failed: "@ + reason
}

/// What a generation request against `p` returns, given registry state `r0`,
/// engine construction outcome `built` and engine generation outcome `gen`:
/// the response serialized as JSON, or the load-failure message when the
/// model was absent and construction failed, or the generation-failure
/// message when the engine's call failed.
pub open spec fn spec_generate_result(
    r0: Seq<EntryView>,
    p: Seq<char>,
    built: Result<HandleView, Seq<char>>,
    gen: Result<GenerateResponseView, Seq<char>>,
) -> Result<Seq<char>, Seq<char>> {
    if !load_ok(r0, p, built) {
        Err(spec_load_failure_message(built->Err_0))
    } else {
        match gen {
            Ok(resp) => Ok(spec_generate_response_json(resp)),
            Err(m) => Err(spec_generation_failed_message(m)),
        }
    }
}

/// What an info request against `p` returns, given registry state `r0` and
/// engine construction outcome `built`: the metadata of the handle stored
/// after the (auto-)load, serialized as JSON, or the load-failure message.
pub open spec fn spec_info_result(
    r0: Seq<EntryView>,
    p: Seq<char>,
    built: Result<HandleView, Seq<char>>,
) -> Result<Seq<char>, Seq<char>> {
    if !load_ok(r0, p, built) {
        Err(spec_load_failure_message(built->Err_0))
    } else {
        let h = reg_handle(load_state(r0, p, built), p);
        Ok(spec_model_info_json(h.name, h.size, true))
    }
}

impl RegistryError {
    /// The human-readable message the boundary reports for this error.
    pub fn message(&self) -> (r: String)
        ensures
            self matches RegistryError::LoadFailure { reason } ==> r@ == spec_load_failure_message(
                reason@,
            ),
            self matches RegistryError::NotLoaded { path } ==> r@ == spec_not_loaded_message(path@),
    {
        match self {
            RegistryError::LoadFailure { reason } => {
                let mut s = String::from_str("Failed to load model: ");
                s.append(reason.as_str());
                s
            },
            RegistryError::NotLoaded { path } => {
                let mut s = String::from_str("Model not loaded: ");
                s.append(path.as_str());
                s
            },
        }
    }
}

struct RegistryEntry {
    path: String,
    handle: ModelHandle,
}

impl View for RegistryEntry {
    type V = EntryView;

    closed spec fn view(&self) -> EntryView {
        EntryView { path: self.path@, handle: self.handle@ }
    }
}

/// Table of loaded models, keyed by model path. Keys are exact strings: two
/// textually different paths are two entries, by design. Entries keep
/// insertion order, and `list_models` reports them in that order.
pub struct ModelRegistry {
    entries: Vec<RegistryEntry>,
}

impl View for ModelRegistry {
    type V = Seq<EntryView>;

    closed spec fn view(&self) -> Seq<EntryView> {
        Seq::new(self.entries@.len(), |i: int| self.entries@[i]@)
    }
}

impl ModelRegistry {
    /// At most one entry per path.
    pub open spec fn wf(self) -> bool {
        reg_wf(self@)
    }

    /// An empty registry; created once at plugin start.
    pub fn new() -> (r: ModelRegistry)
        ensures
            r@ == Seq::<EntryView>::empty(),
            r.wf(),
    {
        let r = ModelRegistry { entries: Vec::new() };
        proof {
            assert(r@ =~= Seq::<EntryView>::empty());
        }
        r
    }

    fn find_index(&self, path: &str) -> (r: Option<usize>)
        ensures
            match r {
                Some(i) => i < self@.len() && self@[i as int].path == path@,
                None => !reg_contains(self@, path@),
            },
    {
        let n = self.entries.len();
        let mut i: usize = 0;
        while i < n
            invariant
                n == self@.len(),
                i <= n,
                n == self.entries@.len(),
                forall|k: int| 0 <= k < i ==> self@[k].path != path@,
            decreases n - i,
        {
            if str_eq(self.entries[i].path.as_str(), path) {
                return Some(i);
            }
            i = i + 1;
        }
        None
    }

    /// Whether a model is loaded under `path`.
    pub fn contains_model(&self, path: &str) -> (r: bool)
        ensures
            r == reg_contains(self@, path@),
    {
        self.find_index(path).is_some()
    }

    /// Loads a model: a successful no-op when `path` is already present
    /// (never a reload), otherwise records the handle the engine constructed,
    /// or reports the engine's failure and leaves the registry unchanged.
    /// `built` is the outcome of the engine's construction for `path`; it is
    /// consulted only when `path` is absent.
    pub fn load_model(&mut self, path: &str, built: Result<ModelHandle, String>) -> (r: Result<
        (),
        RegistryError,
    >)
        requires
            old(self).wf(),
        ensures
            final(self).wf(),
            final(self)@ == load_state(old(self)@, path@, built_view(built)),
            (r is Ok) <==> load_ok(old(self)@, path@, built_view(built)),
            r matches Err(e) ==> (e matches RegistryError::LoadFailure { reason } && built matches Err(m)
                && reason@ == m@),
            reg_contains(final(self)@, path@) <==> (reg_contains(old(self)@, path@) || built is Ok),
    {
        match self.find_index(path) {
            Some(_) => Ok(()),
            None => match built {
                Ok(h) => {
                    let ghost gv = EntryView { path: path@, handle: h@ };
                    self.entries.push(RegistryEntry { path: str_to_string(path), handle: h });
                    proof {
                        assert(self@ =~= old(self)@.push(gv));
                        assert(self@[self@.len() - 1].path == path@);
                        assert forall|i: int, j: int| 0 <= i < j < self@.len() implies self@[i].path
                            != self@[j].path by {
                            if j < self@.len() - 1 {
                                assert(old(self)@[i].path != old(self)@[j].path);
                            } else {
                                assert(old(self)@[i].path != path@);
                            }
                        }
                    }
                    Ok(())
                },
                Err(m) => Err(RegistryError::LoadFailure { reason: m }),
            },
        }
    }

    /// Removes and drops the entry for `path`. Fails with `NotLoaded`, and
    /// leaves the registry unchanged, when no entry exists.
    pub fn unload_model(&mut self, path: &str) -> (r: Result<(), RegistryError>)
        requires
            old(self).wf(),
        ensures
            final(self).wf(),
            final(self)@ == unload_state(old(self)@, path@),
            (r is Ok) <==> reg_contains(old(self)@, path@),
            r matches Err(e) ==> (e matches RegistryError::NotLoaded { path: p } && p@ == path@),
            !reg_contains(final(self)@, path@),
    {
        match self.find_index(path) {
            None => Err(RegistryError::NotLoaded { path: str_to_string(path) }),
            Some(i) => {
                self.entries.remove(i);
                proof {
                    let ghost r0 = old(self)@;
                    let ghost j = choose|j: int| 0 <= j < r0.len() && r0[j].path == path@;
                    assert(r0[i as int].path == path@);
                    assert(j == i as int);
                    assert(self@ =~= r0.remove(i as int));
                    assert forall|a: int, b: int| 0 <= a < b < self@.len() implies self@[a].path
                        != self@[b].path by {
                        let a0 = if a < i as int { a } else { a + 1 };
                        let b0 = if b < i as int { b } else { b + 1 };
                        assert(self@[a] == r0[a0]);
                        assert(self@[b] == r0[b0]);
                        assert(r0[a0].path != r0[b0].path);
                    }
                    assert forall|k: int| 0 <= k < self@.len() implies self@[k].path != path@ by {
                        let k0 = if k < i as int { k } else { k + 1 };
                        assert(self@[k] == r0[k0]);
                        if k0 != i as int {
                            assert(r0[k0].path != r0[i as int].path);
                        }
                    }
                }
                Ok(())
            },
        }
    }

    /// Snapshot of the loaded paths, in insertion order.
    pub fn list_models(&self) -> (r: Vec<String>)
        ensures
            r.deep_view() == reg_keys(self@),
    {
        let n = self.entries.len();
        let mut out: Vec<String> = Vec::new();
        let mut i: usize = 0;
        while i < n
            invariant
                n == self.entries@.len(),
                n == self@.len(),
                i <= n,
                out@.len() == i,
                forall|k: int| 0 <= k < i ==> out@[k]@ == self@[k].path,
            decreases n - i,
        {
            out.push(self.entries[i].path.clone());
            i = i + 1;
        }
        proof {
            assert(out.deep_view() =~= reg_keys(self@));
        }
        out
    }

    /// Generation against the model under `path`, loading it first when it is
    /// absent, so a generation request never fails with "not loaded": it
    /// fails only when that load itself fails, or when the engine's
    /// generation call failed. `built` is the engine's construction outcome
    /// for `path`, consulted only when the model is absent; `gen` is the
    /// engine's generation outcome against the loaded model. A generation
    /// failure leaves the handle registered, so the caller may simply retry.
    pub fn generate_text(
        &mut self,
        path: &str,
        built: Result<ModelHandle, String>,
        gen: Result<GenerateResponse, String>,
    ) -> (r: Result<String, String>)
        requires
            old(self).wf(),
        ensures
            final(self).wf(),
            final(self)@ == load_state(old(self)@, path@, built_view(built)),
            ({
                let res = spec_generate_result(old(self)@, path@, built_view(built), gen_view(gen));
                match r {
                    Ok(t) => res matches Ok(v) && t@ == v,
                    Err(m) => res matches Err(v) && m@ == v,
                }
            }),
    {
        match self.load_model(path, built) {
            Err(e) => Err(e.message()),
            Ok(()) => match gen {
                Ok(resp) => Ok(generate_response_json(&resp)),
                Err(m) => {
                    let mut s = String::from_str("Generation failed: ");
                    s.append(m.as_str());
                    Err(s)
                },
            },
        }
    }

    /// Metadata for the model under `path`, loading it first when it is
    /// absent (same auto-load policy as generation), serialized as JSON.
    /// Fails exactly when the load fails, with the engine's reason.
    pub fn get_model_info(&mut self, path: &str, built: Result<ModelHandle, String>) -> (r: Result<
        String,
        String,
    >)
        requires
            old(self).wf(),
        ensures
            final(self).wf(),
            final(self)@ == load_state(old(self)@, path@, built_view(built)),
            ({
                let res = spec_info_result(old(self)@, path@, built_view(built));
                match r {
                    Ok(t) => res matches Ok(v) && t@ == v,
                    Err(m) => res matches Err(v) && m@ == v,
                }
            }),
    {
        match self.load_model(path, built) {
            Err(e) => Err(e.message()),
            Ok(()) => match self.model_info(path) {
                Some(info) => Ok(model_info_json(&info)),
                None => {
                    proof {
                        assert(false);
                    }
                    Err(String::new())
                },
            },
        }
    }

    /// Metadata snapshot for the model under `path`, or `None` when it is not
    /// loaded. The `loaded` flag of a returned snapshot is always true.
    pub fn model_info(&self, path: &str) -> (r: Option<ModelInfo>)
        requires
            self.wf(),
        ensures
            match r {
                Some(info) => reg_contains(self@, path@) && info.name@ == reg_handle(
                    self@,
                    path@,
                ).name && info.size == reg_handle(self@, path@).size && info.loaded,
                None => !reg_contains(self@, path@),
            },
    {
        match self.find_index(path) {
            None => None,
            Some(i) => {
                proof {
                    let ghost j = choose|j: int| 0 <= j < self@.len() && self@[j].path == path@;
                    assert(self@[i as int].path == path@);
                    assert(j == i as int);
                }
                Some(self.entries[i].handle.model_info())
            },
        }
    }
}

} // verus!
