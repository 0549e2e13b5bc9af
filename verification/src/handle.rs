use vstd::prelude::*;

verus! {

/// The abstract value of a loaded model handle: the metadata the registry
/// carries for one loaded model.
pub ghost struct HandleView {
    pub name: Seq<char>,
    pub size: u64,
}

/// One loaded model. The inference engine hands the registry this record when
/// it constructs a model from a path; the registry owns it until the model is
/// unloaded. The engine's in-memory state itself stays with the caller that
/// performs engine calls; the registry tracks identity and metadata.
pub struct ModelHandle {
    /// Human-readable model name.
    pub name: String,
    /// Size metric reported by the engine.
    pub size: u64,
}

impl View for ModelHandle {
    type V = HandleView;

    open spec fn view(&self) -> HandleView {
        HandleView { name: self.name@, size: self.size }
    }
}

/// Metadata snapshot returned by an info request. The `loaded` flag is true
/// for every snapshot taken from a handle: a handle exists exactly while its
/// model is loaded.
pub struct ModelInfo {
    pub name: String,
    pub size: u64,
    pub loaded: bool,
}

/// Abstract value of a generation response.
pub ghost struct GenerateResponseView {
    pub text: Seq<char>,
    pub tokens_generated: u64,
    pub stopped: bool,
    pub stop_reason: Seq<char>,
}

/// What the engine reports for one completed generation call: the generated
/// text, how many tokens were produced, whether generation stopped on a
/// terminal condition (as opposed to truncation), and a stop-reason tag.
pub struct GenerateResponse {
    pub text: String,
    pub tokens_generated: u64,
    pub stopped: bool,
    pub stop_reason: String,
}

impl View for GenerateResponse {
    type V = GenerateResponseView;

    open spec fn view(&self) -> GenerateResponseView {
        GenerateResponseView {
            text: self.text@,
            tokens_generated: self.tokens_generated,
            stopped: self.stopped,
            stop_reason: self.stop_reason@,
        }
    }
}

/// One generation request: the prompt, an optional cap on produced tokens,
/// and an optional sampling temperature. The temperature is carried as the
/// decimal text it arrived with: the registry core never interprets it, only
/// the engine does, so no numeric reading of it is done here. Absent options
/// mean the engine's defaults.
pub struct GenerateRequest {
    pub prompt: String,
    pub max_tokens: Option<u64>,
    pub temperature: Option<String>,
}

impl ModelHandle {
    /// Metadata snapshot of this handle; `loaded` is always true.
    pub fn model_info(&self) -> (r: ModelInfo)
        ensures
            r.name@ == self@.name,
            r.size == self@.size,
            r.loaded,
    {
        ModelInfo { name: self.name.clone(), size: self.size, loaded: true }
    }
}

} // verus!
