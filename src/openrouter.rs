//! The backend's model catalogue, as listed by its `/models` endpoint.
use vstd::prelude::*;

verus! {

/// The catalogue: every model the backend offers.
#[derive(Clone, Debug)]
pub struct ModelsResponse {
    pub data: Vec<Model>,
}

/// One model of the catalogue.
#[derive(Clone, Debug)]
pub struct Model {
    pub id: String,
    pub name: String,
    pub description: Option<String>,
    pub context_length: Option<i32>,
    pub architecture: Option<Architecture>,
    pub pricing: Option<Pricing>,
    pub supported_generation_methods: Option<Vec<String>>,
    pub top_provider: Option<TopProvider>,
    pub per_request_limits: Option<PerRequestLimits>,
}

#[derive(Clone, Debug)]
pub struct Architecture {
    pub modality: Option<String>,
    pub tokenizer: Option<String>,
    pub instruct_type: Option<String>,
}

#[derive(Clone, Debug)]
pub struct Pricing {
    pub prompt: Option<String>,
    pub completion: Option<String>,
    pub request: Option<String>,
    pub image: Option<String>,
}

#[derive(Clone, Debug)]
pub struct TopProvider {
    pub context_length: Option<i32>,
    pub max_completion_tokens: Option<i32>,
    pub is_moderated: Option<bool>,
}

#[derive(Clone, Debug)]
pub struct PerRequestLimits {
    pub prompt_tokens: Option<String>,
    pub completion_tokens: Option<String>,
}

} // verus!
