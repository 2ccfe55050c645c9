//! Gateway configuration and the model-alias settings read by the resolver.
use vstd::prelude::*;

verus! {

/// The backend base URL used when none is configured.
pub fn default_openrouter_base_url() -> (r: String)
    ensures
        r@ == "https://openrouter.ai/api/v1"@,
{
    String::from_str("https://openrouter.ai/api/v1")
}

/// What the alias resolver and the request translator read: the backend base
/// URL and the backend model for each of the three tiers.
#[derive(Clone, Debug)]
pub struct Settings {
    pub openrouter_base_url: String,
    pub openrouter_model_haiku: String,
    pub openrouter_model_sonnet: String,
    pub openrouter_model_opus: String,
}

pub ghost struct SettingsView {
    pub base_url: Seq<char>,
    pub haiku: Seq<char>,
    pub sonnet: Seq<char>,
    pub opus: Seq<char>,
}

impl View for Settings {
    type V = SettingsView;

    open spec fn view(&self) -> SettingsView {
        SettingsView {
            base_url: self.openrouter_base_url@,
            haiku: self.openrouter_model_haiku@,
            sonnet: self.openrouter_model_sonnet@,
            opus: self.openrouter_model_opus@,
        }
    }
}

impl Settings {
    /// Settings with the default base URL and the three tier targets.
    pub fn new(haiku: &str, sonnet: &str, opus: &str) -> (r: Settings)
        ensures
            r@.base_url == "https://openrouter.ai/api/v1"@,
            r@.haiku == haiku@,
            r@.sonnet == sonnet@,
            r@.opus == opus@,
    {
        Settings {
            openrouter_base_url: default_openrouter_base_url(),
            openrouter_model_haiku: haiku.to_string(),
            openrouter_model_sonnet: sonnet.to_string(),
            openrouter_model_opus: opus.to_string(),
        }
    }
}

/// Runtime configuration of the gateway.
#[derive(Clone, Debug)]
pub struct Config {
    /// The port to listen on.
    pub port: u16,
    /// Base URL of the backend API.
    pub base_url: String,
    /// Credential for the backend.
    pub api_key: String,
    /// Backend model for the fast tier.
    pub model_haiku: String,
    /// Backend model for the balanced tier.
    pub model_sonnet: String,
    /// Backend model for the capable tier.
    pub model_opus: String,
}

/// A new choice of backend model for each tier.
#[derive(Clone, Debug)]
pub struct ModelSelection {
    pub haiku: String,
    pub sonnet: String,
    pub opus: String,
}

impl Config {
    /// The configuration with the default base URL.
    pub fn new(port: u16, api_key: String, haiku: String, sonnet: String, opus: String) -> (r:
        Config)
        ensures
            r.port == port,
            r.base_url@ == "https://openrouter.ai/api/v1"@,
            r.api_key@ == api_key@,
            r.model_haiku@ == haiku@,
            r.model_sonnet@ == sonnet@,
            r.model_opus@ == opus@,
    {
        Config {
            port,
            base_url: default_openrouter_base_url(),
            api_key,
            model_haiku: haiku,
            model_sonnet: sonnet,
            model_opus: opus,
        }
    }

    /// The settings that the request translator reads from this configuration.
    pub fn settings(&self) -> (r: Settings)
        ensures
            r@.base_url == self.base_url@,
            r@.haiku == self.model_haiku@,
            r@.sonnet == self.model_sonnet@,
            r@.opus == self.model_opus@,
    {
        Settings {
            openrouter_base_url: self.base_url.clone(),
            openrouter_model_haiku: self.model_haiku.clone(),
            openrouter_model_sonnet: self.model_sonnet.clone(),
            openrouter_model_opus: self.model_opus.clone(),
        }
    }

    /// Replaces the three tier targets; the port, base URL and credential stay.
    pub fn apply_selection(&mut self, selection: ModelSelection)
        ensures
            final(self).port == old(self).port,
            final(self).base_url@ == old(self).base_url@,
            final(self).api_key@ == old(self).api_key@,
            final(self).model_haiku@ == selection.haiku@,
            final(self).model_sonnet@ == selection.sonnet@,
            final(self).model_opus@ == selection.opus@,
    {
        self.model_haiku = selection.haiku;
        self.model_opus = selection.opus;
        self.model_sonnet = selection.sonnet;
    }

    /// The endpoint that receives translated requests.
    pub fn chat_completions_url(&self) -> (r: String)
        ensures
            r@ == self.base_url@ + "/chat/completions"@,
    {
        self.base_url.clone().concat("/chat/completions")
    }

    /// The endpoint that lists the backend's models.
    pub fn models_url(&self) -> (r: String)
        ensures
            r@ == self.base_url@ + "/models"@,
    {
        self.base_url.clone().concat("/models")
    }
}

} // verus!
