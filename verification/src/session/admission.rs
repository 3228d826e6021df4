//! Deciding whether the orchestrator joins a newly created session.
use vstd::prelude::*;

use crate::edge::{offers, EdgeCache};
use crate::llm::factory::{create_llm_config, credentials_for, llm_config_available, llm_provider_named};
use crate::llm::types::LlmClientConfig;
use crate::stores::{ApiKeyStore, CloudProviderStore};

verus! {

/// A session announced by the signalling server, with its provider selections.
pub struct SessionCreated {
    pub session_id: String,
    pub requires_ai: bool,
    pub llm_provider: String,
    pub llm_model_id: String,
    pub tts_provider: String,
    pub tts_model_id: String,
    pub stt_provider: String,
    pub stt_model_id: String,
}

/// Whether and how the AI participant joins a session.
pub enum SessionAdmission {
    /// The session does not want an AI participant.
    NotForAi,
    InvalidLlmProvider,
    InvalidTtsProvider,
    InvalidSttProvider,
    /// The LLM selection is valid but no configuration could be built for it.
    NoLlmConfig,
    /// Join, with this LLM configuration.
    Admit(LlmClientConfig),
}

/// Checks a new session's selections against the edge catalogue, in the
/// order LLM, text-to-speech, speech-to-text, and builds its LLM configuration.
pub fn admit_session(
    event: &SessionCreated,
    cache: &EdgeCache,
    api_key_store: &ApiKeyStore,
    cloud_provider_store: &CloudProviderStore,
) -> (r: SessionAdmission)
    ensures
        !event.requires_ai ==> r is NotForAi,
        event.requires_ai ==> {
            let cat = cache.catalog();
            if !offers(cat.llm@, event.llm_provider@, event.llm_model_id@) {
                r is InvalidLlmProvider
            } else if !offers(cat.tts@, event.tts_provider@, event.tts_model_id@) {
                r is InvalidTtsProvider
            } else if !offers(cat.stt@, event.stt_provider@, event.stt_model_id@) {
                r is InvalidSttProvider
            } else if !llm_config_available(event.llm_provider@, *api_key_store) {
                r is NoLlmConfig
            } else {
                r matches SessionAdmission::Admit(c) && llm_provider_named(event.llm_provider@) == Some(c.provider)
                    && c.model@ == event.llm_model_id@
                    && credentials_for(c.credentials, c.provider, event.llm_provider@, *api_key_store, *cloud_provider_store)
            }
        },
{
    if !event.requires_ai {
        return SessionAdmission::NotForAi;
    }
    let llm_valid = cache.has_llm_provider(event.llm_provider.as_str(), event.llm_model_id.as_str());
    let tts_valid = cache.has_tts_provider(event.tts_provider.as_str(), event.tts_model_id.as_str());
    let stt_valid = cache.has_stt_provider(event.stt_provider.as_str(), event.stt_model_id.as_str());
    if !llm_valid {
        return SessionAdmission::InvalidLlmProvider;
    }
    if !tts_valid {
        return SessionAdmission::InvalidTtsProvider;
    }
    if !stt_valid {
        return SessionAdmission::InvalidSttProvider;
    }
    match create_llm_config(
        event.llm_provider.as_str(),
        event.llm_model_id.as_str(),
        api_key_store,
        cloud_provider_store,
    ) {
        Some(config) => SessionAdmission::Admit(config),
        None => SessionAdmission::NoLlmConfig,
    }
}

} // verus!
