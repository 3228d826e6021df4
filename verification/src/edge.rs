//! The catalogue of provider models offered by the edge service, and the
//! checks that a session's selections are in it.
use vstd::prelude::*;

use crate::text::str_equal;

verus! {

/// A model offered by a provider.
pub struct ProviderModel {
    pub provider: String,
    pub model_id: String,
}

/// The models the edge service offers, per modality.
pub struct ProviderCatalog {
    pub llm: Vec<ProviderModel>,
    pub tts: Vec<ProviderModel>,
    pub stt: Vec<ProviderModel>,
}

/// Some entry of `models` is `model_id` of `provider`.
pub open spec fn offers(models: Seq<ProviderModel>, provider: Seq<char>, model_id: Seq<char>) -> bool {
    exists|i: int| 0 <= i < models.len() && #[trigger] models[i].provider@ == provider && models[i].model_id@ == model_id
}

fn find_model(models: &Vec<ProviderModel>, provider: &str, model_id: &str) -> (r: bool)
    ensures
        r == offers(models@, provider@, model_id@),
{
    let mut i: usize = 0;
    while i < models.len()
        invariant
            i <= models@.len(),
            forall|j: int| 0 <= j < i ==> !(#[trigger] models@[j].provider@ == provider@ && models@[j].model_id@ == model_id@),
        decreases models@.len() - i,
    {
        let m = &models[i];
        if str_equal(m.provider.as_str(), provider) && str_equal(m.model_id.as_str(), model_id) {
            return true;
        }
        i = i + 1;
    }
    false
}

/// The last catalogue fetched from the edge service.
pub struct EdgeCache {
    provider_cache: ProviderCatalog,
}

impl EdgeCache {
    /// The cached catalogue.
    pub closed spec fn catalog(&self) -> ProviderCatalog {
        self.provider_cache
    }

    /// A cache holding `provider_data`.
    pub fn new(provider_data: ProviderCatalog) -> (c: Self)
        ensures
            c.catalog() == provider_data,
    {
        EdgeCache { provider_cache: provider_data }
    }

    /// Replaces the cached catalogue.
    pub fn update(&mut self, provider_data: ProviderCatalog)
        ensures
            final(self).catalog() == provider_data,
    {
        self.provider_cache = provider_data;
    }

    /// Whether the catalogue offers this LLM model.
    pub fn has_llm_provider(&self, provider: &str, model_id: &str) -> (r: bool)
        ensures
            r == offers(self.catalog().llm@, provider@, model_id@),
    {
        find_model(&self.provider_cache.llm, provider, model_id)
    }

    /// Whether the catalogue offers this text-to-speech model.
    pub fn has_tts_provider(&self, provider: &str, model_id: &str) -> (r: bool)
        ensures
            r == offers(self.catalog().tts@, provider@, model_id@),
    {
        find_model(&self.provider_cache.tts, provider, model_id)
    }

    /// Whether the catalogue offers this speech-to-text model.
    pub fn has_stt_provider(&self, provider: &str, model_id: &str) -> (r: bool)
        ensures
            r == offers(self.catalog().stt@, provider@, model_id@),
    {
        find_model(&self.provider_cache.stt, provider, model_id)
    }
}

} // verus!
