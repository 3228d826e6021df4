//! Credential stores: provider API keys and cloud provider settings.
use vstd::prelude::*;

use crate::text::str_equal;

verus! {

/// A list of `(name, value)` settings, as the configuration hands them over.
/// Later entries for the same name take precedence, as they would when
/// inserted one after another into a map.
pub open spec fn setting_lookup(entries: Seq<(Seq<char>, Seq<char>)>, name: Seq<char>) -> Option<Seq<char>>
    decreases entries.len(),
{
    if entries.len() == 0 {
        None
    } else if entries.last().0 == name {
        Some(entries.last().1)
    } else {
        setting_lookup(entries.drop_last(), name)
    }
}

/// The `(name, value)` views of a settings list.
pub open spec fn settings_view(entries: Seq<(String, String)>) -> Seq<(Seq<char>, Seq<char>)> {
    entries.map_values(|e: (String, String)| (e.0@, e.1@))
}

/// Looks a setting up by name; the last entry with that name wins.
pub fn find_setting<'a>(entries: &'a Vec<(String, String)>, name: &str) -> (r: Option<&'a String>)
    ensures
        r.deep_view() == setting_lookup(settings_view(entries@), name@),
{
    let mut i = entries.len();
    assert(settings_view(entries@).take(i as int) =~= settings_view(entries@));
    while i > 0
        invariant
            i <= entries.len(),
            setting_lookup(settings_view(entries@), name@)
                == setting_lookup(settings_view(entries@).take(i as int), name@),
        decreases i,
    {
        let entry = &entries[i - 1];
        let ghost prefix = settings_view(entries@).take(i as int);
        assert(prefix.last() == (entry.0@, entry.1@));
        assert(prefix.drop_last() =~= settings_view(entries@).take(i - 1));
        if str_equal(entry.0.as_str(), name) {
            return Some(&entry.1);
        }
        i = i - 1;
    }
    assert(settings_view(entries@).take(0) =~= Seq::<(Seq<char>, Seq<char>)>::empty());
    None
}

/// API keys per provider, for each of the three modalities.
pub struct ApiKeyStore {
    llm_keys: Vec<(String, String)>,
    stt_keys: Vec<(String, String)>,
    tts_keys: Vec<(String, String)>,
}

impl ApiKeyStore {
    pub closed spec fn llm_key(&self, provider: Seq<char>) -> Option<Seq<char>> {
        setting_lookup(settings_view(self.llm_keys@), provider)
    }

    pub closed spec fn stt_key(&self, provider: Seq<char>) -> Option<Seq<char>> {
        setting_lookup(settings_view(self.stt_keys@), provider)
    }

    pub closed spec fn tts_key(&self, provider: Seq<char>) -> Option<Seq<char>> {
        setting_lookup(settings_view(self.tts_keys@), provider)
    }

    /// Builds the store from `(provider, key)` lists.
    pub fn new(
        llm_keys: Vec<(String, String)>,
        stt_keys: Vec<(String, String)>,
        tts_keys: Vec<(String, String)>,
    ) -> (store: Self)
        ensures
            forall|p: Seq<char>| store.llm_key(p) == setting_lookup(settings_view(llm_keys@), p),
            forall|p: Seq<char>| store.stt_key(p) == setting_lookup(settings_view(stt_keys@), p),
            forall|p: Seq<char>| store.tts_key(p) == setting_lookup(settings_view(tts_keys@), p),
    {
        ApiKeyStore { llm_keys, stt_keys, tts_keys }
    }

    /// The LLM key of a provider, if one was configured.
    pub fn get_llm_key(&self, provider: &str) -> (key: Option<&str>)
        ensures
            key.deep_view() == self.llm_key(provider@),
    {
        match find_setting(&self.llm_keys, provider) {
            Some(k) => Some(k.as_str()),
            None => None,
        }
    }

    /// The speech-to-text key of a provider, if one was configured.
    pub fn get_stt_key(&self, provider: &str) -> (key: Option<&str>)
        ensures
            key.deep_view() == self.stt_key(provider@),
    {
        match find_setting(&self.stt_keys, provider) {
            Some(k) => Some(k.as_str()),
            None => None,
        }
    }

    /// The text-to-speech key of a provider, if one was configured.
    pub fn get_tts_key(&self, provider: &str) -> (key: Option<&str>)
        ensures
            key.deep_view() == self.tts_key(provider@),
    {
        match find_setting(&self.tts_keys, provider) {
            Some(k) => Some(k.as_str()),
            None => None,
        }
    }
}

/// Google Cloud project and region used for Vertex AI.
#[derive(Debug, Clone)]
pub struct GcpConfig {
    pub project_id: String,
    pub region: String,
}

/// AWS region used for Bedrock.
#[derive(Debug, Clone)]
pub struct AwsConfig {
    pub region: String,
}

impl GcpConfig {
    /// A copy with equal texts.
    pub fn duplicate(&self) -> (r: GcpConfig)
        ensures
            r.project_id@ == self.project_id@,
            r.region@ == self.region@,
    {
        GcpConfig { project_id: self.project_id.clone(), region: self.region.clone() }
    }
}

impl AwsConfig {
    /// A copy with an equal region.
    pub fn duplicate(&self) -> (r: AwsConfig)
        ensures
            r.region@ == self.region@,
    {
        AwsConfig { region: self.region.clone() }
    }
}

/// Cloud provider settings.
pub struct CloudProviderStore {
    pub gcp: GcpConfig,
    pub aws: AwsConfig,
}

/// A configured value, or the empty text where none was given.
pub open spec fn setting_or_empty(entries: Seq<(Seq<char>, Seq<char>)>, name: Seq<char>) -> Seq<char> {
    match setting_lookup(entries, name) {
        Some(v) => v,
        None => Seq::empty(),
    }
}

fn setting_or_default(entries: &Vec<(String, String)>, name: &str) -> (r: String)
    ensures
        r@ == setting_or_empty(settings_view(entries@), name@),
{
    match find_setting(entries, name) {
        Some(v) => v.clone(),
        None => String::new(),
    }
}

impl CloudProviderStore {
    /// Reads `gcp_project_id`, `gcp_region` and `aws_region`; a missing
    /// setting becomes the empty text.
    pub fn new(configs: Vec<(String, String)>) -> (store: Self)
        ensures
            store.gcp.project_id@ == setting_or_empty(settings_view(configs@), "gcp_project_id"@),
            store.gcp.region@ == setting_or_empty(settings_view(configs@), "gcp_region"@),
            store.aws.region@ == setting_or_empty(settings_view(configs@), "aws_region"@),
    {
        CloudProviderStore {
            gcp: GcpConfig {
                project_id: setting_or_default(&configs, "gcp_project_id"),
                region: setting_or_default(&configs, "gcp_region"),
            },
            aws: AwsConfig { region: setting_or_default(&configs, "aws_region") },
        }
    }
}

} // verus!
