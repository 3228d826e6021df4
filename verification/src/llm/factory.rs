//! Choosing a provider and its credentials for a session.
use vstd::prelude::*;

use crate::llm::types::{LlmClientConfig, LlmClientError, LlmCredentials, LlmProvider};
use crate::stores::{ApiKeyStore, CloudProviderStore};
use crate::text::{text_concat, owned, str_equal};

verus! {

/// The provider a session names, if the orchestrator supports it.
pub open spec fn llm_provider_named(name: Seq<char>) -> Option<LlmProvider> {
    if name == "openai"@ {
        Some(LlmProvider::OpenAi)
    } else if name == "groq"@ {
        Some(LlmProvider::Groq)
    } else if name == "anthropic"@ {
        Some(LlmProvider::Anthropic)
    } else if name == "xai"@ {
        Some(LlmProvider::XAi)
    } else if name == "gcp"@ {
        Some(LlmProvider::Gcp)
    } else if name == "aws"@ {
        Some(LlmProvider::Aws)
    } else {
        None
    }
}

proof fn lemma_provider_names_differ()
    ensures
        "openai"@ != "groq"@, "openai"@ != "anthropic"@, "openai"@ != "xai"@, "openai"@ != "gcp"@, "openai"@ != "aws"@,
        "groq"@ != "anthropic"@, "groq"@ != "xai"@, "groq"@ != "gcp"@, "groq"@ != "aws"@,
        "anthropic"@ != "xai"@, "anthropic"@ != "gcp"@, "anthropic"@ != "aws"@,
        "xai"@ != "gcp"@, "xai"@ != "aws"@, "gcp"@ != "aws"@,
{
    reveal_strlit("openai");
    reveal_strlit("groq");
    reveal_strlit("anthropic");
    reveal_strlit("xai");
    reveal_strlit("gcp");
    reveal_strlit("aws");
    assert("openai"@.len() == 6 && "groq"@.len() == 4 && "anthropic"@.len() == 9);
    assert("xai"@.len() == 3 && "gcp"@.len() == 3 && "aws"@.len() == 3);
    assert("xai"@[0] != "gcp"@[0] && "xai"@[0] != "aws"@[0] && "gcp"@[0] != "aws"@[0]);
}

/// Each supported name selects its own provider, and no two names select
/// the same one.
pub proof fn provider_names_select_their_providers()
    ensures
        llm_provider_named("openai"@) == Some(LlmProvider::OpenAi),
        llm_provider_named("groq"@) == Some(LlmProvider::Groq),
        llm_provider_named("anthropic"@) == Some(LlmProvider::Anthropic),
        llm_provider_named("xai"@) == Some(LlmProvider::XAi),
        llm_provider_named("gcp"@) == Some(LlmProvider::Gcp),
        llm_provider_named("aws"@) == Some(LlmProvider::Aws),
        forall|a: Seq<char>, b: Seq<char>|
            #[trigger] llm_provider_named(a) is Some && llm_provider_named(a) == #[trigger] llm_provider_named(b)
                ==> a == b,
{
    lemma_provider_names_differ();
}

/// Providers reached with an API key rather than cloud credentials.
pub open spec fn uses_api_key(p: LlmProvider) -> bool {
    p == LlmProvider::OpenAi || p == LlmProvider::Groq || p == LlmProvider::Anthropic || p == LlmProvider::XAi
}

/// The credentials a provider is given: its API key, or the cloud settings.
pub open spec fn credentials_for(
    c: LlmCredentials,
    p: LlmProvider,
    name: Seq<char>,
    store: ApiKeyStore,
    cloud: CloudProviderStore,
) -> bool {
    if uses_api_key(p) {
        c matches LlmCredentials::ApiKey(k) && Some(k@) == store.llm_key(name)
    } else if p == LlmProvider::Gcp {
        c matches LlmCredentials::Gcp(g) && g.project_id@ == cloud.gcp.project_id@ && g.region@ == cloud.gcp.region@
    } else {
        c matches LlmCredentials::Aws(a) && a.region@ == cloud.aws.region@
    }
}

/// Whether a configuration can be built for the named provider.
pub open spec fn llm_config_available(name: Seq<char>, store: ApiKeyStore) -> bool {
    match llm_provider_named(name) {
        Some(p) => uses_api_key(p) ==> store.llm_key(name) is Some,
        None => false,
    }
}

fn api_key_config(
    provider: LlmProvider,
    name: &str,
    model: &str,
    api_key_store: &ApiKeyStore,
) -> (r: Option<LlmClientConfig>)
    ensures
        match r {
            Some(c) => api_key_store.llm_key(name@) is Some && c.provider == provider && c.model@ == model@
                && (c.credentials matches LlmCredentials::ApiKey(k) && Some(k@) == api_key_store.llm_key(name@)),
            None => api_key_store.llm_key(name@) is None,
        },
{
    match api_key_store.get_llm_key(name) {
        Some(key) => Some(
            LlmClientConfig { provider, model: owned(model), credentials: LlmCredentials::ApiKey(owned(key)) },
        ),
        None => None,
    }
}

/// Builds the client configuration for a session's LLM selection. Unknown
/// providers, and API-key providers without a configured key, yield `None`.
pub fn create_llm_config(
    provider: &str,
    model: &str,
    api_key_store: &ApiKeyStore,
    cloud_provider_store: &CloudProviderStore,
) -> (r: Option<LlmClientConfig>)
    ensures
        r is Some <==> llm_config_available(provider@, *api_key_store),
        r matches Some(c) ==> {
            &&& llm_provider_named(provider@) == Some(c.provider)
            &&& c.model@ == model@
            &&& credentials_for(c.credentials, c.provider, provider@, *api_key_store, *cloud_provider_store)
        },
        provider@ == "openai"@ ==> (r matches Some(c) ==> c.provider == LlmProvider::OpenAi),
        provider@ == "groq"@ ==> (r matches Some(c) ==> c.provider == LlmProvider::Groq),
        provider@ == "anthropic"@ ==> (r matches Some(c) ==> c.provider == LlmProvider::Anthropic),
        provider@ == "xai"@ ==> (r matches Some(c) ==> c.provider == LlmProvider::XAi),
        provider@ == "gcp"@ ==> (r matches Some(c) ==> c.provider == LlmProvider::Gcp),
        provider@ == "aws"@ ==> (r matches Some(c) ==> c.provider == LlmProvider::Aws),
{
    proof {
        lemma_provider_names_differ();
    }
    if str_equal(provider, "openai") {
        api_key_config(LlmProvider::OpenAi, provider, model, api_key_store)
    } else if str_equal(provider, "groq") {
        api_key_config(LlmProvider::Groq, provider, model, api_key_store)
    } else if str_equal(provider, "anthropic") {
        api_key_config(LlmProvider::Anthropic, provider, model, api_key_store)
    } else if str_equal(provider, "xai") {
        api_key_config(LlmProvider::XAi, provider, model, api_key_store)
    } else if str_equal(provider, "gcp") {
        Some(LlmClientConfig {
            provider: LlmProvider::Gcp,
            model: owned(model),
            credentials: LlmCredentials::Gcp(cloud_provider_store.gcp.duplicate()),
        })
    } else if str_equal(provider, "aws") {
        Some(LlmClientConfig {
            provider: LlmProvider::Aws,
            model: owned(model),
            credentials: LlmCredentials::Aws(cloud_provider_store.aws.duplicate()),
        })
    } else {
        None
    }
}

/// The error a client reports when handed credentials of the wrong kind.
pub open spec fn wrong_credentials_message(client: Seq<char>, expected: Seq<char>) -> Seq<char> {
    client + " requires "@ + expected + " credentials"@
}

fn wrong_credentials(client: &str, expected: &str) -> (e: LlmClientError)
    ensures
        e matches LlmClientError::Config(m) && m@ == wrong_credentials_message(client@, expected@),
{
    let m = text_concat(client, " requires ");
    let m = text_concat(m.as_str(), expected);
    let m = text_concat(m.as_str(), " credentials");
    LlmClientError::Config(m)
}

/// Settings of a client that authenticates with an API key.
pub struct ApiKeyClientSettings {
    pub model: String,
    pub api_key: String,
}

/// Settings of the Vertex AI client.
pub struct GcpClientSettings {
    pub model: String,
    pub project_id: String,
    pub region: String,
}

/// Settings of the Bedrock client.
pub struct AwsClientSettings {
    pub model: String,
    pub region: String,
}

/// The model and key of an API-key client (OpenAI, Groq, Anthropic, xAI);
/// other credentials are a configuration error naming the client.
pub fn api_key_client_settings(config: &LlmClientConfig, client: &str) -> (r: Result<ApiKeyClientSettings, LlmClientError>)
    ensures
        match config.credentials {
            LlmCredentials::ApiKey(k) => r matches Ok(s) && s.model@ == config.model@ && s.api_key@ == k@,
            _ => r matches Err(LlmClientError::Config(m)) && m@ == wrong_credentials_message(client@, "ApiKey"@),
        },
{
    match &config.credentials {
        LlmCredentials::ApiKey(key) => Ok(ApiKeyClientSettings { model: config.model.clone(), api_key: key.clone() }),
        _ => Err(wrong_credentials(client, "ApiKey")),
    }
}

/// The model, project and region of the Vertex AI client; other credentials
/// are a configuration error.
pub fn gcp_client_settings(config: &LlmClientConfig) -> (r: Result<GcpClientSettings, LlmClientError>)
    ensures
        match config.credentials {
            LlmCredentials::Gcp(g) => r matches Ok(s) && s.model@ == config.model@
                && s.project_id@ == g.project_id@ && s.region@ == g.region@,
            _ => r matches Err(LlmClientError::Config(m)) && m@ == wrong_credentials_message("GcpClient"@, "Gcp"@),
        },
{
    match &config.credentials {
        LlmCredentials::Gcp(g) => Ok(GcpClientSettings {
            model: config.model.clone(),
            project_id: g.project_id.clone(),
            region: g.region.clone(),
        }),
        _ => Err(wrong_credentials("GcpClient", "Gcp")),
    }
}

/// The model and region of the Bedrock client; other credentials are a
/// configuration error.
pub fn aws_client_settings(config: &LlmClientConfig) -> (r: Result<AwsClientSettings, LlmClientError>)
    ensures
        match config.credentials {
            LlmCredentials::Aws(a) => r matches Ok(s) && s.model@ == config.model@ && s.region@ == a.region@,
            _ => r matches Err(LlmClientError::Config(m)) && m@ == wrong_credentials_message("AwsClient"@, "Aws"@),
        },
{
    match &config.credentials {
        LlmCredentials::Aws(a) => Ok(AwsClientSettings { model: config.model.clone(), region: a.region.clone() }),
        _ => Err(wrong_credentials("AwsClient", "Aws")),
    }
}

} // verus!
