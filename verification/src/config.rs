//! Server configuration: which settings are required, and the credential
//! lists the stores are built from.
use vstd::prelude::*;

use crate::stores::{settings_view, setting_lookup, ApiKeyStore};

verus! {

/// Settings as read from the configuration file and the environment, before validation.
pub struct RawServerConfig {
    pub http_host: String,
    pub http_port: u16,
    pub signal_http_url: String,
    pub signal_system_ws_url: String,
    pub signal_session_ws_url: String,
    pub edge_grpc_url: String,
    pub listening_engine_grpc_uds: String,
    pub speaking_engine_grpc_uds: String,
    pub openai_api_key: Option<String>,
    pub groq_api_key: Option<String>,
    pub anthropic_api_key: Option<String>,
    pub xai_api_key: Option<String>,
    pub deepgram_api_key: Option<String>,
    pub speechmatics_api_key: Option<String>,
    pub cartesia_api_key: Option<String>,
    pub elevenlabs_api_key: Option<String>,
    pub gcp_project_id: Option<String>,
    pub gcp_region: Option<String>,
    pub aws_region: Option<String>,
}

/// Whether the environment variables that the cloud SDKs read on their own are set.
pub struct CredentialEnvironment {
    pub google_application_credentials: bool,
    pub aws_access_key_id: bool,
    pub aws_secret_access_key: bool,
}

/// A setting the orchestrator cannot start without.
#[derive(Debug, Clone, Copy, PartialEq, Eq, Structural)]
pub enum RequiredVariable {
    OpenAiApiKey,
    GroqApiKey,
    AnthropicApiKey,
    XaiApiKey,
    DeepgramApiKey,
    SpeechmaticsApiKey,
    CartesiaApiKey,
    ElevenlabsApiKey,
    GcpProjectId,
    GcpRegion,
    AwsRegion,
    GoogleApplicationCredentials,
    AwsAccessKeyId,
    AwsSecretAccessKey,
}

pub open spec fn variable_name(v: RequiredVariable) -> Seq<char> {
    match v {
        RequiredVariable::OpenAiApiKey => "OPENAI_API_KEY"@,
        RequiredVariable::GroqApiKey => "GROQ_API_KEY"@,
        RequiredVariable::AnthropicApiKey => "ANTHROPIC_API_KEY"@,
        RequiredVariable::XaiApiKey => "XAI_API_KEY"@,
        RequiredVariable::DeepgramApiKey => "DEEPGRAM_API_KEY"@,
        RequiredVariable::SpeechmaticsApiKey => "SPEECHMATICS_API_KEY"@,
        RequiredVariable::CartesiaApiKey => "CARTESIA_API_KEY"@,
        RequiredVariable::ElevenlabsApiKey => "ELEVENLABS_API_KEY"@,
        RequiredVariable::GcpProjectId => "GCP_PROJECT_ID"@,
        RequiredVariable::GcpRegion => "GCP_REGION"@,
        RequiredVariable::AwsRegion => "AWS_REGION"@,
        RequiredVariable::GoogleApplicationCredentials => "GOOGLE_APPLICATION_CREDENTIALS"@,
        RequiredVariable::AwsAccessKeyId => "AWS_ACCESS_KEY_ID"@,
        RequiredVariable::AwsSecretAccessKey => "AWS_SECRET_ACCESS_KEY"@,
    }
}

impl RequiredVariable {
    /// The environment variable's name.
    pub fn name(&self) -> (r: &'static str)
        ensures
            r@ == variable_name(*self),
    {
        match self {
            RequiredVariable::OpenAiApiKey => "OPENAI_API_KEY",
            RequiredVariable::GroqApiKey => "GROQ_API_KEY",
            RequiredVariable::AnthropicApiKey => "ANTHROPIC_API_KEY",
            RequiredVariable::XaiApiKey => "XAI_API_KEY",
            RequiredVariable::DeepgramApiKey => "DEEPGRAM_API_KEY",
            RequiredVariable::SpeechmaticsApiKey => "SPEECHMATICS_API_KEY",
            RequiredVariable::CartesiaApiKey => "CARTESIA_API_KEY",
            RequiredVariable::ElevenlabsApiKey => "ELEVENLABS_API_KEY",
            RequiredVariable::GcpProjectId => "GCP_PROJECT_ID",
            RequiredVariable::GcpRegion => "GCP_REGION",
            RequiredVariable::AwsRegion => "AWS_REGION",
            RequiredVariable::GoogleApplicationCredentials => "GOOGLE_APPLICATION_CREDENTIALS",
            RequiredVariable::AwsAccessKeyId => "AWS_ACCESS_KEY_ID",
            RequiredVariable::AwsSecretAccessKey => "AWS_SECRET_ACCESS_KEY",
        }
    }
}

/// Validation failed: the named setting must be set.
#[derive(Debug, Clone, Copy, PartialEq, Eq, Structural)]
pub enum ConfigValidationError {
    MissingVariable(RequiredVariable),
}

/// The first required setting, in the order they are checked, that is missing.
pub open spec fn first_missing(raw: RawServerConfig, env: CredentialEnvironment) -> Option<RequiredVariable> {
    if raw.openai_api_key is None {
        Some(RequiredVariable::OpenAiApiKey)
    } else if raw.groq_api_key is None {
        Some(RequiredVariable::GroqApiKey)
    } else if raw.anthropic_api_key is None {
        Some(RequiredVariable::AnthropicApiKey)
    } else if raw.xai_api_key is None {
        Some(RequiredVariable::XaiApiKey)
    } else if raw.deepgram_api_key is None {
        Some(RequiredVariable::DeepgramApiKey)
    } else if raw.speechmatics_api_key is None {
        Some(RequiredVariable::SpeechmaticsApiKey)
    } else if raw.cartesia_api_key is None {
        Some(RequiredVariable::CartesiaApiKey)
    } else if raw.elevenlabs_api_key is None {
        Some(RequiredVariable::ElevenlabsApiKey)
    } else if raw.gcp_project_id is None {
        Some(RequiredVariable::GcpProjectId)
    } else if raw.gcp_region is None {
        Some(RequiredVariable::GcpRegion)
    } else if raw.aws_region is None {
        Some(RequiredVariable::AwsRegion)
    } else if !env.google_application_credentials {
        Some(RequiredVariable::GoogleApplicationCredentials)
    } else if !env.aws_access_key_id {
        Some(RequiredVariable::AwsAccessKeyId)
    } else if !env.aws_secret_access_key {
        Some(RequiredVariable::AwsSecretAccessKey)
    } else {
        None
    }
}

/// The validated server configuration: every provider key and cloud setting is present.
pub struct ServerConfig {
    pub http_host: String,
    pub http_port: u16,
    pub signal_http_url: String,
    pub signal_system_ws_url: String,
    pub signal_session_ws_url: String,
    pub edge_grpc_url: String,
    pub listening_engine_grpc_uds: String,
    pub speaking_engine_grpc_uds: String,
    pub openai_api_key: String,
    pub groq_api_key: String,
    pub anthropic_api_key: String,
    pub xai_api_key: String,
    pub deepgram_api_key: String,
    pub speechmatics_api_key: String,
    pub cartesia_api_key: String,
    pub elevenlabs_api_key: String,
    pub gcp_project_id: String,
    pub gcp_region: String,
    pub aws_region: String,
}

/// The validated configuration carries every raw setting unchanged.
pub open spec fn validated_from(c: ServerConfig, raw: RawServerConfig) -> bool {
    &&& c.http_host == raw.http_host
    &&& c.http_port == raw.http_port
    &&& c.signal_http_url == raw.signal_http_url
    &&& c.signal_system_ws_url == raw.signal_system_ws_url
    &&& c.signal_session_ws_url == raw.signal_session_ws_url
    &&& c.edge_grpc_url == raw.edge_grpc_url
    &&& c.listening_engine_grpc_uds == raw.listening_engine_grpc_uds
    &&& c.speaking_engine_grpc_uds == raw.speaking_engine_grpc_uds
    &&& raw.openai_api_key == Some(c.openai_api_key)
    &&& raw.groq_api_key == Some(c.groq_api_key)
    &&& raw.anthropic_api_key == Some(c.anthropic_api_key)
    &&& raw.xai_api_key == Some(c.xai_api_key)
    &&& raw.deepgram_api_key == Some(c.deepgram_api_key)
    &&& raw.speechmatics_api_key == Some(c.speechmatics_api_key)
    &&& raw.cartesia_api_key == Some(c.cartesia_api_key)
    &&& raw.elevenlabs_api_key == Some(c.elevenlabs_api_key)
    &&& raw.gcp_project_id == Some(c.gcp_project_id)
    &&& raw.gcp_region == Some(c.gcp_region)
    &&& raw.aws_region == Some(c.aws_region)
}

fn require(value: Option<String>, variable: RequiredVariable) -> (r: Result<String, ConfigValidationError>)
    ensures
        match value {
            Some(v) => r == Ok::<String, ConfigValidationError>(v),
            None => r == Err::<String, ConfigValidationError>(ConfigValidationError::MissingVariable(variable)),
        },
{
    match value {
        Some(v) => Ok(v),
        None => Err(ConfigValidationError::MissingVariable(variable)),
    }
}

fn pair(name: &str, value: &String) -> (r: (String, String))
    ensures
        r.0@ == name@,
        r.1@ == value@,
{
    (name.to_owned(), value.clone())
}

impl ServerConfig {
    /// Checks that every required setting is present, in a fixed order, and
    /// reports the first one that is missing.
    pub fn validate(raw: RawServerConfig, env: CredentialEnvironment) -> (r: Result<ServerConfig, ConfigValidationError>)
        ensures
            match first_missing(raw, env) {
                Some(v) => r == Err::<ServerConfig, ConfigValidationError>(ConfigValidationError::MissingVariable(v)),
                None => r matches Ok(c) && validated_from(c, raw),
            },
            r matches Ok(c) ==> {
                &&& c.http_host == raw.http_host
                &&& c.http_port == raw.http_port
                &&& c.signal_http_url == raw.signal_http_url
                &&& c.signal_system_ws_url == raw.signal_system_ws_url
                &&& c.signal_session_ws_url == raw.signal_session_ws_url
                &&& c.edge_grpc_url == raw.edge_grpc_url
                &&& c.listening_engine_grpc_uds == raw.listening_engine_grpc_uds
                &&& c.speaking_engine_grpc_uds == raw.speaking_engine_grpc_uds
                &&& raw.openai_api_key == Some(c.openai_api_key)
                &&& raw.groq_api_key == Some(c.groq_api_key)
                &&& raw.anthropic_api_key == Some(c.anthropic_api_key)
                &&& raw.xai_api_key == Some(c.xai_api_key)
                &&& raw.deepgram_api_key == Some(c.deepgram_api_key)
                &&& raw.speechmatics_api_key == Some(c.speechmatics_api_key)
                &&& raw.cartesia_api_key == Some(c.cartesia_api_key)
                &&& raw.elevenlabs_api_key == Some(c.elevenlabs_api_key)
                &&& raw.gcp_project_id == Some(c.gcp_project_id)
                &&& raw.gcp_region == Some(c.gcp_region)
                &&& raw.aws_region == Some(c.aws_region)
            },
    {
        let ghost raw0 = raw;
        let openai_api_key = require(raw.openai_api_key, RequiredVariable::OpenAiApiKey)?;
        let groq_api_key = require(raw.groq_api_key, RequiredVariable::GroqApiKey)?;
        let anthropic_api_key = require(raw.anthropic_api_key, RequiredVariable::AnthropicApiKey)?;
        let xai_api_key = require(raw.xai_api_key, RequiredVariable::XaiApiKey)?;
        let deepgram_api_key = require(raw.deepgram_api_key, RequiredVariable::DeepgramApiKey)?;
        let speechmatics_api_key = require(raw.speechmatics_api_key, RequiredVariable::SpeechmaticsApiKey)?;
        let cartesia_api_key = require(raw.cartesia_api_key, RequiredVariable::CartesiaApiKey)?;
        let elevenlabs_api_key = require(raw.elevenlabs_api_key, RequiredVariable::ElevenlabsApiKey)?;
        let gcp_project_id = require(raw.gcp_project_id, RequiredVariable::GcpProjectId)?;
        let gcp_region = require(raw.gcp_region, RequiredVariable::GcpRegion)?;
        let aws_region = require(raw.aws_region, RequiredVariable::AwsRegion)?;
        if !env.google_application_credentials {
            return Err(ConfigValidationError::MissingVariable(RequiredVariable::GoogleApplicationCredentials));
        }
        if !env.aws_access_key_id {
            return Err(ConfigValidationError::MissingVariable(RequiredVariable::AwsAccessKeyId));
        }
        if !env.aws_secret_access_key {
            return Err(ConfigValidationError::MissingVariable(RequiredVariable::AwsSecretAccessKey));
        }
        Ok(ServerConfig {
            http_host: raw.http_host,
            http_port: raw.http_port,
            signal_http_url: raw.signal_http_url,
            signal_system_ws_url: raw.signal_system_ws_url,
            signal_session_ws_url: raw.signal_session_ws_url,
            edge_grpc_url: raw.edge_grpc_url,
            listening_engine_grpc_uds: raw.listening_engine_grpc_uds,
            speaking_engine_grpc_uds: raw.speaking_engine_grpc_uds,
            openai_api_key,
            groq_api_key,
            anthropic_api_key,
            xai_api_key,
            deepgram_api_key,
            speechmatics_api_key,
            cartesia_api_key,
            elevenlabs_api_key,
            gcp_project_id,
            gcp_region,
            aws_region,
        })
    }

    /// The LLM providers' keys: `openai`, `groq`, `anthropic`, `xai`.
    pub fn llm_api_keys(&self) -> (keys: Vec<(String, String)>)
        ensures
            settings_view(keys@) == seq![
                ("openai"@, self.openai_api_key@),
                ("groq"@, self.groq_api_key@),
                ("anthropic"@, self.anthropic_api_key@),
                ("xai"@, self.xai_api_key@),
            ],
    {
        let mut keys: Vec<(String, String)> = Vec::new();
        keys.push(pair("openai", &self.openai_api_key));
        keys.push(pair("groq", &self.groq_api_key));
        keys.push(pair("anthropic", &self.anthropic_api_key));
        keys.push(pair("xai", &self.xai_api_key));
        assert(settings_view(keys@) =~= seq![
            ("openai"@, self.openai_api_key@),
            ("groq"@, self.groq_api_key@),
            ("anthropic"@, self.anthropic_api_key@),
            ("xai"@, self.xai_api_key@),
        ]);
        keys
    }

    /// The speech-to-text providers' keys: `deepgram`, `speechmatics`.
    pub fn stt_api_keys(&self) -> (keys: Vec<(String, String)>)
        ensures
            settings_view(keys@) == seq![
                ("deepgram"@, self.deepgram_api_key@),
                ("speechmatics"@, self.speechmatics_api_key@),
            ],
    {
        let mut keys: Vec<(String, String)> = Vec::new();
        keys.push(pair("deepgram", &self.deepgram_api_key));
        keys.push(pair("speechmatics", &self.speechmatics_api_key));
        assert(settings_view(keys@) =~= seq![
            ("deepgram"@, self.deepgram_api_key@),
            ("speechmatics"@, self.speechmatics_api_key@),
        ]);
        keys
    }

    /// The text-to-speech providers' keys: `cartesia`, `elevenlabs`.
    pub fn tts_api_keys(&self) -> (keys: Vec<(String, String)>)
        ensures
            settings_view(keys@) == seq![
                ("cartesia"@, self.cartesia_api_key@),
                ("elevenlabs"@, self.elevenlabs_api_key@),
            ],
    {
        let mut keys: Vec<(String, String)> = Vec::new();
        keys.push(pair("cartesia", &self.cartesia_api_key));
        keys.push(pair("elevenlabs", &self.elevenlabs_api_key));
        assert(settings_view(keys@) =~= seq![
            ("cartesia"@, self.cartesia_api_key@),
            ("elevenlabs"@, self.elevenlabs_api_key@),
        ]);
        keys
    }

    /// The cloud settings: `gcp_project_id`, `gcp_region`, `aws_region`.
    pub fn cloud_provider_configs(&self) -> (configs: Vec<(String, String)>)
        ensures
            settings_view(configs@) == seq![
                ("gcp_project_id"@, self.gcp_project_id@),
                ("gcp_region"@, self.gcp_region@),
                ("aws_region"@, self.aws_region@),
            ],
    {
        let mut configs: Vec<(String, String)> = Vec::new();
        configs.push(pair("gcp_project_id", &self.gcp_project_id));
        configs.push(pair("gcp_region", &self.gcp_region));
        configs.push(pair("aws_region", &self.aws_region));
        assert(settings_view(configs@) =~= seq![
            ("gcp_project_id"@, self.gcp_project_id@),
            ("gcp_region"@, self.gcp_region@),
            ("aws_region"@, self.aws_region@),
        ]);
        configs
    }
}

/// Validation keeps every setting in the field of the same name: the two
/// engines' sockets, the service addresses, the provider keys and the cloud
/// settings are carried over as read, never exchanged.
pub proof fn validation_keeps_each_setting(raw: RawServerConfig, env: CredentialEnvironment, c: ServerConfig)
    requires
        first_missing(raw, env) is None,
        validated_from(c, raw),
    ensures
        c.http_host@ == raw.http_host@,
        c.signal_http_url@ == raw.signal_http_url@,
        c.signal_system_ws_url@ == raw.signal_system_ws_url@,
        c.signal_session_ws_url@ == raw.signal_session_ws_url@,
        c.edge_grpc_url@ == raw.edge_grpc_url@,
        c.listening_engine_grpc_uds@ == raw.listening_engine_grpc_uds@,
        c.speaking_engine_grpc_uds@ == raw.speaking_engine_grpc_uds@,
        c.http_port == raw.http_port,
        raw.openai_api_key matches Some(v) && v@ == c.openai_api_key@,
        raw.groq_api_key matches Some(v) && v@ == c.groq_api_key@,
        raw.anthropic_api_key matches Some(v) && v@ == c.anthropic_api_key@,
        raw.xai_api_key matches Some(v) && v@ == c.xai_api_key@,
        raw.deepgram_api_key matches Some(v) && v@ == c.deepgram_api_key@,
        raw.speechmatics_api_key matches Some(v) && v@ == c.speechmatics_api_key@,
        raw.cartesia_api_key matches Some(v) && v@ == c.cartesia_api_key@,
        raw.elevenlabs_api_key matches Some(v) && v@ == c.elevenlabs_api_key@,
        raw.gcp_project_id matches Some(v) && v@ == c.gcp_project_id@,
        raw.gcp_region matches Some(v) && v@ == c.gcp_region@,
        raw.aws_region matches Some(v) && v@ == c.aws_region@,
{
}

/// The key configured for each LLM provider is the key a store built from
/// `llm_api_keys` serves for it, and no other provider has a key.
pub proof fn law_llm_keys_reach_store(config: ServerConfig, store: ApiKeyStore)
    requires
        forall|p: Seq<char>| #[trigger] store.llm_key(p) == setting_lookup(seq![
            ("openai"@, config.openai_api_key@),
            ("groq"@, config.groq_api_key@),
            ("anthropic"@, config.anthropic_api_key@),
            ("xai"@, config.xai_api_key@),
        ], p),
    ensures
        store.llm_key("openai"@) == Some(config.openai_api_key@),
        store.llm_key("groq"@) == Some(config.groq_api_key@),
        store.llm_key("anthropic"@) == Some(config.anthropic_api_key@),
        store.llm_key("xai"@) == Some(config.xai_api_key@),
        forall|p: Seq<char>|
            p != "openai"@ && p != "groq"@ && p != "anthropic"@ && p != "xai"@ ==> #[trigger] store.llm_key(p) is None,
{
    reveal_with_fuel(setting_lookup, 5);
    reveal_strlit("openai");
    reveal_strlit("groq");
    reveal_strlit("anthropic");
    reveal_strlit("xai");
    let s = seq![
        ("openai"@, config.openai_api_key@),
        ("groq"@, config.groq_api_key@),
        ("anthropic"@, config.anthropic_api_key@),
        ("xai"@, config.xai_api_key@),
    ];
    assert(s.drop_last() =~= seq![
        ("openai"@, config.openai_api_key@),
        ("groq"@, config.groq_api_key@),
        ("anthropic"@, config.anthropic_api_key@),
    ]);
    assert(s.drop_last().drop_last() =~= seq![
        ("openai"@, config.openai_api_key@),
        ("groq"@, config.groq_api_key@),
    ]);
    assert(s.drop_last().drop_last().drop_last() =~= seq![("openai"@, config.openai_api_key@)]);
    assert(s.drop_last().drop_last().drop_last().drop_last() =~= Seq::<(Seq<char>, Seq<char>)>::empty());
    assert("openai"@.len() == 6 && "groq"@.len() == 4 && "anthropic"@.len() == 9 && "xai"@.len() == 3);
    assert("xai"@ != "openai"@ && "anthropic"@ != "openai"@ && "groq"@ != "openai"@);
    assert("xai"@ != "groq"@ && "anthropic"@ != "groq"@ && "xai"@ != "anthropic"@);
    assert(setting_lookup(s, "openai"@) == setting_lookup(s.drop_last(), "openai"@));
    assert(setting_lookup(s.drop_last(), "openai"@) == setting_lookup(s.drop_last().drop_last(), "openai"@));
    assert(setting_lookup(s.drop_last().drop_last(), "openai"@) == setting_lookup(s.drop_last().drop_last().drop_last(), "openai"@));
    assert(setting_lookup(s, "groq"@) == setting_lookup(s.drop_last(), "groq"@));
    assert(setting_lookup(s.drop_last(), "groq"@) == setting_lookup(s.drop_last().drop_last(), "groq"@));
    assert(store.llm_key("openai"@) == setting_lookup(s, "openai"@));
    assert(store.llm_key("groq"@) == setting_lookup(s, "groq"@));
    assert(store.llm_key("anthropic"@) == setting_lookup(s, "anthropic"@));
    assert(store.llm_key("xai"@) == setting_lookup(s, "xai"@));
}

} // verus!
