use saasy_orchestrator::edge::{EdgeCache, ProviderCatalog, ProviderModel};
use saasy_orchestrator::llm::factory::{
    api_key_client_settings, aws_client_settings, create_llm_config, gcp_client_settings,
};
use saasy_orchestrator::llm::providers::{
    anthropic_event_step, bedrock_conversation, openai_event_step, vertex_endpoint_url, AnthropicDelta,
    AnthropicMessage, AnthropicRequestWithSystem, AnthropicStreamEvent, BedrockRole, GcpDelta, GcpRequest,
    GcpStreamChoice, GcpStreamResponse, OpenAiDelta, OpenAiRequest, OpenAiStreamChoice, OpenAiStreamResponse, SseStep,
    ANTHROPIC_MAX_TOKENS,
};
use saasy_orchestrator::llm::types::{LlmClientConfig, LlmClientError, LlmCredentials, LlmMessage, LlmProvider, LlmRole};
use saasy_orchestrator::session::admission::{admit_session, SessionAdmission, SessionCreated};
use saasy_orchestrator::stores::{ApiKeyStore, AwsConfig, CloudProviderStore, GcpConfig};

fn stores() -> (ApiKeyStore, CloudProviderStore) {
    let keys = ApiKeyStore::new(
        vec![("openai".to_string(), "sk-o".to_string()), ("anthropic".to_string(), "sk-a".to_string())],
        vec![],
        vec![],
    );
    let cloud = CloudProviderStore {
        gcp: GcpConfig { project_id: "proj".to_string(), region: "europe-west4".to_string() },
        aws: AwsConfig { region: "us-west-2".to_string() },
    };
    (keys, cloud)
}

fn msg(role: LlmRole, content: &str) -> LlmMessage {
    LlmMessage { role, content: content.to_string() }
}

fn model(provider: &str, model_id: &str) -> ProviderModel {
    ProviderModel { provider: provider.to_string(), model_id: model_id.to_string() }
}

#[test]
fn llm_config_for_api_key_provider() {
    let (keys, cloud) = stores();
    let c = create_llm_config("openai", "gpt-4o", &keys, &cloud).unwrap();
    assert_eq!(c.provider, LlmProvider::OpenAi);
    assert_eq!(c.model, "gpt-4o");
    match c.credentials {
        LlmCredentials::ApiKey(k) => assert_eq!(k, "sk-o"),
        _ => panic!("expected an API key"),
    }
    let c = create_llm_config("anthropic", "sonnet-4", &keys, &cloud).unwrap();
    assert_eq!(c.provider, LlmProvider::Anthropic);
}

#[test]
fn llm_config_needs_a_key_for_api_key_providers() {
    let (keys, cloud) = stores();
    assert!(create_llm_config("groq", "llama", &keys, &cloud).is_none());
    assert!(create_llm_config("xai", "grok", &keys, &cloud).is_none());
}

#[test]
fn llm_config_for_cloud_providers() {
    let (keys, cloud) = stores();
    let c = create_llm_config("gcp", "gemini", &keys, &cloud).unwrap();
    assert_eq!(c.provider, LlmProvider::Gcp);
    match c.credentials {
        LlmCredentials::Gcp(g) => {
            assert_eq!(g.project_id, "proj");
            assert_eq!(g.region, "europe-west4");
        }
        _ => panic!("expected GCP credentials"),
    }
    let c = create_llm_config("aws", "nova", &keys, &cloud).unwrap();
    assert_eq!(c.provider, LlmProvider::Aws);
    match c.credentials {
        LlmCredentials::Aws(a) => assert_eq!(a.region, "us-west-2"),
        _ => panic!("expected AWS credentials"),
    }
}

#[test]
fn llm_config_unknown_provider() {
    let (keys, cloud) = stores();
    assert!(create_llm_config("azure", "m", &keys, &cloud).is_none());
    assert!(create_llm_config("OpenAI", "m", &keys, &cloud).is_none());
    assert_eq!(LlmProvider::default(), LlmProvider::OpenAi);
}

#[test]
fn client_settings_reject_wrong_credentials() {
    let cfg = LlmClientConfig {
        provider: LlmProvider::OpenAi,
        model: "m".to_string(),
        credentials: LlmCredentials::Aws(AwsConfig { region: "r".to_string() }),
    };
    match api_key_client_settings(&cfg, "OpenAiClient") {
        Err(LlmClientError::Config(m)) => assert_eq!(m, "OpenAiClient requires ApiKey credentials"),
        _ => panic!("expected a configuration error"),
    }
    match gcp_client_settings(&cfg) {
        Err(LlmClientError::Config(m)) => assert_eq!(m, "GcpClient requires Gcp credentials"),
        _ => panic!("expected a configuration error"),
    }
    let s = aws_client_settings(&cfg).unwrap();
    assert_eq!(s.model, "m");
    assert_eq!(s.region, "r");
    let cfg = LlmClientConfig {
        provider: LlmProvider::Groq,
        model: "llama".to_string(),
        credentials: LlmCredentials::ApiKey("gsk".to_string()),
    };
    let s = api_key_client_settings(&cfg, "GroqClient").unwrap();
    assert_eq!(s.api_key, "gsk");
    assert_eq!(s.model, "llama");
    match aws_client_settings(&cfg) {
        Err(LlmClientError::Config(m)) => assert_eq!(m, "AwsClient requires Aws credentials"),
        _ => panic!("expected a configuration error"),
    }
}

#[test]
fn vertex_endpoint() {
    let cfg = LlmClientConfig {
        provider: LlmProvider::Gcp,
        model: "gemini".to_string(),
        credentials: LlmCredentials::Gcp(GcpConfig { project_id: "p1".to_string(), region: "us-central1".to_string() }),
    };
    let s = gcp_client_settings(&cfg).unwrap();
    assert_eq!(
        vertex_endpoint_url(&s),
        "https://aiplatform.googleapis.com/v1/projects/p1/locations/us-central1/endpoints/openapi/chat/completions"
    );
    let messages = vec![msg(LlmRole::User, "hi")];
    let r = GcpRequest::streaming("gemini", &messages);
    assert_eq!(r.reasoning_effort, Some("minimal"));
    assert!(r.stream);
}

#[test]
fn anthropic_request_separates_system_prompt() {
    let messages = vec![
        msg(LlmRole::System, "be brief"),
        msg(LlmRole::User, "hello"),
        msg(LlmRole::System, "second system"),
        msg(LlmRole::Assistant, "hi there"),
    ];
    let r = AnthropicRequestWithSystem::streaming("sonnet-4", &messages);
    assert_eq!(r.system, Some("be brief"));
    assert_eq!(r.messages.len(), 2);
    assert_eq!(r.messages[0].role, "user");
    assert_eq!(r.messages[0].content, "hello");
    assert_eq!(r.messages[1].role, "assistant");
    assert_eq!(r.messages[1].content, "hi there");
    assert_eq!(r.max_tokens, ANTHROPIC_MAX_TOKENS);
    assert_eq!(r.max_tokens, 4096);
    assert!(r.stream);
    let none = AnthropicRequestWithSystem::streaming("sonnet-4", &messages[1..2]);
    assert_eq!(none.system, None);
}

#[test]
fn anthropic_message_roles() {
    assert_eq!(AnthropicMessage::from_message(&msg(LlmRole::System, "s")).role, "user");
    assert_eq!(AnthropicMessage::from_message(&msg(LlmRole::User, "u")).role, "user");
    let a = AnthropicMessage::from_message(&msg(LlmRole::Assistant, "a"));
    assert_eq!(a.role, "assistant");
    assert_eq!(a.content, "a");
}

#[test]
fn anthropic_stream_events() {
    assert_eq!(anthropic_event_step("message_stop"), SseStep::Stop);
    assert_eq!(anthropic_event_step("content_block_delta"), SseStep::Decode);
    assert_eq!(anthropic_event_step("message_start"), SseStep::Skip);
    let e = AnthropicStreamEvent {
        event_type: "content_block_delta".to_string(),
        delta: Some(AnthropicDelta { delta_type: "text_delta".to_string(), text: Some("Hel".to_string()) }),
    };
    assert_eq!(e.text_delta(), Some("Hel".to_string()));
    let e = AnthropicStreamEvent {
        event_type: "content_block_delta".to_string(),
        delta: Some(AnthropicDelta { delta_type: "input_json_delta".to_string(), text: Some("x".to_string()) }),
    };
    assert_eq!(e.text_delta(), None);
    let e = AnthropicStreamEvent { event_type: "ping".to_string(), delta: None };
    assert_eq!(e.text_delta(), None);
}

#[test]
fn openai_compatible_stream_events() {
    assert_eq!(openai_event_step("[DONE]"), SseStep::Stop);
    assert_eq!(openai_event_step("{\"choices\":[]}"), SseStep::Decode);
    let r = OpenAiStreamResponse {
        choices: vec![
            OpenAiStreamChoice { delta: OpenAiDelta { content: Some("Hi".to_string()) } },
            OpenAiStreamChoice { delta: OpenAiDelta { content: Some("ignored".to_string()) } },
        ],
    };
    assert_eq!(r.first_content(), Some("Hi".to_string()));
    assert_eq!(OpenAiStreamResponse { choices: vec![] }.first_content(), None);
    let r = GcpStreamResponse { choices: vec![GcpStreamChoice { delta: GcpDelta { content: None } }] };
    assert_eq!(r.first_content(), None);
    let r = GcpStreamResponse { choices: vec![GcpStreamChoice { delta: GcpDelta { content: Some(".".to_string()) } }] };
    assert_eq!(r.first_content(), Some(".".to_string()));
}

#[test]
fn bedrock_conversation_shape() {
    let messages = vec![
        msg(LlmRole::System, "sys1"),
        msg(LlmRole::User, "u1"),
        msg(LlmRole::Assistant, "a1"),
        msg(LlmRole::System, "sys2"),
    ];
    let c = bedrock_conversation(&messages);
    assert_eq!(c.system, Some(vec!["sys1".to_string(), "sys2".to_string()]));
    assert_eq!(c.messages, vec![(BedrockRole::User, "u1".to_string()), (BedrockRole::Assistant, "a1".to_string())]);
    let c = bedrock_conversation(&messages[1..2]);
    assert_eq!(c.system, None);
}

#[test]
fn edge_cache_lookups_and_update() {
    let mut cache = EdgeCache::new(ProviderCatalog {
        llm: vec![model("openai", "gpt-4o"), model("anthropic", "sonnet-4")],
        tts: vec![model("cartesia", "sonic")],
        stt: vec![model("deepgram", "nova-3")],
    });
    assert!(cache.has_llm_provider("openai", "gpt-4o"));
    assert!(!cache.has_llm_provider("openai", "sonnet-4"));
    assert!(cache.has_tts_provider("cartesia", "sonic"));
    assert!(!cache.has_tts_provider("deepgram", "nova-3"));
    assert!(cache.has_stt_provider("deepgram", "nova-3"));
    cache.update(ProviderCatalog { llm: vec![model("groq", "llama")], tts: vec![], stt: vec![] });
    assert!(!cache.has_llm_provider("openai", "gpt-4o"));
    assert!(cache.has_llm_provider("groq", "llama"));
    assert!(!cache.has_stt_provider("deepgram", "nova-3"));
}

fn created(requires_ai: bool, llm: (&str, &str), tts: (&str, &str), stt: (&str, &str)) -> SessionCreated {
    SessionCreated {
        session_id: "s1".to_string(),
        requires_ai,
        llm_provider: llm.0.to_string(),
        llm_model_id: llm.1.to_string(),
        tts_provider: tts.0.to_string(),
        tts_model_id: tts.1.to_string(),
        stt_provider: stt.0.to_string(),
        stt_model_id: stt.1.to_string(),
    }
}

#[test]
fn session_admission_checks_in_order() {
    let (keys, cloud) = stores();
    let cache = EdgeCache::new(ProviderCatalog {
        llm: vec![model("openai", "gpt-4o"), model("groq", "llama")],
        tts: vec![model("cartesia", "sonic")],
        stt: vec![model("deepgram", "nova-3")],
    });
    let ok = ("cartesia", "sonic");
    let stt = ("deepgram", "nova-3");
    assert!(matches!(admit_session(&created(false, ("x", "y"), ok, stt), &cache, &keys, &cloud), SessionAdmission::NotForAi));
    assert!(matches!(
        admit_session(&created(true, ("openai", "bad"), ("bad", "bad"), stt), &cache, &keys, &cloud),
        SessionAdmission::InvalidLlmProvider
    ));
    assert!(matches!(
        admit_session(&created(true, ("openai", "gpt-4o"), ("bad", "bad"), ("bad", "bad")), &cache, &keys, &cloud),
        SessionAdmission::InvalidTtsProvider
    ));
    assert!(matches!(
        admit_session(&created(true, ("openai", "gpt-4o"), ok, ("bad", "bad")), &cache, &keys, &cloud),
        SessionAdmission::InvalidSttProvider
    ));
    assert!(matches!(
        admit_session(&created(true, ("groq", "llama"), ok, stt), &cache, &keys, &cloud),
        SessionAdmission::NoLlmConfig
    ));
    match admit_session(&created(true, ("openai", "gpt-4o"), ok, stt), &cache, &keys, &cloud) {
        SessionAdmission::Admit(c) => {
            assert_eq!(c.provider, LlmProvider::OpenAi);
            assert_eq!(c.model, "gpt-4o");
        }
        _ => panic!("expected admission"),
    }
}

#[test]
fn openai_request_streams_the_conversation() {
    let messages = vec![msg(LlmRole::System, "sys"), msg(LlmRole::User, "hi")];
    let r = OpenAiRequest::streaming("gpt", &messages);
    assert_eq!(r.model, "gpt");
    assert_eq!(r.messages.len(), 2);
    assert_eq!(r.messages[1].content, "hi");
    assert!(r.stream);
}
