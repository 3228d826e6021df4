use saasy_orchestrator::config::{
    ConfigValidationError, CredentialEnvironment, RawServerConfig, RequiredVariable, ServerConfig,
};
use saasy_orchestrator::health::{engine_check_healthy, signal_check_healthy, signal_health_url, HealthStatus};
use saasy_orchestrator::stores::{ApiKeyStore, CloudProviderStore};

fn pairs(items: &[(&str, &str)]) -> Vec<(String, String)> {
    items.iter().map(|(k, v)| (k.to_string(), v.to_string())).collect()
}

fn complete_raw() -> RawServerConfig {
    RawServerConfig {
        http_host: "0.0.0.0".to_string(),
        http_port: 8080,
        signal_http_url: "http://signal:3000".to_string(),
        signal_system_ws_url: "ws://signal:3000/system".to_string(),
        signal_session_ws_url: "ws://signal:3000/session".to_string(),
        edge_grpc_url: "http://edge:50051".to_string(),
        listening_engine_grpc_uds: "/tmp/listening.sock".to_string(),
        speaking_engine_grpc_uds: "/tmp/speaking.sock".to_string(),
        openai_api_key: Some("sk-openai".to_string()),
        groq_api_key: Some("gsk-groq".to_string()),
        anthropic_api_key: Some("sk-ant".to_string()),
        xai_api_key: Some("xai-key".to_string()),
        deepgram_api_key: Some("dg-key".to_string()),
        speechmatics_api_key: Some("sm-key".to_string()),
        cartesia_api_key: Some("ca-key".to_string()),
        elevenlabs_api_key: Some("el-key".to_string()),
        gcp_project_id: Some("proj-1".to_string()),
        gcp_region: Some("us-central1".to_string()),
        aws_region: Some("us-east-1".to_string()),
    }
}

fn full_env() -> CredentialEnvironment {
    CredentialEnvironment { google_application_credentials: true, aws_access_key_id: true, aws_secret_access_key: true }
}

fn missing(r: Result<ServerConfig, ConfigValidationError>) -> RequiredVariable {
    match r {
        Err(ConfigValidationError::MissingVariable(v)) => v,
        Ok(_) => panic!("expected a missing variable"),
    }
}

#[test]
fn health_ready_only_when_all_dependencies_are_up() {
    assert!(HealthStatus { listening_engine: true, speaking_engine: true, signal: true }.is_ready());
    assert!(!HealthStatus { listening_engine: false, speaking_engine: true, signal: true }.is_ready());
    assert!(!HealthStatus { listening_engine: true, speaking_engine: false, signal: true }.is_ready());
    assert!(!HealthStatus { listening_engine: true, speaking_engine: true, signal: false }.is_ready());
    assert!(!HealthStatus::default().is_ready());
}

#[test]
fn health_checks_and_liveness_url() {
    assert!(engine_check_healthy(Some(true)));
    assert!(!engine_check_healthy(Some(false)));
    assert!(!engine_check_healthy(None));
    assert_eq!(signal_health_url("http://signal:3000"), "http://signal:3000/health/live");
}

#[test]
fn api_key_store_serves_configured_keys() {
    let store = ApiKeyStore::new(
        pairs(&[("openai", "k1"), ("groq", "k2")]),
        pairs(&[("deepgram", "d1")]),
        pairs(&[("cartesia", "c1")]),
    );
    assert_eq!(store.get_llm_key("openai"), Some("k1"));
    assert_eq!(store.get_llm_key("groq"), Some("k2"));
    assert_eq!(store.get_llm_key("xai"), None);
    assert_eq!(store.get_stt_key("deepgram"), Some("d1"));
    assert_eq!(store.get_stt_key("openai"), None);
    assert_eq!(store.get_tts_key("cartesia"), Some("c1"));
    assert_eq!(store.get_tts_key("elevenlabs"), None);
}

#[test]
fn api_key_store_later_entry_wins() {
    let store = ApiKeyStore::new(pairs(&[("openai", "old"), ("openai", "new")]), vec![], vec![]);
    assert_eq!(store.get_llm_key("openai"), Some("new"));
}

#[test]
fn cloud_provider_store_defaults_to_empty() {
    let store = CloudProviderStore::new(pairs(&[("gcp_project_id", "p"), ("aws_region", "eu-west-1")]));
    assert_eq!(store.gcp.project_id, "p");
    assert_eq!(store.gcp.region, "");
    assert_eq!(store.aws.region, "eu-west-1");
}

#[test]
fn validate_accepts_complete_configuration() {
    let c = ServerConfig::validate(complete_raw(), full_env()).unwrap();
    assert_eq!(c.http_port, 8080);
    assert_eq!(c.openai_api_key, "sk-openai");
    assert_eq!(c.aws_region, "us-east-1");
    assert_eq!(c.edge_grpc_url, "http://edge:50051");
}

#[test]
fn validate_reports_first_missing_setting() {
    let mut raw = complete_raw();
    raw.groq_api_key = None;
    raw.aws_region = None;
    assert_eq!(missing(ServerConfig::validate(raw, full_env())), RequiredVariable::GroqApiKey);

    let mut raw = complete_raw();
    raw.openai_api_key = None;
    assert_eq!(missing(ServerConfig::validate(raw, full_env())), RequiredVariable::OpenAiApiKey);

    let mut raw = complete_raw();
    raw.gcp_region = None;
    assert_eq!(missing(ServerConfig::validate(raw, full_env())), RequiredVariable::GcpRegion);
}

#[test]
fn validate_checks_sdk_environment_after_settings() {
    let env = CredentialEnvironment { google_application_credentials: false, aws_access_key_id: false, aws_secret_access_key: true };
    assert_eq!(missing(ServerConfig::validate(complete_raw(), env)), RequiredVariable::GoogleApplicationCredentials);
    let env = CredentialEnvironment { google_application_credentials: true, aws_access_key_id: false, aws_secret_access_key: false };
    assert_eq!(missing(ServerConfig::validate(complete_raw(), env)), RequiredVariable::AwsAccessKeyId);
    let env = CredentialEnvironment { google_application_credentials: true, aws_access_key_id: true, aws_secret_access_key: false };
    assert_eq!(missing(ServerConfig::validate(complete_raw(), env)), RequiredVariable::AwsSecretAccessKey);
    let mut raw = complete_raw();
    raw.elevenlabs_api_key = None;
    let env = CredentialEnvironment { google_application_credentials: false, aws_access_key_id: true, aws_secret_access_key: true };
    assert_eq!(missing(ServerConfig::validate(raw, env)), RequiredVariable::ElevenlabsApiKey);
}

#[test]
fn required_variable_names() {
    assert_eq!(RequiredVariable::OpenAiApiKey.name(), "OPENAI_API_KEY");
    assert_eq!(RequiredVariable::GoogleApplicationCredentials.name(), "GOOGLE_APPLICATION_CREDENTIALS");
    assert_eq!(RequiredVariable::AwsSecretAccessKey.name(), "AWS_SECRET_ACCESS_KEY");
    assert_eq!(RequiredVariable::SpeechmaticsApiKey.name(), "SPEECHMATICS_API_KEY");
}

#[test]
fn config_key_lists() {
    let c = ServerConfig::validate(complete_raw(), full_env()).unwrap();
    assert_eq!(
        c.llm_api_keys(),
        pairs(&[("openai", "sk-openai"), ("groq", "gsk-groq"), ("anthropic", "sk-ant"), ("xai", "xai-key")])
    );
    assert_eq!(c.stt_api_keys(), pairs(&[("deepgram", "dg-key"), ("speechmatics", "sm-key")]));
    assert_eq!(c.tts_api_keys(), pairs(&[("cartesia", "ca-key"), ("elevenlabs", "el-key")]));
    assert_eq!(
        c.cloud_provider_configs(),
        pairs(&[("gcp_project_id", "proj-1"), ("gcp_region", "us-central1"), ("aws_region", "us-east-1")])
    );
}

#[test]
fn configured_keys_reach_the_store() {
    let c = ServerConfig::validate(complete_raw(), full_env()).unwrap();
    let store = ApiKeyStore::new(c.llm_api_keys(), c.stt_api_keys(), c.tts_api_keys());
    assert_eq!(store.get_llm_key("anthropic"), Some("sk-ant"));
    assert_eq!(store.get_llm_key("xai"), Some("xai-key"));
    assert_eq!(store.get_llm_key("gcp"), None);
    assert_eq!(store.get_stt_key("speechmatics"), Some("sm-key"));
    assert_eq!(store.get_tts_key("elevenlabs"), Some("el-key"));
    let cloud = CloudProviderStore::new(c.cloud_provider_configs());
    assert_eq!(cloud.gcp.project_id, "proj-1");
    assert_eq!(cloud.gcp.region, "us-central1");
    assert_eq!(cloud.aws.region, "us-east-1");
}

#[test]
fn signal_health_needs_a_success_status() {
    assert!(signal_check_healthy(Some(200)));
    assert!(signal_check_healthy(Some(204)));
    assert!(signal_check_healthy(Some(299)));
    assert!(!signal_check_healthy(Some(199)));
    assert!(!signal_check_healthy(Some(300)));
    assert!(!signal_check_healthy(Some(503)));
    assert!(!signal_check_healthy(None));
}
