//! Provider-neutral LLM configuration and conversation types.
use vstd::prelude::*;

use crate::stores::{AwsConfig, GcpConfig};

verus! {

/// The LLM providers the orchestrator can stream from.
#[derive(Debug, Clone, Copy, PartialEq, Eq, Structural)]
pub enum LlmProvider {
    OpenAi,
    Groq,
    Anthropic,
    XAi,
    Gcp,
    Aws,
}

impl Default for LlmProvider {
    /// OpenAI is the default provider.
    fn default() -> (p: Self)
        ensures
            p == LlmProvider::OpenAi,
    {
        LlmProvider::OpenAi
    }
}

/// How a provider client authenticates.
#[derive(Debug, Clone)]
pub enum LlmCredentials {
    ApiKey(String),
    Gcp(GcpConfig),
    Aws(AwsConfig),
}

/// Everything needed to build a provider client.
#[derive(Debug, Clone)]
pub struct LlmClientConfig {
    pub provider: LlmProvider,
    pub model: String,
    pub credentials: LlmCredentials,
}

/// The author of a conversation turn.
#[derive(Debug, Clone, Copy, PartialEq, Eq, Structural)]
pub enum LlmRole {
    System,
    User,
    Assistant,
}

/// One turn of the conversation history.
#[derive(Debug, Clone)]
pub struct LlmMessage {
    pub role: LlmRole,
    pub content: String,
}

impl LlmMessage {
    /// A copy with the same role and text.
    pub fn duplicate(&self) -> (r: LlmMessage)
        ensures
            r.role == self.role,
            r.content@ == self.content@,
    {
        LlmMessage { role: self.role, content: self.content.clone() }
    }
}

/// Failures of a provider client.
#[derive(Debug)]
pub enum LlmClientError {
    Config(String),
    Auth(String),
    Connection(String),
    Http(String),
    Api(String),
    Serialization(String),
}

} // verus!
