//! Provider wire formats: request bodies built from the conversation, and the
//! decoding of streamed server-sent events into text tokens.
use vstd::prelude::*;

use crate::llm::factory::GcpClientSettings;
use crate::llm::types::{LlmMessage, LlmRole};
use crate::text::{text_concat, owned, str_equal};

verus! {

/// Anthropic's default limit on generated tokens.
pub const ANTHROPIC_MAX_TOKENS: u32 = 4096;

/// What to do with one server-sent event of a token stream.
#[derive(Debug, Clone, Copy, PartialEq, Eq, Structural)]
pub enum SseStep {
    /// The stream is complete.
    Stop,
    /// The event carries no tokens.
    Skip,
    /// Decode the event's JSON data.
    Decode,
}

// ----- OpenAI-compatible chat completions (OpenAI, Vertex AI, Groq, xAI) -----

/// OpenAI chat completion request.
pub struct OpenAiRequest<'a> {
    pub model: &'a str,
    pub messages: &'a [LlmMessage],
    pub stream: bool,
}

/// The incremental content of a streamed choice.
pub struct OpenAiDelta {
    pub content: Option<String>,
}

/// One streamed choice.
pub struct OpenAiStreamChoice {
    pub delta: OpenAiDelta,
}

/// One streamed chunk of an OpenAI chat completion.
pub struct OpenAiStreamResponse {
    pub choices: Vec<OpenAiStreamChoice>,
}

/// The `[DONE]` event ends an OpenAI-compatible stream; every other event is decoded.
pub fn openai_event_step(data: &str) -> (step: SseStep)
    ensures
        step == (if data@ == "[DONE]"@ { SseStep::Stop } else { SseStep::Decode }),
{
    if str_equal(data, "[DONE]") {
        SseStep::Stop
    } else {
        SseStep::Decode
    }
}

/// The token of a chunk: the first choice's content, if any.
pub open spec fn first_choice_content(contents: Seq<Option<Seq<char>>>) -> Option<Seq<char>> {
    if contents.len() == 0 {
        None
    } else {
        contents[0]
    }
}

impl OpenAiStreamResponse {
    /// The token of this chunk: the first choice's content.
    pub fn first_content(&self) -> (token: Option<String>)
        ensures
            token.deep_view() == first_choice_content(
                self.choices@.map_values(|c: OpenAiStreamChoice| c.delta.content.deep_view()),
            ),
    {
        if self.choices.len() == 0 {
            return None;
        }
        match &self.choices[0].delta.content {
            Some(c) => Some(c.clone()),
            None => None,
        }
    }
}

/// Vertex AI (OpenAI-compatible endpoint) chat completion request.
pub struct GcpRequest<'a> {
    pub model: &'a str,
    pub messages: &'a [LlmMessage],
    pub stream: bool,
    pub reasoning_effort: Option<&'a str>,
}

/// The incremental content of a streamed Vertex AI choice.
pub struct GcpDelta {
    pub content: Option<String>,
}

/// One streamed Vertex AI choice.
pub struct GcpStreamChoice {
    pub delta: GcpDelta,
}

/// One streamed chunk of a Vertex AI chat completion.
pub struct GcpStreamResponse {
    pub choices: Vec<GcpStreamChoice>,
}

impl GcpStreamResponse {
    /// The token of this chunk: the first choice's content.
    pub fn first_content(&self) -> (token: Option<String>)
        ensures
            token.deep_view() == first_choice_content(
                self.choices@.map_values(|c: GcpStreamChoice| c.delta.content.deep_view()),
            ),
    {
        if self.choices.len() == 0 {
            return None;
        }
        match &self.choices[0].delta.content {
            Some(c) => Some(c.clone()),
            None => None,
        }
    }
}

impl<'a> OpenAiRequest<'a> {
    /// A streaming request for the conversation.
    pub fn streaming(model: &'a str, messages: &'a [LlmMessage]) -> (r: Self)
        ensures
            r.model == model,
            r.messages == messages,
            r.stream,
    {
        OpenAiRequest { model, messages, stream: true }
    }
}

impl<'a> GcpRequest<'a> {
    /// A streaming request with minimal reasoning effort.
    pub fn streaming(model: &'a str, messages: &'a [LlmMessage]) -> (r: Self)
        ensures
            r.model == model,
            r.messages == messages,
            r.stream,
            r.reasoning_effort matches Some(e) && e@ == "minimal"@,
    {
        GcpRequest { model, messages, stream: true, reasoning_effort: Some("minimal") }
    }
}

/// The Vertex AI OpenAI-compatible chat completions endpoint of a project and region.
pub open spec fn vertex_endpoint(project_id: Seq<char>, region: Seq<char>) -> Seq<char> {
    "https://aiplatform.googleapis.com/v1/projects/"@ + project_id + "/locations/"@ + region
        + "/endpoints/openapi/chat/completions"@
}

/// The chat completions endpoint of the client's project and region.
pub fn vertex_endpoint_url(settings: &GcpClientSettings) -> (url: String)
    ensures
        url@ == vertex_endpoint(settings.project_id@, settings.region@),
{
    let u = text_concat("https://aiplatform.googleapis.com/v1/projects/", settings.project_id.as_str());
    let u = text_concat(u.as_str(), "/locations/");
    let u = text_concat(u.as_str(), settings.region.as_str());
    text_concat(u.as_str(), "/endpoints/openapi/chat/completions")
}

/// Groq chat completion request.
pub struct GroqRequest<'a> {
    pub model: &'a str,
    pub messages: &'a [LlmMessage],
    pub stream: bool,
}

/// The incremental content of a streamed Groq choice.
pub struct GroqDelta {
    pub content: Option<String>,
}

/// One streamed Groq choice.
pub struct GroqStreamChoice {
    pub delta: GroqDelta,
}

/// One streamed chunk of a Groq chat completion.
pub struct GroqStreamResponse {
    pub choices: Vec<GroqStreamChoice>,
}

/// xAI chat completion request.
pub struct XaiRequest<'a> {
    pub model: &'a str,
    pub messages: &'a [LlmMessage],
    pub stream: bool,
}

/// The incremental content of a streamed xAI choice.
pub struct XaiDelta {
    pub content: Option<String>,
}

/// One streamed xAI choice.
pub struct XaiStreamChoice {
    pub delta: XaiDelta,
}

/// One streamed chunk of an xAI chat completion.
pub struct XaiStreamResponse {
    pub choices: Vec<XaiStreamChoice>,
}

// ----- Anthropic messages API -----

/// Anthropic's name for a role; system turns travel separately and would
/// otherwise count as the user's.
pub open spec fn anthropic_role(r: LlmRole) -> Seq<char> {
    match r {
        LlmRole::System => "user"@,
        LlmRole::User => "user"@,
        LlmRole::Assistant => "assistant"@,
    }
}

/// A message in Anthropic's format.
pub struct AnthropicMessage {
    pub role: String,
    pub content: String,
}

impl AnthropicMessage {
    /// The message in Anthropic's format.
    pub fn from_message(msg: &LlmMessage) -> (r: AnthropicMessage)
        ensures
            r.role@ == anthropic_role(msg.role),
            r.content@ == msg.content@,
    {
        let role = match msg.role {
            LlmRole::System => owned("user"),
            LlmRole::User => owned("user"),
            LlmRole::Assistant => owned("assistant"),
        };
        AnthropicMessage { role, content: msg.content.clone() }
    }
}

/// Anthropic request without a system prompt.
pub struct AnthropicRequest<'a> {
    pub model: &'a str,
    pub messages: &'a [AnthropicMessage],
    pub max_tokens: u32,
    pub stream: bool,
}

/// Anthropic request with the system prompt as its own field.
pub struct AnthropicRequestWithSystem<'a> {
    pub model: &'a str,
    pub system: Option<&'a str>,
    pub messages: Vec<AnthropicMessage>,
    pub max_tokens: u32,
    pub stream: bool,
}

/// The content of the first system message, if any.
pub open spec fn first_system_content(s: Seq<LlmMessage>) -> Option<Seq<char>>
    decreases s.len(),
{
    if s.len() == 0 {
        None
    } else if s[0].role == LlmRole::System {
        Some(s[0].content@)
    } else {
        first_system_content(s.drop_first())
    }
}

/// The conversation without its system messages, in order.
pub open spec fn non_system(s: Seq<LlmMessage>) -> Seq<LlmMessage>
    decreases s.len(),
{
    if s.len() == 0 {
        s
    } else if s.last().role == LlmRole::System {
        non_system(s.drop_last())
    } else {
        non_system(s.drop_last()).push(s.last())
    }
}

proof fn lemma_first_system_prefix(s: Seq<LlmMessage>, i: int)
    requires
        0 <= i < s.len(),
        forall|j: int| 0 <= j < i ==> s[j].role != LlmRole::System,
    ensures
        first_system_content(s) == first_system_content(s.subrange(i, s.len() as int)),
    decreases i,
{
    if i > 0 {
        assert(s.drop_first().subrange(i - 1, s.drop_first().len() as int) =~= s.subrange(i, s.len() as int));
        lemma_first_system_prefix(s.drop_first(), i - 1);
    } else {
        assert(s.subrange(0, s.len() as int) =~= s);
    }
}

proof fn lemma_no_system(s: Seq<LlmMessage>)
    requires
        forall|j: int| 0 <= j < s.len() ==> s[j].role != LlmRole::System,
    ensures
        first_system_content(s) is None,
    decreases s.len(),
{
    if s.len() > 0 {
        lemma_no_system(s.drop_first());
    }
}

fn first_system_message<'a>(messages: &'a [LlmMessage]) -> (r: Option<&'a str>)
    ensures
        r.deep_view() == first_system_content(messages@),
{
    let mut i: usize = 0;
    while i < messages.len()
        invariant
            i <= messages@.len(),
            forall|j: int| 0 <= j < i ==> messages@[j].role != LlmRole::System,
        decreases messages@.len() - i,
    {
        if messages[i].role == LlmRole::System {
            proof {
                lemma_first_system_prefix(messages@, i as int);
            }
            return Some(messages[i].content.as_str());
        }
        i = i + 1;
    }
    proof {
        lemma_no_system(messages@);
    }
    None
}

impl<'a> AnthropicRequestWithSystem<'a> {
    /// A streaming request: the first system message becomes the system
    /// prompt, and every other message is sent in Anthropic's format.
    pub fn streaming(model: &'a str, messages: &'a [LlmMessage]) -> (r: Self)
        ensures
            r.model == model,
            r.system.deep_view() == first_system_content(messages@),
            r.messages@.len() == non_system(messages@).len(),
            forall|i: int| 0 <= i < r.messages@.len() ==> {
                &&& (#[trigger] r.messages@[i]).role@ == anthropic_role(non_system(messages@)[i].role)
                &&& r.messages@[i].content@ == non_system(messages@)[i].content@
            },
            r.max_tokens == ANTHROPIC_MAX_TOKENS,
            r.stream,
    {
        let system = first_system_message(messages);
        let mut converted: Vec<AnthropicMessage> = Vec::new();
        let mut i: usize = 0;
        while i < messages.len()
            invariant
                i <= messages@.len(),
                converted@.len() == non_system(messages@.take(i as int)).len(),
                forall|k: int| 0 <= k < converted@.len() ==> {
                    &&& (#[trigger] converted@[k]).role@ == anthropic_role(non_system(messages@.take(i as int))[k].role)
                    &&& converted@[k].content@ == non_system(messages@.take(i as int))[k].content@
                },
            decreases messages@.len() - i,
        {
            let ghost prev = non_system(messages@.take(i as int));
            assert(messages@.take(i + 1).drop_last() =~= messages@.take(i as int));
            assert(messages@.take(i + 1).last() == messages@[i as int]);
            if messages[i].role != LlmRole::System {
                converted.push(AnthropicMessage::from_message(&messages[i]));
            }
            i = i + 1;
        }
        assert(messages@.take(messages@.len() as int) =~= messages@);
        AnthropicRequestWithSystem {
            model,
            system,
            messages: converted,
            max_tokens: ANTHROPIC_MAX_TOKENS,
            stream: true,
        }
    }
}

/// The delta of an Anthropic stream event.
pub struct AnthropicDelta {
    pub delta_type: String,
    pub text: Option<String>,
}

/// An Anthropic stream event.
pub struct AnthropicStreamEvent {
    pub event_type: String,
    pub delta: Option<AnthropicDelta>,
}

/// `message_stop` ends an Anthropic stream; only `content_block_delta`
/// events carry text.
pub fn anthropic_event_step(event: &str) -> (step: SseStep)
    ensures
        step == (if event@ == "message_stop"@ {
            SseStep::Stop
        } else if event@ == "content_block_delta"@ {
            SseStep::Decode
        } else {
            SseStep::Skip
        }),
{
    if str_equal(event, "message_stop") {
        SseStep::Stop
    } else if str_equal(event, "content_block_delta") {
        SseStep::Decode
    } else {
        SseStep::Skip
    }
}

impl AnthropicStreamEvent {
    /// The token of the event: the text of a `text_delta`.
    pub fn text_delta(&self) -> (token: Option<String>)
        ensures
            token.deep_view() == (match self.delta {
                Some(d) => if d.delta_type@ == "text_delta"@ { d.text.deep_view() } else { None },
                None => None,
            }),
    {
        match &self.delta {
            Some(d) => {
                if str_equal(d.delta_type.as_str(), "text_delta") {
                    match &d.text {
                        Some(t) => Some(t.clone()),
                        None => None,
                    }
                } else {
                    None
                }
            },
            None => None,
        }
    }
}

// ----- AWS Bedrock converse API -----

/// The two roles of a Bedrock conversation turn.
#[derive(Debug, Clone, Copy, PartialEq, Eq, Structural)]
pub enum BedrockRole {
    User,
    Assistant,
}

/// A conversation in Bedrock's shape: system prompts apart from the turns.
pub struct BedrockConversation {
    pub system: Option<Vec<String>>,
    pub messages: Vec<(BedrockRole, String)>,
}

/// The system prompts of a conversation, in order.
pub open spec fn system_contents(s: Seq<LlmMessage>) -> Seq<Seq<char>>
    decreases s.len(),
{
    if s.len() == 0 {
        Seq::empty()
    } else if s.last().role == LlmRole::System {
        system_contents(s.drop_last()).push(s.last().content@)
    } else {
        system_contents(s.drop_last())
    }
}

/// Bedrock's role for a conversation turn (not a system prompt).
pub open spec fn bedrock_role(r: LlmRole) -> BedrockRole {
    if r == LlmRole::Assistant {
        BedrockRole::Assistant
    } else {
        BedrockRole::User
    }
}

/// Splits the conversation for Bedrock: system prompts (none at all becomes
/// `None`) and the user and assistant turns in order.
pub fn bedrock_conversation(messages: &[LlmMessage]) -> (c: BedrockConversation)
    ensures
        match c.system {
            Some(v) => v.deep_view() == system_contents(messages@) && system_contents(messages@).len() > 0,
            None => system_contents(messages@).len() == 0,
        },
        c.messages@.len() == non_system(messages@).len(),
        forall|i: int| 0 <= i < c.messages@.len() ==> {
            &&& (#[trigger] c.messages@[i]).0 == bedrock_role(non_system(messages@)[i].role)
            &&& c.messages@[i].1@ == non_system(messages@)[i].content@
        },
{
    let mut system: Vec<String> = Vec::new();
    let mut turns: Vec<(BedrockRole, String)> = Vec::new();
    let mut i: usize = 0;
    while i < messages.len()
        invariant
            i <= messages@.len(),
            system.deep_view() == system_contents(messages@.take(i as int)),
            turns@.len() == non_system(messages@.take(i as int)).len(),
            forall|k: int| 0 <= k < turns@.len() ==> {
                &&& (#[trigger] turns@[k]).0 == bedrock_role(non_system(messages@.take(i as int))[k].role)
                &&& turns@[k].1@ == non_system(messages@.take(i as int))[k].content@
            },
        decreases messages@.len() - i,
    {
        assert(messages@.take(i + 1).drop_last() =~= messages@.take(i as int));
        assert(messages@.take(i + 1).last() == messages@[i as int]);
        let m = &messages[i];
        match m.role {
            LlmRole::System => {
                let ghost before = system.deep_view();
                system.push(m.content.clone());
                assert(system.deep_view() =~= before.push(m.content@));
            },
            LlmRole::User => {
                turns.push((BedrockRole::User, m.content.clone()));
            },
            LlmRole::Assistant => {
                turns.push((BedrockRole::Assistant, m.content.clone()));
            },
        }
        i = i + 1;
    }
    assert(messages@.take(messages@.len() as int) =~= messages@);
    let system = if system.len() == 0 { None } else { Some(system) };
    BedrockConversation { system, messages: turns }
}

} // verus!
