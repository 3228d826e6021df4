//! The control protocol with the listening and speaking media engines:
//! request envelopes, matching responses to pending requests, classifying
//! replies, and answering the engines' own requests.
use vstd::prelude::*;

use crate::ids::{is_uuid_v4_text, new_context_id};
use crate::session::registry::{entries_map, has_entry, ids_unique, lemma_entry_handle, lemma_push_entry, lemma_remove_entry};
use crate::text::{text_concat, owned, str_equal};

verus! {

/// Failures of the engine protocol that the orchestrator itself detects.
#[derive(Debug)]
pub enum EngineClientError {
    EngineError(String),
    UnexpectedResponse(String),
    InvalidMetadata(String),
    InvalidRequest(String),
    Signal(String),
    Internal(String),
}

/// Whether a control message asks or answers.
#[derive(Debug, Clone, Copy, PartialEq, Eq, Structural)]
pub enum ControlDirection {
    Request,
    Response,
}

/// The routing fields of a control message (its payload travels beside it).
pub struct ControlEnvelope {
    pub direction: ControlDirection,
    pub message_type: String,
    pub request_id: String,
    pub session_id: String,
    pub participant_id: String,
}

/// A request to an engine, under a fresh request id (the text of a random UUID).
pub fn control_request_envelope(request_type: &str, session_id: &str, participant_id: &str) -> (e: ControlEnvelope)
    ensures
        e.direction == ControlDirection::Request,
        is_uuid_v4_text(e.request_id@),
        e.message_type@ == request_type@,
        e.session_id@ == session_id@,
        e.participant_id@ == participant_id@,
{
    ControlEnvelope {
        direction: ControlDirection::Request,
        message_type: owned(request_type),
        request_id: new_context_id(),
        session_id: owned(session_id),
        participant_id: owned(participant_id),
    }
}

/// The answer to an engine's request, under that request's id.
pub fn control_response_envelope(
    response_type: &str,
    request_id: &str,
    session_id: &str,
    participant_id: &str,
) -> (e: ControlEnvelope)
    ensures
        e.direction == ControlDirection::Response,
        e.message_type@ == response_type@,
        e.request_id@ == request_id@,
        e.session_id@ == session_id@,
        e.participant_id@ == participant_id@,
{
    ControlEnvelope {
        direction: ControlDirection::Response,
        message_type: owned(response_type),
        request_id: owned(request_id),
        session_id: owned(session_id),
        participant_id: owned(participant_id),
    }
}

/// The payload of an engine's response, as far as the caller cares.
pub enum ControlPayload<T> {
    /// The engine reported an error.
    ErrorResponse { code: String, message: String },
    /// The response the request expects.
    Expected(T),
    /// Any other payload.
    Other,
}

/// How waiting for an engine's response ended.
pub enum ControlReply<T> {
    /// A response arrived, with its payload if it had one.
    Received(Option<ControlPayload<T>>),
    /// The control stream failed with this message.
    Failed(String),
    /// The response channel closed before a response arrived.
    Closed,
}

/// The message of an engine-reported error.
pub open spec fn engine_error_message(code: Seq<char>, message: Seq<char>) -> Seq<char> {
    "Engine error: "@ + code + " - "@ + message
}

/// Turns an engine's reply into the expected response or an error.
pub fn resolve_control_reply<T>(reply: ControlReply<T>) -> (r: Result<T, EngineClientError>)
    ensures
        match reply {
            ControlReply::Received(Some(ControlPayload::Expected(t))) => r matches Ok(v) && v == t,
            ControlReply::Received(Some(ControlPayload::ErrorResponse { code, message })) =>
                r matches Err(EngineClientError::EngineError(m)) && m@ == engine_error_message(code@, message@),
            ControlReply::Received(_) =>
                r matches Err(EngineClientError::UnexpectedResponse(m)) && m@ == "Invalid response type"@,
            ControlReply::Failed(e) => r matches Err(EngineClientError::EngineError(m)) && m@ == e@,
            ControlReply::Closed =>
                r matches Err(EngineClientError::EngineError(m)) && m@ == "Response channel closed"@,
        },
{
    match reply {
        ControlReply::Received(Some(ControlPayload::Expected(t))) => Ok(t),
        ControlReply::Received(Some(ControlPayload::ErrorResponse { code, message })) => {
            let m = text_concat("Engine error: ", code.as_str());
            let m = text_concat(m.as_str(), " - ");
            let m = text_concat(m.as_str(), message.as_str());
            Err(EngineClientError::EngineError(m))
        },
        ControlReply::Received(_) => Err(EngineClientError::UnexpectedResponse(owned("Invalid response type"))),
        ControlReply::Failed(e) => Err(EngineClientError::EngineError(e)),
        ControlReply::Closed => Err(EngineClientError::EngineError(owned("Response channel closed"))),
    }
}

/// The error when a request cannot be written to the control stream.
pub fn control_stream_closed() -> (e: EngineClientError)
    ensures
        e matches EngineClientError::EngineError(m) && m@ == "Control stream closed"@,
{
    EngineClientError::EngineError(owned("Control stream closed"))
}

/// The error when a media frame cannot be written to the media stream.
pub fn media_stream_closed() -> (e: EngineClientError)
    ensures
        e matches EngineClientError::EngineError(m) && m@ == "Media stream closed"@,
{
    EngineClientError::EngineError(owned("Media stream closed"))
}

/// Where a message read from an engine's control stream goes.
#[derive(Debug, Clone, Copy, PartialEq, Eq, Structural)]
pub enum ControlRoute {
    /// The stream's connection notice; nothing to do.
    Connected,
    /// A request from the engine, for the inbound handler.
    EngineRequest,
    /// The answer to one of our pending requests.
    EngineResponse,
    /// The direction field was not a known value.
    InvalidDirection,
}

/// Routes a message read from an engine's control stream.
pub fn route_control_message(message_type: &str, direction: Option<ControlDirection>) -> (r: ControlRoute)
    ensures
        r == (if message_type@ == "control_stream_connected"@ {
            ControlRoute::Connected
        } else {
            match direction {
                Some(ControlDirection::Request) => ControlRoute::EngineRequest,
                Some(ControlDirection::Response) => ControlRoute::EngineResponse,
                None => ControlRoute::InvalidDirection,
            }
        }),
{
    if str_equal(message_type, "control_stream_connected") {
        return ControlRoute::Connected;
    }
    match direction {
        Some(ControlDirection::Request) => ControlRoute::EngineRequest,
        Some(ControlDirection::Response) => ControlRoute::EngineResponse,
        None => ControlRoute::InvalidDirection,
    }
}

/// Requests sent to an engine that await their response, by request id.
pub struct PendingRequests<S> {
    waiting: Vec<(String, S)>,
}

impl<S> PendingRequests<S> {
    #[verifier::type_invariant]
    spec fn ids_are_unique(&self) -> bool {
        ids_unique(self.waiting@)
    }

    /// The waiters, by request id.
    pub closed spec fn waiters(&self) -> Map<Seq<char>, S> {
        entries_map(self.waiting@)
    }

    /// No request is waiting.
    pub fn new() -> (p: Self)
        ensures
            p.waiters() == Map::<Seq<char>, S>::empty(),
    {
        let p = PendingRequests { waiting: Vec::new() };
        assert(p.waiters() =~= Map::<Seq<char>, S>::empty());
        p
    }

    fn position(&self, request_id: &str) -> (r: Option<usize>)
        ensures
            match r {
                Some(i) => i < self.waiting@.len() && self.waiting@[i as int].0@ == request_id@,
                None => !has_entry(self.waiting@, request_id@),
            },
    {
        let mut i: usize = 0;
        while i < self.waiting.len()
            invariant
                i <= self.waiting@.len(),
                forall|j: int| 0 <= j < i ==> #[trigger] self.waiting@[j].0@ != request_id@,
            decreases self.waiting@.len() - i,
        {
            if str_equal(self.waiting[i].0.as_str(), request_id) {
                return Some(i);
            }
            i = i + 1;
        }
        None
    }

    /// Registers the waiter of a request; a waiter already registered under
    /// the same id is replaced and given back.
    pub fn insert(&mut self, request_id: String, waiter: S) -> (displaced: Option<S>)
        ensures
            final(self).waiters() == old(self).waiters().insert(request_id@, waiter),
            match displaced {
                Some(w) => old(self).waiters().dom().contains(request_id@) && w == old(self).waiters()[request_id@],
                None => !old(self).waiters().dom().contains(request_id@),
            },
    {
        proof {
            use_type_invariant(&*self);
        }
        let displaced = self.take(request_id.as_str());
        proof {
            use_type_invariant(&*self);
        }
        let ghost mid = self.waiting@;
        let ghost key = request_id@;
        let ghost w = waiter;
        let mut entries: Vec<(String, S)> = Vec::new();
        std::mem::swap(&mut entries, &mut self.waiting);
        proof {
            assert(!has_entry(mid, key)) by {
                assert(!entries_map(mid).dom().contains(key));
            }
            lemma_push_entry(mid, (request_id, waiter));
        }
        entries.push((request_id, waiter));
        self.waiting = entries;
        proof {
            assert(old(self).waiters().insert(key, w) =~= old(self).waiters().remove(key).insert(key, w));
        }
        displaced
    }

    /// Takes the waiter of a request, once its response has arrived.
    pub fn take(&mut self, request_id: &str) -> (r: Option<S>)
        ensures
            final(self).waiters() == old(self).waiters().remove(request_id@),
            match r {
                Some(w) => old(self).waiters().dom().contains(request_id@) && w == old(self).waiters()[request_id@],
                None => !old(self).waiters().dom().contains(request_id@),
            },
    {
        proof {
            use_type_invariant(&*self);
        }
        match self.position(request_id) {
            None => {
                assert(self.waiters() =~= self.waiters().remove(request_id@));
                None
            },
            Some(i) => {
                let ghost old_entries = self.waiting@;
                proof {
                    lemma_entry_handle(old_entries, i as int);
                    lemma_remove_entry(old_entries, i as int);
                }
                let mut entries: Vec<(String, S)> = Vec::new();
                std::mem::swap(&mut entries, &mut self.waiting);
                let entry = entries.remove(i);
                self.waiting = entries;
                Some(entry.1)
            },
        }
    }
}

/// A response to one of the speaking engine's requests.
pub enum EngineReply {
    /// The router-side producer created for the engine.
    RouterProducerId(String),
    /// The request could not be served.
    Error { code: String, message: String },
}

/// The answer to a request type the orchestrator does not serve.
pub fn unsupported_request_reply(request_type: &str) -> (r: (String, EngineReply))
    ensures
        r.0@ == "error"@,
        r.1 matches EngineReply::Error { code, message }
            && code@ == "NOT_IMPLEMENTED"@
            && message@ == "Handler not implemented for request type: "@ + request_type@,
{
    (
        owned("error"),
        EngineReply::Error {
            code: owned("NOT_IMPLEMENTED"),
            message: text_concat("Handler not implemented for request type: ", request_type),
        },
    )
}

/// Checks a router-producer request before asking the signalling server.
pub fn check_router_producer_request(media_kind_known: bool, has_rtp_parameters: bool) -> (r: Result<(), EngineClientError>)
    ensures
        !media_kind_known ==> (r matches Err(EngineClientError::InvalidRequest(m)) && m@ == "Invalid media kind"@),
        media_kind_known && !has_rtp_parameters ==> (r matches Err(EngineClientError::InvalidRequest(m))
            && m@ == "Missing RTP parameters"@),
        media_kind_known && has_rtp_parameters ==> r is Ok,
{
    if !media_kind_known {
        return Err(EngineClientError::InvalidRequest(owned("Invalid media kind")));
    }
    if !has_rtp_parameters {
        return Err(EngineClientError::InvalidRequest(owned("Missing RTP parameters")));
    }
    Ok(())
}

/// The answer to a router-producer request, given what the signalling
/// server returned: the producer id, no producer id, or an error message.
pub fn router_producer_reply(outcome: Result<Option<String>, String>) -> (r: (String, EngineReply))
    ensures
        match outcome {
            Ok(Some(id)) => r.0@ == "get_router_producer_id"@ && (r.1 matches EngineReply::RouterProducerId(p) && p@ == id@),
            Ok(None) => r.0@ == "error"@ && (r.1 matches EngineReply::Error { code, message } && code@ == "INTERNAL"@
                && message@ == "Invalid response from Signal: missing router_producer_id"@),
            Err(e) => r.0@ == "error"@ && (r.1 matches EngineReply::Error { code, message } && code@ == "INTERNAL"@
                && message@ == "Failed to create producer: "@ + e@),
        },
{
    match outcome {
        Ok(Some(id)) => (owned("get_router_producer_id"), EngineReply::RouterProducerId(id)),
        Ok(None) => (
            owned("error"),
            EngineReply::Error {
                code: owned("INTERNAL"),
                message: owned("Invalid response from Signal: missing router_producer_id"),
            },
        ),
        Err(e) => (
            owned("error"),
            EngineReply::Error { code: owned("INTERNAL"), message: text_concat("Failed to create producer: ", e.as_str()) },
        ),
    }
}

/// The DTLS parameters an engine's `OnConnect` event must carry.
pub fn require_dtls_parameters<T>(parameters: Option<T>) -> (r: Result<T, EngineClientError>)
    ensures
        match parameters {
            Some(p) => r matches Ok(v) && v == p,
            None => r matches Err(EngineClientError::InvalidRequest(m)) && m@ == "No DTLS parameters in OnConnect event"@,
        },
{
    match parameters {
        Some(p) => Ok(p),
        None => Err(EngineClientError::InvalidRequest(owned("No DTLS parameters in OnConnect event"))),
    }
}

/// The error when the signalling server refuses to connect a transport.
pub fn transport_connect_failed(reason: &str) -> (e: EngineClientError)
    ensures
        e matches EngineClientError::Signal(m) && m@ == "Failed to connect transport: "@ + reason@,
{
    EngineClientError::Signal(text_concat("Failed to connect transport: ", reason))
}

/// A voice-activity event reported by the listening engine.
#[derive(Debug, Clone, Copy, PartialEq, Eq, Structural)]
pub enum VadEventKind {
    SpeechStarted,
    UserTurnComplete,
}

/// The error when a voice-activity event cannot reach the conversation loop.
pub fn vad_forward_failed(kind: VadEventKind, reason: &str) -> (e: EngineClientError)
    ensures
        e matches EngineClientError::Internal(m) && m@ == (match kind {
            VadEventKind::SpeechStarted => "Failed to send speech started event: "@,
            VadEventKind::UserTurnComplete => "Failed to send turn complete event: "@,
        }) + reason@,
{
    let prefix = match kind {
        VadEventKind::SpeechStarted => "Failed to send speech started event: ",
        VadEventKind::UserTurnComplete => "Failed to send turn complete event: ",
    };
    EngineClientError::Internal(text_concat(prefix, reason))
}

/// A frame of synthesized audio for the speaking engine.
pub struct MediaFramePayload {
    pub message_type: String,
    pub request_id: String,
    pub session_id: String,
    pub participant_id: String,
    pub device_producer_id: String,
    pub kind: i32,
    pub frame_data: Vec<u8>,
}

/// A `media_frame` payload under a fresh request id (the text of a random UUID).
pub fn media_frame_payload(
    session_id: &str,
    participant_id: &str,
    device_producer_id: String,
    kind: i32,
    frame_data: Vec<u8>,
) -> (p: MediaFramePayload)
    ensures
        p.message_type@ == "media_frame"@,
        is_uuid_v4_text(p.request_id@),
        p.session_id@ == session_id@,
        p.participant_id@ == participant_id@,
        p.device_producer_id == device_producer_id,
        p.kind == kind,
        p.frame_data == frame_data,
{
    MediaFramePayload {
        message_type: owned("media_frame"),
        request_id: new_context_id(),
        session_id: owned(session_id),
        participant_id: owned(participant_id),
        device_producer_id,
        kind,
        frame_data,
    }
}

/// The response to a request reaches the waiter registered under the
/// request's id, and only once.
pub proof fn response_reaches_its_waiter<S>(waiters: Map<Seq<char>, S>, id: Seq<char>, waiter: S)
    ensures
        waiters.insert(id, waiter).dom().contains(id),
        waiters.insert(id, waiter)[id] == waiter,
        !waiters.insert(id, waiter).remove(id).dom().contains(id),
{
}

} // verus!
