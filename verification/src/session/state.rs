//! Per-session conversation state and the transitions every task applies to it.
use vstd::prelude::*;

use crate::clock::{elapsed_nanos, instant_now};
use crate::ids::{is_uuid_v4_text, new_context_id_avoiding};
use crate::llm::types::{LlmMessage, LlmRole};

verus! {

/// Who holds the floor in the voice conversation.
#[derive(Debug, Clone, Copy, PartialEq, Eq, Structural)]
pub enum ConversationState {
    Idle,
    UserSpeaking,
    AiThinking,
    AiSpeaking,
}

impl Default for ConversationState {
    /// A conversation starts idle.
    fn default() -> (s: Self)
        ensures
            s == ConversationState::Idle,
    {
        ConversationState::Idle
    }
}

/// What the conversation loop does once the speaking engine has played out
/// the queued audio.
#[derive(Debug, Clone, Copy, PartialEq, Eq, Structural)]
pub enum PlaybackCompleteAction {
    TransitionToIdle,
    RetryLlm,
    EndSession,
}

/// Entering one of these states starts a new turn or a successful response,
/// which clears the LLM retry bookkeeping.
pub open spec fn resets_retries(s: ConversationState) -> bool {
    s == ConversationState::UserSpeaking || s == ConversationState::AiSpeaking
}

/// The mathematical content of a [`SessionState`]: every field but the
/// clock reading of the last state change. That reading is an opaque
/// `Instant`; [`clock_kept`] states where an operation leaves it alone.
pub struct SessionView {
    pub session_id: Seq<char>,
    pub participant_id: Option<Seq<char>>,
    pub send_transport_id: Option<Seq<char>>,
    pub recv_transport_id: Option<Seq<char>>,
    pub router_producer_id: Option<Seq<char>>,
    pub router_consumer_id: Option<Seq<char>>,
    pub device_producer_id: Option<Seq<char>>,
    pub device_consumer_id: Option<Seq<char>>,
    pub has_remote_producer: bool,
    pub conversation_history: Seq<LlmMessage>,
    pub current_tts_context_id: Option<Seq<char>>,
    pub cancelled_tts_context_id: Option<Seq<char>>,
    pub conversation_state: ConversationState,
    pub ai_thinking_retry_count: u8,
    pub pending_llm_retry: bool,
    pub pending_session_end: bool,
    pub farewell_requested: bool,
    pub farewell_mode: bool,
}

impl SessionView {
    /// The state after `transition_to(s)`.
    pub open spec fn transitioned(self, s: ConversationState) -> SessionView {
        if self.conversation_state == s {
            self
        } else if resets_retries(s) {
            SessionView {
                conversation_state: s,
                ai_thinking_retry_count: 0,
                pending_llm_retry: false,
                ..self
            }
        } else {
            SessionView { conversation_state: s, ..self }
        }
    }

    /// The state with another current TTS context.
    pub open spec fn with_current_context(self, c: Option<Seq<char>>) -> SessionView {
        SessionView { current_tts_context_id: c, ..self }
    }

    /// The state after starting a hardcoded utterance in context `c`: the
    /// context becomes current and the AI holds the floor.
    pub open spec fn speaking_hardcoded(self, c: Seq<char>) -> SessionView {
        self.with_current_context(Some(c)).transitioned(ConversationState::AiSpeaking)
    }

    /// The state after the first half of an interruption: the current TTS
    /// context, if any, is the one to cancel.
    pub open spec fn interruption_begun(self) -> SessionView {
        match self.current_tts_context_id {
            Some(c) => SessionView {
                current_tts_context_id: None,
                cancelled_tts_context_id: Some(c),
                ..self
            },
            None => self,
        }
    }

    /// The state after a whole interruption.
    pub open spec fn interrupted(self) -> SessionView {
        self.interruption_begun().transitioned(ConversationState::UserSpeaking)
    }

    /// The state and action after the speaking engine reports the end of playback.
    pub open spec fn playback_completed(self) -> (SessionView, PlaybackCompleteAction) {
        if self.pending_session_end {
            (SessionView { pending_session_end: false, ..self }, PlaybackCompleteAction::EndSession)
        } else if self.pending_llm_retry {
            (SessionView { pending_llm_retry: false, ..self }, PlaybackCompleteAction::RetryLlm)
        } else {
            (self.transitioned(ConversationState::Idle), PlaybackCompleteAction::TransitionToIdle)
        }
    }

    /// Whether an audio chunk of context `c` belongs to a cancelled generation.
    pub open spec fn is_cancelled_context(self, c: Option<Seq<char>>) -> bool {
        c.is_some() && c == self.cancelled_tts_context_id
    }

    /// The state after the TTS provider finished the audio of context `c`.
    pub open spec fn audio_done(self, c: Option<Seq<char>>) -> SessionView {
        if c.is_some() && c == self.current_tts_context_id {
            self.with_current_context(None)
        } else {
            self
        }
    }
}

/// Whether `a` names a context and `b` names the same one.
pub fn same_present_context(a: &Option<String>, b: &Option<String>) -> (r: bool)
    ensures
        r == (a.is_some() && a.deep_view() == b.deep_view()),
{
    match a {
        Some(x) => match b {
            Some(y) => {
                let eq = *x == *y;
                assert(eq == (x@ == y@));
                eq
            },
            None => false,
        },
        None => false,
    }
}

/// The conversation and media state of one session.
pub struct SessionState {
    pub session_id: String,
    pub participant_id: Option<String>,
    pub send_transport_id: Option<String>,
    pub recv_transport_id: Option<String>,
    pub router_producer_id: Option<String>,
    pub router_consumer_id: Option<String>,
    pub device_producer_id: Option<String>,
    pub device_consumer_id: Option<String>,
    pub has_remote_producer: bool,
    pub conversation_history: Vec<LlmMessage>,
    pub current_tts_context_id: Option<String>,
    pub cancelled_tts_context_id: Option<String>,
    pub conversation_state: ConversationState,
    pub last_conversation_state_change: std::time::Instant,
    pub ai_thinking_retry_count: u8,
    pub pending_llm_retry: bool,
    pub pending_session_end: bool,
    pub farewell_requested: bool,
    pub farewell_mode: bool,
}

impl View for SessionState {
    type V = SessionView;

    open spec fn view(&self) -> SessionView {
        SessionView {
            session_id: self.session_id@,
            participant_id: self.participant_id.deep_view(),
            send_transport_id: self.send_transport_id.deep_view(),
            recv_transport_id: self.recv_transport_id.deep_view(),
            router_producer_id: self.router_producer_id.deep_view(),
            router_consumer_id: self.router_consumer_id.deep_view(),
            device_producer_id: self.device_producer_id.deep_view(),
            device_consumer_id: self.device_consumer_id.deep_view(),
            has_remote_producer: self.has_remote_producer,
            conversation_history: self.conversation_history@,
            current_tts_context_id: self.current_tts_context_id.deep_view(),
            cancelled_tts_context_id: self.cancelled_tts_context_id.deep_view(),
            conversation_state: self.conversation_state,
            ai_thinking_retry_count: self.ai_thinking_retry_count,
            pending_llm_retry: self.pending_llm_retry,
            pending_session_end: self.pending_session_end,
            farewell_requested: self.farewell_requested,
            farewell_mode: self.farewell_mode,
        }
    }
}

/// The clock reading of the last state change is the same before and after.
/// It is restarted only by a change of conversation state and by the start
/// of an LLM retry; the operations state where it is kept, and
/// `transition_to_at` and `on_playback_complete_at` state the reading they
/// store when they restart it.
pub open spec fn clock_kept(before: SessionState, after: SessionState) -> bool {
    after.last_conversation_state_change == before.last_conversation_state_change
}

/// The state of a session that has just been registered.
pub open spec fn fresh_session(session_id: Seq<char>) -> SessionView {
    SessionView {
        session_id,
        participant_id: None,
        send_transport_id: None,
        recv_transport_id: None,
        router_producer_id: None,
        router_consumer_id: None,
        device_producer_id: None,
        device_consumer_id: None,
        has_remote_producer: false,
        conversation_history: Seq::empty(),
        current_tts_context_id: None,
        cancelled_tts_context_id: None,
        conversation_state: ConversationState::Idle,
        ai_thinking_retry_count: 0,
        pending_llm_retry: false,
        pending_session_end: false,
        farewell_requested: false,
        farewell_mode: false,
    }
}

impl SessionState {
    /// A new idle session with no media, no history and no pending work.
    pub fn new(session_id: String) -> (s: Self)
        ensures
            s@ == fresh_session(session_id@),
    {
        SessionState {
            session_id,
            participant_id: None,
            send_transport_id: None,
            recv_transport_id: None,
            router_producer_id: None,
            router_consumer_id: None,
            device_producer_id: None,
            device_consumer_id: None,
            has_remote_producer: false,
            conversation_history: Vec::new(),
            current_tts_context_id: None,
            cancelled_tts_context_id: None,
            conversation_state: ConversationState::Idle,
            last_conversation_state_change: instant_now(),
            ai_thinking_retry_count: 0,
            pending_llm_retry: false,
            pending_session_end: false,
            farewell_requested: false,
            farewell_mode: false,
        }
    }

    /// The AI participant's identifier, once assigned.
    pub fn participant_id(&self) -> (r: Option<&str>)
        ensures
            r.deep_view() == self@.participant_id,
    {
        match &self.participant_id {
            Some(p) => Some(p.as_str()),
            None => None,
        }
    }

    /// The speaking engine's producer identifier, once production started.
    pub fn device_producer_id(&self) -> (r: Option<&str>)
        ensures
            r.deep_view() == self@.device_producer_id,
    {
        match &self.device_producer_id {
            Some(p) => Some(p.as_str()),
            None => None,
        }
    }

    /// Moves the conversation to `new_state`. A change of state restarts the
    /// state clock, and entering `UserSpeaking` or `AiSpeaking` clears the
    /// LLM retry bookkeeping; moving to the current state changes nothing.
    pub fn transition_to(&mut self, new_state: ConversationState)
        ensures
            final(self)@ == old(self)@.transitioned(new_state),
            old(self).conversation_state == new_state ==> *final(self) == *old(self),
    {
        if self.conversation_state != new_state {
            self.transition_to_at(new_state, instant_now());
        }
    }

    /// Moves the conversation to `new_state` as `transition_to` does, with
    /// `now` as the clock reading: a change of state stores it as the time of
    /// the last change.
    pub fn transition_to_at(&mut self, new_state: ConversationState, now: std::time::Instant)
        ensures
            final(self)@ == old(self)@.transitioned(new_state),
            old(self).conversation_state == new_state ==> *final(self) == *old(self),
            old(self).conversation_state != new_state ==> final(self).last_conversation_state_change == now,
    {
        if self.conversation_state != new_state {
            self.conversation_state = new_state;
            self.last_conversation_state_change = now;
            if new_state == ConversationState::UserSpeaking
                || new_state == ConversationState::AiSpeaking {
                self.ai_thinking_retry_count = 0;
                self.pending_llm_retry = false;
            }
        }
    }

    /// Nanoseconds since the conversation last changed state, narrowed by
    /// `saturate_nanos`. The elapsed time is read from the clock, so nothing
    /// is stated of the value.
    pub fn time_in_current_state_ns(&self) -> u64 {
        elapsed_nanos(&self.last_conversation_state_change)
    }

    /// Decides what follows the end of playback: a pending session end wins,
    /// then a pending LLM retry (which restarts the state clock), and
    /// otherwise the conversation returns to idle.
    pub fn on_playback_complete(&mut self) -> (action: PlaybackCompleteAction)
        ensures
            (final(self)@, action) == old(self)@.playback_completed(),
            action == PlaybackCompleteAction::EndSession ==> clock_kept(*old(self), *final(self)),
            action == PlaybackCompleteAction::TransitionToIdle && old(self).conversation_state
                == ConversationState::Idle ==> clock_kept(*old(self), *final(self)),
    {
        self.on_playback_complete_at(instant_now())
    }

    /// Decides what follows the end of playback as `on_playback_complete`
    /// does, with `now` as the clock reading: a retry, and a move to idle from
    /// another state, restart the state clock at `now`; a session end leaves
    /// it alone.
    pub fn on_playback_complete_at(&mut self, now: std::time::Instant) -> (action: PlaybackCompleteAction)
        ensures
            (final(self)@, action) == old(self)@.playback_completed(),
            final(self).last_conversation_state_change == (if action == PlaybackCompleteAction::EndSession || (
            action == PlaybackCompleteAction::TransitionToIdle && old(self).conversation_state
                == ConversationState::Idle) {
                old(self).last_conversation_state_change
            } else {
                now
            }),
    {
        if self.pending_session_end {
            self.pending_session_end = false;
            PlaybackCompleteAction::EndSession
        } else if self.pending_llm_retry {
            self.pending_llm_retry = false;
            self.last_conversation_state_change = now;
            PlaybackCompleteAction::RetryLlm
        } else {
            self.transition_to_at(ConversationState::Idle, now);
            PlaybackCompleteAction::TransitionToIdle
        }
    }

    /// Starts a hardcoded utterance in the given TTS context.
    pub fn begin_hardcoded_response_with(&mut self, context_id: String)
        ensures
            final(self)@ == old(self)@.speaking_hardcoded(context_id@),
            old(self).conversation_state == ConversationState::AiSpeaking ==> clock_kept(*old(self), *final(self)),
    {
        self.current_tts_context_id = Some(context_id);
        self.transition_to(ConversationState::AiSpeaking);
    }

    /// Starts a hardcoded utterance in a fresh TTS context (the text of a
    /// random UUID) and returns it.
    pub fn begin_hardcoded_response(&mut self) -> (context_id: String)
        ensures
            final(self)@ == old(self)@.speaking_hardcoded(context_id@),
            is_uuid_v4_text(context_id@),
            old(self)@.cancelled_tts_context_id != Some(context_id@),
            old(self)@.current_tts_context_id != Some(context_id@),
            old(self).conversation_state == ConversationState::AiSpeaking ==> clock_kept(*old(self), *final(self)),
    {
        let context_id = new_context_id_avoiding(&self.cancelled_tts_context_id, &self.current_tts_context_id);
        self.begin_hardcoded_response_with(context_id.clone());
        context_id
    }

    /// First half of an interruption: takes the current TTS context, records
    /// it as cancelled and returns it so the provider can stop generating.
    pub fn begin_interruption(&mut self) -> (cancel: Option<String>)
        ensures
            final(self)@ == old(self)@.interruption_begun(),
            cancel.deep_view() == old(self)@.current_tts_context_id,
            clock_kept(*old(self), *final(self)),
    {
        match self.current_tts_context_id.take() {
            Some(context_id) => {
                self.cancelled_tts_context_id = Some(context_id.clone());
                Some(context_id)
            },
            None => None,
        }
    }

    /// Second half of an interruption: the user holds the floor.
    pub fn finish_interruption(&mut self)
        ensures
            final(self)@ == old(self)@.transitioned(ConversationState::UserSpeaking),
            old(self).conversation_state == ConversationState::UserSpeaking ==> clock_kept(*old(self), *final(self)),
    {
        self.transition_to(ConversationState::UserSpeaking);
    }

    /// The LLM stream could not be opened: back to idle, with no context.
    pub fn on_llm_stream_failed(&mut self)
        ensures
            final(self)@ == old(self)@.transitioned(ConversationState::Idle).with_current_context(None),
            old(self).conversation_state == ConversationState::Idle ==> clock_kept(*old(self), *final(self)),
    {
        self.transition_to(ConversationState::Idle);
        self.current_tts_context_id = None;
    }

    /// Appends a turn to the conversation history.
    pub fn push_message(&mut self, role: LlmRole, content: String)
        ensures
            final(self)@ == (SessionView {
                conversation_history: old(self)@.conversation_history.push(LlmMessage { role, content }),
                ..old(self)@
            }),
            clock_kept(*old(self), *final(self)),
    {
        self.conversation_history.push(LlmMessage { role, content });
    }

    /// Marks that the session should play its farewell at the next check.
    pub fn request_farewell(&mut self)
        ensures
            final(self)@ == (SessionView { farewell_requested: true, ..old(self)@ }),
            clock_kept(*old(self), *final(self)),
    {
        self.farewell_requested = true;
    }

    /// Whether audio of context `context_id` belongs to a cancelled generation.
    pub fn is_context_cancelled(&self, context_id: &Option<String>) -> (r: bool)
        ensures
            r == self@.is_cancelled_context(context_id.deep_view()),
    {
        same_present_context(context_id, &self.cancelled_tts_context_id)
    }

    /// The TTS provider finished the audio of `context_id`; if it is the
    /// current context, no context is current any more.
    pub fn on_audio_done(&mut self, context_id: &Option<String>)
        ensures
            final(self)@ == old(self)@.audio_done(context_id.deep_view()),
            clock_kept(*old(self), *final(self)),
    {
        if same_present_context(context_id, &self.current_tts_context_id) {
            self.current_tts_context_id = None;
        }
    }
}

/// Moving to a state twice is the same as moving to it once.
pub proof fn transition_is_idempotent(s: SessionView, target: ConversationState)
    ensures
        s.transitioned(target).transitioned(target) == s.transitioned(target),
{
}

/// Once an interruption has begun, audio still arriving for the context that
/// was current is recognised as cancelled, and no context is current.
pub proof fn interruption_cancels_current_audio(s: SessionView)
    requires
        s.current_tts_context_id is Some,
    ensures
        s.interrupted().is_cancelled_context(s.current_tts_context_id),
        s.interrupted().current_tts_context_id is None,
        s.interrupted().conversation_state == ConversationState::UserSpeaking,
{
}

/// The end of a context's audio only clears that context when it is the
/// current one; a later context stays current.
pub proof fn audio_done_clears_only_current(s: SessionView, c: Seq<char>)
    ensures
        s.current_tts_context_id == Some(c) ==> s.audio_done(Some(c)).current_tts_context_id is None,
        s.current_tts_context_id != Some(c) ==> s.audio_done(Some(c)) == s,
        s.audio_done(None) == s,
{
}

/// Playback completion consumes exactly one pending request: a session end
/// is reported once, and a pending retry does not survive it.
pub proof fn playback_completion_consumes_pending(s: SessionView)
    ensures
        !s.playback_completed().0.pending_session_end,
        s.pending_session_end || !s.playback_completed().0.pending_llm_retry,
        s.playback_completed().1 == PlaybackCompleteAction::EndSession <==> s.pending_session_end,
{
}

} // verus!
