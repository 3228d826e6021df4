//! Turn-taking: how voice-activity events, transcripts, timeouts and playback
//! completions move a session's conversation forward.
use vstd::prelude::*;

use crate::ids::{is_uuid_v4_text, new_context_id_avoiding};
use crate::llm::types::{LlmMessage, LlmRole};
use crate::session::state::{clock_kept, ConversationState, PlaybackCompleteAction, SessionState, SessionView};
use crate::text::{has_content, text_concat, text_has_content};

verus! {

/// A thinking AI that has produced no speech for this long (5 s) has timed out.
pub const AI_THINKING_TIMEOUT_NS: u64 = 5_000_000_000;

/// A speaking AI that has held the floor for this long (60 s) is cut short.
pub const AI_SPEAKING_TIMEOUT_NS: u64 = 60_000_000_000;

/// Number of LLM retries after thinking timeouts before the session gives up.
pub const MAX_AI_THINKING_RETRIES: u8 = 2;

/// Draining for the final transcript waits this long when text is already buffered.
pub const FINALIZE_TIMEOUT_MS: u64 = 100;

/// Draining for the final transcript waits this long when nothing is buffered.
pub const FALLBACK_TIMEOUT_MS: u64 = 300;

/// The fixed phrases the AI speaks outside of LLM responses.
#[derive(Debug, Clone, Copy, PartialEq, Eq, Structural)]
pub enum Utterance {
    Greeting,
    Farewell,
    RetryFirst,
    RetrySecond,
    GiveUp,
    Rambling,
}

pub open spec fn utterance_text(u: Utterance) -> Seq<char> {
    match u {
        Utterance::Greeting => "Hi, I'm Anysia. How can I help?"@,
        Utterance::Farewell => "Time's up! It was great talking with you. Come back any time."@,
        Utterance::RetryFirst => "Sorry, let me try that again."@,
        Utterance::RetrySecond => "One more moment."@,
        Utterance::GiveUp => "Something's wrong on my end. I'll have to end our session, sorry about that."@,
        Utterance::Rambling => "Sorry, I got carried away. I'll stop there."@,
    }
}

impl Utterance {
    /// The words spoken.
    pub fn text(&self) -> (r: &'static str)
        ensures
            r@ == utterance_text(*self),
    {
        match self {
            Utterance::Greeting => "Hi, I'm Anysia. How can I help?",
            Utterance::Farewell => "Time's up! It was great talking with you. Come back any time.",
            Utterance::RetryFirst => "Sorry, let me try that again.",
            Utterance::RetrySecond => "One more moment.",
            Utterance::GiveUp => "Something's wrong on my end. I'll have to end our session, sorry about that.",
            Utterance::Rambling => "Sorry, I got carried away. I'll stop there.",
        }
    }
}

/// A transcript from the speech-to-text provider. `below_min_confidence`
/// says that the provider reported a confidence under the accepted minimum.
pub struct SttTranscript {
    pub text: String,
    pub from_finalize: bool,
    pub speech_final: bool,
    pub below_min_confidence: bool,
}

/// Whether a transcript is worth keeping: a final one when it has any
/// content, an interim one when it also has enough confidence.
pub open spec fn transcript_accepted(t: SttTranscript) -> bool {
    if t.speech_final || t.from_finalize {
        has_content(t.text@)
    } else {
        !t.below_min_confidence && has_content(t.text@)
    }
}

/// Decides whether a transcript is worth keeping.
pub fn should_process_transcript(transcript: &SttTranscript) -> (r: bool)
    ensures
        r == transcript_accepted(*transcript),
{
    if transcript.speech_final || transcript.from_finalize {
        return text_has_content(transcript.text.as_str());
    }
    if transcript.below_min_confidence {
        return false;
    }
    text_has_content(transcript.text.as_str())
}

/// The user's words gathered during the current turn.
pub struct TranscriptBuffer {
    pub text: String,
    pub from_finalize: bool,
    pub speech_final: bool,
}

impl TranscriptBuffer {
    /// An empty buffer.
    pub fn new() -> (b: Self)
        ensures
            b.text@ == Seq::<char>::empty(),
            !b.from_finalize,
            !b.speech_final,
    {
        TranscriptBuffer { text: String::new(), from_finalize: false, speech_final: false }
    }

    /// The provider has already delivered the turn's final transcript.
    pub fn is_finalized(&self) -> (r: bool)
        ensures
            r == (self.from_finalize || self.speech_final),
    {
        self.from_finalize || self.speech_final
    }

    /// Forgets the turn's words and flags.
    pub fn clear(&mut self)
        ensures
            final(self).text@ == Seq::<char>::empty(),
            !final(self).from_finalize,
            !final(self).speech_final,
    {
        self.text = String::new();
        self.from_finalize = false;
        self.speech_final = false;
    }
}

/// The mathematical content of a [`TurnTracker`].
pub struct TrackerView {
    pub text: Seq<char>,
    pub from_finalize: bool,
    pub speech_final: bool,
    pub committed: Seq<char>,
}

/// A tracker with nothing gathered.
pub open spec fn cleared_tracker() -> TrackerView {
    TrackerView {
        text: Seq::empty(),
        from_finalize: false,
        speech_final: false,
        committed: Seq::empty(),
    }
}

/// The finished segments of a turn followed by the current segment's text,
/// one space apart.
pub open spec fn joined(committed: Seq<char>, segment: Seq<char>) -> Seq<char> {
    if committed.len() == 0 {
        segment
    } else {
        committed + " "@ + segment
    }
}

/// The tracker after a transcript arrives. Final flags accumulate. An
/// accepted transcript is the current segment's latest text: it replaces the
/// segment's earlier text and follows the finished segments. A `speech_final`
/// transcript finishes the segment, which is then kept.
pub open spec fn tracker_after_transcript(v: TrackerView, t: SttTranscript) -> TrackerView {
    let text = if transcript_accepted(t) {
        joined(v.committed, t.text@)
    } else {
        v.text
    };
    TrackerView {
        text,
        from_finalize: v.from_finalize || t.from_finalize,
        speech_final: v.speech_final || t.speech_final,
        committed: if t.speech_final {
            text
        } else {
            v.committed
        },
    }
}

/// The conversation loop's view of the user's current turn.
pub struct TurnTracker {
    pub buffer: TranscriptBuffer,
    /// The finished segments of the turn, one space apart.
    pub committed: String,
}

impl View for TurnTracker {
    type V = TrackerView;

    open spec fn view(&self) -> TrackerView {
        TrackerView {
            text: self.buffer.text@,
            from_finalize: self.buffer.from_finalize,
            speech_final: self.buffer.speech_final,
            committed: self.committed@,
        }
    }
}

impl TurnTracker {
    /// A tracker with nothing gathered.
    pub fn new() -> (t: Self)
        ensures
            t@ == cleared_tracker(),
    {
        TurnTracker { buffer: TranscriptBuffer::new(), committed: String::new() }
    }

    /// Starts the turn afresh.
    pub fn reset(&mut self)
        ensures
            final(self)@ == cleared_tracker(),
    {
        self.buffer.clear();
        self.committed = String::new();
    }

    /// Folds a transcript from the provider into the turn.
    pub fn on_transcript(&mut self, transcript: SttTranscript)
        ensures
            final(self)@ == tracker_after_transcript(old(self)@, transcript),
    {
        if transcript.from_finalize {
            self.buffer.from_finalize = true;
        }
        let finishes_segment = transcript.speech_final;
        if finishes_segment {
            self.buffer.speech_final = true;
        }
        if should_process_transcript(&transcript) {
            if self.committed.as_str().is_empty() {
                self.buffer.text = transcript.text;
            } else {
                let text = text_concat(self.committed.as_str(), " ");
                self.buffer.text = text_concat(text.as_str(), transcript.text.as_str());
            }
        }
        if finishes_segment {
            self.committed = self.buffer.text.clone();
        }
    }
}

/// Collects the final transcript after the provider was asked to finalize.
pub struct TranscriptDrain {
    pub text: String,
    pub timeout_ms: u64,
}

impl TranscriptDrain {
    /// Starts from the buffered words; waits briefly when they already have
    /// content and longer when they do not.
    pub fn new(buffer: &TranscriptBuffer) -> (d: Self)
        ensures
            d.text@ == buffer.text@,
            d.timeout_ms == (if has_content(buffer.text@) {
                FINALIZE_TIMEOUT_MS
            } else {
                FALLBACK_TIMEOUT_MS
            }),
    {
        let text = buffer.text.clone();
        let timeout_ms = if text_has_content(text.as_str()) {
            FINALIZE_TIMEOUT_MS
        } else {
            FALLBACK_TIMEOUT_MS
        };
        TranscriptDrain { text, timeout_ms }
    }

    /// Takes an arriving transcript; an accepted one replaces the text.
    /// Returns whether it was final, which ends the drain.
    pub fn on_transcript(&mut self, transcript: SttTranscript) -> (done: bool)
        ensures
            final(self).text@ == (if transcript_accepted(transcript) {
                transcript.text@
            } else {
                old(self).text@
            }),
            final(self).timeout_ms == old(self).timeout_ms,
            done == (transcript.from_finalize || transcript.speech_final),
    {
        let done = transcript.from_finalize || transcript.speech_final;
        if should_process_transcript(&transcript) {
            self.text = transcript.text;
        }
        done
    }
}

/// What the loop does when the user starts to speak.
#[derive(Debug, Clone, Copy, PartialEq, Eq, Structural)]
pub enum SpeechStartedOutcome {
    UserStartedSpeaking,
    AlreadySpeaking,
    IgnoredDuringFarewell,
    Interrupt,
}

/// Session, tracker and outcome after the user starts to speak. Speech while
/// the AI thinks or speaks interrupts it, unless it is saying farewell.
pub open spec fn speech_started(s: SessionView, t: TrackerView) -> (SessionView, TrackerView, SpeechStartedOutcome) {
    match s.conversation_state {
        ConversationState::Idle => (
            s.transitioned(ConversationState::UserSpeaking),
            cleared_tracker(),
            SpeechStartedOutcome::UserStartedSpeaking,
        ),
        ConversationState::UserSpeaking => (s, t, SpeechStartedOutcome::AlreadySpeaking),
        _ => if s.farewell_mode {
            (s, t, SpeechStartedOutcome::IgnoredDuringFarewell)
        } else {
            (s, cleared_tracker(), SpeechStartedOutcome::Interrupt)
        },
    }
}

/// The user started to speak. On `Interrupt` the caller carries out the
/// interruption (`begin_interruption`, cancel and flush, `finish_interruption`).
pub fn on_speech_started(session: &mut SessionState, tracker: &mut TurnTracker) -> (o: SpeechStartedOutcome)
    ensures
        (final(session)@, final(tracker)@, o) == speech_started(old(session)@, old(tracker)@),
        o != SpeechStartedOutcome::UserStartedSpeaking ==> clock_kept(*old(session), *final(session)),
        old(session).conversation_state == ConversationState::Idle ==> {
            &&& o == SpeechStartedOutcome::UserStartedSpeaking
            &&& final(session).conversation_state == ConversationState::UserSpeaking
        },
        old(session).conversation_state == ConversationState::UserSpeaking ==> {
            &&& o == SpeechStartedOutcome::AlreadySpeaking
            &&& final(session)@ == old(session)@
            &&& final(tracker)@ == old(tracker)@
        },
        (old(session).conversation_state == ConversationState::AiThinking || old(session).conversation_state
            == ConversationState::AiSpeaking) && !old(session).farewell_mode ==> {
            &&& o == SpeechStartedOutcome::Interrupt
            &&& final(session)@ == old(session)@
            &&& final(tracker)@ == cleared_tracker()
        },
{
    match session.conversation_state {
        ConversationState::Idle => {
            tracker.reset();
            session.transition_to(ConversationState::UserSpeaking);
            SpeechStartedOutcome::UserStartedSpeaking
        },
        ConversationState::UserSpeaking => SpeechStartedOutcome::AlreadySpeaking,
        _ => {
            if session.farewell_mode {
                SpeechStartedOutcome::IgnoredDuringFarewell
            } else {
                tracker.reset();
                SpeechStartedOutcome::Interrupt
            }
        },
    }
}

/// What the loop does when the listening engine reports the end of the user's turn.
pub enum TurnCompleteOutcome {
    /// The final transcript is already buffered.
    Ready(String),
    /// The provider must be asked to finalize and the transcript drained.
    NeedsDrain,
    IgnoredDuringFarewell,
    Interrupt,
}

/// The user's turn ended. On `Ready` or after a drain the caller passes the
/// final transcript to `complete_user_turn`.
pub fn on_user_turn_complete(session: &mut SessionState, tracker: &mut TurnTracker) -> (o: TurnCompleteOutcome)
    ensures
        match old(session)@.conversation_state {
            ConversationState::Idle | ConversationState::UserSpeaking => {
                &&& final(session)@ == old(session)@
                &&& final(tracker)@ == old(tracker)@
                &&& if old(tracker)@.from_finalize || old(tracker)@.speech_final {
                    o matches TurnCompleteOutcome::Ready(text) && text@ == old(tracker)@.text
                } else {
                    o is NeedsDrain
                }
            },
            _ => {
                &&& final(session)@ == old(session)@
                &&& if old(session)@.farewell_mode {
                    o is IgnoredDuringFarewell && final(tracker)@ == old(tracker)@
                } else {
                    o is Interrupt && final(tracker)@ == cleared_tracker()
                }
            },
        },
        clock_kept(*old(session), *final(session)),
{
    match session.conversation_state {
        ConversationState::Idle | ConversationState::UserSpeaking => {
            if tracker.buffer.is_finalized() {
                TurnCompleteOutcome::Ready(tracker.buffer.text.clone())
            } else {
                TurnCompleteOutcome::NeedsDrain
            }
        },
        _ => {
            if session.farewell_mode {
                TurnCompleteOutcome::IgnoredDuringFarewell
            } else {
                tracker.reset();
                TurnCompleteOutcome::Interrupt
            }
        },
    }
}

/// Closes the user's turn with its final transcript and, when there were
/// words, returns the TTS context of the LLM response to start.
pub fn complete_user_turn_with(
    session: &mut SessionState,
    tracker: &mut TurnTracker,
    final_transcript: String,
    context_id: String,
) -> (started: Option<String>)
    ensures
        final(tracker)@ == cleared_tracker(),
        !has_content(final_transcript@) ==> {
            &&& started is None
            &&& final(session)@ == old(session)@.transitioned(ConversationState::Idle)
        },
        has_content(final_transcript@) ==> {
            &&& started matches Some(c) && c@ == context_id@
            &&& final(session)@ == (SessionView {
                conversation_history: old(session)@.conversation_history.push(
                    LlmMessage { role: LlmRole::User, content: final_transcript },
                ),
                ..old(session)@
            }).transitioned(ConversationState::AiThinking).with_current_context(Some(context_id@))
        },
        !has_content(final_transcript@) && old(session).conversation_state == ConversationState::Idle
            ==> clock_kept(*old(session), *final(session)),
{
    if !text_has_content(final_transcript.as_str()) {
        tracker.reset();
        session.transition_to(ConversationState::Idle);
        return None;
    }
    session.push_message(LlmRole::User, final_transcript);
    session.transition_to(ConversationState::AiThinking);
    session.current_tts_context_id = Some(context_id.clone());
    tracker.reset();
    Some(context_id)
}

/// Closes the user's turn as `complete_user_turn_with` does, in a fresh TTS context.
pub fn complete_user_turn(
    session: &mut SessionState,
    tracker: &mut TurnTracker,
    final_transcript: String,
) -> (started: Option<String>)
    ensures
        final(tracker)@ == cleared_tracker(),
        !has_content(final_transcript@) ==> {
            &&& started is None
            &&& final(session)@ == old(session)@.transitioned(ConversationState::Idle)
        },
        has_content(final_transcript@) ==> {
            &&& started matches Some(fresh) && is_uuid_v4_text(fresh@)
                && old(session)@.cancelled_tts_context_id != Some(fresh@)
                && old(session)@.current_tts_context_id != Some(fresh@)
            &&& started matches Some(c)
            &&& final(session)@ == (SessionView {
                conversation_history: old(session)@.conversation_history.push(
                    LlmMessage { role: LlmRole::User, content: final_transcript },
                ),
                ..old(session)@
            }).transitioned(ConversationState::AiThinking).with_current_context(Some(c@))
        },
        !has_content(final_transcript@) && old(session).conversation_state == ConversationState::Idle
            ==> clock_kept(*old(session), *final(session)),
{
    let context_id = new_context_id_avoiding(&session.cancelled_tts_context_id, &session.current_tts_context_id);
    complete_user_turn_with(session, tracker, final_transcript, context_id)
}

/// What the once-a-second check asks of the loop.
pub enum TickOutcome {
    NoAction,
    /// Speak the farewell in the given context.
    PlayFarewell { context_id: String },
    /// Abort the LLM and TTS tasks, then speak `utterance` in the given context.
    ThinkingTimedOut { utterance: Utterance, context_id: String },
    /// Abort the tasks, cancel `cancel_context` with the TTS provider, flush
    /// the speaking engine, then apologise in the given context.
    SpeakingTimedOut { cancel_context: Option<String>, context_id: String },
}

/// The session after the periodic check, given the time spent in the
/// current state and the context of any utterance it starts. After a
/// thinking timeout with attempts left, the apology keeps the raised count
/// and the pending retry, so that its playback leads to the retry.
pub open spec fn ticked(s: SessionView, elapsed_ns: u64, c: Seq<char>) -> SessionView {
    if s.farewell_requested && !s.farewell_mode {
        SessionView { farewell_mode: true, farewell_requested: false, ..s }.speaking_hardcoded(c)
    } else if s.conversation_state == ConversationState::AiThinking && elapsed_ns >= AI_THINKING_TIMEOUT_NS {
        if s.ai_thinking_retry_count >= MAX_AI_THINKING_RETRIES {
            SessionView { pending_session_end: true, ..s.speaking_hardcoded(c) }
        } else {
            SessionView {
                ai_thinking_retry_count: (s.ai_thinking_retry_count + 1) as u8,
                pending_llm_retry: true,
                ..s.speaking_hardcoded(c)
            }
        }
    } else if s.conversation_state == ConversationState::AiSpeaking && elapsed_ns >= AI_SPEAKING_TIMEOUT_NS {
        s.interrupted().speaking_hardcoded(c)
    } else {
        s
    }
}

/// The outcome of the periodic check, matching [`ticked`].
pub open spec fn tick_outcome(s: SessionView, elapsed_ns: u64, c: Seq<char>, o: TickOutcome) -> bool {
    if s.farewell_requested && !s.farewell_mode {
        o matches TickOutcome::PlayFarewell { context_id } && context_id@ == c
    } else if s.conversation_state == ConversationState::AiThinking && elapsed_ns >= AI_THINKING_TIMEOUT_NS {
        o matches TickOutcome::ThinkingTimedOut { utterance, context_id } && context_id@ == c && utterance == (
            if s.ai_thinking_retry_count >= MAX_AI_THINKING_RETRIES {
                Utterance::GiveUp
            } else if s.ai_thinking_retry_count == 0 {
                Utterance::RetryFirst
            } else {
                Utterance::RetrySecond
            })
    } else if s.conversation_state == ConversationState::AiSpeaking && elapsed_ns >= AI_SPEAKING_TIMEOUT_NS {
        o matches TickOutcome::SpeakingTimedOut { cancel_context, context_id }
            && context_id@ == c && cancel_context.deep_view() == s.current_tts_context_id
    } else {
        o is NoAction
    }
}

/// The periodic check: plays a requested farewell, recovers from an AI that
/// thinks too long (retrying, then giving up and ending the session after
/// playback) and cuts short an AI that speaks too long.
pub fn on_timeout_tick_with(session: &mut SessionState, elapsed_ns: u64, context_id: String) -> (o: TickOutcome)
    ensures
        final(session)@ == ticked(old(session)@, elapsed_ns, context_id@),
        tick_outcome(old(session)@, elapsed_ns, context_id@, o),
        o is NoAction ==> clock_kept(*old(session), *final(session)),
{
    if session.farewell_requested && !session.farewell_mode {
        session.farewell_mode = true;
        session.farewell_requested = false;
        session.begin_hardcoded_response_with(context_id.clone());
        return TickOutcome::PlayFarewell { context_id };
    }
    match session.conversation_state {
        ConversationState::AiThinking => {
            if elapsed_ns >= AI_THINKING_TIMEOUT_NS {
                if session.ai_thinking_retry_count >= MAX_AI_THINKING_RETRIES {
                    session.begin_hardcoded_response_with(context_id.clone());
                    session.pending_session_end = true;
                    return TickOutcome::ThinkingTimedOut { utterance: Utterance::GiveUp, context_id };
                }
                let attempts = session.ai_thinking_retry_count;
                let utterance = if attempts == 0 {
                    Utterance::RetryFirst
                } else {
                    Utterance::RetrySecond
                };
                session.begin_hardcoded_response_with(context_id.clone());
                session.ai_thinking_retry_count = attempts + 1;
                session.pending_llm_retry = true;
                return TickOutcome::ThinkingTimedOut { utterance, context_id };
            }
            TickOutcome::NoAction
        },
        ConversationState::AiSpeaking => {
            if elapsed_ns >= AI_SPEAKING_TIMEOUT_NS {
                let cancel_context = session.begin_interruption();
                session.finish_interruption();
                session.begin_hardcoded_response_with(context_id.clone());
                return TickOutcome::SpeakingTimedOut { cancel_context, context_id };
            }
            TickOutcome::NoAction
        },
        _ => TickOutcome::NoAction,
    }
}

/// The periodic check, reading the time in the current state from the clock
/// and drawing a fresh TTS context for any utterance it starts.
pub fn on_timeout_tick(session: &mut SessionState) -> (o: TickOutcome)
    ensures
        exists|elapsed_ns: u64, c: Seq<char>|
            is_uuid_v4_text(c) && old(session)@.cancelled_tts_context_id != Some(c)
                && old(session)@.current_tts_context_id != Some(c)
                && final(session)@ == ticked(old(session)@, elapsed_ns, c)
                && tick_outcome(old(session)@, elapsed_ns, c, o),
        o is NoAction ==> clock_kept(*old(session), *final(session)),
{
    let elapsed_ns = session.time_in_current_state_ns();
    let context_id = new_context_id_avoiding(&session.cancelled_tts_context_id, &session.current_tts_context_id);
    let ghost c = context_id@;
    let o = on_timeout_tick_with(session, elapsed_ns, context_id);
    assert(is_uuid_v4_text(c) && old(session)@.cancelled_tts_context_id != Some(c)
        && old(session)@.current_tts_context_id != Some(c) && final(session)@ == ticked(old(session)@, elapsed_ns, c) && tick_outcome(
        old(session)@,
        elapsed_ns,
        c,
        o,
    ));
    o
}

/// What the loop does with the action chosen at the end of playback.
pub enum PlaybackOutcome {
    NoAction,
    /// Start the LLM response again in the given context.
    RetryLlm { context_id: String },
    EndSession,
}

/// Carries out the action chosen at the end of playback: a retry makes `c`
/// the current context and the AI thinks again.
pub fn on_playback_action_with(
    session: &mut SessionState,
    action: PlaybackCompleteAction,
    context_id: String,
) -> (o: PlaybackOutcome)
    ensures
        action == PlaybackCompleteAction::TransitionToIdle ==> o is NoAction && final(session)@ == old(session)@,
        action == PlaybackCompleteAction::EndSession ==> o is EndSession && final(session)@ == old(session)@,
        action == PlaybackCompleteAction::RetryLlm ==> {
            &&& o matches PlaybackOutcome::RetryLlm { context_id: c } && c@ == context_id@
            &&& final(session)@ == old(session)@.with_current_context(Some(context_id@)).transitioned(
                ConversationState::AiThinking,
            )
        },
        action != PlaybackCompleteAction::RetryLlm ==> clock_kept(*old(session), *final(session)),
{
    match action {
        PlaybackCompleteAction::TransitionToIdle => PlaybackOutcome::NoAction,
        PlaybackCompleteAction::RetryLlm => {
            session.current_tts_context_id = Some(context_id.clone());
            session.transition_to(ConversationState::AiThinking);
            PlaybackOutcome::RetryLlm { context_id }
        },
        PlaybackCompleteAction::EndSession => PlaybackOutcome::EndSession,
    }
}

/// Carries out the action chosen at the end of playback, drawing a fresh
/// context for a retry.
pub fn on_playback_action(session: &mut SessionState, action: PlaybackCompleteAction) -> (o: PlaybackOutcome)
    ensures
        action == PlaybackCompleteAction::TransitionToIdle ==> o is NoAction && final(session)@ == old(session)@,
        action == PlaybackCompleteAction::EndSession ==> o is EndSession && final(session)@ == old(session)@,
        action == PlaybackCompleteAction::RetryLlm ==> {
            &&& o matches PlaybackOutcome::RetryLlm { context_id: fresh } && is_uuid_v4_text(fresh@)
                && old(session)@.cancelled_tts_context_id != Some(fresh@)
                && old(session)@.current_tts_context_id != Some(fresh@)
            &&& o matches PlaybackOutcome::RetryLlm { context_id: c }
            &&& final(session)@ == old(session)@.with_current_context(Some(c@)).transitioned(
                ConversationState::AiThinking,
            )
        },
        action != PlaybackCompleteAction::RetryLlm ==> clock_kept(*old(session), *final(session)),
{
    let context_id = new_context_id_avoiding(&session.cancelled_tts_context_id, &session.current_tts_context_id);
    on_playback_action_with(session, action, context_id)
}

/// A requested farewell is played once: the check after it does not play it again.
pub proof fn farewell_plays_once(s: SessionView, e1: u64, c1: Seq<char>, e2: u64, c2: Seq<char>, o: TickOutcome)
    requires
        s.farewell_requested && !s.farewell_mode,
        tick_outcome(ticked(s, e1, c1), e2, c2, o),
    ensures
        ticked(s, e1, c1).farewell_mode,
        !(o is PlayFarewell),
{
}

/// While the farewell plays, the user's voice neither interrupts the AI nor
/// changes the session.
pub proof fn farewell_is_not_interrupted(s: SessionView, t: TrackerView)
    requires
        s.farewell_mode,
        s.conversation_state == ConversationState::AiThinking || s.conversation_state == ConversationState::AiSpeaking,
    ensures
        speech_started(s, t) == (s, t, SpeechStartedOutcome::IgnoredDuringFarewell),
{
}

/// A thinking timeout with attempts left is retried: the apology keeps the
/// count of attempts and the pending retry, so when it has played the LLM is
/// asked again, and the conversation thinks again with that count.
pub proof fn thinking_timeout_is_retried(s: SessionView, elapsed_ns: u64, c: Seq<char>, c2: Seq<char>)
    requires
        !(s.farewell_requested && !s.farewell_mode),
        s.conversation_state == ConversationState::AiThinking,
        elapsed_ns >= AI_THINKING_TIMEOUT_NS,
        s.ai_thinking_retry_count < MAX_AI_THINKING_RETRIES,
        !s.pending_session_end,
    ensures
        ticked(s, elapsed_ns, c).conversation_state == ConversationState::AiSpeaking,
        ticked(s, elapsed_ns, c).ai_thinking_retry_count == s.ai_thinking_retry_count + 1,
        ticked(s, elapsed_ns, c).playback_completed().1 == PlaybackCompleteAction::RetryLlm,
        ({
            let retried = ticked(s, elapsed_ns, c).playback_completed().0.with_current_context(Some(c2)).transitioned(
                ConversationState::AiThinking,
            );
            &&& retried.conversation_state == ConversationState::AiThinking
            &&& retried.ai_thinking_retry_count == s.ai_thinking_retry_count + 1
            &&& !retried.pending_llm_retry
        }),
{
}

/// Once the retries are used up (three attempts in all), the next thinking
/// timeout gives up: its apology's playback ends the session.
pub proof fn thinking_timeout_gives_up_after_retries(s: SessionView, elapsed_ns: u64, c: Seq<char>)
    requires
        !(s.farewell_requested && !s.farewell_mode),
        s.conversation_state == ConversationState::AiThinking,
        elapsed_ns >= AI_THINKING_TIMEOUT_NS,
        s.ai_thinking_retry_count >= MAX_AI_THINKING_RETRIES,
    ensures
        ticked(s, elapsed_ns, c).pending_session_end,
        ticked(s, elapsed_ns, c).playback_completed().1 == PlaybackCompleteAction::EndSession,
{
}

/// Finished speech segments are kept: after a segment ends, the later
/// segment's interim transcripts only replace that later segment's text.
pub proof fn finished_segments_are_kept(v: TrackerView, t: SttTranscript, u: SttTranscript)
    requires
        t.speech_final,
        transcript_accepted(t),
        !u.speech_final,
        transcript_accepted(u),
    ensures
        tracker_after_transcript(tracker_after_transcript(v, t), u).text == joined(
            joined(v.committed, t.text@),
            u.text@,
        ),
{
}

/// Speech while the AI thinks or speaks, outside the farewell, interrupts
/// it: the caller is told to interrupt, the session is left for the
/// interruption to change, and the user's turn starts afresh.
pub proof fn speech_interrupts_the_ai(s: SessionView, t: TrackerView)
    requires
        s.conversation_state == ConversationState::AiThinking || s.conversation_state == ConversationState::AiSpeaking,
        !s.farewell_mode,
    ensures
        speech_started(s, t).2 == SpeechStartedOutcome::Interrupt,
        speech_started(s, t).0 == s,
        speech_started(s, t).1 == cleared_tracker(),
{
}

/// The answer started for a turn in a context other than the cancelled one
/// is heard: its context is current and its audio is not treated as
/// cancelled, even right after an interruption.
pub proof fn started_answer_is_not_cancelled(s: SessionView, message: LlmMessage, c: Seq<char>)
    requires
        s.cancelled_tts_context_id != Some(c),
    ensures
        ({
            let after = (SessionView { conversation_history: s.conversation_history.push(message), ..s }).transitioned(
                ConversationState::AiThinking,
            ).with_current_context(Some(c));
            &&& after.current_tts_context_id == Some(c)
            &&& !after.is_cancelled_context(Some(c))
        }),
{
}

/// After the user interrupts an answer in context `c1`, the next turn's
/// answer, in a context other than `c1`, is heard while `c1` stays cancelled.
pub proof fn answer_after_interruption_is_heard(s: SessionView, c1: Seq<char>, message: LlmMessage, c: Seq<char>)
    requires
        s.current_tts_context_id == Some(c1),
        c != c1,
    ensures
        ({
            let interrupted = s.interrupted();
            let after = (SessionView {
                conversation_history: interrupted.conversation_history.push(message),
                ..interrupted
            }).transitioned(ConversationState::AiThinking).with_current_context(Some(c));
            &&& interrupted.is_cancelled_context(Some(c1))
            &&& after.is_cancelled_context(Some(c1))
            &&& !after.is_cancelled_context(Some(c))
            &&& after.current_tts_context_id == Some(c)
        }),
{
}

/// A final transcript with content is always kept, whatever its confidence.
pub proof fn final_transcripts_are_kept(t: SttTranscript)
    requires
        t.speech_final || t.from_finalize,
        has_content(t.text@),
    ensures
        transcript_accepted(t),
{
}

} // verus!
