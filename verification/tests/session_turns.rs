use saasy_orchestrator::llm::types::LlmRole;
use saasy_orchestrator::session::state::{ConversationState, PlaybackCompleteAction, SessionState};
use saasy_orchestrator::session::turn::{
    complete_user_turn, complete_user_turn_with, on_playback_action, on_playback_action_with, on_speech_started,
    on_timeout_tick, on_timeout_tick_with, on_user_turn_complete, should_process_transcript, PlaybackOutcome,
    SpeechStartedOutcome, SttTranscript, TickOutcome, TranscriptBuffer, TranscriptDrain, TurnCompleteOutcome,
    TurnTracker, Utterance, AI_SPEAKING_TIMEOUT_NS, AI_THINKING_TIMEOUT_NS, FALLBACK_TIMEOUT_MS, FINALIZE_TIMEOUT_MS,
};

fn transcript(text: &str, from_finalize: bool, speech_final: bool, low: bool) -> SttTranscript {
    SttTranscript { text: text.to_string(), from_finalize, speech_final, below_min_confidence: low }
}

fn session_in(state: ConversationState) -> SessionState {
    let mut s = SessionState::new("s1".to_string());
    s.conversation_state = state;
    s
}

#[test]
fn new_session_is_idle_and_empty() {
    let s = SessionState::new("abc".to_string());
    assert_eq!(s.session_id, "abc");
    assert_eq!(s.conversation_state, ConversationState::Idle);
    assert_eq!(ConversationState::default(), ConversationState::Idle);
    assert!(s.participant_id().is_none());
    assert!(s.device_producer_id().is_none());
    assert!(s.conversation_history.is_empty());
    assert_eq!(s.ai_thinking_retry_count, 0);
    assert!(!s.pending_llm_retry && !s.pending_session_end && !s.farewell_requested && !s.farewell_mode);
}

#[test]
fn transition_resets_retries_on_new_turn() {
    let mut s = session_in(ConversationState::AiThinking);
    s.ai_thinking_retry_count = 2;
    s.pending_llm_retry = true;
    s.transition_to(ConversationState::AiThinking);
    assert_eq!(s.ai_thinking_retry_count, 2);
    assert!(s.pending_llm_retry);
    s.transition_to(ConversationState::Idle);
    assert_eq!(s.ai_thinking_retry_count, 2);
    s.transition_to(ConversationState::UserSpeaking);
    assert_eq!(s.ai_thinking_retry_count, 0);
    assert!(!s.pending_llm_retry);
    s.ai_thinking_retry_count = 1;
    s.transition_to(ConversationState::AiSpeaking);
    assert_eq!(s.ai_thinking_retry_count, 0);
}

#[test]
fn playback_complete_priorities() {
    let mut s = session_in(ConversationState::AiSpeaking);
    s.pending_session_end = true;
    s.pending_llm_retry = true;
    assert_eq!(s.on_playback_complete(), PlaybackCompleteAction::EndSession);
    assert!(!s.pending_session_end);
    assert!(s.pending_llm_retry);
    assert_eq!(s.on_playback_complete(), PlaybackCompleteAction::RetryLlm);
    assert!(!s.pending_llm_retry);
    assert_eq!(s.conversation_state, ConversationState::AiSpeaking);
    assert_eq!(s.on_playback_complete(), PlaybackCompleteAction::TransitionToIdle);
    assert_eq!(s.conversation_state, ConversationState::Idle);
}

#[test]
fn interruption_cancels_current_context() {
    let mut s = session_in(ConversationState::AiSpeaking);
    s.current_tts_context_id = Some("ctx-1".to_string());
    let cancel = s.begin_interruption();
    assert_eq!(cancel, Some("ctx-1".to_string()));
    assert_eq!(s.current_tts_context_id, None);
    assert!(s.is_context_cancelled(&Some("ctx-1".to_string())));
    assert!(!s.is_context_cancelled(&Some("ctx-2".to_string())));
    assert!(!s.is_context_cancelled(&None));
    s.finish_interruption();
    assert_eq!(s.conversation_state, ConversationState::UserSpeaking);
    let mut idle = session_in(ConversationState::Idle);
    assert_eq!(idle.begin_interruption(), None);
    assert_eq!(idle.cancelled_tts_context_id, None);
}

#[test]
fn audio_done_clears_current_context_only() {
    let mut s = session_in(ConversationState::AiSpeaking);
    s.current_tts_context_id = Some("b".to_string());
    s.on_audio_done(&Some("a".to_string()));
    assert_eq!(s.current_tts_context_id, Some("b".to_string()));
    s.on_audio_done(&None);
    assert_eq!(s.current_tts_context_id, Some("b".to_string()));
    s.on_audio_done(&Some("b".to_string()));
    assert_eq!(s.current_tts_context_id, None);
}

#[test]
fn hardcoded_response_and_llm_failure() {
    let mut s = session_in(ConversationState::Idle);
    s.begin_hardcoded_response_with("greet".to_string());
    assert_eq!(s.current_tts_context_id, Some("greet".to_string()));
    assert_eq!(s.conversation_state, ConversationState::AiSpeaking);
    let c = s.begin_hardcoded_response();
    assert_eq!(s.current_tts_context_id, Some(c));
    s.on_llm_stream_failed();
    assert_eq!(s.conversation_state, ConversationState::Idle);
    assert_eq!(s.current_tts_context_id, None);
    s.push_message(LlmRole::Assistant, "answer".to_string());
    assert_eq!(s.conversation_history.len(), 1);
    assert_eq!(s.conversation_history[0].content, "answer");
    assert_eq!(s.conversation_history[0].role, LlmRole::Assistant);
    s.request_farewell();
    assert!(s.farewell_requested);
}

#[test]
fn transcript_filtering() {
    assert!(should_process_transcript(&transcript("hello", false, false, false)));
    assert!(!should_process_transcript(&transcript("hello", false, false, true)));
    assert!(!should_process_transcript(&transcript("   ", false, false, false)));
    assert!(should_process_transcript(&transcript("hello", true, false, true)));
    assert!(should_process_transcript(&transcript("hello", false, true, true)));
    assert!(!should_process_transcript(&transcript(" \t\n", false, true, false)));
    assert!(!should_process_transcript(&transcript("\u{3000}", true, false, false)));
}

#[test]
fn transcript_buffer_flags() {
    let mut b = TranscriptBuffer::new();
    assert!(!b.is_finalized());
    b.speech_final = true;
    assert!(b.is_finalized());
    b.text.push_str("x");
    b.clear();
    assert!(!b.is_finalized());
    assert_eq!(b.text, "");
    b.from_finalize = true;
    assert!(b.is_finalized());
}

#[test]
fn tracker_replaces_then_appends_segments() {
    let mut t = TurnTracker::new();
    t.on_transcript(transcript("hel", false, false, false));
    assert_eq!(t.buffer.text, "hel");
    t.on_transcript(transcript("hello world", false, true, false));
    assert_eq!(t.buffer.text, "hello world");
    assert!(t.buffer.speech_final);
    assert_eq!(t.committed, "hello world");
    t.on_transcript(transcript("again", false, false, false));
    assert_eq!(t.buffer.text, "hello world again");
    t.on_transcript(transcript("again and", false, false, false));
    assert_eq!(t.buffer.text, "hello world again and");
    assert_eq!(t.committed, "hello world");
    t.on_transcript(transcript("ignored", false, false, true));
    assert_eq!(t.buffer.text, "hello world again and");
    t.on_transcript(transcript("", true, false, false));
    assert!(t.buffer.from_finalize);
    t.reset();
    assert_eq!(t.buffer.text, "");
    assert!(!t.buffer.is_finalized());
    assert_eq!(t.committed, "");
}

#[test]
fn finished_segments_are_joined() {
    let mut t = TurnTracker::new();
    t.on_transcript(transcript("hi", false, false, false));
    t.on_transcript(transcript("hi there", false, true, false));
    t.on_transcript(transcript("so", false, false, false));
    t.on_transcript(transcript("so yes", false, false, false));
    assert_eq!(t.buffer.text.trim(), "hi there so yes");
    let mut s = session_in(ConversationState::UserSpeaking);
    match on_user_turn_complete(&mut s, &mut t) {
        TurnCompleteOutcome::Ready(text) => assert_eq!(text, "hi there so yes"),
        _ => panic!("expected the buffered transcript"),
    }
}

#[test]
fn segment_ended_by_empty_final_keeps_its_interim() {
    let mut t = TurnTracker::new();
    t.on_transcript(transcript("first part", false, false, false));
    t.on_transcript(transcript(" ", false, true, false));
    assert_eq!(t.committed, "first part");
    t.on_transcript(transcript("second", false, false, false));
    assert_eq!(t.buffer.text, "first part second");
}

#[test]
fn tracker_first_transcript_replaces() {
    let mut t = TurnTracker::new();
    t.on_transcript(transcript("one", false, false, false));
    t.on_transcript(transcript("one two", false, false, false));
    assert_eq!(t.buffer.text, "one two");
}

#[test]
fn drain_collects_final_transcript() {
    let mut b = TranscriptBuffer::new();
    let d = TranscriptDrain::new(&b);
    assert_eq!(d.timeout_ms, FALLBACK_TIMEOUT_MS);
    assert_eq!(d.timeout_ms, 300);
    b.text.push_str("hi");
    let mut d = TranscriptDrain::new(&b);
    assert_eq!(d.timeout_ms, FINALIZE_TIMEOUT_MS);
    assert_eq!(d.timeout_ms, 100);
    assert!(!d.on_transcript(transcript("hi there", false, false, false)));
    assert_eq!(d.text, "hi there");
    assert!(!d.on_transcript(transcript("noise", false, false, true)));
    assert_eq!(d.text, "hi there");
    assert!(d.on_transcript(transcript("hi there friend", true, false, false)));
    assert_eq!(d.text, "hi there friend");
    assert!(d.on_transcript(transcript("  ", false, true, false)));
    assert_eq!(d.text, "hi there friend");
}

#[test]
fn speech_started_by_state() {
    let mut t = TurnTracker::new();
    let mut s = session_in(ConversationState::Idle);
    t.buffer.text.push_str("stale");
    assert_eq!(on_speech_started(&mut s, &mut t), SpeechStartedOutcome::UserStartedSpeaking);
    assert_eq!(s.conversation_state, ConversationState::UserSpeaking);
    assert_eq!(t.buffer.text, "");
    t.buffer.text.push_str("kept");
    assert_eq!(on_speech_started(&mut s, &mut t), SpeechStartedOutcome::AlreadySpeaking);
    assert_eq!(t.buffer.text, "kept");
    let mut s = session_in(ConversationState::AiSpeaking);
    assert_eq!(on_speech_started(&mut s, &mut t), SpeechStartedOutcome::Interrupt);
    assert_eq!(t.buffer.text, "");
    assert_eq!(s.conversation_state, ConversationState::AiSpeaking);
    let mut s = session_in(ConversationState::AiThinking);
    s.farewell_mode = true;
    t.buffer.text.push_str("kept");
    assert_eq!(on_speech_started(&mut s, &mut t), SpeechStartedOutcome::IgnoredDuringFarewell);
    assert_eq!(t.buffer.text, "kept");
}

#[test]
fn user_turn_complete_by_state() {
    let mut t = TurnTracker::new();
    let mut s = session_in(ConversationState::UserSpeaking);
    assert!(matches!(on_user_turn_complete(&mut s, &mut t), TurnCompleteOutcome::NeedsDrain));
    t.on_transcript(transcript("book a table", false, true, false));
    match on_user_turn_complete(&mut s, &mut t) {
        TurnCompleteOutcome::Ready(text) => assert_eq!(text, "book a table"),
        _ => panic!("expected the buffered transcript"),
    }
    let mut s = session_in(ConversationState::AiThinking);
    assert!(matches!(on_user_turn_complete(&mut s, &mut t), TurnCompleteOutcome::Interrupt));
    assert_eq!(t.buffer.text, "");
    s.farewell_mode = true;
    assert!(matches!(on_user_turn_complete(&mut s, &mut t), TurnCompleteOutcome::IgnoredDuringFarewell));
}

#[test]
fn completing_a_turn_starts_the_llm() {
    let mut t = TurnTracker::new();
    let mut s = session_in(ConversationState::UserSpeaking);
    let started = complete_user_turn_with(&mut s, &mut t, "what time is it".to_string(), "ctx-7".to_string());
    assert_eq!(started, Some("ctx-7".to_string()));
    assert_eq!(s.conversation_state, ConversationState::AiThinking);
    assert_eq!(s.current_tts_context_id, Some("ctx-7".to_string()));
    assert_eq!(s.conversation_history.len(), 1);
    assert_eq!(s.conversation_history[0].role, LlmRole::User);
    assert_eq!(s.conversation_history[0].content, "what time is it");

    let mut s = session_in(ConversationState::UserSpeaking);
    assert_eq!(complete_user_turn_with(&mut s, &mut t, "  ".to_string(), "ctx".to_string()), None);
    assert_eq!(s.conversation_state, ConversationState::Idle);
    assert!(s.conversation_history.is_empty());

    let mut s = session_in(ConversationState::Idle);
    let started = complete_user_turn(&mut s, &mut t, "hello".to_string()).unwrap();
    assert_eq!(s.current_tts_context_id, Some(started.clone()));
    assert_eq!(started.len(), 36);
}

#[test]
fn farewell_is_played_once() {
    let mut s = session_in(ConversationState::UserSpeaking);
    s.request_farewell();
    match on_timeout_tick_with(&mut s, 0, "bye".to_string()) {
        TickOutcome::PlayFarewell { context_id } => assert_eq!(context_id, "bye"),
        _ => panic!("expected the farewell"),
    }
    assert!(s.farewell_mode);
    assert!(!s.farewell_requested);
    assert_eq!(s.conversation_state, ConversationState::AiSpeaking);
    assert_eq!(s.current_tts_context_id, Some("bye".to_string()));
    assert!(matches!(on_timeout_tick_with(&mut s, 0, "x".to_string()), TickOutcome::NoAction));
    assert_eq!(Utterance::Farewell.text(), "Time's up! It was great talking with you. Come back any time.");
}

#[test]
fn thinking_timeout_apologises() {
    let mut s = session_in(ConversationState::AiThinking);
    assert!(matches!(on_timeout_tick_with(&mut s, AI_THINKING_TIMEOUT_NS - 1, "c".to_string()), TickOutcome::NoAction));
    match on_timeout_tick_with(&mut s, AI_THINKING_TIMEOUT_NS, "c1".to_string()) {
        TickOutcome::ThinkingTimedOut { utterance, context_id } => {
            assert_eq!(utterance, Utterance::RetryFirst);
            assert_eq!(context_id, "c1");
        }
        _ => panic!("expected a thinking timeout"),
    }
    assert_eq!(s.conversation_state, ConversationState::AiSpeaking);
    assert_eq!(s.ai_thinking_retry_count, 1);
    assert!(s.pending_llm_retry);
    assert_eq!(s.on_playback_complete(), PlaybackCompleteAction::RetryLlm);
    assert!(!s.pending_llm_retry);
    assert_eq!(Utterance::RetryFirst.text(), "Sorry, let me try that again.");
}

#[test]
fn thinking_timeouts_allow_three_attempts() {
    let mut s = session_in(ConversationState::AiThinking);
    let mut spoken = Vec::new();
    for attempt in 0..3 {
        match on_timeout_tick_with(&mut s, AI_THINKING_TIMEOUT_NS, format!("apology-{attempt}")) {
            TickOutcome::ThinkingTimedOut { utterance, .. } => spoken.push(utterance),
            _ => panic!("expected a thinking timeout"),
        }
        let action = s.on_playback_complete();
        if attempt < 2 {
            assert_eq!(action, PlaybackCompleteAction::RetryLlm);
            assert!(matches!(
                on_playback_action_with(&mut s, action, format!("retry-{attempt}")),
                PlaybackOutcome::RetryLlm { .. }
            ));
            assert_eq!(s.conversation_state, ConversationState::AiThinking);
            assert_eq!(s.ai_thinking_retry_count, attempt + 1);
        } else {
            assert_eq!(action, PlaybackCompleteAction::EndSession);
        }
    }
    assert_eq!(spoken, vec![Utterance::RetryFirst, Utterance::RetrySecond, Utterance::GiveUp]);
}

#[test]
fn thinking_timeout_after_retries_gives_up() {
    let mut s = session_in(ConversationState::AiThinking);
    s.ai_thinking_retry_count = 1;
    match on_timeout_tick_with(&mut s, AI_THINKING_TIMEOUT_NS, "c".to_string()) {
        TickOutcome::ThinkingTimedOut { utterance, .. } => assert_eq!(utterance, Utterance::RetrySecond),
        _ => panic!("expected a thinking timeout"),
    }
    let mut s = session_in(ConversationState::AiThinking);
    s.ai_thinking_retry_count = 2;
    match on_timeout_tick_with(&mut s, AI_THINKING_TIMEOUT_NS + 5, "c".to_string()) {
        TickOutcome::ThinkingTimedOut { utterance, .. } => assert_eq!(utterance, Utterance::GiveUp),
        _ => panic!("expected a thinking timeout"),
    }
    assert!(s.pending_session_end);
    assert_eq!(s.on_playback_complete(), PlaybackCompleteAction::EndSession);
    assert_eq!(Utterance::GiveUp.text(), "Something's wrong on my end. I'll have to end our session, sorry about that.");
    assert_eq!(Utterance::RetrySecond.text(), "One more moment.");
}

#[test]
fn speaking_timeout_cuts_short() {
    let mut s = session_in(ConversationState::AiSpeaking);
    s.current_tts_context_id = Some("long".to_string());
    assert!(matches!(on_timeout_tick_with(&mut s, AI_SPEAKING_TIMEOUT_NS - 1, "x".to_string()), TickOutcome::NoAction));
    match on_timeout_tick_with(&mut s, AI_SPEAKING_TIMEOUT_NS, "sorry".to_string()) {
        TickOutcome::SpeakingTimedOut { cancel_context, context_id } => {
            assert_eq!(cancel_context, Some("long".to_string()));
            assert_eq!(context_id, "sorry");
        }
        _ => panic!("expected a speaking timeout"),
    }
    assert_eq!(s.cancelled_tts_context_id, Some("long".to_string()));
    assert_eq!(s.current_tts_context_id, Some("sorry".to_string()));
    assert_eq!(s.conversation_state, ConversationState::AiSpeaking);
    assert_eq!(Utterance::Rambling.text(), "Sorry, I got carried away. I'll stop there.");
    assert_eq!(Utterance::Greeting.text(), "Hi, I'm Anysia. How can I help?");
}

#[test]
fn idle_tick_does_nothing() {
    let mut s = session_in(ConversationState::Idle);
    assert!(matches!(on_timeout_tick(&mut s), TickOutcome::NoAction));
    assert!(matches!(on_timeout_tick_with(&mut s, u64::MAX, "c".to_string()), TickOutcome::NoAction));
}

#[test]
fn playback_actions() {
    let mut s = session_in(ConversationState::AiSpeaking);
    assert!(matches!(on_playback_action_with(&mut s, PlaybackCompleteAction::TransitionToIdle, "c".to_string()), PlaybackOutcome::NoAction));
    assert!(matches!(on_playback_action_with(&mut s, PlaybackCompleteAction::EndSession, "c".to_string()), PlaybackOutcome::EndSession));
    match on_playback_action_with(&mut s, PlaybackCompleteAction::RetryLlm, "retry".to_string()) {
        PlaybackOutcome::RetryLlm { context_id } => assert_eq!(context_id, "retry"),
        _ => panic!("expected a retry"),
    }
    assert_eq!(s.conversation_state, ConversationState::AiThinking);
    assert_eq!(s.current_tts_context_id, Some("retry".to_string()));
    match on_playback_action(&mut s, PlaybackCompleteAction::RetryLlm) {
        PlaybackOutcome::RetryLlm { context_id } => assert_eq!(s.current_tts_context_id, Some(context_id)),
        _ => panic!("expected a retry"),
    }
}

#[test]
fn state_clock_restarts_with_the_given_reading() {
    let mut s = SessionState::new("s1".to_string());
    let start = s.last_conversation_state_change;
    let later = start + std::time::Duration::from_secs(3);
    s.transition_to_at(ConversationState::Idle, later);
    assert_eq!(s.last_conversation_state_change, start);
    s.transition_to_at(ConversationState::UserSpeaking, later);
    assert_eq!(s.last_conversation_state_change, later);

    let mut s = session_in(ConversationState::AiSpeaking);
    s.pending_llm_retry = true;
    let before = s.last_conversation_state_change;
    let retry_at = before + std::time::Duration::from_secs(7);
    assert_eq!(s.on_playback_complete_at(retry_at), PlaybackCompleteAction::RetryLlm);
    assert_eq!(s.last_conversation_state_change, retry_at);
    assert_eq!(s.conversation_state, ConversationState::AiSpeaking);

    s.pending_session_end = true;
    let end_at = retry_at + std::time::Duration::from_secs(1);
    assert_eq!(s.on_playback_complete_at(end_at), PlaybackCompleteAction::EndSession);
    assert_eq!(s.last_conversation_state_change, retry_at);

    assert_eq!(s.on_playback_complete_at(end_at), PlaybackCompleteAction::TransitionToIdle);
    assert_eq!(s.last_conversation_state_change, end_at);
    assert_eq!(s.conversation_state, ConversationState::Idle);
}
