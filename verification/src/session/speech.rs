//! The AI's side of the conversation: LLM tokens become sentences for the TTS
//! provider, and synthesized audio becomes fixed-size frames for the speaking engine.
use vstd::prelude::*;

use crate::session::state::SessionState;
use crate::text::{has_content, owned, str_contains_char, text_has_content, trim, trim_str};

verus! {

/// A token that closes a sentence holds one of `.`, `?` or `!`.
pub open spec fn ends_sentence(token: Seq<char>) -> bool {
    token.contains('.') || token.contains('?') || token.contains('!')
}

/// The text to hand to the TTS provider: the trimmed text, when it has content.
pub open spec fn speakable(text: Seq<char>) -> Option<Seq<char>> {
    if has_content(text) {
        Some(trim(text))
    } else {
        None
    }
}

fn speakable_text(text: &str) -> (r: Option<String>)
    ensures
        r.deep_view() == speakable(text@),
{
    if text_has_content(text) {
        Some(owned(trim_str(text)))
    } else {
        None
    }
}

/// Gathers streamed LLM tokens into sentences for the TTS provider and keeps
/// the whole response for the conversation history.
pub struct SpeechChunker {
    pub accumulated: String,
    pub full_response: String,
    pub first_audio_sent: bool,
}

impl SpeechChunker {
    /// Nothing received, nothing sent.
    pub fn new() -> (c: Self)
        ensures
            c.accumulated@ == Seq::<char>::empty(),
            c.full_response@ == Seq::<char>::empty(),
            !c.first_audio_sent,
    {
        SpeechChunker { accumulated: String::new(), full_response: String::new(), first_audio_sent: false }
    }

    /// Takes the next token. When it closes a sentence and the pending text
    /// has content, returns that text trimmed; the caller sends it and then
    /// calls `mark_sent`.
    pub fn push_token(&mut self, token: &str) -> (sentence: Option<String>)
        ensures
            final(self).accumulated@ == old(self).accumulated@ + token@,
            final(self).full_response@ == old(self).full_response@ + token@,
            final(self).first_audio_sent == old(self).first_audio_sent,
            sentence.deep_view() == (if ends_sentence(token@) {
                speakable(final(self).accumulated@)
            } else {
                None
            }),
    {
        self.full_response.append(token);
        self.accumulated.append(token);
        if str_contains_char(token, '.') || str_contains_char(token, '?') || str_contains_char(token, '!') {
            speakable_text(self.accumulated.as_str())
        } else {
            None
        }
    }

    /// The pending text was handed to the TTS provider. Returns whether it
    /// was the first, which is when the AI starts speaking.
    pub fn mark_sent(&mut self) -> (first: bool)
        ensures
            final(self).accumulated@ == Seq::<char>::empty(),
            final(self).full_response@ == old(self).full_response@,
            final(self).first_audio_sent,
            first == !old(self).first_audio_sent,
    {
        self.accumulated = String::new();
        if !self.first_audio_sent {
            self.first_audio_sent = true;
            true
        } else {
            false
        }
    }

    /// Text still pending when the stream ends, trimmed, if it has content.
    pub fn remaining(&self) -> (r: Option<String>)
        ensures
            r.deep_view() == speakable(self.accumulated@),
    {
        speakable_text(self.accumulated.as_str())
    }
}

/// Bytes in one media frame: 20 ms of 48 kHz mono 16-bit audio
/// (960 samples of 2 bytes).
pub const FRAME_SIZE: usize = 1920;

/// Frames between two checks for a cancelled context (200 ms of audio).
pub const CANCEL_CHECK_INTERVAL: usize = 10;

/// The number of frames `len` bytes of audio fill.
pub open spec fn frame_count(len: nat) -> nat {
    ((len + FRAME_SIZE - 1) as nat / FRAME_SIZE as nat) as nat
}

/// Frame `i` of the audio: its slice of the audio, zero-padded to a full frame.
pub open spec fn audio_frame(data: Seq<u8>, i: int) -> Seq<u8> {
    let start = i * FRAME_SIZE;
    let end = if start + FRAME_SIZE <= data.len() { start + FRAME_SIZE } else { data.len() as int };
    data.subrange(start, end) + Seq::new((FRAME_SIZE - (end - start)) as nat, |j: int| 0u8)
}

/// Cuts audio into consecutive frames of `FRAME_SIZE` bytes; the last frame
/// is padded with zero bytes.
pub fn split_audio_frames(data: &[u8]) -> (frames: Vec<Vec<u8>>)
    ensures
        frames.len() == frame_count(data@.len()),
        forall|i: int| 0 <= i < frames.len() ==> #[trigger] frames[i]@ == audio_frame(data@, i),
{
    let n = data.len();
    let full = n / FRAME_SIZE;
    let count = if n % FRAME_SIZE == 0 { full } else { full + 1 };
    assert(count == frame_count(n as nat));
    let mut frames: Vec<Vec<u8>> = Vec::new();
    let mut i: usize = 0;
    while i < count
        invariant
            n == data@.len(),
            count == frame_count(n as nat),
            count == (if n % FRAME_SIZE == 0 { (n / FRAME_SIZE) as int } else { n / FRAME_SIZE + 1 }),
            i <= count,
            frames.len() == i,
            forall|j: int| 0 <= j < frames.len() ==> #[trigger] frames[j]@ == audio_frame(data@, j),
        decreases count - i,
    {
        assert(i * FRAME_SIZE < n);
        let start = i * FRAME_SIZE;
        let end = if n - start >= FRAME_SIZE { start + FRAME_SIZE } else { n };
        let mut frame: Vec<u8> = Vec::new();
        let mut k = start;
        while k < end
            invariant
                start <= k <= end <= n,
                n == data@.len(),
                frame@ == data@.subrange(start as int, k as int),
            decreases end - k,
        {
            frame.push(data[k]);
            k = k + 1;
            assert(frame@ =~= data@.subrange(start as int, k as int));
        }
        let mut p = end - start;
        let ghost taken = frame@;
        while p < FRAME_SIZE
            invariant
                end - start <= p <= FRAME_SIZE,
                frame@ == taken + Seq::new((p - (end - start)) as nat, |j: int| 0u8),
            decreases FRAME_SIZE - p,
        {
            frame.push(0u8);
            p = p + 1;
            assert(frame@ =~= taken + Seq::new((p - (end - start)) as nat, |j: int| 0u8));
        }
        assert(frame@ =~= audio_frame(data@, i as int));
        frames.push(frame);
        i = i + 1;
        assert forall|j: int| 0 <= j < frames.len() implies #[trigger] frames[j]@ == audio_frame(data@, j) by {}
    }
    frames
}

/// Byte `k` of the audio is byte `k % FRAME_SIZE` of frame `k / FRAME_SIZE`,
/// and every frame is full-sized.
pub proof fn audio_frames_keep_bytes(data: Seq<u8>, k: int)
    requires
        0 <= k < data.len(),
    ensures
        (k / FRAME_SIZE as int) < frame_count(data.len()),
        audio_frame(data, k / FRAME_SIZE as int)[k % FRAME_SIZE as int] == data[k],
        audio_frame(data, k / FRAME_SIZE as int).len() == FRAME_SIZE,
{
    let i = k / FRAME_SIZE as int;
    let r = k % FRAME_SIZE as int;
    assert(k == i * FRAME_SIZE + r);
}

/// Whether the frame at `frame_index` is preceded by a check for a
/// cancelled context.
pub fn cancellation_check_due(frame_index: usize) -> (r: bool)
    ensures
        r == (frame_index % CANCEL_CHECK_INTERVAL == 0),
{
    frame_index % CANCEL_CHECK_INTERVAL == 0
}

/// What to do with a chunk of synthesized audio from the TTS provider.
pub struct AudioChunkPlan {
    /// Forward the chunk's audio to the speaking engine.
    pub forward_audio: bool,
    /// Tell the speaking engine that generation for the context is complete.
    pub generation_complete: bool,
}

/// Plans the handling of a TTS audio chunk of context `context_id`: audio of
/// a cancelled context is dropped and its completion is not announced. (The
/// final chunk of a context then ends it through `on_audio_done`.)
pub fn plan_tts_audio_chunk(
    session: &SessionState,
    context_id: &Option<String>,
    has_audio: bool,
    done: bool,
) -> (plan: AudioChunkPlan)
    ensures
        plan.forward_audio == (has_audio && !session@.is_cancelled_context(context_id.deep_view())),
        plan.generation_complete == (done && !session@.is_cancelled_context(context_id.deep_view())),
{
    let cancelled = session.is_context_cancelled(context_id);
    AudioChunkPlan { forward_audio: has_audio && !cancelled, generation_complete: done && !cancelled }
}

} // verus!
