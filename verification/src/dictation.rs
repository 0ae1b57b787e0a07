//! The dictation session: a single, strictly serialized
//! capture/transcribe/inject state machine.
//!
//! The session is a process-wide singleton driven only by normalized
//! shortcut events.  Audio capture, the transcription engines, text
//! injection, and the feedback sounds are external collaborators: the
//! caller performs each step and hands the outcome back, and every
//! transition, guard, and reported result is decided and verified here.
//! Capture-start failure and transcription failure surface to the caller
//! and always leave the session idle; empty audio and an empty transcript
//! are silent no-ops; injection failure degrades to a clipboard-only
//! success and never fails the dictation.

use vstd::prelude::*;

use crate::inject::InjectionResult;

verus! {

/// Where the dictation workflow stands.
#[derive(Debug, Clone, Copy, PartialEq, Eq, Structural)]
pub enum DictationState {
    Idle,
    Recording,
    Transcribing,
}

/// Per-phase latency of one utterance, in milliseconds.
#[derive(Debug, Clone, Copy, PartialEq, Eq, Structural)]
pub struct LatencyMetrics {
    pub capture_ms: u64,
    pub transcription_ms: u64,
    pub injection_ms: u64,
    pub total_ms: u64,
}

/// Millisecond readings of a monotonic clock at the phase boundaries of
/// one utterance.  The well-formedness order is exactly the order in
/// which the moments occur, so a monotonic clock always satisfies it.
#[derive(Debug, Clone, Copy)]
pub struct PhaseTimes {
    pub total_start: u64,
    pub capture_start: u64,
    pub capture_end: u64,
    pub transcription_start: u64,
    pub transcription_end: u64,
    pub injection_start: u64,
    pub injection_end: u64,
    pub total_end: u64,
}

impl PhaseTimes {
    /// The boundary readings occur in workflow order.
    pub open spec fn wf(&self) -> bool {
        self.total_start <= self.capture_start <= self.capture_end <= self.transcription_start
            <= self.transcription_end <= self.injection_start <= self.injection_end
            <= self.total_end
    }
}

/// The latency metrics a set of phase boundary readings yields.
pub open spec fn spec_latency(t: PhaseTimes) -> LatencyMetrics {
    LatencyMetrics {
        capture_ms: (t.capture_end - t.capture_start) as u64,
        transcription_ms: (t.transcription_end - t.transcription_start) as u64,
        injection_ms: (t.injection_end - t.injection_start) as u64,
        total_ms: (t.total_end - t.total_start) as u64,
    }
}

/// Computes the per-phase latency of one utterance.
pub fn compute_latency(t: &PhaseTimes) -> (r: LatencyMetrics)
    requires
        t.wf(),
    ensures
        r == spec_latency(*t),
        r.capture_ms + r.transcription_ms + r.injection_ms <= r.total_ms,
{
    LatencyMetrics {
        capture_ms: t.capture_end - t.capture_start,
        transcription_ms: t.transcription_end - t.transcription_start,
        injection_ms: t.injection_end - t.injection_start,
        total_ms: t.total_end - t.total_start,
    }
}

/// Law: for every completed dictation, the capture, transcription, and
/// injection latencies sum to at most the total latency.  This holds for
/// any boundary readings taken in workflow order from a monotonic clock:
/// the three phases are disjoint stretches of the total interval.
pub proof fn lemma_phase_latencies_bounded_by_total(t: PhaseTimes)
    requires
        t.wf(),
    ensures
        ({
            let m = spec_latency(t);
            m.capture_ms + m.transcription_ms + m.injection_ms <= m.total_ms
        }),
{
}

/// ASCII whitespace, as the transcript trim removes it.
pub open spec fn spec_is_space(c: char) -> bool {
    c == ' ' || c == '\t' || c == '\n' || c == '\r'
}

/// The text without leading whitespace.
pub open spec fn spec_trim_front(s: Seq<char>) -> Seq<char>
    decreases s.len(),
{
    if s.len() > 0 && spec_is_space(s[0]) {
        spec_trim_front(s.skip(1))
    } else {
        s
    }
}

/// The text without trailing whitespace.
pub open spec fn spec_trim_back(s: Seq<char>) -> Seq<char>
    decreases s.len(),
{
    if s.len() > 0 && spec_is_space(s[s.len() - 1]) {
        spec_trim_back(s.take(s.len() - 1))
    } else {
        s
    }
}

/// The text without leading and trailing whitespace.
pub open spec fn spec_trim(s: Seq<char>) -> Seq<char> {
    spec_trim_back(spec_trim_front(s))
}

/// Trimming the front keeps the suffix that starts at the first
/// non-space character.
proof fn lemma_trim_front_subrange(s: Seq<char>, a: int)
    requires
        0 <= a <= s.len(),
        forall|j: int| 0 <= j < a ==> spec_is_space(s[j]),
        a < s.len() ==> !spec_is_space(s[a]),
    ensures
        spec_trim_front(s) == s.subrange(a, s.len() as int),
    decreases s.len(),
{
    if a == 0 {
        assert(s.subrange(0, s.len() as int) =~= s);
    } else {
        let rest = s.skip(1);
        assert(forall|j: int| 0 <= j < rest.len() ==> rest[j] == s[j + 1]);
        lemma_trim_front_subrange(rest, a - 1);
        assert(rest.subrange(a - 1, rest.len() as int) =~= s.subrange(a, s.len() as int));
    }
}

/// Trimming the back keeps the prefix that ends after the last
/// non-space character.
proof fn lemma_trim_back_subrange(s: Seq<char>, b: int)
    requires
        0 <= b <= s.len(),
        forall|j: int| b <= j < s.len() ==> spec_is_space(s[j]),
        b > 0 ==> !spec_is_space(s[b - 1]),
    ensures
        spec_trim_back(s) == s.subrange(0, b),
    decreases s.len(),
{
    if b == s.len() {
        assert(s.subrange(0, s.len() as int) =~= s);
    } else {
        let front = s.take(s.len() - 1);
        assert(forall|j: int| 0 <= j < front.len() ==> front[j] == s[j]);
        lemma_trim_back_subrange(front, b);
        assert(front.subrange(0, b) =~= s.subrange(0, b));
    }
}

/// Removes leading and trailing ASCII whitespace from the text.
pub fn trim_text(s: &str) -> (r: String)
    ensures
        r@ == spec_trim(s@),
{
    let n = s.unicode_len();
    let mut a: usize = 0;
    while a < n && is_space_char(s.get_char(a))
        invariant
            n == s@.len(),
            a <= n,
            forall|j: int| 0 <= j < a ==> spec_is_space(s@[j]),
        decreases n - a,
    {
        a = a + 1;
    }
    let mut b: usize = n;
    while b > a && is_space_char(s.get_char(b - 1))
        invariant
            n == s@.len(),
            a <= b <= n,
            forall|j: int| 0 <= j < a ==> spec_is_space(s@[j]),
            a < n ==> !spec_is_space(s@[a as int]),
            forall|j: int| b <= j < n ==> spec_is_space(s@[j]),
        decreases b,
    {
        b = b - 1;
    }
    proof {
        lemma_trim_front_subrange(s@, a as int);
        let tail = s@.subrange(a as int, s@.len() as int);
        assert(forall|j: int| 0 <= j < tail.len() ==> tail[j] == s@[a + j]);
        lemma_trim_back_subrange(tail, b - a);
        assert(tail.subrange(0, b - a) =~= s@.subrange(a as int, b as int));
    }
    let piece = s.substring_char(a, b);
    String::from_str(piece)
}

/// Whether the character is ASCII whitespace.
fn is_space_char(c: char) -> (r: bool)
    ensures
        r == spec_is_space(c),
{
    c == ' ' || c == '\t' || c == '\n' || c == '\r'
}

/// Result of one transcription call, from either engine.
#[derive(Debug, Clone)]
pub struct TranscriptionOutcome {
    pub text: String,
    pub used_fallback: bool,
    pub provider: Option<String>,
    pub duration_ms: u64,
}

/// The completion event carrying the text and the latency accounting.
#[derive(Debug, Clone)]
pub struct DictationCompleteEvent {
    pub text: String,
    pub used_fallback: bool,
    pub provider: Option<String>,
    pub duration_ms: u64,
    pub latency: LatencyMetrics,
}

/// The notification that the text only reached the clipboard.
#[derive(Debug, Clone)]
pub struct TextClipboardOnlyEvent {
    pub text: String,
    pub reason: String,
}

/// How one dictation operation is reported to the controlling layer.
#[derive(Debug, Clone)]
pub struct DictationResult {
    pub success: bool,
    pub text: String,
    pub error: Option<String>,
    pub used_fallback: bool,
    pub provider: Option<String>,
    pub duration_ms: u64,
}

/// What a press decides: whether to begin capture.
#[derive(Debug, Clone, Copy, PartialEq, Eq, Structural)]
pub enum StartDecision {
    /// A session is already running; the duplicate press is ignored.
    AlreadyActive,
    /// The session is now recording; the caller plays the start cue,
    /// begins capture, and reports back with `capture_result`.
    StartCapture,
}

/// What a release decides: whether audio is to be collected.
#[derive(Debug, Clone, Copy, PartialEq, Eq, Structural)]
pub enum StopDecision {
    /// No session was running; the stop reports an empty-text success
    /// with no side effects.
    NotActive,
    /// The caller removes the mute, stops capture, and reports back with
    /// `audio_collected`.
    CollectAudio,
}

/// What collected audio decides: whether to transcribe.
#[derive(Debug, Clone, Copy, PartialEq, Eq, Structural)]
pub enum AudioDecision {
    /// No usable audio: the dictation completes silently with empty text.
    NoAudio,
    /// The session is transcribing; the caller runs the engine and
    /// reports back with `transcription_done` or `transcription_failed`.
    Transcribe,
}

/// What a transcript decides: whether to inject.
#[derive(Debug, Clone)]
pub enum TranscriptDecision {
    /// The transcript is empty after trimming: the dictation completes
    /// silently, with no injection and no completion payload.
    EmptyTranscript,
    /// The trimmed text to inject; the caller injects it and reports
    /// back with `injection_done`.
    Inject(String),
}

/// The relation `start_dictation` establishes between the states.
pub open spec fn spec_start_rel(
    pre: DictationState,
    post: DictationState,
    d: StartDecision,
) -> bool {
    &&& (pre != DictationState::Idle ==> d == StartDecision::AlreadyActive && post == pre)
    &&& (pre == DictationState::Idle ==> d == StartDecision::StartCapture && post
        == DictationState::Recording)
}

/// The relation `stop_dictation` establishes between the states.
pub open spec fn spec_stop_rel(pre: DictationState, post: DictationState, d: StopDecision) -> bool {
    &&& (pre == DictationState::Idle ==> d == StopDecision::NotActive)
    &&& (pre != DictationState::Idle ==> d == StopDecision::CollectAudio)
    &&& post == pre
}

/// The relation `cancel_dictation` establishes between the states.
pub open spec fn spec_cancel_rel(pre: DictationState, post: DictationState, was_active: bool) -> bool {
    &&& post == DictationState::Idle
    &&& was_active == (pre != DictationState::Idle)
}

/// The singleton dictation session.  Exactly one exists per process, and
/// at most one utterance is in flight: every entry point is guarded by
/// the state field.
pub struct DictationController {
    pub state: DictationState,
}

impl DictationController {
    /// A fresh session, idle.
    pub fn new() -> (r: DictationController)
        ensures
            r.state == DictationState::Idle,
    {
        DictationController { state: DictationState::Idle }
    }

    /// Whether a dictation is in progress (recording or transcribing).
    pub fn is_active(&self) -> (r: bool)
        ensures
            r == (self.state != DictationState::Idle),
    {
        self.state != DictationState::Idle
    }

    /// The current workflow state.
    pub fn get_state(&self) -> (r: DictationState)
        ensures
            r == self.state,
    {
        self.state
    }

    /// A press of the dictation binding.  A session that is already
    /// running ignores the duplicate press and no capture is attempted;
    /// from idle the session enters `Recording` and the caller begins
    /// capture.
    pub fn start_dictation(&mut self) -> (d: StartDecision)
        ensures
            spec_start_rel(old(self).state, final(self).state, d),
    {
        if self.state != DictationState::Idle {
            StartDecision::AlreadyActive
        } else {
            self.state = DictationState::Recording;
            StartDecision::StartCapture
        }
    }

    /// The capture-start outcome.  A capture that failed to start (for
    /// example, the device is busy) reverts the session to idle and
    /// reports a descriptive error, never leaving a half-open capture.
    pub fn capture_result(&mut self, started: bool) -> (r: Result<(), String>)
        requires
            old(self).state == DictationState::Recording,
        ensures
            started ==> r is Ok && final(self).state == DictationState::Recording,
            !started ==> (r matches Err(e) && e@
                == "Failed to start recording (microphone may be in use or unavailable)"@) && final(self).state == DictationState::Idle,
    {
        if started {
            Ok(())
        } else {
            self.state = DictationState::Idle;
            Err(
                String::from_str(
                    "Failed to start recording (microphone may be in use or unavailable)",
                ),
            )
        }
    }

    /// A release of the dictation binding.  With no session running this
    /// is an empty-text success with no side effects; otherwise the
    /// caller collects the captured audio.
    pub fn stop_dictation(&mut self) -> (d: StopDecision)
        ensures
            spec_stop_rel(old(self).state, final(self).state, d),
    {
        if self.state == DictationState::Idle {
            StopDecision::NotActive
        } else {
            StopDecision::CollectAudio
        }
    }

    /// The collected audio.  Missing or empty audio completes the
    /// dictation silently and returns the session to idle; otherwise the
    /// session enters `Transcribing`.
    pub fn audio_collected(&mut self, samples: Option<&Vec<i16>>) -> (d: AudioDecision)
        requires
            old(self).state != DictationState::Idle,
        ensures
            (match samples {
                None => true,
                Some(s) => s@.len() == 0,
            }) ==> d == AudioDecision::NoAudio && final(self).state == DictationState::Idle,
            (match samples {
                None => false,
                Some(s) => s@.len() > 0,
            }) ==> d == AudioDecision::Transcribe && final(self).state
                == DictationState::Transcribing,
    {
        match samples {
            None => {
                self.state = DictationState::Idle;
                AudioDecision::NoAudio
            },
            Some(s) => {
                if s.len() == 0 {
                    self.state = DictationState::Idle;
                    AudioDecision::NoAudio
                } else {
                    self.state = DictationState::Transcribing;
                    AudioDecision::Transcribe
                }
            },
        }
    }

    /// A failed transcription: the error is surfaced to the caller with
    /// no partial text, and the session reverts to idle.
    pub fn transcription_failed(&mut self, error: &str) -> (r: String)
        requires
            old(self).state == DictationState::Transcribing,
        ensures
            final(self).state == DictationState::Idle,
            r@ == "Transcription failed: "@ + error@,
    {
        self.state = DictationState::Idle;
        String::from_str("Transcription failed: ").concat(error)
    }

    /// A successful transcription.  The text is trimmed; an empty result
    /// completes the dictation silently (no injection, no completion
    /// payload) and returns the session to idle, otherwise the trimmed
    /// text goes to injection.
    pub fn transcription_done(&mut self, text: &str) -> (d: TranscriptDecision)
        requires
            old(self).state == DictationState::Transcribing,
        ensures
            spec_trim(text@).len() == 0 ==> d is EmptyTranscript && final(self).state
                == DictationState::Idle,
            spec_trim(text@).len() > 0 ==> (d matches TranscriptDecision::Inject(t) && t@
                == spec_trim(text@)) && final(self).state == DictationState::Transcribing,
    {
        let trimmed = trim_text(text);
        if trimmed.as_str().is_empty() {
            self.state = DictationState::Idle;
            TranscriptDecision::EmptyTranscript
        } else {
            TranscriptDecision::Inject(trimmed)
        }
    }

    /// The injection outcome ends the utterance.  Injection failure is
    /// not a dictation failure: the session still completes with the
    /// transcribed text, and a clipboard-only delivery additionally
    /// notifies the UI so the user can paste by hand.  The session
    /// returns to idle and the completion event carries the per-phase
    /// latency.
    pub fn injection_done(
        &mut self,
        text: String,
        outcome: &InjectionResult,
        used_fallback: bool,
        provider: Option<String>,
        duration_ms: u64,
        times: &PhaseTimes,
    ) -> (r: (DictationCompleteEvent, Option<TextClipboardOnlyEvent>))
        requires
            old(self).state == DictationState::Transcribing,
            times.wf(),
        ensures
            final(self).state == DictationState::Idle,
            r.0.text == text,
            r.0.used_fallback == used_fallback,
            r.0.provider == provider,
            r.0.duration_ms == duration_ms,
            r.0.latency == spec_latency(*times),
            r.0.latency.capture_ms + r.0.latency.transcription_ms + r.0.latency.injection_ms
                <= r.0.latency.total_ms,
            outcome is ClipboardOnly ==> (r.1 matches Some(n) && n.text == text && n.reason@
                == "No paste tool (ydotool or wtype) available"@),
            !(outcome is ClipboardOnly) ==> r.1 is None,
    {
        self.state = DictationState::Idle;
        let latency = compute_latency(times);
        let notice: Option<TextClipboardOnlyEvent> = match outcome {
            InjectionResult::ClipboardOnly => Some(
                TextClipboardOnlyEvent {
                    text: text.clone(),
                    reason: String::from_str("No paste tool (ydotool or wtype) available"),
                },
            ),
            _ => None,
        };
        let complete = DictationCompleteEvent {
            text,
            used_fallback,
            provider,
            duration_ms,
            latency,
        };
        (complete, notice)
    }

    /// A press of the cancel binding.  Any running dictation — recording
    /// or transcribing — is abandoned: the caller removes the mute and
    /// discards the buffered audio, and the session is idle again.  With
    /// nothing running this is a no-op.
    pub fn cancel_dictation(&mut self) -> (was_active: bool)
        ensures
            spec_cancel_rel(old(self).state, final(self).state, was_active),
    {
        let active = self.state != DictationState::Idle;
        self.state = DictationState::Idle;
        active
    }
}

/// How a finished stop operation is reported.  A completed utterance
/// carries its own text, fallback flag, provider, and duration into the
/// result; a silent no-op (nothing recorded, nothing transcribed, or
/// cancelled) is an empty-text success; a failure carries the error and
/// no text.
pub fn dictation_result_from(outcome: Result<Option<DictationCompleteEvent>, String>) -> (r:
    DictationResult)
    ensures
        outcome matches Ok(Some(done)) ==> r.success && r.text == done.text && r.error is None
            && r.used_fallback == done.used_fallback && r.provider == done.provider
            && r.duration_ms == done.duration_ms,
        outcome matches Ok(None) ==> r.success && r.text@ == Seq::<char>::empty() && r.error is None
            && r.used_fallback == false && r.provider is None && r.duration_ms == 0,
        outcome matches Err(e) ==> !r.success && r.text@ == Seq::<char>::empty() && (
        r.error matches Some(err) && err == e) && r.used_fallback == false && r.provider is None
            && r.duration_ms == 0,
{
    match outcome {
        Ok(Some(done)) => DictationResult {
            success: true,
            text: done.text,
            error: None,
            used_fallback: done.used_fallback,
            provider: done.provider,
            duration_ms: done.duration_ms,
        },
        Ok(None) => DictationResult {
            success: true,
            text: String::new(),
            error: None,
            used_fallback: false,
            provider: None,
            duration_ms: 0,
        },
        Err(e) => DictationResult {
            success: false,
            text: String::new(),
            error: Some(e),
            used_fallback: false,
            provider: None,
            duration_ms: 0,
        },
    }
}

/// Law: a second press without an intervening stop or cancel performs
/// capture at most once — the second `start_dictation` is a no-op that
/// leaves the session exactly as the first left it, and only the first
/// decides to capture.
pub proof fn lemma_second_start_is_noop(
    s0: DictationState,
    s1: DictationState,
    d1: StartDecision,
    s2: DictationState,
    d2: StartDecision,
)
    requires
        spec_start_rel(s0, s1, d1),
        d1 == StartDecision::StartCapture,
        spec_start_rel(s1, s2, d2),
    ensures
        d2 == StartDecision::AlreadyActive,
        s2 == s1,
{
}

/// Law: cancelling while recording or transcribing always returns the
/// session to idle, and a stop that follows finds nothing to collect:
/// it reports the empty-text no-op, so the discarded audio can never be
/// transcribed.
pub proof fn lemma_cancel_then_stop_is_empty(
    s0: DictationState,
    s1: DictationState,
    was_active: bool,
    s2: DictationState,
    d: StopDecision,
)
    requires
        s0 != DictationState::Idle,
        spec_cancel_rel(s0, s1, was_active),
        spec_stop_rel(s1, s2, d),
    ensures
        s1 == DictationState::Idle,
        was_active,
        d == StopDecision::NotActive,
        s2 == DictationState::Idle,
{
}

} // verus!
