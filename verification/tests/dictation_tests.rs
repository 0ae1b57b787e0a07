use voyc::dictation::{
    compute_latency, dictation_result_from, trim_text, AudioDecision, DictationController,
    DictationState, PhaseTimes, StartDecision, StopDecision, TranscriptDecision,
};
use voyc::events::{route_pressed, route_released, SessionCommand};
use voyc::inject::InjectionResult;

fn times() -> PhaseTimes {
    PhaseTimes {
        total_start: 1_000,
        capture_start: 1_010,
        capture_end: 1_060,
        transcription_start: 1_070,
        transcription_end: 1_870,
        injection_start: 1_880,
        injection_end: 1_920,
        total_end: 1_950,
    }
}

#[test]
fn test_start_twice_captures_once() {
    let mut c = DictationController::new();
    assert_eq!(c.start_dictation(), StartDecision::StartCapture);
    assert!(c.capture_result(true).is_ok());
    // The duplicate press is a no-op: no second capture is requested.
    assert_eq!(c.start_dictation(), StartDecision::AlreadyActive);
    assert_eq!(c.get_state(), DictationState::Recording);
}

#[test]
fn test_stop_while_idle_is_empty_success() {
    let mut c = DictationController::new();
    assert_eq!(c.stop_dictation(), StopDecision::NotActive);
    assert_eq!(c.get_state(), DictationState::Idle);
    let result = dictation_result_from(Ok(None));
    assert!(result.success);
    assert_eq!(result.text, "");
    assert!(result.error.is_none());
    assert!(!result.used_fallback);
    assert!(result.provider.is_none());
    assert_eq!(result.duration_ms, 0);
}

#[test]
fn test_cancel_discards_audio() {
    let mut c = DictationController::new();
    assert_eq!(c.start_dictation(), StartDecision::StartCapture);
    assert!(c.capture_result(true).is_ok());
    assert!(c.cancel_dictation());
    assert_eq!(c.get_state(), DictationState::Idle);
    // A stop after the cancel finds nothing: empty text.
    assert_eq!(c.stop_dictation(), StopDecision::NotActive);
}

#[test]
fn test_cancel_while_transcribing_goes_idle() {
    let mut c = DictationController::new();
    assert_eq!(c.start_dictation(), StartDecision::StartCapture);
    assert!(c.capture_result(true).is_ok());
    assert_eq!(c.stop_dictation(), StopDecision::CollectAudio);
    let samples = vec![100i16; 64];
    assert_eq!(c.audio_collected(Some(&samples)), AudioDecision::Transcribe);
    assert_eq!(c.get_state(), DictationState::Transcribing);
    assert!(c.cancel_dictation());
    assert_eq!(c.get_state(), DictationState::Idle);
}

#[test]
fn test_cancel_while_idle_is_noop() {
    let mut c = DictationController::new();
    assert!(!c.cancel_dictation());
    assert_eq!(c.get_state(), DictationState::Idle);
}

#[test]
fn test_capture_failure_leaves_idle_with_error() {
    let mut c = DictationController::new();
    assert_eq!(c.start_dictation(), StartDecision::StartCapture);
    let err = c.capture_result(false).unwrap_err();
    assert_eq!(
        err,
        "Failed to start recording (microphone may be in use or unavailable)"
    );
    assert_eq!(c.get_state(), DictationState::Idle);
    let result = dictation_result_from(Err(err));
    assert!(!result.success);
    assert!(result.error.is_some());
}

#[test]
fn test_latency_phases_sum_within_total() {
    let latency = compute_latency(&times());
    assert_eq!(latency.capture_ms, 50);
    assert_eq!(latency.transcription_ms, 800);
    assert_eq!(latency.injection_ms, 40);
    assert_eq!(latency.total_ms, 950);
    assert!(latency.capture_ms + latency.transcription_ms + latency.injection_ms
        <= latency.total_ms);
}

#[test]
fn test_full_dictation_scenario() {
    // Press "transcribe": Idle -> Recording.
    let mut c = DictationController::new();
    assert_eq!(route_pressed("transcribe"), Some(SessionCommand::StartDictation));
    assert_eq!(c.start_dictation(), StartDecision::StartCapture);
    assert!(c.capture_result(true).is_ok());
    assert_eq!(c.get_state(), DictationState::Recording);

    // Release: Recording -> Transcribing with one second of audio at
    // 16 kHz, every sample 0.1 of full scale.
    assert_eq!(route_released("transcribe"), Some(SessionCommand::StopDictation));
    assert_eq!(c.stop_dictation(), StopDecision::CollectAudio);
    let samples: Vec<i16> = vec![(0.1f32 * 32767.0) as i16; 16_000];
    assert_eq!(c.audio_collected(Some(&samples)), AudioDecision::Transcribe);
    assert_eq!(c.get_state(), DictationState::Transcribing);

    // The engine returns non-empty text; it is injected and the
    // completion event carries it: Transcribing -> Idle.
    let decision = c.transcription_done(" hello world ");
    let text = match decision {
        TranscriptDecision::Inject(t) => t,
        TranscriptDecision::EmptyTranscript => panic!("expected text to inject"),
    };
    assert_eq!(text, "hello world");
    let (complete, clipboard_notice) = c.injection_done(
        text,
        &InjectionResult::SuccessYdotool,
        false,
        None,
        800,
        &times(),
    );
    assert_eq!(complete.text, "hello world");
    assert!(!complete.used_fallback);
    assert!(clipboard_notice.is_none());
    assert_eq!(c.get_state(), DictationState::Idle);

    // The command-level result carries the utterance's own values.
    let report = dictation_result_from(Ok(Some(complete)));
    assert!(report.success);
    assert_eq!(report.text, "hello world");
    assert_eq!(report.duration_ms, 800);
    assert!(!report.used_fallback);
    assert!(report.error.is_none());
}

#[test]
fn test_no_audio_completes_silently() {
    let mut c = DictationController::new();
    assert_eq!(c.start_dictation(), StartDecision::StartCapture);
    assert!(c.capture_result(true).is_ok());
    assert_eq!(c.stop_dictation(), StopDecision::CollectAudio);
    assert_eq!(c.audio_collected(None), AudioDecision::NoAudio);
    assert_eq!(c.get_state(), DictationState::Idle);

    let mut c = DictationController::new();
    assert_eq!(c.start_dictation(), StartDecision::StartCapture);
    assert!(c.capture_result(true).is_ok());
    assert_eq!(c.stop_dictation(), StopDecision::CollectAudio);
    let empty: Vec<i16> = Vec::new();
    assert_eq!(c.audio_collected(Some(&empty)), AudioDecision::NoAudio);
    assert_eq!(c.get_state(), DictationState::Idle);
}

#[test]
fn test_empty_transcript_is_silent_noop() {
    let mut c = DictationController::new();
    assert_eq!(c.start_dictation(), StartDecision::StartCapture);
    assert!(c.capture_result(true).is_ok());
    assert_eq!(c.stop_dictation(), StopDecision::CollectAudio);
    let samples = vec![5i16; 16];
    assert_eq!(c.audio_collected(Some(&samples)), AudioDecision::Transcribe);
    let decision = c.transcription_done("  \n\t ");
    assert!(matches!(decision, TranscriptDecision::EmptyTranscript));
    assert_eq!(c.get_state(), DictationState::Idle);
}

#[test]
fn test_transcription_failure_message() {
    let mut c = DictationController::new();
    assert_eq!(c.start_dictation(), StartDecision::StartCapture);
    assert!(c.capture_result(true).is_ok());
    assert_eq!(c.stop_dictation(), StopDecision::CollectAudio);
    let samples = vec![5i16; 16];
    assert_eq!(c.audio_collected(Some(&samples)), AudioDecision::Transcribe);
    let msg = c.transcription_failed("engine exploded");
    assert_eq!(msg, "Transcription failed: engine exploded");
    assert_eq!(c.get_state(), DictationState::Idle);
}

#[test]
fn test_clipboard_only_notice() {
    let mut c = DictationController::new();
    assert_eq!(c.start_dictation(), StartDecision::StartCapture);
    assert!(c.capture_result(true).is_ok());
    assert_eq!(c.stop_dictation(), StopDecision::CollectAudio);
    let samples = vec![5i16; 16];
    assert_eq!(c.audio_collected(Some(&samples)), AudioDecision::Transcribe);
    let text = match c.transcription_done("note") {
        TranscriptDecision::Inject(t) => t,
        TranscriptDecision::EmptyTranscript => panic!("expected text"),
    };
    let (complete, notice) = c.injection_done(
        text,
        &InjectionResult::ClipboardOnly,
        true,
        Some("elevenlabs".to_string()),
        1_200,
        &times(),
    );
    assert_eq!(complete.text, "note");
    assert!(complete.used_fallback);
    assert_eq!(complete.provider.as_deref(), Some("elevenlabs"));
    let notice = notice.expect("clipboard-only delivery must notify the UI");
    assert_eq!(notice.text, "note");
    assert_eq!(notice.reason, "No paste tool (ydotool or wtype) available");
    assert_eq!(c.get_state(), DictationState::Idle);

    let report = dictation_result_from(Ok(Some(complete)));
    assert!(report.success);
    assert!(report.used_fallback);
    assert_eq!(report.provider.as_deref(), Some("elevenlabs"));
    assert_eq!(report.duration_ms, 1_200);
}

#[test]
fn test_trim_text_exact() {
    assert_eq!(trim_text("  hello \n"), "hello");
    assert_eq!(trim_text("\t\r\n "), "");
    assert_eq!(trim_text("plain"), "plain");
    assert_eq!(trim_text(" a b "), "a b");
}

#[test]
fn test_dictation_result_from_error() {
    let result = dictation_result_from(Err("boom".to_string()));
    assert!(!result.success);
    assert_eq!(result.text, "");
    assert_eq!(result.error.as_deref(), Some("boom"));
    assert!(!result.used_fallback);
    assert!(result.provider.is_none());
    assert_eq!(result.duration_ms, 0);
}

#[test]
fn test_route_events() {
    assert_eq!(route_pressed("transcribe"), Some(SessionCommand::StartDictation));
    assert_eq!(route_pressed("cancel"), Some(SessionCommand::CancelDictation));
    assert_eq!(route_pressed("other"), None);
    assert_eq!(route_released("transcribe"), Some(SessionCommand::StopDictation));
    assert_eq!(route_released("cancel"), None);
}
