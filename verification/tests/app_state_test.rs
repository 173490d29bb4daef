use stt_groq_rust::app_state::{
    deliver_transcription, AppState, RecordingCheck, ToggleAction, MIN_RECORDING_DURATION_NS, TRANSCRIPTION_LANGUAGE,
    TRANSCRIPTION_PROMPT,
};

const SECOND: u64 = 1_000_000_000;

#[test]
fn toggle_starts_then_stops() {
    let mut state = AppState::new();
    assert!(matches!(state.toggle_recording(), ToggleAction::StartRecording));
    let notice = state.recording_started(true, 10 * SECOND);
    let notice = notice.expect("a notice on start");
    assert_eq!(notice.summary, "Recording Started");
    assert_eq!(notice.body, "Audio recording has started.");
    assert_eq!(notice.timeout_ms, 3000);
    assert!(matches!(state.toggle_recording(), ToggleAction::StopAndProcess));
    assert!(matches!(state.toggle_recording(), ToggleAction::StartRecording));
}

#[test]
fn failed_start_goes_back_to_idle() {
    let mut state = AppState::new();
    assert!(matches!(state.toggle_recording(), ToggleAction::StartRecording));
    assert!(state.recording_started(false, 10 * SECOND).is_none());
    assert!(matches!(state.toggle_recording(), ToggleAction::StartRecording));
    assert!(matches!(state.check_recording(20 * SECOND), RecordingCheck::NoRecording));
}

#[test]
fn short_recordings_are_skipped() {
    let mut state = AppState::new();
    state.toggle_recording();
    state.recording_started(true, 10 * SECOND);
    state.toggle_recording();
    assert!(matches!(state.check_recording(10 * SECOND + MIN_RECORDING_DURATION_NS - 1), RecordingCheck::TooShort));
    assert!(matches!(state.check_recording(10 * SECOND + MIN_RECORDING_DURATION_NS), RecordingCheck::Transcribe));
    assert!(matches!(state.check_recording(60 * SECOND), RecordingCheck::Transcribe));
}

#[test]
fn never_started_means_nothing_to_process() {
    let state = AppState::new();
    assert!(matches!(state.check_recording(100 * SECOND), RecordingCheck::NoRecording));
}

#[test]
fn transcriptions_rotate_models() {
    let mut state = AppState::new();
    let first = state.next_transcription();
    assert_eq!(first.model, "whisper-large-v3");
    assert_eq!(first.prompt.as_deref(), Some(TRANSCRIPTION_PROMPT));
    assert_eq!(first.language.as_deref(), Some(TRANSCRIPTION_LANGUAGE));
    assert_eq!(first.language.as_deref(), Some("en"));
    assert_eq!(first.response_format, "text");
    assert_eq!(state.next_transcription().model, "whisper-large-v3-turbo");
    assert_eq!(state.next_transcription().model, "distil-whisper-large-v3-en");
    assert_eq!(state.next_transcription().model, "whisper-large-v3");
}

#[test]
fn failed_save_uses_no_model() {
    let mut state = AppState::new();
    assert!(state.after_save(false).is_none());
    let request = state.after_save(true).expect("a transcription after a save");
    assert_eq!(request.model, "whisper-large-v3");
    assert_eq!(request.prompt.as_deref(), Some(TRANSCRIPTION_PROMPT));
    assert!(state.after_save(false).is_none());
    assert_eq!(state.after_save(true).expect("a transcription").model, "whisper-large-v3-turbo");
}

struct CountingClipboard {
    copies: Vec<String>,
    pastes: usize,
}

impl stt_groq_rust::clipboard::ClipboardService for CountingClipboard {
    fn copy_text(&mut self, text: &str) -> Result<(), stt_groq_rust::clipboard::ClipboardError> {
        self.copies.push(text.to_string());
        Ok(())
    }

    fn paste(&mut self) {
        self.pastes += 1;
    }
}

#[test]
fn only_successful_transcriptions_are_pasted() {
    let mut clipboard = CountingClipboard { copies: Vec::new(), pastes: 0 };
    assert!(deliver_transcription(&mut clipboard, None).is_none());
    assert!(clipboard.copies.is_empty());
    assert_eq!(clipboard.pastes, 0);
    assert!(matches!(deliver_transcription(&mut clipboard, Some("hello")), Some(Ok(()))));
    assert_eq!(clipboard.copies, vec!["hello".to_string()]);
    assert_eq!(clipboard.pastes, 1);
}
