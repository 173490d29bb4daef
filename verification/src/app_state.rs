//! Decisions of the recording session: toggling recording on a double
//! tap, and deciding what happens to a finished recording.

use vstd::prelude::*;
use crate::groq_client::{TranscriptionRequest, RESPONSE_FORMAT, opt_view};
use crate::model::{ModelSelector, model_name, MODEL_COUNT, MODELS};
use crate::notifications::{Notice, show_notification_default};
use crate::clipboard::{ClipboardError, ClipboardOp, ClipboardService, copy_and_paste_with, copied_then_pasted};

verus! {

/// Recordings shorter than this (five seconds, in nanoseconds) are not
/// transcribed.
pub const MIN_RECORDING_DURATION_NS: u64 = 5_000_000_000;

/// Prompt sent with every transcription.
pub const TRANSCRIPTION_PROMPT: &'static str = "The audio is by a programmer discussing programming issues";

/// Language of the transcriptions.
pub const TRANSCRIPTION_LANGUAGE: &'static str = "en";

/// Title of the notification shown when recording starts.
pub const RECORDING_STARTED_TITLE: &'static str = "Recording Started";

/// Message of the notification shown when recording starts.
pub const RECORDING_STARTED_MESSAGE: &'static str = "Audio recording has started.";

/// What a toggle asks of the audio recorder.
pub enum ToggleAction {
    /// Start recording, then report the outcome with `recording_started`.
    StartRecording,
    /// Stop recording and process what was recorded.
    StopAndProcess,
}

/// What to do with a finished recording.
pub enum RecordingCheck {
    /// No recording was ever started: nothing to do.
    NoRecording,
    /// The recording is shorter than the minimum duration: skip it.
    TooShort,
    /// Save the recording and transcribe it.
    Transcribe,
}

/// The abstract state of a session.
pub struct AppStateView {
    /// Whether recording is in progress.
    pub recording: bool,
    /// When the last recording started, in nanoseconds on a monotonic clock.
    pub recording_start: Option<u64>,
    /// Position of the model the next transcription uses.
    pub next_model: nat,
}

/// The state after a toggle, and what the toggle asks of the recorder.
pub open spec fn after_toggle(s: AppStateView) -> (AppStateView, ToggleAction) {
    if s.recording {
        (AppStateView { recording: false, ..s }, ToggleAction::StopAndProcess)
    } else {
        (AppStateView { recording: true, ..s }, ToggleAction::StartRecording)
    }
}

/// The state after the recorder reported whether it started, at `now`.
pub open spec fn after_start(s: AppStateView, started: bool, now: u64) -> AppStateView {
    if started {
        AppStateView { recording_start: Some(now), ..s }
    } else {
        AppStateView { recording: false, ..s }
    }
}

/// How long the recording started at `start` has lasted at `now`.
pub open spec fn recording_duration(start: u64, now: u64) -> nat {
    if now >= start {
        (now - start) as nat
    } else {
        0
    }
}

/// What to do with the recording started at `start`, stopped at `now`.
pub open spec fn recording_check(start: Option<u64>, now: u64) -> RecordingCheck {
    match start {
        None => RecordingCheck::NoRecording,
        Some(t) => if recording_duration(t, now) < MIN_RECORDING_DURATION_NS {
            RecordingCheck::TooShort
        } else {
            RecordingCheck::Transcribe
        },
    }
}

/// The state of a recording session.
pub struct AppState {
    recording: bool,
    recording_start: Option<u64>,
    model_selector: ModelSelector,
}

impl View for AppState {
    type V = AppStateView;

    closed spec fn view(&self) -> AppStateView {
        AppStateView {
            recording: self.recording,
            recording_start: self.recording_start,
            next_model: self.model_selector@,
        }
    }
}

impl AppState {
    /// A session that is not recording, has never recorded, and
    /// transcribes first with the first model.
    pub fn new() -> (state: Self)
        ensures
            state@ == (AppStateView { recording: false, recording_start: None, next_model: 0 }),
    {
        AppState { recording: false, recording_start: None, model_selector: ModelSelector::new() }
    }

    /// Toggles recording: starts it when idle, stops it when recording.
    pub fn toggle_recording(&mut self) -> (action: ToggleAction)
        ensures
            (final(self)@, action) == after_toggle(old(self)@),
    {
        if !self.recording {
            self.recording = true;
            ToggleAction::StartRecording
        } else {
            self.recording = false;
            ToggleAction::StopAndProcess
        }
    }

    /// Takes note of whether the recorder started at `now`: on success the
    /// recording's start time and the notification to show; on failure the
    /// session goes back to not recording and nothing is shown.
    pub fn recording_started(&mut self, started: bool, now: u64) -> (notice: Option<Notice>)
        ensures
            final(self)@ == after_start(old(self)@, started, now),
            started ==> (notice matches Some(n) && n.summary@ == RECORDING_STARTED_TITLE@
                && n.body@ == RECORDING_STARTED_MESSAGE@ && n.timeout_ms == 3000),
            !started ==> notice is None,
    {
        if started {
            self.recording_start = Some(now);
            Some(show_notification_default(RECORDING_STARTED_TITLE, RECORDING_STARTED_MESSAGE))
        } else {
            self.recording = false;
            None
        }
    }

    /// What to do with the recording stopped at `now`.
    pub fn check_recording(&self, now: u64) -> (check: RecordingCheck)
        ensures
            check == recording_check(self@.recording_start, now),
            self@.recording_start is None ==> check is NoRecording,
            self@.recording_start matches Some(start) ==> (start <= now && now - start
                >= MIN_RECORDING_DURATION_NS ==> check is Transcribe),
            self@.recording_start matches Some(start) ==> (start <= now && now - start
                < MIN_RECORDING_DURATION_NS ==> check is TooShort),
            self@.recording_start matches Some(start) ==> (now < start ==> check is TooShort),
    {
        match self.recording_start {
            None => RecordingCheck::NoRecording,
            Some(start) => {
                let duration = if now >= start { now - start } else { 0 };
                if duration < MIN_RECORDING_DURATION_NS {
                    RecordingCheck::TooShort
                } else {
                    RecordingCheck::Transcribe
                }
            },
        }
    }

    /// The transcription of a saved recording: the next model in
    /// round-robin order, with the fixed prompt and language.
    pub fn next_transcription(&mut self) -> (request: TranscriptionRequest)
        ensures
            is_transcription_with(request, old(self)@.next_model),
            request.model@ == MODELS@[old(self)@.next_model as int]@,
            opt_view(request.prompt) == Some(TRANSCRIPTION_PROMPT@),
            opt_view(request.language) == Some(TRANSCRIPTION_LANGUAGE@),
            request.response_format@ == RESPONSE_FORMAT@,
            final(self)@ == after_model_use(old(self)@),
            old(self)@.next_model < MODEL_COUNT,
    {
        let model = self.model_selector.get_next_model();
        TranscriptionRequest::new(model.as_str(), Some(TRANSCRIPTION_PROMPT), Some(TRANSCRIPTION_LANGUAGE))
    }

    /// What follows the saving of a recording: when it was saved, the next
    /// transcription, as [`Self::next_transcription`] gives it; when it was
    /// not, no transcription, and the session stays as it was (the model
    /// is not used up).
    pub fn after_save(&mut self, saved: bool) -> (request: Option<TranscriptionRequest>)
        ensures
            !saved ==> request is None && final(self)@ == old(self)@,
            saved ==> (request matches Some(r) && is_transcription_with(r, old(self)@.next_model)),
            request matches Some(r) ==> (opt_view(r.prompt) == Some(TRANSCRIPTION_PROMPT@) && opt_view(
                r.language,
            ) == Some(TRANSCRIPTION_LANGUAGE@) && r.model@ == MODELS@[old(self)@.next_model as int]@
                && r.response_format@ == RESPONSE_FORMAT@),
            saved ==> final(self)@ == after_model_use(old(self)@),
            old(self)@.next_model < MODEL_COUNT,
    {
        proof {
            use_type_invariant(&self.model_selector);
        }
        if saved {
            Some(self.next_transcription())
        } else {
            None
        }
    }
}

/// Hands the outcome of a transcription to `clipboard`: the text of a
/// transcription that succeeded is copied and pasted, as
/// [`copy_and_paste_with`] does, and the outcome of that returned; after a
/// failed transcription the clipboard is left alone.
pub fn deliver_transcription<C: ClipboardService>(clipboard: &mut C, transcription: Option<&str>) -> (pasted: Option<Result<(), ClipboardError>>)
    ensures
        transcription is None ==> pasted is None && *final(clipboard) == *old(clipboard),
        transcription is Some ==> pasted is Some,
        transcription matches Some(text) ==> (pasted matches Some(outcome) && (C::obeys_clipboard_spec()
            ==> final(clipboard).operations() == copied_then_pasted(
            old(clipboard).operations(),
            text@,
            outcome,
        ))),
        transcription matches Some(text) ==> (pasted matches Some(outcome) && (C::obeys_clipboard_spec()
            ==> final(clipboard).operations()[old(clipboard).operations().len() as int] == (ClipboardOp::Copy {
            text: text@,
            outcome,
        }))),
        transcription matches Some(text) ==> (pasted matches Some(outcome) && (C::obeys_clipboard_spec()
            ==> (outcome is Ok <==> final(clipboard).operations().len() == old(clipboard).operations().len() + 2))),
{
    match transcription {
        Some(text) => Some(copy_and_paste_with(clipboard, text)),
        None => None,
    }
}

/// Whether `request` is the transcription with the model at `position`,
/// the fixed prompt and language, and plain-text output.
pub open spec fn is_transcription_with(request: TranscriptionRequest, position: nat) -> bool {
    &&& request.model@ == model_name(position)
    &&& opt_view(request.prompt) == Some(TRANSCRIPTION_PROMPT@)
    &&& opt_view(request.language) == Some(TRANSCRIPTION_LANGUAGE@)
    &&& request.response_format@ == RESPONSE_FORMAT@
}

/// The session after a transcription used up its model: the next one in
/// round-robin order comes next.
pub open spec fn after_model_use(s: AppStateView) -> AppStateView {
    AppStateView { next_model: (s.next_model + 1) % (MODEL_COUNT as nat), ..s }
}

/// Toggling twice around a successful start ends with recording stopped
/// and the recording's start time kept for processing.
pub proof fn lemma_toggle_round_trip(s: AppStateView, now: u64)
    requires
        !s.recording,
    ensures
        after_toggle(s).1 is StartRecording,
        after_toggle(after_start(after_toggle(s).0, true, now)).1 is StopAndProcess,
        after_toggle(after_start(after_toggle(s).0, true, now)).0 == (AppStateView {
            recording_start: Some(now),
            ..s
        }),
{
}

/// A start that fails leaves the session as it was before the toggle.
pub proof fn lemma_failed_start_is_undone(s: AppStateView, now: u64)
    requires
        !s.recording,
    ensures
        after_start(after_toggle(s).0, false, now) == s,
{
}

/// A recording is transcribed exactly when it was started and lasted at
/// least the minimum duration.
pub proof fn lemma_transcribed_iff_long_enough(start: Option<u64>, now: u64)
    ensures
        recording_check(start, now) is Transcribe <==> (start is Some && recording_duration(
            start->0,
            now,
        ) >= MIN_RECORDING_DURATION_NS),
{
}

/// A recording that was started and lasted at least five seconds is
/// transcribed; one that lasted less is skipped as too short; one that
/// was never started leaves nothing to do.
pub proof fn lemma_recording_check_by_duration(start: u64, now: u64)
    ensures
        start <= now && now - start >= MIN_RECORDING_DURATION_NS ==> recording_check(Some(start), now) is Transcribe,
        start <= now && now - start < MIN_RECORDING_DURATION_NS ==> recording_check(Some(start), now) is TooShort,
        now < start ==> recording_check(Some(start), now) is TooShort,
        recording_check(None, now) is NoRecording,
        MIN_RECORDING_DURATION_NS == 5_000_000_000,
{
}

/// Every transcription of a session carries the fixed prompt and the
/// language "en" and asks for plain text, whichever model it uses; its
/// model is the one at its position in [`MODELS`].
pub proof fn lemma_every_transcription_has_prompt_and_language(request: TranscriptionRequest, position: nat)
    requires
        is_transcription_with(request, position),
    ensures
        opt_view(request.prompt) == Some(TRANSCRIPTION_PROMPT@),
        opt_view(request.language) == Some(TRANSCRIPTION_LANGUAGE@),
        request.response_format@ == RESPONSE_FORMAT@,
        request.model@ == MODELS@[position as int]@,
{
}

} // verus!
