# stt_groq_rust

Push-to-talk speech-to-text: double-tap Alt to start recording, double-tap
again to stop; the recording is transcribed with Groq's Whisper API and the
text is copied to the clipboard and pasted.

- `src/` is the verified library: round-robin model selection,
  double-tap detection, the recording session's decisions, conversion of
  captured samples, the shape of transcription requests and the reading of
  the API's answers, notifications and the copy-then-paste sequence.
- `app/` is the program around it: audio capture (cpal), WAV files (hound),
  HTTP (reqwest), keyboard hooks (rdev), clipboard (arboard, enigo),
  notifications (notify-rust) and logging.
- `tests/` exercises the library.
