use stt_groq_rust::groq_client::{GroqClient, GroqError, TranscriptionRequest};

fn client() -> GroqClient {
    match GroqClient::new(Some("SECRET-REDACTED".to_string())) {
        Ok(c) => c,
        Err(_) => panic!("a key was given"),
    }
}

fn pairs(request: &TranscriptionRequest) -> Vec<(String, String)> {
    request.form_fields().into_iter().map(|f| (f.name, f.value)).collect()
}

#[test]
fn missing_api_key_is_an_error() {
    match GroqClient::new(None) {
        Err(e) => {
            assert!(matches!(e, GroqError::MissingApiKey));
            assert_eq!(e.message(), "GROQ_API_KEY environment variable not set");
        }
        Ok(_) => panic!("no key was given"),
    }
}

#[test]
fn upload_targets_transcription_endpoint_with_bearer_token() {
    let request = TranscriptionRequest::new("whisper-large-v3", None, None);
    let upload = client().transcription_upload(Some("clip.wav"), &request);
    assert_eq!(upload.url, "https://api.groq.com/openai/v1/audio/transcriptions");
    assert_eq!(upload.authorization, "Bearer SECRET-REDACTED");
    assert_eq!(upload.file_name, "clip.wav");
    assert_eq!(upload.mime_type, "audio/wav");
}

#[test]
fn unusable_file_name_falls_back_to_default() {
    let request = TranscriptionRequest::new("m", None, None);
    let upload = client().transcription_upload(None, &request);
    assert_eq!(upload.file_name, "audio.wav");
}

#[test]
fn form_fields_in_order() {
    let request = TranscriptionRequest::new("whisper-large-v3", Some("a prompt"), Some("en"));
    assert_eq!(
        pairs(&request),
        vec![
            ("model".to_string(), "whisper-large-v3".to_string()),
            ("response_format".to_string(), "text".to_string()),
            ("prompt".to_string(), "a prompt".to_string()),
            ("language".to_string(), "en".to_string()),
        ]
    );
}

#[test]
fn optional_fields_left_out() {
    let request = TranscriptionRequest::new("m", None, Some("de"));
    assert_eq!(
        pairs(&request),
        vec![
            ("model".to_string(), "m".to_string()),
            ("response_format".to_string(), "text".to_string()),
            ("language".to_string(), "de".to_string()),
        ]
    );
    let request = TranscriptionRequest::new("m", None, None);
    assert_eq!(pairs(&request).len(), 2);
}

#[test]
fn successful_response_is_the_transcription() {
    match GroqClient::transcription_result(true, Some("hello world".to_string())) {
        Ok(text) => assert_eq!(text, "hello world"),
        Err(_) => panic!("expected a transcription"),
    }
}

#[test]
fn error_status_carries_the_body() {
    match GroqClient::transcription_result(false, Some("rate limited".to_string())) {
        Err(e) => {
            assert!(matches!(e, GroqError::Api(ref body) if body == "rate limited"));
            assert_eq!(e.message(), "API error: rate limited");
        }
        Ok(_) => panic!("expected an error"),
    }
    match GroqClient::transcription_result(false, None) {
        Err(e) => assert_eq!(e.message(), "API error: "),
        Ok(_) => panic!("expected an error"),
    }
}

#[test]
fn unreadable_success_body_is_an_error() {
    match GroqClient::transcription_result(true, None) {
        Err(e) => {
            assert!(matches!(e, GroqError::UnreadableResponse));
            assert_eq!(e.message(), "Failed to parse transcription response");
        }
        Ok(_) => panic!("expected an error"),
    }
}
