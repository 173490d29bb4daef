//! The shape of transcription requests to Groq's Whisper API and the
//! reading of its answers.

use vstd::prelude::*;

verus! {

/// Base URL of Groq's OpenAI-compatible API.
pub const GROQ_API_BASE_URL: &'static str = "https://api.groq.com/openai/v1";

/// Path of the transcription endpoint below [`GROQ_API_BASE_URL`].
pub const TRANSCRIPTIONS_PATH: &'static str = "/audio/transcriptions";

/// Name of the environment variable that holds the API key.
pub const API_KEY_VARIABLE: &'static str = "GROQ_API_KEY";

/// File name sent when the audio file's own name cannot be used.
pub const DEFAULT_AUDIO_FILE_NAME: &'static str = "audio.wav";

/// MIME type of the uploaded audio.
pub const AUDIO_MIME_TYPE: &'static str = "audio/wav";

/// Response format asked of the API: plain text.
pub const RESPONSE_FORMAT: &'static str = "text";

/// Prefix of the value of the `Authorization` header.
pub const BEARER_PREFIX: &'static str = "Bearer ";

/// Why a transcription could not be obtained.
pub enum GroqError {
    /// The API key variable is not set.
    MissingApiKey,
    /// The API answered with an error status; the answer's body.
    Api(String),
    /// The API answered with success, but its body could not be read.
    UnreadableResponse,
}

impl GroqError {
    /// The error's message, as shown to the user.
    pub fn message(&self) -> (text: String)
        ensures
            text@ == match self {
                GroqError::MissingApiKey => "GROQ_API_KEY environment variable not set"@,
                GroqError::Api(body) => "API error: "@ + body@,
                GroqError::UnreadableResponse => "Failed to parse transcription response"@,
            },
    {
        match self {
            GroqError::MissingApiKey => "GROQ_API_KEY environment variable not set".to_owned(),
            GroqError::Api(body) => "API error: ".to_owned().concat(body.as_str()),
            GroqError::UnreadableResponse => "Failed to parse transcription response".to_owned(),
        }
    }
}

/// The parameters of a transcription.
pub struct TranscriptionRequest {
    pub model: String,
    pub prompt: Option<String>,
    pub response_format: String,
    pub language: Option<String>,
}

/// A transcription as the API returns it.
pub struct TranscriptionResponse {
    pub text: String,
}

/// A text field of a multipart form.
pub struct FormField {
    pub name: String,
    pub value: String,
}

/// The view of an optional string.
pub open spec fn opt_view(s: Option<String>) -> Option<Seq<char>> {
    match s {
        Some(t) => Some(t@),
        None => None,
    }
}

/// The view of an optional string slice.
pub open spec fn opt_str_view(s: Option<&str>) -> Option<Seq<char>> {
    match s {
        Some(t) => Some(t@),
        None => None,
    }
}

/// The form fields as (name, value) pairs, in order.
pub open spec fn fields_view(fields: Seq<FormField>) -> Seq<(Seq<char>, Seq<char>)> {
    fields.map_values(|f: FormField| (f.name@, f.value@))
}

/// A single field, if the value is present; none otherwise.
pub open spec fn optional_field(name: Seq<char>, value: Option<Seq<char>>) -> Seq<(Seq<char>, Seq<char>)> {
    match value {
        Some(v) => seq![(name, v)],
        None => seq![],
    }
}

/// The text fields of a transcription form: the model, the response
/// format, then the prompt and the language where they are given.
pub open spec fn transcription_fields(
    model: Seq<char>,
    response_format: Seq<char>,
    prompt: Option<Seq<char>>,
    language: Option<Seq<char>>,
) -> Seq<(Seq<char>, Seq<char>)> {
    seq![("model"@, model), ("response_format"@, response_format)] + optional_field("prompt"@, prompt)
        + optional_field("language"@, language)
}

fn copy_optional(s: Option<&str>) -> (r: Option<String>)
    ensures
        opt_view(r) == opt_str_view(s),
{
    match s {
        Some(t) => Some(t.to_owned()),
        None => None,
    }
}

impl TranscriptionRequest {
    /// A request for a plain-text transcription with the given model,
    /// and the prompt and language where they are given.
    pub fn new(model: &str, prompt: Option<&str>, language: Option<&str>) -> (request: Self)
        ensures
            request.model@ == model@,
            opt_view(request.prompt) == opt_str_view(prompt),
            request.response_format@ == RESPONSE_FORMAT@,
            opt_view(request.language) == opt_str_view(language),
    {
        TranscriptionRequest {
            model: model.to_owned(),
            prompt: copy_optional(prompt),
            response_format: RESPONSE_FORMAT.to_owned(),
            language: copy_optional(language),
        }
    }

    /// The text fields of the multipart form that carries this request.
    pub fn form_fields(&self) -> (fields: Vec<FormField>)
        ensures
            fields_view(fields@) == transcription_fields(
                self.model@,
                self.response_format@,
                opt_view(self.prompt),
                opt_view(self.language),
            ),
            fields@.len() == 2 + (if self.prompt is Some { 1int } else { 0 }) + (if self.language is Some { 1int } else { 0 }),
            fields@[0].name@ == "model"@ && fields@[0].value@ == self.model@,
            fields@[1].name@ == "response_format"@ && fields@[1].value@ == self.response_format@,
            self.prompt matches Some(p) ==> fields@[2].name@ == "prompt"@ && fields@[2].value@ == p@,
            self.language matches Some(l) ==> fields@[fields@.len() - 1].name@ == "language"@
                && fields@[fields@.len() - 1].value@ == l@,
    {
        let mut fields: Vec<FormField> = Vec::new();
        fields.push(FormField { name: "model".to_owned(), value: self.model.clone() });
        fields.push(
            FormField { name: "response_format".to_owned(), value: self.response_format.clone() },
        );
        let ghost base = fields@;
        match &self.prompt {
            Some(p) => fields.push(FormField { name: "prompt".to_owned(), value: p.clone() }),
            None => {},
        }
        let ghost with_prompt = fields@;
        match &self.language {
            Some(l) => fields.push(FormField { name: "language".to_owned(), value: l.clone() }),
            None => {},
        }
        proof {
            assert(fields_view(base) =~= seq![("model"@, self.model@), ("response_format"@, self.response_format@)]);
            assert(fields_view(with_prompt) =~= fields_view(base) + optional_field("prompt"@, opt_view(self.prompt)));
            assert(fields_view(fields@) =~= fields_view(with_prompt) + optional_field("language"@, opt_view(self.language)));
        }
        fields
    }
}

/// Everything an HTTP client needs to send a transcription request.
pub struct TranscriptionUpload {
    /// Where the request goes.
    pub url: String,
    /// Value of the `Authorization` header.
    pub authorization: String,
    /// File name under which the audio is sent.
    pub file_name: String,
    /// MIME type of the audio part.
    pub mime_type: String,
    /// The text fields, in order, after the audio part.
    pub fields: Vec<FormField>,
}

/// Client of the Groq transcription API.
pub struct GroqClient {
    api_key: String,
}

impl View for GroqClient {
    type V = Seq<char>;

    /// The API key.
    closed spec fn view(&self) -> Seq<char> {
        self.api_key@
    }
}

impl GroqClient {
    /// A client with the API key read from [`API_KEY_VARIABLE`]; an error
    /// when the variable is not set.
    pub fn new(api_key: Option<String>) -> (client: Result<Self, GroqError>)
        ensures
            api_key is None <==> client is Err,
            client matches Err(e) ==> e is MissingApiKey,
            client matches Ok(c) ==> c@ == api_key->0@,
    {
        match api_key {
            Some(key) => Ok(GroqClient { api_key: key }),
            None => Err(GroqError::MissingApiKey),
        }
    }

    /// The upload that asks for `request` on the audio file named
    /// `file_name` (the default name where the file's own name is not
    /// usable): the endpoint, the bearer token, the audio part's name and
    /// type, and the text fields.
    pub fn transcription_upload(&self, file_name: Option<&str>, request: &TranscriptionRequest) -> (upload: TranscriptionUpload)
        ensures
            upload.url@ == GROQ_API_BASE_URL@ + TRANSCRIPTIONS_PATH@,
            upload.authorization@ == BEARER_PREFIX@ + self@,
            upload.file_name@ == match file_name {
                Some(n) => n@,
                None => DEFAULT_AUDIO_FILE_NAME@,
            },
            upload.mime_type@ == AUDIO_MIME_TYPE@,
            fields_view(upload.fields@) == transcription_fields(
                request.model@,
                request.response_format@,
                opt_view(request.prompt),
                opt_view(request.language),
            ),
    {
        let url = GROQ_API_BASE_URL.to_owned().concat(TRANSCRIPTIONS_PATH);
        let authorization = BEARER_PREFIX.to_owned().concat(self.api_key.as_str());
        let file_name = match file_name {
            Some(n) => n.to_owned(),
            None => DEFAULT_AUDIO_FILE_NAME.to_owned(),
        };
        TranscriptionUpload {
            url,
            authorization,
            file_name,
            mime_type: AUDIO_MIME_TYPE.to_owned(),
            fields: request.form_fields(),
        }
    }

    /// Reads the API's answer: the transcription when the status is a
    /// success and the body could be read; otherwise the error, which for
    /// an error status carries the body (empty when it could not be read).
    pub fn transcription_result(success: bool, body: Option<String>) -> (result: Result<String, GroqError>)
        ensures
            success && body is Some ==> (result matches Ok(text) && text@ == body->0@),
            success && body is None ==> (result matches Err(e) && e is UnreadableResponse),
            !success ==> (result matches Err(e) && e is Api && e->Api_0@ == match body {
                Some(b) => b@,
                None => Seq::<char>::empty(),
            }),
    {
        if !success {
            let text = match body {
                Some(b) => b,
                None => String::new(),
            };
            Err(GroqError::Api(text))
        } else {
            match body {
                Some(text) => Ok(text),
                None => Err(GroqError::UnreadableResponse),
            }
        }
    }
}

/// The form's text fields: the model and the response format always come
/// first; the prompt follows exactly when one is given, whether or not a
/// language is; the language comes last exactly when one is given.
pub proof fn lemma_transcription_fields(
    model: Seq<char>,
    response_format: Seq<char>,
    prompt: Seq<char>,
    language: Seq<char>,
)
    ensures
        transcription_fields(model, response_format, Some(prompt), Some(language)) == seq![
            ("model"@, model),
            ("response_format"@, response_format),
            ("prompt"@, prompt),
            ("language"@, language),
        ],
        transcription_fields(model, response_format, Some(prompt), None) == seq![
            ("model"@, model),
            ("response_format"@, response_format),
            ("prompt"@, prompt),
        ],
        transcription_fields(model, response_format, None, Some(language)) == seq![
            ("model"@, model),
            ("response_format"@, response_format),
            ("language"@, language),
        ],
        transcription_fields(model, response_format, None, None) == seq![
            ("model"@, model),
            ("response_format"@, response_format),
        ],
{
    assert(transcription_fields(model, response_format, Some(prompt), Some(language)) =~= seq![
        ("model"@, model),
        ("response_format"@, response_format),
        ("prompt"@, prompt),
        ("language"@, language),
    ]);
    assert(transcription_fields(model, response_format, Some(prompt), None) =~= seq![
        ("model"@, model),
        ("response_format"@, response_format),
        ("prompt"@, prompt),
    ]);
    assert(transcription_fields(model, response_format, None, Some(language)) =~= seq![
        ("model"@, model),
        ("response_format"@, response_format),
        ("language"@, language),
    ]);
    assert(transcription_fields(model, response_format, None, None) =~= seq![
        ("model"@, model),
        ("response_format"@, response_format),
    ]);
}

} // verus!
