//! What the transcription and text-rewrite services are asked, and how their
//! answers are read. The HTTP round trip itself is done by the caller, which
//! also turns a JSON body into the values that are read here.

use vstd::prelude::*;
use crate::config::RewriteMode;

verus! {

/// A failed call to an outside service.
#[derive(Debug, Clone, PartialEq, Eq)]
pub enum ServiceError {
    /// The service answered with a status outside 200..=299.
    Status { code: u16, body: String },
    /// The request was not sent, or the answer not read.
    Transport(String),
    /// The answer's body is not what the service documents.
    Malformed,
}

pub open spec fn is_success(code: u16) -> bool {
    200 <= code <= 299
}

pub const TRANSCRIPTION_URL: &'static str = "https://api.elevenlabs.io/v1/speech-to-text";

pub const TRANSCRIPTION_MODEL: &'static str = "scribe_v1";

/// The language setting under which no language hint is sent.
pub const AUTO_LANGUAGE: &'static str = "auto";

/// A speech-to-text request: a multipart form with text fields and the
/// clip as a WAV file part, sent with the key in the `xi-api-key` header.
pub struct TranscriptionRequest {
    pub url: String,
    pub api_key: String,
    /// Form fields, name and value, in order.
    pub fields: Vec<(String, String)>,
    pub file_name: String,
    pub mime_type: String,
    pub audio: Vec<u8>,
}

/// The transcription service's client settings.
pub struct ElevenLabsClient {
    api_key: String,
    language: String,
}

impl ElevenLabsClient {
    pub fn new(api_key: String, language: String) -> (r: ElevenLabsClient)
        ensures
            r.api_key_spec() == api_key@,
            r.language_spec() == language@,
    {
        ElevenLabsClient { api_key, language }
    }

    pub closed spec fn api_key_spec(&self) -> Seq<char> {
        self.api_key@
    }

    pub closed spec fn language_spec(&self) -> Seq<char> {
        self.language@
    }

    /// The request that transcribes `audio_data`, or `None` for an empty
    /// clip: empty audio is empty text, with no call made. The model field
    /// always goes; the language hint only when the language is not `auto`.
    pub fn request(&self, audio_data: Vec<u8>) -> (r: Option<TranscriptionRequest>)
        ensures
            audio_data@.len() == 0 <==> r is None,
            r matches Some(q) ==> {
                &&& q.url@ == TRANSCRIPTION_URL@
                &&& q.api_key@ == self.api_key_spec()
                &&& q.audio@ == audio_data@
                &&& q.file_name@ == "audio.wav"@
                &&& q.mime_type@ == "audio/wav"@
                &&& q.fields@.len() == if self.language_spec() == AUTO_LANGUAGE@ {
                    1int
                } else {
                    2int
                }
                &&& q.fields@[0].0@ == "model_id"@
                &&& q.fields@[0].1@ == TRANSCRIPTION_MODEL@
                &&& self.language_spec() != AUTO_LANGUAGE@ ==> q.fields@[1].0@ == "language_code"@
                    && q.fields@[1].1@ == self.language_spec()
            },
    {
        if audio_data.len() == 0 {
            return None;
        }
        let mut fields: Vec<(String, String)> = Vec::new();
        fields.push(("model_id".to_owned(), TRANSCRIPTION_MODEL.to_owned()));
        let auto = AUTO_LANGUAGE.to_owned();
        if self.language != auto {
            fields.push(("language_code".to_owned(), self.language.clone()));
        }
        Some(
            TranscriptionRequest {
                url: TRANSCRIPTION_URL.to_owned(),
                api_key: self.api_key.clone(),
                fields,
                file_name: "audio.wav".to_owned(),
                mime_type: "audio/wav".to_owned(),
                audio: audio_data,
            },
        )
    }

    /// Reads the service's answer: on a success status the transcript, which
    /// the caller took from the body's `text` field (`None` when the body
    /// had none); otherwise the status and the body.
    pub fn read_response(status: u16, body: String, text: Option<String>) -> (r: Result<
        String,
        ServiceError,
    >)
        ensures
            is_success(status) ==> match text {
                Some(t) => r matches Ok(s) && s@ == t@,
                None => r matches Err(ServiceError::Malformed),
            },
            !is_success(status) ==> (r matches Err(ServiceError::Status { code, body: b }) && code
                == status && b@ == body@),
    {
        if 200 <= status && status <= 299 {
            match text {
                Some(t) => Ok(t),
                None => Err(ServiceError::Malformed),
            }
        } else {
            Err(ServiceError::Status { code: status, body })
        }
    }
}

/// What `str::trim` leaves of a string: it without its leading and trailing
/// Unicode white space.
pub uninterp spec fn trimmed(s: Seq<char>) -> Seq<char>;

/// Relies on `str::trim`, which removes leading and trailing white space
/// (the Unicode `White_Space` property); the result depends on the
/// characters alone.
#[verifier::external_body]
fn trim(s: &str) -> (r: &str)
    ensures
        r@ == trimmed(s@),
{
    s.trim()
}

pub const REWRITE_URL: &'static str = "https://api.anthropic.com/v1/messages";

pub const REWRITE_API_VERSION: &'static str = "2023-06-01";

pub const REWRITE_MAX_TOKENS: u32 = 1024;

pub const CLEANUP_PROMPT: &'static str = "You are a text formatting tool. You receive raw speech-to-text output and return ONLY the cleaned version. Fix capitalization and punctuation. Never add commentary, notes, apologies, or explanations. Never say 'I', never ask questions, never add parenthetical remarks. Output the cleaned text and nothing else.";

pub const TRANSLATE_PROMPT: &'static str = "You are a translation tool. You receive raw speech-to-text output and return ONLY its English translation, with capitalization and punctuation fixed. If it is already English, return it cleaned. Never add commentary, notes, apologies, or explanations. Output the translated text and nothing else.";

/// A messages request: the model, the token limit, the system prompt that
/// picks the rewrite, and the transcript as the one user message. It is
/// sent with the key in `x-api-key` and the version in `anthropic-version`.
pub struct RewriteRequest {
    pub url: String,
    pub api_key: String,
    pub api_version: String,
    pub model: String,
    pub max_tokens: u32,
    pub system: String,
    pub user_text: String,
}

/// The prompt for a rewrite.
pub open spec fn prompt_of(mode: RewriteMode) -> Seq<char> {
    if mode == RewriteMode::Translate {
        TRANSLATE_PROMPT@
    } else {
        CLEANUP_PROMPT@
    }
}

/// The text-rewrite service's client settings: the key and the model that
/// does the rewrite.
pub struct TextCleaner {
    api_key: String,
    model: String,
}

impl TextCleaner {
    pub fn new(api_key: String, model: String) -> (r: TextCleaner)
        ensures
            r.api_key_spec() == api_key@,
            r.model_spec() == model@,
    {
        TextCleaner { api_key, model }
    }

    pub closed spec fn api_key_spec(&self) -> Seq<char> {
        self.api_key@
    }

    pub closed spec fn model_spec(&self) -> Seq<char> {
        self.model@
    }

    /// The request that rewrites `raw_text` as `mode` asks, or `None` when
    /// the text is only white space: its rewrite is the empty text, with no
    /// call made.
    pub fn request(&self, mode: RewriteMode, raw_text: &str) -> (r: Option<RewriteRequest>)
        requires
            mode != RewriteMode::Off,
        ensures
            trimmed(raw_text@).len() == 0 <==> r is None,
            r matches Some(q) ==> {
                &&& q.url@ == REWRITE_URL@
                &&& q.api_key@ == self.api_key_spec()
                &&& q.api_version@ == REWRITE_API_VERSION@
                &&& q.model@ == self.model_spec()
                &&& q.max_tokens == REWRITE_MAX_TOKENS
                &&& q.system@ == prompt_of(mode)
                &&& q.user_text@ == raw_text@
            },
    {
        if trim(raw_text).is_empty() {
            return None;
        }
        let system = if mode == RewriteMode::Translate {
            TRANSLATE_PROMPT.to_owned()
        } else {
            CLEANUP_PROMPT.to_owned()
        };
        Some(
            RewriteRequest {
                url: REWRITE_URL.to_owned(),
                api_key: self.api_key.clone(),
                api_version: REWRITE_API_VERSION.to_owned(),
                model: self.model.clone(),
                max_tokens: REWRITE_MAX_TOKENS,
                system,
                user_text: raw_text.to_owned(),
            },
        )
    }

    /// Reads the service's answer to the rewrite of `raw_text`. A failure
    /// status keeps the raw text. On success the caller hands in the texts
    /// of the body's content blocks (`None` when the body could not be
    /// read): the first one is the rewrite, and no block keeps the raw
    /// text.
    pub fn read_response(raw_text: &str, status: u16, blocks: Option<Vec<String>>) -> (r: Result<
        String,
        ServiceError,
    >)
        ensures
            !is_success(status) ==> (r matches Ok(s) && s@ == raw_text@),
            is_success(status) ==> match blocks {
                None => r matches Err(ServiceError::Malformed),
                Some(b) => r matches Ok(s) && s@ == if b@.len() == 0 {
                    raw_text@
                } else {
                    b@[0]@
                },
            },
    {
        if !(200 <= status && status <= 299) {
            return Ok(raw_text.to_owned());
        }
        match blocks {
            None => Err(ServiceError::Malformed),
            Some(b) => if b.len() == 0 {
                Ok(raw_text.to_owned())
            } else {
                Ok(b[0].clone())
            },
        }
    }
}

} // verus!
