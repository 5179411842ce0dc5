use vstd::prelude::*;

use reqwest::multipart::Part;

use crate::crypto::starts_with;
use crate::error::AppError;
use crate::text::{decimal, decimal_string};
use crate::types::TranscriptionResult;
use vstd::arithmetic::power2::{pow2, lemma2_to64, lemma_pow2_unfold, lemma_pow2_strictly_increases};

verus! {

/// The endpoint that transcribes audio.
pub const TRANSCRIPTION_URL: &'static str = "https://api.groq.com/openai/v1/audio/transcriptions";

/// The Whisper model that is asked for.
pub const WHISPER_MODEL: &'static str = "whisper-large-v3-turbo";

/// The file name under which the audio is uploaded.
pub const AUDIO_FILE_NAME: &'static str = "audio.wav";

/// The MIME type of the uploaded audio.
pub const AUDIO_MIME: &'static str = "audio/wav";

/// Seconds after which a request is abandoned.
pub const REQUEST_TIMEOUT_SECS: u64 = 30;

/// How many attempts a transcription gets in all.
pub const MAX_RETRIES: u32 = 3;

/// The error text used when an error response has no readable body.
pub const UNKNOWN_ERROR_TEXT: &'static str = "Unknown error";

/// A client of the Groq transcription API, holding the user's key.
pub struct GroqClient {
    api_key: String,
}

impl GroqClient {
    /// The key the client sends.
    pub closed spec fn spec_api_key(&self) -> Seq<char> {
        self.api_key@
    }

    /// A client that authenticates with `api_key`.
    pub fn new(api_key: String) -> (c: GroqClient)
        ensures
            c.spec_api_key() == api_key@,
    {
        GroqClient { api_key }
    }

    /// The key the client sends.
    pub fn api_key(&self) -> (k: &str)
        ensures
            k@ == self.spec_api_key(),
    {
        self.api_key.as_str()
    }

    /// The value of the `Authorization` header: `Bearer <key>`.
    pub fn authorization_header(&self) -> (h: String)
        ensures
            h@ == "Bearer "@ + self.spec_api_key(),
    {
        String::from_str("Bearer ").concat(self.api_key.as_str())
    }
}

/// Whether an HTTP status is a success (200 to 299).
pub fn is_success_status(status: u16) -> (b: bool)
    ensures
        b == (200 <= status && status < 300),
{
    200 <= status && status < 300
}

/// The message for a response with an unsuccessful status.
pub open spec fn status_message(status: u16, error_text: Seq<char>) -> Seq<char> {
    if status == 429 {
        "Rate limit exceeded"@
    } else if status == 401 {
        "Invalid API key"@
    } else if status == 400 {
        "Bad request: "@ + error_text
    } else if 500 <= status <= 599 {
        "Server error"@
    } else {
        "API error ("@ + decimal(status as nat) + "): "@ + error_text
    }
}

/// The error for a response with an unsuccessful status, given the body of
/// the response.
pub fn status_error(status: u16, error_text: &str) -> (e: AppError)
    ensures
        e matches AppError::GroqApiError(m) && m@ == status_message(status, error_text@),
{
    let m = if status == 429 {
        String::from_str("Rate limit exceeded")
    } else if status == 401 {
        String::from_str("Invalid API key")
    } else if status == 400 {
        String::from_str("Bad request: ").concat(error_text)
    } else if 500 <= status && status <= 599 {
        String::from_str("Server error")
    } else {
        String::from_str("API error (").concat(decimal_string(status as u128).as_str()).concat(
            "): ",
        ).concat(error_text)
    };
    AppError::GroqApiError(m)
}

/// The message for a request that could not be sent.
pub open spec fn send_message(is_timeout: bool, is_connect: bool, detail: Seq<char>) -> Seq<char> {
    if is_timeout {
        "Request timeout"@
    } else if is_connect {
        "Connection error"@
    } else {
        "Network error: "@ + detail
    }
}

/// The error for a request that could not be sent: a timeout, a failed
/// connection, or another failure described by `detail`.
pub fn send_error(is_timeout: bool, is_connect: bool, detail: &str) -> (e: AppError)
    ensures
        e matches AppError::GroqApiError(m) && m@ == send_message(is_timeout, is_connect, detail@),
{
    if is_timeout {
        AppError::GroqApiError(String::from_str("Request timeout"))
    } else if is_connect {
        AppError::GroqApiError(String::from_str("Connection error"))
    } else {
        AppError::GroqApiError(String::from_str("Network error: ").concat(detail))
    }
}

/// The error for an upload part that could not be built.
pub fn part_error(detail: &str) -> (e: AppError)
    ensures
        e matches AppError::GroqApiError(m) && m@ == "Failed to create multipart part: "@
            + detail@,
{
    AppError::GroqApiError(String::from_str("Failed to create multipart part: ").concat(detail))
}

#[verifier::external_type_specification]
#[verifier::external_body]
pub struct ExPart(Part);

/// Calls `reqwest::multipart::Part::bytes`: an upload part holding `bytes`.
/// A part is opaque here: nothing is claimed of it.
#[verifier::external_body]
fn part_from_bytes(bytes: Vec<u8>) -> Part {
    Part::bytes(bytes)
}

/// Calls `Part::file_name`: the part with its file name set. Nothing is
/// claimed of it.
#[verifier::external_body]
fn part_file_name(part: Part, name: &'static str) -> Part {
    part.file_name(name)
}

/// Calls `Part::mime_str`, turning its error into its text. It fails when
/// `mime` does not parse as a MIME type; nothing more is claimed.
#[verifier::external_body]
fn part_mime_str(part: Part, mime: &str) -> Result<Part, String> {
    part.mime_str(mime).map_err(|e| e.to_string())
}

/// The upload part for the audio: the bytes, named [`AUDIO_FILE_NAME`], of
/// type [`AUDIO_MIME`]. A refused type is reported as a [`part_error`].
pub fn audio_upload_part(audio: Vec<u8>) -> (r: Result<Part, AppError>)
    ensures
        r matches Err(e) ==> e matches AppError::GroqApiError(m) && starts_with(
            m@,
            "Failed to create multipart part: "@,
        ),
{
    let part = part_file_name(part_from_bytes(audio), AUDIO_FILE_NAME);
    match part_mime_str(part, AUDIO_MIME) {
        Ok(p) => Ok(p),
        Err(d) => {
            let e = part_error(d.as_str());
            proof {
                if let AppError::GroqApiError(ref m) = e {
                    assert(m@.subrange(0, "Failed to create multipart part: "@.len() as int)
                        =~= "Failed to create multipart part: "@);
                }
            }
            Err(e)
        },
    }
}

/// The error for a successful response whose body is not a transcription.
pub fn parse_error(detail: &str) -> (e: AppError)
    ensures
        e matches AppError::GroqApiError(m) && m@ == "Failed to parse response: "@ + detail@,
{
    AppError::GroqApiError(String::from_str("Failed to parse response: ").concat(detail))
}

/// The result of a successful transcription: the text, with no duration
/// and no language.
pub fn transcription_from_text(text: String) -> (r: TranscriptionResult)
    ensures
        r.text@ == text@,
        r.duration_ms == 0,
        r.language is None,
{
    TranscriptionResult { text, duration_ms: 0, language: None }
}

/// The body of a response, read as its status asks.
pub enum ResponseBody {
    /// The body of a successful response, parsed as a transcription: its
    /// text, or why it did not parse.
    Transcript(Result<String, String>),
    /// The body of an unsuccessful response as text, if it could be read.
    ErrorText(Option<String>),
}

/// The outcome of one attempt, from the response's status and body: the
/// transcribed text on a success, else the error for the failure.
pub fn attempt_result(status: u16, body: ResponseBody) -> (r: Result<TranscriptionResult, AppError>)
    requires
        (200 <= status && status < 300) <==> body is Transcript,
    ensures
        match body {
            ResponseBody::Transcript(Ok(text)) => r matches Ok(t) && t.text@ == text@
                && t.duration_ms == 0 && t.language is None,
            ResponseBody::Transcript(Err(d)) => r matches Err(AppError::GroqApiError(m)) && m@
                == "Failed to parse response: "@ + d@,
            ResponseBody::ErrorText(Some(t)) => r matches Err(AppError::GroqApiError(m)) && m@
                == status_message(status, t@),
            ResponseBody::ErrorText(None) => r matches Err(AppError::GroqApiError(m)) && m@
                == status_message(status, UNKNOWN_ERROR_TEXT@),
        },
{
    match body {
        ResponseBody::Transcript(Ok(text)) => Ok(transcription_from_text(text)),
        ResponseBody::Transcript(Err(d)) => Err(parse_error(d.as_str())),
        ResponseBody::ErrorText(Some(t)) => Err(status_error(status, t.as_str())),
        ResponseBody::ErrorText(None) => Err(status_error(status, UNKNOWN_ERROR_TEXT)),
    }
}

/// Seconds to wait after the `failures`-th failed attempt: 1, 2, 4, ...
pub open spec fn backoff_secs(failures: nat) -> nat {
    pow2((failures - 1) as nat)
}

/// `2^n`, as `2u64.pow(n)` computes it.
fn power_of_two(n: u32) -> (r: u64)
    requires
        n < 64,
    ensures
        r == pow2(n as nat),
{
    let mut r: u64 = 1;
    let mut i: u32 = 0;
    proof {
        lemma2_to64();
    }
    while i < n
        invariant
            i <= n,
            n < 64,
            r == pow2(i as nat),
            pow2(64) == 0x10000000000000000,
        decreases n - i,
    {
        proof {
            lemma_pow2_unfold((i + 1) as nat);
            lemma_pow2_strictly_increases((i + 1) as nat, 64);
        }
        r = r * 2;
        i = i + 1;
    }
    r
}

/// Whether an attempt ends the transcription: it succeeded, or it was the
/// last allowed failure (`failures` attempts having failed before it).
pub open spec fn ends_transcription(failures: nat, succeeded: bool) -> bool {
    succeeded || failures + 1 >= MAX_RETRIES
}

/// How many attempts a transcription makes, after `failures` failed ones,
/// when its attempts succeed or fail in turn as `outcomes` says.
pub open spec fn attempts_made(failures: nat, outcomes: Seq<bool>) -> nat
    decreases outcomes.len(),
{
    if outcomes.len() == 0 {
        0
    } else if ends_transcription(failures, outcomes[0]) {
        1
    } else {
        1 + attempts_made(failures + 1, outcomes.drop_first())
    }
}

/// How many seconds a transcription waits in all between its attempts, in
/// the same circumstances.
pub open spec fn total_backoff(failures: nat, outcomes: Seq<bool>) -> nat
    decreases outcomes.len(),
{
    if outcomes.len() == 0 || ends_transcription(failures, outcomes[0]) {
        0
    } else {
        backoff_secs(failures + 1) + total_backoff(failures + 1, outcomes.drop_first())
    }
}

proof fn lemma_attempts_bounded(failures: nat, outcomes: Seq<bool>)
    requires
        failures < MAX_RETRIES,
    ensures
        attempts_made(failures, outcomes) <= MAX_RETRIES - failures,
        total_backoff(failures, outcomes) <= pow2((MAX_RETRIES - 1) as nat) - pow2(failures),
    decreases outcomes.len(),
{
    lemma2_to64();
    if outcomes.len() > 0 && !ends_transcription(failures, outcomes[0]) {
        lemma_attempts_bounded(failures + 1, outcomes.drop_first());
    }
}

/// A transcription makes at most [`MAX_RETRIES`] attempts, whatever their
/// outcomes, and waits at most 1 + 2 = 3 seconds in all between them.
pub proof fn lemma_retries_bounded(outcomes: Seq<bool>)
    ensures
        attempts_made(0, outcomes) <= MAX_RETRIES,
        total_backoff(0, outcomes) <= 3,
{
    lemma2_to64();
    lemma_attempts_bounded(0, outcomes);
}

/// What to do after an attempt to transcribe.
pub enum TranscribeStep {
    /// Stop, with this result.
    Finish(Result<TranscriptionResult, AppError>),
    /// Wait this many seconds, then try again.
    RetryAfter(u64),
}

/// The retry state of one transcription: how many attempts have failed.
pub struct RetryState {
    failures: u32,
}

impl RetryState {
    #[verifier::type_invariant]
    spec fn failures_below_limit(self) -> bool {
        self.failures < MAX_RETRIES
    }

    /// How many attempts have failed so far.
    pub closed spec fn failures(self) -> nat {
        self.failures as nat
    }

    /// The state before the first attempt.
    pub fn new() -> (s: RetryState)
        ensures
            s.failures() == 0,
    {
        RetryState { failures: 0 }
    }

    /// Decides what follows an attempt: a success finishes with its result;
    /// a failure is retried after `2^(n-1)` seconds, `n` being the number of
    /// failed attempts so far, until [`MAX_RETRIES`] attempts have failed,
    /// when the last error is returned.
    pub fn on_attempt(&mut self, outcome: Result<TranscriptionResult, AppError>) -> (step:
        TranscribeStep)
        ensures
            old(self).failures() < MAX_RETRIES,
            final(self).failures() < MAX_RETRIES,
            outcome is Ok ==> step == TranscribeStep::Finish(outcome) && final(self).failures()
                == old(self).failures(),
            outcome is Err ==> {
                if ends_transcription(old(self).failures(), false) {
                    &&& step == TranscribeStep::Finish(outcome)
                    &&& final(self).failures() == old(self).failures()
                } else {
                    &&& step == TranscribeStep::RetryAfter(
                        backoff_secs(old(self).failures() + 1) as u64,
                    )
                    &&& final(self).failures() == old(self).failures() + 1
                }
            },
    {
        proof {
            use_type_invariant(&*self);
        }
        match outcome {
            Ok(r) => TranscribeStep::Finish(Ok(r)),
            Err(e) => {
                let attempt = self.failures + 1;
                if attempt >= MAX_RETRIES {
                    TranscribeStep::Finish(Err(e))
                } else {
                    self.failures = attempt;
                    TranscribeStep::RetryAfter(power_of_two(attempt - 1))
                }
            },
        }
    }
}

} // verus!
