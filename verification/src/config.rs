//! Session and configuration state shared by the pipeline: the speech-to-text
//! engine's settings, the analysis service's credentials, and the tuning
//! constants that govern segmentation and rate limiting.
//!
//! Amplitudes are fixed-point integers: an amplitude of 1.0 is
//! `AMPLITUDE_UNIT`. Confidence scores are in thousandths: 1000 means fully
//! confident. Times are monotonic milliseconds.

use vstd::prelude::*;

verus! {

/// Samples per second of the audio stream.
pub const SAMPLE_RATE_HZ: u64 = 16000;

/// Shortest utterance worth transcribing, in milliseconds.
pub const MIN_SPEECH_MS: u64 = 500;

/// Silence that ends an utterance, in milliseconds.
pub const SILENCE_TIMEOUT_MS: u64 = 1500;

/// Hard cap on an utterance's length, in milliseconds.
pub const MAX_BATCH_MS: u64 = 15000;

/// `MIN_SPEECH_MS` worth of samples at `SAMPLE_RATE_HZ`.
pub const MIN_SPEECH_SAMPLES: usize = 8000;

/// `MAX_BATCH_MS` worth of samples at `SAMPLE_RATE_HZ`.
pub const MAX_BATCH_SAMPLES: usize = 240000;

/// Fixed-point amplitude scale: this value encodes an amplitude of 1.0.
pub const AMPLITUDE_UNIT: i32 = 1000000;

/// Root-mean-square amplitude above which a chunk counts as speech
/// (0.0003 in fixed point).
pub const SPEECH_THRESHOLD: i32 = 300;

/// Root-mean-square amplitude above which a chunk still counts as a soft
/// continuation of running speech (0.0001 in fixed point).
pub const SILENCE_THRESHOLD: i32 = 100;

/// Floor on the spacing of outbound analysis requests, in milliseconds.
pub const MIN_REQUEST_INTERVAL_MS: u64 = 1000;

/// First backoff penalty after a rate-limited response, in seconds.
pub const INITIAL_BACKOFF_SECS: u64 = 3;

/// Ceiling on the backoff penalty, in seconds.
pub const MAX_BACKOFF_SECS: u64 = 60;

/// Pause imposed after a failed analysis call, in milliseconds.
pub const ERROR_COOLDOWN_MS: u64 = 2000;

/// Confidence attached to a transcription, in thousandths.
pub const TRANSCRIPTION_CONFIDENCE_MILLI: u32 = 850;

/// The analysis model used when none was chosen.
pub open spec fn default_model_id() -> Seq<char> {
    "gemini-2.5-flash-preview-09-2025"@
}

/// Settings of the local speech-to-text engine.
pub struct WhisperState {
    /// Whether the engine has loaded a model and is ready to transcribe.
    pub is_initialized: bool,
    /// Where the model file lives, once one was fetched.
    pub model_path: Option<String>,
    /// Language tag handed to the engine on every transcription.
    pub language: String,
}

impl WhisperState {
    /// The engine is only marked ready once a model file is known.
    pub open spec fn wf(&self) -> bool {
        self.is_initialized ==> self.model_path is Some
    }

    /// Records that a model file is in place and the engine loads it.
    pub fn mark_initialized(&mut self, model_path: String)
        ensures
            final(self).is_initialized,
            final(self).model_path == Some(model_path),
            final(self).language == old(self).language,
            final(self).wf(),
    {
        self.model_path = Some(model_path);
        self.is_initialized = true;
    }
}

impl Default for WhisperState {
    fn default() -> (s: Self)
        ensures
            !s.is_initialized,
            s.model_path is None,
            s.language@ == "en"@,
            s.wf(),
    {
        WhisperState {
            is_initialized: false,
            model_path: None,
            language: String::from_str("en"),
        }
    }
}

/// Credentials and model choice for the analysis service.
pub struct GeminiState {
    /// Opaque API key, absent until the user supplies one.
    pub api_key: Option<String>,
    /// Whether a connection test has succeeded.
    pub is_connected: bool,
    /// Identifier of the analysis model to call.
    pub selected_model: String,
}

impl Default for GeminiState {
    fn default() -> (s: Self)
        ensures
            s.api_key is None,
            !s.is_connected,
            s.selected_model@ == default_model_id(),
    {
        GeminiState {
            api_key: None,
            is_connected: false,
            selected_model: String::from_str("gemini-2.5-flash-preview-09-2025"),
        }
    }
}

/// Adopts the credentials handed to a connection test: stores the key, and
/// the model choice if one came with it; reports the model that will be used.
pub fn adopt_credentials(state: &mut GeminiState, key: String, model: Option<String>) -> (m:
    String)
    ensures
        final(state).api_key == Some(key),
        final(state).selected_model == (match model {
            Some(chosen) => chosen,
            None => old(state).selected_model,
        }),
        final(state).is_connected == old(state).is_connected,
        m == final(state).selected_model,
{
    state.api_key = Some(key);
    if let Some(chosen) = model {
        state.selected_model = chosen;
    }
    state.selected_model.clone()
}

/// Records that a connection test has succeeded.
pub fn mark_connected(state: &mut GeminiState)
    ensures
        final(state).is_connected,
        final(state).api_key == old(state).api_key,
        final(state).selected_model == old(state).selected_model,
{
    state.is_connected = true;
}

/// Stores a fresh API key.
pub fn update_gemini_key(state: &mut GeminiState, key: String) -> (r: Result<(), String>)
    ensures
        final(state).api_key == Some(key),
        final(state).is_connected == old(state).is_connected,
        final(state).selected_model == old(state).selected_model,
        r is Ok,
{
    state.api_key = Some(key);
    Ok(())
}

/// Selects the analysis model and reports the choice.
pub fn set_gemini_model(state: &mut GeminiState, model: String) -> (r: Result<String, String>)
    ensures
        final(state).selected_model == model,
        final(state).api_key == old(state).api_key,
        final(state).is_connected == old(state).is_connected,
        r is Ok && r->Ok_0@ == "Model: "@ + model@,
{
    let report = String::from_str("Model: ").concat(model.as_str());
    state.selected_model = model;
    Ok(report)
}

/// Selects the transcription language and reports the choice.
pub fn set_whisper_language(state: &mut WhisperState, language: String) -> (r: Result<
    String,
    String,
>)
    ensures
        final(state).language == language,
        final(state).is_initialized == old(state).is_initialized,
        final(state).model_path == old(state).model_path,
        r is Ok && r->Ok_0@ == "Language: "@ + language@,
{
    let report = String::from_str("Language: ").concat(language.as_str());
    state.language = language;
    Ok(report)
}

/// Describes whether the speech-to-text engine is ready, and in which
/// language it will transcribe.
pub fn get_whisper_status(state: &WhisperState) -> (r: Result<String, String>)
    ensures
        r is Ok,
        state.is_initialized ==> r->Ok_0@ == "Ready ("@ + state.language@ + ")"@,
        !state.is_initialized ==> r->Ok_0@ == "Not initialized"@,
{
    if state.is_initialized {
        Ok(String::from_str("Ready (").concat(state.language.as_str()).concat(")"))
    } else {
        Ok(String::from_str("Not initialized"))
    }
}

/// An analysis model the user can pick.
pub struct ModelInfo {
    /// Identifier sent to the service.
    pub id: String,
    /// Human-readable label.
    pub name: String,
}

/// The analysis models offered to the user.
pub fn get_available_models() -> (r: Vec<ModelInfo>)
    ensures
        r@.len() == 3,
        r@[0].id@ == "gemini-2.5-flash-preview-09-2025"@,
        r@[0].name@ == "Gemini 2.5 Flash"@,
        r@[1].id@ == "gemini-2.5-flash-lite-preview-09-2025"@,
        r@[1].name@ == "Gemini 2.5 Flash Lite"@,
        r@[2].id@ == "gemini-3-flash-preview"@,
        r@[2].name@ == "Gemini 3 Flash"@,
{
    let mut models: Vec<ModelInfo> = Vec::new();
    models.push(
        ModelInfo {
            id: String::from_str("gemini-2.5-flash-preview-09-2025"),
            name: String::from_str("Gemini 2.5 Flash"),
        },
    );
    models.push(
        ModelInfo {
            id: String::from_str("gemini-2.5-flash-lite-preview-09-2025"),
            name: String::from_str("Gemini 2.5 Flash Lite"),
        },
    );
    models.push(
        ModelInfo {
            id: String::from_str("gemini-3-flash-preview"),
            name: String::from_str("Gemini 3 Flash"),
        },
    );
    models
}

} // verus!
