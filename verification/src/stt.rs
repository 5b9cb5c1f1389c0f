//! The transcription adapter's data and pure logic: the result type handed
//! back by the speech-to-text engine, assembly of the engine's segment texts
//! into one transcript, and the model-catalog lookup for fetching model files.
//!
//! The engine itself is an external collaborator driven from outside the
//! library; it hands its segment texts in, and this module shapes them.

use vstd::prelude::*;
use crate::config::TRANSCRIPTION_CONFIDENCE_MILLI;
use crate::text::{str_eq, trim_spec, trim_str};

verus! {

/// What one transcription produced. Confidence is in thousandths.
pub struct TranscriptionResult {
    /// The transcript, trimmed of surrounding whitespace.
    pub text: String,
    /// Language the engine transcribed in.
    pub language: String,
    /// Confidence score, in thousandths of certainty.
    pub confidence_milli: u32,
}

/// The segment texts joined in order.
pub open spec fn joined_segments(segs: Seq<String>) -> Seq<char>
    decreases segs.len(),
{
    if segs.len() == 0 {
        Seq::empty()
    } else {
        joined_segments(segs.drop_last()) + segs.last()@
    }
}

/// Joins the engine's segment texts, trims the surrounding whitespace, and
/// attaches the fixed transcription confidence. An utterance the engine heard
/// nothing in yields an empty text, not an error.
pub fn assemble_transcription(segments: &Vec<String>, language: String) -> (r: TranscriptionResult)
    ensures
        r.text@ == trim_spec(joined_segments(segments@)),
        r.language == language,
        r.confidence_milli == TRANSCRIPTION_CONFIDENCE_MILLI,
{
    let mut joined = String::new();
    let mut i: usize = 0;
    while i < segments.len()
        invariant
            i <= segments@.len(),
            joined@ == joined_segments(segments@.subrange(0, i as int)),
        decreases segments@.len() - i,
    {
        joined.append(segments[i].as_str());
        proof {
            assert(segments@.subrange(0, i + 1).drop_last() =~= segments@.subrange(0, i as int));
            assert(segments@.subrange(0, i + 1).last() == segments@[i as int]);
        }
        i = i + 1;
    }
    proof {
        assert(segments@.subrange(0, segments@.len() as int) =~= segments@);
    }
    let text = trim_str(joined.as_str());
    TranscriptionResult { text, language, confidence_milli: TRANSCRIPTION_CONFIDENCE_MILLI }
}

/// What a transcription needs from the engine's settings: the model path and
/// the language. Refused when the engine was never initialized or the model
/// path is missing, with the error naming which.
pub fn transcription_prerequisites(state: &crate::config::WhisperState) -> (r: Result<
    (String, String),
    String,
>)
    ensures
        (!state.is_initialized ==> (r matches Err(e) && e@ == "Whisper not initialized"@)),
        (state.is_initialized && state.model_path is None ==> (r matches Err(e) && e@
            == "Model path not set"@)),
        (state.model_path matches Some(p) ==> (state.is_initialized ==> (r matches Ok(pair)
            && pair.0 == p && pair.1 == state.language))),
{
    if !state.is_initialized {
        return Err(String::from_str("Whisper not initialized"));
    }
    match &state.model_path {
        None => Err(String::from_str("Model path not set")),
        Some(path) => Ok((path.clone(), state.language.clone())),
    }
}

/// Where a speech model of the given size lives: the repository and the file
/// name inside it. Unknown sizes fall back to the base model.
pub fn whisper_model_file(model_size: &str) -> (r: (String, String))
    ensures
        r.0@ == "ggerganov/whisper.cpp"@,
        r.1@ == (if model_size@ == "tiny"@ {
            "ggml-tiny.bin"@
        } else if model_size@ == "small"@ {
            "ggml-small.bin"@
        } else if model_size@ == "medium"@ {
            "ggml-medium.bin"@
        } else {
            "ggml-base.bin"@
        }),
{
    let repo = String::from_str("ggerganov/whisper.cpp");
    if str_eq(model_size, "tiny") {
        (repo, String::from_str("ggml-tiny.bin"))
    } else if str_eq(model_size, "small") {
        (repo, String::from_str("ggml-small.bin"))
    } else if str_eq(model_size, "medium") {
        (repo, String::from_str("ggml-medium.bin"))
    } else {
        (repo, String::from_str("ggml-base.bin"))
    }
}

} // verus!
