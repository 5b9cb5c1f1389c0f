//! The pipeline orchestrator: a state machine from segmenter events to
//! transcription and analysis work. The outside loop feeds it the clock,
//! drained audio, and the results of the external calls; the orchestrator
//! decides every transition and owns the single-flight guarantee — at most
//! one utterance is in the transcription or analysis stage at a time, while
//! new audio keeps accumulating in the segmenter.

use vstd::prelude::*;
use crate::config::{ERROR_COOLDOWN_MS, MIN_SPEECH_SAMPLES, GeminiState, WhisperState};
use crate::limiter::{next_backoff, RateLimiter};
use crate::response::{
    classify_response,
    failure_code,
    is_rate_limited_response,
    parsed_body_of,
    AnalysisOutcome,
    BodyPayloadView,
    REPORTED_BODY_CHARS,
};
use crate::segmenter::{absorbs, FlushResult, Segmenter};
use crate::stt::TranscriptionResult;
use crate::response::no_text_intelligence;
use crate::text::{
    all_space,
    analysis_prompt,
    clip_spec,
    dec_str,
    fallback_intelligence,
    fallback_intelligence_spec,
    is_blank,
    request_url,
    u64_to_dec,
};

verus! {

/// The terminal artifact of one utterance: its transcript and the
/// intelligence extracted from it, stamped with the moment of delivery.
pub struct IntelligenceRecord {
    /// The transcript the record is about.
    pub transcript: String,
    /// Speaker label, when one was supplied.
    pub speaker: Option<String>,
    /// The raw intelligence payload.
    pub intelligence: String,
    /// When the record was produced, in monotonic milliseconds.
    pub timestamp_ms: u64,
}

/// Where the single in-flight utterance stands.
pub enum Stage {
    /// No utterance in flight; audio is being listened to.
    Listening,
    /// An utterance was handed to the speech-to-text engine.
    Transcribing,
    /// This transcript was handed to the analysis stage.
    Analyzing { transcript: String },
}

/// The transcript an `Analyzing` stage carries.
pub open spec fn in_flight_transcript(s: Stage) -> Seq<char> {
    match s {
        Stage::Analyzing { transcript } => transcript@,
        _ => Seq::empty(),
    }
}

/// What the orchestrator asks the outside loop to do after a tick.
pub enum TickAction {
    /// Nothing to do: keep listening.
    Idle,
    /// An utterance ended but was too short; it was discarded as noise.
    DiscardedShort,
    /// An utterance was ready but the speech-to-text engine is not; the
    /// utterance was dropped and a status notification is owed.
    SttUnavailable,
    /// Transcribe these samples with this model and language.
    Transcribe { samples: Vec<i32>, model_path: String, language: String },
}

/// What the orchestrator asks for after a transcription came back.
pub enum AfterTranscription {
    /// Transcription failed; the utterance is dropped and the pipeline is
    /// listening again. The analysis stage is never entered for it.
    SttFailed { error: String },
    /// The transcription carries no visible text; nothing to analyze.
    NothingToAnalyze { transcription: TranscriptionResult },
    /// No usable API key is configured; an authentication error is owed and
    /// the utterance is lost.
    MissingCredentials { transcription: TranscriptionResult },
    /// Post this prompt to the analysis service for the transcript now in
    /// flight.
    StartAnalysis { transcription: TranscriptionResult, prompt: String },
}

/// What came back from one posted analysis request.
pub enum HttpEvent {
    /// The request never completed: network failure or timeout.
    TransportFailed { error: String },
    /// The service answered with this status and body.
    Response { status: u16, body: String },
}

/// How one utterance's analysis concluded. Every conclusion carries exactly
/// one record, so a transcript that reached this stage is never lost.
pub enum AnalysisConclusion {
    /// The service analyzed the transcript; deliver the record.
    Delivered { record: IntelligenceRecord },
    /// The analysis failed; deliver a stand-in record carrying the
    /// transcript, report this error code and message, and cool down before
    /// listening again.
    Fallback { record: IntelligenceRecord, error_code: u16, message: String, cooldown_ms: u64 },
}

/// The record a conclusion carries.
pub open spec fn concluded_record(c: AnalysisConclusion) -> IntelligenceRecord {
    match c {
        AnalysisConclusion::Delivered { record } => record,
        AnalysisConclusion::Fallback { record, .. } => record,
    }
}

/// The pipeline's whole state: the segmenter, the request limiter, the
/// single-flight stage, and a counter of utterances sent to transcription.
pub struct Pipeline {
    /// Accumulates the live audio into utterances.
    pub segmenter: Segmenter,
    /// Paces the outbound analysis requests.
    pub limiter: RateLimiter,
    /// The single-flight stage of the one in-flight utterance.
    pub stage: Stage,
    /// How many utterances were handed to transcription.
    pub request_count: u32,
}

impl Pipeline {
    /// Structural invariant: the parts are well-formed and an in-flight
    /// transcript is never blank.
    pub open spec fn wf(&self) -> bool {
        &&& self.segmenter.wf()
        &&& self.limiter.wf()
        &&& (self.stage matches Stage::Analyzing { transcript } ==> !all_space(transcript@))
    }

    /// A pipeline that has heard nothing, ready to send its first request at
    /// once.
    pub fn new(now_ms: u64) -> (p: Self)
        ensures
            p.wf(),
            p.segmenter.is_idle(),
            p.stage is Listening,
            p.limiter.backoff_secs == 0,
            p.limiter.last_request_at_ms == (if now_ms >= crate::config::MIN_REQUEST_INTERVAL_MS {
                now_ms - crate::config::MIN_REQUEST_INTERVAL_MS
            } else {
                0
            }),
            p.request_count == 0,
    {
        Pipeline {
            segmenter: Segmenter::new(),
            limiter: RateLimiter::new(now_ms),
            stage: Stage::Listening,
            request_count: 0,
        }
    }

    /// Feeds newly drained audio into the segmenter, which classifies and
    /// buffers it per the `absorbs` transition. Audio keeps accumulating
    /// whatever the stage: absorbing never starts new work.
    pub fn absorb_audio(&mut self, now_ms: u64, chunk: &Vec<i32>)
        requires
            old(self).wf(),
            old(self).segmenter.stamps_le(now_ms),
        ensures
            final(self).wf(),
            final(self).segmenter.stamps_le(now_ms),
            absorbs(old(self).segmenter, final(self).segmenter, chunk@, now_ms),
            final(self).stage == old(self).stage,
            final(self).limiter == old(self).limiter,
            final(self).request_count == old(self).request_count,
    {
        self.segmenter.absorb_chunk(now_ms, chunk);
    }

    /// One tick of the control loop: flush the segmenter if its utterance is
    /// complete, and decide what to do with it. While an utterance is already
    /// in flight, nothing new is started — the single-flight guarantee — but
    /// readiness is re-checked on every later tick, so an utterance that
    /// completes while input is quiet is still flushed.
    pub fn poll_tick(&mut self, now_ms: u64, whisper: &WhisperState) -> (a: TickAction)
        requires
            old(self).wf(),
            old(self).segmenter.stamps_le(now_ms),
        ensures
            final(self).wf(),
            final(self).segmenter.stamps_le(now_ms),
            final(self).limiter == old(self).limiter,
            (!(old(self).stage is Listening) ==> a is Idle && *final(self) == *old(self)),
            (old(self).stage is Listening && !old(self).segmenter.ready(now_ms) ==> a is Idle
                && *final(self) == *old(self)),
            (old(self).stage is Listening && old(self).segmenter.ready(now_ms) && old(
                self,
            ).segmenter.buffer@.len() < MIN_SPEECH_SAMPLES ==> (a is DiscardedShort && final(
                self).segmenter.is_idle() && final(self).stage is Listening)),
            (old(self).stage is Listening && old(self).segmenter.ready(now_ms) && old(
                self,
            ).segmenter.buffer@.len() >= MIN_SPEECH_SAMPLES ==> (final(self).segmenter.is_idle()
                && (if whisper.is_initialized && whisper.model_path is Some {
                &&& final(self).stage is Transcribing
                &&& final(self).request_count == (if old(self).request_count < u32::MAX {
                    old(self).request_count + 1
                } else {
                    u32::MAX as int
                })
                &&& (a matches TickAction::Transcribe { samples, model_path, language } && samples@
                    == old(self).segmenter.buffer@ && model_path == whisper.model_path->0
                    && language == whisper.language)
            } else {
                &&& a is SttUnavailable
                &&& final(self).stage is Listening
            }))),
    {
        match self.stage {
            Stage::Listening => {},
            _ => {
                return TickAction::Idle;
            },
        }
        match self.segmenter.poll(now_ms) {
            FlushResult::NotReady => TickAction::Idle,
            FlushResult::TooShort => TickAction::DiscardedShort,
            FlushResult::Utterance(samples) => {
                if !whisper.is_initialized {
                    return TickAction::SttUnavailable;
                }
                match &whisper.model_path {
                    None => TickAction::SttUnavailable,
                    Some(path) => {
                        if self.request_count < u32::MAX {
                            self.request_count = self.request_count + 1;
                        }
                        self.stage = Stage::Transcribing;
                        TickAction::Transcribe {
                            samples,
                            model_path: path.clone(),
                            language: whisper.language.clone(),
                        }
                    },
                }
            },
        }
    }

    /// Takes the transcription's outcome. A failure drops the utterance and
    /// returns to listening — the analysis stage is never entered for a
    /// failed transcription. A blank transcript skips analysis. Without a
    /// usable API key the utterance is dropped with an authentication error.
    /// Otherwise the transcript enters the analysis stage.
    pub fn on_transcription(
        &mut self,
        result: Result<TranscriptionResult, String>,
        gemini: &GeminiState,
    ) -> (a: AfterTranscription)
        requires
            old(self).wf(),
            old(self).stage is Transcribing,
        ensures
            final(self).wf(),
            final(self).segmenter == old(self).segmenter,
            final(self).limiter == old(self).limiter,
            final(self).request_count == old(self).request_count,
            (result matches Err(e) ==> (final(self).stage is Listening && (
            a matches AfterTranscription::SttFailed { error } && error == e))),
            (result matches Ok(t) ==> {
                &&& (all_space(t.text@) ==> (final(self).stage is Listening && (a
                    matches AfterTranscription::NothingToAnalyze { transcription } && transcription
                    == t)))
                &&& (!all_space(t.text@) && !has_api_key(*gemini) ==> (final(self).stage
                    is Listening && (a
                    matches AfterTranscription::MissingCredentials { transcription }
                    && transcription == t)))
                &&& (!all_space(t.text@) && has_api_key(*gemini) ==> ((final(self).stage
                    matches Stage::Analyzing { transcript } && transcript == t.text) && (a
                    matches AfterTranscription::StartAnalysis { transcription, prompt }
                    && transcription == t && prompt@ == "Analyze this meeting transcript:\n\n"@
                    + t.text@)))
            }),
    {
        let t = match result {
            Err(error) => {
                self.stage = Stage::Listening;
                return AfterTranscription::SttFailed { error };
            },
            Ok(t) => t,
        };
        if is_blank(t.text.as_str()) {
            self.stage = Stage::Listening;
            return AfterTranscription::NothingToAnalyze { transcription: t };
        }
        let key_usable = match &gemini.api_key {
            None => false,
            Some(k) => !k.as_str().is_empty(),
        };
        if !key_usable {
            self.stage = Stage::Listening;
            return AfterTranscription::MissingCredentials { transcription: t };
        }
        let prompt = analysis_prompt(t.text.as_str());
        self.stage = Stage::Analyzing { transcript: t.text.clone() };
        AfterTranscription::StartAnalysis { transcription: t, prompt }
    }

    /// Concludes the in-flight utterance from the analysis response and
    /// returns to listening. Exactly one record comes out, and it carries the
    /// in-flight transcript, whatever happened: a successful analysis
    /// delivers the service's text; every failure delivers a stand-in built
    /// from the transcript, an error code, and a cooldown. The backoff moves
    /// per the asymmetric policy: escalated on quota pressure, cleared on any
    /// other classified response, untouched on transport failure or an
    /// unreadable body.
    pub fn on_analysis_response(&mut self, event: HttpEvent, now_ms: u64) -> (c:
        AnalysisConclusion)
        requires
            old(self).wf(),
            old(self).stage is Analyzing,
        ensures
            final(self).wf(),
            final(self).stage is Listening,
            final(self).segmenter == old(self).segmenter,
            final(self).request_count == old(self).request_count,
            final(self).limiter.last_request_at_ms == old(self).limiter.last_request_at_ms,
            concluded_record(c).transcript@ == in_flight_transcript(old(self).stage),
            concluded_record(c).speaker is None,
            concluded_record(c).timestamp_ms == now_ms,
            (c matches AnalysisConclusion::Fallback { record, error_code, cooldown_ms, .. } ==> (
            record.intelligence@ == fallback_intelligence_spec(
                in_flight_transcript(old(self).stage),
            ) && cooldown_ms == ERROR_COOLDOWN_MS)),
            (event matches HttpEvent::TransportFailed { error } ==> (final(self).limiter == old(
                self).limiter && (c
                matches AnalysisConclusion::Fallback { error_code, message, .. } && error_code
                == 500 && message == error))),
            (event matches HttpEvent::Response { status, body } ==> analysis_moves(
                status,
                body@,
                old(self).limiter.backoff_secs as int,
                final(self).limiter.backoff_secs as int,
                c,
            )),
    {
        let mut taken = Stage::Listening;
        core::mem::swap(&mut taken, &mut self.stage);
        let transcript = match taken {
            Stage::Analyzing { transcript } => transcript,
            _ => String::new(),
        };
        conclude_analysis(transcript, None, event, &mut self.limiter, now_ms)
    }
}

/// Concludes one analysis request for a transcript: classifies the response,
/// moves the backoff per the asymmetric policy, and always yields exactly one
/// record carrying the transcript and the speaker — a successful analysis
/// delivers the service's text; every failure delivers a stand-in built from
/// the transcript, with the error code and message it is reported under and a
/// cooldown. The live loop reaches this through `on_analysis_response`; the
/// one-shot transcript command calls it directly.
pub fn conclude_analysis(
    transcript: String,
    speaker: Option<String>,
    event: HttpEvent,
    limiter: &mut RateLimiter,
    now_ms: u64,
) -> (c: AnalysisConclusion)
    requires
        old(limiter).wf(),
    ensures
        final(limiter).wf(),
        final(limiter).last_request_at_ms == old(limiter).last_request_at_ms,
        concluded_record(c).transcript == transcript,
        concluded_record(c).speaker == speaker,
        concluded_record(c).timestamp_ms == now_ms,
        (c matches AnalysisConclusion::Fallback { record, cooldown_ms, .. } ==> (
        record.intelligence@ == fallback_intelligence_spec(transcript@) && cooldown_ms
            == ERROR_COOLDOWN_MS)),
        (event matches HttpEvent::TransportFailed { error } ==> (*final(limiter) == *old(limiter)
            && (c matches AnalysisConclusion::Fallback { error_code, message, .. } && error_code
            == 500 && message == error))),
        (event matches HttpEvent::Response { status, body } ==> analysis_moves(
            status,
            body@,
            old(limiter).backoff_secs as int,
            final(limiter).backoff_secs as int,
            c,
        )),
{
    match event {
        HttpEvent::TransportFailed { error } => {
            let intelligence = fallback_intelligence(transcript.as_str());
            let record = IntelligenceRecord { transcript, speaker, intelligence, timestamp_ms: now_ms };
            AnalysisConclusion::Fallback {
                record,
                error_code: 500,
                message: error,
                cooldown_ms: ERROR_COOLDOWN_MS,
            }
        },
        HttpEvent::Response { status, body } => {
            let outcome = classify_response(status, body.as_str(), limiter);
            match outcome {
                AnalysisOutcome::Analysis { text } => {
                    let record = IntelligenceRecord {
                        transcript,
                        speaker,
                        intelligence: text,
                        timestamp_ms: now_ms,
                    };
                    AnalysisConclusion::Delivered { record }
                },
                other => {
                    let error_code = failure_code(&other);
                    let message = failure_message(other);
                    let intelligence = fallback_intelligence(transcript.as_str());
                    let record = IntelligenceRecord {
                        transcript,
                        speaker,
                        intelligence,
                        timestamp_ms: now_ms,
                    };
                    AnalysisConclusion::Fallback {
                        record,
                        error_code,
                        message,
                        cooldown_ms: ERROR_COOLDOWN_MS,
                    }
                },
            }
        },
    }
}

/// The message a failed analysis outcome is reported with, as the original
/// error strings word it.
fn failure_message(outcome: AnalysisOutcome) -> (m: String)
    ensures
        (outcome matches AnalysisOutcome::RateLimited { backoff_secs } ==> m@
            == "Rate limited. Waiting "@ + dec_str(backoff_secs as nat) + "s before retry."@),
        (outcome matches AnalysisOutcome::ApiError { message } ==> m@ == "API: "@ + message@),
        (outcome matches AnalysisOutcome::ParseError { body_prefix } ==> m@
            == "Failed to parse API response: "@ + body_prefix@),
        (outcome matches AnalysisOutcome::Analysis { .. } ==> m@ == "OK"@),
{
    match outcome {
        AnalysisOutcome::RateLimited { backoff_secs } => {
            let n = u64_to_dec(backoff_secs);
            String::from_str("Rate limited. Waiting ").concat(n.as_str()).concat(
                "s before retry.",
            )
        },
        AnalysisOutcome::ApiError { message } => String::from_str("API: ").concat(
            message.as_str(),
        ),
        AnalysisOutcome::ParseError { body_prefix } => String::from_str(
            "Failed to parse API response: ",
        ).concat(body_prefix.as_str()),
        AnalysisOutcome::Analysis { .. } => String::from_str("OK"),
    }
}

/// Prepares a one-shot analysis of an already transcribed text, as used when
/// a transcript is handed in directly rather than by the live pipeline:
/// demands a configured API key and builds the prompt and the endpoint for
/// the selected model.
pub fn prepare_transcript_analysis(gemini: &GeminiState, transcript: &str) -> (r: Result<
    (String, String),
    String,
>)
    ensures
        (gemini.api_key is None ==> (r matches Err(e) && e@ == "No API key configured"@)),
        (gemini.api_key matches Some(key) ==> (r matches Ok(p) && p.0@
            == "Analyze this meeting transcript:\n\n"@ + transcript@ && p.1@
            == "https://generativelanguage.googleapis.com/v1beta/models/"@
            + gemini.selected_model@ + ":generateContent?key="@ + key@)),
{
    match &gemini.api_key {
        None => Err(String::from_str("No API key configured")),
        Some(key) => {
            let prompt = analysis_prompt(transcript);
            let url = request_url(gemini.selected_model.as_str(), key.as_str());
            Ok((prompt, url))
        },
    }
}

/// A usable API key is present and non-empty.
pub open spec fn has_api_key(g: GeminiState) -> bool {
    g.api_key is Some && g.api_key->0@.len() > 0
}

/// How an analysis response moves the backoff and concludes the utterance:
/// quota pressure escalates the backoff and falls back with code 429; a
/// structured error clears the backoff and falls back with code 500; an
/// unreadable body leaves the backoff alone and falls back with code 500;
/// anything the service answered text for is delivered and clears the
/// backoff. Each fallback carries the message its failure is reported with.
pub open spec fn analysis_moves(
    status: u16,
    body: Seq<char>,
    old_backoff: int,
    new_backoff: int,
    c: AnalysisConclusion,
) -> bool {
    if is_rate_limited_response(status, body) {
        &&& new_backoff == next_backoff(old_backoff)
        &&& (c matches AnalysisConclusion::Fallback { error_code, message, .. } && error_code
            == 429 && message@ == "Rate limited. Waiting "@ + dec_str(new_backoff as nat)
            + "s before retry."@)
    } else {
        match parsed_body_of(body) {
            BodyPayloadView::NotJson => {
                &&& new_backoff == old_backoff
                &&& (c matches AnalysisConclusion::Fallback { error_code, message, .. }
                    && error_code == 500 && message@ == "Failed to parse API response: "@
                    + clip_spec(body, REPORTED_BODY_CHARS as int))
            },
            BodyPayloadView::ErrorPayload { message: payload_message } => {
                &&& new_backoff == 0
                &&& (c matches AnalysisConclusion::Fallback { error_code, message, .. }
                    && error_code == 500 && message@ == "API: "@ + payload_message)
            },
            BodyPayloadView::CandidateText { text } => {
                &&& new_backoff == 0
                &&& (c matches AnalysisConclusion::Delivered { record } && record.intelligence@
                    == text)
            },
            BodyPayloadView::NoText => {
                &&& new_backoff == 0
                &&& (c matches AnalysisConclusion::Delivered { record } && record.intelligence@
                    == no_text_intelligence())
            },
        }
    }
}

} // verus!
