use cognivox::config::{GeminiState, WhisperState, ERROR_COOLDOWN_MS, MAX_BATCH_SAMPLES};
use cognivox::limiter::RateLimiter;
use cognivox::pipeline::{
    conclude_analysis, AfterTranscription, AnalysisConclusion, HttpEvent, Pipeline, TickAction,
};
use cognivox::stt::TranscriptionResult;

fn ready_whisper() -> WhisperState {
    let mut w = WhisperState::default();
    w.mark_initialized(String::from("/models/ggml-base.bin"));
    w
}

fn keyed_gemini() -> GeminiState {
    let mut g = GeminiState::default();
    g.api_key = Some(String::from("test-key"));
    g
}

fn transcription(text: &str) -> TranscriptionResult {
    TranscriptionResult {
        text: String::from(text),
        language: String::from("en"),
        confidence_milli: 850,
    }
}

/// Drives speech into the pipeline and returns the samples of the one
/// transcription action it produces, with the tick it was produced at.
fn speak_until_flush(
    p: &mut Pipeline,
    w: &WhisperState,
    speech_ms: u64,
    total_ms: u64,
) -> Vec<(u64, Vec<i32>)> {
    let mut flushed = Vec::new();
    let mut t = 0u64;
    while t <= total_ms {
        if t < speech_ms {
            p.absorb_audio(t, &vec![1000i32; 800]);
        }
        match p.poll_tick(t, w) {
            TickAction::Transcribe { samples, .. } => flushed.push((t, samples)),
            TickAction::Idle => {}
            TickAction::DiscardedShort => {}
            TickAction::SttUnavailable => {}
        }
        t += 50;
    }
    flushed
}

#[test]
fn short_speech_then_silence_flushes_one_utterance() {
    // 0.6 s of speech followed by quiet: exactly one utterance comes out,
    // holding exactly the 0.6 s of speech, and the engine is asked once.
    let mut p = Pipeline::new(0);
    let w = ready_whisper();
    let flushed = speak_until_flush(&mut p, &w, 600, 4000);
    assert_eq!(flushed.len(), 1);
    let (t, samples) = &flushed[0];
    // Readiness: speech ended at 550 ms, silence timeout passes at 2050 ms.
    assert_eq!(*t, 2050);
    assert_eq!(samples.len(), 9600);
    assert_eq!(p.request_count, 1);
}

#[test]
fn continuous_speech_is_cut_at_the_batch_cap() {
    // 16 s of uninterrupted speech: the utterance is force-flushed at 15 s
    // without waiting for silence.
    let mut p = Pipeline::new(0);
    let w = ready_whisper();
    let flushed = speak_until_flush(&mut p, &w, 16000, 15000);
    assert_eq!(flushed.len(), 1);
    let (t, samples) = &flushed[0];
    assert_eq!(*t, 15000);
    assert_eq!(samples.len(), MAX_BATCH_SAMPLES);
}

#[test]
fn sub_minimum_utterance_never_reaches_transcription() {
    // 0.3 s of speech: discarded at flush time; no transcription is started.
    let mut p = Pipeline::new(0);
    let w = ready_whisper();
    let mut t = 0u64;
    let mut discards = 0;
    let mut transcriptions = 0;
    while t <= 4000 {
        if t < 300 {
            p.absorb_audio(t, &vec![1000i32; 800]);
        }
        match p.poll_tick(t, &w) {
            TickAction::DiscardedShort => discards += 1,
            TickAction::Transcribe { .. } => transcriptions += 1,
            _ => {}
        }
        t += 50;
    }
    assert_eq!(discards, 1);
    assert_eq!(transcriptions, 0);
    assert_eq!(p.request_count, 0);
}

#[test]
fn utterance_is_dropped_when_engine_is_not_ready() {
    let mut p = Pipeline::new(0);
    let w = WhisperState::default();
    let mut t = 0u64;
    let mut unavailable = 0;
    while t <= 4000 {
        if t < 600 {
            p.absorb_audio(t, &vec![1000i32; 800]);
        }
        match p.poll_tick(t, &w) {
            TickAction::SttUnavailable => unavailable += 1,
            TickAction::Transcribe { .. } => panic!("engine is not ready"),
            _ => {}
        }
        t += 50;
    }
    assert_eq!(unavailable, 1);
    assert_eq!(p.request_count, 0);
}

#[test]
fn no_new_transcription_while_one_is_in_flight() {
    // While an utterance is being transcribed, new speech keeps buffering but
    // no second transcription starts.
    let mut p = Pipeline::new(0);
    let w = ready_whisper();
    let flushed = speak_until_flush(&mut p, &w, 600, 2050);
    assert_eq!(flushed.len(), 1);
    // In flight now. More speech arrives and completes; the tick stays idle.
    let mut t = 2100u64;
    while t <= 6000 {
        if t < 2700 {
            p.absorb_audio(t, &vec![1000i32; 800]);
        }
        assert!(matches!(p.poll_tick(t, &w), TickAction::Idle));
        t += 50;
    }
    // The buffered speech was not dropped.
    assert!(p.segmenter.buffer.len() >= 9600);
    // Once the in-flight utterance concludes, the buffered one comes out.
    match p.on_transcription(Ok(transcription("first")), &keyed_gemini()) {
        AfterTranscription::StartAnalysis { .. } => {}
        _ => panic!("expected the analysis stage"),
    }
    p.on_analysis_response(
        HttpEvent::Response {
            status: 200,
            body: String::from(
                "{\"candidates\":[{\"content\":{\"parts\":[{\"text\":\"ok\"}]}}]}",
            ),
        },
        6000,
    );
    match p.poll_tick(6050, &w) {
        TickAction::Transcribe { samples, .. } => assert!(samples.len() >= 9600),
        _ => panic!("the buffered utterance must be flushed after the first concludes"),
    }
    assert_eq!(p.request_count, 2);
}

#[test]
fn transcription_failure_never_starts_analysis() {
    let mut p = Pipeline::new(0);
    let w = ready_whisper();
    speak_until_flush(&mut p, &w, 600, 2050);
    match p.on_transcription(Err(String::from("engine error")), &keyed_gemini()) {
        AfterTranscription::SttFailed { error } => assert_eq!(error, "engine error"),
        _ => panic!("a failed transcription must not go further"),
    }
    // The pipeline is listening again; nothing is in the analysis stage.
    assert!(matches!(p.poll_tick(2100, &w), TickAction::Idle));
}

#[test]
fn blank_transcript_skips_analysis() {
    let mut p = Pipeline::new(0);
    let w = ready_whisper();
    speak_until_flush(&mut p, &w, 600, 2050);
    match p.on_transcription(Ok(transcription("  \t\n")), &keyed_gemini()) {
        AfterTranscription::NothingToAnalyze { .. } => {}
        _ => panic!("a blank transcript has nothing to analyze"),
    }
}

#[test]
fn missing_key_drops_the_utterance_with_an_auth_error() {
    let mut p = Pipeline::new(0);
    let w = ready_whisper();
    speak_until_flush(&mut p, &w, 600, 2050);
    match p.on_transcription(Ok(transcription("hello")), &GeminiState::default()) {
        AfterTranscription::MissingCredentials { .. } => {}
        _ => panic!("no key means no analysis"),
    }
    // An empty key counts as missing too.
    speak_until_flush(&mut p, &w, 600, 2050);
    let mut g = GeminiState::default();
    g.api_key = Some(String::new());
    match p.on_transcription(Ok(transcription("hello")), &g) {
        AfterTranscription::MissingCredentials { .. } => {}
        _ => panic!("an empty key means no analysis"),
    }
}

#[test]
fn successful_analysis_delivers_the_record() {
    let mut p = Pipeline::new(0);
    let w = ready_whisper();
    speak_until_flush(&mut p, &w, 600, 2050);
    match p.on_transcription(Ok(transcription("hello world")), &keyed_gemini()) {
        AfterTranscription::StartAnalysis { prompt, .. } => {
            assert_eq!(prompt, "Analyze this meeting transcript:\n\nhello world");
        }
        _ => panic!("expected the analysis stage"),
    }
    let body = "{\"candidates\":[{\"content\":{\"parts\":[{\"text\":\"{\\\"tone\\\":\\\"NEUTRAL\\\"}\"}]}}]}";
    match p.on_analysis_response(
        HttpEvent::Response { status: 200, body: String::from(body) },
        9000,
    ) {
        AnalysisConclusion::Delivered { record } => {
            assert_eq!(record.transcript, "hello world");
            assert_eq!(record.intelligence, "{\"tone\":\"NEUTRAL\"}");
            assert_eq!(record.speaker, None);
            assert_eq!(record.timestamp_ms, 9000);
        }
        _ => panic!("a successful analysis must deliver the record"),
    }
}

#[test]
fn parsed_body_without_text_still_delivers() {
    // The service answered without extractable text: a neutral low-confidence
    // stand-in is delivered instead of an error.
    let mut p = Pipeline::new(0);
    let w = ready_whisper();
    speak_until_flush(&mut p, &w, 600, 2050);
    p.on_transcription(Ok(transcription("anything")), &keyed_gemini());
    match p.on_analysis_response(
        HttpEvent::Response { status: 200, body: String::from("{\"candidates\":[]}") },
        9000,
    ) {
        AnalysisConclusion::Delivered { record } => {
            assert_eq!(record.transcript, "anything");
            assert_eq!(
                record.intelligence,
                "{\"transcript\":\"\",\"tone\":\"NEUTRAL\",\"category\":[\"INFO\"],\"confidence\":0.3}"
            );
        }
        _ => panic!("a parsed body without text must still deliver"),
    }
    assert_eq!(p.limiter.backoff_secs, 0);
}

#[test]
fn failed_analysis_still_delivers_the_transcript() {
    // An analysis failure for a non-empty transcript still produces exactly
    // one record carrying that transcript.
    let mut p = Pipeline::new(0);
    let w = ready_whisper();
    speak_until_flush(&mut p, &w, 600, 2050);
    match p.on_transcription(Ok(transcription("do not lose me")), &keyed_gemini()) {
        AfterTranscription::StartAnalysis { .. } => {}
        _ => panic!("expected the analysis stage"),
    }
    match p.on_analysis_response(
        HttpEvent::Response { status: 500, body: String::from("<broken>") },
        9000,
    ) {
        AnalysisConclusion::Fallback { record, error_code, message, cooldown_ms } => {
            assert_eq!(record.transcript, "do not lose me");
            assert_eq!(
                record.intelligence,
                "{\"transcript\":\"do not lose me\",\"tone\":\"NEUTRAL\",\"category\":[\"INFO\"],\"confidence\":0.5}"
            );
            assert_eq!(error_code, 500);
            assert_eq!(message, "Failed to parse API response: <broken>");
            assert_eq!(cooldown_ms, ERROR_COOLDOWN_MS);
        }
        _ => panic!("a failed analysis must fall back, not drop the transcript"),
    }
}

#[test]
fn transport_failure_still_delivers_the_transcript() {
    let mut p = Pipeline::new(0);
    let w = ready_whisper();
    speak_until_flush(&mut p, &w, 600, 2050);
    p.on_transcription(Ok(transcription("kept \"quoted\"\ntext")), &keyed_gemini());
    let backoff_before = p.limiter.backoff_secs;
    match p.on_analysis_response(
        HttpEvent::TransportFailed { error: String::from("timeout") },
        9000,
    ) {
        AnalysisConclusion::Fallback { record, error_code, message, .. } => {
            assert_eq!(record.transcript, "kept \"quoted\"\ntext");
            assert_eq!(message, "timeout");
            // Quotes and line breaks are sanitized inside the stand-in payload.
            assert_eq!(
                record.intelligence,
                "{\"transcript\":\"kept 'quoted' text\",\"tone\":\"NEUTRAL\",\"category\":[\"INFO\"],\"confidence\":0.5}"
            );
            assert_eq!(error_code, 500);
        }
        _ => panic!("a transport failure must fall back"),
    }
    assert_eq!(p.limiter.backoff_secs, backoff_before);
}

#[test]
fn one_shot_analysis_failure_still_delivers_the_transcript() {
    // The one-shot conclusion path: even when the service answers with an
    // error payload, exactly one record carrying the transcript and the
    // speaker comes out, with the worded message and code.
    let mut limiter = RateLimiter::new(1000);
    match conclude_analysis(
        String::from("dictated note"),
        Some(String::from("Speaker 1")),
        HttpEvent::Response {
            status: 200,
            body: String::from("{\"error\":{\"message\":\"boom\",\"code\":400}}"),
        },
        &mut limiter,
        7000,
    ) {
        AnalysisConclusion::Fallback { record, error_code, message, .. } => {
            assert_eq!(record.transcript, "dictated note");
            assert_eq!(record.speaker, Some(String::from("Speaker 1")));
            assert_eq!(
                record.intelligence,
                "{\"transcript\":\"dictated note\",\"tone\":\"NEUTRAL\",\"category\":[\"INFO\"],\"confidence\":0.5}"
            );
            assert_eq!(record.timestamp_ms, 7000);
            assert_eq!(error_code, 500);
            assert_eq!(message, "API: boom");
        }
        _ => panic!("an error payload must fall back, not drop the transcript"),
    }
    assert_eq!(limiter.backoff_secs, 0);

    // And a successful one-shot delivers the service's text with the speaker.
    match conclude_analysis(
        String::from("dictated note"),
        Some(String::from("Speaker 1")),
        HttpEvent::Response {
            status: 200,
            body: String::from("{\"candidates\":[{\"content\":{\"parts\":[{\"text\":\"insight\"}]}}]}"),
        },
        &mut limiter,
        8000,
    ) {
        AnalysisConclusion::Delivered { record } => {
            assert_eq!(record.transcript, "dictated note");
            assert_eq!(record.speaker, Some(String::from("Speaker 1")));
            assert_eq!(record.intelligence, "insight");
        }
        _ => panic!("a successful analysis must deliver"),
    }
}

#[test]
fn three_quota_exhausted_responses_escalate_the_backoff() {
    // Backoff sequence 3 s, 6 s, 12 s over three rate-limited conclusions.
    let mut p = Pipeline::new(0);
    let w = ready_whisper();
    let gemini = keyed_gemini();
    let mut expected = [3u64, 6, 12].into_iter();
    for round in 0..3u64 {
        let base = round * 10000;
        let mut t = base;
        while t <= base + 2050 {
            if t < base + 600 {
                p.absorb_audio(t, &vec![1000i32; 800]);
            }
            p.poll_tick(t, &w);
            t += 50;
        }
        match p.on_transcription(Ok(transcription("again")), &gemini) {
            AfterTranscription::StartAnalysis { .. } => {}
            _ => panic!("expected the analysis stage"),
        }
        match p.on_analysis_response(
            HttpEvent::Response { status: 429, body: String::from("quota") },
            base + 3000,
        ) {
            AnalysisConclusion::Fallback { error_code, message, .. } => {
                assert_eq!(error_code, 429);
                assert_eq!(
                    message,
                    format!("Rate limited. Waiting {}s before retry.", [3, 6, 12][round as usize])
                );
            }
            _ => panic!("a rate-limited analysis must fall back"),
        }
        assert_eq!(p.limiter.backoff_secs, expected.next().unwrap());
    }
}
