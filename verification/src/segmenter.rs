//! Speech segmentation: classifies incoming audio chunks by amplitude,
//! accumulates a bounded utterance buffer while speech is running, and decides
//! when the buffered utterance is complete or must be force-flushed.
//!
//! A chunk counts as speech when its root-mean-square amplitude exceeds
//! `SPEECH_THRESHOLD`. To stay in integers, the comparison `rms(chunk) > t` is
//! made as `sum of squares > len * t * t`, which is equivalent for a
//! non-negative threshold.

use vstd::prelude::*;
use crate::config::{
    MAX_BATCH_MS,
    MAX_BATCH_SAMPLES,
    MIN_SPEECH_MS,
    MIN_SPEECH_SAMPLES,
    SILENCE_THRESHOLD,
    SILENCE_TIMEOUT_MS,
    SPEECH_THRESHOLD,
};

verus! {

/// How loud a chunk is, relative to the two amplitude thresholds.
#[derive(PartialEq, Eq, Structural, Clone, Copy, Debug)]
pub enum LevelClass {
    /// Above the speech threshold: speech is happening.
    Speech,
    /// Between the two thresholds: a soft continuation of running speech.
    Soft,
    /// At or below the silence threshold.
    Silence,
}

/// Sum of the squares of the samples.
pub open spec fn sum_squares(s: Seq<i32>) -> int
    decreases s.len(),
{
    if s.len() == 0 {
        0
    } else {
        sum_squares(s.drop_last()) + s.last() * s.last()
    }
}

/// The root-mean-square amplitude of the chunk exceeds the threshold:
/// `sqrt(sum/len) > t`, stated over integers as `sum > len * t * t`.
/// An empty chunk exceeds nothing.
pub open spec fn exceeds_threshold(s: Seq<i32>, t: int) -> bool {
    sum_squares(s) > s.len() * t * t
}

/// Which side of the thresholds the chunk's amplitude falls on.
pub open spec fn chunk_class(s: Seq<i32>) -> LevelClass {
    if exceeds_threshold(s, SPEECH_THRESHOLD as int) {
        LevelClass::Speech
    } else if exceeds_threshold(s, SILENCE_THRESHOLD as int) {
        LevelClass::Soft
    } else {
        LevelClass::Silence
    }
}

/// A square of an `i32` is non-negative and bounded.
proof fn lemma_square_bounds(v: int)
    requires
        -0x80000000 <= v <= 0x7fffffff,
    ensures
        0 <= v * v <= 0x4000000000000000,
{
    assert(0 <= v * v <= 0x4000000000000000) by (nonlinear_arith)
        requires
            -0x80000000 <= v <= 0x7fffffff,
    ;
}

/// Adds up the squares of the samples.
fn sum_of_squares(chunk: &Vec<i32>) -> (total: u128)
    ensures
        total == sum_squares(chunk@),
{
    let mut total: u128 = 0;
    let mut i: usize = 0;
    while i < chunk.len()
        invariant
            i <= chunk@.len(),
            total == sum_squares(chunk@.subrange(0, i as int)),
            total <= i * 0x4000000000000000,
        decreases chunk@.len() - i,
    {
        let v = chunk[i];
        proof {
            lemma_square_bounds(v as int);
            assert(chunk@.subrange(0, i + 1).drop_last() =~= chunk@.subrange(0, i as int));
        }
        let sq = (v as i64) * (v as i64);
        total = total + (sq as u128);
        i = i + 1;
    }
    proof {
        assert(chunk@.subrange(0, chunk@.len() as int) =~= chunk@);
    }
    total
}

/// Classifies a chunk against the speech and silence thresholds.
pub fn classify_chunk(chunk: &Vec<i32>) -> (c: LevelClass)
    ensures
        c == chunk_class(chunk@),
{
    let total = sum_of_squares(chunk);
    let n = chunk.len() as u128;
    proof {
        assert(n < 0x10000000000000000u128);
    }
    if total > n * (SPEECH_THRESHOLD as u128) * (SPEECH_THRESHOLD as u128) {
        LevelClass::Speech
    } else if total > n * (SILENCE_THRESHOLD as u128) * (SILENCE_THRESHOLD as u128) {
        LevelClass::Soft
    } else {
        LevelClass::Silence
    }
}

/// The buffer with just enough of its oldest samples dropped to fit the cap.
pub open spec fn trim_to_cap(buf: Seq<i32>) -> Seq<i32> {
    if buf.len() <= MAX_BATCH_SAMPLES {
        buf
    } else {
        buf.subrange(buf.len() - MAX_BATCH_SAMPLES, buf.len() as int)
    }
}

/// Trimming keeps the cap and drops only the oldest samples: what remains is
/// a suffix of the input ending at its last sample.
pub proof fn lemma_overflow_drops_oldest(buf: Seq<i32>)
    ensures
        trim_to_cap(buf).len() <= MAX_BATCH_SAMPLES,
        trim_to_cap(buf) == buf.subrange(buf.len() - trim_to_cap(buf).len(), buf.len() as int),
{
    if buf.len() <= MAX_BATCH_SAMPLES {
        assert(buf.subrange(0, buf.len() as int) =~= buf);
    }
}

/// How one arriving chunk moves the segmenter from `pre` to `post`.
///
/// A speech-level chunk starts or continues the utterance and refreshes the
/// last-speech stamp; a soft chunk continues running speech and refreshes the
/// stamp; a silent chunk is retained inside a running utterance (trailing
/// silence belongs to it) without refreshing the stamp; anything heard while
/// idle and below the speech threshold is discarded. Whenever the chunk is
/// kept, the buffer is the old buffer plus the chunk, trimmed to the cap.
pub open spec fn absorbs(pre: Segmenter, post: Segmenter, chunk: Seq<i32>, now_ms: u64) -> bool {
    if chunk_class(chunk) is Speech {
        &&& post.speaking
        &&& post.speech_started_at == (if pre.speaking {
            pre.speech_started_at
        } else {
            Some(now_ms)
        })
        &&& post.last_speech_at == Some(now_ms)
        &&& post.buffer@ == trim_to_cap(pre.buffer@ + chunk)
    } else if pre.speaking {
        &&& post.speaking
        &&& post.speech_started_at == pre.speech_started_at
        &&& post.last_speech_at == (if chunk_class(chunk) is Soft {
            Some(now_ms)
        } else {
            pre.last_speech_at
        })
        &&& post.buffer@ == trim_to_cap(pre.buffer@ + chunk)
    } else {
        post == pre
    }
}

/// What happened when the segmenter was polled for a finished utterance.
pub enum FlushResult {
    /// No utterance is ready yet.
    NotReady,
    /// An utterance ended but was shorter than `MIN_SPEECH_SAMPLES`; it was
    /// discarded as noise.
    TooShort,
    /// A finished utterance, handed out for transcription.
    Utterance(Vec<i32>),
}

/// Accumulates speech into one utterance at a time.
///
/// Timestamps are monotonic milliseconds supplied by the caller; both are
/// present exactly while speech is running.
pub struct Segmenter {
    /// Samples of the utterance being accumulated.
    pub buffer: Vec<i32>,
    /// Whether speech is currently running.
    pub speaking: bool,
    /// When the running speech began.
    pub speech_started_at: Option<u64>,
    /// When speech was last heard (hard or soft).
    pub last_speech_at: Option<u64>,
}

impl Segmenter {
    /// Structural invariant: the buffer respects the cap, the timestamps are
    /// present exactly while speaking and are ordered, and an idle segmenter
    /// holds no samples.
    pub open spec fn wf(&self) -> bool {
        &&& self.buffer@.len() <= MAX_BATCH_SAMPLES
        &&& (self.speaking <==> self.speech_started_at is Some)
        &&& (self.speaking <==> self.last_speech_at is Some)
        &&& (self.speaking ==> self.speech_started_at->0 <= self.last_speech_at->0)
        &&& (!self.speaking ==> self.buffer@.len() == 0)
    }

    /// The timestamps do not lie in the caller's future.
    pub open spec fn stamps_le(&self, now_ms: u64) -> bool {
        self.speaking ==> self.last_speech_at->0 <= now_ms
    }

    /// Idle: no speech running, nothing buffered.
    pub open spec fn is_idle(&self) -> bool {
        &&& !self.speaking
        &&& self.buffer@.len() == 0
        &&& self.speech_started_at is None
        &&& self.last_speech_at is None
    }

    /// The buffered utterance is complete: speech is running, something is
    /// buffered, and either the utterance is old enough and silence has
    /// lasted long enough, or the utterance has hit the batch cap.
    pub open spec fn ready(&self, now_ms: u64) -> bool {
        &&& self.speaking
        &&& self.buffer@.len() > 0
        &&& ({
            let started = self.speech_started_at->0;
            let last = self.last_speech_at->0;
            ||| (now_ms - started >= MIN_SPEECH_MS && now_ms - last >= SILENCE_TIMEOUT_MS)
            ||| now_ms - started >= MAX_BATCH_MS
        })
    }

    /// A segmenter that has heard nothing.
    pub fn new() -> (s: Self)
        ensures
            s.wf(),
            s.is_idle(),
    {
        Segmenter { buffer: Vec::new(), speaking: false, speech_started_at: None, last_speech_at: None }
    }

    /// Drops the oldest samples if the buffer has outgrown the cap.
    fn enforce_cap(&mut self)
        ensures
            final(self).buffer@ == trim_to_cap(old(self).buffer@),
            final(self).speaking == old(self).speaking,
            final(self).speech_started_at == old(self).speech_started_at,
            final(self).last_speech_at == old(self).last_speech_at,
    {
        if self.buffer.len() > MAX_BATCH_SAMPLES {
            let excess = self.buffer.len() - MAX_BATCH_SAMPLES;
            let mut kept: Vec<i32> = Vec::new();
            let mut i: usize = excess;
            while i < self.buffer.len()
                invariant
                    excess <= i <= self.buffer@.len(),
                    excess == self.buffer@.len() - MAX_BATCH_SAMPLES,
                    self.buffer@.len() > MAX_BATCH_SAMPLES,
                    kept@ == self.buffer@.subrange(excess as int, i as int),
                decreases self.buffer@.len() - i,
            {
                let v = self.buffer[i];
                kept.push(v);
                proof {
                    assert(self.buffer@.subrange(excess as int, i + 1) =~= self.buffer@.subrange(
                        excess as int,
                        i as int,
                    ).push(self.buffer@[i as int]));
                }
                i = i + 1;
            }
            self.buffer = kept;
        }
    }

    /// Appends the whole chunk to the buffer, then enforces the cap.
    fn append_chunk(&mut self, chunk: &Vec<i32>)
        ensures
            final(self).buffer@ == trim_to_cap(old(self).buffer@ + chunk@),
            final(self).speaking == old(self).speaking,
            final(self).speech_started_at == old(self).speech_started_at,
            final(self).last_speech_at == old(self).last_speech_at,
    {
        let ghost orig = self.buffer@;
        let mut i: usize = 0;
        while i < chunk.len()
            invariant
                i <= chunk@.len(),
                self.buffer@ == orig + chunk@.subrange(0, i as int),
                self.speaking == old(self).speaking,
                self.speech_started_at == old(self).speech_started_at,
                self.last_speech_at == old(self).last_speech_at,
                orig == old(self).buffer@,
            decreases chunk@.len() - i,
        {
            let v = chunk[i];
            self.buffer.push(v);
            proof {
                assert(orig + chunk@.subrange(0, i + 1) =~= (orig + chunk@.subrange(0, i as int)).push(
                    chunk@[i as int],
                ));
            }
            i = i + 1;
        }
        proof {
            assert(orig + chunk@.subrange(0, chunk@.len() as int) =~= orig + chunk@);
        }
        self.enforce_cap();
    }

    /// Feeds one newly arrived chunk into the segmenter: the implementation
    /// of the `absorbs` transition.
    pub fn absorb_chunk(&mut self, now_ms: u64, chunk: &Vec<i32>)
        requires
            old(self).wf(),
            old(self).stamps_le(now_ms),
        ensures
            final(self).wf(),
            final(self).stamps_le(now_ms),
            absorbs(*old(self), *final(self), chunk@, now_ms),
    {
        let class = classify_chunk(chunk);
        match class {
            LevelClass::Speech => {
                if !self.speaking {
                    self.speaking = true;
                    self.speech_started_at = Some(now_ms);
                }
                self.last_speech_at = Some(now_ms);
                self.append_chunk(chunk);
            },
            LevelClass::Soft => {
                if self.speaking {
                    self.last_speech_at = Some(now_ms);
                    self.append_chunk(chunk);
                }
            },
            LevelClass::Silence => {
                if self.speaking {
                    self.append_chunk(chunk);
                }
            },
        }
    }

    /// Whether the buffered utterance is complete, judged against the clock
    /// alone: no new chunk is needed for this to become true.
    pub fn utterance_ready(&self, now_ms: u64) -> (r: bool)
        requires
            self.wf(),
            self.stamps_le(now_ms),
        ensures
            r == self.ready(now_ms),
    {
        if !self.speaking {
            return false;
        }
        if self.buffer.len() == 0 {
            return false;
        }
        let started = self.speech_started_at.unwrap();
        let last = self.last_speech_at.unwrap();
        let duration = now_ms - started;
        let silence = now_ms - last;
        (duration >= MIN_SPEECH_MS && silence >= SILENCE_TIMEOUT_MS) || duration >= MAX_BATCH_MS
    }

    /// Flushes the utterance if it is complete. A completed utterance shorter
    /// than `MIN_SPEECH_SAMPLES` is discarded as noise; either way the
    /// segmenter returns to idle. An unfinished utterance is left untouched.
    pub fn poll(&mut self, now_ms: u64) -> (r: FlushResult)
        requires
            old(self).wf(),
            old(self).stamps_le(now_ms),
        ensures
            final(self).wf(),
            final(self).stamps_le(now_ms),
            (!old(self).ready(now_ms) ==> r is NotReady && *final(self) == *old(self)),
            (old(self).ready(now_ms) && old(self).buffer@.len() < MIN_SPEECH_SAMPLES ==> r
                is TooShort && final(self).is_idle()),
            (old(self).ready(now_ms) && old(self).buffer@.len() >= MIN_SPEECH_SAMPLES ==> (final(
                self).is_idle() && (r matches FlushResult::Utterance(u) && u@ == old(self).buffer@))),
    {
        if !self.utterance_ready(now_ms) {
            return FlushResult::NotReady;
        }
        self.speaking = false;
        self.speech_started_at = None;
        self.last_speech_at = None;
        let mut samples: Vec<i32> = Vec::new();
        core::mem::swap(&mut samples, &mut self.buffer);
        if samples.len() >= MIN_SPEECH_SAMPLES {
            FlushResult::Utterance(samples)
        } else {
            FlushResult::TooShort
        }
    }
}

/// Once the utterance has run at least `MIN_SPEECH_MS` and silence has lasted
/// at least `SILENCE_TIMEOUT_MS`, the readiness check reports the utterance
/// complete — no further chunk has to arrive for that to happen.
pub proof fn lemma_ready_without_new_audio(s: Segmenter, now_ms: u64)
    requires
        s.wf(),
        s.stamps_le(now_ms),
        s.speaking,
        s.buffer@.len() > 0,
        now_ms - s.speech_started_at->0 >= MIN_SPEECH_MS,
        now_ms - s.last_speech_at->0 >= SILENCE_TIMEOUT_MS,
    ensures
        s.ready(now_ms),
{
}

} // verus!
