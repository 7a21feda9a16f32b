//! Checks and decoding on the way from the frontend's PCM bytes to the
//! speech engine, and assembly of the engine's segment texts.

use vstd::prelude::*;

use crate::error::TranscribeError;
use crate::text::{decimal, decimal_string};

verus! {

/// Fewer samples than this (about 100 ms at 16 kHz) are not worth transcribing.
pub const MIN_SAMPLES: usize = 1600;

/// Thread count used when the machine's parallelism cannot be read.
pub const FALLBACK_THREADS: i32 = 4;

/// The text of the error for a byte count that is not whole samples.
pub open spec fn misaligned_pcm_message() -> Seq<char> {
    "PCM byte length must be a multiple of 2 (i16 samples)"@
}

/// Checks a transcribe request: non-empty, whole 2-byte samples, and a model
/// loaded, in that order. Returns the sample count.
pub fn validate_pcm(pcm: &[u8], model_loaded: bool) -> (r: Result<usize, TranscribeError>)
    ensures
        pcm@.len() == 0 ==> r == Err::<usize, TranscribeError>(TranscribeError::AudioTooShort(0)),
        pcm@.len() != 0 && pcm@.len() % 2 != 0 ==> (r matches Err(TranscribeError::Other(m))
            && m@ == misaligned_pcm_message()),
        pcm@.len() != 0 && pcm@.len() % 2 == 0 && !model_loaded ==> r == Err::<
            usize,
            TranscribeError,
        >(TranscribeError::ModelNotLoaded),
        pcm@.len() != 0 && pcm@.len() % 2 == 0 && model_loaded ==> r == Ok::<
            usize,
            TranscribeError,
        >(pcm.len() / 2),
{
    if pcm.len() == 0 {
        return Err(TranscribeError::AudioTooShort(0));
    }
    if pcm.len() % 2 != 0 {
        return Err(
            TranscribeError::Other(
                String::from_str("PCM byte length must be a multiple of 2 (i16 samples)"),
            ),
        );
    }
    if !model_loaded {
        return Err(TranscribeError::ModelNotLoaded);
    }
    Ok(pcm.len() / 2)
}

/// The little-endian signed 16-bit sample made of `b[at..at + 2]`.
pub open spec fn le_i16(b: Seq<u8>, at: int) -> int {
    let u = b[at] + 256 * b[at + 1];
    if u < 32768 {
        u
    } else {
        u - 65536
    }
}

/// Splits `pcm` into little-endian signed 16-bit samples.
pub fn decode_pcm_samples(pcm: &[u8]) -> (r: Vec<i16>)
    requires
        pcm@.len() % 2 == 0,
    ensures
        r.len() == pcm@.len() / 2,
        forall|i: int| 0 <= i < r.len() ==> #[trigger] r@[i] == le_i16(pcm@, 2 * i),
{
    let n = pcm.len() / 2;
    let mut out: Vec<i16> = Vec::with_capacity(n);
    let mut i: usize = 0;
    let mut at: usize = 0;
    while i < n
        invariant
            n == pcm@.len() / 2,
            pcm@.len() % 2 == 0,
            i <= n,
            at == 2 * i,
            out.len() == i,
            forall|j: int| 0 <= j < i ==> #[trigger] out@[j] == le_i16(pcm@, 2 * j),
        decreases n - i,
    {
        let u: i32 = pcm[at] as i32 + 256 * (pcm[at + 1] as i32);
        let v: i16 = if u < 32768 {
            u as i16
        } else {
            (u - 65536) as i16
        };
        out.push(v);
        i = i + 1;
        at = at + 2;
    }
    out
}

/// The samples of a transcribe request: refused as `validate_pcm` says, else
/// one little-endian signed 16-bit sample per 2 bytes.
pub fn pcm_samples(pcm: &[u8], model_loaded: bool) -> (r: Result<Vec<i16>, TranscribeError>)
    ensures
        pcm@.len() == 0 ==> r == Err::<Vec<i16>, TranscribeError>(
            TranscribeError::AudioTooShort(0),
        ),
        pcm@.len() != 0 && pcm@.len() % 2 != 0 ==> (r matches Err(TranscribeError::Other(m))
            && m@ == misaligned_pcm_message()),
        pcm@.len() != 0 && pcm@.len() % 2 == 0 && !model_loaded ==> r == Err::<
            Vec<i16>,
            TranscribeError,
        >(TranscribeError::ModelNotLoaded),
        pcm@.len() != 0 && pcm@.len() % 2 == 0 && model_loaded ==> (r matches Ok(w) && w.len()
            == pcm@.len() / 2 && forall|i: int|
            0 <= i < w.len() ==> #[trigger] w@[i] == le_i16(pcm@, 2 * i)),
{
    match validate_pcm(pcm, model_loaded) {
        Err(e) => Err(e),
        Ok(_) => Ok(decode_pcm_samples(pcm)),
    }
}

/// Refuses sample buffers too short to transcribe.
pub fn check_sample_count(n: usize) -> (r: Result<(), TranscribeError>)
    ensures
        n < MIN_SAMPLES ==> r == Err::<(), TranscribeError>(TranscribeError::AudioTooShort(n)),
        n >= MIN_SAMPLES ==> r == Ok::<(), TranscribeError>(()),
{
    if n < MIN_SAMPLES {
        Err(TranscribeError::AudioTooShort(n))
    } else {
        Ok(())
    }
}

/// Threads handed to the speech engine: the machine's parallelism as the
/// engine's `i32`, or `FALLBACK_THREADS` when it is unknown.
pub fn inference_threads(available: Option<usize>) -> (r: i32)
    ensures
        available matches Some(n) ==> r == n as i32,
        available is None ==> r == FALLBACK_THREADS,
{
    match available {
        Some(n) => n as i32,
        None => FALLBACK_THREADS,
    }
}

/// What reading one segment of the engine's output gave.
#[derive(Debug, Clone, PartialEq, Eq)]
pub enum SegmentText {
    /// The engine had no segment at this index.
    Missing,
    /// The segment's text could not be read; the reason, rendered.
    Unreadable(String),
    /// The segment's text.
    Text(String),
}

/// The transcript of `segs`: the texts concatenated in order, or, at the
/// first segment that is not text, the reason the speech engine failed.
pub open spec fn transcript(segs: Seq<SegmentText>) -> Result<Seq<char>, Seq<char>>
    decreases segs.len(),
{
    if segs.len() == 0 {
        Ok(Seq::empty())
    } else {
        match transcript(segs.drop_last()) {
            Err(e) => Err(e),
            Ok(t) => match segs.last() {
                SegmentText::Text(x) => Ok(t + x@),
                SegmentText::Missing => Err(
                    "missing segment "@ + decimal((segs.len() - 1) as nat),
                ),
                SegmentText::Unreadable(d) => Err("segment_text: "@ + d@),
            },
        }
    }
}

/// Concatenates the segment texts, failing at the first segment that is
/// missing or unreadable.
pub fn join_segment_texts(segs: &Vec<SegmentText>) -> (r: Result<String, TranscribeError>)
    ensures
        match transcript(segs@) {
            Ok(t) => r matches Ok(s) && s@ == t,
            Err(e) => r matches Err(TranscribeError::WhisperFailed(m)) && m@ == e,
        },
{
    let mut out = String::new();
    let mut i: usize = 0;
    while i < segs.len()
        invariant
            i <= segs.len(),
            transcript(segs@.subrange(0, i as int)) == Ok::<Seq<char>, Seq<char>>(out@),
        decreases segs.len() - i,
    {
        proof {
            assert(segs@.subrange(0, i as int + 1).drop_last() =~= segs@.subrange(0, i as int));
        }
        match &segs[i] {
            SegmentText::Text(x) => {
                out.append(x.as_str());
            },
            SegmentText::Missing => {
                let mut m = String::from_str("missing segment ");
                let d = decimal_string(i);
                m.append(d.as_str());
                proof {
                    lemma_transcript_stops(segs@, i as int + 1);
                }
                return Err(TranscribeError::WhisperFailed(m));
            },
            SegmentText::Unreadable(d) => {
                let mut m = String::from_str("segment_text: ");
                m.append(d.as_str());
                proof {
                    lemma_transcript_stops(segs@, i as int + 1);
                }
                return Err(TranscribeError::WhisperFailed(m));
            },
        }
        i = i + 1;
    }
    assert(segs@.subrange(0, segs@.len() as int) =~= segs@);
    Ok(out)
}

/// Once a prefix of the segments fails, the whole sequence fails the same way.
proof fn lemma_transcript_stops(segs: Seq<SegmentText>, k: int)
    requires
        0 <= k <= segs.len(),
        transcript(segs.subrange(0, k)) is Err,
    ensures
        transcript(segs) == transcript(segs.subrange(0, k)),
    decreases segs.len() - k,
{
    if k < segs.len() {
        assert(segs.subrange(0, k + 1).drop_last() =~= segs.subrange(0, k));
        lemma_transcript_stops(segs, k + 1);
    } else {
        assert(segs.subrange(0, k) =~= segs);
    }
}

} // verus!

verus! {

/// Sample `i` is the signed 16-bit number whose little-endian bytes are
/// `b[2i]` and `b[2i + 1]`: it lies in the `i16` range, agrees with
/// `b[2i] + 256 * b[2i + 1]` modulo 65536, and depends on those two bytes
/// only, wherever they stand in the buffer.
pub proof fn law_sample_from_its_two_bytes(b: Seq<u8>, at: int, c: Seq<u8>, at2: int)
    requires
        0 <= at,
        at + 1 < b.len(),
    ensures
        -32768 <= le_i16(b, at) < 32768,
        (le_i16(b, at) + 65536) % 65536 == b[at] + 256 * b[at + 1],
        0 <= at2 && at2 + 1 < c.len() && c[at2] == b[at] && c[at2 + 1] == b[at + 1] ==> le_i16(
            c,
            at2,
        ) == le_i16(b, at),
{
}

/// Decoding a buffer made of two whole-sample parts gives the samples of the
/// first part followed by those of the second.
pub proof fn law_decode_concatenation(a: Seq<u8>, b: Seq<u8>, i: int)
    requires
        a.len() % 2 == 0,
        0 <= i,
        2 * i + 1 < a.len() + b.len(),
    ensures
        2 * i < a.len() ==> le_i16(a + b, 2 * i) == le_i16(a, 2 * i),
        2 * i >= a.len() ==> le_i16(a + b, 2 * i) == le_i16(b, 2 * i - a.len()),
{
    let ab = a + b;
    if 2 * i < a.len() {
        assert(ab[2 * i] == a[2 * i] && ab[2 * i + 1] == a[2 * i + 1]);
    } else {
        assert(ab[2 * i] == b[2 * i - a.len()] && ab[2 * i + 1] == b[2 * i + 1 - a.len()]);
    }
}

} // verus!
