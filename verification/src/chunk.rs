//! Chunks: a long recording is cut into pieces of bounded length, which
//! are then worked on independently.
use crate::analysis::extract_grain;
use crate::segment::{frame_count, lemma_frame_count_counts_fitting_frames};
use vstd::prelude::*;
use vstd::string::StringExecFns;

verus! {

/// A piece of one recording, mixed down to a single channel.
#[derive(Clone, Debug)]
pub struct AudioChunk<S> {
    pub source_id: String,
    pub sample_rate: u32,
    pub samples: Vec<S>,
}

impl<S> AudioChunk<S> {
    /// A chunk holds at least one sample and at most `max_chunk_size`.
    pub open spec fn well_formed(&self, max_chunk_size: int) -> bool {
        0 < self.samples.len() <= max_chunk_size
    }
}

/// How many chunks of at most `max_chunk_size` samples a recording of
/// `total` samples is cut into: as many as it takes, the last one shorter
/// where the lengths do not divide.
pub open spec fn chunk_count(total: int, max_chunk_size: int) -> int {
    if total > 0 {
        (total - 1) / max_chunk_size + 1
    } else {
        0
    }
}

/// Where chunk number `k` starts.
pub open spec fn chunk_start(max_chunk_size: int, k: int) -> int {
    k * max_chunk_size
}

/// Where chunk number `k` ends: a full chunk after its start, or at the
/// end of the recording if that comes first.
pub open spec fn chunk_end(total: int, max_chunk_size: int, k: int) -> int {
    if chunk_start(max_chunk_size, k) + max_chunk_size <= total {
        chunk_start(max_chunk_size, k) + max_chunk_size
    } else {
        total
    }
}

/// Whether `chunk` is piece number `k` of a recording.
pub open spec fn is_chunk_of<S>(
    chunk: AudioChunk<S>,
    source_id: Seq<char>,
    sample_rate: u32,
    samples: Seq<S>,
    max_chunk_size: int,
    k: int,
) -> bool {
    &&& chunk.source_id@ == source_id
    &&& chunk.sample_rate == sample_rate
    &&& chunk.samples@ == samples.subrange(
        chunk_start(max_chunk_size, k),
        chunk_end(samples.len() as int, max_chunk_size, k),
    )
    &&& chunk.well_formed(max_chunk_size)
}

/// Chunk number `k` exists exactly when it starts within the recording.
pub proof fn lemma_chunk_count_counts_starts(total: int, max_chunk_size: int, k: int)
    requires
        0 <= total,
        1 <= max_chunk_size,
        0 <= k,
    ensures
        k < chunk_count(total, max_chunk_size) <==> chunk_start(max_chunk_size, k) < total,
{
    lemma_frame_count_counts_fitting_frames(total, 0, max_chunk_size, 0, k);
    assert(chunk_count(total, max_chunk_size) == frame_count(total, 0, max_chunk_size, 0));
}

/// The chunks lie end to end and cover the recording: sample `i` of the
/// recording is sample `i % max_chunk_size` of chunk `i / max_chunk_size`.
pub proof fn lemma_chunks_cover_recording<S>(
    chunks: Seq<AudioChunk<S>>,
    source_id: Seq<char>,
    sample_rate: u32,
    samples: Seq<S>,
    max_chunk_size: int,
    i: int,
)
    requires
        1 <= max_chunk_size,
        chunks.len() == chunk_count(samples.len() as int, max_chunk_size),
        forall|k: int|
            0 <= k < chunks.len() ==> is_chunk_of(
                #[trigger] chunks[k],
                source_id,
                sample_rate,
                samples,
                max_chunk_size,
                k,
            ),
        0 <= i < samples.len(),
    ensures
        0 <= i / max_chunk_size < chunks.len(),
        0 <= i % max_chunk_size < chunks[i / max_chunk_size].samples.len(),
        chunks[i / max_chunk_size].samples[i % max_chunk_size] == samples[i],
{
    let k = i / max_chunk_size;
    vstd::arithmetic::div_mod::lemma_fundamental_div_mod(i, max_chunk_size);
    vstd::arithmetic::div_mod::lemma_mod_bound(i, max_chunk_size);
    vstd::arithmetic::div_mod::lemma_div_pos_is_pos(i, max_chunk_size);
    assert(max_chunk_size * k == k * max_chunk_size) by (nonlinear_arith);
    lemma_chunk_count_counts_starts(samples.len() as int, max_chunk_size, k);
    assert(is_chunk_of(chunks[k], source_id, sample_rate, samples, max_chunk_size, k));
}

/// Cuts a recording into chunks of at most `max_chunk_size` samples.
///
/// Every chunk but the last holds `max_chunk_size` samples; the last
/// holds what is left.  Each chunk carries the name and the sample rate
/// of the recording.  An empty recording gives no chunk.
pub fn split_into_chunks<S: Copy>(
    source_id: &str,
    sample_rate: u32,
    samples: &Vec<S>,
    max_chunk_size: usize,
) -> (chunks: Vec<AudioChunk<S>>)
    requires
        max_chunk_size >= 1,
    ensures
        chunks.len() == chunk_count(samples.len() as int, max_chunk_size as int),
        forall|k: int|
            0 <= k < chunks.len() ==> is_chunk_of(
                #[trigger] chunks[k],
                source_id@,
                sample_rate,
                samples@,
                max_chunk_size as int,
                k,
            ),
{
    let total: usize = samples.len();
    let mut chunks: Vec<AudioChunk<S>> = Vec::new();
    let mut start: usize = 0;
    assert(chunk_start(max_chunk_size as int, 0) == 0) by (nonlinear_arith);
    while start < total
        invariant
            total == samples.len(),
            max_chunk_size >= 1,
            start <= total,
            start < total ==> start == chunk_start(max_chunk_size as int, chunks.len() as int),
            start == total ==> chunks.len() == chunk_count(total as int, max_chunk_size as int),
            chunks.len() <= chunk_count(total as int, max_chunk_size as int),
            forall|k: int|
                0 <= k < chunks.len() ==> is_chunk_of(
                    #[trigger] chunks[k],
                    source_id@,
                    sample_rate,
                    samples@,
                    max_chunk_size as int,
                    k,
                ),
        decreases total - start,
    {
        let ghost k = chunks.len() as int;
        let end: usize = if max_chunk_size >= total - start {
            total
        } else {
            start + max_chunk_size
        };
        proof {
            lemma_chunk_count_counts_starts(total as int, max_chunk_size as int, k);
            lemma_chunk_count_counts_starts(total as int, max_chunk_size as int, k + 1);
            assert((k + 1) * max_chunk_size == k * max_chunk_size + max_chunk_size)
                by (nonlinear_arith);
        }
        let chunk = AudioChunk {
            source_id: String::from_str(source_id),
            sample_rate,
            samples: extract_grain(samples, (start, end)),
        };
        chunks.push(chunk);
        start = end;
    }
    chunks
}

} // verus!
