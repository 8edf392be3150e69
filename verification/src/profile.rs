//! Grain profiles: one pass over the recordings, with grains of one size
//! set one spacing apart, and what such a pass needs for each chunk.
use crate::analysis::{frames_within, grain_len};
use crate::segment::{extract_grain_frames, is_frame_list};
use crate::window::{window_length, MAX_WINDOW_LENGTH};
use vstd::arithmetic::power2::{lemma2_to64, lemma_pow2_strictly_increases, lemma_pow2_unfold, pow2};
use vstd::prelude::*;

verus! {

/// The frame at which the first grain of every chunk starts.
pub const INITIAL_OFFSET: usize = 20000;

/// The smallest transform buffer that is ever used.
pub const MIN_FFT_SIZE: usize = 512;

/// A grain size and the distance between the starts of two grains that
/// follow each other, both in frames.
#[derive(Clone, Copy, Debug, PartialEq, Eq, Structural)]
pub struct GrainProfile {
    pub grain_size: usize,
    pub grain_spacing: usize,
}

/// What one chunk needs for one profile: its grains, the size of the
/// transform buffer and the length of the window.
#[derive(Clone, Debug)]
pub struct ChunkPlan {
    pub frames: Vec<(usize, usize)>,
    pub fft_size: usize,
    pub window_len: usize,
}

/// Whether `size` is the transform size for grains of `grain_size` frames:
/// the smallest power of two that is at least 512 and at least
/// `grain_size`.
pub open spec fn is_fft_size(size: int, grain_size: int) -> bool {
    exists|e: nat|
        {
            &&& 9 <= e
            &&& size == #[trigger] pow2(e)
            &&& grain_size <= size
            &&& (e == 9 || pow2((e - 1) as nat) < grain_size)
        }
}

proof fn lemma_pow2_order(a: nat, b: nat)
    requires
        pow2(a) < pow2(b),
    ensures
        a < b,
        2 * pow2(a) <= pow2(b),
{
    if a > b {
        lemma_pow2_strictly_increases(b, a);
    }
    assert(a < b);
    lemma_pow2_unfold(a + 1);
    if a + 1 < b {
        lemma_pow2_strictly_increases(a + 1, b);
    }
}

/// There is one transform size for each grain size, and no more.
pub proof fn lemma_fft_size_is_unique(first: int, second: int, grain_size: int)
    requires
        is_fft_size(first, grain_size),
        is_fft_size(second, grain_size),
    ensures
        first == second,
{
    let a = choose|e: nat|
        9 <= e && first == #[trigger] pow2(e) && grain_size <= first && (e == 9 || pow2((e - 1) as nat)
            < grain_size);
    let b = choose|e: nat|
        9 <= e && second == #[trigger] pow2(e) && grain_size <= second && (e == 9 || pow2(
            (e - 1) as nat,
        ) < grain_size);
    if first < second {
        lemma_pow2_order(a, b);
        lemma_pow2_unfold(b);
    } else if second < first {
        lemma_pow2_order(b, a);
        lemma_pow2_unfold(a);
    }
}

/// The transform size is a power of two, at least 512 and at least the
/// grain size, and half of it would be too small for the grain unless it
/// is 512 itself.
pub proof fn lemma_fft_size_bounds(size: int, grain_size: int)
    requires
        is_fft_size(size, grain_size),
    ensures
        vstd::arithmetic::power2::is_pow2_exists(size),
        512 <= size,
        grain_size <= size,
        size == 512 || size / 2 < grain_size,
{
    let e = choose|e: nat|
        9 <= e && size == #[trigger] pow2(e) && grain_size <= size && (e == 9 || pow2((e - 1) as nat)
            < grain_size);
    lemma2_to64();
    vstd::arithmetic::power2::lemma_pow2(e);
    if e > 9 {
        lemma_pow2_strictly_increases(9, e);
        lemma_pow2_unfold(e);
    }
}

proof fn lemma_pow2_within_usize(e: nat)
    requires
        pow2(e) <= usize::MAX,
    ensures
        pow2(e) <= usize::MAX / 2 + 1,
{
    lemma2_to64();
    if usize::MAX == 0xFFFF_FFFF {
        if e >= 32 {
            if e > 32 {
                lemma_pow2_strictly_increases(32, e);
            }
        } else if e < 31 {
            lemma_pow2_strictly_increases(e, 31);
        }
    } else {
        assert(usize::MAX == 0xFFFF_FFFF_FFFF_FFFF);
        lemma_pow2_unfold(64);
        if e >= 64 {
            if e > 64 {
                lemma_pow2_strictly_increases(64, e);
            }
        } else if e < 63 {
            lemma_pow2_strictly_increases(e, 63);
        }
    }
}

/// Finds the size of the transform buffer for grains of `grain_size`
/// frames: 512 is doubled until the grain fits.  There is no such size
/// when the doubling would leave the range of `usize`, that is, when the
/// grain is longer than the largest power of two in that range.
pub fn fft_size_for(grain_size: usize) -> (size: Option<usize>)
    ensures
        size is Some <==> grain_size <= usize::MAX / 2 + 1,
        match size {
            Some(found) => is_fft_size(found as int, grain_size as int),
            None => forall|other: int| is_fft_size(other, grain_size as int) ==> other > usize::MAX,
        },
{
    let mut size: usize = MIN_FFT_SIZE;
    let ghost mut e: nat = 9;
    proof {
        lemma2_to64();
    }
    while size < grain_size
        invariant
            9 <= e,
            512 <= size,
            size == pow2(e),
            e == 9 || pow2((e - 1) as nat) < grain_size,
        decreases usize::MAX - size,
    {
        if size > usize::MAX / 2 {
            assert forall|other: int| is_fft_size(other, grain_size as int) implies other
                > usize::MAX by {
                let b = choose|b: nat|
                    9 <= b && other == #[trigger] pow2(b) && grain_size <= other && (b == 9 || pow2(
                        (b - 1) as nat,
                    ) < grain_size);
                lemma_pow2_order(e, b);
            }
            return None;
        }
        size = size * 2;
        proof {
            lemma_pow2_unfold(e + 1);
            e = e + 1;
        }
    }
    assert(is_fft_size(size as int, grain_size as int));
    proof {
        lemma_pow2_within_usize(e);
    }
    Some(size)
}

impl GrainProfile {
    /// Whether grains of this profile can be laid out: the spacing is at
    /// least one frame.
    pub open spec fn well_formed(&self) -> bool {
        self.grain_spacing >= 1
    }

    /// Makes a profile, unless its spacing is zero: grains that do not
    /// advance would never reach the end of a recording.
    pub fn new(grain_size: usize, grain_spacing: usize) -> (profile: Option<GrainProfile>)
        ensures
            profile == if grain_spacing >= 1 {
                Some((GrainProfile { grain_size, grain_spacing }))
            } else {
                None
            },
    {
        if grain_spacing >= 1 {
            Some(GrainProfile { grain_size, grain_spacing })
        } else {
            None
        }
    }
}

/// Whether `plan` is what a chunk of `len` frames needs for `profile`.
pub open spec fn is_plan(plan: ChunkPlan, len: int, profile: GrainProfile) -> bool {
    &&& is_frame_list(
        plan.frames@,
        len,
        profile.grain_size as int,
        profile.grain_spacing as int,
        INITIAL_OFFSET as int,
    )
    &&& is_fft_size(plan.fft_size as int, profile.grain_size as int)
    &&& plan.window_len == if MAX_WINDOW_LENGTH <= profile.grain_size {
        MAX_WINDOW_LENGTH
    } else {
        profile.grain_size
    }
}

/// A planned batch can be analyzed as it stands: every frame lies in the
/// chunk, no grain is longer than the transform buffer, and the window
/// is no longer than any grain.
pub proof fn lemma_plan_is_admissible(plan: ChunkPlan, len: int, profile: GrainProfile)
    requires
        is_plan(plan, len, profile),
    ensures
        frames_within(plan.frames@, len),
        forall|k: int|
            0 <= k < plan.frames.len() ==> {
                &&& grain_len(#[trigger] plan.frames[k]) == profile.grain_size
                &&& grain_len(plan.frames[k]) <= plan.fft_size
                &&& plan.window_len <= grain_len(plan.frames[k])
            },
{
}

/// What is planned for a chunk depends on the length of the chunk and on
/// the profile alone: two plans for the same length and profile hold the
/// same frames, the same transform size and the same window length,
/// whichever worker made them and whenever.
pub proof fn lemma_plan_is_unique(first: ChunkPlan, second: ChunkPlan, len: int, profile: GrainProfile)
    requires
        is_plan(first, len, profile),
        is_plan(second, len, profile),
    ensures
        first.frames@ == second.frames@,
        first.fft_size == second.fft_size,
        first.window_len == second.window_len,
{
    lemma_fft_size_is_unique(first.fft_size as int, second.fft_size as int, profile.grain_size as int);
    assert(first.frames@ =~= second.frames@);
}

/// Plans one chunk for one profile: the grains from `INITIAL_OFFSET` on,
/// the transform size for the profile's grains, and a window of at most
/// `MAX_WINDOW_LENGTH` coefficients.  There is no plan when no transform
/// size fits the machine.
pub fn plan_chunk<S>(chunk: &Vec<S>, profile: &GrainProfile) -> (plan: Option<ChunkPlan>)
    requires
        profile.well_formed(),
    ensures
        plan is Some <==> profile.grain_size <= usize::MAX / 2 + 1,
        match plan {
            Some(made) => is_plan(made, chunk.len() as int, *profile),
            None => forall|other: int|
                is_fft_size(other, profile.grain_size as int) ==> other > usize::MAX,
        },
{
    match fft_size_for(profile.grain_size) {
        Some(fft_size) => {
            let frames = extract_grain_frames(
                chunk,
                profile.grain_size,
                profile.grain_spacing,
                INITIAL_OFFSET,
            );
            let window_len = window_length(MAX_WINDOW_LENGTH, profile.grain_size);
            Some(ChunkPlan { frames, fft_size, window_len })
        },
        None => None,
    }
}

} // verus!
