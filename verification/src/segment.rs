//! Grain frames: where the grains of a recording start and end.
use vstd::prelude::*;

verus! {

/// How many grains of `grain_size` frames, set `grain_spacing` frames
/// apart from `initial_offset` on, end strictly before frame `len`.
pub open spec fn frame_count(len: int, grain_size: int, grain_spacing: int, initial_offset: int) -> int {
    if initial_offset + grain_size < len {
        (len - grain_size - initial_offset - 1) / grain_spacing + 1
    } else {
        0
    }
}

/// First frame of grain number `k`.
pub open spec fn frame_start(grain_spacing: int, initial_offset: int, k: int) -> int {
    initial_offset + k * grain_spacing
}

/// Whether grain number `k` lies in a recording of `len` frames with its
/// end strictly before the recording's end.
pub open spec fn frame_fits(len: int, grain_size: int, grain_spacing: int, initial_offset: int, k: int) -> bool {
    frame_start(grain_spacing, initial_offset, k) + grain_size < len
}

/// The grains that are emitted are exactly the grains that fit: grain
/// number `k` is among the first `frame_count` grains if and only if its
/// end lies strictly before the end of the recording.
pub proof fn lemma_frame_count_counts_fitting_frames(
    len: int,
    grain_size: int,
    grain_spacing: int,
    initial_offset: int,
    k: int,
)
    requires
        0 <= len,
        0 <= grain_size,
        1 <= grain_spacing,
        0 <= initial_offset,
        0 <= k,
    ensures
        k < frame_count(len, grain_size, grain_spacing, initial_offset) <==> frame_fits(
            len,
            grain_size,
            grain_spacing,
            initial_offset,
            k,
        ),
{
    let s = grain_spacing;
    if initial_offset + grain_size < len {
        let d = len - grain_size - initial_offset - 1;
        let q = d / s;
        assert(d == s * q + d % s && 0 <= d % s < s) by {
            vstd::arithmetic::div_mod::lemma_fundamental_div_mod(d, s);
            vstd::arithmetic::div_mod::lemma_mod_bound(d, s);
        }
        if k <= q {
            assert(k * s <= q * s) by (nonlinear_arith)
                requires
                    0 <= k <= q,
                    1 <= s,
            ;
            assert(q * s == s * q) by (nonlinear_arith);
        } else {
            assert(k * s >= (q + 1) * s) by (nonlinear_arith)
                requires
                    k >= q + 1,
                    1 <= s,
            ;
            assert((q + 1) * s == s * q + s) by (nonlinear_arith);
        }
    } else {
        assert(k * s >= 0) by (nonlinear_arith)
            requires
                0 <= k,
                1 <= s,
        ;
    }
}

/// Whether `frame` is grain number `k`: it starts at the grain's first
/// frame, is `grain_size` frames long and ends strictly before `len`.
pub open spec fn is_frame(
    frame: (usize, usize),
    len: int,
    grain_size: int,
    grain_spacing: int,
    initial_offset: int,
    k: int,
) -> bool {
    &&& frame.0 == frame_start(grain_spacing, initial_offset, k)
    &&& frame.1 == frame.0 + grain_size
    &&& frame.1 < len
}

/// Whether `frames` lists, in order, every grain that fits and no other.
pub open spec fn is_frame_list(
    frames: Seq<(usize, usize)>,
    len: int,
    grain_size: int,
    grain_spacing: int,
    initial_offset: int,
) -> bool {
    &&& frames.len() == frame_count(len, grain_size, grain_spacing, initial_offset)
    &&& forall|k: int|
        0 <= k < frames.len() ==> is_frame(
            #[trigger] frames[k],
            len,
            grain_size,
            grain_spacing,
            initial_offset,
            k,
        )
}

/// The last emitted grain starts strictly before `len - grain_size`, and
/// so does every grain before it.
pub proof fn lemma_every_frame_ends_before_len(
    len: int,
    grain_size: int,
    grain_spacing: int,
    initial_offset: int,
    k: int,
)
    requires
        0 <= len,
        0 <= grain_size,
        1 <= grain_spacing,
        0 <= initial_offset,
        0 <= k < frame_count(len, grain_size, grain_spacing, initial_offset),
    ensures
        frame_start(grain_spacing, initial_offset, k) < len - grain_size,
{
    lemma_frame_count_counts_fitting_frames(len, grain_size, grain_spacing, initial_offset, k);
}

/// Lists the grains of a recording as half-open frame intervals.
///
/// Grain number `k` starts at `initial_offset + k * grain_spacing` and is
/// `grain_size` frames long.  A grain is listed only while its end lies
/// strictly before the end of the recording, so a grain that would reach
/// the end of the recording exactly is left out.  Only the length of
/// `audio` is read.
pub fn extract_grain_frames<T>(
    audio: &Vec<T>,
    grain_size: usize,
    grain_spacing: usize,
    initial_offset: usize,
) -> (frames: Vec<(usize, usize)>)
    requires
        grain_spacing >= 1,
    ensures
        is_frame_list(
            frames@,
            audio.len() as int,
            grain_size as int,
            grain_spacing as int,
            initial_offset as int,
        ),
{
    let len: usize = audio.len();
    let mut frames: Vec<(usize, usize)> = Vec::new();
    if grain_size >= len {
        return frames;
    }
    let limit: usize = len - grain_size;
    if initial_offset >= limit {
        return frames;
    }
    let ghost count = frame_count(len as int, grain_size as int, grain_spacing as int, initial_offset as int);
    proof {
        lemma_frame_count_counts_fitting_frames(
            len as int,
            grain_size as int,
            grain_spacing as int,
            initial_offset as int,
            0,
        );
    }
    let mut i: usize = initial_offset;
    loop
        invariant_except_break
            i < limit,
            i == frame_start(grain_spacing as int, initial_offset as int, frames.len() as int),
            frames.len() < count,
        invariant
            limit == len - grain_size,
            grain_spacing >= 1,
            count == frame_count(len as int, grain_size as int, grain_spacing as int, initial_offset as int),
            forall|k: int|
                0 <= k < frames.len() ==> is_frame(
                    #[trigger] frames[k],
                    len as int,
                    grain_size as int,
                    grain_spacing as int,
                    initial_offset as int,
                    k,
                ),
        ensures
            frames.len() == count,
        decreases limit - i,
    {
        let ghost n = frames.len() as int;
        frames.push((i, i + grain_size));
        proof {
            lemma_frame_count_counts_fitting_frames(
                len as int,
                grain_size as int,
                grain_spacing as int,
                initial_offset as int,
                n + 1,
            );
            assert((n + 1) * grain_spacing == n * grain_spacing + grain_spacing) by (nonlinear_arith);
        }
        if grain_spacing >= limit - i {
            break;
        }
        i += grain_spacing;
    }
    frames
}

} // verus!
