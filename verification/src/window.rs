//! Edge tapering: a window is laid over the head and the tail of a grain,
//! and whatever lies between the two is left alone.
use vstd::prelude::*;

verus! {

/// The longest window that is ever laid over a grain.
pub const MAX_WINDOW_LENGTH: usize = 5000;

/// How many coefficients, from the start of the window, scale the head
/// of a grain.  The rest of the window scales the tail.
pub open spec fn head_len(window_len: int) -> int {
    window_len / 2
}

/// The index in a grain of `grain_len` samples that coefficient `j` of a
/// window of `window_len` coefficients scales.  The first half of the
/// window lies on the first samples of the grain; the second half is
/// shifted so that the last coefficient meets the last sample.
pub open spec fn taper_target(grain_len: int, window_len: int, j: int) -> int {
    if j < head_len(window_len) {
        j
    } else {
        grain_len - (window_len - head_len(window_len)) + (j - head_len(window_len))
    }
}

/// Whether sample `i` of a grain lies strictly between the tapered head
/// and the tapered tail.
pub open spec fn in_middle(grain_len: int, window_len: int, i: int) -> bool {
    head_len(window_len) <= i < grain_len - (window_len - head_len(window_len))
}

/// A window as long as its grain covers it coefficient by coefficient:
/// every coefficient scales the sample at its own index, and no sample
/// lies in the middle.
pub proof fn lemma_full_window_covers_grain(len: int, j: int)
    requires
        0 <= j < len,
    ensures
        taper_target(len, len, j) == j,
        !in_middle(len, len, j),
{
}

/// No two coefficients scale the same sample, every target lies in the
/// grain, and no target lies in the middle.
pub proof fn lemma_taper_targets_are_distinct_edge_samples(grain_len: int, window_len: int, j: int, k: int)
    requires
        0 <= window_len <= grain_len,
        0 <= j < window_len,
        0 <= k < window_len,
    ensures
        0 <= taper_target(grain_len, window_len, j) < grain_len,
        !in_middle(grain_len, window_len, taper_target(grain_len, window_len, j)),
        j != k ==> taper_target(grain_len, window_len, j) != taper_target(grain_len, window_len, k),
{
}

/// Every sample outside the middle is the target of a coefficient.
pub proof fn lemma_edge_samples_are_targets(grain_len: int, window_len: int, i: int) -> (j: int)
    requires
        0 <= window_len <= grain_len,
        0 <= i < grain_len,
        !in_middle(grain_len, window_len, i),
    ensures
        0 <= j < window_len,
        taper_target(grain_len, window_len, j) == i,
{
    if i < head_len(window_len) {
        i
    } else {
        i - (grain_len - window_len)
    }
}

/// The length of the window for grains of `grain_size` samples: the grain's
/// own length, capped at `max_window_length`.
pub fn window_length(max_window_length: usize, grain_size: usize) -> (len: usize)
    ensures
        len == if max_window_length <= grain_size {
            max_window_length
        } else {
            grain_size
        },
{
    if max_window_length <= grain_size {
        max_window_length
    } else {
        grain_size
    }
}

/// Tapers the two ends of `grain` in place.
///
/// Coefficient `j` of `window` scales sample `taper_target(.., j)` of the
/// grain, by one call of `scale` with the sample and the coefficient;
/// samples in the middle keep their value.  When the window is as long
/// as the grain, sample `j` is scaled by coefficient `j`, for every `j`.
pub fn apply_window<S: Copy, F: Fn(S, S) -> S>(grain: &mut Vec<S>, window: &Vec<S>, scale: F)
    requires
        window.len() <= old(grain).len(),
        forall|j: int|
            0 <= j < window.len() ==> call_requires(
                scale,
                (
                    #[trigger] old(grain)[taper_target(old(grain).len() as int, window.len() as int, j)],
                    window[j],
                ),
            ),
    ensures
        final(grain).len() == old(grain).len(),
        forall|j: int|
            0 <= j < window.len() ==> call_ensures(
                scale,
                (old(grain)[taper_target(old(grain).len() as int, window.len() as int, j)], window[j]),
                #[trigger] final(grain)[taper_target(old(grain).len() as int, window.len() as int, j)],
            ),
        forall|i: int|
            in_middle(old(grain).len() as int, window.len() as int, i) ==> #[trigger] final(grain)[i]
                == old(grain)[i],
        window.len() == old(grain).len() ==> forall|j: int|
            0 <= j < window.len() ==> call_ensures(
                scale,
                (old(grain)[j], window[j]),
                #[trigger] final(grain)[j],
            ),
{
    let ghost before = grain@;
    let len: usize = grain.len();
    let w: usize = window.len();
    let head: usize = w / 2;
    let shift: usize = len - w;
    let mut j: usize = 0;
    while j < head
        invariant
            j <= head,
            head == w / 2,
            w == window.len(),
            w <= len,
            grain.len() == len,
            before.len() == len,
            forall|k: int|
                0 <= k < w ==> call_requires(
                    scale,
                    (#[trigger] before[taper_target(len as int, w as int, k)], window[k]),
                ),
            forall|k: int|
                0 <= k < j ==> call_ensures(scale, (before[k], window[k]), #[trigger] grain[k]),
            forall|i: int| j <= i < len ==> #[trigger] grain[i] == before[i],
        decreases head - j,
    {
        assert(taper_target(len as int, w as int, j as int) == j);
        let scaled: S = scale(grain[j], window[j]);
        grain.set(j, scaled);
        j += 1;
    }
    while j < w
        invariant
            head <= j <= w,
            head == w / 2,
            w == window.len(),
            w <= len,
            shift == len - w,
            grain.len() == len,
            before.len() == len,
            forall|k: int|
                0 <= k < w ==> call_requires(
                    scale,
                    (#[trigger] before[taper_target(len as int, w as int, k)], window[k]),
                ),
            forall|k: int|
                0 <= k < head ==> call_ensures(scale, (before[k], window[k]), #[trigger] grain[k]),
            forall|k: int|
                head <= k < j ==> call_ensures(
                    scale,
                    (before[shift + k], window[k]),
                    #[trigger] grain[shift + k],
                ),
            forall|i: int| head <= i < shift + head ==> #[trigger] grain[i] == before[i],
            forall|i: int| shift + j <= i < len ==> #[trigger] grain[i] == before[i],
        decreases w - j,
    {
        assert(taper_target(len as int, w as int, j as int) == shift + j);
        let at: usize = shift + j;
        let scaled: S = scale(grain[at], window[j]);
        grain.set(at, scaled);
        j += 1;
    }
    assert forall|k: int| 0 <= k < w implies call_ensures(
        scale,
        (before[taper_target(len as int, w as int, k)], window[k]),
        #[trigger] grain[taper_target(len as int, w as int, k)],
    ) by {
        if k >= head {
            assert(taper_target(len as int, w as int, k) == shift + k);
        }
    }
    if w == len {
        assert forall|k: int| 0 <= k < w implies call_ensures(
            scale,
            (before[k], window[k]),
            #[trigger] grain[k],
        ) by {
            assert(taper_target(len as int, w as int, k) == k);
        }
    }
}

} // verus!
