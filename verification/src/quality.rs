//! Silence screening: runs of near-zero samples in a probe signal.
//!
//! A sample enters this module as its magnitude: an unsigned integer
//! that orders as the absolute amplitude does.  The bit pattern of a
//! non-negative IEEE 754 double is such an integer, and the two
//! thresholds below are written in that encoding.
use vstd::prelude::*;

verus! {

/// Magnitude of one thousandth of full scale, as the bit pattern of that
/// double.
pub const NEAR_ZERO: u64 = 0x3F50_624D_D2F1_A9FC;

/// Magnitude of one hundred-thousandth of full scale, as the bit pattern
/// of that double.
pub const DEEP_ZERO: u64 = 0x3EE4_F8B5_88E3_68F1;

/// A grain is silent when one part in this many of it is one near-zero run.
pub const NEAR_ZERO_FRACTION: usize = 8;

/// A grain is silent when this many samples in a row are deeply zero.
pub const DEEP_ZERO_RUN: usize = 50;

/// Whether the `run` samples from index `from` on all lie in `grain` and
/// below `effective_zero`.
pub open spec fn quiet_run_at(grain: Seq<u64>, from: int, run: int, effective_zero: u64) -> bool {
    &&& 0 <= from
    &&& from + run <= grain.len()
    &&& forall|j: int| from <= j < from + run ==> grain[j] < effective_zero
}

/// The length of run that is looked for: a run is at least one sample
/// long, so asking for none is asking for one.
pub open spec fn run_needed(num_consecutive_zeros: int) -> int {
    if num_consecutive_zeros >= 1 {
        num_consecutive_zeros
    } else {
        1
    }
}

/// Whether `grain` holds, anywhere, the needed number of consecutive
/// samples below `effective_zero`.
pub open spec fn has_quiet_run(grain: Seq<u64>, num_consecutive_zeros: int, effective_zero: u64) -> bool {
    exists|from: int| #[trigger]
        quiet_run_at(grain, from, run_needed(num_consecutive_zeros), effective_zero)
}

/// Whether a probe counts as silent: an eighth of it is one run below
/// `NEAR_ZERO`, or `DEEP_ZERO_RUN` samples in a row are below `DEEP_ZERO`.
pub open spec fn silent(probe: Seq<u64>) -> bool {
    ||| has_quiet_run(probe, probe.len() as int / NEAR_ZERO_FRACTION as int, NEAR_ZERO)
    ||| has_quiet_run(probe, DEEP_ZERO_RUN as int, DEEP_ZERO)
}

/// Tells whether `grain` holds a run of `num_consecutive_zeros` samples
/// in a row whose magnitude is below `effective_zero`.
pub fn check_zeros(grain: &Vec<u64>, num_consecutive_zeros: usize, effective_zero: u64) -> (found: bool)
    ensures
        found == has_quiet_run(grain@, num_consecutive_zeros as int, effective_zero),
{
    let ghost need = run_needed(num_consecutive_zeros as int);
    let mut consecutive: usize = 0;
    let mut i: usize = 0;
    while i < grain.len()
        invariant
            i <= grain.len(),
            consecutive <= i,
            consecutive < need,
            need == run_needed(num_consecutive_zeros as int),
            forall|j: int| i - consecutive <= j < i ==> grain[j] < effective_zero,
            consecutive < i ==> grain[i - consecutive - 1] >= effective_zero,
            forall|from: int|
                from + need <= i ==> !#[trigger] quiet_run_at(grain@, from, need, effective_zero),
        decreases grain.len() - i,
    {
        if grain[i] < effective_zero {
            consecutive += 1;
            if consecutive >= num_consecutive_zeros {
                assert(quiet_run_at(grain@, i + 1 - need, need, effective_zero));
                return true;
            }
            assert forall|from: int| from + need <= i + 1 implies !#[trigger] quiet_run_at(
                grain@,
                from,
                need,
                effective_zero,
            ) by {
                if from + need == i + 1 && 0 <= from {
                    assert(grain[i - consecutive] >= effective_zero);
                }
            }
        } else {
            consecutive = 0;
            assert forall|from: int| from + need <= i + 1 implies !#[trigger] quiet_run_at(
                grain@,
                from,
                need,
                effective_zero,
            ) by {
                if from + need == i + 1 && 0 <= from {
                    assert(grain[i as int] >= effective_zero);
                }
            }
        }
        i += 1;
    }
    false
}

/// Tells whether a probe is silent, by either of two rules: an eighth of
/// its length is one run of samples below `NEAR_ZERO`, or `DEEP_ZERO_RUN`
/// samples in a row are below `DEEP_ZERO`.  A grain is kept exactly when
/// both rules fail on its probe.
pub fn is_silent(probe: &Vec<u64>) -> (rejected: bool)
    ensures
        rejected == silent(probe@),
{
    check_zeros(probe, probe.len() / NEAR_ZERO_FRACTION, NEAR_ZERO) || check_zeros(
        probe,
        DEEP_ZERO_RUN,
        DEEP_ZERO,
    )
}

/// A probe of at least one sample whose every sample is below `NEAR_ZERO`,
/// an all-zero probe among them, is silent.
pub proof fn lemma_quiet_probe_is_silent(probe: Seq<u64>)
    requires
        probe.len() >= 1,
        forall|j: int| 0 <= j < probe.len() ==> probe[j] < NEAR_ZERO,
    ensures
        silent(probe),
{
    assert(quiet_run_at(probe, 0, run_needed(probe.len() as int / 8), NEAR_ZERO));
}

/// A probe with a single sample at or above `NEAR_ZERO`, at index `peak`,
/// is silent once an eighth of its length is more than one sample: the
/// quiet samples on one side of the peak are a long enough run.
pub proof fn lemma_single_peak_is_silent(probe: Seq<u64>, peak: int)
    requires
        0 <= peak < probe.len(),
        probe.len() as int / 8 > 1,
        forall|j: int| 0 <= j < probe.len() && j != peak ==> probe[j] < NEAR_ZERO,
    ensures
        silent(probe),
{
    let need = probe.len() as int / 8;
    if peak >= need {
        assert(quiet_run_at(probe, 0, run_needed(need), NEAR_ZERO));
    } else {
        assert(quiet_run_at(probe, peak + 1, run_needed(need), NEAR_ZERO));
    }
}

/// A probe with a single sample at or above `NEAR_ZERO` is kept only when
/// that sample is all there is: beside any other sample it is silent.
pub proof fn lemma_single_peak_is_kept_only_alone(probe: Seq<u64>, peak: int)
    requires
        0 <= peak < probe.len(),
        probe[peak] >= NEAR_ZERO,
        forall|j: int| 0 <= j < probe.len() && j != peak ==> probe[j] < NEAR_ZERO,
    ensures
        silent(probe) <==> probe.len() >= 2,
{
    let need = run_needed(probe.len() as int / 8);
    if probe.len() >= 2 {
        if probe.len() as int / 8 > 1 {
            lemma_single_peak_is_silent(probe, peak);
        } else if peak == 0 {
            assert(quiet_run_at(probe, 1, need, NEAR_ZERO));
        } else {
            assert(quiet_run_at(probe, 0, need, NEAR_ZERO));
        }
    } else {
        assert forall|from: int| !#[trigger] quiet_run_at(probe, from, need, NEAR_ZERO) by {
            if quiet_run_at(probe, from, need, NEAR_ZERO) {
                assert(probe[0] < NEAR_ZERO);
            }
        }
        assert forall|from: int| !#[trigger] quiet_run_at(
            probe,
            from,
            run_needed(DEEP_ZERO_RUN as int),
            DEEP_ZERO,
        ) by {}
    }
}

} // verus!
