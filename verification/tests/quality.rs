use grain_processor::quality::{DEEP_ZERO, DEEP_ZERO_RUN, NEAR_ZERO, NEAR_ZERO_FRACTION};
use grain_processor::{check_zeros, is_silent};

fn magnitudes(samples: &[f64]) -> Vec<u64> {
    samples.iter().map(|x| x.abs().to_bits()).collect()
}

#[test]
fn thresholds_are_the_patterns_of_their_amplitudes() {
    assert_eq!(NEAR_ZERO, 1e-3f64.to_bits());
    assert_eq!(DEEP_ZERO, 1e-5f64.to_bits());
    assert_eq!(NEAR_ZERO_FRACTION, 8);
    assert_eq!(DEEP_ZERO_RUN, 50);
}

#[test]
fn magnitudes_order_as_amplitudes_do() {
    let samples = [0.0, -0.0, 1e-7, -1e-5, 9.99e-4, 1e-3, -1e-3, 0.5, -1.0, f64::INFINITY];
    for a in samples {
        for b in samples {
            assert_eq!(a.abs() < b.abs(), a.abs().to_bits() < b.abs().to_bits());
        }
        assert_eq!(a.abs() < 1e-3, a.abs().to_bits() < NEAR_ZERO);
        assert_eq!(a.abs() < 1e-5, a.abs().to_bits() < DEEP_ZERO);
    }
    assert!(!(f64::NAN.abs() < 1e-3));
    assert!(!(f64::NAN.abs().to_bits() < NEAR_ZERO));
}

#[test]
fn check_zeros_finds_a_run_of_the_asked_length() {
    let grain = magnitudes(&[1.0, 0.0, 0.0, 0.0, 1.0, 0.0]);
    assert!(check_zeros(&grain, 1, NEAR_ZERO));
    assert!(check_zeros(&grain, 2, NEAR_ZERO));
    assert!(check_zeros(&grain, 3, NEAR_ZERO));
    assert!(!check_zeros(&grain, 4, NEAR_ZERO));
}

#[test]
fn check_zeros_does_not_join_runs_across_a_loud_sample() {
    let grain = magnitudes(&[0.0, 0.0, 0.5, 0.0, 0.0, -0.5, 0.0, 0.0]);
    assert!(check_zeros(&grain, 2, NEAR_ZERO));
    assert!(!check_zeros(&grain, 3, NEAR_ZERO));
}

#[test]
fn check_zeros_finds_a_run_at_the_very_end() {
    let grain = magnitudes(&[0.5, 0.5, 0.5, 0.0, 0.0]);
    assert!(check_zeros(&grain, 2, NEAR_ZERO));
    assert!(!check_zeros(&grain, 3, NEAR_ZERO));
}

#[test]
fn check_zeros_compares_strictly() {
    let grain = magnitudes(&[1e-3, -1e-3, 1e-3]);
    assert!(!check_zeros(&grain, 1, NEAR_ZERO));
    let below = magnitudes(&[9.999e-4, -9.999e-4, 9.999e-4]);
    assert!(check_zeros(&below, 3, NEAR_ZERO));
    assert!(!check_zeros(&below, 1, DEEP_ZERO));
}

#[test]
fn asking_for_no_run_is_asking_for_one_sample() {
    let loud = magnitudes(&[0.5, -0.5, 0.25]);
    assert!(!check_zeros(&loud, 0, NEAR_ZERO));
    let one_quiet = magnitudes(&[0.5, 0.0, 0.25]);
    assert!(check_zeros(&one_quiet, 0, NEAR_ZERO));
    assert!(check_zeros(&one_quiet, 1, NEAR_ZERO));
}

#[test]
fn an_empty_grain_has_no_run() {
    let grain: Vec<u64> = Vec::new();
    assert!(!check_zeros(&grain, 0, NEAR_ZERO));
    assert!(!check_zeros(&grain, 1, NEAR_ZERO));
    assert!(!is_silent(&grain));
}

#[test]
fn a_run_longer_than_the_grain_is_never_found() {
    let grain = magnitudes(&[0.0; 10]);
    assert!(check_zeros(&grain, 10, NEAR_ZERO));
    assert!(!check_zeros(&grain, 11, NEAR_ZERO));
    assert!(!check_zeros(&grain, usize::MAX, NEAR_ZERO));
}

#[test]
fn nothing_is_below_a_threshold_of_zero() {
    let grain = magnitudes(&[0.0; 10]);
    assert!(!check_zeros(&grain, 1, 0));
}

#[test]
fn an_all_zero_grain_is_silent() {
    for len in [1usize, 2, 7, 8, 9, 15, 16, 49, 50, 400, 1024] {
        let grain = magnitudes(&vec![0.0; len]);
        assert!(is_silent(&grain), "length {}", len);
    }
}

#[test]
fn a_single_peak_among_zeros_is_silent() {
    for len in [16usize, 17, 64, 1024] {
        for peak in [0, 1, len / 8 - 1, len / 8, len / 2, len - 2, len - 1] {
            let mut samples = vec![0.0; len];
            samples[peak] = 1.0;
            assert!(is_silent(&magnitudes(&samples)), "length {} peak {}", len, peak);
        }
    }
}

#[test]
fn a_single_peak_is_kept_only_when_it_is_alone() {
    assert!(!is_silent(&magnitudes(&[1.0])));
    assert!(is_silent(&magnitudes(&[1.0, 0.0])));
    assert!(is_silent(&magnitudes(&[0.0, 1.0])));
    assert!(is_silent(&magnitudes(&[0.0, 0.0, 1.0, 0.0, 0.0, 0.0, 0.0, 0.0, 0.0])));
}

#[test]
fn a_loud_grain_is_kept() {
    let samples: Vec<f64> = (0..1024).map(|i| if i % 2 == 0 { 0.5 } else { -0.5 }).collect();
    assert!(!is_silent(&magnitudes(&samples)));
}

#[test]
fn an_eighth_of_near_zero_samples_in_a_row_is_silent() {
    let mut samples = vec![0.5; 1024];
    for i in 300..427 {
        samples[i] = 5e-4;
    }
    assert!(!is_silent(&magnitudes(&samples)));
    samples[427] = -5e-4;
    assert!(is_silent(&magnitudes(&samples)));
}

#[test]
fn fifty_deep_zeros_in_a_row_are_silent() {
    let mut samples = vec![0.5; 1024];
    for i in 900..949 {
        samples[i] = 1e-6;
    }
    assert!(!is_silent(&magnitudes(&samples)));
    samples[949] = -1e-6;
    assert!(is_silent(&magnitudes(&samples)));
}

#[test]
fn fifty_near_zeros_that_are_not_deep_are_kept() {
    let mut samples = vec![0.5; 1024];
    for i in 0..100 {
        samples[i] = 5e-5;
    }
    assert!(!is_silent(&magnitudes(&samples)));
}

#[test]
fn the_two_rules_are_checked_as_check_zeros_checks_them() {
    let mut samples = vec![0.25; 96];
    for i in 10..22 {
        samples[i] = 2e-4;
    }
    let grain = magnitudes(&samples);
    let by_rules = check_zeros(&grain, grain.len() / 8, NEAR_ZERO) || check_zeros(&grain, 50, DEEP_ZERO);
    assert_eq!(is_silent(&grain), by_rules);
    assert!(by_rules);
}
