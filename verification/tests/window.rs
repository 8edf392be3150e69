use grain_processor::window::MAX_WINDOW_LENGTH;
use grain_processor::{apply_window, window_length};

#[test]
fn window_is_as_long_as_the_grain_up_to_the_cap() {
    assert_eq!(window_length(5000, 1024), 1024);
    assert_eq!(window_length(5000, 5000), 5000);
    assert_eq!(window_length(5000, 8192), 5000);
    assert_eq!(window_length(0, 8192), 0);
    assert_eq!(window_length(5000, 0), 0);
    assert_eq!(MAX_WINDOW_LENGTH, 5000);
}

#[test]
fn full_window_scales_every_sample_by_its_coefficient() {
    let mut grain = vec![1.0f64, 2.0, 3.0, 4.0, 5.0, 6.0];
    let window = vec![0.0f64, 0.25, 0.5, 0.75, 0.5, 0.125];
    apply_window(&mut grain, &window, |a: f64, b: f64| a * b);
    assert_eq!(grain, vec![0.0, 0.5, 1.5, 3.0, 2.5, 0.75]);
}

#[test]
fn full_window_of_odd_length_scales_every_sample() {
    let mut grain = vec![2.0f64, 2.0, 2.0, 2.0, 2.0];
    let window = vec![0.5f64, 1.5, 2.5, 3.5, 4.5];
    apply_window(&mut grain, &window, |a: f64, b: f64| a * b);
    assert_eq!(grain, vec![1.0, 3.0, 5.0, 7.0, 9.0]);
}

#[test]
fn short_window_leaves_the_middle_alone() {
    let mut grain = vec![1.0f64; 10];
    let window = vec![0.1f64, 0.2, 0.3, 0.4];
    apply_window(&mut grain, &window, |a: f64, b: f64| a * b);
    assert_eq!(grain, vec![0.1, 0.2, 1.0, 1.0, 1.0, 1.0, 1.0, 1.0, 0.3, 0.4]);
}

#[test]
fn short_window_of_odd_length_gives_the_tail_the_larger_half() {
    let mut grain = vec![10i64; 9];
    let window = vec![1i64, 2, 3, 4, 5];
    apply_window(&mut grain, &window, |a: i64, b: i64| a * b);
    assert_eq!(grain, vec![10, 20, 10, 10, 10, 10, 30, 40, 50]);
}

#[test]
fn window_of_one_coefficient_scales_the_last_sample() {
    let mut grain = vec![3i32, 3, 3];
    let window = vec![7i32];
    apply_window(&mut grain, &window, |a: i32, b: i32| a * b);
    assert_eq!(grain, vec![3, 3, 21]);
}

#[test]
fn empty_window_changes_nothing() {
    let mut grain = vec![1.5f64, -2.5, 3.5];
    let window: Vec<f64> = Vec::new();
    apply_window(&mut grain, &window, |a: f64, b: f64| a * b);
    assert_eq!(grain, vec![1.5, -2.5, 3.5]);
}

#[test]
fn each_edge_sample_is_scaled_once() {
    let mut grain = vec![0u32; 12];
    let window = vec![0u32; 7];
    apply_window(&mut grain, &window, |a: u32, _b: u32| a + 1);
    assert_eq!(grain, vec![1, 1, 1, 0, 0, 0, 0, 0, 1, 1, 1, 1]);
}

#[test]
fn scaling_takes_the_sample_first_and_the_coefficient_second() {
    let mut grain = vec![100i32, 200, 300, 400];
    let window = vec![1i32, 2];
    apply_window(&mut grain, &window, |a: i32, b: i32| a - b);
    assert_eq!(grain, vec![99, 200, 300, 398]);
}
