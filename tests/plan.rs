use epicycle::harmonics::{negative_harmonics, positive_harmonics, requested_harmonics};
use epicycle::plan::{plan_coefficients, CoefficientError};
use epicycle::resample::{next_vertex, sample_schedule, SampleRef};
use epicycle::INTERPOLATION_AMOUNT;

#[test]
fn next_vertex_wraps_to_first() {
    assert_eq!(next_vertex(0, 4), 1);
    assert_eq!(next_vertex(2, 4), 3);
    assert_eq!(next_vertex(3, 4), 0);
    assert_eq!(next_vertex(0, 1), 0);
}

#[test]
fn schedule_walks_edges_in_order() {
    let s = sample_schedule(2, 3);
    let expected = vec![
        SampleRef { from: 0, to: 1, step: 0 },
        SampleRef { from: 0, to: 1, step: 1 },
        SampleRef { from: 0, to: 1, step: 2 },
        SampleRef { from: 1, to: 0, step: 0 },
        SampleRef { from: 1, to: 0, step: 1 },
        SampleRef { from: 1, to: 0, step: 2 },
    ];
    assert_eq!(s, expected);
}

#[test]
fn schedule_of_no_points_is_empty() {
    assert!(sample_schedule(0, INTERPOLATION_AMOUNT).is_empty());
}

#[test]
fn square_has_twenty_samples_per_edge() {
    let p = plan_coefficients(4, 2).unwrap();
    assert_eq!(p.samples.len(), 80);
    assert_eq!(p.samples[19], SampleRef { from: 0, to: 1, step: 19 });
    assert_eq!(p.samples[20], SampleRef { from: 1, to: 2, step: 0 });
    assert_eq!(p.samples[79], SampleRef { from: 3, to: 0, step: 19 });
    assert_eq!(p.positive, vec![1, 2]);
    assert_eq!(p.negative, vec![-1, -2]);
}

#[test]
fn empty_input_is_rejected() {
    assert!(matches!(plan_coefficients(0, 3), Err(CoefficientError::EmptyInput)));
    assert!(matches!(plan_coefficients(0, 0), Err(CoefficientError::EmptyInput)));
}

#[test]
fn zero_extent_plans_no_harmonics() {
    let p = plan_coefficients(3, 0).unwrap();
    assert!(p.positive.is_empty());
    assert!(p.negative.is_empty());
    assert_eq!(p.samples.len(), 60);
}

#[test]
fn negative_extent_plans_no_harmonics() {
    let p = plan_coefficients(3, -5).unwrap();
    assert!(p.positive.is_empty());
    assert!(p.negative.is_empty());
    assert_eq!(requested_harmonics(-5), 0);
    assert_eq!(requested_harmonics(isize::MIN), 0);
}

#[test]
fn harmonic_counts_match_extent() {
    for extent in 0..12isize {
        let p = plan_coefficients(5, extent).unwrap();
        assert_eq!(p.positive.len(), extent as usize);
        assert_eq!(p.negative.len(), extent as usize);
    }
}

#[test]
fn harmonics_follow_index_order() {
    assert_eq!(positive_harmonics(5), vec![1, 2, 3, 4, 5]);
    assert_eq!(negative_harmonics(5), vec![-1, -2, -3, -4, -5]);
    assert_eq!(requested_harmonics(7), 7);
}

#[test]
fn paired_harmonics_are_distinct() {
    let p = plan_coefficients(4, 6).unwrap();
    for i in 0..6 {
        assert_ne!(p.positive[i], p.negative[i]);
        assert_eq!(p.positive[i], -p.negative[i]);
    }
}

#[test]
fn single_point_is_stationary() {
    let p = plan_coefficients(1, 3).unwrap();
    assert_eq!(p.samples.len(), INTERPOLATION_AMOUNT);
    for (k, s) in p.samples.iter().enumerate() {
        assert_eq!(s.from, 0);
        assert_eq!(s.to, 0);
        assert_eq!(s.step, k);
    }
}
