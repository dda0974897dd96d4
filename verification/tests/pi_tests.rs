use monte_carlo_pi::combine;
use monte_carlo_pi::parallel_pi;
use monte_carlo_pi::partition_size;
use monte_carlo_pi::pi;
use monte_carlo_pi::point_in_unit_circle;
use monte_carlo_pi::Error;
use monte_carlo_pi::Estimate;
use monte_carlo_pi::DEFAULT_NUMBER_OF_SAMPLES;
use monte_carlo_pi::SCALE;

/// The estimated value of an `Estimate` as a float: 4 * inside / samples.
fn value(e: &Estimate) -> f64 {
    4.0 * (e.inside as f64) / (e.samples as f64)
}

#[test]
fn test_calculate_pi() {
    let expected_pi = 3.1415;
    let delta = 0.01;
    let estimate = value(&pi(DEFAULT_NUMBER_OF_SAMPLES).unwrap());
    assert!((estimate - expected_pi).abs() <= delta);
}

#[test]
fn test_parallel_calculate_pi() {
    let expected_pi = 3.1415;
    let delta = 0.01;
    let estimate = value(&parallel_pi(DEFAULT_NUMBER_OF_SAMPLES, 2).unwrap());
    assert!((estimate - expected_pi).abs() <= delta);
}

#[test]
fn estimate_lies_between_zero_and_four() {
    let e = pi(1_000).unwrap();
    let v = value(&e);
    assert!(e.inside <= e.samples);
    assert!(0.0 <= v && v <= 4.0);
}

#[test]
fn parallel_converges_with_one_worker() {
    let estimate = value(&parallel_pi(1_000_000, 1).unwrap());
    assert!((estimate - 3.1415).abs() <= 0.01);
}

#[test]
fn parallel_converges_with_four_workers() {
    let estimate = value(&parallel_pi(1_000_000, 4).unwrap());
    assert!((estimate - 3.1415).abs() <= 0.01);
}

#[test]
fn parallel_converges_with_eight_workers() {
    let estimate = value(&parallel_pi(1_000_000, 8).unwrap());
    assert!((estimate - 3.1415).abs() <= 0.01);
}

#[test]
fn single_worker_draws_every_sample() {
    let e = parallel_pi(12_345, 1).unwrap();
    assert_eq!(e.samples, 12_345);
}

#[test]
fn zero_samples_is_invalid() {
    assert_eq!(pi(0), Err(Error::InvalidArgument));
}

#[test]
fn zero_workers_is_invalid() {
    assert_eq!(parallel_pi(1_000_000, 0), Err(Error::InvalidArgument));
}

#[test]
fn more_workers_than_samples_is_invalid() {
    assert_eq!(parallel_pi(10, 16), Err(Error::InvalidArgument));
}

#[test]
fn partition_drops_the_remainder() {
    assert_eq!(partition_size(1_000_000, 8), Ok(125_000));
    assert_eq!(partition_size(7, 2), Ok(3));
    assert_eq!(partition_size(0, 3), Ok(0));
}

#[test]
fn partition_with_zero_workers_is_invalid() {
    assert_eq!(partition_size(1_000_000, 0), Err(Error::InvalidArgument));
}

#[test]
fn parallel_pools_the_partitioned_draws() {
    let e = parallel_pi(7, 2).unwrap();
    assert_eq!(e.samples, 6);
    assert!(e.inside <= e.samples);
}

#[test]
fn combine_is_the_arithmetic_mean() {
    let partials = vec![
        Estimate { inside: 1, samples: 4 },
        Estimate { inside: 3, samples: 4 },
    ];
    let combined = combine(&partials, 4);
    assert_eq!(combined.inside, 4);
    assert_eq!(combined.samples, 8);
    let mean = (value(&partials[0]) + value(&partials[1])) / 2.0;
    assert_eq!(value(&combined), mean);
    assert_eq!(value(&combined), 2.0);
}

#[test]
fn combine_of_one_partial_is_that_partial() {
    let partials = vec![Estimate { inside: 5, samples: 9 }];
    let combined = combine(&partials, 9);
    assert_eq!(combined, Estimate { inside: 5, samples: 9 });
}

#[test]
fn circle_membership_is_exact_on_the_boundary() {
    assert!(point_in_unit_circle(0, 0));
    assert!(point_in_unit_circle(SCALE, 0));
    assert!(point_in_unit_circle(0, -SCALE));
    assert!(!point_in_unit_circle(SCALE, 1));
    assert!(!point_in_unit_circle(SCALE, SCALE));
    assert!(!point_in_unit_circle(-SCALE, -SCALE));
}
