use creo_bench::config::{DeadlineConfig, LoadProfileConfig, LoadStepConfig};
use creo_bench::orchestrator::{distribute_count, distribute_profile};

fn deadline(secs: f64) -> DeadlineConfig {
    DeadlineConfig::from_bits(secs.to_bits())
}

fn deadline_f64(d: DeadlineConfig) -> f64 {
    f64::from_bits(d.to_bits())
}

#[test]
fn distributes_evenly_when_exact_multiple() {
    let counts = distribute_count(100, 5);
    assert_eq!(counts.len(), 5);
    assert!(counts.iter().all(|&c| c == 20));
    assert_eq!(counts.iter().sum::<u32>(), 100);
}

#[test]
fn distributes_remainder_across_first_generators() {
    let counts = distribute_count(103, 5);
    assert_eq!(counts.len(), 5);
    assert_eq!(counts, [21, 21, 21, 20, 20]);
    assert_eq!(counts.iter().sum::<u32>(), 103);
}

#[test]
fn handles_single_generator() {
    let counts = distribute_count(50, 1);
    assert_eq!(counts, vec![50]);
}

#[test]
fn sum_equals_total() {
    for total in [1, 50, 99, 100, 101, 1000] {
        for n in [1, 2, 5, 10, 100] {
            if n as u32 > total {
                continue;
            }
            let counts = distribute_count(total, n);
            assert_eq!(counts.iter().sum::<u32>(), total);
        }
    }
}

#[test]
fn output_count_matches_num_generators() {
    let profile = LoadProfileConfig {
        steps: vec![LoadStepConfig { deadline: deadline(1.0), count: 100 }],
    };
    let profiles = distribute_profile(&profile, 3);
    assert_eq!(profiles.len(), 3);
}

#[test]
fn sum_of_per_step_counts_across_profiles_equals_original() {
    let profile = LoadProfileConfig {
        steps: vec![
            LoadStepConfig { deadline: deadline(1.0), count: 100 },
            LoadStepConfig { deadline: deadline(2.0), count: 50 },
            LoadStepConfig { deadline: deadline(3.0), count: 200 },
        ],
    };
    let profiles = distribute_profile(&profile, 4);
    for (step_idx, original_step) in profile.steps.iter().enumerate() {
        let sum: u32 = profiles.iter().map(|p| p.steps[step_idx].count).sum();
        assert_eq!(sum, original_step.count);
    }
}

#[test]
fn deadlines_are_preserved() {
    let profile = LoadProfileConfig {
        steps: vec![
            LoadStepConfig { deadline: deadline(5.0), count: 100 },
            LoadStepConfig { deadline: deadline(10.0), count: 50 },
        ],
    };
    let profiles = distribute_profile(&profile, 3);
    for p in &profiles {
        for (step_idx, original_step) in profile.steps.iter().enumerate() {
            assert!(
                (deadline_f64(p.steps[step_idx].deadline) - deadline_f64(original_step.deadline)).abs()
                    < f64::EPSILON
            );
        }
    }
}

#[test]
fn single_generator_returns_original_profile() {
    let profile = LoadProfileConfig {
        steps: vec![
            LoadStepConfig { deadline: deadline(1.0), count: 100 },
            LoadStepConfig { deadline: deadline(2.0), count: 50 },
        ],
    };
    let profiles = distribute_profile(&profile, 1);
    assert_eq!(profiles.len(), 1);
    assert_eq!(profiles[0], profile);
}

#[test]
fn zero_count_steps_are_distributed() {
    let profile = LoadProfileConfig {
        steps: vec![LoadStepConfig { deadline: deadline(1.0), count: 0 }],
    };
    let profiles = distribute_profile(&profile, 3);
    assert_eq!(profiles.len(), 3);
    for p in &profiles {
        assert_eq!(p.steps[0].count, 0);
        assert!((deadline_f64(p.steps[0].deadline) - 1.0).abs() < f64::EPSILON);
    }
}

#[test]
fn more_generators_than_requests() {
    let profile = LoadProfileConfig {
        steps: vec![LoadStepConfig { deadline: deadline(1.0), count: 3 }],
    };
    let profiles = distribute_profile(&profile, 5);
    assert_eq!(profiles.len(), 5);
    let sum: u32 = profiles.iter().map(|p| p.steps[0].count).sum();
    assert_eq!(sum, 3);
}

#[test]
fn shares_never_differ_by_more_than_one() {
    let counts = distribute_count(7, 3);
    assert_eq!(counts, vec![3, 2, 2]);
    let max = *counts.iter().max().unwrap();
    let min = *counts.iter().min().unwrap();
    assert!(max - min <= 1);
}

#[test]
fn empty_profile_splits_into_empty_profiles() {
    let profile = LoadProfileConfig { steps: vec![] };
    let profiles = distribute_profile(&profile, 2);
    assert_eq!(profiles.len(), 2);
    assert!(profiles.iter().all(|p| p.steps.is_empty()));
}
