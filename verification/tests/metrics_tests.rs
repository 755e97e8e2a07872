//! Tests for the dive and segment statistics.
//!
//! Depths are millimetres, temperatures milli-degrees Celsius, rates
//! millimetres per minute.

use divelog_compute::metrics::{DepthClass, DiveInput, DiveStats, SampleInput, SegmentStats};

fn sample(
    t_sec: i32,
    depth_mm: i64,
    temp_mc: i64,
    setpoint_ppo2_mbar: Option<i64>,
    ceiling_mm: Option<i64>,
    gf99_milli: Option<i64>,
    gasmix_index: Option<i32>,
) -> SampleInput {
    SampleInput {
        t_sec,
        depth_mm,
        temp_mc,
        setpoint_ppo2_mbar,
        ceiling_mm,
        gf99_milli,
        gasmix_index,
    }
}

fn create_test_dive() -> DiveInput {
    DiveInput {
        start_time_unix: 1700000000,
        end_time_unix: 1700003600,
        bottom_time_sec: 3000,
    }
}

fn create_test_samples() -> Vec<SampleInput> {
    vec![
        sample(0, 0, 22000, Some(1000), Some(0), Some(0), None),
        sample(60, 10000, 20000, Some(1000), Some(0), Some(20000), None),
        sample(120, 20000, 18000, Some(1300), Some(0), Some(40000), None),
        sample(300, 30000, 16000, Some(1300), Some(3000), Some(60000), None),
        sample(600, 30000, 16000, Some(1300), Some(6000), Some(80000), None),
        sample(900, 20000, 17000, Some(1000), Some(3000), Some(70000), None),
        sample(1200, 5000, 19000, Some(1000), Some(0), Some(50000), None),
        sample(1500, 0, 21000, Some(1000), Some(0), Some(30000), None),
    ]
}

#[test]
fn test_depth_class() {
    assert_eq!(DepthClass::from_depth_mm(10000), DepthClass::Recreational);
    assert_eq!(DepthClass::from_depth_mm(18000), DepthClass::Recreational);
    assert_eq!(DepthClass::from_depth_mm(25000), DepthClass::Deep);
    assert_eq!(DepthClass::from_depth_mm(40000), DepthClass::Deep);
    assert_eq!(DepthClass::from_depth_mm(50000), DepthClass::Extended);
    assert_eq!(DepthClass::from_depth_mm(70000), DepthClass::Extreme);
}

#[test]
fn test_depth_class_label() {
    assert_eq!(DepthClass::Recreational.label(), "Recreational");
    assert_eq!(DepthClass::Deep.label(), "Deep");
    assert_eq!(DepthClass::Extended.label(), "Extended Range");
    assert_eq!(DepthClass::Extreme.label(), "Extreme");
}

#[test]
fn test_dive_stats_compute() {
    let dive = create_test_dive();
    let samples = create_test_samples();

    let stats = DiveStats::compute(&dive, &samples);

    assert_eq!(stats.max_depth_mm, 30000);
    assert!(stats.avg_depth_mm > 0);
    assert!(stats.weighted_avg_depth_mm > 0);
    assert_eq!(stats.min_temp_mc, 16000);
    assert_eq!(stats.max_temp_mc, 22000);
    assert!(stats.deco_time_sec > 0);
    assert_eq!(stats.max_ceiling_mm, 6000);
    assert_eq!(stats.max_gf99_milli, 80000);
    assert_eq!(stats.gas_switch_count, 0); // all gasmix_index are None
    assert_eq!(stats.depth_class, DepthClass::Deep);
    // Descent: 30 m over 5 min (first max at t=300) = 6 m/min
    assert_eq!(stats.descent_rate_mm_min, 6000);
    // Ascent: 30 m over 15 min (last max at t=600, end at t=1500) = 2 m/min
    assert_eq!(stats.ascent_rate_mm_min, 2000);
}

#[test]
fn test_dive_stats_exact_averages() {
    let dive = DiveInput {
        start_time_unix: 1000,
        end_time_unix: 1600,
        bottom_time_sec: 0,
    };
    let samples = vec![
        sample(0, 10000, 20000, None, None, None, None),
        sample(60, 20000, 18000, None, None, None, None),
        sample(120, 30000, 16000, None, None, None, None),
    ];
    let stats = DiveStats::compute(&dive, &samples);
    assert_eq!(stats.total_time_sec, 600);
    assert_eq!(stats.avg_depth_mm, 20000);
    assert_eq!(stats.avg_temp_mc, 18000);
    // Weighted by 60 s intervals (the last sample reuses its preceding
    // interval): (10000 + 20000 + 30000) * 60 / 180 = 20000.
    assert_eq!(stats.weighted_avg_depth_mm, 20000);
    assert_eq!(stats.bottom_time_sec, 180);
}

#[test]
fn test_dive_stats_empty_samples() {
    let dive = create_test_dive();
    let stats = DiveStats::compute(&dive, &[]);

    assert_eq!(stats.total_time_sec, 3600);
    assert_eq!(stats.bottom_time_sec, dive.bottom_time_sec as i64);
}

#[test]
fn test_segment_stats() {
    let samples = create_test_samples();

    let stats = SegmentStats::compute(300, 600, &samples);

    assert_eq!(stats.duration_sec, 300);
    assert_eq!(stats.max_depth_mm, 30000);
    assert_eq!(stats.min_temp_mc, 16000);
    assert!(stats.deco_time_sec > 0);
    assert_eq!(stats.sample_count, 2);
}

#[test]
fn test_segment_stats_empty() {
    let stats = SegmentStats::compute(5000, 6000, &[]);

    assert_eq!(stats.duration_sec, 1000);
    assert_eq!(stats.sample_count, 0);
    assert_eq!(stats.max_depth_mm, 0);
}

#[test]
fn test_segment_stats_window_inclusive() {
    let samples = vec![
        sample(100, 10000, 20000, None, None, None, None),
        sample(200, 20000, 19000, None, None, None, None),
        sample(300, 30000, 18000, None, None, None, None),
        sample(400, 20000, 19000, None, None, None, None),
    ];
    // Both window edges are inclusive.
    let stats = SegmentStats::compute(200, 300, &samples);
    assert_eq!(stats.sample_count, 2);
    assert_eq!(stats.max_depth_mm, 30000);
    assert_eq!(stats.avg_depth_mm, 25000);
}

#[test]
fn test_gas_switch_count_by_gasmix_index() {
    let dive = create_test_dive();
    let samples = vec![
        sample(0, 0, 20000, None, None, None, Some(0)),
        sample(60, 10000, 20000, None, None, None, Some(0)),
        sample(120, 20000, 18000, None, None, None, Some(1)), // switch 1
        sample(300, 30000, 16000, None, None, None, Some(1)),
        sample(600, 20000, 17000, None, None, None, Some(0)), // switch 2
        sample(900, 5000, 19000, None, None, None, Some(0)),
    ];
    let stats = DiveStats::compute(&dive, &samples);
    assert_eq!(stats.gas_switch_count, 2);
}

#[test]
fn test_gas_switch_count_setpoint_noise_ignored() {
    // CCR dive with fluctuating setpoint but constant gasmix_index — no gas
    // switches.
    let dive = create_test_dive();
    let samples = vec![
        sample(0, 0, 20000, Some(700), None, None, Some(0)),
        sample(60, 10000, 20000, Some(1000), None, None, Some(0)),
        sample(120, 20000, 18000, Some(1300), None, None, Some(0)),
        sample(300, 30000, 16000, Some(1300), None, None, Some(0)),
        sample(600, 20000, 17000, Some(1000), None, None, Some(0)),
        sample(900, 5000, 19000, Some(700), None, None, Some(0)),
    ];
    let stats = DiveStats::compute(&dive, &samples);
    assert_eq!(stats.gas_switch_count, 0);
}

#[test]
fn test_rates_single_sample() {
    let samples = vec![sample(0, 10000, 20000, None, None, None, None)];
    let (descent, ascent) = DiveStats::compute_rates(&samples);
    assert_eq!(descent, 0);
    assert_eq!(ascent, 0);
}

#[test]
fn test_rates_no_bottom_time() {
    // Max depth only at one sample — no flat bottom
    let samples = vec![
        sample(0, 0, 20000, None, None, None, None),
        sample(300, 30000, 18000, None, None, None, None),
        sample(900, 0, 20000, None, None, None, None),
    ];
    let (descent, ascent) = DiveStats::compute_rates(&samples);
    // 30 m / 5 min = 6 m/min
    assert_eq!(descent, 6000);
    // 30 m / 10 min = 3 m/min
    assert_eq!(ascent, 3000);
}

#[test]
fn test_rates_max_at_start() {
    // Max depth at t=0 → descent 0, ascent computed
    let samples = vec![
        sample(0, 20000, 18000, None, None, None, None),
        sample(600, 0, 20000, None, None, None, None),
    ];
    let (descent, ascent) = DiveStats::compute_rates(&samples);
    assert_eq!(descent, 0);
    // 20 m / 10 min = 2 m/min
    assert_eq!(ascent, 2000);
}

#[test]
fn test_rates_max_at_end() {
    // Max depth at last sample → descent computed, ascent 0
    let samples = vec![
        sample(0, 0, 20000, None, None, None, None),
        sample(600, 20000, 18000, None, None, None, None),
    ];
    let (descent, ascent) = DiveStats::compute_rates(&samples);
    // 20 m / 10 min = 2 m/min
    assert_eq!(descent, 2000);
    assert_eq!(ascent, 0);
}

#[test]
fn test_rates_multi_level_dive() {
    // Profile: 0→20m→10m→30m→0m — rates should be based on 30 m max
    let samples = vec![
        sample(0, 0, 20000, None, None, None, None),
        sample(120, 20000, 18000, None, None, None, None),
        sample(300, 10000, 19000, None, None, None, None),
        sample(600, 30000, 16000, None, None, None, None),
        sample(1200, 0, 20000, None, None, None, None),
    ];
    let (descent, ascent) = DiveStats::compute_rates(&samples);
    // Descent: 30 m / 10 min = 3 m/min (surface to first 30 m at t=600)
    assert_eq!(descent, 3000);
    // Ascent: 30 m / 10 min = 3 m/min (last 30 m at t=600 to surface at t=1200)
    assert_eq!(ascent, 3000);
}

#[test]
fn test_dive_stats_profile_scenario() {
    // A square profile: down to 30 m in a minute, 19 minutes of bottom
    // time, then up in even steps.
    let dive = DiveInput {
        start_time_unix: 0,
        end_time_unix: 1380,
        bottom_time_sec: 0,
    };
    let samples = vec![
        sample(0, 0, 20000, None, None, None, None),
        sample(60, 30000, 20000, None, None, None, None),
        sample(1200, 30000, 20000, None, None, None, None),
        sample(1260, 20000, 20000, None, None, None, None),
        sample(1320, 10000, 20000, None, None, None, None),
        sample(1380, 0, 20000, None, None, None, None),
    ];
    let stats = DiveStats::compute(&dive, &samples);
    assert_eq!(stats.max_depth_mm, 30000);
    assert_eq!(stats.depth_class, DepthClass::Deep);
    // Descent: 30 m over the first minute = 30 m/min.
    assert_eq!(stats.descent_rate_mm_min, 30000);
    // Ascent: 30 m from the last time at maximum depth (t=1200) to the
    // profile end (t=1380), 3 minutes = 10 m/min.
    assert_eq!(stats.ascent_rate_mm_min, 10000);
}
