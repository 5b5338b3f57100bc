use hindmarsh_rose::negotiator::select_step;
use hindmarsh_rose::table::POINTS_SCALE;
use hindmarsh_rose::{StepEntry, StepSizeTable, Timing, TimingConfig, MAX_SUB_STEPS};

fn burst_config(burst_ns: i64, period_ns: i64) -> TimingConfig {
    TimingConfig {
        burst_ns: Some(burst_ns),
        period_ns: Some(period_ns),
        time_increment_ns: None,
    }
}

fn configured(cfg: TimingConfig) -> Timing {
    let mut t = Timing::new();
    t.apply_config(&cfg);
    t
}

#[test]
fn negotiator_regression_fixture() {
    let t = configured(burst_config(1_000_000_000, 1_000_000));
    assert_eq!(t.dt_ns(), 93_300_000);
    assert_eq!(t.sub_step_count(), 3);
}

#[test]
fn fixture_selects_row_of_the_standard_table() {
    let table = StepSizeTable::standard();
    assert_eq!(select_step(&table, 1_000_000_000, 1_000_000), Some(141));
    let e = table.entry(141);
    assert_eq!(e.step_ns, 93_300_000);
    assert_eq!(e.points, 3_032_899_696);
}

#[test]
fn standard_table_shape() {
    let table = StepSizeTable::standard();
    assert_eq!(table.len(), 144);
    assert_eq!(table.entry(0), StepEntry { step_ns: 500_000, points: 577_638_000_000 });
    assert_eq!(table.entry(143), StepEntry { step_ns: 100_000_000, points: 2_829_684_659 });
    for i in 1..table.len() {
        assert!(table.entry(i - 1).step_ns < table.entry(i).step_ns);
        assert!(table.entry(i - 1).points > table.entry(i).points);
    }
}

#[test]
fn last_row_accepted_when_near_integer() {
    // 200 points requested: the largest step gives 14.15 times that.
    let t = configured(burst_config(2_000_000_000, 10_000_000));
    assert_eq!(t.dt_ns(), 100_000_000);
    assert_eq!(t.sub_step_count(), 14);
    let t = configured(burst_config(300_000_000, 1_000_000));
    assert_eq!(t.dt_ns(), 100_000_000);
    assert_eq!(t.sub_step_count(), 9);
}

#[test]
fn later_multiple_accepted() {
    let t = configured(burst_config(500_000_000, 1_000_000));
    assert_eq!(t.dt_ns(), 93_300_000);
    assert_eq!(t.sub_step_count(), 6);
    let t = configured(burst_config(1_000_000_000, 2_000_000));
    assert_eq!(t.dt_ns(), 93_300_000);
    assert_eq!(t.sub_step_count(), 6);
}

#[test]
fn request_above_smallest_points_uses_fallback_scan() {
    let t = configured(burst_config(3_000_000_000, 1_000_000));
    assert_eq!(t.dt_ns(), 93_300_000);
    assert_eq!(t.sub_step_count(), 1);
    let t = configured(burst_config(1_000_000_000, 100_000));
    assert_eq!(t.dt_ns(), 28_100_000);
    assert_eq!(t.sub_step_count(), 1);
}

#[test]
fn fallback_takes_first_row_above_request_without_trying_multiples() {
    // 10072 points requested: rows with more points exist, so the scan at
    // the request alone decides, even though its ratio is not near an integer.
    let table = StepSizeTable::standard();
    assert_eq!(select_step(&table, 10_072_000, 1_000), Some(75));
    let t = configured(burst_config(10_072_000, 1_000));
    assert_eq!(t.dt_ns(), 25_500_000);
    assert_eq!(t.sub_step_count(), 1);
}

#[test]
fn no_row_above_request_keeps_step() {
    let table = StepSizeTable::standard();
    assert_eq!(select_step(&table, 1_000_000_000, 1_000), None);
    let t = configured(burst_config(1_000_000_000, 1_000));
    assert_eq!(t.dt_ns(), 1_500_000);
    assert_eq!(t.sub_step_count(), 1);
}

#[test]
fn selected_row_exceeds_request() {
    let table = StepSizeTable::standard();
    for &(burst, period) in &[
        (1_000_000_000i64, 1_000_000i64),
        (500_000_000, 1_000_000),
        (3_000_000_000, 1_000_000),
        (10_072_000, 1_000),
        (2_000_000_000, 10_000_000),
    ] {
        let i = select_step(&table, burst, period).unwrap();
        let points = table.entry(i).points as u128;
        assert!(points * period as u128 > POINTS_SCALE as u128 * burst as u128);
    }
}

#[test]
fn no_burst_window_divides_period_by_step() {
    let t = configured(burst_config(0, 2_250_000));
    assert_eq!(t.dt_ns(), 1_500_000);
    assert_eq!(t.sub_step_count(), 2);
    let t = configured(burst_config(-1, 1_000_000));
    assert_eq!(t.dt_ns(), 1_500_000);
    assert_eq!(t.sub_step_count(), 1);
    let t = configured(burst_config(0, 4_400_000));
    assert_eq!(t.sub_step_count(), 3);
}

#[test]
fn sub_step_count_is_capped() {
    let t = configured(TimingConfig {
        burst_ns: Some(0),
        period_ns: Some(1_000_000_000),
        time_increment_ns: Some(1_000),
    });
    assert_eq!(t.dt_ns(), 1_000);
    assert_eq!(t.sub_step_count(), MAX_SUB_STEPS);
}

#[test]
fn negative_time_increment_clamps_to_zero() {
    let t = configured(TimingConfig {
        burst_ns: Some(0),
        period_ns: Some(1_000_000),
        time_increment_ns: Some(-5),
    });
    assert_eq!(t.dt_ns(), 0);
    assert_eq!(t.sub_step_count(), MAX_SUB_STEPS);
}

#[test]
fn time_increment_is_overridden_by_search() {
    let t = configured(TimingConfig {
        burst_ns: Some(1_000_000_000),
        period_ns: Some(1_000_000),
        time_increment_ns: Some(2_000_000),
    });
    assert_eq!(t.dt_ns(), 93_300_000);
    assert_eq!(t.sub_step_count(), 3);
}

#[test]
fn non_positive_period_takes_one_step() {
    let t = configured(burst_config(1_000_000_000, 0));
    assert_eq!(t.sub_step_count(), 1);
    assert_eq!(t.dt_ns(), 1_500_000);
    let t = configured(burst_config(1_000_000_000, -3));
    assert_eq!(t.sub_step_count(), 1);
}

#[test]
fn sub_step_count_bounds() {
    for &burst in &[-5i64, 0, 1, 1_000, 1_000_000, 1_000_000_000, i64::MAX] {
        for &period in &[1i64, 1_000, 1_000_000, 1_000_000_000, i64::MAX] {
            let t = configured(burst_config(burst, period));
            assert!(t.sub_step_count() >= 1);
            assert!(t.sub_step_count() <= MAX_SUB_STEPS);
        }
    }
}

#[test]
fn reconfiguration_is_idempotent() {
    let cfgs = [
        burst_config(1_000_000_000, 1_000_000),
        burst_config(0, 2_250_000),
        burst_config(1_000_000_000, 1_000),
        TimingConfig { burst_ns: None, period_ns: None, time_increment_ns: Some(700_000) },
        TimingConfig {
            burst_ns: Some(500_000_000),
            period_ns: Some(1_000_000),
            time_increment_ns: Some(-1),
        },
    ];
    for cfg in cfgs.iter() {
        let mut once = Timing::new();
        once.apply_config(cfg);
        let mut twice = Timing::new();
        twice.apply_config(cfg);
        twice.apply_config(cfg);
        assert_eq!(once.dt_ns(), twice.dt_ns());
        assert_eq!(once.sub_step_count(), twice.sub_step_count());
        assert_eq!(once.burst_ns(), twice.burst_ns());
        assert_eq!(once.period_ns(), twice.period_ns());
    }
}

#[test]
fn new_timing_defaults() {
    let t = Timing::new();
    assert_eq!(t.dt_ns(), 1_500_000);
    assert_eq!(t.burst_ns(), 1_000_000_000);
    assert_eq!(t.period_ns(), 1_000_000);
    assert_eq!(t.sub_step_count(), 1);
    assert_eq!(t.table().len(), 144);
}

#[test]
fn missing_fields_keep_values() {
    let mut t = configured(burst_config(500_000_000, 1_000_000));
    t.apply_config(&TimingConfig { burst_ns: None, period_ns: None, time_increment_ns: None });
    assert_eq!(t.burst_ns(), 500_000_000);
    assert_eq!(t.period_ns(), 1_000_000);
    assert_eq!(t.dt_ns(), 93_300_000);
    assert_eq!(t.sub_step_count(), 6);
}

#[test]
fn host_period_change_reruns_search() {
    let mut t = Timing::new();
    t.observe_host_period(1_000_000);
    assert_eq!(t.dt_ns(), 1_500_000);
    assert_eq!(t.sub_step_count(), 1);
    t.observe_host_period(2_000_000);
    assert_eq!(t.period_ns(), 2_000_000);
    assert_eq!(t.dt_ns(), 93_300_000);
    assert_eq!(t.sub_step_count(), 6);
}

#[test]
fn custom_table() {
    let rows = vec![
        StepEntry { step_ns: 100, points: 3_000_000_000 },
        StepEntry { step_ns: 200, points: 2_500_000_000 },
    ];
    let table = StepSizeTable::from_entries(rows).unwrap();
    // 1000 points requested; 2.5 is not near an integer and no row exceeds
    // three times the request, so the last row found stays.
    assert_eq!(select_step(&table, 1_000, 1), Some(1));
    // 1200 points requested: 2500 is 2.08 times that.
    assert_eq!(select_step(&table, 1_200, 1), Some(1));
    // The defaults ask for 1000 points per tick: the last row stays, and
    // 2.5 rounds up to three sub-steps.
    let t = Timing::with_table(table);
    assert_eq!(t.dt_ns(), 200);
    assert_eq!(t.sub_step_count(), 3);
}

#[test]
fn rejected_tables() {
    assert!(StepSizeTable::from_entries(vec![]).is_none());
    assert!(StepSizeTable::from_entries(vec![StepEntry { step_ns: 0, points: 5 }]).is_none());
    assert!(StepSizeTable::from_entries(vec![StepEntry { step_ns: 5, points: 0 }]).is_none());
    assert!(StepSizeTable::from_entries(vec![
        StepEntry { step_ns: 5, points: 9 },
        StepEntry { step_ns: 5, points: 8 },
    ])
    .is_none());
    assert!(StepSizeTable::from_entries(vec![
        StepEntry { step_ns: 5, points: 9 },
        StepEntry { step_ns: 6, points: 9 },
    ])
    .is_none());
    assert!(StepSizeTable::from_entries(vec![StepEntry { step_ns: 5, points: 9 }]).is_some());
}

#[test]
fn standard_rows_for_large_requests() {
    let table = StepSizeTable::standard();
    // 300000 points requested: the 0.9 ms row holds 317880.
    assert_eq!(select_step(&table, 300_000_000_000_000, 1_000_000_000), Some(4));
    assert_eq!(table.entry(4), StepEntry { step_ns: 900_000, points: 317_880_000_000 });
    // 420000 points requested: the 0.6 ms row holds 481366.
    assert_eq!(select_step(&table, 420_000_000_000_000, 1_000_000_000), Some(1));
    assert_eq!(table.entry(1), StepEntry { step_ns: 600_000, points: 481_366_000_000 });
}

#[test]
fn tiny_burst_hits_the_cap() {
    let mut t = Timing::new();
    t.apply_config(&TimingConfig { burst_ns: Some(1_000), period_ns: None, time_increment_ns: None });
    assert_eq!(t.dt_ns(), 100_000_000);
    assert_eq!(t.sub_step_count(), MAX_SUB_STEPS);
}

#[test]
fn tenth_of_a_second_burst() {
    let mut t = Timing::new();
    t.apply_config(&TimingConfig {
        burst_ns: Some(100_000_000),
        period_ns: None,
        time_increment_ns: None,
    });
    assert_eq!(t.dt_ns(), 100_000_000);
    assert_eq!(t.sub_step_count(), 28);
}

#[test]
fn microsecond_period_keeps_step() {
    let mut t = Timing::new();
    t.apply_config(&TimingConfig { burst_ns: None, period_ns: Some(1_000), time_increment_ns: None });
    assert_eq!(t.dt_ns(), 1_500_000);
    assert_eq!(t.sub_step_count(), 1);
}

#[test]
fn empty_config_twice_from_new() {
    let empty = TimingConfig { burst_ns: None, period_ns: None, time_increment_ns: None };
    let mut t = Timing::new();
    t.apply_config(&empty);
    t.apply_config(&empty);
    assert_eq!(t.dt_ns(), 93_300_000);
    assert_eq!(t.sub_step_count(), 3);
    let mut u = Timing::new();
    u.update_burst_settings();
    assert_eq!(u.dt_ns(), 93_300_000);
    assert_eq!(u.sub_step_count(), 3);
}
