use dispenser::{AppError, Data, DataRequest, LoadCellDataRequest, TestType, TrialPlan};

#[test]
fn data_records_in_order() {
    let mut d = Data::new(10);
    assert_eq!(d.len(), 0);
    assert!(d.push(80, 1_000));
    assert!(d.push(160, 900));
    assert!(d.push(240, 850));
    assert_eq!(d.times_ms, vec![80, 160, 240]);
    assert_eq!(d.readings_milli, vec![1_000, 900, 850]);
}

#[test]
fn data_drops_appends_past_capacity() {
    let mut d = Data::new(2);
    assert!(d.push(1, 10));
    assert!(d.push(2, 20));
    assert!(!d.push(3, 30));
    assert_eq!(d.len(), 2);
    assert_eq!(d.times_ms, vec![1, 2]);
}

#[test]
fn data_drop_first_removes_unsettled_sample() {
    let mut d = Data::new(10);
    assert!(d.push(1, 11));
    assert!(d.push(2, 22));
    assert!(d.push(3, 33));
    d.drop_first();
    assert_eq!(d.times_ms, vec![2, 3]);
    assert_eq!(d.readings_milli, vec![22, 33]);

    let mut empty = Data::new(4);
    empty.drop_first();
    assert_eq!(empty.len(), 0);
}

#[test]
fn plan_raw_and_median_pass_through() {
    let raw = DataRequest {
        trial: TestType::Raw,
        samples: 100,
        sample_period_ms: 40,
        cutoff_frequency_millihertz: None,
    };
    assert!(matches!(raw.plan(), Ok(TrialPlan::Raw)));

    let median = DataRequest {
        trial: TestType::Median,
        samples: 100,
        sample_period_ms: 40,
        cutoff_frequency_millihertz: None,
    };
    assert!(matches!(median.plan(), Ok(TrialPlan::Median)));
}

#[test]
fn plan_filtered_builds_matching_filter() {
    let req = DataRequest {
        trial: TestType::Filtered,
        samples: 100,
        sample_period_ms: 80,
        cutoff_frequency_millihertz: Some(2_000),
    };
    match req.plan() {
        Ok(TrialPlan::Filtered(f)) => {
            assert_eq!(f.smoothing_num, 1_005);
            assert_eq!(f.state_milli, 0);
        }
        _ => panic!("expected a filtered plan"),
    }
}

#[test]
fn plan_filtered_without_cutoff_fails() {
    let req = DataRequest {
        trial: TestType::Filtered,
        samples: 100,
        sample_period_ms: 80,
        cutoff_frequency_millihertz: None,
    };
    assert!(matches!(req.plan(), Err(AppError::MissingCutoff)));
}

#[test]
fn plan_dispense_is_not_served() {
    let req = DataRequest {
        trial: TestType::Dispense,
        samples: 1,
        sample_period_ms: 80,
        cutoff_frequency_millihertz: Some(2_000),
    };
    assert!(matches!(req.plan(), Err(AppError::NotImplemented)));
}

#[test]
fn load_cell_request_carries_parameters() {
    let req = LoadCellDataRequest { samples: 50, sample_period_ms: 40 };
    assert_eq!(req.samples, 50);
    assert_eq!(req.sample_period_ms, 40);
}
