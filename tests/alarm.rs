use ldm::config::{
    Aggregate, Alarm, AlarmConfiguration, AlarmSeverity, AlarmStatus, CalculationMethod,
    Comparison, ConditionConfiguration,
};

fn alarm(conditions: Vec<ConditionConfiguration>, sample_size: usize) -> Alarm {
    let config = AlarmConfiguration::new(
        String::from("load"),
        AlarmSeverity::High,
        conditions,
        sample_size,
    )
    .ok()
    .unwrap();
    Alarm::new(config)
}

fn condition(method: CalculationMethod, comparison: Comparison, value: i64) -> ConditionConfiguration {
    ConditionConfiguration::new(comparison, value, method)
}

#[test]
fn it_works() {
    assert_eq!(2 + 2, 4);
}

#[test]
fn lib_it_works() {
    assert_eq!(2 + 2, 4);
}

#[test]
fn aggregates_of_small_windows() {
    let a = CalculationMethod::Avg.calculate(&vec![10, 20, 30]);
    assert_eq!(a, Aggregate { total: 60, count: 3 });
    assert!(Comparison::Equal.compare(a, 20));
    assert_eq!(CalculationMethod::Max.calculate(&vec![1, 5, 3]), Aggregate { total: 5, count: 1 });
    assert_eq!(CalculationMethod::Min.calculate(&vec![1, 5, 3]), Aggregate { total: 1, count: 1 });
    assert_eq!(CalculationMethod::Sum.calculate(&vec![1, 2, 3]), Aggregate { total: 6, count: 1 });
}

#[test]
fn average_is_compared_exactly() {
    // 1.5 is neither equal to 1 nor to 2.
    let a = CalculationMethod::Avg.calculate(&vec![1, 2]);
    assert!(!Comparison::Equal.compare(a, 1));
    assert!(!Comparison::Equal.compare(a, 2));
    assert!(Comparison::Greater.compare(a, 1));
    assert!(Comparison::Lesser.compare(a, 2));
    assert!(Comparison::NotEqual.compare(a, 1));
    assert!(Comparison::GreaterAndEqual.compare(CalculationMethod::Avg.calculate(&vec![2, 2]), 2));
    assert!(Comparison::LesserAndEqual.compare(CalculationMethod::Avg.calculate(&vec![2, 2]), 2));
}

#[test]
fn extreme_samples_do_not_overflow() {
    let big = vec![i64::MAX, i64::MAX, i64::MAX];
    let a = CalculationMethod::Sum.calculate(&big);
    assert_eq!(a.total, 3 * (i64::MAX as i128));
    assert!(Comparison::Equal.compare(CalculationMethod::Avg.calculate(&big), i64::MAX));
    let small = vec![i64::MIN, i64::MIN];
    assert!(Comparison::Equal.compare(CalculationMethod::Avg.calculate(&small), i64::MIN));
}

#[test]
fn average_at_least_eighty_on_high_window() {
    let mut a = alarm(vec![condition(CalculationMethod::Avg, Comparison::GreaterAndEqual, 80)], 3);
    assert_eq!(a.check(85).ok(), Some(AlarmStatus::NoData));
    assert_eq!(a.check(90).ok(), Some(AlarmStatus::NoData));
    assert_eq!(a.check(95).ok(), Some(AlarmStatus::Alarm));
}

#[test]
fn average_at_least_eighty_on_mixed_windows() {
    // The average of 70, 90 and 95 is 85: the condition holds.
    let mut a = alarm(vec![condition(CalculationMethod::Avg, Comparison::GreaterAndEqual, 80)], 3);
    a.check(70);
    a.check(90);
    assert_eq!(a.check(95).ok(), Some(AlarmStatus::Alarm));
    // 70, 75 and 80 average 75: it does not.
    let mut b = alarm(vec![condition(CalculationMethod::Avg, Comparison::GreaterAndEqual, 80)], 3);
    b.check(70);
    b.check(75);
    assert_eq!(b.check(80).ok(), Some(AlarmStatus::Okay));
}

#[test]
fn window_is_a_ring_of_sample_size() {
    let mut a = alarm(vec![], 3);
    for (i, x) in [1, 2, 3, 4, 5, 6].iter().enumerate() {
        a.check(*x);
        assert!(a.samples.len() <= 3);
        if i + 1 >= 3 {
            assert_eq!(a.samples.len(), 3);
        }
    }
    assert_eq!(a.samples, vec![4, 5, 6]);
}

#[test]
fn no_data_until_window_is_full() {
    let mut a = alarm(vec![condition(CalculationMethod::Max, Comparison::Greater, 0)], 4);
    assert_eq!(a.check(1000).ok(), Some(AlarmStatus::NoData));
    assert_eq!(a.check(-5).ok(), Some(AlarmStatus::NoData));
    assert_eq!(a.check(0).ok(), Some(AlarmStatus::NoData));
    assert_eq!(a.check(7).ok(), Some(AlarmStatus::Alarm));
}

#[test]
fn all_conditions_must_hold() {
    let both = vec![
        condition(CalculationMethod::Min, Comparison::GreaterAndEqual, 10),
        condition(CalculationMethod::Max, Comparison::LesserAndEqual, 50),
    ];
    let mut a = alarm(both, 2);
    a.check(20);
    assert_eq!(a.check(30).ok(), Some(AlarmStatus::Alarm));
    assert_eq!(a.check(60).ok(), Some(AlarmStatus::Okay));
    let one_fails = vec![
        condition(CalculationMethod::Min, Comparison::GreaterAndEqual, 10),
        condition(CalculationMethod::Max, Comparison::Greater, 50),
    ];
    let mut b = alarm(one_fails, 2);
    b.check(20);
    assert_eq!(b.check(30).ok(), Some(AlarmStatus::Okay));
}

#[test]
fn empty_condition_list_alarms_once_full() {
    let mut a = alarm(vec![], 2);
    assert_eq!(a.check(0).ok(), Some(AlarmStatus::NoData));
    assert_eq!(a.check(0).ok(), Some(AlarmStatus::Alarm));
}

#[test]
fn check_does_not_commit_status() {
    let mut a = alarm(vec![], 1);
    assert_eq!(a.check(3).ok(), Some(AlarmStatus::Alarm));
    assert_eq!(a.previous_status, AlarmStatus::NoData);
    a.set_status(AlarmStatus::Alarm);
    assert_eq!(a.previous_status, AlarmStatus::Alarm);
}

#[test]
fn zero_sample_size_is_refused() {
    let r = AlarmConfiguration::new(String::from("x"), AlarmSeverity::Low, vec![], 0);
    assert!(r.is_err());
}

#[test]
fn configuration_getters() {
    let c = AlarmConfiguration::new(
        String::from("disk"),
        AlarmSeverity::Low,
        vec![condition(CalculationMethod::Sum, Comparison::Equal, 5)],
        2,
    )
    .ok()
    .unwrap();
    assert_eq!(c.name(), "disk");
    assert_eq!(c.severity(), "low");
    assert_eq!(c.sample_size(), 2);
    assert_eq!(c.conditions().len(), 1);
    let cond = c.conditions()[0];
    assert_eq!(*cond.comparison(), Comparison::Equal);
    assert_eq!(cond.value(), 5);
    assert_eq!(*cond.method(), CalculationMethod::Sum);
    assert!(cond.check_condition(&vec![2, 3]));
    assert_eq!(AlarmSeverity::High.get_name(), "high");
}

#[test]
fn alarms_from_configurations() {
    let configs = vec![
        AlarmConfiguration::new(String::from("a"), AlarmSeverity::Low, vec![], 1).ok().unwrap(),
        AlarmConfiguration::new(String::from("b"), AlarmSeverity::High, vec![], 2).ok().unwrap(),
    ];
    let alarms = Alarm::from(configs);
    assert_eq!(alarms.len(), 2);
    assert_eq!(alarms[0].config.name, "a");
    assert_eq!(alarms[1].config.sample_size, 2);
    assert!(alarms.iter().all(|a| a.samples.is_empty() && a.previous_status == AlarmStatus::NoData));
}
