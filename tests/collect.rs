use ldm::collector::{collect, IncomingMessage, MetricCollector};
use ldm::config::{
    AlarmConfiguration, AlarmSeverity, AlarmStatus, CalculationMethod, Comparison,
    ConditionConfiguration, Error, MetricConfiguration,
};
use ldm::control::Decision;
use ldm::metric::{setup_metric, MetricSource};

fn source(name: &str, dimension: Option<&str>, conditions: Vec<ConditionConfiguration>, size: usize) -> MetricSource {
    let alarm = AlarmConfiguration::new(String::from("busy"), AlarmSeverity::High, conditions, size)
        .ok()
        .unwrap();
    let config = MetricConfiguration {
        name: String::from(name),
        dimension: dimension.map(String::from),
        alarms: vec![alarm],
        interval: 1,
    };
    setup_metric(config).ok().unwrap()
}

fn above(value: i64) -> Vec<ConditionConfiguration> {
    vec![ConditionConfiguration::new(Comparison::Greater, value, CalculationMethod::Avg)]
}

#[test]
fn edge_triggered_notifications() {
    // Statuses Ok, Ok, Alarm, Alarm, Ok, Alarm: notifications at ticks 3 and 6 only.
    let mut s = source("cpu::usage", None, above(50), 1);
    let counts: Vec<usize> = [10, 20, 60, 70, 30, 80]
        .iter()
        .map(|x| collect(&mut s, Ok(*x)).notifications.len())
        .collect();
    assert_eq!(counts, vec![0, 0, 1, 0, 0, 1]);
}

#[test]
fn recovery_does_not_notify() {
    let mut s = source("cpu::usage", None, above(50), 1);
    assert_eq!(collect(&mut s, Ok(60)).notifications.len(), 1);
    assert_eq!(collect(&mut s, Ok(10)).notifications.len(), 0);
    assert_eq!(s.alarms[0].previous_status, AlarmStatus::Okay);
}

#[test]
fn first_positive_cpu_sample_fires_once() {
    let mut s = source("cpu::usage", None, above(0), 1);
    assert_eq!(s.alarms[0].previous_status, AlarmStatus::NoData);
    let out = collect(&mut s, Ok(250));
    assert_eq!(out.notifications.len(), 1);
    assert_eq!(s.alarms[0].previous_status, AlarmStatus::Alarm);
    let n = &out.notifications[0];
    assert_eq!(n.message, "busy");
    assert_eq!(n.priority, "high");
    assert_eq!(n.description, "Alarm data set -> 0.25");
    let data = out.data.unwrap();
    assert_eq!(data.name, "cpu::usage");
    assert_eq!(data.value, 250);
}

#[test]
fn failed_poll_changes_nothing() {
    let mut s = source("memory::usage", None, above(50_000), 2);
    collect(&mut s, Ok(60_000));
    let out = collect(&mut s, Err(Error::new(String::from("no memory reading"))));
    assert!(out.data.is_none());
    assert!(out.notifications.is_empty());
    assert_eq!(s.alarms[0].samples, vec![60_000]);
    assert_eq!(s.alarms[0].previous_status, AlarmStatus::NoData);
    let next = collect(&mut s, Ok(70_000));
    assert_eq!(next.notifications.len(), 1);
    assert_eq!(next.notifications[0].description, "Alarm data set -> 60:70");
}

#[test]
fn data_point_is_named_after_source_and_dimension() {
    let mut s = source("network::rx::usage", Some("eth0"), above(0), 1);
    let out = collect(&mut s, Ok(1500));
    let data = out.data.unwrap();
    assert_eq!(data.name, "network::rx::usage::eth0");
    assert_eq!(data.value, 1500);
}

#[test]
fn collector_sets_up_and_stops() {
    let configs = vec![
        MetricConfiguration { name: String::from("cpu::usage"), dimension: None, alarms: vec![], interval: 2 },
        MetricConfiguration { name: String::from("gpu::usage"), dimension: None, alarms: vec![], interval: 2 },
    ];
    let mut c = MetricCollector::new(configs);
    let metrics = c.setup_metrics();
    assert_eq!(metrics.len(), 2);
    assert_eq!(metrics[0].as_ref().ok().unwrap().get_period(), 120);
    assert!(metrics[1].is_err());
    assert!(c.configurations.is_empty());
    assert_eq!(c.handle(Some(IncomingMessage::Start)), Decision::Handle);
    assert_eq!(c.handle(Some(IncomingMessage::Stop)), Decision::Exit);
    assert_eq!(c.handle(Some(IncomingMessage::Stop)), Decision::Ignore);
    assert_eq!(c.handle(None), Decision::Ignore);
}
