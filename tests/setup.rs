use ldm::config::{AlarmConfiguration, AlarmSeverity, MetricConfiguration};
use ldm::metric::{
    setup_metric, setup_metrics, MetricNotFoundError, MetricTypes, MountReading, Reading,
};

fn config(name: &str, dimension: Option<&str>) -> MetricConfiguration {
    MetricConfiguration {
        name: String::from(name),
        dimension: dimension.map(String::from),
        alarms: vec![],
        interval: 5,
    }
}

fn message(r: Result<ldm::metric::MetricSource, ldm::errors::Error>) -> String {
    match r {
        Err(e) => String::from(e.description()),
        Ok(_) => String::from("built"),
    }
}

#[test]
fn every_kind_is_known() {
    let names = [
        ("cpu::usage", MetricTypes::CpuUsage),
        ("memory::usage", MetricTypes::MemoryUsage),
        ("disk::usage", MetricTypes::DiskUsage),
        ("network::rx::usage", MetricTypes::NetworkRxUsage),
        ("network::rx::total", MetricTypes::NetworkRxTotal),
        ("network::tx::usage", MetricTypes::NetworkTxUsage),
        ("network::tx::total", MetricTypes::NetworkTxTotal),
        ("temperature", MetricTypes::Temperature),
    ];
    for (name, kind) in names.iter() {
        assert_eq!(MetricTypes::from_name(&String::from(*name)).ok(), Some(*kind));
    }
}

#[test]
fn unknown_kind_is_refused() {
    let e: MetricNotFoundError = MetricTypes::from_name(&String::from("gpu")).err().unwrap();
    assert_eq!(e.description(), "Metric not found gpu");
    assert_eq!(message(setup_metric(config("gpu", None))), "Metric gpu is not supported");
}

#[test]
fn missing_dimension_is_refused() {
    assert_eq!(
        message(setup_metric(config("disk::usage", None))),
        "Dimension must be specified in disk::usage metric"
    );
    for name in ["network::rx::usage", "network::tx::usage", "network::rx::total", "network::tx::total"].iter() {
        assert!(setup_metric(config(name, None)).is_err());
        assert!(setup_metric(config(name, Some("eth0"))).is_ok());
    }
    assert!(setup_metric(config("disk::usage", Some("/"))).is_ok());
    assert!(setup_metric(config("temperature", None)).is_ok());
}

#[test]
fn too_long_interval_is_refused() {
    let mut c = config("cpu::usage", None);
    c.interval = 71582789;
    assert_eq!(message(setup_metric(c)), "Interval is too long in cpu::usage metric");
    let mut d = config("cpu::usage", None);
    d.interval = 71582788;
    assert_eq!(setup_metric(d).ok().unwrap().get_period(), 4294967280);
}

#[test]
fn empty_alarm_window_is_refused() {
    let mut good = AlarmConfiguration::new(String::from("a"), AlarmSeverity::Low, vec![], 1).ok().unwrap();
    good.sample_size = 0;
    let mut c = config("cpu::usage", None);
    c.alarms = vec![good];
    assert_eq!(
        message(setup_metric(c)),
        "Alarm sample_size must be at least 1 in cpu::usage metric"
    );
}

#[test]
fn setup_keeps_order_and_other_sources() {
    let out = setup_metrics(vec![config("gpu", None), config("cpu::usage", None), config("disk::usage", None)]);
    assert_eq!(out.len(), 3);
    assert!(out[0].is_err());
    assert_eq!(out[1].as_ref().ok().unwrap().kind, MetricTypes::CpuUsage);
    assert!(out[2].is_err());
}

#[test]
fn source_names() {
    let cpu = setup_metric(config("cpu::usage", None)).ok().unwrap();
    assert_eq!(cpu.get_name(), "cpu::usage");
    let disk = setup_metric(config("disk::usage", Some("/home"))).ok().unwrap();
    assert_eq!(disk.get_name(), "disk::usage::/home");
    assert_eq!(disk.get_period(), 300);
    assert!(disk.get_alarms().is_empty());
}

#[test]
fn readings_become_samples() {
    let mem = setup_metric(config("memory::usage", None)).ok().unwrap();
    assert_eq!(mem.poll_metric(Reading::Memory { total: 1000, free: 250 }).ok(), Some(75_000));
    assert_eq!(mem.poll_metric(Reading::Memory { total: 3, free: 2 }).ok(), Some(33_333));
    assert!(mem.poll_metric(Reading::Memory { total: 0, free: 0 }).is_err());
    assert!(mem.poll_metric(Reading::Memory { total: 10, free: 11 }).is_err());
    assert!(mem.poll_metric(Reading::Value(5)).is_err());

    let disk = setup_metric(config("disk::usage", Some("/data"))).ok().unwrap();
    let mounts = vec![
        MountReading { mounted_on: String::from("/"), total: 100, avail: 90 },
        MountReading { mounted_on: String::from("/data"), total: 200, avail: 50 },
        MountReading { mounted_on: String::from("/data"), total: 10, avail: 10 },
    ];
    assert_eq!(disk.poll_metric(Reading::Mounts(mounts)).ok(), Some(75_000));
    assert!(disk.poll_metric(Reading::Mounts(vec![])).is_err());

    let rx = setup_metric(config("network::rx::usage", Some("eth0"))).ok().unwrap();
    assert_eq!(rx.poll_metric(Reading::CounterPair { first: 1000, second: 4500 }).ok(), Some(3500));
    assert!(rx.poll_metric(Reading::CounterPair { first: 10, second: 5 }).is_err());

    let tx = setup_metric(config("network::tx::total", Some("eth0"))).ok().unwrap();
    assert_eq!(tx.poll_metric(Reading::Counter(123_456)).ok(), Some(123_456));
    assert!(tx.poll_metric(Reading::Counter(u64::MAX)).is_err());

    let temp = setup_metric(config("temperature", None)).ok().unwrap();
    assert_eq!(temp.poll_metric(Reading::Value(45_500)).ok(), Some(45_500));
}
