//! Metric sources: the closed set of kinds, how a source is built from its
//! configuration, and how a reading of the operating system becomes a sample.
use vstd::prelude::*;
use crate::config::{Alarm, AlarmConfiguration, Error, MetricConfiguration};
use crate::errors;

verus! {

/// The kinds of metric source.
#[derive(Debug, Clone, Copy, PartialEq, Eq, Structural)]
pub enum MetricTypes {
    CpuUsage,
    MemoryUsage,
    DiskUsage,
    NetworkRxUsage,
    NetworkRxTotal,
    NetworkTxUsage,
    NetworkTxTotal,
    Temperature,
}

/// The kind of source that a configuration name selects.
pub open spec fn kind_of(name: Seq<char>) -> Option<MetricTypes> {
    if name == "cpu::usage"@ {
        Some(MetricTypes::CpuUsage)
    } else if name == "memory::usage"@ {
        Some(MetricTypes::MemoryUsage)
    } else if name == "disk::usage"@ {
        Some(MetricTypes::DiskUsage)
    } else if name == "network::rx::usage"@ {
        Some(MetricTypes::NetworkRxUsage)
    } else if name == "network::rx::total"@ {
        Some(MetricTypes::NetworkRxTotal)
    } else if name == "network::tx::usage"@ {
        Some(MetricTypes::NetworkTxUsage)
    } else if name == "network::tx::total"@ {
        Some(MetricTypes::NetworkTxTotal)
    } else if name == "temperature"@ {
        Some(MetricTypes::Temperature)
    } else {
        None
    }
}

/// A configuration name that selects no kind of source.
#[derive(Debug)]
pub struct MetricNotFoundError {
    pub metric: String,
}

impl MetricNotFoundError {
    /// The message of the error.
    pub fn description(&self) -> (r: String)
        ensures
            r@ == "Metric not found "@ + self.metric@,
    {
        let mut text = String::from_str("Metric not found ");
        text.append(self.metric.as_str());
        text
    }
}

fn named(name: &String, literal: &str) -> (r: bool)
    ensures
        r == (name@ == literal@),
{
    let candidate = String::from_str(literal);
    *name == candidate
}

impl MetricTypes {
    /// The configuration name of the kind.
    pub open spec fn kind_name(self) -> Seq<char> {
        match self {
            MetricTypes::CpuUsage => "cpu::usage"@,
            MetricTypes::MemoryUsage => "memory::usage"@,
            MetricTypes::DiskUsage => "disk::usage"@,
            MetricTypes::NetworkRxUsage => "network::rx::usage"@,
            MetricTypes::NetworkRxTotal => "network::rx::total"@,
            MetricTypes::NetworkTxUsage => "network::tx::usage"@,
            MetricTypes::NetworkTxTotal => "network::tx::total"@,
            MetricTypes::Temperature => "temperature"@,
        }
    }

    /// Disk and network sources need a dimension: a mount path or an interface.
    pub open spec fn needs_dimension(self) -> bool {
        match self {
            MetricTypes::DiskUsage | MetricTypes::NetworkRxUsage | MetricTypes::NetworkRxTotal
            | MetricTypes::NetworkTxUsage | MetricTypes::NetworkTxTotal => true,
            _ => false,
        }
    }

    /// The kind that a configuration name selects.
    pub fn from_name(name: &String) -> (r: Result<MetricTypes, MetricNotFoundError>)
        ensures
            kind_of(name@) matches Some(k) ==> r == Ok::<MetricTypes, MetricNotFoundError>(k),
            kind_of(name@) is None ==> (r matches Err(e) && e.metric@ == name@),
    {
        if named(name, "cpu::usage") {
            Ok(MetricTypes::CpuUsage)
        } else if named(name, "memory::usage") {
            Ok(MetricTypes::MemoryUsage)
        } else if named(name, "disk::usage") {
            Ok(MetricTypes::DiskUsage)
        } else if named(name, "network::rx::usage") {
            Ok(MetricTypes::NetworkRxUsage)
        } else if named(name, "network::rx::total") {
            Ok(MetricTypes::NetworkRxTotal)
        } else if named(name, "network::tx::usage") {
            Ok(MetricTypes::NetworkTxUsage)
        } else if named(name, "network::tx::total") {
            Ok(MetricTypes::NetworkTxTotal)
        } else if named(name, "temperature") {
            Ok(MetricTypes::Temperature)
        } else {
            Err(MetricNotFoundError { metric: name.clone() })
        }
    }

    pub fn needs_dimension_exec(&self) -> (r: bool)
        ensures
            r == self.needs_dimension(),
    {
        match self {
            MetricTypes::DiskUsage | MetricTypes::NetworkRxUsage | MetricTypes::NetworkRxTotal
            | MetricTypes::NetworkTxUsage | MetricTypes::NetworkTxTotal => true,
            _ => false,
        }
    }
}

/// Longest poll interval, in minutes, whose period in seconds fits a `u32`.
pub const MAX_INTERVAL: u64 = 71582788;

/// A metric source: its kind, dimension, poll interval (minutes) and alarms.
#[derive(Debug)]
pub struct MetricSource {
    pub kind: MetricTypes,
    pub dimension: Option<String>,
    pub interval: u64,
    pub alarms: Vec<Alarm>,
}

impl MetricSource {
    pub open spec fn wf(&self) -> bool {
        &&& self.kind.needs_dimension() ==> self.dimension is Some
        &&& self.interval <= MAX_INTERVAL
        &&& forall|i: int| 0 <= i < self.alarms@.len() ==> #[trigger] self.alarms@[i].wf()
    }

    /// The name of the source: the kind's name, then `::` and the dimension
    /// for the kinds that need one.
    pub open spec fn name_spec(&self) -> Seq<char> {
        if self.kind.needs_dimension() {
            self.kind.kind_name() + "::"@ + self.dimension->Some_0@
        } else {
            self.kind.kind_name()
        }
    }

    /// The source as built from a configuration that passed every check.
    pub open spec fn built_from(&self, kind: MetricTypes, config: MetricConfiguration) -> bool {
        &&& self.kind == kind
        &&& self.dimension == config.dimension
        &&& self.interval == config.interval
        &&& self.alarms@.len() == config.alarms@.len()
        &&& forall|i: int|
            0 <= i < self.alarms@.len() ==> #[trigger] self.alarms@[i].initial(config.alarms@[i])
    }

    pub fn get_name(&self) -> (r: String)
        requires
            self.wf(),
        ensures
            r@ == self.name_spec(),
    {
        let kind_name = match self.kind {
            MetricTypes::CpuUsage => "cpu::usage",
            MetricTypes::MemoryUsage => "memory::usage",
            MetricTypes::DiskUsage => "disk::usage",
            MetricTypes::NetworkRxUsage => "network::rx::usage",
            MetricTypes::NetworkRxTotal => "network::rx::total",
            MetricTypes::NetworkTxUsage => "network::tx::usage",
            MetricTypes::NetworkTxTotal => "network::tx::total",
            MetricTypes::Temperature => "temperature",
        };
        let mut name = String::from_str(kind_name);
        if self.kind.needs_dimension_exec() {
            match &self.dimension {
                Some(d) => {
                    name.append("::");
                    name.append(d.as_str());
                },
                None => {},
            }
        }
        name
    }

    /// The poll period in seconds.
    pub fn get_period(&self) -> (r: u32)
        requires
            self.wf(),
        ensures
            r == self.interval * 60,
    {
        (self.interval * 60) as u32
    }

    /// The alarms of the source.
    pub fn get_alarms(&self) -> (r: &Vec<Alarm>)
        ensures
            r@ == self.alarms@,
    {
        &self.alarms
    }
}

/// Why a configuration cannot become a source, as the message of the error;
/// `None` when it can.
pub open spec fn setup_failure(config: MetricConfiguration) -> Option<Seq<char>> {
    match kind_of(config.name@) {
        None => Some("Metric "@ + config.name@ + " is not supported"@),
        Some(kind) => if kind.needs_dimension() && config.dimension is None {
            Some("Dimension must be specified in "@ + config.name@ + " metric"@)
        } else if config.interval > MAX_INTERVAL {
            Some("Interval is too long in "@ + config.name@ + " metric"@)
        } else if exists|i: int|
            0 <= i < config.alarms@.len() && !(#[trigger] config.alarms@[i].wf()) {
            Some("Alarm sample_size must be at least 1 in "@ + config.name@ + " metric"@)
        } else {
            None
        },
    }
}

fn message(prefix: &str, name: &String, suffix: &str) -> (r: errors::Error)
    ensures
        r.message_spec() == prefix@ + name@ + suffix@,
{
    let mut text = String::from_str(prefix);
    text.append(name.as_str());
    text.append(suffix);
    errors::Error::Generic(text)
}

fn alarms_valid(alarms: &Vec<AlarmConfiguration>) -> (r: bool)
    ensures
        r == (forall|i: int| 0 <= i < alarms@.len() ==> #[trigger] alarms@[i].wf()),
{
    let mut i: usize = 0;
    while i < alarms.len()
        invariant
            0 <= i <= alarms@.len(),
            forall|j: int| 0 <= j < i ==> #[trigger] alarms@[j].wf(),
        decreases alarms@.len() - i,
    {
        if alarms[i].sample_size == 0 {
            assert(!alarms@[i as int].wf());
            return false;
        }
        i = i + 1;
    }
    true
}

/// Builds the source that a configuration describes, or says why it cannot.
pub fn setup_metric(configuration: MetricConfiguration) -> (r: Result<MetricSource, errors::Error>)
    ensures
        setup_failure(configuration) matches Some(m) ==> (r matches Err(e) && e.message_spec()
            == m),
        setup_failure(configuration) is None ==> (r matches Ok(s) && s.wf() && s.built_from(
            kind_of(configuration.name@)->Some_0,
            configuration,
        )),
{
    let kind = match MetricTypes::from_name(&configuration.name) {
        Ok(k) => k,
        Err(_) => {
            return Err(message("Metric ", &configuration.name, " is not supported"));
        },
    };
    if kind.needs_dimension_exec() && configuration.dimension.is_none() {
        return Err(message("Dimension must be specified in ", &configuration.name, " metric"));
    }
    if configuration.interval > MAX_INTERVAL {
        return Err(message("Interval is too long in ", &configuration.name, " metric"));
    }
    if !alarms_valid(&configuration.alarms) {
        return Err(
            message("Alarm sample_size must be at least 1 in ", &configuration.name, " metric"),
        );
    }
    let ghost config = configuration;
    let MetricConfiguration { name, dimension, alarms, interval } = configuration;
    let source = MetricSource { kind, dimension, interval, alarms: Alarm::from(alarms) };
    assert(kind_of(config.name@) == Some(kind));
    Ok(source)
}

/// Builds a source for each configuration, in order; each result is that
/// of `setup_metric`.
pub fn setup_metrics(configurations: Vec<MetricConfiguration>) -> (r: Vec<
    Result<MetricSource, errors::Error>,
>)
    ensures
        r@.len() == configurations@.len(),
        forall|i: int|
            0 <= i < r@.len() ==> match setup_failure(#[trigger] configurations@[i]) {
                Some(m) => r@[i] matches Err(e) && e.message_spec() == m,
                None => r@[i] matches Ok(s) && s.wf() && s.built_from(
                    kind_of(configurations@[i].name@)->Some_0,
                    configurations@[i],
                ),
            },
{
    let ghost all = configurations@;
    let mut rest = configurations;
    let mut metrics: Vec<Result<MetricSource, errors::Error>> = Vec::new();
    while rest.len() > 0
        invariant
            metrics@.len() + rest@.len() == all.len(),
            rest@ == all.subrange(metrics@.len() as int, all.len() as int),
            forall|i: int|
                0 <= i < metrics@.len() ==> match setup_failure(#[trigger] all[i]) {
                    Some(m) => metrics@[i] matches Err(e) && e.message_spec() == m,
                    None => metrics@[i] matches Ok(s) && s.wf() && s.built_from(
                        kind_of(all[i].name@)->Some_0,
                        all[i],
                    ),
                },
        decreases rest@.len(),
    {
        let configuration = rest.remove(0);
        metrics.push(setup_metric(configuration));
    }
    metrics
}

/// A mounted file system, as the operating system reports it (sizes in bytes).
#[derive(Debug)]
pub struct MountReading {
    pub mounted_on: String,
    pub total: u64,
    pub avail: u64,
}

/// What the operating system reported for one poll of a source.
#[derive(Debug)]
pub enum Reading {
    /// A value already in thousandths: processor load, temperature.
    Value(i64),
    /// Total and free memory.
    Memory { total: u64, free: u64 },
    /// The mounted file systems.
    Mounts(Vec<MountReading>),
    /// The byte counter of an interface.
    Counter(u64),
    /// The byte counter of an interface, read twice one second apart.
    CounterPair { first: u64, second: u64 },
}

/// The used share of `total`, in thousandths of a percent, rounded down.
pub open spec fn usage_of(total: int, free: int) -> int {
    (100_000 * (total - free)) / total
}

/// The index of the first mount at `path`.
pub open spec fn find_mount(mounts: Seq<MountReading>, path: Seq<char>) -> Option<int>
    decreases mounts.len(),
{
    if mounts.len() == 0 {
        None
    } else if mounts.last().mounted_on@ == path && find_mount(mounts.drop_last(), path) is None {
        Some(mounts.len() - 1)
    } else {
        find_mount(mounts.drop_last(), path)
    }
}

/// Used share of a quantity; fails where the reading makes no sense.
pub open spec fn usage_sample(total: u64, free: u64) -> Option<int> {
    if total > 0 && free <= total {
        Some(usage_of(total as int, free as int))
    } else {
        None
    }
}

/// A byte count as a sample in thousandths of a kilobyte: the count itself.
pub open spec fn count_sample(bytes: int) -> Option<int> {
    if 0 <= bytes <= i64::MAX {
        Some(bytes)
    } else {
        None
    }
}

impl MetricSource {
    /// The sample that a reading gives for this source; `None` where the
    /// reading does not fit the kind or makes no sense.
    pub open spec fn sample_spec(&self, reading: Reading) -> Option<int> {
        match (self.kind, reading) {
            (MetricTypes::CpuUsage, Reading::Value(v)) => Some(v as int),
            (MetricTypes::Temperature, Reading::Value(v)) => Some(v as int),
            (MetricTypes::MemoryUsage, Reading::Memory { total, free }) => usage_sample(total, free),
            (MetricTypes::DiskUsage, Reading::Mounts(ms)) => match find_mount(
                ms@,
                self.dimension->Some_0@,
            ) {
                Some(i) => usage_sample(ms@[i].total, ms@[i].avail),
                None => None,
            },
            (MetricTypes::NetworkRxUsage, Reading::CounterPair { first, second })
            | (MetricTypes::NetworkTxUsage, Reading::CounterPair { first, second }) => count_sample(
                second - first,
            ),
            (MetricTypes::NetworkRxTotal, Reading::Counter(b))
            | (MetricTypes::NetworkTxTotal, Reading::Counter(b)) => count_sample(b as int),
            _ => None,
        }
    }

    /// Turns what the operating system reported into a sample.
    pub fn poll_metric(&self, reading: Reading) -> (r: Result<i64, Error>)
        requires
            self.wf(),
        ensures
            r is Ok <==> self.sample_spec(reading) is Some,
            r matches Ok(v) ==> v as int == self.sample_spec(reading)->Some_0,
    {
        match (self.kind, reading) {
            (MetricTypes::CpuUsage, Reading::Value(v)) => Ok(v),
            (MetricTypes::Temperature, Reading::Value(v)) => Ok(v),
            (MetricTypes::MemoryUsage, Reading::Memory { total, free }) => usage_percent(total, free),
            (MetricTypes::DiskUsage, Reading::Mounts(ms)) => {
                match &self.dimension {
                    Some(path) => match mount_at(&ms, path) {
                        Some(i) => usage_percent(ms[i].total, ms[i].avail),
                        None => Err(Error::new(String::from_str("Given mount path is not valid"))),
                    },
                    None => Err(Error::new(String::from_str("Given mount path is not valid"))),
                }
            },
            (MetricTypes::NetworkRxUsage, Reading::CounterPair { first, second })
            | (MetricTypes::NetworkTxUsage, Reading::CounterPair { first, second }) => {
                if second < first {
                    Err(Error::new(String::from_str("Network counter went backwards")))
                } else {
                    byte_count(second - first)
                }
            },
            (MetricTypes::NetworkRxTotal, Reading::Counter(b))
            | (MetricTypes::NetworkTxTotal, Reading::Counter(b)) => byte_count(b),
            _ => Err(Error::new(String::from_str("Reading does not fit the metric"))),
        }
    }
}

fn usage_percent(total: u64, free: u64) -> (r: Result<i64, Error>)
    ensures
        r is Ok <==> usage_sample(total, free) is Some,
        r matches Ok(v) ==> v as int == usage_sample(total, free)->Some_0,
{
    if total == 0 || free > total {
        return Err(Error::new(String::from_str("Reading of a usage makes no sense")));
    }
    let used: u128 = (total - free) as u128 * 100_000;
    let share: u128 = used / (total as u128);
    proof {
        let t = total as int;
        let u = used as int;
        assert(u <= t * 100_000) by (nonlinear_arith)
            requires
                u == (t - free as int) * 100_000,
                free as int >= 0,
        ;
        assert(u / t <= 100_000) by (nonlinear_arith)
            requires
                0 <= u <= t * 100_000,
                t > 0,
        ;
    }
    Ok(share as i64)
}

fn byte_count(bytes: u64) -> (r: Result<i64, Error>)
    ensures
        r is Ok <==> count_sample(bytes as int) is Some,
        r matches Ok(v) ==> v as int == bytes as int,
{
    if bytes > i64::MAX as u64 {
        Err(Error::new(String::from_str("Byte count is too large")))
    } else {
        Ok(bytes as i64)
    }
}

fn mount_at(mounts: &Vec<MountReading>, path: &String) -> (r: Option<usize>)
    ensures
        r matches Some(i) ==> find_mount(mounts@, path@) == Some(i as int) && i < mounts@.len(),
        r is None ==> find_mount(mounts@, path@) is None,
{
    let mut i: usize = 0;
    while i < mounts.len()
        invariant
            0 <= i <= mounts@.len(),
            find_mount(mounts@.subrange(0, i as int), path@) is None,
        decreases mounts@.len() - i,
    {
        proof {
            assert(mounts@.subrange(0, i + 1).drop_last() =~= mounts@.subrange(0, i as int));
        }
        if mounts[i].mounted_on == *path {
            proof {
                lemma_find_mount_prefix(mounts@, path@, i + 1);
            }
            return Some(i);
        }
        i = i + 1;
    }
    proof {
        assert(mounts@.subrange(0, mounts@.len() as int) =~= mounts@);
    }
    None
}

/// A mount found in a prefix is the one found in the whole list.
proof fn lemma_find_mount_prefix(mounts: Seq<MountReading>, path: Seq<char>, k: int)
    requires
        0 < k <= mounts.len(),
        find_mount(mounts.subrange(0, k), path) is Some,
    ensures
        find_mount(mounts, path) == find_mount(mounts.subrange(0, k), path),
    decreases mounts.len() - k,
{
    if k < mounts.len() {
        assert(mounts.subrange(0, k + 1).drop_last() =~= mounts.subrange(0, k));
        lemma_find_mount_prefix(mounts, path, k + 1);
    } else {
        assert(mounts.subrange(0, k) =~= mounts);
    }
}

/// A disk or network source without a dimension is refused when it is set
/// up, before anything is scheduled.
pub proof fn lemma_missing_dimension_fails(config: MetricConfiguration)
    requires
        kind_of(config.name@) matches Some(k) && k.needs_dimension(),
        config.dimension is None,
    ensures
        setup_failure(config) == Some("Dimension must be specified in "@ + config.name@ + " metric"@),
{
}

} // verus!
