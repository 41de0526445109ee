//! Alarm configuration and the alarm state machine.
//!
//! A sample is a fixed-point number counted in thousandths of the unit of
//! its source (a percentage, kilobytes, degrees). Thresholds use the same
//! unit, so every aggregation and comparison here is exact integer
//! arithmetic: an average is compared as the fraction `total / count`.
use vstd::prelude::*;

verus! {

/// A configuration or evaluation error, carrying a message for the log.
#[derive(Debug)]
pub struct Error {
    pub message: String,
}

impl Error {
    pub fn new(message: String) -> (r: Error)
        ensures
            r.message@ == message@,
    {
        Error { message }
    }

    /// The message of the error.
    pub fn description(&self) -> (r: &str)
        ensures
            r@ == self.message@,
    {
        self.message.as_str()
    }
}

/// The state of an alarm after an observation.
#[derive(Debug, Clone, Copy, PartialEq, Eq, Structural)]
pub enum AlarmStatus {
    Okay,
    Alarm,
    NoData,
}

/// How urgent an alarm is.
#[derive(Debug, Clone, Copy, PartialEq, Eq, Structural)]
pub enum AlarmSeverity {
    High,
    Low,
}

impl AlarmSeverity {
    /// The configuration name of the severity.
    pub open spec fn name_spec(self) -> Seq<char> {
        match self {
            AlarmSeverity::High => seq!['h', 'i', 'g', 'h'],
            AlarmSeverity::Low => seq!['l', 'o', 'w'],
        }
    }

    pub fn get_name(&self) -> (r: String)
        ensures
            r@ == self.name_spec(),
    {
        match self {
            AlarmSeverity::High => {
                proof {
                    reveal_strlit("high");
                }
                String::from_str("high")
            },
            AlarmSeverity::Low => {
                proof {
                    reveal_strlit("low");
                }
                String::from_str("low")
            },
        }
    }
}

/// Sum of the samples.
pub open spec fn sum_of(s: Seq<i64>) -> int
    decreases s.len(),
{
    if s.len() == 0 {
        0
    } else {
        sum_of(s.drop_last()) + s.last()
    }
}

/// Largest sample of a non-empty sequence.
pub open spec fn max_of(s: Seq<i64>) -> int
    decreases s.len(),
{
    if s.len() <= 1 {
        if s.len() == 0 {
            0
        } else {
            s[0] as int
        }
    } else if s.last() > max_of(s.drop_last()) {
        s.last() as int
    } else {
        max_of(s.drop_last())
    }
}

/// Smallest sample of a non-empty sequence.
pub open spec fn min_of(s: Seq<i64>) -> int
    decreases s.len(),
{
    if s.len() <= 1 {
        if s.len() == 0 {
            0
        } else {
            s[0] as int
        }
    } else if s.last() < min_of(s.drop_last()) {
        s.last() as int
    } else {
        min_of(s.drop_last())
    }
}

/// The exact value `total / count` of an aggregation over a window.
#[derive(Debug, Clone, Copy, PartialEq, Eq, Structural)]
pub struct Aggregate {
    pub total: i128,
    pub count: usize,
}

/// How a window of samples is reduced to one value.
#[derive(Debug, Clone, Copy, PartialEq, Eq, Structural)]
pub enum CalculationMethod {
    Sum,
    Avg,
    Max,
    Min,
}

/// Greatest magnitude of an `i64`.
pub const SAMPLE_BOUND: i128 = 0x8000_0000_0000_0000;

impl CalculationMethod {
    /// The aggregate of a non-empty window, as a numerator and a denominator.
    pub open spec fn aggregate(self, s: Seq<i64>) -> (int, int) {
        match self {
            CalculationMethod::Sum => (sum_of(s), 1),
            CalculationMethod::Avg => (sum_of(s), s.len() as int),
            CalculationMethod::Max => (max_of(s), 1),
            CalculationMethod::Min => (min_of(s), 1),
        }
    }

    pub fn calculate(&self, data_set: &Vec<i64>) -> (r: Aggregate)
        requires
            data_set@.len() > 0,
        ensures
            (r.total as int, r.count as int) == self.aggregate(data_set@),
    {
        match self {
            CalculationMethod::Sum => Aggregate { total: sum(data_set), count: 1 },
            CalculationMethod::Avg => Aggregate { total: sum(data_set), count: data_set.len() },
            CalculationMethod::Max => Aggregate { total: extremum(data_set, true) as i128, count: 1 },
            CalculationMethod::Min => Aggregate { total: extremum(data_set, false) as i128, count: 1 },
        }
    }
}

proof fn lemma_prefix_push(s: Seq<i64>, i: int)
    requires
        0 <= i < s.len(),
    ensures
        s.subrange(0, i + 1).drop_last() == s.subrange(0, i),
        s.subrange(0, i + 1).last() == s[i],
{
    assert(s.subrange(0, i + 1).drop_last() =~= s.subrange(0, i));
}

/// Exact sum of the samples; the bound on a vector's length keeps it inside `i128`.
fn sum(data_set: &Vec<i64>) -> (r: i128)
    ensures
        r as int == sum_of(data_set@),
{
    let mut total: i128 = 0;
    let mut i: usize = 0;
    while i < data_set.len()
        invariant
            0 <= i <= data_set@.len(),
            total as int == sum_of(data_set@.subrange(0, i as int)),
            -(i as int) * SAMPLE_BOUND <= total <= (i as int) * SAMPLE_BOUND,
        decreases data_set@.len() - i,
    {
        proof {
            lemma_prefix_push(data_set@, i as int);
            assert(i as int + 1 <= usize::MAX as int);
            assert(usize::MAX as int <= u64::MAX as int);
        }
        total = total + data_set[i] as i128;
        i = i + 1;
    }
    proof {
        assert(data_set@.subrange(0, data_set@.len() as int) =~= data_set@);
    }
    total
}

/// The largest (`largest == true`) or the smallest sample of a non-empty vector.
fn extremum(data_set: &Vec<i64>, largest: bool) -> (r: i64)
    requires
        data_set@.len() > 0,
    ensures
        largest ==> r as int == max_of(data_set@),
        !largest ==> r as int == min_of(data_set@),
{
    let mut best: i64 = data_set[0];
    let mut i: usize = 1;
    proof {
        assert(data_set@.subrange(0, 1).len() == 1);
    }
    while i < data_set.len()
        invariant
            1 <= i <= data_set@.len(),
            largest ==> best as int == max_of(data_set@.subrange(0, i as int)),
            !largest ==> best as int == min_of(data_set@.subrange(0, i as int)),
        decreases data_set@.len() - i,
    {
        proof {
            lemma_prefix_push(data_set@, i as int);
        }
        let x = data_set[i];
        if (largest && x > best) || (!largest && x < best) {
            best = x;
        }
        i = i + 1;
    }
    proof {
        assert(data_set@.subrange(0, data_set@.len() as int) =~= data_set@);
    }
    best
}

/// How an aggregate is compared with a threshold.
#[derive(Debug, Clone, Copy, PartialEq, Eq, Structural)]
pub enum Comparison {
    Greater,
    GreaterAndEqual,
    Lesser,
    LesserAndEqual,
    Equal,
    NotEqual,
}

impl Comparison {
    /// Compares `actual` with `expected`, both exact integers.
    pub open spec fn holds(self, actual: int, expected: int) -> bool {
        match self {
            Comparison::Greater => actual > expected,
            Comparison::GreaterAndEqual => actual >= expected,
            Comparison::Lesser => actual < expected,
            Comparison::LesserAndEqual => actual <= expected,
            Comparison::Equal => actual == expected,
            Comparison::NotEqual => actual != expected,
        }
    }

    /// Compares the fraction `num / den` (with `den > 0`) with `expected`,
    /// by comparing `num` with `expected * den`.
    pub open spec fn holds_ratio(self, num: int, den: int, expected: int) -> bool {
        self.holds(num, expected * den)
    }

    pub fn compare(&self, actual: Aggregate, expected: i64) -> (r: bool)
        requires
            actual.count > 0,
        ensures
            r == self.holds_ratio(actual.total as int, actual.count as int, expected as int),
    {
        proof {
            assert(actual.count as int <= usize::MAX as int);
            assert(usize::MAX as int <= u64::MAX as int);
            assert(-SAMPLE_BOUND * 0xffff_ffff_ffff_ffff <= (expected as int) * (actual.count as int)
                <= SAMPLE_BOUND * 0xffff_ffff_ffff_ffff) by (nonlinear_arith)
                requires
                    -SAMPLE_BOUND <= expected as int <= SAMPLE_BOUND,
                    0 <= actual.count as int <= 0xffff_ffff_ffff_ffff,
            ;
        }
        let bar: i128 = (expected as i128) * (actual.count as i128);
        let value = actual.total;
        match self {
            Comparison::Greater => value > bar,
            Comparison::GreaterAndEqual => value >= bar,
            Comparison::Lesser => value < bar,
            Comparison::LesserAndEqual => value <= bar,
            Comparison::Equal => value == bar,
            Comparison::NotEqual => value != bar,
        }
    }
}

/// One threshold test on a window: `method(window) comparison value`.
#[derive(Debug, Clone, Copy, PartialEq, Eq, Structural)]
pub struct ConditionConfiguration {
    pub comparison: Comparison,
    pub value: i64,
    pub method: CalculationMethod,
}

impl ConditionConfiguration {
    /// Whether the condition holds of a non-empty window.
    pub open spec fn holds(self, s: Seq<i64>) -> bool {
        let (num, den) = self.method.aggregate(s);
        self.comparison.holds_ratio(num, den, self.value as int)
    }

    pub fn new(comparison: Comparison, value: i64, method: CalculationMethod) -> (r: Self)
        ensures
            r == (ConditionConfiguration { comparison, value, method }),
    {
        ConditionConfiguration { comparison, value, method }
    }

    pub fn comparison(&self) -> (r: &Comparison)
        ensures
            *r == self.comparison,
    {
        &self.comparison
    }

    pub fn value(&self) -> (r: i64)
        ensures
            r == self.value,
    {
        self.value
    }

    pub fn method(&self) -> (r: &CalculationMethod)
        ensures
            *r == self.method,
    {
        &self.method
    }

    pub fn check_condition(&self, data_set: &Vec<i64>) -> (r: bool)
        requires
            data_set@.len() > 0,
        ensures
            r == self.holds(data_set@),
    {
        let actual_data = self.method.calculate(data_set);
        self.comparison.compare(actual_data, self.value)
    }
}

/// Whether every condition holds of the window (true of an empty list).
pub open spec fn all_hold(conditions: Seq<ConditionConfiguration>, s: Seq<i64>) -> bool {
    forall|i: int| 0 <= i < conditions.len() ==> #[trigger] conditions[i].holds(s)
}

/// The configuration of one alarm: its conditions hold together.
#[derive(Debug)]
pub struct AlarmConfiguration {
    pub name: String,
    pub severity: AlarmSeverity,
    pub conditions: Vec<ConditionConfiguration>,
    pub sample_size: usize,
}

impl AlarmConfiguration {
    /// A window holds at least one sample.
    pub open spec fn wf(&self) -> bool {
        self.sample_size >= 1
    }

    /// Builds a configuration; a window of no samples is refused.
    pub fn new(
        name: String,
        severity: AlarmSeverity,
        conditions: Vec<ConditionConfiguration>,
        sample_size: usize,
    ) -> (r: Result<AlarmConfiguration, Error>)
        ensures
            sample_size == 0 <==> r is Err,
            r matches Ok(c) ==> c.name@ == name@ && c.severity == severity && c.conditions@
                == conditions@ && c.sample_size == sample_size && c.wf(),
    {
        if sample_size == 0 {
            return Err(Error::new(String::from_str("sample_size must be at least 1")));
        }
        Ok(AlarmConfiguration { name, severity, conditions, sample_size })
    }

    pub fn sample_size(&self) -> (r: usize)
        ensures
            r == self.sample_size,
    {
        self.sample_size
    }

    pub fn name(&self) -> (r: String)
        ensures
            r@ == self.name@,
    {
        self.name.clone()
    }

    pub fn severity(&self) -> (r: String)
        ensures
            r@ == self.severity.name_spec(),
    {
        self.severity.get_name()
    }

    pub fn conditions(&self) -> (r: &Vec<ConditionConfiguration>)
        ensures
            r@ == self.conditions@,
    {
        &self.conditions
    }

    /// The status of a window: no data until it is full, then whether every
    /// condition holds.
    pub open spec fn status_of(&self, window: Seq<i64>) -> AlarmStatus {
        if window.len() < self.sample_size {
            AlarmStatus::NoData
        } else if all_hold(self.conditions@, window) {
            AlarmStatus::Alarm
        } else {
            AlarmStatus::Okay
        }
    }
}

/// The window after one more sample: the oldest sample leaves once the
/// window is full.
pub open spec fn window_after(window: Seq<i64>, sample: i64, sample_size: nat) -> Seq<i64> {
    if window.len() >= sample_size {
        window.subrange(window.len() + 1 - sample_size, window.len() as int).push(sample)
    } else {
        window.push(sample)
    }
}

/// An alarm: its configuration, the recent samples, and the status last committed.
#[derive(Debug)]
pub struct Alarm {
    pub config: AlarmConfiguration,
    pub samples: Vec<i64>,
    pub previous_status: AlarmStatus,
}

impl Alarm {
    /// The window never holds more than `sample_size` samples.
    pub open spec fn wf(&self) -> bool {
        self.config.wf() && self.samples@.len() <= self.config.sample_size
    }

    /// The alarm as built from a configuration: no samples, no data.
    pub open spec fn initial(&self, config: AlarmConfiguration) -> bool {
        &&& self.config == config
        &&& self.samples@.len() == 0
        &&& self.previous_status == AlarmStatus::NoData
    }

    pub fn new(config: AlarmConfiguration) -> (r: Alarm)
        requires
            config.wf(),
        ensures
            r.initial(config),
            r.wf(),
    {
        Alarm { config, samples: Vec::new(), previous_status: AlarmStatus::NoData }
    }

    /// One alarm per configuration, in order.
    pub fn from(configs: Vec<AlarmConfiguration>) -> (r: Vec<Alarm>)
        requires
            forall|i: int| 0 <= i < configs@.len() ==> #[trigger] configs@[i].wf(),
        ensures
            r@.len() == configs@.len(),
            forall|i: int| 0 <= i < r@.len() ==> #[trigger] r@[i].initial(configs@[i]),
            forall|i: int| 0 <= i < r@.len() ==> #[trigger] r@[i].wf(),
    {
        let ghost all = configs@;
        let mut rest = configs;
        let mut alarms: Vec<Alarm> = Vec::new();
        while rest.len() > 0
            invariant
                alarms@.len() + rest@.len() == all.len(),
                rest@ == all.subrange(alarms@.len() as int, all.len() as int),
                forall|i: int| 0 <= i < all.len() ==> #[trigger] all[i].wf(),
                forall|i: int| 0 <= i < alarms@.len() ==> #[trigger] alarms@[i].initial(all[i]),
                forall|i: int| 0 <= i < alarms@.len() ==> #[trigger] alarms@[i].wf(),
            decreases rest@.len(),
        {
            let config = rest.remove(0);
            alarms.push(Alarm::new(config));
        }
        alarms
    }

    /// Records a sample and reports the status of the window; the status is
    /// not committed (see `set_status`).
    pub fn check(&mut self, data: i64) -> (r: Result<AlarmStatus, Error>)
        requires
            old(self).wf(),
        ensures
            final(self).wf(),
            final(self).config == old(self).config,
            final(self).previous_status == old(self).previous_status,
            final(self).samples@ == window_after(
                old(self).samples@,
                data,
                old(self).config.sample_size as nat,
            ),
            r == Ok::<AlarmStatus, Error>(old(self).config.status_of(final(self).samples@)),
    {
        let ghost before = self.samples@;
        if self.samples.len() == self.config.sample_size {
            self.samples.remove(0);
        }
        self.samples.push(data);
        proof {
            if before.len() >= self.config.sample_size {
                assert(before.remove(0) =~= before.subrange(
                    before.len() + 1 - self.config.sample_size,
                    before.len() as int,
                ));
            }
        }
        if self.samples.len() < self.config.sample_size {
            return Ok(AlarmStatus::NoData);
        }
        let mut res = true;
        let mut i: usize = 0;
        while i < self.config.conditions.len()
            invariant
                0 <= i <= self.config.conditions@.len(),
                self.samples@.len() > 0,
                res == (forall|j: int| 0 <= j < i ==> #[trigger] self.config.conditions@[j].holds(self.samples@)),
            decreases self.config.conditions@.len() - i,
        {
            let held = self.config.conditions[i].check_condition(&self.samples);
            res = res && held;
            i = i + 1;
        }
        if res {
            Ok(AlarmStatus::Alarm)
        } else {
            Ok(AlarmStatus::Okay)
        }
    }

    pub fn set_status(&mut self, status: AlarmStatus)
        ensures
            final(self).config == old(self).config,
            final(self).samples == old(self).samples,
            final(self).previous_status == status,
    {
        self.previous_status = status;
    }
}

/// The configuration of one metric source.
#[derive(Debug)]
pub struct MetricConfiguration {
    pub name: String,
    pub dimension: Option<String>,
    pub alarms: Vec<AlarmConfiguration>,
    pub interval: u64,
}

/// The window after observing `samples` in order, starting from `window`.
pub open spec fn windows_after(window: Seq<i64>, samples: Seq<i64>, sample_size: nat) -> Seq<i64>
    decreases samples.len(),
{
    if samples.len() == 0 {
        window
    } else {
        window_after(
            windows_after(window, samples.drop_last(), sample_size),
            samples.last(),
            sample_size,
        )
    }
}

/// From an empty window, the window after any sequence of observations holds
/// exactly the last `min(len, sample_size)` samples, oldest first: it never
/// grows past `sample_size`, and is full from the `sample_size`-th observation on.
pub proof fn lemma_window_ring(samples: Seq<i64>, sample_size: nat)
    requires
        sample_size >= 1,
    ensures
        windows_after(Seq::empty(), samples, sample_size).len() <= sample_size,
        samples.len() >= sample_size ==> windows_after(Seq::empty(), samples, sample_size).len()
            == sample_size,
        samples.len() < sample_size ==> windows_after(Seq::empty(), samples, sample_size)
            == samples,
        samples.len() >= sample_size ==> windows_after(Seq::empty(), samples, sample_size)
            == samples.subrange(samples.len() - sample_size, samples.len() as int),
    decreases samples.len(),
{
    if samples.len() > 0 {
        let rest = samples.drop_last();
        lemma_window_ring(rest, sample_size);
        let w = windows_after(Seq::empty(), rest, sample_size);
        if rest.len() < sample_size {
            assert(w.push(samples.last()) =~= samples);
            if samples.len() >= sample_size {
                assert(samples.subrange(samples.len() - sample_size, samples.len() as int)
                    =~= samples);
            }
        } else {
            assert(w.subrange(w.len() + 1 - sample_size, w.len() as int).push(samples.last())
                =~= samples.subrange(samples.len() - sample_size, samples.len() as int));
        }
    }
}

/// While the window is not yet full, every observation reports `NoData`,
/// whatever the samples.
pub proof fn lemma_no_data_until_full(config: AlarmConfiguration, samples: Seq<i64>)
    requires
        config.wf(),
        samples.len() < config.sample_size,
    ensures
        config.status_of(windows_after(Seq::empty(), samples, config.sample_size as nat))
            == AlarmStatus::NoData,
{
    lemma_window_ring(samples, config.sample_size as nat);
}

/// On a full window the status is `Alarm` exactly when every condition holds;
/// one condition that fails makes it `Okay`.
pub proof fn lemma_full_window_status(config: AlarmConfiguration, window: Seq<i64>)
    requires
        config.wf(),
        window.len() == config.sample_size,
    ensures
        config.status_of(window) == AlarmStatus::Alarm <==> all_hold(config.conditions@, window),
        config.status_of(window) != AlarmStatus::NoData,
        forall|i: int|
            0 <= i < config.conditions@.len() && !(#[trigger] config.conditions@[i].holds(window))
                ==> config.status_of(window) == AlarmStatus::Okay,
{
}

} // verus!
