//! The collection tick: one poll result of a source, run through its alarms.
//!
//! Notification is edge-triggered: an alarm notifies when its new status is
//! `Alarm` and the status it last committed was not. Recovery notifies nobody.
use vstd::prelude::*;
use crate::commons::{MetricData, Notification};
use crate::config::{
    all_hold, sum_of, window_after, Alarm, AlarmStatus, CalculationMethod, Comparison,
    ConditionConfiguration, Error, MetricConfiguration,
};
use crate::metric::{setup_metrics, setup_failure, kind_of, MetricSource};
use crate::control::{decide, Decision, LoopControl, Signal};
use crate::errors;
use crate::render::{joined, push_joined};

verus! {

/// A message to the collector's control loop.
#[derive(Debug, Clone, Copy, PartialEq, Eq, Structural)]
pub enum IncomingMessage {
    Start,
    Stop,
}

/// The window of an alarm after it observed `x`.
pub open spec fn observed(alarm: Alarm, x: i64) -> Seq<i64> {
    window_after(alarm.samples@, x, alarm.config.sample_size as nat)
}

/// The status of an alarm after it observed `x`.
pub open spec fn status_after(alarm: Alarm, x: i64) -> AlarmStatus {
    alarm.config.status_of(observed(alarm, x))
}

/// Whether observing `x` is an entry into the `Alarm` status.
pub open spec fn notifies(alarm: Alarm, x: i64) -> bool {
    status_after(alarm, x) == AlarmStatus::Alarm && alarm.previous_status != AlarmStatus::Alarm
}

/// The notification that an alarm sends when observing `x` makes it fire:
/// its name, its severity, and its window.
pub open spec fn notice(alarm: Alarm, x: i64) -> (Seq<char>, Seq<char>, Seq<char>) {
    (
        alarm.config.name@,
        alarm.config.severity.name_spec(),
        "Alarm data set -> "@ + joined(observed(alarm, x)),
    )
}

/// The alarm `next` is `alarm` after observing `x` and committing the new status.
pub open spec fn stepped(alarm: Alarm, next: Alarm, x: i64) -> bool {
    &&& next.config == alarm.config
    &&& next.samples@ == observed(alarm, x)
    &&& next.previous_status == status_after(alarm, x)
}

/// The notifications that observing `x` causes, in the order of the alarms.
pub open spec fn due_notices(alarms: Seq<Alarm>, x: i64) -> Seq<(Seq<char>, Seq<char>, Seq<char>)>
    decreases alarms.len(),
{
    if alarms.len() == 0 {
        Seq::empty()
    } else if notifies(alarms.last(), x) {
        due_notices(alarms.drop_last(), x).push(notice(alarms.last(), x))
    } else {
        due_notices(alarms.drop_last(), x)
    }
}

/// What one tick hands to the channels: the data point and the notifications.
#[derive(Debug)]
pub struct CollectOutcome {
    pub data: Option<MetricData>,
    pub notifications: Vec<Notification>,
}

/// Runs one tick of a source on the result of its poll. A failed poll
/// changes nothing and sends nothing. A sample goes to every alarm; each
/// alarm commits its new status, and notifies on entering `Alarm`.
pub fn collect(metric: &mut MetricSource, polled: Result<i64, Error>) -> (r: CollectOutcome)
    requires
        old(metric).wf(),
    ensures
        final(metric).wf(),
        polled is Err ==> *final(metric) == *old(metric),
        polled is Err ==> r.data is None && r.notifications@.len() == 0,
        polled is Ok ==> final(metric).kind == old(metric).kind && final(metric).dimension
            == old(metric).dimension && final(metric).interval == old(metric).interval,
        polled is Ok ==> final(metric).alarms@.len() == old(metric).alarms@.len(),
        polled matches Ok(x) ==> forall|i: int|
            0 <= i < old(metric).alarms@.len() ==> stepped(
                old(metric).alarms@[i],
                #[trigger] final(metric).alarms@[i],
                x,
            ),
        polled matches Ok(x) ==> (r.data matches Some(d) && d.name@ == old(metric).name_spec()
            && d.value == x),
        polled matches Ok(x) ==> r.notifications@.map_values(|n: Notification| n@)
            == due_notices(old(metric).alarms@, x),
{
    let x = match polled {
        Ok(x) => x,
        Err(_) => {
            return CollectOutcome { data: None, notifications: Vec::new() };
        },
    };
    let data = MetricData::new(metric.get_name(), x);
    let ghost before = metric.alarms@;
    let mut pending: Vec<Alarm> = Vec::new();
    std::mem::swap(&mut pending, &mut metric.alarms);
    let mut done: Vec<Alarm> = Vec::new();
    let mut notes: Vec<Notification> = Vec::new();
    while pending.len() > 0
        invariant
            done@.len() + pending@.len() == before.len(),
            pending@ == before.subrange(done@.len() as int, before.len() as int),
            forall|i: int| 0 <= i < before.len() ==> #[trigger] before[i].wf(),
            forall|i: int| 0 <= i < done@.len() ==> #[trigger] done@[i].wf(),
            forall|i: int|
                0 <= i < done@.len() ==> stepped(before[i], #[trigger] done@[i], x),
            notes@.map_values(|n: Notification| n@) == due_notices(
                before.subrange(0, done@.len() as int),
                x,
            ),
        decreases pending@.len(),
    {
        let ghost k = done@.len() as int;
        let mut alarm = pending.remove(0);
        let ghost current = alarm;
        proof {
            assert(before.subrange(0, k + 1).drop_last() =~= before.subrange(0, k));
            assert(before.subrange(0, k + 1).last() == current);
        }
        match alarm.check(x) {
            Ok(status) => {
                if status == AlarmStatus::Alarm && alarm.previous_status != AlarmStatus::Alarm {
                    let mut description = String::from_str("Alarm data set -> ");
                    push_joined(&mut description, &alarm.samples);
                    let note = Notification::new(
                        alarm.config.name(),
                        alarm.config.severity(),
                        description,
                    );
                    notes.push(note);
                }
                alarm.set_status(status);
            },
            Err(_) => {},
        }
        proof {
            assert(notes@.map_values(|n: Notification| n@) =~= due_notices(
                before.subrange(0, k + 1),
                x,
            ));
        }
        done.push(alarm);
    }
    std::mem::swap(&mut done, &mut metric.alarms);
    proof {
        assert(before.subrange(0, before.len() as int) =~= before);
    }
    CollectOutcome { data: Some(data), notifications: notes }
}

/// How a message to the collector bears on its control loop: `Start` has
/// nothing to start, the collector runs already.
pub open spec fn collector_signal(received: Option<IncomingMessage>) -> Signal {
    match received {
        None => Signal::Closed,
        Some(IncomingMessage::Stop) => Signal::Stop,
        Some(IncomingMessage::Start) => Signal::Work,
    }
}

/// The collector: the source configurations, set up once when it starts,
/// and whether its control loop stopped.
#[derive(Debug)]
pub struct MetricCollector {
    pub configurations: Vec<MetricConfiguration>,
    pub control: LoopControl,
}

impl MetricCollector {
    pub fn new(configurations: Vec<MetricConfiguration>) -> (r: MetricCollector)
        ensures
            r.configurations@ == configurations@,
            !r.control.stopped,
    {
        MetricCollector { configurations, control: LoopControl::new() }
    }

    /// Builds the sources, one result per configuration, in order: a source
    /// or the error that the configuration causes. The configurations are
    /// handed over.
    pub fn setup_metrics(&mut self) -> (r: Vec<Result<MetricSource, errors::Error>>)
        ensures
            final(self).configurations@.len() == 0,
            final(self).control == old(self).control,
            r@.len() == old(self).configurations@.len(),
            forall|i: int|
                0 <= i < r@.len() ==> match setup_failure(#[trigger] old(self).configurations@[i]) {
                    Some(m) => r@[i] matches Err(e) && e.message_spec() == m,
                    None => r@[i] matches Ok(s) && s.wf() && s.built_from(
                        kind_of(old(self).configurations@[i].name@)->Some_0,
                        old(self).configurations@[i],
                    ),
                },
    {
        let mut configurations: Vec<MetricConfiguration> = Vec::new();
        std::mem::swap(&mut configurations, &mut self.configurations);
        setup_metrics(configurations)
    }

    /// Decides on a message to the control loop (`None`: the channel
    /// closed): `Stop` or a closed channel stops the scheduler and ends the
    /// loop, `Start` changes nothing, and a stopped loop ignores everything.
    pub fn handle(&mut self, received: Option<IncomingMessage>) -> (r: Decision)
        ensures
            final(self).configurations == old(self).configurations,
            (final(self).control.stopped, r) == decide(
                old(self).control.stopped,
                collector_signal(received),
            ),
    {
        let signal = match received {
            None => Signal::Closed,
            Some(IncomingMessage::Stop) => Signal::Stop,
            Some(IncomingMessage::Start) => Signal::Work,
        };
        self.control.on_signal(signal)
    }
}

/// A source with one fresh alarm of window 1 whose only condition is
/// `avg > 0`: the first positive sample takes the alarm from `NoData` to
/// `Alarm` and causes exactly one notification.
pub proof fn lemma_first_positive_sample_fires(source: MetricSource, x: i64)
    requires
        source.wf(),
        source.alarms@.len() == 1,
        source.alarms@[0].samples@.len() == 0,
        source.alarms@[0].previous_status == AlarmStatus::NoData,
        source.alarms@[0].config.sample_size == 1,
        source.alarms@[0].config.conditions@ == seq![
            ConditionConfiguration {
                comparison: Comparison::Greater,
                value: 0,
                method: CalculationMethod::Avg,
            },
        ],
        x > 0,
    ensures
        status_after(source.alarms@[0], x) == AlarmStatus::Alarm,
        due_notices(source.alarms@, x).len() == 1,
        due_notices(source.alarms@, x)[0] == notice(source.alarms@[0], x),
{
    let alarm = source.alarms@[0];
    let w = observed(alarm, x);
    assert(w =~= seq![x]);
    assert(w.drop_last() =~= Seq::<i64>::empty());
    assert(sum_of(w.drop_last()) == 0);
    assert(sum_of(w) == x);
    let c = ConditionConfiguration {
        comparison: Comparison::Greater,
        value: 0,
        method: CalculationMethod::Avg,
    };
    assert(alarm.config.conditions@[0] == c);
    assert(c.method.aggregate(w) == (x as int, 1int));
    assert(0int * 1int == 0);
    assert(c.comparison.holds_ratio(x as int, 1, 0));
    assert(c.holds(w));
    assert(all_hold(alarm.config.conditions@, w));
    assert(source.alarms@.drop_last() =~= Seq::<Alarm>::empty());
    assert(source.alarms@.last() == alarm);
    assert(notifies(alarm, x));
    assert(due_notices(source.alarms@.drop_last(), x).len() == 0);
}

} // verus!
