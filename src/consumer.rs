//! Metric sinks and the metric consumer's decisions.
use vstd::prelude::*;
use crate::commons::{MetricConsumerCommands, MetricData};
use crate::control::{decide, Decision, LoopControl, Signal, Step};

verus! {

/// Settings of the file sink: where to write, and when to rotate.
#[derive(Debug)]
pub struct FileConsumerConfiguration {
    pub path: String,
    pub rotation: u32,
}

/// A configured metric sink.
#[derive(Debug)]
pub enum MetricConsumerConfiguration {
    File(FileConsumerConfiguration),
}

/// A sink that persists data points; persisting is best effort.
pub trait Consumer {
    fn consume(&self, metric: MetricData);
}

/// The file sink: where it writes, and when it rotates.
#[derive(Debug)]
pub struct FileConsumer {
    pub path: String,
    pub rotation: u32,
}

impl FileConsumer {
    pub fn new(configuration: &FileConsumerConfiguration) -> (r: FileConsumer)
        ensures
            r.path@ == configuration.path@,
            r.rotation == configuration.rotation,
    {
        FileConsumer { path: configuration.path.clone(), rotation: configuration.rotation }
    }
}

/// How a command to the metric consumer bears on its loop.
pub open spec fn consumer_signal(received: Option<MetricConsumerCommands>) -> Signal {
    match received {
        None => Signal::Closed,
        Some(MetricConsumerCommands::Stop) => Signal::Stop,
        Some(MetricConsumerCommands::Send(_)) => Signal::Work,
    }
}

/// The metric consumer: its sinks' settings, and whether its loop stopped.
#[derive(Debug)]
pub struct MetricConsumer {
    pub configuration: Vec<MetricConsumerConfiguration>,
    pub control: LoopControl,
}

impl MetricConsumer {
    pub fn new(configurations: Vec<MetricConsumerConfiguration>) -> (r: MetricConsumer)
        ensures
            r.configuration@ == configurations@,
            !r.control.stopped,
    {
        MetricConsumer { configuration: configurations, control: LoopControl::new() }
    }

    /// One sink per configured sink, in order.
    pub fn setup_consumers(&self) -> (r: Vec<FileConsumer>)
        ensures
            r@.len() == self.configuration@.len(),
            forall|i: int|
                0 <= i < r@.len() ==> match #[trigger] self.configuration@[i] {
                    MetricConsumerConfiguration::File(c) => r@[i].path@ == c.path@ && r@[i].rotation
                        == c.rotation,
                },
    {
        let mut consumers: Vec<FileConsumer> = Vec::new();
        let mut i: usize = 0;
        while i < self.configuration.len()
            invariant
                0 <= i <= self.configuration@.len(),
                consumers@.len() == i,
                forall|j: int|
                    0 <= j < i ==> match #[trigger] self.configuration@[j] {
                        MetricConsumerConfiguration::File(c) => consumers@[j].path@ == c.path@
                            && consumers@[j].rotation == c.rotation,
                    },
            decreases self.configuration@.len() - i,
        {
            match &self.configuration[i] {
                MetricConsumerConfiguration::File(c) => {
                    consumers.push(FileConsumer::new(c));
                },
            }
            i = i + 1;
        }
        consumers
    }

    /// Decides on what the loop received (`None`: the channel closed): a data
    /// point goes to every sink, `Stop` or a closed channel ends the loop, and
    /// a stopped loop ignores everything.
    pub fn handle(&mut self, received: Option<MetricConsumerCommands>) -> (r: Step<MetricData>)
        ensures
            final(self).configuration == old(self).configuration,
            (final(self).control.stopped, r.decision()) == decide(
                old(self).control.stopped,
                consumer_signal(received),
            ),
            r matches Step::Deliver(d) ==> received == Some(MetricConsumerCommands::Send(d)),
    {
        let signal = match &received {
            None => Signal::Closed,
            Some(MetricConsumerCommands::Stop) => Signal::Stop,
            Some(MetricConsumerCommands::Send(_)) => Signal::Work,
        };
        match self.control.on_signal(signal) {
            Decision::Handle => match received {
                Some(MetricConsumerCommands::Send(data)) => Step::Deliver(data),
                _ => Step::Ignore,
            },
            Decision::Exit => Step::Exit,
            Decision::Ignore => Step::Ignore,
        }
    }
}

} // verus!
