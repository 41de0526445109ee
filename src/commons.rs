//! What travels on the notification and metric channels.
use vstd::prelude::*;

verus! {

/// An alarm notification: the alarm's name, its severity name and a description.
#[derive(Debug, Clone)]
pub struct Notification {
    pub message: String,
    pub priority: String,
    pub description: String,
}

impl View for Notification {
    type V = (Seq<char>, Seq<char>, Seq<char>);

    open spec fn view(&self) -> Self::V {
        (self.message@, self.priority@, self.description@)
    }
}

impl Notification {
    pub fn new(message: String, priority: String, description: String) -> (r: Notification)
        ensures
            r@ == (message@, priority@, description@),
    {
        Notification { message, priority, description }
    }
}

/// A command to the alarm sender.
#[derive(Debug, Clone)]
pub enum AlarmSenderCommands {
    Send(Notification),
    Stop,
}

/// One sample of a metric source, named after the source; the value is in
/// thousandths.
#[derive(Debug, Clone)]
pub struct MetricData {
    pub name: String,
    pub value: i64,
}

impl MetricData {
    pub fn new(name: String, value: i64) -> (r: MetricData)
        ensures
            r.name@ == name@,
            r.value == value,
    {
        MetricData { name, value }
    }
}

/// A command to the metric consumer.
#[derive(Debug, Clone)]
pub enum MetricConsumerCommands {
    Send(MetricData),
    Stop,
}

} // verus!
