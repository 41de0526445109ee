//! Notification backends and the alarm sender's decisions.
use vstd::prelude::*;
use crate::commons::{AlarmSenderCommands, Notification};
use crate::control::{decide, Decision, LoopControl, Signal, Step};
use crate::opsgenie::{AlertData, Priority};

verus! {

/// Settings of the incident-alerting backend.
#[derive(Debug)]
pub struct OpsgenieConfiguration {
    pub key: String,
}

/// Settings of the chat backend.
#[derive(Debug)]
pub struct SlackConfiguration {
    pub key: String,
    pub channel: String,
}

/// A configured notification backend.
#[derive(Debug)]
pub enum NotificationConfiguration {
    OpsGenie(OpsgenieConfiguration),
    Slack(SlackConfiguration),
}

/// A backend that delivers notifications; delivery is best effort.
pub trait Sender {
    fn send(&self, notification: &Notification);
}

/// The incident-alerting backend, with the key of its integration.
#[derive(Debug)]
pub struct OpsGenieSender {
    pub key: String,
}

/// The priority tier of a severity name: `high` is P2, anything else P4.
pub open spec fn priority_of(severity: Seq<char>) -> Priority {
    if severity == "high"@ {
        Priority::P2
    } else {
        Priority::P4
    }
}

impl OpsGenieSender {
    /// The alert that a notification raises: its message (also the alias),
    /// its description, the tag `ldm` and the priority of its severity.
    pub fn alert_data(&self, notification: &Notification) -> (r: AlertData)
        ensures
            r.message@ == notification.message@,
            r.alias matches Some(a) && a@ == notification.message@,
            r.description matches Some(d) && d@ == notification.description@,
            r.tags matches Some(t) && t@.len() == 1 && t@[0]@ == "ldm"@,
            r.priority == Some(priority_of(notification.priority@)),
            r.responders is None && r.visible_to is None && r.actions is None,
            r.details is None && r.entity is None && r.source is None,
            r.user is None && r.note is None,
    {
        let high = String::from_str("high");
        let priority = if notification.priority == high {
            Priority::P2
        } else {
            Priority::P4
        };
        let mut tags: Vec<String> = Vec::new();
        tags.push(String::from_str("ldm"));
        AlertData {
            message: notification.message.clone(),
            alias: Some(notification.message.clone()),
            description: Some(notification.description.clone()),
            responders: None,
            visible_to: None,
            actions: None,
            tags: Some(tags),
            details: None,
            entity: None,
            source: None,
            priority: Some(priority),
            user: None,
            note: None,
        }
    }
}

/// The keys of the incident-alerting backends, in order; the chat backend
/// has no sender.
pub open spec fn opsgenie_keys(configs: Seq<NotificationConfiguration>) -> Seq<Seq<char>>
    decreases configs.len(),
{
    if configs.len() == 0 {
        Seq::empty()
    } else {
        match configs.last() {
            NotificationConfiguration::OpsGenie(c) => opsgenie_keys(configs.drop_last()).push(
                c.key@,
            ),
            NotificationConfiguration::Slack(_) => opsgenie_keys(configs.drop_last()),
        }
    }
}

/// How a command to the alarm sender bears on its loop.
pub open spec fn sender_signal(received: Option<AlarmSenderCommands>) -> Signal {
    match received {
        None => Signal::Closed,
        Some(AlarmSenderCommands::Stop) => Signal::Stop,
        Some(AlarmSenderCommands::Send(_)) => Signal::Work,
    }
}

/// The alarm sender: its backends' settings, and whether its loop stopped.
#[derive(Debug)]
pub struct AlarmSender {
    pub configurations: Vec<NotificationConfiguration>,
    pub control: LoopControl,
}

impl AlarmSender {
    pub fn new(configurations: Vec<NotificationConfiguration>) -> (r: AlarmSender)
        ensures
            r.configurations@ == configurations@,
            !r.control.stopped,
    {
        AlarmSender { configurations, control: LoopControl::new() }
    }

    /// One sender per incident-alerting backend, in the order configured.
    pub fn setup_senders(&self) -> (r: Vec<OpsGenieSender>)
        ensures
            r@.map_values(|s: OpsGenieSender| s.key@) == opsgenie_keys(self.configurations@),
    {
        let mut senders: Vec<OpsGenieSender> = Vec::new();
        let mut i: usize = 0;
        while i < self.configurations.len()
            invariant
                0 <= i <= self.configurations@.len(),
                senders@.map_values(|s: OpsGenieSender| s.key@) == opsgenie_keys(
                    self.configurations@.subrange(0, i as int),
                ),
            decreases self.configurations@.len() - i,
        {
            proof {
                assert(self.configurations@.subrange(0, i + 1).drop_last()
                    =~= self.configurations@.subrange(0, i as int));
            }
            match &self.configurations[i] {
                NotificationConfiguration::OpsGenie(conf) => {
                    senders.push(OpsGenieSender { key: conf.key.clone() });
                },
                NotificationConfiguration::Slack(_) => {},
            }
            proof {
                assert(senders@.map_values(|s: OpsGenieSender| s.key@) =~= opsgenie_keys(
                    self.configurations@.subrange(0, i + 1),
                ));
            }
            i = i + 1;
        }
        proof {
            assert(self.configurations@.subrange(0, self.configurations@.len() as int)
                =~= self.configurations@);
        }
        senders
    }

    /// Decides on what the loop received (`None`: the channel closed): a
    /// notification goes to every backend, `Stop` or a closed channel ends
    /// the loop, and a stopped loop ignores everything.
    pub fn handle(&mut self, received: Option<AlarmSenderCommands>) -> (r: Step<Notification>)
        ensures
            final(self).configurations == old(self).configurations,
            (final(self).control.stopped, r.decision()) == decide(
                old(self).control.stopped,
                sender_signal(received),
            ),
            r matches Step::Deliver(n) ==> received == Some(AlarmSenderCommands::Send(n)),
    {
        let signal = match &received {
            None => Signal::Closed,
            Some(AlarmSenderCommands::Stop) => Signal::Stop,
            Some(AlarmSenderCommands::Send(_)) => Signal::Work,
        };
        match self.control.on_signal(signal) {
            Decision::Handle => match received {
                Some(AlarmSenderCommands::Send(notification)) => Step::Deliver(notification),
                _ => Step::Ignore,
            },
            Decision::Exit => Step::Exit,
            Decision::Ignore => Step::Ignore,
        }
    }
}

} // verus!
