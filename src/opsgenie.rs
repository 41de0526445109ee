//! The alert payload of the incident-alerting service, and the handle of a
//! created alert.
use vstd::prelude::*;

verus! {

/// Priority tiers of an alert.
#[derive(Debug, Clone, Copy, PartialEq, Eq, Structural)]
pub enum Priority {
    P1,
    P2,
    P3,
    P4,
    P5,
}

/// A team, user, escalation or schedule that an alert is routed to.
#[derive(Debug)]
pub struct Responder {
    pub id: String,
    pub responder_type: String,
}

/// The request body that creates an alert.
#[derive(Debug)]
pub struct AlertData {
    /// Message of the alert.
    pub message: String,
    /// Client-defined identifier of the alert, the key of de-duplication.
    pub alias: Option<String>,
    /// Detailed information about the alert.
    pub description: Option<String>,
    /// Who the alert is routed to.
    pub responders: Option<Vec<Responder>>,
    /// Who the alert is visible to, without notification.
    pub visible_to: Option<Vec<Responder>>,
    /// Custom actions available on the alert.
    pub actions: Option<Vec<String>>,
    /// Tags of the alert.
    pub tags: Option<Vec<String>>,
    /// Custom properties of the alert.
    pub details: Option<String>,
    /// The domain that the alert is related to.
    pub entity: Option<String>,
    /// Source of the alert.
    pub source: Option<String>,
    /// Priority of the alert; the service applies its default tier when absent.
    pub priority: Option<Priority>,
    /// Display name of the request owner.
    pub user: Option<String>,
    /// Note added on creation.
    pub note: Option<String>,
}

impl AlertData {
    pub fn new(message: String) -> (r: AlertData)
        ensures
            r == (AlertData {
                message,
                alias: None,
                description: None,
                responders: None,
                visible_to: None,
                actions: None,
                tags: None,
                details: None,
                entity: None,
                source: None,
                priority: None,
                user: None,
                note: None,
            }),
    {
        AlertData {
            message,
            alias: None,
            description: None,
            responders: None,
            visible_to: None,
            actions: None,
            tags: None,
            details: None,
            entity: None,
            source: None,
            priority: None,
            user: None,
            note: None,
        }
    }

    pub fn alias(self, alias: String) -> (r: AlertData)
        ensures
            r == (AlertData { alias: Some(alias), ..self }),
    {
        AlertData { alias: Some(alias), ..self }
    }

    pub fn tags(self, tags: Vec<String>) -> (r: AlertData)
        ensures
            r == (AlertData { tags: Some(tags), ..self }),
    {
        AlertData { tags: Some(tags), ..self }
    }

    pub fn entity(self, entity: String) -> (r: AlertData)
        ensures
            r == (AlertData { entity: Some(entity), ..self }),
    {
        AlertData { entity: Some(entity), ..self }
    }

    pub fn source(self, source: String) -> (r: AlertData)
        ensures
            r == (AlertData { source: Some(source), ..self }),
    {
        AlertData { source: Some(source), ..self }
    }

    pub fn priority(self, priority: Priority) -> (r: AlertData)
        ensures
            r == (AlertData { priority: Some(priority), ..self }),
    {
        AlertData { priority: Some(priority), ..self }
    }
}

/// The processing status of an alert request.
#[derive(Debug, Clone)]
pub struct AlertStatus {
    pub success: bool,
    pub action: String,
    pub processed_at: String,
    pub integration_id: String,
    pub is_success: bool,
    pub status: String,
    pub alert_id: String,
    pub alias: String,
}

/// A created alert: the request that created it, the key that authorised
/// it, and its status once asked for.
#[derive(Debug, Clone)]
pub struct Alert {
    pub request_id: String,
    pub key: String,
    pub alert_status: Option<AlertStatus>,
}

} // verus!
