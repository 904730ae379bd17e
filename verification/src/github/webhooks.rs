//! Classification of GitHub webhook deliveries by their `action` field.

use vstd::prelude::*;
use vstd::string::*;
use crate::error::GovernanceError;
use crate::json::{json_str_field, spec_json_str_field};
use crate::text::str_eq;

verus! {

/// The kind of event a webhook delivery reports.
#[derive(Debug, PartialEq, Eq, Structural)]
pub enum WebhookEventType {
    PullRequest,
    Review,
    Comment,
    Push,
    Unknown,
}

/// A classified webhook delivery; `payload` is the delivery's JSON text.
#[derive(Debug)]
pub struct WebhookEvent {
    pub event_type: WebhookEventType,
    pub action: String,
    pub payload: String,
}

/// The event type of an action.
pub open spec fn event_type_of(action: Seq<char>) -> WebhookEventType {
    if action == "opened"@ || action == "synchronize"@ || action == "reopened"@ {
        WebhookEventType::PullRequest
    } else if action == "submitted"@ {
        WebhookEventType::Review
    } else if action == "created"@ {
        WebhookEventType::Comment
    } else if action == "push"@ {
        WebhookEventType::Push
    } else {
        WebhookEventType::Unknown
    }
}

/// The event type of an action name.
pub fn classify_action(action: &str) -> (r: WebhookEventType)
    ensures
        r == event_type_of(action@),
{
    if str_eq(action, "opened") || str_eq(action, "synchronize") || str_eq(action, "reopened") {
        WebhookEventType::PullRequest
    } else if str_eq(action, "submitted") {
        WebhookEventType::Review
    } else if str_eq(action, "created") {
        WebhookEventType::Comment
    } else if str_eq(action, "push") {
        WebhookEventType::Push
    } else {
        WebhookEventType::Unknown
    }
}

/// The action a delivery names, `unknown` where it names none.
pub open spec fn action_of(payload: Seq<char>) -> Seq<char> {
    match spec_json_str_field(payload, "action"@) {
        Some(a) => a,
        None => "unknown"@,
    }
}

/// A processor of webhook deliveries.
pub struct WebhookProcessor;

impl WebhookProcessor {
    /// Classifies a delivery by its `action` field; every delivery is
    /// accepted.
    pub fn process_webhook(payload: &str) -> (r: Result<WebhookEvent, GovernanceError>)
        ensures
            r matches Ok(ev) && ev.action@ == action_of(payload@)
                && ev.event_type == event_type_of(action_of(payload@))
                && ev.payload@ == payload@,
    {
        let action = match json_str_field(payload, "action") {
            Some(a) => a,
            None => String::from_str("unknown"),
        };
        let event_type = classify_action(action.as_str());
        Ok(WebhookEvent { event_type, action, payload: String::from_str(payload) })
    }
}

} // verus!
