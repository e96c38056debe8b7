//! The HTTP ingress rules: which posted events are refused, with what
//! message, and what a heartbeat proxy call answers.
use vstd::prelude::*;
use crate::dispatch::{priority_acceptable, sendable};
use crate::event::{EventQueueItem, EventType, Priority};

verus! {

/// Why a posted event is refused (HTTP 400).
#[derive(Clone, Copy, Debug, PartialEq, Eq, Structural)]
pub enum IngressError {
    UnsupportedEventType,
    UnsupportedPriority,
}

impl IngressError {
    /// The `error` text of the 400 answer.
    pub fn message(&self) -> (r: &'static str)
        ensures
            *self is UnsupportedEventType ==> r@ == "Unsupported value for field 'eventType'."@,
            *self is UnsupportedPriority ==> r@ == "Unsupported value for field 'priority'."@,
    {
        match self {
            IngressError::UnsupportedEventType => "Unsupported value for field 'eventType'.",
            IngressError::UnsupportedPriority => "Unsupported value for field 'priority'.",
        }
    }
}

/// Checks a posted event before it is queued: the event type first, then
/// the priority when there is one.
pub fn validate_event(item: &EventQueueItem) -> (r: Result<(), IngressError>)
    ensures
        r is Ok <==> sendable(*item),
        r == Err::<(), IngressError>(IngressError::UnsupportedEventType) <==> EventType::spec_from_text(
            item.event_type@,
        ) is None,
        r == Err::<(), IngressError>(IngressError::UnsupportedPriority) <==> (EventType::spec_from_text(
            item.event_type@,
        ) is Some && !priority_acceptable(item.priority)),
{
    if EventType::from_str(item.event_type.as_str()).is_none() {
        return Err(IngressError::UnsupportedEventType);
    }
    if let Some(p) = &item.priority {
        if Priority::from_str(p.as_str()).is_none() {
            return Err(IngressError::UnsupportedPriority);
        }
    }
    Ok(())
}

/// The status of the heartbeat proxy's answer: 202 when upstream accepted
/// the ping, 500 otherwise.
pub fn heartbeat_proxy_status(accepted: bool) -> (r: u16)
    ensures
        r == if accepted { 202u16 } else { 500u16 },
{
    if accepted {
        202
    } else {
        500
    }
}

} // verus!
