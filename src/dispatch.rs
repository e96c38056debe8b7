//! The dispatcher's decisions: which queued rows can be sent and how, how
//! an upstream answer is classified, and whether the row then leaves the queue.
use vstd::prelude::*;
use crate::event::{EventQueueItem, EventType, Priority};

verus! {

/// How many rows one dispatcher pass takes from the queue.
pub const POLL_BATCH_SIZE: i32 = 20;

/// Time between dispatcher passes.
pub const POLL_INTERVAL_MS: u64 = 5000;

/// How often the dispatcher wakes to look at the clock and the running flag.
pub const POLL_TICK_MS: u64 = 250;

/// Time between two heartbeat pings of the ticker.
pub const HEARTBEAT_INTERVAL_MS: u64 = 30000;

/// How often the ticker wakes to look at the clock and the running flag.
pub const HEARTBEAT_TICK_MS: u64 = 300;

/// The upstream path used when a row names none.
pub open spec fn default_path() -> Seq<char> {
    "/events"@
}

/// What an upstream answer means for the row that was sent.
#[derive(Clone, Copy, Debug, PartialEq, Eq, Structural)]
pub enum Verdict {
    /// Delivered (202).
    Success,
    /// Refused for good (404 and other client errors): never resend.
    Drop,
    /// Failed for now (429, 5xx, no answer): send again on a later pass.
    Retry,
}

impl Verdict {
    pub fn should_retry(&self) -> (r: bool)
        ensures
            r == (*self is Retry),
    {
        match self {
            Verdict::Retry => true,
            _ => false,
        }
    }
}

/// The classification table; `None` stands for a network failure.
pub open spec fn spec_classify(status: Option<u16>) -> Verdict {
    match status {
        None => Verdict::Retry,
        Some(s) => if s == 202 {
            Verdict::Success
        } else if s == 404 {
            Verdict::Drop
        } else if s == 429 {
            Verdict::Retry
        } else if 500 <= s <= 599 {
            Verdict::Retry
        } else {
            Verdict::Drop
        },
    }
}

/// Classifies the upstream status of one send (`None`: no answer).
pub fn classify_response(status: Option<u16>) -> (r: Verdict)
    ensures
        r == spec_classify(status),
{
    match status {
        None => Verdict::Retry,
        Some(s) => if s == 202 {
            Verdict::Success
        } else if s == 404 {
            Verdict::Drop
        } else if s == 429 {
            Verdict::Retry
        } else if 500 <= s && s <= 599 {
            Verdict::Retry
        } else {
            Verdict::Drop
        },
    }
}

/// A row that can be sent, with its fields in the upstream's vocabulary.
pub struct Delivery {
    pub event_type: EventType,
    pub priority: Option<Priority>,
    pub path: String,
}

/// The row's priority is absent or one of the known values.
pub open spec fn priority_acceptable(p: Option<String>) -> bool {
    match p {
        None => true,
        Some(s) => Priority::spec_from_text(s@) is Some,
    }
}

/// A row can be sent when its event type and priority are known values.
pub open spec fn sendable(e: EventQueueItem) -> bool {
    EventType::spec_from_text(e.event_type@) is Some && priority_acceptable(e.priority)
}

pub open spec fn path_of(e: EventQueueItem) -> Seq<char> {
    match e.event_api_path {
        Some(p) => p@,
        None => default_path(),
    }
}

/// Reads what the upstream call needs from a queued row; `None` for a row
/// whose event type or priority is unknown, which is dropped unsent.
pub fn prepare_delivery(event: &EventQueueItem) -> (r: Option<Delivery>)
    ensures
        r is Some <==> sendable(*event),
        r matches Some(d) ==> {
            &&& Some(d.event_type) == EventType::spec_from_text(event.event_type@)
            &&& d.priority == match event.priority {
                Some(p) => Priority::spec_from_text(p@),
                None => None,
            }
            &&& d.path@ == path_of(*event)
        },
{
    let event_type = match EventType::from_str(event.event_type.as_str()) {
        Some(t) => t,
        None => return None,
    };
    let priority = match &event.priority {
        Some(p) => match Priority::from_str(p.as_str()) {
            Some(v) => Some(v),
            None => return None,
        },
        None => None,
    };
    let path = match &event.event_api_path {
        Some(p) => p.clone(),
        None => String::from_str("/events"),
    };
    Some(Delivery { event_type, priority, path })
}

/// Whether one dispatcher attempt removes the row: an unsendable row goes
/// unsent; otherwise `status` is the upstream answer (`None`: no answer).
pub open spec fn spec_removes_row(e: EventQueueItem, status: Option<u16>) -> bool {
    !sendable(e) || !(spec_classify(status) is Retry)
}

/// The dispatcher's decision for one row after its attempt.
pub fn removes_row(event: &EventQueueItem, status: Option<u16>) -> (r: bool)
    ensures
        r == spec_removes_row(*event, status),
{
    match prepare_delivery(event) {
        None => true,
        Some(_) => !classify_response(status).should_retry(),
    }
}

/// A sendable row whose last upstream answer was 429, a 5xx or none at all
/// stays queued; one answered 202, 404 or any other status leaves it.
pub proof fn lemma_dispatch_keeps_exactly_retriable(e: EventQueueItem, status: Option<u16>)
    requires
        sendable(e),
    ensures
        !spec_removes_row(e, status) <==> (status is None || status == Some(429u16) || (
        500 <= status->0 <= 599)),
        spec_removes_row(e, status) <==> (status matches Some(s) && s != 429 && !(500 <= s
            <= 599)),
{
}

/// An unknown priority drops the row unsent, an absent one does not.
pub proof fn lemma_priority_absent_is_not_invalid(e: EventQueueItem)
    requires
        EventType::spec_from_text(e.event_type@) is Some,
    ensures
        e.priority is None ==> sendable(e),
        (e.priority matches Some(p) && Priority::spec_from_text(p@) is None) ==> !sendable(e)
            && forall|s: Option<u16>| spec_removes_row(e, s),
{
}

/// Whether a periodic job is due, `elapsed_ms` after its last run.
pub fn is_due(elapsed_ms: u64, interval_ms: u64) -> (r: bool)
    ensures
        r == (elapsed_ms >= interval_ms),
{
    elapsed_ms >= interval_ms
}

/// Whether a heartbeat ping succeeded: only a 202 answer counts.
pub fn heartbeat_accepted(status: Option<u16>) -> (r: bool)
    ensures
        r == (status == Some(202u16)),
{
    match status {
        Some(s) => s == 202,
        None => false,
    }
}

} // verus!
