//! The queued event row and the two closed vocabularies it carries.
use vstd::prelude::*;

verus! {

/// The kinds of event the upstream API accepts.
#[derive(Clone, Copy, Debug, PartialEq, Eq, Structural)]
pub enum EventType {
    Alert,
    Accept,
    Resolve,
}

impl EventType {
    pub open spec fn spec_text(self) -> Seq<char> {
        match self {
            EventType::Alert => "ALERT"@,
            EventType::Accept => "ACCEPT"@,
            EventType::Resolve => "RESOLVE"@,
        }
    }

    pub open spec fn spec_from_text(s: Seq<char>) -> Option<EventType> {
        if s == "ALERT"@ {
            Some(EventType::Alert)
        } else if s == "ACCEPT"@ {
            Some(EventType::Accept)
        } else if s == "RESOLVE"@ {
            Some(EventType::Resolve)
        } else {
            None
        }
    }

    /// Reads one of the three upper-case names.
    pub fn from_str(s: &str) -> (r: Option<EventType>)
        ensures
            r == Self::spec_from_text(s@),
    {
        let t = String::from_str(s);
        if t == String::from_str("ALERT") {
            Some(EventType::Alert)
        } else if t == String::from_str("ACCEPT") {
            Some(EventType::Accept)
        } else if t == String::from_str("RESOLVE") {
            Some(EventType::Resolve)
        } else {
            None
        }
    }

    pub fn as_str(&self) -> (r: &'static str)
        ensures
            r@ == self.spec_text(),
    {
        match self {
            EventType::Alert => "ALERT",
            EventType::Accept => "ACCEPT",
            EventType::Resolve => "RESOLVE",
        }
    }
}

/// The two priorities the upstream API accepts.
#[derive(Clone, Copy, Debug, PartialEq, Eq, Structural)]
pub enum Priority {
    Low,
    High,
}

impl Priority {
    pub open spec fn spec_text(self) -> Seq<char> {
        match self {
            Priority::Low => "LOW"@,
            Priority::High => "HIGH"@,
        }
    }

    pub open spec fn spec_from_text(s: Seq<char>) -> Option<Priority> {
        if s == "LOW"@ {
            Some(Priority::Low)
        } else if s == "HIGH"@ {
            Some(Priority::High)
        } else {
            None
        }
    }

    /// Reads one of the two upper-case names.
    pub fn from_str(s: &str) -> (r: Option<Priority>)
        ensures
            r == Self::spec_from_text(s@),
    {
        let t = String::from_str(s);
        if t == String::from_str("LOW") {
            Some(Priority::Low)
        } else if t == String::from_str("HIGH") {
            Some(Priority::High)
        } else {
            None
        }
    }

    pub fn as_str(&self) -> (r: &'static str)
        ensures
            r@ == self.spec_text(),
    {
        match self {
            Priority::Low => "LOW",
            Priority::High => "HIGH",
        }
    }
}

/// Each event type's name reads back as that event type.
pub proof fn lemma_event_type_text_round_trip(t: EventType)
    ensures
        EventType::spec_from_text(t.spec_text()) == Some(t),
{
    reveal_strlit("ALERT");
    reveal_strlit("ACCEPT");
    reveal_strlit("RESOLVE");
    assert("ALERT"@.len() == 5 && "ACCEPT"@.len() == 6 && "RESOLVE"@.len() == 7);
}

/// Each priority's name reads back as that priority.
pub proof fn lemma_priority_text_round_trip(p: Priority)
    ensures
        Priority::spec_from_text(p.spec_text()) == Some(p),
{
    reveal_strlit("LOW");
    reveal_strlit("HIGH");
    assert("LOW"@.len() == 3 && "HIGH"@.len() == 4);
}

/// One row of the durable queue, every field as stored.
#[derive(Clone, Debug)]
pub struct EventQueueItem {
    pub id: Option<String>,
    pub api_key: String,
    pub event_type: String,
    pub alert_key: Option<String>,
    pub summary: String,
    pub details: Option<String>,
    pub created_at: Option<String>,
    pub priority: Option<String>,
    pub images: Option<String>,
    pub links: Option<String>,
    pub custom_details: Option<String>,
    pub event_api_path: Option<String>,
}

impl EventQueueItem {
    /// An empty alert row: no key, no summary, nothing optional set.
    pub fn new() -> (r: EventQueueItem)
        ensures
            r.id is None,
            r.api_key@ == Seq::<char>::empty(),
            r.event_type@ == EventType::Alert.spec_text(),
            r.alert_key is None,
            r.summary@ == Seq::<char>::empty(),
            r.details is None,
            r.created_at is None,
            r.priority is None,
            r.images is None,
            r.links is None,
            r.custom_details is None,
            r.event_api_path is None,
    {
        EventQueueItem {
            id: None,
            api_key: String::new(),
            event_type: String::from_str(EventType::Alert.as_str()),
            alert_key: None,
            summary: String::new(),
            details: None,
            created_at: None,
            priority: None,
            images: None,
            links: None,
            custom_details: None,
            event_api_path: None,
        }
    }

    /// A row holding the required fields and the alert key, nothing else.
    pub fn new_with_required(api_key: &str, event_type: &str, summary: &str, alert_key: Option<String>)
        -> (r: EventQueueItem)
        ensures
            r.id is None,
            r.api_key@ == api_key@,
            r.event_type@ == event_type@,
            r.alert_key == alert_key,
            r.summary@ == summary@,
            r.details is None,
            r.created_at is None,
            r.priority is None,
            r.images is None,
            r.links is None,
            r.custom_details is None,
            r.event_api_path is None,
    {
        EventQueueItem {
            id: None,
            api_key: String::from_str(api_key),
            event_type: String::from_str(event_type),
            alert_key,
            summary: String::from_str(summary),
            details: None,
            created_at: None,
            priority: None,
            images: None,
            links: None,
            custom_details: None,
            event_api_path: None,
        }
    }
}

} // verus!
