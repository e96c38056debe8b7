//! The decisions of the MQTT and Kafka consumers: where a message goes,
//! how long to wait before reconnecting, what to subscribe to, and whether
//! a Kafka offset may be committed.
use vstd::prelude::*;
use crate::codec::row_text_of;
use crate::event::EventQueueItem;
use crate::mapper::EventQueueItemJson;
use crate::topic::{mqtt_topic_matches, topic_matches};

verus! {

/// Where a consumed message goes.
#[derive(Clone, Copy, Debug, PartialEq, Eq, Structural)]
pub enum Route {
    /// A heartbeat ping request.
    Heartbeat,
    /// An event for the mapper.
    Event,
    /// A topic the agent does not handle.
    Ignore,
}

/// The reconnect counter stops growing here (30 s of back-off).
pub const MAX_RECONNECT_ATTEMPTS: u64 = 300;

/// Back-off per reconnect attempt.
pub const RECONNECT_STEP_MS: u64 = 100;

/// How long the Kafka consumer waits before it exits on a retry verdict.
pub const KAFKA_RETRY_EXIT_DELAY_MS: u64 = 5000;

pub open spec fn has_wildcard(t: Seq<char>) -> bool {
    exists|i: int| 0 <= i < t.len() && (t[i] == '#' || t[i] == '+')
}

/// Whether a topic filter holds `#` or `+`.
pub fn has_wildcards(t: &str) -> (r: bool)
    ensures
        r == has_wildcard(t@),
{
    let n = t.unicode_len();
    let mut i: usize = 0;
    while i < n
        invariant
            0 <= i <= n,
            n == t@.len(),
            forall|j: int| 0 <= j < i ==> !(t@[j] == '#' || t@[j] == '+'),
        decreases n - i,
    {
        let c = t.get_char(i);
        if c == '#' || c == '+' {
            return true;
        }
        i = i + 1;
    }
    false
}

/// The MQTT routing rule.
pub open spec fn spec_mqtt_route(event_topic: Seq<char>, heartbeat_topic: Seq<char>, topic: Seq<char>) -> Route {
    if topic == heartbeat_topic {
        Route::Heartbeat
    } else if topic == event_topic {
        Route::Event
    } else if has_wildcard(event_topic) && topic_matches(topic, event_topic) {
        Route::Event
    } else {
        Route::Ignore
    }
}

/// Routes an MQTT message by its topic: the heartbeat topic, the event
/// topic, or (for a wildcard event topic) any topic it matches.
pub fn route_mqtt_message(event_topic: &str, heartbeat_topic: &str, topic: &str) -> (r: Route)
    ensures
        r == spec_mqtt_route(event_topic@, heartbeat_topic@, topic@),
{
    let t = String::from_str(topic);
    if t == String::from_str(heartbeat_topic) {
        Route::Heartbeat
    } else if t == String::from_str(event_topic) {
        Route::Event
    } else if has_wildcards(event_topic) && mqtt_topic_matches(topic, event_topic) {
        Route::Event
    } else {
        Route::Ignore
    }
}

/// A message on a topic that a wildcard event topic matches, other than
/// the heartbeat topic, goes to the event path.
pub proof fn lemma_wildcard_routes_to_events(event_topic: Seq<char>, heartbeat_topic: Seq<char>, topic: Seq<char>)
    requires
        has_wildcard(event_topic),
        topic_matches(topic, event_topic),
        topic != heartbeat_topic,
    ensures
        spec_mqtt_route(event_topic, heartbeat_topic, topic) == Route::Event,
{
}

/// The MQTT consumer's connection bookkeeping across reconnects.
#[derive(Clone, Copy, Debug, PartialEq, Eq, Structural)]
pub struct ConnectionState {
    pub connected: bool,
    /// Failed connections since the last good stream item, at most
    /// `MAX_RECONNECT_ATTEMPTS`.
    pub attempts: u64,
}

impl ConnectionState {
    pub open spec fn wf(&self) -> bool {
        self.attempts <= MAX_RECONNECT_ATTEMPTS
    }

    /// Not connected yet, no failed attempt.
    pub fn new() -> (r: ConnectionState)
        ensures
            r.wf(),
            !r.connected,
            r.attempts == 0,
    {
        ConnectionState { connected: false, attempts: 0 }
    }

    /// One item of the connection's stream: an error marks the connection
    /// lost; a good item marks it up and clears the attempt counter. True
    /// when this item (re)established the connection.
    pub fn on_item(&mut self, ok: bool) -> (r: bool)
        requires
            old(self).wf(),
        ensures
            final(self).wf(),
            r == (ok && !old(self).connected),
            final(self).connected == ok,
            final(self).attempts == if r { 0 } else { old(self).attempts },
    {
        if !ok {
            self.connected = false;
            return false;
        }
        if self.connected {
            return false;
        }
        self.connected = true;
        self.attempts = 0;
        true
    }

    /// The stream ended: one more attempt, up to the cap, and the wait in
    /// milliseconds before connecting again (100 ms per attempt).
    pub fn on_stream_end(&mut self) -> (delay_ms: u64)
        requires
            old(self).wf(),
        ensures
            final(self).wf(),
            final(self).connected == old(self).connected,
            final(self).attempts == if old(self).attempts < MAX_RECONNECT_ATTEMPTS {
                old(self).attempts + 1
            } else {
                old(self).attempts as int
            },
            delay_ms == RECONNECT_STEP_MS * final(self).attempts,
    {
        if self.attempts < MAX_RECONNECT_ATTEMPTS {
            self.attempts = self.attempts + 1;
        }
        RECONNECT_STEP_MS * self.attempts
    }
}

pub open spec fn configured_topic(t: Option<String>) -> Seq<Seq<char>> {
    match t {
        Some(s) => if s@.len() > 0 { seq![s@] } else { Seq::empty() },
        None => Seq::empty(),
    }
}

/// The Kafka subscriptions: the event and heartbeat topics that are set
/// and not empty, in that order.
pub fn kafka_topics(event_topic: &Option<String>, heartbeat_topic: &Option<String>) -> (r: Vec<String>)
    ensures
        r@.map_values(|s: String| s@) == configured_topic(*event_topic) + configured_topic(*heartbeat_topic),
{
    let mut r: Vec<String> = Vec::new();
    if let Some(t) = event_topic {
        if t.unicode_len() > 0 {
            r.push(t.clone());
        }
    }
    if let Some(t) = heartbeat_topic {
        if t.unicode_len() > 0 {
            r.push(t.clone());
        }
    }
    assert(r@.map_values(|s: String| s@) =~= configured_topic(*event_topic) + configured_topic(*heartbeat_topic));
    r
}

pub open spec fn topic_or_empty(t: Option<String>) -> Seq<char> {
    match t {
        Some(s) => s@,
        None => Seq::empty(),
    }
}

/// The Kafka routing rule: the event topic first, then the heartbeat topic.
pub open spec fn spec_kafka_route(event_topic: Option<String>, heartbeat_topic: Option<String>, topic: Seq<char>) -> Route {
    if topic == topic_or_empty(event_topic) {
        Route::Event
    } else if topic == topic_or_empty(heartbeat_topic) {
        Route::Heartbeat
    } else {
        Route::Ignore
    }
}

/// Routes a Kafka record by its topic.
pub fn route_kafka_message(event_topic: &Option<String>, heartbeat_topic: &Option<String>, topic: &str) -> (r: Route)
    ensures
        r == spec_kafka_route(*event_topic, *heartbeat_topic, topic@),
{
    let t = String::from_str(topic);
    let e = match event_topic {
        Some(s) => s.clone(),
        None => String::new(),
    };
    let h = match heartbeat_topic {
        Some(s) => s.clone(),
        None => String::new(),
    };
    if t == e {
        Route::Event
    } else if t == h {
        Route::Heartbeat
    } else {
        Route::Ignore
    }
}

/// What the Kafka consumer does with a record's offset.
#[derive(Clone, Copy, Debug, PartialEq, Eq, Structural)]
pub enum KafkaAction {
    /// Commit the offset: the record is done with.
    Commit,
    /// Leave the offset, wait, and end the process so that the broker
    /// delivers the record again after a restart.
    ExitForRedelivery,
}

/// The commit rule: only an event whose delivery asks for a retry keeps
/// its offset uncommitted.
pub fn kafka_action(route: Route, should_retry: bool) -> (r: KafkaAction)
    ensures
        r is ExitForRedelivery <==> (route is Event && should_retry),
{
    match route {
        Route::Event => if should_retry {
            KafkaAction::ExitForRedelivery
        } else {
            KafkaAction::Commit
        },
        _ => KafkaAction::Commit,
    }
}

/// The row a Kafka event is delivered from: the mapped event with
/// `details` (the record's key and topic) as its custom details, whatever
/// the mapping gave.
pub fn kafka_event_row(event: EventQueueItemJson, details: serde_json::Value) -> (r: EventQueueItem)
    ensures
        r.row_text() == row_text_of(event.text()),
        r.event_api_path is None,
        r.id is None,
        event.images is Some <==> r.images is Some,
        event.links is Some <==> r.links is Some,
        r.custom_details is Some,
{
    let mut event = event;
    event.customDetails = Some(details);
    EventQueueItemJson::to_db(event, None)
}

} // verus!
