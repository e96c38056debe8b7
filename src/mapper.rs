//! The two JSON shapes of an event and the consumer remapping rules that
//! turn a raw broker payload into the canonical shape.
use vstd::prelude::*;
use ilert::ilert_builders::{EventImage, EventLink};
use crate::config::ILConfig;
use crate::payload::{Payload, Member, json_members, member_of, text_of, opt_view};

verus! {

/// The canonical event as the HTTP ingress and the upstream API see it.
#[allow(non_snake_case)]
#[derive(Clone, Debug)]
pub struct EventQueueItemJson {
    pub apiKey: String,
    pub eventType: String,
    pub summary: String,
    pub details: Option<String>,
    pub alertKey: Option<String>,
    pub priority: Option<String>,
    pub images: Option<Vec<EventImage>>,
    pub links: Option<Vec<EventLink>>,
    pub customDetails: Option<serde_json::Value>,
}

/// The same event read from a broker payload: every field optional.
#[allow(non_snake_case)]
#[derive(Clone, Debug)]
pub struct EventQueueTransitionItemJson {
    pub apiKey: Option<String>,
    pub eventType: Option<String>,
    pub summary: Option<String>,
    pub details: Option<String>,
    pub alertKey: Option<String>,
    pub priority: Option<String>,
    pub images: Option<Vec<EventImage>>,
    pub links: Option<Vec<EventLink>>,
    pub customDetails: Option<serde_json::Value>,
}

/// The text fields of a canonical event.
pub struct EventText {
    pub api_key: Seq<char>,
    pub event_type: Seq<char>,
    pub summary: Seq<char>,
    pub details: Option<Seq<char>>,
    pub alert_key: Option<Seq<char>>,
    pub priority: Option<Seq<char>>,
}

/// The text fields of a transitional event.
pub struct TransitionText {
    pub api_key: Option<Seq<char>>,
    pub event_type: Option<Seq<char>>,
    pub summary: Option<Seq<char>>,
    pub details: Option<Seq<char>>,
    pub alert_key: Option<Seq<char>>,
    pub priority: Option<Seq<char>>,
}

impl EventQueueItemJson {
    pub open spec fn text(&self) -> EventText {
        EventText {
            api_key: self.apiKey@,
            event_type: self.eventType@,
            summary: self.summary@,
            details: opt_view(self.details),
            alert_key: opt_view(self.alertKey),
            priority: opt_view(self.priority),
        }
    }
}

impl EventQueueTransitionItemJson {
    pub open spec fn text(&self) -> TransitionText {
        TransitionText {
            api_key: opt_view(self.apiKey),
            event_type: opt_view(self.eventType),
            summary: opt_view(self.summary),
            details: opt_view(self.details),
            alert_key: opt_view(self.alertKey),
            priority: opt_view(self.priority),
        }
    }
}

/// A missing event type means an alert; a missing key or summary is empty.
pub open spec fn spec_from_transition(t: TransitionText) -> EventText {
    EventText {
        api_key: match t.api_key { Some(s) => s, None => Seq::empty() },
        event_type: match t.event_type { Some(s) => s, None => "ALERT"@ },
        summary: match t.summary { Some(s) => s, None => Seq::empty() },
        details: t.details,
        alert_key: t.alert_key,
        priority: t.priority,
    }
}

/// The filter rule: with `filter_key` set the member must be present, and
/// with `filter_val` set too it must be a string equal to that value.
pub open spec fn filter_passes(c: ILConfig, p: Seq<Member>) -> bool {
    match c.filter_key {
        None => true,
        Some(k) => match member_of(p, k@) {
            None => false,
            Some(v) => match c.filter_val {
                None => true,
                Some(fv) => v == Some(fv@),
            },
        },
    }
}

/// The text found under a configured key, when the key is set and names a
/// string member.
pub open spec fn mapped_text(p: Seq<Member>, key: Option<String>) -> Option<Seq<char>> {
    match key {
        Some(k) => text_of(p, k@),
        None => None,
    }
}

pub open spec fn matches_value(v: Option<String>, candidate: Seq<char>) -> bool {
    match v {
        Some(s) => s@ == candidate,
        None => false,
    }
}

/// The event-type value rule applied to a mapped candidate: the configured
/// value that equals it names the canonical type (resolve over accept over
/// alert when several do).
pub open spec fn remap_event_type(c: ILConfig, candidate: Seq<char>) -> Seq<char> {
    if matches_value(c.map_val_etype_resolve, candidate) {
        "RESOLVE"@
    } else if matches_value(c.map_val_etype_accept, candidate) {
        "ACCEPT"@
    } else if matches_value(c.map_val_etype_alert, candidate) {
        "ALERT"@
    } else {
        candidate
    }
}

pub open spec fn or_else(a: Option<Seq<char>>, b: Option<Seq<char>>) -> Option<Seq<char>> {
    match a {
        Some(s) => Some(s),
        None => b,
    }
}

/// The summary given to an alert that arrived without one.
pub open spec fn default_summary(topic: Seq<char>) -> Seq<char> {
    "New alert from "@ + topic
}

/// Steps two to five of the rules, on the transitional fields.
pub open spec fn remap_transition(c: ILConfig, p: Seq<Member>, t: TransitionText, topic: Seq<char>)
    -> TransitionText {
    let api_key = match c.event_key {
        Some(k) => Some(k@),
        None => t.api_key,
    };
    let alert_key = or_else(mapped_text(p, c.map_key_alert_key), t.alert_key);
    let summary = or_else(mapped_text(p, c.map_key_summary), t.summary);
    let event_type = match mapped_text(p, c.map_key_etype) {
        Some(candidate) => Some(remap_event_type(c, candidate)),
        None => t.event_type,
    };
    let is_alert = match event_type {
        Some(e) => e == "ALERT"@,
        None => true,
    };
    TransitionText {
        api_key,
        event_type,
        summary: if summary is None && is_alert {
            Some(default_summary(topic))
        } else {
            summary
        },
        details: t.details,
        alert_key,
        priority: t.priority,
    }
}

/// The whole mapper: `None` when the filter drops the payload.
pub open spec fn spec_remap(c: ILConfig, p: Seq<Member>, t: TransitionText, topic: Seq<char>)
    -> Option<EventText> {
    if filter_passes(c, p) {
        Some(spec_from_transition(remap_transition(c, p, t, topic)))
    } else {
        None
    }
}

fn text_matches(v: &Option<String>, candidate: &String) -> (r: bool)
    ensures
        r == matches_value(*v, candidate@),
{
    match v {
        Some(s) => *s == *candidate,
        None => false,
    }
}

fn filter_check(config: &ILConfig, payload: &Payload) -> (r: bool)
    ensures
        r == filter_passes(*config, payload@),
{
    match &config.filter_key {
        None => true,
        Some(k) => {
            if !payload.contains_key(k.as_str()) {
                return false;
            }
            match &config.filter_val {
                None => true,
                Some(fv) => match payload.get_text(k.as_str()) {
                    Some(v) => v == *fv,
                    None => false,
                },
            }
        },
    }
}

fn mapped(payload: &Payload, key: &Option<String>) -> (r: Option<String>)
    ensures
        opt_view(r) == mapped_text(payload@, *key),
{
    match key {
        Some(k) => payload.get_text(k.as_str()),
        None => None,
    }
}

impl EventQueueItemJson {
    /// Fills the required fields that a transitional event may lack.
    pub fn from_transition(trans: EventQueueTransitionItemJson) -> (r: EventQueueItemJson)
        ensures
            r.text() == spec_from_transition(trans.text()),
            r.images == trans.images,
            r.links == trans.links,
            r.customDetails == trans.customDetails,
    {
        EventQueueItemJson {
            apiKey: match trans.apiKey {
                Some(s) => s,
                None => String::new(),
            },
            eventType: match trans.eventType {
                Some(s) => s,
                None => String::from_str("ALERT"),
            },
            summary: match trans.summary {
                Some(s) => s,
                None => String::new(),
            },
            details: trans.details,
            alertKey: trans.alertKey,
            priority: trans.priority,
            images: trans.images,
            links: trans.links,
            customDetails: trans.customDetails,
        }
    }

    /// Applies the consumer remapping rules of `config` to the payload text
    /// `payload` read from `topic`, whose transitional reading is `parsed`.
    /// `None` when the text is not JSON or the filter drops it.
    pub fn parse_event_json(
        config: &ILConfig,
        payload: &str,
        parsed: EventQueueTransitionItemJson,
        topic: &str,
    ) -> (r: Option<EventQueueItemJson>)
        ensures
            match json_members(payload@) {
                None => r is None,
                Some(m) => match spec_remap(*config, m, parsed.text(), topic@) {
                    None => r is None,
                    Some(e) => r matches Some(v) && v.text() == e && v.images == parsed.images
                        && v.links == parsed.links && v.customDetails == parsed.customDetails,
                },
            },
    {
        match Payload::read(payload) {
            Some(members) => Self::remap_event(config, &members, parsed, topic),
            None => None,
        }
    }

    /// Applies the consumer remapping rules of `config` to a payload read
    /// from `topic`: `payload` holds its members, `parsed` its transitional
    /// reading. `None` when the filter drops it.
    pub fn remap_event(
        config: &ILConfig,
        payload: &Payload,
        parsed: EventQueueTransitionItemJson,
        topic: &str,
    ) -> (r: Option<EventQueueItemJson>)
        ensures
            match spec_remap(*config, payload@, parsed.text(), topic@) {
                None => r is None,
                Some(e) => r matches Some(v) && v.text() == e && v.images == parsed.images
                    && v.links == parsed.links && v.customDetails == parsed.customDetails,
            },
    {
        if !filter_check(config, payload) {
            return None;
        }
        let mut parsed = parsed;
        if let Some(k) = &config.event_key {
            parsed.apiKey = Some(k.clone());
        }
        if let Some(v) = mapped(payload, &config.map_key_alert_key) {
            parsed.alertKey = Some(v);
        }
        if let Some(v) = mapped(payload, &config.map_key_summary) {
            parsed.summary = Some(v);
        }
        if let Some(candidate) = mapped(payload, &config.map_key_etype) {
            let mut event_type = candidate.clone();
            if text_matches(&config.map_val_etype_alert, &candidate) {
                event_type = String::from_str("ALERT");
            }
            if text_matches(&config.map_val_etype_accept, &candidate) {
                event_type = String::from_str("ACCEPT");
            }
            if text_matches(&config.map_val_etype_resolve, &candidate) {
                event_type = String::from_str("RESOLVE");
            }
            parsed.eventType = Some(event_type);
        }
        let is_alert = match &parsed.eventType {
            Some(e) => *e == String::from_str("ALERT"),
            None => true,
        };
        if parsed.summary.is_none() && is_alert {
            let mut s = String::from_str("New alert from ");
            s.append(topic);
            parsed.summary = Some(s);
        }
        Some(EventQueueItemJson::from_transition(parsed))
    }
}

/// The member names of the canonical shape.
pub open spec fn is_canonical_key(k: Seq<char>) -> bool {
    ||| k == "apiKey"@
    ||| k == "eventType"@
    ||| k == "summary"@
    ||| k == "details"@
    ||| k == "alertKey"@
    ||| k == "priority"@
    ||| k == "images"@
    ||| k == "links"@
    ||| k == "customDetails"@
}

pub open spec fn is_canonical_type(v: Seq<char>) -> bool {
    v == "ALERT"@ || v == "ACCEPT"@ || v == "RESOLVE"@
}

/// The text members of a canonical event written as a payload; an absent
/// optional field is written as null.
pub open spec fn payload_of(e: EventText) -> Seq<Member> {
    seq![
        ("apiKey"@, Some(e.api_key)),
        ("eventType"@, Some(e.event_type)),
        ("summary"@, Some(e.summary)),
        ("details"@, e.details),
        ("alertKey"@, e.alert_key),
        ("priority"@, e.priority),
    ]
}

/// The transitional reading of a canonical event.
pub open spec fn transition_of(e: EventText) -> TransitionText {
    TransitionText {
        api_key: Some(e.api_key),
        event_type: Some(e.event_type),
        summary: Some(e.summary),
        details: e.details,
        alert_key: e.alert_key,
        priority: e.priority,
    }
}

/// `t` is what reading the payload `p` in the transitional shape gives.
pub open spec fn transition_reads(p: Seq<Member>, t: TransitionText) -> bool {
    &&& t.api_key == text_of(p, "apiKey"@)
    &&& t.event_type == text_of(p, "eventType"@)
    &&& t.summary == text_of(p, "summary"@)
    &&& t.details == text_of(p, "details"@)
    &&& t.alert_key == text_of(p, "alertKey"@)
    &&& t.priority == text_of(p, "priority"@)
}

/// A mapped key that, on a canonical payload, finds its own field or nothing.
pub open spec fn key_keeps_field(k: Option<String>, own: Seq<char>) -> bool {
    match k {
        Some(k) => k@ == own || !is_canonical_key(k@),
        None => true,
    }
}

/// A mapped event-type value that names no other canonical type.
pub open spec fn value_keeps_type(v: Option<String>, own: Seq<char>) -> bool {
    match v {
        Some(v) => v@ == own || !is_canonical_type(v@),
        None => true,
    }
}

proof fn lemma_literals_distinct()
    ensures
        "apiKey"@ != "eventType"@,
        "apiKey"@ != "summary"@,
        "apiKey"@ != "details"@,
        "apiKey"@ != "alertKey"@,
        "apiKey"@ != "priority"@,
        "eventType"@ != "summary"@,
        "eventType"@ != "details"@,
        "eventType"@ != "alertKey"@,
        "eventType"@ != "priority"@,
        "summary"@ != "details"@,
        "summary"@ != "alertKey"@,
        "summary"@ != "priority"@,
        "details"@ != "alertKey"@,
        "details"@ != "priority"@,
        "alertKey"@ != "priority"@,
        "ALERT"@ != "ACCEPT"@,
        "ALERT"@ != "RESOLVE"@,
        "ACCEPT"@ != "RESOLVE"@,
{
    reveal_strlit("apiKey");
    reveal_strlit("eventType");
    reveal_strlit("summary");
    reveal_strlit("details");
    reveal_strlit("alertKey");
    reveal_strlit("priority");
    reveal_strlit("ALERT");
    reveal_strlit("ACCEPT");
    reveal_strlit("RESOLVE");
    assert("apiKey"@.len() == 6 && "eventType"@.len() == 9 && "summary"@.len() == 7);
    assert("details"@.len() == 7 && "alertKey"@.len() == 8 && "priority"@.len() == 8);
    assert("summary"@[0] != "details"@[0]);
    assert("alertKey"@[0] != "priority"@[0]);
    assert("ALERT"@.len() == 5 && "ACCEPT"@.len() == 6 && "RESOLVE"@.len() == 7);
}

proof fn lemma_payload_of_members(e: EventText, k: Seq<char>)
    ensures
        text_of(payload_of(e), "apiKey"@) == Some(e.api_key),
        text_of(payload_of(e), "eventType"@) == Some(e.event_type),
        text_of(payload_of(e), "summary"@) == Some(e.summary),
        text_of(payload_of(e), "details"@) == e.details,
        text_of(payload_of(e), "alertKey"@) == e.alert_key,
        text_of(payload_of(e), "priority"@) == e.priority,
        !is_canonical_key(k) ==> member_of(payload_of(e), k) is None,
{
    lemma_literals_distinct();
    reveal_with_fuel(member_of, 7);
}

/// Mapping is idempotent on canonical payloads: feeding the mapper's own
/// output back as a payload gives that output again. It needs the second
/// pass to get through the filter, each mapped key to find its own field or
/// none on a canonical payload, and each event-type value to name no other
/// canonical type.
pub proof fn lemma_remap_idempotent(c: ILConfig, p: Seq<Member>, t: TransitionText, topic: Seq<char>)
    requires
        transition_reads(p, t),
        spec_remap(c, p, t, topic) is Some,
        filter_passes(c, payload_of(spec_remap(c, p, t, topic)->0)),
        key_keeps_field(c.map_key_alert_key, "alertKey"@),
        key_keeps_field(c.map_key_summary, "summary"@),
        key_keeps_field(c.map_key_etype, "eventType"@),
        value_keeps_type(c.map_val_etype_alert, "ALERT"@),
        value_keeps_type(c.map_val_etype_accept, "ACCEPT"@),
        value_keeps_type(c.map_val_etype_resolve, "RESOLVE"@),
    ensures
        ({
            let e = spec_remap(c, p, t, topic)->0;
            spec_remap(c, payload_of(e), transition_of(e), topic) == Some(e)
        }),
{
    let e = spec_remap(c, p, t, topic)->0;
    lemma_literals_distinct();
    if let Some(k) = c.map_key_alert_key {
        lemma_payload_of_members(e, k@);
    }
    if let Some(k) = c.map_key_summary {
        lemma_payload_of_members(e, k@);
    }
    if let Some(k) = c.map_key_etype {
        lemma_payload_of_members(e, k@);
    }
    lemma_payload_of_members(e, Seq::empty());
}

/// A payload without a summary, mapped to an alert, gets the summary
/// "New alert from <topic>"; mapped to another type, it keeps an empty one.
pub proof fn lemma_alert_summary_default(c: ILConfig, p: Seq<Member>, t: TransitionText, topic: Seq<char>)
    requires
        filter_passes(c, p),
        t.summary is None,
        mapped_text(p, c.map_key_summary) is None,
    ensures
        ({
            let e = spec_remap(c, p, t, topic)->0;
            &&& spec_remap(c, p, t, topic) is Some
            &&& e.event_type == "ALERT"@ ==> e.summary == default_summary(topic)
            &&& e.event_type != "ALERT"@ ==> e.summary == Seq::<char>::empty()
        }),
{
}

} // verus!
