use ilagent::config::ILConfig;
use ilagent::heartbeat::HeartbeatJson;
use ilagent::mapper::{EventQueueItemJson, EventQueueTransitionItemJson};
use ilagent::payload::Payload;

fn empty_transition() -> EventQueueTransitionItemJson {
    EventQueueTransitionItemJson {
        apiKey: None,
        eventType: None,
        summary: None,
        details: None,
        alertKey: None,
        priority: None,
        images: None,
        links: None,
        customDetails: None,
    }
}

fn payload(members: &[(&str, Option<&str>)]) -> Payload {
    let mut p = Payload::new();
    for (k, v) in members {
        p.push(k.to_string(), v.map(|s| s.to_string()));
    }
    p
}

/// Reads a payload the way the consumers do: the string members give the
/// transitional fields of the same name.
fn transition_of(p: &Payload) -> EventQueueTransitionItemJson {
    let mut t = empty_transition();
    t.apiKey = p.get_text("apiKey");
    t.eventType = p.get_text("eventType");
    t.summary = p.get_text("summary");
    t.details = p.get_text("details");
    t.alertKey = p.get_text("alertKey");
    t.priority = p.get_text("priority");
    t
}

fn payload_of(e: &EventQueueItemJson) -> Payload {
    payload(&[
        ("apiKey", Some(e.apiKey.as_str())),
        ("eventType", Some(e.eventType.as_str())),
        ("summary", Some(e.summary.as_str())),
        ("details", e.details.as_deref()),
        ("alertKey", e.alertKey.as_deref()),
        ("priority", e.priority.as_deref()),
    ])
}

#[test]
fn mqtt_scenario_maps_foo_into_summary() {
    let mut config = ILConfig::new();
    config.map_key_summary = Some("foo".to_string());
    config.event_key = Some("K".to_string());
    config.map_val_etype_alert = Some("whatever".to_string());
    let p = payload(&[("foo", Some("bar"))]);
    let e = EventQueueItemJson::remap_event(&config, &p, transition_of(&p), "ilert/events").unwrap();
    assert_eq!(e.apiKey, "K");
    assert_eq!(e.summary, "bar");
    assert_eq!(e.eventType, "ALERT");
}

#[test]
fn missing_summary_on_alert_gets_topic_summary() {
    let config = ILConfig::new();
    let p = payload(&[("apiKey", Some("k"))]);
    let e = EventQueueItemJson::remap_event(&config, &p, transition_of(&p), "ilert/events").unwrap();
    assert_eq!(e.eventType, "ALERT");
    assert_eq!(e.summary, "New alert from ilert/events");
}

#[test]
fn missing_summary_on_resolve_stays_empty() {
    let config = ILConfig::new();
    let p = payload(&[("apiKey", Some("k")), ("eventType", Some("RESOLVE"))]);
    let e = EventQueueItemJson::remap_event(&config, &p, transition_of(&p), "t").unwrap();
    assert_eq!(e.eventType, "RESOLVE");
    assert_eq!(e.summary, "");
}

#[test]
fn present_empty_summary_is_kept() {
    let config = ILConfig::new();
    let p = payload(&[("apiKey", Some("k")), ("summary", Some(""))]);
    let e = EventQueueItemJson::remap_event(&config, &p, transition_of(&p), "t").unwrap();
    assert_eq!(e.summary, "");
}

#[test]
fn filter_key_missing_drops() {
    let mut config = ILConfig::new();
    config.filter_key = Some("site".to_string());
    let p = payload(&[("apiKey", Some("k"))]);
    assert!(EventQueueItemJson::remap_event(&config, &p, transition_of(&p), "t").is_none());
}

#[test]
fn filter_key_present_passes() {
    let mut config = ILConfig::new();
    config.filter_key = Some("site".to_string());
    let p = payload(&[("site", None)]);
    assert!(EventQueueItemJson::remap_event(&config, &p, transition_of(&p), "t").is_some());
}

#[test]
fn filter_value_must_match_as_string() {
    let mut config = ILConfig::new();
    config.filter_key = Some("site".to_string());
    config.filter_val = Some("berlin".to_string());
    let same = payload(&[("site", Some("berlin"))]);
    let other = payload(&[("site", Some("paris"))]);
    let number = payload(&[("site", None)]);
    assert!(EventQueueItemJson::remap_event(&config, &same, transition_of(&same), "t").is_some());
    assert!(EventQueueItemJson::remap_event(&config, &other, transition_of(&other), "t").is_none());
    assert!(EventQueueItemJson::remap_event(&config, &number, transition_of(&number), "t").is_none());
}

#[test]
fn mapped_event_type_value_is_translated() {
    let mut config = ILConfig::new();
    config.map_key_etype = Some("state".to_string());
    config.map_val_etype_alert = Some("bad".to_string());
    config.map_val_etype_accept = Some("seen".to_string());
    config.map_val_etype_resolve = Some("ok".to_string());
    for (state, expected) in [("bad", "ALERT"), ("seen", "ACCEPT"), ("ok", "RESOLVE"), ("odd", "odd")] {
        let p = payload(&[("state", Some(state)), ("summary", Some("s"))]);
        let e = EventQueueItemJson::remap_event(&config, &p, transition_of(&p), "t").unwrap();
        assert_eq!(e.eventType, expected);
    }
}

#[test]
fn event_type_value_without_mapped_key_is_untouched() {
    let mut config = ILConfig::new();
    config.map_val_etype_resolve = Some("ALERT".to_string());
    let p = payload(&[("eventType", Some("ALERT")), ("summary", Some("s"))]);
    let e = EventQueueItemJson::remap_event(&config, &p, transition_of(&p), "t").unwrap();
    assert_eq!(e.eventType, "ALERT");
}

#[test]
fn mapped_keys_fill_alert_key_and_summary() {
    let mut config = ILConfig::new();
    config.map_key_alert_key = Some("host".to_string());
    config.map_key_summary = Some("msg".to_string());
    let p = payload(&[("host", Some("db1")), ("msg", Some("down")), ("summary", Some("x")), ("alertKey", Some("y"))]);
    let e = EventQueueItemJson::remap_event(&config, &p, transition_of(&p), "t").unwrap();
    assert_eq!(e.alertKey.as_deref(), Some("db1"));
    assert_eq!(e.summary, "down");
}

#[test]
fn mapped_key_on_non_string_member_keeps_field() {
    let mut config = ILConfig::new();
    config.map_key_summary = Some("msg".to_string());
    let p = payload(&[("msg", None), ("summary", Some("kept"))]);
    let e = EventQueueItemJson::remap_event(&config, &p, transition_of(&p), "t").unwrap();
    assert_eq!(e.summary, "kept");
}

#[test]
fn event_key_overrides_api_key() {
    let mut config = ILConfig::new();
    config.event_key = Some("K".to_string());
    let p = payload(&[("apiKey", Some("other")), ("summary", Some("s"))]);
    let e = EventQueueItemJson::remap_event(&config, &p, transition_of(&p), "t").unwrap();
    assert_eq!(e.apiKey, "K");
}

#[test]
fn remap_twice_is_a_fixed_point() {
    let mut config = ILConfig::new();
    config.event_key = Some("K".to_string());
    config.map_key_summary = Some("msg".to_string());
    config.map_key_etype = Some("state".to_string());
    config.map_val_etype_resolve = Some("ok".to_string());
    let p = payload(&[("msg", Some("disk")), ("state", Some("ok")), ("details", Some("d"))]);
    let once = EventQueueItemJson::remap_event(&config, &p, transition_of(&p), "t").unwrap();
    let q = payload_of(&once);
    let twice = EventQueueItemJson::remap_event(&config, &q, transition_of(&q), "t").unwrap();
    assert_eq!(format!("{:?}", once), format!("{:?}", twice));
}

#[test]
fn from_transition_fills_defaults() {
    let e = EventQueueItemJson::from_transition(empty_transition());
    assert_eq!(e.apiKey, "");
    assert_eq!(e.eventType, "ALERT");
    assert_eq!(e.summary, "");
    assert!(e.details.is_none());
}

#[test]
fn payload_lookup_takes_first_member() {
    let p = payload(&[("a", Some("1")), ("a", Some("2")), ("b", None)]);
    assert_eq!(p.get_text("a").as_deref(), Some("1"));
    assert!(p.contains_key("b"));
    assert!(p.get_text("b").is_none());
    assert!(!p.contains_key("c"));
}

#[test]
fn heartbeat_needs_string_api_key() {
    let ok = payload(&[("apiKey", Some("hb"))]);
    assert_eq!(HeartbeatJson::from_payload(&ok).unwrap().apiKey, "hb");
    let bad = payload(&[("apiKey", None)]);
    assert!(HeartbeatJson::from_payload(&bad).is_none());
    let none = payload(&[]);
    assert!(HeartbeatJson::from_payload(&none).is_none());
}

#[test]
fn mqtt_scenario_from_payload_text() {
    let mut config = ILConfig::new();
    config.map_key_summary = Some("foo".to_string());
    config.event_key = Some("K".to_string());
    config.map_val_etype_alert = Some("whatever".to_string());
    let text = r#"{"foo":"bar"}"#;
    let e = EventQueueItemJson::parse_event_json(&config, text, empty_transition(), "ilert/events").unwrap();
    assert_eq!(e.apiKey, "K");
    assert_eq!(e.summary, "bar");
    assert_eq!(e.eventType, "ALERT");
}

#[test]
fn event_text_that_is_not_json_is_dropped() {
    let config = ILConfig::new();
    assert!(EventQueueItemJson::parse_event_json(&config, "{nope", empty_transition(), "t").is_none());
}

#[test]
fn payload_text_members() {
    let p = Payload::read(r#"{"a":"x","b":3,"c":null,"d":{"e":"f"}}"#).unwrap();
    assert_eq!(p.get_text("a").as_deref(), Some("x"));
    assert!(p.contains_key("b") && p.get_text("b").is_none());
    assert!(p.contains_key("c") && p.get_text("c").is_none());
    assert!(p.contains_key("d") && !p.contains_key("e"));
    assert_eq!(Payload::read("[1,2]").unwrap().fields.len(), 0);
    assert!(Payload::read("not json").is_none());
}

#[test]
fn heartbeat_from_text() {
    assert_eq!(HeartbeatJson::parse_heartbeat_json(r#"{"apiKey":"hb"}"#).unwrap().apiKey, "hb");
    assert!(HeartbeatJson::parse_heartbeat_json(r#"{"apiKey":1}"#).is_none());
    assert!(HeartbeatJson::parse_heartbeat_json("").is_none());
}
