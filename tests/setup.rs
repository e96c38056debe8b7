use ilagent::config::ILConfig;
use ilagent::daemon::plan_jobs;
use ilagent::decimal::{i32_to_text, parse_i32, parse_u16};
use ilagent::command::command_event;
use ilagent::event::EventQueueItem;

#[test]
fn config_defaults() {
    let c = ILConfig::new();
    assert_eq!(c.http_host, "0.0.0.0");
    assert_eq!(c.http_port, 8977);
    assert!(!c.start_http);
    assert_eq!(c.http_worker_count, 1);
    assert_eq!(c.db_file, "./ilagent.db3");
    assert!(c.mqtt_host.is_none());
    assert_eq!(c.get_http_bind_str(), "0.0.0.0:8977");
    assert_eq!(c.get_port_as_string(), "8977");
}

#[test]
fn ports_from_text() {
    let mut c = ILConfig::new();
    c.set_port_from_str("8080");
    assert_eq!(c.http_port, 8080);
    assert_eq!(c.get_http_bind_str(), "0.0.0.0:8080");
    c.set_port_from_str("-12");
    assert_eq!(c.get_port_as_string(), "-12");
    c.set_mqtt_port_from_str("1883");
    assert_eq!(c.mqtt_port, Some(1883));
}

#[test]
fn decimal_text_matches_std() {
    for n in [0, 7, 10, 99, 8977, -1, -10, i32::MAX, i32::MIN] {
        assert_eq!(i32_to_text(n), n.to_string());
    }
    for s in ["0", "+5", "-5", "2147483647", "-2147483648", "2147483648", "-2147483649", "", "-", "+", "1a", " 1", "007", "99999999999"] {
        assert_eq!(parse_i32(s), s.parse::<i32>().ok(), "{}", s);
    }
    for s in ["0", "+1", "-1", "65535", "65536", "", "x", "+"] {
        assert_eq!(parse_u16(s), s.parse::<u16>().ok(), "{}", s);
    }
}

#[test]
fn daemon_jobs_follow_config() {
    let mut c = ILConfig::new();
    let p = plan_jobs(&c);
    assert!(!p.poll && !p.heartbeat && !p.mqtt && !p.kafka && !p.http);
    c.kafka_brokers = Some("localhost:9092".to_string());
    let p = plan_jobs(&c);
    assert!(p.kafka && !p.poll);
    c.mqtt_host = Some("127.0.0.1".to_string());
    c.heartbeat_key = Some("hb".to_string());
    let p = plan_jobs(&c);
    assert!(p.poll && p.mqtt && p.heartbeat);
    let mut h = ILConfig::new();
    h.start_http = true;
    let p = plan_jobs(&h);
    assert!(p.poll && p.http);
}

#[test]
fn event_constructors() {
    let e = EventQueueItem::new();
    assert_eq!(e.event_type, "ALERT");
    assert_eq!(e.api_key, "");
    let r = EventQueueItem::new_with_required("K", "ACCEPT", "s", Some("a".to_string()));
    assert_eq!(r.api_key, "K");
    assert_eq!(r.event_type, "ACCEPT");
    assert_eq!(r.summary, "s");
    assert_eq!(r.alert_key.as_deref(), Some("a"));
    assert!(r.id.is_none());
}

#[test]
fn command_event_carries_image_and_link() {
    let r = command_event("K", "ALERT", "s", None, Some("HIGH".to_string()), Some("d".to_string()),
        Some("http://img".to_string()), Some("http://link".to_string()));
    assert_eq!(r.id.as_deref(), Some("provided"));
    assert_eq!(r.priority.as_deref(), Some("HIGH"));
    assert_eq!(r.images.as_deref(), Some(r#"[{"src":"http://img","href":null,"alt":null}]"#));
    assert_eq!(r.links.as_deref(), Some(r#"[{"href":"http://link","text":"Provided Url"}]"#));
    let bare = command_event("K", "ALERT", "s", None, None, None, None, None);
    assert!(bare.images.is_none() && bare.links.is_none());
}
