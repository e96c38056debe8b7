//! The agent's configuration: fixed after startup, shared by every job.
use vstd::prelude::*;
use crate::decimal::{i32_to_text, parse_i32, parse_u16, int_text, spec_parse_i32, spec_parse_u16};

verus! {

/// Everything the jobs read: the HTTP listener, the store file, the
/// broker connections, the topics and the consumer remapping rules.
#[derive(Clone)]
pub struct ILConfig {
    pub http_host: String,
    pub http_port: i32,
    pub start_http: bool,
    pub http_worker_count: i8,
    pub db_file: String,
    pub heartbeat_key: Option<String>,
    pub mqtt_host: Option<String>,
    pub mqtt_port: Option<u16>,
    pub mqtt_name: Option<String>,
    pub mqtt_username: Option<String>,
    pub mqtt_password: Option<String>,
    pub kafka_brokers: Option<String>,
    pub kafka_group_id: Option<String>,
    pub event_topic: Option<String>,
    pub heartbeat_topic: Option<String>,
    pub event_key: Option<String>,
    pub map_key_etype: Option<String>,
    pub map_key_alert_key: Option<String>,
    pub map_key_summary: Option<String>,
    pub map_val_etype_alert: Option<String>,
    pub map_val_etype_accept: Option<String>,
    pub map_val_etype_resolve: Option<String>,
    pub filter_key: Option<String>,
    pub filter_val: Option<String>,
}

impl ILConfig {
    /// The defaults: listen on 0.0.0.0:8977 (not started), one worker,
    /// store in ./ilagent.db3, no broker, no heartbeat, no remapping.
    pub fn new() -> (r: ILConfig)
        ensures
            r.http_host@ == "0.0.0.0"@,
            r.http_port == 8977,
            !r.start_http,
            r.http_worker_count == 1,
            r.db_file@ == "./ilagent.db3"@,
            r.heartbeat_key is None,
            r.mqtt_host is None,
            r.mqtt_port is None,
            r.mqtt_name is None,
            r.mqtt_username is None,
            r.mqtt_password is None,
            r.kafka_brokers is None,
            r.kafka_group_id is None,
            r.event_topic is None,
            r.heartbeat_topic is None,
            r.event_key is None,
            r.map_key_etype is None,
            r.map_key_alert_key is None,
            r.map_key_summary is None,
            r.map_val_etype_alert is None,
            r.map_val_etype_accept is None,
            r.map_val_etype_resolve is None,
            r.filter_key is None,
            r.filter_val is None,
    {
        ILConfig {
            http_host: String::from_str("0.0.0.0"),
            http_port: 8977,
            start_http: false,
            http_worker_count: 1,
            db_file: String::from_str("./ilagent.db3"),
            heartbeat_key: None,
            mqtt_host: None,
            mqtt_port: None,
            mqtt_name: None,
            mqtt_username: None,
            mqtt_password: None,
            kafka_brokers: None,
            kafka_group_id: None,
            event_topic: None,
            heartbeat_topic: None,
            event_key: None,
            map_key_etype: None,
            map_key_alert_key: None,
            map_key_summary: None,
            map_val_etype_alert: None,
            map_val_etype_accept: None,
            map_val_etype_resolve: None,
            filter_key: None,
            filter_val: None,
        }
    }

    /// The address the HTTP listener binds: `<host>:<port>`.
    pub fn get_http_bind_str(&self) -> (r: String)
        ensures
            r@ == self.http_host@ + ":"@ + int_text(self.http_port as int),
    {
        let mut s = self.http_host.clone();
        s.append(":");
        let port = i32_to_text(self.http_port);
        s.append(port.as_str());
        s
    }

    /// The HTTP port in decimal.
    pub fn get_port_as_string(&self) -> (r: String)
        ensures
            r@ == int_text(self.http_port as int),
    {
        i32_to_text(self.http_port)
    }

    /// Sets the HTTP port from its decimal text, which must read as an `i32`.
    pub fn set_port_from_str(&mut self, text: &str)
        requires
            spec_parse_i32(text@) is Some,
        ensures
            *final(self) == (ILConfig { http_port: spec_parse_i32(text@)->0, ..*old(self) }),
    {
        match parse_i32(text) {
            Some(p) => self.http_port = p,
            None => {},
        }
    }

    /// Sets the MQTT port from its decimal text, which must read as a `u16`.
    pub fn set_mqtt_port_from_str(&mut self, text: &str)
        requires
            spec_parse_u16(text@) is Some,
        ensures
            *final(self) == (ILConfig { mqtt_port: spec_parse_u16(text@), ..*old(self) }),
    {
        self.mqtt_port = parse_u16(text);
    }
}

} // verus!
