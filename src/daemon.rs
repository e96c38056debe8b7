//! Which long-running jobs the daemon starts for a configuration.
use vstd::prelude::*;
use crate::config::ILConfig;

verus! {

/// The jobs to start.
#[derive(Clone, Copy, Debug, PartialEq, Eq, Structural)]
pub struct DaemonPlan {
    /// The dispatcher that drains the queue.
    pub poll: bool,
    /// The heartbeat ticker.
    pub heartbeat: bool,
    pub mqtt: bool,
    pub kafka: bool,
    /// The HTTP ingress.
    pub http: bool,
}

/// The dispatcher runs when something fills the queue (HTTP or MQTT; Kafka
/// delivers directly); each other job runs when it is configured.
pub fn plan_jobs(config: &ILConfig) -> (r: DaemonPlan)
    ensures
        r.poll == (config.mqtt_host is Some || config.start_http),
        r.heartbeat == config.heartbeat_key is Some,
        r.mqtt == config.mqtt_host is Some,
        r.kafka == config.kafka_brokers is Some,
        r.http == config.start_http,
{
    DaemonPlan {
        poll: config.mqtt_host.is_some() || config.start_http,
        heartbeat: config.heartbeat_key.is_some(),
        mqtt: config.mqtt_host.is_some(),
        kafka: config.kafka_brokers.is_some(),
        http: config.start_http,
    }
}

} // verus!
