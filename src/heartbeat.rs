//! Heartbeat ping requests that arrive through a broker.
use vstd::prelude::*;
use crate::payload::{Payload, Member, json_members, text_of};

verus! {

/// A heartbeat ping request: the key of the heartbeat to ping.
#[allow(non_snake_case)]
#[derive(Clone, Debug)]
pub struct HeartbeatJson {
    pub apiKey: String,
}

/// The ping request that a payload's members hold.
pub open spec fn spec_heartbeat(members: Option<Seq<Member>>) -> Option<Seq<char>> {
    match members {
        Some(m) => text_of(m, "apiKey"@),
        None => None,
    }
}

impl HeartbeatJson {
    /// Reads a ping request from JSON text: it needs a string member `apiKey`.
    pub fn parse_heartbeat_json(payload: &str) -> (r: Option<HeartbeatJson>)
        ensures
            match spec_heartbeat(json_members(payload@)) {
                Some(k) => r matches Some(h) && h.apiKey@ == k,
                None => r is None,
            },
    {
        match Payload::read(payload) {
            Some(p) => Self::from_payload(&p),
            None => None,
        }
    }

    /// Reads a ping request from a payload's members.
    pub fn from_payload(payload: &Payload) -> (r: Option<HeartbeatJson>)
        ensures
            match text_of(payload@, "apiKey"@) {
                Some(k) => r matches Some(h) && h.apiKey@ == k,
                None => r is None,
            },
    {
        match payload.get_text("apiKey") {
            Some(k) => Some(HeartbeatJson { apiKey: k }),
            None => None,
        }
    }
}

} // verus!
