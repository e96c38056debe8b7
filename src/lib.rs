//! Forwarding agent core: the canonical event model, the consumer-side
//! remapping rules, the queue row translation and the delivery decisions.

pub mod decimal;
pub mod config;
pub mod event;
pub mod payload;
pub mod json;
pub mod mapper;
pub mod codec;
pub mod heartbeat;
pub mod ingress;
pub mod dispatch;
pub mod topic;
pub mod consumers;
pub mod store;
pub mod command;
pub mod daemon;
