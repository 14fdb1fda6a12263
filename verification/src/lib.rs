//! Authenticated webhook ingestion for a log collector: signature
//! verification of inbound deliveries, construction of the event envelope,
//! and the transport contract of the forwarder.

pub mod envelope;
pub mod headers;
pub mod hec_event;
pub mod hex;
pub mod json;
pub mod relay;
pub mod service;
pub mod signature;
pub mod text;
