//! The identity and delivery core of a multi-protocol IoT ingestion platform.
//!
//! Devices connect through independent protocol gateways and must be
//! authenticated per request, possibly publishing on behalf of another device;
//! backend systems route commands to whichever live session currently
//! represents a device, within a caller-chosen wait window. This crate holds
//! the decision engine, the certificate validation against per-application
//! trust anchors, the command routing table, and the bounded-wait publish
//! coordination, each with a verified contract. Transport servers, stores and
//! sinks stay outside and drive these pieces through plain values.

pub mod auth;
pub mod coordinator;
pub mod engine;
pub mod model;
pub mod openid;
pub mod registry;
pub mod telemetry;
pub mod wire;
mod text;
