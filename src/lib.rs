//! A typed client for the Home Assistant REST API.
//!
//! The library resolves the credentials of each call, builds the exact
//! request that an endpoint needs, and turns what the server answered into
//! typed values or a uniform error. Sending the request is left to the
//! caller's HTTP transport: each endpoint is split into a step that plans the
//! call and a step that judges the answer.
pub mod call;
pub mod client;
pub mod credentials;
pub mod error;
pub mod json;
pub mod laws;
pub mod paths;
pub mod records;

pub use ::serde_json;
pub use client::{hass, HomeAssistant, HomeAssistantPost};
