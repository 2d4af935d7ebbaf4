//! Adapter from a vendor-neutral proving-service contract onto the Sindri
//! proving backend's REST API: route construction, request/response
//! translation, status and error mapping, verification-key re-encoding, and
//! recursion-safe JSON decoding.
//!
//! The adapter never performs I/O itself. Each of the three operations
//! (`get_vks`, `prove`, `query_task`) is split into pure preparation and
//! finishing steps; a thin driver owns the HTTP client, sends the prepared
//! requests, and hands the raw outcomes back.

pub mod adapter;
pub mod decode;
pub mod jsonio;
pub mod messages;
pub mod ops;
pub mod routes;
pub mod status;
pub mod timeparse;
pub mod vk;
