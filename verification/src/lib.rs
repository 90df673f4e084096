//! A verified core for a design-file cache service.
//!
//! The library models the data that flows through a small HTTP facade in
//! front of an upstream design-file API: raw JSON payloads, the structured
//! records extracted from them, an in-memory document store with unique
//! keys, and the fetch-or-cache decision logic that ties them together.
//! All I/O (HTTP, database) lives outside the library; callers hand in
//! plain values and receive plain values back.

pub mod errors;
pub mod json;
pub mod text;
pub mod model;
pub mod extract;
pub mod ids;
pub mod store;
pub mod service;
pub mod auth;
pub mod api;
pub mod generator;
