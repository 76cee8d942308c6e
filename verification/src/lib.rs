//! Verified core of a self-hosted notification server: configuration,
//! API-key authorization, rate limiting, signed tracking tokens, credential
//! sealing, the schema migration plan, the rows read from the database,
//! delivery-queue decisions, and the ingest and broadcast fan-out machines.

pub mod admin;
pub mod admission;
pub mod api_key;
pub mod auth;
pub mod base64;
pub mod broadcast;
pub mod clock;
pub mod codec;
pub mod config;
pub mod contacts;
pub mod credential;
pub mod crypto;
pub mod delivery_log;
pub mod forwarder;
pub mod idempotency;
pub mod ids;
pub mod ingest;
pub mod json;
pub mod middleware;
pub mod migration;
pub mod pipeline;
pub mod preference;
pub mod queue;
pub mod rate_limit;
pub mod schema;
pub mod server;
pub mod smtp;
pub mod template;
pub mod text;
pub mod tracking;
pub mod worker;
