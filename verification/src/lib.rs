//! The `/models` endpoint of an OpenAI-compatible model provider: which
//! credentials it has, under which identifier its models are cached, how they
//! are asked for, and what is reported of the request.
pub mod auth;
pub mod canonical;
pub mod endpoint;
pub mod fingerprint;
pub mod headers;
pub mod json;
pub mod order;
pub mod provider;
pub mod refresh;
pub mod string_map;
pub mod telemetry;
