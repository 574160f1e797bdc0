//! What the endpoint knows of the user's credentials.
use vstd::prelude::*;

verus! {

/// What the endpoint reads off the manager of the user's credentials. The
/// credentials themselves are asked of the manager each time they are needed.
#[derive(Debug)]
pub struct AuthManager {
    /// Whether the manager takes an API key for Codex from the environment.
    pub codex_api_key_env_enabled: bool,
}

/// The user's credentials and what the endpoint reads off them.
#[derive(Debug)]
pub struct CodexAuth<A> {
    /// The credentials themselves, which are only handed on.
    pub credentials: A,
    /// The kind of credentials.
    pub auth_mode: String,
    /// The kind of credentials, as it is reported.
    pub reported_mode: String,
    /// Whether requests with these credentials go to the Codex backend.
    pub uses_codex_backend: bool,
}

/// The header that carries the credentials of a request.
#[derive(Debug, Clone, Copy)]
pub struct AuthHeaderTelemetry {
    pub attached: bool,
    pub name: Option<&'static str>,
}

} // verus!
