//! The endpoint itself.
use crate::auth::{AuthManager, CodexAuth};
use crate::canonical::canonical;
use crate::fingerprint::{
    config_fingerprint, fingerprint_text, hash_writes, provider_config_fingerprint, told_apart,
};
use crate::headers::header_fields;
use crate::json::{json_text, Json};
use crate::provider::ModelProviderInfo;
use crate::refresh::{first_stage, ListModels};
use std::collections::hash_map::DefaultHasher;
use std::sync::Arc;
use vstd::multiset::Multiset;
use vstd::prelude::*;
use vstd::std_specs::hash::DefaultHasherAdditionalSpecFns;

verus! {

/// Provider-owned OpenAI-compatible `/models` endpoint.
#[derive(Debug)]
pub struct OpenAiModelsEndpoint {
    pub provider_info: ModelProviderInfo,
    pub auth_manager: Option<Arc<AuthManager>>,
}

/// What is looked up in the environment: the credentials that a provider may
/// take from there.
#[derive(Debug)]
pub struct AuthEnvQuery<'a> {
    pub provider_info: &'a ModelProviderInfo,
    pub codex_api_key_env_enabled: bool,
}

impl OpenAiModelsEndpoint {
    /// The endpoint of a provider, with the manager of the user's credentials
    /// where there is one.
    pub fn new(
        provider_info: ModelProviderInfo,
        auth_manager: Option<Arc<AuthManager>>,
    ) -> (endpoint: OpenAiModelsEndpoint)
        ensures
            endpoint.provider_info == provider_info,
            endpoint.auth_manager == auth_manager,
    {
        OpenAiModelsEndpoint { provider_info, auth_manager }
    }

    /// The user's credentials: what the manager answered, if there is a
    /// manager, and none otherwise.
    pub open spec fn auth_given<A>(&self, answer: Option<CodexAuth<A>>) -> Option<CodexAuth<A>> {
        if self.auth_manager is Some {
            answer
        } else {
            None
        }
    }

    /// The user's credentials, given what the manager answers.
    pub fn auth<A>(&self, answer: Option<CodexAuth<A>>) -> (auth: Option<CodexAuth<A>>)
        ensures
            auth == self.auth_given(answer),
            self.auth_manager is Some ==> auth == answer,
            self.auth_manager is None ==> auth is None,
    {
        match self.auth_manager.as_ref() {
            Some(_) => answer,
            None => None,
        }
    }

    /// What to look up in the environment. A key for Codex counts only where a
    /// manager takes it.
    pub fn auth_env(&self) -> (query: AuthEnvQuery<'_>)
        ensures
            query.provider_info == self.provider_info,
            query.codex_api_key_env_enabled == (self.auth_manager matches Some(manager)
                && manager.codex_api_key_env_enabled),
    {
        let codex_api_key_env_enabled = match self.auth_manager.as_ref() {
            Some(manager) => manager.codex_api_key_env_enabled,
            None => false,
        };
        AuthEnvQuery { provider_info: &self.provider_info, codex_api_key_env_enabled }
    }

    /// The identifier under which the provider's models are cached.
    pub fn provider_id(&self) -> (id: String)
        ensures
            id@ == config_fingerprint(self.provider_info@),
            self.provider_info@.finite(),
            told_apart(self.provider_info@),
            (self.provider_info.auth matches Some(auth) ==> auth.cwd is Text) ==> id@
                == fingerprint_text(
                self.provider_info.name@,
                DefaultHasher::spec_finish(
                    hash_writes(json_text(canonical(self.provider_info@.json()))),
                ),
            ),
            (self.provider_info.auth matches Some(auth) && auth.cwd is Bytes) ==> id@
                == fingerprint_text(
                self.provider_info.name@,
                DefaultHasher::spec_finish(hash_writes(json_text(Json::Null))),
            ),
    {
        provider_config_fingerprint(&self.provider_info)
    }

    /// Whether a command prints the provider's bearer token.
    pub fn has_command_auth(&self) -> (has: bool)
        ensures
            has == (self.provider_info@.auth is Some),
            has == (self.provider_info.auth is Some),
    {
        self.provider_info.has_command_auth()
    }

    /// Whether the provider has credentials of its own, given the API key that
    /// the environment holds for it.
    ///
    /// An explicit bearer source counts: a key that is really there, rather than
    /// a declared variable that is not set, or a token in the configuration.
    /// Providers that do not take OpenAI's credentials handle their own by
    /// whatever means the user configured, so that they say so is enough: the
    /// endpoint is worth a try.
    pub fn has_self_provided_auth<E>(&self, api_key: Result<Option<String>, E>) -> (has: bool)
        ensures
            has <==> {
                ||| api_key matches Ok(Some(_))
                ||| self.provider_info@.experimental_bearer_token is Some
                ||| !self.provider_info@.requires_openai_auth
            },
            has <==> {
                ||| api_key matches Ok(Some(_))
                ||| self.provider_info.experimental_bearer_token is Some
                ||| !self.provider_info.requires_openai_auth
            },
    {
        let has_key = match api_key {
            Ok(Some(_)) => true,
            _ => false,
        };
        if has_key || self.provider_info.experimental_bearer_token.is_some() {
            return true;
        }
        !self.provider_info.requires_openai_auth
    }

    /// Whether requests go to the Codex backend, given what the manager answers.
    pub fn uses_codex_backend<A>(&self, answer: Option<CodexAuth<A>>) -> (uses: bool)
        ensures
            uses == (self.auth_given(answer) matches Some(auth) && auth.uses_codex_backend),
            uses <==> self.auth_manager is Some && (answer matches Some(auth)
                && auth.uses_codex_backend),
    {
        match self.auth(answer) {
            Some(auth) => auth.uses_codex_backend,
            None => false,
        }
    }

    /// Starts a request for the provider's models, without extra headers. The
    /// user's credentials are asked for only where there is a manager to ask.
    pub fn list_models<A, P, C, T, E>(&self, client_version: &str) -> (run: ListModels<
        '_,
        A,
        P,
        C,
        T,
        E,
    >)
        ensures
            run.provider_info == self.provider_info,
            run.client_version@ == client_version@,
            header_fields(run.extra_headers) == Multiset::<(Seq<char>, Seq<u8>)>::empty(),
            run.stage == first_stage::<A, P, C, T, E>(self.auth_manager is Some),
            self.auth_manager is Some ==> run.stage is LoadAuth,
            self.auth_manager is None ==> {
                &&& run.stage is BuildApiProvider
                &&& run.stage->BuildApiProvider_auth is None
                &&& run.stage->BuildApiProvider_auth_mode is None
                &&& run.stage->BuildApiProvider_reported_mode is None
            },
    {
        ListModels::new(&self.provider_info, client_version, self.auth_manager.is_some())
    }
}

/// What a manager answers is what counts, whatever the manager's settings and the
/// provider: two endpoints that have a manager take the same answer alike, as it
/// is. An endpoint without one takes none.
pub proof fn law_manager_alone_decides_on_credentials<A>(
    a: OpenAiModelsEndpoint,
    b: OpenAiModelsEndpoint,
    answer: Option<CodexAuth<A>>,
)
    ensures
        a.auth_manager is Some ==> a.auth_given(answer) == answer,
        a.auth_manager is None ==> a.auth_given(answer) is None,
        a.auth_manager is Some && b.auth_manager is Some ==> a.auth_given(answer) == b.auth_given(
            answer,
        ),
{
}

} // verus!
