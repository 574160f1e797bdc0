//! The course of asking the endpoint for its models: which outside step comes
//! next, what it is given, and what comes of each answer.
//!
//! The values that only the outside steps understand are handed on as they are:
//! the user's credentials (`A`), the provider's API (`P`), the credentials that
//! the provider is sent (`C`), the models (`T`) and errors (`E`).
use crate::auth::{AuthHeaderTelemetry, CodexAuth};
use crate::headers::header_fields;
use crate::provider::ModelProviderInfo;
use crate::telemetry::{AuthEnvTelemetry, ModelsRequestTelemetry};
use http::{HeaderMap, HeaderValue};
use vstd::multiset::Multiset;
use vstd::prelude::*;

verus! {

/// How long a request for the models may take.
pub const MODELS_REFRESH_TIMEOUT_SECS: u64 = 5;

/// Why the models could not be had.
#[derive(Debug)]
pub enum ListModelsError<E> {
    /// No answer came in time.
    Timeout,
    /// A step failed.
    Failed(E),
}

/// The request for the models.
#[derive(Debug)]
pub struct ModelsRequest<P, C> {
    pub api_provider: P,
    pub api_auth: C,
    pub client_version: String,
    pub timeout_secs: u64,
    pub telemetry: ModelsRequestTelemetry,
}

/// The step that is to be taken next, or the result.
#[derive(Debug)]
pub enum Stage<A, P, C, T, E> {
    /// Load the user's credentials.
    LoadAuth,
    /// Work out where the provider's API is, for credentials of the kind `auth_mode`.
    BuildApiProvider {
        auth: Option<A>,
        auth_mode: Option<String>,
        reported_mode: Option<String>,
    },
    /// Work out the credentials that the provider is sent, from the user's in `auth`.
    ResolveApiAuth { auth: Option<A>, api_provider: P, reported_mode: Option<String> },
    /// Look up which credentials the environment offers.
    CollectAuthEnv {
        api_provider: P,
        api_auth: C,
        reported_mode: Option<String>,
        header: AuthHeaderTelemetry,
    },
    /// Send the request, with the run's extra headers, and wait for the answer, no
    /// longer than it may take.
    Send { request: ModelsRequest<P, C> },
    /// There is nothing left to do.
    Done { result: Result<T, ListModelsError<E>> },
}

/// What came of a step.
#[derive(Debug)]
pub enum Event<A, P, C, T, E> {
    /// The user's credentials, if there are any.
    Auth { auth: Option<CodexAuth<A>> },
    /// Where the provider's API is.
    ApiProvider { built: Result<P, E> },
    /// The provider's credentials, and the header in which they are sent.
    ApiAuth { resolved: Result<(C, AuthHeaderTelemetry), E> },
    AuthEnv { auth_env: AuthEnvTelemetry },
    /// The answer, or `None` if it did not come in time.
    Answer { answer: Option<Result<T, E>> },
}

/// A request for the models under way.
#[derive(Debug)]
pub struct ListModels<'a, A, P, C, T, E> {
    /// The provider that is asked, in every step.
    pub provider_info: &'a ModelProviderInfo,
    pub client_version: String,
    /// What the request carries besides the headers of the provider and its
    /// credentials.
    pub extra_headers: HeaderMap<HeaderValue>,
    pub stage: Stage<A, P, C, T, E>,
}

/// The user's credentials themselves, if there are any.
pub open spec fn credentials_of<A>(auth: Option<CodexAuth<A>>) -> Option<A> {
    match auth {
        Some(a) => Some(a.credentials),
        None => None,
    }
}

/// The kind of the user's credentials, if there are any.
pub open spec fn mode_of<A>(auth: Option<CodexAuth<A>>) -> Option<String> {
    match auth {
        Some(a) => Some(a.auth_mode),
        None => None,
    }
}

/// The kind of the user's credentials as it is reported, if there are any.
pub open spec fn reported_mode_of<A>(auth: Option<CodexAuth<A>>) -> Option<String> {
    match auth {
        Some(a) => Some(a.reported_mode),
        None => None,
    }
}

/// The stage that follows once the user's credentials are known.
pub open spec fn stage_with_auth<A, P, C, T, E>(auth: Option<CodexAuth<A>>) -> Stage<A, P, C, T, E> {
    Stage::BuildApiProvider {
        auth: credentials_of(auth),
        auth_mode: mode_of(auth),
        reported_mode: reported_mode_of(auth),
    }
}

/// The stage that a run starts with: where no manager could be asked for the
/// user's credentials, there are none.
pub open spec fn first_stage<A, P, C, T, E>(has_manager: bool) -> Stage<A, P, C, T, E> {
    if has_manager {
        Stage::LoadAuth
    } else {
        stage_with_auth(None)
    }
}

/// The request that is sent when the steps before it have given these parts.
pub open spec fn request_of<P, C>(
    client_version: String,
    api_provider: P,
    api_auth: C,
    reported_mode: Option<String>,
    header: AuthHeaderTelemetry,
    auth_env: AuthEnvTelemetry,
) -> ModelsRequest<P, C> {
    ModelsRequest {
        api_provider,
        api_auth,
        client_version,
        timeout_secs: MODELS_REFRESH_TIMEOUT_SECS,
        telemetry: ModelsRequestTelemetry {
            auth_mode: reported_mode,
            auth_header_attached: header.attached,
            auth_header_name: header.name,
            auth_env,
        },
    }
}

/// What the request comes to once it was answered, or not in time.
pub open spec fn answered<T, E>(answer: Option<Result<T, E>>) -> Result<T, ListModelsError<E>> {
    match answer {
        None => Err(ListModelsError::Timeout),
        Some(Ok(models)) => Ok(models),
        Some(Err(e)) => Err(ListModelsError::Failed(e)),
    }
}

/// The stage that follows `stage` when `event` comes. An event that the stage
/// does not wait for changes nothing.
pub open spec fn next_stage<A, P, C, T, E>(
    client_version: String,
    stage: Stage<A, P, C, T, E>,
    event: Event<A, P, C, T, E>,
) -> Stage<A, P, C, T, E> {
    match (stage, event) {
        (Stage::LoadAuth, Event::Auth { auth }) => stage_with_auth(auth),
        (
            Stage::BuildApiProvider { auth, reported_mode, .. },
            Event::ApiProvider { built: Ok(api_provider) },
        ) => Stage::ResolveApiAuth { auth, api_provider, reported_mode },
        (Stage::BuildApiProvider { .. }, Event::ApiProvider { built: Err(e) }) => Stage::Done {
            result: Err(ListModelsError::Failed(e)),
        },
        (
            Stage::ResolveApiAuth { api_provider, reported_mode, .. },
            Event::ApiAuth { resolved: Ok((api_auth, header)) },
        ) => Stage::CollectAuthEnv { api_provider, api_auth, reported_mode, header },
        (Stage::ResolveApiAuth { .. }, Event::ApiAuth { resolved: Err(e) }) => Stage::Done {
            result: Err(ListModelsError::Failed(e)),
        },
        (
            Stage::CollectAuthEnv { api_provider, api_auth, reported_mode, header },
            Event::AuthEnv { auth_env },
        ) => Stage::Send {
            request: request_of(
                client_version,
                api_provider,
                api_auth,
                reported_mode,
                header,
                auth_env,
            ),
        },
        (Stage::Send { .. }, Event::Answer { answer }) => Stage::Done { result: answered(answer) },
        _ => stage,
    }
}

/// Whether the stage waits for an event of this kind.
pub open spec fn waits_for<A, P, C, T, E>(
    stage: Stage<A, P, C, T, E>,
    event: Event<A, P, C, T, E>,
) -> bool {
    match stage {
        Stage::LoadAuth => event is Auth,
        Stage::BuildApiProvider { .. } => event is ApiProvider,
        Stage::ResolveApiAuth { .. } => event is ApiAuth,
        Stage::CollectAuthEnv { .. } => event is AuthEnv,
        Stage::Send { .. } => event is Answer,
        Stage::Done { .. } => false,
    }
}

/// The place of a stage in the course of a run.
pub open spec fn place<A, P, C, T, E>(stage: Stage<A, P, C, T, E>) -> nat {
    match stage {
        Stage::LoadAuth => 0,
        Stage::BuildApiProvider { .. } => 1,
        Stage::ResolveApiAuth { .. } => 2,
        Stage::CollectAuthEnv { .. } => 3,
        Stage::Send { .. } => 4,
        Stage::Done { .. } => 5,
    }
}

impl<'a, A, P, C, T, E> ListModels<'a, A, P, C, T, E> {
    /// The run after an event: only the stage moves on.
    pub open spec fn after(self, event: Event<A, P, C, T, E>) -> ListModels<'a, A, P, C, T, E> {
        ListModels { stage: next_stage(self.client_version, self.stage, event), ..self }
    }

    /// Starts a request for the models, without extra headers. The user's
    /// credentials are asked for only where there is a manager to ask.
    pub fn new(
        provider_info: &'a ModelProviderInfo,
        client_version: &str,
        has_manager: bool,
    ) -> (run: ListModels<'a, A, P, C, T, E>)
        ensures
            run.provider_info == provider_info,
            run.client_version@ == client_version@,
            header_fields(run.extra_headers) == Multiset::<(Seq<char>, Seq<u8>)>::empty(),
            run.stage == first_stage::<A, P, C, T, E>(has_manager),
            has_manager ==> run.stage is LoadAuth,
            !has_manager ==> {
                &&& run.stage is BuildApiProvider
                &&& run.stage->BuildApiProvider_auth is None
                &&& run.stage->BuildApiProvider_auth_mode is None
                &&& run.stage->BuildApiProvider_reported_mode is None
            },
    {
        ListModels {
            provider_info,
            client_version: client_version.to_owned(),
            extra_headers: HeaderMap::new(),
            stage: if has_manager {
                Stage::LoadAuth
            } else {
                Stage::BuildApiProvider { auth: None, auth_mode: None, reported_mode: None }
            },
        }
    }

    /// Takes note of what came of a step and tells the next one.
    pub fn advance(self, event: Event<A, P, C, T, E>) -> (next: ListModels<'a, A, P, C, T, E>)
        ensures
            next == self.after(event),
            next.provider_info == self.provider_info,
            next.client_version == self.client_version,
            next.extra_headers == self.extra_headers,
            self.stage is LoadAuth && event is Auth ==> {
                &&& next.stage is BuildApiProvider
                &&& event->Auth_auth matches Some(a) ==> {
                    &&& next.stage->BuildApiProvider_auth == Some(a.credentials)
                    &&& next.stage->BuildApiProvider_auth_mode == Some(a.auth_mode)
                    &&& next.stage->BuildApiProvider_reported_mode == Some(a.reported_mode)
                }
                &&& event->Auth_auth is None ==> {
                    &&& next.stage->BuildApiProvider_auth is None
                    &&& next.stage->BuildApiProvider_auth_mode is None
                    &&& next.stage->BuildApiProvider_reported_mode is None
                }
            },
            self.stage is BuildApiProvider && event is ApiProvider ==> {
                &&& event->built matches Ok(api_provider) ==> {
                    &&& next.stage is ResolveApiAuth
                    &&& next.stage->ResolveApiAuth_auth == self.stage->BuildApiProvider_auth
                    &&& next.stage->ResolveApiAuth_api_provider == api_provider
                    &&& next.stage->ResolveApiAuth_reported_mode
                        == self.stage->BuildApiProvider_reported_mode
                }
                &&& event->built matches Err(e) ==> {
                    &&& next.stage is Done
                    &&& next.stage->result is Err
                    &&& next.stage->result->Err_0 is Failed
                    &&& next.stage->result->Err_0->Failed_0 == e
                }
            },
            self.stage is ResolveApiAuth && event is ApiAuth ==> {
                &&& event->resolved matches Ok(found) ==> {
                    &&& next.stage is CollectAuthEnv
                    &&& next.stage->CollectAuthEnv_api_provider
                        == self.stage->ResolveApiAuth_api_provider
                    &&& next.stage->CollectAuthEnv_api_auth == found.0
                    &&& next.stage->CollectAuthEnv_reported_mode
                        == self.stage->ResolveApiAuth_reported_mode
                    &&& next.stage->CollectAuthEnv_header == found.1
                }
                &&& event->resolved matches Err(e) ==> {
                    &&& next.stage is Done
                    &&& next.stage->result is Err
                    &&& next.stage->result->Err_0 is Failed
                    &&& next.stage->result->Err_0->Failed_0 == e
                }
            },
            self.stage is CollectAuthEnv && event is AuthEnv ==> {
                &&& next.stage is Send
                &&& next.stage->request.api_provider == self.stage->CollectAuthEnv_api_provider
                &&& next.stage->request.api_auth == self.stage->CollectAuthEnv_api_auth
                &&& next.stage->request.client_version == self.client_version
                &&& next.stage->request.timeout_secs == 5
                &&& next.stage->request.telemetry.auth_mode
                    == self.stage->CollectAuthEnv_reported_mode
                &&& next.stage->request.telemetry.auth_header_attached
                    == self.stage->CollectAuthEnv_header.attached
                &&& next.stage->request.telemetry.auth_header_name
                    == self.stage->CollectAuthEnv_header.name
                &&& next.stage->request.telemetry.auth_env == event->auth_env
            },
            self.stage is Send && event is Answer ==> {
                &&& next.stage is Done
                &&& event->answer is None ==> {
                    &&& next.stage->result is Err
                    &&& next.stage->result->Err_0 is Timeout
                }
                &&& event->answer matches Some(Ok(models)) ==> {
                    &&& next.stage->result is Ok
                    &&& next.stage->result->Ok_0 == models
                }
                &&& event->answer matches Some(Err(e)) ==> {
                    &&& next.stage->result is Err
                    &&& next.stage->result->Err_0 is Failed
                    &&& next.stage->result->Err_0->Failed_0 == e
                }
            },
            next.stage == self.stage || (self.stage is LoadAuth && event is Auth) || (
            self.stage is BuildApiProvider && event is ApiProvider) || (self.stage is ResolveApiAuth
                && event is ApiAuth) || (self.stage is CollectAuthEnv && event is AuthEnv) || (
            self.stage is Send && event is Answer),
    {
        let client_version = self.client_version;
        let stage = match (self.stage, event) {
            (Stage::LoadAuth, Event::Auth { auth }) => match auth {
                Some(a) => Stage::BuildApiProvider {
                    auth: Some(a.credentials),
                    auth_mode: Some(a.auth_mode),
                    reported_mode: Some(a.reported_mode),
                },
                None => Stage::BuildApiProvider {
                    auth: None,
                    auth_mode: None,
                    reported_mode: None,
                },
            },
            (
                Stage::BuildApiProvider { auth, auth_mode: _, reported_mode },
                Event::ApiProvider { built },
            ) => match built {
                Ok(api_provider) => Stage::ResolveApiAuth { auth, api_provider, reported_mode },
                Err(e) => Stage::Done { result: Err(ListModelsError::Failed(e)) },
            },
            (
                Stage::ResolveApiAuth { auth: _, api_provider, reported_mode },
                Event::ApiAuth { resolved },
            ) => match resolved {
                Ok((api_auth, header)) => {
                    Stage::CollectAuthEnv { api_provider, api_auth, reported_mode, header }
                },
                Err(e) => Stage::Done { result: Err(ListModelsError::Failed(e)) },
            },
            (
                Stage::CollectAuthEnv { api_provider, api_auth, reported_mode, header },
                Event::AuthEnv { auth_env },
            ) => {
                let telemetry = ModelsRequestTelemetry {
                    auth_mode: reported_mode,
                    auth_header_attached: header.attached,
                    auth_header_name: header.name,
                    auth_env,
                };
                Stage::Send {
                    request: ModelsRequest {
                        api_provider,
                        api_auth,
                        client_version: client_version.clone(),
                        timeout_secs: MODELS_REFRESH_TIMEOUT_SECS,
                        telemetry,
                    },
                }
            },
            (Stage::Send { request: _ }, Event::Answer { answer }) => Stage::Done {
                result: match answer {
                    None => Err(ListModelsError::Timeout),
                    Some(Ok(models)) => Ok(models),
                    Some(Err(e)) => Err(ListModelsError::Failed(e)),
                },
            },
            (stage, _) => stage,
        };
        ListModels {
            provider_info: self.provider_info,
            client_version,
            extra_headers: self.extra_headers,
            stage,
        }
    }
}

/// What the steps come to when each has an outcome: the first step that fails
/// decides, and the answer is passed on as it is.
pub open spec fn outcome<P, C, T, E>(
    built: Result<P, E>,
    resolved: Result<(C, AuthHeaderTelemetry), E>,
    answer: Option<Result<T, E>>,
) -> Result<T, ListModelsError<E>> {
    match (built, resolved) {
        (Err(e), _) => Err(ListModelsError::Failed(e)),
        (_, Err(e)) => Err(ListModelsError::Failed(e)),
        _ => answered(answer),
    }
}

/// A run that takes the steps in their order ends with their outcome, whatever
/// they come to. One and the same credentials serve throughout: the API is looked
/// for with their kind, and the provider's credentials are worked out from them.
/// Without a manager there are none. The request is sent exactly if the steps
/// before it succeeded; it goes out with the very API and credentials that they
/// gave, and with the provider, the version and the extra headers that the run
/// started with.
pub proof fn law_run_ends_with_the_outcome<'a, A, P, C, T, E>(
    run: ListModels<'a, A, P, C, T, E>,
    has_manager: bool,
    auth: Option<CodexAuth<A>>,
    built: Result<P, E>,
    resolved: Result<(C, AuthHeaderTelemetry), E>,
    auth_env: AuthEnvTelemetry,
    answer: Option<Result<T, E>>,
)
    requires
        run.stage == first_stage::<A, P, C, T, E>(has_manager),
        !has_manager ==> auth is None,
    ensures
        ({
            let second = if has_manager {
                run.after(Event::Auth { auth })
            } else {
                run
            };
            let third = second.after(Event::ApiProvider { built });
            let fourth = third.after(Event::ApiAuth { resolved });
            let fifth = fourth.after(Event::AuthEnv { auth_env });
            let last = fifth.after(Event::Answer { answer });
            &&& second.stage == stage_with_auth::<A, P, C, T, E>(auth)
            &&& third.stage is ResolveApiAuth <==> built is Ok
            &&& built matches Ok(api_provider) ==> third.stage == (Stage::<
                A,
                P,
                C,
                T,
                E,
            >::ResolveApiAuth {
                auth: credentials_of(auth),
                api_provider,
                reported_mode: reported_mode_of(auth),
            })
            &&& fifth.stage is Send <==> built is Ok && resolved is Ok
            &&& fifth.stage is Send ==> fifth.stage->request == request_of(
                run.client_version,
                built->Ok_0,
                (resolved->Ok_0).0,
                reported_mode_of(auth),
                (resolved->Ok_0).1,
                auth_env,
            )
            &&& fifth == (ListModels { stage: fifth.stage, ..run })
            &&& last == (ListModels {
                stage: Stage::<A, P, C, T, E>::Done { result: outcome(built, resolved, answer) },
                ..run
            })
        }),
{
}

/// Whoever the user is, the credentials that the manager answered with are the
/// ones that serve: the API is looked for with their kind, the provider's
/// credentials are worked out from these very ones, and the request reports their
/// kind. It goes out with the API and the credentials that the steps gave, for the
/// version that was asked for, and may take five seconds.
pub proof fn law_loaded_credentials_serve_throughout<'a, A, P, C, T, E>(
    run: ListModels<'a, A, P, C, T, E>,
    user: CodexAuth<A>,
    api_provider: P,
    api_auth: C,
    header: AuthHeaderTelemetry,
    auth_env: AuthEnvTelemetry,
)
    requires
        run.stage is LoadAuth,
    ensures
        ({
            let loaded = run.after(Event::Auth { auth: Some(user) });
            let built = loaded.after(Event::ApiProvider { built: Ok(api_provider) });
            let resolved = built.after(Event::ApiAuth { resolved: Ok((api_auth, header)) });
            let sent = resolved.after(Event::AuthEnv { auth_env });
            &&& loaded.stage == (Stage::<A, P, C, T, E>::BuildApiProvider {
                auth: Some(user.credentials),
                auth_mode: Some(user.auth_mode),
                reported_mode: Some(user.reported_mode),
            })
            &&& built.stage == (Stage::<A, P, C, T, E>::ResolveApiAuth {
                auth: Some(user.credentials),
                api_provider,
                reported_mode: Some(user.reported_mode),
            })
            &&& sent.stage is Send
            &&& sent.stage->request.api_provider == api_provider
            &&& sent.stage->request.api_auth == api_auth
            &&& sent.stage->request.client_version == run.client_version
            &&& sent.stage->request.timeout_secs == 5
            &&& sent.stage->request.telemetry.auth_mode == Some(user.reported_mode)
            &&& sent.stage->request.telemetry.auth_header_attached == header.attached
            &&& sent.stage->request.telemetry.auth_header_name == header.name
            &&& sent.stage->request.telemetry.auth_env == auth_env
            &&& sent.provider_info == run.provider_info
            &&& sent.client_version == run.client_version
            &&& sent.extra_headers == run.extra_headers
        }),
{
}

/// A user without credentials is none the worse for having a manager: once it has
/// answered that there are none, the run is where a run without a manager starts.
pub proof fn law_no_credentials_are_as_no_manager<'a, A, P, C, T, E>(
    run: ListModels<'a, A, P, C, T, E>,
)
    requires
        run.stage is LoadAuth,
    ensures
        run.after(Event::Auth { auth: None }).stage == first_stage::<A, P, C, T, E>(false),
        first_stage::<A, P, C, T, E>(false) == (Stage::<A, P, C, T, E>::BuildApiProvider {
            auth: None,
            auth_mode: None,
            reported_mode: None,
        }),
        first_stage::<A, P, C, T, E>(true) is LoadAuth,
{
}

/// A step that fails ends the run with its error, and no request is sent. An
/// answer ends it too: models and errors are passed on as they are, and an answer
/// that did not come in time is a timeout.
pub proof fn law_failures_and_answers_are_passed_on<'a, A, P, C, T, E>(
    run: ListModels<'a, A, P, C, T, E>,
    models: T,
    error: E,
)
    ensures
        run.stage is BuildApiProvider ==> run.after(Event::ApiProvider { built: Err(error) }).stage
            == (Stage::<A, P, C, T, E>::Done { result: Err(ListModelsError::Failed(error)) }),
        run.stage is ResolveApiAuth ==> run.after(Event::ApiAuth { resolved: Err(error) }).stage
            == (Stage::<A, P, C, T, E>::Done { result: Err(ListModelsError::Failed(error)) }),
        run.stage is Send ==> run.after(Event::Answer { answer: Some(Err(error)) }).stage
            == (Stage::<A, P, C, T, E>::Done { result: Err(ListModelsError::Failed(error)) }),
        run.stage is Send ==> run.after(Event::Answer { answer: Some(Ok(models)) }).stage
            == (Stage::<A, P, C, T, E>::Done { result: Ok(models) }),
        run.stage is Send ==> run.after(Event::Answer { answer: None }).stage == (Stage::<
            A,
            P,
            C,
            T,
            E,
        >::Done { result: Err(ListModelsError::Timeout) }),
{
}

/// No event leads back: a run stays where it is or moves on to a later stage, so
/// each step is asked for once at most, the request among them.
pub proof fn law_no_step_is_taken_twice<'a, A, P, C, T, E>(
    run: ListModels<'a, A, P, C, T, E>,
    event: Event<A, P, C, T, E>,
)
    ensures
        run.after(event) == run || place(run.after(event).stage) > place(run.stage),
{
}

/// An event that a stage does not wait for leaves the run as it is; in particular
/// a run that is done stays done.
pub proof fn law_unexpected_event_changes_nothing<'a, A, P, C, T, E>(
    run: ListModels<'a, A, P, C, T, E>,
    event: Event<A, P, C, T, E>,
)
    requires
        !waits_for(run.stage, event),
    ensures
        run.after(event) == run,
{
}

} // verus!
