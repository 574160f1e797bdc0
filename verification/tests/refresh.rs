use std::sync::Arc;

use models_endpoint::auth::{AuthHeaderTelemetry, AuthManager, CodexAuth};
use models_endpoint::endpoint::OpenAiModelsEndpoint;
use models_endpoint::provider::ModelProviderInfo;
use models_endpoint::refresh::{Event, ListModels, ListModelsError, Stage};
use models_endpoint::telemetry::AuthEnvTelemetry;

type Step = Event<u8, &'static str, char, Vec<String>, String>;

type Run<'a> = ListModels<'a, u8, &'static str, char, Vec<String>, String>;

fn endpoint() -> OpenAiModelsEndpoint {
    let manager = AuthManager { codex_api_key_env_enabled: false };
    let info = ModelProviderInfo { name: "asked".to_string(), ..ModelProviderInfo::default() };
    OpenAiModelsEndpoint::new(info, Some(Arc::new(manager)))
}

fn start(endpoint: &OpenAiModelsEndpoint) -> Run<'_> {
    endpoint.list_models("1.2.3")
}

fn auth() -> Step {
    Event::Auth {
        auth: Some(CodexAuth {
            credentials: 7,
            auth_mode: "ChatgptAuthTokens".to_string(),
            reported_mode: "Chatgpt".to_string(),
            uses_codex_backend: true,
        }),
    }
}

fn built() -> Step {
    Event::ApiProvider { built: Ok("api") }
}

fn resolved() -> Step {
    Event::ApiAuth {
        resolved: Ok((
            'k',
            AuthHeaderTelemetry { attached: true, name: Some("authorization") },
        )),
    }
}

fn env() -> Step {
    Event::AuthEnv {
        auth_env: AuthEnvTelemetry {
            openai_api_key_env_present: false,
            codex_api_key_env_present: true,
            codex_api_key_env_enabled: true,
            provider_env_key_name: None,
            provider_env_key_present: None,
            refresh_token_url_override_present: false,
        },
    }
}

fn answer(answer: Option<Result<Vec<String>, String>>) -> Step {
    Event::Answer { answer }
}

fn sent(endpoint: &OpenAiModelsEndpoint) -> Run<'_> {
    start(endpoint).advance(auth()).advance(built()).advance(resolved()).advance(env())
}

#[test]
fn request_carries_what_the_steps_gave() {
    match sent(&endpoint()).stage {
        Stage::Send { request } => {
            assert_eq!(request.api_provider, "api");
            assert_eq!(request.api_auth, 'k');
            assert_eq!(request.client_version, "1.2.3");
            assert_eq!(request.timeout_secs, 5);
            assert_eq!(request.telemetry.auth_mode.as_deref(), Some("Chatgpt"));
            assert!(request.telemetry.auth_header_attached);
            assert_eq!(request.telemetry.auth_header_name, Some("authorization"));
            assert!(request.telemetry.auth_env.codex_api_key_env_present);
        }
        other => panic!("{:?}", other),
    }
}

#[test]
fn models_are_passed_on() {
    let models = vec!["gpt-oss".to_string()];
    match sent(&endpoint()).advance(answer(Some(Ok(models.clone())))).stage {
        Stage::Done { result: Ok(found) } => assert_eq!(found, models),
        other => panic!("{:?}", other),
    }
}

#[test]
fn late_answer_is_a_timeout() {
    assert!(matches!(
        sent(&endpoint()).advance(answer(None)).stage,
        Stage::Done { result: Err(ListModelsError::Timeout) }
    ));
}

#[test]
fn failed_answer_is_passed_on() {
    match sent(&endpoint()).advance(answer(Some(Err("401".to_string())))).stage {
        Stage::Done { result: Err(ListModelsError::Failed(e)) } => assert_eq!(e, "401"),
        other => panic!("{:?}", other),
    }
}

#[test]
fn first_failing_step_decides() {
    let no_provider = Event::ApiProvider { built: Err("no base url".to_string()) };
    let no_auth = || Event::ApiAuth { resolved: Err("no token".to_string()) };
    let endpoint = endpoint();
    let run = start(&endpoint).advance(auth()).advance(no_provider);
    let run = run.advance(no_auth()).advance(env());
    match run.advance(answer(Some(Ok(vec![])))).stage {
        Stage::Done { result: Err(ListModelsError::Failed(e)) } => assert_eq!(e, "no base url"),
        other => panic!("{:?}", other),
    }
    match start(&endpoint).advance(auth()).advance(built()).advance(no_auth()).stage {
        Stage::Done { result: Err(ListModelsError::Failed(e)) } => assert_eq!(e, "no token"),
        other => panic!("{:?}", other),
    }
}

#[test]
fn no_credentials_have_no_mode() {
    match start(&endpoint()).advance(Event::Auth { auth: None }).stage {
        Stage::BuildApiProvider { auth, auth_mode, reported_mode } => {
            assert_eq!(auth, None);
            assert_eq!(auth_mode, None);
            assert_eq!(reported_mode, None);
        }
        other => panic!("{:?}", other),
    }
}

#[test]
fn provider_is_built_for_the_mode_of_the_credentials() {
    match start(&endpoint()).advance(auth()).stage {
        Stage::BuildApiProvider { auth, auth_mode, reported_mode } => {
            assert_eq!(auth, Some(7));
            assert_eq!(auth_mode.as_deref(), Some("ChatgptAuthTokens"));
            assert_eq!(reported_mode.as_deref(), Some("Chatgpt"));
        }
        other => panic!("{:?}", other),
    }
}

#[test]
fn unexpected_event_changes_nothing() {
    assert!(matches!(start(&endpoint()).advance(built()).stage, Stage::LoadAuth));
    assert!(matches!(start(&endpoint()).advance(answer(None)).stage, Stage::LoadAuth));
    let endpoint = endpoint();
    let done = sent(&endpoint).advance(answer(None)).advance(answer(Some(Ok(vec![]))));
    assert!(matches!(done.stage, Stage::Done { result: Err(ListModelsError::Timeout) }));
}

#[test]
fn credentials_are_not_asked_for_without_a_manager() {
    let endpoint = OpenAiModelsEndpoint::new(ModelProviderInfo::default(), None);
    match start(&endpoint).stage {
        Stage::BuildApiProvider { auth, auth_mode, reported_mode } => {
            assert_eq!(auth, None);
            assert_eq!(auth_mode, None);
            assert_eq!(reported_mode, None);
        }
        other => panic!("{:?}", other),
    }
}

#[test]
fn credentials_are_resolved_from_those_that_were_loaded() {
    match start(&endpoint()).advance(auth()).advance(built()).stage {
        Stage::ResolveApiAuth { auth, api_provider, reported_mode } => {
            assert_eq!(auth, Some(7));
            assert_eq!(api_provider, "api");
            assert_eq!(reported_mode.as_deref(), Some("Chatgpt"));
        }
        other => panic!("{:?}", other),
    }
}

#[test]
fn run_keeps_the_provider_and_has_no_extra_headers() {
    let endpoint = endpoint();
    assert!(start(&endpoint).extra_headers.is_empty());
    let run = sent(&endpoint);
    assert!(run.extra_headers.is_empty());
    assert_eq!(run.provider_info.name, "asked");
    assert_eq!(run.client_version, "1.2.3");
}
