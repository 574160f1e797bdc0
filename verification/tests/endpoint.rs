use std::sync::Arc;

use models_endpoint::auth::{AuthManager, CodexAuth};
use models_endpoint::endpoint::OpenAiModelsEndpoint;
use models_endpoint::provider::{
    DirPath, ModelProviderAuthInfo, ModelProviderInfo, NonZeroMillis, WireApi,
};
use models_endpoint::string_map::StringMap;

const DEFAULT_OLLAMA_PORT: u16 = 11434;
const DEFAULT_LMSTUDIO_PORT: u16 = 1234;

/// What looking up the API key gives for a provider that names no variable.
fn no_key() -> Result<Option<String>, String> {
    Ok(None)
}

fn string_map(pairs: &[(&str, &str)]) -> StringMap {
    let mut map = StringMap::new();
    for (key, value) in pairs {
        map.insert(key.to_string(), value.to_string());
    }
    map
}

fn create_openai_provider(base_url: Option<String>) -> ModelProviderInfo {
    ModelProviderInfo {
        name: "OpenAI".to_string(),
        base_url,
        http_headers: Some(string_map(&[("version", "0.0.0")])),
        env_http_headers: Some(string_map(&[
            ("OpenAI-Organization", "OPENAI_ORGANIZATION"),
            ("OpenAI-Project", "OPENAI_PROJECT"),
        ])),
        requires_openai_auth: true,
        supports_websockets: true,
        ..ModelProviderInfo::default()
    }
}

fn create_oss_provider_with_base_url(base_url: &str, wire_api: WireApi) -> ModelProviderInfo {
    ModelProviderInfo {
        name: "gpt-oss".to_string(),
        base_url: Some(base_url.to_string()),
        wire_api,
        ..ModelProviderInfo::default()
    }
}

fn provider_info_with_command_auth() -> ModelProviderInfo {
    ModelProviderInfo {
        auth: Some(ModelProviderAuthInfo {
            command: "print-token".to_string(),
            args: Vec::new(),
            timeout_ms: NonZeroMillis::new(5_000).expect("timeout should be non-zero"),
            refresh_interval_ms: 300_000,
            cwd: DirPath::Text("/".to_string()),
        }),
        requires_openai_auth: false,
        ..create_openai_provider(None)
    }
}

#[test]
fn command_auth_provider_reports_command_auth_without_cached_auth() {
    let endpoint = OpenAiModelsEndpoint::new(
        provider_info_with_command_auth(),
        /*auth_manager*/ None,
    );

    assert!(endpoint.has_command_auth());
}

#[test]
fn provider_without_command_auth_reports_no_command_auth() {
    let endpoint = OpenAiModelsEndpoint::new(
        create_openai_provider(/*base_url*/ None),
        /*auth_manager*/ None,
    );

    assert!(!endpoint.has_command_auth());
}

#[test]
fn provider_with_experimental_bearer_token_reports_self_provided_auth() {
    let mut info = create_openai_provider(/*base_url*/ None);
    info.experimental_bearer_token = Some("provider-token".to_string());
    let endpoint = OpenAiModelsEndpoint::new(info, /*auth_manager*/ None);

    assert!(endpoint.has_self_provided_auth(no_key()));
}

#[test]
fn provider_without_self_provided_auth_reports_none() {
    // Stock OpenAI provider requires OpenAI auth and has no bearer source.
    let endpoint = OpenAiModelsEndpoint::new(
        create_openai_provider(/*base_url*/ None),
        /*auth_manager*/ None,
    );

    assert!(!endpoint.has_self_provided_auth(no_key()));
}

#[test]
fn non_openai_provider_reports_self_provided_auth_without_explicit_bearer() {
    // A custom provider (`requires_openai_auth = false`) authenticated via
    // env_http_headers (or no auth at all for local OSS) qualifies for
    // /models refresh even with no bearer-token field set.
    let info = ModelProviderInfo {
        name: "header-auth-provider".to_string(),
        base_url: Some("http://localhost:9999/v1".to_string()),
        env_http_headers: Some(string_map(&[("X-API-Key", "MY_PROVIDER_API_KEY")])),
        requires_openai_auth: false,
        ..ModelProviderInfo::default()
    };
    let endpoint = OpenAiModelsEndpoint::new(info, /*auth_manager*/ None);

    assert!(endpoint.has_self_provided_auth(no_key()));
}

#[test]
fn provider_id_distinguishes_oss_providers_with_shared_display_name() {
    // Built-in ollama and lmstudio providers both share name = "gpt-oss"
    // but differ in base_url. The cache fingerprint must disambiguate
    // them so switching providers does not reuse the other catalog.
    let ollama = create_oss_provider_with_base_url(
        &format!("http://localhost:{}/v1", DEFAULT_OLLAMA_PORT),
        WireApi::Responses,
    );
    let lmstudio = create_oss_provider_with_base_url(
        &format!("http://localhost:{}/v1", DEFAULT_LMSTUDIO_PORT),
        WireApi::Responses,
    );
    assert_eq!(ollama.name, lmstudio.name);

    let ollama_endpoint = OpenAiModelsEndpoint::new(ollama, /*auth_manager*/ None);
    let lmstudio_endpoint = OpenAiModelsEndpoint::new(lmstudio, /*auth_manager*/ None);

    assert_ne!(
        ollama_endpoint.provider_id(),
        lmstudio_endpoint.provider_id(),
        "providers with the same display name must produce distinct cache fingerprints"
    );
}

#[test]
fn provider_id_is_stable_for_equal_configs() {
    // Two endpoints built from clones of the same provider info must
    // hash to the same fingerprint so cache reads hit on a re-launch.
    let info = create_oss_provider_with_base_url(
        "http://localhost:11434/v1",
        WireApi::Responses,
    );
    let a = OpenAiModelsEndpoint::new(info.clone(), /*auth_manager*/ None);
    let b = OpenAiModelsEndpoint::new(info, /*auth_manager*/ None);

    assert_eq!(a.provider_id(), b.provider_id());
}

#[test]
fn api_key_counts_only_if_it_is_there() {
    let mut info = create_openai_provider(None);
    info.env_key = Some("MY_KEY".to_string());
    let endpoint = OpenAiModelsEndpoint::new(info, None);

    let found: Result<Option<String>, String> = Ok(Some("secret".to_string()));
    assert!(endpoint.has_self_provided_auth(found));
    let missing: Result<Option<String>, String> = Err("MY_KEY is not set".to_string());
    assert!(!endpoint.has_self_provided_auth(missing));
}

fn manager(codex_api_key_env_enabled: bool) -> Option<Arc<AuthManager>> {
    Some(Arc::new(AuthManager { codex_api_key_env_enabled }))
}

fn auth(uses_codex_backend: bool) -> Option<CodexAuth<u8>> {
    Some(CodexAuth {
        credentials: 7,
        auth_mode: "Chatgpt".to_string(),
        reported_mode: "Chatgpt".to_string(),
        uses_codex_backend,
    })
}

#[test]
fn auth_comes_from_the_manager_only() {
    let without = OpenAiModelsEndpoint::new(ModelProviderInfo::default(), None);
    assert!(without.auth(auth(true)).is_none());
    let with = OpenAiModelsEndpoint::new(ModelProviderInfo::default(), manager(false));
    assert!(with.auth::<u8>(None).is_none());
    assert_eq!(with.auth(auth(true)).map(|a| a.auth_mode), Some("Chatgpt".to_string()));
}

#[test]
fn codex_backend_is_used_as_the_credentials_say() {
    let without = OpenAiModelsEndpoint::new(ModelProviderInfo::default(), None);
    assert!(!without.uses_codex_backend(auth(true)));
    let with = OpenAiModelsEndpoint::new(ModelProviderInfo::default(), manager(false));
    assert!(!with.uses_codex_backend::<u8>(None));
    assert!(!with.uses_codex_backend(auth(false)));
    assert!(with.uses_codex_backend(auth(true)));
}

#[test]
fn codex_key_in_the_environment_counts_only_where_a_manager_takes_it() {
    let info = create_oss_provider_with_base_url("http://localhost:1/v1", WireApi::Responses);
    let without = OpenAiModelsEndpoint::new(info.clone(), None);
    assert!(!without.auth_env().codex_api_key_env_enabled);
    let off = OpenAiModelsEndpoint::new(info.clone(), manager(false));
    assert!(!off.auth_env().codex_api_key_env_enabled);
    let on = OpenAiModelsEndpoint::new(info, manager(true));
    let query = on.auth_env();
    assert!(query.codex_api_key_env_enabled);
    assert_eq!(query.provider_info.base_url.as_deref(), Some("http://localhost:1/v1"));
}
