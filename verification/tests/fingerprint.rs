use std::collections::hash_map::DefaultHasher;
use std::hash::{Hash, Hasher};

use models_endpoint::fingerprint::{
    fingerprint_of_value, format_fingerprint, hash_text, provider_config_fingerprint,
};
use models_endpoint::provider::{
    DirPath, ModelProviderAuthInfo, ModelProviderAwsAuthInfo, ModelProviderInfo, NonZeroMillis,
};
use models_endpoint::string_map::StringMap;

fn string_map(pairs: &[(&str, &str)]) -> Option<StringMap> {
    let mut map = StringMap::new();
    for (key, value) in pairs {
        map.insert(key.to_string(), value.to_string());
    }
    Some(map)
}

fn full_config() -> ModelProviderInfo {
    ModelProviderInfo {
        name: "full".to_string(),
        base_url: Some("http://localhost:1234/v1".to_string()),
        env_key: Some("KEY".to_string()),
        env_key_instructions: Some("ask \"them\"".to_string()),
        experimental_bearer_token: Some("token".to_string()),
        auth: Some(ModelProviderAuthInfo {
            command: "print-token".to_string(),
            args: vec!["--fresh".to_string(), "-q".to_string()],
            timeout_ms: NonZeroMillis::new(5_000).unwrap(),
            refresh_interval_ms: 300_000,
            cwd: DirPath::Text("/work".to_string()),
        }),
        aws: Some(ModelProviderAwsAuthInfo {
            profile: Some("dev".to_string()),
            region: None,
        }),
        query_params: string_map(&[("api-version", "1")]),
        http_headers: string_map(&[("b", "2"), ("a", "1")]),
        env_http_headers: string_map(&[]),
        request_max_retries: Some(4),
        stream_max_retries: Some(u64::MAX),
        stream_idle_timeout_ms: Some(0),
        websocket_connect_timeout_ms: None,
        requires_openai_auth: true,
        supports_websockets: false,
        ..ModelProviderInfo::default()
    }
}

fn std_hash(text: &str) -> u64 {
    let mut hasher = DefaultHasher::new();
    text.to_string().hash(&mut hasher);
    hasher.finish()
}

const FULL_TEXT: &str = r#"{"auth":{"args":["--fresh","-q"],"command":"print-token","cwd":"/work","refresh_interval_ms":300000,"timeout_ms":5000},"aws":{"profile":"dev","region":null},"base_url":"http://localhost:1234/v1","env_http_headers":{},"env_key":"KEY","env_key_instructions":"ask \"them\"","experimental_bearer_token":"token","http_headers":{"a":"1","b":"2"},"name":"full","query_params":{"api-version":"1"},"request_max_retries":4,"requires_openai_auth":true,"stream_idle_timeout_ms":0,"stream_max_retries":18446744073709551615,"supports_websockets":false,"websocket_connect_timeout_ms":null,"wire_api":"responses"}"#;

#[test]
fn fingerprint_is_the_name_and_the_hash_of_the_canonical_text() {
    let expected = format!("full:{:016x}", std_hash(FULL_TEXT));
    assert_eq!(provider_config_fingerprint(&full_config()), expected);
}

#[test]
fn unset_fields_are_hashed_as_null() {
    let text = r#"{"auth":null,"aws":null,"base_url":null,"env_http_headers":null,"env_key":null,"env_key_instructions":null,"experimental_bearer_token":null,"http_headers":null,"name":"","query_params":null,"request_max_retries":null,"requires_openai_auth":false,"stream_idle_timeout_ms":null,"stream_max_retries":null,"supports_websockets":false,"websocket_connect_timeout_ms":null,"wire_api":"responses"}"#;
    let expected = format!(":{:016x}", std_hash(text));
    assert_eq!(provider_config_fingerprint(&ModelProviderInfo::default()), expected);
}

#[test]
fn config_without_a_json_form_counts_as_null_and_keeps_its_name() {
    let failed: Result<serde_json::Value, String> = Err("path is not unicode".to_string());
    let expected = format!("gpt-oss:{:016x}", std_hash("null"));
    assert_eq!(fingerprint_of_value("gpt-oss", failed), expected);
}

#[test]
fn config_with_a_path_that_is_no_text_counts_as_null() {
    let mut config = full_config();
    config.auth.as_mut().unwrap().cwd = DirPath::Bytes(vec![b'/', 0xff]);
    let expected = format!("full:{:016x}", std_hash("null"));
    assert_eq!(provider_config_fingerprint(&config), expected);
    config.auth = None;
    assert_ne!(provider_config_fingerprint(&config), expected);
}

#[test]
fn config_with_a_json_form_is_hashed_in_order() {
    let mut map = serde_json::Map::new();
    map.insert("b".to_string(), serde_json::Value::from(1u64));
    map.insert("a".to_string(), serde_json::Value::Bool(true));
    let config: Result<serde_json::Value, String> = Ok(serde_json::Value::Object(map));
    let expected = format!("gpt-oss:{:016x}", std_hash(r#"{"a":true,"b":1}"#));
    assert_eq!(fingerprint_of_value("gpt-oss", config), expected);
}

#[test]
fn texts_that_look_alike_are_told_apart() {
    let of = |value| fingerprint_of_value("x", Ok::<serde_json::Value, String>(value));
    let null = of(serde_json::Value::Null);
    let text = of(serde_json::Value::String("null".to_string()));
    let whole = of(serde_json::Value::from(1u64));
    let float = of(serde_json::Value::from(1.0));
    assert_ne!(null, text);
    assert_ne!(whole, float);
    assert_eq!(float, format!("x:{:016x}", std_hash("1.0")));
}

#[test]
fn headers_set_in_another_order_give_the_same_fingerprint() {
    let mut a = full_config();
    let mut b = full_config();
    a.env_http_headers = string_map(&[("x", "1"), ("y", "2"), ("z", "3")]);
    b.env_http_headers = string_map(&[("z", "3"), ("x", "1"), ("y", "2")]);
    assert_eq!(provider_config_fingerprint(&a), provider_config_fingerprint(&b));
}

#[test]
fn order_of_headers_is_of_no_account() {
    let mut other = full_config();
    other.http_headers = string_map(&[("a", "0"), ("b", "2"), ("a", "1")]);
    assert_eq!(
        provider_config_fingerprint(&other),
        provider_config_fingerprint(&full_config())
    );
}

#[test]
fn clone_has_the_same_fingerprint() {
    let info = full_config();
    assert_eq!(provider_config_fingerprint(&info.clone()), provider_config_fingerprint(&info));
}

#[test]
fn every_field_counts() {
    let base = provider_config_fingerprint(&full_config());
    let changes: Vec<fn(&mut ModelProviderInfo)> = vec![
        |c| c.name = "other".to_string(),
        |c| c.base_url = None,
        |c| c.env_key = Some("OTHER".to_string()),
        |c| c.env_key_instructions = None,
        |c| c.experimental_bearer_token = Some("token2".to_string()),
        |c| c.auth = None,
        |c| c.auth.as_mut().unwrap().command = "other".to_string(),
        |c| c.auth.as_mut().unwrap().args = vec!["-q".to_string(), "--fresh".to_string()],
        |c| c.auth.as_mut().unwrap().timeout_ms = NonZeroMillis::new(1).unwrap(),
        |c| c.auth.as_mut().unwrap().refresh_interval_ms = 1,
        |c| c.auth.as_mut().unwrap().cwd = DirPath::Text("/".to_string()),
        |c| c.aws = None,
        |c| c.aws.as_mut().unwrap().profile = None,
        |c| c.aws.as_mut().unwrap().region = Some("eu".to_string()),
        |c| c.query_params = None,
        |c| c.http_headers.as_mut().unwrap().insert("a".to_string(), "2".to_string()),
        |c| c.env_http_headers = None,
        |c| c.request_max_retries = Some(5),
        |c| c.stream_max_retries = None,
        |c| c.stream_idle_timeout_ms = None,
        |c| c.websocket_connect_timeout_ms = Some(0),
        |c| c.requires_openai_auth = false,
        |c| c.supports_websockets = true,
    ];
    for change in changes {
        let mut config = full_config();
        change(&mut config);
        assert_ne!(provider_config_fingerprint(&config), base);
    }
}

#[test]
fn hash_is_written_as_sixteen_digits() {
    assert_eq!(format_fingerprint("gpt-oss", 0), "gpt-oss:0000000000000000");
    assert_eq!(format_fingerprint("a:b", 0x1f), "a:b:000000000000001f");
    assert_eq!(format_fingerprint("", u64::MAX), ":ffffffffffffffff");
    assert_eq!(format_fingerprint("é", 0x0123_4567_89ab_cdef), "é:0123456789abcdef");
}

#[test]
fn name_with_a_colon_does_not_confuse_fingerprints() {
    assert_ne!(format_fingerprint("a:", 1), format_fingerprint("a", 1));
    assert_ne!(format_fingerprint("a", 1), format_fingerprint("a", 2));
}

#[test]
fn texts_are_hashed_as_the_standard_library_hashes_them() {
    assert_eq!(hash_text(""), std_hash(""));
    assert_eq!(hash_text("gpt-oss"), std_hash("gpt-oss"));
    assert_ne!(hash_text("a"), hash_text("b"));
}
