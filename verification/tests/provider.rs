use models_endpoint::provider::{
    DirPath, ModelProviderAuthInfo, ModelProviderInfo, NonZeroMillis, PathIsNoText, WireApi,
};
use models_endpoint::string_map::StringMap;

#[test]
fn later_value_replaces_earlier_one() {
    let mut map = StringMap::new();
    assert_eq!(map.to_value().to_string(), "{}");
    map.insert("k".to_string(), "1".to_string());
    map.insert("l".to_string(), "2".to_string());
    map.insert("k".to_string(), "3".to_string());
    let value = map.to_value();
    assert_eq!(value.as_object().unwrap().len(), 2);
    assert_eq!(value["k"], "3");
    assert_eq!(value["l"], "2");
    assert_eq!(map.clone().to_value(), value);
}

#[test]
fn default_config_has_nothing_set() {
    let info = ModelProviderInfo::default();
    assert_eq!(info.name, "");
    assert_eq!(info.wire_api, WireApi::Responses);
    assert!(!info.requires_openai_auth);
    assert!(!info.supports_websockets);
    assert!(!info.has_command_auth());
    let value = info.to_value().unwrap();
    assert_eq!(value.as_object().unwrap().len(), 17);
    assert_eq!(value["wire_api"], "responses");
    assert_eq!(value["auth"], serde_json::Value::Null);
}

#[test]
fn value_of_a_key_is_found() {
    let mut map = StringMap::new();
    assert_eq!(map.get("k"), None);
    map.insert("k".to_string(), "1".to_string());
    map.insert("l".to_string(), "2".to_string());
    map.insert("k".to_string(), "3".to_string());
    assert_eq!(map.get("k").map(|v| v.as_str()), Some("3"));
    assert_eq!(map.get("l").map(|v| v.as_str()), Some("2"));
    assert_eq!(map.get("K"), None);
}

#[test]
fn no_time_at_all_is_refused() {
    assert!(NonZeroMillis::new(0).is_none());
    assert_eq!(NonZeroMillis::new(1).map(|m| m.get()), Some(1));
    assert_eq!(NonZeroMillis::new(u64::MAX).map(|m| m.get()), Some(u64::MAX));
}

#[test]
fn path_that_is_no_text_has_no_json_form() {
    let auth = ModelProviderAuthInfo {
        command: "print-token".to_string(),
        args: vec![],
        timeout_ms: NonZeroMillis::new(5_000).unwrap(),
        refresh_interval_ms: 0,
        cwd: DirPath::Bytes(vec![0xff]),
    };
    assert_eq!(auth.to_value(), Err(PathIsNoText));
    let info = ModelProviderInfo { auth: Some(auth.clone()), ..ModelProviderInfo::default() };
    assert_eq!(info.clone().to_value(), Err(PathIsNoText));
    assert!(info.has_command_auth());
    let text = ModelProviderAuthInfo { cwd: DirPath::Text("/".to_string()), ..auth };
    assert_eq!(text.to_value().unwrap()["cwd"], "/");
}
