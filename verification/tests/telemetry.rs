use models_endpoint::telemetry::{
    AuthEnvTelemetry, EventLevel, ModelsRequestTelemetry, ResponseDebugContext, TransportFailure,
};

fn telemetry() -> ModelsRequestTelemetry {
    ModelsRequestTelemetry {
        auth_mode: Some("ApiKey".to_string()),
        auth_header_attached: true,
        auth_header_name: Some("authorization"),
        auth_env: AuthEnvTelemetry {
            openai_api_key_env_present: true,
            codex_api_key_env_present: false,
            codex_api_key_env_enabled: true,
            provider_env_key_name: Some("configured".to_string()),
            provider_env_key_present: Some(false),
            refresh_token_url_override_present: false,
        },
    }
}

fn failure() -> TransportFailure {
    TransportFailure {
        message: "http 401".to_string(),
        debug: ResponseDebugContext {
            request_id: Some("req-1".to_string()),
            cf_ray: None,
            auth_error: Some("missing_authorization_header".to_string()),
            auth_error_code: Some("token_expired".to_string()),
        },
    }
}

#[test]
fn success_is_reported_without_error_details() {
    let telemetry = telemetry();
    let report = telemetry.on_request(1, Some(200), None, 17);
    for event in [&report.log_only, &report.trace_safe] {
        assert!(event.success);
        assert_eq!(event.event_name, "codex.api_request");
        assert_eq!(event.endpoint, "/models");
        assert_eq!(event.duration_ms, 17);
        assert_eq!(event.attempt, 1);
        assert_eq!(event.status_code, Some(200));
        assert_eq!(event.error_message, None);
        assert_eq!(event.auth_request_id, None);
        assert_eq!(event.auth_cf_ray, None);
        assert_eq!(event.auth_error, None);
        assert_eq!(event.auth_error_code, None);
        assert_eq!(event.auth_mode.map(|m| m.as_str()), Some("ApiKey"));
        assert!(event.auth_header_attached);
        assert_eq!(event.auth_header_name, Some("authorization"));
        assert!(event.auth_env.openai_api_key_env_present);
    }
    let (first, second) = report.events();
    assert_eq!(first.target, "codex_otel.log_only");
    assert_eq!(second.target, "codex_otel.trace_safe");
    assert_eq!(first.level, EventLevel::Info);
    assert_eq!(second.level, EventLevel::Info);
    assert_eq!(report.log_only.target, "codex_otel.log_only");
    assert_eq!(report.trace_safe.target, "codex_otel.trace_safe");
    assert_eq!(report.feedback_env.provider_env_key_present, Some(false));
}

#[test]
fn failure_is_reported_with_its_details() {
    let telemetry = telemetry();
    let failure = failure();
    let report = telemetry.on_request(3, Some(401), Some(&failure), 5);
    for event in [&report.log_only, &report.trace_safe] {
        assert!(!event.success);
        assert_eq!(event.status_code, Some(401));
        assert_eq!(event.attempt, 3);
        assert_eq!(event.error_message.map(|m| m.as_str()), Some("http 401"));
        assert_eq!(event.auth_request_id.map(|m| m.as_str()), Some("req-1"));
        assert_eq!(event.auth_cf_ray, None);
        assert_eq!(
            event.auth_error.map(|m| m.as_str()),
            Some("missing_authorization_header")
        );
        assert_eq!(event.auth_error_code.map(|m| m.as_str()), Some("token_expired"));
    }
    let tags = &report.feedback;
    assert_eq!(tags.endpoint, "/models");
    assert!(tags.auth_header_attached);
    assert_eq!(tags.auth_header_name, Some("authorization"));
    assert_eq!(tags.auth_mode.map(|m| m.as_str()), Some("ApiKey"));
    assert_eq!(tags.auth_request_id.map(|m| m.as_str()), Some("req-1"));
    assert_eq!(tags.auth_cf_ray, None);
    assert_eq!(tags.auth_error_code.map(|m| m.as_str()), Some("token_expired"));
    assert_eq!(tags.auth_retry_after_unauthorized, None);
    assert_eq!(tags.auth_recovery_mode, None);
    assert_eq!(tags.auth_recovery_phase, None);
    assert_eq!(tags.auth_connection_reused, None);
    assert_eq!(tags.auth_recovery_followup_success, None);
    assert_eq!(tags.auth_recovery_followup_status, None);
}

#[test]
fn success_takes_a_status_of_success_and_no_error() {
    let telemetry = telemetry();
    let failure = failure();
    for (status, success) in [
        (None, false),
        (Some(0), false),
        (Some(199), false),
        (Some(200), true),
        (Some(204), true),
        (Some(299), true),
        (Some(300), false),
        (Some(500), false),
        (Some(1200), false),
    ] {
        assert_eq!(telemetry.on_request(1, status, None, 0).log_only.success, success);
        assert!(!telemetry.on_request(1, status, Some(&failure), 0).log_only.success);
    }
}
