//! What is reported of a request to the `/models` endpoint.
use vstd::prelude::*;

verus! {

/// Path of the endpoint below the provider's base URL.
pub const MODELS_ENDPOINT: &'static str = "/models";

/// Name of the event that reports a request.
pub const API_REQUEST_EVENT: &'static str = "codex.api_request";

/// Target of the event that is only logged.
pub const LOG_ONLY_TARGET: &'static str = "codex_otel.log_only";

/// Target of the event that may be traced.
pub const TRACE_SAFE_TARGET: &'static str = "codex_otel.trace_safe";

/// How much an event matters.
#[derive(Debug, Clone, Copy, PartialEq, Eq, Structural)]
pub enum EventLevel {
    Info,
}

/// Which credentials the environment offers.
#[derive(Debug)]
pub struct AuthEnvTelemetry {
    pub openai_api_key_env_present: bool,
    pub codex_api_key_env_present: bool,
    pub codex_api_key_env_enabled: bool,
    pub provider_env_key_name: Option<String>,
    pub provider_env_key_present: Option<bool>,
    pub refresh_token_url_override_present: bool,
}

/// What the response to a failed request tells for tracking the failure down.
#[derive(Debug)]
pub struct ResponseDebugContext {
    pub request_id: Option<String>,
    pub cf_ray: Option<String>,
    pub auth_error: Option<String>,
    pub auth_error_code: Option<String>,
}

/// What is told of a request that failed in transport.
#[derive(Debug)]
pub struct TransportFailure {
    pub message: String,
    pub debug: ResponseDebugContext,
}

/// What is known of a request before it is sent.
#[derive(Debug)]
pub struct ModelsRequestTelemetry {
    pub auth_mode: Option<String>,
    pub auth_header_attached: bool,
    pub auth_header_name: Option<&'static str>,
    pub auth_env: AuthEnvTelemetry,
}

impl Clone for AuthEnvTelemetry {
    fn clone(&self) -> (copy: AuthEnvTelemetry)
        ensures
            copy == *self,
    {
        AuthEnvTelemetry {
            openai_api_key_env_present: self.openai_api_key_env_present,
            codex_api_key_env_present: self.codex_api_key_env_present,
            codex_api_key_env_enabled: self.codex_api_key_env_enabled,
            provider_env_key_name: self.provider_env_key_name.clone(),
            provider_env_key_present: self.provider_env_key_present,
            refresh_token_url_override_present: self.refresh_token_url_override_present,
        }
    }
}

impl Clone for ModelsRequestTelemetry {
    fn clone(&self) -> (copy: ModelsRequestTelemetry)
        ensures
            copy == *self,
    {
        ModelsRequestTelemetry {
            auth_mode: self.auth_mode.clone(),
            auth_header_attached: self.auth_header_attached,
            auth_header_name: self.auth_header_name,
            auth_env: self.auth_env.clone(),
        }
    }
}

/// The event that reports a request.
#[derive(Debug)]
pub struct ApiRequestEvent<'a> {
    pub target: &'static str,
    pub level: EventLevel,
    pub event_name: &'static str,
    pub duration_ms: u128,
    pub status_code: Option<u16>,
    pub success: bool,
    pub error_message: Option<&'a String>,
    pub attempt: u64,
    pub endpoint: &'static str,
    pub auth_header_attached: bool,
    pub auth_header_name: Option<&'static str>,
    pub auth_env: &'a AuthEnvTelemetry,
    pub auth_request_id: Option<&'a String>,
    pub auth_cf_ray: Option<&'a String>,
    pub auth_error: Option<&'a String>,
    pub auth_error_code: Option<&'a String>,
    pub auth_mode: Option<&'a String>,
}

/// The tags that are kept of a request for feedback reports.
#[derive(Debug)]
pub struct FeedbackRequestTags<'a> {
    pub endpoint: &'static str,
    pub auth_header_attached: bool,
    pub auth_header_name: Option<&'static str>,
    pub auth_mode: Option<&'a String>,
    pub auth_retry_after_unauthorized: Option<bool>,
    pub auth_recovery_mode: Option<&'a String>,
    pub auth_recovery_phase: Option<&'a String>,
    pub auth_connection_reused: Option<bool>,
    pub auth_request_id: Option<&'a String>,
    pub auth_cf_ray: Option<&'a String>,
    pub auth_error: Option<&'a String>,
    pub auth_error_code: Option<&'a String>,
    pub auth_recovery_followup_success: Option<bool>,
    pub auth_recovery_followup_status: Option<u16>,
}

/// Everything that is reported of a request, in this order: two events and the
/// feedback tags, which go with what the environment offers.
#[derive(Debug)]
pub struct RequestReport<'a> {
    pub log_only: ApiRequestEvent<'a>,
    pub trace_safe: ApiRequestEvent<'a>,
    pub feedback: FeedbackRequestTags<'a>,
    pub feedback_env: &'a AuthEnvTelemetry,
}

/// Calls `is_success` of `http::StatusCode`, which tells whether the code is
/// within 200-299. A number that is no status code is none of success.
#[verifier::external_body]
fn is_success(code: u16) -> (success: bool)
    ensures
        success == (200 <= code <= 299),
{
    match http::StatusCode::from_u16(code) {
        Ok(status) => status.is_success(),
        Err(_) => false,
    }
}

/// The string inside, borrowed.
pub open spec fn borrowed<'a>(string: &'a Option<String>) -> Option<&'a String> {
    match string {
        Some(s) => Some(s),
        None => None,
    }
}

/// A request succeeded if its status says so and no error came up.
pub open spec fn succeeded(status: Option<u16>, error: Option<&TransportFailure>) -> bool {
    &&& status matches Some(code) && 200 <= code <= 299
    &&& error is None
}

impl ModelsRequestTelemetry {
    /// The event for the given target that reports a request.
    pub open spec fn event_for<'a>(
        &'a self,
        target: &'static str,
        attempt: u64,
        status: Option<u16>,
        error: Option<&'a TransportFailure>,
        duration_ms: u128,
    ) -> ApiRequestEvent<'a> {
        ApiRequestEvent {
            target,
            level: EventLevel::Info,
            event_name: API_REQUEST_EVENT,
            duration_ms,
            status_code: status,
            success: succeeded(status, error),
            error_message: match error {
                Some(e) => Some(&e.message),
                None => None,
            },
            attempt,
            endpoint: MODELS_ENDPOINT,
            auth_header_attached: self.auth_header_attached,
            auth_header_name: self.auth_header_name,
            auth_env: &self.auth_env,
            auth_request_id: match error {
                Some(e) => borrowed(&e.debug.request_id),
                None => None,
            },
            auth_cf_ray: match error {
                Some(e) => borrowed(&e.debug.cf_ray),
                None => None,
            },
            auth_error: match error {
                Some(e) => borrowed(&e.debug.auth_error),
                None => None,
            },
            auth_error_code: match error {
                Some(e) => borrowed(&e.debug.auth_error_code),
                None => None,
            },
            auth_mode: borrowed(&self.auth_mode),
        }
    }

    /// The tags that are kept of a request.
    pub open spec fn tags_for<'a>(
        &'a self,
        error: Option<&'a TransportFailure>,
    ) -> FeedbackRequestTags<'a> {
        FeedbackRequestTags {
            endpoint: MODELS_ENDPOINT,
            auth_header_attached: self.auth_header_attached,
            auth_header_name: self.auth_header_name,
            auth_mode: borrowed(&self.auth_mode),
            auth_retry_after_unauthorized: None,
            auth_recovery_mode: None,
            auth_recovery_phase: None,
            auth_connection_reused: None,
            auth_request_id: match error {
                Some(e) => borrowed(&e.debug.request_id),
                None => None,
            },
            auth_cf_ray: match error {
                Some(e) => borrowed(&e.debug.cf_ray),
                None => None,
            },
            auth_error: match error {
                Some(e) => borrowed(&e.debug.auth_error),
                None => None,
            },
            auth_error_code: match error {
                Some(e) => borrowed(&e.debug.auth_error_code),
                None => None,
            },
            auth_recovery_followup_success: None,
            auth_recovery_followup_status: None,
        }
    }

    /// The event for the given target that reports a request.
    fn event<'a>(
        &'a self,
        target: &'static str,
        attempt: u64,
        status: Option<u16>,
        error: Option<&'a TransportFailure>,
        duration_ms: u128,
    ) -> (event: ApiRequestEvent<'a>)
        ensures
            event == self.event_for(target, attempt, status, error, duration_ms),
    {
        let success = match status {
            Some(code) => is_success(code) && error.is_none(),
            None => false,
        };
        let (error_message, request_id, cf_ray, auth_error, auth_error_code) = match error {
            Some(e) => (
                Some(&e.message),
                e.debug.request_id.as_ref(),
                e.debug.cf_ray.as_ref(),
                e.debug.auth_error.as_ref(),
                e.debug.auth_error_code.as_ref(),
            ),
            None => (None, None, None, None, None),
        };
        ApiRequestEvent {
            target,
            level: EventLevel::Info,
            event_name: API_REQUEST_EVENT,
            duration_ms,
            status_code: status,
            success,
            error_message,
            attempt,
            endpoint: MODELS_ENDPOINT,
            auth_header_attached: self.auth_header_attached,
            auth_header_name: self.auth_header_name,
            auth_env: &self.auth_env,
            auth_request_id: request_id,
            auth_cf_ray: cf_ray,
            auth_error,
            auth_error_code,
            auth_mode: self.auth_mode.as_ref(),
        }
    }

    /// What to report of an attempt at a request, which ended after
    /// `duration_ms` milliseconds with a status, an error, or both.
    pub fn on_request<'a>(
        &'a self,
        attempt: u64,
        status: Option<u16>,
        error: Option<&'a TransportFailure>,
        duration_ms: u128,
    ) -> (report: RequestReport<'a>)
        ensures
            report.log_only == self.event_for(
                LOG_ONLY_TARGET,
                attempt,
                status,
                error,
                duration_ms,
            ),
            report.trace_safe == self.event_for(
                TRACE_SAFE_TARGET,
                attempt,
                status,
                error,
                duration_ms,
            ),
            report.feedback == self.tags_for(error),
            report.feedback_env == self.auth_env,
            report.log_only.target@ == "codex_otel.log_only"@,
            report.trace_safe.target@ == "codex_otel.trace_safe"@,
            report.trace_safe == (ApiRequestEvent {
                target: report.trace_safe.target,
                ..report.log_only
            }),
            report.log_only.level is Info,
            report.log_only.event_name@ == "codex.api_request"@,
            report.log_only.duration_ms == duration_ms,
            report.log_only.status_code == status,
            report.log_only.success <==> (status matches Some(code) && 200 <= code <= 299)
                && error is None,
            report.trace_safe.success <==> (status matches Some(code) && 200 <= code <= 299)
                && error is None,
            report.log_only.attempt == attempt,
            report.log_only.endpoint@ == "/models"@,
            report.log_only.auth_header_attached == self.auth_header_attached,
            report.log_only.auth_header_name == self.auth_header_name,
            report.log_only.auth_env == self.auth_env,
            report.log_only.auth_mode is Some <==> self.auth_mode is Some,
            report.log_only.auth_mode matches Some(mode) ==> self.auth_mode == Some(*mode),
            error is None ==> {
                &&& report.log_only.error_message is None
                &&& report.log_only.auth_request_id is None
                &&& report.log_only.auth_cf_ray is None
                &&& report.log_only.auth_error is None
                &&& report.log_only.auth_error_code is None
            },
            error matches Some(e) ==> {
                &&& report.log_only.error_message matches Some(text) && *text == e.message
                &&& report.log_only.auth_request_id is Some <==> e.debug.request_id is Some
                &&& report.log_only.auth_request_id matches Some(text)
                    ==> e.debug.request_id == Some(*text)
                &&& report.log_only.auth_cf_ray is Some <==> e.debug.cf_ray is Some
                &&& report.log_only.auth_cf_ray matches Some(text) ==> e.debug.cf_ray == Some(*text)
                &&& report.log_only.auth_error is Some <==> e.debug.auth_error is Some
                &&& report.log_only.auth_error matches Some(text)
                    ==> e.debug.auth_error == Some(*text)
                &&& report.log_only.auth_error_code is Some <==> e.debug.auth_error_code is Some
                &&& report.log_only.auth_error_code matches Some(text)
                    ==> e.debug.auth_error_code == Some(*text)
            },
            report.feedback.endpoint@ == "/models"@,
            report.feedback.auth_header_attached == self.auth_header_attached,
            report.feedback.auth_header_name == self.auth_header_name,
            report.feedback.auth_mode == report.log_only.auth_mode,
            report.feedback.auth_retry_after_unauthorized is None,
            report.feedback.auth_recovery_mode is None,
            report.feedback.auth_recovery_phase is None,
            report.feedback.auth_connection_reused is None,
            report.feedback.auth_request_id == report.log_only.auth_request_id,
            report.feedback.auth_cf_ray == report.log_only.auth_cf_ray,
            report.feedback.auth_error == report.log_only.auth_error,
            report.feedback.auth_error_code == report.log_only.auth_error_code,
            report.feedback.auth_recovery_followup_success is None,
            report.feedback.auth_recovery_followup_status is None,
    {
        let log_only = self.event(LOG_ONLY_TARGET, attempt, status, error, duration_ms);
        let trace_safe = self.event(TRACE_SAFE_TARGET, attempt, status, error, duration_ms);
        let feedback = FeedbackRequestTags {
            endpoint: MODELS_ENDPOINT,
            auth_header_attached: self.auth_header_attached,
            auth_header_name: self.auth_header_name,
            auth_mode: self.auth_mode.as_ref(),
            auth_retry_after_unauthorized: None,
            auth_recovery_mode: None,
            auth_recovery_phase: None,
            auth_connection_reused: None,
            auth_request_id: log_only.auth_request_id,
            auth_cf_ray: log_only.auth_cf_ray,
            auth_error: log_only.auth_error,
            auth_error_code: log_only.auth_error_code,
            auth_recovery_followup_success: None,
            auth_recovery_followup_status: None,
        };
        RequestReport { log_only, trace_safe, feedback, feedback_env: &self.auth_env }
    }
}

impl<'a> RequestReport<'a> {
    /// The events in the order in which they are emitted.
    pub fn events(&self) -> (events: (&ApiRequestEvent<'a>, &ApiRequestEvent<'a>))
        ensures
            *events.0 == self.log_only,
            *events.1 == self.trace_safe,
    {
        (&self.log_only, &self.trace_safe)
    }
}

/// Events of one request for different targets are of the same level and have
/// the same name and the same fields.
pub proof fn law_events_differ_in_target_only(
    telemetry: ModelsRequestTelemetry,
    a: &'static str,
    b: &'static str,
    attempt: u64,
    status: Option<u16>,
    error: Option<&TransportFailure>,
    duration_ms: u128,
)
    ensures
        telemetry.event_for(b, attempt, status, error, duration_ms) == (ApiRequestEvent {
            target: b,
            ..telemetry.event_for(a, attempt, status, error, duration_ms)
        }),
{
}

/// Whether an attempt succeeded is for its status and its error alone to say:
/// the status is one of success and no error came up. Who asked, with which
/// credentials, how often and for how long is of no account.
pub proof fn law_status_and_error_decide_on_success(
    a: ModelsRequestTelemetry,
    b: ModelsRequestTelemetry,
    target_a: &'static str,
    target_b: &'static str,
    attempt_a: u64,
    attempt_b: u64,
    status: Option<u16>,
    error: Option<&TransportFailure>,
    duration_a: u128,
    duration_b: u128,
)
    ensures
        ({
            let x = a.event_for(target_a, attempt_a, status, error, duration_a);
            let y = b.event_for(target_b, attempt_b, status, error, duration_b);
            &&& x.success == y.success
            &&& x.success <==> (status matches Some(code) && 200 <= code <= 299) && error is None
        }),
{
}

/// An event tells what it was made of: the attempt, the status, the duration, the
/// header, the mode and the environment as they are, and of the error, where there
/// is one, its message and each detail that its response gave. The tags tell the
/// same of the credentials and the error, and nothing of a recovery.
pub proof fn law_report_tells_what_it_was_made_of(
    telemetry: ModelsRequestTelemetry,
    target: &'static str,
    attempt: u64,
    status: Option<u16>,
    error: Option<&TransportFailure>,
    duration_ms: u128,
)
    ensures
        ({
            let event = telemetry.event_for(target, attempt, status, error, duration_ms);
            let tags = telemetry.tags_for(error);
            &&& event.target == target
            &&& event.level is Info
            &&& event.event_name@ == "codex.api_request"@
            &&& event.duration_ms == duration_ms
            &&& event.status_code == status
            &&& event.attempt == attempt
            &&& event.endpoint@ == "/models"@ && tags.endpoint@ == "/models"@
            &&& event.auth_header_attached == telemetry.auth_header_attached
            &&& event.auth_header_name == telemetry.auth_header_name
            &&& event.auth_env == telemetry.auth_env
            &&& event.auth_mode is Some <==> telemetry.auth_mode is Some
            &&& event.auth_mode matches Some(mode) ==> telemetry.auth_mode == Some(*mode)
            &&& error is None ==> {
                &&& event.error_message is None
                &&& event.auth_request_id is None
                &&& event.auth_cf_ray is None
                &&& event.auth_error is None
                &&& event.auth_error_code is None
            }
            &&& error matches Some(e) ==> {
                &&& event.error_message matches Some(text) && *text == e.message
                &&& event.auth_request_id is Some <==> e.debug.request_id is Some
                &&& event.auth_request_id matches Some(text) ==> e.debug.request_id == Some(*text)
                &&& event.auth_cf_ray is Some <==> e.debug.cf_ray is Some
                &&& event.auth_cf_ray matches Some(text) ==> e.debug.cf_ray == Some(*text)
                &&& event.auth_error is Some <==> e.debug.auth_error is Some
                &&& event.auth_error matches Some(text) ==> e.debug.auth_error == Some(*text)
                &&& event.auth_error_code is Some <==> e.debug.auth_error_code is Some
                &&& event.auth_error_code matches Some(text)
                    ==> e.debug.auth_error_code == Some(*text)
            }
            &&& tags.auth_header_attached == event.auth_header_attached
            &&& tags.auth_header_name == event.auth_header_name
            &&& tags.auth_mode == event.auth_mode
            &&& tags.auth_request_id == event.auth_request_id
            &&& tags.auth_cf_ray == event.auth_cf_ray
            &&& tags.auth_error == event.auth_error
            &&& tags.auth_error_code == event.auth_error_code
            &&& tags.auth_retry_after_unauthorized is None
            &&& tags.auth_recovery_mode is None
            &&& tags.auth_recovery_phase is None
            &&& tags.auth_connection_reused is None
            &&& tags.auth_recovery_followup_success is None
            &&& tags.auth_recovery_followup_status is None
        }),
{
}

/// A request that is reported as a success is reported without any detail of an error.
pub proof fn law_success_is_reported_without_error(
    telemetry: ModelsRequestTelemetry,
    target: &'static str,
    attempt: u64,
    status: Option<u16>,
    error: Option<&TransportFailure>,
    duration_ms: u128,
)
    ensures
        ({
            let event = telemetry.event_for(target, attempt, status, error, duration_ms);
            let tags = telemetry.tags_for(error);
            event.success ==> {
                &&& event.status_code is Some
                &&& event.error_message is None
                &&& event.auth_request_id is None && tags.auth_request_id is None
                &&& event.auth_cf_ray is None && tags.auth_cf_ray is None
                &&& event.auth_error is None && tags.auth_error is None
                &&& event.auth_error_code is None && tags.auth_error_code is None
            }
        }),
{
}

} // verus!
