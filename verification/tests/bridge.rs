use chimera_agent::bridge::{
    check_bridge_endpoint, is_authorized, reconcile_runtime, stopped_status, tool_call_step,
    tool_error_status, RuntimeObservation, RuntimeReconciliation,
    AgentBridgeStartResult, RateLimitState, ToolCallCheck, ToolCallEvent, ToolCallStep,
    MAX_TOOL_CALLS_PER_WINDOW, RATE_LIMIT_WINDOW_MS,
};
use chimera_agent::error::AgentCommandError;
use chimera_agent::ip::IpAddress;
use chimera_agent::probe::SocketAddress;
use chimera_agent::registry::{unknown_tool, AgentToolErrorCode};

#[test]
fn start_result_discloses_token_only_for_a_new_runtime() {
    let started = AgentBridgeStartResult::started("http://127.0.0.1:1".into(), "secret".into());
    let running = AgentBridgeStartResult::already_running("http://127.0.0.1:1".into());

    assert_eq!(started.token.as_deref(), Some("secret"));
    assert!(running.token.is_none());
    assert!(started.running && running.running);
}

#[test]
fn rate_limit_rejects_excess_calls_and_resets() {
    let started: u64 = 5_000;
    let mut state = RateLimitState { window_started: started, calls: 0 };
    for _ in 0..MAX_TOOL_CALLS_PER_WINDOW {
        assert!(state.allow(started));
    }
    assert!(!state.allow(started));
    assert!(state.allow(started + RATE_LIMIT_WINDOW_MS));
}

#[test]
fn a_refused_call_is_not_counted() {
    let mut state = RateLimitState::new(0);
    for _ in 0..MAX_TOOL_CALLS_PER_WINDOW {
        assert!(state.allow(10));
    }
    assert!(!state.allow(20));
    assert_eq!(state.calls, MAX_TOOL_CALLS_PER_WINDOW);
    assert!(!state.allow(RATE_LIMIT_WINDOW_MS - 1));
    assert!(state.allow(RATE_LIMIT_WINDOW_MS));
    assert_eq!(state.calls, 1);
    assert_eq!(state.window_started, RATE_LIMIT_WINDOW_MS);
}

#[test]
fn bearer_authorization_requires_exact_token() {
    assert!(is_authorized(Some("Bearer expected"), "expected"));
    for candidate in ["Bearer expectee", "Bearer xpected", "Bearer expected ", "Bearer different"] {
        assert!(!is_authorized(Some(candidate), "expected"), "{candidate}");
    }
    assert!(!is_authorized(None, "expected"));
    assert!(!is_authorized(Some("bearer expected"), "expected"));
    assert!(!is_authorized(Some("expected"), "expected"));
}

#[test]
fn stopped_bridge_reports_no_endpoint() {
    let status = stopped_status();
    assert!(!status.running);
    assert!(status.base_url.is_none());
}

#[test]
fn bridge_listens_only_on_a_loopback_port() {
    let loopback = SocketAddress { ip: IpAddress::V4([127, 0, 0, 1]), port: 4000 };
    assert!(check_bridge_endpoint(loopback).is_ok());
    let unassigned = SocketAddress { ip: IpAddress::V4([127, 0, 0, 1]), port: 0 };
    assert_eq!(check_bridge_endpoint(unassigned).err(), Some(AgentCommandError::BridgeStartFailed));
    let public = SocketAddress { ip: IpAddress::V4([10, 0, 0, 1]), port: 4000 };
    assert_eq!(check_bridge_endpoint(public).err(), Some(AgentCommandError::BridgeStartFailed));
}

#[test]
fn tool_errors_map_to_http_statuses() {
    assert_eq!(tool_error_status(AgentToolErrorCode::UnknownTool), 404);
    assert_eq!(tool_error_status(AgentToolErrorCode::InvalidRequest), 400);
    assert_eq!(tool_error_status(AgentToolErrorCode::InvalidTarget), 400);
    assert_eq!(tool_error_status(AgentToolErrorCode::TargetBlocked), 403);
    assert_eq!(tool_error_status(AgentToolErrorCode::ResolutionFailed), 502);
    assert_eq!(tool_error_status(AgentToolErrorCode::ExecutionFailed), 502);
    assert_eq!(tool_error_status(AgentToolErrorCode::TimedOut), 504);
}

#[test]
fn tool_calls_are_checked_in_order_and_each_refusal_has_its_answer() {
    let expect_next = |event: ToolCallEvent, next: ToolCallCheck| match tool_call_step(event) {
        ToolCallStep::Continue(check) => assert_eq!(check, next),
        other => panic!("unexpected step {other:?}"),
    };
    expect_next(ToolCallEvent::Authorization { authorized: true }, ToolCallCheck::RateLimit);
    expect_next(ToolCallEvent::RateLimit { allowed: true }, ToolCallCheck::ToolLookup);
    expect_next(ToolCallEvent::ToolLookup { known: true }, ToolCallCheck::BodyLimit);
    expect_next(ToolCallEvent::BodyLimit { within: true }, ToolCallCheck::Validation);
    expect_next(ToolCallEvent::Validation { error: None }, ToolCallCheck::Permit);
    expect_next(ToolCallEvent::Permit { acquired: true }, ToolCallCheck::Executor);
    expect_next(ToolCallEvent::Executor { available: true }, ToolCallCheck::Execution);
    assert!(matches!(
        tool_call_step(ToolCallEvent::Execution { outcome: Some(Ok(())) }),
        ToolCallStep::Succeed
    ));

    let refusal = |event: ToolCallEvent| match tool_call_step(event) {
        ToolCallStep::Reject(rejection) => (rejection.status(), rejection.code(), rejection.message()),
        other => panic!("unexpected step {other:?}"),
    };
    assert_eq!(
        refusal(ToolCallEvent::Authorization { authorized: false }),
        (401, "unauthorized", "a valid bearer token is required")
    );
    assert_eq!(
        refusal(ToolCallEvent::RateLimit { allowed: false }),
        (429, "rate_limited", "agent bridge request rate limit exceeded")
    );
    assert_eq!(
        refusal(ToolCallEvent::ToolLookup { known: false }),
        (404, "unknown_tool", "unknown agent tool")
    );
    assert_eq!(
        refusal(ToolCallEvent::BodyLimit { within: false }),
        (413, "request_too_large", "agent tool request body exceeds the allowed size")
    );
    assert_eq!(
        refusal(ToolCallEvent::Permit { acquired: false }),
        (429, "bridge_busy", "too many agent tool calls are running")
    );
    assert_eq!(
        refusal(ToolCallEvent::Executor { available: false }),
        (500, "bridge_unavailable", "agent bridge application state is unavailable")
    );
    assert_eq!(
        refusal(ToolCallEvent::Execution { outcome: None }),
        (504, "tool_timeout", "agent tool execution timed out")
    );
    let unknown = unknown_tool();
    assert_eq!(unknown.code, AgentToolErrorCode::UnknownTool);
    assert_eq!(
        refusal(ToolCallEvent::Validation { error: Some(unknown) }),
        (404, "unknown_tool", "agent tool is not registered")
    );
}

#[test]
fn reconciliation_keeps_only_a_running_task_that_answers() {
    assert_eq!(
        reconcile_runtime(RuntimeObservation::Absent),
        RuntimeReconciliation::NothingRecorded
    );
    assert_eq!(
        reconcile_runtime(RuntimeObservation::Finished),
        RuntimeReconciliation::ForgetFinished
    );
    assert_eq!(
        reconcile_runtime(RuntimeObservation::Running { healthy: true }),
        RuntimeReconciliation::Keep
    );
    assert_eq!(
        reconcile_runtime(RuntimeObservation::Running { healthy: false }),
        RuntimeReconciliation::ShutDownUnresponsive
    );
}
