//! The local HTTP bridge: what a start reports, who may call a tool, how often, and which
//! HTTP status a tool error is answered with.
use vstd::prelude::*;

use subtle::ConstantTimeEq;

use crate::error::AgentCommandError;
use crate::ip::{address_is_loopback, is_loopback};
use crate::probe::SocketAddress;
use crate::registry::{AgentToolError, AgentToolErrorCode};

verus! {

pub const BRIDGE_SCHEMA_VERSION: u16 = 1;

pub const MAX_REQUEST_BODY_BYTES: usize = 16 * 1024;

pub const MAX_CONCURRENT_TOOL_CALLS: usize = 4;

pub const MAX_TOOL_CALLS_PER_WINDOW: u32 = 30;

/// The length of a rate-limit window, in milliseconds.
pub const RATE_LIMIT_WINDOW_MS: u64 = 60_000;

/// What starting the bridge reports; the token is handed out only when a new bridge started.
pub struct AgentBridgeStartResult {
    pub running: bool,
    pub base_url: String,
    pub token: Option<String>,
}

impl AgentBridgeStartResult {
    pub fn started(base_url: String, token: String) -> (result: AgentBridgeStartResult)
        ensures
            result.running,
            result.base_url == base_url,
            result.token == Some(token),
    {
        AgentBridgeStartResult { running: true, base_url, token: Some(token) }
    }

    pub fn already_running(base_url: String) -> (result: AgentBridgeStartResult)
        ensures
            result.running,
            result.base_url == base_url,
            result.token is None,
    {
        AgentBridgeStartResult { running: true, base_url, token: None }
    }
}

pub struct AgentBridgeStatus {
    pub running: bool,
    pub base_url: Option<String>,
}

pub fn stopped_status() -> (status: AgentBridgeStatus)
    ensures
        !status.running,
        status.base_url is None,
{
    AgentBridgeStatus { running: false, base_url: None }
}

/// The address the bridge listens on must be a loopback address with a real port.
pub fn check_bridge_endpoint(address: SocketAddress) -> (result: Result<
    SocketAddress,
    AgentCommandError,
>)
    ensures
        match result {
            Ok(accepted) => accepted@ == address@ && is_loopback(address.ip@) && address.port != 0,
            Err(error) => error == AgentCommandError::BridgeStartFailed && !(is_loopback(
                address.ip@,
            ) && address.port != 0),
        },
{
    if !address_is_loopback(&address.ip) || address.port == 0 {
        return Err(AgentCommandError::BridgeStartFailed);
    }
    Ok(address)
}

/// Tool calls counted in a fixed window of time, with times in monotonic milliseconds.
pub struct RateLimitState {
    pub window_started: u64,
    pub calls: u32,
}

/// The time from `then` to `now`, zero when `then` is later.
pub open spec fn since(now: u64, then: u64) -> int {
    if now >= then {
        now - then
    } else {
        0
    }
}

impl RateLimitState {
    pub fn new(now: u64) -> (state: RateLimitState)
        ensures
            state.window_started == now,
            state.calls == 0,
    {
        RateLimitState { window_started: now, calls: 0 }
    }

    /// Counts a call at `now`: a window that has run its length starts over at `now`, and a
    /// call over the window's budget is refused without being counted.
    pub fn allow(&mut self, now: u64) -> (allowed: bool)
        ensures
            rate_limit_step(*old(self), now) == (
                allowed,
                final(self).window_started,
                final(self).calls as int,
            ),
    {
        let elapsed: u64 = if now >= self.window_started {
            now - self.window_started
        } else {
            0
        };
        if elapsed >= RATE_LIMIT_WINDOW_MS {
            self.window_started = now;
            self.calls = 0;
        }
        if self.calls >= MAX_TOOL_CALLS_PER_WINDOW {
            return false;
        }
        self.calls = self.calls + 1;
        true
    }
}

/// Compares two byte strings with `subtle`'s `ConstantTimeEq` for slices, which is true exactly
/// when they have the same length and the same bytes.
#[verifier::external_body]
fn constant_time_eq(a: &[u8], b: &[u8]) -> (equal: bool)
    ensures
        equal == (a@ == b@),
{
    bool::from(a.ct_eq(b))
}

/// Whether an `Authorization` header value is `Bearer ` followed by exactly the token.
pub open spec fn bearer_matches(value: Seq<char>, token: Seq<char>) -> bool {
    let prefix = "Bearer "@;
    &&& value.len() >= prefix.len()
    &&& value.subrange(0, prefix.len() as int) == prefix
    &&& value.subrange(prefix.len() as int, value.len() as int) == token
}

/// Whether a request may call tools: it must carry the header, as text, with the bearer token;
/// the comparison of the token takes the same time whatever bytes differ.
pub fn is_authorized(header: Option<&str>, token: &str) -> (authorized: bool)
    ensures
        authorized == (match header {
            Some(value) => bearer_matches(value@, token@),
            None => false,
        }),
{
    let value = match header {
        Some(value) => value,
        None => {
            return false;
        },
    };
    let prefix = "Bearer ";
    proof {
        reveal_strlit("Bearer ");
    }
    let chars = crate::text::chars_of(value);
    if chars.len() < 7 {
        return false;
    }
    let mut i: usize = 0;
    while i < 7
        invariant
            i <= 7,
            chars@ == value@,
            chars@.len() >= 7,
            prefix@ == "Bearer "@,
            prefix@.len() == 7,
            header == Some(value),
            forall|j: int| 0 <= j < i ==> chars@[j] == prefix@[j],
        decreases 7 - i,
    {
        let expected = prefix.get_char(i);
        if chars[i] != expected {
            assert(value@.subrange(0, 7)[i as int] != "Bearer "@[i as int]);
            return false;
        }
        i = i + 1;
    }
    assert(value@.subrange(0, 7) =~= "Bearer "@);
    let mut candidate = String::new();
    let mut k: usize = 7;
    while k < chars.len()
        invariant
            7 <= k <= chars@.len(),
            chars@ == value@,
            candidate@ == value@.subrange(7, k as int),
        decreases chars@.len() - k,
    {
        crate::text::push_char(&mut candidate, chars[k]);
        assert(value@.subrange(7, k + 1) =~= value@.subrange(7, k as int).push(value@[k as int]));
        k = k + 1;
    }
    let equal = constant_time_eq(candidate.as_str().as_bytes(), token.as_bytes());
    proof {
        vstd::utf8::encode_utf8_decode_utf8(candidate@);
        vstd::utf8::encode_utf8_decode_utf8(token@);
    }
    equal
}

/// HTTP status of a tool error.
pub open spec fn tool_error_http_status(code: AgentToolErrorCode) -> u16 {
    match code {
        AgentToolErrorCode::UnknownTool => 404,
        AgentToolErrorCode::InvalidRequest => 400,
        AgentToolErrorCode::InvalidTarget => 400,
        AgentToolErrorCode::TargetBlocked => 403,
        AgentToolErrorCode::ResolutionFailed => 502,
        AgentToolErrorCode::ExecutionFailed => 502,
        AgentToolErrorCode::TimedOut => 504,
    }
}

pub fn tool_error_status(code: AgentToolErrorCode) -> (status: u16)
    ensures
        status == tool_error_http_status(code),
{
    match code {
        AgentToolErrorCode::UnknownTool => 404,
        AgentToolErrorCode::InvalidRequest | AgentToolErrorCode::InvalidTarget => 400,
        AgentToolErrorCode::TargetBlocked => 403,
        AgentToolErrorCode::ResolutionFailed | AgentToolErrorCode::ExecutionFailed => 502,
        AgentToolErrorCode::TimedOut => 504,
    }
}

/// What a call at `now` does to a rate-limit window: whether it is allowed, and the window's
/// start and count afterwards.
pub open spec fn rate_limit_step(state: RateLimitState, now: u64) -> (bool, u64, int) {
    let expired = since(now, state.window_started) >= RATE_LIMIT_WINDOW_MS;
    let start = if expired { now } else { state.window_started };
    let calls: int = if expired { 0 } else { state.calls as int };
    if calls < MAX_TOOL_CALLS_PER_WINDOW {
        (true, start, calls + 1)
    } else {
        (false, start, calls)
    }
}

/// A window never counts more calls than its budget, and a call is allowed only while the
/// window that it falls in has budget left.
pub proof fn lemma_rate_limit_never_exceeds_its_budget(state: RateLimitState, now: u64)
    requires
        state.calls <= MAX_TOOL_CALLS_PER_WINDOW,
    ensures
        rate_limit_step(state, now).2 <= MAX_TOOL_CALLS_PER_WINDOW,
        rate_limit_step(state, now).0 ==> rate_limit_step(state, now).2 >= 1,
        since(now, state.window_started) < RATE_LIMIT_WINDOW_MS && state.calls
            == MAX_TOOL_CALLS_PER_WINDOW ==> !rate_limit_step(state, now).0,
{
}

/// Why a tool call through the bridge is answered with an error.
#[derive(Debug, Clone, Copy)]
pub enum BridgeRejection {
    Unauthorized,
    RateLimited,
    UnknownTool,
    RequestTooLarge,
    Busy,
    Unavailable,
    ToolTimeout,
    Tool(AgentToolError),
}

impl BridgeRejection {
    /// The HTTP status of the answer.
    pub fn status(self) -> (status: u16)
        ensures
            status == match self {
                BridgeRejection::Unauthorized => 401u16,
                BridgeRejection::RateLimited => 429u16,
                BridgeRejection::UnknownTool => 404u16,
                BridgeRejection::RequestTooLarge => 413u16,
                BridgeRejection::Busy => 429u16,
                BridgeRejection::Unavailable => 500u16,
                BridgeRejection::ToolTimeout => 504u16,
                BridgeRejection::Tool(error) => tool_error_http_status(error.code),
            },
    {
        match self {
            BridgeRejection::Unauthorized => 401,
            BridgeRejection::RateLimited => 429,
            BridgeRejection::UnknownTool => 404,
            BridgeRejection::RequestTooLarge => 413,
            BridgeRejection::Busy => 429,
            BridgeRejection::Unavailable => 500,
            BridgeRejection::ToolTimeout => 504,
            BridgeRejection::Tool(error) => tool_error_status(error.code),
        }
    }

    /// The stable code of the answer.
    pub fn code(self) -> (code: &'static str)
        ensures
            match self {
                BridgeRejection::Unauthorized => code@ == "unauthorized"@,
                BridgeRejection::RateLimited => code@ == "rate_limited"@,
                BridgeRejection::UnknownTool => code@ == "unknown_tool"@,
                BridgeRejection::RequestTooLarge => code@ == "request_too_large"@,
                BridgeRejection::Busy => code@ == "bridge_busy"@,
                BridgeRejection::Unavailable => code@ == "bridge_unavailable"@,
                BridgeRejection::ToolTimeout => code@ == "tool_timeout"@,
                BridgeRejection::Tool(error) => code@ == error.code.code(),
            },
    {
        match self {
            BridgeRejection::Unauthorized => "unauthorized",
            BridgeRejection::RateLimited => "rate_limited",
            BridgeRejection::UnknownTool => "unknown_tool",
            BridgeRejection::RequestTooLarge => "request_too_large",
            BridgeRejection::Busy => "bridge_busy",
            BridgeRejection::Unavailable => "bridge_unavailable",
            BridgeRejection::ToolTimeout => "tool_timeout",
            BridgeRejection::Tool(error) => error.code.as_str(),
        }
    }

    /// The fixed message of the answer.
    pub fn message(self) -> (message: &'static str)
        ensures
            match self {
                BridgeRejection::Unauthorized => message@ == "a valid bearer token is required"@,
                BridgeRejection::RateLimited => message@ == "agent bridge request rate limit exceeded"@,
                BridgeRejection::UnknownTool => message@ == "unknown agent tool"@,
                BridgeRejection::RequestTooLarge => message@ == "agent tool request body exceeds the allowed size"@,
                BridgeRejection::Busy => message@ == "too many agent tool calls are running"@,
                BridgeRejection::Unavailable => message@ == "agent bridge application state is unavailable"@,
                BridgeRejection::ToolTimeout => message@ == "agent tool execution timed out"@,
                BridgeRejection::Tool(error) => message == error.message,
            },
    {
        match self {
            BridgeRejection::Unauthorized => "a valid bearer token is required",
            BridgeRejection::RateLimited => "agent bridge request rate limit exceeded",
            BridgeRejection::UnknownTool => "unknown agent tool",
            BridgeRejection::RequestTooLarge => "agent tool request body exceeds the allowed size",
            BridgeRejection::Busy => "too many agent tool calls are running",
            BridgeRejection::Unavailable => "agent bridge application state is unavailable",
            BridgeRejection::ToolTimeout => "agent tool execution timed out",
            BridgeRejection::Tool(error) => error.message,
        }
    }
}

/// The checks of a tool call, in the order the bridge makes them.
#[derive(Debug, Clone, Copy, PartialEq, Eq, Structural)]
pub enum ToolCallCheck {
    Authorization,
    RateLimit,
    ToolLookup,
    BodyLimit,
    Validation,
    Permit,
    Executor,
    Execution,
}

/// The result of one check of a tool call.
#[derive(Debug, Clone, Copy)]
pub enum ToolCallEvent {
    Authorization { authorized: bool },
    RateLimit { allowed: bool },
    ToolLookup { known: bool },
    BodyLimit { within: bool },
    Validation { error: Option<AgentToolError> },
    Permit { acquired: bool },
    Executor { available: bool },
    /// `None` when the tool ran out of its time budget.
    Execution { outcome: Option<Result<(), AgentToolError>> },
}

/// What the bridge does after a check: make the next one, answer with an error, or answer with
/// the tool's output.
#[derive(Debug, Clone, Copy)]
pub enum ToolCallStep {
    Continue(ToolCallCheck),
    Reject(BridgeRejection),
    Succeed,
}

pub open spec fn spec_tool_call_step(event: ToolCallEvent) -> ToolCallStep {
    match event {
        ToolCallEvent::Authorization { authorized } => if authorized {
            ToolCallStep::Continue(ToolCallCheck::RateLimit)
        } else {
            ToolCallStep::Reject(BridgeRejection::Unauthorized)
        },
        ToolCallEvent::RateLimit { allowed } => if allowed {
            ToolCallStep::Continue(ToolCallCheck::ToolLookup)
        } else {
            ToolCallStep::Reject(BridgeRejection::RateLimited)
        },
        ToolCallEvent::ToolLookup { known } => if known {
            ToolCallStep::Continue(ToolCallCheck::BodyLimit)
        } else {
            ToolCallStep::Reject(BridgeRejection::UnknownTool)
        },
        ToolCallEvent::BodyLimit { within } => if within {
            ToolCallStep::Continue(ToolCallCheck::Validation)
        } else {
            ToolCallStep::Reject(BridgeRejection::RequestTooLarge)
        },
        ToolCallEvent::Validation { error } => match error {
            None => ToolCallStep::Continue(ToolCallCheck::Permit),
            Some(error) => ToolCallStep::Reject(BridgeRejection::Tool(error)),
        },
        ToolCallEvent::Permit { acquired } => if acquired {
            ToolCallStep::Continue(ToolCallCheck::Executor)
        } else {
            ToolCallStep::Reject(BridgeRejection::Busy)
        },
        ToolCallEvent::Executor { available } => if available {
            ToolCallStep::Continue(ToolCallCheck::Execution)
        } else {
            ToolCallStep::Reject(BridgeRejection::Unavailable)
        },
        ToolCallEvent::Execution { outcome } => match outcome {
            None => ToolCallStep::Reject(BridgeRejection::ToolTimeout),
            Some(Ok(())) => ToolCallStep::Succeed,
            Some(Err(error)) => ToolCallStep::Reject(BridgeRejection::Tool(error)),
        },
    }
}

/// Decides the next step of a tool call from the result of its current check: a failed check
/// answers with its error, a passed one leads to the next check, and a finished execution
/// answers with its output.
pub fn tool_call_step(event: ToolCallEvent) -> (step: ToolCallStep)
    ensures
        step == spec_tool_call_step(event),
{
    match event {
        ToolCallEvent::Authorization { authorized } => if authorized {
            ToolCallStep::Continue(ToolCallCheck::RateLimit)
        } else {
            ToolCallStep::Reject(BridgeRejection::Unauthorized)
        },
        ToolCallEvent::RateLimit { allowed } => if allowed {
            ToolCallStep::Continue(ToolCallCheck::ToolLookup)
        } else {
            ToolCallStep::Reject(BridgeRejection::RateLimited)
        },
        ToolCallEvent::ToolLookup { known } => if known {
            ToolCallStep::Continue(ToolCallCheck::BodyLimit)
        } else {
            ToolCallStep::Reject(BridgeRejection::UnknownTool)
        },
        ToolCallEvent::BodyLimit { within } => if within {
            ToolCallStep::Continue(ToolCallCheck::Validation)
        } else {
            ToolCallStep::Reject(BridgeRejection::RequestTooLarge)
        },
        ToolCallEvent::Validation { error } => match error {
            None => ToolCallStep::Continue(ToolCallCheck::Permit),
            Some(error) => ToolCallStep::Reject(BridgeRejection::Tool(error)),
        },
        ToolCallEvent::Permit { acquired } => if acquired {
            ToolCallStep::Continue(ToolCallCheck::Executor)
        } else {
            ToolCallStep::Reject(BridgeRejection::Busy)
        },
        ToolCallEvent::Executor { available } => if available {
            ToolCallStep::Continue(ToolCallCheck::Execution)
        } else {
            ToolCallStep::Reject(BridgeRejection::Unavailable)
        },
        ToolCallEvent::Execution { outcome } => match outcome {
            None => ToolCallStep::Reject(BridgeRejection::ToolTimeout),
            Some(Ok(())) => ToolCallStep::Succeed,
            Some(Err(error)) => ToolCallStep::Reject(BridgeRejection::Tool(error)),
        },
    }
}

/// What the bridge knows of its recorded server task when it reconciles, before a start and
/// before a status report.
#[derive(Debug, Clone, Copy, PartialEq, Eq, Structural)]
pub enum RuntimeObservation {
    /// No server task is recorded.
    Absent,
    /// The recorded task has finished.
    Finished,
    /// The recorded task still runs; `healthy` is whether its health endpoint answered with the
    /// bridge's schema.
    Running { healthy: bool },
}

/// What reconciliation does with the recorded server task.
#[derive(Debug, Clone, Copy, PartialEq, Eq, Structural)]
pub enum RuntimeReconciliation {
    /// Nothing is recorded, so nothing changes.
    NothingRecorded,
    /// The task runs and answers: it stays, and a start reports it as already running.
    Keep,
    /// The task has finished: its record is dropped.
    ForgetFinished,
    /// The task runs but does not answer: it is told to shut down, aborted and dropped.
    ShutDownUnresponsive,
}

impl RuntimeReconciliation {
    /// Whether a server task is still recorded after this reconciliation.
    pub open spec fn keeps_runtime(self) -> bool {
        self == RuntimeReconciliation::Keep
    }
}

/// Reconciles the recorded server task with what was observed of it: only a running task whose
/// health endpoint answers is kept.
pub fn reconcile_runtime(observation: RuntimeObservation) -> (action: RuntimeReconciliation)
    ensures
        action == match observation {
            RuntimeObservation::Absent => RuntimeReconciliation::NothingRecorded,
            RuntimeObservation::Finished => RuntimeReconciliation::ForgetFinished,
            RuntimeObservation::Running { healthy } => if healthy {
                RuntimeReconciliation::Keep
            } else {
                RuntimeReconciliation::ShutDownUnresponsive
            },
        },
        action.keeps_runtime() <==> observation == (RuntimeObservation::Running { healthy: true }),
{
    match observation {
        RuntimeObservation::Absent => RuntimeReconciliation::NothingRecorded,
        RuntimeObservation::Finished => RuntimeReconciliation::ForgetFinished,
        RuntimeObservation::Running { healthy } => if healthy {
            RuntimeReconciliation::Keep
        } else {
            RuntimeReconciliation::ShutDownUnresponsive
        },
    }
}

} // verus!
