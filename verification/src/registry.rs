//! The closed registry of read-only agent tools: what each tool is, its manifest entry, its
//! time budget, and the errors and privacy rules of tool output.
use vstd::prelude::*;
use vstd::string::StringExecFns;

use core::time::Duration;

use crate::model::{
    AgentCoreSnapshot, AgentManifest, AgentNetworkSnapshot, AgentProfileSnapshot,
    AgentServiceSnapshot, AgentSystemProxySnapshot, AgentSystemSnapshot, AgentToolManifest,
    AgentToolName, AgentToolRisk, AgentTunSnapshot, AGENT_MANIFEST_SCHEMA_VERSION,
    NETWORK_SNAPSHOT_SCHEMA_VERSION,
};
use crate::text::{ascii_lowercase, chars_of, contains_chars, contains_seq, str_equal, to_ascii_lowercase};

verus! {

pub const AGENT_TOOL_VERSION: u16 = 1;

pub const AGENT_TOOL_INPUT_SCHEMA_VERSION: u16 = 1;

pub const NETWORK_PROBE_OUTPUT_SCHEMA_VERSION: u16 = 1;

pub const SNAPSHOT_TOOL_TIMEOUT_MS: u32 = 15_000;

pub const NETWORK_PROBE_TOOL_TIMEOUT_MS: u32 = 12_000;

#[derive(Debug, Clone, Copy, PartialEq, Eq, Structural)]
pub enum AgentToolErrorCode {
    InvalidRequest,
    InvalidTarget,
    TargetBlocked,
    TimedOut,
    ResolutionFailed,
    UnknownTool,
    ExecutionFailed,
}

impl AgentToolErrorCode {
    /// The stable wire code of the error.
    pub open spec fn code(self) -> Seq<char> {
        match self {
            AgentToolErrorCode::InvalidRequest => "invalid_request"@,
            AgentToolErrorCode::InvalidTarget => "invalid_target"@,
            AgentToolErrorCode::TargetBlocked => "target_blocked"@,
            AgentToolErrorCode::TimedOut => "timed_out"@,
            AgentToolErrorCode::ResolutionFailed => "resolution_failed"@,
            AgentToolErrorCode::UnknownTool => "unknown_tool"@,
            AgentToolErrorCode::ExecutionFailed => "execution_failed"@,
        }
    }

    pub fn as_str(self) -> (s: &'static str)
        ensures
            s@ == self.code(),
    {
        match self {
            AgentToolErrorCode::InvalidRequest => "invalid_request",
            AgentToolErrorCode::InvalidTarget => "invalid_target",
            AgentToolErrorCode::TargetBlocked => "target_blocked",
            AgentToolErrorCode::TimedOut => "timed_out",
            AgentToolErrorCode::ResolutionFailed => "resolution_failed",
            AgentToolErrorCode::UnknownTool => "unknown_tool",
            AgentToolErrorCode::ExecutionFailed => "execution_failed",
        }
    }
}

/// A tool error: a closed code and a fixed message, never text from the request or the host.
#[derive(Debug, Clone, Copy)]
pub struct AgentToolError {
    pub code: AgentToolErrorCode,
    pub message: &'static str,
}

impl AgentToolError {
    pub fn new(code: AgentToolErrorCode, message: &'static str) -> (error: AgentToolError)
        ensures
            error.code == code,
            error.message == message,
    {
        AgentToolError { code, message }
    }
}

/// The error for a tool name that is not registered.
pub fn unknown_tool() -> (error: AgentToolError)
    ensures
        error.code == AgentToolErrorCode::UnknownTool,
        error.message@ == "agent tool is not registered"@,
{
    AgentToolError::new(AgentToolErrorCode::UnknownTool, "agent tool is not registered")
}

#[derive(Debug, Clone, Copy, PartialEq, Eq, Structural)]
pub enum AgentToolKind {
    SystemSnapshot,
    NetworkDiagnose,
    NetworkProbe,
    CoreStatus,
    ProxyStatus,
    TunStatus,
    ProfileSummary,
    ServiceStatus,
}

/// What a tool request carries: nothing, or the arguments of a network probe.
#[derive(Debug, Clone, Copy, PartialEq, Eq, Structural)]
pub enum AgentToolInput {
    Empty,
    NetworkProbe,
}

/// The registered tools, in manifest order.
pub open spec fn tool_kinds() -> Seq<AgentToolKind> {
    seq![
        AgentToolKind::SystemSnapshot,
        AgentToolKind::NetworkDiagnose,
        AgentToolKind::NetworkProbe,
        AgentToolKind::CoreStatus,
        AgentToolKind::ProxyStatus,
        AgentToolKind::TunStatus,
        AgentToolKind::ProfileSummary,
        AgentToolKind::ServiceStatus,
    ]
}

impl AgentToolKind {
    pub open spec fn tool_name(self) -> AgentToolName {
        match self {
            AgentToolKind::SystemSnapshot => AgentToolName::SystemSnapshot,
            AgentToolKind::NetworkDiagnose => AgentToolName::NetworkDiagnose,
            AgentToolKind::NetworkProbe => AgentToolName::NetworkProbe,
            AgentToolKind::CoreStatus => AgentToolName::CoreStatus,
            AgentToolKind::ProxyStatus => AgentToolName::ProxyStatus,
            AgentToolKind::TunStatus => AgentToolName::TunStatus,
            AgentToolKind::ProfileSummary => AgentToolName::ProfileSummary,
            AgentToolKind::ServiceStatus => AgentToolName::ServiceStatus,
        }
    }

    pub open spec fn description(self) -> Seq<char> {
        match self {
            AgentToolKind::SystemSnapshot => "Collect a privacy-safe application and system summary"@,
            AgentToolKind::NetworkDiagnose => "Collect a privacy-safe network diagnostic snapshot"@,
            AgentToolKind::NetworkProbe => "Probe one public HTTP or HTTPS endpoint without following redirects"@,
            AgentToolKind::CoreStatus => "Collect the current core process, runtime, and routing summary"@,
            AgentToolKind::ProxyStatus => "Collect the desired and observed host system proxy summary"@,
            AgentToolKind::TunStatus => "Collect the desired, generated, and observed TUN summary"@,
            AgentToolKind::ProfileSummary => "Collect privacy-safe profile counts and reference validity"@,
            AgentToolKind::ServiceStatus => "Collect the desired and observed background service summary"@,
        }
    }

    /// The network probe has its own output schema and a shorter budget; every other tool
    /// reads the snapshot.
    pub open spec fn output_schema_version(self) -> u16 {
        if self == AgentToolKind::NetworkProbe {
            NETWORK_PROBE_OUTPUT_SCHEMA_VERSION
        } else {
            NETWORK_SNAPSHOT_SCHEMA_VERSION
        }
    }

    pub open spec fn timeout_ms(self) -> u32 {
        if self == AgentToolKind::NetworkProbe {
            NETWORK_PROBE_TOOL_TIMEOUT_MS
        } else {
            SNAPSHOT_TOOL_TIMEOUT_MS
        }
    }

    pub open spec fn input(self) -> AgentToolInput {
        if self == AgentToolKind::NetworkProbe {
            AgentToolInput::NetworkProbe
        } else {
            AgentToolInput::Empty
        }
    }

    /// The top-level fields that the tool's output may have.
    pub open spec fn output_fields(self) -> Seq<&'static str> {
        match self {
            AgentToolKind::SystemSnapshot => seq![
                "schema_version",
                "captured_at",
                "app_version",
                "os_family",
                "health",
                "core_state",
                "run_type",
                "selected_core",
                "privacy",
            ],
            AgentToolKind::NetworkDiagnose => seq![
                "schema_version",
                "revision",
                "captured_at",
                "app_version",
                "os_family",
                "health",
                "core",
                "service",
                "system_proxy",
                "tun",
                "profiles",
                "telemetry",
                "findings",
                "probe_failures",
                "privacy",
            ],
            AgentToolKind::NetworkProbe => seq![
                "status",
                "expected_status",
                "matches_expected_status",
                "latency_ms",
            ],
            AgentToolKind::CoreStatus => seq![
                "state",
                "run_type",
                "selected_core",
                "state_changed_at",
                "runtime_config_present",
                "routing_mode",
                "observed_routing_mode",
                "applied_consistency",
            ],
            AgentToolKind::ProxyStatus => seq![
                "desired_enabled",
                "observed_enabled",
                "observed_host_scope",
                "observed_port",
                "expected_mixed_port",
                "matches_expected_endpoint",
            ],
            AgentToolKind::TunStatus => seq![
                "desired_enabled",
                "generated_runtime_enabled",
                "observed_active",
                "applied_consistency",
            ],
            AgentToolKind::ProfileSummary => seq![
                "total_count",
                "active_count",
                "remote_count",
                "local_count",
                "active_references_valid",
            ],
            AgentToolKind::ServiceStatus => seq![
                "desired_enabled",
                "state",
                "ipc_connected",
                "runtime_compatible",
            ],
        }
    }
}

/// A registered tool.
#[derive(Debug, Clone, Copy)]
pub struct AgentToolDefinition {
    pub kind: AgentToolKind,
    pub name: AgentToolName,
    pub description: &'static str,
    pub output_schema_version: u16,
    pub timeout_ms: u32,
    pub input: AgentToolInput,
    pub output_fields: &'static [&'static str],
}

/// Whether a definition is the registry's definition of `kind`.
pub open spec fn defines(definition: AgentToolDefinition, kind: AgentToolKind) -> bool {
    &&& definition.kind == kind
    &&& definition.name == kind.tool_name()
    &&& definition.description@ == kind.description()
    &&& definition.output_schema_version == kind.output_schema_version()
    &&& definition.timeout_ms == kind.timeout_ms()
    &&& definition.input == kind.input()
    &&& definition.output_fields@ == kind.output_fields()
}

/// The definition of one tool.
pub fn tool_of_kind(kind: AgentToolKind) -> (definition: AgentToolDefinition)
    ensures
        defines(definition, kind),
{
    match kind {
        AgentToolKind::SystemSnapshot => {
            let fields: &'static [&'static str] = &[
                "schema_version",
                "captured_at",
                "app_version",
                "os_family",
                "health",
                "core_state",
                "run_type",
                "selected_core",
                "privacy",
            ];
            assert(fields@ =~= kind.output_fields());
            AgentToolDefinition {
                kind,
                name: AgentToolName::SystemSnapshot,
                description: "Collect a privacy-safe application and system summary",
                output_schema_version: NETWORK_SNAPSHOT_SCHEMA_VERSION,
                timeout_ms: SNAPSHOT_TOOL_TIMEOUT_MS,
                input: AgentToolInput::Empty,
                output_fields: fields,
            }
        },
        AgentToolKind::NetworkDiagnose => {
            let fields: &'static [&'static str] = &[
                "schema_version",
                "revision",
                "captured_at",
                "app_version",
                "os_family",
                "health",
                "core",
                "service",
                "system_proxy",
                "tun",
                "profiles",
                "telemetry",
                "findings",
                "probe_failures",
                "privacy",
            ];
            assert(fields@ =~= kind.output_fields());
            AgentToolDefinition {
                kind,
                name: AgentToolName::NetworkDiagnose,
                description: "Collect a privacy-safe network diagnostic snapshot",
                output_schema_version: NETWORK_SNAPSHOT_SCHEMA_VERSION,
                timeout_ms: SNAPSHOT_TOOL_TIMEOUT_MS,
                input: AgentToolInput::Empty,
                output_fields: fields,
            }
        },
        AgentToolKind::NetworkProbe => {
            let fields: &'static [&'static str] = &[
                "status",
                "expected_status",
                "matches_expected_status",
                "latency_ms",
            ];
            assert(fields@ =~= kind.output_fields());
            AgentToolDefinition {
                kind,
                name: AgentToolName::NetworkProbe,
                description: "Probe one public HTTP or HTTPS endpoint without following redirects",
                output_schema_version: NETWORK_PROBE_OUTPUT_SCHEMA_VERSION,
                timeout_ms: NETWORK_PROBE_TOOL_TIMEOUT_MS,
                input: AgentToolInput::NetworkProbe,
                output_fields: fields,
            }
        },
        AgentToolKind::CoreStatus => {
            let fields: &'static [&'static str] = &[
                "state",
                "run_type",
                "selected_core",
                "state_changed_at",
                "runtime_config_present",
                "routing_mode",
                "observed_routing_mode",
                "applied_consistency",
            ];
            assert(fields@ =~= kind.output_fields());
            AgentToolDefinition {
                kind,
                name: AgentToolName::CoreStatus,
                description: "Collect the current core process, runtime, and routing summary",
                output_schema_version: NETWORK_SNAPSHOT_SCHEMA_VERSION,
                timeout_ms: SNAPSHOT_TOOL_TIMEOUT_MS,
                input: AgentToolInput::Empty,
                output_fields: fields,
            }
        },
        AgentToolKind::ProxyStatus => {
            let fields: &'static [&'static str] = &[
                "desired_enabled",
                "observed_enabled",
                "observed_host_scope",
                "observed_port",
                "expected_mixed_port",
                "matches_expected_endpoint",
            ];
            assert(fields@ =~= kind.output_fields());
            AgentToolDefinition {
                kind,
                name: AgentToolName::ProxyStatus,
                description: "Collect the desired and observed host system proxy summary",
                output_schema_version: NETWORK_SNAPSHOT_SCHEMA_VERSION,
                timeout_ms: SNAPSHOT_TOOL_TIMEOUT_MS,
                input: AgentToolInput::Empty,
                output_fields: fields,
            }
        },
        AgentToolKind::TunStatus => {
            let fields: &'static [&'static str] = &[
                "desired_enabled",
                "generated_runtime_enabled",
                "observed_active",
                "applied_consistency",
            ];
            assert(fields@ =~= kind.output_fields());
            AgentToolDefinition {
                kind,
                name: AgentToolName::TunStatus,
                description: "Collect the desired, generated, and observed TUN summary",
                output_schema_version: NETWORK_SNAPSHOT_SCHEMA_VERSION,
                timeout_ms: SNAPSHOT_TOOL_TIMEOUT_MS,
                input: AgentToolInput::Empty,
                output_fields: fields,
            }
        },
        AgentToolKind::ProfileSummary => {
            let fields: &'static [&'static str] = &[
                "total_count",
                "active_count",
                "remote_count",
                "local_count",
                "active_references_valid",
            ];
            assert(fields@ =~= kind.output_fields());
            AgentToolDefinition {
                kind,
                name: AgentToolName::ProfileSummary,
                description: "Collect privacy-safe profile counts and reference validity",
                output_schema_version: NETWORK_SNAPSHOT_SCHEMA_VERSION,
                timeout_ms: SNAPSHOT_TOOL_TIMEOUT_MS,
                input: AgentToolInput::Empty,
                output_fields: fields,
            }
        },
        AgentToolKind::ServiceStatus => {
            let fields: &'static [&'static str] = &[
                "desired_enabled",
                "state",
                "ipc_connected",
                "runtime_compatible",
            ];
            assert(fields@ =~= kind.output_fields());
            AgentToolDefinition {
                kind,
                name: AgentToolName::ServiceStatus,
                description: "Collect the desired and observed background service summary",
                output_schema_version: NETWORK_SNAPSHOT_SCHEMA_VERSION,
                timeout_ms: SNAPSHOT_TOOL_TIMEOUT_MS,
                input: AgentToolInput::Empty,
                output_fields: fields,
            }
        },
    }
}

/// The registered tools, in manifest order.
pub fn agent_tools() -> (tools: Vec<AgentToolDefinition>)
    ensures
        tools@.len() == tool_kinds().len(),
        forall|i: int| 0 <= i < tools@.len() ==> defines(#[trigger] tools@[i], tool_kinds()[i]),
{
    let kinds: [AgentToolKind; 8] = [
        AgentToolKind::SystemSnapshot,
        AgentToolKind::NetworkDiagnose,
        AgentToolKind::NetworkProbe,
        AgentToolKind::CoreStatus,
        AgentToolKind::ProxyStatus,
        AgentToolKind::TunStatus,
        AgentToolKind::ProfileSummary,
        AgentToolKind::ServiceStatus,
    ];
    assert(kinds@ =~= tool_kinds());
    let mut tools: Vec<AgentToolDefinition> = Vec::new();
    let mut i: usize = 0;
    while i < 8
        invariant
            i <= 8,
            kinds@ == tool_kinds(),
            tools@.len() == i,
            forall|j: int| 0 <= j < i ==> defines(#[trigger] tools@[j], tool_kinds()[j]),
        decreases 8 - i,
    {
        tools.push(tool_of_kind(kinds[i]));
        i = i + 1;
    }
    tools
}

/// The manifest entry that describes a tool to clients.
pub open spec fn manifest_entry_of(entry: AgentToolManifest, kind: AgentToolKind) -> bool {
    &&& entry.name == kind.tool_name()
    &&& entry.version == AGENT_TOOL_VERSION
    &&& entry.description@ == kind.description()
    &&& entry.input_schema_version == AGENT_TOOL_INPUT_SCHEMA_VERSION
    &&& entry.output_schema_version == kind.output_schema_version()
    &&& entry.read_only
    &&& entry.risk == AgentToolRisk::ReadOnly
    &&& entry.requires_authentication
    &&& entry.timeout_ms == kind.timeout_ms()
}

impl AgentToolDefinition {
    /// The manifest entry of the tool: every tool is read-only and needs authentication.
    pub fn manifest(self) -> (entry: AgentToolManifest)
        requires
            defines(self, self.kind),
        ensures
            manifest_entry_of(entry, self.kind),
    {
        AgentToolManifest {
            name: self.name,
            version: AGENT_TOOL_VERSION,
            description: String::from_str(self.description),
            input_schema_version: AGENT_TOOL_INPUT_SCHEMA_VERSION,
            output_schema_version: self.output_schema_version,
            read_only: true,
            risk: AgentToolRisk::ReadOnly,
            requires_authentication: true,
            timeout_ms: self.timeout_ms,
        }
    }
}

/// The manifest: its schema version and one entry per registered tool, in order.
pub fn agent_manifest() -> (manifest: AgentManifest)
    ensures
        manifest.schema_version == AGENT_MANIFEST_SCHEMA_VERSION,
        manifest.tools@.len() == tool_kinds().len(),
        forall|i: int|
            0 <= i < manifest.tools@.len() ==> manifest_entry_of(
                #[trigger] manifest.tools@[i],
                tool_kinds()[i],
            ),
{
    let tools = agent_tools();
    let mut entries: Vec<AgentToolManifest> = Vec::new();
    let mut i: usize = 0;
    while i < tools.len()
        invariant
            i <= tools@.len(),
            tools@.len() == tool_kinds().len(),
            forall|j: int| 0 <= j < tools@.len() ==> defines(#[trigger] tools@[j], tool_kinds()[j]),
            entries@.len() == i,
            forall|j: int| 0 <= j < i ==> manifest_entry_of(#[trigger] entries@[j], tool_kinds()[j]),
        decreases tools@.len() - i,
    {
        let definition = tools[i];
        assert(defines(tools@[i as int], tool_kinds()[i as int]));
        entries.push(definition.manifest());
        i = i + 1;
    }
    AgentManifest { schema_version: AGENT_MANIFEST_SCHEMA_VERSION, tools: entries }
}

/// The tool registered under `name`, if any.
pub open spec fn registered_kind(name: Seq<char>) -> Option<AgentToolKind> {
    if exists|k: AgentToolKind| k.tool_name().code() == name {
        Some(choose|k: AgentToolKind| k.tool_name().code() == name)
    } else {
        None
    }
}

proof fn lemma_tool_names_distinct(a: AgentToolKind, b: AgentToolKind)
    ensures
        a.tool_name().code() == b.tool_name().code() ==> a == b,
{
    reveal_strlit("system.snapshot");
    reveal_strlit("network.diagnose");
    reveal_strlit("network.probe");
    reveal_strlit("core.status");
    reveal_strlit("proxy.status");
    reveal_strlit("tun.status");
    reveal_strlit("profile.summary");
    reveal_strlit("service.status");
    if a.tool_name().code() == b.tool_name().code() {
        assert(a.tool_name().code().len() == b.tool_name().code().len());
        assert(a.tool_name().code()[0] == b.tool_name().code()[0]);
    }
}

proof fn lemma_every_kind_is_registered(k: AgentToolKind)
    ensures
        tool_kinds().contains(k),
{
    let i: int = match k {
        AgentToolKind::SystemSnapshot => 0,
        AgentToolKind::NetworkDiagnose => 1,
        AgentToolKind::NetworkProbe => 2,
        AgentToolKind::CoreStatus => 3,
        AgentToolKind::ProxyStatus => 4,
        AgentToolKind::TunStatus => 5,
        AgentToolKind::ProfileSummary => 6,
        AgentToolKind::ServiceStatus => 7,
    };
    assert(tool_kinds()[i] == k);
}

/// Looks up a tool by its wire name.
pub fn tool_definition(name: &str) -> (result: Result<AgentToolDefinition, AgentToolError>)
    ensures
        match result {
            Ok(definition) => registered_kind(name@) == Some(definition.kind) && defines(
                definition,
                definition.kind,
            ),
            Err(error) => registered_kind(name@) is None && error.code
                == AgentToolErrorCode::UnknownTool,
        },
{
    let tools = agent_tools();
    let mut i: usize = 0;
    while i < tools.len()
        invariant
            i <= tools@.len(),
            tools@.len() == tool_kinds().len(),
            forall|j: int| 0 <= j < tools@.len() ==> defines(#[trigger] tools@[j], tool_kinds()[j]),
            forall|j: int| 0 <= j < i ==> (#[trigger] tool_kinds()[j]).tool_name().code() != name@,
        decreases tools@.len() - i,
    {
        let definition = tools[i];
        assert(defines(tools@[i as int], tool_kinds()[i as int]));
        if str_equal(definition.name.as_str(), name) {
            proof {
                let k = definition.kind;
                assert(k.tool_name().code() == name@);
                let c = choose|c: AgentToolKind| c.tool_name().code() == name@;
                lemma_tool_names_distinct(k, c);
            }
            return Ok(definition);
        }
        i = i + 1;
    }
    proof {
        assert forall|k: AgentToolKind| k.tool_name().code() != name@ by {
            lemma_every_kind_is_registered(k);
            let j = choose|j: int| 0 <= j < tool_kinds().len() && tool_kinds()[j] == k;
            assert(tool_kinds()[j].tool_name().code() != name@);
        }
    }
    Err(unknown_tool())
}

/// The duration of a number of milliseconds, as `Duration::from_millis` makes it.
pub uninterp spec fn millis_duration(millis: u64) -> Duration;

/// Calls `Duration::from_millis`; the value is named, not described.
#[verifier::external_body]
pub(crate) fn duration_from_millis(millis: u64) -> (duration: Duration)
    ensures
        duration == millis_duration(millis),
{
    Duration::from_millis(millis)
}

/// The time budget of the tool registered under `name`, if any.
pub fn tool_timeout(name: &str) -> (timeout: Option<Duration>)
    ensures
        match registered_kind(name@) {
            Some(kind) => timeout == Some(millis_duration(kind.timeout_ms() as u64)),
            None => timeout is None,
        },
{
    match tool_definition(name) {
        Ok(definition) => Some(duration_from_millis(definition.timeout_ms as u64)),
        Err(_) => None,
    }
}

/// The keys under which output asserts what it does not contain.
pub open spec fn privacy_assertion_keys() -> Seq<&'static str> {
    seq![
        "contains_raw_logs",
        "contains_profile_names",
        "contains_profile_urls",
        "contains_connection_targets",
        "contains_controller_secret",
    ]
}

pub fn is_privacy_assertion_key(name: &str) -> (assertion: bool)
    ensures
        assertion == exists|i: int|
            0 <= i < privacy_assertion_keys().len() && name@ == (#[trigger] privacy_assertion_keys()[i])@,
{
    let keys: [&str; 5] = [
        "contains_raw_logs",
        "contains_profile_names",
        "contains_profile_urls",
        "contains_connection_targets",
        "contains_controller_secret",
    ];
    assert(keys@ =~= privacy_assertion_keys());
    let mut i: usize = 0;
    while i < 5
        invariant
            i <= 5,
            keys@ == privacy_assertion_keys(),
            forall|j: int| 0 <= j < i ==> name@ != (#[trigger] privacy_assertion_keys()[j])@,
        decreases 5 - i,
    {
        if str_equal(name, keys[i]) {
            return true;
        }
        i = i + 1;
    }
    false
}

/// Words that mark an output key as one that may carry private data.
pub open spec fn sensitive_words() -> Seq<&'static str> {
    seq!["token", "secret", "url", "host", "address", "target", "log", "bypass"]
}

/// Whether the ASCII-lowercased key contains one of the sensitive words.
pub open spec fn is_sensitive_key(name: Seq<char>) -> bool {
    exists|i: int|
        0 <= i < sensitive_words().len() && contains_seq(
            ascii_lowercase(name),
            (#[trigger] sensitive_words()[i])@,
        )
}

pub fn is_sensitive_output_key(name: &str) -> (sensitive: bool)
    ensures
        sensitive == is_sensitive_key(name@),
{
    let lower = to_ascii_lowercase(&chars_of(name));
    let words: [&str; 8] = ["token", "secret", "url", "host", "address", "target", "log", "bypass"];
    assert(words@ =~= sensitive_words());
    let mut i: usize = 0;
    while i < 8
        invariant
            i <= 8,
            words@ == sensitive_words(),
            lower@ == ascii_lowercase(name@),
            forall|j: int|
                0 <= j < i ==> !contains_seq(ascii_lowercase(name@), (#[trigger] sensitive_words()[j])@),
        decreases 8 - i,
    {
        if contains_chars(&lower, &chars_of(words[i])) {
            return true;
        }
        i = i + 1;
    }
    false
}

/// The error for output that breaks the privacy contract.
pub fn privacy_contract_error() -> (error: AgentToolError)
    ensures
        error.code == AgentToolErrorCode::ExecutionFailed,
        error.message@ == "agent tool output violates the privacy contract"@,
{
    AgentToolError::new(
        AgentToolErrorCode::ExecutionFailed,
        "agent tool output violates the privacy contract",
    )
}

/// The registry agrees with its manifest: each registered tool is found under its wire name,
/// with that tool's own budget.
pub proof fn lemma_every_registered_tool_is_found(i: int)
    requires
        0 <= i < tool_kinds().len(),
    ensures
        registered_kind(tool_kinds()[i].tool_name().code()) == Some(tool_kinds()[i]),
{
    let k = tool_kinds()[i];
    assert(k.tool_name().code() == k.tool_name().code());
    let c = choose|c: AgentToolKind| c.tool_name().code() == k.tool_name().code();
    lemma_tool_names_distinct(k, c);
}

/// What a snapshot tool answers with.
#[derive(Debug, Clone, PartialEq, Eq)]
pub enum AgentToolOutput {
    SystemSnapshot(AgentSystemSnapshot),
    NetworkDiagnose(AgentNetworkSnapshot),
    CoreStatus(AgentCoreSnapshot),
    ProxyStatus(AgentSystemProxySnapshot),
    TunStatus(AgentTunSnapshot),
    ProfileSummary(AgentProfileSnapshot),
    ServiceStatus(AgentServiceSnapshot),
}

/// The system summary of a snapshot: its identity, health, core process and privacy boundary.
pub open spec fn system_summary(snapshot: AgentNetworkSnapshot) -> AgentSystemSnapshot {
    AgentSystemSnapshot {
        schema_version: snapshot.schema_version,
        captured_at: snapshot.captured_at,
        app_version: snapshot.app_version,
        os_family: snapshot.os_family,
        health: snapshot.health,
        core_state: snapshot.core.state,
        run_type: snapshot.core.run_type,
        selected_core: snapshot.core.selected_core,
        privacy: snapshot.privacy,
    }
}

/// What a snapshot tool answers from a fresh snapshot: the whole snapshot for the diagnosis,
/// the system summary, or the matching section; the network probe answers from its own probe.
pub open spec fn tool_output_of(kind: AgentToolKind, snapshot: AgentNetworkSnapshot) -> Option<AgentToolOutput> {
    match kind {
        AgentToolKind::SystemSnapshot => Some(AgentToolOutput::SystemSnapshot(system_summary(snapshot))),
        AgentToolKind::NetworkDiagnose => Some(AgentToolOutput::NetworkDiagnose(snapshot)),
        AgentToolKind::NetworkProbe => None,
        AgentToolKind::CoreStatus => Some(AgentToolOutput::CoreStatus(snapshot.core)),
        AgentToolKind::ProxyStatus => Some(AgentToolOutput::ProxyStatus(snapshot.system_proxy)),
        AgentToolKind::TunStatus => Some(AgentToolOutput::TunStatus(snapshot.tun)),
        AgentToolKind::ProfileSummary => Some(AgentToolOutput::ProfileSummary(snapshot.profiles)),
        AgentToolKind::ServiceStatus => Some(AgentToolOutput::ServiceStatus(snapshot.service)),
    }
}

/// Projects a fresh snapshot onto the output of a snapshot tool.
pub fn project_tool_output(kind: AgentToolKind, snapshot: AgentNetworkSnapshot) -> (output: Option<AgentToolOutput>)
    ensures
        output == tool_output_of(kind, snapshot),
{
    match kind {
        AgentToolKind::SystemSnapshot => Some(
            AgentToolOutput::SystemSnapshot(
                AgentSystemSnapshot {
                    schema_version: snapshot.schema_version,
                    captured_at: snapshot.captured_at,
                    app_version: snapshot.app_version,
                    os_family: snapshot.os_family,
                    health: snapshot.health,
                    core_state: snapshot.core.state,
                    run_type: snapshot.core.run_type,
                    selected_core: snapshot.core.selected_core,
                    privacy: snapshot.privacy,
                },
            ),
        ),
        AgentToolKind::NetworkDiagnose => Some(AgentToolOutput::NetworkDiagnose(snapshot)),
        AgentToolKind::NetworkProbe => None,
        AgentToolKind::CoreStatus => Some(AgentToolOutput::CoreStatus(snapshot.core)),
        AgentToolKind::ProxyStatus => Some(AgentToolOutput::ProxyStatus(snapshot.system_proxy)),
        AgentToolKind::TunStatus => Some(AgentToolOutput::TunStatus(snapshot.tun)),
        AgentToolKind::ProfileSummary => Some(AgentToolOutput::ProfileSummary(snapshot.profiles)),
        AgentToolKind::ServiceStatus => Some(AgentToolOutput::ServiceStatus(snapshot.service)),
    }
}

} // verus!
