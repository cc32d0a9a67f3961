//! The closed data model of the agent: snapshots, actions, proposals and codes.
use vstd::prelude::*;

verus! {

/// Version of the tool manifest schema.
pub const AGENT_MANIFEST_SCHEMA_VERSION: u16 = 1;

/// Version of the network snapshot schema.
pub const NETWORK_SNAPSHOT_SCHEMA_VERSION: u16 = 1;

#[derive(Debug, Clone, Copy, PartialEq, Eq, Structural)]
pub enum AgentToolRisk {
    ReadOnly,
}

#[derive(Debug, Clone, Copy, PartialEq, Eq, Hash, Structural)]
pub enum AgentToolName {
    SystemSnapshot,
    NetworkDiagnose,
    NetworkProbe,
    CoreStatus,
    ProxyStatus,
    TunStatus,
    ProfileSummary,
    ServiceStatus,
}

impl AgentToolName {
    /// The stable wire name of the tool.
    pub open spec fn code(self) -> Seq<char> {
        match self {
            AgentToolName::SystemSnapshot => "system.snapshot"@,
            AgentToolName::NetworkDiagnose => "network.diagnose"@,
            AgentToolName::NetworkProbe => "network.probe"@,
            AgentToolName::CoreStatus => "core.status"@,
            AgentToolName::ProxyStatus => "proxy.status"@,
            AgentToolName::TunStatus => "tun.status"@,
            AgentToolName::ProfileSummary => "profile.summary"@,
            AgentToolName::ServiceStatus => "service.status"@,
        }
    }

    pub fn as_str(self) -> (s: &'static str)
        ensures
            s@ == self.code(),
    {
        match self {
            AgentToolName::SystemSnapshot => "system.snapshot",
            AgentToolName::NetworkDiagnose => "network.diagnose",
            AgentToolName::NetworkProbe => "network.probe",
            AgentToolName::CoreStatus => "core.status",
            AgentToolName::ProxyStatus => "proxy.status",
            AgentToolName::TunStatus => "tun.status",
            AgentToolName::ProfileSummary => "profile.summary",
            AgentToolName::ServiceStatus => "service.status",
        }
    }
}

#[derive(Debug, Clone, PartialEq, Eq)]
pub struct AgentToolManifest {
    pub name: AgentToolName,
    pub version: u16,
    pub description: String,
    pub input_schema_version: u16,
    pub output_schema_version: u16,
    pub read_only: bool,
    pub risk: AgentToolRisk,
    pub requires_authentication: bool,
    pub timeout_ms: u32,
}

#[derive(Debug, Clone, PartialEq, Eq)]
pub struct AgentManifest {
    pub schema_version: u16,
    pub tools: Vec<AgentToolManifest>,
}

#[derive(Debug, Clone, PartialEq, Eq)]
pub struct AgentNetworkProbeRequest {
    pub url: String,
    pub expected_status: Option<u16>,
    pub timeout_ms: Option<u32>,
}

#[derive(Debug, Clone, Copy, PartialEq, Eq, Structural)]
pub struct AgentNetworkProbeResult {
    pub status: u16,
    pub expected_status: Option<u16>,
    pub matches_expected_status: Option<bool>,
    pub latency_ms: u64,
}

#[derive(Debug, Clone, PartialEq, Eq)]
pub struct AgentSystemSnapshot {
    pub schema_version: u16,
    pub captured_at: i64,
    pub app_version: String,
    pub os_family: AgentOsFamily,
    pub health: AgentHealth,
    pub core_state: AgentCoreState,
    pub run_type: AgentRunType,
    pub selected_core: AgentSelectedCore,
    pub privacy: AgentPrivacyBoundary,
}

#[derive(Debug, Clone, Copy, PartialEq, Eq, Structural)]
pub enum AgentOsFamily {
    Windows,
    Macos,
    Ios,
    Linux,
    Android,
    Freebsd,
    Dragonfly,
    Openbsd,
    Netbsd,
    Unknown,
}

impl AgentOsFamily {
    /// The family that a platform name (as Rust spells `target_os`) denotes.
    pub open spec fn spec_from_name(name: Seq<char>) -> AgentOsFamily {
        if name == "windows"@ {
            AgentOsFamily::Windows
        } else if name == "macos"@ {
            AgentOsFamily::Macos
        } else if name == "ios"@ {
            AgentOsFamily::Ios
        } else if name == "linux"@ {
            AgentOsFamily::Linux
        } else if name == "android"@ {
            AgentOsFamily::Android
        } else if name == "freebsd"@ {
            AgentOsFamily::Freebsd
        } else if name == "dragonfly"@ {
            AgentOsFamily::Dragonfly
        } else if name == "openbsd"@ {
            AgentOsFamily::Openbsd
        } else if name == "netbsd"@ {
            AgentOsFamily::Netbsd
        } else {
            AgentOsFamily::Unknown
        }
    }

    pub fn from_name(name: &str) -> (family: AgentOsFamily)
        ensures
            family == Self::spec_from_name(name@),
    {
        let chars = crate::text::chars_of(name);
        if crate::text::chars_equal(&chars, "windows") {
            AgentOsFamily::Windows
        } else if crate::text::chars_equal(&chars, "macos") {
            AgentOsFamily::Macos
        } else if crate::text::chars_equal(&chars, "ios") {
            AgentOsFamily::Ios
        } else if crate::text::chars_equal(&chars, "linux") {
            AgentOsFamily::Linux
        } else if crate::text::chars_equal(&chars, "android") {
            AgentOsFamily::Android
        } else if crate::text::chars_equal(&chars, "freebsd") {
            AgentOsFamily::Freebsd
        } else if crate::text::chars_equal(&chars, "dragonfly") {
            AgentOsFamily::Dragonfly
        } else if crate::text::chars_equal(&chars, "openbsd") {
            AgentOsFamily::Openbsd
        } else if crate::text::chars_equal(&chars, "netbsd") {
            AgentOsFamily::Netbsd
        } else {
            AgentOsFamily::Unknown
        }
    }
}

#[derive(Debug, Clone, Copy, PartialEq, Eq, Structural)]
pub enum AgentHealth {
    Healthy,
    Warning,
    Critical,
    Degraded,
}

#[derive(Debug, Clone, Copy, PartialEq, Eq, Structural)]
pub enum AgentCoreState {
    Running,
    Stopped,
    Unknown,
}

#[derive(Debug, Clone, Copy, PartialEq, Eq, Structural)]
pub enum AgentRunType {
    Normal,
    Service,
    Elevated,
    Unknown,
}

#[derive(Debug, Clone, Copy, PartialEq, Eq, Structural)]
pub enum AgentSelectedCore {
    Clash,
    ClashRs,
    Mihomo,
    ChimeraClient,
    MihomoAlpha,
    ClashRsAlpha,
}

#[derive(Debug, Clone, Copy, PartialEq, Eq, Structural)]
pub enum AgentServiceState {
    NotInstalled,
    Stopped,
    Running,
    Unknown,
}

#[derive(Debug, Clone, Copy, PartialEq, Eq, Structural)]
pub enum AgentHostScope {
    Loopback,
    NonLoopback,
    Unknown,
}

#[derive(Debug, Clone, Copy, PartialEq, Eq, Structural)]
pub enum AgentConnectorState {
    Disconnected,
    Connecting,
    Connected,
    Unknown,
}

#[derive(Debug, Clone, Copy, PartialEq, Eq, Structural)]
pub enum AgentAppliedState {
    Consistent,
    Stale,
    Unknown,
}

#[derive(Debug, Clone, Copy, PartialEq, Eq, Structural)]
pub enum AgentRoutingMode {
    Rule,
    Global,
    Direct,
}

impl AgentRoutingMode {
    /// The mode that a configuration value names, compared without regard to ASCII case.
    pub open spec fn spec_parse(value: Seq<char>) -> Option<AgentRoutingMode> {
        let lower = crate::text::ascii_lowercase(value);
        if lower == "rule"@ {
            Some(AgentRoutingMode::Rule)
        } else if lower == "global"@ {
            Some(AgentRoutingMode::Global)
        } else if lower == "direct"@ {
            Some(AgentRoutingMode::Direct)
        } else {
            None
        }
    }

    pub fn parse(value: &str) -> (mode: Option<AgentRoutingMode>)
        ensures
            mode == Self::spec_parse(value@),
    {
        let chars = crate::text::chars_of(value);
        let lower = crate::text::to_ascii_lowercase(&chars);
        if crate::text::chars_equal(&lower, "rule") {
            Some(AgentRoutingMode::Rule)
        } else if crate::text::chars_equal(&lower, "global") {
            Some(AgentRoutingMode::Global)
        } else if crate::text::chars_equal(&lower, "direct") {
            Some(AgentRoutingMode::Direct)
        } else {
            None
        }
    }
}

#[derive(Debug, Clone, Copy, PartialEq, Eq, Structural)]
pub struct AgentCoreSnapshot {
    pub state: AgentCoreState,
    pub run_type: AgentRunType,
    pub selected_core: AgentSelectedCore,
    pub state_changed_at: i64,
    pub runtime_config_present: bool,
    pub routing_mode: Option<AgentRoutingMode>,
    pub observed_routing_mode: Option<AgentRoutingMode>,
    pub applied_consistency: AgentAppliedState,
}

#[derive(Debug, Clone, Copy, PartialEq, Eq, Structural)]
pub struct AgentServiceSnapshot {
    pub desired_enabled: bool,
    pub state: AgentServiceState,
    pub ipc_connected: bool,
    pub runtime_compatible: Option<bool>,
}

#[derive(Debug, Clone, Copy, PartialEq, Eq, Structural)]
pub struct AgentSystemProxySnapshot {
    pub desired_enabled: bool,
    pub observed_enabled: Option<bool>,
    pub observed_host_scope: AgentHostScope,
    pub observed_port: Option<u16>,
    pub expected_mixed_port: u16,
    pub matches_expected_endpoint: Option<bool>,
}

#[derive(Debug, Clone, Copy, PartialEq, Eq, Structural)]
pub struct AgentTunSnapshot {
    pub desired_enabled: bool,
    pub generated_runtime_enabled: Option<bool>,
    pub observed_enabled: Option<bool>,
    pub applied_consistency: AgentAppliedState,
}

#[derive(Debug, Clone, Copy, PartialEq, Eq, Structural)]
pub struct AgentProfileSnapshot {
    pub total_count: u32,
    pub active_count: u32,
    pub remote_count: u32,
    pub local_count: u32,
    pub active_references_valid: bool,
}

#[derive(Debug, Clone, Copy, PartialEq, Eq, Structural)]
pub struct AgentTelemetrySnapshot {
    pub state: AgentConnectorState,
    pub active_connection_count: Option<u32>,
    pub upload_speed: Option<u64>,
    pub download_speed: Option<u64>,
    pub upload_total: Option<u64>,
    pub download_total: Option<u64>,
    pub recent_error_count: u32,
}

#[derive(Debug, Clone, Copy, PartialEq, Eq, Structural)]
pub enum AgentProbeCode {
    CoreStatusTimeout,
    CoreConfigUnavailable,
    SystemProxyUnavailable,
    ServiceStatusUnavailable,
    ServiceStatusTimeout,
    TelemetryUnavailable,
    TunStatusUnavailable,
    HostConnectivityUnavailable,
    PlatformReadinessUnavailable,
}

#[derive(Debug, Clone, Copy, PartialEq, Eq, Structural)]
pub struct AgentProbeFailure {
    pub code: AgentProbeCode,
}

#[derive(Debug, Clone, Copy, PartialEq, Eq, Structural)]
pub enum AgentFindingSeverity {
    Info,
    Warning,
    Critical,
}

#[derive(Debug, Clone, Copy, PartialEq, Eq, Structural)]
pub enum AgentFindingCode {
    WeakControllerSecret,
    SystemProxyWithoutRunningCore,
    SystemProxyEndpointMismatch,
    RuntimeConfigMissing,
    ActiveProfileMissing,
    ServiceModeInconsistent,
    ClashConnectorDisconnected,
    TunRuntimeMismatch,
    RecentCoreErrors,
    HostLinkDisconnected,
    HostAddressUnavailable,
    HostDefaultRouteUnavailable,
    HostDnsUnavailable,
    HostCaptivePortalSuspected,
    HostInternetUnreachable,
    HostIpv4Only,
    HostIpv6Only,
    TunPermissionRequired,
    TunSystemDnsUnverified,
}

#[derive(Debug, Clone, Copy, PartialEq, Eq, Structural)]
pub struct AgentFinding {
    pub code: AgentFindingCode,
    pub severity: AgentFindingSeverity,
}

#[derive(Debug, Clone, Copy, PartialEq, Eq, Structural)]
pub struct AgentPrivacyBoundary {
    pub contains_raw_logs: bool,
    pub contains_profile_names: bool,
    pub contains_profile_urls: bool,
    pub contains_connection_targets: bool,
    pub contains_controller_secret: bool,
}

impl AgentPrivacyBoundary {
    /// The boundary in which no sensitive content is present.
    pub open spec fn is_privacy_safe(self) -> bool {
        &&& !self.contains_raw_logs
        &&& !self.contains_profile_names
        &&& !self.contains_profile_urls
        &&& !self.contains_connection_targets
        &&& !self.contains_controller_secret
    }

    pub fn privacy_safe() -> (boundary: AgentPrivacyBoundary)
        ensures
            boundary.is_privacy_safe(),
    {
        AgentPrivacyBoundary {
            contains_raw_logs: false,
            contains_profile_names: false,
            contains_profile_urls: false,
            contains_connection_targets: false,
            contains_controller_secret: false,
        }
    }
}

#[derive(Debug, Clone, Copy, PartialEq, Eq, Structural)]
pub enum AgentHostConnectivityStatus {
    OnlineDualStack,
    OnlineIpv4Only,
    OnlineIpv6Only,
    LinkDisconnected,
    AddressUnavailable,
    DefaultRouteUnavailable,
    DnsUnavailable,
    CaptivePortalSuspected,
    InternetUnreachable,
    Indeterminate,
}

#[derive(Debug, Clone, Copy, PartialEq, Eq, Structural)]
pub enum AgentNetworkInterfaceKind {
    Wireless,
    Ethernet,
    Other,
    Multiple,
    NoInterface,
    Unknown,
}

#[derive(Debug, Clone, Copy, PartialEq, Eq, Structural)]
pub enum AgentHostConnectivityReason {
    ProbeUnavailable,
    NoActiveInterface,
    WirelessDisconnected,
    EthernetDisconnected,
    NoUsableIpv4Address,
    NoUsableIpv6Address,
    NoIpv4DefaultRoute,
    NoIpv6DefaultRoute,
    DnsNotConfigured,
    DnsResolutionFailed,
    Ipv4InternetUnreachable,
    Ipv6InternetUnreachable,
    CaptivePortalSuspected,
}

#[derive(Debug, Clone, Copy, PartialEq, Eq, Structural)]
pub struct AgentIpFamilyConnectivity {
    pub usable_ip: bool,
    pub default_route: bool,
    pub internet_reachable: Option<bool>,
}

#[derive(Debug, Clone, PartialEq, Eq)]
pub struct AgentHostConnectivitySnapshot {
    pub status: AgentHostConnectivityStatus,
    pub active_interface_kind: AgentNetworkInterfaceKind,
    pub link_up: Option<bool>,
    pub ipv4: AgentIpFamilyConnectivity,
    pub ipv6: AgentIpFamilyConnectivity,
    pub dns_configured: Option<bool>,
    pub dns_resolves: Option<bool>,
    pub captive_portal_suspected: Option<bool>,
    pub reasons: Vec<AgentHostConnectivityReason>,
}

#[derive(Debug, Clone, Copy, PartialEq, Eq, Structural)]
pub enum AgentProcessPrivilegeStatus {
    Standard,
    Elevated,
    Unknown,
}

#[derive(Debug, Clone, Copy, PartialEq, Eq, Structural)]
pub enum AgentTunPermissionReadiness {
    NotRequired,
    Satisfied,
    ServiceAlternativeAvailable,
    Required,
    Indeterminate,
}

#[derive(Debug, Clone, Copy, PartialEq, Eq, Structural)]
pub enum AgentTunVerificationStatus {
    NotRequested,
    Verified,
    Unavailable,
    Inconsistent,
}

#[derive(Debug, Clone, Copy, PartialEq, Eq, Structural)]
pub enum AgentSystemDnsVerificationStatus {
    NotRequired,
    Verified,
    NotConfigured,
    ResolutionFailed,
    Unavailable,
}

#[derive(Debug, Clone, Copy, PartialEq, Eq, Structural)]
pub enum AgentPlatformReadinessReason {
    ElevatedProcess,
    PrivilegeProbeUnavailable,
    ServiceModeActive,
    ServiceModeAvailable,
    PermissionRequired,
    TunStateUnavailable,
    TunStateInconsistent,
    SystemDnsNotConfigured,
    SystemDnsResolutionFailed,
    SystemDnsUnavailable,
}

#[derive(Debug, Clone, PartialEq, Eq)]
pub struct AgentPlatformReadinessSnapshot {
    pub process_privilege: AgentProcessPrivilegeStatus,
    pub service_mode_available: Option<bool>,
    pub tun_permission: AgentTunPermissionReadiness,
    pub tun_verification: AgentTunVerificationStatus,
    pub system_dns_verification: AgentSystemDnsVerificationStatus,
    pub reasons: Vec<AgentPlatformReadinessReason>,
}

#[derive(Debug, Clone, PartialEq, Eq)]
pub struct AgentNetworkSnapshot {
    pub schema_version: u16,
    pub revision: String,
    pub captured_at: i64,
    pub app_version: String,
    pub os_family: AgentOsFamily,
    pub health: AgentHealth,
    pub core: AgentCoreSnapshot,
    pub service: AgentServiceSnapshot,
    pub system_proxy: AgentSystemProxySnapshot,
    pub tun: AgentTunSnapshot,
    pub profiles: AgentProfileSnapshot,
    pub telemetry: AgentTelemetrySnapshot,
    pub connectivity: AgentHostConnectivitySnapshot,
    pub platform_readiness: AgentPlatformReadinessSnapshot,
    pub findings: Vec<AgentFinding>,
    pub probe_failures: Vec<AgentProbeFailure>,
    pub recommendations: Vec<AgentRecommendation>,
    pub privacy: AgentPrivacyBoundary,
}

#[derive(Debug, Clone, Copy, PartialEq, Eq, PartialOrd, Ord, Hash, Structural)]
pub enum AgentActionKind {
    SetRoutingMode,
    SetTunEnabled,
    SetSystemProxyEnabled,
    SetServiceMode,
    StartCore,
    RestartCore,
    ReconnectTelemetry,
    StartService,
    StopService,
    RestartService,
    RepairSystemProxyEndpoint,
    DisableStaleSystemProxy,
}

#[derive(Debug, Clone, Copy, PartialEq, Eq, Structural)]
pub enum AgentActionRequest {
    SetRoutingMode { mode: AgentRoutingMode },
    SetTunEnabled { enabled: bool },
    SetSystemProxyEnabled { enabled: bool },
    SetServiceMode { enabled: bool },
    StartCore,
    RestartCore,
    ReconnectTelemetry,
    StartService,
    StopService,
    RestartService,
    RepairSystemProxyEndpoint,
    DisableStaleSystemProxy,
}

impl AgentActionRequest {
    /// The kind of an action request: its variant without arguments.
    pub open spec fn spec_kind(self) -> AgentActionKind {
        match self {
            AgentActionRequest::SetRoutingMode { .. } => AgentActionKind::SetRoutingMode,
            AgentActionRequest::SetTunEnabled { .. } => AgentActionKind::SetTunEnabled,
            AgentActionRequest::SetSystemProxyEnabled { .. } => AgentActionKind::SetSystemProxyEnabled,
            AgentActionRequest::SetServiceMode { .. } => AgentActionKind::SetServiceMode,
            AgentActionRequest::StartCore => AgentActionKind::StartCore,
            AgentActionRequest::RestartCore => AgentActionKind::RestartCore,
            AgentActionRequest::ReconnectTelemetry => AgentActionKind::ReconnectTelemetry,
            AgentActionRequest::StartService => AgentActionKind::StartService,
            AgentActionRequest::StopService => AgentActionKind::StopService,
            AgentActionRequest::RestartService => AgentActionKind::RestartService,
            AgentActionRequest::RepairSystemProxyEndpoint => AgentActionKind::RepairSystemProxyEndpoint,
            AgentActionRequest::DisableStaleSystemProxy => AgentActionKind::DisableStaleSystemProxy,
        }
    }

    pub fn kind(&self) -> (kind: AgentActionKind)
        ensures
            kind == self.spec_kind(),
    {
        match self {
            AgentActionRequest::SetRoutingMode { .. } => AgentActionKind::SetRoutingMode,
            AgentActionRequest::SetTunEnabled { .. } => AgentActionKind::SetTunEnabled,
            AgentActionRequest::SetSystemProxyEnabled { .. } => AgentActionKind::SetSystemProxyEnabled,
            AgentActionRequest::SetServiceMode { .. } => AgentActionKind::SetServiceMode,
            AgentActionRequest::StartCore => AgentActionKind::StartCore,
            AgentActionRequest::RestartCore => AgentActionKind::RestartCore,
            AgentActionRequest::ReconnectTelemetry => AgentActionKind::ReconnectTelemetry,
            AgentActionRequest::StartService => AgentActionKind::StartService,
            AgentActionRequest::StopService => AgentActionKind::StopService,
            AgentActionRequest::RestartService => AgentActionKind::RestartService,
            AgentActionRequest::RepairSystemProxyEndpoint => AgentActionKind::RepairSystemProxyEndpoint,
            AgentActionRequest::DisableStaleSystemProxy => AgentActionKind::DisableStaleSystemProxy,
        }
    }
}

#[derive(Debug, Clone, PartialEq, Eq)]
pub struct AgentIntentRequest {
    pub text: String,
}

#[derive(Debug, Clone, Copy, PartialEq, Eq, Structural)]
pub enum AgentServiceOperation {
    Start,
    Stop,
    Restart,
}

#[derive(Debug, Clone, Copy, PartialEq, Eq, Structural)]
pub enum AgentIntent {
    Diagnose,
    SetTunEnabled { enabled: bool },
    SetSystemProxyEnabled { enabled: bool },
    SetServiceMode { enabled: bool },
    SetRoutingMode { mode: AgentRoutingMode },
    StartCore,
    RestartCore,
    ReconnectTelemetry,
    ControlService { operation: AgentServiceOperation },
    RepairSystemProxyEndpoint,
    DisableStaleSystemProxy,
}

#[derive(Debug, Clone, Copy, PartialEq, Eq, Structural)]
pub enum AgentClarificationCode {
    EnableTun,
    UseGlobalRouting,
    DiagnoseNetwork,
}

#[derive(Debug, Clone, Copy, PartialEq, Eq, Structural)]
pub struct AgentClarificationChoice {
    pub code: AgentClarificationCode,
    pub intent: AgentIntent,
}

#[derive(Debug, Clone, Copy, PartialEq, Eq, Structural)]
pub enum AgentUnsupportedIntentReason {
    EmptyInput,
    InputTooLong,
    NoMatchingIntent,
}

#[derive(Debug, Clone, PartialEq, Eq)]
pub enum AgentIntentResolution {
    Resolved { intent: AgentIntent },
    NeedsClarification { choices: Vec<AgentClarificationChoice> },
    Unsupported { reason: AgentUnsupportedIntentReason },
}

#[derive(Debug, Clone, Copy, PartialEq, Eq, Structural)]
pub enum AgentActionRisk {
    TrafficChange,
    HostNetworkChange,
    ServiceControl,
    TelemetryRecovery,
}

impl AgentActionRisk {
    /// The stable code of the risk.
    pub open spec fn code(self) -> Seq<char> {
        match self {
            AgentActionRisk::TrafficChange => "traffic_change"@,
            AgentActionRisk::HostNetworkChange => "host_network_change"@,
            AgentActionRisk::ServiceControl => "service_control"@,
            AgentActionRisk::TelemetryRecovery => "telemetry_recovery"@,
        }
    }

    pub fn as_str(self) -> (s: &'static str)
        ensures
            s@ == self.code(),
    {
        match self {
            AgentActionRisk::TrafficChange => "traffic_change",
            AgentActionRisk::HostNetworkChange => "host_network_change",
            AgentActionRisk::ServiceControl => "service_control",
            AgentActionRisk::TelemetryRecovery => "telemetry_recovery",
        }
    }
}

#[derive(Debug, Clone, Copy, PartialEq, Eq, Structural)]
pub enum AgentRecommendationUnavailableReason {
    CurrentStateNotSupported,
}

#[derive(Debug, Clone, PartialEq, Eq)]
pub struct AgentRecommendation {
    pub action: AgentActionRequest,
    pub available: bool,
    pub unavailable_reason: Option<AgentRecommendationUnavailableReason>,
    pub risk: Option<AgentActionRisk>,
    pub impacts: Vec<AgentImpact>,
}

#[derive(Debug, Clone, Copy, PartialEq, Eq, Structural)]
pub enum AgentImpact {
    ExistingConnectionsMayChange,
    CoreMayRestart,
    HostDnsMayChange,
    AdminPermissionMayBeRequired,
    TrafficMayBypassProxy,
    AllTrafficUsesProxy,
    RestoreRuleRouting,
    HostSystemProxyEnabled,
    HostSystemProxyDisabled,
    HostSystemProxyEndpointChanged,
    ServiceAvailabilityMayChange,
    TelemetryMayBeUnavailable,
}

impl AgentImpact {
    /// The stable code of the impact.
    pub open spec fn code(self) -> Seq<char> {
        match self {
            AgentImpact::ExistingConnectionsMayChange => "existing_connections_may_change"@,
            AgentImpact::CoreMayRestart => "core_may_restart"@,
            AgentImpact::HostDnsMayChange => "host_dns_may_change"@,
            AgentImpact::AdminPermissionMayBeRequired => "admin_permission_may_be_required"@,
            AgentImpact::TrafficMayBypassProxy => "traffic_may_bypass_proxy"@,
            AgentImpact::AllTrafficUsesProxy => "all_traffic_uses_proxy"@,
            AgentImpact::RestoreRuleRouting => "restore_rule_routing"@,
            AgentImpact::HostSystemProxyEnabled => "host_system_proxy_enabled"@,
            AgentImpact::HostSystemProxyDisabled => "host_system_proxy_disabled"@,
            AgentImpact::HostSystemProxyEndpointChanged => "host_system_proxy_endpoint_changed"@,
            AgentImpact::ServiceAvailabilityMayChange => "service_availability_may_change"@,
            AgentImpact::TelemetryMayBeUnavailable => "telemetry_may_be_unavailable"@,
        }
    }

    pub fn as_str(self) -> (s: &'static str)
        ensures
            s@ == self.code(),
    {
        match self {
            AgentImpact::ExistingConnectionsMayChange => "existing_connections_may_change",
            AgentImpact::CoreMayRestart => "core_may_restart",
            AgentImpact::HostDnsMayChange => "host_dns_may_change",
            AgentImpact::AdminPermissionMayBeRequired => "admin_permission_may_be_required",
            AgentImpact::TrafficMayBypassProxy => "traffic_may_bypass_proxy",
            AgentImpact::AllTrafficUsesProxy => "all_traffic_uses_proxy",
            AgentImpact::RestoreRuleRouting => "restore_rule_routing",
            AgentImpact::HostSystemProxyEnabled => "host_system_proxy_enabled",
            AgentImpact::HostSystemProxyDisabled => "host_system_proxy_disabled",
            AgentImpact::HostSystemProxyEndpointChanged => "host_system_proxy_endpoint_changed",
            AgentImpact::ServiceAvailabilityMayChange => "service_availability_may_change",
            AgentImpact::TelemetryMayBeUnavailable => "telemetry_may_be_unavailable",
        }
    }
}

#[derive(Debug, Clone, Copy, PartialEq, Eq, Structural)]
pub enum AgentStateField {
    RoutingMode,
    Tun,
    CoreProcess,
    TelemetryConnector,
    Service,
    ServiceMode,
    SystemProxyEndpoint,
    SystemProxy,
}

impl AgentStateField {
    /// The stable code of the field.
    pub open spec fn code(self) -> Seq<char> {
        match self {
            AgentStateField::RoutingMode => "routing_mode"@,
            AgentStateField::Tun => "tun"@,
            AgentStateField::CoreProcess => "core_process"@,
            AgentStateField::TelemetryConnector => "telemetry_connector"@,
            AgentStateField::Service => "service"@,
            AgentStateField::ServiceMode => "service_mode"@,
            AgentStateField::SystemProxyEndpoint => "system_proxy_endpoint"@,
            AgentStateField::SystemProxy => "system_proxy"@,
        }
    }

    pub fn as_str(self) -> (s: &'static str)
        ensures
            s@ == self.code(),
    {
        match self {
            AgentStateField::RoutingMode => "routing_mode",
            AgentStateField::Tun => "tun",
            AgentStateField::CoreProcess => "core_process",
            AgentStateField::TelemetryConnector => "telemetry_connector",
            AgentStateField::Service => "service",
            AgentStateField::ServiceMode => "service_mode",
            AgentStateField::SystemProxyEndpoint => "system_proxy_endpoint",
            AgentStateField::SystemProxy => "system_proxy",
        }
    }
}

#[derive(Debug, Clone, Copy, PartialEq, Eq, Structural)]
pub enum AgentStateValue {
    Rule,
    Global,
    Direct,
    Running,
    Stopped,
    Restarted,
    Connected,
    Disconnected,
    Unexpected,
    ExpectedLoopbackEndpoint,
    Enabled,
    Disabled,
}

impl AgentStateValue {
    /// The stable code of the value.
    pub open spec fn code(self) -> Seq<char> {
        match self {
            AgentStateValue::Rule => "rule"@,
            AgentStateValue::Global => "global"@,
            AgentStateValue::Direct => "direct"@,
            AgentStateValue::Running => "running"@,
            AgentStateValue::Stopped => "stopped"@,
            AgentStateValue::Restarted => "restarted"@,
            AgentStateValue::Connected => "connected"@,
            AgentStateValue::Disconnected => "disconnected"@,
            AgentStateValue::Unexpected => "unexpected"@,
            AgentStateValue::ExpectedLoopbackEndpoint => "expected_loopback_endpoint"@,
            AgentStateValue::Enabled => "enabled"@,
            AgentStateValue::Disabled => "disabled"@,
        }
    }

    pub fn as_str(self) -> (s: &'static str)
        ensures
            s@ == self.code(),
    {
        match self {
            AgentStateValue::Rule => "rule",
            AgentStateValue::Global => "global",
            AgentStateValue::Direct => "direct",
            AgentStateValue::Running => "running",
            AgentStateValue::Stopped => "stopped",
            AgentStateValue::Restarted => "restarted",
            AgentStateValue::Connected => "connected",
            AgentStateValue::Disconnected => "disconnected",
            AgentStateValue::Unexpected => "unexpected",
            AgentStateValue::ExpectedLoopbackEndpoint => "expected_loopback_endpoint",
            AgentStateValue::Enabled => "enabled",
            AgentStateValue::Disabled => "disabled",
        }
    }
}

#[derive(Debug, Clone, Copy, PartialEq, Eq, Structural)]
pub struct AgentStateChange {
    pub field: AgentStateField,
    pub before: AgentStateValue,
    pub after: AgentStateValue,
}

#[derive(Debug, Clone, PartialEq, Eq)]
pub struct AgentProposal {
    pub id: String,
    pub digest: String,
    pub action: AgentActionRequest,
    pub risk: AgentActionRisk,
    pub impacts: Vec<AgentImpact>,
    pub changes: Vec<AgentStateChange>,
    pub snapshot_revision: String,
    pub created_at: i64,
    pub expires_at: i64,
    pub requires_confirmation: bool,
}

#[derive(Debug, Clone, PartialEq, Eq)]
pub struct AgentActionResult {
    pub proposal_id: String,
    pub action: AgentActionKind,
    pub verified: bool,
    pub snapshot: AgentNetworkSnapshot,
}

} // verus!
