//! Planning, precondition revalidation and verification of network actions.
//!
//! A plan is computed from one snapshot. It carries the preconditions that must
//! still hold of a fresh snapshot immediately before the action runs, and the
//! action counts as applied only when a later snapshot verifies it.
use vstd::prelude::*;

use crate::error::AgentCommandError;
use crate::model::{
    AgentActionRequest, AgentActionRisk, AgentAppliedState, AgentConnectorState, AgentCoreState,
    AgentHostScope, AgentImpact, AgentNetworkSnapshot, AgentOsFamily, AgentRecommendation,
    AgentRecommendationUnavailableReason, AgentRoutingMode, AgentRunType, AgentSelectedCore,
    AgentServiceState, AgentStateChange, AgentStateField, AgentStateValue,
};

verus! {

/// What a plan records of the snapshot it was made from, to be checked again
/// against a fresh snapshot before the action runs.
#[derive(Debug, Clone, Copy, PartialEq, Eq, Structural)]
pub enum ActionPreconditions {
    SetRoutingMode { before: AgentRoutingMode, core_state_changed_at: i64 },
    SetTunEnabled {
        desired_before: bool,
        generated_before: Option<bool>,
        core_state: AgentCoreState,
        core_run_type: AgentRunType,
        core_state_changed_at: i64,
        selected_core: AgentSelectedCore,
        service_desired_enabled: bool,
        service_state: AgentServiceState,
        service_ipc_connected: bool,
    },
    SetSystemProxyEnabled {
        desired_before: bool,
        observed_before: bool,
        expected_port: u16,
        core_state: AgentCoreState,
        core_state_changed_at: i64,
    },
    SetServiceMode {
        desired_before: bool,
        service_state: AgentServiceState,
        ipc_connected: bool,
        runtime_compatible: Option<bool>,
        core_run_type: AgentRunType,
        core_state_changed_at: i64,
        selected_core: AgentSelectedCore,
    },
    StartCore { core_state_changed_at: i64, selected_core: AgentSelectedCore },
    RestartCore { core_state_changed_at: i64, selected_core: AgentSelectedCore },
    ReconnectTelemetry { core_state_changed_at: i64, selected_core: AgentSelectedCore },
    ControlService {
        state_before: AgentServiceState,
        desired_enabled: bool,
        ipc_connected: bool,
        runtime_compatible: Option<bool>,
        core_state: AgentCoreState,
        core_run_type: AgentRunType,
        core_state_changed_at: i64,
    },
    RepairSystemProxyEndpoint {
        core_state_changed_at: i64,
        expected_port: u16,
        observed_host_scope: AgentHostScope,
        observed_port: Option<u16>,
        desired_before: bool,
    },
    DisableStaleSystemProxy { core_state_changed_at: i64, expected_port: u16, desired_before: bool },
}

/// A plan for one action: its risk, the impacts disclosed to the user, the
/// state changes it makes, and the preconditions to revalidate.
#[derive(Debug, Clone)]
pub struct ActionPlan {
    pub risk: AgentActionRisk,
    pub impacts: Vec<AgentImpact>,
    pub changes: Vec<AgentStateChange>,
    pub preconditions: ActionPreconditions,
}

/// The mathematical content of an [`ActionPlan`].
pub struct PlanSpec {
    pub risk: AgentActionRisk,
    pub impacts: Seq<AgentImpact>,
    pub changes: Seq<AgentStateChange>,
    pub preconditions: ActionPreconditions,
}

impl View for ActionPlan {
    type V = PlanSpec;

    open spec fn view(&self) -> PlanSpec {
        PlanSpec {
            risk: self.risk,
            impacts: self.impacts@,
            changes: self.changes@,
            preconditions: self.preconditions,
        }
    }
}

/// The view of a planning result.
pub open spec fn plan_result(result: Result<ActionPlan, AgentCommandError>) -> Result<PlanSpec, AgentCommandError> {
    match result {
        Ok(plan) => Ok(plan@),
        Err(error) => Err(error),
    }
}

pub open spec fn unavailable() -> Result<PlanSpec, AgentCommandError> {
    Err(AgentCommandError::ActionNotAvailable)
}

pub open spec fn one_change(field: AgentStateField, before: AgentStateValue, after: AgentStateValue) -> Seq<AgentStateChange> {
    seq![AgentStateChange { field, before, after }]
}

/// The state value that an enabled flag is disclosed as.
pub open spec fn enabled_value(enabled: bool) -> AgentStateValue {
    if enabled {
        AgentStateValue::Enabled
    } else {
        AgentStateValue::Disabled
    }
}

/// The state value that a routing mode is disclosed as.
pub open spec fn routing_value(mode: AgentRoutingMode) -> AgentStateValue {
    match mode {
        AgentRoutingMode::Rule => AgentStateValue::Rule,
        AgentRoutingMode::Global => AgentStateValue::Global,
        AgentRoutingMode::Direct => AgentStateValue::Direct,
    }
}

/// The impacts of changing the TUN state on an operating system family.
pub open spec fn spec_tun_impacts(os_family: AgentOsFamily) -> Seq<AgentImpact> {
    let base = seq![AgentImpact::ExistingConnectionsMayChange, AgentImpact::CoreMayRestart];
    if os_family == AgentOsFamily::Macos {
        base.push(AgentImpact::HostDnsMayChange).push(AgentImpact::AdminPermissionMayBeRequired)
    } else if os_family == AgentOsFamily::Linux {
        base.push(AgentImpact::AdminPermissionMayBeRequired)
    } else {
        base
    }
}

/// The impacts of switching to a routing mode.
pub open spec fn spec_routing_impacts(mode: AgentRoutingMode) -> Seq<AgentImpact> {
    seq![
        AgentImpact::ExistingConnectionsMayChange,
        match mode {
            AgentRoutingMode::Rule => AgentImpact::RestoreRuleRouting,
            AgentRoutingMode::Global => AgentImpact::AllTrafficUsesProxy,
            AgentRoutingMode::Direct => AgentImpact::TrafficMayBypassProxy,
        },
    ]
}

/// The active profiles are present and refer to existing profiles.
pub open spec fn profiles_ready(s: AgentNetworkSnapshot) -> bool {
    s.profiles.active_count > 0 && s.profiles.active_references_valid
}

pub open spec fn spec_plan_routing_mode(s: AgentNetworkSnapshot, target: AgentRoutingMode) -> Result<PlanSpec, AgentCommandError> {
    match s.core.routing_mode {
        None => unavailable(),
        Some(current) => if current == target || s.core.state != AgentCoreState::Running
            || s.core.observed_routing_mode != Some(current) {
            unavailable()
        } else {
            Ok(PlanSpec {
                risk: AgentActionRisk::TrafficChange,
                impacts: spec_routing_impacts(target),
                changes: one_change(AgentStateField::RoutingMode, routing_value(current), routing_value(target)),
                preconditions: ActionPreconditions::SetRoutingMode {
                    before: current,
                    core_state_changed_at: s.core.state_changed_at,
                },
            })
        },
    }
}

pub open spec fn spec_plan_tun_change(s: AgentNetworkSnapshot, target: bool) -> Result<PlanSpec, AgentCommandError> {
    let current = s.tun.desired_enabled;
    if current == target || s.core.state != AgentCoreState::Running || !s.core.runtime_config_present
        || !profiles_ready(s) || s.tun.generated_runtime_enabled != Some(current) {
        unavailable()
    } else {
        Ok(PlanSpec {
            risk: AgentActionRisk::TrafficChange,
            impacts: spec_tun_impacts(s.os_family),
            changes: one_change(AgentStateField::Tun, enabled_value(current), enabled_value(target)),
            preconditions: ActionPreconditions::SetTunEnabled {
                desired_before: current,
                generated_before: s.tun.generated_runtime_enabled,
                core_state: s.core.state,
                core_run_type: s.core.run_type,
                core_state_changed_at: s.core.state_changed_at,
                selected_core: s.core.selected_core,
                service_desired_enabled: s.service.desired_enabled,
                service_state: s.service.state,
                service_ipc_connected: s.service.ipc_connected,
            },
        })
    }
}

pub open spec fn spec_plan_system_proxy_change(s: AgentNetworkSnapshot, target: bool) -> Result<PlanSpec, AgentCommandError> {
    let proxy = s.system_proxy;
    match proxy.observed_enabled {
        None => unavailable(),
        Some(observed) => {
            let enable_available = target && !proxy.desired_enabled && !observed && s.core.state
                == AgentCoreState::Running && s.core.runtime_config_present && profiles_ready(s);
            let disable_available = !target && proxy.desired_enabled && observed;
            if !enable_available && !disable_available {
                unavailable()
            } else {
                Ok(PlanSpec {
                    risk: AgentActionRisk::HostNetworkChange,
                    impacts: seq![
                        if target {
                            AgentImpact::HostSystemProxyEnabled
                        } else {
                            AgentImpact::HostSystemProxyDisabled
                        },
                    ],
                    changes: one_change(AgentStateField::SystemProxy, enabled_value(observed), enabled_value(target)),
                    preconditions: ActionPreconditions::SetSystemProxyEnabled {
                        desired_before: proxy.desired_enabled,
                        observed_before: observed,
                        expected_port: proxy.expected_mixed_port,
                        core_state: s.core.state,
                        core_state_changed_at: s.core.state_changed_at,
                    },
                })
            }
        },
    }
}

pub open spec fn spec_plan_service_mode_change(s: AgentNetworkSnapshot, target: bool) -> Result<PlanSpec, AgentCommandError> {
    let service = s.service;
    if service.desired_enabled == target || service.state != AgentServiceState::Running
        || !service.ipc_connected || service.runtime_compatible != Some(true) || s.core.state
        != AgentCoreState::Running || !s.core.runtime_config_present || !profiles_ready(s) {
        unavailable()
    } else {
        Ok(PlanSpec {
            risk: AgentActionRisk::ServiceControl,
            impacts: seq![
                AgentImpact::ServiceAvailabilityMayChange,
                AgentImpact::ExistingConnectionsMayChange,
            ],
            changes: one_change(AgentStateField::ServiceMode, enabled_value(service.desired_enabled), enabled_value(target)),
            preconditions: ActionPreconditions::SetServiceMode {
                desired_before: service.desired_enabled,
                service_state: service.state,
                ipc_connected: service.ipc_connected,
                runtime_compatible: service.runtime_compatible,
                core_run_type: s.core.run_type,
                core_state_changed_at: s.core.state_changed_at,
                selected_core: s.core.selected_core,
            },
        })
    }
}

pub open spec fn spec_plan_start_core(s: AgentNetworkSnapshot) -> Result<PlanSpec, AgentCommandError> {
    if s.core.state != AgentCoreState::Stopped || !s.core.runtime_config_present || !profiles_ready(s) {
        unavailable()
    } else {
        Ok(PlanSpec {
            risk: AgentActionRisk::TrafficChange,
            impacts: seq![AgentImpact::ExistingConnectionsMayChange],
            changes: one_change(AgentStateField::CoreProcess, AgentStateValue::Stopped, AgentStateValue::Running),
            preconditions: ActionPreconditions::StartCore {
                core_state_changed_at: s.core.state_changed_at,
                selected_core: s.core.selected_core,
            },
        })
    }
}

pub open spec fn spec_plan_restart_core(s: AgentNetworkSnapshot) -> Result<PlanSpec, AgentCommandError> {
    if s.core.state != AgentCoreState::Running || !s.core.runtime_config_present || !profiles_ready(s) {
        unavailable()
    } else {
        Ok(PlanSpec {
            risk: AgentActionRisk::TrafficChange,
            impacts: seq![AgentImpact::ExistingConnectionsMayChange],
            changes: one_change(AgentStateField::CoreProcess, AgentStateValue::Running, AgentStateValue::Restarted),
            preconditions: ActionPreconditions::RestartCore {
                core_state_changed_at: s.core.state_changed_at,
                selected_core: s.core.selected_core,
            },
        })
    }
}

pub open spec fn spec_plan_reconnect_telemetry(s: AgentNetworkSnapshot) -> Result<PlanSpec, AgentCommandError> {
    if s.core.state != AgentCoreState::Running || s.telemetry.state != AgentConnectorState::Disconnected {
        unavailable()
    } else {
        Ok(PlanSpec {
            risk: AgentActionRisk::TelemetryRecovery,
            impacts: seq![AgentImpact::TelemetryMayBeUnavailable],
            changes: one_change(AgentStateField::TelemetryConnector, AgentStateValue::Disconnected, AgentStateValue::Connected),
            preconditions: ActionPreconditions::ReconnectTelemetry {
                core_state_changed_at: s.core.state_changed_at,
                selected_core: s.core.selected_core,
            },
        })
    }
}

/// Whether a service control action is available in a snapshot.
pub open spec fn service_control_available(s: AgentNetworkSnapshot, action: AgentActionRequest) -> bool {
    let service = s.service;
    match action {
        AgentActionRequest::StartService => service.desired_enabled && service.state == AgentServiceState::Stopped,
        AgentActionRequest::StopService => !service.desired_enabled && service.state
            == AgentServiceState::Running && s.core.run_type != AgentRunType::Service,
        AgentActionRequest::RestartService => service.desired_enabled && service.state
            == AgentServiceState::Running && service.ipc_connected && service.runtime_compatible
            == Some(true) && s.core.state == AgentCoreState::Running && s.core.run_type
            == AgentRunType::Service && profiles_ready(s),
        _ => false,
    }
}

pub open spec fn spec_plan_service_control(s: AgentNetworkSnapshot, action: AgentActionRequest) -> Result<PlanSpec, AgentCommandError> {
    let service = s.service;
    if !service_control_available(s, action) {
        unavailable()
    } else {
        let (before, after) = match action {
            AgentActionRequest::StartService => (AgentStateValue::Stopped, AgentStateValue::Running),
            AgentActionRequest::StopService => (AgentStateValue::Running, AgentStateValue::Stopped),
            _ => (AgentStateValue::Running, AgentStateValue::Restarted),
        };
        Ok(PlanSpec {
            risk: AgentActionRisk::ServiceControl,
            impacts: if action == AgentActionRequest::RestartService {
                seq![AgentImpact::ServiceAvailabilityMayChange, AgentImpact::ExistingConnectionsMayChange]
            } else {
                seq![AgentImpact::ServiceAvailabilityMayChange]
            },
            changes: one_change(AgentStateField::Service, before, after),
            preconditions: ActionPreconditions::ControlService {
                state_before: service.state,
                desired_enabled: service.desired_enabled,
                ipc_connected: service.ipc_connected,
                runtime_compatible: service.runtime_compatible,
                core_state: s.core.state,
                core_run_type: s.core.run_type,
                core_state_changed_at: s.core.state_changed_at,
            },
        })
    }
}

pub open spec fn spec_plan_proxy_endpoint_repair(s: AgentNetworkSnapshot) -> Result<PlanSpec, AgentCommandError> {
    let proxy = s.system_proxy;
    if s.core.state != AgentCoreState::Running || !proxy.desired_enabled || proxy.observed_enabled
        != Some(true) || proxy.matches_expected_endpoint != Some(false) || proxy.observed_host_scope
        == AgentHostScope::Unknown {
        unavailable()
    } else {
        Ok(PlanSpec {
            risk: AgentActionRisk::HostNetworkChange,
            impacts: seq![AgentImpact::HostSystemProxyEndpointChanged],
            changes: one_change(AgentStateField::SystemProxyEndpoint, AgentStateValue::Unexpected, AgentStateValue::ExpectedLoopbackEndpoint),
            preconditions: ActionPreconditions::RepairSystemProxyEndpoint {
                core_state_changed_at: s.core.state_changed_at,
                expected_port: proxy.expected_mixed_port,
                observed_host_scope: proxy.observed_host_scope,
                observed_port: proxy.observed_port,
                desired_before: proxy.desired_enabled,
            },
        })
    }
}

pub open spec fn spec_plan_stale_proxy(s: AgentNetworkSnapshot) -> Result<PlanSpec, AgentCommandError> {
    let proxy = s.system_proxy;
    if s.core.state != AgentCoreState::Stopped || proxy.observed_enabled != Some(true)
        || proxy.matches_expected_endpoint != Some(true) {
        unavailable()
    } else {
        Ok(PlanSpec {
            risk: AgentActionRisk::HostNetworkChange,
            impacts: seq![AgentImpact::HostSystemProxyDisabled],
            changes: one_change(AgentStateField::SystemProxy, AgentStateValue::Enabled, AgentStateValue::Disabled),
            preconditions: ActionPreconditions::DisableStaleSystemProxy {
                core_state_changed_at: s.core.state_changed_at,
                expected_port: proxy.expected_mixed_port,
                desired_before: proxy.desired_enabled,
            },
        })
    }
}

/// The plan for any action: no action is available while the core state or run type is unknown.
pub open spec fn spec_plan_action(s: AgentNetworkSnapshot, action: AgentActionRequest) -> Result<PlanSpec, AgentCommandError> {
    if s.core.state == AgentCoreState::Unknown || s.core.run_type == AgentRunType::Unknown {
        unavailable()
    } else {
        match action {
            AgentActionRequest::SetRoutingMode { mode } => spec_plan_routing_mode(s, mode),
            AgentActionRequest::SetTunEnabled { enabled } => spec_plan_tun_change(s, enabled),
            AgentActionRequest::SetSystemProxyEnabled { enabled } => spec_plan_system_proxy_change(s, enabled),
            AgentActionRequest::SetServiceMode { enabled } => spec_plan_service_mode_change(s, enabled),
            AgentActionRequest::StartCore => spec_plan_start_core(s),
            AgentActionRequest::RestartCore => spec_plan_restart_core(s),
            AgentActionRequest::ReconnectTelemetry => spec_plan_reconnect_telemetry(s),
            AgentActionRequest::StartService => spec_plan_service_control(s, action),
            AgentActionRequest::StopService => spec_plan_service_control(s, action),
            AgentActionRequest::RestartService => spec_plan_service_control(s, action),
            AgentActionRequest::RepairSystemProxyEndpoint => spec_plan_proxy_endpoint_repair(s),
            AgentActionRequest::DisableStaleSystemProxy => spec_plan_stale_proxy(s),
        }
    }
}

/// Whether the recorded preconditions still hold of a fresh snapshot.
pub open spec fn preconditions_hold(c: AgentNetworkSnapshot, p: ActionPreconditions) -> bool {
    match p {
        ActionPreconditions::SetRoutingMode { before, core_state_changed_at } => {
            &&& c.core.state == AgentCoreState::Running
            &&& c.core.state_changed_at == core_state_changed_at
            &&& c.core.routing_mode == Some(before)
            &&& c.core.observed_routing_mode == Some(before)
        },
        ActionPreconditions::SetTunEnabled {
            desired_before,
            generated_before,
            core_state,
            core_run_type,
            core_state_changed_at,
            selected_core,
            service_desired_enabled,
            service_state,
            service_ipc_connected,
        } => {
            &&& c.tun.desired_enabled == desired_before
            &&& c.tun.generated_runtime_enabled == generated_before
            &&& c.core.state == core_state
            &&& c.core.run_type == core_run_type
            &&& c.core.state_changed_at == core_state_changed_at
            &&& c.core.selected_core == selected_core
            &&& c.core.runtime_config_present
            &&& profiles_ready(c)
            &&& c.service.desired_enabled == service_desired_enabled
            &&& c.service.state == service_state
            &&& c.service.ipc_connected == service_ipc_connected
        },
        ActionPreconditions::SetSystemProxyEnabled {
            desired_before,
            observed_before,
            expected_port,
            core_state,
            core_state_changed_at,
        } => {
            &&& c.system_proxy.desired_enabled == desired_before
            &&& c.system_proxy.observed_enabled == Some(observed_before)
            &&& c.system_proxy.expected_mixed_port == expected_port
            &&& c.core.state == core_state
            &&& c.core.state_changed_at == core_state_changed_at
        },
        ActionPreconditions::SetServiceMode {
            desired_before,
            service_state,
            ipc_connected,
            runtime_compatible,
            core_run_type,
            core_state_changed_at,
            selected_core,
        } => {
            &&& c.service.desired_enabled == desired_before
            &&& c.service.state == service_state
            &&& c.service.ipc_connected == ipc_connected
            &&& c.service.runtime_compatible == runtime_compatible
            &&& c.core.state == AgentCoreState::Running
            &&& c.core.run_type == core_run_type
            &&& c.core.state_changed_at == core_state_changed_at
            &&& c.core.selected_core == selected_core
            &&& c.core.runtime_config_present
            &&& profiles_ready(c)
        },
        ActionPreconditions::StartCore { core_state_changed_at, selected_core } => {
            &&& c.core.state == AgentCoreState::Stopped
            &&& c.core.state_changed_at == core_state_changed_at
            &&& c.core.selected_core == selected_core
            &&& c.core.runtime_config_present
            &&& profiles_ready(c)
        },
        ActionPreconditions::RestartCore { core_state_changed_at, selected_core } => {
            &&& c.core.state == AgentCoreState::Running
            &&& c.core.state_changed_at == core_state_changed_at
            &&& c.core.selected_core == selected_core
            &&& c.core.runtime_config_present
            &&& profiles_ready(c)
        },
        ActionPreconditions::ReconnectTelemetry { core_state_changed_at, selected_core } => {
            &&& c.core.state == AgentCoreState::Running
            &&& c.core.state_changed_at == core_state_changed_at
            &&& c.core.selected_core == selected_core
            &&& c.telemetry.state == AgentConnectorState::Disconnected
        },
        ActionPreconditions::ControlService {
            state_before,
            desired_enabled,
            ipc_connected,
            runtime_compatible,
            core_state,
            core_run_type,
            core_state_changed_at,
        } => {
            &&& c.service.state == state_before
            &&& c.service.desired_enabled == desired_enabled
            &&& c.service.ipc_connected == ipc_connected
            &&& c.service.runtime_compatible == runtime_compatible
            &&& c.core.state == core_state
            &&& c.core.run_type == core_run_type
            &&& c.core.state_changed_at == core_state_changed_at
        },
        ActionPreconditions::RepairSystemProxyEndpoint {
            core_state_changed_at,
            expected_port,
            observed_host_scope,
            observed_port,
            ..
        } => {
            &&& c.core.state == AgentCoreState::Running
            &&& c.core.state_changed_at == core_state_changed_at
            &&& c.system_proxy.desired_enabled
            &&& c.system_proxy.observed_enabled == Some(true)
            &&& c.system_proxy.matches_expected_endpoint == Some(false)
            &&& c.system_proxy.expected_mixed_port == expected_port
            &&& c.system_proxy.observed_host_scope == observed_host_scope
            &&& c.system_proxy.observed_port == observed_port
        },
        ActionPreconditions::DisableStaleSystemProxy { core_state_changed_at, expected_port, .. } => {
            &&& c.core.state == AgentCoreState::Stopped
            &&& c.core.state_changed_at == core_state_changed_at
            &&& c.system_proxy.observed_enabled == Some(true)
            &&& c.system_proxy.observed_host_scope == AgentHostScope::Loopback
            &&& c.system_proxy.observed_port == Some(expected_port)
            &&& c.system_proxy.expected_mixed_port == expected_port
        },
    }
}

/// The TUN state is applied: desired, generated and running in agreement.
pub open spec fn spec_tun_target_is_applied(s: AgentNetworkSnapshot, target: bool) -> bool {
    &&& s.tun.desired_enabled == target
    &&& s.tun.generated_runtime_enabled == Some(target)
    &&& s.tun.applied_consistency == AgentAppliedState::Consistent
    &&& s.core.state == AgentCoreState::Running
}

/// Whether a snapshot taken after an action shows that the action took effect.
pub open spec fn action_verified(s: AgentNetworkSnapshot, action: AgentActionRequest, p: ActionPreconditions) -> bool {
    match (action, p) {
        (AgentActionRequest::SetRoutingMode { mode }, ActionPreconditions::SetRoutingMode { .. }) => {
            &&& s.core.routing_mode == Some(mode)
            &&& s.core.observed_routing_mode == Some(mode)
            &&& s.core.applied_consistency == AgentAppliedState::Consistent
        },
        (AgentActionRequest::SetTunEnabled { enabled }, ActionPreconditions::SetTunEnabled { selected_core, .. }) => {
            spec_tun_target_is_applied(s, enabled) && s.core.selected_core == selected_core
        },
        (
            AgentActionRequest::SetSystemProxyEnabled { enabled },
            ActionPreconditions::SetSystemProxyEnabled { expected_port, .. },
        ) => {
            &&& s.system_proxy.desired_enabled == enabled
            &&& s.system_proxy.observed_enabled == Some(enabled)
            &&& (!enabled || (s.system_proxy.observed_host_scope == AgentHostScope::Loopback
                && s.system_proxy.observed_port == Some(expected_port)
                && s.system_proxy.matches_expected_endpoint == Some(true)))
        },
        (
            AgentActionRequest::SetServiceMode { enabled },
            ActionPreconditions::SetServiceMode { core_state_changed_at, selected_core, .. },
        ) => {
            &&& s.service.desired_enabled == enabled
            &&& s.service.state == AgentServiceState::Running
            &&& s.service.ipc_connected
            &&& s.service.runtime_compatible == Some(true)
            &&& s.core.state == AgentCoreState::Running
            &&& s.core.state_changed_at > core_state_changed_at
            &&& s.core.selected_core == selected_core
            &&& (if enabled {
                s.core.run_type == AgentRunType::Service
            } else {
                s.core.run_type != AgentRunType::Service
            })
        },
        (AgentActionRequest::StartCore, ActionPreconditions::StartCore { core_state_changed_at, selected_core }) => {
            &&& s.core.state == AgentCoreState::Running
            &&& s.core.state_changed_at > core_state_changed_at
            &&& s.core.selected_core == selected_core
            &&& s.core.runtime_config_present
        },
        (AgentActionRequest::RestartCore, ActionPreconditions::RestartCore { core_state_changed_at, selected_core }) => {
            &&& s.core.state == AgentCoreState::Running
            &&& s.core.state_changed_at > core_state_changed_at
            &&& s.core.selected_core == selected_core
            &&& s.core.runtime_config_present
        },
        (
            AgentActionRequest::ReconnectTelemetry,
            ActionPreconditions::ReconnectTelemetry { core_state_changed_at, selected_core },
        ) => {
            &&& s.core.state == AgentCoreState::Running
            &&& s.core.state_changed_at == core_state_changed_at
            &&& s.core.selected_core == selected_core
            &&& s.telemetry.state == AgentConnectorState::Connected
        },
        (AgentActionRequest::StartService, ActionPreconditions::ControlService { core_state_changed_at, .. })
        | (AgentActionRequest::RestartService, ActionPreconditions::ControlService { core_state_changed_at, .. }) => {
            &&& s.service.desired_enabled
            &&& s.service.state == AgentServiceState::Running
            &&& s.service.ipc_connected
            &&& s.service.runtime_compatible == Some(true)
            &&& s.core.state == AgentCoreState::Running
            &&& s.core.run_type == AgentRunType::Service
            &&& s.core.state_changed_at > core_state_changed_at
        },
        (AgentActionRequest::StopService, ActionPreconditions::ControlService { .. }) => {
            &&& !s.service.desired_enabled
            &&& s.service.state == AgentServiceState::Stopped
            &&& !s.service.ipc_connected
        },
        (
            AgentActionRequest::RepairSystemProxyEndpoint,
            ActionPreconditions::RepairSystemProxyEndpoint { expected_port, .. },
        ) => {
            &&& s.core.state == AgentCoreState::Running
            &&& s.system_proxy.desired_enabled
            &&& s.system_proxy.observed_enabled == Some(true)
            &&& s.system_proxy.observed_host_scope == AgentHostScope::Loopback
            &&& s.system_proxy.observed_port == Some(expected_port)
            &&& s.system_proxy.matches_expected_endpoint == Some(true)
        },
        (AgentActionRequest::DisableStaleSystemProxy, ActionPreconditions::DisableStaleSystemProxy { .. }) => {
            s.system_proxy.observed_enabled == Some(false) && !s.system_proxy.desired_enabled
        },
        _ => false,
    }
}

/// The actions that the agent recommends considering for a snapshot, in order.
pub open spec fn spec_recommendation_candidates(s: AgentNetworkSnapshot) -> Seq<AgentActionRequest> {
    seq![
        AgentActionRequest::SetRoutingMode { mode: AgentRoutingMode::Rule },
        AgentActionRequest::SetRoutingMode { mode: AgentRoutingMode::Global },
        AgentActionRequest::SetRoutingMode { mode: AgentRoutingMode::Direct },
        AgentActionRequest::SetTunEnabled { enabled: !s.tun.desired_enabled },
        AgentActionRequest::SetSystemProxyEnabled { enabled: !s.system_proxy.desired_enabled },
        AgentActionRequest::SetServiceMode { enabled: !s.service.desired_enabled },
        AgentActionRequest::StartCore,
        AgentActionRequest::RestartCore,
        AgentActionRequest::ReconnectTelemetry,
        AgentActionRequest::StartService,
        AgentActionRequest::StopService,
        AgentActionRequest::RestartService,
        AgentActionRequest::RepairSystemProxyEndpoint,
        AgentActionRequest::DisableStaleSystemProxy,
    ]
}

/// A recommendation reports exactly what the planner decides for its action.
pub open spec fn recommendation_reflects_plan(r: AgentRecommendation, plan: Result<PlanSpec, AgentCommandError>) -> bool {
    match plan {
        Ok(p) => {
            &&& r.available
            &&& r.unavailable_reason == None::<AgentRecommendationUnavailableReason>
            &&& r.risk == Some(p.risk)
            &&& r.impacts@ == p.impacts
        },
        Err(_) => {
            &&& !r.available
            &&& r.unavailable_reason == Some(AgentRecommendationUnavailableReason::CurrentStateNotSupported)
            &&& r.risk == None::<AgentActionRisk>
            &&& r.impacts@.len() == 0
        },
    }
}

fn state_value_for_enabled(enabled: bool) -> (value: AgentStateValue)
    ensures
        value == enabled_value(enabled),
{
    if enabled {
        AgentStateValue::Enabled
    } else {
        AgentStateValue::Disabled
    }
}

/// The state value that a TUN (or other) enabled flag is disclosed as.
pub fn tun_state_value(enabled: bool) -> (value: AgentStateValue)
    ensures
        value == enabled_value(enabled),
{
    state_value_for_enabled(enabled)
}

pub fn routing_state_value(mode: AgentRoutingMode) -> (value: AgentStateValue)
    ensures
        value == routing_value(mode),
{
    match mode {
        AgentRoutingMode::Rule => AgentStateValue::Rule,
        AgentRoutingMode::Global => AgentStateValue::Global,
        AgentRoutingMode::Direct => AgentStateValue::Direct,
    }
}

fn single_change(field: AgentStateField, before: AgentStateValue, after: AgentStateValue) -> (changes: Vec<AgentStateChange>)
    ensures
        changes@ == one_change(field, before, after),
{
    vec![AgentStateChange { field, before, after }]
}

fn one_impact(impact: AgentImpact) -> (impacts: Vec<AgentImpact>)
    ensures
        impacts@ == seq![impact],
{
    let mut impacts: Vec<AgentImpact> = Vec::new();
    impacts.push(impact);
    impacts
}

fn option_bool_is(value: Option<bool>, expected: bool) -> (equal: bool)
    ensures
        equal == (value == Some(expected)),
{
    match value {
        Some(v) => v == expected,
        None => false,
    }
}

fn option_mode_is(value: Option<AgentRoutingMode>, expected: AgentRoutingMode) -> (equal: bool)
    ensures
        equal == (value == Some(expected)),
{
    match value {
        Some(v) => v == expected,
        None => false,
    }
}

fn option_port_is(value: Option<u16>, expected: u16) -> (equal: bool)
    ensures
        equal == (value == Some(expected)),
{
    match value {
        Some(v) => v == expected,
        None => false,
    }
}

fn profiles_ready_exec(s: &AgentNetworkSnapshot) -> (ready: bool)
    ensures
        ready == profiles_ready(*s),
{
    s.profiles.active_count > 0 && s.profiles.active_references_valid
}

pub fn tun_impacts(os_family: AgentOsFamily) -> (impacts: Vec<AgentImpact>)
    ensures
        impacts@ == spec_tun_impacts(os_family),
{
    let mut impacts = vec![AgentImpact::ExistingConnectionsMayChange, AgentImpact::CoreMayRestart];
    if os_family == AgentOsFamily::Macos {
        impacts.push(AgentImpact::HostDnsMayChange);
    }
    if os_family == AgentOsFamily::Macos || os_family == AgentOsFamily::Linux {
        impacts.push(AgentImpact::AdminPermissionMayBeRequired);
    }
    impacts
}

pub fn routing_impacts(mode: AgentRoutingMode) -> (impacts: Vec<AgentImpact>)
    ensures
        impacts@ == spec_routing_impacts(mode),
{
    let mut impacts = vec![AgentImpact::ExistingConnectionsMayChange];
    impacts.push(
        match mode {
            AgentRoutingMode::Rule => AgentImpact::RestoreRuleRouting,
            AgentRoutingMode::Global => AgentImpact::AllTrafficUsesProxy,
            AgentRoutingMode::Direct => AgentImpact::TrafficMayBypassProxy,
        },
    );
    impacts
}

pub fn plan_routing_mode(snapshot: &AgentNetworkSnapshot, target: AgentRoutingMode) -> (plan: Result<ActionPlan, AgentCommandError>)
    ensures
        plan_result(plan) == spec_plan_routing_mode(*snapshot, target),
{
    let current = match snapshot.core.routing_mode {
        Some(current) => current,
        None => return Err(AgentCommandError::ActionNotAvailable),
    };
    if current == target || snapshot.core.state != AgentCoreState::Running || !option_mode_is(
        snapshot.core.observed_routing_mode,
        current,
    ) {
        return Err(AgentCommandError::ActionNotAvailable);
    }
    Ok(ActionPlan {
        risk: AgentActionRisk::TrafficChange,
        impacts: routing_impacts(target),
        changes: single_change(AgentStateField::RoutingMode, routing_state_value(current), routing_state_value(target)),
        preconditions: ActionPreconditions::SetRoutingMode {
            before: current,
            core_state_changed_at: snapshot.core.state_changed_at,
        },
    })
}

pub fn plan_tun_change(snapshot: &AgentNetworkSnapshot, target: bool) -> (plan: Result<ActionPlan, AgentCommandError>)
    ensures
        plan_result(plan) == spec_plan_tun_change(*snapshot, target),
{
    let current = snapshot.tun.desired_enabled;
    if current == target || snapshot.core.state != AgentCoreState::Running
        || !snapshot.core.runtime_config_present || !profiles_ready_exec(snapshot) || !option_bool_is(
        snapshot.tun.generated_runtime_enabled,
        current,
    ) {
        return Err(AgentCommandError::ActionNotAvailable);
    }
    Ok(ActionPlan {
        risk: AgentActionRisk::TrafficChange,
        impacts: tun_impacts(snapshot.os_family),
        changes: single_change(AgentStateField::Tun, tun_state_value(current), tun_state_value(target)),
        preconditions: ActionPreconditions::SetTunEnabled {
            desired_before: current,
            generated_before: snapshot.tun.generated_runtime_enabled,
            core_state: snapshot.core.state,
            core_run_type: snapshot.core.run_type,
            core_state_changed_at: snapshot.core.state_changed_at,
            selected_core: snapshot.core.selected_core,
            service_desired_enabled: snapshot.service.desired_enabled,
            service_state: snapshot.service.state,
            service_ipc_connected: snapshot.service.ipc_connected,
        },
    })
}

pub fn plan_system_proxy_change(snapshot: &AgentNetworkSnapshot, target: bool) -> (plan: Result<ActionPlan, AgentCommandError>)
    ensures
        plan_result(plan) == spec_plan_system_proxy_change(*snapshot, target),
{
    let proxy = &snapshot.system_proxy;
    let observed = match proxy.observed_enabled {
        Some(observed) => observed,
        None => return Err(AgentCommandError::ActionNotAvailable),
    };
    let enable_available = target && !proxy.desired_enabled && !observed && snapshot.core.state
        == AgentCoreState::Running && snapshot.core.runtime_config_present && profiles_ready_exec(
        snapshot,
    );
    let disable_available = !target && proxy.desired_enabled && observed;
    if !enable_available && !disable_available {
        return Err(AgentCommandError::ActionNotAvailable);
    }
    let impact = if target {
        AgentImpact::HostSystemProxyEnabled
    } else {
        AgentImpact::HostSystemProxyDisabled
    };
    Ok(ActionPlan {
        risk: AgentActionRisk::HostNetworkChange,
        impacts: one_impact(impact),
        changes: single_change(AgentStateField::SystemProxy, tun_state_value(observed), tun_state_value(target)),
        preconditions: ActionPreconditions::SetSystemProxyEnabled {
            desired_before: proxy.desired_enabled,
            observed_before: observed,
            expected_port: proxy.expected_mixed_port,
            core_state: snapshot.core.state,
            core_state_changed_at: snapshot.core.state_changed_at,
        },
    })
}

pub fn plan_service_mode_change(snapshot: &AgentNetworkSnapshot, target: bool) -> (plan: Result<ActionPlan, AgentCommandError>)
    ensures
        plan_result(plan) == spec_plan_service_mode_change(*snapshot, target),
{
    let service = &snapshot.service;
    if service.desired_enabled == target || service.state != AgentServiceState::Running
        || !service.ipc_connected || !option_bool_is(service.runtime_compatible, true)
        || snapshot.core.state != AgentCoreState::Running || !snapshot.core.runtime_config_present
        || !profiles_ready_exec(snapshot) {
        return Err(AgentCommandError::ActionNotAvailable);
    }
    Ok(ActionPlan {
        risk: AgentActionRisk::ServiceControl,
        impacts: vec![AgentImpact::ServiceAvailabilityMayChange, AgentImpact::ExistingConnectionsMayChange],
        changes: single_change(AgentStateField::ServiceMode, tun_state_value(service.desired_enabled), tun_state_value(target)),
        preconditions: ActionPreconditions::SetServiceMode {
            desired_before: service.desired_enabled,
            service_state: service.state,
            ipc_connected: service.ipc_connected,
            runtime_compatible: service.runtime_compatible,
            core_run_type: snapshot.core.run_type,
            core_state_changed_at: snapshot.core.state_changed_at,
            selected_core: snapshot.core.selected_core,
        },
    })
}

pub fn plan_start_core(snapshot: &AgentNetworkSnapshot) -> (plan: Result<ActionPlan, AgentCommandError>)
    ensures
        plan_result(plan) == spec_plan_start_core(*snapshot),
{
    if snapshot.core.state != AgentCoreState::Stopped || !snapshot.core.runtime_config_present
        || !profiles_ready_exec(snapshot) {
        return Err(AgentCommandError::ActionNotAvailable);
    }
    Ok(ActionPlan {
        risk: AgentActionRisk::TrafficChange,
        impacts: one_impact(AgentImpact::ExistingConnectionsMayChange),
        changes: single_change(AgentStateField::CoreProcess, AgentStateValue::Stopped, AgentStateValue::Running),
        preconditions: ActionPreconditions::StartCore {
            core_state_changed_at: snapshot.core.state_changed_at,
            selected_core: snapshot.core.selected_core,
        },
    })
}

pub fn plan_restart_core(snapshot: &AgentNetworkSnapshot) -> (plan: Result<ActionPlan, AgentCommandError>)
    ensures
        plan_result(plan) == spec_plan_restart_core(*snapshot),
{
    if snapshot.core.state != AgentCoreState::Running || !snapshot.core.runtime_config_present
        || !profiles_ready_exec(snapshot) {
        return Err(AgentCommandError::ActionNotAvailable);
    }
    Ok(ActionPlan {
        risk: AgentActionRisk::TrafficChange,
        impacts: one_impact(AgentImpact::ExistingConnectionsMayChange),
        changes: single_change(AgentStateField::CoreProcess, AgentStateValue::Running, AgentStateValue::Restarted),
        preconditions: ActionPreconditions::RestartCore {
            core_state_changed_at: snapshot.core.state_changed_at,
            selected_core: snapshot.core.selected_core,
        },
    })
}

pub fn plan_reconnect_telemetry(snapshot: &AgentNetworkSnapshot) -> (plan: Result<ActionPlan, AgentCommandError>)
    ensures
        plan_result(plan) == spec_plan_reconnect_telemetry(*snapshot),
{
    if snapshot.core.state != AgentCoreState::Running || snapshot.telemetry.state
        != AgentConnectorState::Disconnected {
        return Err(AgentCommandError::ActionNotAvailable);
    }
    Ok(ActionPlan {
        risk: AgentActionRisk::TelemetryRecovery,
        impacts: one_impact(AgentImpact::TelemetryMayBeUnavailable),
        changes: single_change(AgentStateField::TelemetryConnector, AgentStateValue::Disconnected, AgentStateValue::Connected),
        preconditions: ActionPreconditions::ReconnectTelemetry {
            core_state_changed_at: snapshot.core.state_changed_at,
            selected_core: snapshot.core.selected_core,
        },
    })
}

pub fn plan_service_control(snapshot: &AgentNetworkSnapshot, action: &AgentActionRequest) -> (plan: Result<ActionPlan, AgentCommandError>)
    ensures
        plan_result(plan) == spec_plan_service_control(*snapshot, *action),
{
    let service = &snapshot.service;
    let available = match action {
        AgentActionRequest::StartService => service.desired_enabled && service.state
            == AgentServiceState::Stopped,
        AgentActionRequest::StopService => !service.desired_enabled && service.state
            == AgentServiceState::Running && snapshot.core.run_type != AgentRunType::Service,
        AgentActionRequest::RestartService => service.desired_enabled && service.state
            == AgentServiceState::Running && service.ipc_connected && option_bool_is(
            service.runtime_compatible,
            true,
        ) && snapshot.core.state == AgentCoreState::Running && snapshot.core.run_type
            == AgentRunType::Service && profiles_ready_exec(snapshot),
        _ => false,
    };
    if !available {
        return Err(AgentCommandError::ActionNotAvailable);
    }
    let (before, after) = match action {
        AgentActionRequest::StartService => (AgentStateValue::Stopped, AgentStateValue::Running),
        AgentActionRequest::StopService => (AgentStateValue::Running, AgentStateValue::Stopped),
        AgentActionRequest::RestartService => (AgentStateValue::Running, AgentStateValue::Restarted),
        _ => return Err(AgentCommandError::ActionNotAvailable),
    };
    let restart = match action {
        AgentActionRequest::RestartService => true,
        _ => false,
    };
    let mut impacts = one_impact(AgentImpact::ServiceAvailabilityMayChange);
    if restart {
        impacts.push(AgentImpact::ExistingConnectionsMayChange);
        assert(impacts@ =~= seq![AgentImpact::ServiceAvailabilityMayChange, AgentImpact::ExistingConnectionsMayChange]);
    }
    assert(restart == (*action == AgentActionRequest::RestartService));
    Ok(ActionPlan {
        risk: AgentActionRisk::ServiceControl,
        impacts,
        changes: single_change(AgentStateField::Service, before, after),
        preconditions: ActionPreconditions::ControlService {
            state_before: service.state,
            desired_enabled: service.desired_enabled,
            ipc_connected: service.ipc_connected,
            runtime_compatible: service.runtime_compatible,
            core_state: snapshot.core.state,
            core_run_type: snapshot.core.run_type,
            core_state_changed_at: snapshot.core.state_changed_at,
        },
    })
}

pub fn plan_proxy_endpoint_repair(snapshot: &AgentNetworkSnapshot) -> (plan: Result<ActionPlan, AgentCommandError>)
    ensures
        plan_result(plan) == spec_plan_proxy_endpoint_repair(*snapshot),
{
    let proxy = &snapshot.system_proxy;
    if snapshot.core.state != AgentCoreState::Running || !proxy.desired_enabled || !option_bool_is(
        proxy.observed_enabled,
        true,
    ) || !option_bool_is(proxy.matches_expected_endpoint, false) || proxy.observed_host_scope
        == AgentHostScope::Unknown {
        return Err(AgentCommandError::ActionNotAvailable);
    }
    Ok(ActionPlan {
        risk: AgentActionRisk::HostNetworkChange,
        impacts: one_impact(AgentImpact::HostSystemProxyEndpointChanged),
        changes: single_change(
            AgentStateField::SystemProxyEndpoint,
            AgentStateValue::Unexpected,
            AgentStateValue::ExpectedLoopbackEndpoint,
        ),
        preconditions: ActionPreconditions::RepairSystemProxyEndpoint {
            core_state_changed_at: snapshot.core.state_changed_at,
            expected_port: proxy.expected_mixed_port,
            observed_host_scope: proxy.observed_host_scope,
            observed_port: proxy.observed_port,
            desired_before: proxy.desired_enabled,
        },
    })
}

pub fn plan_stale_proxy(snapshot: &AgentNetworkSnapshot) -> (plan: Result<ActionPlan, AgentCommandError>)
    ensures
        plan_result(plan) == spec_plan_stale_proxy(*snapshot),
{
    let proxy = &snapshot.system_proxy;
    if snapshot.core.state != AgentCoreState::Stopped || !option_bool_is(proxy.observed_enabled, true)
        || !option_bool_is(proxy.matches_expected_endpoint, true) {
        return Err(AgentCommandError::ActionNotAvailable);
    }
    Ok(ActionPlan {
        risk: AgentActionRisk::HostNetworkChange,
        impacts: one_impact(AgentImpact::HostSystemProxyDisabled),
        changes: single_change(AgentStateField::SystemProxy, AgentStateValue::Enabled, AgentStateValue::Disabled),
        preconditions: ActionPreconditions::DisableStaleSystemProxy {
            core_state_changed_at: snapshot.core.state_changed_at,
            expected_port: proxy.expected_mixed_port,
            desired_before: proxy.desired_enabled,
        },
    })
}

pub fn plan_action(snapshot: &AgentNetworkSnapshot, action: &AgentActionRequest) -> (plan: Result<ActionPlan, AgentCommandError>)
    ensures
        plan_result(plan) == spec_plan_action(*snapshot, *action),
{
    if snapshot.core.state == AgentCoreState::Unknown || snapshot.core.run_type == AgentRunType::Unknown {
        return Err(AgentCommandError::ActionNotAvailable);
    }
    match action {
        AgentActionRequest::SetRoutingMode { mode } => plan_routing_mode(snapshot, *mode),
        AgentActionRequest::SetTunEnabled { enabled } => plan_tun_change(snapshot, *enabled),
        AgentActionRequest::SetSystemProxyEnabled { enabled } => plan_system_proxy_change(snapshot, *enabled),
        AgentActionRequest::SetServiceMode { enabled } => plan_service_mode_change(snapshot, *enabled),
        AgentActionRequest::StartCore => plan_start_core(snapshot),
        AgentActionRequest::RestartCore => plan_restart_core(snapshot),
        AgentActionRequest::ReconnectTelemetry => plan_reconnect_telemetry(snapshot),
        AgentActionRequest::StartService => plan_service_control(snapshot, action),
        AgentActionRequest::StopService => plan_service_control(snapshot, action),
        AgentActionRequest::RestartService => plan_service_control(snapshot, action),
        AgentActionRequest::RepairSystemProxyEndpoint => plan_proxy_endpoint_repair(snapshot),
        AgentActionRequest::DisableStaleSystemProxy => plan_stale_proxy(snapshot),
    }
}

pub fn validate_preconditions(current: &AgentNetworkSnapshot, preconditions: &ActionPreconditions) -> (result: Result<(), AgentCommandError>)
    ensures
        result is Ok <==> preconditions_hold(*current, *preconditions),
        result matches Err(e) ==> e == AgentCommandError::NetworkStateChanged,
{
    let c = current;
    let valid = match preconditions {
        ActionPreconditions::SetRoutingMode { before, core_state_changed_at } => {
            c.core.state == AgentCoreState::Running && c.core.state_changed_at
                == *core_state_changed_at && option_mode_is(c.core.routing_mode, *before)
                && option_mode_is(c.core.observed_routing_mode, *before)
        },
        ActionPreconditions::SetTunEnabled {
            desired_before,
            generated_before,
            core_state,
            core_run_type,
            core_state_changed_at,
            selected_core,
            service_desired_enabled,
            service_state,
            service_ipc_connected,
        } => {
            let generated_same = match (c.tun.generated_runtime_enabled, *generated_before) {
                (Some(a), Some(b)) => a == b,
                (None, None) => true,
                _ => false,
            };
            c.tun.desired_enabled == *desired_before && generated_same && c.core.state
                == *core_state && c.core.run_type == *core_run_type && c.core.state_changed_at
                == *core_state_changed_at && c.core.selected_core == *selected_core
                && c.core.runtime_config_present && profiles_ready_exec(c)
                && c.service.desired_enabled == *service_desired_enabled && c.service.state
                == *service_state && c.service.ipc_connected == *service_ipc_connected
        },
        ActionPreconditions::SetSystemProxyEnabled {
            desired_before,
            observed_before,
            expected_port,
            core_state,
            core_state_changed_at,
        } => {
            c.system_proxy.desired_enabled == *desired_before && option_bool_is(
                c.system_proxy.observed_enabled,
                *observed_before,
            ) && c.system_proxy.expected_mixed_port == *expected_port && c.core.state
                == *core_state && c.core.state_changed_at == *core_state_changed_at
        },
        ActionPreconditions::SetServiceMode {
            desired_before,
            service_state,
            ipc_connected,
            runtime_compatible,
            core_run_type,
            core_state_changed_at,
            selected_core,
        } => {
            let compatible_same = match (c.service.runtime_compatible, *runtime_compatible) {
                (Some(a), Some(b)) => a == b,
                (None, None) => true,
                _ => false,
            };
            c.service.desired_enabled == *desired_before && c.service.state == *service_state
                && c.service.ipc_connected == *ipc_connected && compatible_same && c.core.state
                == AgentCoreState::Running && c.core.run_type == *core_run_type
                && c.core.state_changed_at == *core_state_changed_at && c.core.selected_core
                == *selected_core && c.core.runtime_config_present && profiles_ready_exec(c)
        },
        ActionPreconditions::StartCore { core_state_changed_at, selected_core } => {
            c.core.state == AgentCoreState::Stopped && c.core.state_changed_at
                == *core_state_changed_at && c.core.selected_core == *selected_core
                && c.core.runtime_config_present && profiles_ready_exec(c)
        },
        ActionPreconditions::RestartCore { core_state_changed_at, selected_core } => {
            c.core.state == AgentCoreState::Running && c.core.state_changed_at
                == *core_state_changed_at && c.core.selected_core == *selected_core
                && c.core.runtime_config_present && profiles_ready_exec(c)
        },
        ActionPreconditions::ReconnectTelemetry { core_state_changed_at, selected_core } => {
            c.core.state == AgentCoreState::Running && c.core.state_changed_at
                == *core_state_changed_at && c.core.selected_core == *selected_core
                && c.telemetry.state == AgentConnectorState::Disconnected
        },
        ActionPreconditions::ControlService {
            state_before,
            desired_enabled,
            ipc_connected,
            runtime_compatible,
            core_state,
            core_run_type,
            core_state_changed_at,
        } => {
            let compatible_same = match (c.service.runtime_compatible, *runtime_compatible) {
                (Some(a), Some(b)) => a == b,
                (None, None) => true,
                _ => false,
            };
            c.service.state == *state_before && c.service.desired_enabled == *desired_enabled
                && c.service.ipc_connected == *ipc_connected && compatible_same && c.core.state
                == *core_state && c.core.run_type == *core_run_type && c.core.state_changed_at
                == *core_state_changed_at
        },
        ActionPreconditions::RepairSystemProxyEndpoint {
            core_state_changed_at,
            expected_port,
            observed_host_scope,
            observed_port,
            ..
        } => {
            let port_same = match (c.system_proxy.observed_port, *observed_port) {
                (Some(a), Some(b)) => a == b,
                (None, None) => true,
                _ => false,
            };
            c.core.state == AgentCoreState::Running && c.core.state_changed_at
                == *core_state_changed_at && c.system_proxy.desired_enabled && option_bool_is(
                c.system_proxy.observed_enabled,
                true,
            ) && option_bool_is(c.system_proxy.matches_expected_endpoint, false)
                && c.system_proxy.expected_mixed_port == *expected_port
                && c.system_proxy.observed_host_scope == *observed_host_scope && port_same
        },
        ActionPreconditions::DisableStaleSystemProxy { core_state_changed_at, expected_port, .. } => {
            c.core.state == AgentCoreState::Stopped && c.core.state_changed_at
                == *core_state_changed_at && option_bool_is(c.system_proxy.observed_enabled, true)
                && c.system_proxy.observed_host_scope == AgentHostScope::Loopback && option_port_is(
                c.system_proxy.observed_port,
                *expected_port,
            ) && c.system_proxy.expected_mixed_port == *expected_port
        },
    };
    if valid {
        Ok(())
    } else {
        Err(AgentCommandError::NetworkStateChanged)
    }
}

pub fn tun_target_is_applied(snapshot: &AgentNetworkSnapshot, target: bool) -> (applied: bool)
    ensures
        applied == spec_tun_target_is_applied(*snapshot, target),
{
    snapshot.tun.desired_enabled == target && option_bool_is(
        snapshot.tun.generated_runtime_enabled,
        target,
    ) && snapshot.tun.applied_consistency == AgentAppliedState::Consistent && snapshot.core.state
        == AgentCoreState::Running
}

pub fn verify_action(snapshot: &AgentNetworkSnapshot, action: &AgentActionRequest, preconditions: &ActionPreconditions) -> (verified: bool)
    ensures
        verified == action_verified(*snapshot, *action, *preconditions),
{
    let s = snapshot;
    match (action, preconditions) {
        (AgentActionRequest::SetRoutingMode { mode }, ActionPreconditions::SetRoutingMode { .. }) => {
            option_mode_is(s.core.routing_mode, *mode) && option_mode_is(
                s.core.observed_routing_mode,
                *mode,
            ) && s.core.applied_consistency == AgentAppliedState::Consistent
        },
        (AgentActionRequest::SetTunEnabled { enabled }, ActionPreconditions::SetTunEnabled { selected_core, .. }) => {
            tun_target_is_applied(s, *enabled) && s.core.selected_core == *selected_core
        },
        (
            AgentActionRequest::SetSystemProxyEnabled { enabled },
            ActionPreconditions::SetSystemProxyEnabled { expected_port, .. },
        ) => {
            s.system_proxy.desired_enabled == *enabled && option_bool_is(
                s.system_proxy.observed_enabled,
                *enabled,
            ) && (!*enabled || (s.system_proxy.observed_host_scope == AgentHostScope::Loopback
                && option_port_is(s.system_proxy.observed_port, *expected_port) && option_bool_is(
                s.system_proxy.matches_expected_endpoint,
                true,
            )))
        },
        (
            AgentActionRequest::SetServiceMode { enabled },
            ActionPreconditions::SetServiceMode { core_state_changed_at, selected_core, .. },
        ) => {
            let run_type_matches = if *enabled {
                s.core.run_type == AgentRunType::Service
            } else {
                s.core.run_type != AgentRunType::Service
            };
            s.service.desired_enabled == *enabled && s.service.state == AgentServiceState::Running
                && s.service.ipc_connected && option_bool_is(s.service.runtime_compatible, true)
                && s.core.state == AgentCoreState::Running && s.core.state_changed_at
                > *core_state_changed_at && s.core.selected_core == *selected_core
                && run_type_matches
        },
        (AgentActionRequest::StartCore, ActionPreconditions::StartCore { core_state_changed_at, selected_core }) => {
            s.core.state == AgentCoreState::Running && s.core.state_changed_at
                > *core_state_changed_at && s.core.selected_core == *selected_core
                && s.core.runtime_config_present
        },
        (AgentActionRequest::RestartCore, ActionPreconditions::RestartCore { core_state_changed_at, selected_core }) => {
            s.core.state == AgentCoreState::Running && s.core.state_changed_at
                > *core_state_changed_at && s.core.selected_core == *selected_core
                && s.core.runtime_config_present
        },
        (
            AgentActionRequest::ReconnectTelemetry,
            ActionPreconditions::ReconnectTelemetry { core_state_changed_at, selected_core },
        ) => {
            s.core.state == AgentCoreState::Running && s.core.state_changed_at
                == *core_state_changed_at && s.core.selected_core == *selected_core
                && s.telemetry.state == AgentConnectorState::Connected
        },
        (AgentActionRequest::StartService, ActionPreconditions::ControlService { core_state_changed_at, .. })
        | (AgentActionRequest::RestartService, ActionPreconditions::ControlService { core_state_changed_at, .. }) => {
            s.service.desired_enabled && s.service.state == AgentServiceState::Running
                && s.service.ipc_connected && option_bool_is(s.service.runtime_compatible, true)
                && s.core.state == AgentCoreState::Running && s.core.run_type
                == AgentRunType::Service && s.core.state_changed_at > *core_state_changed_at
        },
        (AgentActionRequest::StopService, ActionPreconditions::ControlService { .. }) => {
            !s.service.desired_enabled && s.service.state == AgentServiceState::Stopped
                && !s.service.ipc_connected
        },
        (
            AgentActionRequest::RepairSystemProxyEndpoint,
            ActionPreconditions::RepairSystemProxyEndpoint { expected_port, .. },
        ) => {
            s.core.state == AgentCoreState::Running && s.system_proxy.desired_enabled
                && option_bool_is(s.system_proxy.observed_enabled, true)
                && s.system_proxy.observed_host_scope == AgentHostScope::Loopback && option_port_is(
                s.system_proxy.observed_port,
                *expected_port,
            ) && option_bool_is(s.system_proxy.matches_expected_endpoint, true)
        },
        (AgentActionRequest::DisableStaleSystemProxy, ActionPreconditions::DisableStaleSystemProxy { .. }) => {
            option_bool_is(s.system_proxy.observed_enabled, false) && !s.system_proxy.desired_enabled
        },
        _ => false,
    }
}

pub fn recommendation_candidates(snapshot: &AgentNetworkSnapshot) -> (candidates: Vec<AgentActionRequest>)
    ensures
        candidates@ == spec_recommendation_candidates(*snapshot),
{
    vec![
        AgentActionRequest::SetRoutingMode { mode: AgentRoutingMode::Rule },
        AgentActionRequest::SetRoutingMode { mode: AgentRoutingMode::Global },
        AgentActionRequest::SetRoutingMode { mode: AgentRoutingMode::Direct },
        AgentActionRequest::SetTunEnabled { enabled: !snapshot.tun.desired_enabled },
        AgentActionRequest::SetSystemProxyEnabled { enabled: !snapshot.system_proxy.desired_enabled },
        AgentActionRequest::SetServiceMode { enabled: !snapshot.service.desired_enabled },
        AgentActionRequest::StartCore,
        AgentActionRequest::RestartCore,
        AgentActionRequest::ReconnectTelemetry,
        AgentActionRequest::StartService,
        AgentActionRequest::StopService,
        AgentActionRequest::RestartService,
        AgentActionRequest::RepairSystemProxyEndpoint,
        AgentActionRequest::DisableStaleSystemProxy,
    ]
}

pub fn recommendations(snapshot: &AgentNetworkSnapshot) -> (recommendations: Vec<AgentRecommendation>)
    ensures
        recommendations@.len() == spec_recommendation_candidates(*snapshot).len(),
        forall|i: int|
            0 <= i < recommendations@.len() ==> {
                let action = spec_recommendation_candidates(*snapshot)[i];
                &&& (#[trigger] recommendations@[i]).action == action
                &&& recommendation_reflects_plan(recommendations@[i], spec_plan_action(*snapshot, action))
            },
{
    let candidates = recommendation_candidates(snapshot);
    let mut result: Vec<AgentRecommendation> = Vec::new();
    let mut i: usize = 0;
    while i < candidates.len()
        invariant
            i <= candidates.len(),
            candidates@ == spec_recommendation_candidates(*snapshot),
            result@.len() == i,
            forall|j: int|
                0 <= j < i ==> {
                    let action = candidates@[j];
                    &&& (#[trigger] result@[j]).action == action
                    &&& recommendation_reflects_plan(result@[j], spec_plan_action(*snapshot, action))
                },
        decreases candidates.len() - i,
    {
        let action = candidates[i];
        let recommendation = match plan_action(snapshot, &action) {
            Ok(plan) => AgentRecommendation {
                action,
                available: true,
                unavailable_reason: None,
                risk: Some(plan.risk),
                impacts: plan.impacts,
            },
            Err(_) => AgentRecommendation {
                action,
                available: false,
                unavailable_reason: Some(AgentRecommendationUnavailableReason::CurrentStateNotSupported),
                risk: None,
                impacts: Vec::new(),
            },
        };
        result.push(recommendation);
        i = i + 1;
    }
    result
}

/// The observed system proxy endpoint is classified consistently: it counts as the
/// expected endpoint exactly when it is a loopback host on the expected port.
pub open spec fn proxy_endpoint_consistent(s: AgentNetworkSnapshot) -> bool {
    s.system_proxy.matches_expected_endpoint == Some(true) ==> (s.system_proxy.observed_host_scope
        == AgentHostScope::Loopback && s.system_proxy.observed_port == Some(s.system_proxy.expected_mixed_port))
}

/// While the core state or its run type is unknown, no action can be planned.
pub proof fn lemma_unknown_core_blocks_every_action(s: AgentNetworkSnapshot, action: AgentActionRequest)
    requires
        s.core.state == AgentCoreState::Unknown || s.core.run_type == AgentRunType::Unknown,
    ensures
        spec_plan_action(s, action) == Err::<PlanSpec, AgentCommandError>(AgentCommandError::ActionNotAvailable),
{
}

/// Every plan discloses exactly one state change and at least one impact, and
/// only the not-available error is ever reported by planning.
pub proof fn lemma_plan_discloses_change_and_impact(s: AgentNetworkSnapshot, action: AgentActionRequest)
    ensures
        spec_plan_action(s, action) matches Ok(p) ==> p.changes.len() == 1 && p.impacts.len() >= 1,
        spec_plan_action(s, action) matches Err(e) ==> e == AgentCommandError::ActionNotAvailable,
{
}

/// The preconditions that a plan records hold of the snapshot it was planned
/// from, so an unchanged network state always passes revalidation. (For the
/// stale-proxy action this needs the endpoint classification to be consistent.)
pub proof fn lemma_plan_preconditions_hold_at_planning(s: AgentNetworkSnapshot, action: AgentActionRequest)
    requires
        spec_plan_action(s, action) is Ok,
        action == AgentActionRequest::DisableStaleSystemProxy ==> proxy_endpoint_consistent(s),
    ensures
        preconditions_hold(s, spec_plan_action(s, action)->Ok_0.preconditions),
{
}

/// No action counts as verified by the very snapshot it was planned from: a
/// verified action always requires an observable change of state.
pub proof fn lemma_plan_not_verified_by_its_own_snapshot(s: AgentNetworkSnapshot, action: AgentActionRequest)
    requires
        spec_plan_action(s, action) is Ok,
    ensures
        !action_verified(s, action, spec_plan_action(s, action)->Ok_0.preconditions),
{
}

/// Once the core has changed state (a new instance or a stop), the recorded
/// preconditions of every plan made before fail revalidation.
pub proof fn lemma_core_change_invalidates_plans(s: AgentNetworkSnapshot, current: AgentNetworkSnapshot, action: AgentActionRequest)
    requires
        spec_plan_action(s, action) is Ok,
        current.core.state_changed_at != s.core.state_changed_at,
    ensures
        !preconditions_hold(current, spec_plan_action(s, action)->Ok_0.preconditions),
{
}

/// The impact a routing mode discloses besides the change of existing connections: rule
/// routing is restored, all traffic goes through the proxy, or traffic may bypass the proxy.
pub proof fn lemma_routing_impact_of_each_mode()
    ensures
        spec_routing_impacts(AgentRoutingMode::Rule) == seq![
            AgentImpact::ExistingConnectionsMayChange,
            AgentImpact::RestoreRuleRouting,
        ],
        spec_routing_impacts(AgentRoutingMode::Global) == seq![
            AgentImpact::ExistingConnectionsMayChange,
            AgentImpact::AllTrafficUsesProxy,
        ],
        spec_routing_impacts(AgentRoutingMode::Direct) == seq![
            AgentImpact::ExistingConnectionsMayChange,
            AgentImpact::TrafficMayBypassProxy,
        ],
{
}

/// A routing-mode plan is available exactly for a known, running core whose configured and
/// observed modes agree and differ from the target; it then discloses that existing connections
/// may change, followed by what the target mode means: switching to rule routing restores it,
/// switching to global sends all traffic through the proxy, and switching to direct lets
/// traffic bypass the proxy.
pub proof fn lemma_routing_plan_discloses_its_target(s: AgentNetworkSnapshot, mode: AgentRoutingMode)
    ensures
        spec_plan_action(s, AgentActionRequest::SetRoutingMode { mode }) is Ok <==> (
            s.core.state == AgentCoreState::Running && s.core.run_type != AgentRunType::Unknown
            && s.core.routing_mode is Some && s.core.routing_mode != Some(mode)
            && s.core.observed_routing_mode == s.core.routing_mode),
        spec_plan_routing_mode(s, mode) matches Ok(p) ==> p.impacts == seq![
            AgentImpact::ExistingConnectionsMayChange,
            match mode {
                AgentRoutingMode::Rule => AgentImpact::RestoreRuleRouting,
                AgentRoutingMode::Global => AgentImpact::AllTrafficUsesProxy,
                AgentRoutingMode::Direct => AgentImpact::TrafficMayBypassProxy,
            },
        ],
        spec_plan_action(s, AgentActionRequest::SetRoutingMode { mode }) matches Ok(p) ==> p.impacts
            == seq![
            AgentImpact::ExistingConnectionsMayChange,
            match mode {
                AgentRoutingMode::Rule => AgentImpact::RestoreRuleRouting,
                AgentRoutingMode::Global => AgentImpact::AllTrafficUsesProxy,
                AgentRoutingMode::Direct => AgentImpact::TrafficMayBypassProxy,
            },
        ],
{
    lemma_routing_impact_of_each_mode();
}

/// A routing-mode plan is a traffic change that discloses exactly one change, of the routing
/// mode from the configured mode to the target, and records the configured mode and the time
/// of the core's last state change for revalidation.
pub proof fn lemma_routing_plan_records_its_change(s: AgentNetworkSnapshot, mode: AgentRoutingMode)
    ensures
        spec_plan_action(s, AgentActionRequest::SetRoutingMode { mode }) matches Ok(p) ==> {
            &&& p.risk == AgentActionRisk::TrafficChange
            &&& p.changes.len() == 1
            &&& p.changes[0].field == AgentStateField::RoutingMode
            &&& p.changes[0].before == match s.core.routing_mode.unwrap() {
                AgentRoutingMode::Rule => AgentStateValue::Rule,
                AgentRoutingMode::Global => AgentStateValue::Global,
                AgentRoutingMode::Direct => AgentStateValue::Direct,
            }
            &&& p.changes[0].after == match mode {
                AgentRoutingMode::Rule => AgentStateValue::Rule,
                AgentRoutingMode::Global => AgentStateValue::Global,
                AgentRoutingMode::Direct => AgentStateValue::Direct,
            }
            &&& p.preconditions == (ActionPreconditions::SetRoutingMode {
                before: s.core.routing_mode.unwrap(),
                core_state_changed_at: s.core.state_changed_at,
            })
        },
{
}

} // verus!
