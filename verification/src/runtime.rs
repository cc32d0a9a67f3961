//! How the runtime judges that a change took effect, what it reports when a change or its
//! rollback fails, and how the application's configuration maps onto the agent model.
use vstd::prelude::*;

use crate::diagnostics::{host_scope, spec_host_scope, SystemProxyConfiguration};
use crate::error::AgentCommandError;
use crate::model::{
    AgentAppliedState, AgentCoreState, AgentHostScope, AgentNetworkSnapshot, AgentProfileSnapshot,
    AgentRoutingMode, AgentRunType, AgentSelectedCore, AgentServiceState,
};
use crate::text::{chars_are_blank, chars_of, is_blank, str_equal};

verus! {

/// Whether TUN is on or off as asked, in the configuration, the generated runtime and the core,
/// with a running core.
pub open spec fn tun_applied(snapshot: AgentNetworkSnapshot, target: bool) -> bool {
    &&& snapshot.tun.desired_enabled == target
    &&& snapshot.tun.generated_runtime_enabled == Some(target)
    &&& snapshot.tun.observed_enabled == Some(target)
    &&& snapshot.tun.applied_consistency == AgentAppliedState::Consistent
    &&& snapshot.core.state == AgentCoreState::Running
}

pub fn tun_target_is_applied(snapshot: &AgentNetworkSnapshot, target: bool) -> (applied: bool)
    ensures
        applied == tun_applied(*snapshot, target),
{
    snapshot.tun.desired_enabled == target && snapshot.tun.generated_runtime_enabled == Some(target)
        && snapshot.tun.observed_enabled == Some(target) && snapshot.tun.applied_consistency
        == AgentAppliedState::Consistent && snapshot.core.state == AgentCoreState::Running
}

/// Whether the system proxy is on or off as asked, and when on, points at the expected endpoint.
pub open spec fn system_proxy_applied(snapshot: AgentNetworkSnapshot, target: bool) -> bool {
    &&& snapshot.system_proxy.desired_enabled == target
    &&& snapshot.system_proxy.observed_enabled == Some(target)
    &&& (!target || snapshot.system_proxy.matches_expected_endpoint == Some(true))
}

pub fn system_proxy_target_is_applied(snapshot: &AgentNetworkSnapshot, target: bool) -> (applied:
    bool)
    ensures
        applied == system_proxy_applied(*snapshot, target),
{
    snapshot.system_proxy.desired_enabled == target && snapshot.system_proxy.observed_enabled
        == Some(target) && (!target || snapshot.system_proxy.matches_expected_endpoint == Some(
        true,
    ))
}

/// Whether service mode is as asked: a healthy, compatible, connected service, a running core,
/// and the core running under the service exactly when service mode is on.
pub open spec fn service_mode_applied(snapshot: AgentNetworkSnapshot, target: bool) -> bool {
    &&& snapshot.service.desired_enabled == target
    &&& snapshot.service.state == AgentServiceState::Running
    &&& snapshot.service.ipc_connected
    &&& snapshot.service.runtime_compatible == Some(true)
    &&& snapshot.core.state == AgentCoreState::Running
    &&& (snapshot.core.run_type == AgentRunType::Service) == target
}

pub fn service_mode_target_is_applied(snapshot: &AgentNetworkSnapshot, target: bool) -> (applied:
    bool)
    ensures
        applied == service_mode_applied(*snapshot, target),
{
    snapshot.service.desired_enabled == target && snapshot.service.state
        == AgentServiceState::Running && snapshot.service.ipc_connected
        && snapshot.service.runtime_compatible == Some(true) && snapshot.core.state
        == AgentCoreState::Running && if target {
        snapshot.core.run_type == AgentRunType::Service
    } else {
        snapshot.core.run_type != AgentRunType::Service
    }
}

/// Whether the routing mode is as asked in the configuration and in the core.
pub open spec fn routing_mode_applied(snapshot: AgentNetworkSnapshot, target: AgentRoutingMode) -> bool {
    &&& snapshot.core.routing_mode == Some(target)
    &&& snapshot.core.observed_routing_mode == Some(target)
    &&& snapshot.core.applied_consistency == AgentAppliedState::Consistent
}

pub fn routing_mode_target_is_applied(snapshot: &AgentNetworkSnapshot, target: AgentRoutingMode) -> (applied: bool)
    ensures
        applied == routing_mode_applied(*snapshot, target),
{
    snapshot.core.routing_mode == Some(target) && snapshot.core.observed_routing_mode == Some(
        target,
    ) && snapshot.core.applied_consistency == AgentAppliedState::Consistent
}

/// Whether a host proxy setting is on and points at the local mixed port.
pub open spec fn expected_enabled_proxy(enabled: bool, host: Seq<char>, port: u16, expected_port: u16) -> bool {
    enabled && port == expected_port && spec_host_scope(host) == AgentHostScope::Loopback
}

pub fn is_expected_enabled_proxy(proxy: &SystemProxyConfiguration, expected_port: u16) -> (expected:
    bool)
    ensures
        expected == expected_enabled_proxy(proxy.enabled, proxy.host@, proxy.port, expected_port),
{
    proxy.enabled && proxy.port == expected_port && host_scope(proxy.host.as_str())
        == AgentHostScope::Loopback
}

/// What a change reports after it was tried: it stands when it was applied and verified; a
/// change that failed or could not be verified is rolled back, and a rollback that did not
/// take leaves it partially applied.
pub open spec fn change_outcome(applied: bool, verified: bool, restored: bool) -> Result<
    (),
    AgentCommandError,
> {
    if applied && verified {
        Ok(())
    } else if !restored {
        Err(AgentCommandError::PartialApply)
    } else if !applied {
        Err(AgentCommandError::ActionFailed)
    } else {
        Err(AgentCommandError::VerificationFailed)
    }
}

pub fn settle_change(applied: bool, verified: bool, restored: bool) -> (outcome: Result<
    (),
    AgentCommandError,
>)
    ensures
        outcome == change_outcome(applied, verified, restored),
{
    if applied && verified {
        Ok(())
    } else if !restored {
        Err(AgentCommandError::PartialApply)
    } else if !applied {
        Err(AgentCommandError::ActionFailed)
    } else {
        Err(AgentCommandError::VerificationFailed)
    }
}

/// Where a host change stands. A change makes its mutations one after another, then observes
/// the result; a failed mutation or a failed observation makes it restore the state from before.
#[derive(Debug, Clone, Copy, PartialEq, Eq, Structural)]
pub enum ChangeStage {
    /// The mutation of the given number, counted from zero, is made next.
    Applying { step: u8 },
    /// Every mutation succeeded; the result is observed next.
    Verifying,
    /// The earlier state is restored next; `cause` is reported if that succeeds.
    RollingBack { cause: AgentCommandError },
}

/// What a change does after the work of its current stage.
#[derive(Debug, Clone, Copy)]
pub enum ChangeStep {
    Next(ChangeStage),
    Finished(Result<(), AgentCommandError>),
}

pub open spec fn spec_change_step(mutations: u8, stage: ChangeStage, succeeded: bool) -> ChangeStep {
    match stage {
        ChangeStage::Applying { step } => if !succeeded {
            ChangeStep::Next(ChangeStage::RollingBack { cause: AgentCommandError::ActionFailed })
        } else if step + 1 < mutations {
            ChangeStep::Next(ChangeStage::Applying { step: (step + 1) as u8 })
        } else {
            ChangeStep::Next(ChangeStage::Verifying)
        },
        ChangeStage::Verifying => if succeeded {
            ChangeStep::Finished(Ok(()))
        } else {
            ChangeStep::Next(
                ChangeStage::RollingBack { cause: AgentCommandError::VerificationFailed },
            )
        },
        ChangeStage::RollingBack { cause } => if succeeded {
            ChangeStep::Finished(Err(cause))
        } else {
            ChangeStep::Finished(Err(AgentCommandError::PartialApply))
        },
    }
}

/// Decides what a change of `mutations` mutations does after its current stage, from whether the
/// work of that stage succeeded: the mutation was made, the observation showed the target, or
/// the earlier state was restored.
pub fn change_step(mutations: u8, stage: ChangeStage, succeeded: bool) -> (step: ChangeStep)
    ensures
        step == spec_change_step(mutations, stage, succeeded),
{
    match stage {
        ChangeStage::Applying { step } => if !succeeded {
            ChangeStep::Next(ChangeStage::RollingBack { cause: AgentCommandError::ActionFailed })
        } else if (step as u16) + 1 < mutations as u16 {
            ChangeStep::Next(ChangeStage::Applying { step: step + 1 })
        } else {
            ChangeStep::Next(ChangeStage::Verifying)
        },
        ChangeStage::Verifying => if succeeded {
            ChangeStep::Finished(Ok(()))
        } else {
            ChangeStep::Next(
                ChangeStage::RollingBack { cause: AgentCommandError::VerificationFailed },
            )
        },
        ChangeStage::RollingBack { cause } => if succeeded {
            ChangeStep::Finished(Err(cause))
        } else {
            ChangeStep::Finished(Err(AgentCommandError::PartialApply))
        },
    }
}

/// The result of a change driven from `stage` by the successive outcomes of its work, if it
/// finishes within them.
pub open spec fn run_change(mutations: u8, stage: ChangeStage, outcomes: Seq<bool>) -> Option<
    Result<(), AgentCommandError>,
>
    decreases outcomes.len(),
{
    if outcomes.len() == 0 {
        None
    } else {
        match spec_change_step(mutations, stage, outcomes[0]) {
            ChangeStep::Finished(result) => Some(result),
            ChangeStep::Next(next) => run_change(mutations, next, outcomes.drop_first()),
        }
    }
}

proof fn lemma_run_from_step(mutations: u8, step: u8, outcomes: Seq<bool>)
    requires
        step < mutations,
        outcomes.len() >= mutations - step + 2,
    ensures
        (forall|i: int| 0 <= i < mutations - step ==> #[trigger] outcomes[i]) ==> run_change(
            mutations,
            ChangeStage::Applying { step },
            outcomes,
        ) == Some(
            change_outcome(true, outcomes[mutations - step], outcomes[mutations - step + 1]),
        ),
        forall|k: int|
            0 <= k < mutations - step && !#[trigger] outcomes[k] && (forall|i: int|
                0 <= i < k ==> outcomes[i]) ==> run_change(
                mutations,
                ChangeStage::Applying { step },
                outcomes,
            ) == Some(change_outcome(false, false, outcomes[k + 1])),
    decreases mutations - step,
{
    let rest = outcomes.drop_first();
    assert(rest.drop_first() == outcomes.drop_first().drop_first());
    if !outcomes[0] {
        assert(run_change(mutations, ChangeStage::RollingBack { cause: AgentCommandError::ActionFailed }, rest)
            == Some(change_outcome(false, false, outcomes[1])));
        assert forall|k: int|
            0 <= k < mutations - step && !#[trigger] outcomes[k] && (forall|i: int|
                0 <= i < k ==> outcomes[i]) implies run_change(
                mutations,
                ChangeStage::Applying { step },
                outcomes,
            ) == Some(change_outcome(false, false, outcomes[k + 1])) by {
            if k > 0 {
                assert(outcomes[0]);
            }
        }
    } else if step + 1 < mutations {
        let next = (step + 1) as u8;
        lemma_run_from_step(mutations, next, rest);
        assert((forall|i: int| 0 <= i < mutations - step ==> #[trigger] outcomes[i]) ==> (forall|
            i: int,
        | 0 <= i < mutations - next ==> #[trigger] rest[i])) by {
            if forall|i: int| 0 <= i < mutations - step ==> #[trigger] outcomes[i] {
                assert forall|i: int| 0 <= i < mutations - next implies #[trigger] rest[i] by {
                    assert(outcomes[i + 1]);
                }
            }
        }
        assert forall|k: int|
            0 <= k < mutations - step && !#[trigger] outcomes[k] && (forall|i: int|
                0 <= i < k ==> outcomes[i]) implies run_change(
                mutations,
                ChangeStage::Applying { step },
                outcomes,
            ) == Some(change_outcome(false, false, outcomes[k + 1])) by {
            assert(k != 0);
            let j = k - 1;
            assert(!rest[j]);
            assert forall|i: int| 0 <= i < j implies rest[i] by {
                assert(outcomes[i + 1]);
            }
            assert(rest[j + 1] == outcomes[k + 1]);
        }
    } else {
        assert(step + 1 == mutations);
        let rest2 = rest.drop_first();
        assert(run_change(mutations, ChangeStage::Verifying, rest) == Some(
            change_outcome(true, rest[0], rest[1]),
        )) by {
            if !rest[0] {
                assert(rest2[0] == rest[1]);
                let rolling = ChangeStage::RollingBack { cause: AgentCommandError::VerificationFailed };
                assert(run_change(mutations, rolling, rest2) == Some(change_outcome(true, false, rest[1])));
            }
        }
        assert forall|k: int|
            0 <= k < mutations - step && !#[trigger] outcomes[k] && (forall|i: int|
                0 <= i < k ==> outcomes[i]) implies run_change(
                mutations,
                ChangeStage::Applying { step },
                outcomes,
            ) == Some(change_outcome(false, false, outcomes[k + 1])) by {
            assert(k == 0);
        }
    }
}

/// A change of one or more mutations, driven by the outcomes of its work, ends as
/// `change_outcome` says: when every mutation succeeds, the observation decides, and the
/// restore decides after a failed observation; when a mutation fails, nothing more is made and
/// the restore that follows decides.
pub proof fn lemma_change_ends_as_its_outcome_says(mutations: u8, outcomes: Seq<bool>)
    requires
        mutations >= 1,
        outcomes.len() >= mutations + 2,
    ensures
        (forall|i: int| 0 <= i < mutations ==> #[trigger] outcomes[i]) ==> run_change(
            mutations,
            ChangeStage::Applying { step: 0 },
            outcomes,
        ) == Some(change_outcome(true, outcomes[mutations as int], outcomes[mutations + 1])),
        forall|k: int|
            0 <= k < mutations && !#[trigger] outcomes[k] && (forall|i: int|
                0 <= i < k ==> outcomes[i]) ==> run_change(
                mutations,
                ChangeStage::Applying { step: 0 },
                outcomes,
            ) == Some(change_outcome(false, false, outcomes[k + 1])),
{
    lemma_run_from_step(mutations, 0, outcomes);
}

/// A repair of the proxy endpoint may start only with a running core, a proxy that should be
/// on, and a host proxy that is on but points elsewhere.
pub open spec fn proxy_repair_allowed(
    core_state: AgentCoreState,
    desired_before: bool,
    enabled: bool,
    host: Seq<char>,
    port: u16,
    expected_port: u16,
) -> bool {
    &&& core_state == AgentCoreState::Running
    &&& desired_before
    &&& enabled
    &&& !expected_enabled_proxy(enabled, host, port, expected_port)
}

pub fn check_proxy_repair(
    core_state: AgentCoreState,
    desired_before: bool,
    current: &SystemProxyConfiguration,
    expected_port: u16,
) -> (result: Result<(), AgentCommandError>)
    ensures
        result is Ok <==> proxy_repair_allowed(
            core_state,
            desired_before,
            current.enabled,
            current.host@,
            current.port,
            expected_port,
        ),
        result is Err ==> result == Err::<(), AgentCommandError>(
            AgentCommandError::NetworkStateChanged,
        ),
{
    if core_state != AgentCoreState::Running || !desired_before {
        return Err(AgentCommandError::NetworkStateChanged);
    }
    if !current.enabled || is_expected_enabled_proxy(current, expected_port) {
        return Err(AgentCommandError::NetworkStateChanged);
    }
    Ok(())
}

/// Disabling a stale proxy may start only with a stopped core and a host proxy that still points
/// at the local mixed port.
pub fn check_stale_proxy_disable(
    core_state: AgentCoreState,
    current: &SystemProxyConfiguration,
    expected_port: u16,
) -> (result: Result<(), AgentCommandError>)
    ensures
        result is Ok <==> (core_state == AgentCoreState::Stopped && expected_enabled_proxy(
            current.enabled,
            current.host@,
            current.port,
            expected_port,
        )),
        result is Err ==> result == Err::<(), AgentCommandError>(
            AgentCommandError::NetworkStateChanged,
        ),
{
    if core_state != AgentCoreState::Stopped {
        return Err(AgentCommandError::NetworkStateChanged);
    }
    if !is_expected_enabled_proxy(current, expected_port) {
        return Err(AgentCommandError::NetworkStateChanged);
    }
    Ok(())
}

/// The first decision of disabling a stale proxy, before anything is read: it goes on only while
/// the core is stopped.
pub fn start_stale_proxy_disable(core_state: AgentCoreState) -> (result: Result<(), AgentCommandError>)
    ensures
        result == (if core_state == AgentCoreState::Stopped {
            Ok::<(), AgentCommandError>(())
        } else {
            Err(AgentCommandError::NetworkStateChanged)
        }),
{
    if core_state != AgentCoreState::Stopped {
        return Err(AgentCommandError::NetworkStateChanged);
    }
    Ok(())
}

/// What the first read of the host proxy decides when a stale proxy is disabled: a failed read
/// ends the change with its error, and a proxy that no longer points at the local mixed port
/// ends it as a changed state; otherwise the change goes on with the setting read, which a
/// rollback restores.
pub fn check_stale_proxy_read(
    read: Result<SystemProxyConfiguration, AgentCommandError>,
    expected_port: u16,
) -> (result: Result<SystemProxyConfiguration, AgentCommandError>)
    ensures
        match read {
            Err(e) => result == Err::<SystemProxyConfiguration, AgentCommandError>(e),
            Ok(current) => if expected_enabled_proxy(
                current.enabled,
                current.host@,
                current.port,
                expected_port,
            ) {
                result == Ok::<SystemProxyConfiguration, AgentCommandError>(current)
            } else {
                result == Err::<SystemProxyConfiguration, AgentCommandError>(
                    AgentCommandError::NetworkStateChanged,
                )
            },
        },
{
    match read {
        Err(e) => Err(e),
        Ok(current) => {
            if !is_expected_enabled_proxy(&current, expected_port) {
                return Err(AgentCommandError::NetworkStateChanged);
            }
            Ok(current)
        },
    }
}

/// The verification of a stale-proxy disable: the host proxy, read again after the change, is
/// off. A failed read does not verify it.
pub fn stale_proxy_is_off(reread: &Result<SystemProxyConfiguration, AgentCommandError>) -> (off:
    bool)
    ensures
        off == (match reread {
            Ok(observed) => !observed.enabled,
            Err(_) => false,
        }),
{
    match reread {
        Ok(observed) => !observed.enabled,
        Err(_) => false,
    }
}

/// Whether restoring the host proxy succeeded: both the desired setting and the host setting
/// read before the change were written back. Both writes are made whatever the first gives.
pub fn proxy_restored(desired_persisted: bool, setting_written: bool) -> (restored: bool)
    ensures
        restored == (desired_persisted && setting_written),
{
    desired_persisted && setting_written
}

/// What disabling a stale proxy ends with, step by step: a core that is not stopped is refused
/// before anything is read; a failed first read ends with its error, and a proxy that no longer
/// points at the local mixed port ends as a changed state; then the desired setting is turned off
/// and the host proxy written off, and a failure of either is rolled back and reported as a
/// failed action; the change stands only when the proxy is read back as off, and otherwise it is
/// rolled back and reported as not verified; a rollback that did not take leaves it partially
/// applied.
pub open spec fn stale_disable_result(
    core_state: AgentCoreState,
    read: Result<SystemProxyConfiguration, AgentCommandError>,
    expected_port: u16,
    persisted: bool,
    written: bool,
    reread_off: bool,
    restored: bool,
) -> Result<(), AgentCommandError> {
    if core_state != AgentCoreState::Stopped {
        Err(AgentCommandError::NetworkStateChanged)
    } else {
        match read {
            Err(e) => Err(e),
            Ok(current) => if !expected_enabled_proxy(
                current.enabled,
                current.host@,
                current.port,
                expected_port,
            ) {
                Err(AgentCommandError::NetworkStateChanged)
            } else if !persisted || !written {
                if restored {
                    Err(AgentCommandError::ActionFailed)
                } else {
                    Err(AgentCommandError::PartialApply)
                }
            } else if reread_off {
                Ok(())
            } else if restored {
                Err(AgentCommandError::VerificationFailed)
            } else {
                Err(AgentCommandError::PartialApply)
            },
        }
    }
}

/// The outcomes that the two mutations of a stale-proxy disable (turning the desired setting
/// off, writing the host proxy off), its verification and its rollback give, in the order they
/// happen; nothing is tried after a failed mutation but the rollback.
pub open spec fn stale_disable_outcomes(
    persisted: bool,
    written: bool,
    reread_off: bool,
    restored: bool,
) -> Seq<bool> {
    if !persisted {
        seq![false, restored]
    } else if !written {
        seq![true, false, restored]
    } else if reread_off {
        seq![true, true, true]
    } else {
        seq![true, true, false, restored]
    }
}

/// Disabling a stale proxy with `start_stale_proxy_disable`, `check_stale_proxy_read`, and the
/// change steps over its two mutations, ends exactly as `stale_disable_result` says.
pub proof fn lemma_stale_disable_runs_as_stated(
    core_state: AgentCoreState,
    read: Result<SystemProxyConfiguration, AgentCommandError>,
    expected_port: u16,
    persisted: bool,
    written: bool,
    reread_off: bool,
    restored: bool,
)
    ensures
        ({
            let started = core_state == AgentCoreState::Stopped;
            let checked = match read {
                Err(e) => Err::<(), AgentCommandError>(e),
                Ok(current) => if expected_enabled_proxy(
                    current.enabled,
                    current.host@,
                    current.port,
                    expected_port,
                ) {
                    Ok(())
                } else {
                    Err(AgentCommandError::NetworkStateChanged)
                },
            };
            let result = if !started {
                Err(AgentCommandError::NetworkStateChanged)
            } else {
                match checked {
                    Err(e) => Err(e),
                    Ok(()) => run_change(
                        2,
                        ChangeStage::Applying { step: 0 },
                        stale_disable_outcomes(persisted, written, reread_off, restored),
                    ).unwrap(),
                }
            };
            result == stale_disable_result(
                core_state,
                read,
                expected_port,
                persisted,
                written,
                reread_off,
                restored,
            )
        }),
{
    reveal_with_fuel(run_change, 5);
    let o = stale_disable_outcomes(persisted, written, reread_off, restored);
    let first = ChangeStage::Applying { step: 0 };
    let failed = ChangeStage::RollingBack { cause: AgentCommandError::ActionFailed };
    let unverified = ChangeStage::RollingBack { cause: AgentCommandError::VerificationFailed };
    if !persisted {
        assert(o.drop_first() =~= seq![restored]);
        assert(run_change(2, failed, seq![restored]) == Some(
            if restored { Err::<(), AgentCommandError>(AgentCommandError::ActionFailed) } else {
                Err(AgentCommandError::PartialApply) },
        ));
    } else if !written {
        assert(o.drop_first() =~= seq![false, restored]);
        assert(o.drop_first().drop_first() =~= seq![restored]);
        assert(run_change(2, failed, seq![restored]) == Some(
            if restored { Err::<(), AgentCommandError>(AgentCommandError::ActionFailed) } else {
                Err(AgentCommandError::PartialApply) },
        ));
    } else if reread_off {
        assert(o.drop_first() =~= seq![true, true]);
        assert(o.drop_first().drop_first() =~= seq![true]);
    } else {
        assert(o.drop_first() =~= seq![true, false, restored]);
        assert(o.drop_first().drop_first() =~= seq![false, restored]);
        assert(o.drop_first().drop_first().drop_first() =~= seq![restored]);
        assert(run_change(2, unverified, seq![restored]) == Some(
            if restored { Err::<(), AgentCommandError>(AgentCommandError::VerificationFailed) } else {
                Err(AgentCommandError::PartialApply) },
        ));
    }
}

fn copy_text(text: &String) -> (copy: String)
    ensures
        copy@ == text@,
{
    text.as_str().to_owned()
}

/// The host proxy setting pointed back at the local mixed port; the bypass list is kept.
pub fn repaired_proxy(current: &SystemProxyConfiguration, expected_port: u16) -> (repaired:
    SystemProxyConfiguration)
    ensures
        repaired.enabled,
        repaired.host@ == "127.0.0.1"@,
        repaired.port == expected_port,
        repaired.bypass@ == current.bypass@,
{
    SystemProxyConfiguration {
        enabled: true,
        host: "127.0.0.1".to_owned(),
        port: expected_port,
        bypass: copy_text(&current.bypass),
    }
}

/// The host proxy setting turned off; host, port and bypass list are kept.
pub fn disabled_proxy(current: &SystemProxyConfiguration) -> (disabled: SystemProxyConfiguration)
    ensures
        !disabled.enabled,
        disabled.host@ == current.host@,
        disabled.port == current.port,
        disabled.bypass@ == current.bypass@,
{
    SystemProxyConfiguration {
        enabled: false,
        host: copy_text(&current.host),
        port: current.port,
        bypass: copy_text(&current.bypass),
    }
}

/// The cores the application can run.
#[derive(Debug, Clone, Copy, PartialEq, Eq, Structural)]
pub enum ClashCore {
    ClashPremium,
    ClashRs,
    Mihomo,
    ChimeraClient,
    MihomoAlpha,
    ClashRsAlpha,
}

pub open spec fn selected_core_of(core: ClashCore) -> AgentSelectedCore {
    match core {
        ClashCore::ClashPremium => AgentSelectedCore::Clash,
        ClashCore::ClashRs => AgentSelectedCore::ClashRs,
        ClashCore::Mihomo => AgentSelectedCore::Mihomo,
        ClashCore::ChimeraClient => AgentSelectedCore::ChimeraClient,
        ClashCore::MihomoAlpha => AgentSelectedCore::MihomoAlpha,
        ClashCore::ClashRsAlpha => AgentSelectedCore::ClashRsAlpha,
    }
}

pub fn map_selected_core(core: ClashCore) -> (selected: AgentSelectedCore)
    ensures
        selected == selected_core_of(core),
{
    match core {
        ClashCore::ClashPremium => AgentSelectedCore::Clash,
        ClashCore::ClashRs => AgentSelectedCore::ClashRs,
        ClashCore::Mihomo => AgentSelectedCore::Mihomo,
        ClashCore::ChimeraClient => AgentSelectedCore::ChimeraClient,
        ClashCore::MihomoAlpha => AgentSelectedCore::MihomoAlpha,
        ClashCore::ClashRsAlpha => AgentSelectedCore::ClashRsAlpha,
    }
}

/// How the core manager runs the core.
#[derive(Debug, Clone, Copy, PartialEq, Eq, Structural)]
pub enum RunType {
    Normal,
    Service,
    Elevated,
}

pub fn map_run_type(run_type: RunType) -> (mapped: AgentRunType)
    ensures
        mapped == match run_type {
            RunType::Normal => AgentRunType::Normal,
            RunType::Service => AgentRunType::Service,
            RunType::Elevated => AgentRunType::Elevated,
        },
{
    match run_type {
        RunType::Normal => AgentRunType::Normal,
        RunType::Service => AgentRunType::Service,
        RunType::Elevated => AgentRunType::Elevated,
    }
}

/// Whether the core manager reports the core as running or stopped.
#[derive(Debug, Clone, Copy, PartialEq, Eq, Structural)]
pub enum CoreState {
    Running,
    Stopped,
}

pub fn map_core_state(state: CoreState) -> (mapped: AgentCoreState)
    ensures
        mapped == match state {
            CoreState::Running => AgentCoreState::Running,
            CoreState::Stopped => AgentCoreState::Stopped,
        },
{
    match state {
        CoreState::Running => AgentCoreState::Running,
        CoreState::Stopped => AgentCoreState::Stopped,
    }
}

/// The routing modes that the application's runtime configuration knows.
#[derive(Debug, Clone, Copy, PartialEq, Eq, Structural)]
pub enum RuntimeRoutingMode {
    Rule,
    Global,
    Direct,
}

pub fn to_runtime_routing_mode(mode: AgentRoutingMode) -> (runtime: RuntimeRoutingMode)
    ensures
        runtime == match mode {
            AgentRoutingMode::Rule => RuntimeRoutingMode::Rule,
            AgentRoutingMode::Global => RuntimeRoutingMode::Global,
            AgentRoutingMode::Direct => RuntimeRoutingMode::Direct,
        },
{
    match mode {
        AgentRoutingMode::Rule => RuntimeRoutingMode::Rule,
        AgentRoutingMode::Global => RuntimeRoutingMode::Global,
        AgentRoutingMode::Direct => RuntimeRoutingMode::Direct,
    }
}

/// Whether the controller secret gives no protection: missing, blank, or the shipped default.
pub open spec fn weak_secret(secret: Option<Seq<char>>) -> bool {
    match secret {
        Some(text) => is_blank(text) || text == "chimera"@,
        None => true,
    }
}

pub fn secret_is_weak(secret: Option<&str>) -> (weak: bool)
    ensures
        weak == weak_secret(match secret {
            Some(text) => Some(text@),
            None => None,
        }),
{
    match secret {
        Some(text) => chars_are_blank(&chars_of(text)) || str_equal(text, "chimera"),
        None => true,
    }
}

/// A profile as the agent counts it: its id and whether it is fetched from a remote source.
pub struct ProfileEntry {
    pub uid: String,
    pub remote: bool,
}

/// How many profiles are remote.
pub open spec fn remote_profiles(items: Seq<ProfileEntry>) -> nat
    decreases items.len(),
{
    if items.len() == 0 {
        0
    } else {
        remote_profiles(items.drop_last()) + if items.last().remote {
            1nat
        } else {
            0nat
        }
    }
}

proof fn lemma_remote_profiles_bound(items: Seq<ProfileEntry>)
    ensures
        remote_profiles(items) <= items.len(),
    decreases items.len(),
{
    if items.len() > 0 {
        lemma_remote_profiles_bound(items.drop_last());
    }
}

/// Whether a profile has the id.
pub open spec fn names_profile(items: Seq<ProfileEntry>, id: Seq<char>) -> bool {
    exists|j: int| 0 <= j < items.len() && (#[trigger] items[j]).uid@ == id
}

/// Whether every active profile id names a profile.
pub open spec fn references_valid(items: Seq<ProfileEntry>, current: Seq<String>) -> bool {
    forall|i: int| 0 <= i < current.len() ==> names_profile(items, (#[trigger] current[i])@)
}

/// Counts of the profiles, without their names or sources.
pub fn summarize_profiles(items: &Vec<ProfileEntry>, current: &Vec<String>) -> (summary:
    AgentProfileSnapshot)
    requires
        items@.len() <= u32::MAX,
        current@.len() <= u32::MAX,
    ensures
        summary.total_count == items@.len(),
        summary.active_count == current@.len(),
        summary.remote_count == remote_profiles(items@),
        summary.local_count == items@.len() - remote_profiles(items@),
        summary.active_references_valid == references_valid(items@, current@),
{
    let mut remote: u32 = 0;
    let mut i: usize = 0;
    while i < items.len()
        invariant
            i <= items@.len(),
            items@.len() <= u32::MAX,
            remote == remote_profiles(items@.take(i as int)),
            remote <= i,
        decreases items@.len() - i,
    {
        assert(items@.take(i + 1).drop_last() =~= items@.take(i as int));
        proof {
            lemma_remote_profiles_bound(items@.take(i as int));
        }
        if items[i].remote {
            remote = remote + 1;
        }
        i = i + 1;
    }
    assert(items@.take(items@.len() as int) =~= items@);
    let mut valid = true;
    let mut k: usize = 0;
    while k < current.len()
        invariant
            k <= current@.len(),
            valid == (forall|a: int| 0 <= a < k ==> names_profile(items@, (#[trigger] current@[a])@)),
        decreases current@.len() - k,
    {
        let mut found = false;
        let mut j: usize = 0;
        while j < items.len()
            invariant
                j <= items@.len(),
                k < current@.len(),
                found == (exists|b: int| 0 <= b < j && (#[trigger] items@[b]).uid@ == current@[k as int]@),
            decreases items@.len() - j,
        {
            if str_equal(items[j].uid.as_str(), current[k].as_str()) {
                found = true;
            }
            j = j + 1;
        }
        assert(found == names_profile(items@, current@[k as int]@));
        if !found {
            valid = false;
        }
        k = k + 1;
    }
    let total = items.len() as u32;
    AgentProfileSnapshot {
        total_count: total,
        active_count: current.len() as u32,
        remote_count: remote,
        local_count: total - remote,
        active_references_valid: valid,
    }
}

/// How a configuration transaction of the core ended; the error texts stay with the caller.
pub enum TransactionOutcome {
    Committed,
    Rejected { primary_error: String },
    RolledBack { primary_error: String },
    RollbackFailed { primary_error: String, rollback_error: String },
}

/// The agent error for a routing change made as a transaction: none when it committed, a
/// failed action when nothing was left changed, a partial apply when the rollback failed.
pub fn routing_transaction_error(outcome: &TransactionOutcome) -> (error: Option<AgentCommandError>)
    ensures
        error == match outcome {
            TransactionOutcome::Committed => None,
            TransactionOutcome::Rejected { .. } => Some(AgentCommandError::ActionFailed),
            TransactionOutcome::RolledBack { .. } => Some(AgentCommandError::ActionFailed),
            TransactionOutcome::RollbackFailed { .. } => Some(AgentCommandError::PartialApply),
        },
{
    match outcome {
        TransactionOutcome::Committed => None,
        TransactionOutcome::Rejected { .. } | TransactionOutcome::RolledBack { .. } => Some(
            AgentCommandError::ActionFailed,
        ),
        TransactionOutcome::RollbackFailed { .. } => Some(AgentCommandError::PartialApply),
    }
}

/// What the wait for a verified state does next.
#[derive(Debug, Clone, Copy, PartialEq, Eq, Structural)]
pub enum ObservationStep {
    /// Observe, within the given number of milliseconds.
    Observe { within_ms: u64 },
    /// Sleep for the given number of milliseconds, then observe again.
    Sleep { ms: u64 },
    /// The state was observed as expected.
    Verified,
    /// The deadline passed, or an observation did not answer in time.
    Expired,
}

pub open spec fn spec_before_observation(deadline_ms: u64, now_ms: u64) -> ObservationStep {
    if now_ms >= deadline_ms {
        ObservationStep::Expired
    } else {
        ObservationStep::Observe { within_ms: (deadline_ms - now_ms) as u64 }
    }
}

/// Before an observation: observe within what is left until the deadline, if anything is.
pub fn before_observation(deadline_ms: u64, now_ms: u64) -> (step: ObservationStep)
    ensures
        step == spec_before_observation(deadline_ms, now_ms),
{
    if now_ms >= deadline_ms {
        ObservationStep::Expired
    } else {
        ObservationStep::Observe { within_ms: deadline_ms - now_ms }
    }
}

pub open spec fn spec_after_observation(
    deadline_ms: u64,
    now_ms: u64,
    matched: Option<bool>,
    poll_interval_ms: u64,
) -> ObservationStep {
    match matched {
        None => ObservationStep::Expired,
        Some(true) => ObservationStep::Verified,
        Some(false) => if now_ms >= deadline_ms {
            ObservationStep::Expired
        } else {
            let remaining = (deadline_ms - now_ms) as u64;
            ObservationStep::Sleep {
                ms: if poll_interval_ms < remaining {
                    poll_interval_ms
                } else {
                    remaining
                },
            }
        },
    }
}

/// After an observation (`None` when it did not answer in time, else whether it showed the
/// expected state): stop verified, stop expired, or sleep for the poll interval, never past
/// the deadline.
pub fn after_observation(deadline_ms: u64, now_ms: u64, matched: Option<bool>, poll_interval_ms: u64) -> (step:
    ObservationStep)
    ensures
        step == spec_after_observation(deadline_ms, now_ms, matched, poll_interval_ms),
{
    match matched {
        None => ObservationStep::Expired,
        Some(true) => ObservationStep::Verified,
        Some(false) => {
            if now_ms >= deadline_ms {
                ObservationStep::Expired
            } else {
                let remaining = deadline_ms - now_ms;
                ObservationStep::Sleep {
                    ms: if poll_interval_ms < remaining {
                        poll_interval_ms
                    } else {
                        remaining
                    },
                }
            }
        },
    }
}

/// The outcome of an action whose effect cannot be rolled back or verified: it either completed
/// in time, or the host may be partly changed.
pub fn uncertain_action_outcome(completed: Option<bool>) -> (outcome: Result<(), AgentCommandError>)
    ensures
        outcome == (if completed == Some(true) {
            Ok::<(), AgentCommandError>(())
        } else {
            Err(AgentCommandError::PartialApply)
        }),
{
    match completed {
        Some(true) => Ok(()),
        _ => Err(AgentCommandError::PartialApply),
    }
}

} // verus!
