//! Which native adapter serves host connectivity and platform readiness on each operating
//! system. The choice is made once, from the system the program was built for.
use vstd::prelude::*;

use crate::model::AgentOsFamily;

verus! {

/// The adapters that can answer host connectivity questions.
#[derive(Debug, Clone, Copy, PartialEq, Eq, Structural)]
pub enum HostConnectivityAdapter {
    WindowsNative,
    LinuxNative,
    Unavailable,
}

/// The adapters that can answer platform readiness questions.
#[derive(Debug, Clone, Copy, PartialEq, Eq, Structural)]
pub enum PlatformReadinessAdapter {
    WindowsNative,
    LinuxNative,
    MacosNative,
    Unavailable,
}

pub open spec fn spec_host_connectivity_adapter(os: AgentOsFamily) -> HostConnectivityAdapter {
    match os {
        AgentOsFamily::Windows => HostConnectivityAdapter::WindowsNative,
        AgentOsFamily::Linux => HostConnectivityAdapter::LinuxNative,
        _ => HostConnectivityAdapter::Unavailable,
    }
}

pub open spec fn spec_platform_readiness_adapter(os: AgentOsFamily) -> PlatformReadinessAdapter {
    match os {
        AgentOsFamily::Windows => PlatformReadinessAdapter::WindowsNative,
        AgentOsFamily::Linux => PlatformReadinessAdapter::LinuxNative,
        AgentOsFamily::Macos => PlatformReadinessAdapter::MacosNative,
        _ => PlatformReadinessAdapter::Unavailable,
    }
}

/// The host connectivity adapter of a system: native on Windows and Linux, none elsewhere.
pub fn platform_host_connectivity(os: AgentOsFamily) -> (adapter: HostConnectivityAdapter)
    ensures
        adapter == spec_host_connectivity_adapter(os),
{
    match os {
        AgentOsFamily::Windows => HostConnectivityAdapter::WindowsNative,
        AgentOsFamily::Linux => HostConnectivityAdapter::LinuxNative,
        _ => HostConnectivityAdapter::Unavailable,
    }
}

/// The platform readiness adapter of a system: native on Windows, Linux and macOS, none
/// elsewhere.
pub fn platform_readiness(os: AgentOsFamily) -> (adapter: PlatformReadinessAdapter)
    ensures
        adapter == spec_platform_readiness_adapter(os),
{
    match os {
        AgentOsFamily::Windows => PlatformReadinessAdapter::WindowsNative,
        AgentOsFamily::Linux => PlatformReadinessAdapter::LinuxNative,
        AgentOsFamily::Macos => PlatformReadinessAdapter::MacosNative,
        _ => PlatformReadinessAdapter::Unavailable,
    }
}

impl HostConnectivityAdapter {
    /// The stable name of the adapter.
    pub fn name(self) -> (name: &'static str)
        ensures
            name@ == match self {
                HostConnectivityAdapter::WindowsNative => "windows_native"@,
                HostConnectivityAdapter::LinuxNative => "linux_native"@,
                HostConnectivityAdapter::Unavailable => "unavailable"@,
            },
    {
        match self {
            HostConnectivityAdapter::WindowsNative => "windows_native",
            HostConnectivityAdapter::LinuxNative => "linux_native",
            HostConnectivityAdapter::Unavailable => "unavailable",
        }
    }
}

impl PlatformReadinessAdapter {
    /// The stable name of the adapter.
    pub fn name(self) -> (name: &'static str)
        ensures
            name@ == match self {
                PlatformReadinessAdapter::WindowsNative => "windows_native"@,
                PlatformReadinessAdapter::LinuxNative => "linux_native"@,
                PlatformReadinessAdapter::MacosNative => "macos_native"@,
                PlatformReadinessAdapter::Unavailable => "unavailable"@,
            },
    {
        match self {
            PlatformReadinessAdapter::WindowsNative => "windows_native",
            PlatformReadinessAdapter::LinuxNative => "linux_native",
            PlatformReadinessAdapter::MacosNative => "macos_native",
            PlatformReadinessAdapter::Unavailable => "unavailable",
        }
    }
}

} // verus!
