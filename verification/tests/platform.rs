use chimera_agent::model::AgentOsFamily;
use chimera_agent::platform::{platform_host_connectivity, platform_readiness};

#[test]
fn platform_selection_is_compile_time_and_stable() {
    assert_eq!(platform_host_connectivity(AgentOsFamily::Windows).name(), "windows_native");
    assert_eq!(platform_readiness(AgentOsFamily::Windows).name(), "windows_native");

    assert_eq!(platform_host_connectivity(AgentOsFamily::Linux).name(), "linux_native");
    assert_eq!(platform_readiness(AgentOsFamily::Linux).name(), "linux_native");

    assert_eq!(platform_host_connectivity(AgentOsFamily::Macos).name(), "unavailable");
    assert_eq!(platform_readiness(AgentOsFamily::Macos).name(), "macos_native");

    for other in [
        AgentOsFamily::Ios,
        AgentOsFamily::Android,
        AgentOsFamily::Freebsd,
        AgentOsFamily::Unknown,
    ] {
        assert_eq!(platform_host_connectivity(other).name(), "unavailable");
        assert_eq!(platform_readiness(other).name(), "unavailable");
    }
    assert_eq!(
        platform_host_connectivity(AgentOsFamily::Linux),
        platform_host_connectivity(AgentOsFamily::Linux)
    );
}
