pub mod autonomy;
pub mod bridge;
pub mod confirmation;
pub mod connectivity_cache;
pub mod core_config;
pub mod corrupt_history;
pub mod diagnostics;
pub mod digest;
pub mod error;
pub mod history;
pub mod host_connectivity;
pub mod intent;
pub mod ip;
pub mod linux_routes;
pub mod model;
pub mod output;
pub mod planning;
pub mod platform;
pub mod platform_readiness;
pub mod probe;
pub mod proposals;
pub mod registry;
pub mod responses;
pub mod revision;
pub mod runtime;
pub mod snapshot;
pub mod text;
pub mod tun_routes;
pub mod windows_connectivity;
