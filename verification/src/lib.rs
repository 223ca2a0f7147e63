//! Verified core of a local DNS router: the domain grammar, routing rules,
//! the layered rule store, and the daemon's request handling.

pub mod certs;
pub mod cli;
pub mod commands;
pub mod dns_sys;
pub mod dns_answer;
pub mod dns_manager;
pub mod fs_model;
pub mod nrpt_model;
mod domain;
pub mod headers;
pub mod laws;
pub mod ipc;
mod ipv6_text;
mod net;
pub mod process_tree;
pub mod proxy;
pub mod platform;
pub mod resolver;
mod rule;
pub mod run_session;
pub mod snapshot_laws;
mod shared_store;
mod state;
pub mod store;
pub mod store_laws;
pub mod store_model;
pub mod system_store;
mod text;
pub mod trust;

pub use cli::{
    CertAction, CertArgs, CertInstallArgs, CertTrustArgs, DaemonAction, DaemonArgs, DaemonStartArgs,
    RemoveArgs, ResolveArgs,
};
pub use dns_sys::{
    platform_dns_manager, MacOsConfigurator, NoOpConfigurator, SystemDnsManager, SystemdConfigurator,
    WindowsNrptConfigurator,
};
pub use certs::{Ca, CaPem};
pub use domain::validate_domain;
pub use ipc::{DnsEvent, IpcError, IpcRequest, IpcResponse};
pub use net::{dns_listen_addr, proxy_listen_addr, IpAddress, SocketTarget};
pub use proxy::ProxyServer;
pub use resolver::DomainResolver;
pub use rule::{DnsRule, DnsRuleView};
pub use shared_store::RuleStore;
pub use state::{
    added_outcome, domains_once, removal_outcome, request_plan, AppState, DnsConfig, RequestPlan,
};
pub use text::chars_of;
pub use trust::{available_stores, JavaStore, NssStore, SystemStore, TrustStore};
