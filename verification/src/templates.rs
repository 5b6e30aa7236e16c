//! The worker descriptor the guest configuration renderer consumes.  The
//! renderer itself — template text and engine — lives outside this crate
//! and treats the descriptor as opaque data; here its shape and the exact
//! names of the four rendered artifacts are fixed.

use vstd::prelude::*;
use crate::addr::Ipv4Address;
use crate::nes::Source;
use crate::nes::WorkerQueryProcessingConfigurationInternal;

verus! {

/// The name of the worker configuration template.
pub const WORKER_CONFIG_TEMPLATE: &'static str = "worker_config";

/// The name of the systemd unit template.
pub const DOCKER_UNIT_TEMPLATE: &'static str = "dockerunit";

/// The name of the guest network configuration template.
pub const NETWORK_CONFIGURATION_TEMPLATE: &'static str = "networkconfiguration";

/// The name of the docker daemon configuration template.
pub const DOCKER_DAEMON_CONFIG_TEMPLATE: &'static str = "dockerdaemon";

/// Everything the guest configuration renderer needs to know about one
/// worker: its address, the host's address, its place in the worker tree,
/// its sources, its log level and its query processing settings.
#[derive(Debug)]
pub struct WorkerConfiguration {
    pub ip_addr: Ipv4Address,
    pub host_ip_addr: Ipv4Address,
    pub worker_id: u64,
    pub parent_id: u64,
    pub sources: Vec<Source>,
    pub log_level: String,
    pub query_processing: WorkerQueryProcessingConfigurationInternal,
}

} // verus!
