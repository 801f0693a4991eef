//! Launch configuration handed to the guest's init process.
//!
//! The core only defines the shape of this self-describing document; the
//! unverified shell carries copies of these records that it serializes
//! and parses on the guest channel.

use std::collections::HashMap;
use vstd::prelude::*;

verus! {

/// IPv4 settings of the guest's network link.
#[derive(Debug, Clone)]
pub struct LaunchNetworkIpv4 {
    /// Address with prefix length.
    pub address: String,
    /// Gateway address.
    pub gateway: String,
}

/// IPv6 settings of the guest's network link.
#[derive(Debug, Clone)]
pub struct LaunchNetworkIpv6 {
    /// Address with prefix length.
    pub address: String,
    /// Gateway address.
    pub gateway: String,
}

/// Resolver settings of the guest.
#[derive(Debug, Clone)]
pub struct LaunchNetworkResolver {
    /// Nameserver addresses, in order of preference.
    pub nameservers: Vec<String>,
}

/// The guest's network block.
#[derive(Debug, Clone)]
pub struct LaunchNetwork {
    /// Name of the network link inside the guest.
    pub link: String,
    /// IPv4 configuration.
    pub ipv4: LaunchNetworkIpv4,
    /// IPv6 configuration.
    pub ipv6: LaunchNetworkIpv6,
    /// Resolver configuration.
    pub resolver: LaunchNetworkResolver,
}

/// Everything the guest's init process needs to bring the guest up.
#[derive(Debug, Clone)]
pub struct LaunchInfo {
    /// Hostname to set, if any.
    pub hostname: Option<String>,
    /// Network configuration, if any.
    pub network: Option<LaunchNetwork>,
    /// Environment variables for the initial process.
    pub env: HashMap<String, String>,
    /// Argument vector of the initial process, if any.
    pub run: Option<Vec<String>>,
}

} // verus!
