use vstd::prelude::*;

verus! {

/// The settings of the DNS service.
#[derive(Clone, Debug)]
pub struct DNSSettings {
    /// Address on which the service listens, over UDP and TCP.
    pub listen_ip: String,
    pub listen_port: u16,
    /// Where the cache is reached; without it nothing is cached.
    pub redis_server: Option<String>,
    /// Seconds a cached answer lives; without it nothing is written back.
    pub cache_expire: Option<usize>,
    pub query_timeout: u32,
    pub upstreams: Vec<DNSServerUpstream>,
    /// Override rules in the order of the configuration: a glob pattern and
    /// the address that answers for the names it matches.
    pub custom_hosts: Vec<(String, String)>,
}

/// A remote resolver and the transports over which it is asked.
#[derive(Clone, Debug)]
pub struct DNSServerUpstream {
    /// The resolver's address, an IP literal.
    pub address: String,
    /// The name that TLS and HTTP present to the resolver.
    pub hostname: String,
    pub enable_udp: bool,
    pub enable_tcp: bool,
    pub enable_doh: bool,
    pub enable_dot: bool,
    /// Whether the resolver belongs to the domestic pool.
    pub is_china: bool,
}

} // verus!
