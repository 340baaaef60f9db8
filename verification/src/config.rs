//! The balancer's configuration, already decoded. Durations are counts of
//! nanoseconds.
use vstd::prelude::*;

verus! {

/// The address of one upstream.
#[derive(Debug, Clone)]
pub struct InstanceConfig {
    /// Host name or IP address, without scheme and port.
    pub base_url: String,
    pub rest_port: u16,
    pub grpc_port: u16,
}

/// Where the certificate and the key of the listeners are read from.
#[derive(Debug, Clone)]
pub struct TlsMaterial {
    pub cert_path: String,
    pub key_path: String,
}

#[derive(Debug)]
pub struct Config {
    pub instances: Vec<InstanceConfig>,
    pub rest_port: u32,
    pub grpc_port: u32,
    /// `round_robin`, `least_connections` or `random`; any other name stands
    /// for `random`.
    pub strategy: String,
    /// The pause between two probe sweeps.
    pub health_check_interval: u64,
    /// How long an instance may go without a successful probe before a
    /// failed probe marks it dead.
    pub health_check_time_limit: u64,
    /// The deadline of one upstream request.
    pub connection_timeout: u64,
    /// The number of retries after the first attempt; absent, every alive
    /// instance may be tried once.
    pub max_retries: Option<u32>,
    /// Present where the listeners and the upstreams speak HTTPS.
    pub tls: Option<TlsMaterial>,
    /// Whether an upstream's certificate is accepted without verification.
    pub accept_invalid_certs: bool,
    /// The largest request body that is buffered; absent, any size is.
    pub max_body_bytes: Option<usize>,
}

} // verus!
