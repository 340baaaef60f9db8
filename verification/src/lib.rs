//! A load balancer's decisions: the liveness of each upstream with
//! hysteresis, the selection policies, the failover state machine of one
//! request, and the request that goes out on each attempt.
pub mod balancer;
pub mod config;
pub mod dispatch;
pub mod instance;
pub mod relay;
pub mod sidecar;
pub mod soap;
pub mod status;
pub mod strategy;
pub mod text;
