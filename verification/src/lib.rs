//! Verified core of a Kubernetes operator that manages Scaleway instances and
//! load balancers: error classification, the circuit breaker and retry
//! bookkeeping, request and response handling for the Scaleway API, and the
//! reconcile state machines whose I/O is performed by the caller.

pub mod text;
pub mod json;
pub mod error;
pub mod resources;
pub mod context;
pub mod metrics;
pub mod scaleway;
pub mod reconcilers;
pub mod instance_flow;
pub mod lb_flow;
pub mod laws;
