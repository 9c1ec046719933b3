//! Verified core of a user-space proxy runtime: the session and address
//! model, the transport abstractions, the stream relay engine, the TLS
//! material loading layer and the QUIC connection-pool and accept-pipeline
//! state machines.
//!
//! All asynchronous socket work is done by a thin unverified shell around
//! this crate; every routing, pooling, loading and error-mapping decision
//! is made by the verified functions here.

pub mod drop_outbound;
pub mod error;
pub mod pem;
pub mod proxy;
pub mod quic_inbound;
pub mod quic_outbound;
pub mod relay;
pub mod session;
pub mod tls_inbound;
pub mod tls_outbound;
