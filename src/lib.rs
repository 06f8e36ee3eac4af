//! A TCP relay: relay rules, ordered failover across remote candidates, the
//! outbound adapter pipeline, the bidirectional copy loop and the accept loop,
//! each written as verified decisions that an I/O driver carries out.
pub mod conf;
pub mod endpoint;
pub mod failover;
pub mod relay;
pub mod listener;
pub mod proxy;
