//! A DNS-to-DoH forwarding proxy core: a TTL-honouring response cache,
//! upstream planning with a bootstrap step, and the decision logic around
//! the per-query HTTPS round trip, stated over a plain model of DNS
//! messages. Wire encoding and the transport are external collaborators.

pub mod bootstrap;
pub mod cache;
pub mod codec;
pub mod message;
pub mod upstream;
