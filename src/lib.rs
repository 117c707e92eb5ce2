//! A programmable DNS resolver core: an expiring cache, the cache key of a
//! question, the upstream failover decisions, the interpretation of what the
//! response resolver hands back, and the assembly of one exchange.

pub mod ttldict;
pub mod address;
pub mod clock;
pub mod dns;
pub mod key;
pub mod cache;
pub mod forward;
pub mod resolver;
pub mod exchange;
pub mod redirect;
