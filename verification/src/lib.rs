//! A cache-first DNS resolver core: a bounded, TTL-aware cache in front of
//! an upstream client, and the state machine that answers from it, asks the
//! client on a miss, classifies the response and writes the result back.

pub mod dns_class;
pub mod error;
pub mod laws;
pub mod lookup;
pub mod lookup_state;
pub mod lru;
pub mod op;
pub mod rr;
pub mod serialize;
pub mod time;
