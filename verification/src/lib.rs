//! Relay core of an Ethereum-to-Starknet bridge: the pending-transaction store,
//! the submission and resubmission state machine, and the deterministic mapping
//! from a stored transaction and a retry index to its execution-layer hash.

pub mod codec;
pub mod digest;
pub mod laws;
pub mod primitives;
pub mod relay;
pub mod resolver;
pub mod store;
pub mod test_utils;
pub mod translation;
