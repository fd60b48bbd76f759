//! Trust-bootstrapping core of a confidential-computing blockchain node.
//!
//! The library owns the node's key lifecycle (registration key, consensus
//! seed, derived master keys), the seed-exchange protocol that moves the
//! consensus seed between enclaves, the combined attestation artifact
//! format, and the sealed-storage format migration. Hardware services
//! (sealing, quoting, the remote seed service) are collaborators: the
//! library computes every decision and every byte layout, and states both
//! in contracts.

pub mod attestation;
pub mod crypto;
pub mod errors;
pub mod exchange;
pub mod keys;
pub mod registration;
pub mod store;
