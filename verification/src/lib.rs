//! Metadata primitives describing a node of a BIP32 hierarchical-deterministic
//! key tree: fingerprints, chain codes, address-type hints and the record that
//! bundles them with a depth and a derivation index.

pub mod equality;
pub mod hex;
pub mod primitives;
