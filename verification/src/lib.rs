//! Trusted-setup parameter lifecycle for the sapling zk-SNARK circuits.
//!
//! The parameter store ([`sapling`]) deserializes Groth16 proving keys and
//! derives prepared verifying keys for the spend, output and mint circuits.
//! The global key registry ([`sapling_bls12`]) publishes one loaded bundle
//! exactly once through a write-once cell.

pub mod sapling;
pub mod sapling_bls12;

pub use sapling::CircuitKind;
pub use sapling::Sapling;
pub use sapling::SaplingError;
pub use sapling_bls12::SaplingWrapper;
