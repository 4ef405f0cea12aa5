//! Deterministic generator infrastructure for Ristretto-based range proofs:
//! a reproducible chain of curve points derived by hash-to-curve from a byte
//! label, the pair of Pedersen commitment bases, and the bank of per-bit
//! generators that an aggregated range proof partitions across parties.
#![allow(non_snake_case)]

pub mod points;
pub mod chain;
pub mod generators;

pub use chain::GeneratorsChain;
pub use generators::Generators;
pub use generators::GeneratorsError;
pub use generators::GeneratorsView;
pub use generators::PedersenGenerators;
