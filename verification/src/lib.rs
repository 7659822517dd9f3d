//! Teleports of the relay chain's asset to an account on a parachain, as versioned
//! cross-chain programs in their binary form.
//!
//! `program` says what a program holds, `builder` binds the builder and the codec that make
//! and encode it, and `contract` is the entry point.

pub mod builder;
pub mod contract;
pub mod program;
