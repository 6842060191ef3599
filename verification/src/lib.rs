//! Supply-chain checks for composed WebAssembly binaries.
//!
//! A composition is one binary made of several components. This library
//! recovers the components that were signed before they were composed, trims
//! each to the bytes that were signed, and hands it to the checks: signature
//! verification and an audit of the dependencies recorded in it.

pub mod scan;
pub mod sections;
pub mod decompose;
pub mod clean;
pub mod name;
pub mod pipeline;
pub mod signature;
pub mod vet;
pub mod config;
pub mod sbom;
