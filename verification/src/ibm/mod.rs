//! The IBM Quantum Compute Service resource and its resource provider.

pub mod usage;
pub mod service;
pub mod provider;
