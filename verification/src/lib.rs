//! Verified core of a quantum resource management interface: the job and
//! usage data models, their wire names, the error model and the error state
//! reported to C hosts, and the decisions taken by the IBM Quantum Compute
//! Service resource and provider.

pub mod text;
pub mod jobs;
pub mod error;
pub mod cext_state;
pub mod models;
pub mod string_map;
pub mod ibm;
pub mod resource;
