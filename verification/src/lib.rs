//! Verified core of an operator for ephemeral web services.
//!
//! Each ephemeral service is represented by a cluster-scoped custom resource
//! (an *Ephemeron*) holding an expiration time and a workload descriptor.
//! This crate contains the resource model, the pure decision logic of the
//! reconciliation engine, the token issuer and the REST handler layer.
//! The surrounding process (HTTP server, orchestrator client, async runtime)
//! drives these decisions and performs the I/O they call for.
pub mod auth;
pub mod children;
mod clock;
pub mod conditions;
pub mod config;
pub mod controller;
pub mod filter;
pub mod handlers;
pub mod resource;
pub mod schemas;
pub mod text;
