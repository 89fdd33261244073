//! Composition root and runtime-bootstrap layer of an analytic database
//! server.
//!
//! The crate models the startup wiring of the server process: it partitions
//! execution resources into four workload-isolated runtime pools, selects
//! exactly one of two pluggable storage-engine backends from configuration,
//! unifies the in-memory table engine and the analytic engine behind a single
//! dispatch proxy, bootstraps the catalog manager on top of the engine it
//! catalogs, loads the built-in function registry, assembles the server from
//! all of those parts, and drives the start → signal → stop lifecycle.
//!
//! The external collaborators (the engines themselves, the catalog store, the
//! wire-protocol server) are consumed through narrow interfaces; whether such
//! a collaborator succeeds or fails is an input to this layer, and every
//! decision taken on those inputs is specified and verified here.

pub mod bootstrap;
pub mod catalog;
pub mod config;
pub mod engine;
pub mod error;
pub mod registry;
pub mod runtime;
pub mod server;
pub mod setup;
