//! Configuration and active-environment state layer for an
//! integration-testing tool.
//!
//! An *integration* declares named *environments* (each an
//! environment-variable map layered over a shared runner profile); a
//! persistent state store records which single environment is currently
//! *active* per integration. This crate holds the verified data model,
//! the loader that validates raw configuration sources, the state-store
//! read, and the two read-only views (summary and detail) that compose
//! them for display.

use vstd::prelude::*;

pub mod config;
pub mod envmap;
pub mod errors;
pub mod loader;
pub mod render;
pub mod state;
pub mod view;

verus! {

/// Request for the `integration show` command: which integration to
/// describe, or none for the summary over all of them.
pub struct Cli {
    /// The desired integration
    pub integration: Option<String>,
}

} // verus!
