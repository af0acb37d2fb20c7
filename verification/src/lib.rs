//! Atomic build-and-refresh pipeline for turning a directory of shapefiles
//! into SQL load scripts and applying them to a spatial database.
//!
//! The pipeline stages conversion output in an isolated staging directory,
//! promotes it to the canonical output directory with a single rename, and
//! guarantees cleanup of the staging directory on every failure path.  All
//! decisions live here as a verified state machine; the thin driver around it
//! performs the filesystem operations and external tool invocations that the
//! machine asks for, and feeds their results back in.

pub mod command;
pub mod laws;
pub mod paths;
pub mod pipeline;
pub mod policy;

