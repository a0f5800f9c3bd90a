//! Core logic of `vuv`, a front end that manages named virtual environments
//! by delegating to the external `uv` tool.
//!
//! The library decides *where* environments and configuration live, *whether*
//! an operation is permitted given the inherited shell state, and *what*
//! exactly is handed to the external tool or written to disk. All ambient
//! inputs (override variables, the platform base directory, the activation
//! marker) are passed in as explicit values, and all effects are returned as
//! plans (argument vectors, paths, file contents) for a thin binary to carry
//! out.

pub mod activation;
pub mod errors;
pub mod lifecycle;
pub mod locations;
