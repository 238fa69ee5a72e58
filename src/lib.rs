//! Build-time orchestration of a native package: install, build and package it
//! with an outside package manager, emit linker directives, generate a bridge
//! over a whitelisted part of its API and copy the artifacts into place.
//!
//! Every decision is made by the verified state machine in [`pipeline`]; a
//! driver performs each requested action and reports how it went. The
//! properties of whole runs are proved in [`laws`].
pub mod actions;
pub mod laws;
pub mod paths;
pub mod pipeline;
