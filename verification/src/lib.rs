//! Provisioning of the Stimulus language server.
//!
//! The server ships as an npm package. Before it can be launched, the package
//! has to be on disk and, as far as the registry can tell, current. This crate
//! holds the decisions of that work, verified, and leaves the doing to its
//! caller: the [`provisioner::Provisioner`] is a state machine that asks for
//! one probe, query or install at a time and is told how each went.
//!
//! - [`layout`]: the package, its two entry scripts, and absolute paths.
//! - [`protocol`]: the requests, replies and steps of the dialogue.
//! - [`error`]: why a resolution can fail.
//! - [`model`]: the state machine as mathematics.
//! - [`provisioner`]: the state machine in executable form.
//! - [`resolution`]: a whole resolution, said step by step and at once.
//! - [`laws`]: what holds of every resolution.
//! - [`command`]: the launch commands.

pub mod command;
pub mod error;
pub mod laws;
pub mod layout;
pub mod model;
pub mod protocol;
pub mod provisioner;
pub mod resolution;
