//! Activation state of an editor extension.
//!
//! The extension keeps two independent flags: whether the host has activated
//! it, and whether its assistant feature is switched on. This crate holds the
//! state type, the operations on it, and the byte encoding that the host reads
//! across the foreign-call boundary, each with a machine-checked contract.
//!
//! - [`model`]: the state as a mathematical value, and its transitions.
//! - [`extension`]: the state holder and its operations.
//! - [`boundary`]: what the host's entry points do once they hold the state.
//! - [`laws`]: what holds of the operations in every state.
//! - [`history`]: what holds at the end of any sequence of operations.

pub mod boundary;
pub mod extension;
pub mod history;
pub mod laws;
pub mod model;

pub use boundary::{get_extension_status, init_extension};
pub use extension::GlootieExtension;
pub use history::Operation;
pub use model::ExtensionState;
