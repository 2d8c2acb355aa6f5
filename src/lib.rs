//! Composition of the workspace controllers from injected capabilities and
//! the event-routing table handed to a dispatcher.

pub mod errors;
pub mod event;
pub mod pool;
pub mod deps;
pub mod services;
pub mod module;
pub mod lemmas;

pub use deps::{WorkspaceDatabase, WorkspaceDeps, WorkspaceUser};
pub use module::{create, mk_workspace};
