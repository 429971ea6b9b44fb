//! Workspace registry for a directory synchronisation tool: the registry of
//! workspace roots, the resolution of a directory to the workspace that
//! governs it, and the decisions taken while a new workspace is created.

pub mod config;
pub mod errors;
pub mod factory;
pub mod init;
pub mod lock;
pub mod paths;
pub mod protocol;
pub mod registry;
pub mod store;
pub mod text;
