//! Builds an editor workspace descriptor for a Rust project: the project
//! itself, the standard-library sources and the package cache as folders,
//! with every cached package that the lock file does not use excluded.
pub mod config;
pub mod nesting;
pub mod toml_doc;
pub mod workspace;

pub use config::{Cargo, CargoCfg, CargoLock, Package, Source};
pub use toml_doc::ParseError;

pub use workspace::{toolchain_name, Workspace, WorkspaceFolder, WorkspaceSettings};
