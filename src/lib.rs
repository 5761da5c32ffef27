//! Generation of container-orchestration deployments from a declarative
//! configuration: validation of references, environment files, repository
//! mounts and the assembled manifest.

pub mod compose;
pub mod config;
pub mod env;
pub mod execute_command;
pub mod laws;
pub mod lifecycle;
pub mod ordered_map;
pub mod paths;
pub mod predicates;
pub mod repository;
pub mod settings;
