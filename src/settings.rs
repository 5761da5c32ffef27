//! Process-wide settings of a run.

use vstd::prelude::*;
use crate::paths::{joined, join_path};

verus! {

/// Settings of a run, read once when the configuration is loaded.
#[derive(Debug, Clone, PartialEq, Eq)]
pub struct Settings {
    pub name: String,
    pub author: String,
    pub description: String,
    /// Directory that the two directories below are relative to.
    pub base_dir: String,
    /// Directory of the generated env files and manifest.
    pub deploy_dir: String,
    /// Directory of the repositories' working copies.
    pub services_dir: String,
    /// The orchestration executable.
    pub compose_executable: String,
    /// File name of the manifest.
    pub compose_file: String,
    /// Whether `up` runs detached.
    pub compose_detached: bool,
}

/// Display metadata and deploy directory of a launcher.
#[derive(Debug, Clone, PartialEq, Eq)]
pub struct Common {
    pub name: String,
    pub author: String,
    pub description: String,
    pub deploy_dir: String,
}

impl Settings {
    /// `base_dir/deploy_dir`.
    pub fn deploy_path(&self) -> (r: String)
        ensures
            r@ == joined(self.base_dir@, self.deploy_dir@),
    {
        join_path(&self.base_dir, &self.deploy_dir)
    }

    /// `base_dir/services_dir`.
    pub fn services_path(&self) -> (r: String)
        ensures
            r@ == joined(self.base_dir@, self.services_dir@),
    {
        join_path(&self.base_dir, &self.services_dir)
    }
}

} // verus!
