//! The parts of an OCI image configuration that image management and bundle
//! synthesis read.

use vstd::prelude::*;

verus! {

/// The execution parameters of an image (`config` in the image configuration).
#[derive(Clone, Debug)]
pub struct ContainerConfig {
    /// The entrypoint arguments.
    pub entrypoint: Option<Vec<String>>,
    /// The default arguments appended to the entrypoint.
    pub cmd: Option<Vec<String>>,
    /// Environment variables, each `KEY=VALUE`.
    pub env: Option<Vec<String>>,
    /// The working directory.
    pub working_dir: Option<String>,
    /// Labels, as key/value pairs; a later pair for a key replaces an earlier one.
    pub labels: Option<Vec<(String, String)>>,
}

/// An image configuration.
#[derive(Clone, Debug)]
pub struct ImageConfig {
    /// When the image was created.
    pub created: Option<String>,
    /// The execution parameters.
    pub config: Option<ContainerConfig>,
    /// The digests of the uncompressed layers, base layer first (`rootfs.diff_ids`).
    pub diff_ids: Vec<String>,
}

impl ImageConfig {
    /// A configuration with nothing set and no layers.
    pub fn empty() -> (r: Self)
        ensures
            r.created is None,
            r.config is None,
            r.diff_ids@.len() == 0,
    {
        ImageConfig { created: None, config: None, diff_ids: Vec::new() }
    }
}

impl ContainerConfig {
    /// Execution parameters with nothing set.
    pub fn empty() -> (r: Self)
        ensures
            r.entrypoint is None,
            r.cmd is None,
            r.env is None,
            r.working_dir is None,
            r.labels is None,
    {
        ContainerConfig { entrypoint: None, cmd: None, env: None, working_dir: None, labels: None }
    }
}

} // verus!
