//! Image management: the on-disk state of known images and layers, layer
//! verification, overlay snapshots and the image manager that ties them
//! together.

pub mod config;
pub mod manager;
pub mod puller;
pub mod snapshots;
pub mod state;

use vstd::prelude::*;

verus! {

/// Errors of image management. Each carries a description of the failure.
#[derive(Debug)]
pub enum Error {
    /// The image reference does not parse.
    InvalidOCIReference(String),
    /// The manifest could not be pulled.
    PullManifest(String),
    /// The image blobs could not be pulled.
    PullImage(String),
    /// The directory that holds the layers could not be created.
    LayerDirectoryCreation(String),
    /// A layer file could not be created.
    LayerFileCreation(String),
    /// A layer file could not be written.
    LayerFileWrite(String),
    /// The data directory of the manager could not be created.
    ManagerDataDirectoryCreation(String),
    /// The image manifest file could not be created.
    ImageManifestFileCreation(String),
    /// The image manifest file could not be written.
    ImageManifestFileWrite(String),
    /// The state file could not be opened.
    OpenStateFile(String),
    /// The state file could not be parsed.
    ParseStateFile(String),
    /// The state could not be serialized.
    SerializeState(String),
    /// The state could not be written to its file.
    WriteStateFile(String),
    /// The image configuration could not be parsed.
    ParseImageConfiguration(String),
    /// The manifest and the image configuration disagree on the number of layers.
    InvalidPulledLayers(String),
    /// A layer's uncompressed digest differs from the one in the image configuration.
    UncompressedLayerInvalid(String),
    /// No image with the given id is known.
    ImageNotFound(String),
    /// The overlay mount failed.
    OverlayFSMount(String),
    /// The overlay unmount failed.
    OverlayFSUmount(String),
    /// A directory needed by the overlay could not be created.
    OverlayFSCreateDirectory(String),
    /// Every snapshot index has been used.
    SnapshotIndexExhausted(String),
    /// The runtime configuration of a bundle could not be generated.
    GenerateOCIConfig(String),
    /// A layer could not be decoded or unpacked.
    UnpackLayer(String),
}

} // verus!
