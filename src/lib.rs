//! A small OCI container runtime and image manager: image state, layer
//! verification, overlay snapshot planning, runtime-spec synthesis and the
//! decisions that drive a container's launch and teardown.

pub mod text;
pub mod digest;
pub mod table;
pub mod image;
pub mod container;
