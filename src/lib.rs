//! Procedural surface geometry: primitive topologies and face decomposition,
//! plane and sphere index streams, grid sampling of parametric surfaces,
//! per-vertex attribute channels and the registry of channels attached at run
//! time, line and basic geometries, the control-point picking and drag
//! protocol of the Bézier patch editor, the shared-mesh registry, and the
//! scene stack. Point and color types are generic: the library never does
//! floating-point arithmetic itself.

pub mod topology;
pub mod grid;
pub mod attributes;
pub mod bezier;
pub mod picking;
pub mod viewport;
pub mod shared;
pub mod scenes;
pub mod lines;
pub mod mesh_registry;
pub mod basic;
pub mod render_params;
