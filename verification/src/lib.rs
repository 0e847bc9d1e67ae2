//! Procedural-geometry and camera-transform library for real-time 3D
//! visualization recipes: a planar grid tessellator with an alternating
//! triangle winding, a recursively subdivided icosphere, a clipmap-style
//! terrain (center patch plus concentric ring), a first-person camera with
//! an incremental look/right/up basis and perspective projection, an input
//! controller with its per-frame motion policy, a toroidal height sampler
//! with temporal smoothing, and a backend-agnostic renderable contract
//! that hands any generator's geometry to a rendering pipeline.
//!
//! All world-space quantities are carried as signed Q31.32 fixed-point
//! numbers ([`fixed::Fx`]), so every geometric computation is exact integer
//! arithmetic with verified bounds; a rendering backend converts them to
//! its native float format at the upload boundary.

pub mod camera;
pub mod controller;
pub mod error;
pub mod fixed;
pub mod grid;
pub mod height;
pub mod iso_sphere;
pub mod renderable;
pub mod terrain;
pub mod trig;
pub mod unit;
pub mod vec3;

pub use camera::{FreeCamera, Mat4Fx, Projection, ViewTransform};
pub use controller::{Controller, FrameMotion, InputEvent, Key};
pub use error::GeometryError;
pub use fixed::Fx;
pub use grid::Grid;
pub use height::HeightSampler;
pub use iso_sphere::IsoSphere;
pub use renderable::{
    BaseVertex, NormalVertex, PrimitiveType, Renderable, RenderableIndices, RenderableVertex,
    Vertex,
};
pub use terrain::{TerrainMeshCenter, TerrainRing};
pub use vec3::Vec3Fx;
