//! Automatic framing for triangle meshes.
//!
//! Given a mesh, the library computes the axis-aligned bounding volume, the
//! translation that centers it on the origin, the world axis whose orthogonal
//! cross-section of the volume is largest, and a camera and light placement
//! that keep the whole volume inside the view frustum.
//!
//! All geometry is carried in dimensionless fixed-point integer units; the
//! caller picks the scale when converting its coordinates into [`Vec3`]
//! values and converts the resulting placements back.

pub mod axis;
pub mod bounding_box;
pub mod camera;
pub mod light;
pub mod mesh;
pub mod vec3;

pub use axis::Axis;
pub use bounding_box::BoundingBox;
pub use camera::{CameraPlacement, ConfigError};
pub use light::{LightColor, LightPlacement};
pub use mesh::{Mesh, Triangle};
pub use vec3::Vec3;
