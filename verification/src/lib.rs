//! A wireframe renderer for triangle meshes under perspective projection.
//!
//! Every real number in this crate is an IEEE 754 binary32 value carried as
//! its 32-bit encoding, so that each step of the pipeline is a function from
//! integers to integers with an exact contract.
//!
//! A frame is made in four steps, each a function of its own: a triangle of
//! the mesh is moved away from the camera, each of its vertices is projected
//! through a 4x4 matrix with a homogeneous divide, the result is mapped to
//! the display, and its three sides come out as line segments in pixel
//! coordinates.

pub mod binary32;
pub mod cube;
pub mod matrix;
pub mod mesh;
pub mod projection;
pub mod render;
pub mod vector;

pub use crate::matrix::Matrix;
pub use crate::mesh::{check_size, Mesh, Segment, Triangle};
pub use crate::projection::{multiply_matrix_vector, perspective, project};
pub use crate::render::render_frame;
pub use crate::vector::Vector3D;
