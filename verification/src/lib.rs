//! A small software 3-D graphics kernel: fixed-size row/column vectors and
//! square matrices with exact integer arithmetic, the geometry and pipeline
//! error values, and the integer addressing logic of the wireframe rasterizer.

pub mod geometry_errors;
pub mod matrix2d;
pub mod matrix3d;
pub mod matrix4d;
pub mod matrix_errors;
pub mod rasterizer;
pub mod utils;
pub mod vector2d;
pub mod vector3d;
pub mod vector4d;
pub mod vector_errors;
