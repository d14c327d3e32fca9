//! A small ray tracer whose numeric core is a saturating fixed-point scalar
//! with one-millionth resolution, so that every arithmetic step has an exact
//! mathematical meaning and the intersection and shading pipeline can be
//! verified against it.

mod camera;
mod canvas;
mod error;
mod intersection;
mod light;
mod material;
mod matrix2x2;
mod matrix3x3;
mod matrix4x4;
mod pattern;
mod ray;
mod scalar;
mod shape;
mod transformation;
mod world;
mod tuple;

pub use crate::camera::Camera;
pub use crate::canvas::{Canvas, Pixel};
pub use crate::error::TraceError;
pub use crate::intersection::{hit, Computations, Intersection};
pub use crate::light::{Light, PointLight};
pub use crate::material::Material;
pub use crate::matrix2x2::Matrix2x2;
pub use crate::matrix3x3::Matrix3x3;
pub use crate::matrix4x4::Matrix4x4;
pub use crate::pattern::{
    CheckersPattern, GradientPattern, Pattern, RingPattern, StripePattern, TestPattern,
};
pub use crate::ray::Ray;
pub use crate::scalar::Scalar;
pub use crate::shape::{Plane, Shape, Sphere, TestShape};
pub use crate::transformation::TransformationBuilder;
pub use crate::world::World;
pub use crate::tuple::Tuple;
