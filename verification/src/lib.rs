//! Fixed-arity geometric points (2D and 3D) over exact integer-like scalars,
//! with axis-indexed coordinate access and a small family of affine
//! transformations (translation, axis swaps, reflection, scaling).

pub mod axis;
pub mod value;
pub mod transform;
pub mod point3d;
pub mod point2d;
pub mod epoint;
pub mod laws;

pub use axis::Axis;
pub use value::TValue;
pub use transform::{TCoordinate, TTransformable, TPoint};
pub use point3d::SPoint3D;
pub use point2d::{SPoint2D, UnsupportedAxis};
pub use epoint::EPoint;
