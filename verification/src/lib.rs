//! Fixed-size vector math primitives: 2-, 3-, and 4-component vectors over
//! `i64` scalars, with component-wise arithmetic, array conversion, and
//! conversions between adjacent dimensions.

pub mod scalar;
pub mod vector2;
pub mod vector3;
pub mod vector4;

pub use vector2::Vector2;
pub use vector2::Vector2View;
pub use vector3::Vector3;
pub use vector3::Vector3View;
pub use vector4::Vector4;
pub use vector4::Vector4View;
