//! Vectors over the primitive integer types.

pub mod item;
pub mod vector2;

pub use item::VectorItem;
pub use vector2::Vector2;
