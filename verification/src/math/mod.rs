//! Mathematical building blocks.

pub mod ratio;
pub mod vector;

pub use ratio::Ratio;
pub use vector::Vector2;
pub use vector::VectorItem;
