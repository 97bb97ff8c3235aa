//! The shapes that can be drawn, and how a point of the screen becomes a vertex.

pub mod mapping;
pub mod quad;
pub mod shape;
pub mod triangle;

pub use mapping::point_to_vertex;
pub use quad::Quad;
pub use shape::Shape;
pub use triangle::Triangle;
