use vstd::prelude::*;
use crate::math::Ratio;

verus! {

/// The number of bytes that one vertex takes in a buffer.
pub const VERTEX_SIZE: usize = 20;

/// A position on the screen as seen by the graphics device.
///
/// The position of a point on the screen has both coordinates between -1
/// and 1. The colour is in RGB format, each channel between 0 and 1.
#[derive(Clone, Copy, Debug, PartialEq, Eq)]
pub struct Vertex {
    pub position: [Ratio; 2],
    pub color: [Ratio; 3],
}

/// One attribute of a vertex as the device reads it from a buffer: a run of
/// single-precision components.
#[derive(Clone, Copy, Debug, PartialEq, Eq, Structural)]
pub struct VertexAttribute {
    /// The location by which the vertex shader names the attribute.
    pub shader_location: u32,
    /// The offset in bytes of the attribute from the start of its vertex.
    pub offset: u64,
    /// The number of components.
    pub components: u32,
}

/// How often the device steps on to the next record of a vertex buffer.
#[derive(Clone, Copy, Debug, PartialEq, Eq, Structural)]
pub enum VertexStepMode {
    /// Once for each vertex.
    Vertex,
    /// Once for each instance.
    Instance,
}

/// How vertices lie in a vertex buffer.
#[derive(Clone, Copy, Debug, PartialEq, Eq)]
pub struct VertexBufferLayout {
    /// The distance in bytes from one vertex to the next.
    pub array_stride: u64,
    /// How often the device steps on to the next record.
    pub step_mode: VertexStepMode,
    /// The attributes of a vertex, in the order of their locations.
    pub attributes: [VertexAttribute; 2],
}

impl VertexBufferLayout {
    /// The layout of a vertex: one record for each vertex, the position
    /// first, the colour directly behind it, and nothing else.
    pub open spec fn packed() -> VertexBufferLayout {
        VertexBufferLayout {
            array_stride: 20,
            step_mode: VertexStepMode::Vertex,
            attributes: [
                VertexAttribute { shader_location: 0, offset: 0, components: 2 },
                VertexAttribute { shader_location: 1, offset: 8, components: 3 },
            ],
        }
    }

    /// Whether the attributes follow one another without a gap and fill the
    /// stride exactly.
    pub open spec fn is_tight(self) -> bool {
        &&& self.attributes[0].offset == 0
        &&& self.attributes[1].offset == self.attributes[0].offset + 4
            * self.attributes[0].components
        &&& self.array_stride == self.attributes[1].offset + 4 * self.attributes[1].components
    }
}

impl Vertex {
    /// The components of the vertex in the order in which they lie in a
    /// buffer: the two coordinates, then the three colour channels.
    pub open spec fn components(self) -> Seq<Ratio> {
        self.position@ + self.color@
    }

    /// The layout of the vertices in a vertex buffer.
    pub fn desc() -> (layout: VertexBufferLayout)
        ensures
            layout == VertexBufferLayout::packed(),
            layout.is_tight(),
            layout.array_stride == VERTEX_SIZE,
    {
        VertexBufferLayout {
            array_stride: 20,
            step_mode: VertexStepMode::Vertex,
            attributes: [
                VertexAttribute { shader_location: 0, offset: 0, components: 2 },
                VertexAttribute { shader_location: 1, offset: 8, components: 3 },
            ],
        }
    }
}

} // verus!
