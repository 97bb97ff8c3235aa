use vstd::prelude::*;
use crate::math::{Ratio, Vector2};
use crate::rendering::index::Index;
use crate::rendering::shapes::mapping::{point_to_vertex, vertex_of};
use crate::rendering::vertex::Vertex;

verus! {

/// A triangle, given by its three corners in pixels.
#[derive(Clone, Copy, Debug, PartialEq)]
pub struct Triangle {
    pub points: [Vector2<i32>; 3],
}

impl Triangle {
    /// The colour of every triangle: three quarters of red and of green, no blue.
    pub open spec fn spec_color() -> [Ratio; 3] {
        [Ratio { num: 3, den: 4 }, Ratio { num: 3, den: 4 }, Ratio { num: 0, den: 1 }]
    }

    /// The vertices of the triangle on a screen of the given size: one for
    /// each corner, in the order of the corners.
    pub open spec fn spec_vertices(self, screen_width: u32, screen_height: u32) -> Seq<Vertex> {
        Seq::new(
            3,
            |i: int| vertex_of(self.points[i], screen_width, screen_height, Self::spec_color()),
        )
    }

    /// The indices of the one triangle to draw, counted from the first vertex
    /// of this shape.
    pub open spec fn spec_indices() -> Seq<Index> {
        seq![0u16, 1u16, 2u16]
    }

    /// The colour of every triangle.
    pub fn color() -> (c: [Ratio; 3])
        ensures
            c == Self::spec_color(),
    {
        [Ratio { num: 3, den: 4 }, Ratio { num: 3, den: 4 }, Ratio { num: 0, den: 1 }]
    }

    /// The three vertices of the triangle on a screen of the given size.
    pub fn get_vertices(&self, screen_width: u32, screen_height: u32) -> (v: [Vertex; 3])
        ensures
            v@ == self.spec_vertices(screen_width, screen_height),
    {
        let color = Self::color();
        let v = [
            point_to_vertex(self.points[0], screen_width, screen_height, color),
            point_to_vertex(self.points[1], screen_width, screen_height, color),
            point_to_vertex(self.points[2], screen_width, screen_height, color),
        ];
        assert(v@ =~= self.spec_vertices(screen_width, screen_height));
        v
    }

    /// The indices of the triangle, counted from its own first vertex.
    pub fn get_indices(&self) -> (i: [Index; 3])
        ensures
            i@ == Self::spec_indices(),
    {
        let i = [0, 1, 2];
        assert(i@ =~= Self::spec_indices());
        i
    }
}

} // verus!
