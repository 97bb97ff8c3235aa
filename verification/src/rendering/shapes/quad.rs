use vstd::prelude::*;
use crate::math::{Ratio, Vector2};
use crate::rendering::index::Index;
use crate::rendering::shapes::mapping::{point_to_vertex, vertex_of};
use crate::rendering::vertex::Vertex;

verus! {

/// A quadrilateral, given by its four corners in pixels, in the order in
/// which they follow one another around it.
#[derive(Clone, Copy, Debug, PartialEq)]
pub struct Quad {
    pub points: [Vector2<i32>; 4],
}

impl Quad {
    /// The colour of every quad: full red, a fifth of green, no blue.
    pub open spec fn spec_color() -> [Ratio; 3] {
        [Ratio { num: 1, den: 1 }, Ratio { num: 1, den: 5 }, Ratio { num: 0, den: 1 }]
    }

    /// The vertices of the quad on a screen of the given size: one for each
    /// corner, in the order of the corners.
    pub open spec fn spec_vertices(self, screen_width: u32, screen_height: u32) -> Seq<Vertex> {
        Seq::new(
            4,
            |i: int| vertex_of(self.points[i], screen_width, screen_height, Self::spec_color()),
        )
    }

    /// The indices of the two triangles that share the diagonal from the
    /// first corner to the third, counted from the first vertex of this shape.
    pub open spec fn spec_indices() -> Seq<Index> {
        seq![0u16, 1u16, 2u16, 0u16, 2u16, 3u16]
    }

    /// Half of a side, rounded towards zero.
    pub open spec fn half_side(side: int) -> int {
        if side >= 0 {
            side / 2
        } else {
            -((-side) / 2)
        }
    }

    /// The corners of the square around `center` whose corners lie
    /// `half_side(side)` away from it along both axes.
    pub open spec fn spec_square(center: Vector2<i32>, side: i32) -> Seq<Vector2<i32>> {
        let h = Self::half_side(side as int);
        seq![
            Vector2 { x: (center.x - h) as i32, y: (center.y + h) as i32 },
            Vector2 { x: (center.x - h) as i32, y: (center.y - h) as i32 },
            Vector2 { x: (center.x + h) as i32, y: (center.y - h) as i32 },
            Vector2 { x: (center.x + h) as i32, y: (center.y + h) as i32 },
        ]
    }

    /// Whether all four corners of the square have coordinates that fit.
    pub open spec fn square_fits(center: Vector2<i32>, side: i32) -> bool {
        let h = Self::half_side(side as int);
        &&& i32::MIN <= center.x - h <= i32::MAX
        &&& i32::MIN <= center.x + h <= i32::MAX
        &&& i32::MIN <= center.y - h <= i32::MAX
        &&& i32::MIN <= center.y + h <= i32::MAX
    }

    /// The colour of every quad.
    pub fn color() -> (c: [Ratio; 3])
        ensures
            c == Self::spec_color(),
    {
        [Ratio { num: 1, den: 1 }, Ratio { num: 1, den: 5 }, Ratio { num: 0, den: 1 }]
    }

    /// Creates a square with its center at `center`, each corner half a side
    /// away from it along both axes. Half of an odd side is rounded towards zero.
    /// ```text
    /// A ---side--- D
    /// |            |
    /// |     +      |
    /// |            |
    /// B ---------- C
    /// ```
    pub fn square(center: Vector2<i32>, side: i32) -> (q: Quad)
        requires
            Self::square_fits(center, side),
        ensures
            q.points@ == Self::spec_square(center, side),
    {
        let half_side: i32 = side / 2;
        let q = Quad {
            points: [
                center + Vector2::new(-half_side, half_side),
                center + Vector2::new(-half_side, -half_side),
                center + Vector2::new(half_side, -half_side),
                center + Vector2::new(half_side, half_side),
            ],
        };
        assert(q.points@ =~= Self::spec_square(center, side));
        q
    }

    /// The four vertices of the quad on a screen of the given size.
    pub fn get_vertices(&self, screen_width: u32, screen_height: u32) -> (v: [Vertex; 4])
        ensures
            v@ == self.spec_vertices(screen_width, screen_height),
    {
        let color = Self::color();
        let v = [
            point_to_vertex(self.points[0], screen_width, screen_height, color),
            point_to_vertex(self.points[1], screen_width, screen_height, color),
            point_to_vertex(self.points[2], screen_width, screen_height, color),
            point_to_vertex(self.points[3], screen_width, screen_height, color),
        ];
        assert(v@ =~= self.spec_vertices(screen_width, screen_height));
        v
    }

    /// The indices of the quad, counted from its own first vertex.
    pub fn get_indices(&self) -> (i: [Index; 6])
        ensures
            i@ == Self::spec_indices(),
    {
        let i = [0, 1, 2, 0, 2, 3];
        assert(i@ =~= Self::spec_indices());
        i
    }
}

} // verus!
