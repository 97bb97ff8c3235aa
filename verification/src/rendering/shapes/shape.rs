use vstd::prelude::*;
use crate::rendering::index::Index;
use crate::rendering::shapes::quad::Quad;
use crate::rendering::shapes::triangle::Triangle;
use crate::rendering::vertex::Vertex;

verus! {

/// A shape that can be drawn.
#[derive(Clone, Copy, Debug, PartialEq)]
pub enum Shape {
    Triangle(Triangle),
    Quad(Quad),
}

impl Shape {
    /// The vertices of the shape on a screen of the given size.
    pub open spec fn spec_vertices(self, screen_width: u32, screen_height: u32) -> Seq<Vertex> {
        match self {
            Shape::Triangle(triangle) => triangle.spec_vertices(screen_width, screen_height),
            Shape::Quad(quad) => quad.spec_vertices(screen_width, screen_height),
        }
    }

    /// The indices of the triangles of the shape, counted from its own first vertex.
    pub open spec fn spec_indices(self) -> Seq<Index> {
        match self {
            Shape::Triangle(_) => Triangle::spec_indices(),
            Shape::Quad(_) => Quad::spec_indices(),
        }
    }

    /// The number of vertices of the shape.
    pub open spec fn vertex_count(self) -> nat {
        match self {
            Shape::Triangle(_) => 3,
            Shape::Quad(_) => 4,
        }
    }

    /// The vertices of the shape on a screen of the given size.
    pub fn get_vertices(&self, screen_width: u32, screen_height: u32) -> (v: Vec<Vertex>)
        ensures
            v@ == self.spec_vertices(screen_width, screen_height),
            v@.len() == self.vertex_count(),
    {
        match self {
            Shape::Triangle(triangle) => to_vec(&triangle.get_vertices(screen_width, screen_height)),
            Shape::Quad(quad) => to_vec(&quad.get_vertices(screen_width, screen_height)),
        }
    }

    /// The indices of the shape, counted from its own first vertex.
    pub fn get_indices(&self) -> (i: Vec<Index>)
        ensures
            i@ == self.spec_indices(),
    {
        match self {
            Shape::Triangle(triangle) => to_vec(&triangle.get_indices()),
            Shape::Quad(quad) => to_vec(&quad.get_indices()),
        }
    }
}

/// Every index of a shape names one of its own vertices.
pub proof fn indices_name_own_vertices(shape: Shape)
    ensures
        forall|k: int|
            0 <= k < shape.spec_indices().len() ==> (#[trigger] shape.spec_indices()[k])
                < shape.vertex_count(),
{
}

/// Every channel of the colour of a shape lies between 0 and 1.
pub proof fn colors_are_within_range()
    ensures
        forall|c: int| 0 <= c < 3 ==> (#[trigger] Triangle::spec_color()[c]).is_within(0, 1),
        forall|c: int| 0 <= c < 3 ==> (#[trigger] Quad::spec_color()[c]).is_within(0, 1),
{
}

/// The items of an array, in a vector.
fn to_vec<T: Copy, const N: usize>(items: &[T; N]) -> (v: Vec<T>)
    ensures
        v@ == items@,
{
    let mut v: Vec<T> = Vec::new();
    let mut k: usize = 0;
    while k < N
        invariant
            k <= N,
            items@.len() == N,
            v@ == items@.take(k as int),
        decreases N - k,
    {
        v.push(items[k]);
        assert(items@.take(k + 1) =~= items@.take(k as int).push(items@[k as int]));
        k += 1;
    }
    assert(items@.take(N as int) =~= items@);
    v
}

} // verus!
