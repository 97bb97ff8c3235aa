use vstd::prelude::*;
use crate::rendering::error::RenderError;
use crate::rendering::index::{Index, MAX_VERTICES};
use crate::rendering::shapes::Shape;
use crate::rendering::vertex::Vertex;

verus! {

/// The number of vertices of a sequence of shapes.
pub open spec fn vertex_count(shapes: Seq<Shape>) -> nat
    decreases shapes.len(),
{
    if shapes.len() == 0 {
        0
    } else {
        vertex_count(shapes.drop_last()) + shapes.last().vertex_count()
    }
}

/// The vertices of a sequence of shapes on a screen of the given size: those
/// of the first shape, then those of the second, and so on.
pub open spec fn geometry_vertices(
    shapes: Seq<Shape>,
    screen_width: u32,
    screen_height: u32,
) -> Seq<Vertex>
    decreases shapes.len(),
{
    if shapes.len() == 0 {
        Seq::empty()
    } else {
        geometry_vertices(shapes.drop_last(), screen_width, screen_height)
            + shapes.last().spec_vertices(screen_width, screen_height)
    }
}

/// The indices of a shape, each moved up by `offset`.
pub open spec fn offset_indices(shape: Shape, offset: nat) -> Seq<int> {
    Seq::new(shape.spec_indices().len(), |k: int| offset + shape.spec_indices()[k])
}

/// The indices of a sequence of shapes: those of each shape in turn, moved
/// up by the number of vertices of the shapes before it.
pub open spec fn geometry_indices(shapes: Seq<Shape>) -> Seq<int>
    decreases shapes.len(),
{
    if shapes.len() == 0 {
        Seq::empty()
    } else {
        geometry_indices(shapes.drop_last()) + offset_indices(
            shapes.last(),
            vertex_count(shapes.drop_last()),
        )
    }
}

/// A sequence of indices as integers.
pub open spec fn as_ints(indices: Seq<Index>) -> Seq<int> {
    Seq::new(indices.len(), |k: int| indices[k] as int)
}

/// The shapes to draw, in the order in which they were added. A shape added
/// later is drawn over those added before it.
#[derive(Debug)]
pub struct RenderQueue {
    shapes: Vec<Shape>,
}

/// The vertices and indices of one frame.
#[derive(Debug, PartialEq, Eq)]
pub struct RenderBuffers {
    pub vertices: Vec<Vertex>,
    pub indices: Vec<Index>,
}

impl View for RenderQueue {
    type V = Seq<Shape>;

    closed spec fn view(&self) -> Seq<Shape> {
        self.shapes@
    }
}

impl Default for RenderQueue {
    /// An empty queue.
    fn default() -> (queue: RenderQueue)
        ensures
            queue@ == Seq::<Shape>::empty(),
    {
        RenderQueue { shapes: Vec::new() }
    }
}

impl RenderQueue {
    /// An empty queue.
    pub fn new() -> (queue: RenderQueue)
        ensures
            queue@ == Seq::<Shape>::empty(),
    {
        RenderQueue { shapes: Vec::new() }
    }

    /// Appends a shape to the queue.
    pub fn add(&mut self, shape: Shape)
        ensures
            final(self)@ == old(self)@.push(shape),
    {
        self.shapes.push(shape);
    }

    /// Empties the queue.
    pub fn clear(&mut self)
        ensures
            final(self)@ == Seq::<Shape>::empty(),
    {
        self.shapes.clear();
    }

    /// The shapes of the queue, in the order in which they were added.
    pub fn shapes(&self) -> (shapes: &Vec<Shape>)
        ensures
            shapes@ == self@,
    {
        &self.shapes
    }

    /// The number of shapes in the queue.
    pub fn len(&self) -> (n: usize)
        ensures
            n == self@.len(),
    {
        self.shapes.len()
    }

    /// The vertices and indices of all shapes of the queue, in the order of
    /// the queue, on a screen of the given size. Fails when the shapes have
    /// more vertices than indices can tell apart.
    pub fn buffers(&self, screen_width: u32, screen_height: u32) -> (r: Result<
        RenderBuffers,
        RenderError,
    >)
        ensures
            match r {
                Ok(buffers) => {
                    &&& vertex_count(self@) <= MAX_VERTICES
                    &&& buffers.vertices@ == geometry_vertices(self@, screen_width, screen_height)
                    &&& as_ints(buffers.indices@) == geometry_indices(self@)
                    &&& buffers.vertices@.len() == vertex_count(self@)
                    &&& forall|k: int|
                        0 <= k < buffers.indices@.len() ==> (#[trigger] buffers.indices@[k])
                            < buffers.vertices@.len()
                },
                Err(e) => e == RenderError::TooManyVertices && vertex_count(self@) > MAX_VERTICES,
            },
    {
        let mut vertices: Vec<Vertex> = Vec::new();
        let mut indices: Vec<Index> = Vec::new();
        let mut next_index: usize = 0;
        let mut done: usize = 0;
        while done < self.shapes.len()
            invariant
                done <= self.shapes.len(),
                next_index == vertex_count(self.shapes@.take(done as int)),
                next_index <= MAX_VERTICES,
                vertices@ == geometry_vertices(
                    self.shapes@.take(done as int),
                    screen_width,
                    screen_height,
                ),
                as_ints(indices@) == geometry_indices(self.shapes@.take(done as int)),
            decreases self.shapes.len() - done,
        {
            let shape = &self.shapes[done];
            let mut local_vertices = shape.get_vertices(screen_width, screen_height);
            let local_indices = shape.get_indices();
            proof {
                assert(self.shapes@.take(done + 1).drop_last() =~= self.shapes@.take(done as int));
                assert(self.shapes@.take(done + 1).last() == *shape);
                crate::rendering::shapes::shape::indices_name_own_vertices(*shape);
            }
            if local_vertices.len() > MAX_VERTICES - next_index {
                proof {
                    vertex_count_of_prefix(self.shapes@, done + 1);
                }
                return Err(RenderError::TooManyVertices);
            }
            let ghost before = indices@;
            let mut k: usize = 0;
            while k < local_indices.len()
                invariant
                    k <= local_indices.len(),
                    local_indices@ == shape.spec_indices(),
                    next_index + shape.vertex_count() <= MAX_VERTICES,
                    forall|j: int|
                        0 <= j < shape.spec_indices().len() ==> (#[trigger] shape.spec_indices()[j])
                            < shape.vertex_count(),
                    as_ints(indices@) == as_ints(before) + offset_indices(
                        *shape,
                        next_index as nat,
                    ).take(k as int),
                decreases local_indices.len() - k,
            {
                let local: Index = local_indices[k];
                assert(local == shape.spec_indices()[k as int]);
                let ghost previous = indices@;
                indices.push((next_index + local as usize) as Index);
                assert(as_ints(indices@) =~= as_ints(previous).push(next_index + local));
                assert(offset_indices(*shape, next_index as nat).take(k + 1) =~= offset_indices(
                    *shape,
                    next_index as nat,
                ).take(k as int).push(next_index + local));
                k += 1;
            }
            assert(offset_indices(*shape, next_index as nat).take(k as int) =~= offset_indices(
                *shape,
                next_index as nat,
            ));
            next_index += local_vertices.len();
            vertices.append(&mut local_vertices);
            done += 1;
        }
        proof {
            assert(self.shapes@.take(done as int) =~= self.shapes@);
            geometry_sizes(self.shapes@, screen_width, screen_height);
            assert forall|k: int| 0 <= k < indices@.len() implies (#[trigger] indices@[k])
                < vertices@.len() by {
                assert(as_ints(indices@)[k] == geometry_indices(self.shapes@)[k]);
            }
        }
        Ok(RenderBuffers { vertices, indices })
    }
}

/// There are as many vertices as the shapes have together, and every index
/// names one of them.
pub proof fn geometry_sizes(shapes: Seq<Shape>, screen_width: u32, screen_height: u32)
    ensures
        geometry_vertices(shapes, screen_width, screen_height).len() == vertex_count(shapes),
        forall|k: int|
            0 <= k < geometry_indices(shapes).len() ==> 0 <= (#[trigger] geometry_indices(
                shapes,
            )[k]) < vertex_count(shapes),
    decreases shapes.len(),
{
    if shapes.len() > 0 {
        let before = shapes.drop_last();
        let last = shapes.last();
        geometry_sizes(before, screen_width, screen_height);
        crate::rendering::shapes::shape::indices_name_own_vertices(last);
        assert forall|k: int| 0 <= k < geometry_indices(shapes).len() implies 0 <= (
        #[trigger] geometry_indices(shapes)[k]) < vertex_count(shapes) by {
            let split = geometry_indices(before).len();
            if k < split {
                assert(geometry_indices(shapes)[k] == geometry_indices(before)[k]);
            } else {
                assert(geometry_indices(shapes)[k] == vertex_count(before)
                    + last.spec_indices()[k - split]);
            }
        }
    }
}

/// A sequence of indices, each moved up by `offset`.
pub open spec fn shifted(indices: Seq<int>, offset: nat) -> Seq<int> {
    Seq::new(indices.len(), |k: int| indices[k] + offset)
}

/// Shapes added behind others keep their own geometry: their vertices follow
/// those of the shapes before them, and their indices are moved up by the
/// number of vertices before them.
pub proof fn geometry_of_concatenation(
    first: Seq<Shape>,
    second: Seq<Shape>,
    screen_width: u32,
    screen_height: u32,
)
    ensures
        vertex_count(first + second) == vertex_count(first) + vertex_count(second),
        geometry_vertices(first + second, screen_width, screen_height) == geometry_vertices(
            first,
            screen_width,
            screen_height,
        ) + geometry_vertices(second, screen_width, screen_height),
        geometry_indices(first + second) == geometry_indices(first) + shifted(
            geometry_indices(second),
            vertex_count(first),
        ),
    decreases second.len(),
{
    if second.len() == 0 {
        assert(first + second =~= first);
        assert(geometry_vertices(first, screen_width, screen_height) + Seq::<Vertex>::empty()
            =~= geometry_vertices(first, screen_width, screen_height));
        assert(geometry_indices(first) + shifted(Seq::<int>::empty(), vertex_count(first))
            =~= geometry_indices(first));
    } else {
        let all = first + second;
        let last = second.last();
        geometry_of_concatenation(first, second.drop_last(), screen_width, screen_height);
        assert(all.drop_last() =~= first + second.drop_last());
        assert(all.last() == last);
        assert(geometry_vertices(all, screen_width, screen_height) =~= geometry_vertices(
            first,
            screen_width,
            screen_height,
        ) + geometry_vertices(second, screen_width, screen_height));
        assert(geometry_indices(all) =~= geometry_indices(first) + shifted(
            geometry_indices(second),
            vertex_count(first),
        ));
    }
}

/// What one more shape adds to the geometry: its own vertices behind those
/// that are there, and its own indices moved up by their number.
pub proof fn geometry_of_push(
    shapes: Seq<Shape>,
    shape: Shape,
    screen_width: u32,
    screen_height: u32,
)
    ensures
        vertex_count(shapes.push(shape)) == vertex_count(shapes) + shape.vertex_count(),
        geometry_vertices(shapes.push(shape), screen_width, screen_height) == geometry_vertices(
            shapes,
            screen_width,
            screen_height,
        ) + shape.spec_vertices(screen_width, screen_height),
        geometry_indices(shapes.push(shape)) == geometry_indices(shapes) + offset_indices(
            shape,
            vertex_count(shapes),
        ),
{
    assert(shapes.push(shape).drop_last() =~= shapes);
}

/// Shapes have at most twice as many indices as vertices.
pub proof fn index_count_bound(shapes: Seq<Shape>)
    ensures
        geometry_indices(shapes).len() <= 2 * vertex_count(shapes),
    decreases shapes.len(),
{
    if shapes.len() > 0 {
        index_count_bound(shapes.drop_last());
    }
}

/// The first shapes of a sequence have no more vertices than all of them.
pub proof fn vertex_count_of_prefix(shapes: Seq<Shape>, n: int)
    requires
        0 <= n <= shapes.len(),
    ensures
        vertex_count(shapes.take(n)) <= vertex_count(shapes),
    decreases shapes.len(),
{
    if n == shapes.len() {
        assert(shapes.take(n) =~= shapes);
    } else {
        vertex_count_of_prefix(shapes.drop_last(), n);
        assert(shapes.drop_last().take(n) =~= shapes.take(n));
    }
}

} // verus!
