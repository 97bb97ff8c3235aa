use vstd::prelude::*;
use crate::math::Ratio;
use crate::rendering::buffer::{
    grown_capacity_keeps_alignment,
    grown_capacity_suffices,
    spec_grown_capacity,
    spec_nearest_4,
    zeros,
    BufferUsage,
    GpuBuffer,
};
use crate::rendering::encoding::{encodes_indices, encodes_vertices, index_bytes, vertex_bytes};
use crate::rendering::error::{RenderError, SurfaceError};
use crate::rendering::index::{Index, MAX_VERTICES};
use crate::rendering::queue::{
    as_ints,
    geometry_indices,
    geometry_vertices,
    index_count_bound,
    vertex_count,
    RenderQueue,
};
use crate::rendering::shapes::Shape;

verus! {

/// The size in pixels with which the surface is configured.
#[derive(Clone, Copy, Debug, PartialEq, Eq, Structural)]
pub struct SurfaceConfiguration {
    pub width: u32,
    pub height: u32,
}

/// One indexed draw of the graphics device.
#[derive(Clone, Copy, Debug, PartialEq, Eq, Structural)]
pub struct DrawCall {
    /// The first index to draw.
    pub first_index: u32,
    /// The number of indices to draw.
    pub index_count: u32,
    /// What is added to every index before it names a vertex.
    pub base_vertex: i32,
    /// The first instance to draw.
    pub first_instance: u32,
    /// The number of instances to draw.
    pub instance_count: u32,
}

/// The one pass of the graphics device that draws a frame.
#[derive(Clone, Copy, Debug, PartialEq, Eq)]
pub struct RenderPass {
    /// The colour to which the image is cleared before anything is drawn:
    /// red, green, blue and opacity.
    pub clear_color: [Ratio; 4],
    /// The draw of the pass.
    pub draw: DrawCall,
}

/// The colour of the background: a tenth of red, a fifth of green, three
/// tenths of blue, and fully opaque.
pub open spec fn spec_background() -> [Ratio; 4] {
    [
        Ratio { num: 1, den: 10 },
        Ratio { num: 1, den: 5 },
        Ratio { num: 3, den: 10 },
        Ratio { num: 1, den: 1 },
    ]
}

/// The colour of the background.
pub fn background() -> (color: [Ratio; 4])
    ensures
        color == spec_background(),
{
    [
        Ratio { num: 1, den: 10 },
        Ratio { num: 1, den: 5 },
        Ratio { num: 3, den: 10 },
        Ratio { num: 1, den: 1 },
    ]
}

/// The place of the surface format to use among those that the surface
/// offers, given for each format whether it is an sRGB format: that of the
/// first sRGB format, or of the first format where none is one; `None` where
/// the surface offers no format.
pub fn choose_surface_format(is_srgb: &Vec<bool>) -> (choice: Option<usize>)
    ensures
        match choice {
            Some(chosen) => {
                &&& chosen < is_srgb@.len()
                &&& forall|i: int| 0 <= i < chosen ==> !is_srgb@[i]
                &&& is_srgb@[chosen as int] || (chosen == 0 && forall|i: int|
                    0 <= i < is_srgb@.len() ==> !is_srgb@[i])
            },
            None => is_srgb@.len() == 0,
        },
{
    if is_srgb.len() == 0 {
        return None;
    }
    let mut at: usize = 0;
    while at < is_srgb.len()
        invariant
            at <= is_srgb.len(),
            forall|i: int| 0 <= i < at ==> !is_srgb@[i],
        decreases is_srgb.len() - at,
    {
        if is_srgb[at] {
            return Some(at);
        }
        at += 1;
    }
    Some(0)
}

/// What is to be done to a buffer of the device so that it holds what was
/// staged for a frame.
#[derive(Clone, Copy, Debug, PartialEq, Eq, Structural)]
pub enum BufferUpdate {
    /// Nothing: no bytes were staged.
    Keep,
    /// Write the first `bytes` bytes of the staged buffer to the start of the
    /// buffer of the device.
    Write { bytes: usize },
    /// Give up the buffer of the device for a new one of `capacity` bytes
    /// that holds all of the staged buffer.
    Replace { capacity: usize },
}

/// What is to be done to a buffer of `capacity` bytes for a payload of
/// `payload` bytes: replace a buffer that is too small, and else write the
/// payload, rounded up to a multiple of four bytes, if there is one.
pub open spec fn update_of(capacity: nat, payload: nat) -> BufferUpdate {
    if payload > capacity {
        BufferUpdate::Replace { capacity: spec_grown_capacity(capacity, payload) as usize }
    } else if payload == 0 {
        BufferUpdate::Keep
    } else {
        BufferUpdate::Write { bytes: spec_nearest_4(payload) as usize }
    }
}

/// What one frame asks of the graphics device, once the state has staged it.
#[derive(Clone, Copy, Debug, PartialEq, Eq, Structural)]
pub struct Frame {
    /// What is to be done to the vertex buffer.
    pub vertex_buffer: BufferUpdate,
    /// What is to be done to the index buffer.
    pub index_buffer: BufferUpdate,
    /// The number of indices to draw.
    pub indices_count: u32,
}

impl Frame {
    /// The one draw of a frame: all of its indices, from the first vertex,
    /// once.
    pub open spec fn spec_draw_call(self) -> DrawCall {
        DrawCall {
            first_index: 0,
            index_count: self.indices_count,
            base_vertex: 0,
            first_instance: 0,
            instance_count: 1,
        }
    }

    /// The one pass of a frame: the image cleared to the background, then the
    /// one draw.
    pub open spec fn spec_render_pass(self) -> RenderPass {
        RenderPass { clear_color: spec_background(), draw: self.spec_draw_call() }
    }

    /// What follows once the image of the surface was asked for: the one pass
    /// of the frame where the image was had, and the failure where it was not.
    pub fn draw(&self, acquired: Result<(), SurfaceError>) -> (r: Result<RenderPass, RenderError>)
        ensures
            r == match acquired {
                Ok(_) => Ok::<RenderPass, RenderError>(self.spec_render_pass()),
                Err(e) => Err::<RenderPass, RenderError>(RenderError::Surface(e)),
            },
    {
        match acquired {
            Ok(_) => Ok(
                RenderPass {
                    clear_color: background(),
                    draw: DrawCall {
                        first_index: 0,
                        index_count: self.indices_count,
                        base_vertex: 0,
                        first_instance: 0,
                        instance_count: 1,
                    },
                },
            ),
            Err(e) => Err(RenderError::Surface(e)),
        }
    }
}

/// The indices of a frame as a buffer holds them.
pub open spec fn as_indices(indices: Seq<int>) -> Seq<Index> {
    Seq::new(indices.len(), |k: int| indices[k] as Index)
}

/// What a buffer holds once `payload` was staged in it: where it was too
/// small, zeros of the capacity to which it grew; in either case the payload
/// written to its start.
pub open spec fn staged(before: Seq<u8>, payload: Seq<u8>) -> Seq<u8> {
    if payload.len() > before.len() {
        GpuBuffer::after_upload(
            zeros(spec_grown_capacity(before.len(), payload.len())),
            payload,
        )
    } else {
        GpuBuffer::after_upload(before, payload)
    }
}

/// The capacity of a buffer of `capacity` bytes once a payload of `payload`
/// bytes was staged in it: its own where the payload fits, and else that to
/// which it grew.
pub open spec fn staged_capacity(capacity: nat, payload: nat) -> nat {
    if payload > capacity {
        spec_grown_capacity(capacity, payload)
    } else {
        capacity
    }
}

/// Staging keeps the capacity of a buffer that can hold the payload, and
/// gives any other the capacity to which it grew; the payload is read back
/// from the start of the buffer as it was written.
pub proof fn staged_holds_payload(before: Seq<u8>, payload: Seq<u8>)
    requires
        GpuBuffer::is_storage(before),
    ensures
        staged(before, payload).len() == staged_capacity(before.len(), payload.len()),
        staged(before, payload).len() >= before.len(),
        staged(before, payload).len() >= payload.len(),
        payload.len() <= before.len() ==> staged(before, payload).len() == before.len(),
        staged(before, payload).subrange(0, payload.len() as int) == payload,
{
    grown_capacity_suffices(before.len(), payload.len());
    grown_capacity_keeps_alignment(before.len(), payload.len());
    assert(staged(before, payload).subrange(0, payload.len() as int) =~= payload);
}

/// What the renderer keeps from frame to frame: the queue of shapes, the
/// configuration of the surface, and the two buffers.
///
/// The fields are open to read, so that what a frame does to the state can
/// be said of them. A state is meant to be changed through its methods and
/// through its queue; `wf` says what they keep true.
#[derive(Debug)]
pub struct RendererState {
    /// The shapes to draw.
    pub render_queue: RenderQueue,
    /// The size with which the surface is configured, or is to be.
    pub config: SurfaceConfiguration,
    /// Whether the surface has been configured.
    pub is_surface_configured: bool,
    /// The bytes of the vertex buffer.
    pub vertex_buffer: GpuBuffer,
    /// The bytes of the index buffer.
    pub index_buffer: GpuBuffer,
    /// The number of indices of the last frame that was staged.
    pub indices_count: u32,
}

impl RendererState {
    /// Whether the state is as every state is meant to be: each buffer is
    /// one, the vertex buffer holds vertices and the index buffer indices, and
    /// a configured surface has no side of zero pixels.
    pub open spec fn wf(&self) -> bool {
        &&& self.vertex_buffer.wf()
        &&& self.index_buffer.wf()
        &&& self.vertex_buffer.spec_usage() == BufferUsage::Vertex
        &&& self.index_buffer.spec_usage() == BufferUsage::Index
        &&& self.is_surface_configured ==> self.config.width > 0 && self.config.height > 0
    }

    /// Whether two states differ in nothing but their queues.
    pub open spec fn same_device_state(&self, other: &RendererState) -> bool {
        &&& self.config == other.config
        &&& self.is_surface_configured == other.is_surface_configured
        &&& self.vertex_buffer@ == other.vertex_buffer@
        &&& self.index_buffer@ == other.index_buffer@
        &&& self.vertex_buffer.spec_usage() == other.vertex_buffer.spec_usage()
        &&& self.index_buffer.spec_usage() == other.index_buffer.spec_usage()
        &&& self.indices_count == other.indices_count
    }

    /// Whether two states are the same in every part.
    pub open spec fn same_state(&self, other: &RendererState) -> bool {
        self.render_queue@ == other.render_queue@ && self.same_device_state(other)
    }

    /// The vertices of the queue on the configured surface.
    pub open spec fn frame_vertices(&self) -> Seq<crate::rendering::vertex::Vertex> {
        geometry_vertices(self.render_queue@, self.config.width, self.config.height)
    }

    /// The indices of the queue.
    pub open spec fn frame_indices(&self) -> Seq<int> {
        geometry_indices(self.render_queue@)
    }

    /// The state of a renderer for a surface of the given size, before the
    /// surface is configured: an empty queue, two zeroed buffers of their
    /// initial capacities, and nothing drawn. Fails where the buffers cannot
    /// be had.
    pub fn new(width: u32, height: u32) -> (r: Result<RendererState, RenderError>)
        ensures
            match r {
                Ok(state) => {
                    &&& state.wf()
                    &&& state.render_queue@ == Seq::<Shape>::empty()
                    &&& state.config == (SurfaceConfiguration { width, height })
                    &&& !state.is_surface_configured
                    &&& state.vertex_buffer@ == zeros(
                        GpuBuffer::initial_capacity(BufferUsage::Vertex),
                    )
                    &&& state.index_buffer@ == zeros(
                        GpuBuffer::initial_capacity(BufferUsage::Index),
                    )
                    &&& state.vertex_buffer.spec_usage() == BufferUsage::Vertex
                    &&& state.index_buffer.spec_usage() == BufferUsage::Index
                    &&& state.vertex_buffer@.len() == 640
                    &&& state.index_buffer@.len() == 64
                    &&& state.indices_count == 0
                },
                Err(e) => e == RenderError::BufferGrowthFailure,
            },
    {
        let vertex_buffer = match GpuBuffer::new(BufferUsage::Vertex) {
            Ok(buffer) => buffer,
            Err(e) => {
                return Err(e);
            },
        };
        let index_buffer = match GpuBuffer::new(BufferUsage::Index) {
            Ok(buffer) => buffer,
            Err(e) => {
                return Err(e);
            },
        };
        Ok(
            RendererState {
                render_queue: RenderQueue::new(),
                config: SurfaceConfiguration { width, height },
                is_surface_configured: false,
                vertex_buffer,
                index_buffer,
                indices_count: 0,
            },
        )
    }

    /// Takes note of a new size of the surface. Where both sides are above
    /// zero, the size is kept, the surface counts as configured from now on,
    /// and the result is `true`: the surface is to be configured with this
    /// size. A size with a side of zero is passed over, and nothing changes.
    pub fn resize(&mut self, width: u32, height: u32) -> (configure: bool)
        requires
            old(self).wf(),
        ensures
            final(self).wf(),
            configure == (width > 0 && height > 0),
            old(self).is_surface_configured ==> final(self).is_surface_configured,
            final(self).render_queue@ == old(self).render_queue@,
            final(self).vertex_buffer == old(self).vertex_buffer,
            final(self).index_buffer == old(self).index_buffer,
            final(self).indices_count == old(self).indices_count,
            configure ==> final(self).is_surface_configured && final(self).config == (
            SurfaceConfiguration { width, height }),
            !configure ==> final(self).same_state(old(self)),
    {
        if width > 0 && height > 0 {
            self.config.width = width;
            self.config.height = height;
            self.is_surface_configured = true;
            true
        } else {
            false
        }
    }

    /// The size in pixels with which the surface is configured.
    pub fn window_size(&self) -> (size: (u32, u32))
        ensures
            size == (self.config.width, self.config.height),
    {
        (self.config.width, self.config.height)
    }

    /// Whether the surface has been configured.
    pub fn is_surface_configured(&self) -> (configured: bool)
        ensures
            configured == self.is_surface_configured,
    {
        self.is_surface_configured
    }

    /// The vertex buffer.
    pub fn vertex_buffer(&self) -> (buffer: &GpuBuffer)
        ensures
            *buffer == self.vertex_buffer,
            self.wf() ==> buffer.wf() && buffer.spec_usage() == BufferUsage::Vertex,
    {
        &self.vertex_buffer
    }

    /// The index buffer.
    pub fn index_buffer(&self) -> (buffer: &GpuBuffer)
        ensures
            *buffer == self.index_buffer,
            self.wf() ==> buffer.wf() && buffer.spec_usage() == BufferUsage::Index,
    {
        &self.index_buffer
    }

    /// The number of indices of the last frame that was staged.
    pub fn indices_count(&self) -> (count: u32)
        ensures
            count == self.indices_count,
    {
        self.indices_count
    }

    /// Appends a shape to the queue.
    pub fn queue_add(&mut self, shape: Shape)
        requires
            old(self).wf(),
        ensures
            final(self).wf(),
            final(self).render_queue@ == old(self).render_queue@.push(shape),
            final(self).same_device_state(old(self)),
    {
        self.render_queue.add(shape);
    }

    /// Empties the queue. What the buffers hold of earlier frames stays.
    pub fn queue_clear(&mut self)
        requires
            old(self).wf(),
        ensures
            final(self).wf(),
            final(self).render_queue@ == Seq::<Shape>::empty(),
            final(self).same_device_state(old(self)),
    {
        self.render_queue.clear();
    }

    /// Puts the buffer that was made for a payload, if one was, in the place
    /// of the buffer, writes the payload to its start, and says what is to be
    /// done to the buffer of the device.
    fn stage(buffer: &mut GpuBuffer, grown: Option<GpuBuffer>, payload: &Vec<u8>) -> (update:
        BufferUpdate)
        requires
            old(buffer).wf(),
            match grown {
                Some(larger) => {
                    &&& payload@.len() > old(buffer)@.len()
                    &&& larger.wf()
                    &&& larger.spec_usage() == old(buffer).spec_usage()
                    &&& larger@ == zeros(spec_grown_capacity(old(buffer)@.len(), payload@.len()))
                    &&& larger@.len() >= payload@.len()
                },
                None => payload@.len() <= old(buffer)@.len(),
            },
        ensures
            final(buffer).wf(),
            final(buffer).spec_usage() == old(buffer).spec_usage(),
            final(buffer)@ == staged(old(buffer)@, payload@),
            final(buffer)@.len() == staged_capacity(old(buffer)@.len(), payload@.len()),
            final(buffer)@.subrange(0, payload@.len() as int) == payload@,
            update == update_of(old(buffer)@.len(), payload@.len()),
    {
        match grown {
            Some(larger) => {
                *buffer = larger;
                let capacity = buffer.capacity();
                buffer.upload(payload);
                BufferUpdate::Replace { capacity }
            },
            None => {
                match buffer.upload(payload) {
                    Some(written) => {
                        if written == 0 {
                            BufferUpdate::Keep
                        } else {
                            BufferUpdate::Write { bytes: written }
                        }
                    },
                    None => BufferUpdate::Keep,
                }
            },
        }
    }

    /// Whether `self` is `before` with the frame of its queue staged: the
    /// vertices written to the start of the vertex buffer and the indices to
    /// the start of the index buffer, each buffer grown first where it was
    /// too small, and all indices counted.
    pub open spec fn holds_frame<F: Fn(Ratio) -> u32>(
        &self,
        before: &RendererState,
        round: F,
    ) -> bool {
        let vertices = before.frame_vertices();
        let indices = before.frame_indices();
        let vertex_payload = self.vertex_buffer@.subrange(0, 20 * vertices.len() as int);
        let index_payload = self.index_buffer@.subrange(0, 2 * indices.len() as int);
        &&& self.render_queue@ == before.render_queue@
        &&& self.config == before.config
        &&& self.is_surface_configured == before.is_surface_configured
        &&& 20 * vertices.len() <= self.vertex_buffer@.len()
        &&& 2 * indices.len() <= self.index_buffer@.len()
        &&& encodes_vertices(vertex_payload, vertices, round)
        &&& encodes_indices(index_payload, as_indices(indices))
        &&& self.vertex_buffer@ == staged(before.vertex_buffer@, vertex_payload)
        &&& self.index_buffer@ == staged(before.index_buffer@, index_payload)
        &&& self.vertex_buffer@.len() == staged_capacity(
            before.vertex_buffer@.len(),
            20 * vertices.len(),
        )
        &&& self.index_buffer@.len() == staged_capacity(
            before.index_buffer@.len(),
            2 * indices.len(),
        )
        &&& self.vertex_buffer.spec_usage() == before.vertex_buffer.spec_usage()
        &&& self.index_buffer.spec_usage() == before.index_buffer.spec_usage()
        &&& self.indices_count == indices.len()
    }

    /// What `render` reports of a frame that it staged from `before`.
    pub open spec fn frame_of(before: &RendererState) -> Frame {
        let vertex_bytes = 20 * before.frame_vertices().len();
        let index_bytes = 2 * before.frame_indices().len();
        Frame {
            vertex_buffer: update_of(before.vertex_buffer@.len(), vertex_bytes),
            index_buffer: update_of(before.index_buffer@.len(), index_bytes),
            indices_count: before.frame_indices().len() as u32,
        }
    }

    /// Stages one frame. While the surface is not configured, nothing is
    /// done and there is no frame. Else the geometry of the queue is built
    /// for the size of the surface, each component of each vertex rounded by
    /// `round` to the word that the device reads, both buffers are grown
    /// where they are too small, and the bytes of the vertices and of the
    /// indices are written to their starts. The frame says what the device
    /// is to be handed and how many indices to draw. Where the queue has
    /// more vertices than indices can tell apart, or a buffer cannot grow,
    /// the state stays as it is and the failure is reported.
    pub fn render<F: Fn(Ratio) -> u32>(&mut self, round: &F) -> (r: Result<
        Option<Frame>,
        RenderError,
    >)
        requires
            old(self).wf(),
            forall|ratio: Ratio| call_requires(*round, (ratio,)),
        ensures
            final(self).wf(),
            final(self).vertex_buffer@.len() >= old(self).vertex_buffer@.len(),
            final(self).index_buffer@.len() >= old(self).index_buffer@.len(),
            20 * old(self).frame_vertices().len() <= old(self).vertex_buffer@.len()
                ==> final(self).vertex_buffer@.len() == old(self).vertex_buffer@.len(),
            2 * old(self).frame_indices().len() <= old(self).index_buffer@.len()
                ==> final(self).index_buffer@.len() == old(self).index_buffer@.len(),
            final(self).vertex_buffer.spec_usage() == BufferUsage::Vertex,
            final(self).index_buffer.spec_usage() == BufferUsage::Index,
            !old(self).is_surface_configured ==> r == Ok::<Option<Frame>, RenderError>(None),
            match r {
                Ok(None) => !old(self).is_surface_configured && final(self).same_state(
                    old(self),
                ),
                Ok(Some(frame)) => {
                    &&& old(self).is_surface_configured
                    &&& vertex_count(old(self).render_queue@) <= MAX_VERTICES
                    &&& final(self).holds_frame(old(self), *round)
                    &&& frame == Self::frame_of(old(self))
                },
                Err(e) => {
                    &&& old(self).is_surface_configured
                    &&& final(self).same_state(old(self))
                    &&& e == RenderError::TooManyVertices || e == RenderError::BufferGrowthFailure
                    &&& e == RenderError::TooManyVertices <==> vertex_count(old(self).render_queue@)
                        > MAX_VERTICES
                    &&& e == RenderError::BufferGrowthFailure ==> {
                        ||| 20 * old(self).frame_vertices().len() > old(self).vertex_buffer@.len()
                        ||| 2 * old(self).frame_indices().len() > old(self).index_buffer@.len()
                    }
                },
            },
            old(self).is_surface_configured && vertex_count(old(self).render_queue@)
                <= MAX_VERTICES && 20 * old(self).frame_vertices().len()
                <= old(self).vertex_buffer@.len() && 2 * old(self).frame_indices().len()
                <= old(self).index_buffer@.len() ==> r matches Ok(Some(_)),
            old(self).render_queue@.len() == 0 && old(self).is_surface_configured ==> (
            r matches Ok(Some(frame)) && frame.indices_count == 0),
    {
        if !self.is_surface_configured {
            return Ok(None);
        }
        let buffers = match self.render_queue.buffers(self.config.width, self.config.height) {
            Ok(buffers) => buffers,
            Err(e) => {
                return Err(e);
            },
        };
        proof {
            grown_capacity_suffices(self.vertex_buffer@.len(), 20 * buffers.vertices@.len());
            grown_capacity_suffices(self.index_buffer@.len(), 2 * buffers.indices@.len());
            index_count_bound(self.render_queue@);
            crate::rendering::queue::geometry_sizes(
                self.render_queue@,
                self.config.width,
                self.config.height,
            );
            assert(as_indices(as_ints(buffers.indices@)) =~= buffers.indices@);
        }
        let vertex_payload = vertex_bytes(&buffers.vertices, round);
        let index_payload = index_bytes(&buffers.indices);
        let grown_vertex_buffer = match self.vertex_buffer.grown(vertex_payload.len()) {
            Ok(grown) => grown,
            Err(e) => {
                return Err(e);
            },
        };
        let grown_index_buffer = match self.index_buffer.grown(index_payload.len()) {
            Ok(grown) => grown,
            Err(e) => {
                return Err(e);
            },
        };
        let vertex_update = Self::stage(
            &mut self.vertex_buffer,
            grown_vertex_buffer,
            &vertex_payload,
        );
        let index_update = Self::stage(&mut self.index_buffer, grown_index_buffer, &index_payload);
        self.indices_count = buffers.indices.len() as u32;
        Ok(
            Some(
                Frame {
                    vertex_buffer: vertex_update,
                    index_buffer: index_update,
                    indices_count: self.indices_count,
                },
            ),
        )
    }
}

} // verus!
