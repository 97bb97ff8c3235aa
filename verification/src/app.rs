use vstd::prelude::*;
use crate::math::{Ratio, Vector2};
use crate::rendering::error::RenderError;
use crate::rendering::index::MAX_VERTICES;
use crate::rendering::queue::vertex_count;
use crate::rendering::shapes::{Shape, Triangle};
use crate::rendering::state::{Frame, RendererState, SurfaceConfiguration};

verus! {

/// The number of pixels along a side among which a random point is chosen at
/// most: the pixels of a side whose coordinates fit.
pub const MAX_SIDE: u32 = 0x8000_0000;

/// A key of the keyboard, as far as the application tells keys apart.
#[derive(Clone, Copy, Debug, PartialEq, Eq, Structural)]
pub enum KeyCode {
    Escape,
    Space,
    Other,
}

/// What the window reports.
#[derive(Clone, Copy, Debug, PartialEq, Eq, Structural)]
pub enum WindowEvent {
    /// The window is asked to close.
    CloseRequested,
    /// The window has a new size in pixels.
    Resized { width: u32, height: u32 },
    /// The window is to be drawn again.
    RedrawRequested,
    /// A key went down or up.
    KeyboardInput { code: KeyCode, pressed: bool },
    /// Anything else.
    Other,
}

/// What is to be done for the window after an event.
#[derive(Clone, Copy, Debug, PartialEq, Eq, Structural)]
pub enum Action {
    /// Nothing.
    Ignore,
    /// Leave the event loop.
    Exit,
    /// Configure the surface with the given size.
    Configure { width: u32, height: u32 },
    /// Ask for the next redraw, and draw nothing now.
    RequestRedraw,
    /// Ask for the next redraw; then hand the device what the frame names,
    /// draw it and present it.
    Draw(Frame),
}

/// A number below `bound` from `fastrand::u32`, asked for the range from zero
/// to `bound`, which must not be empty. Which number comes back is left open.
#[verifier::external_body]
fn random_below(bound: u32) -> (r: u32)
    requires
        bound > 0,
    ensures
        r < bound,
{
    fastrand::u32(0..bound)
}

/// The point of the screen with the given pixel coordinates, where both fit.
pub fn point_at(x: u32, y: u32) -> (p: Option<Vector2<i32>>)
    ensures
        p == if x <= i32::MAX && y <= i32::MAX {
            Some(Vector2 { x: x as i32, y: y as i32 })
        } else {
            None
        },
{
    if x <= i32::MAX as u32 && y <= i32::MAX as u32 {
        Some(Vector2::new(x as i32, y as i32))
    } else {
        None
    }
}

/// Whether a surface of the given size has pixels.
pub open spec fn has_points(width: u32, height: u32) -> bool {
    width > 0 && height > 0
}

/// Whether a point is a pixel of a surface of the given size.
pub open spec fn on_surface(point: Vector2<i32>, width: u32, height: u32) -> bool {
    0 <= point.x < width && 0 <= point.y < height
}

/// The number of pixels along a side of the given length among which a random
/// point is chosen: all of them, up to `MAX_SIDE`.
pub open spec fn spec_sample_bound(side: u32) -> u32 {
    if side > MAX_SIDE {
        MAX_SIDE
    } else {
        side
    }
}

/// The number of pixels along a side of the given length among which a random
/// point is chosen.
pub fn sample_bound(side: u32) -> (bound: u32)
    ensures
        bound == spec_sample_bound(side),
{
    if side > MAX_SIDE {
        MAX_SIDE
    } else {
        side
    }
}

/// A pixel of a surface of the given size, chosen at random; `None` exactly
/// where the surface has no pixels. On a side longer than `MAX_SIDE` the
/// point is chosen among the first `MAX_SIDE` pixels.
pub fn random_point(width: u32, height: u32) -> (p: Option<Vector2<i32>>)
    ensures
        match p {
            Some(point) => {
                &&& has_points(width, height)
                &&& on_surface(point, width, height)
                &&& point.x < spec_sample_bound(width)
                &&& point.y < spec_sample_bound(height)
            },
            None => !has_points(width, height),
        },
{
    if width == 0 || height == 0 {
        return None;
    }
    let x = random_below(sample_bound(width));
    let y = random_below(sample_bound(height));
    point_at(x, y)
}

/// A triangle whose three corners are pixels of a surface of the given size,
/// each chosen at random; `None` exactly where the surface has no pixels.
pub fn random_triangle(width: u32, height: u32) -> (t: Option<Triangle>)
    ensures
        match t {
            Some(triangle) => {
                &&& has_points(width, height)
                &&& forall|i: int|
                    0 <= i < 3 ==> on_surface(#[trigger] triangle.points[i], width, height)
            },
            None => !has_points(width, height),
        },
{
    let a = match random_point(width, height) {
        Some(point) => point,
        None => {
            return None;
        },
    };
    let b = match random_point(width, height) {
        Some(point) => point,
        None => {
            return None;
        },
    };
    let c = match random_point(width, height) {
        Some(point) => point,
        None => {
            return None;
        },
    };
    Some(Triangle { points: [a, b, c] })
}

/// The application: the state of the renderer, once there is one.
#[derive(Debug)]
pub struct App {
    state: Option<RendererState>,
}

impl Default for App {
    /// An application without a renderer.
    fn default() -> (app: App)
        ensures
            app.spec_state() is None,
            app.wf(),
    {
        App { state: None }
    }
}

impl App {
    /// The state of the renderer, if there is one.
    pub closed spec fn spec_state(&self) -> Option<RendererState> {
        self.state
    }

    /// Whether the application is as every application is meant to be.
    pub open spec fn wf(&self) -> bool {
        self.spec_state() matches Some(state) ==> state.wf()
    }

    /// An application without a renderer.
    pub fn new() -> (app: App)
        ensures
            app.spec_state() is None,
            app.wf(),
    {
        App { state: None }
    }

    /// The state of the renderer, if there is one.
    pub fn state(&self) -> (state: Option<&RendererState>)
        ensures
            match state {
                Some(s) => self.spec_state() == Some(*s),
                None => self.spec_state() is None,
            },
    {
        self.state.as_ref()
    }

    /// Gives the application a renderer for a window of the given size. Where
    /// the renderer cannot be had, the application stays as it is and the
    /// failure is reported.
    pub fn resumed(&mut self, width: u32, height: u32) -> (r: Result<(), RenderError>)
        requires
            old(self).wf(),
        ensures
            final(self).wf(),
            match r {
                Ok(_) => {
                    &&& final(self).spec_state() matches Some(state)
                    &&& state.render_queue@ == Seq::<Shape>::empty()
                    &&& state.config == (SurfaceConfiguration { width, height })
                    &&& !state.is_surface_configured
                    &&& state.indices_count == 0
                },
                Err(e) => e == RenderError::BufferGrowthFailure && final(self).spec_state() == old(
                    self,
                ).spec_state(),
            },
    {
        match RendererState::new(width, height) {
            Ok(state) => {
                self.state = Some(state);
                Ok(())
            },
            Err(e) => Err(e),
        }
    }

    /// Gives the application the renderer that an event brought.
    pub fn user_event(&mut self, event: RendererState)
        requires
            event.wf(),
        ensures
            final(self).spec_state() == Some(event),
            final(self).wf(),
    {
        self.state = Some(event);
    }

    /// Takes one event of the window and says what is to be done for it.
    ///
    /// Without a renderer every event is passed over. A request to close,
    /// and the escape key going down, end the event loop. A new size is
    /// handed to the renderer. A request to redraw stages a frame; the next
    /// redraw is asked for whether or not there is a frame to draw. The space
    /// key going down adds a random triangle to the queue, where the surface
    /// has pixels.
    pub fn window_event<F: Fn(Ratio) -> u32>(&mut self, event: WindowEvent, round: &F) -> (action:
        Action)
        requires
            old(self).wf(),
            forall|ratio: Ratio| call_requires(*round, (ratio,)),
        ensures
            final(self).wf(),
            old(self).spec_state() is None ==> action == Action::Ignore && final(self).spec_state()
                is None,
            old(self).spec_state() matches Some(before) ==> {
                &&& final(self).spec_state() matches Some(after)
                &&& match event {
                    WindowEvent::CloseRequested => action == Action::Exit && after.same_state(
                        &before,
                    ),
                    WindowEvent::Resized { width, height } => if width > 0 && height > 0 {
                        &&& action == (Action::Configure { width, height })
                        &&& after.render_queue@ == before.render_queue@
                        &&& after.config == (SurfaceConfiguration { width, height })
                        &&& after.is_surface_configured
                        &&& after.vertex_buffer == before.vertex_buffer
                        &&& after.index_buffer == before.index_buffer
                        &&& after.indices_count == before.indices_count
                    } else {
                        action == Action::Ignore && after.same_state(&before)
                    },
                    WindowEvent::RedrawRequested => match action {
                        Action::Draw(frame) => {
                            &&& before.is_surface_configured
                            &&& vertex_count(before.render_queue@) <= MAX_VERTICES
                            &&& after.holds_frame(&before, *round)
                            &&& frame == RendererState::frame_of(&before)
                        },
                        Action::RequestRedraw => after.same_state(&before),
                        _ => false,
                    },
                    WindowEvent::KeyboardInput { code: KeyCode::Escape, pressed: true } => action
                        == Action::Exit && after.same_state(&before),
                    WindowEvent::KeyboardInput { code: KeyCode::Space, pressed: true } => {
                        &&& action == Action::Ignore
                        &&& after.same_device_state(&before)
                        &&& if has_points(before.config.width, before.config.height) {
                            exists|triangle: Triangle|
                                {
                                    &&& after.render_queue@ == before.render_queue@.push(
                                        Shape::Triangle(triangle),
                                    )
                                    &&& forall|i: int|
                                        0 <= i < 3 ==> on_surface(
                                            #[trigger] triangle.points[i],
                                            before.config.width,
                                            before.config.height,
                                        )
                                }
                        } else {
                            after.render_queue@ == before.render_queue@
                        }
                    },
                    _ => action == Action::Ignore && after.same_state(&before),
                }
            },
            (old(self).spec_state() matches Some(before) && event == WindowEvent::RedrawRequested
                && before.is_surface_configured && vertex_count(before.render_queue@)
                <= MAX_VERTICES && 20 * before.frame_vertices().len()
                <= before.vertex_buffer@.len() && 2 * before.frame_indices().len()
                <= before.index_buffer@.len()) ==> action is Draw,
    {
        let state = match &mut self.state {
            Some(state) => state,
            None => {
                return Action::Ignore;
            },
        };
        match event {
            WindowEvent::CloseRequested => Action::Exit,
            WindowEvent::Resized { width, height } => {
                if state.resize(width, height) {
                    Action::Configure { width, height }
                } else {
                    Action::Ignore
                }
            },
            WindowEvent::RedrawRequested => {
                match state.render(round) {
                    Ok(Some(frame)) => Action::Draw(frame),
                    _ => Action::RequestRedraw,
                }
            },
            WindowEvent::KeyboardInput { code, pressed } => {
                match (code, pressed) {
                    (KeyCode::Escape, true) => Action::Exit,
                    (KeyCode::Space, true) => {
                        let (width, height) = state.window_size();
                        match random_triangle(width, height) {
                            Some(triangle) => {
                                state.queue_add(Shape::Triangle(triangle));
                            },
                            None => {},
                        }
                        Action::Ignore
                    },
                    _ => Action::Ignore,
                }
            },
            WindowEvent::Other => Action::Ignore,
        }
    }
}

} // verus!
