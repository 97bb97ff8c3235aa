use vstd::prelude::*;

verus! {

/// Why the image of the surface could not be had for a frame.
#[derive(Clone, Copy, Debug, PartialEq, Eq, Structural)]
pub enum SurfaceError {
    /// The image did not arrive in time.
    Timeout,
    /// The surface has changed and must be configured again.
    Outdated,
    /// The surface is gone and must be made again.
    Lost,
    /// No memory is left for the image.
    OutOfMemory,
    /// The device reported an error of another kind.
    Other,
}

/// Why a frame was not drawn.
#[derive(Clone, Copy, Debug, PartialEq, Eq, Structural)]
pub enum RenderError {
    /// The queue holds more vertices than indices can tell apart.
    TooManyVertices,
    /// A buffer had to grow and could not.
    BufferGrowthFailure,
    /// The image of the surface could not be had.
    Surface(SurfaceError),
}

} // verus!
