//! Turning queued shapes into what the graphics device draws.

pub mod buffer;
pub mod encoding;
pub mod error;
pub mod index;
pub mod queue;
pub mod shapes;
pub mod state;
pub mod vertex;

pub use error::RenderError;
pub use error::SurfaceError;
pub use queue::RenderBuffers;
pub use queue::RenderQueue;
pub use buffer::BufferUsage;
pub use buffer::GpuBuffer;
pub use state::BufferUpdate;
pub use state::DrawCall;
pub use state::Frame;
pub use state::RenderPass;
pub use state::RendererState;
pub use state::SurfaceConfiguration;
