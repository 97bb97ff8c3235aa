use vstd::prelude::*;

verus! {

/// The position of a vertex within the vertices of one frame.
pub type Index = u16;

/// The number of bytes that one index takes in a buffer.
pub const INDEX_SIZE: usize = 2;

/// The largest number of vertices that indices can tell apart.
pub const MAX_VERTICES: usize = 65536;

} // verus!
