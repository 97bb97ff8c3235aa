use vstd::prelude::*;
use crate::math::{Ratio, Vector2};
use crate::rendering::vertex::Vertex;

verus! {

/// The device coordinate of the pixel coordinate `p` on an axis of `extent`
/// pixels: `p / extent * 2 - 1`, as one exact quotient.
pub open spec fn to_ndc(p: int, extent: int) -> Ratio {
    Ratio { num: (2 * p - extent) as i64, den: extent as u32 }
}

/// The vertex of a point given in pixels, with the origin at the top left of
/// a screen of the given size.
pub open spec fn vertex_of(
    point: Vector2<i32>,
    screen_width: u32,
    screen_height: u32,
    color: [Ratio; 3],
) -> Vertex {
    Vertex {
        position: [
            to_ndc(point.x as int, screen_width as int),
            to_ndc(point.y as int, screen_height as int),
        ],
        color,
    }
}

/// Maps a point of the screen, given in pixels, to a vertex of the given colour.
pub fn point_to_vertex(
    point: Vector2<i32>,
    screen_width: u32,
    screen_height: u32,
    color: [Ratio; 3],
) -> (v: Vertex)
    ensures
        v == vertex_of(point, screen_width, screen_height, color),
{
    let x: i64 = 2 * (point.x as i64) - (screen_width as i64);
    let y: i64 = 2 * (point.y as i64) - (screen_height as i64);
    Vertex {
        position: [Ratio { num: x, den: screen_width }, Ratio { num: y, den: screen_height }],
        color,
    }
}

/// The origin of the screen maps to -1.
pub proof fn ndc_of_origin(extent: int)
    requires
        0 < extent <= u32::MAX,
    ensures
        to_ndc(0, extent).is_integer(-1),
{
}

/// The far edge of the screen maps to 1.
pub proof fn ndc_of_extent(extent: int)
    requires
        0 < extent <= u32::MAX,
    ensures
        to_ndc(extent, extent).is_integer(1),
{
}

/// The middle of the screen maps to 0.
pub proof fn ndc_of_center(p: int, extent: int)
    requires
        0 < extent <= u32::MAX,
        2 * p == extent,
    ensures
        to_ndc(p, extent).is_integer(0),
{
}

/// A pixel coordinate lies on the screen exactly when its device coordinate
/// lies between -1 and 1.
pub proof fn ndc_on_screen(p: int, extent: int)
    requires
        0 < extent <= u32::MAX,
        i32::MIN <= p <= i32::MAX,
    ensures
        to_ndc(p, extent).is_within(-1, 1) <==> 0 <= p <= extent,
{
}

} // verus!
