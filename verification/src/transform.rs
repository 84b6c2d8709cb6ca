use vstd::prelude::*;

use crate::clip::{Extent, Offset};

verus! {

/// An exact fraction `num / den`. The shader constants are kept in this form
/// and rounded to the shader's scalar type only when they are written out.
#[derive(Clone, Copy, Debug, PartialEq, Eq, Structural)]
pub struct Ratio {
    pub num: i64,
    pub den: i64,
}

impl Ratio {
    /// A fraction has a positive denominator.
    pub open spec fn wf(self) -> bool {
        self.den > 0
    }
}

/// `x * scale + translate == y`, over exact fractions.
pub open spec fn maps_to(scale: Ratio, translate: Ratio, x: int, y: int) -> bool {
    x * scale.num * translate.den + translate.num * scale.den == y * scale.den * translate.den
}

/// The factor that takes a display extent to the clip-space width 2.
pub open spec fn scale_along(extent: u32) -> Ratio {
    Ratio { num: 2, den: extent as i64 }
}

/// The shift that, after scaling, puts the display origin at clip-space -1:
/// `-1 - origin * 2 / extent`.
pub open spec fn translate_along(origin: i32, extent: u32) -> Ratio {
    Ratio { num: (-(extent as int) - 2 * (origin as int)) as i64, den: extent as i64 }
}

/// Scale and translation that take GUI coordinates to clip space.
#[derive(Clone, Copy, Debug, PartialEq, Eq, Structural)]
pub struct Transform {
    pub scale_x: Ratio,
    pub scale_y: Ratio,
    pub translate_x: Ratio,
    pub translate_y: Ratio,
}

/// The transform of a display with the given origin and size; a display
/// without area has none.
pub open spec fn transform_for(display_pos: Offset, display_size: Extent) -> Option<
    Transform,
> {
    if display_size.width == 0 || display_size.height == 0 {
        None
    } else {
        Some(
            Transform {
                scale_x: scale_along(display_size.width),
                scale_y: scale_along(display_size.height),
                translate_x: translate_along(display_pos.x, display_size.width),
                translate_y: translate_along(display_pos.y, display_size.height),
            },
        )
    }
}

fn translate(origin: i32, extent: u32) -> (r: Ratio)
    requires
        extent > 0,
    ensures
        r == translate_along(origin, extent),
        r.wf(),
{
    let wide_extent: i64 = extent as i64;
    let wide_origin: i64 = origin as i64;
    Ratio { num: -wide_extent - 2 * wide_origin, den: wide_extent }
}

/// Computes the shader constants for a display, see [`transform_for`].
pub fn display_transform(display_pos: Offset, display_size: Extent) -> (t: Option<
    Transform,
>)
    ensures
        t == transform_for(display_pos, display_size),
        t matches Some(t) ==> t.scale_x.wf() && t.scale_y.wf() && t.translate_x.wf()
            && t.translate_y.wf(),
{
    if display_size.width == 0 || display_size.height == 0 {
        return None;
    }
    Some(
        Transform {
            scale_x: Ratio { num: 2, den: display_size.width as i64 },
            scale_y: Ratio { num: 2, den: display_size.height as i64 },
            translate_x: translate(display_pos.x, display_size.width),
            translate_y: translate(display_pos.y, display_size.height),
        },
    )
}

/// Along one axis, the display origin goes to clip-space -1 and the far edge
/// of the display, `origin + extent`, goes to clip-space 1.
pub proof fn lemma_axis_maps_display_to_clip_space(origin: i32, extent: u32)
    requires
        extent > 0,
    ensures
        maps_to(scale_along(extent), translate_along(origin, extent), origin as int, -1),
        maps_to(
            scale_along(extent),
            translate_along(origin, extent),
            origin as int + extent as int,
            1,
        ),
{
    let o = origin as int;
    let e = extent as int;
    let t = -e - 2 * o;
    assert(translate_along(origin, extent).num == t);
    assert(o * 2 * e + t * e == -1 * e * e) by (nonlinear_arith)
        requires
            t == -e - 2 * o,
    ;
    assert((o + e) * 2 * e + t * e == 1 * e * e) by (nonlinear_arith)
        requires
            t == -e - 2 * o,
    ;
}

/// The top-left corner of the display maps to clip-space `(-1, -1)` and its
/// bottom-right corner, `display_pos + display_size`, to `(1, 1)`.
pub proof fn lemma_transform_maps_display_to_clip_space(
    display_pos: Offset,
    display_size: Extent,
)
    requires
        display_size.width > 0,
        display_size.height > 0,
    ensures
        transform_for(display_pos, display_size) matches Some(t) && {
            &&& maps_to(t.scale_x, t.translate_x, display_pos.x as int, -1)
            &&& maps_to(t.scale_y, t.translate_y, display_pos.y as int, -1)
            &&& maps_to(t.scale_x, t.translate_x, display_pos.x + display_size.width, 1)
            &&& maps_to(t.scale_y, t.translate_y, display_pos.y + display_size.height, 1)
        },
{
    lemma_axis_maps_display_to_clip_space(display_pos.x, display_size.width);
    lemma_axis_maps_display_to_clip_space(display_pos.y, display_size.height);
}

} // verus!
