use vstd::prelude::*;

verus! {

/// An axis-aligned rectangle in GUI coordinates, outside of which a batch
/// must not be visible. `min` is its top-left corner, `max` its bottom-right.
#[derive(Clone, Copy, Debug, PartialEq, Eq, Structural)]
pub struct ClipRect {
    pub min_x: i32,
    pub min_y: i32,
    pub max_x: i32,
    pub max_y: i32,
}

/// A position in whole GUI units.
#[derive(Clone, Copy, Debug, PartialEq, Eq, Structural)]
pub struct Offset {
    pub x: i32,
    pub y: i32,
}

/// A size in whole units.
#[derive(Clone, Copy, Debug, PartialEq, Eq, Structural)]
pub struct Extent {
    pub width: u32,
    pub height: u32,
}

/// Framebuffer pixels per GUI unit along each axis.
#[derive(Clone, Copy, Debug, PartialEq, Eq, Structural)]
pub struct PixelScale {
    pub x: u32,
    pub y: u32,
}

/// A scissor rectangle in framebuffer pixels.
#[derive(Clone, Copy, Debug, PartialEq, Eq, Structural)]
pub struct Scissor {
    pub x: i32,
    pub y: i32,
    pub width: u32,
    pub height: u32,
}

/// What a clip rectangle is projected with: the display origin, the number of
/// framebuffer pixels per GUI unit, and the framebuffer size.
#[derive(Clone, Copy, Debug, PartialEq, Eq, Structural)]
pub struct Projection {
    pub display_pos: Offset,
    pub framebuffer_scale: PixelScale,
    pub framebuffer_size: Extent,
}

/// A GUI coordinate in framebuffer space.
pub open spec fn project(coord: i32, origin: i32, scale: u32) -> int {
    (coord - origin) * scale
}

/// The lower edge of a projected span, kept inside the framebuffer.
pub open spec fn clamped_min(coord: i32, origin: i32, scale: u32) -> int {
    let projected = project(coord, origin, scale);
    if projected < 0 {
        0
    } else {
        projected
    }
}

/// The upper edge of a projected span, kept inside the framebuffer.
pub open spec fn clamped_max(coord: i32, origin: i32, scale: u32, limit: u32) -> int {
    let projected = project(coord, origin, scale);
    if projected > limit {
        limit as int
    } else {
        projected
    }
}

/// A clip rectangle is degenerate when, projected and clamped, it has no
/// area: its upper edge does not lie beyond its lower edge on some axis.
pub open spec fn is_degenerate(clip: ClipRect, p: Projection) -> bool {
    ||| clamped_max(clip.max_x, p.display_pos.x, p.framebuffer_scale.x, p.framebuffer_size.width)
        <= clamped_min(clip.min_x, p.display_pos.x, p.framebuffer_scale.x)
    ||| clamped_max(clip.max_y, p.display_pos.y, p.framebuffer_scale.y, p.framebuffer_size.height)
        <= clamped_min(clip.min_y, p.display_pos.y, p.framebuffer_scale.y)
}

/// The largest offset a scissor can carry stands for every offset beyond it.
pub open spec fn offset_of(edge: int) -> i32 {
    if edge > i32::MAX {
        i32::MAX
    } else {
        edge as i32
    }
}

/// The scissor of a clip rectangle: none when it is degenerate, else the
/// projected and clamped rectangle.
pub open spec fn scissor_for(clip: ClipRect, p: Projection) -> Option<Scissor> {
    if is_degenerate(clip, p) {
        None
    } else {
        let min_x = clamped_min(clip.min_x, p.display_pos.x, p.framebuffer_scale.x);
        let min_y = clamped_min(clip.min_y, p.display_pos.y, p.framebuffer_scale.y);
        let max_x = clamped_max(
            clip.max_x,
            p.display_pos.x,
            p.framebuffer_scale.x,
            p.framebuffer_size.width,
        );
        let max_y = clamped_max(
            clip.max_y,
            p.display_pos.y,
            p.framebuffer_scale.y,
            p.framebuffer_size.height,
        );
        Some(
            Scissor {
                x: offset_of(min_x),
                y: offset_of(min_y),
                width: (max_x - min_x) as u32,
                height: (max_y - min_y) as u32,
            },
        )
    }
}

/// The scissor that covers the whole framebuffer.
pub open spec fn full_scissor(framebuffer_size: Extent) -> Scissor {
    Scissor { x: 0, y: 0, width: framebuffer_size.width, height: framebuffer_size.height }
}

fn project_exec(coord: i32, origin: i32, scale: u32) -> (r: i128)
    ensures
        r == project(coord, origin, scale),
        -0x1_0000_0000_0000_0000 < r < 0x1_0000_0000_0000_0000,
{
    let span: i128 = coord as i128 - origin as i128;
    let factor: i128 = scale as i128;
    assert(-0x1_0000_0000_0000_0000 < span * factor < 0x1_0000_0000_0000_0000)
        by (nonlinear_arith)
        requires
            -0x1_0000_0000 < span < 0x1_0000_0000,
            0 <= factor < 0x1_0000_0000,
    ;
    span * factor
}

fn min_edge(coord: i32, origin: i32, scale: u32) -> (r: i128)
    ensures
        r == clamped_min(coord, origin, scale),
        0 <= r < 0x1_0000_0000_0000_0000,
{
    let projected = project_exec(coord, origin, scale);
    if projected < 0 {
        0
    } else {
        projected
    }
}

fn max_edge(coord: i32, origin: i32, scale: u32, limit: u32) -> (r: i128)
    ensures
        r == clamped_max(coord, origin, scale, limit),
        -0x1_0000_0000_0000_0000 < r <= limit,
{
    let projected = project_exec(coord, origin, scale);
    if projected > limit as i128 {
        limit as i128
    } else {
        projected
    }
}

fn offset(edge: i128) -> (r: i32)
    requires
        0 <= edge,
    ensures
        r == offset_of(edge as int),
{
    if edge > i32::MAX as i128 {
        i32::MAX
    } else {
        edge as i32
    }
}

/// Projects a clip rectangle into the framebuffer, clamps it to the
/// framebuffer and gives its scissor, or none if nothing of it is left.
pub fn scissor(clip: ClipRect, p: Projection) -> (s: Option<Scissor>)
    ensures
        s == scissor_for(clip, p),
        s is None <==> is_degenerate(clip, p),
{
    let min_x = min_edge(clip.min_x, p.display_pos.x, p.framebuffer_scale.x);
    let min_y = min_edge(clip.min_y, p.display_pos.y, p.framebuffer_scale.y);
    let max_x = max_edge(
        clip.max_x,
        p.display_pos.x,
        p.framebuffer_scale.x,
        p.framebuffer_size.width,
    );
    let max_y = max_edge(
        clip.max_y,
        p.display_pos.y,
        p.framebuffer_scale.y,
        p.framebuffer_size.height,
    );
    if max_x <= min_x || max_y <= min_y {
        return None;
    }
    Some(
        Scissor {
            x: offset(min_x),
            y: offset(min_y),
            width: (max_x - min_x) as u32,
            height: (max_y - min_y) as u32,
        },
    )
}

/// A scissor that is issued has area and lies inside the framebuffer.
pub proof fn lemma_scissor_inside_framebuffer(clip: ClipRect, p: Projection)
    ensures
        scissor_for(clip, p) matches Some(s) ==> {
            &&& s.width > 0
            &&& s.height > 0
            &&& 0 <= s.x
            &&& 0 <= s.y
            &&& s.x + s.width <= p.framebuffer_size.width
            &&& s.y + s.height <= p.framebuffer_size.height
        },
{
}

} // verus!
