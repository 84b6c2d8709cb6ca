use hala_imgui::clip::{scissor, ClipRect, Extent, Offset, PixelScale, Projection, Scissor};

fn window(width: u32, height: u32) -> Projection {
    Projection {
        display_pos: Offset { x: 0, y: 0 },
        framebuffer_scale: PixelScale { x: 1, y: 1 },
        framebuffer_size: Extent { width, height },
    }
}

fn rect(min_x: i32, min_y: i32, max_x: i32, max_y: i32) -> ClipRect {
    ClipRect { min_x, min_y, max_x, max_y }
}

#[test]
fn rectangle_inside_the_framebuffer_is_kept() {
    assert_eq!(
        scissor(rect(10, 20, 110, 220), window(800, 600)),
        Some(Scissor { x: 10, y: 20, width: 100, height: 200 })
    );
}

#[test]
fn whole_framebuffer_is_kept() {
    assert_eq!(
        scissor(rect(0, 0, 800, 600), window(800, 600)),
        Some(Scissor { x: 0, y: 0, width: 800, height: 600 })
    );
}

#[test]
fn rectangle_is_clamped_to_the_framebuffer() {
    assert_eq!(
        scissor(rect(-50, -60, 900, 700), window(800, 600)),
        Some(Scissor { x: 0, y: 0, width: 800, height: 600 })
    );
    assert_eq!(
        scissor(rect(-5, 10, 900, 200), window(800, 600)),
        Some(Scissor { x: 0, y: 10, width: 800, height: 190 })
    );
    assert_eq!(
        scissor(rect(700, 500, 900, 700), window(800, 600)),
        Some(Scissor { x: 700, y: 500, width: 100, height: 100 })
    );
}

#[test]
fn rectangle_without_width_or_height_is_degenerate() {
    assert_eq!(scissor(rect(10, 10, 10, 50), window(800, 600)), None);
    assert_eq!(scissor(rect(10, 10, 50, 10), window(800, 600)), None);
    assert_eq!(scissor(rect(10, 10, 10, 10), window(800, 600)), None);
}

#[test]
fn inverted_rectangle_is_degenerate() {
    assert_eq!(scissor(rect(50, 10, 10, 50), window(800, 600)), None);
    assert_eq!(scissor(rect(10, 50, 50, 10), window(800, 600)), None);
}

#[test]
fn rectangle_outside_the_framebuffer_is_degenerate() {
    assert_eq!(scissor(rect(-100, 10, -1, 50), window(800, 600)), None);
    assert_eq!(scissor(rect(-100, 10, 0, 50), window(800, 600)), None);
    assert_eq!(scissor(rect(10, -100, 50, 0), window(800, 600)), None);
    assert_eq!(scissor(rect(800, 10, 900, 50), window(800, 600)), None);
    assert_eq!(scissor(rect(10, 600, 50, 700), window(800, 600)), None);
}

#[test]
fn one_pixel_at_the_border_is_kept() {
    assert_eq!(
        scissor(rect(799, 599, 900, 900), window(800, 600)),
        Some(Scissor { x: 799, y: 599, width: 1, height: 1 })
    );
    assert_eq!(
        scissor(rect(-10, -10, 1, 1), window(800, 600)),
        Some(Scissor { x: 0, y: 0, width: 1, height: 1 })
    );
}

#[test]
fn framebuffer_without_area_makes_everything_degenerate() {
    assert_eq!(scissor(rect(0, 0, 100, 100), window(0, 600)), None);
    assert_eq!(scissor(rect(0, 0, 100, 100), window(800, 0)), None);
}

#[test]
fn display_origin_is_subtracted() {
    let p = Projection {
        display_pos: Offset { x: 100, y: 50 },
        framebuffer_scale: PixelScale { x: 1, y: 1 },
        framebuffer_size: Extent { width: 800, height: 600 },
    };
    assert_eq!(
        scissor(rect(110, 70, 210, 170), p),
        Some(Scissor { x: 10, y: 20, width: 100, height: 100 })
    );
    assert_eq!(
        scissor(rect(50, 0, 150, 100), p),
        Some(Scissor { x: 0, y: 0, width: 50, height: 50 })
    );
    assert_eq!(scissor(rect(0, 0, 100, 50), p), None);
}

#[test]
fn framebuffer_scale_is_applied() {
    let p = Projection {
        display_pos: Offset { x: 0, y: 0 },
        framebuffer_scale: PixelScale { x: 2, y: 3 },
        framebuffer_size: Extent { width: 800, height: 600 },
    };
    assert_eq!(
        scissor(rect(10, 10, 20, 20), p),
        Some(Scissor { x: 20, y: 30, width: 20, height: 30 })
    );
    assert_eq!(
        scissor(rect(300, 100, 500, 300), p),
        Some(Scissor { x: 600, y: 300, width: 200, height: 300 })
    );
}

#[test]
fn zero_framebuffer_scale_makes_everything_degenerate() {
    let p = Projection {
        display_pos: Offset { x: 0, y: 0 },
        framebuffer_scale: PixelScale { x: 0, y: 1 },
        framebuffer_size: Extent { width: 800, height: 600 },
    };
    assert_eq!(scissor(rect(10, 10, 20, 20), p), None);
}

#[test]
fn extreme_coordinates_do_not_overflow() {
    let p = Projection {
        display_pos: Offset { x: i32::MAX, y: i32::MIN },
        framebuffer_scale: PixelScale { x: u32::MAX, y: u32::MAX },
        framebuffer_size: Extent { width: 800, height: 600 },
    };
    assert_eq!(scissor(rect(i32::MIN, i32::MIN, i32::MAX, i32::MAX), p), None);
    assert_eq!(
        scissor(rect(i32::MIN, i32::MIN, i32::MAX, i32::MAX), window(800, 600)),
        Some(Scissor { x: 0, y: 0, width: 800, height: 600 })
    );
    let q = Projection {
        display_pos: Offset { x: i32::MIN, y: i32::MIN },
        framebuffer_scale: PixelScale { x: u32::MAX, y: u32::MAX },
        framebuffer_size: Extent { width: u32::MAX, height: u32::MAX },
    };
    assert_eq!(
        scissor(rect(i32::MIN, i32::MIN, i32::MAX, i32::MAX), q),
        Some(Scissor { x: 0, y: 0, width: u32::MAX, height: u32::MAX })
    );
}

#[test]
fn offset_beyond_the_largest_scissor_offset_saturates() {
    let p = Projection {
        display_pos: Offset { x: 0, y: 0 },
        framebuffer_scale: PixelScale { x: 2, y: 1 },
        framebuffer_size: Extent { width: u32::MAX, height: 600 },
    };
    assert_eq!(
        scissor(rect(i32::MAX - 1, 0, i32::MAX, 10), p),
        Some(Scissor { x: i32::MAX, y: 0, width: 2, height: 10 })
    );
}
