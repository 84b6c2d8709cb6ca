use hala_imgui::clip::{Extent, Offset};
use hala_imgui::transform::{display_transform, Ratio, Transform};

fn value(r: Ratio) -> f32 {
    r.num as f32 / r.den as f32
}

/// `x * scale + translate`, as an exact fraction `(numerator, denominator)`.
fn mapped(x: i64, scale: Ratio, translate: Ratio) -> (i128, i128) {
    let numerator = x as i128 * scale.num as i128 * translate.den as i128
        + translate.num as i128 * scale.den as i128;
    (numerator, scale.den as i128 * translate.den as i128)
}

fn transform(pos: (i32, i32), size: (u32, u32)) -> Transform {
    display_transform(Offset { x: pos.0, y: pos.1 }, Extent { width: size.0, height: size.1 })
        .expect("a display with area has a transform")
}

#[test]
fn scale_and_translate_of_an_800_by_600_display() {
    let t = transform((0, 0), (800, 600));
    assert_eq!(t.scale_x, Ratio { num: 2, den: 800 });
    assert_eq!(t.scale_y, Ratio { num: 2, den: 600 });
    assert_eq!(t.translate_x, Ratio { num: -800, den: 800 });
    assert_eq!(t.translate_y, Ratio { num: -600, den: 600 });
    assert_eq!(value(t.scale_x), 0.0025);
    assert_eq!(value(t.scale_y), 2.0 / 600.0);
    assert!((value(t.scale_y) - 0.003333333).abs() < 1e-8);
    assert_eq!(value(t.translate_x), -1.0);
    assert_eq!(value(t.translate_y), -1.0);
}

#[test]
fn display_corners_map_to_clip_space_corners() {
    let t = transform((0, 0), (800, 600));
    let (n, d) = mapped(0, t.scale_x, t.translate_x);
    assert_eq!(n, -d);
    let (n, d) = mapped(0, t.scale_y, t.translate_y);
    assert_eq!(n, -d);
    let (n, d) = mapped(800, t.scale_x, t.translate_x);
    assert_eq!(n, d);
    let (n, d) = mapped(600, t.scale_y, t.translate_y);
    assert_eq!(n, d);
}

#[test]
fn display_centre_maps_to_clip_space_origin() {
    let t = transform((0, 0), (800, 600));
    assert_eq!(mapped(400, t.scale_x, t.translate_x).0, 0);
    assert_eq!(mapped(300, t.scale_y, t.translate_y).0, 0);
}

#[test]
fn offset_display_corners_map_to_clip_space_corners() {
    let t = transform((100, -50), (1920, 1080));
    assert_eq!(t.translate_x, Ratio { num: -1920 - 200, den: 1920 });
    assert_eq!(t.translate_y, Ratio { num: -1080 + 100, den: 1080 });
    let (n, d) = mapped(100, t.scale_x, t.translate_x);
    assert_eq!(n, -d);
    let (n, d) = mapped(-50, t.scale_y, t.translate_y);
    assert_eq!(n, -d);
    let (n, d) = mapped(100 + 1920, t.scale_x, t.translate_x);
    assert_eq!(n, d);
    let (n, d) = mapped(-50 + 1080, t.scale_y, t.translate_y);
    assert_eq!(n, d);
}

#[test]
fn extreme_displays_do_not_overflow() {
    let t = transform((i32::MIN, i32::MAX), (u32::MAX, 1));
    assert_eq!(t.scale_x, Ratio { num: 2, den: u32::MAX as i64 });
    assert_eq!(
        t.translate_x,
        Ratio { num: -(u32::MAX as i64) - 2 * i32::MIN as i64, den: u32::MAX as i64 }
    );
    assert_eq!(t.translate_y, Ratio { num: -1 - 2 * i32::MAX as i64, den: 1 });
    let (n, d) = mapped(i32::MIN as i64, t.scale_x, t.translate_x);
    assert_eq!(n, -d);
    let (n, d) = mapped(i32::MAX as i64 + 1, t.scale_y, t.translate_y);
    assert_eq!(n, d);
}

#[test]
fn display_without_area_has_no_transform() {
    assert_eq!(display_transform(Offset { x: 0, y: 0 }, Extent { width: 0, height: 600 }), None);
    assert_eq!(display_transform(Offset { x: 0, y: 0 }, Extent { width: 800, height: 0 }), None);
    assert_eq!(display_transform(Offset { x: 5, y: 5 }, Extent { width: 0, height: 0 }), None);
}
