use bevy_iced::settings::IcedSettings;
use bevy_iced::viewport::{
    get_window_viewport, logical_length, process_cursor_position, ScaleFactor, WindowViewport,
};

fn viewport(w: u32, h: u32, num: u32, den: u32) -> WindowViewport {
    WindowViewport { physical_width: w, physical_height: h, scale: ScaleFactor { num, den } }
}

#[test]
fn logical_size_at_unit_scale() {
    let v = viewport(800, 600, 1, 1);
    assert_eq!(v.logical_width(), 800);
    assert_eq!(v.logical_height(), 600);
}

#[test]
fn logical_size_at_double_scale() {
    let v = viewport(1600, 1200, 2, 1);
    assert_eq!(v.logical_width(), 800);
    assert_eq!(v.logical_height(), 600);
}

#[test]
fn logical_length_rounds_toward_zero() {
    assert_eq!(logical_length(101, ScaleFactor { num: 2, den: 1 }), 50);
    assert_eq!(logical_length(99, ScaleFactor { num: 3, den: 1 }), 33);
    assert_eq!(logical_length(10, ScaleFactor { num: 4, den: 3 }), 7);
}

#[test]
fn zero_sized_viewport_is_degenerate_not_an_error() {
    let v = viewport(0, 0, 1, 1);
    assert_eq!(v.logical_width(), 0);
    assert_eq!(v.logical_height(), 0);
}

#[test]
fn resolver_uses_native_scale_without_override() {
    let settings = IcedSettings::default();
    let v = get_window_viewport(800, 600, ScaleFactor { num: 2, den: 1 }, &settings);
    assert_eq!(v.scale, ScaleFactor { num: 2, den: 1 });
    assert_eq!(v.logical_width(), 400);
}

#[test]
fn resolver_prefers_configured_override() {
    let mut settings = IcedSettings::default();
    settings.set_scale_factor(Some(ScaleFactor { num: 4, den: 1 }));
    let v = get_window_viewport(800, 600, ScaleFactor { num: 2, den: 1 }, &settings);
    assert_eq!(v.scale, ScaleFactor { num: 4, den: 1 });
    assert_eq!(v.logical_width(), 200);
    assert_eq!(v.logical_height(), 150);
}

#[test]
fn cursor_conversion_flips_vertically() {
    let v = viewport(800, 600, 1, 1);
    let p = process_cursor_position(100, 50, &v);
    assert_eq!(p.x, 100);
    assert_eq!(p.y, 550);
}

#[test]
fn cursor_conversion_scales_then_flips() {
    let v = viewport(1600, 1200, 2, 1);
    let p = process_cursor_position(100, 50, &v);
    assert_eq!(p.x, 50);
    assert_eq!(p.y, 575);
}

#[test]
fn cursor_conversion_clamps_above_top_edge() {
    let v = viewport(800, 600, 1, 1);
    let p = process_cursor_position(0, 700, &v);
    assert_eq!(p.y, 0);
}
