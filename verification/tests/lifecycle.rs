use bevy_iced::cache::{IcedCache, LayoutCache};
use bevy_iced::context::{Cursor, DisplayError, IcedContext, IcedPlugin, TouchPosition};
use bevy_iced::registry::RendererRegistry;
use bevy_iced::viewport::{LogicalPoint, ScaleFactor};

fn unit_scale() -> ScaleFactor {
    ScaleFactor { num: 1, den: 1 }
}

#[test]
fn renderer_identity_is_stable_across_calls() {
    let mut reg = RendererRegistry::new();
    let first = reg.get_or_create(7);
    let second = reg.get_or_create(7);
    assert_eq!(first, second);
    let other = reg.get_or_create(8);
    assert_ne!(first.id, other.id);
}

#[test]
fn remove_then_create_yields_a_new_renderer() {
    let mut reg = RendererRegistry::new();
    let first = reg.get_or_create(7);
    reg.remove(7);
    let second = reg.get_or_create(7);
    assert_ne!(first.id, second.id);
}

#[test]
fn cache_take_defaults_when_absent() {
    let mut cache = IcedCache::new();
    assert_eq!(cache.take(3), LayoutCache::Fresh);
}

#[test]
fn cache_round_trip_is_neutral() {
    let mut cache = IcedCache::new();
    cache.put_back(3, LayoutCache::Stored { token: 17 });
    let taken = cache.take(3);
    cache.put_back(3, taken);
    assert_eq!(cache.take(3), LayoutCache::Stored { token: 17 });
    // An identity the round trip never touched is unaffected too.
    assert_eq!(cache.take(4), LayoutCache::Fresh);
}

#[test]
fn display_into_unknown_window_is_caller_misuse() {
    let mut ctx = IcedContext::new();
    assert_eq!(ctx.display_in_window(9, 1).unwrap_err(), DisplayError::UnknownWindow);
}

#[test]
fn display_without_primary_window_is_a_silent_noop() {
    let mut ctx = IcedPlugin.build();
    assert!(ctx.display(1).is_none());
}

#[test]
fn display_prepares_bounds_renderer_and_cache() {
    let mut ctx = IcedContext::new();
    ctx.handle_window_created(7, 800, 600, unit_scale());
    let cycle = ctx.display_in_window(7, 1).unwrap();
    assert_eq!(cycle.window, 7);
    assert_eq!(cycle.bounds_width, 800);
    assert_eq!(cycle.bounds_height, 600);
    assert_eq!(cycle.cache, LayoutCache::Fresh);
    assert_eq!(cycle.cursor, Cursor::Unavailable);
    // The same window's later cycles reuse the renderer instance.
    let again = ctx.display_in_window(7, 1).unwrap();
    assert_eq!(cycle.renderer, again.renderer);
}

#[test]
fn resize_then_draw_lays_out_against_new_bounds() {
    let mut ctx = IcedContext::new();
    ctx.handle_window_created(7, 800, 600, unit_scale());
    let cycle = ctx.display_in_window(7, 1).unwrap();
    assert_eq!((cycle.bounds_width, cycle.bounds_height), (800, 600));
    // Resizing without a scale change doubles the logical size.
    ctx.handle_window_resized(7, 1600, 1200);
    let cycle = ctx.display_in_window(7, 1).unwrap();
    assert_eq!((cycle.bounds_width, cycle.bounds_height), (1600, 1200));
    // With the scale factor changed as well, the logical size returns.
    ctx.settings.set_scale_factor(Some(ScaleFactor { num: 2, den: 1 }));
    ctx.handle_window_resized(7, 1600, 1200);
    let cycle = ctx.display_in_window(7, 1).unwrap();
    assert_eq!((cycle.bounds_width, cycle.bounds_height), (800, 600));
}

#[test]
fn messages_are_delivered_in_emission_order_and_queue_clears() {
    let mut ctx = IcedContext::new();
    ctx.handle_window_created(7, 800, 600, unit_scale());
    ctx.push_event(bevy_iced::context::InputEvent::PointerPressed { button: 0 });
    ctx.push_event(bevy_iced::context::InputEvent::PointerReleased { button: 0 });
    let cycle = ctx.display_in_window(7, 1).unwrap();
    assert_eq!(cycle.events.len(), 2);
    let delivered = ctx.complete_display(&cycle, LayoutCache::Stored { token: 1 }, vec!["A", "B"]);
    assert_eq!(delivered, vec!["A", "B"]);
    assert_eq!(ctx.events.len(), 0);
    // The next cycle starts with an empty pending queue.
    let next = ctx.display_in_window(7, 1).unwrap();
    assert_eq!(next.events.len(), 0);
}

#[test]
fn second_display_in_one_frame_overwrites() {
    let mut ctx = IcedContext::new();
    ctx.handle_window_created(7, 800, 600, unit_scale());
    let cycle = ctx.display_in_window(7, 1).unwrap();
    let _ = ctx.complete_display(&cycle, LayoutCache::Stored { token: 1 }, Vec::<u32>::new());
    let cycle = ctx.display_in_window(7, 1).unwrap();
    assert_eq!(cycle.cache, LayoutCache::Stored { token: 1 });
    let _ = ctx.complete_display(&cycle, LayoutCache::Stored { token: 2 }, Vec::<u32>::new());
    assert!(ctx.windows.get(7).unwrap().draw_flag);
    let cycle = ctx.display_in_window(7, 1).unwrap();
    assert_eq!(cycle.cache, LayoutCache::Stored { token: 2 });
}

#[test]
fn cursor_falls_back_to_touch_then_unavailable() {
    let mut ctx = IcedContext::new();
    ctx.handle_window_created(7, 800, 600, unit_scale());
    ctx.set_touches(vec![TouchPosition { x: 10, y: 20 }]);
    let cycle = ctx.display_in_window(7, 1).unwrap();
    assert_eq!(cycle.cursor, Cursor::Available(LogicalPoint { x: 10, y: 580 }));
    ctx.set_touches(Vec::new());
    let cycle = ctx.display_in_window(7, 1).unwrap();
    assert_eq!(cycle.cursor, Cursor::Unavailable);
}

#[test]
fn reported_cursor_takes_precedence_over_touch() {
    let mut ctx = IcedContext::new();
    ctx.handle_window_created(7, 800, 600, unit_scale());
    ctx.set_cursor_position(7, Some(bevy_iced::context::CursorPosition { x: 100, y: 50 }));
    ctx.set_touches(vec![TouchPosition { x: 10, y: 20 }]);
    let cycle = ctx.display_in_window(7, 1).unwrap();
    assert_eq!(cycle.cursor, Cursor::Available(LogicalPoint { x: 100, y: 550 }));
}

#[test]
fn primary_window_display_targets_it() {
    let mut ctx = IcedContext::new();
    ctx.handle_window_created(7, 640, 480, unit_scale());
    ctx.set_primary_window(Some(7));
    let cycle = ctx.display(1).unwrap();
    assert_eq!(cycle.window, 7);
    assert_eq!((cycle.bounds_width, cycle.bounds_height), (640, 480));
}

#[test]
fn window_close_forgets_state_and_primary() {
    let mut ctx = IcedContext::new();
    ctx.handle_window_created(7, 800, 600, unit_scale());
    ctx.set_primary_window(Some(7));
    let _ = ctx.display_in_window(7, 1).unwrap();
    ctx.handle_window_closed(7);
    assert!(ctx.display(1).is_none());
    assert_eq!(ctx.display_in_window(7, 1).unwrap_err(), DisplayError::UnknownWindow);
    assert!(ctx.renderers.get(7).is_none());
}
