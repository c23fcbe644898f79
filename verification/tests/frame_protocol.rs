use bevy_iced::cache::LayoutCache;
use bevy_iced::context::IcedContext;
use bevy_iced::extract::extract_iced_data;
use bevy_iced::node::{IcedNode, StagingBelt, STAGING_BELT_CHUNK};
use bevy_iced::registry::Backend;
use bevy_iced::viewport::ScaleFactor;

fn unit_scale() -> ScaleFactor {
    ScaleFactor { num: 1, den: 1 }
}

fn drawn_context(window: u64) -> IcedContext {
    let mut ctx = IcedContext::new();
    ctx.handle_window_created(window, 800, 600, unit_scale());
    let cycle = ctx.display_in_window(window, 1).unwrap();
    let _ = ctx.complete_display(&cycle, LayoutCache::Stored { token: 1 }, Vec::<u32>::new());
    ctx
}

#[test]
fn extraction_captures_and_clears_the_draw_flag() {
    let mut ctx = drawn_context(7);
    assert!(ctx.windows.get(7).unwrap().draw_flag);
    let (extracted, _) = extract_iced_data(&mut ctx);
    assert!(extracted.windows.get(7).unwrap().did_draw);
    assert!(!ctx.windows.get(7).unwrap().draw_flag);
}

#[test]
fn a_flag_is_never_captured_true_twice_without_a_new_cycle() {
    let mut ctx = drawn_context(7);
    let (first, _) = extract_iced_data(&mut ctx);
    let (second, _) = extract_iced_data(&mut ctx);
    assert!(first.windows.get(7).unwrap().did_draw);
    assert!(!second.windows.get(7).unwrap().did_draw);
    // A new cycle re-arms the flag for exactly one further capture.
    let cycle = ctx.display_in_window(7, 1).unwrap();
    let _ = ctx.complete_display(&cycle, LayoutCache::Fresh, Vec::<u32>::new());
    let (third, _) = extract_iced_data(&mut ctx);
    assert!(third.windows.get(7).unwrap().did_draw);
}

#[test]
fn extraction_snapshots_viewport_and_renderers() {
    let mut ctx = drawn_context(7);
    let handle = ctx.renderers.get(7).unwrap();
    let (extracted, renderers) = extract_iced_data(&mut ctx);
    let snapshot = extracted.windows.get(7).unwrap();
    assert_eq!(snapshot.viewport.physical_width, 800);
    assert_eq!(snapshot.viewport.physical_height, 600);
    assert_eq!(renderers.get(7).unwrap(), handle);
    assert_eq!(handle.backend, Backend::Wgpu);
}

#[test]
fn undrawn_window_is_skipped_entirely() {
    let mut ctx = IcedContext::new();
    ctx.handle_window_created(7, 800, 600, unit_scale());
    let (extracted, renderers) = extract_iced_data(&mut ctx);
    assert!(!extracted.windows.get(7).unwrap().did_draw);
    let mut node = IcedNode::new();
    let plan = node.run(&extracted, &renderers);
    assert!(plan.is_empty());
}

#[test]
fn drawn_window_is_submitted_with_its_renderer_and_viewport() {
    let mut ctx = drawn_context(7);
    ctx.handle_window_created(8, 320, 200, unit_scale());
    let (extracted, renderers) = extract_iced_data(&mut ctx);
    let mut node = IcedNode::new();
    let plan = node.run(&extracted, &renderers);
    assert_eq!(plan.len(), 1);
    assert_eq!(plan[0].window, 7);
    assert_eq!(plan[0].renderer, renderers.get(7).unwrap());
    assert_eq!(plan[0].viewport.physical_width, 800);
}

#[test]
fn drawn_window_without_renderer_is_skipped_silently() {
    let mut ctx = drawn_context(7);
    let (extracted, mut renderers) = extract_iced_data(&mut ctx);
    assert!(extracted.windows.get(7).unwrap().did_draw);
    // The render-world snapshot no longer resolves a renderer for the
    // window: nothing to draw there, not an error.
    renderers.remove(7);
    let mut node = IcedNode::new();
    let plan = node.run(&extracted, &renderers);
    assert!(plan.is_empty());
}

#[test]
fn staging_belt_is_finalized_once_per_frame_however_many_windows_drew() {
    let mut node = IcedNode::new();
    assert_eq!(node.staging_belt, StagingBelt { chunk_size: STAGING_BELT_CHUNK, recalls: 0, finishes: 0 });

    // A frame with no drawn window still finalizes exactly once.
    let mut empty = IcedContext::new();
    let (extracted, renderers) = extract_iced_data(&mut empty);
    node.update();
    let _ = node.run(&extracted, &renderers);
    assert_eq!(node.staging_belt.recalls, 1);
    assert_eq!(node.staging_belt.finishes, 1);

    // A frame with two drawn windows finalizes exactly once too.
    let mut ctx = drawn_context(7);
    let cycle = ctx.display_in_window(7, 2).unwrap();
    let _ = ctx.complete_display(&cycle, LayoutCache::Fresh, Vec::<u32>::new());
    ctx.handle_window_created(8, 100, 100, unit_scale());
    let cycle = ctx.display_in_window(8, 2).unwrap();
    let _ = ctx.complete_display(&cycle, LayoutCache::Fresh, Vec::<u32>::new());
    let (extracted, renderers) = extract_iced_data(&mut ctx);
    node.update();
    let plan = node.run(&extracted, &renderers);
    assert_eq!(plan.len(), 2);
    assert_eq!(node.staging_belt.recalls, 2);
    assert_eq!(node.staging_belt.finishes, 2);
}

#[test]
fn true_captures_never_exceed_display_calls() {
    // Three cycles and five extractions, interleaved; at most three true
    // captures can come out, one per cycle.
    let mut ctx = IcedContext::new();
    ctx.handle_window_created(7, 800, 600, unit_scale());
    let mut true_captures = 0;
    let mut displays = 0;
    for round in 0..5 {
        if round % 2 == 0 && displays < 3 {
            let cycle = ctx.display_in_window(7, 1).unwrap();
            let _ = ctx.complete_display(&cycle, LayoutCache::Fresh, Vec::<u32>::new());
            displays += 1;
        }
        let (extracted, _) = extract_iced_data(&mut ctx);
        if extracted.windows.get(7).unwrap().did_draw {
            true_captures += 1;
        }
    }
    assert!(true_captures <= displays);
    assert_eq!(true_captures, 3);
}
