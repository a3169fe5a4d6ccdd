//! Tests of the surface/device manager model: initialization, format
//! and adapter selection, the resize rule, and the fixed frame plan.

use rustycubes::gfx::{fixed_pipeline, select_adapter, GfxState};
use rustycubes::surface::{background, choose_format, Extent, SurfaceCaps, TextureFormat};

fn fmt(code: u32, srgb: bool) -> TextureFormat {
    TextureFormat { code, srgb }
}

fn caps_with(formats: Vec<TextureFormat>) -> SurfaceCaps {
    SurfaceCaps {
        formats,
        present_modes: vec![7, 8],
        alpha_modes: vec![2, 3],
    }
}

#[test]
fn background_is_the_fixed_dark_blue() {
    let c = background();
    assert_eq!(c.red_milli, 100);
    assert_eq!(c.green_milli, 200);
    assert_eq!(c.blue_milli, 300);
    assert_eq!(c.alpha_milli, 1000);
}

#[test]
fn format_selection_prefers_first_srgb() {
    let formats = vec![fmt(10, false), fmt(11, true), fmt(12, true)];
    let chosen = choose_format(&formats);
    assert_eq!(chosen, fmt(11, true));
}

#[test]
fn format_selection_falls_back_to_first() {
    let formats = vec![fmt(10, false), fmt(11, false)];
    let chosen = choose_format(&formats);
    assert_eq!(chosen, fmt(10, false));
}

#[test]
fn adapter_selection_takes_first_compatible() {
    assert_eq!(select_adapter(&vec![false, false, true, true]), Some(2));
    assert_eq!(select_adapter(&vec![true]), Some(0));
}

#[test]
fn adapter_selection_reports_no_match() {
    assert_eq!(select_adapter(&vec![false, false]), None);
    assert_eq!(select_adapter(&vec![]), None);
}

#[test]
fn startup_configures_at_window_size() {
    let caps = caps_with(vec![fmt(10, false), fmt(11, true)]);
    let g = GfxState::new(Extent { width: 800, height: 800 }, &caps);
    assert_eq!(g.config.width, 800);
    assert_eq!(g.config.height, 800);
    assert_eq!(g.size, Extent { width: 800, height: 800 });
    assert_eq!(g.config.format, fmt(11, true));
    assert_eq!(g.config.present_mode, 7);
    assert_eq!(g.config.alpha_mode, 2);
    assert_eq!(g.pipeline, fixed_pipeline(fmt(11, true)));
}

#[test]
fn pipeline_is_the_fixed_description() {
    let p = fixed_pipeline(fmt(11, true));
    assert!(p.triangle_list);
    assert!(p.front_face_ccw);
    assert!(p.cull_back);
    assert!(p.fill_mode);
    assert!(!p.has_depth_stencil);
    assert_eq!(p.sample_count, 1);
    assert_eq!(p.vertex_buffer_count, 0);
    assert!(p.blend_replace);
    assert_eq!(p.format, fmt(11, true));
}

#[test]
fn positive_resize_updates_configuration() {
    let caps = caps_with(vec![fmt(10, true)]);
    let mut g = GfxState::new(Extent { width: 800, height: 800 }, &caps);
    let reconfigure = g.resize(Extent { width: 640, height: 480 });
    assert!(reconfigure);
    assert_eq!(g.config.width, 640);
    assert_eq!(g.config.height, 480);
    assert_eq!(g.size, Extent { width: 640, height: 480 });
}

#[test]
fn resize_sequence_keeps_last_positive_values() {
    let caps = caps_with(vec![fmt(10, true)]);
    let mut g = GfxState::new(Extent { width: 800, height: 800 }, &caps);
    assert!(g.resize(Extent { width: 300, height: 200 }));
    assert!(!g.resize(Extent { width: 0, height: 600 }));
    assert!(g.resize(Extent { width: 1024, height: 768 }));
    assert!(!g.resize(Extent { width: 500, height: 0 }));
    assert_eq!(g.config.width, 1024);
    assert_eq!(g.config.height, 768);
    assert_eq!(g.size, Extent { width: 1024, height: 768 });
}

#[test]
fn repeated_identical_resize_is_idempotent() {
    let caps = caps_with(vec![fmt(10, true)]);
    let mut once = GfxState::new(Extent { width: 800, height: 800 }, &caps);
    let mut twice = GfxState::new(Extent { width: 800, height: 800 }, &caps);
    once.resize(Extent { width: 640, height: 480 });
    twice.resize(Extent { width: 640, height: 480 });
    twice.resize(Extent { width: 640, height: 480 });
    assert_eq!(once, twice);
}

#[test]
fn zero_area_resize_is_ignored() {
    let caps = caps_with(vec![fmt(10, true)]);
    let mut g = GfxState::new(Extent { width: 800, height: 600 }, &caps);
    let before = g;
    assert!(!g.resize(Extent { width: 0, height: 600 }));
    assert_eq!(g, before);
    assert!(!g.resize(Extent { width: 600, height: 0 }));
    assert_eq!(g, before);
    assert!(!g.resize(Extent { width: 0, height: 0 }));
    assert_eq!(g, before);
}

#[test]
fn frame_plan_draws_one_triangle_with_no_buffers() {
    let caps = caps_with(vec![fmt(10, true)]);
    let g = GfxState::new(Extent { width: 800, height: 800 }, &caps);
    let p = g.frame_plan();
    assert_eq!(p.vertex_count, 3);
    assert_eq!(p.instance_count, 1);
    assert!(!p.vertex_buffer_bound);
    assert!(!p.index_buffer_bound);
}

#[test]
fn frame_plan_clear_color_is_constant_across_frames() {
    let caps = caps_with(vec![fmt(10, true)]);
    let mut g = GfxState::new(Extent { width: 800, height: 800 }, &caps);
    let first = g.frame_plan();
    g.resize(Extent { width: 320, height: 240 });
    g.update();
    let second = g.frame_plan();
    assert_eq!(first.clear, background());
    assert_eq!(second.clear, background());
    assert_eq!(first, second);
}

#[test]
fn update_hook_changes_nothing() {
    let caps = caps_with(vec![fmt(10, true)]);
    let mut g = GfxState::new(Extent { width: 800, height: 800 }, &caps);
    let before = g;
    g.update();
    assert_eq!(g, before);
}

#[test]
fn input_hook_consumes_nothing() {
    let caps = caps_with(vec![fmt(10, true)]);
    let mut g = GfxState::new(Extent { width: 800, height: 800 }, &caps);
    let before = g;
    assert!(!g.input(&rustycubes::events::Event::CloseRequested));
    assert!(!g.input(&rustycubes::events::Event::RedrawRequested));
    assert_eq!(g, before);
}

#[test]
fn extent_positivity() {
    assert!(Extent { width: 1, height: 1 }.positive());
    assert!(!Extent { width: 0, height: 1 }.positive());
    assert!(!Extent { width: 1, height: 0 }.positive());
    assert!(!Extent { width: 0, height: 0 }.positive());
}
