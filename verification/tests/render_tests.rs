use fbo_bench::config::camera_zoom_micro;
use fbo_bench::config::half_extent_milli;
use fbo_bench::config::ConfigError;
use fbo_bench::config::RunConfig;
use fbo_bench::config::select_render_path;
use fbo_bench::render::build_frame_plan;
use fbo_bench::render::composite_pixel;
use fbo_bench::render::count_bright_pixels;
use fbo_bench::render::count_opaque_pixels;
use fbo_bench::render::gradient_band;
use fbo_bench::render::CompositeMode;
use fbo_bench::render::PassContent;
use fbo_bench::render::RenderPath;
use fbo_bench::render::TargetId;
use fbo_bench::workload::Rgba;

fn sprite_pass_content(path: RenderPath) -> PassContent {
    let plan = build_frame_plan(path, 500, 16, 1_000_000, 320_000, 180_000);
    let mut found = None;
    for pass in plan {
        if matches!(pass.content, PassContent::Sprites { .. }) {
            assert!(found.is_none(), "more than one sprite pass");
            found = Some(pass.content);
        }
    }
    found.expect("no sprite pass in plan")
}

#[test]
fn every_strategy_draws_the_same_scene() {
    let direct = sprite_pass_content(RenderPath::Direct);
    let single = sprite_pass_content(RenderPath::SingleTarget);
    let blit = sprite_pass_content(RenderPath::DualTargetComposite(CompositeMode::BlitOnly));
    let shader = sprite_pass_content(RenderPath::DualTargetComposite(CompositeMode::WithShader));
    assert_eq!(direct, single);
    assert_eq!(direct, blit);
    assert_eq!(direct, shader);
}

#[test]
fn the_direct_plan_is_one_screen_pass() {
    let plan = build_frame_plan(RenderPath::Direct, 10, 2, 0, 320_000, 180_000);
    assert_eq!(plan.len(), 1);
    assert_eq!(plan[0].target, TargetId::Screen);
    assert!(!plan[0].flip_y);
}

#[test]
fn the_single_target_plan_flips_offscreen_and_blits() {
    let plan = build_frame_plan(RenderPath::SingleTarget, 10, 2, 0, 320_000, 180_000);
    assert_eq!(plan.len(), 2);
    assert_eq!(plan[0].target, TargetId::SceneTarget);
    assert!(plan[0].flip_y);
    assert_eq!(plan[1].target, TargetId::Screen);
    assert!(!plan[1].flip_y);
    assert_eq!(
        plan[1].content,
        PassContent::Blit { source: TargetId::SceneTarget }
    );
}

#[test]
fn the_blit_fallback_layers_background_below_scene() {
    let plan = build_frame_plan(
        RenderPath::DualTargetComposite(CompositeMode::BlitOnly),
        10,
        2,
        0,
        320_000,
        180_000,
    );
    assert_eq!(plan.len(), 4);
    assert_eq!(plan[0].target, TargetId::BackgroundTarget);
    assert_eq!(plan[0].content, PassContent::Gradient);
    assert_eq!(plan[1].target, TargetId::SceneTarget);
    assert_eq!(
        plan[2].content,
        PassContent::Blit { source: TargetId::BackgroundTarget }
    );
    assert_eq!(
        plan[3].content,
        PassContent::Blit { source: TargetId::SceneTarget }
    );
}

#[test]
fn the_shader_plan_binds_both_targets_and_the_placeholders() {
    let plan = build_frame_plan(
        RenderPath::DualTargetComposite(CompositeMode::WithShader),
        10,
        2,
        0,
        320_000,
        180_000,
    );
    assert_eq!(plan.len(), 3);
    assert_eq!(
        plan[2].content,
        PassContent::CompositeQuad {
            background: TargetId::BackgroundTarget,
            scene: TargetId::SceneTarget,
            placeholder_bindings: 6,
        }
    );
}

#[test]
fn an_opaque_scene_pixel_wins_the_blend() {
    let bg = Rgba { r: 10, g: 20, b: 30, a: 200 };
    let scene = Rgba { r: 100, g: 110, b: 120, a: 255 };
    let out = composite_pixel(bg, scene);
    assert_eq!(out, Rgba { r: 100, g: 110, b: 120, a: 255 });
}

#[test]
fn a_transparent_scene_pixel_leaves_the_background() {
    let bg = Rgba { r: 10, g: 20, b: 30, a: 200 };
    let scene = Rgba { r: 100, g: 110, b: 120, a: 0 };
    let out = composite_pixel(bg, scene);
    assert_eq!(out, Rgba { r: 10, g: 20, b: 30, a: 200 });
}

#[test]
fn a_half_transparent_sprite_blends_over_the_gradient() {
    let bg = Rgba { r: 100, g: 0, b: 200, a: 255 };
    let scene = Rgba { r: 200, g: 50, b: 0, a: 128 };
    let out = composite_pixel(bg, scene);
    assert_eq!(out.r, ((100u32 * 127 + 200 * 128) / 255) as u8);
    assert_eq!(out.g, ((0u32 * 127 + 50 * 128) / 255) as u8);
    assert_eq!(out.b, ((200u32 * 127 + 0 * 128) / 255) as u8);
    // The background stays visible as the bottom layer: full alpha.
    assert_eq!(out.a, 255);
}

#[test]
fn gradient_bands_fade_red_out_and_blue_in() {
    let top = gradient_band(0, 180_000);
    assert_eq!(top.y_milli, -180_000);
    assert_eq!(top.height_milli, 18_000);
    assert_eq!(top.r_milli, 300);
    assert_eq!(top.g_milli, 100);
    assert_eq!(top.b_milli, 200);
    assert_eq!(top.a_milli, 1000);
    let bottom = gradient_band(19, 180_000);
    assert_eq!(bottom.y_milli, 180_000);
    assert_eq!(bottom.r_milli, 0);
    assert_eq!(bottom.b_milli, 500);
}

#[test]
fn pixel_counters_apply_the_one_percent_threshold() {
    let black = Rgba { r: 0, g: 0, b: 0, a: 255 };
    let faint = Rgba { r: 2, g: 2, b: 2, a: 2 };
    let dim = Rgba { r: 3, g: 0, b: 0, a: 0 };
    let bright = Rgba { r: 200, g: 10, b: 0, a: 3 };
    let pixels = vec![black, faint, dim, bright, bright];
    assert_eq!(count_bright_pixels(&pixels), 3);
    assert_eq!(count_opaque_pixels(&pixels), 3);
    assert_eq!(count_bright_pixels(&Vec::new()), 0);
    assert_eq!(count_opaque_pixels(&Vec::new()), 0);
}

#[test]
fn flags_select_the_strategy() {
    assert_eq!(select_render_path(false, false), RenderPath::Direct);
    assert_eq!(select_render_path(false, true), RenderPath::Direct);
    assert_eq!(
        select_render_path(true, false),
        RenderPath::DualTargetComposite(CompositeMode::BlitOnly)
    );
    assert_eq!(
        select_render_path(true, true),
        RenderPath::DualTargetComposite(CompositeMode::WithShader)
    );
}

#[test]
fn configuration_rejects_the_invalid_and_keeps_the_valid() {
    assert_eq!(
        RunConfig::new(false, false, 4_000_000, 500, 3_000, 0),
        Err(ConfigError::NoTextures)
    );
    assert_eq!(
        RunConfig::new(false, false, 4_000_000, 500, 0, 16),
        Err(ConfigError::NonPositiveScale)
    );
    let cfg = RunConfig::new(true, true, 2_000_000, 100, 1_500, 8).unwrap();
    assert_eq!(
        cfg.path,
        RenderPath::DualTargetComposite(CompositeMode::WithShader)
    );
    assert_eq!(cfg.duration_us, 2_000_000);
    assert_eq!(cfg.sprites, 100);
    assert_eq!(cfg.scale_milli, 1_500);
    assert_eq!(cfg.textures, 8);
}

#[test]
fn camera_arithmetic_matches_the_direct_formulas() {
    // 1920x1080 at scale 3.0: half extents 320 and 180 world units.
    assert_eq!(half_extent_milli(1920, 3_000), 320_000);
    assert_eq!(half_extent_milli(1080, 3_000), 180_000);
    // zoom = 2 * scale / screen, in millionths: 2 * 3 / 1920.
    assert_eq!(camera_zoom_micro(3_000, 1920), 3_125);
}
