//! Render-path strategies. A strategy never issues draw calls itself: it
//! builds a frame plan, an ordered list of passes that the graphics layer
//! executes one by one. Planning here and drawing outside keeps the three
//! strategies exhaustive, comparable, and provably drawing the same scene.

use vstd::prelude::*;
use crate::workload::HALF_EXTENT_MAX;
use crate::workload::SpriteInstance;
use crate::workload::sprite_seq_spec;

verus! {

/// How the dual-target path combines its two buffers on the screen.
#[derive(Clone, Copy, Debug, PartialEq, Eq, Structural)]
pub enum CompositeMode {
    /// A full-screen quad through the compositing shader.
    WithShader,
    /// Both buffers stretch-blitted in order, background first.
    BlitOnly,
}

/// The three rendering strategies, selected once at configuration time
/// and invariant for the whole run.
#[derive(Clone, Copy, Debug, PartialEq, Eq, Structural)]
pub enum RenderPath {
    /// Every sprite straight to the visible surface.
    Direct,
    /// Sprites into one offscreen buffer, then blitted to the screen.
    SingleTarget,
    /// A background buffer and a scene buffer, combined on the screen.
    DualTargetComposite(CompositeMode),
}

/// A surface a pass draws into or reads from.
#[derive(Clone, Copy, Debug, PartialEq, Eq, Structural)]
pub enum TargetId {
    Screen,
    BackgroundTarget,
    SceneTarget,
}

/// Bands of the fixed vertical background gradient.
pub const GRADIENT_BANDS: usize = 20;

/// Extra texture slots the compositing shader binds besides the
/// background and scene buffers. They carry no content of their own; they
/// only reproduce the binding cost of a larger production shader.
pub const PLACEHOLDER_BINDINGS: usize = 6;

/// What one pass draws.
#[derive(Clone, Copy, Debug, PartialEq, Eq, Structural)]
pub enum PassContent {
    /// The fixed vertical gradient, `GRADIENT_BANDS` bands.
    Gradient,
    /// The frame's sprite cloud; the fields are exactly the arguments of
    /// `sprite_seq_spec`, so the pass denotes that sprite sequence.
    Sprites {
        count: usize,
        elapsed_us: u64,
        texture_count: usize,
        half_w_milli: i64,
        half_h_milli: i64,
    },
    /// The named target stretch-blitted over the whole current target.
    Blit { source: TargetId },
    /// One full-screen quad through the compositing shader, reading the
    /// two named targets plus the placeholder bindings.
    CompositeQuad { background: TargetId, scene: TargetId, placeholder_bindings: usize },
}

/// One pass of a frame plan. `flip_y` records that the vertical zoom sign
/// is flipped, which offscreen passes need to compensate for the render
/// target's coordinate orientation.
#[derive(Clone, Copy, Debug, PartialEq, Eq, Structural)]
pub struct RenderPass {
    pub target: TargetId,
    pub flip_y: bool,
    pub content: PassContent,
}

/// The sprite-pass content every strategy shares for a given frame.
pub open spec fn sprites_content_spec(
    sprite_count: int,
    texture_count: int,
    elapsed_us: int,
    half_w_milli: int,
    half_h_milli: int,
) -> PassContent {
    (PassContent::Sprites {
        count: sprite_count as usize,
        elapsed_us: elapsed_us as u64,
        texture_count: texture_count as usize,
        half_w_milli: half_w_milli as i64,
        half_h_milli: half_h_milli as i64,
    })
}

/// The sprite sequence a sprite pass denotes.
pub open spec fn content_sprites(c: PassContent) -> Seq<SpriteInstance>
    recommends
        c is Sprites,
{
    sprite_seq_spec(
        c->Sprites_count as int,
        c->Sprites_elapsed_us as int,
        c->Sprites_texture_count as int,
        c->Sprites_half_w_milli as int,
        c->Sprites_half_h_milli as int,
    )
}

/// The ordered passes one frame takes under the given strategy.
pub open spec fn frame_plan_spec(
    path: RenderPath,
    sprite_count: int,
    texture_count: int,
    elapsed_us: int,
    half_w_milli: int,
    half_h_milli: int,
) -> Seq<RenderPass> {
    let sprites = sprites_content_spec(
        sprite_count,
        texture_count,
        elapsed_us,
        half_w_milli,
        half_h_milli,
    );
    match path {
        RenderPath::Direct => seq![
            (RenderPass { target: TargetId::Screen, flip_y: false, content: sprites }),
        ],
        RenderPath::SingleTarget => seq![
            (RenderPass { target: TargetId::SceneTarget, flip_y: true, content: sprites }),
            (RenderPass {
                target: TargetId::Screen,
                flip_y: false,
                content: PassContent::Blit { source: TargetId::SceneTarget },
            }),
        ],
        RenderPath::DualTargetComposite(mode) => seq![
            (RenderPass {
                target: TargetId::BackgroundTarget,
                flip_y: true,
                content: PassContent::Gradient,
            }),
            (RenderPass { target: TargetId::SceneTarget, flip_y: true, content: sprites }),
        ] + match mode {
            CompositeMode::BlitOnly => seq![
                (RenderPass {
                    target: TargetId::Screen,
                    flip_y: false,
                    content: PassContent::Blit { source: TargetId::BackgroundTarget },
                }),
                (RenderPass {
                    target: TargetId::Screen,
                    flip_y: false,
                    content: PassContent::Blit { source: TargetId::SceneTarget },
                }),
            ],
            CompositeMode::WithShader => seq![
                (RenderPass {
                    target: TargetId::Screen,
                    flip_y: false,
                    content: PassContent::CompositeQuad {
                        background: TargetId::BackgroundTarget,
                        scene: TargetId::SceneTarget,
                        placeholder_bindings: PLACEHOLDER_BINDINGS,
                    },
                }),
            ],
        },
    }
}

/// Position of the one sprite pass inside a strategy's frame plan.
pub open spec fn sprite_pass_index_spec(path: RenderPath) -> int {
    match path {
        RenderPath::Direct => 0,
        RenderPath::SingleTarget => 0,
        RenderPath::DualTargetComposite(_) => 1,
    }
}

/// Builds the frame plan for one iteration.
pub fn build_frame_plan(
    path: RenderPath,
    sprite_count: usize,
    texture_count: usize,
    elapsed_us: u64,
    half_w_milli: i64,
    half_h_milli: i64,
) -> (r: Vec<RenderPass>)
    ensures
        r@ == frame_plan_spec(
            path,
            sprite_count as int,
            texture_count as int,
            elapsed_us as int,
            half_w_milli as int,
            half_h_milli as int,
        ),
{
    let sprites = PassContent::Sprites {
        count: sprite_count,
        elapsed_us,
        texture_count,
        half_w_milli,
        half_h_milli,
    };
    let mut plan: Vec<RenderPass> = Vec::new();
    match path {
        RenderPath::Direct => {
            plan.push(RenderPass { target: TargetId::Screen, flip_y: false, content: sprites });
        },
        RenderPath::SingleTarget => {
            plan.push(
                RenderPass { target: TargetId::SceneTarget, flip_y: true, content: sprites },
            );
            plan.push(
                RenderPass {
                    target: TargetId::Screen,
                    flip_y: false,
                    content: PassContent::Blit { source: TargetId::SceneTarget },
                },
            );
        },
        RenderPath::DualTargetComposite(mode) => {
            plan.push(
                RenderPass {
                    target: TargetId::BackgroundTarget,
                    flip_y: true,
                    content: PassContent::Gradient,
                },
            );
            plan.push(
                RenderPass { target: TargetId::SceneTarget, flip_y: true, content: sprites },
            );
            match mode {
                CompositeMode::BlitOnly => {
                    plan.push(
                        RenderPass {
                            target: TargetId::Screen,
                            flip_y: false,
                            content: PassContent::Blit { source: TargetId::BackgroundTarget },
                        },
                    );
                    plan.push(
                        RenderPass {
                            target: TargetId::Screen,
                            flip_y: false,
                            content: PassContent::Blit { source: TargetId::SceneTarget },
                        },
                    );
                },
                CompositeMode::WithShader => {
                    plan.push(
                        RenderPass {
                            target: TargetId::Screen,
                            flip_y: false,
                            content: PassContent::CompositeQuad {
                                background: TargetId::BackgroundTarget,
                                scene: TargetId::SceneTarget,
                                placeholder_bindings: PLACEHOLDER_BINDINGS,
                            },
                        },
                    );
                },
            }
        },
    }
    proof {
        assert(plan@ =~= frame_plan_spec(
            path,
            sprite_count as int,
            texture_count as int,
            elapsed_us as int,
            half_w_milli as int,
            half_h_milli as int,
        ));
    }
    plan
}

/// Scene content is independent of the render path: for a fixed frame,
/// every strategy's plan holds exactly one sprite pass, and that pass
/// denotes exactly the workload's sprite sequence — so positions, sizes
/// and opacities agree across strategies, whichever two are compared.
pub proof fn lemma_scene_content_path_independent(
    path_a: RenderPath,
    path_b: RenderPath,
    sprite_count: int,
    texture_count: int,
    elapsed_us: int,
    half_w_milli: int,
    half_h_milli: int,
)
    requires
        0 <= sprite_count <= usize::MAX,
        1 <= texture_count <= usize::MAX,
        0 <= elapsed_us <= u64::MAX,
        0 <= half_w_milli <= HALF_EXTENT_MAX,
        0 <= half_h_milli <= HALF_EXTENT_MAX,
    ensures
        ({
            let plan_a = frame_plan_spec(
                path_a,
                sprite_count,
                texture_count,
                elapsed_us,
                half_w_milli,
                half_h_milli,
            );
            let plan_b = frame_plan_spec(
                path_b,
                sprite_count,
                texture_count,
                elapsed_us,
                half_w_milli,
                half_h_milli,
            );
            let ka = sprite_pass_index_spec(path_a);
            let kb = sprite_pass_index_spec(path_b);
            &&& 0 <= ka < plan_a.len()
            &&& plan_a[ka].content is Sprites
            &&& forall|j: int|
                0 <= j < plan_a.len() && j != ka ==> !((#[trigger] plan_a[j]).content is Sprites)
            &&& plan_a[ka].content == plan_b[kb].content
            &&& content_sprites(plan_a[ka].content) == sprite_seq_spec(
                sprite_count,
                elapsed_us,
                texture_count,
                half_w_milli,
                half_h_milli,
            )
        }),
{
}

/// Both dual-target composition modes layer the scene over the background:
/// the gradient is drawn to the background buffer and the sprites to the
/// scene buffer first, and then either the background is blitted to the
/// screen strictly before the scene, or one shader pass reads both with
/// the background as the bottom input of the blend.
pub proof fn lemma_dual_target_layers_background_below_scene(
    mode: CompositeMode,
    sprite_count: int,
    texture_count: int,
    elapsed_us: int,
    half_w_milli: int,
    half_h_milli: int,
)
    ensures
        ({
            let plan = frame_plan_spec(
                RenderPath::DualTargetComposite(mode),
                sprite_count,
                texture_count,
                elapsed_us,
                half_w_milli,
                half_h_milli,
            );
            &&& plan[0].target == TargetId::BackgroundTarget
            &&& plan[0].content == PassContent::Gradient
            &&& plan[1].target == TargetId::SceneTarget
            &&& plan[1].content is Sprites
            &&& mode == CompositeMode::BlitOnly ==> {
                &&& plan.len() == 4
                &&& plan[2] == (RenderPass {
                    target: TargetId::Screen,
                    flip_y: false,
                    content: PassContent::Blit { source: TargetId::BackgroundTarget },
                })
                &&& plan[3] == (RenderPass {
                    target: TargetId::Screen,
                    flip_y: false,
                    content: PassContent::Blit { source: TargetId::SceneTarget },
                })
            }
            &&& mode == CompositeMode::WithShader ==> {
                &&& plan.len() == 3
                &&& plan[2] == (RenderPass {
                    target: TargetId::Screen,
                    flip_y: false,
                    content: PassContent::CompositeQuad {
                        background: TargetId::BackgroundTarget,
                        scene: TargetId::SceneTarget,
                        placeholder_bindings: PLACEHOLDER_BINDINGS,
                    },
                })
            }
        }),
{
}

/// One blended channel: the linear interpolation of the background and
/// scene channels, weighted by the scene alpha, all in 0..=255.
pub open spec fn composite_channel_spec(bg: int, scene: int, alpha: int) -> int {
    (bg * (255 - alpha) + scene * alpha) / 255
}

/// The compositing shader's blending rule for one pixel: RGB is the
/// scene-alpha-weighted interpolation of background and scene, and the
/// output alpha is the larger of the two.
pub open spec fn composite_pixel_spec(bg: crate::workload::Rgba, scene: crate::workload::Rgba)
    -> crate::workload::Rgba {
    (crate::workload::Rgba {
        r: composite_channel_spec(bg.r as int, scene.r as int, scene.a as int) as u8,
        g: composite_channel_spec(bg.g as int, scene.g as int, scene.a as int) as u8,
        b: composite_channel_spec(bg.b as int, scene.b as int, scene.a as int) as u8,
        a: if bg.a >= scene.a {
            bg.a
        } else {
            scene.a
        },
    })
}

proof fn lemma_composite_channel_range(bg: int, scene: int, alpha: int)
    requires
        0 <= bg <= 255,
        0 <= scene <= 255,
        0 <= alpha <= 255,
    ensures
        0 <= composite_channel_spec(bg, scene, alpha) <= 255,
        composite_channel_spec(bg, scene, alpha) <= if bg >= scene {
            bg
        } else {
            scene
        },
        composite_channel_spec(bg, scene, alpha) >= if bg <= scene {
            bg
        } else {
            scene
        },
{
    let lo = if bg <= scene {
        bg
    } else {
        scene
    };
    let hi = if bg >= scene {
        bg
    } else {
        scene
    };
    assert(lo * 255 <= bg * (255 - alpha) + scene * alpha <= hi * 255) by (nonlinear_arith)
        requires
            0 <= alpha <= 255,
            lo <= bg <= hi,
            lo <= scene <= hi,
    ;
    assert(lo * 255 / 255 == lo && hi * 255 / 255 == hi) by (nonlinear_arith);
    vstd::arithmetic::div_mod::lemma_div_is_ordered(
        lo * 255,
        bg * (255 - alpha) + scene * alpha,
        255,
    );
    vstd::arithmetic::div_mod::lemma_div_is_ordered(
        bg * (255 - alpha) + scene * alpha,
        hi * 255,
        255,
    );
}

/// Applies the compositing shader's blending rule to one pixel.
pub fn composite_pixel(bg: crate::workload::Rgba, scene: crate::workload::Rgba) -> (r:
    crate::workload::Rgba)
    ensures
        r == composite_pixel_spec(bg, scene),
{
    proof {
        lemma_composite_channel_range(bg.r as int, scene.r as int, scene.a as int);
        lemma_composite_channel_range(bg.g as int, scene.g as int, scene.a as int);
        lemma_composite_channel_range(bg.b as int, scene.b as int, scene.a as int);
    }
    let alpha: u32 = scene.a as u32;
    let red: u32 = ((bg.r as u32) * (255 - alpha) + (scene.r as u32) * alpha) / 255;
    let green: u32 = ((bg.g as u32) * (255 - alpha) + (scene.g as u32) * alpha) / 255;
    let blue: u32 = ((bg.b as u32) * (255 - alpha) + (scene.b as u32) * alpha) / 255;
    let a_out: u8 = if bg.a >= scene.a {
        bg.a
    } else {
        scene.a
    };
    crate::workload::Rgba { r: red as u8, g: green as u8, b: blue as u8, a: a_out }
}

/// The blend keeps both layers honest: a fully opaque scene pixel wins
/// outright, a fully transparent one leaves the background untouched,
/// every output channel stays between the two inputs, and the output
/// alpha never falls below either layer's alpha — so the background
/// gradient stays visible as the bottom layer and any sprite pixel with
/// positive alpha pulls the output towards the scene.
pub proof fn lemma_composite_blend_endpoints(bg: crate::workload::Rgba, scene: crate::workload::Rgba)
    ensures
        scene.a == 255 ==> composite_pixel_spec(bg, scene) == (crate::workload::Rgba {
            r: scene.r,
            g: scene.g,
            b: scene.b,
            a: 255,
        }),
        scene.a == 0 ==> composite_pixel_spec(bg, scene) == (crate::workload::Rgba {
            r: bg.r,
            g: bg.g,
            b: bg.b,
            a: bg.a,
        }),
        composite_pixel_spec(bg, scene).a >= bg.a,
        composite_pixel_spec(bg, scene).a >= scene.a,
{
    lemma_composite_channel_range(bg.r as int, scene.r as int, scene.a as int);
    lemma_composite_channel_range(bg.g as int, scene.g as int, scene.a as int);
    lemma_composite_channel_range(bg.b as int, scene.b as int, scene.a as int);
    if scene.a == 255 {
        assert forall|bgc: int, sc: int| 0 <= bgc <= 255 && 0 <= sc <= 255 implies #[trigger]
        composite_channel_spec(bgc, sc, 255) == sc by {
            assert(bgc * (255 - 255) == 0) by (nonlinear_arith);
            assert(sc * 255 / 255 == sc) by (nonlinear_arith);
        }
    }
    if scene.a == 0 {
        assert forall|bgc: int, sc: int| 0 <= bgc <= 255 && 0 <= sc <= 255 implies #[trigger]
        composite_channel_spec(bgc, sc, 0) == bgc by {
            assert(sc * 0 == 0) by (nonlinear_arith);
            assert(bgc * (255 - 0) / 255 == bgc) by (nonlinear_arith);
        }
    }
}

/// Whether a pixel would show up against a black screen: any colour
/// channel above one percent of full brightness.
pub open spec fn is_bright_spec(p: crate::workload::Rgba) -> bool {
    p.r >= 3 || p.g >= 3 || p.b >= 3
}

/// Whether a pixel of an offscreen buffer holds any content at all:
/// alpha above one percent.
pub open spec fn is_opaque_spec(p: crate::workload::Rgba) -> bool {
    p.a >= 3
}

/// How many pixels of a read-back image would show up on screen.
pub open spec fn count_bright_spec(s: Seq<crate::workload::Rgba>) -> int
    decreases s.len(),
{
    if s.len() == 0 {
        0
    } else {
        count_bright_spec(s.drop_last()) + if is_bright_spec(s.last()) {
            1int
        } else {
            0int
        }
    }
}

/// How many pixels of a read-back buffer hold any content.
pub open spec fn count_opaque_spec(s: Seq<crate::workload::Rgba>) -> int
    decreases s.len(),
{
    if s.len() == 0 {
        0
    } else {
        count_opaque_spec(s.drop_last()) + if is_opaque_spec(s.last()) {
            1int
        } else {
            0int
        }
    }
}

/// Counts the pixels of a read-back screen image that would show up
/// against a black background. Mirrors the diagnostic read-back that
/// checks sprites actually reached the displayed surface.
pub fn count_bright_pixels(pixels: &Vec<crate::workload::Rgba>) -> (r: usize)
    ensures
        r == count_bright_spec(pixels@),
{
    let mut count: usize = 0;
    let mut i: usize = 0;
    while i < pixels.len()
        invariant
            i <= pixels@.len(),
            count == count_bright_spec(pixels@.subrange(0, i as int)),
            count <= i,
        decreases pixels@.len() - i,
    {
        let p = pixels[i];
        proof {
            let sub = pixels@.subrange(0, i + 1);
            assert(sub.drop_last() =~= pixels@.subrange(0, i as int));
            assert(sub.last() == pixels@[i as int]);
        }
        if p.r >= 3 || p.g >= 3 || p.b >= 3 {
            count = count + 1;
        }
        i = i + 1;
    }
    proof {
        assert(pixels@.subrange(0, pixels@.len() as int) =~= pixels@);
    }
    count
}

/// Counts the pixels of a read-back offscreen buffer that hold any
/// content, by their alpha channel.
pub fn count_opaque_pixels(pixels: &Vec<crate::workload::Rgba>) -> (r: usize)
    ensures
        r == count_opaque_spec(pixels@),
{
    let mut count: usize = 0;
    let mut i: usize = 0;
    while i < pixels.len()
        invariant
            i <= pixels@.len(),
            count == count_opaque_spec(pixels@.subrange(0, i as int)),
            count <= i,
        decreases pixels@.len() - i,
    {
        let p = pixels[i];
        proof {
            let sub = pixels@.subrange(0, i + 1);
            assert(sub.drop_last() =~= pixels@.subrange(0, i as int));
            assert(sub.last() == pixels@[i as int]);
        }
        if p.a >= 3 {
            count = count + 1;
        }
        i = i + 1;
    }
    proof {
        assert(pixels@.subrange(0, pixels@.len() as int) =~= pixels@);
    }
    count
}

/// One band of the background gradient: its vertical placement in the
/// visible world and its colour in fixed-point thousandths.
#[derive(Clone, Copy, Debug, PartialEq, Eq, Structural)]
pub struct GradientBand {
    pub y_milli: i64,
    pub height_milli: i64,
    pub r_milli: u32,
    pub g_milli: u32,
    pub b_milli: u32,
    pub a_milli: u32,
}

/// Band `i` of the gradient: the bands tile the visible height from top
/// to bottom, red fading out and blue fading in down the screen, at full
/// opacity.
pub open spec fn gradient_band_spec(i: int, half_h_milli: int) -> GradientBand
    recommends
        0 <= i < GRADIENT_BANDS,
        0 <= half_h_milli <= HALF_EXTENT_MAX,
{
    (GradientBand {
        y_milli: (-half_h_milli + i * (2 * half_h_milli) / 19) as i64,
        height_milli: (2 * half_h_milli / 20) as i64,
        r_milli: (300 * (19 - i) / 19) as u32,
        g_milli: 100,
        b_milli: (300 * i / 19 + 200) as u32,
        a_milli: 1000,
    })
}

/// Computes one band of the background gradient.
pub fn gradient_band(i: usize, half_h_milli: i64) -> (r: GradientBand)
    requires
        i < GRADIENT_BANDS,
        0 <= half_h_milli <= HALF_EXTENT_MAX,
    ensures
        r == gradient_band_spec(i as int, half_h_milli as int),
{
    let span: i64 = 2 * half_h_milli;
    proof {
        assert(0 <= (i as int) * (span as int) <= 19 * (2 * (HALF_EXTENT_MAX as int)))
            by (nonlinear_arith)
            requires
                0 <= i <= 19,
                0 <= span <= 2 * (HALF_EXTENT_MAX as int),
        ;
        vstd::arithmetic::div_mod::lemma_div_is_ordered(
            0,
            (i as int) * (span as int),
            19,
        );
        vstd::arithmetic::div_mod::lemma_div_is_ordered(
            (i as int) * (span as int),
            19 * (2 * (HALF_EXTENT_MAX as int)),
            19,
        );
    }
    let y_milli: i64 = -half_h_milli + (i as i64) * span / 19;
    let height_milli: i64 = span / 20;
    let r_milli: u32 = 300 * (19 - i as u32) / 19;
    let b_milli: u32 = 300 * (i as u32) / 19 + 200;
    GradientBand { y_milli, height_milli, r_milli, g_milli: 100, b_milli, a_milli: 1000 }
}

} // verus!
