//! Deterministic workload generation: procedural textures and per-frame
//! sprite placements.
//!
//! Every value here is a pure function of its arguments, so repeated calls
//! agree and every render path sees exactly the same scene content. Angles
//! are measured in millionths of a turn, world coordinates in thousandths
//! of a world unit, and opacities in thousandths of full opacity.

use vstd::prelude::*;

verus! {

/// One full turn of the fixed-point angle scale.
pub const TURN: u64 = 1_000_000;

/// Side length, in pixels, of every generated texture.
pub const TEX_DIM: usize = 32;

/// Number of pixels in one generated texture.
pub const TEX_PIXELS: usize = 1024;

/// One colour, with channels in 0..=255.
#[derive(Clone, Copy, Debug, PartialEq, Eq, Structural)]
pub struct Rgba {
    pub r: u8,
    pub g: u8,
    pub b: u8,
    pub a: u8,
}

/// A fixed-point cosine-like wave over one turn: piecewise linear,
/// starting at 1_000_000 for phase 0, reaching -1_000_000 at half a turn,
/// and climbing back. The workload only needs a deterministic, smooth-ish
/// periodic shape, not trigonometric accuracy.
pub open spec fn cos_wave_spec(u: int) -> int
    recommends
        0 <= u < TURN,
{
    if u < 500_000 {
        1_000_000 - 4 * u
    } else {
        -1_000_000 + 4 * (u - 500_000)
    }
}

/// The matching sine-like wave, a quarter turn behind the cosine.
pub open spec fn sin_wave_spec(u: int) -> int
    recommends
        0 <= u < TURN,
{
    cos_wave_spec((u + 750_000) % (TURN as int))
}

/// Evaluates the cosine-like wave.
pub fn cos_wave(u: u64) -> (r: i64)
    requires
        u < TURN,
    ensures
        r == cos_wave_spec(u as int),
        -1_000_000 <= r <= 1_000_000,
{
    if u < 500_000 {
        1_000_000 - 4 * (u as i64)
    } else {
        -1_000_000 + 4 * ((u - 500_000) as i64)
    }
}

/// Evaluates the sine-like wave.
pub fn sin_wave(u: u64) -> (r: i64)
    requires
        u < TURN,
    ensures
        r == sin_wave_spec(u as int),
        -1_000_000 <= r <= 1_000_000,
{
    cos_wave((u + 750_000) % TURN)
}

/// One 32x32 procedurally generated texture, pixels in row-major order.
#[derive(Debug)]
pub struct TextureImage {
    pub pixels: Vec<Rgba>,
}

impl TextureImage {
    /// A texture is well formed when it holds exactly 32x32 pixels.
    pub open spec fn wf(self) -> bool {
        self.pixels@.len() == TEX_PIXELS
    }
}

/// The colour of pixel (x, y) of texture i out of `count` textures:
/// red and green ramp with the coordinates at texture-dependent offsets,
/// blue ramps with the texture index, and the alpha is a fixed 230/255.
pub open spec fn texel_spec(i: int, count: int, x: int, y: int) -> Rgba
    recommends
        0 <= i < count,
        0 <= x < TEX_DIM,
        0 <= y < TEX_DIM,
{
    (Rgba {
        r: (((x + i * 7) % 32) * 255 / 31) as u8,
        g: (((y + i * 13) % 32) * 255 / 31) as u8,
        b: (i * 255 / count) as u8,
        a: 230,
    })
}

/// Computes one pixel of one generated texture.
pub fn texel(i: usize, count: usize, x: usize, y: usize) -> (r: Rgba)
    requires
        i < count,
        count <= 0x100_0000,
        x < TEX_DIM,
        y < TEX_DIM,
    ensures
        r == texel_spec(i as int, count as int, x as int, y as int),
{
    let red: u64 = ((x as u64 + (i as u64) * 7) % 32) * 255 / 31;
    let green: u64 = ((y as u64 + (i as u64) * 13) % 32) * 255 / 31;
    let blue: u64 = (i as u64) * 255 / (count as u64);
    proof {
        assert(((i as int) * 255) / (count as int) < 255) by (nonlinear_arith)
            requires
                0 <= i < count,
        ;
    }
    Rgba { r: red as u8, g: green as u8, b: blue as u8, a: 230 }
}

/// Generates `count` textures. The result is pinned pixel by pixel to
/// `texel_spec`, so repeated calls with the same `count` agree exactly.
pub fn generate_textures(count: usize) -> (r: Vec<TextureImage>)
    requires
        1 <= count <= 0x100_0000,
    ensures
        r@.len() == count,
        forall|t: int| 0 <= t < count ==> (#[trigger] r@[t]).wf(),
        forall|t: int, p: int|
            0 <= t < count && 0 <= p < TEX_PIXELS ==> (#[trigger] r@[t].pixels@[p])
                == texel_spec(t, count as int, p % 32, p / 32),
{
    let mut out: Vec<TextureImage> = Vec::new();
    let mut i: usize = 0;
    while i < count
        invariant
            i <= count,
            1 <= count <= 0x100_0000,
            out@.len() == i,
            forall|t: int| 0 <= t < i ==> (#[trigger] out@[t]).wf(),
            forall|t: int, p: int|
                0 <= t < i && 0 <= p < TEX_PIXELS ==> (#[trigger] out@[t].pixels@[p])
                    == texel_spec(t, count as int, p % 32, p / 32),
        decreases count - i,
    {
        let mut pixels: Vec<Rgba> = Vec::new();
        let mut y: usize = 0;
        while y < TEX_DIM
            invariant
                y <= TEX_DIM,
                i < count,
                count <= 0x100_0000,
                pixels@.len() == y * TEX_DIM,
                forall|p: int|
                    0 <= p < y * TEX_DIM ==> (#[trigger] pixels@[p])
                        == texel_spec(i as int, count as int, p % 32, p / 32),
            decreases TEX_DIM - y,
        {
            let mut x: usize = 0;
            while x < TEX_DIM
                invariant
                    x <= TEX_DIM,
                    y < TEX_DIM,
                    i < count,
                    count <= 0x100_0000,
                    pixels@.len() == y * TEX_DIM + x,
                    forall|p: int|
                        0 <= p < y * TEX_DIM + x ==> (#[trigger] pixels@[p])
                            == texel_spec(i as int, count as int, p % 32, p / 32),
                decreases TEX_DIM - x,
            {
                let px = texel(i, count, x, y);
                pixels.push(px);
                proof {
                    let p = (y * TEX_DIM + x) as int;
                    vstd::arithmetic::div_mod::lemma_fundamental_div_mod_converse(
                        p,
                        32,
                        y as int,
                        x as int,
                    );
                }
                x = x + 1;
            }
            y = y + 1;
        }
        out.push(TextureImage { pixels });
        i = i + 1;
    }
    out
}

/// Upper bound on a half world extent, in thousandths of a world unit.
/// Far beyond any real display; keeps all fixed-point products in range.
pub const HALF_EXTENT_MAX: i64 = 0x100_0000_0000;

/// One sprite for one frame: world-space centre position, square size and
/// opacity in fixed-point thousandths, plus the texture it is drawn with.
#[derive(Clone, Copy, Debug, PartialEq, Eq, Structural)]
pub struct SpriteInstance {
    pub x_milli: i64,
    pub y_milli: i64,
    pub size_milli: i64,
    pub opacity_milli: i64,
    pub tex_index: usize,
}

/// A phase in millionths of a turn, advancing by `step` per sprite index.
pub open spec fn turn_phase_spec(index: int, step: int) -> int {
    (index % 1_000_000) * step % 1_000_000
}

/// The polar angle of sprite `index`: a golden-ratio fraction of a turn
/// per index, rotating slowly with elapsed time.
pub open spec fn angle_spec(index: int, elapsed_us: int) -> int {
    ((index % 1_000_000) * 618_034 + (elapsed_us / 1000) * 80) % 1_000_000
}

/// The largest radius the point cloud reaches: 8/10 of the smaller half
/// extent of the visible world.
pub open spec fn reach_spec(half_w_milli: int, half_h_milli: int) -> int {
    (if half_w_milli <= half_h_milli {
        half_w_milli
    } else {
        half_h_milli
    }) * 8 / 10
}

/// The radius of sprite `index`, a wave over the index scaled to the reach.
pub open spec fn radius_spec(index: int, half_w_milli: int, half_h_milli: int) -> int {
    vstd::math::abs(sin_wave_spec(turn_phase_spec(index, 1_592))) * reach_spec(
        half_w_milli,
        half_h_milli,
    ) / 1_000_000
}

/// Scales `radius` by a wave value `w` in [-1_000_000, 1_000_000],
/// dividing magnitudes so that no rounding is taken towards a sign.
pub open spec fn signed_scale_spec(w: int, radius: int) -> int {
    if w < 0 {
        -((-w) * radius / 1_000_000)
    } else {
        w * radius / 1_000_000
    }
}

proof fn lemma_signed_scale_bound(w: int, radius: int)
    requires
        -1_000_000 <= w <= 1_000_000,
        0 <= radius,
    ensures
        -radius <= signed_scale_spec(w, radius) <= radius,
{
    assert(vstd::math::abs(w) * radius <= 1_000_000 * radius) by (nonlinear_arith)
        requires
            -1_000_000 <= w <= 1_000_000,
            0 <= radius,
    ;
}

/// The placement of sprite `index` at `elapsed_us` microseconds into the
/// run. Only the texture assignment depends on `texture_count`.
pub open spec fn sprite_spec(
    index: int,
    elapsed_us: int,
    texture_count: int,
    half_w_milli: int,
    half_h_milli: int,
) -> SpriteInstance
    recommends
        0 <= index,
        0 <= elapsed_us,
        1 <= texture_count,
        0 <= half_w_milli <= HALF_EXTENT_MAX,
        0 <= half_h_milli <= HALF_EXTENT_MAX,
{
    let angle = angle_spec(index, elapsed_us);
    let radius = radius_spec(index, half_w_milli, half_h_milli);
    (SpriteInstance {
        x_milli: signed_scale_spec(cos_wave_spec(angle), radius) as i64,
        y_milli: signed_scale_spec(sin_wave_spec(angle), radius) as i64,
        size_milli: (4_000 + (sin_wave_spec(turn_phase_spec(index, 15_915)) + 1_000_000) * 4_000
            / 1_000_000) as i64,
        opacity_milli: (600 + (sin_wave_spec(turn_phase_spec(index, 47_746)) + 1_000_000) * 200
            / 1_000_000) as i64,
        tex_index: (index % texture_count) as usize,
    })
}

/// Computes the placement of one sprite. The result is pinned to
/// `sprite_spec`, so repeated calls with the same arguments agree exactly.
#[verifier::rlimit(100)]
pub fn sprite(
    index: usize,
    elapsed_us: u64,
    texture_count: usize,
    half_w_milli: i64,
    half_h_milli: i64,
) -> (r: SpriteInstance)
    requires
        1 <= texture_count,
        0 <= half_w_milli <= HALF_EXTENT_MAX,
        0 <= half_h_milli <= HALF_EXTENT_MAX,
    ensures
        r == sprite_spec(
            index as int,
            elapsed_us as int,
            texture_count as int,
            half_w_milli as int,
            half_h_milli as int,
        ),
{
    let ghost gi: int = index as int;
    let ghost ge: int = elapsed_us as int;
    let ghost ghw: int = half_w_milli as int;
    let ghost ghh: int = half_h_milli as int;
    let im: u64 = (index as u64) % 1_000_000;
    let angle: u64 = (im * 618_034 + (elapsed_us / 1000) * 80) % 1_000_000;
    let radius_phase: u64 = im * 1_592 % 1_000_000;
    let size_phase: u64 = im * 15_915 % 1_000_000;
    let opacity_phase: u64 = im * 47_746 % 1_000_000;
    proof {
        assert(angle == angle_spec(gi, ge));
        assert(radius_phase == turn_phase_spec(gi, 1_592));
        assert(size_phase == turn_phase_spec(gi, 15_915));
        assert(opacity_phase == turn_phase_spec(gi, 47_746));
    }
    let min_half: i64 = if half_w_milli <= half_h_milli {
        half_w_milli
    } else {
        half_h_milli
    };
    let reach: u64 = (min_half as u64) * 8 / 10;
    proof {
        assert(reach == reach_spec(ghw, ghh));
    }
    let sr: i64 = sin_wave(radius_phase);
    let sr_abs: u64 = if sr < 0 {
        (-sr) as u64
    } else {
        sr as u64
    };
    proof {
        assert(sr_abs * reach <= 1_000_000 * reach) by (nonlinear_arith)
            requires
                sr_abs <= 1_000_000,
                0 <= reach,
        ;
    }
    let radius: u64 = sr_abs * reach / 1_000_000;
    proof {
        assert(radius == radius_spec(gi, ghw, ghh));
        vstd::arithmetic::div_mod::lemma_div_is_ordered(
            sr_abs as int * reach as int,
            1_000_000 * reach as int,
            1_000_000,
        );
        assert(1_000_000 * reach as int / 1_000_000 == reach as int)
            by (nonlinear_arith);
        assert(radius <= reach);
    }
    let c: i64 = cos_wave(angle);
    let s: i64 = sin_wave(angle);
    let c_abs: u64 = if c < 0 {
        (-c) as u64
    } else {
        c as u64
    };
    let s_abs: u64 = if s < 0 {
        (-s) as u64
    } else {
        s as u64
    };
    proof {
        assert(c_abs * radius <= 1_000_000 * radius) by (nonlinear_arith)
            requires
                c_abs <= 1_000_000,
                0 <= radius,
        ;
        assert(s_abs * radius <= 1_000_000 * radius) by (nonlinear_arith)
            requires
                s_abs <= 1_000_000,
                0 <= radius,
        ;
        vstd::arithmetic::div_mod::lemma_div_is_ordered(
            c_abs as int * radius as int,
            1_000_000 * radius as int,
            1_000_000,
        );
        vstd::arithmetic::div_mod::lemma_div_is_ordered(
            s_abs as int * radius as int,
            1_000_000 * radius as int,
            1_000_000,
        );
        assert(1_000_000 * radius as int / 1_000_000 == radius as int)
            by (nonlinear_arith);
    }
    let x_mag: u64 = c_abs * radius / 1_000_000;
    let y_mag: u64 = s_abs * radius / 1_000_000;
    let x_milli: i64 = if c < 0 {
        -(x_mag as i64)
    } else {
        x_mag as i64
    };
    let y_milli: i64 = if s < 0 {
        -(y_mag as i64)
    } else {
        y_mag as i64
    };
    proof {
        assert(x_milli == signed_scale_spec(c as int, radius as int));
        assert(y_milli == signed_scale_spec(s as int, radius as int));
        lemma_signed_scale_bound(c as int, radius as int);
        lemma_signed_scale_bound(s as int, radius as int);
    }
    let sz: i64 = sin_wave(size_phase);
    let op: i64 = sin_wave(opacity_phase);
    let size_milli: i64 = 4_000 + (sz + 1_000_000) * 4_000 / 1_000_000;
    let opacity_milli: i64 = 600 + (op + 1_000_000) * 200 / 1_000_000;
    let tex_index: usize = index % texture_count;
    SpriteInstance { x_milli, y_milli, size_milli, opacity_milli, tex_index }
}

/// The whole scene for one frame: sprites 0 .. count in order.
pub open spec fn sprite_seq_spec(
    count: int,
    elapsed_us: int,
    texture_count: int,
    half_w_milli: int,
    half_h_milli: int,
) -> Seq<SpriteInstance>
    recommends
        0 <= count,
{
    Seq::new(count as nat, |i: int| sprite_spec(
        i,
        elapsed_us,
        texture_count,
        half_w_milli,
        half_h_milli,
    ))
}

/// Materializes the frame's sprite list.
pub fn sprite_batch(
    count: usize,
    elapsed_us: u64,
    texture_count: usize,
    half_w_milli: i64,
    half_h_milli: i64,
) -> (r: Vec<SpriteInstance>)
    requires
        1 <= texture_count,
        0 <= half_w_milli <= HALF_EXTENT_MAX,
        0 <= half_h_milli <= HALF_EXTENT_MAX,
    ensures
        r@ == sprite_seq_spec(
            count as int,
            elapsed_us as int,
            texture_count as int,
            half_w_milli as int,
            half_h_milli as int,
        ),
{
    let mut out: Vec<SpriteInstance> = Vec::new();
    let mut i: usize = 0;
    while i < count
        invariant
            i <= count,
            1 <= texture_count,
            0 <= half_w_milli <= HALF_EXTENT_MAX,
            0 <= half_h_milli <= HALF_EXTENT_MAX,
            out@.len() == i,
            forall|j: int|
                0 <= j < i ==> (#[trigger] out@[j]) == sprite_spec(
                    j,
                    elapsed_us as int,
                    texture_count as int,
                    half_w_milli as int,
                    half_h_milli as int,
                ),
        decreases count - i,
    {
        let sp = sprite(i, elapsed_us, texture_count, half_w_milli, half_h_milli);
        out.push(sp);
        i = i + 1;
    }
    proof {
        assert(out@ =~= sprite_seq_spec(
            count as int,
            elapsed_us as int,
            texture_count as int,
            half_w_milli as int,
            half_h_milli as int,
        ));
    }
    out
}

/// The texture count steers texture assignment alone: for any two texture
/// counts, a sprite's position, size and opacity are the same, and its
/// texture index is exactly `index mod texture_count`.
pub proof fn lemma_sprite_independent_of_texture_count(
    index: int,
    elapsed_us: int,
    tc1: int,
    tc2: int,
    half_w_milli: int,
    half_h_milli: int,
)
    requires
        1 <= tc1,
        1 <= tc2,
    ensures
        sprite_spec(index, elapsed_us, tc1, half_w_milli, half_h_milli).x_milli == sprite_spec(
            index,
            elapsed_us,
            tc2,
            half_w_milli,
            half_h_milli,
        ).x_milli,
        sprite_spec(index, elapsed_us, tc1, half_w_milli, half_h_milli).y_milli == sprite_spec(
            index,
            elapsed_us,
            tc2,
            half_w_milli,
            half_h_milli,
        ).y_milli,
        sprite_spec(index, elapsed_us, tc1, half_w_milli, half_h_milli).size_milli == sprite_spec(
            index,
            elapsed_us,
            tc2,
            half_w_milli,
            half_h_milli,
        ).size_milli,
        sprite_spec(index, elapsed_us, tc1, half_w_milli, half_h_milli).opacity_milli
            == sprite_spec(index, elapsed_us, tc2, half_w_milli, half_h_milli).opacity_milli,
        sprite_spec(index, elapsed_us, tc1, half_w_milli, half_h_milli).tex_index == (index % tc1)
            as usize,
{
}

} // verus!
