//! Run configuration: the render-path selection and the numeric knobs,
//! resolved once at startup and immutable for the whole run, plus the
//! camera arithmetic that turns screen resolution and scale into the
//! world extents the workload spreads its sprites over.

use vstd::prelude::*;
use crate::render::CompositeMode;
use crate::render::RenderPath;
use crate::workload::HALF_EXTENT_MAX;

verus! {

/// Default run length: four seconds.
pub const DEFAULT_DURATION_US: u64 = 4_000_000;

/// Default number of sprites drawn per frame.
pub const DEFAULT_SPRITES: usize = 500;

/// Default camera scale factor, in thousandths: 3.0.
pub const DEFAULT_SCALE_MILLI: u32 = 3_000;

/// Default number of distinct textures cycled through.
pub const DEFAULT_TEXTURES: usize = 16;

/// Widest screen the fixed-point camera arithmetic accepts, in pixels.
pub const SCREEN_DIM_MAX: u32 = 65_536;

/// A configuration the library rejects at startup.
#[derive(Clone, Copy, Debug, PartialEq, Eq, Structural)]
pub enum ConfigError {
    /// The texture count is zero: sprites could not be assigned one.
    NoTextures,
    /// The scale factor is zero: the visible world would be unbounded.
    NonPositiveScale,
}

/// The immutable configuration of one run.
#[derive(Clone, Copy, Debug, PartialEq, Eq, Structural)]
pub struct RunConfig {
    pub path: RenderPath,
    pub duration_us: u64,
    pub sprites: usize,
    pub scale_milli: u32,
    pub textures: usize,
}

impl RunConfig {
    /// The configuration invariant: at least one texture, positive scale.
    pub open spec fn wf(self) -> bool {
        &&& self.textures >= 1
        &&& self.scale_milli >= 1
    }
}

/// How the two flags choose a strategy: no flag draws directly; the
/// offscreen flag alone takes the dual-target path with plain blits; both
/// flags together take the dual-target path through the compositing
/// shader.
pub open spec fn select_render_path_spec(fbo: bool, composite: bool) -> RenderPath {
    if !fbo {
        RenderPath::Direct
    } else if composite {
        RenderPath::DualTargetComposite(CompositeMode::WithShader)
    } else {
        RenderPath::DualTargetComposite(CompositeMode::BlitOnly)
    }
}

/// Resolves the strategy from the two flags.
pub fn select_render_path(fbo: bool, composite: bool) -> (r: RenderPath)
    ensures
        r == select_render_path_spec(fbo, composite),
{
    if !fbo {
        RenderPath::Direct
    } else if composite {
        RenderPath::DualTargetComposite(CompositeMode::WithShader)
    } else {
        RenderPath::DualTargetComposite(CompositeMode::BlitOnly)
    }
}

impl RunConfig {
    /// Resolves one run's configuration. Rejects a zero texture count,
    /// then a zero scale; any other combination is accepted unchanged,
    /// with the strategy read from the two flags.
    pub fn new(
        fbo: bool,
        composite: bool,
        duration_us: u64,
        sprites: usize,
        scale_milli: u32,
        textures: usize,
    ) -> (r: Result<RunConfig, ConfigError>)
        ensures
            r is Ok <==> (textures >= 1 && scale_milli >= 1),
            textures == 0 ==> r == Result::<RunConfig, ConfigError>::Err(ConfigError::NoTextures),
            textures >= 1 && scale_milli == 0 ==> r == Result::<RunConfig, ConfigError>::Err(
                ConfigError::NonPositiveScale,
            ),
            r is Ok ==> r->Ok_0 == (RunConfig {
                path: select_render_path_spec(fbo, composite),
                duration_us,
                sprites,
                scale_milli,
                textures,
            }),
            r is Ok ==> r->Ok_0.wf(),
    {
        if textures == 0 {
            return Err(ConfigError::NoTextures);
        }
        if scale_milli == 0 {
            return Err(ConfigError::NonPositiveScale);
        }
        Ok(
            RunConfig {
                path: select_render_path(fbo, composite),
                duration_us,
                sprites,
                scale_milli,
                textures,
            },
        )
    }
}

/// Half of one visible world extent, in thousandths of a world unit:
/// the visible world spans `screen / scale` world units, so one half is
/// `screen * 500_000 / scale_milli` thousandths.
pub open spec fn half_extent_spec(screen_px: int, scale_milli: int) -> int {
    screen_px * 500_000 / scale_milli
}

/// Computes half of one visible world extent from a screen dimension and
/// the camera scale. The result always fits the workload's extent bound.
pub fn half_extent_milli(screen_px: u32, scale_milli: u32) -> (r: i64)
    requires
        1 <= screen_px <= SCREEN_DIM_MAX,
        scale_milli >= 1,
    ensures
        r == half_extent_spec(screen_px as int, scale_milli as int),
        0 <= r <= HALF_EXTENT_MAX,
{
    let wide: u64 = (screen_px as u64) * 500_000;
    let r: u64 = wide / (scale_milli as u64);
    proof {
        vstd::arithmetic::div_mod::lemma_div_is_ordered(
            wide as int,
            (SCREEN_DIM_MAX as int) * 500_000,
            scale_milli as int,
        );
        assert((SCREEN_DIM_MAX as int) * 500_000 / (scale_milli as int) <= (SCREEN_DIM_MAX as int)
            * 500_000) by (nonlinear_arith)
            requires
                scale_milli >= 1,
        ;
    }
    r as i64
}

/// The camera zoom in millionths per pixel: `2 * scale / screen`, the
/// factor that maps world units to clip space for the given dimension.
pub open spec fn camera_zoom_micro_spec(scale_milli: int, screen_px: int) -> int {
    2_000 * scale_milli / screen_px
}

/// Computes one camera zoom factor in millionths.
pub fn camera_zoom_micro(scale_milli: u32, screen_px: u32) -> (r: u64)
    requires
        screen_px >= 1,
    ensures
        r == camera_zoom_micro_spec(scale_milli as int, screen_px as int),
{
    2_000 * (scale_milli as u64) / (screen_px as u64)
}

} // verus!
