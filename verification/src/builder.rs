//! The settings of a test harness, gathered by a builder before the harness is made.
use core::marker::PhantomData;
use vstd::prelude::*;
use crate::float_bits::{f32_bits_as_u32, is_reciprocal_of, FloatBits};
use vstd::arithmetic::power2::lemma2_to64;
use crate::time_span::TimeSpan;

verus! {

#[verifier::external_type_specification]
#[verifier::external_body]
pub struct ExWgpuSetup(egui_wgpu::WgpuSetup);

/// A pair of `f32`s (width and height, or x and y).
#[derive(Clone, Copy, Debug, PartialEq, Eq, Structural)]
pub struct Vec2 {
    pub x: FloatBits,
    pub y: FloatBits,
}

/// The colour theme of the user interface under test.
#[derive(Clone, Copy, Debug, PartialEq, Eq, Structural)]
pub enum Theme {
    /// Light text on a dark background.
    Dark,
    /// Dark text on a light background.
    Light,
}

/// The operating system reported to the user interface under test.
#[derive(Clone, Copy, Debug, PartialEq, Eq, Structural)]
pub enum OperatingSystem {
    /// Unknown, e.g. the web.
    Unknown,
    Android,
    IOS,
    /// Linux or another Unix other than Android.
    Nix,
    Mac,
    Windows,
}

/// The renderer a harness draws with, as far as the harness's settings depend on it.
pub enum Renderer {
    /// The default renderer, created when it is first needed.
    Lazy,
    /// A wgpu renderer with the given setup, or with the default test setup for `None`.
    Wgpu(Option<egui_wgpu::WgpuSetup>),
    /// A real desktop window, whose display has the given native pixels per point.
    Headful { native_pixels_per_point: FloatBits },
    /// A renderer of the caller's, with the native pixels per point it reports, if any.
    Custom { reported_pixels_per_point: Option<FloatBits> },
}

impl Renderer {
    /// The native pixels per point this renderer reports.
    pub open spec fn native_ppp(&self) -> Option<FloatBits> {
        match self {
            Renderer::Headful { native_pixels_per_point } => Some(*native_pixels_per_point),
            Renderer::Custom { reported_pixels_per_point } => *reported_pixels_per_point,
            _ => None,
        }
    }

    /// The native pixels per point this renderer reports: only a window on a real
    /// display, or a custom renderer, reports one.
    pub fn native_pixels_per_point(&self) -> (r: Option<FloatBits>)
        ensures
            r == self.native_ppp(),
            self is Lazy ==> r is None,
            self is Wgpu ==> r is None,
            self is Headful ==> r == Some(self->native_pixels_per_point),
            self is Custom ==> r == self->reported_pixels_per_point,
    {
        match self {
            Renderer::Headful { native_pixels_per_point } => Some(*native_pixels_per_point),
            Renderer::Custom { reported_pixels_per_point } => *reported_pixels_per_point,
            _ => None,
        }
    }
}

/// What the `KITTEST_HEADFUL` override asks of the caller when a harness is built.
#[derive(Clone, Copy, Debug, PartialEq, Eq, Structural)]
pub enum EnvOverride {
    /// Build with the settings as they stand.
    Keep,
    /// Open a desktop window of this size and continue with [`HarnessBuilder::headful`].
    OpenWindow { width: u32, height: u32 },
}

/// `1.0 / 4.0` as an `f32`.
pub const DEFAULT_STEP_DT_BITS: u32 = 0x3E80_0000;

/// `1.0 / 30.0` as an `f32`.
pub const HEADFUL_STEP_DT_BITS: u32 = 0x3D08_8889;

/// `1.0` as an `f32`.
pub const ONE_BITS: u32 = 0x3F80_0000;

/// `800.0` as an `f32`.
pub const DEFAULT_WIDTH_BITS: u32 = 0x4448_0000;

/// `600.0` as an `f32`.
pub const DEFAULT_HEIGHT_BITS: u32 = 0x4416_0000;

/// Maximum number of steps of a run by default.
pub const DEFAULT_MAX_STEPS: u64 = 4;

/// Maximum number of steps of a run in headful mode.
pub const HEADFUL_MAX_STEPS: u64 = 1000;

/// Pause after each run in headful mode, in milliseconds.
pub const HEADFUL_PAUSE_MILLIS: u64 = 200;

/// Builder for a test harness.
///
/// The screen is the rectangle from the origin to `screen_size`.
#[must_use]
pub struct HarnessBuilder<State = ()> {
    pub screen_size: Vec2,
    pub pixels_per_point: FloatBits,
    pub theme: Theme,
    pub os: OperatingSystem,
    pub max_steps: u64,
    pub step_dt: FloatBits,
    pub state: PhantomData<State>,
    pub renderer: Renderer,
    pub wait_for_pending_images: bool,
    pub headful_pause: TimeSpan,
}

impl<State> HarnessBuilder<State> {
    /// The settings of a builder after [`Self::headful`] with a window of the given
    /// native pixels per point.
    pub open spec fn headful_spec(self, native_pixels_per_point: FloatBits) -> Self {
        HarnessBuilder {
            pixels_per_point: native_pixels_per_point,
            step_dt: FloatBits { bits: HEADFUL_STEP_DT_BITS },
            max_steps: HEADFUL_MAX_STEPS,
            headful_pause: TimeSpan::millis_spec(HEADFUL_PAUSE_MILLIS),
            renderer: Renderer::Headful { native_pixels_per_point },
            ..self
        }
    }

    /// What [`Self::env_override`] asks for.
    pub open spec fn env_override_spec(self, headful_requested: bool) -> EnvOverride {
        if headful_requested && self.renderer.native_ppp() is None {
            EnvOverride::OpenWindow { width: self.window_size().0, height: self.window_size().1 }
        } else {
            EnvOverride::Keep
        }
    }

    /// The size in whole pixels of a window that shows this builder's screen.
    pub open spec fn window_size(self) -> (u32, u32) {
        (f32_bits_as_u32(self.screen_size.x.bits), f32_bits_as_u32(self.screen_size.y.bits))
    }
}

impl<State> Default for HarnessBuilder<State> {
    /// An 800 x 600 screen at one pixel per point, dark theme, Linux, at most 4 steps of
    /// 1/4 s per run, waiting for pending images, the lazy renderer and no pause.
    fn default() -> (r: Self)
        ensures
            r.screen_size == (Vec2 {
                x: FloatBits { bits: DEFAULT_WIDTH_BITS },
                y: FloatBits { bits: DEFAULT_HEIGHT_BITS },
            }),
            r.pixels_per_point == (FloatBits { bits: ONE_BITS }),
            r.theme == Theme::Dark,
            r.os == OperatingSystem::Nix,
            r.max_steps == DEFAULT_MAX_STEPS,
            r.step_dt == (FloatBits { bits: DEFAULT_STEP_DT_BITS }),
            r.renderer is Lazy,
            r.wait_for_pending_images,
            r.headful_pause@ == 0,
    {
        HarnessBuilder {
            screen_size: Vec2 {
                x: FloatBits { bits: DEFAULT_WIDTH_BITS },
                y: FloatBits { bits: DEFAULT_HEIGHT_BITS },
            },
            pixels_per_point: FloatBits { bits: ONE_BITS },
            theme: Theme::Dark,
            os: OperatingSystem::Nix,
            max_steps: DEFAULT_MAX_STEPS,
            step_dt: FloatBits { bits: DEFAULT_STEP_DT_BITS },
            state: PhantomData,
            renderer: Renderer::Lazy,
            wait_for_pending_images: true,
            headful_pause: TimeSpan::zero(),
        }
    }
}

impl<State> HarnessBuilder<State> {
    /// Set the size of the window.
    pub fn with_size(self, size: Vec2) -> (r: Self)
        ensures
            r == (HarnessBuilder { screen_size: size, ..self }),
    {
        HarnessBuilder { screen_size: size, ..self }
    }

    /// Set the `pixels_per_point` of the window.
    pub fn with_pixels_per_point(self, pixels_per_point: FloatBits) -> (r: Self)
        ensures
            r == (HarnessBuilder { pixels_per_point, ..self }),
    {
        HarnessBuilder { pixels_per_point, ..self }
    }

    /// Set the desired theme (dark or light).
    pub fn with_theme(self, theme: Theme) -> (r: Self)
        ensures
            r == (HarnessBuilder { theme, ..self }),
    {
        HarnessBuilder { theme, ..self }
    }

    /// Override the operating system reported to the user interface. Default is
    /// [`OperatingSystem::Nix`].
    pub fn with_os(self, os: OperatingSystem) -> (r: Self)
        ensures
            r == (HarnessBuilder { os, ..self }),
    {
        HarnessBuilder { os, ..self }
    }

    /// Set the maximum number of steps of a run. Default is 4.
    pub fn with_max_steps(self, max_steps: u64) -> (r: Self)
        ensures
            r == (HarnessBuilder { max_steps, ..self }),
    {
        HarnessBuilder { max_steps, ..self }
    }

    /// Set the time delta of a single step. Default is 1.0 / 4.0 (4 fps).
    pub fn with_step_dt(self, step_dt: FloatBits) -> (r: Self)
        ensures
            r == (HarnessBuilder { step_dt, ..self }),
    {
        HarnessBuilder { step_dt, ..self }
    }

    /// Should a run wait for pending images? Default: `true`.
    pub fn with_wait_for_pending_images(self, wait_for_pending_images: bool) -> (r: Self)
        ensures
            r == (HarnessBuilder { wait_for_pending_images, ..self }),
    {
        HarnessBuilder { wait_for_pending_images, ..self }
    }

    /// Set the pause after each run in headful mode.
    pub fn with_headful_pause(self, pause: TimeSpan) -> (r: Self)
        ensures
            r == (HarnessBuilder { headful_pause: pause, ..self }),
    {
        HarnessBuilder { headful_pause: pause, ..self }
    }

    /// Set the renderer to use. By default the lazy renderer is used.
    pub fn renderer(self, renderer: Renderer) -> (r: Self)
        ensures
            r == (HarnessBuilder { renderer, ..self }),
    {
        HarnessBuilder { renderer, ..self }
    }

    /// Render with wgpu, with the default setup for tests.
    pub fn wgpu(self) -> (r: Self)
        ensures
            r == (HarnessBuilder { renderer: Renderer::Wgpu(None), ..self }),
    {
        self.renderer(Renderer::Wgpu(None))
    }

    /// Render with wgpu, with the given setup.
    pub fn wgpu_setup(self, setup: egui_wgpu::WgpuSetup) -> (r: Self)
        ensures
            r == (HarnessBuilder { renderer: Renderer::Wgpu(Some(setup)), ..self }),
    {
        self.renderer(Renderer::Wgpu(Some(setup)))
    }

    /// The size in whole pixels (each side of the screen as `f32 as u32`) of the
    /// desktop window that headful mode opens for this builder.
    pub fn headful_window_size(&self) -> (r: (u32, u32))
        ensures
            r == self.window_size(),
            r == (f32_bits_as_u32(self.screen_size.x.bits), f32_bits_as_u32(self.screen_size.y.bits)),
    {
        (self.screen_size.x.as_u32(), self.screen_size.y.as_u32())
    }

    /// Switch to headful mode, drawing to a desktop window (opened with the size
    /// [`Self::headful_window_size`]) whose display has the given native pixels per point.
    ///
    /// This takes the window's pixels per point, sets `step_dt` to 1/30 and `max_steps` to
    /// 1000 so that the harness runs at a watchable pace, and pauses 0.2 s after each run.
    pub fn headful(self, native_pixels_per_point: FloatBits) -> (r: Self)
        ensures
            r == self.headful_spec(native_pixels_per_point),
            r.pixels_per_point == native_pixels_per_point,
            r.step_dt.bits == HEADFUL_STEP_DT_BITS,
            r.max_steps == HEADFUL_MAX_STEPS,
            r.headful_pause@ == HEADFUL_PAUSE_MILLIS * 1_000_000,
            r.renderer.native_ppp() == Some(native_pixels_per_point),
            r.screen_size == self.screen_size,
            r.theme == self.theme,
            r.os == self.os,
            r.wait_for_pending_images == self.wait_for_pending_images,
    {
        HarnessBuilder {
            pixels_per_point: native_pixels_per_point,
            step_dt: FloatBits { bits: HEADFUL_STEP_DT_BITS },
            max_steps: HEADFUL_MAX_STEPS,
            headful_pause: TimeSpan::from_millis(HEADFUL_PAUSE_MILLIS),
            renderer: Renderer::Headful { native_pixels_per_point },
            ..self
        }
    }

    /// What building a harness from this builder asks for, given whether the
    /// `KITTEST_HEADFUL` environment variable is set: a desktop window of the size
    /// [`Self::headful_window_size`] when it is set and the renderer reports no native
    /// pixels per point (that is, is not already a window); else nothing.
    pub fn env_override(&self, headful_requested: bool) -> (r: EnvOverride)
        ensures
            r == self.env_override_spec(headful_requested),
            !headful_requested ==> r == EnvOverride::Keep,
            (self.renderer is Headful || (self.renderer is Custom
                && self.renderer->reported_pixels_per_point is Some)) ==> r == EnvOverride::Keep,
            headful_requested && (self.renderer is Lazy || self.renderer is Wgpu || (
            self.renderer is Custom && self.renderer->reported_pixels_per_point is None))
                ==> r == (EnvOverride::OpenWindow {
                    width: f32_bits_as_u32(self.screen_size.x.bits),
                    height: f32_bits_as_u32(self.screen_size.y.bits),
                }),
    {
        if headful_requested && self.renderer.native_pixels_per_point().is_none() {
            let (width, height) = self.headful_window_size();
            EnvOverride::OpenWindow { width, height }
        } else {
            EnvOverride::Keep
        }
    }
}

/// Headful mode changes only the headful settings: it takes the window's pixels per point,
/// steps of 1/30 s (the `f32` `0x3D08_8889`), 1000 steps per run, a 0.2 s pause and the
/// window as renderer, and keeps the screen size, theme, operating system and waiting for
/// images as they were, so the window it opens shows the screen that `with_size` set.
pub proof fn headful_changes_only_headful_settings<State>(
    builder: HarnessBuilder<State>,
    native_pixels_per_point: FloatBits,
)
    ensures
        ({
            let h = builder.headful_spec(native_pixels_per_point);
            &&& h.screen_size == builder.screen_size
            &&& h.theme == builder.theme
            &&& h.os == builder.os
            &&& h.wait_for_pending_images == builder.wait_for_pending_images
            &&& h.state == builder.state
            &&& h.pixels_per_point == native_pixels_per_point
            &&& h.step_dt.bits == 0x3D08_8889
            &&& h.max_steps == 1000
            &&& h.headful_pause@ == 200_000_000
            &&& h.renderer is Headful
            &&& h.renderer->native_pixels_per_point == native_pixels_per_point
        }),
{
    TimeSpan::millis_spec_is_millis(HEADFUL_PAUSE_MILLIS);
}

/// Only a window, or a custom renderer that says so, reports native pixels per point: the
/// lazy renderer and every wgpu renderer, whatever its setup, report none.
pub proof fn only_windows_report_density(
    setup: Option<egui_wgpu::WgpuSetup>,
    native: FloatBits,
    reported: Option<FloatBits>,
)
    ensures
        Renderer::Lazy.native_ppp() is None,
        Renderer::Wgpu(setup).native_ppp() is None,
        (Renderer::Headful { native_pixels_per_point: native }).native_ppp() == Some(native),
        (Renderer::Custom { reported_pixels_per_point: reported }).native_ppp() == reported,
{
}

/// With `KITTEST_HEADFUL` set, a builder whose renderer is not a window (the lazy one, any
/// wgpu one, or a custom one that reports no pixels per point) asks for a window of its
/// screen's size, each side as `f32 as u32`; one whose renderer reports pixels per point
/// is kept as it is.
pub proof fn override_upgrades_exactly_non_windows<State>(builder: HarnessBuilder<State>)
    ensures
        (builder.renderer is Lazy || builder.renderer is Wgpu || (builder.renderer is Custom
            && builder.renderer->reported_pixels_per_point is None)) ==> builder.env_override_spec(
            true,
        ) == (EnvOverride::OpenWindow {
            width: f32_bits_as_u32(builder.screen_size.x.bits),
            height: f32_bits_as_u32(builder.screen_size.y.bits),
        }),
        (builder.renderer is Headful || (builder.renderer is Custom
            && builder.renderer->reported_pixels_per_point is Some)) ==> builder.env_override_spec(
            true,
        ) == EnvOverride::Keep,
{
}

/// A builder that is in headful mode is never switched again by `KITTEST_HEADFUL`: the
/// environment override leaves its settings as they are, whether it is set or not.
pub proof fn headful_builder_is_kept<State>(
    builder: HarnessBuilder<State>,
    native_pixels_per_point: FloatBits,
    headful_requested: bool,
)
    ensures
        builder.headful_spec(native_pixels_per_point).env_override_spec(headful_requested)
            == EnvOverride::Keep,
{
}

/// With the default `step_dt` (exactly 1/4 s), the default `max_steps` make one second of
/// simulation.
pub proof fn default_run_is_one_second()
    ensures
        is_reciprocal_of(DEFAULT_STEP_DT_BITS, DEFAULT_MAX_STEPS as nat),
{
    lemma2_to64();
}

/// Without `KITTEST_HEADFUL`, building never opens a window.
pub proof fn no_window_unless_requested<State>(builder: HarnessBuilder<State>)
    ensures
        builder.env_override_spec(false) == EnvOverride::Keep,
{
}

/// The window that the environment override opens has the size that `with_size` set,
/// each side rounded toward zero to whole pixels, whatever other settings were made.
pub proof fn override_window_has_configured_size<State>(builder: HarnessBuilder<State>, size: Vec2)
    requires
        builder.renderer.native_ppp() is None,
    ensures
        (HarnessBuilder { screen_size: size, ..builder }).env_override_spec(true)
            == (EnvOverride::OpenWindow {
                width: f32_bits_as_u32(size.x.bits),
                height: f32_bits_as_u32(size.y.bits),
            }),
{
}

} // verus!
