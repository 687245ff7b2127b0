//! The size of the window surface that headful mode draws to, and what to do when the
//! surface cannot be drawn to.
use vstd::prelude::*;

verus! {

/// The larger of `x` and 1: a surface has at least one pixel on each side.
pub open spec fn at_least_one(x: u32) -> u32 {
    if x == 0 { 1 } else { x }
}

/// The size in pixels that the window surface is configured with.
#[derive(Clone, Copy, Debug, PartialEq, Eq, Structural)]
pub struct SurfaceSize {
    pub width: u32,
    pub height: u32,
}

impl SurfaceSize {
    /// The configuration for a window of the given inner size.
    pub open spec fn for_window_spec(width: u32, height: u32) -> SurfaceSize {
        SurfaceSize { width: at_least_one(width), height: at_least_one(height) }
    }

    /// The configuration for a window of the given inner size: each side at least 1.
    pub fn for_window(width: u32, height: u32) -> (r: SurfaceSize)
        ensures
            r == Self::for_window_spec(width, height),
            r.width == (if width == 0 { 1 } else { width }),
            r.height == (if height == 0 { 1 } else { height }),
    {
        SurfaceSize {
            width: if width == 0 { 1 } else { width },
            height: if height == 0 { 1 } else { height },
        }
    }

    /// Whether following the window to the inner size `width` x `height` changes the
    /// configured size.
    pub open spec fn needs_reconfigure(self, width: u32, height: u32) -> bool {
        Self::for_window_spec(width, height) != self
    }

    /// Follow the window to its new inner size. Returns whether the surface must be
    /// configured again, which is when the size changed.
    pub fn resize(&mut self, width: u32, height: u32) -> (reconfigure: bool)
        ensures
            *final(self) == Self::for_window_spec(width, height),
            reconfigure == old(self).needs_reconfigure(width, height),
            final(self).width == (if width == 0 { 1 } else { width }),
            final(self).height == (if height == 0 { 1 } else { height }),
            reconfigure == (old(self).width != final(self).width || old(self).height
                != final(self).height),
    {
        let next = SurfaceSize::for_window(width, height);
        if self.width == next.width && self.height == next.height {
            false
        } else {
            *self = next;
            true
        }
    }
}

/// What came of asking the window's surface for the texture of the next frame.
#[derive(Clone, Copy, Debug, PartialEq, Eq, Structural)]
pub enum SurfaceOutcome {
    /// A texture to draw to.
    Acquired,
    /// The surface no longer matches the window and must be configured again.
    Outdated,
    /// Any other error.
    Failed,
}

/// What presenting a frame does next.
#[derive(Clone, Copy, Debug, PartialEq, Eq, Structural)]
pub enum PresentStep {
    /// Draw the frame to the texture and present it.
    Draw,
    /// Ask the surface once more.
    Retry,
    /// Report the error and skip this frame.
    Skip,
}

/// The next step of presenting a frame, given what the surface answered and whether it
/// was already asked again for this frame: an outdated surface is asked once more; any
/// other failure, or a second one, skips the frame.
pub fn present_step(outcome: SurfaceOutcome, retried: bool) -> (r: PresentStep)
    ensures
        r == (match outcome {
            SurfaceOutcome::Acquired => PresentStep::Draw,
            SurfaceOutcome::Outdated => if retried {
                PresentStep::Skip
            } else {
                PresentStep::Retry
            },
            SurfaceOutcome::Failed => PresentStep::Skip,
        }),
{
    match outcome {
        SurfaceOutcome::Acquired => PresentStep::Draw,
        SurfaceOutcome::Outdated => if retried {
            PresentStep::Skip
        } else {
            PresentStep::Retry
        },
        SurfaceOutcome::Failed => PresentStep::Skip,
    }
}

/// The surface has the window's size, each side raised to 1 when it is 0 and otherwise
/// left exactly as the window's.
pub proof fn surface_matches_window(width: u32, height: u32)
    ensures
        SurfaceSize::for_window_spec(width, height).width == (if width == 0 { 1 } else { width }),
        SurfaceSize::for_window_spec(width, height).height == (if height == 0 {
            1
        } else {
            height
        }),
        width >= 1 ==> SurfaceSize::for_window_spec(width, height).width == width,
        height >= 1 ==> SurfaceSize::for_window_spec(width, height).height == height,
{
}

/// A resize asks for the surface to be configured again exactly when its width or its
/// height changes.
pub proof fn resize_reports_any_change(size: SurfaceSize, width: u32, height: u32)
    ensures
        size.needs_reconfigure(width, height) == (size.width != (if width == 0 {
            1
        } else {
            width
        }) || size.height != (if height == 0 { 1 } else { height })),
{
}

/// A second resize to the same window size never configures the surface again, and a
/// window side of 0 counts as 1.
pub proof fn second_resize_is_free(width: u32, height: u32)
    ensures
        !SurfaceSize::for_window_spec(width, height).needs_reconfigure(width, height),
        SurfaceSize::for_window_spec(0, height) == SurfaceSize::for_window_spec(1, height),
        SurfaceSize::for_window_spec(width, 0) == SurfaceSize::for_window_spec(width, 1),
{
}

} // verus!
