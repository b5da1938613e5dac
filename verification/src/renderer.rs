//! Frame acquisition decisions of the full-screen shader renderer.

use vstd::prelude::*;

verus! {

/// What happened when we tried to draw a frame.
#[derive(Clone, Copy, Debug, PartialEq, Eq, Structural)]
pub enum RenderOutcome {
    Presented,
    NeedsReconfigure,
    Skipped,
}

/// Result of asking the surface for its next image.
#[derive(Clone, Copy, Debug, PartialEq, Eq, Structural)]
pub enum SurfaceStatus {
    Success,
    Suboptimal,
    Outdated,
    Lost,
    Validation,
    Timeout,
    Occluded,
}

/// An image was handed out (possibly suboptimal) and can be drawn into.
pub open spec fn spec_can_draw(s: SurfaceStatus) -> bool {
    s == SurfaceStatus::Success || s == SurfaceStatus::Suboptimal
}

/// The surface must be reconfigured before it can be used again.
pub open spec fn spec_must_reconfigure(s: SurfaceStatus) -> bool {
    s == SurfaceStatus::Outdated || s == SurfaceStatus::Lost || s == SurfaceStatus::Validation
}

/// The frame's outcome for a surface status: drawn and presented when an
/// image was handed out, reconfigure when the surface is outdated, lost or
/// invalid, skipped on timeout or occlusion.
pub fn render_outcome(s: SurfaceStatus) -> (r: RenderOutcome)
    ensures
        spec_can_draw(s) <==> r == RenderOutcome::Presented,
        spec_must_reconfigure(s) <==> r == RenderOutcome::NeedsReconfigure,
{
    match s {
        SurfaceStatus::Success | SurfaceStatus::Suboptimal => RenderOutcome::Presented,
        SurfaceStatus::Outdated | SurfaceStatus::Lost | SurfaceStatus::Validation => {
            RenderOutcome::NeedsReconfigure
        },
        SurfaceStatus::Timeout | SurfaceStatus::Occluded => RenderOutcome::Skipped,
    }
}

/// The size to reconfigure the swapchain to after a resize, or `None` when a
/// dimension is zero (minimised window) and the resize is ignored.
pub fn resize_target(width: u32, height: u32) -> (r: Option<(u32, u32)>)
    ensures
        r == (if width == 0 || height == 0 {
            None
        } else {
            Some((width, height))
        }),
{
    if width == 0 || height == 0 {
        None
    } else {
        Some((width, height))
    }
}

/// The initial surface size: each dimension at least 1.
pub fn surface_size(width: u32, height: u32) -> (r: (u32, u32))
    ensures
        r.0 == (if width == 0 {
            1
        } else {
            width
        }),
        r.1 == (if height == 0 {
            1
        } else {
            height
        }),
{
    (if width == 0 {
        1
    } else {
        width
    }, if height == 0 {
        1
    } else {
        height
    })
}

} // verus!
