//! Swapchain recreation planning: rebuild the presentable images and their
//! framebuffers at the surface's size, but skip the rebuild while that size
//! is degenerate (a minimized window) instead of failing.

use vstd::prelude::*;

verus! {

/// What to do when the swapchain must be recreated.
#[derive(Clone, Copy, Debug, PartialEq, Eq, Structural)]
pub enum RecreatePlan {
    /// The surface has no area: keep the old swapchain for now.
    Skip,
    /// Rebuild at this extent; the viewport and every framebuffer follow it.
    Rebuild { width: u32, height: u32 },
}

/// Whether a surface of this size has no area.
pub open spec fn is_degenerate(width: u32, height: u32) -> bool {
    width == 0 || height == 0
}

/// The plan for recreating the swapchain for a surface of `width` by
/// `height`. Each plan stands alone: a later one supersedes an earlier one.
pub fn plan_recreate(width: u32, height: u32) -> (r: RecreatePlan)
    ensures
        is_degenerate(width, height) ==> r == RecreatePlan::Skip,
        !is_degenerate(width, height) ==> r == (RecreatePlan::Rebuild { width, height }),
{
    if width == 0 || height == 0 {
        RecreatePlan::Skip
    } else {
        RecreatePlan::Rebuild { width, height }
    }
}

} // verus!
