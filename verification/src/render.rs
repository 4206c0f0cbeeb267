//! What the render bridge is told to draw into, frame by frame.

use vstd::prelude::*;

verus! {

/// The destination of one frame: a framebuffer, its width, and its height
/// with the sign turned, which tells the engine that the host counts rows
/// in the other vertical direction.
#[derive(Clone, Copy, Debug, PartialEq, Eq, Structural)]
pub struct FrameTarget {
    pub framebuffer: i32,
    pub width: i32,
    pub height: i32,
}

/// The framebuffer that the host window itself presents.
pub const DEFAULT_FRAMEBUFFER: i32 = 0;

impl FrameTarget {
    /// Whether a window of `width` by `height` pixels can be described to the engine.
    pub open spec fn fits(width: u32, height: u32) -> bool {
        width <= i32::MAX && height <= i32::MAX
    }

    /// The target for the host's own framebuffer at the given pixel size.
    pub open spec fn of_window(width: u32, height: u32) -> FrameTarget {
        FrameTarget {
            framebuffer: DEFAULT_FRAMEBUFFER,
            width: width as i32,
            height: (-(height as int)) as i32,
        }
    }

    /// Describes the host framebuffer of a window of `width` by `height`
    /// pixels, or nothing where a side does not fit the engine's signed sizes.
    pub fn for_window(width: u32, height: u32) -> (target: Option<FrameTarget>)
        ensures
            target is Some <==> Self::fits(width, height),
            target is Some ==> target->0 == Self::of_window(width, height),
            target is Some ==> target->0.height == -(height as int),
            target is Some ==> target->0.width == width as int,
            target is Some ==> target->0.framebuffer == 0,
    {
        if width > 0x7fff_ffff || height > 0x7fff_ffff {
            return None;
        }
        let w: i32 = width as i32;
        let h: i32 = height as i32;
        Some(FrameTarget { framebuffer: DEFAULT_FRAMEBUFFER, width: w, height: -h })
    }
}

} // verus!
