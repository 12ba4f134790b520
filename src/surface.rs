use vstd::prelude::*;

verus! {

/// The size in pixels of a presentable surface.
#[derive(Debug, Clone, Copy, PartialEq, Eq, Structural)]
pub struct SurfaceSize {
    pub width: u32,
    pub height: u32,
}

/// The size to reconfigure a surface to after the window became
/// `width` x `height`: none when either side is zero, since a surface cannot
/// be configured empty.
pub fn resize_request(width: u32, height: u32) -> (r: Option<SurfaceSize>)
    ensures
        r == (if width > 0 && height > 0 {
            Some(SurfaceSize { width, height })
        } else {
            None
        }),
{
    if width > 0 && height > 0 {
        Some(SurfaceSize { width, height })
    } else {
        None
    }
}

} // verus!
