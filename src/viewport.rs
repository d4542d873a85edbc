use vstd::prelude::*;

verus! {

/// The rectangle of the window that rendering covers, in pixels.
#[derive(Debug, Clone, Copy, PartialEq, Eq, Structural)]
pub struct Viewport {
    x: u32,
    y: u32,
    w: u32,
    h: u32,
}

impl View for Viewport {
    /// Left, bottom, width and height.
    type V = (u32, u32, u32, u32);

    closed spec fn view(&self) -> (u32, u32, u32, u32) {
        (self.x, self.y, self.w, self.h)
    }
}

impl Viewport {
    /// A viewport covering a whole window with the given dimensions.
    pub fn for_window(w: u32, h: u32) -> (v: Viewport)
        ensures
            v@ == (0u32, 0u32, w, h),
    {
        Viewport { x: 0, y: 0, w, h }
    }

    /// Change the dimensions of the viewport; its origin stays.
    pub fn update(&mut self, w: u32, h: u32)
        ensures
            final(self)@ == (old(self)@.0, old(self)@.1, w, h),
    {
        self.w = w;
        self.h = h;
    }

    /// Left, bottom, width and height of the viewport.
    pub fn rect(&self) -> (r: (u32, u32, u32, u32))
        ensures
            r == self@,
    {
        (self.x, self.y, self.w, self.h)
    }
}

} // verus!
