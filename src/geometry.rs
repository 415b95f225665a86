use vstd::prelude::*;

verus! {

/// A rectangle in virtual-screen pixel coordinates: left and top inclusive,
/// right and bottom exclusive.
#[derive(Clone, Copy, Debug, PartialEq, Eq, Structural, Default)]
pub struct SerializableRect {
    pub left: i32,
    pub top: i32,
    pub right: i32,
    pub bottom: i32,
}

impl SerializableRect {
    /// Width in pixels (negative for an inverted rectangle).
    pub open spec fn spec_width(self) -> int {
        self.right - self.left
    }

    /// Height in pixels (negative for an inverted rectangle).
    pub open spec fn spec_height(self) -> int {
        self.bottom - self.top
    }

    /// Neither edge pair is inverted.
    pub open spec fn wf(self) -> bool {
        self.left <= self.right && self.top <= self.bottom
    }

    /// `inner` lies entirely within `self`.
    pub open spec fn contains_rect(self, inner: SerializableRect) -> bool {
        self.left <= inner.left && inner.right <= self.right && self.top <= inner.top
            && inner.bottom <= self.bottom
    }

    /// The top-left corner is the origin of the virtual desktop.
    pub open spec fn spec_at_origin(self) -> bool {
        self.left == 0 && self.top == 0
    }

    pub fn new(left: i32, top: i32, right: i32, bottom: i32) -> (r: SerializableRect)
        ensures
            r == (SerializableRect { left, top, right, bottom }),
    {
        SerializableRect { left, top, right, bottom }
    }

    pub fn width(&self) -> (r: i64)
        ensures
            r == self.spec_width(),
    {
        self.right as i64 - self.left as i64
    }

    pub fn height(&self) -> (r: i64)
        ensures
            r == self.spec_height(),
    {
        self.bottom as i64 - self.top as i64
    }

    pub fn is_well_formed(&self) -> (r: bool)
        ensures
            r == self.wf(),
    {
        self.left <= self.right && self.top <= self.bottom
    }

    pub fn at_origin(&self) -> (r: bool)
        ensures
            r == self.spec_at_origin(),
    {
        self.left == 0 && self.top == 0
    }
}

} // verus!
