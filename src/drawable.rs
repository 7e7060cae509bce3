//! What a node of the drawing tree offers to its parent: a measured size.
use vstd::prelude::*;
use crate::geometry::{Bounds, Size};

verus! {

/// A node of the drawing tree, measured before it is painted.
pub trait Drawable {
    /// Whether the node can measure itself within `bounds` in machine integers.
    open spec fn measurable(&self, bounds: Bounds) -> bool {
        true
    }

    /// The size the node takes within `bounds`. A node that does not say
    /// promises nothing of it beyond what `content_size` states.
    open spec fn measure(&self, bounds: Bounds) -> Size {
        arbitrary()
    }

    /// Whether the node can measure itself within `bounds`.
    fn can_measure(&self, bounds: Bounds) -> (r: bool)
        ensures
            r == self.measurable(bounds),
    ;

    /// The size the node takes within `bounds`, which it never exceeds.
    fn content_size(&self, bounds: Bounds) -> (r: Size)
        requires
            self.measurable(bounds),
        ensures
            r == self.measure(bounds),
            r.width <= bounds.size.width,
            r.height <= bounds.size.height,
    ;
}

/// The empty node takes no room.
impl Drawable for () {
    open spec fn measurable(&self, bounds: Bounds) -> bool {
        true
    }

    open spec fn measure(&self, bounds: Bounds) -> Size {
        Size { width: 0, height: 0 }
    }

    fn can_measure(&self, bounds: Bounds) -> (r: bool) {
        true
    }

    fn content_size(&self, bounds: Bounds) -> (r: Size) {
        Size::new(0, 0)
    }
}

} // verus!
