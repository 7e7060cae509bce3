//! Integer screen geometry: points, sizes, rectangles and paddings.
use vstd::prelude::*;

verus! {

/// A position on screen, in points.
#[derive(Debug, Copy, Clone, PartialEq, Eq, Structural)]
pub struct Point {
    pub x: usize,
    pub y: usize,
}

impl Point {
    pub fn new(x: usize, y: usize) -> (r: Point)
        ensures
            r == (Point { x, y }),
    {
        Point { x, y }
    }

    pub fn origin() -> (r: Point)
        ensures
            r == (Point { x: 0, y: 0 }),
    {
        Point { x: 0, y: 0 }
    }

    /// Moves the point right by `dx` and down by `dy`.
    pub fn translate(self, dx: usize, dy: usize) -> (r: Point)
        requires
            self.x + dx <= usize::MAX,
            self.y + dy <= usize::MAX,
        ensures
            r.x == self.x + dx,
            r.y == self.y + dy,
    {
        Point { x: self.x + dx, y: self.y + dy }
    }

    pub fn translate_x(self, dx: usize) -> (r: Point)
        requires
            self.x + dx <= usize::MAX,
        ensures
            r == (Point { x: (self.x + dx) as usize, y: self.y }),
    {
        self.translate(dx, 0)
    }

    pub fn translate_y(self, dy: usize) -> (r: Point)
        requires
            self.y + dy <= usize::MAX,
        ensures
            r == (Point { x: self.x, y: (self.y + dy) as usize }),
    {
        self.translate(0, dy)
    }
}

/// An extent on screen, in points.
#[derive(Debug, Copy, Clone, PartialEq, Eq, Structural)]
pub struct Size {
    pub width: usize,
    pub height: usize,
}

impl Size {
    pub fn new(width: usize, height: usize) -> (r: Size)
        ensures
            r == (Size { width, height }),
    {
        Size { width, height }
    }

    pub fn zero() -> (r: Size)
        ensures
            r == (Size { width: 0, height: 0 }),
    {
        Size { width: 0, height: 0 }
    }

    /// Grows the size by the given amounts.
    pub fn expand(self, expand_by_width: usize, expand_by_height: usize) -> (r: Size)
        requires
            self.width + expand_by_width <= usize::MAX,
            self.height + expand_by_height <= usize::MAX,
        ensures
            r.width == self.width + expand_by_width,
            r.height == self.height + expand_by_height,
    {
        Size { width: self.width + expand_by_width, height: self.height + expand_by_height }
    }

    pub fn expand_width(self, expand_by_width: usize) -> (r: Size)
        requires
            self.width + expand_by_width <= usize::MAX,
        ensures
            r == (Size { width: (self.width + expand_by_width) as usize, height: self.height }),
    {
        self.expand(expand_by_width, 0)
    }

    pub fn expand_height(self, expand_by_height: usize) -> (r: Size)
        requires
            self.height + expand_by_height <= usize::MAX,
        ensures
            r == (Size { width: self.width, height: (self.height + expand_by_height) as usize }),
    {
        self.expand(0, expand_by_height)
    }

    /// Shrinks the size by the given amounts, which must not exceed it.
    pub fn contract(self, contract_by_width: usize, contract_by_height: usize) -> (r: Size)
        requires
            contract_by_width <= self.width,
            contract_by_height <= self.height,
        ensures
            r.width == self.width - contract_by_width,
            r.height == self.height - contract_by_height,
    {
        Size { width: self.width - contract_by_width, height: self.height - contract_by_height }
    }

    pub fn contract_width(self, contract_by_width: usize) -> (r: Size)
        requires
            contract_by_width <= self.width,
        ensures
            r == (Size { width: (self.width - contract_by_width) as usize, height: self.height }),
    {
        self.contract(contract_by_width, 0)
    }

    pub fn contract_height(self, contract_by_height: usize) -> (r: Size)
        requires
            contract_by_height <= self.height,
        ensures
            r == (Size { width: self.width, height: (self.height - contract_by_height) as usize }),
    {
        self.contract(0, contract_by_height)
    }
}

/// A rectangle: its top-left corner and its size.
#[derive(Debug, Copy, Clone, PartialEq, Eq, Structural)]
pub struct Bounds {
    pub position: Point,
    pub size: Size,
}

/// `a - b`, or zero where `b` exceeds `a`.
pub open spec fn sub_or_zero(a: int, b: int) -> int {
    if b <= a {
        a - b
    } else {
        0
    }
}

impl Bounds {
    pub fn new(pos_x: usize, pos_y: usize, width: usize, height: usize) -> (r: Bounds)
        ensures
            r == (Bounds {
                position: Point { x: pos_x, y: pos_y },
                size: Size { width, height },
            }),
    {
        Bounds { position: Point::new(pos_x, pos_y), size: Size::new(width, height) }
    }

    pub fn new_at_origin(width: usize, height: usize) -> (r: Bounds)
        ensures
            r == (Bounds { position: Point { x: 0, y: 0 }, size: Size { width, height } }),
    {
        Bounds { position: Point::origin(), size: Size::new(width, height) }
    }

    pub fn new_with_zero_size(pos_x: usize, pos_y: usize) -> (r: Bounds)
        ensures
            r == (Bounds { position: Point { x: pos_x, y: pos_y }, size: Size { width: 0, height: 0 } }),
    {
        Bounds { position: Point::new(pos_x, pos_y), size: Size::zero() }
    }

    /// Whether `padding_inset` can compute its result in machine integers.
    pub open spec fn can_inset(self, padding: Padding) -> bool {
        &&& self.position.x + padding.left <= usize::MAX
        &&& self.position.y + padding.top <= usize::MAX
        &&& padding.left + padding.right <= usize::MAX
        &&& padding.top + padding.bottom <= usize::MAX
    }

    /// The rectangle inside `self` once `padding` is taken off each side: its
    /// corner moves by the left and top padding, and its size shrinks by the
    /// padding on both sides, to no less than zero.
    pub open spec fn inset_spec(self, padding: Padding) -> Bounds {
        Bounds {
            position: Point {
                x: (self.position.x + padding.left) as usize,
                y: (self.position.y + padding.top) as usize,
            },
            size: Size {
                width: sub_or_zero(self.size.width as int, padding.left + padding.right) as usize,
                height: sub_or_zero(self.size.height as int, padding.top + padding.bottom) as usize,
            },
        }
    }

    pub fn padding_inset(self, padding: &Padding) -> (r: Bounds)
        requires
            self.can_inset(*padding),
        ensures
            r == self.inset_spec(*padding),
    {
        let x = self.position.x;
        let y = self.position.y;
        let width = self.size.width;
        let height = self.size.height;
        let horizontal = padding.left + padding.right;
        let vertical = padding.top + padding.bottom;

        Bounds {
            position: Point { x: x + padding.left, y: y + padding.top },
            size: Size {
                width: match width.checked_sub(horizontal) {
                    Some(w) => w,
                    None => 0,
                },
                height: match height.checked_sub(vertical) {
                    Some(h) => h,
                    None => 0,
                },
            },
        }
    }
}

/// Space kept clear on each side of a rectangle.
#[derive(Debug, Clone, PartialEq, Eq, PartialOrd, Ord, Structural)]
pub struct Padding {
    pub left: usize,
    pub right: usize,
    pub top: usize,
    pub bottom: usize,
}

impl Padding {
    pub fn new(left: usize, right: usize, top: usize, bottom: usize) -> (r: Padding)
        ensures
            r == (Padding { left, right, top, bottom }),
    {
        Padding { left, right, top, bottom }
    }

    /// The same padding on every side.
    pub fn uni(padding: usize) -> (r: Padding)
        ensures
            r == (Padding { left: padding, right: padding, top: padding, bottom: padding }),
    {
        Padding { left: padding, right: padding, top: padding, bottom: padding }
    }

    /// `y_padding` above and below, `x_padding` left and right.
    pub fn yx(y_padding: usize, x_padding: usize) -> (r: Padding)
        ensures
            r == (Padding { left: x_padding, right: x_padding, top: y_padding, bottom: y_padding }),
    {
        Padding { left: x_padding, right: x_padding, top: y_padding, bottom: y_padding }
    }
}

} // verus!
