//! A box around one child: a size within limits, and padding.
use vstd::prelude::*;
use crate::drawable::Drawable;
use crate::geometry::{Bounds, Padding, Size};

verus! {

/// How a block sizes itself. Fields left `None` impose nothing.
#[derive(Debug, Clone, PartialEq, Eq, Structural)]
pub struct Props {
    pub min_width: Option<usize>,
    pub max_width: Option<usize>,
    pub min_height: Option<usize>,
    pub max_height: Option<usize>,
    /// A fixed width, in place of the one the block would take.
    pub width: Option<usize>,
    /// A fixed height, in place of the one the block would take.
    pub height: Option<usize>,
    pub corner_radius: Option<usize>,
    pub padding: Option<Padding>,
}

/// `v` raised to `lo`, then lowered to `hi`, where they are given.
pub open spec fn clamp_spec(v: usize, lo: Option<usize>, hi: Option<usize>) -> usize {
    let raised = match lo {
        Some(m) => if v < m { m } else { v },
        None => v,
    };
    match hi {
        Some(m) => if m < raised { m } else { raised },
        None => raised,
    }
}

fn clamp(v: usize, lo: Option<usize>, hi: Option<usize>) -> (r: usize)
    ensures
        r == clamp_spec(v, lo, hi),
{
    let mut r = v;
    if let Some(m) = lo {
        if r < m {
            r = m;
        }
    }
    if let Some(m) = hi {
        if m < r {
            r = m;
        }
    }
    r
}

/// The smaller of two sizes.
pub open spec fn min_spec(a: usize, b: usize) -> usize {
    if a < b {
        a
    } else {
        b
    }
}

impl Props {
    /// The room a block offers its child before padding: the fixed size, or
    /// else the whole of `bounds`, within the limits.
    pub open spec fn max_child_spec(&self, bounds: Bounds) -> Bounds {
        Bounds {
            position: bounds.position,
            size: Size {
                width: clamp_spec(
                    match self.width {
                        Some(w) => w,
                        None => bounds.size.width,
                    },
                    self.min_width,
                    self.max_width,
                ),
                height: clamp_spec(
                    match self.height {
                        Some(h) => h,
                        None => bounds.size.height,
                    },
                    self.min_height,
                    self.max_height,
                ),
            },
        }
    }

    /// Whether the padding can be taken off that room in machine integers.
    pub open spec fn can_place_child(&self, bounds: Bounds) -> bool {
        self.padding matches Some(p) ==> self.max_child_spec(bounds).can_inset(p)
    }

    /// The room a block offers its child: the room before padding, less
    /// the padding.
    pub open spec fn child_spec(&self, bounds: Bounds) -> Bounds {
        match self.padding {
            Some(p) => self.max_child_spec(bounds).inset_spec(p),
            None => self.max_child_spec(bounds),
        }
    }

    /// The rectangle a block covers when its child takes `child`: the fixed
    /// size, or else the child's, within the limits and within `bounds`.
    pub open spec fn total_spec(&self, bounds: Bounds, child: Size) -> Bounds {
        Bounds {
            position: bounds.position,
            size: Size {
                width: min_spec(
                    clamp_spec(
                        match self.width {
                            Some(w) => w,
                            None => child.width,
                        },
                        self.min_width,
                        self.max_width,
                    ),
                    bounds.size.width,
                ),
                height: min_spec(
                    clamp_spec(
                        match self.height {
                            Some(h) => h,
                            None => child.height,
                        },
                        self.min_height,
                        self.max_height,
                    ),
                    bounds.size.height,
                ),
            },
        }
    }
}

/// A box with one child.
pub struct Block<Child> {
    child: Child,
    props: Props,
}

impl<Child: Drawable> Block<Child> {
    pub closed spec fn child_node(&self) -> Child {
        self.child
    }

    pub closed spec fn props_spec(&self) -> Props {
        self.props
    }

    pub fn new(child: Child, props: Props) -> (r: Block<Child>)
        ensures
            r.child_node() == child,
            r.props_spec() == props,
    {
        Block { child, props }
    }

    pub fn child(&self) -> (r: &Child)
        ensures
            *r == self.child_node(),
    {
        &self.child
    }

    pub fn props(&self) -> (r: &Props)
        ensures
            *r == self.props_spec(),
    {
        &self.props
    }

    /// The room offered to the child before padding.
    pub fn calculate_max_child_bounds(&self, bounds: Bounds) -> (r: Bounds)
        ensures
            r == self.props_spec().max_child_spec(bounds),
    {
        let width = clamp(
            match self.props.width {
                Some(w) => w,
                None => bounds.size.width,
            },
            self.props.min_width,
            self.props.max_width,
        );
        let height = clamp(
            match self.props.height {
                Some(h) => h,
                None => bounds.size.height,
            },
            self.props.min_height,
            self.props.max_height,
        );
        Bounds::new(bounds.position.x, bounds.position.y, width, height)
    }

    /// The room offered to the child.
    pub fn get_child_bounds(&self, bounds: Bounds) -> (r: Bounds)
        requires
            self.props_spec().can_place_child(bounds),
        ensures
            r == self.props_spec().child_spec(bounds),
    {
        let max_child_bounds = self.calculate_max_child_bounds(bounds);
        match &self.props.padding {
            Some(padding) => max_child_bounds.padding_inset(padding),
            None => max_child_bounds,
        }
    }

    /// The rectangle the block covers, which its background fills.
    pub fn get_total_bounds(&self, bounds: Bounds) -> (r: Bounds)
        requires
            self.measurable(bounds),
        ensures
            r == self.props_spec().total_spec(
                bounds,
                self.child_node().measure(self.props_spec().child_spec(bounds)),
            ),
            r.size.width <= bounds.size.width,
            r.size.height <= bounds.size.height,
    {
        let child_size = self.child.content_size(self.get_child_bounds(bounds));
        let width = clamp(
            match self.props.width {
                Some(w) => w,
                None => child_size.width,
            },
            self.props.min_width,
            self.props.max_width,
        );
        let height = clamp(
            match self.props.height {
                Some(h) => h,
                None => child_size.height,
            },
            self.props.min_height,
            self.props.max_height,
        );
        let width = if width < bounds.size.width {
            width
        } else {
            bounds.size.width
        };
        let height = if height < bounds.size.height {
            height
        } else {
            bounds.size.height
        };
        Bounds::new(bounds.position.x, bounds.position.y, width, height)
    }
}

impl<Child: Drawable> Drawable for Block<Child> {
    closed spec fn measurable(&self, bounds: Bounds) -> bool {
        &&& self.props.can_place_child(bounds)
        &&& self.child.measurable(self.props.child_spec(bounds))
    }

    closed spec fn measure(&self, bounds: Bounds) -> Size {
        self.props.total_spec(bounds, self.child.measure(self.props.child_spec(bounds))).size
    }

    fn can_measure(&self, bounds: Bounds) -> (r: bool) {
        let room = self.calculate_max_child_bounds(bounds);
        let fits = match &self.props.padding {
            Some(p) => {
                room.position.x <= usize::MAX - p.left && room.position.y <= usize::MAX - p.top
                    && p.left <= usize::MAX - p.right && p.top <= usize::MAX - p.bottom
            },
            None => true,
        };
        if fits {
            self.child.can_measure(self.get_child_bounds(bounds))
        } else {
            false
        }
    }

    fn content_size(&self, bounds: Bounds) -> (r: Size) {
        self.get_total_bounds(bounds).size
    }
}

} // verus!
