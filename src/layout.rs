//! Children laid out one after another, in a row or a column.
use vstd::prelude::*;
use crate::drawable::Drawable;
use crate::geometry::{Bounds, Point, Size};

verus! {

/// The axis along which a layout places its children.
#[derive(Debug, Clone, Copy, PartialEq, Eq, Structural)]
pub enum Direction {
    Row,
    Column,
}

#[derive(Debug, Clone, Copy, PartialEq, Eq, Structural)]
pub struct Props {
    pub direction: Direction,
}

/// The room left for a child once `offset` of the main axis is used.
pub open spec fn cell(direction: Direction, bounds: Bounds, offset: int) -> Bounds {
    let Bounds { position: Point { x, y }, size: Size { width, height } } = bounds;
    match direction {
        Direction::Row => Bounds {
            position: Point { x: (x + offset) as usize, y },
            size: Size { width: (width - offset) as usize, height },
        },
        Direction::Column => Bounds {
            position: Point { x, y: (y + offset) as usize },
            size: Size { width, height: (height - offset) as usize },
        },
    }
}

/// The extent of a size along the main axis.
pub open spec fn extent(direction: Direction, size: Size) -> int {
    match direction {
        Direction::Row => size.width as int,
        Direction::Column => size.height as int,
    }
}

/// The room along the main axis.
pub open spec fn room(direction: Direction, bounds: Bounds) -> int {
    extent(direction, bounds.size)
}

/// The coordinate where the main axis starts.
pub open spec fn start(direction: Direction, bounds: Bounds) -> int {
    match direction {
        Direction::Row => bounds.position.x as int,
        Direction::Column => bounds.position.y as int,
    }
}

/// How much of the main axis the first `k` children use.
pub open spec fn offset<C: Drawable>(direction: Direction, children: Seq<C>, bounds: Bounds, k: int) -> int
    decreases k,
{
    if k <= 0 {
        0
    } else {
        let before = offset(direction, children, bounds, k - 1);
        before + extent(direction, children[k - 1].measure(cell(direction, bounds, before)))
    }
}

/// Whether child `i` can be measured in machine integers where it is placed.
pub open spec fn child_measurable<C: Drawable>(
    direction: Direction,
    children: Seq<C>,
    bounds: Bounds,
    i: int,
) -> bool {
    &&& start(direction, bounds) + offset(direction, children, bounds, i) <= usize::MAX
    &&& children[i].measurable(cell(direction, bounds, offset(direction, children, bounds, i)))
}

/// Whether the first `k` children can be measured in turn in machine integers.
pub open spec fn measurable_prefix<C: Drawable>(
    direction: Direction,
    children: Seq<C>,
    bounds: Bounds,
    k: int,
) -> bool {
    forall|i: int| 0 <= i < k ==> #[trigger] child_measurable(direction, children, bounds, i)
}

/// A sequence of children placed one after another.
pub struct Layout<Child> {
    children: Vec<Child>,
    props: Props,
}

impl<Child: Drawable> Layout<Child> {
    pub closed spec fn children_spec(&self) -> Seq<Child> {
        self.children@
    }

    pub closed spec fn props_spec(&self) -> Props {
        self.props
    }

    /// A layout without children.
    pub fn empty(props: Props) -> (r: Layout<Child>)
        ensures
            r.children_spec() == Seq::<Child>::empty(),
            r.props_spec() == props,
    {
        Layout { children: Vec::new(), props }
    }

    pub fn with_children(children: Vec<Child>, props: Props) -> (r: Layout<Child>)
        ensures
            r.children_spec() == children@,
            r.props_spec() == props,
    {
        Layout { children, props }
    }

    pub fn children(&self) -> (r: &Vec<Child>)
        ensures
            r@ == self.children_spec(),
    {
        &self.children
    }

    /// The room each child is measured and painted in, in order: each child
    /// starts where the ones before it end along the main axis.
    pub fn child_bounds(&self, bounds: Bounds) -> (r: Vec<Bounds>)
        requires
            self.measurable(bounds),
        ensures
            r@.len() == self.children_spec().len(),
            forall|i: int|
                0 <= i < r@.len() ==> r@[i] == cell(
                    self.props_spec().direction,
                    bounds,
                    offset(self.props_spec().direction, self.children_spec(), bounds, i),
                ),
    {
        let (_used, cells) = self.place(bounds);
        cells
    }

    fn place(&self, bounds: Bounds) -> (r: (usize, Vec<Bounds>))
        requires
            self.measurable(bounds),
        ensures
            r.0 == offset(self.props.direction, self.children@, bounds, self.children@.len() as int),
            r.0 <= room(self.props.direction, bounds),
            r.1@.len() == self.children@.len(),
            forall|i: int|
                0 <= i < r.1@.len() ==> r.1@[i] == cell(
                    self.props.direction,
                    bounds,
                    offset(self.props.direction, self.children@, bounds, i),
                ),
    {
        let direction = self.props.direction;
        let x = bounds.position.x;
        let y = bounds.position.y;
        let width = bounds.size.width;
        let height = bounds.size.height;
        let mut used: usize = 0;
        let mut cells: Vec<Bounds> = Vec::new();
        let mut i: usize = 0;
        while i < self.children.len()
            invariant
                self.measurable(bounds),
                direction == self.props.direction,
                bounds == (Bounds { position: Point { x, y }, size: Size { width, height } }),
                i <= self.children@.len(),
                used == offset(direction, self.children@, bounds, i as int),
                used <= room(direction, bounds),
                cells@.len() == i,
                forall|j: int|
                    0 <= j < i ==> cells@[j] == cell(
                        direction,
                        bounds,
                        offset(direction, self.children@, bounds, j),
                    ),
            decreases self.children@.len() - i,
        {
            proof {
                assert(measurable_prefix(direction, self.children@, bounds, self.children@.len() as int));
                assert(child_measurable(direction, self.children@, bounds, i as int));
            }
            let child_bounds = match direction {
                Direction::Row => Bounds::new(x + used, y, width - used, height),
                Direction::Column => Bounds::new(x, y + used, width, height - used),
            };
            let child_size = self.children[i].content_size(child_bounds);
            match direction {
                Direction::Row => {
                    used = used + child_size.width;
                },
                Direction::Column => {
                    used = used + child_size.height;
                },
            }
            cells.push(child_bounds);
            i = i + 1;
        }
        (used, cells)
    }
}

impl<Child: Drawable> Drawable for Layout<Child> {
    closed spec fn measurable(&self, bounds: Bounds) -> bool {
        measurable_prefix(self.props.direction, self.children@, bounds, self.children@.len() as int)
    }

    closed spec fn measure(&self, bounds: Bounds) -> Size {
        let used = offset(self.props.direction, self.children@, bounds, self.children@.len() as int);
        match self.props.direction {
            Direction::Row => Size { width: used as usize, height: bounds.size.height },
            Direction::Column => Size { width: bounds.size.width, height: used as usize },
        }
    }

    fn can_measure(&self, bounds: Bounds) -> (r: bool) {
        let direction = self.props.direction;
        let x = bounds.position.x;
        let y = bounds.position.y;
        let width = bounds.size.width;
        let height = bounds.size.height;
        let mut used: usize = 0;
        let mut i: usize = 0;
        while i < self.children.len()
            invariant
                direction == self.props.direction,
                bounds == (Bounds { position: Point { x, y }, size: Size { width, height } }),
                i <= self.children@.len(),
                used == offset(direction, self.children@, bounds, i as int),
                used <= room(direction, bounds),
                measurable_prefix(direction, self.children@, bounds, i as int),
            decreases self.children@.len() - i,
        {
            let origin = match direction {
                Direction::Row => x,
                Direction::Column => y,
            };
            if origin > usize::MAX - used {
                proof {
                    if measurable_prefix(direction, self.children@, bounds, self.children@.len() as int) {
                        assert(child_measurable(direction, self.children@, bounds, i as int));
                    }
                }
                return false;
            }
            let child_bounds = match direction {
                Direction::Row => Bounds::new(x + used, y, width - used, height),
                Direction::Column => Bounds::new(x, y + used, width, height - used),
            };
            if !self.children[i].can_measure(child_bounds) {
                proof {
                    if measurable_prefix(direction, self.children@, bounds, self.children@.len() as int) {
                        assert(child_measurable(direction, self.children@, bounds, i as int));
                    }
                }
                return false;
            }
            let child_size = self.children[i].content_size(child_bounds);
            match direction {
                Direction::Row => {
                    used = used + child_size.width;
                },
                Direction::Column => {
                    used = used + child_size.height;
                },
            }
            proof {
                let k = i as int;
                let ch = self.children@;
                assert(child_bounds == cell(direction, bounds, offset(direction, ch, bounds, k)));
                assert(child_measurable(direction, ch, bounds, k));
                assert forall|j: int| 0 <= j < k + 1 implies #[trigger] child_measurable(
                    direction,
                    ch,
                    bounds,
                    j,
                ) by {
                    if j < k {
                        assert(child_measurable(direction, ch, bounds, j));
                    }
                }
            }
            i = i + 1;
        }
        true
    }

    fn content_size(&self, bounds: Bounds) -> (r: Size) {
        let (used, _cells) = self.place(bounds);
        match self.props.direction {
            Direction::Row => Size::new(used, bounds.size.height),
            Direction::Column => Size::new(bounds.size.width, used),
        }
    }
}

} // verus!
