use wunderbar::block::{Block, Props};
use wunderbar::drawable::Drawable;
use wunderbar::geometry::{Bounds, Padding, Size};
use wunderbar::layout::{Direction, Layout, Props as LayoutProps};

fn sized(min_width: usize, min_height: usize) -> Props {
    Props {
        min_width: Some(min_width),
        max_width: None,
        min_height: Some(min_height),
        max_height: None,
        width: None,
        height: None,
        corner_radius: None,
        padding: None,
    }
}

#[test]
fn empty_node_takes_no_room() {
    assert_eq!(().content_size(Bounds::new(0, 0, 10, 10)), Size::new(0, 0));
}

#[test]
fn padded_block_around_block_measures_to_its_minimum() {
    let inner = Block::new((), sized(86, 26));
    let mut outer_props = sized(90, 30);
    outer_props.padding = Some(Padding::uni(2));
    let outer = Block::new(inner, outer_props);
    let bounds = Bounds::new(0, 0, 1728, 40);
    assert!(outer.can_measure(bounds));
    assert_eq!(outer.calculate_max_child_bounds(bounds), Bounds::new(0, 0, 1728, 40));
    assert_eq!(outer.get_child_bounds(bounds), Bounds::new(2, 2, 1724, 36));
    assert_eq!(outer.content_size(bounds), Size::new(90, 30));
    assert_eq!(outer.get_total_bounds(bounds), Bounds::new(0, 0, 90, 30));
}

#[test]
fn block_is_clipped_to_its_bounds() {
    let block = Block::new((), sized(500, 500));
    assert_eq!(block.content_size(Bounds::new(5, 5, 100, 40)), Size::new(100, 40));
}

#[test]
fn fixed_size_wins_over_child_but_not_over_limits() {
    let mut props = sized(0, 0);
    props.width = Some(300);
    props.max_width = Some(200);
    props.height = Some(10);
    let block = Block::new((), props);
    assert_eq!(block.content_size(Bounds::new(0, 0, 1000, 1000)), Size::new(200, 10));
}

#[test]
fn row_places_children_one_after_another() {
    let children = vec![Block::new((), sized(10, 5)), Block::new((), sized(20, 7))];
    let row = Layout::with_children(children, LayoutProps { direction: Direction::Row });
    let bounds = Bounds::new(3, 4, 100, 50);
    assert!(row.can_measure(bounds));
    assert_eq!(row.content_size(bounds), Size::new(30, 50));
    assert_eq!(
        row.child_bounds(bounds),
        vec![Bounds::new(3, 4, 100, 50), Bounds::new(13, 4, 90, 50)]
    );
}

#[test]
fn column_places_children_one_below_another() {
    let children = vec![Block::new((), sized(10, 5)), Block::new((), sized(20, 7))];
    let column = Layout::with_children(children, LayoutProps { direction: Direction::Column });
    let bounds = Bounds::new(3, 4, 100, 50);
    assert_eq!(column.content_size(bounds), Size::new(100, 12));
    assert_eq!(
        column.child_bounds(bounds),
        vec![Bounds::new(3, 4, 100, 50), Bounds::new(3, 9, 100, 45)]
    );
}

#[test]
fn empty_layout_uses_nothing_along_its_axis() {
    let row: Layout<()> = Layout::empty(LayoutProps { direction: Direction::Row });
    assert_eq!(row.content_size(Bounds::new(0, 0, 10, 20)), Size::new(0, 20));
    assert!(row.children().is_empty());
}

#[test]
fn block_whose_padding_overflows_cannot_be_measured() {
    let mut props = sized(0, 0);
    props.padding = Some(Padding::new(usize::MAX, 1, 0, 0));
    let block = Block::new((), props);
    assert!(!block.can_measure(Bounds::new(0, 0, 10, 10)));
}

/// A node of a fixed size, cut down to the room it is given.
struct Fixed(Size);

impl Drawable for Fixed {
    fn can_measure(&self, _bounds: Bounds) -> bool {
        true
    }

    fn content_size(&self, bounds: Bounds) -> Size {
        Size::new(self.0.width.min(bounds.size.width), self.0.height.min(bounds.size.height))
    }
}

#[test]
fn row_stops_growing_at_its_width() {
    let children = vec![Fixed(Size::new(60, 5)), Fixed(Size::new(60, 5)), Fixed(Size::new(60, 5))];
    let row = Layout::with_children(children, LayoutProps { direction: Direction::Row });
    let bounds = Bounds::new(0, 0, 100, 10);
    assert_eq!(row.content_size(bounds), Size::new(100, 10));
    assert_eq!(
        row.child_bounds(bounds),
        vec![Bounds::new(0, 0, 100, 10), Bounds::new(60, 0, 40, 10), Bounds::new(100, 0, 0, 10)]
    );
}

#[test]
fn row_near_the_end_of_the_coordinate_space_cannot_be_measured() {
    let children = vec![Fixed(Size::new(5, 5)), Fixed(Size::new(5, 5))];
    let row = Layout::with_children(children, LayoutProps { direction: Direction::Row });
    assert!(row.can_measure(Bounds::new(usize::MAX - 5, 0, 5, 5)));
    assert!(!row.can_measure(Bounds::new(usize::MAX - 4, 0, 10, 5)));
}
