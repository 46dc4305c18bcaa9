use carbide::position::{Dimension, Position};
use carbide::scalar::Scalar;
use carbide::stack::{
    children_in_sizing_order, position_children_hstack, position_children_stack, position_children_vstack,
    CrossAxisAlignment, StackAxis, StackChild, StackSizing,
};

fn s(v: f64) -> Scalar {
    Scalar::from_bits(v.to_bits())
}

fn f(v: Scalar) -> f64 {
    f64::from_bits(v.to_bits())
}

fn dim(w: f64, h: f64) -> Dimension {
    Dimension::new(s(w), s(h))
}

fn child(is_spacer: bool, flexibility: u32, w: f64, h: f64) -> StackChild {
    StackChild { is_spacer, flexibility, position: Position::new(s(-1.0), s(-1.0)), dimension: dim(w, h) }
}

fn positions(children: &[StackChild]) -> Vec<(f64, f64)> {
    children.iter().map(|c| (f(c.position.x), f(c.position.y))).collect()
}

fn sizes(d: Dimension) -> (f64, f64) {
    (f(d.width), f(d.height))
}

fn row() -> Vec<StackChild> {
    vec![child(false, 0, 20.0, 10.0), child(true, 0, 5.0, 0.0), child(false, 0, 20.0, 30.0), child(false, 0, 10.0, 50.0)]
}

#[test]
fn hstack_places_children_along_x_with_spacing_between_non_spacers() {
    let mut children = row();
    position_children_hstack(Position::new(s(10.0), s(20.0)), dim(100.0, 50.0), &mut children, s(2.0), CrossAxisAlignment::Start);
    assert_eq!(positions(&children), vec![(10.0, 20.0), (30.0, 20.0), (35.0, 20.0), (57.0, 20.0)]);
    assert_eq!(sizes(children[2].dimension), (20.0, 30.0));
    assert!(children[1].is_spacer);
}

#[test]
fn cross_axis_alignment_centers_or_ends() {
    let mut centered = row();
    position_children_hstack(Position::new(s(10.0), s(20.0)), dim(100.0, 50.0), &mut centered, s(2.0), CrossAxisAlignment::Center);
    assert_eq!(positions(&centered), vec![(10.0, 40.0), (30.0, 45.0), (35.0, 30.0), (57.0, 20.0)]);
    let mut ended = row();
    position_children_stack(StackAxis::Horizontal, Position::new(s(10.0), s(20.0)), dim(100.0, 50.0), &mut ended, CrossAxisAlignment::End, s(2.0));
    assert_eq!(positions(&ended), vec![(10.0, 60.0), (30.0, 70.0), (35.0, 40.0), (57.0, 20.0)]);
}

#[test]
fn vstack_places_children_along_y() {
    let mut children = vec![child(false, 0, 10.0, 20.0), child(false, 0, 30.0, 5.0), child(false, 0, 8.0, 1.5)];
    position_children_vstack(Position::new(s(1.0), s(2.0)), dim(40.0, 100.0), &mut children, s(0.5), CrossAxisAlignment::End);
    assert_eq!(positions(&children), vec![(31.0, 2.0), (11.0, 22.5), (33.0, 28.0)]);
}

#[test]
fn empty_stack_places_nothing() {
    let mut children: Vec<StackChild> = vec![];
    position_children_vstack(Position::new(s(1.0), s(2.0)), dim(40.0, 100.0), &mut children, s(0.5), CrossAxisAlignment::Center);
    assert!(children.is_empty());
}

#[test]
fn sizing_order_puts_flexible_children_first_and_skips_spacers() {
    let children = vec![
        child(false, 1, 0.0, 0.0),
        child(true, 9, 0.0, 0.0),
        child(false, 3, 0.0, 0.0),
        child(false, 1, 0.0, 0.0),
        child(false, 3, 0.0, 0.0),
    ];
    assert_eq!(children_in_sizing_order(&children), vec![2, 4, 0, 3]);
    assert!(children_in_sizing_order(&vec![child(true, 2, 0.0, 0.0)]).is_empty());
}

#[test]
fn vstack_sizing_shares_the_height_and_takes_the_widest_child() {
    let children = vec![child(false, 1, 0.0, 0.0), child(true, 0, 0.0, 0.0), child(false, 3, 0.0, 0.0)];
    let mut sizing = StackSizing::new(StackAxis::Vertical, &children, s(4.0), dim(80.0, 100.0));
    assert_eq!(sizing.children_left, 2);
    assert_eq!(sizing.spacer_count, 1);
    assert_eq!(f(sizing.spacing_total), 0.0);
    assert_eq!(sizes(sizing.request()), (80.0, 50.0));
    sizing.child_sized(dim(60.0, 30.0));
    assert_eq!(sizes(sizing.request()), (80.0, 70.0));
    sizing.child_sized(dim(90.0, 80.0));
    assert_eq!(sizing.children_left, 0);
    assert_eq!(sizes(sizing.size_for_children), (80.0, 0.0));
    assert_eq!(sizes(sizing.spacer_request()), (0.0, -10.0));
    sizing.spacer_sized(dim(0.0, 0.0));
    assert_eq!(sizes(sizing.dimension()), (90.0, 110.0));
}

#[test]
fn hstack_sizing_counts_spacing_between_non_spacers_only() {
    let children = vec![child(false, 0, 0.0, 0.0), child(false, 0, 0.0, 0.0), child(true, 0, 0.0, 0.0), child(false, 0, 0.0, 0.0)];
    let mut sizing = StackSizing::new(StackAxis::Horizontal, &children, s(5.0), dim(95.0, 40.0));
    assert_eq!(f(sizing.spacing_total), 5.0);
    assert_eq!(sizes(sizing.request()), (30.0, 40.0));
    for _ in 0..3 {
        sizing.child_sized(dim(10.0, 12.0));
    }
    assert_eq!(sizes(sizing.spacer_request()), (60.0, 0.0));
    sizing.spacer_sized(dim(60.0, 0.0));
    assert_eq!(sizes(sizing.dimension()), (95.0, 12.0));
}

#[test]
fn a_nan_size_neither_becomes_the_largest_nor_leaves_negative_room() {
    let children = vec![child(false, 0, 0.0, 0.0), child(false, 0, 0.0, 0.0)];
    let mut sizing = StackSizing::new(StackAxis::Horizontal, &children, s(0.0), dim(10.0, 10.0));
    sizing.child_sized(dim(f64::NAN, f64::NAN));
    assert_eq!(f(sizing.max_cross_axis), 0.0);
    assert_eq!(f(sizing.size_for_children.width), 0.0);
    sizing.child_sized(dim(3.0, 7.0));
    assert_eq!(f(sizing.max_cross_axis), 7.0);
    assert!(f(sizing.total_main_axis).is_nan());
}

#[test]
fn room_left_never_goes_below_zero() {
    let children = vec![child(false, 0, 0.0, 0.0), child(false, 0, 0.0, 0.0)];
    let mut sizing = StackSizing::new(StackAxis::Vertical, &children, s(0.0), dim(10.0, 10.0));
    sizing.child_sized(dim(1.0, 25.0));
    assert_eq!(f(sizing.size_for_children.height).to_bits(), 0.0f64.to_bits());
    assert_eq!(sizes(sizing.request()), (10.0, 0.0));
}
