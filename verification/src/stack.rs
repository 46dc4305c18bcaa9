use vstd::prelude::*;

use crate::position::{Dimension, Position};
use crate::scalar::{
    binary64_add, binary64_div, binary64_from_u64, binary64_mul, binary64_sub, lt, Scalar, TWO_BITS,
    ZERO_BITS,
};

verus! {

/// The number of gaps between neighbouring children of a stack that are both
/// not spacers (`non_spacers[i]` tells whether child `i` is not a spacer).
pub open spec fn spaces(non_spacers: Seq<bool>) -> nat
    decreases non_spacers.len(),
{
    if non_spacers.len() < 2 {
        0
    } else {
        let n = non_spacers.len();
        spaces(non_spacers.drop_last()) + (if non_spacers[n - 2] && non_spacers[n - 1] {
            1nat
        } else {
            0nat
        })
    }
}

/// Child `a` is sized before child `b`: it is more flexible, or as flexible
/// and earlier.
pub open spec fn sized_before(flexibilities: Seq<u32>, a: int, b: int) -> bool {
    flexibilities[a] > flexibilities[b] || (flexibilities[a] == flexibilities[b] && a < b)
}

/// The number of places where spacing goes between the children of a stack:
/// one between each two neighbours that are both not spacers.
pub fn count_spaces(non_spacers: &Vec<bool>) -> (r: usize)
    ensures
        r == spaces(non_spacers@),
        r <= non_spacers@.len(),
{
    let n = non_spacers.len();
    let mut count: usize = 0;
    let mut i: usize = 1;
    if n < 2 {
        return 0;
    }
    while i < n
        invariant
            1 <= i <= n,
            n == non_spacers@.len(),
            count == spaces(non_spacers@.take(i as int)),
            count < i,
        decreases n - i,
    {
        assert(non_spacers@.take(i + 1).drop_last() == non_spacers@.take(i as int));
        if non_spacers[i - 1] && non_spacers[i] {
            count = count + 1;
        }
        i = i + 1;
    }
    assert(non_spacers@.take(n as int) == non_spacers@);
    count
}

/// The order in which the children that need sizing are sized: by
/// flexibility, most flexible first, children of equal flexibility in their
/// own order. The result holds each index of `flexibilities` once.
pub fn sizing_order(flexibilities: &Vec<u32>) -> (order: Vec<usize>)
    ensures
        order@.len() == flexibilities@.len(),
        forall|i: int| 0 <= i < order@.len() ==> #[trigger] order@[i] < flexibilities@.len(),
        forall|i: int, j: int|
            0 <= i < j < order@.len() ==> sized_before(
                flexibilities@,
                #[trigger] order@[i] as int,
                #[trigger] order@[j] as int,
            ),
{
    let n = flexibilities.len();
    let mut order: Vec<usize> = Vec::new();
    let mut k: usize = 0;
    while k < n
        invariant
            k <= n,
            n == flexibilities@.len(),
            order@.len() == k,
            forall|i: int| 0 <= i < order@.len() ==> #[trigger] order@[i] < k,
            forall|i: int, j: int|
                0 <= i < j < order@.len() ==> sized_before(
                    flexibilities@,
                    #[trigger] order@[i] as int,
                    #[trigger] order@[j] as int,
                ),
        decreases n - k,
    {
        let f = flexibilities[k];
        let mut p: usize = 0;
        while p < order.len() && flexibilities[order[p]] >= f
            invariant
                p <= order@.len(),
                order@.len() == k,
                n == flexibilities@.len(),
                k < n,
                f == flexibilities@[k as int],
                forall|i: int| 0 <= i < order@.len() ==> #[trigger] order@[i] < k,
                forall|i: int| 0 <= i < p ==> flexibilities@[#[trigger] order@[i] as int] >= f,
            decreases order@.len() - p,
        {
            p = p + 1;
        }
        let ghost before = order@;
        proof {
            if p < before.len() {
                assert(flexibilities@[before[p as int] as int] < f);
                assert forall|j: int| p <= j < before.len() implies flexibilities@[#[trigger] before[j] as int] < f by {
                    if j > p {
                        assert(sized_before(flexibilities@, before[p as int] as int, before[j] as int));
                    }
                }
            }
        }
        order.insert(p, k);
        proof {
            assert forall|i: int, j: int|
                0 <= i < j < order@.len() implies sized_before(
                flexibilities@,
                #[trigger] order@[i] as int,
                #[trigger] order@[j] as int,
            ) by {
                if j < p {
                    assert(order@[i] == before[i] && order@[j] == before[j]);
                } else if j == p {
                    assert(order@[i] == before[i]);
                } else if i < p {
                    assert(order@[i] == before[i] && order@[j] == before[j - 1]);
                } else if i == p {
                    assert(order@[j] == before[j - 1]);
                } else {
                    assert(order@[i] == before[i - 1] && order@[j] == before[j - 1]);
                }
            }
        }
        k = k + 1;
    }
    order
}

/// The axis along which a stack lines up its children: a horizontal stack
/// along x (widths), a vertical one along y (heights).
#[derive(Clone, Copy, Debug, PartialEq, Eq, Structural)]
pub enum StackAxis {
    Horizontal,
    Vertical,
}

/// Where the children of a stack stand across its axis.
#[derive(Clone, Copy, Debug, PartialEq, Eq, Structural)]
pub enum CrossAxisAlignment {
    Start,
    Center,
    End,
}

/// A child of a stack as the stack sees it: whether it is a spacer, how
/// flexible it is, and where it stands and how large it is.
#[derive(Clone, Copy, Debug)]
pub struct StackChild {
    pub is_spacer: bool,
    pub flexibility: u32,
    pub position: Position,
    pub dimension: Dimension,
}

/// The coordinate of `p` along the axis.
pub open spec fn main_position(axis: StackAxis, p: Position) -> u64 {
    match axis {
        StackAxis::Horizontal => p.x.bits,
        StackAxis::Vertical => p.y.bits,
    }
}

/// The coordinate of `p` across the axis.
pub open spec fn cross_position(axis: StackAxis, p: Position) -> u64 {
    match axis {
        StackAxis::Horizontal => p.y.bits,
        StackAxis::Vertical => p.x.bits,
    }
}

/// The length of `d` along the axis.
pub open spec fn main_length(axis: StackAxis, d: Dimension) -> u64 {
    match axis {
        StackAxis::Horizontal => d.width.bits,
        StackAxis::Vertical => d.height.bits,
    }
}

/// The length of `d` across the axis.
pub open spec fn cross_length(axis: StackAxis, d: Dimension) -> u64 {
    match axis {
        StackAxis::Horizontal => d.height.bits,
        StackAxis::Vertical => d.width.bits,
    }
}

/// The point with the coordinate `main` along the axis and `cross` across it.
pub open spec fn position_from(axis: StackAxis, main: u64, cross: u64) -> Position {
    match axis {
        StackAxis::Horizontal => Position { x: Scalar { bits: main }, y: Scalar { bits: cross } },
        StackAxis::Vertical => Position { x: Scalar { bits: cross }, y: Scalar { bits: main } },
    }
}

/// The size with the length `main` along the axis and `cross` across it.
pub open spec fn dimension_from(axis: StackAxis, main: u64, cross: u64) -> Dimension {
    match axis {
        StackAxis::Horizontal => Dimension { width: Scalar { bits: main }, height: Scalar { bits: cross } },
        StackAxis::Vertical => Dimension { width: Scalar { bits: cross }, height: Scalar { bits: main } },
    }
}

fn x(position: Position) -> (r: Scalar)
    ensures
        r == position.x,
{
    position.x
}

fn y(position: Position) -> (r: Scalar)
    ensures
        r == position.y,
{
    position.y
}

fn x_y(main_axis: Scalar, cross_axis: Scalar) -> (p: Position)
    ensures
        p == position_from(StackAxis::Horizontal, main_axis.bits, cross_axis.bits),
{
    Position::new(main_axis, cross_axis)
}

fn y_x(main_axis: Scalar, cross_axis: Scalar) -> (p: Position)
    ensures
        p == position_from(StackAxis::Vertical, main_axis.bits, cross_axis.bits),
{
    Position::new(cross_axis, main_axis)
}

fn height(dimension: Dimension) -> (r: Scalar)
    ensures
        r == dimension.height,
{
    dimension.height
}

fn width(dimension: Dimension) -> (r: Scalar)
    ensures
        r == dimension.width,
{
    dimension.width
}

fn height_width(main_axis: Scalar, cross_axis: Scalar) -> (d: Dimension)
    ensures
        d == dimension_from(StackAxis::Vertical, main_axis.bits, cross_axis.bits),
{
    Dimension::new(cross_axis, main_axis)
}

fn width_height(main_axis: Scalar, cross_axis: Scalar) -> (d: Dimension)
    ensures
        d == dimension_from(StackAxis::Horizontal, main_axis.bits, cross_axis.bits),
{
    Dimension::new(main_axis, cross_axis)
}

impl StackAxis {
    fn main_position(self, p: Position) -> (r: Scalar)
        ensures
            r.bits == main_position(self, p),
    {
        match self {
            StackAxis::Horizontal => x(p),
            StackAxis::Vertical => y(p),
        }
    }

    fn cross_position(self, p: Position) -> (r: Scalar)
        ensures
            r.bits == cross_position(self, p),
    {
        match self {
            StackAxis::Horizontal => y(p),
            StackAxis::Vertical => x(p),
        }
    }

    fn main_length(self, d: Dimension) -> (r: Scalar)
        ensures
            r.bits == main_length(self, d),
    {
        match self {
            StackAxis::Horizontal => width(d),
            StackAxis::Vertical => height(d),
        }
    }

    fn cross_length(self, d: Dimension) -> (r: Scalar)
        ensures
            r.bits == cross_length(self, d),
    {
        match self {
            StackAxis::Horizontal => height(d),
            StackAxis::Vertical => width(d),
        }
    }

    fn position_from(self, main: Scalar, cross: Scalar) -> (p: Position)
        ensures
            p == position_from(self, main.bits, cross.bits),
    {
        match self {
            StackAxis::Horizontal => x_y(main, cross),
            StackAxis::Vertical => y_x(main, cross),
        }
    }

    fn dimension_from(self, main: Scalar, cross: Scalar) -> (d: Dimension)
        ensures
            d == dimension_from(self, main.bits, cross.bits),
    {
        match self {
            StackAxis::Horizontal => width_height(main, cross),
            StackAxis::Vertical => height_width(main, cross),
        }
    }
}

/// Spacing follows child `n`: neither it nor the next child is a spacer.
pub open spec fn spaced_after(children: Seq<StackChild>, n: int) -> bool {
    !children[n].is_spacer && n + 1 < children.len() && !children[n + 1].is_spacer
}

/// How far along the axis child `n` stands from the start of the stack: the
/// lengths of the children before it, each followed by the spacing where
/// spacing follows it, summed in binary64 from 0 in their order.
pub open spec fn main_offset(axis: StackAxis, children: Seq<StackChild>, spacing: u64, n: nat) -> u64
    decreases n,
{
    if n == 0 {
        ZERO_BITS
    } else {
        let k = n - 1;
        let before = main_offset(axis, children, spacing, k as nat);
        let spaced = if spaced_after(children, k) {
            binary64_add(before, spacing)
        } else {
            before
        };
        binary64_add(spaced, main_length(axis, children[k].dimension))
    }
}

/// The coordinate across the axis of a child of length `child_cross` across
/// it, in a stack at `position` of size `dimension`.
pub open spec fn aligned_cross(
    axis: StackAxis,
    alignment: CrossAxisAlignment,
    position: Position,
    dimension: Dimension,
    child_cross: u64,
) -> u64 {
    let start = cross_position(axis, position);
    let across = cross_length(axis, dimension);
    match alignment {
        CrossAxisAlignment::Start => start,
        CrossAxisAlignment::Center => binary64_sub(
            binary64_add(start, binary64_div(across, TWO_BITS)),
            binary64_div(child_cross, TWO_BITS),
        ),
        CrossAxisAlignment::End => binary64_sub(binary64_add(start, across), child_cross),
    }
}

/// Where child `n` of a stack at `position` of size `dimension` goes.
pub open spec fn stacked_position(
    axis: StackAxis,
    alignment: CrossAxisAlignment,
    position: Position,
    dimension: Dimension,
    children: Seq<StackChild>,
    spacing: u64,
    n: int,
) -> Position {
    position_from(
        axis,
        binary64_add(main_position(axis, position), main_offset(axis, children, spacing, n as nat)),
        aligned_cross(axis, alignment, position, dimension, cross_length(axis, children[n].dimension)),
    )
}

/// Places the children of a stack at `position` of size `dimension` one after
/// the other along `axis`, in their order, with `spacing` between two
/// neighbours that are both not spacers, and across the axis as
/// `cross_axis_alignment` says. Only the children's positions change.
pub fn position_children_stack(
    axis: StackAxis,
    position: Position,
    dimension: Dimension,
    children: &mut Vec<StackChild>,
    cross_axis_alignment: CrossAxisAlignment,
    spacing: Scalar,
)
    ensures
        final(children)@.len() == old(children)@.len(),
        forall|n: int|
            0 <= n < old(children)@.len() ==> #[trigger] final(children)@[n] == (StackChild {
                position: stacked_position(
                    axis,
                    cross_axis_alignment,
                    position,
                    dimension,
                    old(children)@,
                    spacing.bits,
                    n,
                ),
                ..old(children)@[n]
            }),
{
    let ghost before = children@;
    let two = Scalar::from_bits(TWO_BITS);
    let mut main_axis_offset = Scalar::zero();
    let spacers_len = children.len();
    let mut n: usize = 0;
    while n < children.len()
        invariant
            n <= children@.len(),
            spacers_len == children@.len(),
            children@.len() == before.len(),
            two.bits == TWO_BITS,
            main_axis_offset.bits == main_offset(axis, before, spacing.bits, n as nat),
            forall|k: int|
                0 <= k < n ==> #[trigger] children@[k] == (StackChild {
                    position: stacked_position(
                        axis,
                        cross_axis_alignment,
                        position,
                        dimension,
                        before,
                        spacing.bits,
                        k,
                    ),
                    ..before[k]
                }),
            forall|k: int| n <= k < children@.len() ==> #[trigger] children@[k] == before[k],
        decreases children@.len() - n,
    {
        let child = children[n];
        let cross = match cross_axis_alignment {
            CrossAxisAlignment::Start => axis.cross_position(position),
            CrossAxisAlignment::Center => {
                axis.cross_position(position).add(axis.cross_length(dimension).div(two)).sub(
                    axis.cross_length(child.dimension).div(two),
                )
            },
            CrossAxisAlignment::End => {
                axis.cross_position(position).add(axis.cross_length(dimension)).sub(
                    axis.cross_length(child.dimension),
                )
            },
        };
        let placed = axis.position_from(axis.main_position(position).add(main_axis_offset), cross);
        children.set(n, StackChild { position: placed, ..child });
        if !child.is_spacer && n < spacers_len - 1 && !children[n + 1].is_spacer {
            main_axis_offset = main_axis_offset.add(spacing);
        }
        main_axis_offset = main_axis_offset.add(axis.main_length(child.dimension));
        n = n + 1;
    }
}

/// [`position_children_stack`] along y.
pub fn position_children_vstack(
    position: Position,
    dimension: Dimension,
    children: &mut Vec<StackChild>,
    spacing: Scalar,
    cross_axis_alignment: CrossAxisAlignment,
)
    ensures
        final(children)@.len() == old(children)@.len(),
        forall|n: int|
            0 <= n < old(children)@.len() ==> #[trigger] final(children)@[n] == (StackChild {
                position: stacked_position(
                    StackAxis::Vertical,
                    cross_axis_alignment,
                    position,
                    dimension,
                    old(children)@,
                    spacing.bits,
                    n,
                ),
                ..old(children)@[n]
            }),
{
    position_children_stack(StackAxis::Vertical, position, dimension, children, cross_axis_alignment, spacing);
}

/// [`position_children_stack`] along x.
pub fn position_children_hstack(
    position: Position,
    dimension: Dimension,
    children: &mut Vec<StackChild>,
    spacing: Scalar,
    cross_axis_alignment: CrossAxisAlignment,
)
    ensures
        final(children)@.len() == old(children)@.len(),
        forall|n: int|
            0 <= n < old(children)@.len() ==> #[trigger] final(children)@[n] == (StackChild {
                position: stacked_position(
                    StackAxis::Horizontal,
                    cross_axis_alignment,
                    position,
                    dimension,
                    old(children)@,
                    spacing.bits,
                    n,
                ),
                ..old(children)@[n]
            }),
{
    position_children_stack(StackAxis::Horizontal, position, dimension, children, cross_axis_alignment, spacing);
}


/// The number of children that are not spacers.
pub open spec fn non_spacer_count(children: Seq<StackChild>) -> nat
    decreases children.len(),
{
    if children.len() == 0 {
        0
    } else {
        non_spacer_count(children.drop_last()) + (if children.last().is_spacer {
            0nat
        } else {
            1nat
        })
    }
}

/// Which children are not spacers.
pub open spec fn non_spacers(children: Seq<StackChild>) -> Seq<bool> {
    children.map_values(|c: StackChild| !c.is_spacer)
}

/// `a` where it is greater than zero, else zero (also where `a` is a NaN).
pub open spec fn at_least_zero(a: u64) -> u64 {
    if lt(ZERO_BITS, a) {
        a
    } else {
        ZERO_BITS
    }
}

/// The sizing of a stack along `axis`, part way through: the stack asks each
/// child that is not a spacer in turn for its size, offering it an equal
/// share of the length that is left, then offers the spacers what the
/// children and the spacing leave of the requested length.
#[derive(Clone, Copy, Debug)]
pub struct StackSizing {
    pub axis: StackAxis,
    pub requested_size: Dimension,
    /// The spacing between the children, all told.
    pub spacing_total: Scalar,
    /// What is left for the children not yet sized.
    pub size_for_children: Dimension,
    /// How many children that are not spacers are still to be sized.
    pub children_left: usize,
    /// How many children are spacers.
    pub spacer_count: usize,
    /// The largest length across the axis that a child chose.
    pub max_cross_axis: Scalar,
    /// The lengths along the axis that the children chose, summed.
    pub total_main_axis: Scalar,
}

impl StackSizing {
    /// The sizing of a stack of `children` along `axis`, asked to fit
    /// `requested_size`, before any child is sized.
    pub open spec fn start(
        axis: StackAxis,
        children: Seq<StackChild>,
        spacing: u64,
        requested_size: Dimension,
    ) -> StackSizing {
        let spacing_total = binary64_mul(binary64_from_u64(spaces(non_spacers(children)) as u64), spacing);
        StackSizing {
            axis,
            requested_size,
            spacing_total: Scalar { bits: spacing_total },
            size_for_children: dimension_from(
                axis,
                binary64_sub(main_length(axis, requested_size), spacing_total),
                cross_length(axis, requested_size),
            ),
            children_left: non_spacer_count(children) as usize,
            spacer_count: (children.len() - non_spacer_count(children)) as usize,
            max_cross_axis: Scalar { bits: ZERO_BITS },
            total_main_axis: Scalar { bits: ZERO_BITS },
        }
    }

    /// The size offered to the next child: an equal share, along the axis, of
    /// what is left for the children, and all of it across.
    pub open spec fn spec_request(self) -> Dimension {
        dimension_from(
            self.axis,
            binary64_div(
                main_length(self.axis, self.size_for_children),
                binary64_from_u64(self.children_left as u64),
            ),
            cross_length(self.axis, self.size_for_children),
        )
    }

    /// The sizing after the next child chose `chosen`.
    pub open spec fn after_child(self, chosen: Dimension) -> StackSizing {
        let cross = cross_length(self.axis, chosen);
        StackSizing {
            size_for_children: dimension_from(
                self.axis,
                at_least_zero(
                    binary64_sub(main_length(self.axis, self.size_for_children), main_length(self.axis, chosen)),
                ),
                cross_length(self.axis, self.size_for_children),
            ),
            children_left: (self.children_left - 1) as usize,
            max_cross_axis: if lt(self.max_cross_axis.bits, cross) {
                Scalar { bits: cross }
            } else {
                self.max_cross_axis
            },
            total_main_axis: Scalar {
                bits: binary64_add(self.total_main_axis.bits, main_length(self.axis, chosen)),
            },
            ..self
        }
    }

    /// The size offered to every spacer: along the axis, an equal share of
    /// what the children and the spacing leave of the requested length;
    /// nothing across.
    pub open spec fn spec_spacer_request(self) -> Dimension {
        let rest = binary64_sub(
            binary64_sub(main_length(self.axis, self.requested_size), self.total_main_axis.bits),
            self.spacing_total.bits,
        );
        dimension_from(self.axis, binary64_div(rest, binary64_from_u64(self.spacer_count as u64)), ZERO_BITS)
    }

    /// The sizing after a spacer chose `chosen`.
    pub open spec fn after_spacer(self, chosen: Dimension) -> StackSizing {
        StackSizing {
            total_main_axis: Scalar {
                bits: binary64_add(self.total_main_axis.bits, main_length(self.axis, chosen)),
            },
            ..self
        }
    }

    /// The size of the stack: the lengths chosen along the axis and the
    /// spacing, and the largest length chosen across.
    pub open spec fn spec_dimension(self) -> Dimension {
        dimension_from(
            self.axis,
            binary64_add(self.total_main_axis.bits, self.spacing_total.bits),
            self.max_cross_axis.bits,
        )
    }

    /// Starts sizing a stack of `children` along `axis` with `spacing`
    /// between neighbours that are both not spacers, to fit `requested_size`.
    pub fn new(axis: StackAxis, children: &Vec<StackChild>, spacing: Scalar, requested_size: Dimension) -> (s:
        StackSizing)
        ensures
            s == StackSizing::start(axis, children@, spacing.bits, requested_size),
    {
        let mut flags: Vec<bool> = Vec::new();
        let mut count: usize = 0;
        let mut i: usize = 0;
        while i < children.len()
            invariant
                i <= children@.len(),
                flags@ == non_spacers(children@.take(i as int)),
                count == non_spacer_count(children@.take(i as int)),
                count <= i,
            decreases children@.len() - i,
        {
            assert(children@.take(i + 1).drop_last() == children@.take(i as int));
            let not_spacer = !children[i].is_spacer;
            flags.push(not_spacer);
            if not_spacer {
                count = count + 1;
            }
            i = i + 1;
        }
        assert(children@.take(children@.len() as int) == children@);
        let number_of_spaces = count_spaces(&flags);
        let spacing_total = Scalar::from_u64(number_of_spaces as u64).mul(spacing);
        let size_for_children = axis.dimension_from(
            axis.main_length(requested_size).sub(spacing_total),
            axis.cross_length(requested_size),
        );
        StackSizing {
            axis,
            requested_size,
            spacing_total,
            size_for_children,
            children_left: count,
            spacer_count: children.len() - count,
            max_cross_axis: Scalar::zero(),
            total_main_axis: Scalar::zero(),
        }
    }

    /// The size to offer the next child that is not a spacer.
    pub fn request(&self) -> (d: Dimension)
        requires
            self.children_left > 0,
        ensures
            d == self.spec_request(),
    {
        let axis = self.axis;
        axis.dimension_from(
            axis.main_length(self.size_for_children).div(Scalar::from_u64(self.children_left as u64)),
            axis.cross_length(self.size_for_children),
        )
    }

    /// Takes in the size `chosen` that the child offered [`Self::request`]
    /// chose.
    pub fn child_sized(&mut self, chosen: Dimension)
        requires
            old(self).children_left > 0,
        ensures
            *final(self) == old(self).after_child(chosen),
    {
        let axis = self.axis;
        let cross = axis.cross_length(chosen);
        if self.max_cross_axis.lt(cross) {
            self.max_cross_axis = cross;
        }
        let left = axis.main_length(self.size_for_children).sub(axis.main_length(chosen));
        let zero = Scalar::zero();
        let left = if zero.lt(left) {
            left
        } else {
            zero
        };
        self.size_for_children = axis.dimension_from(left, axis.cross_length(self.size_for_children));
        self.children_left = self.children_left - 1;
        self.total_main_axis = self.total_main_axis.add(axis.main_length(chosen));
    }

    /// The size to offer every spacer, once all the other children are
    /// sized and before any spacer is.
    pub fn spacer_request(&self) -> (d: Dimension)
        ensures
            d == self.spec_spacer_request(),
    {
        let axis = self.axis;
        let rest = axis.main_length(self.requested_size).sub(self.total_main_axis).sub(self.spacing_total);
        axis.dimension_from(rest.div(Scalar::from_u64(self.spacer_count as u64)), Scalar::zero())
    }

    /// Takes in the size `chosen` that a spacer chose.
    pub fn spacer_sized(&mut self, chosen: Dimension)
        ensures
            *final(self) == old(self).after_spacer(chosen),
    {
        self.total_main_axis = self.total_main_axis.add(self.axis.main_length(chosen));
    }

    /// The size of the stack.
    pub fn dimension(&self) -> (d: Dimension)
        ensures
            d == self.spec_dimension(),
    {
        let axis = self.axis;
        axis.dimension_from(self.total_main_axis.add(self.spacing_total), self.max_cross_axis)
    }
}


/// Child `a` of a stack is sized before child `b`: it is more flexible, or as
/// flexible and earlier.
pub open spec fn child_sized_before(children: Seq<StackChild>, a: int, b: int) -> bool {
    children[a].flexibility > children[b].flexibility || (children[a].flexibility
        == children[b].flexibility && a < b)
}

/// The children that are not spacers, by their index, in the order in which
/// a stack sizes them: most flexible first, children of equal flexibility in
/// their own order.
pub fn children_in_sizing_order(children: &Vec<StackChild>) -> (order: Vec<usize>)
    ensures
        order@.len() == non_spacer_count(children@),
        forall|i: int|
            0 <= i < order@.len() ==> #[trigger] order@[i] < children@.len() && !children@[order@[i] as int].is_spacer,
        forall|i: int, j: int|
            0 <= i < j < order@.len() ==> child_sized_before(
                children@,
                #[trigger] order@[i] as int,
                #[trigger] order@[j] as int,
            ),
{
    let mut indices: Vec<usize> = Vec::new();
    let mut flexibilities: Vec<u32> = Vec::new();
    let mut i: usize = 0;
    while i < children.len()
        invariant
            i <= children@.len(),
            indices@.len() == flexibilities@.len(),
            indices@.len() == non_spacer_count(children@.take(i as int)),
            forall|k: int|
                0 <= k < indices@.len() ==> #[trigger] indices@[k] < i && !children@[indices@[k] as int].is_spacer
                    && flexibilities@[k] == children@[indices@[k] as int].flexibility,
            forall|a: int, b: int| 0 <= a < b < indices@.len() ==> #[trigger] indices@[a] < #[trigger] indices@[b],
        decreases children@.len() - i,
    {
        assert(children@.take(i + 1).drop_last() == children@.take(i as int));
        if !children[i].is_spacer {
            indices.push(i);
            flexibilities.push(children[i].flexibility);
        }
        i = i + 1;
    }
    assert(children@.take(children@.len() as int) == children@);
    let by_flexibility = sizing_order(&flexibilities);
    let mut order: Vec<usize> = Vec::new();
    let mut k: usize = 0;
    while k < by_flexibility.len()
        invariant
            k <= by_flexibility@.len(),
            by_flexibility@.len() == flexibilities@.len(),
            indices@.len() == flexibilities@.len(),
            order@.len() == k,
            forall|m: int| 0 <= m < by_flexibility@.len() ==> #[trigger] by_flexibility@[m] < flexibilities@.len(),
            forall|m: int|
                0 <= m < indices@.len() ==> #[trigger] indices@[m] < children@.len() && !children@[indices@[m] as int].is_spacer
                    && flexibilities@[m] == children@[indices@[m] as int].flexibility,
            forall|m: int| 0 <= m < k ==> #[trigger] order@[m] == indices@[by_flexibility@[m] as int],
        decreases by_flexibility@.len() - k,
    {
        order.push(indices[by_flexibility[k]]);
        k = k + 1;
    }
    assert forall|a: int, b: int| 0 <= a < b < order@.len() implies child_sized_before(
        children@,
        #[trigger] order@[a] as int,
        #[trigger] order@[b] as int,
    ) by {
        let fa = by_flexibility@[a] as int;
        let fb = by_flexibility@[b] as int;
        assert(sized_before(flexibilities@, fa, fb));
        if fa < fb {
            assert(indices@[fa] < indices@[fb]);
        }
    }
    order
}

} // verus!
