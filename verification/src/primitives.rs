use vstd::prelude::*;

use crate::position::{Dimension, Position};
use crate::scalar::{binary64_div, binary64_sub, Scalar, TWO_BITS};

verus! {

/// Where the root widget of a window goes: centred in a window of size
/// `window_dimensions`, each coordinate `window / 2 - root / 2`.
pub open spec fn centred(window_dimensions: Dimension, root_dimension: Dimension) -> Position {
    Position {
        x: Scalar {
            bits: binary64_sub(
                binary64_div(window_dimensions.width.bits, TWO_BITS),
                binary64_div(root_dimension.width.bits, TWO_BITS),
            ),
        },
        y: Scalar {
            bits: binary64_sub(
                binary64_div(window_dimensions.height.bits, TWO_BITS),
                binary64_div(root_dimension.height.bits, TWO_BITS),
            ),
        },
    }
}

/// The position of a root widget of size `root_dimension` centred in a window
/// of size `window_dimensions`.
pub fn root_position(window_dimensions: Dimension, root_dimension: Dimension) -> (p: Position)
    ensures
        p == centred(window_dimensions, root_dimension),
{
    let two = Scalar::from_bits(TWO_BITS);
    Position::new(
        window_dimensions.width.div(two).sub(root_dimension.width.div(two)),
        window_dimensions.height.div(two).sub(root_dimension.height.div(two)),
    )
}

/// A widget at the root of a window, as a frame sees it: it is offered a size
/// and takes one, is placed, places its own children and draws itself into a
/// list of primitives `P`, with an environment `E`.
///
/// Implementors keep to the following: the accessors and setters read and
/// write the widget's own position and size; sizing records the size offered;
/// placing its children and drawing leave the widget's own position, size and
/// the size it was offered as they were; drawing appends exactly what the
/// widget draws where it stands, and leaves that as it was.
pub trait Widget<P, E> {
    /// Where the widget stands.
    spec fn spec_position(&self) -> Position;

    /// How large the widget is.
    spec fn spec_dimension(&self) -> Dimension;

    /// The size the widget was last offered.
    spec fn spec_requested(&self) -> Dimension;

    /// The primitives that draw the widget as it now stands.
    spec fn spec_drawn(&self) -> Vec<P>;

    fn width(&self) -> (w: Scalar)
        ensures
            w == self.spec_dimension().width,
    ;

    fn height(&self) -> (h: Scalar)
        ensures
            h == self.spec_dimension().height,
    ;

    fn set_x(&mut self, x: Scalar)
        ensures
            final(self).spec_position() == (Position { x, y: old(self).spec_position().y }),
            final(self).spec_dimension() == old(self).spec_dimension(),
            final(self).spec_requested() == old(self).spec_requested(),
    ;

    fn set_y(&mut self, y: Scalar)
        ensures
            final(self).spec_position() == (Position { x: old(self).spec_position().x, y }),
            final(self).spec_dimension() == old(self).spec_dimension(),
            final(self).spec_requested() == old(self).spec_requested(),
    ;

    /// Chooses the widget's size, given the size offered.
    fn calculate_size(&mut self, requested_size: Dimension, env: &mut E) -> (d: Dimension)
        ensures
            final(self).spec_requested() == requested_size,
    ;

    /// Places the widget's children, and theirs.
    fn position_children(&mut self)
        ensures
            final(self).spec_position() == old(self).spec_position(),
            final(self).spec_dimension() == old(self).spec_dimension(),
            final(self).spec_requested() == old(self).spec_requested(),
    ;

    /// Appends the primitives that draw the widget to `primitives`.
    fn process_get_primitives(&mut self, primitives: &mut Vec<P>, env: &mut E)
        ensures
            final(self).spec_position() == old(self).spec_position(),
            final(self).spec_dimension() == old(self).spec_dimension(),
            final(self).spec_requested() == old(self).spec_requested(),
            final(self).spec_drawn()@ == old(self).spec_drawn()@,
            final(primitives)@ == old(primitives)@ + old(self).spec_drawn()@,
    ;
}

/// The primitives of one frame, in drawing order.
pub struct CPrimitives<P> {
    pub primitives: Vec<P>,
}

impl<P> CPrimitives<P> {
    /// The frame of a window of size `window_dimensions` whose widgets hang
    /// from `root`: the root takes its size, offered the window's; it is
    /// centred in the window; it places its children; and the primitives that
    /// it draws make the frame.
    pub fn new<W: Widget<P, E>, E>(window_dimensions: Dimension, root: &mut W, environment: &mut E) -> (r:
        Self)
        ensures
            final(root).spec_requested() == window_dimensions,
            final(root).spec_position() == centred(window_dimensions, final(root).spec_dimension()),
            r.primitives@ == final(root).spec_drawn()@,
    {
        root.calculate_size(window_dimensions, environment);
        let centre = root_position(window_dimensions, Dimension::new(root.width(), root.height()));
        root.set_x(centre.x);
        root.set_y(centre.y);
        root.position_children();
        let mut prims: Vec<P> = Vec::new();
        root.process_get_primitives(&mut prims, environment);
        assert(prims@ =~= final(root).spec_drawn()@);
        CPrimitives { primitives: prims }
    }

    /// Hands out the first primitive not handed out yet; `None` once all are.
    pub fn next_primitive(&mut self) -> (r: Option<P>)
        ensures
            old(self).primitives@.len() == 0 ==> r is None && final(self).primitives@ == old(
                self,
            ).primitives@,
            old(self).primitives@.len() > 0 ==> r == Some(old(self).primitives@[0])
                && final(self).primitives@ == old(self).primitives@.drop_first(),
    {
        if self.primitives.len() > 0 {
            Some(self.primitives.remove(0))
        } else {
            None
        }
    }
}

} // verus!
