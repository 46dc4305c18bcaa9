//! Properties that span several operations of the library, stated over the
//! same specifications that the operations' contracts use.
use vstd::prelude::*;

use crate::event::{modifier_of, Key, KeyboardEvent, ModifierKey, MouseButton, MouseEvent, WidgetEvent};
use crate::event_handler::{
    coalesced, cursor_moved, difference, drag_events, event_added, is_move, is_scroll,
    elapsed, key_pressed, key_released, modifiers_after, mouse_pressed, mouse_released, near,
    EventHandler, N_CLICK_THRESHOLD_NANOS,
};
use crate::filter::{
    max_abs_x, max_abs_y, prewit_x_taps, prewit_y_taps, sobel_x_taps, sobel_y_taps, swapped,
};
use crate::font::{fit_score, first_best, FontDescriptor, FontStyle, FontWeight};
use crate::context::{
    offset_origin, offset_point, origin32, paths_of, paths_state, ContextAction, PathStep, Point,
};
use crate::scalar::{binary64_add, binary64_div, binary64_sub, is_nan, le, Scalar, TWO_BITS, ZERO_BITS};
use crate::stack::{
    cross_length, cross_position, main_length, sized_before, stacked_position, CrossAxisAlignment,
    StackAxis, StackChild, StackSizing,
};
use crate::position::{Dimension, Position};
use crate::table::{lemma_stored, lemma_taken, lookup};

verus! {

/// A key that goes down and up again queues a press, a release and a click,
/// is forgotten afterwards, leaves the other keys as they were, and gives back
/// the modifiers held before (where its own modifier was not already held).
pub proof fn law_key_press_release_clicks(
    before: EventHandler,
    pressed: EventHandler,
    released: EventHandler,
    key: Key,
)
    requires
        before.wf(),
        key_pressed(before, pressed, key),
        key_released(pressed, released, key),
    ensures
        ({
            let m = before.held();
            let m1 = modifiers_after(m, key, true);
            released.queue() == before.queue() + seq![
                WidgetEvent::Keyboard(KeyboardEvent::Press(key, m)),
                WidgetEvent::Keyboard(KeyboardEvent::Release(key, m1)),
                WidgetEvent::Keyboard(KeyboardEvent::Click(key, m1)),
            ]
        }),
        lookup(released.keys(), key) is None,
        forall|k: Key| k != key ==> lookup(released.keys(), k) == lookup(before.keys(), k),
        (modifier_of(key) matches Some(bit) && before.held().bits & bit == 0) ==> released.held()
            == before.held(),
        modifier_of(key) is None ==> released.held() == before.held(),
{
    let m = before.held();
    let press = KeyboardEvent::Press(key, m);
    lemma_stored(before.keys(), key, press);
    lemma_taken(pressed.keys(), key);
    assert(released.queue() =~= before.queue() + seq![
        WidgetEvent::Keyboard(KeyboardEvent::Press(key, m)),
        WidgetEvent::Keyboard(KeyboardEvent::Release(key, modifiers_after(m, key, true))),
        WidgetEvent::Keyboard(KeyboardEvent::Click(key, modifiers_after(m, key, true))),
    ]);
    if let Some(bit) = modifier_of(key) {
        let b = m.bits;
        if b & bit == 0 {
            assert((b | bit) & !bit == b) by (bit_vector)
                requires
                    b & bit == 0,
            ;
        }
    }
}

/// A button pressed and released at a cursor that lies within the click
/// radius of itself, with no click before, queues a press, a release and a
/// click; the click becomes the last click and the button is forgotten.
pub proof fn law_mouse_press_release_clicks(
    before: EventHandler,
    pressed: EventHandler,
    released: EventHandler,
    button: MouseButton,
    now: u64,
)
    requires
        before.wf(),
        before.last() is None,
        near(before.cursor(), before.cursor()),
        mouse_pressed(before, pressed, button),
        mouse_released(pressed, released, button, now),
    ensures
        ({
            let xy = before.cursor();
            let m = before.held();
            &&& released.queue() == before.queue() + seq![
                WidgetEvent::Mouse(MouseEvent::Press(button, xy, m)),
                WidgetEvent::Mouse(MouseEvent::Release(button, xy, m)),
                WidgetEvent::Mouse(MouseEvent::Click(button, xy, m)),
            ]
            &&& released.last() == Some((now, MouseEvent::Click(button, xy, m)))
        }),
        lookup(released.buttons(), button) is None,
{
    let xy = before.cursor();
    let m = before.held();
    lemma_stored(before.buttons(), button, MouseEvent::Press(button, xy, m));
    lemma_taken(pressed.buttons(), button);
    assert(released.queue() =~= before.queue() + seq![
        WidgetEvent::Mouse(MouseEvent::Press(button, xy, m)),
        WidgetEvent::Mouse(MouseEvent::Release(button, xy, m)),
        WidgetEvent::Mouse(MouseEvent::Click(button, xy, m)),
    ]);
}

/// A release of the button that made the last click, within the click radius
/// of it and within the threshold, is a double click: a release and an
/// n-click of two are queued and nothing else, and the n-click becomes the
/// last click.
pub proof fn law_second_click_is_double_click(
    before: EventHandler,
    after: EventHandler,
    button: MouseButton,
    now: u64,
    time: u64,
    location: crate::position::Position,
    modifiers: ModifierKey,
)
    requires
        before.wf(),
        before.last() == Some((time, MouseEvent::Click(button, location, modifiers))),
        near(location, before.cursor()),
        elapsed(now, time) < N_CLICK_THRESHOLD_NANOS,
        mouse_released(before, after, button, now),
    ensures
        ({
            let xy = before.cursor();
            let m = before.held();
            &&& after.queue() == before.queue() + seq![
                WidgetEvent::Mouse(MouseEvent::Release(button, xy, m)),
                WidgetEvent::Mouse(MouseEvent::NClick(button, xy, m, 2)),
            ]
            &&& after.last() == Some((now, MouseEvent::NClick(button, xy, m, 2)))
        }),
{
    let xy = before.cursor();
    let m = before.held();
    assert(after.queue() =~= before.queue() + seq![
        WidgetEvent::Mouse(MouseEvent::Release(button, xy, m)),
        WidgetEvent::Mouse(MouseEvent::NClick(button, xy, m, 2)),
    ]);
}

/// After an n-click, a further release of the same button, within the click
/// radius of it and within the threshold, counts one higher.
pub proof fn law_n_click_counts_up(
    before: EventHandler,
    after: EventHandler,
    button: MouseButton,
    now: u64,
    time: u64,
    location: crate::position::Position,
    modifiers: ModifierKey,
    n: u32,
)
    requires
        before.wf(),
        n < u32::MAX,
        before.last() == Some((time, MouseEvent::NClick(button, location, modifiers, n))),
        near(location, before.cursor()),
        elapsed(now, time) < N_CLICK_THRESHOLD_NANOS,
        mouse_released(before, after, button, now),
    ensures
        ({
            let xy = before.cursor();
            let m = before.held();
            &&& after.queue() == before.queue() + seq![
                WidgetEvent::Mouse(MouseEvent::Release(button, xy, m)),
                WidgetEvent::Mouse(MouseEvent::NClick(button, xy, m, (n + 1) as u32)),
            ]
            &&& after.last() == Some((now, MouseEvent::NClick(button, xy, m, (n + 1) as u32)))
        }),
{
    let xy = before.cursor();
    let m = before.held();
    assert(after.queue() =~= before.queue() + seq![
        WidgetEvent::Mouse(MouseEvent::Release(button, xy, m)),
        WidgetEvent::Mouse(MouseEvent::NClick(button, xy, m, (n + 1) as u32)),
    ]);
}

/// A set holds what was inserted into it.
pub proof fn law_inserted_is_contained(m: ModifierKey, other: ModifierKey)
    ensures
        (m.bits | other.bits) & other.bits == other.bits,
{
    let a = m.bits;
    let b = other.bits;
    assert((a | b) & b == b) by (bit_vector);
}

/// A set holds nothing of what was taken out of it.
pub proof fn law_removed_is_not_contained(m: ModifierKey, other: ModifierKey)
    ensures
        (m.bits & !other.bits) & other.bits == 0,
{
    let a = m.bits;
    let b = other.bits;
    assert((a & !b) & b == 0) by (bit_vector);
}

/// Taking out what was inserted into a set that did not hold any of it gives
/// the set back.
pub proof fn law_insert_then_remove(m: ModifierKey, other: ModifierKey)
    requires
        m.bits & other.bits == 0,
    ensures
        (m.bits | other.bits) & !other.bits == m.bits,
{
    let a = m.bits;
    let b = other.bits;
    assert((a | b) & !b == a) by (bit_vector)
        requires
            a & b == 0,
    ;
}

/// A font of exactly the wanted weight and style fits best: where one exists,
/// the first of them is the best fit.
pub proof fn law_exact_match_fits_best(
    fonts: Seq<FontDescriptor>,
    i: int,
    weight_hint: FontWeight,
    style_hint: FontStyle,
)
    requires
        0 <= i < fonts.len(),
        fonts[i].weight_hint == weight_hint,
        fonts[i].style_hint == style_hint,
        forall|j: int|
            0 <= j < i ==> !(#[trigger] fonts[j].weight_hint == weight_hint && fonts[j].style_hint
                == style_hint),
    ensures
        first_best(fonts, i, weight_hint, style_hint),
{
    assert(fit_score(fonts[i], weight_hint, style_hint) == 1900);
    assert forall|j: int| 0 <= j < i implies #[trigger] fit_score(fonts[j], weight_hint, style_hint) < 1900 by {
        if fonts[j].style_hint == style_hint {
            if fonts[j].weight_hint.spec_weight() == weight_hint.spec_weight() {
                assert(fonts[j].weight_hint == weight_hint);
            }
        }
    }
}

/// Exchanging x and y twice gives the taps back.
pub proof fn law_swap_twice(s: Seq<(i32, i32, u32)>)
    ensures
        swapped(swapped(s)) == s,
{
    assert(swapped(swapped(s)) =~= s);
}

/// The reach of a flipped filter along y is its reach along x.
pub proof fn law_radius_of_swapped(s: Seq<(i32, i32, u32)>)
    ensures
        max_abs_y(swapped(s)) == max_abs_x(s),
        max_abs_x(swapped(s)) == max_abs_y(s),
    decreases s.len(),
{
    if s.len() > 0 {
        law_radius_of_swapped(s.drop_last());
        assert(swapped(s).drop_last() =~= swapped(s.drop_last()));
    }
}

/// The Sobel and Prewitt filters along y are those along x, flipped.
pub proof fn law_y_filters_are_flipped_x_filters()
    ensures
        swapped(sobel_x_taps()) == sobel_y_taps(),
        swapped(prewit_x_taps()) == prewit_y_taps(),
{
    assert(swapped(sobel_x_taps()) =~= sobel_y_taps());
    assert(swapped(prewit_x_taps()) =~= prewit_y_taps());
}

/// Index `k` occurs in `order`.
pub open spec fn occurs(order: Seq<usize>, k: int) -> bool {
    exists|i: int| 0 <= i < order.len() && order[i] == k
}

/// An order in which every child is sized before the next holds each child
/// exactly once.
pub proof fn law_sizing_order_is_permutation(flexibilities: Seq<u32>, order: Seq<usize>)
    requires
        order.len() == flexibilities.len(),
        forall|i: int| 0 <= i < order.len() ==> #[trigger] order[i] < flexibilities.len(),
        forall|i: int, j: int|
            0 <= i < j < order.len() ==> sized_before(
                flexibilities,
                #[trigger] order[i] as int,
                #[trigger] order[j] as int,
            ),
    ensures
        forall|k: int| 0 <= k < flexibilities.len() ==> #[trigger] occurs(order, k),
{
    let n = flexibilities.len() as int;
    let s = order.map_values(|v: usize| v as int);
    assert(s.no_duplicates()) by {
        assert forall|i: int, j: int| 0 <= i < s.len() && 0 <= j < s.len() && i != j implies s[i] != s[j] by {
            if i < j {
                assert(sized_before(flexibilities, order[i] as int, order[j] as int));
            } else {
                assert(sized_before(flexibilities, order[j] as int, order[i] as int));
            }
        }
    }
    s.unique_seq_to_set();
    vstd::set_lib::lemma_int_range(0, n);
    let range = vstd::set_lib::set_int_range(0, n);
    assert(s.to_set().subset_of(range));
    vstd::seq_lib::seq_to_set_is_finite(s);
    vstd::set_lib::lemma_subset_equality(s.to_set(), range);
    assert forall|k: int| 0 <= k < n implies #[trigger] occurs(order, k) by {
        assert(range.contains(k));
        assert(s.to_set().contains(k));
        let i = choose|i: int| 0 <= i < s.len() && s[i] == k;
        assert(order[i] == k);
    }
}


/// Once a child of a stack is sized, the length left along the axis for the
/// children after it is never negative (nor a NaN).
pub proof fn law_space_left_is_never_negative(s: StackSizing, chosen: Dimension)
    requires
        s.children_left > 0,
    ensures
        le(ZERO_BITS, main_length(s.axis, s.after_child(chosen).size_for_children)),
{
    assert(0u64 & 0x7FFF_FFFF_FFFF_FFFFu64 == 0u64) by (bit_vector);
    assert(0u64 & 0x8000_0000_0000_0000u64 == 0u64) by (bit_vector);
}

/// The largest length across the axis that the children of a stack chose
/// never shrinks, takes in every length chosen that is not a NaN, and never
/// becomes a NaN.
pub proof fn law_largest_cross_only_grows(s: StackSizing, chosen: Dimension)
    requires
        s.children_left > 0,
        !is_nan(s.max_cross_axis.bits),
    ensures
        le(s.max_cross_axis.bits, s.after_child(chosen).max_cross_axis.bits),
        !is_nan(cross_length(s.axis, chosen)) ==> le(
            cross_length(s.axis, chosen),
            s.after_child(chosen).max_cross_axis.bits,
        ),
        !is_nan(s.after_child(chosen).max_cross_axis.bits),
{
}

/// Children aligned to the start of a stack all stand at the stack's own
/// coordinate across its axis.
pub proof fn law_start_aligned_children_share_the_stack_edge(
    axis: StackAxis,
    position: Position,
    dimension: Dimension,
    children: Seq<StackChild>,
    spacing: u64,
    n: int,
)
    requires
        0 <= n < children.len(),
    ensures
        cross_position(
            axis,
            stacked_position(axis, CrossAxisAlignment::Start, position, dimension, children, spacing, n),
        ) == cross_position(axis, position),
{
}


/// Two calls on a path builder are of the same kind (they may differ in
/// their points).
pub open spec fn same_step_kind(a: PathStep, b: PathStep) -> bool {
    match (a, b) {
        (PathStep::Begin(_), PathStep::Begin(_)) => true,
        (PathStep::LineTo(_), PathStep::LineTo(_)) => true,
        (PathStep::QuadraticBezierTo(_, _), PathStep::QuadraticBezierTo(_, _)) => true,
        (PathStep::CubicBezierTo(_, _, _), PathStep::CubicBezierTo(_, _, _)) => true,
        (PathStep::End(x), PathStep::End(y)) => x == y,
        (PathStep::Close, PathStep::Close) => true,
        _ => false,
    }
}

/// Two paths make the same calls but for their points.
pub open spec fn same_steps(a: Seq<PathStep>, b: Seq<PathStep>) -> bool {
    &&& a.len() == b.len()
    &&& forall|i: int| 0 <= i < a.len() ==> #[trigger] same_step_kind(a[i], b[i])
}

/// Two lists of paths are alike but for their points.
pub open spec fn same_shape(a: Seq<Seq<PathStep>>, b: Seq<Seq<PathStep>>) -> bool {
    &&& a.len() == b.len()
    &&& forall|i: int| 0 <= i < a.len() ==> #[trigger] same_steps(a[i], b[i])
}

proof fn lemma_same_steps_push(a: Seq<PathStep>, b: Seq<PathStep>, x: PathStep, y: PathStep)
    requires
        same_steps(a, b),
        same_step_kind(x, y),
    ensures
        same_steps(a.push(x), b.push(y)),
{
    assert forall|i: int| 0 <= i < a.push(x).len() implies #[trigger] same_step_kind(
        a.push(x)[i],
        b.push(y)[i],
    ) by {
        if i < a.len() {
            assert(same_step_kind(a[i], b[i]));
        }
    }
}

proof fn lemma_same_shape_push(p: Seq<Seq<PathStep>>, q: Seq<Seq<PathStep>>, a: Seq<PathStep>, b: Seq<PathStep>)
    requires
        same_shape(p, q),
        same_steps(a, b),
    ensures
        same_shape(p.push(a), q.push(b)),
{
    assert forall|i: int| 0 <= i < p.push(a).len() implies #[trigger] same_steps(p.push(a)[i], q.push(b)[i]) by {
        if i < p.len() {
            assert(same_steps(p[i], q[i]));
        }
    }
}

proof fn lemma_paths_state_alike(actions: Seq<ContextAction>, o1: Point, o2: Point)
    ensures
        same_shape(paths_state(actions, o1).0, paths_state(actions, o2).0),
        same_steps(paths_state(actions, o1).1, paths_state(actions, o2).1),
        paths_state(actions, o1).2 == paths_state(actions, o2).2,
    decreases actions.len(),
{
    if actions.len() > 0 {
        lemma_paths_state_alike(actions.drop_last(), o1, o2);
        let (p, c, begun) = paths_state(actions.drop_last(), o1);
        let (q, d, _) = paths_state(actions.drop_last(), o2);
        let empty = Seq::<PathStep>::empty();
        assert(same_steps(empty, empty));
        match actions.last() {
            ContextAction::MoveTo(x) => {
                let b1 = PathStep::Begin(offset_point(x, o1));
                let b2 = PathStep::Begin(offset_point(x, o2));
                if begun {
                    lemma_same_shape_push(p, q, c, d);
                    lemma_same_steps_push(empty, empty, b1, b2);
                    assert(seq![b1] == empty.push(b1));
                    assert(seq![b2] == empty.push(b2));
                } else {
                    lemma_same_steps_push(c, d, b1, b2);
                }
            },
            ContextAction::LineTo(x) => {
                let s1 = PathStep::LineTo(offset_point(x, o1));
                let s2 = PathStep::LineTo(offset_point(x, o2));
                if begun {
                    lemma_same_steps_push(c, d, s1, s2);
                } else {
                    let b1 = PathStep::Begin(offset_origin(o1));
                    let b2 = PathStep::Begin(offset_origin(o2));
                    lemma_same_steps_push(c, d, b1, b2);
                    lemma_same_steps_push(c.push(b1), d.push(b2), s1, s2);
                }
            },
            ContextAction::QuadraticBezierTo { ctrl, to } => {
                let s1 = PathStep::QuadraticBezierTo(offset_point(ctrl, o1), offset_point(to, o1));
                let s2 = PathStep::QuadraticBezierTo(offset_point(ctrl, o2), offset_point(to, o2));
                if begun {
                    lemma_same_steps_push(c, d, s1, s2);
                } else {
                    let b1 = PathStep::Begin(offset_origin(o1));
                    let b2 = PathStep::Begin(offset_origin(o2));
                    lemma_same_steps_push(c, d, b1, b2);
                    lemma_same_steps_push(c.push(b1), d.push(b2), s1, s2);
                }
            },
            ContextAction::CubicBezierTo { ctrl1, ctrl2, to } => {
                let s1 = PathStep::CubicBezierTo(
                    offset_point(ctrl1, o1),
                    offset_point(ctrl2, o1),
                    offset_point(to, o1),
                );
                let s2 = PathStep::CubicBezierTo(
                    offset_point(ctrl1, o2),
                    offset_point(ctrl2, o2),
                    offset_point(to, o2),
                );
                if begun {
                    lemma_same_steps_push(c, d, s1, s2);
                } else {
                    let b = PathStep::Begin(origin32());
                    lemma_same_steps_push(c, d, b, b);
                    lemma_same_steps_push(c.push(b), d.push(b), s1, s2);
                }
            },
            ContextAction::Fill => {
                if begun {
                    lemma_same_shape_push(p, q, c, d);
                }
            },
            ContextAction::Stroke => {
                if begun {
                    lemma_same_steps_push(c, d, PathStep::End(false), PathStep::End(false));
                    lemma_same_shape_push(p, q, c.push(PathStep::End(false)), d.push(PathStep::End(false)));
                }
            },
            ContextAction::Close => {
                if begun {
                    lemma_same_steps_push(c, d, PathStep::Close, PathStep::Close);
                }
            },
        }
    }
}

/// Moving a drawing moves only its points: the paths that a canvas context
/// draws at any two offsets are as many, and make the same calls in the same
/// order.
pub proof fn law_offset_moves_only_points(actions: Seq<ContextAction>, o1: Point, o2: Point)
    ensures
        same_shape(paths_of(actions, o1), paths_of(actions, o2)),
{
    lemma_paths_state_alike(actions, o1, o2);
    let (p, c, begun) = paths_state(actions, o1);
    let (q, d, _) = paths_state(actions, o2);
    if begun {
        lemma_same_steps_push(c, d, PathStep::End(false), PathStep::End(false));
        lemma_same_shape_push(p, q, c.push(PathStep::End(false)), d.push(PathStep::End(false)));
    }
}


/// Adding an event to a coalesced queue keeps it coalesced, grows it by at
/// most one, and leaves every event but the last as it was; the last changes
/// only where a move is folded into a move or a scroll into a scroll.
pub proof fn law_adding_an_event_keeps_the_queue_coalesced(
    before: Seq<WidgetEvent>,
    after: Seq<WidgetEvent>,
    event: WidgetEvent,
)
    requires
        coalesced(before),
        event_added(before, after, event),
    ensures
        coalesced(after),
        before.len() <= after.len() <= before.len() + 1,
        forall|i: int| 0 <= i < before.len() - 1 ==> #[trigger] after[i] == before[i],
        before.len() > 0 ==> {
            let last = after[before.len() - 1];
            ||| last == before.last()
            ||| is_move(before.last()) && is_move(last)
            ||| is_scroll(before.last()) && is_scroll(last)
        },
{
    if after.len() == before.len() && before.len() > 0 && after.drop_last() == before.drop_last() {
        assert forall|i: int| 0 <= i < before.len() - 1 implies #[trigger] after[i] == before[i] by {
            assert(after.drop_last()[i] == before.drop_last()[i]);
        }
    }
}


/// A release of a button near where it was pressed, at least the multi-click
/// threshold after the last click of any kind (or with no click before),
/// queues a release and a single click at the cursor, and that click becomes
/// the last click.
pub proof fn law_late_release_is_a_single_click(
    before: EventHandler,
    after: EventHandler,
    button: MouseButton,
    now: u64,
)
    requires
        before.wf(),
        lookup(before.buttons(), button) matches Some(MouseEvent::Press(_, location, _)) && near(
            location,
            before.cursor(),
        ),
        before.last() matches Some((t, _)) ==> elapsed(now, t) >= N_CLICK_THRESHOLD_NANOS,
        mouse_released(before, after, button, now),
    ensures
        ({
            let xy = before.cursor();
            let m = before.held();
            &&& after.queue() == before.queue() + seq![
                WidgetEvent::Mouse(MouseEvent::Release(button, xy, m)),
                WidgetEvent::Mouse(MouseEvent::Click(button, xy, m)),
            ]
            &&& after.last() == Some((now, MouseEvent::Click(button, xy, m)))
        }),
{
    let xy = before.cursor();
    let m = before.held();
    assert(after.queue() =~= before.queue() + seq![
        WidgetEvent::Mouse(MouseEvent::Release(button, xy, m)),
        WidgetEvent::Mouse(MouseEvent::Click(button, xy, m)),
    ]);
}

/// The drag that a step from `from` to `to` by `delta` makes for `button`,
/// pressed at `origin`, with modifiers `m`.
pub open spec fn drag_of(
    button: MouseButton,
    origin: Position,
    from: Position,
    to: Position,
    delta: Position,
    m: ModifierKey,
) -> WidgetEvent {
    WidgetEvent::Mouse(
        MouseEvent::Drag {
            button,
            origin,
            from,
            to,
            delta_xy: delta,
            total_delta_xy: difference(to, origin),
            modifiers: m,
        },
    )
}

/// `button` is held in `buttons`, pressed at `origin`.
pub open spec fn held_at(buttons: Seq<(MouseButton, MouseEvent)>, button: MouseButton, origin: Position) -> bool {
    exists|j: int|
        0 <= j < buttons.len() && (#[trigger] buttons[j]).0 == button && buttons[j].1 is Press
            && buttons[j].1->Press_1 == origin
}

/// A release far from where the button went down, and far from the last
/// click (or with none), queues the release alone and leaves the last click
/// as it was.
pub proof fn law_far_release_is_no_click(
    before: EventHandler,
    after: EventHandler,
    button: MouseButton,
    now: u64,
)
    requires
        before.wf(),
        lookup(before.buttons(), button) matches Some(MouseEvent::Press(_, location, _)) && !near(
            location,
            before.cursor(),
        ),
        before.last() matches Some((_, e)) ==> !near(e.current_position(), before.cursor()),
        mouse_released(before, after, button, now),
    ensures
        after.queue() == before.queue().push(
            WidgetEvent::Mouse(MouseEvent::Release(button, before.cursor(), before.held())),
        ),
        after.last() == before.last(),
{
}

proof fn lemma_drags_follow_the_step(
    buttons: Seq<(MouseButton, MouseEvent)>,
    from: Position,
    to: Position,
    delta: Position,
    m: ModifierKey,
)
    ensures
        forall|i: int|
            0 <= i < drag_events(buttons, from, to, delta, m).len() ==> exists|b: MouseButton, o: Position|
                held_at(buttons, b, o) && #[trigger] drag_events(buttons, from, to, delta, m)[i] == drag_of(
                    b,
                    o,
                    from,
                    to,
                    delta,
                    m,
                ),
        forall|j: int|
            0 <= j < buttons.len() && (#[trigger] buttons[j]).1 is Press ==> drag_events(
                buttons,
                from,
                to,
                delta,
                m,
            ).contains(drag_of(buttons[j].0, buttons[j].1->Press_1, from, to, delta, m)),
    decreases buttons.len(),
{
    if buttons.len() > 0 {
        let prefix_buttons = buttons.drop_last();
        lemma_drags_follow_the_step(prefix_buttons, from, to, delta, m);
        let prefix = drag_events(prefix_buttons, from, to, delta, m);
        let all = drag_events(buttons, from, to, delta, m);
        assert forall|b: MouseButton, o: Position| held_at(prefix_buttons, b, o) implies held_at(buttons, b, o) by {
            let j = choose|j: int|
                0 <= j < prefix_buttons.len() && (#[trigger] prefix_buttons[j]).0 == b
                    && prefix_buttons[j].1 is Press && prefix_buttons[j].1->Press_1 == o;
            assert(buttons[j] == prefix_buttons[j]);
        }
        assert forall|i: int| 0 <= i < all.len() implies exists|b: MouseButton, o: Position|
            held_at(buttons, b, o) && #[trigger] all[i] == drag_of(b, o, from, to, delta, m) by {
            if i < prefix.len() {
                assert(all[i] == prefix[i]);
                let (b, o) = choose|b: MouseButton, o: Position|
                    held_at(prefix_buttons, b, o) && #[trigger] prefix[i] == drag_of(b, o, from, to, delta, m);
                assert(held_at(buttons, b, o));
            } else {
                let k = buttons.len() - 1;
                assert(buttons[k] == buttons.last());
                assert(held_at(buttons, buttons[k].0, buttons[k].1->Press_1));
            }
        }
        assert forall|j: int| 0 <= j < buttons.len() && (#[trigger] buttons[j]).1 is Press implies all.contains(
            drag_of(buttons[j].0, buttons[j].1->Press_1, from, to, delta, m),
        ) by {
            if j < prefix_buttons.len() {
                assert(buttons[j] == prefix_buttons[j]);
                let i = choose|i: int|
                    0 <= i < prefix.len() && prefix[i] == drag_of(buttons[j].0, buttons[j].1->Press_1, from, to, delta, m);
                assert(all[i] == prefix[i]);
            } else {
                assert(all[all.len() - 1] == drag_of(buttons[j].0, buttons[j].1->Press_1, from, to, delta, m));
            }
        }
    }
}

/// Every drag that a cursor move queues is for a held button and runs from
/// the old cursor position to the new one with the held modifiers; it moves
/// by that step (the step of the move itself), and by the new position less
/// the point where the button went down since the press.
pub proof fn law_drag_moves_by_the_step(
    before: EventHandler,
    after: EventHandler,
    x: Scalar,
    y: Scalar,
    d: Dimension,
    i: int,
)
    requires
        before.wf(),
        cursor_moved(before, after, x, y, d),
        before.queue().len() <= i < after.queue().len(),
        after.queue()[i] is Mouse,
        after.queue()[i]->Mouse_0 is Drag,
    ensures
        exists|b: MouseButton, o: Position|
            #[trigger] held_at(before.buttons(), b, o) && after.queue()[i] == drag_of(
                b,
                o,
                before.cursor(),
                after.cursor(),
                difference(after.cursor(), before.cursor()),
                before.held(),
            ),
{
    let from = before.cursor();
    let to = after.cursor();
    let delta = difference(to, from);
    let m = before.held();
    lemma_drags_follow_the_step(before.buttons(), from, to, delta, m);
    let drag_queue = if crate::event_handler::drags(delta) {
        drag_events(before.buttons(), from, to, delta, m)
    } else {
        Seq::empty()
    };
    let k = after.queue().len() - drag_queue.len();
    if i < k {
        let front = after.queue().take(k);
        assert(front[i] == after.queue()[i]);
        if front.len() == before.queue().len() + 1 {
            assert(front[i] == front.last());
        }
        assert(false);
    } else {
        assert(after.queue()[i] == after.queue().skip(k)[i - k]);
        assert(drag_queue[i - k] == after.queue()[i]);
    }
}

/// When a cursor move drags, every held button gets a drag from the point
/// where it went down, with the step of the move.
pub proof fn law_every_held_button_drags(
    before: EventHandler,
    after: EventHandler,
    x: Scalar,
    y: Scalar,
    d: Dimension,
    button: MouseButton,
    origin: Position,
)
    requires
        before.wf(),
        cursor_moved(before, after, x, y, d),
        crate::event_handler::drags(difference(after.cursor(), before.cursor())),
        lookup(before.buttons(), button) matches Some(MouseEvent::Press(_, location, _)) && location
            == origin,
    ensures
        exists|i: int|
            before.queue().len() <= i < after.queue().len() && #[trigger] after.queue()[i] == drag_of(
                button,
                origin,
                before.cursor(),
                after.cursor(),
                difference(after.cursor(), before.cursor()),
                before.held(),
            ),
{
    let from = before.cursor();
    let to = after.cursor();
    let delta = difference(to, from);
    let m = before.held();
    let buttons = before.buttons();
    crate::table::lemma_index_of(buttons, button);
    let j = crate::table::index_of(buttons, button);
    lemma_drags_follow_the_step(buttons, from, to, delta, m);
    assert(buttons[j].1 is Press);
    let drag_queue = drag_events(buttons, from, to, delta, m);
    let e = drag_of(button, origin, from, to, delta, m);
    assert(drag_queue.contains(e));
    let idx = choose|idx: int| 0 <= idx < drag_queue.len() && drag_queue[idx] == e;
    let k = after.queue().len() - drag_queue.len();
    assert(after.queue().skip(k)[idx] == after.queue()[k + idx]);
    assert(after.queue().take(k).len() == k);
    assert(after.queue()[k + idx] == e);
}

/// The style of a font outranks its weight: where a font of the wanted style
/// exists, the best fit has that style, and no font of that style is nearer
/// the wanted weight.
pub proof fn law_style_outranks_weight(
    fonts: Seq<FontDescriptor>,
    i: int,
    weight_hint: FontWeight,
    style_hint: FontStyle,
    j: int,
)
    requires
        first_best(fonts, i, weight_hint, style_hint),
        0 <= j < fonts.len(),
        fonts[j].style_hint == style_hint,
    ensures
        fonts[i].style_hint == style_hint,
        ({
            let wi = fonts[i].weight_hint.spec_weight() as int;
            let wj = fonts[j].weight_hint.spec_weight() as int;
            let w = weight_hint.spec_weight() as int;
            (if wi >= w { wi - w } else { w - wi }) <= (if wj >= w { wj - w } else { w - wj })
        }),
{
    assert(fit_score(fonts[j], weight_hint, style_hint) <= fit_score(fonts[i], weight_hint, style_hint));
}

/// Among fonts of the same style as the best fit, none is nearer the wanted
/// weight.
pub proof fn law_best_fit_has_the_nearest_weight(
    fonts: Seq<FontDescriptor>,
    i: int,
    weight_hint: FontWeight,
    style_hint: FontStyle,
    j: int,
)
    requires
        first_best(fonts, i, weight_hint, style_hint),
        0 <= j < fonts.len(),
        fonts[j].style_hint == fonts[i].style_hint,
    ensures
        ({
            let wi = fonts[i].weight_hint.spec_weight() as int;
            let wj = fonts[j].weight_hint.spec_weight() as int;
            let w = weight_hint.spec_weight() as int;
            (if wi >= w { wi - w } else { w - wi }) <= (if wj >= w { wj - w } else { w - wj })
        }),
{
    assert(fit_score(fonts[j], weight_hint, style_hint) <= fit_score(fonts[i], weight_hint, style_hint));
}

/// A centre-aligned child of a stack, along either axis, stands across the
/// axis at the stack's start plus half the stack's breadth less half its own
/// breadth, so that its middle falls on the stack's middle.
pub proof fn law_centred_children_share_the_stack_middle(
    axis: StackAxis,
    position: Position,
    dimension: Dimension,
    children: Seq<StackChild>,
    spacing: u64,
    n: int,
)
    requires
        0 <= n < children.len(),
    ensures
        ({
            let p = stacked_position(axis, CrossAxisAlignment::Center, position, dimension, children, spacing, n);
            let child = children[n].dimension;
            &&& axis == StackAxis::Horizontal ==> p.y.bits == binary64_sub(
                binary64_add(position.y.bits, binary64_div(dimension.height.bits, TWO_BITS)),
                binary64_div(child.height.bits, TWO_BITS),
            )
            &&& axis == StackAxis::Vertical ==> p.x.bits == binary64_sub(
                binary64_add(position.x.bits, binary64_div(dimension.width.bits, TWO_BITS)),
                binary64_div(child.width.bits, TWO_BITS),
            )
        }),
{
}

/// A child aligned to the end of a stack, along either axis, stands across
/// the axis at the stack's start plus the stack's breadth less its own
/// breadth, so that its far edge falls on the stack's far edge.
pub proof fn law_end_aligned_children_share_the_far_edge(
    axis: StackAxis,
    position: Position,
    dimension: Dimension,
    children: Seq<StackChild>,
    spacing: u64,
    n: int,
)
    requires
        0 <= n < children.len(),
    ensures
        ({
            let p = stacked_position(axis, CrossAxisAlignment::End, position, dimension, children, spacing, n);
            let child = children[n].dimension;
            &&& axis == StackAxis::Horizontal ==> p.y.bits == binary64_sub(
                binary64_add(position.y.bits, dimension.height.bits),
                child.height.bits,
            )
            &&& axis == StackAxis::Vertical ==> p.x.bits == binary64_sub(
                binary64_add(position.x.bits, dimension.width.bits),
                child.width.bits,
            )
        }),
{
}

/// The last drawing step of a canvas lands, with its points in their order
/// and each moved by the offset, just before the end of the last path; a move
/// starts a path of its own.
pub proof fn law_drawing_step_keeps_its_points(actions: Seq<ContextAction>, action: ContextAction, offset: Point)
    ensures
        ({
            let paths = paths_of(actions.push(action), offset);
            let last = paths.last();
            match action {
                ContextAction::MoveTo(p) => paths.len() > 0 && last == seq![
                    PathStep::Begin(offset_point(p, offset)),
                    PathStep::End(false),
                ],
                ContextAction::LineTo(p) => paths.len() > 0 && last.len() >= 2 && last[last.len() - 2]
                    == PathStep::LineTo(offset_point(p, offset)),
                ContextAction::QuadraticBezierTo { ctrl, to } => paths.len() > 0 && last.len() >= 2
                    && last[last.len() - 2] == PathStep::QuadraticBezierTo(
                    offset_point(ctrl, offset),
                    offset_point(to, offset),
                ),
                ContextAction::CubicBezierTo { ctrl1, ctrl2, to } => paths.len() > 0 && last.len() >= 2
                    && last[last.len() - 2] == PathStep::CubicBezierTo(
                    offset_point(ctrl1, offset),
                    offset_point(ctrl2, offset),
                    offset_point(to, offset),
                ),
                _ => true,
            }
        }),
{
    assert(actions.push(action).drop_last() == actions);
    assert(actions.push(action).last() == action);
    let (p0, c0, b0) = paths_state(actions, offset);
    match action {
        ContextAction::MoveTo(p) => {
            if b0 {
                assert(seq![PathStep::Begin(offset_point(p, offset))].push(PathStep::End(false)) =~= seq![
                    PathStep::Begin(offset_point(p, offset)),
                    PathStep::End(false),
                ]);
            } else {
                assert(c0.len() == 0) by {
                    lemma_unbegun_builder_is_empty(actions, offset);
                }
                assert(c0.push(PathStep::Begin(offset_point(p, offset))).push(PathStep::End(false)) =~= seq![
                    PathStep::Begin(offset_point(p, offset)),
                    PathStep::End(false),
                ]);
            }
        },
        _ => {},
    }
}

/// A line or a curve drawn while no path is begun makes a path of its own:
/// a line or a quadratic curve starts at the origin moved by the offset, a
/// cubic curve at the unmoved origin.
pub proof fn law_unbegun_steps_start_at_the_origin(
    actions: Seq<ContextAction>,
    action: ContextAction,
    offset: Point,
)
    requires
        !paths_state(actions, offset).2,
    ensures
        ({
            let paths = paths_of(actions.push(action), offset);
            match action {
                ContextAction::LineTo(p) => paths.last() == seq![
                    PathStep::Begin(offset_origin(offset)),
                    PathStep::LineTo(offset_point(p, offset)),
                    PathStep::End(false),
                ],
                ContextAction::QuadraticBezierTo { ctrl, to } => paths.last() == seq![
                    PathStep::Begin(offset_origin(offset)),
                    PathStep::QuadraticBezierTo(offset_point(ctrl, offset), offset_point(to, offset)),
                    PathStep::End(false),
                ],
                ContextAction::CubicBezierTo { ctrl1, ctrl2, to } => paths.last() == seq![
                    PathStep::Begin(origin32()),
                    PathStep::CubicBezierTo(
                        offset_point(ctrl1, offset),
                        offset_point(ctrl2, offset),
                        offset_point(to, offset),
                    ),
                    PathStep::End(false),
                ],
                _ => true,
            }
        }),
{
    assert(actions.push(action).drop_last() == actions);
    assert(actions.push(action).last() == action);
    lemma_unbegun_builder_is_empty(actions, offset);
    let paths = paths_of(actions.push(action), offset);
    match action {
        ContextAction::LineTo(p) => {
            assert(paths.last() =~= seq![
                PathStep::Begin(offset_origin(offset)),
                PathStep::LineTo(offset_point(p, offset)),
                PathStep::End(false),
            ]);
        },
        ContextAction::QuadraticBezierTo { ctrl, to } => {
            assert(paths.last() =~= seq![
                PathStep::Begin(offset_origin(offset)),
                PathStep::QuadraticBezierTo(offset_point(ctrl, offset), offset_point(to, offset)),
                PathStep::End(false),
            ]);
        },
        ContextAction::CubicBezierTo { ctrl1, ctrl2, to } => {
            assert(paths.last() =~= seq![
                PathStep::Begin(origin32()),
                PathStep::CubicBezierTo(
                    offset_point(ctrl1, offset),
                    offset_point(ctrl2, offset),
                    offset_point(to, offset),
                ),
                PathStep::End(false),
            ]);
        },
        _ => {},
    }
}

/// While no path is begun, the current builder holds no step.
proof fn lemma_unbegun_builder_is_empty(actions: Seq<ContextAction>, offset: Point)
    ensures
        !paths_state(actions, offset).2 ==> paths_state(actions, offset).1.len() == 0,
    decreases actions.len(),
{
    if actions.len() > 0 {
        lemma_unbegun_builder_is_empty(actions.drop_last(), offset);
    }
}

} // verus!
