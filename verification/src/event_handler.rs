use vstd::prelude::*;

use crate::event::{
    filter_modifier, modifier_of, Button, Input, Key, KeyboardEvent, ModifierKey, Motion,
    MouseButton, MouseEvent, WidgetEvent, WindowEvent,
};
use crate::position::{Dimension, Position};
use crate::scalar::{
    abs_bits, binary64_add, binary64_div, binary64_from_u64, binary64_mul, binary64_sub, ieee_eq,
    lt, Scalar, NINE_BITS, TWO_BITS, ZERO_BITS,
};
use crate::table::{lookup, store, stored, take, taken, unique_keys};
use instant::{Duration, Instant};

verus! {

/// The clock's moment, `instant::Instant` (the monotonic clock of std).
#[verifier::external_type_specification]
#[verifier::external_body]
pub struct ExInstant(instant::Instant);

/// The current moment, `Instant::now`. It depends on when it is called, so
/// nothing is stated of it.
#[verifier::external_body]
fn clock_now() -> (t: Instant) {
    Instant::now()
}

/// The time since `origin`, `Instant::elapsed`. It depends on when it is
/// called, so nothing is stated of it.
#[verifier::external_body]
fn clock_elapsed(origin: &Instant) -> (d: Duration) {
    origin.elapsed()
}

/// The whole nanoseconds of `d`, `Duration::as_nanos`. A `Duration` is opaque
/// here, so nothing is stated of the result.
#[verifier::external_body]
fn duration_nanos(d: &Duration) -> (n: u128) {
    d.as_nanos()
}

/// Two releases of the same button closer than this many nanoseconds, near
/// each other, count as one multi-click.
pub const N_CLICK_THRESHOLD_NANOS: u64 = 500_000_000u64;

/// The time from `earlier` to `now` in nanoseconds; zero where `earlier` is
/// the later of the two.
pub open spec fn elapsed(now: u64, earlier: u64) -> int {
    if now >= earlier {
        now - earlier
    } else {
        0
    }
}

/// The square of the distance from `a` to `b`.
pub open spec fn squared_distance(a: Position, b: Position) -> u64 {
    let dx = binary64_sub(a.x.bits, b.x.bits);
    let dy = binary64_sub(a.y.bits, b.y.bits);
    binary64_add(binary64_mul(dx, dx), binary64_mul(dy, dy))
}

/// `b` lies within the click radius of 3 around `a`.
///
/// The radius test `sqrt(d) < 3.0` on the rounded square `d` of the distance
/// is written `d < 9.0`: the square root is correctly rounded and monotone, 3
/// and 9 are exact, and the largest double below 9, 9 - 2^-49, has a root
/// below the midpoint 3 - 2^-52 between 3 and the double before it, so the two
/// tests agree on every `d`, NaN included.
pub open spec fn near(a: Position, b: Position) -> bool {
    lt(squared_distance(a, b), NINE_BITS)
}

/// `b - a`, coordinate by coordinate.
pub open spec fn difference(b: Position, a: Position) -> Position {
    Position {
        x: Scalar { bits: binary64_sub(b.x.bits, a.x.bits) },
        y: Scalar { bits: binary64_sub(b.y.bits, a.y.bits) },
    }
}

/// The window position of a cursor at `x`, `y` relative to the centre of a
/// window of size `d` with y upward: `(x + w / 2, h - (y + h / 2))`.
pub open spec fn cursor_target(x: Scalar, y: Scalar, d: Dimension) -> Position {
    Position {
        x: Scalar { bits: binary64_add(x.bits, binary64_div(d.width.bits, TWO_BITS)) },
        y: Scalar {
            bits: binary64_sub(
                d.height.bits,
                binary64_add(y.bits, binary64_div(d.height.bits, TWO_BITS)),
            ),
        },
    }
}

/// A movement is there: one of its coordinates is not zero.
pub open spec fn moved(delta: Position) -> bool {
    !ieee_eq(delta.x.bits, ZERO_BITS) || !ieee_eq(delta.y.bits, ZERO_BITS)
}

/// A movement is a drag step: the root of `|dx + dy|` is above zero, which is
/// `|dx + dy| > 0` (the root of a positive double is positive, that of zero is
/// zero, that of NaN is NaN).
pub open spec fn drags(delta: Position) -> bool {
    lt(ZERO_BITS, abs_bits(binary64_add(delta.x.bits, delta.y.bits)))
}

pub open spec fn is_move(e: WidgetEvent) -> bool {
    e matches WidgetEvent::Mouse(MouseEvent::Move { .. })
}

pub open spec fn is_scroll(e: WidgetEvent) -> bool {
    e matches WidgetEvent::Mouse(MouseEvent::Scroll { .. })
}

/// No two neighbouring events are both moves, or both scrolls: a run of them
/// is always folded into one.
pub open spec fn coalesced(s: Seq<WidgetEvent>) -> bool {
    forall|i: int, j: int|
        0 <= i < s.len() && j == i + 1 && j < s.len() ==> !(is_move(#[trigger] s[i]) && is_move(
            #[trigger] s[j],
        )) && !(is_scroll(s[i]) && is_scroll(s[j]))
}

/// `merged` is `last` extended by a further move to `to` by `delta`: the start
/// stays, the end and the modifiers are the new ones, the movements are
/// summed.
pub open spec fn merged_move(
    last: WidgetEvent,
    merged: WidgetEvent,
    to: Position,
    delta: Position,
    modifiers: ModifierKey,
) -> bool {
    match (last, merged) {
        (
            WidgetEvent::Mouse(MouseEvent::Move { from: f0, delta_xy: d0, .. }),
            WidgetEvent::Mouse(MouseEvent::Move { from: f1, to: t1, delta_xy: d1, modifiers: m1 }),
        ) => {
            &&& f1 == f0
            &&& t1 == to
            &&& m1 == modifiers
            &&& d1.x.bits == binary64_add(d0.x.bits, delta.x.bits)
            &&& d1.y.bits == binary64_add(d0.y.bits, delta.y.bits)
        },
        _ => false,
    }
}

/// `merged` is `last` extended by a further scroll: the amounts are summed,
/// the cursor position and the modifiers are the new ones.
pub open spec fn merged_scroll(
    last: WidgetEvent,
    merged: WidgetEvent,
    x: Scalar,
    y: Scalar,
    mouse_position: Position,
    modifiers: ModifierKey,
) -> bool {
    match (last, merged) {
        (
            WidgetEvent::Mouse(MouseEvent::Scroll { x: x0, y: y0, .. }),
            WidgetEvent::Mouse(MouseEvent::Scroll { x: x1, y: y1, mouse_position: p1, modifiers: m1 }),
        ) => {
            &&& x1.bits == binary64_add(x0.bits, x.bits)
            &&& y1.bits == binary64_add(y0.bits, y.bits)
            &&& p1 == mouse_position
            &&& m1 == modifiers
        },
        _ => false,
    }
}

/// The queue `after` is `before` with `event` added: a move without movement
/// is dropped, a move right after a move and a scroll right after a scroll are
/// folded into it, any other event is appended.
pub open spec fn event_added(before: Seq<WidgetEvent>, after: Seq<WidgetEvent>, event: WidgetEvent) -> bool {
    match event {
        WidgetEvent::Mouse(MouseEvent::Move { to, delta_xy, modifiers, .. }) => {
            if !moved(delta_xy) {
                after == before
            } else if before.len() > 0 && is_move(before.last()) {
                &&& after.len() == before.len()
                &&& after.drop_last() == before.drop_last()
                &&& merged_move(before.last(), after.last(), to, delta_xy, modifiers)
            } else {
                after == before.push(event)
            }
        },
        WidgetEvent::Mouse(MouseEvent::Scroll { x, y, mouse_position, modifiers }) => {
            if before.len() > 0 && is_scroll(before.last()) {
                &&& after.len() == before.len()
                &&& after.drop_last() == before.drop_last()
                &&& merged_scroll(before.last(), after.last(), x, y, mouse_position, modifiers)
            } else {
                after == before.push(event)
            }
        },
        _ => after == before.push(event),
    }
}

/// The multi-click that a release of `button` at `xy` at time `now` makes,
/// given the last click: a click or an n-click of the same button, near `xy`
/// and less than the threshold ago, is followed by an n-click one higher (a
/// click counts as one).
pub open spec fn n_click_outcome(
    last_click: Option<(u64, MouseEvent)>,
    button: MouseButton,
    xy: Position,
    modifiers: ModifierKey,
    now: u64,
) -> Option<MouseEvent> {
    match last_click {
        Some((time, MouseEvent::NClick(b, location, _, n))) => {
            if b == button && near(location, xy) && elapsed(now, time) < N_CLICK_THRESHOLD_NANOS {
                Some(MouseEvent::NClick(button, xy, modifiers, (n + 1) as u32))
            } else {
                None
            }
        },
        Some((time, MouseEvent::Click(b, location, _))) => {
            if b == button && near(location, xy) && elapsed(now, time) < N_CLICK_THRESHOLD_NANOS {
                Some(MouseEvent::NClick(button, xy, modifiers, 2))
            } else {
                None
            }
        },
        _ => None,
    }
}

/// The click that a release makes: where the button was pressed near the
/// release, a click, unless an n-click happened less than the threshold ago.
pub open spec fn click_outcome(
    pressed: Option<MouseEvent>,
    last_click: Option<(u64, MouseEvent)>,
    button: MouseButton,
    xy: Position,
    modifiers: ModifierKey,
    now: u64,
) -> Option<MouseEvent> {
    match pressed {
        Some(MouseEvent::Press(_, location, _)) => {
            if near(location, xy) {
                match last_click {
                    Some((time, MouseEvent::NClick(_, _, _, _))) => {
                        if elapsed(now, time) >= N_CLICK_THRESHOLD_NANOS {
                            Some(MouseEvent::Click(button, xy, modifiers))
                        } else {
                            None
                        }
                    },
                    _ => Some(MouseEvent::Click(button, xy, modifiers)),
                }
            } else {
                None
            }
        },
        _ => None,
    }
}

/// The last click after `outcome`: the event stamped with `now` where there is
/// one, else unchanged.
pub open spec fn next_last_click(
    last_click: Option<(u64, MouseEvent)>,
    outcome: Option<MouseEvent>,
    now: u64,
) -> Option<(u64, MouseEvent)> {
    match outcome {
        Some(e) => Some((now, e)),
        None => last_click,
    }
}

pub open spec fn push_mouse(s: Seq<WidgetEvent>, e: Option<MouseEvent>) -> Seq<WidgetEvent> {
    match e {
        Some(e) => s.push(WidgetEvent::Mouse(e)),
        None => s,
    }
}

/// The drag events of a cursor move from `from` to `to`: one per pressed
/// button, in table order, with the movement from where it was pressed.
pub open spec fn drag_events(
    buttons: Seq<(MouseButton, MouseEvent)>,
    from: Position,
    to: Position,
    delta: Position,
    modifiers: ModifierKey,
) -> Seq<WidgetEvent>
    decreases buttons.len(),
{
    if buttons.len() == 0 {
        Seq::empty()
    } else {
        let prefix = drag_events(buttons.drop_last(), from, to, delta, modifiers);
        let (button, evt) = buttons.last();
        match evt {
            MouseEvent::Press(_, location, _) => prefix.push(
                WidgetEvent::Mouse(
                    MouseEvent::Drag {
                        button,
                        origin: location,
                        from,
                        to,
                        delta_xy: delta,
                        total_delta_xy: difference(to, location),
                        modifiers,
                    },
                ),
            ),
            _ => prefix,
        }
    }
}

/// The modifiers after a key goes down (`down`) or up: its modifier, if it has
/// one, is added or taken out.
pub open spec fn modifiers_after(m: ModifierKey, key: Key, down: bool) -> ModifierKey {
    match modifier_of(key) {
        Some(bit) => if down {
            ModifierKey { bits: m.bits | bit }
        } else {
            ModifierKey { bits: m.bits & !bit }
        },
        None => m,
    }
}

/// Turns raw input into widget events, and keeps what that needs: the pressed
/// keys and buttons, the held modifiers, the last click and the cursor
/// position. Moments are kept as nanoseconds since the handler was made.
#[derive(Debug)]
pub struct EventHandler {
    origin: Instant,
    pressed_keys: Vec<(Key, KeyboardEvent)>,
    pressed_buttons: Vec<(MouseButton, MouseEvent)>,
    modifiers: ModifierKey,
    last_click: Option<(u64, MouseEvent)>,
    mouse_position: Position,
    events: Vec<WidgetEvent>,
}

/// `after` is `before` with only the queue changed.
pub open spec fn same_state(before: EventHandler, after: EventHandler) -> bool {
    &&& after.keys() == before.keys()
    &&& after.buttons() == before.buttons()
    &&& after.held() == before.held()
    &&& after.last() == before.last()
    &&& after.cursor() == before.cursor()
}

/// `after` is `before` once `button` went down: a press at the cursor with the
/// held modifiers is queued and recorded for the button.
pub open spec fn mouse_pressed(before: EventHandler, after: EventHandler, button: MouseButton) -> bool {
    let press = MouseEvent::Press(button, before.cursor(), before.held());
    &&& after.queue() == before.queue().push(WidgetEvent::Mouse(press))
    &&& after.buttons() == stored(before.buttons(), button, press)
    &&& after.keys() == before.keys()
    &&& after.held() == before.held()
    &&& after.last() == before.last()
    &&& after.cursor() == before.cursor()
}

/// `after` is `before` once `key` went down: a press is queued and recorded for
/// the key, and its modifier, if it has one, is held.
pub open spec fn key_pressed(before: EventHandler, after: EventHandler, key: Key) -> bool {
    let press = KeyboardEvent::Press(key, before.held());
    &&& after.queue() == before.queue().push(WidgetEvent::Keyboard(press))
    &&& after.keys() == stored(before.keys(), key, press)
    &&& after.held() == modifiers_after(before.held(), key, true)
    &&& after.buttons() == before.buttons()
    &&& after.last() == before.last()
    &&& after.cursor() == before.cursor()
}

/// `after` is `before` once `key` went up: a release is queued, then a click if
/// the key had been pressed; the key is forgotten and its modifier, if it has
/// one, no longer held.
pub open spec fn key_released(before: EventHandler, after: EventHandler, key: Key) -> bool {
    let m = before.held();
    let q = before.queue().push(WidgetEvent::Keyboard(KeyboardEvent::Release(key, m)));
    &&& after.queue() == (if lookup(before.keys(), key) matches Some(KeyboardEvent::Press(..)) {
        q.push(WidgetEvent::Keyboard(KeyboardEvent::Click(key, m)))
    } else {
        q
    })
    &&& after.keys() == taken(before.keys(), key)
    &&& after.held() == modifiers_after(m, key, false)
    &&& after.buttons() == before.buttons()
    &&& after.last() == before.last()
    &&& after.cursor() == before.cursor()
}

/// `after` is `before` once `button` went up at `now`: a release is queued,
/// then the n-click and the click that it makes (see [`n_click_outcome`] and
/// [`click_outcome`]), each of which becomes the last click; the button is
/// forgotten.
pub open spec fn mouse_released(before: EventHandler, after: EventHandler, button: MouseButton, now: u64) -> bool {
    let xy = before.cursor();
    let m = before.held();
    let n_click = n_click_outcome(before.last(), button, xy, m, now);
    let last1 = next_last_click(before.last(), n_click, now);
    let click = click_outcome(lookup(before.buttons(), button), last1, button, xy, m, now);
    &&& after.queue() == push_mouse(
        push_mouse(before.queue().push(WidgetEvent::Mouse(MouseEvent::Release(button, xy, m))), n_click),
        click,
    )
    &&& after.last() == next_last_click(last1, click, now)
    &&& after.buttons() == taken(before.buttons(), button)
    &&& after.keys() == before.keys()
    &&& after.held() == before.held()
    &&& after.cursor() == before.cursor()
}

/// `after` is `before` once the cursor moved to `x`, `y` (relative to the
/// centre of a window of size `d`): a move from the old cursor position is
/// added (see [`event_added`]); where the step [`drags`], a drag follows for
/// each held button; the cursor is then at the new position.
pub open spec fn cursor_moved(before: EventHandler, after: EventHandler, x: Scalar, y: Scalar, d: Dimension) -> bool {
    let from = before.cursor();
    let to = cursor_target(x, y, d);
    let delta = difference(to, from);
    let m = before.held();
    let drag_queue = if drags(delta) {
        drag_events(before.buttons(), from, to, delta, m)
    } else {
        Seq::empty()
    };
    let k = after.queue().len() - drag_queue.len();
    &&& 0 <= k
    &&& after.queue().skip(k) == drag_queue
    &&& event_added(
        before.queue(),
        after.queue().take(k),
        WidgetEvent::Mouse(MouseEvent::Move { from, to, delta_xy: delta, modifiers: m }),
    )
    &&& after.cursor() == to
    &&& after.keys() == before.keys()
    &&& after.buttons() == before.buttons()
    &&& after.held() == before.held()
    &&& after.last() == before.last()
}

/// `after` is `before` once the wheel scrolled by `x`, `y`: a scroll at the
/// cursor is added (see [`event_added`]).
pub open spec fn scrolled(before: EventHandler, after: EventHandler, x: Scalar, y: Scalar) -> bool {
    &&& event_added(
        before.queue(),
        after.queue(),
        WidgetEvent::Mouse(
            MouseEvent::Scroll { x, y, mouse_position: before.cursor(), modifiers: before.held() },
        ),
    )
    &&& same_state(before, after)
}

/// `after` is `before` with `event` appended to the queue and nothing else
/// changed.
pub open spec fn queued(before: EventHandler, after: EventHandler, event: WidgetEvent) -> bool {
    &&& after.queue() == before.queue().push(event)
    &&& same_state(before, after)
}

/// What [`EventHandler::handle_event`] does with `event`: `after` is the
/// handler afterwards and `r` the window event returned.
pub open spec fn handled(
    before: EventHandler,
    after: EventHandler,
    event: Input,
    window_dimensions: Dimension,
    now: u64,
    r: Option<WindowEvent>,
) -> bool {
    match event {
        Input::Press(Button::Mouse(b)) => mouse_pressed(before, after, b) && r is None,
        Input::Press(Button::Keyboard(k)) => key_pressed(before, after, k) && r is None,
        Input::Release(Button::Mouse(b)) => mouse_released(before, after, b, now) && r is None,
        Input::Release(Button::Keyboard(k)) => key_released(before, after, k) && r is None,
        Input::Resize(w, h) => {
            let d = Dimension {
                width: Scalar { bits: binary64_from_u64(w as u64) },
                height: Scalar { bits: binary64_from_u64(h as u64) },
            };
            &&& queued(before, after, WidgetEvent::Window(WindowEvent::Resize(d)))
            &&& r == Some(WindowEvent::Resize(d))
        },
        Input::Motion(Motion::MouseCursor { x, y }) => cursor_moved(
            before,
            after,
            x,
            y,
            window_dimensions,
        ) && r is None,
        Input::Motion(Motion::Scroll { x, y }) => scrolled(before, after, x, y) && r is None,
        Input::Motion(_) => after.queue() == before.queue() && same_state(before, after) && r is None,
        Input::Text(string) => queued(
            before,
            after,
            WidgetEvent::Keyboard(KeyboardEvent::Text(string, before.held())),
        ) && r is None,
        Input::Touch(_) => after.queue() == before.queue() && same_state(before, after) && r is None,
        Input::Focus(focused) => if focused {
            queued(before, after, WidgetEvent::Window(WindowEvent::Focus)) && r == Some(
                WindowEvent::Focus,
            )
        } else {
            queued(before, after, WidgetEvent::Window(WindowEvent::UnFocus)) && r is None
        },
        Input::Redraw => after.queue() == before.queue() && same_state(before, after) && r == Some(
            WindowEvent::Redraw,
        ),
    }
}

fn near_exec(a: Position, b: Position) -> (r: bool)
    ensures
        r == near(a, b),
{
    let dx = a.x.sub(b.x);
    let dy = a.y.sub(b.y);
    dx.mul(dx).add(dy.mul(dy)).lt(Scalar::from_bits(NINE_BITS))
}

fn within_threshold(now: u64, time: u64) -> (r: bool)
    ensures
        r == (elapsed(now, time) < N_CLICK_THRESHOLD_NANOS),
{
    if now >= time {
        now - time < N_CLICK_THRESHOLD_NANOS
    } else {
        true
    }
}

impl EventHandler {
    pub closed spec fn keys(&self) -> Seq<(Key, KeyboardEvent)> {
        self.pressed_keys@
    }

    pub closed spec fn buttons(&self) -> Seq<(MouseButton, MouseEvent)> {
        self.pressed_buttons@
    }

    pub closed spec fn held(&self) -> ModifierKey {
        self.modifiers
    }

    pub closed spec fn last(&self) -> Option<(u64, MouseEvent)> {
        self.last_click
    }

    pub closed spec fn cursor(&self) -> Position {
        self.mouse_position
    }

    pub closed spec fn queue(&self) -> Seq<WidgetEvent> {
        self.events@
    }

    /// The tables of pressed keys and buttons hold each key once, and the
    /// queue of events is coalesced.
    pub open spec fn wf(&self) -> bool {
        &&& unique_keys(self.keys())
        &&& unique_keys(self.buttons())
        &&& coalesced(self.queue())
    }

    pub fn new() -> (h: Self)
        ensures
            h.wf(),
            h.keys() == Seq::<(Key, KeyboardEvent)>::empty(),
            h.buttons() == Seq::<(MouseButton, MouseEvent)>::empty(),
            h.held().bits == 0,
            h.last() is None,
            h.cursor().x.bits == ZERO_BITS && h.cursor().y.bits == ZERO_BITS,
            h.queue() == Seq::<WidgetEvent>::empty(),
    {
        EventHandler {
            origin: clock_now(),
            pressed_keys: Vec::new(),
            pressed_buttons: Vec::new(),
            modifiers: ModifierKey::default(),
            last_click: None,
            mouse_position: Position::new(Scalar::zero(), Scalar::zero()),
            events: Vec::new(),
        }
    }

    /// The count of the last click where it was a multi-click.
    pub fn last_n_click_count(&self) -> (r: Option<u32>)
        ensures
            r == (match self.last() {
                Some((_, MouseEvent::NClick(_, _, _, n))) => Some(n),
                _ => None,
            }),
    {
        match self.last_click {
            Some((_, MouseEvent::NClick(_, _, _, n))) => Some(n),
            _ => None,
        }
    }

    pub fn get_events(&self) -> (r: &Vec<WidgetEvent>)
        ensures
            r@ == self.queue(),
    {
        &self.events
    }

    pub fn clear_events(&mut self)
        requires
            old(self).wf(),
        ensures
            final(self).wf(),
            final(self).queue() == Seq::<WidgetEvent>::empty(),
            same_state(*old(self), *final(self)),
    {
        self.events.clear()
    }

    /// Appends an event that is neither a move nor a scroll.
    fn push_event(&mut self, event: WidgetEvent)
        requires
            old(self).wf(),
            !is_move(event),
            !is_scroll(event),
        ensures
            final(self).wf(),
            queued(*old(self), *final(self), event),
    {
        self.events.push(event);
    }

    /// Adds `event` to the queue, folding runs of moves and of scrolls.
    fn add_event(&mut self, event: WidgetEvent)
        requires
            old(self).wf(),
        ensures
            final(self).wf(),
            event_added(old(self).queue(), final(self).queue(), event),
            same_state(*old(self), *final(self)),
    {
        let n = self.events.len();
        match event {
            WidgetEvent::Mouse(MouseEvent::Move { from: _, to, delta_xy, modifiers }) => {
                // We should only add move events where the mouse have actually moved
                let zero = Scalar::zero();
                if !(delta_xy.x == zero) || !(delta_xy.y == zero) {
                    // If the last event was also a move event we can compress it to a single move event.
                    if n > 0 {
                        if let WidgetEvent::Mouse(
                            MouseEvent::Move { from: f0, to: _, delta_xy: d0, modifiers: _ },
                        ) = self.events[n - 1] {
                            let merged = WidgetEvent::Mouse(
                                MouseEvent::Move {
                                    from: f0,
                                    to,
                                    delta_xy: Position::new(d0.x.add(delta_xy.x), d0.y.add(delta_xy.y)),
                                    modifiers,
                                },
                            );
                            self.events.set(n - 1, merged);
                            assert(self.events@.drop_last() == old(self).events@.drop_last());
                            assert(coalesced(self.events@));
                            return ;
                        }
                    }
                    self.events.push(event);
                }
            },
            WidgetEvent::Mouse(MouseEvent::Scroll { x, y, mouse_position, modifiers }) => {
                // If the last event was a scroll, we can compress the events into a single scroll event.
                if n > 0 {
                    if let WidgetEvent::Mouse(
                        MouseEvent::Scroll { x: x0, y: y0, mouse_position: _, modifiers: _ },
                    ) = self.events[n - 1] {
                        let merged = WidgetEvent::Mouse(
                            MouseEvent::Scroll { x: x0.add(x), y: y0.add(y), mouse_position, modifiers },
                        );
                        self.events.set(n - 1, merged);
                        assert(self.events@.drop_last() == old(self).events@.drop_last());
                        assert(coalesced(self.events@));
                        return ;
                    }
                }
                self.events.push(event);
            },
            _ => {
                self.events.push(event);
            },
        }
    }

    fn press_mouse(&mut self, button: MouseButton)
        requires
            old(self).wf(),
        ensures
            final(self).wf(),
            mouse_pressed(*old(self), *final(self), button),
    {
        let mouse_xy = self.mouse_position;
        let modifiers = self.modifiers;
        self.push_event(WidgetEvent::Mouse(MouseEvent::Press(button, mouse_xy, modifiers)));
        store(&mut self.pressed_buttons, button, MouseEvent::Press(button, mouse_xy, modifiers));
    }

    fn press_key(&mut self, key: Key)
        requires
            old(self).wf(),
        ensures
            final(self).wf(),
            key_pressed(*old(self), *final(self), key),
    {
        let modifiers = self.modifiers;
        self.push_event(WidgetEvent::Keyboard(KeyboardEvent::Press(key, modifiers)));
        store(&mut self.pressed_keys, key, KeyboardEvent::Press(key, modifiers));
        // If some modifier key was pressed, add it to the current modifiers.
        if let Some(modifier) = filter_modifier(key) {
            self.modifiers.insert(modifier);
        }
    }

    fn release_key(&mut self, key: Key)
        requires
            old(self).wf(),
        ensures
            final(self).wf(),
            key_released(*old(self), *final(self), key),
    {
        let modifiers = self.modifiers;
        self.push_event(WidgetEvent::Keyboard(KeyboardEvent::Release(key, modifiers)));
        let pressed_event = take(&mut self.pressed_keys, &key);
        if let Some(KeyboardEvent::Press(..)) = pressed_event {
            self.push_event(WidgetEvent::Keyboard(KeyboardEvent::Click(key, modifiers)));
        }
        if let Some(modifier) = filter_modifier(key) {
            self.modifiers.remove(modifier);
        }
    }

    fn release_mouse(&mut self, button: MouseButton, now: u64)
        requires
            old(self).wf(),
            old(self).last() matches Some((_, MouseEvent::NClick(_, _, _, n))) ==> n < u32::MAX,
        ensures
            final(self).wf(),
            mouse_released(*old(self), *final(self), button, now),
    {
        let mouse_xy = self.mouse_position;
        let modifiers = self.modifiers;
        self.push_event(WidgetEvent::Mouse(MouseEvent::Release(button, mouse_xy, modifiers)));
        let pressed_event = take(&mut self.pressed_buttons, &button);
        if let Some((time, MouseEvent::NClick(b, location, _, n))) = self.last_click {
            if b == button && near_exec(location, mouse_xy) && within_threshold(now, time) {
                let n_click_event = MouseEvent::NClick(button, mouse_xy, modifiers, n + 1);
                self.push_event(WidgetEvent::Mouse(n_click_event));
                self.last_click = Some((now, n_click_event));
            }
        } else if let Some((time, MouseEvent::Click(b, location, _))) = self.last_click {
            if b == button && near_exec(location, mouse_xy) && within_threshold(now, time) {
                let n_click_event = MouseEvent::NClick(button, mouse_xy, modifiers, 2);
                self.push_event(WidgetEvent::Mouse(n_click_event));
                self.last_click = Some((now, n_click_event));
            }
        }
        // Handle click events
        if let Some(MouseEvent::Press(_, location, _)) = pressed_event {
            if near_exec(location, mouse_xy) {
                let click_event = MouseEvent::Click(button, mouse_xy, modifiers);
                if let Some((time, MouseEvent::NClick(_, _, _, _))) = self.last_click {
                    if !within_threshold(now, time) {
                        self.push_event(WidgetEvent::Mouse(click_event));
                        self.last_click = Some((now, click_event));
                    }
                } else {
                    self.push_event(WidgetEvent::Mouse(click_event));
                    self.last_click = Some((now, click_event));
                }
            }
        }
    }

    fn move_cursor(&mut self, x: Scalar, y: Scalar, window_dimensions: Dimension)
        requires
            old(self).wf(),
        ensures
            final(self).wf(),
            cursor_moved(*old(self), *final(self), x, y, window_dimensions),
    {
        let two = Scalar::from_bits(TWO_BITS);
        let last_mouse_xy = self.mouse_position;
        let mouse_xy = Position::new(
            x.add(window_dimensions.width.div(two)),
            window_dimensions.height.sub(y.add(window_dimensions.height.div(two))),
        );
        let delta_xy = Position::new(mouse_xy.x.sub(last_mouse_xy.x), mouse_xy.y.sub(last_mouse_xy.y));
        let modifiers = self.modifiers;
        let move_event = MouseEvent::Move {
            from: last_mouse_xy,
            to: mouse_xy,
            delta_xy,
            modifiers,
        };
        self.add_event(WidgetEvent::Mouse(move_event));
        let ghost moved_queue = self.events@;
        // Look for drag events.
        let distance = delta_xy.x.add(delta_xy.y).abs();
        if Scalar::zero().lt(distance) {
            let mut i: usize = 0;
            while i < self.pressed_buttons.len()
                invariant
                    self.wf(),
                    i <= self.pressed_buttons@.len(),
                    self.pressed_buttons@ == old(self).pressed_buttons@,
                    self.events@ == moved_queue + drag_events(
                        self.pressed_buttons@.take(i as int),
                        last_mouse_xy,
                        mouse_xy,
                        delta_xy,
                        modifiers,
                    ),
                    self.pressed_keys@ == old(self).pressed_keys@,
                    self.modifiers == old(self).modifiers,
                    self.last_click == old(self).last_click,
                    self.mouse_position == old(self).mouse_position,
                decreases self.pressed_buttons@.len() - i,
            {
                assert(self.pressed_buttons@.take(i + 1).drop_last()
                    == self.pressed_buttons@.take(i as int));
                let (button, evt) = self.pressed_buttons[i];
                if let MouseEvent::Press(_, location, _) = evt {
                    let total_delta_xy = Position::new(
                        mouse_xy.x.sub(location.x),
                        mouse_xy.y.sub(location.y),
                    );
                    let drag_event = MouseEvent::Drag {
                        button,
                        origin: location,
                        from: last_mouse_xy,
                        to: mouse_xy,
                        delta_xy,
                        total_delta_xy,
                        modifiers,
                    };
                    self.push_event(WidgetEvent::Mouse(drag_event));
                }
                i = i + 1;
            }
            assert(self.pressed_buttons@.take(self.pressed_buttons@.len() as int)
                == self.pressed_buttons@);
        }
        proof {
            let drag_queue = if drags(delta_xy) {
                drag_events(self.pressed_buttons@, last_mouse_xy, mouse_xy, delta_xy, modifiers)
            } else {
                Seq::empty()
            };
            assert(self.events@ =~= moved_queue + drag_queue);
            assert(self.events@.skip(moved_queue.len() as int) =~= drag_queue);
            assert(self.events@.take(moved_queue.len() as int) =~= moved_queue);
        }
        // Update the position of the mouse.
        self.mouse_position = mouse_xy;
    }

    /// The nanoseconds since the handler was made, saturating at `u64::MAX`.
    fn clock(&self) -> u64 {
        let n = duration_nanos(&clock_elapsed(&self.origin));
        if n > 0xFFFF_FFFF_FFFF_FFFFu128 {
            0xFFFF_FFFF_FFFF_FFFFu64
        } else {
            n as u64
        }
    }

    /// Takes in `event` as it comes now, in a window of size
    /// `window_dimensions`: [`Self::handle_event_at`] at the moment read from
    /// the clock.
    pub fn handle_event(&mut self, event: Input, window_dimensions: Dimension) -> (r: Option<WindowEvent>)
        requires
            old(self).wf(),
            (event matches Input::Release(Button::Mouse(_))) ==> (old(self).last() matches Some(
                (_, MouseEvent::NClick(_, _, _, n)),
            ) ==> n < u32::MAX),
        ensures
            final(self).wf(),
            exists|now: u64| handled(*old(self), *final(self), event, window_dimensions, now, r),
    {
        let now = self.clock();
        self.handle_event_at(event, window_dimensions, now)
    }

    /// Handle raw window events and update the state accordingly.
    ///
    /// Presses and releases of keys and buttons, text, focus changes and
    /// resizes are queued as widget events; releases also make clicks and
    /// n-clicks, cursor moves make moves and, with buttons held, drags; runs of
    /// moves and of scrolls are folded into one event. `now` is the time of the
    /// event in nanoseconds on a monotonic clock; it decides n-clicks. The
    /// window event returned is the one the window itself must act on.
    ///
    /// `event` came at `now` nanoseconds after the handler was made, in a
    /// window of size `window_dimensions`.
    pub fn handle_event_at(&mut self, event: Input, window_dimensions: Dimension, now: u64) -> (r: Option<
        WindowEvent,
    >)
        requires
            old(self).wf(),
            (event matches Input::Release(Button::Mouse(_))) ==> (old(self).last() matches Some(
                (_, MouseEvent::NClick(_, _, _, n)),
            ) ==> n < u32::MAX),
        ensures
            final(self).wf(),
            handled(*old(self), *final(self), event, window_dimensions, now, r),
    {
        let modifiers = self.modifiers;
        match event {
            // Some button was pressed, whether keyboard or mouse.
            Input::Press(button_type) => match button_type {
                Button::Mouse(mouse_button) => {
                    self.press_mouse(mouse_button);
                    None
                },
                Button::Keyboard(key) => {
                    self.press_key(key);
                    None
                },
            },
            // Some button was released.
            Input::Release(button_type) => match button_type {
                Button::Mouse(mouse_button) => {
                    self.release_mouse(mouse_button, now);
                    None
                },
                Button::Keyboard(key) => {
                    self.release_key(key);
                    None
                },
            },
            // The window was resized.
            Input::Resize(w, h) => {
                let d = Dimension::new(Scalar::from_u32(w), Scalar::from_u32(h));
                self.push_event(WidgetEvent::Window(WindowEvent::Resize(d)));
                Some(WindowEvent::Resize(d))
            },
            // The mouse cursor was moved, or some scrolling occurred.
            Input::Motion(motion) => {
                match motion {
                    Motion::MouseCursor { x, y } => {
                        self.move_cursor(x, y, window_dimensions);
                    },
                    Motion::Scroll { x, y } => {
                        let event = MouseEvent::Scroll {
                            x,
                            y,
                            mouse_position: self.mouse_position,
                            modifiers,
                        };
                        self.add_event(WidgetEvent::Mouse(event));
                    },
                    _ => {},
                }
                None
            },
            Input::Text(string) => {
                self.push_event(WidgetEvent::Keyboard(KeyboardEvent::Text(string, modifiers)));
                None
            },
            Input::Touch(_) => None,
            Input::Focus(focused) => {
                if focused {
                    self.push_event(WidgetEvent::Window(WindowEvent::Focus));
                    Some(WindowEvent::Focus)
                } else {
                    self.push_event(WidgetEvent::Window(WindowEvent::UnFocus));
                    None
                }
            },
            Input::Redraw => Some(WindowEvent::Redraw),
        }
    }
}

} // verus!
