use vstd::prelude::*;

use crate::event::{KeyboardEvent, MouseEvent, WidgetEvent};

verus! {

/// A widget that reacts to events, with a global state `S` of the program.
pub trait Event<S> {
    /// A function that will be called when a mouse event occurs.
    /// It will only get called on the events where the cursor is inside.
    /// Return true if the event is consumed, and will thus not be delegated to
    /// other widgets.
    fn handle_mouse_event(&mut self, event: &MouseEvent, consumed: &bool, global_state: &mut S);

    /// A function that will get called when a keyboard event occurs.
    /// This event will be given to all widgets, no matter if they are in focus or not.
    /// This is because the focus will be decided by the widgets themselves.
    fn handle_keyboard_event(&mut self, event: &KeyboardEvent, global_state: &mut S);

    /// This will get called if there are event that are not covered by the other functions.
    /// It will never get called with mouse or keyboard events.
    fn handle_other_event(&mut self, event: &WidgetEvent);
}

/// A widget that ignores every event.
pub trait NoEvents {}

impl<S, T: NoEvents> Event<S> for T {
    fn handle_mouse_event(&mut self, event: &MouseEvent, consumed: &bool, global_state: &mut S)
        ensures
            *final(self) == *old(self),
            *final(global_state) == *old(global_state),
    {
    }

    fn handle_keyboard_event(&mut self, event: &KeyboardEvent, global_state: &mut S)
        ensures
            *final(self) == *old(self),
            *final(global_state) == *old(global_state),
    {
    }

    fn handle_other_event(&mut self, event: &WidgetEvent)
        ensures
            *final(self) == *old(self),
    {
    }
}

} // verus!
