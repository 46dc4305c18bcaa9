use vstd::prelude::*;

use crate::event::{Input, Key};
use crate::scalar::Scalar;

verus! {

/// The time between two frames, 1/60 s, in whole nanoseconds (rounded).
pub const TARGET_FRAME_NANOS: u64 = 16_666_667u64;

/// The input a window hands to its event handler before its event loop
/// hears anything: that the window has the focus, so that the widgets take in
/// the environment's state when the loop starts.
pub fn first_input() -> (i: Input)
    ensures
        i == Input::Focus(true),
{
    Input::Focus(true)
}

/// What the event loop of a window hears, as the window's decisions need it.
#[derive(Clone, Copy, Debug)]
pub enum LoopEvent {
    /// The window is asked to close.
    CloseRequested,
    /// A key of the keyboard went down.
    KeyPressed(Key),
    /// The window took a new size, in pixels.
    Resized(u32, u32),
    /// The window's scale factor changed, and with it its size in pixels.
    ScaleFactorChanged { width: u32, height: u32, scale_factor: Scalar },
    /// Any other event of the window.
    OtherWindowEvent,
    /// The window is to be drawn.
    RedrawRequested,
    /// All redraws of this turn are done; the last frame was asked for
    /// `since_last_update_nanos` ago.
    RedrawEventsCleared { since_last_update_nanos: u64 },
    /// An event of no other window or kind.
    Other,
}

/// How drawing a frame went.
#[derive(Clone, Copy, Debug, PartialEq, Eq, Structural)]
pub enum RenderOutcome {
    Drawn,
    /// The swap chain was lost and must be made again.
    Lost,
    OutOfMemory,
    /// A passing failure, mended by the next frame.
    Other,
}

/// What the window does next.
#[derive(Clone, Copy, Debug)]
pub enum LoopAction {
    /// Nothing more.
    Continue,
    /// Leave the event loop.
    Exit,
    /// Write the glyph and image atlases out as images (for debugging).
    DumpImages,
    /// Take the new size, then ask for a frame.
    ResizeAndRedraw(u32, u32),
    /// Take the new size and scale factor, then ask for a frame.
    RescaleAndRedraw { width: u32, height: u32, scale_factor: Scalar },
    /// Deliver the queued events to the widgets and draw a frame.
    UpdateAndRender,
    /// Ask for a frame and restart the frame timer.
    RequestRedraw,
    /// Sleep this many nanoseconds, until the next frame is due.
    WaitNanos(u64),
    /// Make the swap chain again at the window's present size.
    RecreateSwapChain,
}

/// The window's answer to `event`: a close request or Escape ends the loop,
/// F1 dumps the atlases, a resize or a new scale factor is taken and a frame
/// asked for; a redraw draws; once redraws are done, a frame is asked for
/// where one is due and the loop otherwise sleeps until it is.
pub open spec fn loop_action(event: LoopEvent) -> LoopAction {
    match event {
        LoopEvent::CloseRequested => LoopAction::Exit,
        LoopEvent::KeyPressed(Key::Escape) => LoopAction::Exit,
        LoopEvent::KeyPressed(Key::F1) => LoopAction::DumpImages,
        LoopEvent::KeyPressed(_) => LoopAction::Continue,
        LoopEvent::Resized(w, h) => LoopAction::ResizeAndRedraw(w, h),
        LoopEvent::ScaleFactorChanged { width, height, scale_factor } => LoopAction::RescaleAndRedraw {
            width,
            height,
            scale_factor,
        },
        LoopEvent::OtherWindowEvent => LoopAction::Continue,
        LoopEvent::RedrawRequested => LoopAction::UpdateAndRender,
        LoopEvent::RedrawEventsCleared { since_last_update_nanos } => if since_last_update_nanos
            >= TARGET_FRAME_NANOS {
            LoopAction::RequestRedraw
        } else {
            LoopAction::WaitNanos((TARGET_FRAME_NANOS - since_last_update_nanos) as u64)
        },
        LoopEvent::Other => LoopAction::Continue,
    }
}

/// The window's answer to how drawing a frame went: a lost swap chain is made
/// again, running out of memory ends the loop, anything else goes on.
pub open spec fn render_action(outcome: RenderOutcome) -> LoopAction {
    match outcome {
        RenderOutcome::Lost => LoopAction::RecreateSwapChain,
        RenderOutcome::OutOfMemory => LoopAction::Exit,
        _ => LoopAction::Continue,
    }
}

/// What the window's event loop does on `event`.
pub fn frame_step(event: LoopEvent) -> (a: LoopAction)
    ensures
        a == loop_action(event),
{
    match event {
        LoopEvent::CloseRequested => LoopAction::Exit,
        LoopEvent::KeyPressed(Key::Escape) => LoopAction::Exit,
        LoopEvent::KeyPressed(Key::F1) => LoopAction::DumpImages,
        LoopEvent::KeyPressed(_) => LoopAction::Continue,
        LoopEvent::Resized(w, h) => LoopAction::ResizeAndRedraw(w, h),
        LoopEvent::ScaleFactorChanged { width, height, scale_factor } => LoopAction::RescaleAndRedraw {
            width,
            height,
            scale_factor,
        },
        LoopEvent::OtherWindowEvent => LoopAction::Continue,
        LoopEvent::RedrawRequested => LoopAction::UpdateAndRender,
        LoopEvent::RedrawEventsCleared { since_last_update_nanos } => {
            if since_last_update_nanos >= TARGET_FRAME_NANOS {
                LoopAction::RequestRedraw
            } else {
                LoopAction::WaitNanos(TARGET_FRAME_NANOS - since_last_update_nanos)
            }
        },
        LoopEvent::Other => LoopAction::Continue,
    }
}

/// What the window does after drawing a frame with `outcome`.
pub fn render_step(outcome: RenderOutcome) -> (a: LoopAction)
    ensures
        a == render_action(outcome),
{
    match outcome {
        RenderOutcome::Lost => LoopAction::RecreateSwapChain,
        RenderOutcome::OutOfMemory => LoopAction::Exit,
        _ => LoopAction::Continue,
    }
}

} // verus!
