use carbide::event::Key;
use carbide::scalar::Scalar;
use carbide::window_loop::{frame_step, render_step, LoopAction, LoopEvent, RenderOutcome, TARGET_FRAME_NANOS};

#[test]
fn close_and_escape_end_the_loop() {
    assert!(matches!(frame_step(LoopEvent::CloseRequested), LoopAction::Exit));
    assert!(matches!(frame_step(LoopEvent::KeyPressed(Key::Escape)), LoopAction::Exit));
    assert!(matches!(frame_step(LoopEvent::KeyPressed(Key::F1)), LoopAction::DumpImages));
    assert!(matches!(frame_step(LoopEvent::KeyPressed(Key::A)), LoopAction::Continue));
    assert!(matches!(frame_step(LoopEvent::OtherWindowEvent), LoopAction::Continue));
    assert!(matches!(frame_step(LoopEvent::Other), LoopAction::Continue));
}

#[test]
fn resizes_are_taken_and_redrawn() {
    assert!(matches!(frame_step(LoopEvent::Resized(640, 480)), LoopAction::ResizeAndRedraw(640, 480)));
    let scale = Scalar::from_bits(2.0f64.to_bits());
    match frame_step(LoopEvent::ScaleFactorChanged { width: 10, height: 20, scale_factor: scale }) {
        LoopAction::RescaleAndRedraw { width, height, scale_factor } => {
            assert_eq!((width, height, f64::from_bits(scale_factor.to_bits())), (10, 20, 2.0));
        },
        other => panic!("{:?}", other),
    }
    assert!(matches!(frame_step(LoopEvent::RedrawRequested), LoopAction::UpdateAndRender));
}

#[test]
fn frames_are_paced_at_sixty_a_second() {
    assert_eq!(TARGET_FRAME_NANOS, 16_666_667);
    assert!(matches!(
        frame_step(LoopEvent::RedrawEventsCleared { since_last_update_nanos: 16_666_667 }),
        LoopAction::RequestRedraw
    ));
    assert!(matches!(
        frame_step(LoopEvent::RedrawEventsCleared { since_last_update_nanos: 6_666_667 }),
        LoopAction::WaitNanos(10_000_000)
    ));
    assert!(matches!(
        frame_step(LoopEvent::RedrawEventsCleared { since_last_update_nanos: 0 }),
        LoopAction::WaitNanos(16_666_667)
    ));
}

#[test]
fn render_failures_are_answered() {
    assert!(matches!(render_step(RenderOutcome::Drawn), LoopAction::Continue));
    assert!(matches!(render_step(RenderOutcome::Lost), LoopAction::RecreateSwapChain));
    assert!(matches!(render_step(RenderOutcome::OutOfMemory), LoopAction::Exit));
    assert!(matches!(render_step(RenderOutcome::Other), LoopAction::Continue));
}

#[test]
fn the_loop_starts_with_the_focus() {
    assert!(matches!(carbide::window_loop::first_input(), carbide::event::Input::Focus(true)));
}
