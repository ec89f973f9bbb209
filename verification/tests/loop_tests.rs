use osmium::event_loop::{editor_actions, EngineLoop, LoopAction, LoopInput};
use osmium::swapchain::{
    AcquireOutcome, AcquireStep, FenceSlot, FlushOutcome, RenderState, SwapchainEvent, SwapchainEventStep,
};

#[test]
fn mouse_motion_counts_only_when_captured() {
    let mut l = EngineLoop::new();
    assert_eq!(l.handle(LoopInput::MouseMotion, false), vec![]);
    assert_eq!(l.handle(LoopInput::MouseMotion, true), vec![LoopAction::AddMouseDelta]);
}

#[test]
fn escape_releases_and_left_click_captures() {
    let mut l = EngineLoop::new();
    assert_eq!(
        l.handle(LoopInput::KeyboardInput { escape: true, pressed: true }, true),
        vec![
            LoopAction::ShowCursor,
            LoopAction::ReleaseCursorGrab,
            LoopAction::SetMouseCaptured(false),
            LoopAction::SendKey { pressed: true },
        ]
    );
    assert_eq!(
        l.handle(LoopInput::KeyboardInput { escape: true, pressed: false }, true),
        vec![LoopAction::SendKey { pressed: false }]
    );
    assert_eq!(
        l.handle(LoopInput::MouseInput { left: true, pressed: true }, false),
        vec![
            LoopAction::HideCursor,
            LoopAction::GrabCursor,
            LoopAction::SetMouseCaptured(true),
            LoopAction::SendMouseButton { pressed: true },
        ]
    );
    assert_eq!(
        l.handle(LoopInput::MouseInput { left: false, pressed: true }, false),
        vec![LoopAction::SendMouseButton { pressed: true }]
    );
}

#[test]
fn window_events_map_to_actions() {
    let mut l = EngineLoop::new();
    assert_eq!(l.handle(LoopInput::CloseRequested, false), vec![LoopAction::Exit]);
    assert_eq!(
        l.handle(LoopInput::Resized { width: 800, height: 600 }, false),
        vec![
            LoopAction::ResizeRenderer { width: 800, height: 600 },
            LoopAction::SendWindowResized { width: 800, height: 600 },
        ]
    );
    assert_eq!(l.handle(LoopInput::CursorMoved, false), vec![LoopAction::SendMouseMoved]);
    assert_eq!(l.handle(LoopInput::OtherWindowEvent, false), vec![]);
    assert_eq!(l.handle(LoopInput::LoopDestroyed, false), vec![LoopAction::PrintShutdown]);
    assert_eq!(
        l.handle(LoopInput::RedrawRequested, false),
        vec![LoopAction::UpdateSystems, LoopAction::Render, LoopAction::ClearFrameEvents]
    );
    assert_eq!(l.handle(LoopInput::Other, false), vec![]);
    assert_eq!(l.frame_count(), 0);
}

#[test]
fn frames_are_counted_and_reported_each_second() {
    let mut l = EngineLoop::new();
    for i in 1..=3 {
        assert_eq!(
            l.handle(LoopInput::MainEventsCleared { second_elapsed: false }, false),
            vec![LoopAction::RequestRedraw]
        );
        assert_eq!(l.frame_count(), i);
    }
    assert_eq!(
        l.handle(LoopInput::MainEventsCleared { second_elapsed: true }, false),
        vec![LoopAction::PrintFps(4), LoopAction::RequestRedraw]
    );
    assert_eq!(l.frame_count(), 0);
}

#[test]
fn editor_sends_window_events_to_gui_first() {
    assert_eq!(editor_actions(LoopInput::MouseMotion), vec![LoopAction::AddMouseDelta]);
    assert_eq!(editor_actions(LoopInput::CloseRequested), vec![LoopAction::UpdateGui, LoopAction::Exit]);
    assert_eq!(
        editor_actions(LoopInput::KeyboardInput { escape: true, pressed: true }),
        vec![LoopAction::UpdateGui, LoopAction::SendKey { pressed: true }]
    );
    assert_eq!(
        editor_actions(LoopInput::MouseInput { left: true, pressed: false }),
        vec![LoopAction::UpdateGui, LoopAction::SendMouseButton { pressed: false }]
    );
    assert_eq!(
        editor_actions(LoopInput::Resized { width: 3, height: 4 }),
        vec![
            LoopAction::UpdateGui,
            LoopAction::ResizeRenderer { width: 3, height: 4 },
            LoopAction::SendWindowResized { width: 3, height: 4 },
        ]
    );
    assert_eq!(editor_actions(LoopInput::CursorMoved), vec![LoopAction::UpdateGui, LoopAction::SendMouseMoved]);
    assert_eq!(editor_actions(LoopInput::OtherWindowEvent), vec![LoopAction::UpdateGui]);
    assert_eq!(
        editor_actions(LoopInput::MainEventsCleared { second_elapsed: true }),
        vec![LoopAction::RequestRedraw]
    );
    assert_eq!(
        editor_actions(LoopInput::RedrawRequested),
        vec![LoopAction::UpdateSystems, LoopAction::CreateUi, LoopAction::Render, LoopAction::ClearFrameEvents]
    );
    assert_eq!(editor_actions(LoopInput::LoopDestroyed), vec![LoopAction::PrintShutdown]);
    assert_eq!(editor_actions(LoopInput::Other), vec![]);
}

#[test]
fn resize_rebuilds_swapchain_and_pipeline_once() {
    let mut s = RenderState::new();
    assert_eq!(
        s.handle_event(SwapchainEvent::MainEventsCleared),
        SwapchainEventStep::DrawFrame { recreate_swapchain: false, rebuild_pipeline: false }
    );
    assert_eq!(s.handle_event(SwapchainEvent::Resized), SwapchainEventStep::Nothing);
    assert!(s.window_resized);
    assert_eq!(
        s.handle_event(SwapchainEvent::MainEventsCleared),
        SwapchainEventStep::DrawFrame { recreate_swapchain: true, rebuild_pipeline: true }
    );
    assert_eq!(
        s.handle_event(SwapchainEvent::MainEventsCleared),
        SwapchainEventStep::DrawFrame { recreate_swapchain: false, rebuild_pipeline: false }
    );
    assert_eq!(s.handle_event(SwapchainEvent::CloseRequested), SwapchainEventStep::Exit);
    assert_eq!(s.handle_event(SwapchainEvent::LoopDestroyed), SwapchainEventStep::ReportClean);
    assert_eq!(s.handle_event(SwapchainEvent::Other), SwapchainEventStep::Nothing);
}

#[test]
fn out_of_date_swapchain_is_rebuilt_next_frame() {
    let mut s = RenderState::new();
    assert_eq!(s.acquired(AcquireOutcome::OutOfDate), AcquireStep::SkipFrame);
    assert!(s.recreate_swapchain);
    assert_eq!(
        s.handle_event(SwapchainEvent::MainEventsCleared),
        SwapchainEventStep::DrawFrame { recreate_swapchain: true, rebuild_pipeline: false }
    );
    assert!(!s.recreate_swapchain);
    assert_eq!(
        s.acquired(AcquireOutcome::Acquired { image: 2, suboptimal: true }),
        AcquireStep::Draw { image: 2 }
    );
    assert!(s.recreate_swapchain);
    assert_eq!(s.acquired(AcquireOutcome::Failed), AcquireStep::Fail);
}

#[test]
fn fence_slots_follow_flush_outcome() {
    let mut s = RenderState::new();
    assert_eq!(s.flushed(1, FlushOutcome::Flushed), FenceSlot::Store);
    assert_eq!(s.previous_fence_i, 1);
    assert!(!s.recreate_swapchain);
    assert_eq!(s.flushed(2, FlushOutcome::Failed), FenceSlot::EmptyAndReport);
    assert_eq!(s.previous_fence_i, 2);
    assert_eq!(s.flushed(0, FlushOutcome::OutOfDate), FenceSlot::Empty);
    assert!(s.recreate_swapchain);
    assert_eq!(s.previous_fence_i, 0);
}
