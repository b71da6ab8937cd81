use render_loop::dispatch::{ControlFlow, Directive, FrameFollowUp, LoopState};
use render_loop::events::{
    Event, Key, KeyState, RenderOutcome, RendererCall, RendererReplies, Size, WindowPayload,
};

const MAIN: u64 = 1;

fn replies(claimed: bool, render: RenderOutcome, width: u32, height: u32) -> RendererReplies {
    RendererReplies { claimed, render, current_size: Size { width, height } }
}

fn quiet() -> RendererReplies {
    replies(false, RenderOutcome::Presented, 640, 480)
}

fn window_event(id: u64, payload: WindowPayload) -> Event {
    Event::Window { id, payload }
}

#[test]
fn close_requested_exits_with_no_render_after() {
    let mut state = LoopState::new(MAIN);
    let script = vec![
        (window_event(MAIN, WindowPayload::CloseRequested), quiet()),
        (Event::RedrawRequested, quiet()),
        (Event::MainEventsCleared, quiet()),
        (Event::RedrawRequested, quiet()),
    ];
    let calls = state.drive(&script);
    assert_eq!(state.flow, ControlFlow::Exit);
    assert_eq!(calls, vec![RendererCall::Input(WindowPayload::CloseRequested)]);
}

#[test]
fn escape_press_exits() {
    let mut state = LoopState::new(MAIN);
    let payload = WindowPayload::KeyboardInput { state: KeyState::Pressed, key: Key::Escape };
    let calls = state.step(&window_event(MAIN, payload), &quiet());
    assert_eq!(state.flow, ControlFlow::Exit);
    assert_eq!(calls, vec![RendererCall::Input(payload)]);
}

#[test]
fn escape_release_does_not_exit() {
    let mut state = LoopState::new(MAIN);
    let payload = WindowPayload::KeyboardInput { state: KeyState::Released, key: Key::Escape };
    let calls = state.step(&window_event(MAIN, payload), &quiet());
    assert_eq!(state.flow, ControlFlow::Continue);
    assert_eq!(calls, vec![RendererCall::Input(payload)]);
}

#[test]
fn other_key_changes_nothing() {
    let mut state = LoopState::new(MAIN);
    let payload = WindowPayload::KeyboardInput { state: KeyState::Pressed, key: Key::Other(65) };
    let calls = state.step(&window_event(MAIN, payload), &quiet());
    assert_eq!(state.flow, ControlFlow::Continue);
    assert_eq!(calls, vec![RendererCall::Input(payload)]);
}

#[test]
fn zero_area_resize_then_redraw() {
    let mut state = LoopState::new(MAIN);
    let zero = Size { width: 0, height: 0 };
    let script = vec![
        (window_event(MAIN, WindowPayload::Resized(zero)), quiet()),
        (Event::RedrawRequested, quiet()),
    ];
    let calls = state.drive(&script);
    assert_eq!(state.flow, ControlFlow::Continue);
    assert_eq!(
        calls,
        vec![
            RendererCall::Input(WindowPayload::Resized(zero)),
            RendererCall::Resize(zero),
            RendererCall::Update,
            RendererCall::Render,
        ]
    );
}

#[test]
fn resize_forwarded_unmodified_at_extremes() {
    let mut state = LoopState::new(MAIN);
    let huge = Size { width: u32::MAX, height: u32::MAX };
    let calls = state.step(&window_event(MAIN, WindowPayload::Resized(huge)), &quiet());
    assert_eq!(state.flow, ControlFlow::Continue);
    assert_eq!(
        calls,
        vec![RendererCall::Input(WindowPayload::Resized(huge)), RendererCall::Resize(huge)]
    );
}

#[test]
fn scale_factor_change_resizes_like_a_resize() {
    let mut state = LoopState::new(MAIN);
    let size = Size { width: 1920, height: 1080 };
    let calls = state.step(&window_event(MAIN, WindowPayload::ScaleFactorChanged(size)), &quiet());
    assert_eq!(state.flow, ControlFlow::Continue);
    assert_eq!(
        calls,
        vec![
            RendererCall::Input(WindowPayload::ScaleFactorChanged(size)),
            RendererCall::Resize(size)
        ]
    );
}

#[test]
fn surface_lost_reconfigures_with_current_size() {
    let mut state = LoopState::new(MAIN);
    let rep = replies(false, RenderOutcome::SurfaceLost, 800, 600);
    let calls = state.step(&Event::RedrawRequested, &rep);
    assert_eq!(state.flow, ControlFlow::Continue);
    assert_eq!(
        calls,
        vec![
            RendererCall::Update,
            RendererCall::Render,
            RendererCall::Resize(Size { width: 800, height: 600 }),
        ]
    );
}

#[test]
fn out_of_memory_exits_with_no_render_after() {
    let mut state = LoopState::new(MAIN);
    let script = vec![
        (Event::RedrawRequested, replies(false, RenderOutcome::OutOfMemory, 640, 480)),
        (Event::RedrawRequested, quiet()),
        (window_event(MAIN, WindowPayload::Resized(Size { width: 5, height: 5 })), quiet()),
    ];
    let calls = state.drive(&script);
    assert_eq!(state.flow, ControlFlow::Exit);
    assert_eq!(calls, vec![RendererCall::Update, RendererCall::Render]);
}

#[test]
fn other_render_error_drops_frame_and_continues() {
    let mut state = LoopState::new(MAIN);
    let rep = replies(false, RenderOutcome::OtherError, 640, 480);
    let calls = state.step(&Event::RedrawRequested, &rep);
    assert_eq!(state.flow, ControlFlow::Continue);
    assert_eq!(calls, vec![RendererCall::Update, RendererCall::Render]);
    let follow = state.after_render(&RenderOutcome::OtherError, Size { width: 640, height: 480 });
    assert_eq!(follow, FrameFollowUp::DropFrame);
    assert_eq!(state.flow, ControlFlow::Continue);
}

#[test]
fn foreign_window_gets_no_renderer_call() {
    let mut state = LoopState::new(MAIN);
    let calls = state.step(&window_event(99, WindowPayload::CloseRequested), &quiet());
    assert_eq!(state.flow, ControlFlow::Continue);
    assert_eq!(calls, Vec::new());
}

#[test]
fn claimed_event_preempts_loop_handling() {
    let mut state = LoopState::new(MAIN);
    let rep = replies(true, RenderOutcome::Presented, 640, 480);
    let calls = state.step(&window_event(MAIN, WindowPayload::CloseRequested), &rep);
    assert_eq!(state.flow, ControlFlow::Continue);
    assert_eq!(calls, vec![RendererCall::Input(WindowPayload::CloseRequested)]);
}

#[test]
fn claimed_resize_is_not_forwarded() {
    let mut state = LoopState::new(MAIN);
    let size = Size { width: 320, height: 200 };
    let rep = replies(true, RenderOutcome::Presented, 640, 480);
    let calls = state.step(&window_event(MAIN, WindowPayload::Resized(size)), &rep);
    assert_eq!(state.flow, ControlFlow::Continue);
    assert_eq!(calls, vec![RendererCall::Input(WindowPayload::Resized(size))]);
}

#[test]
fn exit_is_terminal_for_every_later_event() {
    let mut state = LoopState::new(MAIN);
    let exit_call = state.step(&window_event(MAIN, WindowPayload::CloseRequested), &quiet());
    assert_eq!(exit_call, vec![RendererCall::Input(WindowPayload::CloseRequested)]);
    assert_eq!(state.flow, ControlFlow::Exit);
    let script = vec![
        (window_event(MAIN, WindowPayload::Resized(Size { width: 7, height: 7 })), quiet()),
        (Event::RedrawRequested, replies(false, RenderOutcome::SurfaceLost, 1, 1)),
        (Event::MainEventsCleared, quiet()),
        (Event::Other, quiet()),
        (window_event(MAIN, WindowPayload::CloseRequested), quiet()),
    ];
    let calls = state.drive(&script);
    assert_eq!(calls, Vec::new());
    assert_eq!(state.flow, ControlFlow::Exit);
    assert_eq!(state.main_window, MAIN);
}

#[test]
fn idle_signal_requests_redraw() {
    let state = LoopState::new(MAIN);
    assert_eq!(state.begin(&Event::MainEventsCleared), Directive::RequestRedraw);
}

#[test]
fn unknown_event_is_idle() {
    let state = LoopState::new(MAIN);
    assert_eq!(state.begin(&Event::Other), Directive::Idle);
}

#[test]
fn after_exit_every_directive_is_idle() {
    let mut state = LoopState::new(MAIN);
    state.step(&window_event(MAIN, WindowPayload::CloseRequested), &quiet());
    assert_eq!(state.flow, ControlFlow::Exit);
    assert_eq!(state.begin(&Event::MainEventsCleared), Directive::Idle);
    assert_eq!(state.begin(&Event::RedrawRequested), Directive::Idle);
    assert_eq!(
        state.begin(&window_event(MAIN, WindowPayload::CloseRequested)),
        Directive::Idle
    );
}

#[test]
fn begin_forwards_main_window_payloads() {
    let state = LoopState::new(MAIN);
    let payload = WindowPayload::Resized(Size { width: 3, height: 4 });
    assert_eq!(state.begin(&window_event(MAIN, payload)), Directive::ForwardInput(payload));
    assert_eq!(state.begin(&window_event(2, payload)), Directive::Idle);
    assert_eq!(state.begin(&Event::RedrawRequested), Directive::RunFrame);
}

#[test]
fn after_input_reports_resize_request() {
    let mut state = LoopState::new(MAIN);
    let size = Size { width: 12, height: 34 };
    assert_eq!(state.after_input(&WindowPayload::Resized(size), false), Some(size));
    assert_eq!(state.after_input(&WindowPayload::ScaleFactorChanged(size), false), Some(size));
    assert_eq!(state.after_input(&WindowPayload::Resized(size), true), None);
    assert_eq!(state.after_input(&WindowPayload::Other, false), None);
    assert_eq!(state.flow, ControlFlow::Continue);
}
