use render_loop::controller::{ControllerState, RenderLoopController};
use render_loop::event::{Action, ElementState, Event, KeyCode, WindowEvent};
use render_loop::frame::{
    Channel, ClearColor, DrawCall, FrameOutcome, FramePlan, PointerPosition,
};
use render_loop::surface::{PresentMode, StartupFailure, SurfaceConfig, WindowSize};
use wgpu::{CompositeAlphaMode, TextureFormat};

const WINDOW: u64 = 7;

fn controller(width: u32, height: u32) -> RenderLoopController {
    controller_with(width, height, true)
}

fn controller_with(width: u32, height: u32, render_pipeline: bool) -> RenderLoopController {
    RenderLoopController::new(
        WINDOW,
        WindowSize::new(width, height),
        &vec![TextureFormat::Bgra8Unorm, TextureFormat::Bgra8UnormSrgb],
        &vec![CompositeAlphaMode::Opaque],
        render_pipeline,
    )
    .unwrap()
}

fn config(width: u32, height: u32) -> SurfaceConfig {
    SurfaceConfig {
        width,
        height,
        format: TextureFormat::Bgra8UnormSrgb,
        present_mode: PresentMode::AutoVsync,
        alpha_mode: CompositeAlphaMode::Opaque,
        desired_maximum_frame_latency: 2,
    }
}

fn own(event: WindowEvent) -> Event {
    Event::Window { window_id: WINDOW, event }
}

fn pointer(x: f64, y: f64) -> WindowEvent {
    WindowEvent::CursorMoved { position: PointerPosition { x: x.to_bits(), y: y.to_bits() } }
}

fn value(channel: Channel) -> f64 {
    match channel {
        Channel::Zero => 0.0,
        Channel::One => 1.0,
        Channel::Normalized { coordinate, extent } => f64::from_bits(coordinate) / extent as f64,
    }
}

fn values(color: ClearColor) -> (f64, f64, f64, f64) {
    (value(color.r), value(color.g), value(color.b), value(color.a))
}

const BLACK: ClearColor =
    ClearColor { r: Channel::Zero, g: Channel::Zero, b: Channel::Zero, a: Channel::One };

const TRIANGLE: DrawCall =
    DrawCall { first_vertex: 0, end_vertex: 3, first_instance: 0, end_instance: 1 };

#[test]
fn new_controller_starts_from_the_window() {
    let controller = controller(800, 600);
    assert_eq!(
        controller.state(),
        ControllerState {
            window_id: WINDOW,
            window_size: WindowSize::new(800, 600),
            surface_config: config(800, 600),
            clear_color: BLACK,
            render_pipeline: true,
        }
    );
    assert_eq!(controller.window_id(), WINDOW);
    assert_eq!(controller.window_size(), WindowSize::new(800, 600));
    assert_eq!(controller.surface_config(), config(800, 600));
    assert_eq!(controller.clear_color(), BLACK);
    assert_eq!(values(controller.clear_color()), (0.0, 0.0, 0.0, 1.0));
}

#[test]
fn new_controller_without_a_format_fails() {
    let made = RenderLoopController::new(
        WINDOW,
        WindowSize::new(800, 600),
        &Vec::new(),
        &vec![CompositeAlphaMode::Opaque],
        true,
    );
    assert!(matches!(made, Err(StartupFailure::NoSurfaceFormat)));
}

#[test]
fn new_controller_without_an_alpha_mode_fails() {
    let made = RenderLoopController::new(
        WINDOW,
        WindowSize::new(800, 600),
        &vec![TextureFormat::Bgra8UnormSrgb],
        &Vec::new(),
        true,
    );
    assert!(matches!(made, Err(StartupFailure::NoAlphaMode)));
}

#[test]
fn resize_to_a_drawable_size_updates_window_and_surface() {
    let mut controller = controller(800, 600);
    let reconfigure = controller.handle_resize(1024, 768);
    assert_eq!(reconfigure, Some(config(1024, 768)));
    assert_eq!(controller.window_size(), WindowSize::new(1024, 768));
    assert_eq!(controller.surface_config(), config(1024, 768));
    assert_eq!(controller.clear_color(), BLACK);
    assert_eq!(controller.window_id(), WINDOW);
}

#[test]
fn resize_to_the_smallest_and_largest_sizes() {
    let mut controller = controller(800, 600);
    assert_eq!(controller.handle_resize(1, 1), Some(config(1, 1)));
    assert_eq!(controller.window_size(), WindowSize::new(1, 1));
    assert_eq!(controller.handle_resize(u32::MAX, u32::MAX), Some(config(u32::MAX, u32::MAX)));
    assert_eq!(controller.window_size(), WindowSize::new(u32::MAX, u32::MAX));
}

#[test]
fn resize_with_a_zero_dimension_changes_nothing() {
    for (width, height) in [(0, 600), (800, 0), (0, 0)] {
        let mut controller = controller(800, 600);
        let before = controller.state();
        assert_eq!(controller.handle_resize(width, height), None);
        assert_eq!(controller.state(), before);
    }
}

#[test]
fn zero_resize_after_a_valid_resize_keeps_the_size() {
    let mut controller = controller(640, 480);
    assert_eq!(controller.handle_resize(800, 600), Some(config(800, 600)));
    assert_eq!(controller.handle_resize(0, 600), None);
    assert_eq!(controller.window_size(), WindowSize::new(800, 600));
    assert_eq!(controller.surface_config(), config(800, 600));
}

#[test]
fn pointer_move_sets_the_clear_color() {
    let mut controller = controller(800, 600);
    assert!(controller.handle_input(&pointer(400.0, 300.0)));
    assert_eq!(
        controller.clear_color(),
        ClearColor {
            r: Channel::Normalized { coordinate: 400.0f64.to_bits(), extent: 800 },
            g: Channel::Normalized { coordinate: 300.0f64.to_bits(), extent: 600 },
            b: Channel::One,
            a: Channel::One,
        }
    );
    assert_eq!(values(controller.clear_color()), (0.5, 0.5, 1.0, 1.0));
    assert_eq!(controller.window_size(), WindowSize::new(800, 600));
    assert_eq!(controller.surface_config(), config(800, 600));
}

#[test]
fn pointer_move_is_normalized_by_the_current_window_size() {
    let mut controller = controller(800, 600);
    controller.handle_resize(200, 100);
    assert!(controller.handle_input(&pointer(50.0, 75.0)));
    assert_eq!(values(controller.clear_color()), (0.25, 0.75, 1.0, 1.0));
    controller.handle_resize(400, 300);
    assert_eq!(values(controller.clear_color()), (0.25, 0.75, 1.0, 1.0));
    assert!(controller.handle_input(&pointer(100.0, 150.0)));
    assert_eq!(values(controller.clear_color()), (0.25, 0.5, 1.0, 1.0));
}

#[test]
fn pointer_outside_the_window_leaves_the_unit_range() {
    let mut controller = controller(800, 600);
    assert!(controller.handle_input(&pointer(-200.0, 900.0)));
    assert_eq!(values(controller.clear_color()), (-0.25, 1.5, 1.0, 1.0));
}

#[test]
fn pointer_move_over_an_empty_window_is_still_handled() {
    let mut controller = controller(0, 0);
    assert!(controller.handle_input(&pointer(10.0, 0.0)));
    let (r, g, b, a) = values(controller.clear_color());
    assert!(r.is_infinite());
    assert!(g.is_nan());
    assert_eq!((b, a), (1.0, 1.0));
}

#[test]
fn other_events_are_not_handled_by_input() {
    let events = [
        WindowEvent::CloseRequested,
        WindowEvent::KeyboardInput { key: KeyCode::Escape, state: ElementState::Pressed },
        WindowEvent::KeyboardInput { key: KeyCode::Other, state: ElementState::Released },
        WindowEvent::Resized(WindowSize::new(10, 10)),
        WindowEvent::RedrawRequested,
        WindowEvent::Other,
    ];
    for event in events {
        let mut controller = controller(800, 600);
        controller.handle_input(&pointer(200.0, 150.0));
        let before = controller.state();
        assert!(!controller.handle_input(&event));
        assert_eq!(controller.state(), before);
    }
}

#[test]
fn exit_requests_are_recognised() {
    assert!(WindowEvent::CloseRequested.asks_to_exit());
    assert!(WindowEvent::KeyboardInput { key: KeyCode::Escape, state: ElementState::Pressed }
        .asks_to_exit());
    assert!(!WindowEvent::KeyboardInput { key: KeyCode::Escape, state: ElementState::Released }
        .asks_to_exit());
    assert!(!WindowEvent::KeyboardInput { key: KeyCode::Other, state: ElementState::Pressed }
        .asks_to_exit());
    assert!(!WindowEvent::RedrawRequested.asks_to_exit());
    assert!(!WindowEvent::Resized(WindowSize::new(0, 0)).asks_to_exit());
    assert!(!pointer(0.0, 0.0).asks_to_exit());
    assert!(!WindowEvent::Other.asks_to_exit());
}

#[test]
fn update_changes_nothing() {
    let mut controller = controller(800, 600);
    controller.handle_input(&pointer(1.0, 2.0));
    let before = controller.state();
    controller.update();
    assert_eq!(controller.state(), before);
}

#[test]
fn frame_plan_clears_and_draws_one_triangle() {
    let mut controller = controller(800, 600);
    assert_eq!(controller.frame_plan(), FramePlan { clear_color: BLACK, draw: Some(TRIANGLE) });
    controller.handle_input(&pointer(400.0, 300.0));
    let plan = controller.frame_plan();
    assert_eq!(plan.clear_color, controller.clear_color());
    assert_eq!(plan.draw, Some(TRIANGLE));
}

#[test]
fn frame_plan_without_a_pipeline_only_clears() {
    let controller = controller_with(800, 600, false);
    assert_eq!(controller.frame_plan(), FramePlan { clear_color: BLACK, draw: None });
}

#[test]
fn close_request_ends_the_loop() {
    let mut controller = controller(800, 600);
    let before = controller.state();
    assert_eq!(controller.dispatch(&own(WindowEvent::CloseRequested)), Action::Exit);
    assert_eq!(controller.state(), before);
}

#[test]
fn escape_pressed_ends_the_loop() {
    let mut controller = controller(800, 600);
    controller.handle_resize(320, 200);
    controller.handle_input(&pointer(3.0, 4.0));
    let before = controller.state();
    let escape = WindowEvent::KeyboardInput { key: KeyCode::Escape, state: ElementState::Pressed };
    assert_eq!(controller.dispatch(&own(escape)), Action::Exit);
    assert_eq!(controller.state(), before);
}

#[test]
fn other_keys_do_not_end_the_loop() {
    let mut controller = controller(800, 600);
    let released =
        WindowEvent::KeyboardInput { key: KeyCode::Escape, state: ElementState::Released };
    let other = WindowEvent::KeyboardInput { key: KeyCode::Other, state: ElementState::Pressed };
    assert_eq!(controller.dispatch(&own(released)), Action::Continue);
    assert_eq!(controller.dispatch(&own(other)), Action::Continue);
}

#[test]
fn events_of_other_windows_change_nothing() {
    let events = [
        WindowEvent::CloseRequested,
        WindowEvent::KeyboardInput { key: KeyCode::Escape, state: ElementState::Pressed },
        WindowEvent::Resized(WindowSize::new(10, 10)),
        WindowEvent::RedrawRequested,
        pointer(1.0, 1.0),
        WindowEvent::Other,
    ];
    for event in events {
        let mut controller = controller(800, 600);
        let before = controller.state();
        let action = controller.dispatch(&Event::Window { window_id: WINDOW + 1, event });
        assert_eq!(action, Action::Continue);
        assert_eq!(controller.state(), before);
    }
}

#[test]
fn dispatch_consumes_a_pointer_move() {
    let mut controller = controller(800, 600);
    assert_eq!(controller.dispatch(&own(pointer(400.0, 300.0))), Action::Continue);
    assert_eq!(values(controller.clear_color()), (0.5, 0.5, 1.0, 1.0));
}

#[test]
fn dispatch_resize_reconfigures_once() {
    let mut controller = controller(800, 600);
    let action = controller.dispatch(&own(WindowEvent::Resized(WindowSize::new(1280, 720))));
    assert_eq!(action, Action::Reconfigure(config(1280, 720)));
    assert_eq!(controller.window_size(), WindowSize::new(1280, 720));
    assert_eq!(controller.surface_config(), config(1280, 720));
}

#[test]
fn dispatch_resize_to_nothing_is_ignored() {
    let mut controller = controller(800, 600);
    let before = controller.state();
    let action = controller.dispatch(&own(WindowEvent::Resized(WindowSize::new(0, 720))));
    assert_eq!(action, Action::Continue);
    assert_eq!(controller.state(), before);
}

#[test]
fn dispatch_redraw_asks_for_one_frame() {
    let mut controller = controller(800, 600);
    controller.dispatch(&own(pointer(400.0, 300.0)));
    let before = controller.state();
    assert_eq!(controller.dispatch(&own(WindowEvent::RedrawRequested)), Action::Render);
    assert_eq!(controller.state(), before);
}

#[test]
fn render_with_a_texture_draws_and_presents() {
    let mut controller = controller(800, 600);
    controller.handle_input(&pointer(400.0, 300.0));
    let (outcome, plan) = controller.render(&Ok::<u8, wgpu::SurfaceError>(0));
    assert_eq!(outcome, FrameOutcome::Presented);
    assert_eq!(
        plan,
        Some(FramePlan { clear_color: controller.clear_color(), draw: Some(TRIANGLE) })
    );
    assert_eq!(values(plan.unwrap().clear_color), (0.5, 0.5, 1.0, 1.0));
}

#[test]
fn render_without_a_pipeline_only_clears() {
    let controller = controller_with(800, 600, false);
    let (outcome, plan) = controller.render(&Ok::<(), wgpu::SurfaceError>(()));
    assert_eq!(outcome, FrameOutcome::Presented);
    assert_eq!(plan, Some(FramePlan { clear_color: BLACK, draw: None }));
}

#[test]
fn render_without_a_texture_classifies_the_failure() {
    let controller = controller(800, 600);
    let cases = [
        (wgpu::SurfaceError::Lost, FrameOutcome::Lost),
        (wgpu::SurfaceError::OutOfMemory, FrameOutcome::OutOfMemory),
        (wgpu::SurfaceError::Timeout, FrameOutcome::OtherTransientError),
        (wgpu::SurfaceError::Outdated, FrameOutcome::OtherTransientError),
    ];
    for (error, expected) in cases {
        assert_eq!(controller.render::<()>(&Err(error)), (expected, None));
    }
}

#[test]
fn going_idle_requests_one_redraw() {
    let mut controller = controller(800, 600);
    let before = controller.state();
    assert_eq!(controller.dispatch(&Event::AboutToWait), Action::RequestRedraw);
    assert_eq!(controller.state(), before);
}

#[test]
fn unknown_events_change_nothing() {
    let mut controller = controller(800, 600);
    let before = controller.state();
    assert_eq!(controller.dispatch(&Event::Other), Action::Continue);
    assert_eq!(controller.dispatch(&own(WindowEvent::Other)), Action::Continue);
    assert_eq!(controller.state(), before);
}

#[test]
fn presented_frame_goes_on() {
    let mut controller = controller(800, 600);
    let before = controller.state();
    assert_eq!(controller.finish_frame(FrameOutcome::Presented), Action::Continue);
    assert_eq!(controller.state(), before);
}

#[test]
fn lost_surface_is_configured_again_with_the_same_size() {
    let mut controller = controller(640, 480);
    controller.handle_resize(800, 600);
    let before = controller.state();
    let action = controller.finish_frame(FrameOutcome::Lost);
    assert_eq!(action, Action::Reconfigure(config(800, 600)));
    assert_ne!(action, Action::Continue);
    assert_eq!(controller.state(), before);
    assert_eq!(controller.window_size(), WindowSize::new(800, 600));
}

#[test]
fn lost_surface_of_an_empty_window_is_left_alone() {
    let mut controller = controller(0, 0);
    let before = controller.state();
    assert_eq!(controller.finish_frame(FrameOutcome::Lost), Action::Continue);
    assert_eq!(controller.state(), before);
}

#[test]
fn out_of_memory_ends_the_loop() {
    let mut controller = controller(800, 600);
    let before = controller.state();
    assert_eq!(controller.finish_frame(FrameOutcome::OutOfMemory), Action::Exit);
    assert_eq!(controller.state(), before);
}

#[test]
fn transient_error_is_reported_and_the_loop_goes_on() {
    let mut controller = controller(800, 600);
    let before = controller.state();
    assert_eq!(
        controller.finish_frame(FrameOutcome::OtherTransientError),
        Action::ReportSkippedFrame
    );
    assert_eq!(controller.state(), before);
}

/// Runs the loop as its surroundings do: each event is dispatched, for a
/// frame that is asked for the surface answers with the next of `textures`,
/// and the loop stops at the first exit. Returns every action in order and
/// the number of events taken.
fn run(
    controller: &mut RenderLoopController,
    events: &[Event],
    textures: &[Result<(), wgpu::SurfaceError>],
) -> (Vec<Action>, usize) {
    let mut actions = Vec::new();
    let mut frame = 0;
    for (taken, event) in events.iter().enumerate() {
        let mut action = controller.dispatch(event);
        actions.push(action);
        if action == Action::Render {
            let (outcome, _) = controller.render(&textures[frame]);
            frame += 1;
            action = controller.finish_frame(outcome);
            actions.push(action);
        }
        if action == Action::Exit {
            return (actions, taken + 1);
        }
    }
    (actions, events.len())
}

#[test]
fn out_of_memory_stops_the_loop_once() {
    let mut controller = controller(800, 600);
    let events = [
        Event::AboutToWait,
        own(WindowEvent::RedrawRequested),
        own(WindowEvent::Resized(WindowSize::new(10, 10))),
        own(WindowEvent::RedrawRequested),
    ];
    let (actions, taken) = run(&mut controller, &events, &[Err(wgpu::SurfaceError::OutOfMemory)]);
    assert_eq!(taken, 2);
    assert_eq!(actions, vec![Action::RequestRedraw, Action::Render, Action::Exit]);
    assert_eq!(actions.iter().filter(|action| **action == Action::Exit).count(), 1);
    assert_eq!(controller.window_size(), WindowSize::new(800, 600));
}

#[test]
fn lost_surface_in_the_loop_forces_a_reconfigure() {
    let mut controller = controller(800, 600);
    let events = [own(WindowEvent::RedrawRequested), own(WindowEvent::RedrawRequested)];
    let textures = [Err(wgpu::SurfaceError::Lost), Ok(())];
    let (actions, taken) = run(&mut controller, &events, &textures);
    assert_eq!(taken, 2);
    assert_eq!(
        actions,
        vec![
            Action::Render,
            Action::Reconfigure(config(800, 600)),
            Action::Render,
            Action::Continue,
        ]
    );
    assert_eq!(controller.window_size(), WindowSize::new(800, 600));
}

#[test]
fn timeout_in_the_loop_skips_the_frame() {
    let mut controller = controller(800, 600);
    let events = [own(WindowEvent::RedrawRequested), own(WindowEvent::CloseRequested)];
    let (actions, taken) = run(&mut controller, &events, &[Err(wgpu::SurfaceError::Timeout)]);
    assert_eq!(taken, 2);
    assert_eq!(actions, vec![Action::Render, Action::ReportSkippedFrame, Action::Exit]);
}

#[test]
fn surface_always_has_the_size_of_the_window() {
    let mut controller = controller(800, 600);
    let events = [
        own(WindowEvent::Resized(WindowSize::new(300, 200))),
        own(pointer(5.0, 5.0)),
        own(WindowEvent::Resized(WindowSize::new(0, 0))),
        Event::Window { window_id: WINDOW + 1, event: WindowEvent::Resized(WindowSize::new(9, 9)) },
        own(WindowEvent::RedrawRequested),
        Event::AboutToWait,
        own(WindowEvent::Resized(WindowSize::new(1, 4000))),
    ];
    for event in events.iter() {
        controller.dispatch(event);
        let state = controller.state();
        assert_eq!(state.surface_config.width, state.window_size.width);
        assert_eq!(state.surface_config.height, state.window_size.height);
        assert!(state.window_size.is_drawable());
    }
    assert_eq!(controller.window_size(), WindowSize::new(1, 4000));
}
