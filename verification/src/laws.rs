//! What holds of every state of the render loop and of every event, proved
//! of the transitions that `RenderLoopController` is verified against.

use vstd::prelude::*;
use crate::controller::ControllerState;
use crate::event::{Action, Event, WindowEvent};
use crate::frame::FrameOutcome;
use crate::surface::WindowSize;

verus! {

/// The surface configuration always has the size of the window: no event and
/// no outcome of a frame parts the two.
pub proof fn law_surface_mirrors_window(state: ControllerState, event: Event, outcome: FrameOutcome)
    requires
        state.wf(),
    ensures
        state.step(event).0.wf(),
        state.after_frame(outcome).0.wf(),
{
}

/// A window that once had a drawable size keeps one: a size with a zero
/// dimension never enters the state.
pub proof fn law_drawable_size_is_kept(state: ControllerState, event: Event, outcome: FrameOutcome)
    requires
        state.drawable(),
    ensures
        state.step(event).0.drawable(),
        state.after_frame(outcome).0.drawable(),
{
}

/// The surface is never configured to an empty target, and never to anything
/// but what the state then holds: a configuration handed out for the surface
/// has no zero dimension, and it is the surface configuration of the state
/// that follows.
pub proof fn law_reconfiguration_is_drawable(
    state: ControllerState,
    event: Event,
    outcome: FrameOutcome,
)
    requires
        state.wf(),
    ensures
        state.step(event).1 matches Action::Reconfigure(config) ==> {
            &&& config.size().drawable()
            &&& config == state.step(event).0.surface_config
            &&& config.size() == state.step(event).0.window_size
        },
        state.after_frame(outcome).1 matches Action::Reconfigure(config) ==> {
            &&& config.size().drawable()
            &&& config == state.after_frame(outcome).0.surface_config
            &&& config.size() == state.after_frame(outcome).0.window_size
        },
{
}

/// A resize of the controller's window to a drawable size brings window size
/// and surface configuration to exactly that size and asks for the surface to
/// be configured; a resize to a size with a zero dimension changes nothing
/// and asks for nothing.
pub proof fn law_resize_event(state: ControllerState, size: WindowSize)
    ensures
        ({
            let (next, action) = state.step(
                Event::Window { window_id: state.window_id, event: WindowEvent::Resized(size) },
            );
            if size.drawable() {
                &&& next.window_size == size
                &&& next.surface_config == state.surface_config.with_size(size.width, size.height)
                &&& action == Action::Reconfigure(next.surface_config)
            } else {
                &&& next == state
                &&& action == Action::Continue
            }
        }),
{
}

/// Window size and surface configuration change by a resize alone: where
/// an event leaves either changed, it is a resize of the controller's window
/// to a drawable size. The outcome of a frame changes neither.
pub proof fn law_only_resize_moves_the_surface(
    state: ControllerState,
    event: Event,
    outcome: FrameOutcome,
)
    requires
        state.wf(),
    ensures
        state.step(event).0.window_size != state.window_size || state.step(event).0.surface_config
            != state.surface_config ==> {
            &&& event matches Event::Window { window_id, event: WindowEvent::Resized(size) }
            &&& window_id == state.window_id
            &&& size.drawable()
        },
        state.after_frame(outcome).0 == state,
{
}

/// The clear colour changes by a pointer move alone, and an event that input
/// handling does not take leaves it as it was.
pub proof fn law_only_pointer_moves_the_color(state: ControllerState, event: Event)
    ensures
        state.step(event).0.clear_color != state.clear_color ==> {
            &&& event matches Event::Window { window_id, event: window_event }
            &&& window_id == state.window_id
            &&& window_event.is_pointer_move()
        },
        state.step(event).0.window_id == state.window_id,
        state.step(event).0.render_pipeline == state.render_pipeline,
{
}

/// A close request and Escape going down end the loop, whatever the state:
/// for the controller's window each gives `Action::Exit` and changes nothing.
pub proof fn law_exit_requests_end_the_loop(state: ControllerState, event: WindowEvent)
    requires
        event.is_exit_request(),
    ensures
        state.step(Event::Window { window_id: state.window_id, event }) == (state, Action::Exit),
{
}

/// A lost surface is answered as a resize to the unchanged window size is:
/// the state stays as it is, and with a drawable window the surface is to be
/// configured again with the very configuration it had.
pub proof fn law_lost_surface_is_configured_again(state: ControllerState)
    requires
        state.wf(),
    ensures
        state.after_frame(FrameOutcome::Lost) == state.step(
            Event::Window {
                window_id: state.window_id,
                event: WindowEvent::Resized(state.window_size),
            },
        ),
        state.after_frame(FrameOutcome::Lost).0 == state,
        state.drawable() ==> state.after_frame(FrameOutcome::Lost).1 == Action::Reconfigure(
            state.surface_config,
        ),
{
}

/// One frame per redraw request and one redraw request per idle cycle: only
/// a redraw request of the controller's window asks for a frame, only the
/// loop going idle asks for a redraw, and neither changes the state.
pub proof fn law_one_frame_per_redraw(state: ControllerState, event: Event)
    ensures
        state.step(event).1 == Action::Render <==> event == (Event::Window {
            window_id: state.window_id,
            event: WindowEvent::RedrawRequested,
        }),
        state.step(event).1 == Action::RequestRedraw <==> event == Event::AboutToWait,
        state.step(event).1 == Action::Render || state.step(event).1 == Action::RequestRedraw
            ==> state.step(event).0 == state,
{
}

} // verus!
