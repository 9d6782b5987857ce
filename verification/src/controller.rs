//! The render-loop controller: it owns the surface configuration and the
//! clear colour, takes the window system's events one at a time and decides
//! what is done about each.
//!
//! The controller performs nothing itself. Its surroundings pump the events,
//! hand each to `dispatch` and carry out the `Action` that comes back. For a
//! frame they ask the surface for its next texture, let `render` decide what
//! is drawn and how the frame ends, and report that outcome to
//! `finish_frame`.

use vstd::prelude::*;
use crate::event::{Action, Event, WindowEvent};
use crate::frame::{ClearColor, DrawCall, FrameOutcome, FramePlan, TRIANGLE_VERTICES};
use crate::surface::{StartupFailure, SurfaceConfig, WindowSize};

verus! {

/// All that the controller knows: the mathematical model of a
/// `RenderLoopController`, and what its transitions are stated over.
#[derive(Clone, Copy, Debug, PartialEq, Eq)]
pub struct ControllerState {
    /// The window that the controller draws to.
    pub window_id: u64,
    /// Last size that the window reported and the surface could take.
    pub window_size: WindowSize,
    /// What the surface is, or is to be, configured with.
    pub surface_config: SurfaceConfig,
    /// What the next frame is cleared to.
    pub clear_color: ClearColor,
    /// Whether a render pipeline was built, so that frames draw.
    pub render_pipeline: bool,
}

impl ControllerState {
    /// The surface configuration has the size of the window.
    pub open spec fn wf(self) -> bool {
        self.surface_config.size() == self.window_size
    }

    /// The window has a size that a surface can be configured to.
    pub open spec fn drawable(self) -> bool {
        self.window_size.drawable()
    }

    /// The state at startup: the window has the size of the configuration
    /// made for it, and frames are cleared to opaque black.
    pub open spec fn initial(
        window_id: u64,
        surface_config: SurfaceConfig,
        render_pipeline: bool,
    ) -> ControllerState {
        ControllerState {
            window_id,
            window_size: surface_config.size(),
            surface_config,
            clear_color: ClearColor::black(),
            render_pipeline,
        }
    }

    /// The state after the window reported the size `width` by `height`: a
    /// size with a zero dimension is ignored.
    pub open spec fn resized(self, width: u32, height: u32) -> ControllerState {
        if width > 0 && height > 0 {
            ControllerState {
                window_size: WindowSize { width, height },
                surface_config: self.surface_config.with_size(width, height),
                ..self
            }
        } else {
            self
        }
    }

    /// The configuration that the surface is to be given after the window
    /// reported the size `width` by `height`, if any.
    pub open spec fn reconfiguration(self, width: u32, height: u32) -> Option<SurfaceConfig> {
        if width > 0 && height > 0 {
            Some(self.surface_config.with_size(width, height))
        } else {
            None
        }
    }

    /// The state after input handling saw `event`: a pointer move sets the
    /// clear colour from the pointer's position and the window's size.
    pub open spec fn after_input(self, event: WindowEvent) -> ControllerState {
        match event {
            WindowEvent::CursorMoved { position } => ControllerState {
                clear_color: ClearColor::following(position, self.window_size),
                ..self
            },
            _ => self,
        }
    }

    /// What the next frame's render pass records.
    pub open spec fn frame_plan(self) -> FramePlan {
        FramePlan::of(self.clear_color, self.render_pipeline)
    }

    /// How a frame ends, and what is drawn in it, once the surface answered
    /// `acquired` when asked for its next texture. Without a texture nothing
    /// is drawn.
    pub open spec fn frame<T>(self, acquired: Result<T, wgpu::SurfaceError>) -> (
        FrameOutcome,
        Option<FramePlan>,
    ) {
        (
            FrameOutcome::of(acquired),
            if acquired is Ok {
                Some(self.frame_plan())
            } else {
                None
            },
        )
    }

    /// State and action after a frame ended in `outcome`. A lost surface is
    /// answered as a resize to the current size is.
    pub open spec fn after_frame(self, outcome: FrameOutcome) -> (ControllerState, Action) {
        match outcome {
            FrameOutcome::Presented => (self, Action::Continue),
            FrameOutcome::Lost => self.after_resize(self.window_size),
            FrameOutcome::OutOfMemory => (self, Action::Exit),
            FrameOutcome::OtherTransientError => (self, Action::ReportSkippedFrame),
        }
    }

    /// State and action after a resize to `size`.
    pub open spec fn after_resize(self, size: WindowSize) -> (ControllerState, Action) {
        (
            self.resized(size.width, size.height),
            match self.reconfiguration(size.width, size.height) {
                Some(config) => Action::Reconfigure(config),
                None => Action::Continue,
            },
        )
    }

    /// State and action after `event` of the controller's own window. Input
    /// handling comes first; what it consumes goes no further.
    pub open spec fn after_window_event(self, event: WindowEvent) -> (ControllerState, Action) {
        if event.is_pointer_move() {
            (self.after_input(event), Action::Continue)
        } else if event.is_exit_request() {
            (self, Action::Exit)
        } else {
            match event {
                WindowEvent::Resized(size) => self.after_resize(size),
                WindowEvent::RedrawRequested => (self, Action::Render),
                _ => (self, Action::Continue),
            }
        }
    }

    /// State and action after `event`: the whole transition of the render
    /// loop. Events of other windows change nothing.
    pub open spec fn step(self, event: Event) -> (ControllerState, Action) {
        match event {
            Event::Window { window_id, event } => if window_id == self.window_id {
                self.after_window_event(event)
            } else {
                (self, Action::Continue)
            },
            Event::AboutToWait => (self, Action::RequestRedraw),
            Event::Other => (self, Action::Continue),
        }
    }
}

/// The render-loop controller.
pub struct RenderLoopController {
    state: ControllerState,
}

impl View for RenderLoopController {
    type V = ControllerState;

    closed spec fn view(&self) -> ControllerState {
        self.state
    }
}

impl RenderLoopController {
    #[verifier::type_invariant]
    spec fn well_formed(self) -> bool {
        self.state.wf()
    }

    /// A controller for the window `window_id` of `window_size`, on a
    /// surface whose capabilities list `formats` and `alpha_modes`. It fails
    /// exactly when no surface configuration can be negotiated.
    pub fn new(
        window_id: u64,
        window_size: WindowSize,
        formats: &Vec<wgpu::TextureFormat>,
        alpha_modes: &Vec<wgpu::CompositeAlphaMode>,
        render_pipeline: bool,
    ) -> (made: Result<RenderLoopController, StartupFailure>)
        ensures
            match SurfaceConfig::negotiated(window_size, formats@, alpha_modes@) {
                Ok(config) => made matches Ok(controller) && controller@
                    == ControllerState::initial(window_id, config, render_pipeline),
                Err(failure) => made matches Err(reported) && reported == failure,
            },
            made matches Ok(controller) ==> controller@.wf() && controller@.window_size
                == window_size,
    {
        match SurfaceConfig::negotiate(window_size, formats, alpha_modes) {
            Ok(surface_config) => Ok(
                RenderLoopController {
                    state: ControllerState {
                        window_id,
                        window_size,
                        surface_config,
                        clear_color: ClearColor::default(),
                        render_pipeline,
                    },
                },
            ),
            Err(failure) => Err(failure),
        }
    }

    /// All of the controller's state. The surface configuration in it has
    /// the size of the window.
    pub fn state(&self) -> (state: ControllerState)
        ensures
            state == self@,
            state.wf(),
    {
        proof {
            use_type_invariant(self);
        }
        self.state
    }

    /// The identifier of the window that the controller draws to.
    pub fn window_id(&self) -> (id: u64)
        ensures
            id == self@.window_id,
    {
        self.state.window_id
    }

    /// Last size that the window reported and the surface could take.
    pub fn window_size(&self) -> (size: WindowSize)
        ensures
            size == self@.window_size,
    {
        self.state.window_size
    }

    /// What the surface is, or is to be, configured with.
    pub fn surface_config(&self) -> (config: SurfaceConfig)
        ensures
            config == self@.surface_config,
            config.size() == self@.window_size,
    {
        proof {
            use_type_invariant(self);
        }
        self.state.surface_config
    }

    /// What the next frame is cleared to.
    pub fn clear_color(&self) -> (color: ClearColor)
        ensures
            color == self@.clear_color,
    {
        self.state.clear_color
    }

    /// Takes a new size of the window. Where neither dimension is zero, the
    /// window size and the surface configuration take exactly that size, and
    /// the new configuration is returned: the surface is to be configured
    /// with it, once. Else nothing changes and nothing is returned, so that
    /// the surface is never configured to an empty target.
    pub fn handle_resize(&mut self, new_width: u32, new_height: u32) -> (reconfigure: Option<
        SurfaceConfig,
    >)
        ensures
            final(self)@.wf(),
            final(self)@ == old(self)@.resized(new_width, new_height),
            reconfigure == old(self)@.reconfiguration(new_width, new_height),
            new_width > 0 && new_height > 0 ==> {
                &&& final(self)@.window_size == (WindowSize { width: new_width, height: new_height })
                &&& final(self)@.surface_config.size() == final(self)@.window_size
                &&& final(self)@.surface_config == old(self)@.surface_config.with_size(
                    new_width,
                    new_height,
                )
                &&& reconfigure == Some(final(self)@.surface_config)
            },
            new_width == 0 || new_height == 0 ==> final(self)@ == old(self)@ && reconfigure is None,
            final(self)@.window_id == old(self)@.window_id,
            final(self)@.clear_color == old(self)@.clear_color,
            final(self)@.render_pipeline == old(self)@.render_pipeline,
    {
        proof {
            use_type_invariant(&*self);
        }
        if new_width > 0 && new_height > 0 {
            let surface_config = SurfaceConfig {
                width: new_width,
                height: new_height,
                ..self.state.surface_config
            };
            self.state = ControllerState {
                window_size: WindowSize { width: new_width, height: new_height },
                surface_config,
                ..self.state
            };
            Some(surface_config)
        } else {
            None
        }
    }

    /// Looks at an event of the window before anything else does. A pointer
    /// move is handled: the clear colour becomes the pointer's position over
    /// the window's size (red `x / width`, green `y / height`, blue and
    /// alpha 1), wherever the pointer is. No other event is handled, and
    /// none changes anything.
    pub fn handle_input(&mut self, event: &WindowEvent) -> (handled: bool)
        ensures
            final(self)@.wf(),
            handled == event.is_pointer_move(),
            final(self)@ == old(self)@.after_input(*event),
            *event matches WindowEvent::CursorMoved { position } ==> final(self)@.clear_color
                == ClearColor::following(position, old(self)@.window_size),
            !handled ==> final(self)@ == old(self)@,
            final(self)@.window_id == old(self)@.window_id,
            final(self)@.window_size == old(self)@.window_size,
            final(self)@.surface_config == old(self)@.surface_config,
            final(self)@.render_pipeline == old(self)@.render_pipeline,
    {
        proof {
            use_type_invariant(&*self);
        }
        match event {
            WindowEvent::CursorMoved { position } => {
                self.state = ControllerState {
                    clear_color: ClearColor::from_pointer(*position, self.state.window_size),
                    ..self.state
                };
                true
            },
            _ => false,
        }
    }

    /// The hook for what changes with time, called once before each frame.
    /// Nothing does.
    pub fn update(&mut self)
        ensures
            final(self)@.wf(),
            final(self)@ == old(self)@,
    {
        proof {
            use_type_invariant(&*self);
        }
    }

    /// What the render pass of the next frame records: the target is cleared
    /// to the current clear colour, and there is one draw call, of one
    /// triangle, exactly where there is a render pipeline.
    pub fn frame_plan(&self) -> (plan: FramePlan)
        ensures
            plan == self@.frame_plan(),
            plan.clear_color == self@.clear_color,
            plan.draw is Some <==> self@.render_pipeline,
    {
        FramePlan {
            clear_color: self.state.clear_color,
            draw: if self.state.render_pipeline {
                Some(
                    DrawCall {
                        first_vertex: 0,
                        end_vertex: TRIANGLE_VERTICES,
                        first_instance: 0,
                        end_instance: 1,
                    },
                )
            } else {
                None
            },
        }
    }

    /// Decides the frame that `Action::Render` asks for, once the surface
    /// was asked for its next texture and answered `acquired`. With a texture
    /// the frame is drawn as `frame_plan` says, submitted and presented, and
    /// its outcome is `Presented`. Without one nothing is drawn, and the
    /// outcome is the class of the failure: a lost surface, exhausted memory,
    /// or any other, transient, error.
    pub fn render<T>(&self, acquired: &Result<T, wgpu::SurfaceError>) -> (frame: (
        FrameOutcome,
        Option<FramePlan>,
    ))
        ensures
            frame == self@.frame(*acquired),
            acquired is Ok ==> frame == (FrameOutcome::Presented, Some(self@.frame_plan())),
            acquired is Err ==> frame.0 != FrameOutcome::Presented && frame.1 is None,
    {
        match acquired {
            Ok(_) => (FrameOutcome::Presented, Some(self.frame_plan())),
            Err(_) => (FrameOutcome::from_acquired(acquired), None),
        }
    }

    /// Takes the outcome of the frame that `Action::Render` asked for. After
    /// a presented frame the loop goes on. A lost surface is treated as a
    /// resize to the current window size: the state stays, and the surface is
    /// to be configured again with the same configuration (unless the window
    /// never had a drawable size). Exhausted memory ends the loop. Any other
    /// failure is to be logged, and the loop goes on.
    pub fn finish_frame(&mut self, outcome: FrameOutcome) -> (action: Action)
        ensures
            final(self)@.wf(),
            (final(self)@, action) == old(self)@.after_frame(outcome),
            final(self)@ == old(self)@,
            outcome == FrameOutcome::Presented ==> action == Action::Continue,
            outcome == FrameOutcome::Lost && old(self)@.drawable() ==> action
                == Action::Reconfigure(old(self)@.surface_config),
            outcome == FrameOutcome::Lost && !old(self)@.drawable() ==> action == Action::Continue,
            outcome == FrameOutcome::OutOfMemory ==> action == Action::Exit,
            outcome == FrameOutcome::OtherTransientError ==> action == Action::ReportSkippedFrame,
    {
        proof {
            use_type_invariant(&*self);
        }
        match outcome {
            FrameOutcome::Presented => Action::Continue,
            FrameOutcome::Lost => {
                let size = self.state.window_size;
                match self.handle_resize(size.width, size.height) {
                    Some(config) => Action::Reconfigure(config),
                    None => Action::Continue,
                }
            },
            FrameOutcome::OutOfMemory => Action::Exit,
            FrameOutcome::OtherTransientError => Action::ReportSkippedFrame,
        }
    }

    /// Takes one event of the window system and says what is to be done.
    ///
    /// An event of the controller's window goes to input handling first; a
    /// handled event goes no further. Else a close request, or Escape going
    /// down, ends the loop; a resize is taken as `handle_resize` takes it; a
    /// redraw request runs `update` and asks for one frame. When the loop is
    /// about to go idle, one redraw is requested. Everything else, the events
    /// of other windows among it, changes nothing.
    pub fn dispatch(&mut self, event: &Event) -> (action: Action)
        ensures
            final(self)@.wf(),
            (final(self)@, action) == old(self)@.step(*event),
            *event matches Event::Window { window_id, event: window_event } ==> {
                window_id == old(self)@.window_id && window_event.is_exit_request() ==> {
                    &&& action == Action::Exit
                    &&& final(self)@ == old(self)@
                }
            },
            *event == Event::AboutToWait ==> {
                &&& action == Action::RequestRedraw
                &&& final(self)@ == old(self)@
            },
    {
        proof {
            use_type_invariant(&*self);
        }
        match event {
            Event::Window { window_id, event: window_event } => {
                if *window_id != self.state.window_id {
                    Action::Continue
                } else if self.handle_input(window_event) {
                    Action::Continue
                } else if window_event.asks_to_exit() {
                    Action::Exit
                } else {
                    match window_event {
                        WindowEvent::Resized(size) => {
                            match self.handle_resize(size.width, size.height) {
                                Some(config) => Action::Reconfigure(config),
                                None => Action::Continue,
                            }
                        },
                        WindowEvent::RedrawRequested => {
                            self.update();
                            Action::Render
                        },
                        _ => Action::Continue,
                    }
                }
            },
            Event::AboutToWait => Action::RequestRedraw,
            Event::Other => Action::Continue,
        }
    }
}

} // verus!
