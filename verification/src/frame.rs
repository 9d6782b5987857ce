//! One frame: what its render pass records, and how an attempt to draw it
//! ended.

use vstd::prelude::*;
use crate::surface::WindowSize;

verus! {

/// `wgpu::SurfaceError`, the failure of `wgpu::Surface::get_current_texture`.
/// Opaque here: `failure_of` tells its variants apart.
#[verifier::external_type_specification]
#[verifier::external_body]
pub struct ExSurfaceError(wgpu::SurfaceError);

/// Where the pointer is, in physical pixels. Each coordinate is held as the
/// bit pattern of the IEEE 754 double that the window system reported; the
/// library carries the coordinates and never computes with them.
#[derive(Clone, Copy, Debug, PartialEq, Eq, Structural)]
pub struct PointerPosition {
    pub x: u64,
    pub y: u64,
}

/// One channel of a colour, as the exact quantity it stands for.
#[derive(Clone, Copy, Debug, PartialEq, Eq, Structural)]
pub enum Channel {
    /// The number 0.
    Zero,
    /// The number 1.
    One,
    /// `coordinate / extent`: a pointer coordinate, as `PointerPosition`
    /// holds it, over the window's extent along the same axis. It leaves the
    /// range from 0 to 1 when the pointer is outside the window, and is no
    /// number where the extent is 0.
    Normalized { coordinate: u64, extent: u32 },
}

/// The colour that a frame's target is cleared to.
#[derive(Clone, Copy, Debug, PartialEq, Eq, Structural)]
pub struct ClearColor {
    pub r: Channel,
    pub g: Channel,
    pub b: Channel,
    pub a: Channel,
}

impl ClearColor {
    /// Opaque black.
    pub open spec fn black() -> ClearColor {
        ClearColor { r: Channel::Zero, g: Channel::Zero, b: Channel::Zero, a: Channel::One }
    }

    /// The colour that follows the pointer: red is `x / width`, green is
    /// `y / height`, blue and alpha are 1.
    pub open spec fn following(position: PointerPosition, size: WindowSize) -> ClearColor {
        ClearColor {
            r: Channel::Normalized { coordinate: position.x, extent: size.width },
            g: Channel::Normalized { coordinate: position.y, extent: size.height },
            b: Channel::One,
            a: Channel::One,
        }
    }

    /// The colour for a pointer at `position` over a window of `size`.
    pub fn from_pointer(position: PointerPosition, size: WindowSize) -> (color: ClearColor)
        ensures
            color == ClearColor::following(position, size),
    {
        ClearColor {
            r: Channel::Normalized { coordinate: position.x, extent: size.width },
            g: Channel::Normalized { coordinate: position.y, extent: size.height },
            b: Channel::One,
            a: Channel::One,
        }
    }
}

impl Default for ClearColor {
    fn default() -> (color: ClearColor)
        ensures
            color == ClearColor::black(),
    {
        ClearColor { r: Channel::Zero, g: Channel::Zero, b: Channel::Zero, a: Channel::One }
    }
}

/// Vertices that the one draw call of a frame covers: a triangle.
pub const TRIANGLE_VERTICES: u32 = 3;

/// One draw call: the vertices from `first_vertex` up to, not including,
/// `end_vertex`, of the instances from `first_instance` up to, not including,
/// `end_instance`.
#[derive(Clone, Copy, Debug, PartialEq, Eq, Structural)]
pub struct DrawCall {
    pub first_vertex: u32,
    pub end_vertex: u32,
    pub first_instance: u32,
    pub end_instance: u32,
}

impl DrawCall {
    /// One instance of one triangle, from vertex 0.
    pub open spec fn triangle() -> DrawCall {
        DrawCall {
            first_vertex: 0,
            end_vertex: TRIANGLE_VERTICES,
            first_instance: 0,
            end_instance: 1,
        }
    }
}

/// What the single render pass of a frame records: the colour target is
/// cleared to `clear_color` and stored; with a draw call, the render pipeline
/// is bound and the call issued.
#[derive(Clone, Copy, Debug, PartialEq, Eq, Structural)]
pub struct FramePlan {
    pub clear_color: ClearColor,
    pub draw: Option<DrawCall>,
}

impl FramePlan {
    /// The frame of a controller that clears to `clear_color` and has a
    /// render pipeline or none.
    pub open spec fn of(clear_color: ClearColor, render_pipeline: bool) -> FramePlan {
        FramePlan {
            clear_color,
            draw: if render_pipeline {
                Some(DrawCall::triangle())
            } else {
                None
            },
        }
    }
}

/// Why the surface handed out no texture to draw on.
#[derive(Clone, Copy, Debug, PartialEq, Eq, Structural)]
pub enum SurfaceFailure {
    /// Acquiring the next frame timed out.
    Timeout,
    /// The underlying surface has changed.
    Outdated,
    /// The swap chain has been lost.
    Lost,
    /// No memory is left for a new frame.
    OutOfMemory,
}

/// How one attempt to draw a frame ended.
#[derive(Clone, Copy, Debug, PartialEq, Eq, Structural)]
pub enum FrameOutcome {
    /// The frame was submitted and presented.
    Presented,
    /// The surface was lost: it must be configured again.
    Lost,
    /// The device is out of memory: the loop cannot go on.
    OutOfMemory,
    /// Another failure to acquire a texture: this frame is skipped.
    OtherTransientError,
}

/// Which variant of `wgpu::SurfaceError` `error` is, under the same name.
pub uninterp spec fn surface_failure(error: wgpu::SurfaceError) -> SurfaceFailure;

/// Tells the variants of `wgpu::SurfaceError` apart, one for one and each
/// under its own name. The variant depends on the value alone, which is all
/// that the contract claims: it gives the answer its name.
#[verifier::external_body]
fn failure_of(error: &wgpu::SurfaceError) -> (failure: SurfaceFailure)
    ensures
        failure == surface_failure(*error),
{
    match error {
        wgpu::SurfaceError::Timeout => SurfaceFailure::Timeout,
        wgpu::SurfaceError::Outdated => SurfaceFailure::Outdated,
        wgpu::SurfaceError::Lost => SurfaceFailure::Lost,
        wgpu::SurfaceError::OutOfMemory => SurfaceFailure::OutOfMemory,
    }
}

impl FrameOutcome {
    /// The outcome of a frame for which no texture could be acquired.
    pub open spec fn failed(failure: SurfaceFailure) -> FrameOutcome {
        match failure {
            SurfaceFailure::Lost => FrameOutcome::Lost,
            SurfaceFailure::OutOfMemory => FrameOutcome::OutOfMemory,
            SurfaceFailure::Timeout | SurfaceFailure::Outdated => FrameOutcome::OtherTransientError,
        }
    }

    /// The outcome of a frame for which the surface was asked for its next
    /// texture and answered `acquired`: what follows a texture cannot fail.
    pub open spec fn of<T>(acquired: Result<T, wgpu::SurfaceError>) -> FrameOutcome {
        match acquired {
            Ok(_) => FrameOutcome::Presented,
            Err(error) => FrameOutcome::failed(surface_failure(error)),
        }
    }

    /// Classifies a failure to acquire a texture: a lost surface and
    /// exhausted memory keep their names, every other failure is transient.
    pub fn from_failure(failure: SurfaceFailure) -> (outcome: FrameOutcome)
        ensures
            outcome == FrameOutcome::failed(failure),
            outcome != FrameOutcome::Presented,
    {
        match failure {
            SurfaceFailure::Lost => FrameOutcome::Lost,
            SurfaceFailure::OutOfMemory => FrameOutcome::OutOfMemory,
            SurfaceFailure::Timeout => FrameOutcome::OtherTransientError,
            SurfaceFailure::Outdated => FrameOutcome::OtherTransientError,
        }
    }

    /// The outcome of a frame from what the surface answered when asked for
    /// its next texture: presented where there is a texture, else the class
    /// of the surface's error.
    pub fn from_acquired<T>(acquired: &Result<T, wgpu::SurfaceError>) -> (outcome: FrameOutcome)
        ensures
            outcome == FrameOutcome::of(*acquired),
            outcome == FrameOutcome::Presented <==> acquired is Ok,
    {
        match acquired {
            Ok(_) => FrameOutcome::Presented,
            Err(error) => FrameOutcome::from_failure(failure_of(error)),
        }
    }
}

} // verus!
