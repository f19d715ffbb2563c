//! The render context and the loop's decisions. [`RenderCore`] models the
//! state the loop mutates: the surface configuration, the pipeline choices
//! and the geometry variant. The embedder owns the window, the device, the
//! queue and the surface; it feeds events and render outcomes in and carries
//! the returned [`Action`]s out.

use vstd::prelude::*;
use crate::config::{resized, RenderConfig};
use crate::errors::SurfaceError;
use crate::events::{Action, AppEvent, KeyCode};
use crate::frame::{frame_commands, plan_frame, FramePlan, RenderCommand};
use crate::geometry::Shape;
use crate::pipeline::PipelineDesc;

verus! {

/// The owning state of the renderer, as far as its decisions depend on it.
pub struct RenderCore {
    /// The current surface configuration.
    pub config: RenderConfig,
    /// The compiled pipeline's choices; its output format tracks `config`.
    pub pipeline: PipelineDesc,
    /// Which geometry this renderer draws.
    pub shape: Shape,
}

/// The state and the action after dispatching one event.
pub open spec fn step_spec(s: RenderCore, ev: AppEvent) -> (RenderCore, Action) {
    match ev {
        AppEvent::RedrawRequested => (s, Action::RenderFrame),
        AppEvent::MainEventsCleared => (s, Action::RequestRedraw),
        AppEvent::WindowResized { width, height } => (
            resized_core(s, width, height),
            if width > 0 && height > 0 {
                Action::Reconfigure
            } else {
                Action::Continue
            },
        ),
        AppEvent::ScaleFactorChanged { width, height } => (
            resized_core(s, width, height),
            if width > 0 && height > 0 {
                Action::Reconfigure
            } else {
                Action::Continue
            },
        ),
        AppEvent::CloseRequested => (s, Action::Exit),
        AppEvent::KeyboardInput { pressed, key, modifiers_active } => (
            s,
            if pressed && key is Escape && !modifiers_active {
                Action::Exit
            } else {
                Action::Continue
            },
        ),
        AppEvent::Other => (s, Action::Continue),
    }
}

/// The core after a resize request: only the configuration can change, and
/// only as [`resized`] says.
pub open spec fn resized_core(s: RenderCore, w: u32, h: u32) -> RenderCore {
    RenderCore { config: resized(s.config, w, h), ..s }
}

/// The state and the action after one render outcome: success and the
/// transient errors continue, a lost surface is reconfigured at the current
/// size, and memory exhaustion exits.
pub open spec fn outcome_spec(s: RenderCore, outcome: Result<(), SurfaceError>) -> (
    RenderCore,
    Action,
) {
    match outcome {
        Result::Ok(_) => (s, Action::Continue),
        Result::Err(SurfaceError::Lost) => (
            resized_core(s, s.config.width, s.config.height),
            if s.config.width > 0 && s.config.height > 0 {
                Action::Reconfigure
            } else {
                Action::Continue
            },
        ),
        Result::Err(SurfaceError::OutOfMemory) => (s, Action::Exit),
        Result::Err(SurfaceError::Outdated) => (s, Action::Continue),
        Result::Err(SurfaceError::Timeout) => (s, Action::Continue),
    }
}

/// A frame's result: the plan of the one command buffer to submit, or the
/// acquire error passed through unchanged.
pub open spec fn render_spec(s: RenderCore, acquired: Result<(), SurfaceError>) -> Result<
    Seq<RenderCommand>,
    SurfaceError,
> {
    match acquired {
        Result::Ok(_) => Result::Ok(frame_commands(s.shape)),
        Result::Err(e) => Result::Err(e),
    }
}

impl RenderCore {
    /// A core is well formed when its configuration is valid and the
    /// pipeline was compiled with the fixed-function choices of this
    /// renderer for the configuration's format.
    pub open spec fn wf(self) -> bool {
        &&& self.config.wf()
        &&& self.pipeline.target_format == self.config.format
        &&& self.pipeline.fixed_function_ok()
    }

    /// Builds the render context's state once startup negotiation has
    /// produced a surface of the given pixel size and preferred format.
    pub fn new(width: u32, height: u32, format: u32, shape: Shape) -> (s: RenderCore)
        requires
            width > 0,
            height > 0,
        ensures
            s.wf(),
            s.config.width == width,
            s.config.height == height,
            s.config.format == format,
            s.pipeline.target_format == format,
            s.shape == shape,
    {
        let config = RenderConfig::new(width, height, format);
        let pipeline = PipelineDesc::for_format(format);
        RenderCore { config, pipeline, shape }
    }

    /// Applies a resize request to the configuration. Returns whether the
    /// surface must be reconfigured; a zero dimension changes nothing.
    pub fn resize(&mut self, new_width: u32, new_height: u32) -> (reconfigure: bool)
        ensures
            *final(self) == resized_core(*old(self), new_width, new_height),
            reconfigure <==> (new_width > 0 && new_height > 0),
            old(self).wf() ==> final(self).wf(),
    {
        self.config.resize(new_width, new_height)
    }

    /// The hook for input events this renderer does not yet interpret; it
    /// never handles one and never changes the state.
    pub fn input(&mut self, ev: &AppEvent) -> (handled: bool)
        ensures
            !handled,
            *final(self) == *old(self),
    {
        let _ = ev;
        false
    }

    /// Per-frame state advancement; nothing advances yet.
    pub fn update(&mut self)
        ensures
            *final(self) == *old(self),
    {
    }

    /// One frame. The embedder acquires the next presentable texture and
    /// passes the outcome in; on success the recorded plan of the single
    /// command buffer comes back, otherwise the error is passed through for
    /// the loop to interpret. The state never changes across a frame.
    pub fn render(&mut self, acquired: Result<(), SurfaceError>) -> (r: Result<
        FramePlan,
        SurfaceError,
    >)
        ensures
            *final(self) == *old(self),
            r is Ok <==> acquired is Ok,
            r matches Result::Ok(plan) ==> render_spec(*old(self), acquired) matches Result::Ok(
                cmds,
            ) && plan.commands@ == cmds,
            r matches Result::Err(e) ==> acquired == Result::<(), SurfaceError>::Err(e),
    {
        match acquired {
            Ok(_) => Ok(plan_frame(&self.shape)),
            Err(e) => Err(e),
        }
    }

    /// Dispatches one event: the state moves and the action is returned
    /// exactly as [`step_spec`] says. Window events run through the input
    /// hook first; as it handles none, every event reaches its handler.
    pub fn handle_event(&mut self, ev: &AppEvent) -> (a: Action)
        ensures
            *final(self) == step_spec(*old(self), *ev).0,
            a == step_spec(*old(self), *ev).1,
            old(self).wf() ==> final(self).wf(),
    {
        match ev {
            AppEvent::RedrawRequested => {
                self.update();
                Action::RenderFrame
            },
            AppEvent::MainEventsCleared => Action::RequestRedraw,
            _ => {
                if self.input(ev) {
                    Action::Continue
                } else {
                    match ev {
                        AppEvent::WindowResized { width, height } => {
                            if self.resize(*width, *height) {
                                Action::Reconfigure
                            } else {
                                Action::Continue
                            }
                        },
                        AppEvent::ScaleFactorChanged { width, height } => {
                            if self.resize(*width, *height) {
                                Action::Reconfigure
                            } else {
                                Action::Continue
                            }
                        },
                        AppEvent::CloseRequested => Action::Exit,
                        AppEvent::KeyboardInput { pressed, key, modifiers_active } => {
                            if *pressed && matches!(key, KeyCode::Escape) && !*modifiers_active {
                                Action::Exit
                            } else {
                                Action::Continue
                            }
                        },
                        _ => Action::Continue,
                    }
                }
            },
        }
    }

    /// Interprets one render outcome, exactly as [`outcome_spec`] says: a
    /// lost surface is reconfigured at the current size and the loop goes
    /// on; memory exhaustion exits; everything else continues.
    pub fn after_render(&mut self, outcome: Result<(), SurfaceError>) -> (a: Action)
        ensures
            *final(self) == outcome_spec(*old(self), outcome).0,
            a == outcome_spec(*old(self), outcome).1,
            old(self).wf() ==> final(self).wf(),
            outcome matches Result::Err(e) && e is OutOfMemory ==> a is Exit,
            outcome matches Result::Err(e) && e is Lost && old(self).wf() ==> a is Reconfigure
                && *final(self) == *old(self),
    {
        match outcome {
            Ok(_) => Action::Continue,
            Err(SurfaceError::Lost) => {
                let w = self.config.width;
                let h = self.config.height;
                if self.resize(w, h) {
                    Action::Reconfigure
                } else {
                    Action::Continue
                }
            },
            Err(SurfaceError::OutOfMemory) => Action::Exit,
            Err(SurfaceError::Outdated) => Action::Continue,
            Err(SurfaceError::Timeout) => Action::Continue,
        }
    }
}

/// A resize event with a zero dimension leaves the whole context unchanged
/// and attempts no reconfiguration.
pub proof fn lemma_zero_resize_event_is_noop(s: RenderCore, w: u32, h: u32)
    requires
        w == 0 || h == 0,
    ensures
        step_spec(s, (AppEvent::WindowResized { width: w, height: h })).0 == s,
        step_spec(s, (AppEvent::WindowResized { width: w, height: h })).1 == Action::Continue,
        step_spec(s, (AppEvent::ScaleFactorChanged { width: w, height: h })).0 == s,
        step_spec(s, (AppEvent::ScaleFactorChanged { width: w, height: h })).1 == Action::Continue,
{
}

/// After a resize to any positive size, the context is valid and the next
/// frame succeeds: given a successfully acquired texture, the render step
/// returns the frame plan, never an error.
pub proof fn lemma_resize_then_render_succeeds(s: RenderCore, w: u32, h: u32)
    requires
        s.wf(),
        w > 0,
        h > 0,
    ensures
        ({
            let after = step_spec(s, (AppEvent::WindowResized { width: w, height: h })).0;
            &&& after.wf()
            &&& render_spec(after, Result::<(), SurfaceError>::Ok(())) matches Result::Ok(cmds)
                && cmds == frame_commands(s.shape)
        }),
{
}

/// A close request, or a press of the exit key with no modifier active,
/// exits within the one event dispatch that sees it, from any state.
pub proof fn lemma_close_or_escape_exits(s: RenderCore, ev: AppEvent)
    requires
        ev is CloseRequested || (ev matches AppEvent::KeyboardInput { pressed, key, modifiers_active }
            && pressed && key is Escape && !modifiers_active),
    ensures
        step_spec(s, ev).1 == Action::Exit,
{
}

/// Memory exhaustion terminates the loop; a lost surface does not: it is
/// reconfigured at the current size, the state otherwise unchanged, and the
/// loop continues.
pub proof fn lemma_render_error_policy(s: RenderCore)
    requires
        s.wf(),
    ensures
        outcome_spec(s, Result::<(), SurfaceError>::Err(SurfaceError::OutOfMemory)).1
            == Action::Exit,
        outcome_spec(s, Result::<(), SurfaceError>::Err(SurfaceError::Lost)).1
            == Action::Reconfigure,
        outcome_spec(s, Result::<(), SurfaceError>::Err(SurfaceError::Lost)).0 == s,
        outcome_spec(s, Result::<(), SurfaceError>::Err(SurfaceError::Outdated)).1
            == Action::Continue,
        outcome_spec(s, Result::<(), SurfaceError>::Err(SurfaceError::Timeout)).1
            == Action::Continue,
{
}

} // verus!
