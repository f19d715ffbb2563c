//! The per-frame work as a plan: the exact sequence of commands recorded
//! into the one command buffer a frame submits. The embedder replays the
//! plan against its GPU library command for command.

use vstd::prelude::*;
use crate::geometry::{draw_call_spec, Shape};

verus! {

/// The colour the render target is cleared to, in tenths of full intensity:
/// a component value of `n` stands for `n / 10`.
#[derive(Clone, Copy, Debug, PartialEq, Eq, Structural)]
pub struct ClearColor {
    /// Red, in tenths.
    pub r_tenths: u8,
    /// Green, in tenths.
    pub g_tenths: u8,
    /// Blue, in tenths.
    pub b_tenths: u8,
    /// Alpha, in tenths.
    pub a_tenths: u8,
}

/// The fixed background colour: r=0.1, g=0.2, b=0.3, a=1.0.
pub open spec fn background() -> ClearColor {
    ClearColor { r_tenths: 1, g_tenths: 2, b_tenths: 3, a_tenths: 10 }
}

/// The fixed background colour the render pass clears to.
pub fn clear_color() -> (c: ClearColor)
    ensures
        c == background(),
{
    ClearColor { r_tenths: 1, g_tenths: 2, b_tenths: 3, a_tenths: 10 }
}

/// One command recorded into the frame's command buffer.
#[derive(Clone, Copy, Debug, PartialEq, Eq, Structural)]
pub enum RenderCommand {
    /// Begin the single render pass, clearing the target to `clear`.
    BeginPass { clear: ClearColor },
    /// Bind the render pipeline.
    SetPipeline,
    /// Bind the vertex buffer (indexed variant only).
    BindVertexBuffer,
    /// Bind the index buffer (indexed variant only).
    BindIndexBuffer,
    /// Draw a plain vertex range.
    Draw { vertices: u32, instances: u32 },
    /// Draw through the bound index buffer.
    DrawIndexed { indices: u32, instances: u32 },
    /// End the render pass.
    EndPass,
}

/// Whether a command issues a draw call.
pub open spec fn is_draw(c: RenderCommand) -> bool {
    c is Draw || c is DrawIndexed
}

/// How many draw calls a command sequence issues.
pub open spec fn draw_count(s: Seq<RenderCommand>) -> nat
    decreases s.len(),
{
    if s.len() == 0 {
        0
    } else {
        (if is_draw(s[0]) {
            1nat
        } else {
            0nat
        }) + draw_count(s.drop_first())
    }
}

/// The commands a frame records for the given shape: one render pass that
/// clears to the background colour, binds the pipeline (and, for the indexed
/// variant, the geometry buffers), and issues the shape's one draw call.
pub open spec fn frame_commands(shape: Shape) -> Seq<RenderCommand> {
    let d = draw_call_spec(shape);
    match shape {
        Shape::Triangle => seq![
            RenderCommand::BeginPass { clear: background() },
            RenderCommand::SetPipeline,
            RenderCommand::Draw { vertices: d.count, instances: d.instances },
            RenderCommand::EndPass,
        ],
        Shape::Pentagon => seq![
            RenderCommand::BeginPass { clear: background() },
            RenderCommand::SetPipeline,
            RenderCommand::BindVertexBuffer,
            RenderCommand::BindIndexBuffer,
            RenderCommand::DrawIndexed { indices: d.count, instances: d.instances },
            RenderCommand::EndPass,
        ],
    }
}

/// The contents of the one command buffer a frame submits. Executing a plan
/// is one submission; a frame never records a second buffer.
#[derive(Debug)]
pub struct FramePlan {
    /// The recorded commands, in order.
    pub commands: Vec<RenderCommand>,
}

/// Records the frame plan for the given shape.
pub fn plan_frame(shape: &Shape) -> (plan: FramePlan)
    ensures
        plan.commands@ == frame_commands(*shape),
{
    let mut commands: Vec<RenderCommand> = Vec::new();
    commands.push(RenderCommand::BeginPass { clear: clear_color() });
    commands.push(RenderCommand::SetPipeline);
    match shape {
        Shape::Triangle => {
            let d = shape.draw_call();
            commands.push(RenderCommand::Draw { vertices: d.count, instances: d.instances });
        },
        Shape::Pentagon => {
            commands.push(RenderCommand::BindVertexBuffer);
            commands.push(RenderCommand::BindIndexBuffer);
            let d = shape.draw_call();
            commands.push(
                RenderCommand::DrawIndexed { indices: d.count, instances: d.instances },
            );
        },
    }
    commands.push(RenderCommand::EndPass);
    proof {
        assert(commands@ =~= frame_commands(*shape));
    }
    FramePlan { commands }
}

/// Every frame issues exactly one draw call, whichever shape is drawn; and
/// since a plan is the contents of the single command buffer submitted, a
/// frame submits exactly one command buffer.
pub proof fn lemma_frame_single_draw(shape: Shape)
    ensures
        draw_count(frame_commands(shape)) == 1,
{
    reveal_with_fuel(draw_count, 8);
    match shape {
        Shape::Triangle => {
            assert(draw_count(frame_commands(shape)) == 1);
        },
        Shape::Pentagon => {
            assert(draw_count(frame_commands(shape)) == 1);
        },
    }
}

} // verus!
