use vstd::prelude::*;

use crate::surface::SurfaceConfig;

verus! {

/// The GPU buffers a render pass binds.
#[derive(Clone, Copy, Debug, PartialEq, Eq, Structural)]
pub enum BufferKind {
    /// The static six-vertex unit quad.
    QuadVertices,
    /// The per-instance records.
    Instances,
}

/// One step of the work a frame asks of the graphics driver, in the order it
/// is to be carried out.
#[derive(Clone, Copy, Debug, PartialEq, Eq, Structural)]
pub enum RenderCommand {
    /// Apply this configuration to the presentation surface.
    Reconfigure(SurfaceConfig),
    /// Open a command-recording scope (an encoder).
    OpenScope,
    /// Begin a render pass on the acquired image, cleared to the background.
    BeginPass,
    /// Bind the compiled pipeline state.
    SetPipeline,
    /// Bind a buffer to a vertex input slot.
    SetVertexBuffer { slot: u32, buffer: BufferKind },
    /// One instanced draw: `vertex_count` vertices for each of `instance_count` instances.
    Draw { vertex_count: u32, instance_count: u32 },
    /// End the render pass.
    EndPass,
    /// Finalize the recording scope into a command buffer.
    FinishScope,
    /// Submit the finished command buffer to the queue.
    Submit,
    /// Present the acquired image.
    Present,
}

/// Scopes opened minus scopes finalized over a command list.
pub open spec fn scope_balance(cmds: Seq<RenderCommand>) -> int
    decreases cmds.len(),
{
    if cmds.len() == 0 {
        0
    } else {
        let last = cmds.last();
        scope_balance(cmds.drop_last()) + match last {
            RenderCommand::OpenScope => 1int,
            RenderCommand::FinishScope => -1int,
            _ => 0int,
        }
    }
}

/// Number of draw calls in a command list.
pub open spec fn draw_calls(cmds: Seq<RenderCommand>) -> nat
    decreases cmds.len(),
{
    if cmds.len() == 0 {
        0
    } else {
        draw_calls(cmds.drop_last()) + match cmds.last() {
            RenderCommand::Draw { .. } => 1nat,
            _ => 0nat,
        }
    }
}

/// Vertices processed by the draw calls of a command list.
pub open spec fn vertices_drawn(cmds: Seq<RenderCommand>) -> nat
    decreases cmds.len(),
{
    if cmds.len() == 0 {
        0
    } else {
        vertices_drawn(cmds.drop_last()) + match cmds.last() {
            RenderCommand::Draw { vertex_count, instance_count } => (vertex_count as nat)
                * (instance_count as nat),
            _ => 0nat,
        }
    }
}

/// The balance of two command lists run one after the other is the sum of
/// their balances.
pub proof fn lemma_scope_balance_append(a: Seq<RenderCommand>, b: Seq<RenderCommand>)
    ensures
        scope_balance(a + b) == scope_balance(a) + scope_balance(b),
    decreases b.len(),
{
    if b.len() > 0 {
        assert((a + b).drop_last() == a + b.drop_last());
        assert((a + b).last() == b.last());
        lemma_scope_balance_append(a, b.drop_last());
    } else {
        assert(a + b == a);
    }
}

} // verus!
