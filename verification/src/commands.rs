//! The commands that draw one frame.

use vstd::prelude::*;
use crate::geometry::{quad_index_seq, QUAD_INDEX_COUNT};
use crate::swapchain::Viewport;

verus! {

/// The colour an attachment is cleared to, a whole number per component.
#[derive(Clone, Copy, Debug, PartialEq, Eq, Structural)]
pub struct ClearColor {
    pub red: u8,
    pub green: u8,
    pub blue: u8,
    pub alpha: u8,
}

/// How often a recorded sequence of commands may be submitted.
#[derive(Clone, Copy, Debug, PartialEq, Eq, Structural)]
pub enum CommandBufferUsage {
    /// Once; the sequence is recorded anew for every frame.
    OneTimeSubmit,
}

/// One command of the sequence recorded for a frame.
#[derive(Clone, Copy, Debug, PartialEq, Eq, Structural)]
pub enum Command {
    /// Begin the render pass on the framebuffer at this position, clearing its
    /// colour attachment.
    BeginRenderPass { framebuffer: usize, clear_color: ClearColor },
    SetViewport { first_viewport: u32, viewport: Viewport },
    BindPipeline,
    BindIndexBuffer,
    BindVertexBuffers { first_binding: u32 },
    DrawIndexed {
        index_count: u32,
        instance_count: u32,
        first_index: u32,
        vertex_offset: i32,
        first_instance: u32,
    },
    EndRenderPass,
}

/// Opaque black.
pub open spec fn opaque_black() -> ClearColor {
    ClearColor { red: 0, green: 0, blue: 0, alpha: 1 }
}

/// The commands of one frame drawn into the framebuffer at position
/// `framebuffer` through `viewport`: one render pass, cleared to opaque black,
/// with one indexed draw of the whole quad.
pub open spec fn frame_commands(framebuffer: usize, viewport: Viewport) -> Seq<Command> {
    seq![
        Command::BeginRenderPass { framebuffer, clear_color: opaque_black() },
        Command::SetViewport { first_viewport: 0, viewport },
        Command::BindPipeline,
        Command::BindIndexBuffer,
        Command::BindVertexBuffers { first_binding: 0 },
        Command::DrawIndexed {
            index_count: QUAD_INDEX_COUNT,
            instance_count: 1,
            first_index: 0,
            vertex_offset: 0,
            first_instance: 0,
        },
        Command::EndRenderPass,
    ]
}

/// The one draw of a frame takes in every index of the quad, once, and draws
/// a single instance.
pub proof fn lemma_draw_covers_all_indices(framebuffer: usize, viewport: Viewport)
    ensures
        frame_commands(framebuffer, viewport).len() == 7,
        frame_commands(framebuffer, viewport)[5] == (Command::DrawIndexed {
            index_count: quad_index_seq().len() as u32,
            instance_count: 1,
            first_index: 0,
            vertex_offset: 0,
            first_instance: 0,
        }),
        forall|i: int|
            0 <= i < 7 && i != 5 ==> !(#[trigger] frame_commands(framebuffer, viewport)[i]
                is DrawIndexed),
{
}

/// Lists the commands of one frame, in the order they are recorded.
pub fn record_frame(framebuffer: usize, viewport: Viewport) -> (commands: Vec<Command>)
    ensures
        commands@ == frame_commands(framebuffer, viewport),
{
    let mut commands: Vec<Command> = Vec::new();
    commands.push(
        Command::BeginRenderPass {
            framebuffer,
            clear_color: ClearColor { red: 0, green: 0, blue: 0, alpha: 1 },
        },
    );
    commands.push(Command::SetViewport { first_viewport: 0, viewport });
    commands.push(Command::BindPipeline);
    commands.push(Command::BindIndexBuffer);
    commands.push(Command::BindVertexBuffers { first_binding: 0 });
    commands.push(
        Command::DrawIndexed {
            index_count: QUAD_INDEX_COUNT,
            instance_count: 1,
            first_index: 0,
            vertex_offset: 0,
            first_instance: 0,
        },
    );
    commands.push(Command::EndRenderPass);
    commands
}

} // verus!
