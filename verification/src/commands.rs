//! The driver call trace.
//!
//! Every state-changing call the context decides to issue is recorded as one
//! [`GlCommand`]. A backend executes the trace against the real graphics
//! API in order; the contracts of the context's methods state exactly which
//! commands each operation appends.

use vstd::prelude::*;
use crate::formats::UniformType;

verus! {

/// One driver call, with the scalar arguments the backend hands on.
/// Color and depth values are carried as the bit patterns of the 32-bit
/// floats the caller supplied. Upload payloads (buffer data, texture
/// pixels, uniform blocks) are not recorded: the caller hands them to the
/// backend separately, and the command gives only their byte offset and
/// size.
#[derive(Debug, Clone, Copy, PartialEq, Eq, Structural)]
pub enum GlCommand {
    GenVertexArray { id: u32 },
    BindVertexArray { id: u32 },
    GenTexture { id: u32 },
    ActiveTexture { unit: u32 },
    BindTexture { texture: u32 },
    TexImage2D {
        internal_format: u32,
        width: u32,
        height: u32,
        format: u32,
        pixel_type: u32,
        with_data: bool,
    },
    TexParameter { param: u32, value: i32 },
    GenBuffer { id: u32 },
    BindBuffer { target: u32, buffer: u32 },
    BufferData { target: u32, size: usize, usage: u32 },
    BufferSubData { target: u32, offset: usize, size: usize },
    GenFramebuffer { id: u32 },
    BindFramebuffer { framebuffer: u32 },
    FramebufferTexture2D { attachment: u32, texture: u32 },
    UseProgram { program: u32 },
    EnableScissorTest,
    EnableDepthTest,
    DisableDepthTest,
    DepthFunc { func: u32 },
    EnableBlend,
    DisableBlend,
    BlendFunc { src: u32, dst: u32 },
    BlendEquationSeparate { mode_rgb: u32, mode_alpha: u32 },
    Viewport { x: i32, y: i32, width: i32, height: i32 },
    Scissor { x: i32, y: i32, width: i32, height: i32 },
    ClearColor { red: u32, green: u32, blue: u32, alpha: u32 },
    ClearDepth { depth: u32 },
    ClearStencil { value: i32 },
    Clear { mask: u32 },
    VertexAttribPointer {
        location: u32,
        size: i32,
        component_type: u32,
        stride: i32,
        offset: u64,
    },
    VertexAttribDivisor { location: u32, divisor: i32 },
    EnableVertexAttribArray { location: u32 },
    DisableVertexAttribArray { location: u32 },
    SetImageUniform { location: i32, unit: i32 },
    SetUniform { location: i32, uniform_type: UniformType, offset_words: usize, count_words: usize },
    DrawElementsInstanced { count: i32, index_offset: usize, instances: i32 },
}

impl GlCommand {
    /// Whether the command binds a vertex or index buffer.
    pub open spec fn is_buffer_bind(self) -> bool {
        match self {
            GlCommand::BindBuffer { .. } => true,
            _ => false,
        }
    }

    /// Whether the command changes a vertex attribute slot: sets its
    /// pointer or divisor, or toggles it.
    pub open spec fn is_attribute_change(self) -> bool {
        match self {
            GlCommand::VertexAttribPointer { .. } => true,
            GlCommand::VertexAttribDivisor { .. } => true,
            GlCommand::EnableVertexAttribArray { .. } => true,
            GlCommand::DisableVertexAttribArray { .. } => true,
            _ => false,
        }
    }
}

} // verus!
