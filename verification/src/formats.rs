//! Scalar enumerations of the rendering API: vertex and pixel formats,
//! uniform types, buffer kinds, and the fixed-function state values, with
//! their sizes and driver encodings.

use vstd::prelude::*;
use crate::gl_consts::{
    GL_RGBA, GL_DEPTH_COMPONENT, GL_UNSIGNED_BYTE, GL_UNSIGNED_SHORT, GL_FLOAT, GL_ARRAY_BUFFER,
    GL_ELEMENT_ARRAY_BUFFER, GL_STATIC_DRAW, GL_DYNAMIC_DRAW, GL_STREAM_DRAW, GL_NEVER, GL_LESS,
    GL_EQUAL, GL_LEQUAL, GL_GREATER, GL_NOTEQUAL, GL_GEQUAL, GL_ALWAYS, GL_FUNC_ADD,
    GL_FUNC_SUBTRACT, GL_FUNC_REVERSE_SUBTRACT, GL_ZERO, GL_ONE, GL_SRC_COLOR,
    GL_ONE_MINUS_SRC_COLOR, GL_SRC_ALPHA, GL_ONE_MINUS_SRC_ALPHA, GL_DST_ALPHA,
    GL_ONE_MINUS_DST_ALPHA, GL_DST_COLOR, GL_ONE_MINUS_DST_COLOR, LINEAR_FILTER, NEAREST_FILTER,
};

verus! {

/// The wire-level pixel layout of a texture.
#[derive(Debug, Clone, Copy, PartialEq, Eq, Structural)]
pub enum PixelFormat {
    RGBA8,
    Depth,
}

impl PixelFormat {
    /// Bytes one texel occupies in caller-supplied pixel data.
    pub fn bytes_per_pixel(&self) -> (r: usize)
        ensures
            r == self.spec_bytes_per_pixel(),
    {
        match self {
            PixelFormat::RGBA8 => 4,
            PixelFormat::Depth => 2,
        }
    }

    pub open spec fn spec_bytes_per_pixel(self) -> usize {
        match self {
            PixelFormat::RGBA8 => 4usize,
            PixelFormat::Depth => 2usize,
        }
    }

    /// The driver's (internal format, format, pixel type) encoding.
    pub fn gl_format(&self) -> (r: (u32, u32, u32))
        ensures
            r == self.spec_gl_format(),
    {
        match self {
            PixelFormat::RGBA8 => (GL_RGBA, GL_RGBA, GL_UNSIGNED_BYTE),
            PixelFormat::Depth => (GL_DEPTH_COMPONENT, GL_DEPTH_COMPONENT, GL_UNSIGNED_SHORT),
        }
    }

    pub open spec fn spec_gl_format(self) -> (u32, u32, u32) {
        match self {
            PixelFormat::RGBA8 => (GL_RGBA, GL_RGBA, GL_UNSIGNED_BYTE),
            PixelFormat::Depth => (GL_DEPTH_COMPONENT, GL_DEPTH_COMPONENT, GL_UNSIGNED_SHORT),
        }
    }
}

/// Sets the wrap parameter for texture.
#[derive(Debug, Clone, Copy, PartialEq, Eq, Structural)]
pub enum TextureWrap {
    /// Samples at coord x + 1 map to coord x.
    Repeat,
    /// Samples at coord x + 1 map to coord 1 - x.
    Mirror,
    /// Samples at coord x + 1 map to coord 1.
    Clamp,
    /// Same as Mirror, but only for one repetition.
    MirrorClamp,
}

#[derive(Debug, Clone, Copy, PartialEq, Eq, Structural)]
pub enum FilterMode {
    Linear,
    Nearest,
}

impl FilterMode {
    /// The driver's filter parameter value.
    pub fn gl_filter(&self) -> (r: i32)
        ensures
            r == self.spec_gl_filter(),
    {
        match self {
            FilterMode::Linear => LINEAR_FILTER,
            FilterMode::Nearest => NEAREST_FILTER,
        }
    }

    pub open spec fn spec_gl_filter(self) -> i32 {
        match self {
            FilterMode::Linear => LINEAR_FILTER,
            FilterMode::Nearest => NEAREST_FILTER,
        }
    }
}

/// A scalar, vector or matrix entry of a uniform block.
#[derive(Debug, Clone, Copy, PartialEq, Eq, Structural)]
pub enum UniformType {
    Float1,
    Float2,
    Float3,
    Float4,
    Mat4,
}

impl UniformType {
    /// Byte size of `count` values of this type, laid out back to back.
    pub fn size(&self, count: usize) -> (r: usize)
        requires
            self.spec_size(count as int) <= usize::MAX,
        ensures
            r == self.spec_size(count as int),
    {
        match self {
            UniformType::Float1 => 4 * count,
            UniformType::Float2 => 8 * count,
            UniformType::Float3 => 12 * count,
            UniformType::Float4 => 16 * count,
            UniformType::Mat4 => 64 * count,
        }
    }

    /// Byte size of one value of this type.
    pub open spec fn spec_base_size(self) -> int {
        match self {
            UniformType::Float1 => 4,
            UniformType::Float2 => 8,
            UniformType::Float3 => 12,
            UniformType::Float4 => 16,
            UniformType::Mat4 => 64,
        }
    }

    pub open spec fn spec_size(self, count: int) -> int {
        self.spec_base_size() * count
    }
}

/// A per-vertex input's shape as declared at pipeline creation.
#[derive(Debug, Clone, Copy, PartialEq, Eq, Structural)]
pub enum VertexFormat {
    Float1,
    Float2,
    Float3,
    Float4,
    Byte1,
    Byte2,
    Byte3,
    Byte4,
    Mat4,
}

impl VertexFormat {
    /// Component count of the format (a mat4 counts all 16 of its floats).
    pub fn size(&self) -> (r: i32)
        ensures
            r == self.spec_size(),
    {
        match self {
            VertexFormat::Float1 => 1,
            VertexFormat::Float2 => 2,
            VertexFormat::Float3 => 3,
            VertexFormat::Float4 => 4,
            VertexFormat::Byte1 => 1,
            VertexFormat::Byte2 => 2,
            VertexFormat::Byte3 => 3,
            VertexFormat::Byte4 => 4,
            VertexFormat::Mat4 => 16,
        }
    }

    pub open spec fn spec_size(self) -> int {
        match self {
            VertexFormat::Float1 => 1,
            VertexFormat::Float2 => 2,
            VertexFormat::Float3 => 3,
            VertexFormat::Float4 => 4,
            VertexFormat::Byte1 => 1,
            VertexFormat::Byte2 => 2,
            VertexFormat::Byte3 => 3,
            VertexFormat::Byte4 => 4,
            VertexFormat::Mat4 => 16,
        }
    }

    /// Bytes one vertex's worth of this format occupies in its buffer.
    pub fn byte_len(&self) -> (r: i32)
        ensures
            r == self.spec_byte_len(),
    {
        match self {
            VertexFormat::Float1 => 4,
            VertexFormat::Float2 => 8,
            VertexFormat::Float3 => 12,
            VertexFormat::Float4 => 16,
            VertexFormat::Byte1 => 1,
            VertexFormat::Byte2 => 2,
            VertexFormat::Byte3 => 3,
            VertexFormat::Byte4 => 4,
            VertexFormat::Mat4 => 64,
        }
    }

    pub open spec fn spec_byte_len(self) -> int {
        match self {
            VertexFormat::Float1 => 4,
            VertexFormat::Float2 => 8,
            VertexFormat::Float3 => 12,
            VertexFormat::Float4 => 16,
            VertexFormat::Byte1 => 1,
            VertexFormat::Byte2 => 2,
            VertexFormat::Byte3 => 3,
            VertexFormat::Byte4 => 4,
            VertexFormat::Mat4 => 64,
        }
    }

    /// The driver's component type for this format.
    pub fn type_(&self) -> (r: u32)
        ensures
            r == self.spec_type(),
    {
        match self {
            VertexFormat::Float1 => GL_FLOAT,
            VertexFormat::Float2 => GL_FLOAT,
            VertexFormat::Float3 => GL_FLOAT,
            VertexFormat::Float4 => GL_FLOAT,
            VertexFormat::Byte1 => GL_UNSIGNED_BYTE,
            VertexFormat::Byte2 => GL_UNSIGNED_BYTE,
            VertexFormat::Byte3 => GL_UNSIGNED_BYTE,
            VertexFormat::Byte4 => GL_UNSIGNED_BYTE,
            VertexFormat::Mat4 => GL_FLOAT,
        }
    }

    pub open spec fn spec_type(self) -> u32 {
        match self {
            VertexFormat::Mat4 => GL_FLOAT,
            VertexFormat::Byte1 => GL_UNSIGNED_BYTE,
            VertexFormat::Byte2 => GL_UNSIGNED_BYTE,
            VertexFormat::Byte3 => GL_UNSIGNED_BYTE,
            VertexFormat::Byte4 => GL_UNSIGNED_BYTE,
            _ => GL_FLOAT,
        }
    }
}

/// Whether a buffer slot's read position advances per vertex or per
/// instance.
#[derive(Debug, Clone, Copy, PartialEq, Eq, Structural)]
pub enum VertexStep {
    PerVertex,
    PerInstance,
}

impl Default for VertexStep {
    fn default() -> (r: VertexStep)
        ensures
            r == VertexStep::PerVertex,
    {
        VertexStep::PerVertex
    }
}

/// Whether a buffer holds vertex data or 16-bit indices.
#[derive(Debug, Clone, Copy, PartialEq, Eq, Structural)]
pub enum BufferType {
    VertexBuffer,
    IndexBuffer,
}

/// How often a buffer's contents are expected to change.
#[derive(Debug, Clone, Copy, PartialEq, Eq, Structural)]
pub enum Usage {
    Immutable,
    Dynamic,
    Stream,
}

/// The driver's bind target for a buffer kind.
pub fn gl_buffer_target(buffer_type: &BufferType) -> (r: u32)
    ensures
        r == spec_gl_buffer_target(*buffer_type),
{
    match buffer_type {
        BufferType::VertexBuffer => GL_ARRAY_BUFFER,
        BufferType::IndexBuffer => GL_ELEMENT_ARRAY_BUFFER,
    }
}

pub open spec fn spec_gl_buffer_target(buffer_type: BufferType) -> u32 {
    match buffer_type {
        BufferType::VertexBuffer => GL_ARRAY_BUFFER,
        BufferType::IndexBuffer => GL_ELEMENT_ARRAY_BUFFER,
    }
}

/// The driver's usage hint for a buffer usage.
pub fn gl_usage(usage: &Usage) -> (r: u32)
    ensures
        r == spec_gl_usage(*usage),
{
    match usage {
        Usage::Immutable => GL_STATIC_DRAW,
        Usage::Dynamic => GL_DYNAMIC_DRAW,
        Usage::Stream => GL_STREAM_DRAW,
    }
}

pub open spec fn spec_gl_usage(usage: Usage) -> u32 {
    match usage {
        Usage::Immutable => GL_STATIC_DRAW,
        Usage::Dynamic => GL_DYNAMIC_DRAW,
        Usage::Stream => GL_STREAM_DRAW,
    }
}

/// Specify whether front- or back-facing polygons can be culled.
#[derive(Debug, Clone, Copy, PartialEq, Eq, Structural)]
pub enum CullFace {
    Nothing,
    Front,
    Back,
}

/// Define front- and back-facing polygons.
#[derive(Debug, Clone, Copy, PartialEq, Eq, Structural)]
pub enum FrontFaceOrder {
    Clockwise,
    CounterClockwise,
}

/// A pixel-wise comparison function.
#[derive(Debug, Clone, Copy, PartialEq, Eq, Structural)]
pub enum Comparison {
    Never,
    Less,
    LessOrEqual,
    Greater,
    GreaterOrEqual,
    Equal,
    NotEqual,
    Always,
}

impl Comparison {
    /// The driver's encoding of the comparison.
    pub fn gl_enum(&self) -> (r: u32)
        ensures
            r == self.spec_gl_enum(),
    {
        match self {
            Comparison::Never => GL_NEVER,
            Comparison::Less => GL_LESS,
            Comparison::LessOrEqual => GL_LEQUAL,
            Comparison::Greater => GL_GREATER,
            Comparison::GreaterOrEqual => GL_GEQUAL,
            Comparison::Equal => GL_EQUAL,
            Comparison::NotEqual => GL_NOTEQUAL,
            Comparison::Always => GL_ALWAYS,
        }
    }

    pub open spec fn spec_gl_enum(self) -> u32 {
        match self {
            Comparison::Never => GL_NEVER,
            Comparison::Less => GL_LESS,
            Comparison::LessOrEqual => GL_LEQUAL,
            Comparison::Greater => GL_GREATER,
            Comparison::GreaterOrEqual => GL_GEQUAL,
            Comparison::Equal => GL_EQUAL,
            Comparison::NotEqual => GL_NOTEQUAL,
            Comparison::Always => GL_ALWAYS,
        }
    }
}

/// Specifies how incoming RGBA values (source) and the RGBA in framebuffer
/// (destination) are combined.
#[derive(Debug, Clone, Copy, PartialEq, Eq, Structural)]
pub enum Equation {
    /// Adds source and destination. Source and destination are multiplied
    /// by blending parameters before addition.
    Add,
    /// Subtracts destination from source. Source and destination are
    /// multiplied by blending parameters before subtraction.
    Subtract,
    /// Subtracts source from destination. Source and destination are
    /// multiplied by blending parameters before subtraction.
    ReverseSubtract,
}

impl Equation {
    /// The driver's encoding of the blend equation.
    pub fn gl_enum(&self) -> (r: u32)
        ensures
            r == self.spec_gl_enum(),
    {
        match self {
            Equation::Add => GL_FUNC_ADD,
            Equation::Subtract => GL_FUNC_SUBTRACT,
            Equation::ReverseSubtract => GL_FUNC_REVERSE_SUBTRACT,
        }
    }

    pub open spec fn spec_gl_enum(self) -> u32 {
        match self {
            Equation::Add => GL_FUNC_ADD,
            Equation::Subtract => GL_FUNC_SUBTRACT,
            Equation::ReverseSubtract => GL_FUNC_REVERSE_SUBTRACT,
        }
    }
}

/// Blend values.
#[derive(Debug, Clone, Copy, PartialEq, Eq, Structural)]
pub enum BlendValue {
    SourceColor,
    SourceAlpha,
    DestinationColor,
    DestinationAlpha,
}

/// Blend factors.
#[derive(Debug, Clone, Copy, PartialEq, Eq, Structural)]
pub enum BlendFactor {
    Zero,
    One,
    Value(BlendValue),
    OneMinusValue(BlendValue),
}

impl BlendFactor {
    /// The driver's encoding of the blend factor.
    pub fn gl_enum(&self) -> (r: u32)
        ensures
            r == self.spec_gl_enum(),
    {
        match self {
            BlendFactor::Zero => GL_ZERO,
            BlendFactor::One => GL_ONE,
            BlendFactor::Value(BlendValue::SourceColor) => GL_SRC_COLOR,
            BlendFactor::Value(BlendValue::SourceAlpha) => GL_SRC_ALPHA,
            BlendFactor::Value(BlendValue::DestinationColor) => GL_DST_COLOR,
            BlendFactor::Value(BlendValue::DestinationAlpha) => GL_DST_ALPHA,
            BlendFactor::OneMinusValue(BlendValue::SourceColor) => GL_ONE_MINUS_SRC_COLOR,
            BlendFactor::OneMinusValue(BlendValue::SourceAlpha) => GL_ONE_MINUS_SRC_ALPHA,
            BlendFactor::OneMinusValue(BlendValue::DestinationColor) => GL_ONE_MINUS_DST_COLOR,
            BlendFactor::OneMinusValue(BlendValue::DestinationAlpha) => GL_ONE_MINUS_DST_ALPHA,
        }
    }

    pub open spec fn spec_gl_enum(self) -> u32 {
        match self {
            BlendFactor::Zero => GL_ZERO,
            BlendFactor::One => GL_ONE,
            BlendFactor::Value(BlendValue::SourceColor) => GL_SRC_COLOR,
            BlendFactor::Value(BlendValue::SourceAlpha) => GL_SRC_ALPHA,
            BlendFactor::Value(BlendValue::DestinationColor) => GL_DST_COLOR,
            BlendFactor::Value(BlendValue::DestinationAlpha) => GL_DST_ALPHA,
            BlendFactor::OneMinusValue(BlendValue::SourceColor) => GL_ONE_MINUS_SRC_COLOR,
            BlendFactor::OneMinusValue(BlendValue::SourceAlpha) => GL_ONE_MINUS_SRC_ALPHA,
            BlendFactor::OneMinusValue(BlendValue::DestinationColor) => GL_ONE_MINUS_DST_COLOR,
            BlendFactor::OneMinusValue(BlendValue::DestinationAlpha) => GL_ONE_MINUS_DST_ALPHA,
        }
    }
}

} // verus!
