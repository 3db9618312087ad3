//! A minimal rendering-context abstraction over an immediate-mode GPU
//! driver.
//!
//! The library owns the logic of such a context: the per-pipeline vertex
//! attribute layout computation, the shader uniform block layout, and the
//! state cache that suppresses redundant driver calls. The driver itself is
//! kept outside: every operation records the exact sequence of driver calls
//! it issues as [`GlCommand`] values in the context's command trace, and a
//! backend drains that trace against the real graphics API.

mod gl_consts;
mod formats;
mod errors;
mod commands;
mod shader;
mod layout;
mod cache;
mod context;

pub use context::{
    Texture, RenderTextureParams, Buffer, Bindings, PassAction, PipelineParams, Shader, Pipeline,
    RenderPass, PipelineInternal, RenderPassInternal, Context, DEPTH_ONE_BITS,
    spec_default_pipeline_params, spec_depth_trace, spec_clear_mask, spec_clear_trace,
    spec_pass_target, spec_begin_pass_trace, spec_default_tex_params, spec_texture_create_trace,
    spec_render_pass_trace, spec_cache_after_saved_bind, spec_buffer_create_trace, spec_buffer_update_trace, spec_buffer_handles, spec_image_bind_trace,
    spec_uniform_word_offset, spec_uniform_total_words, spec_uniform_trace_upto,
    lemma_uniform_word_offset_le,
};

pub use cache::{
    BlendState, CachedAttribute, GlCache, spec_blend_trace, blend_state_eq, lemma_blend_toggle,
    spec_slot_needs_rebind, spec_rebind_trace, spec_pip_attr, spec_apply_slot,
    spec_apply_slots_from, spec_slot_target, lemma_apply_slots_result,
    lemma_apply_slots_idempotent, lemma_reapply_slots_emits_nothing,
    lemma_rebind_tracked_buffer_emits_nothing, lemma_changed_slot_rebinds,
};

pub use layout::{
    BufferLayout, VertexAttribute, PipelineLayout, VertexAttributeInternal, compile_vertex_layout,
    spec_default_record, spec_slots_of, spec_sub_format, spec_offset_advance, spec_attr_advance,
    spec_auto_stride_upto, spec_auto_stride, spec_stride, spec_divisor, spec_base_offset_upto,
    spec_total_slots_upto, spec_total_slots, spec_layout_cap, spec_writes, spec_write_base,
    spec_writes_slot, spec_no_later_writer, spec_covered_upto, spec_covered, spec_attr_error,
    spec_record, spec_compile_ok, spec_layout_matches, lemma_exists_last_writer,
    lemma_compile_ok_fits, lemma_compile_ok_unique_writers,
    lemma_zero_stride_takes_declared_sum, lemma_mat4_expansion,
};

pub use errors::GraphicsError;
pub use commands::GlCommand;
pub use shader::{
    UniformBlockLayout, ShaderMeta, ProgramAttribute, ProgramUniform, ProgramReflection,
    ShaderImage, ShaderUniform, ShaderInternal, lookup_attribute, lookup_uniform,
    spec_lookup_attribute, spec_lookup_uniform, spec_uniform_offset, spec_uniform_block_size,
    build_shader_internal, spec_shader_build_ok,
};

pub use gl_consts::{
    GL_TEXTURE_2D, GL_TEXTURE0, GL_TEXTURE_WRAP_S, GL_TEXTURE_WRAP_T, GL_TEXTURE_MIN_FILTER,
    GL_TEXTURE_MAG_FILTER, GL_CLAMP_TO_EDGE, GL_LINEAR, GL_NEAREST, GL_RGBA, GL_DEPTH_COMPONENT,
    GL_UNSIGNED_BYTE, GL_UNSIGNED_SHORT, GL_FLOAT, GL_ARRAY_BUFFER, GL_ELEMENT_ARRAY_BUFFER,
    GL_STATIC_DRAW, GL_DYNAMIC_DRAW, GL_STREAM_DRAW, GL_FRAMEBUFFER, GL_COLOR_ATTACHMENT0,
    GL_DEPTH_ATTACHMENT, GL_COLOR_BUFFER_BIT, GL_DEPTH_BUFFER_BIT, GL_STENCIL_BUFFER_BIT,
    GL_NEVER, GL_LESS, GL_EQUAL, GL_LEQUAL, GL_GREATER, GL_NOTEQUAL, GL_GEQUAL, GL_ALWAYS,
    GL_FUNC_ADD, GL_FUNC_SUBTRACT, GL_FUNC_REVERSE_SUBTRACT, GL_ZERO, GL_ONE, GL_SRC_COLOR,
    GL_ONE_MINUS_SRC_COLOR, GL_SRC_ALPHA, GL_ONE_MINUS_SRC_ALPHA, GL_DST_ALPHA,
    GL_ONE_MINUS_DST_ALPHA, GL_DST_COLOR, GL_ONE_MINUS_DST_COLOR, GL_TRIANGLES, LINEAR_FILTER,
    NEAREST_FILTER, MAX_VERTEX_ATTRIBUTES,
};
pub use formats::{
    VertexFormat, VertexStep, UniformType, PixelFormat, TextureWrap, FilterMode, BufferType,
    Usage, CullFace, FrontFaceOrder, Comparison, Equation, BlendValue, BlendFactor,
    gl_buffer_target, gl_usage,
};
