//! The render context: the registries of shaders, pipelines and passes,
//! the GPU state cache, and the command trace every operation appends its
//! driver calls to.
//!
//! GPU object handles the context creates (buffers, textures, framebuffers,
//! the vertex array) are small integers drawn from a per-context counter;
//! the backend that drains the trace maps each to the driver object the
//! matching creation command produced. Shader programs are compiled and
//! linked by the driver outside this library; the context takes the linked
//! program's handle and reflection.

use vstd::prelude::*;
use crate::commands::GlCommand;
use crate::formats::{PixelFormat, TextureWrap, FilterMode, Comparison, CullFace, FrontFaceOrder,
    BufferType, Usage, gl_buffer_target, gl_usage, spec_gl_buffer_target};
use crate::cache::{GlCache, BlendState, CachedAttribute, spec_blend_trace, spec_apply_slots_from,
    spec_apply_slot, spec_pip_attr};
use crate::errors::GraphicsError;
use crate::layout::{BufferLayout, VertexAttribute, VertexAttributeInternal, compile_vertex_layout,
    spec_compile_ok, spec_layout_matches, spec_attr_error, spec_total_slots, spec_covered};
use crate::shader::{ShaderMeta, ShaderInternal, ProgramReflection, build_shader_internal,
    spec_shader_build_ok, spec_uniform_block_size};
use crate::gl_consts::{GL_ARRAY_BUFFER, GL_ELEMENT_ARRAY_BUFFER, GL_TEXTURE0,
    GL_TEXTURE_WRAP_S, GL_TEXTURE_WRAP_T, GL_TEXTURE_MIN_FILTER, GL_TEXTURE_MAG_FILTER,
    GL_CLAMP_TO_EDGE, GL_LINEAR, GL_RGBA, GL_UNSIGNED_BYTE, GL_COLOR_ATTACHMENT0,
    GL_DEPTH_ATTACHMENT, GL_COLOR_BUFFER_BIT, GL_DEPTH_BUFFER_BIT, GL_STENCIL_BUFFER_BIT,
    GL_STATIC_DRAW, GL_STREAM_DRAW, MAX_VERTEX_ATTRIBUTES};

verus! {

/// The bit pattern of a 32-bit float 1.0, the default depth clear value.
pub const DEPTH_ONE_BITS: u32 = 0x3F80_0000;

/// A GPU texture: its handle and its pixel dimensions.
#[derive(Debug, Clone, Copy, PartialEq, Eq, Structural)]
pub struct Texture {
    pub texture: u32,
    pub width: u32,
    pub height: u32,
}

/// What a render target texture is created with.
#[derive(Debug, Clone, Copy)]
pub struct RenderTextureParams {
    pub format: PixelFormat,
    pub wrap: TextureWrap,
    pub filter: FilterMode,
    pub width: u32,
    pub height: u32,
}

impl Default for RenderTextureParams {
    fn default() -> (r: RenderTextureParams)
        ensures
            r.format == PixelFormat::RGBA8,
            r.wrap == TextureWrap::Clamp,
            r.filter == FilterMode::Linear,
            r.width == 0,
            r.height == 0,
    {
        RenderTextureParams {
            format: PixelFormat::RGBA8,
            wrap: TextureWrap::Clamp,
            filter: FilterMode::Linear,
            width: 0,
            height: 0,
        }
    }
}

/// A GPU buffer: its handle, its kind, and its byte capacity. Immutable
/// buffers are sized and filled exactly once at creation; stream buffers
/// may be rewritten up to their capacity.
#[derive(Debug, Clone, Copy, PartialEq, Eq, Structural)]
pub struct Buffer {
    pub gl_buf: u32,
    pub buffer_type: BufferType,
    pub size: usize,
}

/// The resources one draw sequence reads: the vertex buffers (indexed as
/// the pipeline's buffer slots), the index buffer, and the textures
/// (positionally matched to the shader's declared image names).
#[derive(Debug, Clone)]
pub struct Bindings {
    pub vertex_buffers: Vec<Buffer>,
    pub index_buffer: Buffer,
    pub images: Vec<Texture>,
}

/// What `begin_pass` does to the target before drawing. Color components
/// and the depth value are bit patterns of 32-bit floats.
#[derive(Debug, Clone, Copy)]
pub enum PassAction {
    Nothing,
    Clear {
        color: Option<(u32, u32, u32, u32)>,
        depth: Option<u32>,
        stencil: Option<i32>,
    },
}

impl PassAction {
    /// Clear to the given color (as float bit patterns) and to depth 1.
    pub fn clear_color(r: u32, g: u32, b: u32, a: u32) -> (res: PassAction)
        ensures
            res == (PassAction::Clear {
                color: Some((r, g, b, a)),
                depth: Some(DEPTH_ONE_BITS),
                stencil: None,
            }),
    {
        PassAction::Clear { color: Some((r, g, b, a)), depth: Some(DEPTH_ONE_BITS), stencil: None }
    }
}

impl Default for PassAction {
    fn default() -> (r: PassAction)
        ensures
            r == (PassAction::Clear {
                color: Some((0u32, 0u32, 0u32, 0u32)),
                depth: Some(DEPTH_ONE_BITS),
                stencil: None,
            }),
    {
        PassAction::Clear {
            color: Some((0, 0, 0, 0)),
            depth: Some(DEPTH_ONE_BITS),
            stencil: None,
        }
    }
}

/// A pipeline's fixed-function parameter block. The depth-offset pair is
/// carried as float bit patterns.
#[derive(Debug, Clone, Copy, PartialEq)]
pub struct PipelineParams {
    pub cull_face: CullFace,
    pub front_face_order: FrontFaceOrder,
    pub depth_test: Comparison,
    pub depth_write: bool,
    pub depth_write_offset: Option<(u32, u32)>,
    pub color_blend: BlendState,
    pub color_write: (bool, bool, bool, bool),
}

impl Default for PipelineParams {
    fn default() -> (r: PipelineParams)
        ensures
            r == spec_default_pipeline_params(),
    {
        PipelineParams {
            cull_face: CullFace::Nothing,
            front_face_order: FrontFaceOrder::CounterClockwise,
            depth_test: Comparison::Always,  // no depth test
            depth_write: false,  // no depth write
            depth_write_offset: None,
            color_blend: None,
            color_write: (true, true, true, true),
        }
    }
}

/// The parameter block a pipeline gets when none is given: no culling, no
/// depth test or write, no blending, all channels written.
pub open spec fn spec_default_pipeline_params() -> PipelineParams {
    PipelineParams {
        cull_face: CullFace::Nothing,
        front_face_order: FrontFaceOrder::CounterClockwise,
        depth_test: Comparison::Always,
        depth_write: false,
        depth_write_offset: None,
        color_blend: None,
        color_write: (true, true, true, true),
    }
}

/// A handle into the context's shader registry.
#[derive(Debug, Clone, Copy, PartialEq, Eq, Structural)]
pub struct Shader(pub usize);

/// A handle into the context's pipeline registry.
#[derive(Debug, Clone, Copy, PartialEq, Eq, Structural)]
pub struct Pipeline(pub usize);

/// A handle into the context's render pass registry.
#[derive(Debug, Clone, Copy, PartialEq, Eq, Structural)]
pub struct RenderPass(pub usize);

/// A pipeline registry entry: its compiled layout, its shader, and its
/// parameter block.
pub struct PipelineInternal {
    pub layout: Vec<VertexAttributeInternal>,
    pub shader: Shader,
    pub params: PipelineParams,
}

/// A render pass registry entry: the framebuffer and the color texture it
/// targets, whose dimensions drive the viewport.
pub struct RenderPassInternal {
    pub gl_fb: u32,
    pub texture: Texture,
}

/// The render context.
pub struct Context {
    pub shaders: Vec<ShaderInternal>,
    pub pipelines: Vec<PipelineInternal>,
    pub passes: Vec<RenderPassInternal>,
    pub default_framebuffer: u32,
    pub cache: GlCache,
    pub commands: Vec<GlCommand>,
    pub screen_width: u32,
    pub screen_height: u32,
    pub next_object_id: u32,
}

impl Context {
    /// The context's structural invariant: the cache tracks all 16 slots,
    /// the active pipeline (if any) is a registry entry, and every
    /// pipeline names a registered shader and fits the slot count.
    pub open spec fn wf(self) -> bool {
        &&& self.cache.wf()
        &&& (self.cache.cur_pipeline matches Some(p) ==> p < self.pipelines@.len())
        &&& forall|i: int|
            0 <= i < self.pipelines@.len() ==> (#[trigger] self.pipelines@[i]).shader.0
                < self.shaders@.len() && self.pipelines@[i].layout@.len()
                <= MAX_VERTEX_ATTRIBUTES as int
    }

    /// The registry entry of the active pipeline.
    pub open spec fn spec_cur_pipeline(self) -> PipelineInternal {
        self.pipelines@[self.cache.cur_pipeline->Some_0 as int]
    }

    /// The shader of the active pipeline.
    pub open spec fn spec_cur_shader(self) -> ShaderInternal {
        self.shaders@[self.spec_cur_pipeline().shader.0 as int]
    }

    /// Everything but the cache and the command trace, unchanged.
    pub open spec fn spec_same_registries(self, other: Context) -> bool {
        &&& self.shaders@ == other.shaders@
        &&& self.pipelines@ == other.pipelines@
        &&& self.passes@ == other.passes@
        &&& self.default_framebuffer == other.default_framebuffer
        &&& self.screen_width == other.screen_width
        &&& self.screen_height == other.screen_height
        &&& self.next_object_id == other.next_object_id
    }

    /// A fresh context over a surface: remembers the surface's default
    /// framebuffer and drawable size, clears the cache, and creates and
    /// binds the context's vertex array.
    pub fn new(default_framebuffer: u32, screen_width: u32, screen_height: u32) -> (r: Context)
        ensures
            r.wf(),
            r.shaders@.len() == 0,
            r.pipelines@.len() == 0,
            r.passes@.len() == 0,
            r.default_framebuffer == default_framebuffer,
            r.screen_width == screen_width,
            r.screen_height == screen_height,
            r.cache.cur_pipeline is None,
            r.cache.blend is None,
            r.cache.framebuffer == default_framebuffer,
            r.cache.vertex_buffer == 0,
            r.cache.index_buffer == 0,
            r.cache.stored_vertex_buffer == 0,
            r.cache.stored_index_buffer == 0,
            forall|s: int|
                0 <= s < MAX_VERTEX_ATTRIBUTES as int ==> r.cache.attributes@[s] is None,
            r.next_object_id == 2,
            r.commands@ == seq![
                GlCommand::GenVertexArray { id: 1u32 },
                GlCommand::BindVertexArray { id: 1u32 },
            ],
    {
        let mut commands: Vec<GlCommand> = Vec::new();
        commands.push(GlCommand::GenVertexArray { id: 1 });
        commands.push(GlCommand::BindVertexArray { id: 1 });
        proof {
            assert(commands@ =~= seq![
                GlCommand::GenVertexArray { id: 1u32 },
                GlCommand::BindVertexArray { id: 1u32 },
            ]);
        }
        Context {
            shaders: Vec::new(),
            pipelines: Vec::new(),
            passes: Vec::new(),
            default_framebuffer,
            cache: GlCache::new(default_framebuffer),
            commands,
            screen_width,
            screen_height,
            next_object_id: 2,
        }
    }

    /// Notes the surface's new drawable size and sets the viewport to it.
    pub fn resize(&mut self, w: u32, h: u32)
        requires
            old(self).wf(),
            w <= i32::MAX,
            h <= i32::MAX,
        ensures
            final(self).wf(),
            final(self).screen_width == w,
            final(self).screen_height == h,
            final(self).shaders@ == old(self).shaders@,
            final(self).pipelines@ == old(self).pipelines@,
            final(self).passes@ == old(self).passes@,
            final(self).default_framebuffer == old(self).default_framebuffer,
            final(self).next_object_id == old(self).next_object_id,
            final(self).cache == old(self).cache,
            final(self).commands@ == old(self).commands@ + seq![
                GlCommand::Viewport { x: 0, y: 0, width: w as i32, height: h as i32 },
            ],
    {
        self.screen_width = w;
        self.screen_height = h;
        self.commands.push(GlCommand::Viewport { x: 0, y: 0, width: w as i32, height: h as i32 });
    }

    /// The surface's drawable size as last told to the context.
    pub fn screen_size(&self) -> (r: (u32, u32))
        ensures
            r.0 == self.screen_width,
            r.1 == self.screen_height,
    {
        (self.screen_width, self.screen_height)
    }

    /// Sets the scissor rectangle.
    pub fn apply_scissor_rect(&mut self, x: i32, y: i32, w: i32, h: i32)
        requires
            old(self).wf(),
        ensures
            final(self).wf(),
            old(self).spec_same_registries(*final(self)),
            final(self).cache == old(self).cache,
            final(self).commands@ == old(self).commands@ + seq![
                GlCommand::Scissor { x, y, width: w, height: h },
            ],
    {
        self.commands.push(GlCommand::Scissor { x, y, width: w, height: h });
    }

    /// Makes a pipeline the active one: selects its program, enables the
    /// scissor test, sets the depth state from its parameters, and moves
    /// the blend state through the cache — a blend change from disabled
    /// enables blending first; an unchanged blend state issues nothing.
    pub fn apply_pipeline(&mut self, pipeline: &Pipeline)
        requires
            old(self).wf(),
            pipeline.0 < old(self).pipelines@.len(),
        ensures
            final(self).wf(),
            old(self).spec_same_registries(*final(self)),
            final(self).cache == (GlCache {
                cur_pipeline: Some(pipeline.0),
                blend: old(self).pipelines@[pipeline.0 as int].params.color_blend,
                ..old(self).cache
            }),
            final(self).commands@ == old(self).commands@ + seq![
                GlCommand::UseProgram {
                    program: old(self).shaders@[old(
                        self,
                    ).pipelines@[pipeline.0 as int].shader.0 as int].program,
                },
                GlCommand::EnableScissorTest,
            ] + spec_depth_trace(old(self).pipelines@[pipeline.0 as int].params)
                + spec_blend_trace(
                old(self).cache.blend,
                old(self).pipelines@[pipeline.0 as int].params.color_blend,
            ),
    {
        self.cache.cur_pipeline = Some(pipeline.0);
        let shader_index = self.pipelines[pipeline.0].shader.0;
        let program = self.shaders[shader_index].program;
        self.commands.push(GlCommand::UseProgram { program });
        self.commands.push(GlCommand::EnableScissorTest);

        if self.pipelines[pipeline.0].params.depth_write {
            self.commands.push(GlCommand::EnableDepthTest);
            let func = self.pipelines[pipeline.0].params.depth_test.gl_enum();
            self.commands.push(GlCommand::DepthFunc { func });
        } else {
            self.commands.push(GlCommand::DisableDepthTest);
        }

        let new_blend = self.pipelines[pipeline.0].params.color_blend;
        self.cache.set_blend(new_blend, &mut self.commands);
        proof {
            assert(self.commands@ =~= old(self).commands@ + seq![
                GlCommand::UseProgram {
                    program: old(self).shaders@[old(
                        self,
                    ).pipelines@[pipeline.0 as int].shader.0 as int].program,
                },
                GlCommand::EnableScissorTest,
            ] + spec_depth_trace(old(self).pipelines@[pipeline.0 as int].params)
                + spec_blend_trace(
                old(self).cache.blend,
                old(self).pipelines@[pipeline.0 as int].params.color_blend,
            ));
        }
    }

    /// Sets the clear values that are present and clears the selected
    /// planes in one call; an absent component is left untouched.
    pub fn clear(
        &mut self,
        color: Option<(u32, u32, u32, u32)>,
        depth: Option<u32>,
        stencil: Option<i32>,
    )
        requires
            old(self).wf(),
        ensures
            final(self).wf(),
            old(self).spec_same_registries(*final(self)),
            final(self).cache == old(self).cache,
            final(self).commands@ == old(self).commands@ + spec_clear_trace(color, depth, stencil),
    {
        let mut bits: u32 = 0;
        if let Some((r, g, b, a)) = color {
            bits = bits + GL_COLOR_BUFFER_BIT;
            self.commands.push(GlCommand::ClearColor { red: r, green: g, blue: b, alpha: a });
        }
        if let Some(v) = depth {
            bits = bits + GL_DEPTH_BUFFER_BIT;
            self.commands.push(GlCommand::ClearDepth { depth: v });
        }
        if let Some(v) = stencil {
            bits = bits + GL_STENCIL_BUFFER_BIT;
            self.commands.push(GlCommand::ClearStencil { value: v });
        }
        if bits != 0 {
            self.commands.push(GlCommand::Clear { mask: bits });
        }
        proof {
            assert(self.commands@ =~= old(self).commands@ + spec_clear_trace(
                color,
                depth,
                stencil,
            ));
        }
    }

    /// Start rendering to the default frame buffer.
    pub fn begin_default_pass(&mut self, action: PassAction)
        requires
            old(self).wf(),
            old(self).screen_width <= i32::MAX,
            old(self).screen_height <= i32::MAX,
        ensures
            final(self).wf(),
            old(self).spec_same_registries(*final(self)),
            final(self).cache == (GlCache {
                framebuffer: old(self).default_framebuffer,
                ..old(self).cache
            }),
            final(self).commands@ == old(self).commands@ + spec_begin_pass_trace(
                *old(self),
                None,
                action,
            ),
    {
        self.begin_pass(None, action);
    }

    /// Start rendering to an offscreen framebuffer, or to the default one:
    /// binds the target, sets viewport and scissor to its full extent, and
    /// performs the requested clear.
    pub fn begin_pass(&mut self, pass: Option<RenderPass>, action: PassAction)
        requires
            old(self).wf(),
            pass matches Some(p) ==> p.0 < old(self).passes@.len() && old(
                self,
            ).passes@[p.0 as int].texture.width <= i32::MAX && old(
                self,
            ).passes@[p.0 as int].texture.height <= i32::MAX,
            pass is None ==> old(self).screen_width <= i32::MAX && old(self).screen_height
                <= i32::MAX,
        ensures
            final(self).wf(),
            old(self).spec_same_registries(*final(self)),
            final(self).cache == (GlCache {
                framebuffer: spec_pass_target(*old(self), pass).0,
                ..old(self).cache
            }),
            final(self).commands@ == old(self).commands@ + spec_begin_pass_trace(
                *old(self),
                pass,
                action,
            ),
    {
        let (framebuffer, w, h) = match pass {
            None => (self.default_framebuffer, self.screen_width as i32, self.screen_height as i32),
            Some(p) => {
                let fb = self.passes[p.0].gl_fb;
                let tw = self.passes[p.0].texture.width as i32;
                let th = self.passes[p.0].texture.height as i32;
                (fb, tw, th)
            },
        };
        self.cache.framebuffer = framebuffer;
        self.commands.push(GlCommand::BindFramebuffer { framebuffer });
        self.commands.push(GlCommand::Viewport { x: 0, y: 0, width: w, height: h });
        self.commands.push(GlCommand::Scissor { x: 0, y: 0, width: w, height: h });
        match action {
            PassAction::Nothing => {
                proof {
                    assert(self.commands@ =~= old(self).commands@ + spec_begin_pass_trace(
                        *old(self),
                        pass,
                        action,
                    ));
                }
            },
            PassAction::Clear { color, depth, stencil } => {
                self.clear(color, depth, stencil);
                proof {
                    assert(self.commands@ =~= old(self).commands@ + spec_begin_pass_trace(
                        *old(self),
                        pass,
                        action,
                    ));
                }
            },
        }
    }

    /// Ends the pass: restores the default framebuffer and clears the
    /// tracked vertex and index buffer bindings, forcing a rebind on the
    /// next draw sequence.
    pub fn end_render_pass(&mut self)
        requires
            old(self).wf(),
        ensures
            final(self).wf(),
            old(self).spec_same_registries(*final(self)),
            final(self).cache == (GlCache {
                vertex_buffer: 0,
                index_buffer: 0,
                framebuffer: old(self).default_framebuffer,
                ..old(self).cache
            }),
            final(self).commands@ == old(self).commands@ + seq![
                GlCommand::BindFramebuffer { framebuffer: old(self).default_framebuffer },
            ] + old(self).cache.spec_bind_buffer_trace(GL_ARRAY_BUFFER, 0)
                + old(self).cache.spec_bind_buffer_state(
                GL_ARRAY_BUFFER,
                0,
            ).spec_bind_buffer_trace(GL_ELEMENT_ARRAY_BUFFER, 0),
    {
        let fb = self.default_framebuffer;
        self.cache.framebuffer = fb;
        self.commands.push(GlCommand::BindFramebuffer { framebuffer: fb });
        self.cache.bind_buffer(GL_ARRAY_BUFFER, 0, &mut self.commands);
        self.cache.bind_buffer(GL_ELEMENT_ARRAY_BUFFER, 0, &mut self.commands);
        proof {
            assert(self.commands@ =~= old(self).commands@ + seq![
                GlCommand::BindFramebuffer { framebuffer: old(self).default_framebuffer },
            ] + old(self).cache.spec_bind_buffer_trace(GL_ARRAY_BUFFER, 0)
                + old(self).cache.spec_bind_buffer_state(
                GL_ARRAY_BUFFER,
                0,
            ).spec_bind_buffer_trace(GL_ELEMENT_ARRAY_BUFFER, 0));
        }
    }

    /// A frame boundary; the context itself has nothing to flush.
    pub fn commit_frame(&self) {
    }

    /// Issues one indexed, instanced draw with 16-bit indices, starting
    /// `2 * base_element` bytes into the bound index buffer.
    pub fn draw(&mut self, base_element: i32, num_elements: i32, num_instances: i32)
        requires
            old(self).wf(),
            0 <= base_element,
        ensures
            final(self).wf(),
            old(self).spec_same_registries(*final(self)),
            final(self).cache == old(self).cache,
            final(self).commands@ == old(self).commands@ + seq![
                GlCommand::DrawElementsInstanced {
                    count: num_elements,
                    index_offset: ((2 * base_element) as usize),
                    instances: num_instances,
                },
            ],
    {
        self.commands.push(
            GlCommand::DrawElementsInstanced {
                count: num_elements,
                index_offset: 2 * (base_element as usize),
                instances: num_instances,
            },
        );
    }
}

impl Texture {
    /// Allocates empty storage for a render target texture, sized by the
    /// given parameters, and leaves it clamped and linearly filtered.
    pub fn new_render_texture(ctx: &mut Context, params: RenderTextureParams) -> (r: Texture)
        requires
            old(ctx).wf(),
            old(ctx).next_object_id < u32::MAX,
        ensures
            final(ctx).wf(),
            r == (Texture {
                texture: old(ctx).next_object_id,
                width: params.width,
                height: params.height,
            }),
            final(ctx).next_object_id == old(ctx).next_object_id + 1,
            final(ctx).shaders@ == old(ctx).shaders@,
            final(ctx).pipelines@ == old(ctx).pipelines@,
            final(ctx).passes@ == old(ctx).passes@,
            final(ctx).default_framebuffer == old(ctx).default_framebuffer,
            final(ctx).screen_width == old(ctx).screen_width,
            final(ctx).screen_height == old(ctx).screen_height,
            final(ctx).cache == old(ctx).cache,
            final(ctx).commands@ == old(ctx).commands@ + spec_texture_create_trace(
                old(ctx).next_object_id,
                params.format.spec_gl_format(),
                params.width,
                params.height,
                false,
            ),
    {
        let texture = ctx.next_object_id;
        ctx.next_object_id = ctx.next_object_id + 1;
        let (internal_format, format, pixel_type) = params.format.gl_format();
        ctx.commands.push(GlCommand::GenTexture { id: texture });
        ctx.commands.push(GlCommand::ActiveTexture { unit: GL_TEXTURE0 });
        ctx.commands.push(GlCommand::BindTexture { texture });
        ctx.commands.push(
            GlCommand::TexImage2D {
                internal_format,
                width: params.width,
                height: params.height,
                format,
                pixel_type,
                with_data: false,
            },
        );
        push_default_tex_params(&mut ctx.commands);
        proof {
            assert(ctx.commands@ =~= old(ctx).commands@ + spec_texture_create_trace(
                old(ctx).next_object_id,
                params.format.spec_gl_format(),
                params.width,
                params.height,
                false,
            ));
        }
        Texture { texture, width: params.width, height: params.height }
    }

    /// Creates a texture and synchronously uploads the given RGBA pixel
    /// data: four unsigned bytes per texel.
    pub fn from_rgba8(ctx: &mut Context, width: u16, height: u16, bytes: &[u8]) -> (r: Texture)
        requires
            old(ctx).wf(),
            old(ctx).next_object_id < u32::MAX,
            bytes@.len() == 4 * width * height,
        ensures
            final(ctx).wf(),
            r == (Texture {
                texture: old(ctx).next_object_id,
                width: width as u32,
                height: height as u32,
            }),
            final(ctx).next_object_id == old(ctx).next_object_id + 1,
            final(ctx).shaders@ == old(ctx).shaders@,
            final(ctx).pipelines@ == old(ctx).pipelines@,
            final(ctx).passes@ == old(ctx).passes@,
            final(ctx).default_framebuffer == old(ctx).default_framebuffer,
            final(ctx).screen_width == old(ctx).screen_width,
            final(ctx).screen_height == old(ctx).screen_height,
            final(ctx).cache == old(ctx).cache,
            final(ctx).commands@ == old(ctx).commands@ + spec_texture_create_trace(
                old(ctx).next_object_id,
                (GL_RGBA, GL_RGBA, GL_UNSIGNED_BYTE),
                width as u32,
                height as u32,
                true,
            ),
    {
        let texture = ctx.next_object_id;
        ctx.next_object_id = ctx.next_object_id + 1;
        ctx.commands.push(GlCommand::GenTexture { id: texture });
        ctx.commands.push(GlCommand::ActiveTexture { unit: GL_TEXTURE0 });
        ctx.commands.push(GlCommand::BindTexture { texture });
        ctx.commands.push(
            GlCommand::TexImage2D {
                internal_format: GL_RGBA,
                width: width as u32,
                height: height as u32,
                format: GL_RGBA,
                pixel_type: GL_UNSIGNED_BYTE,
                with_data: true,
            },
        );
        push_default_tex_params(&mut ctx.commands);
        proof {
            assert(ctx.commands@ =~= old(ctx).commands@ + spec_texture_create_trace(
                old(ctx).next_object_id,
                (GL_RGBA, GL_RGBA, GL_UNSIGNED_BYTE),
                width as u32,
                height as u32,
                true,
            ));
        }
        Texture { texture, width: width as u32, height: height as u32 }
    }

    /// Sets the texture's minifying and magnifying filter in place.
    pub fn set_filter(&self, ctx: &mut Context, filter: i32)
        requires
            old(ctx).wf(),
        ensures
            final(ctx).wf(),
            old(ctx).spec_same_registries(*final(ctx)),
            final(ctx).cache == old(ctx).cache,
            final(ctx).commands@ == old(ctx).commands@ + seq![
                GlCommand::BindTexture { texture: self.texture },
                GlCommand::TexParameter { param: GL_TEXTURE_MIN_FILTER, value: filter },
                GlCommand::TexParameter { param: GL_TEXTURE_MAG_FILTER, value: filter },
            ],
    {
        ctx.commands.push(GlCommand::BindTexture { texture: self.texture });
        ctx.commands.push(GlCommand::TexParameter { param: GL_TEXTURE_MIN_FILTER, value: filter });
        ctx.commands.push(GlCommand::TexParameter { param: GL_TEXTURE_MAG_FILTER, value: filter });
        proof {
            assert(ctx.commands@ =~= old(ctx).commands@ + seq![
                GlCommand::BindTexture { texture: self.texture },
                GlCommand::TexParameter { param: GL_TEXTURE_MIN_FILTER, value: filter },
                GlCommand::TexParameter { param: GL_TEXTURE_MAG_FILTER, value: filter },
            ]);
        }
    }
}

/// Appends the fixed wrap and filter parameters every new texture gets:
/// clamped on both axes, linearly filtered both ways.
fn push_default_tex_params(commands: &mut Vec<GlCommand>)
    ensures
        final(commands)@ == old(commands)@ + spec_default_tex_params(),
{
    commands.push(
        GlCommand::TexParameter { param: GL_TEXTURE_WRAP_S, value: GL_CLAMP_TO_EDGE as i32 },
    );
    commands.push(
        GlCommand::TexParameter { param: GL_TEXTURE_WRAP_T, value: GL_CLAMP_TO_EDGE as i32 },
    );
    commands.push(
        GlCommand::TexParameter { param: GL_TEXTURE_MIN_FILTER, value: GL_LINEAR as i32 },
    );
    commands.push(
        GlCommand::TexParameter { param: GL_TEXTURE_MAG_FILTER, value: GL_LINEAR as i32 },
    );
    proof {
        assert(commands@ =~= old(commands)@ + spec_default_tex_params());
    }
}

/// The fixed wrap and filter parameter calls of texture creation.
pub open spec fn spec_default_tex_params() -> Seq<GlCommand> {
    seq![
        GlCommand::TexParameter { param: GL_TEXTURE_WRAP_S, value: GL_CLAMP_TO_EDGE as i32 },
        GlCommand::TexParameter { param: GL_TEXTURE_WRAP_T, value: GL_CLAMP_TO_EDGE as i32 },
        GlCommand::TexParameter { param: GL_TEXTURE_MIN_FILTER, value: GL_LINEAR as i32 },
        GlCommand::TexParameter { param: GL_TEXTURE_MAG_FILTER, value: GL_LINEAR as i32 },
    ]
}

/// The commands texture creation issues: generate and bind the object,
/// allocate (and optionally fill) its storage, then the fixed parameters.
pub open spec fn spec_texture_create_trace(
    id: u32,
    gl_format: (u32, u32, u32),
    width: u32,
    height: u32,
    with_data: bool,
) -> Seq<GlCommand> {
    seq![
        GlCommand::GenTexture { id },
        GlCommand::ActiveTexture { unit: GL_TEXTURE0 },
        GlCommand::BindTexture { texture: id },
        GlCommand::TexImage2D {
            internal_format: gl_format.0,
            width,
            height,
            format: gl_format.1,
            pixel_type: gl_format.2,
            with_data,
        },
    ] + spec_default_tex_params()
}

impl RenderPass {
    /// Creates an offscreen render target: attaches the color texture
    /// (and the depth texture, if given) to a fresh framebuffer, then
    /// restores the framebuffer that was bound before the call:
    /// construction leaves no binding state disturbed.
    pub fn new(ctx: &mut Context, color_img: Texture, depth_img: Option<Texture>) -> (r:
        RenderPass)
        requires
            old(ctx).wf(),
            old(ctx).next_object_id < u32::MAX,
        ensures
            final(ctx).wf(),
            r.0 == old(ctx).passes@.len(),
            final(ctx).passes@ == old(ctx).passes@ + seq![
                RenderPassInternal { gl_fb: old(ctx).next_object_id, texture: color_img },
            ],
            final(ctx).next_object_id == old(ctx).next_object_id + 1,
            final(ctx).shaders@ == old(ctx).shaders@,
            final(ctx).pipelines@ == old(ctx).pipelines@,
            final(ctx).default_framebuffer == old(ctx).default_framebuffer,
            final(ctx).screen_width == old(ctx).screen_width,
            final(ctx).screen_height == old(ctx).screen_height,
            final(ctx).cache == old(ctx).cache,
            final(ctx).commands@ == old(ctx).commands@ + spec_render_pass_trace(
                old(ctx).next_object_id,
                color_img,
                depth_img,
                old(ctx).cache.framebuffer,
            ),
    {
        let gl_fb = ctx.next_object_id;
        ctx.next_object_id = ctx.next_object_id + 1;
        ctx.commands.push(GlCommand::GenFramebuffer { id: gl_fb });
        ctx.commands.push(GlCommand::BindTexture { texture: color_img.texture });
        ctx.commands.push(GlCommand::BindFramebuffer { framebuffer: gl_fb });
        ctx.commands.push(
            GlCommand::FramebufferTexture2D {
                attachment: GL_COLOR_ATTACHMENT0,
                texture: color_img.texture,
            },
        );
        if let Some(depth) = depth_img {
            ctx.commands.push(
                GlCommand::FramebufferTexture2D {
                    attachment: GL_DEPTH_ATTACHMENT,
                    texture: depth.texture,
                },
            );
        }
        let previous_fb = ctx.cache.framebuffer;
        ctx.commands.push(GlCommand::BindFramebuffer { framebuffer: previous_fb });
        proof {
            assert(ctx.commands@ =~= old(ctx).commands@ + spec_render_pass_trace(
                old(ctx).next_object_id,
                color_img,
                depth_img,
                old(ctx).cache.framebuffer,
            ));
        }
        let index = ctx.passes.len();
        ctx.passes.push(RenderPassInternal { gl_fb, texture: color_img });
        proof {
            assert(ctx.passes@ =~= old(ctx).passes@ + seq![
                RenderPassInternal { gl_fb: old(ctx).next_object_id, texture: color_img },
            ]);
        }
        RenderPass(index)
    }
}

/// The commands render pass creation issues. The last command rebinds
/// the framebuffer that was bound before the call: construction leaves
/// no binding disturbed.
pub open spec fn spec_render_pass_trace(
    id: u32,
    color_img: Texture,
    depth_img: Option<Texture>,
    previous_framebuffer: u32,
) -> Seq<GlCommand> {
    seq![
        GlCommand::GenFramebuffer { id },
        GlCommand::BindTexture { texture: color_img.texture },
        GlCommand::BindFramebuffer { framebuffer: id },
        GlCommand::FramebufferTexture2D {
            attachment: GL_COLOR_ATTACHMENT0,
            texture: color_img.texture,
        },
    ] + (match depth_img {
        Some(depth) => seq![
            GlCommand::FramebufferTexture2D {
                attachment: GL_DEPTH_ATTACHMENT,
                texture: depth.texture,
            },
        ],
        None => Seq::empty(),
    }) + seq![GlCommand::BindFramebuffer { framebuffer: previous_framebuffer }]
}

/// The depth-state commands a pipeline application issues: enable and set
/// the comparison when the pipeline writes depth, else disable the test.
pub open spec fn spec_depth_trace(params: PipelineParams) -> Seq<GlCommand> {
    if params.depth_write {
        seq![
            GlCommand::EnableDepthTest,
            GlCommand::DepthFunc { func: params.depth_test.spec_gl_enum() },
        ]
    } else {
        seq![GlCommand::DisableDepthTest]
    }
}

/// The mask of the planes a clear selects: the selected planes' bits,
/// which are disjoint, summed.
pub open spec fn spec_clear_mask(
    color: Option<(u32, u32, u32, u32)>,
    depth: Option<u32>,
    stencil: Option<i32>,
) -> u32 {
    (((if color is Some {
        GL_COLOR_BUFFER_BIT as int
    } else {
        0
    }) + (if depth is Some {
        GL_DEPTH_BUFFER_BIT as int
    } else {
        0
    }) + (if stencil is Some {
        GL_STENCIL_BUFFER_BIT as int
    } else {
        0
    })) as u32)
}

/// The commands a clear issues: one value-set per present component, then
/// one clear of the selected planes; nothing at all when every component
/// is absent.
pub open spec fn spec_clear_trace(
    color: Option<(u32, u32, u32, u32)>,
    depth: Option<u32>,
    stencil: Option<i32>,
) -> Seq<GlCommand> {
    (match color {
        Some((r, g, b, a)) => seq![GlCommand::ClearColor { red: r, green: g, blue: b, alpha: a }],
        None => Seq::empty(),
    }) + (match depth {
        Some(v) => seq![GlCommand::ClearDepth { depth: v }],
        None => Seq::empty(),
    }) + (match stencil {
        Some(v) => seq![GlCommand::ClearStencil { value: v }],
        None => Seq::empty(),
    }) + (if color is Some || depth is Some || stencil is Some {
        seq![GlCommand::Clear { mask: spec_clear_mask(color, depth, stencil) }]
    } else {
        Seq::empty()
    })
}

/// The target a pass renders to: the default framebuffer at the surface's
/// size, or an offscreen framebuffer at its color texture's size.
pub open spec fn spec_pass_target(ctx: Context, pass: Option<RenderPass>) -> (u32, i32, i32) {
    match pass {
        None => (ctx.default_framebuffer, ctx.screen_width as i32, ctx.screen_height as i32),
        Some(p) => (
            ctx.passes@[p.0 as int].gl_fb,
            ctx.passes@[p.0 as int].texture.width as i32,
            ctx.passes@[p.0 as int].texture.height as i32,
        ),
    }
}

/// The commands a pass begin issues: bind the target, set viewport and
/// scissor to its full extent, then the clear the action asks for.
pub open spec fn spec_begin_pass_trace(
    ctx: Context,
    pass: Option<RenderPass>,
    action: PassAction,
) -> Seq<GlCommand> {
    let target = spec_pass_target(ctx, pass);
    seq![
        GlCommand::BindFramebuffer { framebuffer: target.0 },
        GlCommand::Viewport { x: 0, y: 0, width: target.1, height: target.2 },
        GlCommand::Scissor { x: 0, y: 0, width: target.1, height: target.2 },
    ] + (match action {
        PassAction::Nothing => Seq::empty(),
        PassAction::Clear { color, depth, stencil } => spec_clear_trace(color, depth, stencil),
    })
}

impl Buffer {
    /// Creates an immutable buffer: sized and filled exactly once, here.
    /// The transient bind is wrapped in the cache's save/restore pair, so
    /// the caller's tracked binding is unchanged afterwards.
    pub fn immutable(ctx: &mut Context, buffer_type: BufferType, data: &[u8]) -> (r: Buffer)
        requires
            old(ctx).wf(),
            old(ctx).next_object_id < u32::MAX,
        ensures
            final(ctx).wf(),
            r == (Buffer {
                gl_buf: old(ctx).next_object_id,
                buffer_type,
                size: data@.len() as usize,
            }),
            final(ctx).next_object_id == old(ctx).next_object_id + 1,
            final(ctx).shaders@ == old(ctx).shaders@,
            final(ctx).pipelines@ == old(ctx).pipelines@,
            final(ctx).passes@ == old(ctx).passes@,
            final(ctx).default_framebuffer == old(ctx).default_framebuffer,
            final(ctx).screen_width == old(ctx).screen_width,
            final(ctx).screen_height == old(ctx).screen_height,
            final(ctx).cache == spec_cache_after_saved_bind(old(ctx).cache, spec_gl_buffer_target(buffer_type)),
            final(ctx).commands@ == old(ctx).commands@ + spec_buffer_create_trace(
                old(ctx).cache,
                spec_gl_buffer_target(buffer_type),
                old(ctx).next_object_id,
                data@.len() as usize,
                GL_STATIC_DRAW,
                true,
            ),
    {
        let gl_target = gl_buffer_target(&buffer_type);
        let usage = gl_usage(&Usage::Immutable);
        let size = data.len();
        let gl_buf = ctx.next_object_id;
        ctx.next_object_id = ctx.next_object_id + 1;

        ctx.commands.push(GlCommand::GenBuffer { id: gl_buf });
        ctx.cache.store_buffer_binding(gl_target);
        ctx.cache.bind_buffer(gl_target, gl_buf, &mut ctx.commands);
        ctx.commands.push(GlCommand::BufferData { target: gl_target, size, usage });
        ctx.commands.push(GlCommand::BufferSubData { target: gl_target, offset: 0, size });
        ctx.cache.restore_buffer_binding(gl_target, &mut ctx.commands);
        proof {
            assert(ctx.commands@ =~= old(ctx).commands@ + spec_buffer_create_trace(
                old(ctx).cache,
                spec_gl_buffer_target(buffer_type),
                old(ctx).next_object_id,
                data@.len() as usize,
                GL_STATIC_DRAW,
                true,
            ));
        }
        Buffer { gl_buf, buffer_type, size }
    }

    /// Creates a stream buffer: pre-sized, refreshed later with payloads
    /// up to that capacity. The transient bind is wrapped in the cache's
    /// save/restore pair.
    pub fn stream(ctx: &mut Context, buffer_type: BufferType, size: usize) -> (r: Buffer)
        requires
            old(ctx).wf(),
            old(ctx).next_object_id < u32::MAX,
        ensures
            final(ctx).wf(),
            r == (Buffer { gl_buf: old(ctx).next_object_id, buffer_type, size }),
            final(ctx).next_object_id == old(ctx).next_object_id + 1,
            final(ctx).shaders@ == old(ctx).shaders@,
            final(ctx).pipelines@ == old(ctx).pipelines@,
            final(ctx).passes@ == old(ctx).passes@,
            final(ctx).default_framebuffer == old(ctx).default_framebuffer,
            final(ctx).screen_width == old(ctx).screen_width,
            final(ctx).screen_height == old(ctx).screen_height,
            final(ctx).cache == spec_cache_after_saved_bind(old(ctx).cache, spec_gl_buffer_target(buffer_type)),
            final(ctx).commands@ == old(ctx).commands@ + spec_buffer_create_trace(
                old(ctx).cache,
                spec_gl_buffer_target(buffer_type),
                old(ctx).next_object_id,
                size,
                GL_STREAM_DRAW,
                false,
            ),
    {
        let gl_target = gl_buffer_target(&buffer_type);
        let usage = gl_usage(&Usage::Stream);
        let gl_buf = ctx.next_object_id;
        ctx.next_object_id = ctx.next_object_id + 1;

        ctx.commands.push(GlCommand::GenBuffer { id: gl_buf });
        ctx.cache.store_buffer_binding(gl_target);
        ctx.cache.bind_buffer(gl_target, gl_buf, &mut ctx.commands);
        ctx.commands.push(GlCommand::BufferData { target: gl_target, size, usage });
        ctx.cache.restore_buffer_binding(gl_target, &mut ctx.commands);
        proof {
            assert(ctx.commands@ =~= old(ctx).commands@ + spec_buffer_create_trace(
                old(ctx).cache,
                spec_gl_buffer_target(buffer_type),
                old(ctx).next_object_id,
                size,
                GL_STREAM_DRAW,
                false,
            ));
        }
        Buffer { gl_buf, buffer_type, size }
    }

    /// Rewrites the buffer's contents from the start. A payload up to the
    /// buffer's byte capacity succeeds, exactly; one byte more is a
    /// capacity violation and changes nothing. The transient bind is
    /// wrapped in the cache's save/restore pair, so the caller's tracked
    /// binding is unchanged afterwards.
    pub fn update(&self, ctx: &mut Context, data: &[u8]) -> (r: Result<(), GraphicsError>)
        requires
            old(ctx).wf(),
        ensures
            final(ctx).wf(),
            r is Ok <==> data@.len() <= self.size,
            r is Err ==> r == Result::<(), GraphicsError>::Err(
                GraphicsError::BufferCapacityExceeded,
            ) && *final(ctx) == *old(ctx),
            r is Ok ==> {
                &&& final(ctx).shaders@ == old(ctx).shaders@
                &&& final(ctx).pipelines@ == old(ctx).pipelines@
                &&& final(ctx).passes@ == old(ctx).passes@
                &&& final(ctx).default_framebuffer == old(ctx).default_framebuffer
                &&& final(ctx).screen_width == old(ctx).screen_width
                &&& final(ctx).screen_height == old(ctx).screen_height
                &&& final(ctx).next_object_id == old(ctx).next_object_id
                &&& final(ctx).cache == spec_cache_after_saved_bind(
                    old(ctx).cache,
                    spec_gl_buffer_target(self.buffer_type),
                )
                &&& final(ctx).commands@ == old(ctx).commands@ + spec_buffer_update_trace(
                    old(ctx).cache,
                    spec_gl_buffer_target(self.buffer_type),
                    self.gl_buf,
                    data@.len() as usize,
                )
            },
    {
        let size = data.len();
        if size > self.size {
            return Err(GraphicsError::BufferCapacityExceeded);
        }
        let gl_target = gl_buffer_target(&self.buffer_type);
        ctx.cache.store_buffer_binding(gl_target);
        ctx.cache.bind_buffer(gl_target, self.gl_buf, &mut ctx.commands);
        ctx.commands.push(GlCommand::BufferSubData { target: gl_target, offset: 0, size });
        ctx.cache.restore_buffer_binding(gl_target, &mut ctx.commands);
        proof {
            assert(ctx.commands@ =~= old(ctx).commands@ + spec_buffer_update_trace(
                old(ctx).cache,
                spec_gl_buffer_target(self.buffer_type),
                self.gl_buf,
                data@.len() as usize,
            ));
        }
        Ok(())
    }
}

/// The cache after a transient bind wrapped in the save/restore pair:
/// the target's save slot holds what was bound before the call, and the
/// tracked binding is back to it.
pub open spec fn spec_cache_after_saved_bind(c: GlCache, target: u32) -> GlCache {
    if target == GL_ARRAY_BUFFER {
        GlCache { stored_vertex_buffer: c.vertex_buffer, ..c }
    } else {
        GlCache { stored_index_buffer: c.index_buffer, ..c }
    }
}

/// The commands a buffer creation issues: generate the object, bind it
/// through the cache, allocate (and for an immutable buffer fill) its
/// storage, then rebind what the save slot holds.
pub open spec fn spec_buffer_create_trace(
    c: GlCache,
    target: u32,
    id: u32,
    size: usize,
    usage: u32,
    with_fill: bool,
) -> Seq<GlCommand> {
    seq![GlCommand::GenBuffer { id }] + c.spec_bind_buffer_trace(target, id) + seq![
        GlCommand::BufferData { target, size, usage },
    ] + (if with_fill {
        seq![GlCommand::BufferSubData { target, offset: 0, size }]
    } else {
        Seq::empty()
    }) + c.spec_bind_buffer_state(target, id).spec_bind_buffer_trace(
        target,
        c.spec_tracked_buffer(target),
    )
}

/// The commands a buffer update issues: bind the buffer through the
/// cache, rewrite its contents from the start, then rebind what was
/// bound before the call.
pub open spec fn spec_buffer_update_trace(
    c: GlCache,
    target: u32,
    id: u32,
    size: usize,
) -> Seq<GlCommand> {
    c.spec_bind_buffer_trace(target, id) + seq![
        GlCommand::BufferSubData { target, offset: 0, size },
    ] + c.spec_bind_buffer_state(target, id).spec_bind_buffer_trace(
        target,
        c.spec_tracked_buffer(target),
    )
}

impl Shader {
    /// Registers a linked program: resolves the declared image and
    /// uniform names against the program's reflection and computes the
    /// uniform block's byte offsets. An unresolved name is a fatal
    /// configuration error.
    pub fn new(
        ctx: &mut Context,
        program: u32,
        reflection: ProgramReflection,
        meta: &ShaderMeta,
    ) -> (r: Result<Shader, GraphicsError>)
        requires
            old(ctx).wf(),
            spec_uniform_block_size(meta.uniforms.uniforms@) <= usize::MAX,
        ensures
            final(ctx).wf(),
            r is Ok <==> spec_shader_build_ok(reflection.uniforms@, meta),
            r is Err ==> *final(ctx) == *old(ctx) && (r->Err_0 == GraphicsError::UnknownImage
                || r->Err_0 == GraphicsError::UnknownUniform),
            r matches Ok(s) ==> {
                &&& s.0 == old(ctx).shaders@.len()
                &&& final(ctx).shaders@.len() == old(ctx).shaders@.len() + 1
                &&& forall|i: int|
                    0 <= i < old(ctx).shaders@.len() ==> final(ctx).shaders@[i] == old(
                        ctx,
                    ).shaders@[i]
                &&& crate::shader::spec_shader_entry_matches(
                    final(ctx).shaders@[s.0 as int],
                    program,
                    reflection.attributes@,
                    reflection.uniforms@,
                    meta,
                )
                &&& final(ctx).pipelines@ == old(ctx).pipelines@
                &&& final(ctx).passes@ == old(ctx).passes@
                &&& final(ctx).default_framebuffer == old(ctx).default_framebuffer
                &&& final(ctx).screen_width == old(ctx).screen_width
                &&& final(ctx).screen_height == old(ctx).screen_height
                &&& final(ctx).next_object_id == old(ctx).next_object_id
                &&& final(ctx).cache == old(ctx).cache
                &&& final(ctx).commands@ == old(ctx).commands@
            },
    {
        match build_shader_internal(program, reflection, meta) {
            Ok(entry) => {
                let index = ctx.shaders.len();
                ctx.shaders.push(entry);
                Ok(Shader(index))
            },
            Err(e) => Err(e),
        }
    }
}

impl Pipeline {
    /// A pipeline with the default parameter block.
    pub fn new(
        ctx: &mut Context,
        buffer_layout: &[BufferLayout],
        attributes: &[VertexAttribute],
        shader: Shader,
    ) -> (r: Result<Pipeline, GraphicsError>)
        requires
            old(ctx).wf(),
            shader.0 < old(ctx).shaders@.len(),
            forall|j: int|
                0 <= j < attributes@.len() ==> (#[trigger] attributes@[j]).buffer_index
                    < buffer_layout@.len(),
            attributes@.len() * 64 <= i32::MAX,
        ensures
            final(ctx).wf(),
            r is Ok <==> spec_compile_ok(
                old(ctx).shaders@[shader.0 as int].attributes@,
                attributes@,
            ),
            r is Err ==> *final(ctx) == *old(ctx),
            r matches Ok(p) ==> {
                &&& p.0 == old(ctx).pipelines@.len()
                &&& final(ctx).pipelines@.len() == old(ctx).pipelines@.len() + 1
                &&& forall|i: int|
                    0 <= i < old(ctx).pipelines@.len() ==> final(ctx).pipelines@[i] == old(
                        ctx,
                    ).pipelines@[i]
                &&& final(ctx).pipelines@[p.0 as int].shader == shader
                &&& final(ctx).pipelines@[p.0 as int].params == spec_default_pipeline_params()
                &&& spec_layout_matches(
                    buffer_layout@,
                    attributes@,
                    old(ctx).shaders@[shader.0 as int].attributes@,
                    final(ctx).pipelines@[p.0 as int].layout@,
                )
                &&& final(ctx).shaders@ == old(ctx).shaders@
                &&& final(ctx).passes@ == old(ctx).passes@
                &&& final(ctx).default_framebuffer == old(ctx).default_framebuffer
                &&& final(ctx).screen_width == old(ctx).screen_width
                &&& final(ctx).screen_height == old(ctx).screen_height
                &&& final(ctx).next_object_id == old(ctx).next_object_id
                &&& final(ctx).cache == old(ctx).cache
                &&& final(ctx).commands@ == old(ctx).commands@
            },
    {
        Self::with_params(ctx, buffer_layout, attributes, shader, PipelineParams::default())
    }

    /// Compiles a pipeline: derives each buffer slot's effective stride,
    /// resolves every attribute against the shader's program, expands
    /// mat4 attributes into four consecutive records, and stores the flat
    /// location-indexed layout with the parameter block.
    pub fn with_params(
        ctx: &mut Context,
        buffer_layout: &[BufferLayout],
        attributes: &[VertexAttribute],
        shader: Shader,
        params: PipelineParams,
    ) -> (r: Result<Pipeline, GraphicsError>)
        requires
            old(ctx).wf(),
            shader.0 < old(ctx).shaders@.len(),
            forall|j: int|
                0 <= j < attributes@.len() ==> (#[trigger] attributes@[j]).buffer_index
                    < buffer_layout@.len(),
            attributes@.len() * 64 <= i32::MAX,
        ensures
            final(ctx).wf(),
            r is Ok <==> spec_compile_ok(
                old(ctx).shaders@[shader.0 as int].attributes@,
                attributes@,
            ),
            r is Err ==> *final(ctx) == *old(ctx),
            forall|j: int|
                0 <= j < attributes@.len() && (#[trigger] spec_attr_error(
                    old(ctx).shaders@[shader.0 as int].attributes@,
                    attributes@,
                    j,
                )) is Some && (forall|k: int|
                    0 <= k < j ==> #[trigger] spec_attr_error(
                        old(ctx).shaders@[shader.0 as int].attributes@,
                        attributes@,
                        k,
                    ) is None) ==> r == Result::<Pipeline, GraphicsError>::Err(
                    spec_attr_error(
                        old(ctx).shaders@[shader.0 as int].attributes@,
                        attributes@,
                        j,
                    )->Some_0,
                ),
            ((forall|j: int|
                0 <= j < attributes@.len() ==> #[trigger] spec_attr_error(
                    old(ctx).shaders@[shader.0 as int].attributes@,
                    attributes@,
                    j,
                ) is None) && !(forall|s: int|
                0 <= s < spec_total_slots(attributes@) ==> #[trigger] spec_covered(
                    old(ctx).shaders@[shader.0 as int].attributes@,
                    attributes@,
                    s,
                ))) ==> r == Result::<Pipeline, GraphicsError>::Err(
                GraphicsError::IncompleteAttributeLayout,
            ),
            r matches Ok(p) ==> {
                &&& p.0 == old(ctx).pipelines@.len()
                &&& final(ctx).pipelines@.len() == old(ctx).pipelines@.len() + 1
                &&& forall|i: int|
                    0 <= i < old(ctx).pipelines@.len() ==> final(ctx).pipelines@[i] == old(
                        ctx,
                    ).pipelines@[i]
                &&& final(ctx).pipelines@[p.0 as int].shader == shader
                &&& final(ctx).pipelines@[p.0 as int].params == params
                &&& spec_layout_matches(
                    buffer_layout@,
                    attributes@,
                    old(ctx).shaders@[shader.0 as int].attributes@,
                    final(ctx).pipelines@[p.0 as int].layout@,
                )
                &&& final(ctx).shaders@ == old(ctx).shaders@
                &&& final(ctx).passes@ == old(ctx).passes@
                &&& final(ctx).default_framebuffer == old(ctx).default_framebuffer
                &&& final(ctx).screen_width == old(ctx).screen_width
                &&& final(ctx).screen_height == old(ctx).screen_height
                &&& final(ctx).next_object_id == old(ctx).next_object_id
                &&& final(ctx).cache == old(ctx).cache
                &&& final(ctx).commands@ == old(ctx).commands@
            },
    {
        let layout = match compile_vertex_layout(
            buffer_layout,
            attributes,
            &ctx.shaders[shader.0].attributes,
        ) {
            Ok(layout) => layout,
            Err(e) => {
                return Err(e);
            },
        };
        proof {
            crate::layout::lemma_compile_ok_fits(
                old(ctx).shaders@[shader.0 as int].attributes@,
                attributes@,
            );
        }
        let index = ctx.pipelines.len();
        ctx.pipelines.push(PipelineInternal { layout, shader, params });
        Ok(Pipeline(index))
    }
}

/// The vertex buffer handles of the bound buffers, by slot.
pub open spec fn spec_buffer_handles(bufs: Seq<Buffer>) -> Seq<u32> {
    bufs.map_values(|b: Buffer| b.gl_buf)
}

/// The commands that bind the first `n` shader images: each texture is
/// bound on its unit and the sampler uniform set, unconditionally.
pub open spec fn spec_image_bind_trace(
    imgs: Seq<crate::shader::ShaderImage>,
    textures: Seq<Texture>,
    n: int,
) -> Seq<GlCommand>
    decreases n,
{
    if n <= 0 {
        Seq::empty()
    } else {
        spec_image_bind_trace(imgs, textures, n - 1) + seq![
            GlCommand::ActiveTexture { unit: (GL_TEXTURE0 + (n - 1)) as u32 },
            GlCommand::BindTexture { texture: textures[n - 1].texture },
            GlCommand::SetImageUniform { location: imgs[n - 1].gl_loc, unit: (n - 1) as i32 },
        ]
    }
}

/// The float words read before the `k`-th uniform of a registry entry:
/// one quarter of each earlier uniform's byte size, accumulated in order.
pub open spec fn spec_uniform_word_offset(us: Seq<crate::shader::ShaderUniform>, k: int) -> int
    decreases k,
{
    if k <= 0 {
        0
    } else {
        spec_uniform_word_offset(us, k - 1) + us[k - 1].uniform_type.spec_base_size() / 4
    }
}

/// The float words the whole uniform list reads.
pub open spec fn spec_uniform_total_words(us: Seq<crate::shader::ShaderUniform>) -> int {
    spec_uniform_word_offset(us, us.len() as int)
}

/// The words after a prefix only add to it.
pub proof fn lemma_uniform_word_offset_le(us: Seq<crate::shader::ShaderUniform>, k: int)
    requires
        0 <= k <= us.len(),
    ensures
        0 <= spec_uniform_word_offset(us, k),
        spec_uniform_word_offset(us, k) <= spec_uniform_total_words(us),
    decreases k,
{
    if k > 0 {
        lemma_uniform_word_offset_le(us, k - 1);
    }
    lemma_uniform_word_offset_suffix(us, k);
}

proof fn lemma_uniform_word_offset_suffix(us: Seq<crate::shader::ShaderUniform>, k: int)
    requires
        0 <= k <= us.len(),
    ensures
        spec_uniform_word_offset(us, k) <= spec_uniform_total_words(us),
    decreases us.len() - k,
{
    if k < us.len() {
        lemma_uniform_word_offset_suffix(us, k + 1);
    }
}

/// The upload commands of the first `n` uniforms: each reads its words at
/// its accumulated offset.
pub open spec fn spec_uniform_trace_upto(
    us: Seq<crate::shader::ShaderUniform>,
    n: int,
) -> Seq<GlCommand>
    decreases n,
{
    if n <= 0 {
        Seq::empty()
    } else {
        spec_uniform_trace_upto(us, n - 1) + seq![
            GlCommand::SetUniform {
                location: us[n - 1].gl_loc,
                uniform_type: us[n - 1].uniform_type,
                offset_words: spec_uniform_word_offset(us, n - 1) as usize,
                count_words: (us[n - 1].uniform_type.spec_base_size() / 4) as usize,
            },
        ]
    }
}

impl Context {
    /// Applies the bindings against the active pipeline: binds every
    /// shader image, binds the index buffer through the cache, then walks
    /// the 16 attribute slots — a slot is rebound only where its record
    /// or its vertex buffer changed, and disabled where the pipeline
    /// defines no attribute but the cache still holds one.
    pub fn apply_bindings(&mut self, bindings: &Bindings)
        requires
            old(self).wf(),
            old(self).cache.cur_pipeline is Some,
            bindings.images@.len() >= old(self).spec_cur_shader().images@.len(),
            old(self).spec_cur_shader().images@.len() <= i32::MAX,
            forall|s: int|
                0 <= s < old(self).spec_cur_pipeline().layout@.len() ==> (#[trigger] old(
                    self,
                ).spec_cur_pipeline().layout@[s]).buffer_index < bindings.vertex_buffers@.len(),
        ensures
            final(self).wf(),
            old(self).spec_same_registries(*final(self)),
            final(self).cache.cur_pipeline == old(self).cache.cur_pipeline,
            final(self).cache.blend == old(self).cache.blend,
            final(self).cache.stored_vertex_buffer == old(self).cache.stored_vertex_buffer,
            final(self).cache.stored_index_buffer == old(self).cache.stored_index_buffer,
            final(self).cache.framebuffer == old(self).cache.framebuffer,
            final(self).cache.index_buffer == bindings.index_buffer.gl_buf,
            final(self).cache.vertex_buffer == spec_apply_slots_from(
                old(self).cache.vertex_buffer,
                old(self).cache.attributes@,
                old(self).spec_cur_pipeline().layout@,
                spec_buffer_handles(bindings.vertex_buffers@),
                0,
            ).0,
            final(self).cache.attributes@ == spec_apply_slots_from(
                old(self).cache.vertex_buffer,
                old(self).cache.attributes@,
                old(self).spec_cur_pipeline().layout@,
                spec_buffer_handles(bindings.vertex_buffers@),
                0,
            ).1,
            final(self).commands@ == old(self).commands@ + spec_image_bind_trace(
                old(self).spec_cur_shader().images@,
                bindings.images@,
                old(self).spec_cur_shader().images@.len() as int,
            ) + old(self).cache.spec_bind_buffer_trace(
                GL_ELEMENT_ARRAY_BUFFER,
                bindings.index_buffer.gl_buf,
            ) + spec_apply_slots_from(
                old(self).cache.vertex_buffer,
                old(self).cache.attributes@,
                old(self).spec_cur_pipeline().layout@,
                spec_buffer_handles(bindings.vertex_buffers@),
                0,
            ).2,
    {
        let p = self.cache.cur_pipeline.unwrap();
        let si = self.pipelines[p].shader.0;
        let image_count = self.shaders[si].images.len();
        let ghost imgs = old(self).spec_cur_shader().images@;
        let mut n: usize = 0;
        while n < image_count
            invariant
                n <= image_count,
                self.shaders@ == old(self).shaders@,
                self.pipelines@ == old(self).pipelines@,
                self.passes@ == old(self).passes@,
                self.default_framebuffer == old(self).default_framebuffer,
                self.screen_width == old(self).screen_width,
                self.screen_height == old(self).screen_height,
                self.next_object_id == old(self).next_object_id,
                self.cache == old(self).cache,
                p == old(self).cache.cur_pipeline->Some_0,
                p < self.pipelines@.len(),
                si == self.pipelines@[p as int].shader.0,
                si < self.shaders@.len(),
                imgs == self.shaders@[si as int].images@,
                image_count == imgs.len(),
                image_count as int <= i32::MAX,
                bindings.images@.len() >= image_count,
                self.commands@ == old(self).commands@ + spec_image_bind_trace(
                    imgs,
                    bindings.images@,
                    n as int,
                ),
            decreases image_count - n,
        {
            let gl_loc = self.shaders[si].images[n].gl_loc;
            let texture = bindings.images[n].texture;
            self.commands.push(GlCommand::ActiveTexture { unit: GL_TEXTURE0 + n as u32 });
            self.commands.push(GlCommand::BindTexture { texture });
            self.commands.push(GlCommand::SetImageUniform { location: gl_loc, unit: n as i32 });
            proof {
                assert(self.commands@ =~= old(self).commands@ + spec_image_bind_trace(
                    imgs,
                    bindings.images@,
                    n as int + 1,
                ));
            }
            n = n + 1;
        }

        self.cache.bind_buffer(
            GL_ELEMENT_ARRAY_BUFFER,
            bindings.index_buffer.gl_buf,
            &mut self.commands,
        );

        let layout_len = self.pipelines[p].layout.len();
        let ghost l = old(self).spec_cur_pipeline().layout@;
        let ghost vbs = spec_buffer_handles(bindings.vertex_buffers@);
        let ghost full = spec_apply_slots_from(
            old(self).cache.vertex_buffer,
            old(self).cache.attributes@,
            l,
            vbs,
            0,
        );
        let ghost trace_mark = self.commands@;

        let mut attr_index: usize = 0;
        while attr_index < MAX_VERTEX_ATTRIBUTES
            invariant
                attr_index <= MAX_VERTEX_ATTRIBUTES,
                self.shaders@ == old(self).shaders@,
                self.pipelines@ == old(self).pipelines@,
                self.passes@ == old(self).passes@,
                self.default_framebuffer == old(self).default_framebuffer,
                self.screen_width == old(self).screen_width,
                self.screen_height == old(self).screen_height,
                self.next_object_id == old(self).next_object_id,
                self.cache.cur_pipeline == old(self).cache.cur_pipeline,
                self.cache.blend == old(self).cache.blend,
                self.cache.stored_vertex_buffer == old(self).cache.stored_vertex_buffer,
                self.cache.stored_index_buffer == old(self).cache.stored_index_buffer,
                self.cache.framebuffer == old(self).cache.framebuffer,
                self.cache.index_buffer == bindings.index_buffer.gl_buf,
                self.cache.attributes@.len() == MAX_VERTEX_ATTRIBUTES as int,
                p < self.pipelines@.len(),
                layout_len == l.len(),
                l == self.pipelines@[p as int].layout@,
                vbs == spec_buffer_handles(bindings.vertex_buffers@),
                vbs.len() == bindings.vertex_buffers@.len(),
                forall|s: int|
                    0 <= s < l.len() ==> (#[trigger] l[s]).buffer_index
                        < bindings.vertex_buffers@.len(),
                spec_apply_slots_from(
                    self.cache.vertex_buffer,
                    self.cache.attributes@,
                    l,
                    vbs,
                    attr_index as int,
                ).0 == full.0,
                spec_apply_slots_from(
                    self.cache.vertex_buffer,
                    self.cache.attributes@,
                    l,
                    vbs,
                    attr_index as int,
                ).1 == full.1,
                self.commands@ + spec_apply_slots_from(
                    self.cache.vertex_buffer,
                    self.cache.attributes@,
                    l,
                    vbs,
                    attr_index as int,
                ).2 == trace_mark + full.2,
            decreases MAX_VERTEX_ATTRIBUTES - attr_index,
        {
            let ghost pre_v = self.cache.vertex_buffer;
            let ghost pre_c = self.cache.attributes@;
            let ghost pre_trace = self.commands@;
            let ghost s = attr_index as int;
            let pa: Option<VertexAttributeInternal> = if attr_index < layout_len {
                Some(self.pipelines[p].layout[attr_index])
            } else {
                None
            };
            proof {
                assert(pa == spec_pip_attr(l, s));
            }
            let cached = self.cache.attributes[attr_index];
            match pa {
                Some(attribute) => {
                    let vb = bindings.vertex_buffers[attribute.buffer_index];
                    proof {
                        assert(vbs[attribute.buffer_index as int] == vb.gl_buf);
                    }
                    let needs_rebind = match cached {
                        None => true,
                        Some(c) => c.attribute != attribute || c.gl_vbuf != vb.gl_buf,
                    };
                    if needs_rebind {
                        self.cache.bind_buffer(GL_ARRAY_BUFFER, vb.gl_buf, &mut self.commands);
                        self.commands.push(
                            GlCommand::VertexAttribPointer {
                                location: attr_index as u32,
                                size: attribute.size,
                                component_type: attribute.type_,
                                stride: attribute.stride,
                                offset: attribute.offset,
                            },
                        );
                        self.commands.push(
                            GlCommand::VertexAttribDivisor {
                                location: attr_index as u32,
                                divisor: attribute.divisor,
                            },
                        );
                        self.commands.push(
                            GlCommand::EnableVertexAttribArray { location: attr_index as u32 },
                        );
                        self.cache.attributes[attr_index] = Some(
                            CachedAttribute { attribute, gl_vbuf: vb.gl_buf },
                        );
                    }
                },
                None => {
                    if cached.is_some() {
                        self.commands.push(
                            GlCommand::DisableVertexAttribArray { location: attr_index as u32 },
                        );
                        self.cache.attributes[attr_index] = None;
                    }
                },
            }
            proof {
                let step = spec_apply_slot(pre_v, pre_c[s], spec_pip_attr(l, s), vbs, s);
                assert(self.cache.vertex_buffer == step.0);
                assert(self.cache.attributes@ =~= pre_c.update(s, step.1));
                assert(self.commands@ =~= pre_trace + step.2);
                assert(spec_apply_slots_from(pre_v, pre_c, l, vbs, s).2 == step.2
                    + spec_apply_slots_from(step.0, pre_c.update(s, step.1), l, vbs, s + 1).2);
                assert(self.commands@ + spec_apply_slots_from(
                    self.cache.vertex_buffer,
                    self.cache.attributes@,
                    l,
                    vbs,
                    s + 1,
                ).2 =~= trace_mark + full.2);
            }
            attr_index = attr_index + 1;
        }
        proof {
            assert(spec_apply_slots_from(
                self.cache.vertex_buffer,
                self.cache.attributes@,
                l,
                vbs,
                MAX_VERTEX_ATTRIBUTES as int,
            ).2 =~= Seq::<GlCommand>::empty());
            assert(self.commands@ =~= trace_mark + full.2);
            assert(self.commands@ =~= old(self).commands@ + spec_image_bind_trace(
                imgs,
                bindings.images@,
                imgs.len() as int,
            ) + old(self).cache.spec_bind_buffer_trace(
                GL_ELEMENT_ARRAY_BUFFER,
                bindings.index_buffer.gl_buf,
            ) + full.2);
        }
    }

    /// Uploads the caller-supplied uniform block, one driver call per
    /// declared uniform, reading each value at the byte offset the
    /// declaration order fixes. A block shorter than the declared layout
    /// is rejected whole.
    pub fn apply_uniforms(&mut self, uniforms: &[u32]) -> (r: Result<(), GraphicsError>)
        requires
            old(self).wf(),
            old(self).cache.cur_pipeline is Some,
            spec_uniform_total_words(old(self).spec_cur_shader().uniforms@) <= usize::MAX,
        ensures
            final(self).wf(),
            old(self).spec_same_registries(*final(self)),
            final(self).cache == old(self).cache,
            r is Ok <==> spec_uniform_total_words(old(self).spec_cur_shader().uniforms@)
                <= uniforms@.len(),
            r is Err ==> r == Result::<(), GraphicsError>::Err(GraphicsError::UniformBlockTooSmall)
                && final(self).commands@ == old(self).commands@,
            r is Ok ==> final(self).commands@ == old(self).commands@ + spec_uniform_trace_upto(
                old(self).spec_cur_shader().uniforms@,
                old(self).spec_cur_shader().uniforms@.len() as int,
            ),
    {
        let p = self.cache.cur_pipeline.unwrap();
        let si = self.pipelines[p].shader.0;
        let uniform_count = self.shaders[si].uniforms.len();
        let ghost us = old(self).spec_cur_shader().uniforms@;

        let mut needed: usize = 0;
        let mut k: usize = 0;
        while k < uniform_count
            invariant
                k <= uniform_count,
                self.shaders@ == old(self).shaders@,
                self.pipelines@ == old(self).pipelines@,
                p == old(self).cache.cur_pipeline->Some_0,
                p < self.pipelines@.len(),
                si == self.pipelines@[p as int].shader.0,
                si < self.shaders@.len(),
                us == self.shaders@[si as int].uniforms@,
                uniform_count == us.len(),
                spec_uniform_total_words(us) <= usize::MAX,
                needed as int == spec_uniform_word_offset(us, k as int),
            decreases uniform_count - k,
        {
            let uniform_type = self.shaders[si].uniforms[k].uniform_type;
            proof {
                lemma_uniform_word_offset_le(us, k as int + 1);
            }
            needed = needed + uniform_type.size(1) / 4;
            k = k + 1;
        }
        if needed > uniforms.len() {
            return Err(GraphicsError::UniformBlockTooSmall);
        }

        let mut offset: usize = 0;
        let mut k2: usize = 0;
        while k2 < uniform_count
            invariant
                k2 <= uniform_count,
                self.shaders@ == old(self).shaders@,
                self.pipelines@ == old(self).pipelines@,
                self.passes@ == old(self).passes@,
                self.default_framebuffer == old(self).default_framebuffer,
                self.screen_width == old(self).screen_width,
                self.screen_height == old(self).screen_height,
                self.next_object_id == old(self).next_object_id,
                self.cache == old(self).cache,
                p < self.pipelines@.len(),
                si == self.pipelines@[p as int].shader.0,
                si < self.shaders@.len(),
                us == self.shaders@[si as int].uniforms@,
                uniform_count == us.len(),
                spec_uniform_total_words(us) <= usize::MAX,
                offset as int == spec_uniform_word_offset(us, k2 as int),
                self.commands@ == old(self).commands@ + spec_uniform_trace_upto(us, k2 as int),
            decreases uniform_count - k2,
        {
            let u = self.shaders[si].uniforms[k2];
            proof {
                lemma_uniform_word_offset_le(us, k2 as int + 1);
            }
            let count_words = u.uniform_type.size(1) / 4;
            self.commands.push(
                GlCommand::SetUniform {
                    location: u.gl_loc,
                    uniform_type: u.uniform_type,
                    offset_words: offset,
                    count_words,
                },
            );
            proof {
                assert(self.commands@ =~= old(self).commands@ + spec_uniform_trace_upto(
                    us,
                    k2 as int + 1,
                ));
            }
            offset = offset + count_words;
            k2 = k2 + 1;
        }
        Ok(())
    }
}

} // verus!
