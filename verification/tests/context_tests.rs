use graphics::{
    BlendFactor, Bindings, Buffer, BufferLayout, BufferType, Comparison, Context, CullFace,
    Equation, FrontFaceOrder, GlCommand, GraphicsError, PassAction, Pipeline, PipelineParams,
    ProgramAttribute, ProgramReflection, ProgramUniform, Shader, ShaderMeta, Texture,
    UniformBlockLayout, UniformType, VertexAttribute, VertexFormat, GL_ARRAY_BUFFER,
    GL_COLOR_BUFFER_BIT, GL_DEPTH_BUFFER_BIT, GL_ELEMENT_ARRAY_BUFFER,
};

fn reflection(attrs: &[(&str, u32)], uniforms: &[(&str, i32)]) -> ProgramReflection {
    ProgramReflection {
        attributes: attrs
            .iter()
            .map(|(n, l)| ProgramAttribute { name: n.to_string(), location: *l })
            .collect(),
        uniforms: uniforms
            .iter()
            .map(|(n, l)| ProgramUniform { name: n.to_string(), location: *l })
            .collect(),
    }
}

fn meta(uniforms: &[(&str, UniformType)], images: &[&str]) -> ShaderMeta {
    ShaderMeta {
        uniforms: UniformBlockLayout {
            uniforms: uniforms.iter().map(|(n, t)| (n.to_string(), *t)).collect(),
        },
        images: images.iter().map(|n| n.to_string()).collect(),
    }
}

fn quad_setup(ctx: &mut Context) -> (Pipeline, Bindings) {
    let shader = Shader::new(
        ctx,
        7,
        reflection(&[("pos", 0), ("uv", 1)], &[("mvp", 0)]),
        &meta(&[("mvp", UniformType::Mat4)], &[]),
    )
    .unwrap();

    // 4 vertices, interleaved position + UV, 16 bytes per vertex
    let corners: [[f32; 4]; 4] = [
        [-0.5, -0.5, 0.0, 0.0],
        [0.5, -0.5, 1.0, 0.0],
        [0.5, 0.5, 1.0, 1.0],
        [-0.5, 0.5, 0.0, 1.0],
    ];
    let mut vertex_bytes: Vec<u8> = Vec::new();
    for corner in &corners {
        for value in corner {
            vertex_bytes.extend_from_slice(&value.to_le_bytes());
        }
    }
    let vertex_buffer = Buffer::immutable(ctx, BufferType::VertexBuffer, &vertex_bytes);
    assert_eq!(vertex_buffer.size, 64);

    let indices: [u16; 6] = [0, 1, 2, 0, 2, 3];
    let mut index_bytes: Vec<u8> = Vec::new();
    for index in &indices {
        index_bytes.extend_from_slice(&index.to_le_bytes());
    }
    let index_buffer = Buffer::immutable(ctx, BufferType::IndexBuffer, &index_bytes);
    assert_eq!(index_buffer.size, 12);

    let pipeline = Pipeline::new(
        ctx,
        &[BufferLayout::default()],
        &[
            VertexAttribute::new("pos", VertexFormat::Float2),
            VertexAttribute::new("uv", VertexFormat::Float2),
        ],
        shader,
    )
    .unwrap();

    let bindings = Bindings {
        vertex_buffers: vec![vertex_buffer],
        index_buffer,
        images: vec![],
    };
    (pipeline, bindings)
}

fn is_buffer_bind(cmd: &GlCommand) -> bool {
    matches!(cmd, GlCommand::BindBuffer { .. })
}

fn is_attribute_change(cmd: &GlCommand) -> bool {
    matches!(
        cmd,
        GlCommand::VertexAttribPointer { .. }
            | GlCommand::VertexAttribDivisor { .. }
            | GlCommand::EnableVertexAttribArray { .. }
            | GlCommand::DisableVertexAttribArray { .. }
    )
}

#[test]
fn quad_frame_issues_exactly_one_draw() {
    let mut ctx = Context::new(0, 800, 600);
    let (pipeline, bindings) = quad_setup(&mut ctx);

    ctx.begin_default_pass(PassAction::clear_color(
        0.0f32.to_bits(),
        0.0f32.to_bits(),
        0.0f32.to_bits(),
        1.0f32.to_bits(),
    ));
    ctx.apply_pipeline(&pipeline);
    ctx.apply_bindings(&bindings);
    let identity: [f32; 16] = [
        1.0, 0.0, 0.0, 0.0, 0.0, 1.0, 0.0, 0.0, 0.0, 0.0, 1.0, 0.0, 0.0, 0.0, 0.0, 1.0,
    ];
    let words: Vec<u32> = identity.iter().map(|v| v.to_bits()).collect();
    ctx.apply_uniforms(&words).unwrap();
    ctx.draw(0, 6, 1);
    ctx.end_render_pass();
    ctx.commit_frame();

    let draws: Vec<&GlCommand> = ctx
        .commands
        .iter()
        .filter(|c| matches!(c, GlCommand::DrawElementsInstanced { .. }))
        .collect();
    assert_eq!(draws.len(), 1);
    assert_eq!(
        *draws[0],
        GlCommand::DrawElementsInstanced { count: 6, index_offset: 0, instances: 1 }
    );
    // the clear selected color and depth planes
    assert!(ctx.commands.contains(&GlCommand::Clear {
        mask: GL_COLOR_BUFFER_BIT + GL_DEPTH_BUFFER_BIT
    }));
    assert!(ctx.commands.contains(&GlCommand::ClearColor {
        red: 0.0f32.to_bits(),
        green: 0.0f32.to_bits(),
        blue: 0.0f32.to_bits(),
        alpha: 1.0f32.to_bits(),
    }));
    // one upload per declared uniform, at the accumulated offset
    assert!(ctx.commands.contains(&GlCommand::SetUniform {
        location: 0,
        uniform_type: UniformType::Mat4,
        offset_words: 0,
        count_words: 16,
    }));
}

#[test]
fn second_application_issues_no_redundant_binds() {
    let mut ctx = Context::new(0, 640, 480);
    let (pipeline, bindings) = quad_setup(&mut ctx);

    ctx.begin_default_pass(PassAction::Nothing);
    ctx.apply_pipeline(&pipeline);
    ctx.apply_bindings(&bindings);
    let first_len = ctx.commands.len();

    ctx.apply_pipeline(&pipeline);
    ctx.apply_bindings(&bindings);
    let delta = &ctx.commands[first_len..];
    assert_eq!(delta.iter().filter(|c| is_buffer_bind(c)).count(), 0);
    assert_eq!(delta.iter().filter(|c| is_attribute_change(c)).count(), 0);
}

#[test]
fn changed_vertex_buffer_rebinds_its_attributes() {
    let mut ctx = Context::new(0, 640, 480);
    let (pipeline, bindings) = quad_setup(&mut ctx);
    ctx.apply_pipeline(&pipeline);
    ctx.apply_bindings(&bindings);

    // the same layout read from another buffer: both slots must rebind
    let other = Buffer::immutable(&mut ctx, BufferType::VertexBuffer, &[0u8; 64]);
    let rebound = Bindings {
        vertex_buffers: vec![other],
        index_buffer: bindings.index_buffer,
        images: vec![],
    };
    let mark = ctx.commands.len();
    ctx.apply_bindings(&rebound);
    let delta = &ctx.commands[mark..];
    let pointers: Vec<&GlCommand> = delta
        .iter()
        .filter(|c| matches!(c, GlCommand::VertexAttribPointer { .. }))
        .collect();
    assert_eq!(pointers.len(), 2);
}

#[test]
fn blend_toggle_enables_once_and_disables_once() {
    let mut ctx = Context::new(0, 640, 480);
    let shader = Shader::new(&mut ctx, 3, reflection(&[("pos", 0)], &[]), &meta(&[], &[]))
        .unwrap();
    let attrs = [VertexAttribute::new("pos", VertexFormat::Float2)];
    let layouts = [BufferLayout::default()];
    let blend_params = PipelineParams {
        color_blend: Some((
            Equation::Add,
            BlendFactor::One,
            BlendFactor::OneMinusValue(graphics::BlendValue::SourceAlpha),
        )),
        ..PipelineParams::default()
    };
    let blended = Pipeline::with_params(&mut ctx, &layouts, &attrs, shader, blend_params).unwrap();
    let plain = Pipeline::new(&mut ctx, &layouts, &attrs, shader).unwrap();

    // none -> enabled: exactly one enable, before factors and equation
    let mark = ctx.commands.len();
    ctx.apply_pipeline(&blended);
    let delta: Vec<GlCommand> = ctx.commands[mark..].to_vec();
    let enable_at = delta.iter().position(|c| *c == GlCommand::EnableBlend).unwrap();
    let func_at = delta
        .iter()
        .position(|c| matches!(c, GlCommand::BlendFunc { .. }))
        .unwrap();
    let eq_at = delta
        .iter()
        .position(|c| matches!(c, GlCommand::BlendEquationSeparate { .. }))
        .unwrap();
    assert_eq!(delta.iter().filter(|c| **c == GlCommand::EnableBlend).count(), 1);
    assert!(enable_at < func_at && func_at < eq_at);
    assert_eq!(delta.iter().filter(|c| **c == GlCommand::DisableBlend).count(), 0);

    // identical blend state again: no blend command at all
    let mark = ctx.commands.len();
    ctx.apply_pipeline(&blended);
    let delta: Vec<GlCommand> = ctx.commands[mark..].to_vec();
    assert_eq!(delta.iter().filter(|c| **c == GlCommand::EnableBlend).count(), 0);
    assert_eq!(delta.iter().filter(|c| **c == GlCommand::DisableBlend).count(), 0);
    assert_eq!(
        delta.iter().filter(|c| matches!(c, GlCommand::BlendFunc { .. })).count(),
        0
    );

    // enabled -> none: exactly one disable, no factors
    let mark = ctx.commands.len();
    ctx.apply_pipeline(&plain);
    let delta: Vec<GlCommand> = ctx.commands[mark..].to_vec();
    assert_eq!(delta.iter().filter(|c| **c == GlCommand::DisableBlend).count(), 1);
    assert_eq!(delta.iter().filter(|c| **c == GlCommand::EnableBlend).count(), 0);
    assert_eq!(
        delta.iter().filter(|c| matches!(c, GlCommand::BlendFunc { .. })).count(),
        0
    );
}

#[test]
fn update_at_capacity_succeeds_and_one_byte_over_fails() {
    let mut ctx = Context::new(0, 320, 200);
    let buffer = Buffer::stream(&mut ctx, BufferType::VertexBuffer, 16);
    assert_eq!(buffer.size, 16);

    let exact = [7u8; 16];
    assert!(buffer.update(&mut ctx, &exact).is_ok());

    let mark = ctx.commands.len();
    let over = [7u8; 17];
    let err = buffer.update(&mut ctx, &over).unwrap_err();
    assert_eq!(err, GraphicsError::BufferCapacityExceeded);
    // the failed update issued nothing
    assert_eq!(ctx.commands.len(), mark);
}

#[test]
fn buffer_creation_restores_the_tracked_binding() {
    let mut ctx = Context::new(0, 320, 200);
    let before_vertex = ctx.cache.vertex_buffer;
    let before_index = ctx.cache.index_buffer;
    let vb = Buffer::immutable(&mut ctx, BufferType::VertexBuffer, &[1u8, 2, 3, 4]);
    let _ib = Buffer::stream(&mut ctx, BufferType::IndexBuffer, 8);
    assert_eq!(ctx.cache.vertex_buffer, before_vertex);
    assert_eq!(ctx.cache.index_buffer, before_index);
    // the transient binds are on the trace, bracketed by the restore
    assert!(ctx.commands.contains(&GlCommand::BindBuffer {
        target: GL_ARRAY_BUFFER,
        buffer: vb.gl_buf,
    }));
    assert!(ctx.commands.contains(&GlCommand::BufferSubData {
        target: GL_ARRAY_BUFFER,
        offset: 0,
        size: 4,
    }));
    assert!(ctx.commands.contains(&GlCommand::BufferData {
        target: GL_ELEMENT_ARRAY_BUFFER,
        size: 8,
        usage: graphics::GL_STREAM_DRAW,
    }));
}

#[test]
fn end_render_pass_clears_buffer_bindings() {
    let mut ctx = Context::new(9, 640, 480);
    let (pipeline, bindings) = quad_setup(&mut ctx);
    ctx.begin_default_pass(PassAction::Nothing);
    ctx.apply_pipeline(&pipeline);
    ctx.apply_bindings(&bindings);
    assert_eq!(ctx.cache.index_buffer, bindings.index_buffer.gl_buf);
    ctx.end_render_pass();
    assert_eq!(ctx.cache.vertex_buffer, 0);
    assert_eq!(ctx.cache.index_buffer, 0);
    // the default framebuffer is restored
    assert!(ctx.commands.contains(&GlCommand::BindFramebuffer { framebuffer: 9 }));
}

#[test]
fn shader_uniform_offsets_accumulate_in_declaration_order() {
    let mut ctx = Context::new(0, 100, 100);
    let shader = Shader::new(
        &mut ctx,
        1,
        reflection(&[], &[("offset", 4), ("mvp", 5)]),
        &meta(&[("offset", UniformType::Float3), ("mvp", UniformType::Mat4)], &[]),
    )
    .unwrap();
    let entry = &ctx.shaders[shader.0];
    assert_eq!(entry.uniforms.len(), 2);
    assert_eq!(entry.uniforms[0].offset, 0);
    assert_eq!(entry.uniforms[0].size, 12);
    assert_eq!(entry.uniforms[0].gl_loc, 4);
    assert_eq!(entry.uniforms[1].offset, 12);
    assert_eq!(entry.uniforms[1].size, 64);
    assert_eq!(entry.uniforms[1].gl_loc, 5);
}

#[test]
fn unresolved_uniform_and_image_names_fail() {
    let mut ctx = Context::new(0, 100, 100);
    let err = Shader::new(
        &mut ctx,
        1,
        reflection(&[], &[("mvp", 0)]),
        &meta(&[("missing", UniformType::Float1)], &[]),
    )
    .unwrap_err();
    assert_eq!(err, GraphicsError::UnknownUniform);

    let err = Shader::new(
        &mut ctx,
        1,
        reflection(&[], &[("mvp", 0)]),
        &meta(&[], &["tex"]),
    )
    .unwrap_err();
    assert_eq!(err, GraphicsError::UnknownImage);
}

#[test]
fn too_small_uniform_block_is_rejected_whole() {
    let mut ctx = Context::new(0, 100, 100);
    let (pipeline, _bindings) = quad_setup(&mut ctx);
    ctx.apply_pipeline(&pipeline);
    let mark = ctx.commands.len();
    // the declared mat4 reads 16 words; 15 are one word short
    let words = [0u32; 15];
    let err = ctx.apply_uniforms(&words).unwrap_err();
    assert_eq!(err, GraphicsError::UniformBlockTooSmall);
    assert_eq!(ctx.commands.len(), mark);
    // exactly 16 words succeed
    let words = [0u32; 16];
    assert!(ctx.apply_uniforms(&words).is_ok());
}

#[test]
fn offscreen_pass_uses_texture_extent_and_restores_default() {
    let mut ctx = Context::new(3, 1024, 768);
    let color = Texture::new_render_texture(
        &mut ctx,
        graphics::RenderTextureParams {
            width: 256,
            height: 128,
            ..graphics::RenderTextureParams::default()
        },
    );
    let pass = graphics::RenderPass::new(&mut ctx, color, None);
    // creation restored the default framebuffer as its last command
    assert_eq!(
        ctx.commands.last(),
        Some(&GlCommand::BindFramebuffer { framebuffer: 3 })
    );
    let mark = ctx.commands.len();
    ctx.begin_pass(Some(pass), PassAction::Nothing);
    let delta = &ctx.commands[mark..];
    assert!(delta.contains(&GlCommand::Viewport { x: 0, y: 0, width: 256, height: 128 }));
    assert!(delta.contains(&GlCommand::Scissor { x: 0, y: 0, width: 256, height: 128 }));
}

#[test]
fn pipeline_depth_state_follows_its_params() {
    let mut ctx = Context::new(0, 100, 100);
    let shader = Shader::new(&mut ctx, 2, reflection(&[("pos", 0)], &[]), &meta(&[], &[]))
        .unwrap();
    let attrs = [VertexAttribute::new("pos", VertexFormat::Float2)];
    let layouts = [BufferLayout::default()];
    let depth_params = PipelineParams {
        depth_test: Comparison::LessOrEqual,
        depth_write: true,
        cull_face: CullFace::Back,
        front_face_order: FrontFaceOrder::CounterClockwise,
        ..PipelineParams::default()
    };
    let pipeline =
        Pipeline::with_params(&mut ctx, &layouts, &attrs, shader, depth_params).unwrap();
    let mark = ctx.commands.len();
    ctx.apply_pipeline(&pipeline);
    let delta = &ctx.commands[mark..];
    assert!(delta.contains(&GlCommand::EnableDepthTest));
    assert!(delta.contains(&GlCommand::DepthFunc { func: graphics::GL_LEQUAL }));
}

#[test]
fn switching_to_a_narrower_pipeline_disables_stale_attributes() {
    let mut ctx = Context::new(0, 640, 480);
    let (wide, bindings) = quad_setup(&mut ctx);
    // a pipeline on the same program that only reads the position
    let narrow_shader = Shader::new(
        &mut ctx,
        7,
        reflection(&[("pos", 0), ("uv", 1)], &[("mvp", 0)]),
        &meta(&[("mvp", UniformType::Mat4)], &[]),
    )
    .unwrap();
    let narrow = Pipeline::new(
        &mut ctx,
        &[BufferLayout::default()],
        &[VertexAttribute::new("pos", VertexFormat::Float2)],
        narrow_shader,
    )
    .unwrap();

    ctx.apply_pipeline(&wide);
    ctx.apply_bindings(&bindings);
    ctx.apply_pipeline(&narrow);
    let mark = ctx.commands.len();
    ctx.apply_bindings(&bindings);
    let delta = &ctx.commands[mark..];
    // slot 1 held the uv attribute; the narrow pipeline does not define it
    assert!(delta.contains(&GlCommand::DisableVertexAttribArray { location: 1 }));
    // slot 0's record changed too: the narrow layout's auto stride is 8
    assert!(delta.iter().any(|c| matches!(
        c,
        GlCommand::VertexAttribPointer { location: 0, stride: 8, .. }
    )));
}

#[test]
fn update_restores_the_callers_binding() {
    let mut ctx = Context::new(0, 640, 480);
    let (pipeline, bindings) = quad_setup(&mut ctx);
    let stream = Buffer::stream(&mut ctx, BufferType::VertexBuffer, 64);
    ctx.apply_pipeline(&pipeline);
    ctx.apply_bindings(&bindings);
    let bound_before = ctx.cache.vertex_buffer;
    assert_ne!(bound_before, stream.gl_buf);
    stream.update(&mut ctx, &[1u8; 32]).unwrap();
    // the transient bind of the stream buffer did not disturb the
    // caller-visible binding
    assert_eq!(ctx.cache.vertex_buffer, bound_before);
    assert_eq!(
        ctx.commands.last(),
        Some(&GlCommand::BindBuffer { target: GL_ARRAY_BUFFER, buffer: bound_before })
    );
}

#[test]
fn render_pass_creation_restores_the_bound_framebuffer() {
    let mut ctx = Context::new(5, 640, 480);
    let color_a = Texture::new_render_texture(
        &mut ctx,
        graphics::RenderTextureParams {
            width: 64,
            height: 64,
            ..graphics::RenderTextureParams::default()
        },
    );
    let pass_a = graphics::RenderPass::new(&mut ctx, color_a, None);
    let fb_a = ctx.passes[pass_a.0].gl_fb;
    ctx.begin_pass(Some(pass_a), PassAction::Nothing);
    // with an offscreen target bound, creating another pass must restore
    // that target, not the default framebuffer
    let color_b = Texture::new_render_texture(
        &mut ctx,
        graphics::RenderTextureParams {
            width: 32,
            height: 32,
            ..graphics::RenderTextureParams::default()
        },
    );
    let _pass_b = graphics::RenderPass::new(&mut ctx, color_b, None);
    assert_eq!(
        ctx.commands.last(),
        Some(&GlCommand::BindFramebuffer { framebuffer: fb_a })
    );
}
