use graphics::{
    gl_buffer_target, gl_usage, lookup_attribute, lookup_uniform, BlendFactor, BlendValue,
    BufferType, Comparison, Context, Equation, FilterMode, GlCommand, PixelFormat,
    ProgramAttribute, ProgramUniform, Texture, UniformType, Usage, GL_ARRAY_BUFFER,
    GL_DYNAMIC_DRAW, GL_ELEMENT_ARRAY_BUFFER, GL_FUNC_ADD, GL_FUNC_REVERSE_SUBTRACT, GL_GEQUAL,
    GL_LINEAR, GL_NEAREST, GL_ONE, GL_ONE_MINUS_SRC_ALPHA, GL_SRC_COLOR, GL_STATIC_DRAW,
    GL_STREAM_DRAW, GL_TEXTURE_MAG_FILTER, GL_TEXTURE_MIN_FILTER,
};

#[test]
fn uniform_type_sizes_match_their_natural_layout() {
    assert_eq!(UniformType::Float1.size(1), 4);
    assert_eq!(UniformType::Float2.size(1), 8);
    assert_eq!(UniformType::Float3.size(1), 12);
    assert_eq!(UniformType::Float4.size(1), 16);
    assert_eq!(UniformType::Mat4.size(1), 64);
    assert_eq!(UniformType::Float4.size(3), 48);
}

#[test]
fn buffer_targets_and_usages_encode_as_the_driver_expects() {
    assert_eq!(gl_buffer_target(&BufferType::VertexBuffer), GL_ARRAY_BUFFER);
    assert_eq!(gl_buffer_target(&BufferType::IndexBuffer), GL_ELEMENT_ARRAY_BUFFER);
    assert_eq!(gl_usage(&Usage::Immutable), GL_STATIC_DRAW);
    assert_eq!(gl_usage(&Usage::Dynamic), GL_DYNAMIC_DRAW);
    assert_eq!(gl_usage(&Usage::Stream), GL_STREAM_DRAW);
}

#[test]
fn fixed_function_values_encode_as_the_driver_expects() {
    assert_eq!(Comparison::GreaterOrEqual.gl_enum(), GL_GEQUAL);
    assert_eq!(Equation::Add.gl_enum(), GL_FUNC_ADD);
    assert_eq!(Equation::ReverseSubtract.gl_enum(), GL_FUNC_REVERSE_SUBTRACT);
    assert_eq!(BlendFactor::One.gl_enum(), GL_ONE);
    assert_eq!(BlendFactor::Value(BlendValue::SourceColor).gl_enum(), GL_SRC_COLOR);
    assert_eq!(
        BlendFactor::OneMinusValue(BlendValue::SourceAlpha).gl_enum(),
        GL_ONE_MINUS_SRC_ALPHA
    );
    assert_eq!(FilterMode::Linear.gl_filter(), GL_LINEAR as i32);
    assert_eq!(FilterMode::Nearest.gl_filter(), GL_NEAREST as i32);
    assert_eq!(PixelFormat::RGBA8.bytes_per_pixel(), 4);
    assert_eq!(PixelFormat::Depth.bytes_per_pixel(), 2);
}

#[test]
fn lookups_return_the_first_matching_entry() {
    let attrs = vec![
        ProgramAttribute { name: "pos".to_string(), location: 0 },
        ProgramAttribute { name: "uv".to_string(), location: 1 },
        ProgramAttribute { name: "pos".to_string(), location: 9 },
    ];
    assert_eq!(lookup_attribute(&attrs, &"pos".to_string()), Some(0));
    assert_eq!(lookup_attribute(&attrs, &"uv".to_string()), Some(1));
    assert_eq!(lookup_attribute(&attrs, &"normal".to_string()), None);

    let uniforms = vec![ProgramUniform { name: "mvp".to_string(), location: 3 }];
    assert_eq!(lookup_uniform(&uniforms, &"mvp".to_string()), Some(3));
    assert_eq!(lookup_uniform(&uniforms, &"color".to_string()), None);
}

#[test]
fn texture_upload_records_its_extent_and_data() {
    let mut ctx = Context::new(0, 64, 64);
    let pixels = vec![255u8; 4 * 2 * 2];
    let texture = Texture::from_rgba8(&mut ctx, 2, 2, &pixels);
    assert_eq!(texture.width, 2);
    assert_eq!(texture.height, 2);
    assert!(ctx.commands.iter().any(|c| matches!(
        c,
        GlCommand::TexImage2D { width: 2, height: 2, with_data: true, .. }
    )));
}

#[test]
fn set_filter_rebinds_and_sets_both_filters() {
    let mut ctx = Context::new(0, 64, 64);
    let pixels = vec![0u8; 4];
    let texture = Texture::from_rgba8(&mut ctx, 1, 1, &pixels);
    let mark = ctx.commands.len();
    texture.set_filter(&mut ctx, GL_NEAREST as i32);
    let delta = &ctx.commands[mark..];
    assert_eq!(delta.len(), 3);
    assert_eq!(delta[0], GlCommand::BindTexture { texture: texture.texture });
    assert_eq!(
        delta[1],
        GlCommand::TexParameter { param: GL_TEXTURE_MIN_FILTER, value: GL_NEAREST as i32 }
    );
    assert_eq!(
        delta[2],
        GlCommand::TexParameter { param: GL_TEXTURE_MAG_FILTER, value: GL_NEAREST as i32 }
    );
}

#[test]
fn resize_and_scissor_issue_their_calls() {
    let mut ctx = Context::new(0, 800, 600);
    assert_eq!(ctx.screen_size(), (800, 600));
    ctx.resize(1024, 768);
    assert_eq!(ctx.screen_size(), (1024, 768));
    assert_eq!(
        ctx.commands.last(),
        Some(&GlCommand::Viewport { x: 0, y: 0, width: 1024, height: 768 })
    );
    ctx.apply_scissor_rect(10, 20, 30, 40);
    assert_eq!(
        ctx.commands.last(),
        Some(&GlCommand::Scissor { x: 10, y: 20, width: 30, height: 40 })
    );
}

#[test]
fn draw_offsets_are_two_bytes_per_index() {
    let mut ctx = Context::new(0, 100, 100);
    ctx.draw(3, 6, 2);
    assert_eq!(
        ctx.commands.last(),
        Some(&GlCommand::DrawElementsInstanced { count: 6, index_offset: 6, instances: 2 })
    );
}

#[test]
fn error_descriptions_name_the_failure() {
    assert!(graphics::GraphicsError::UnknownAttribute.describe().contains("attribute"));
    assert!(graphics::GraphicsError::BufferCapacityExceeded.describe().contains("capacity"));
    assert!(graphics::GraphicsError::UniformBlockTooSmall.describe().contains("uniform"));
}
