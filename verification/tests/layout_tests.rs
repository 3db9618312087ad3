use graphics::{
    compile_vertex_layout, BufferLayout, GraphicsError, ProgramAttribute, VertexAttribute,
    VertexFormat, VertexStep, GL_FLOAT, GL_UNSIGNED_BYTE,
};

fn table(entries: &[(&str, u32)]) -> Vec<ProgramAttribute> {
    entries
        .iter()
        .map(|(name, location)| ProgramAttribute { name: name.to_string(), location: *location })
        .collect()
}

fn attr(name: &str, format: VertexFormat) -> VertexAttribute {
    VertexAttribute::new(name, format)
}

fn attr_at(name: &str, format: VertexFormat, buffer_index: usize) -> VertexAttribute {
    VertexAttribute::with_buffer(name, format, buffer_index)
}

#[test]
fn vertex_format_sizes() {
    assert_eq!(VertexFormat::Float1.size(), 1);
    assert_eq!(VertexFormat::Float2.size(), 2);
    assert_eq!(VertexFormat::Float3.size(), 3);
    assert_eq!(VertexFormat::Float4.size(), 4);
    assert_eq!(VertexFormat::Byte1.size(), 1);
    assert_eq!(VertexFormat::Byte4.size(), 4);
    assert_eq!(VertexFormat::Mat4.size(), 16);
}

#[test]
fn vertex_format_byte_lens() {
    assert_eq!(VertexFormat::Float1.byte_len(), 4);
    assert_eq!(VertexFormat::Float2.byte_len(), 8);
    assert_eq!(VertexFormat::Float3.byte_len(), 12);
    assert_eq!(VertexFormat::Float4.byte_len(), 16);
    assert_eq!(VertexFormat::Byte1.byte_len(), 1);
    assert_eq!(VertexFormat::Byte2.byte_len(), 2);
    assert_eq!(VertexFormat::Byte3.byte_len(), 3);
    assert_eq!(VertexFormat::Byte4.byte_len(), 4);
    assert_eq!(VertexFormat::Mat4.byte_len(), 64);
}

#[test]
fn vertex_format_component_types() {
    assert_eq!(VertexFormat::Float3.type_(), GL_FLOAT);
    assert_eq!(VertexFormat::Byte4.type_(), GL_UNSIGNED_BYTE);
    assert_eq!(VertexFormat::Mat4.type_(), GL_FLOAT);
}

#[test]
fn buffer_layout_default_is_auto_per_vertex() {
    let layout = BufferLayout::default();
    assert_eq!(layout.stride, 0);
    assert_eq!(layout.step_func, VertexStep::PerVertex);
    assert_eq!(layout.step_rate, 1);
}

#[test]
fn auto_stride_sums_byte_lens_in_declaration_order() {
    let t = table(&[("pos", 0), ("uv", 1)]);
    let layouts = [BufferLayout::default()];
    let attrs = [attr("pos", VertexFormat::Float2), attr("uv", VertexFormat::Float2)];
    let layout = compile_vertex_layout(&layouts, &attrs, &t).unwrap();
    assert_eq!(layout.len(), 2);
    // stride 0 means auto: 8 + 8 bytes.
    assert_eq!(layout[0].stride, 16);
    assert_eq!(layout[1].stride, 16);
    assert_eq!(layout[0].offset, 0);
    assert_eq!(layout[1].offset, 8);
    assert_eq!(layout[0].size, 2);
    assert_eq!(layout[1].size, 2);
    assert_eq!(layout[0].buffer_index, 0);
}

#[test]
fn explicit_stride_wins_over_attributes() {
    let t = table(&[("pos", 0), ("uv", 1)]);
    let layouts = [BufferLayout { stride: 32, step_func: VertexStep::PerVertex, step_rate: 1 }];
    let attrs = [attr("pos", VertexFormat::Float2), attr("uv", VertexFormat::Float2)];
    let layout = compile_vertex_layout(&layouts, &attrs, &t).unwrap();
    assert_eq!(layout[0].stride, 32);
    assert_eq!(layout[1].stride, 32);
}

#[test]
fn auto_stride_per_slot_only_counts_its_own_attributes() {
    let t = table(&[("pos", 0), ("inst", 1)]);
    let layouts = [
        BufferLayout::default(),
        BufferLayout { stride: 0, step_func: VertexStep::PerInstance, step_rate: 2 },
    ];
    let attrs = [
        attr_at("pos", VertexFormat::Float3, 0),
        attr_at("inst", VertexFormat::Float4, 1),
    ];
    let layout = compile_vertex_layout(&layouts, &attrs, &t).unwrap();
    assert_eq!(layout[0].stride, 12);
    assert_eq!(layout[1].stride, 16);
    assert_eq!(layout[0].divisor, 0);
    assert_eq!(layout[1].divisor, 2);
    assert_eq!(layout[1].buffer_index, 1);
}

#[test]
fn mat4_expands_to_four_consecutive_slots() {
    let t = table(&[("model", 0)]);
    let layouts = [BufferLayout::default()];
    let attrs = [attr("model", VertexFormat::Mat4)];
    let layout = compile_vertex_layout(&layouts, &attrs, &t).unwrap();
    assert_eq!(layout.len(), 4);
    for i in 0..4usize {
        assert_eq!(layout[i].attr_loc, i as u32);
        assert_eq!(layout[i].size, 4);
        assert_eq!(layout[i].type_, GL_FLOAT);
        assert_eq!(layout[i].offset, 16 * i as u64);
        assert_eq!(layout[i].stride, 64);
    }
}

#[test]
fn mat4_after_vec2_starts_at_the_running_offset() {
    let t = table(&[("uv", 0), ("model", 1)]);
    let layouts = [BufferLayout::default()];
    let attrs = [attr("uv", VertexFormat::Float2), attr("model", VertexFormat::Mat4)];
    let layout = compile_vertex_layout(&layouts, &attrs, &t).unwrap();
    assert_eq!(layout.len(), 5);
    assert_eq!(layout[0].offset, 0);
    // the mat4 rows begin after the vec2's 8 bytes, 16 bytes apart
    assert_eq!(layout[1].offset, 8);
    assert_eq!(layout[2].offset, 24);
    assert_eq!(layout[3].offset, 40);
    assert_eq!(layout[4].offset, 56);
    // auto stride: 8 bytes of the vec2 + 64 of the mat4
    for rec in &layout {
        assert_eq!(rec.stride, 72);
    }
}

#[test]
fn unknown_attribute_name_fails() {
    let t = table(&[("pos", 0)]);
    let layouts = [BufferLayout::default()];
    let attrs = [attr("color", VertexFormat::Float4)];
    let err = compile_vertex_layout(&layouts, &attrs, &t).unwrap_err();
    assert_eq!(err, GraphicsError::UnknownAttribute);
}

#[test]
fn location_outside_the_layout_fails() {
    let t = table(&[("pos", 5)]);
    let layouts = [BufferLayout::default()];
    let attrs = [attr("pos", VertexFormat::Float2)];
    let err = compile_vertex_layout(&layouts, &attrs, &t).unwrap_err();
    assert_eq!(err, GraphicsError::AttributeLocationOverflow);
}

#[test]
fn location_above_slot_fifteen_fails() {
    let mut entries = Vec::new();
    let names: Vec<String> = (0..14).map(|i| format!("a{}", i)).collect();
    for (i, name) in names.iter().enumerate() {
        entries.push((name.as_str(), i as u32));
    }
    entries.push(("model", 14));
    let t = table(&entries);
    let layouts = [BufferLayout::default()];
    let mut attrs: Vec<VertexAttribute> = names
        .iter()
        .map(|n| attr(n.as_str(), VertexFormat::Float1))
        .collect();
    // four rows starting at slot 14 would end at slot 17
    attrs.push(attr("model", VertexFormat::Mat4));
    let err = compile_vertex_layout(&layouts, &attrs, &t).unwrap_err();
    assert_eq!(err, GraphicsError::AttributeLocationOverflow);
}

#[test]
fn first_failing_attribute_decides_the_error() {
    // the second attribute's name does not resolve; the third would overflow
    let t = table(&[("pos", 0), ("big", 9)]);
    let layouts = [BufferLayout::default()];
    let attrs = [
        attr("pos", VertexFormat::Float2),
        attr("missing", VertexFormat::Float2),
        attr("big", VertexFormat::Float2),
    ];
    let err = compile_vertex_layout(&layouts, &attrs, &t).unwrap_err();
    assert_eq!(err, GraphicsError::UnknownAttribute);
}

#[test]
fn colliding_locations_leave_a_gap_and_fail() {
    let t = table(&[("a", 0), ("b", 0)]);
    let layouts = [BufferLayout::default()];
    let attrs = [attr("a", VertexFormat::Float1), attr("b", VertexFormat::Float1)];
    let err = compile_vertex_layout(&layouts, &attrs, &t).unwrap_err();
    assert_eq!(err, GraphicsError::IncompleteAttributeLayout);
}

#[test]
fn attribute_order_is_independent_of_location_order() {
    // declared uv before pos, but resolved to locations 1 and 0
    let t = table(&[("pos", 0), ("uv", 1)]);
    let layouts = [BufferLayout::default()];
    let attrs = [attr("uv", VertexFormat::Float2), attr("pos", VertexFormat::Float3)];
    let layout = compile_vertex_layout(&layouts, &attrs, &t).unwrap();
    // offsets follow declaration order: uv first in the buffer
    assert_eq!(layout[1].offset, 0);
    assert_eq!(layout[0].offset, 8);
    assert_eq!(layout[0].size, 3);
    assert_eq!(layout[1].size, 2);
    assert_eq!(layout[0].stride, 20);
    assert_eq!(layout[1].stride, 20);
}

#[test]
fn byte_formats_advance_by_their_byte_length() {
    let t = table(&[("color", 0), ("weight", 1)]);
    let layouts = [BufferLayout::default()];
    let attrs = [attr("color", VertexFormat::Byte4), attr("weight", VertexFormat::Float1)];
    let layout = compile_vertex_layout(&layouts, &attrs, &t).unwrap();
    // the byte4 packs into 4 bytes, so the float follows at offset 4
    assert_eq!(layout[0].offset, 0);
    assert_eq!(layout[1].offset, 4);
    assert_eq!(layout[0].stride, 8);
    assert_eq!(layout[1].stride, 8);
    assert_eq!(layout[0].type_, GL_UNSIGNED_BYTE);
}
