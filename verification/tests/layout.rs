use gl_wrap::buffers::{
    calc_bytes_size, plan_vertex_attribs, vertex_attrib_type_count, vertex_attrib_type_gl,
    vertex_attrib_type_size, VertexAttrib, VertexAttribType,
};

const GL_FLOAT: u32 = 0x1406;
const GL_INT: u32 = 0x1404;
const GL_BYTE: u32 = 0x1400;

#[test]
fn attrib_type_sizes_match_table() {
    assert_eq!(vertex_attrib_type_size(&VertexAttribType::Float), 4);
    assert_eq!(vertex_attrib_type_size(&VertexAttribType::Float2), 8);
    assert_eq!(vertex_attrib_type_size(&VertexAttribType::Float3), 12);
    assert_eq!(vertex_attrib_type_size(&VertexAttribType::Float4), 16);
    assert_eq!(vertex_attrib_type_size(&VertexAttribType::Mat3), 36);
    assert_eq!(vertex_attrib_type_size(&VertexAttribType::Mat4), 64);
    assert_eq!(vertex_attrib_type_size(&VertexAttribType::Int), 4);
    assert_eq!(vertex_attrib_type_size(&VertexAttribType::Int2), 8);
    assert_eq!(vertex_attrib_type_size(&VertexAttribType::Int3), 12);
    assert_eq!(vertex_attrib_type_size(&VertexAttribType::Int4), 16);
    assert_eq!(vertex_attrib_type_size(&VertexAttribType::Byte), 1);
}

#[test]
fn attrib_type_counts_match_table() {
    assert_eq!(vertex_attrib_type_count(&VertexAttribType::Float), 1);
    assert_eq!(vertex_attrib_type_count(&VertexAttribType::Float2), 2);
    assert_eq!(vertex_attrib_type_count(&VertexAttribType::Float3), 3);
    assert_eq!(vertex_attrib_type_count(&VertexAttribType::Float4), 4);
    assert_eq!(vertex_attrib_type_count(&VertexAttribType::Mat3), 9);
    assert_eq!(vertex_attrib_type_count(&VertexAttribType::Mat4), 16);
    assert_eq!(vertex_attrib_type_count(&VertexAttribType::Int), 1);
    assert_eq!(vertex_attrib_type_count(&VertexAttribType::Int2), 2);
    assert_eq!(vertex_attrib_type_count(&VertexAttribType::Int3), 3);
    assert_eq!(vertex_attrib_type_count(&VertexAttribType::Int4), 4);
    assert_eq!(vertex_attrib_type_count(&VertexAttribType::Byte), 1);
}

#[test]
fn attrib_type_native_routing() {
    assert_eq!(vertex_attrib_type_gl(&VertexAttribType::Float), GL_FLOAT);
    assert_eq!(vertex_attrib_type_gl(&VertexAttribType::Float2), GL_FLOAT);
    assert_eq!(vertex_attrib_type_gl(&VertexAttribType::Float3), GL_FLOAT);
    assert_eq!(vertex_attrib_type_gl(&VertexAttribType::Float4), GL_FLOAT);
    assert_eq!(vertex_attrib_type_gl(&VertexAttribType::Mat3), GL_FLOAT);
    assert_eq!(vertex_attrib_type_gl(&VertexAttribType::Mat4), GL_FLOAT);
    assert_eq!(vertex_attrib_type_gl(&VertexAttribType::Int), GL_INT);
    assert_eq!(vertex_attrib_type_gl(&VertexAttribType::Int2), GL_INT);
    assert_eq!(vertex_attrib_type_gl(&VertexAttribType::Int3), GL_INT);
    assert_eq!(vertex_attrib_type_gl(&VertexAttribType::Int4), GL_INT);
    assert_eq!(vertex_attrib_type_gl(&VertexAttribType::Byte), GL_BYTE);
}

#[test]
fn new_attrib_derives_size_and_starts_at_offset_zero() {
    let attrib = VertexAttrib::new(VertexAttribType::Mat4, true, "model".to_string());
    assert_eq!(attrib.size, 64);
    assert_eq!(attrib.offset, 0);
    assert!(attrib.normalize);
    assert_eq!(attrib.name, "model");
}

#[test]
fn three_float_attribs_yield_packed_layout() {
    let mut attribs = vec![
        VertexAttrib::new(VertexAttribType::Float3, false, "pos".to_string()),
        VertexAttrib::new(VertexAttribType::Float3, false, "normal".to_string()),
        VertexAttrib::new(VertexAttribType::Float2, false, "uv".to_string()),
    ];
    let plan = plan_vertex_attribs(&mut attribs);

    assert_eq!(plan.stride, 32);
    assert_eq!(plan.commands.len(), 3);
    let offsets: Vec<u32> = plan.commands.iter().map(|c| c.offset).collect();
    assert_eq!(offsets, vec![0, 12, 24]);
    let indices: Vec<u32> = plan.commands.iter().map(|c| c.index).collect();
    assert_eq!(indices, vec![0, 1, 2]);
    for command in &plan.commands {
        assert!(!command.integer_path);
        assert_eq!(command.gl_type, GL_FLOAT);
        assert_eq!(command.stride, 32);
    }
    let counts: Vec<u32> = plan.commands.iter().map(|c| c.count).collect();
    assert_eq!(counts, vec![3, 3, 2]);

    // The descriptors themselves carry the derived offsets afterwards.
    let attrib_offsets: Vec<u32> = attribs.iter().map(|a| a.offset).collect();
    assert_eq!(attrib_offsets, vec![0, 12, 24]);
}

#[test]
fn empty_attrib_list_yields_stride_zero_and_no_slots() {
    let mut attribs: Vec<VertexAttrib> = Vec::new();
    let plan = plan_vertex_attribs(&mut attribs);
    assert_eq!(plan.stride, 0);
    assert!(plan.commands.is_empty());
}

#[test]
fn integer_attribs_route_to_integer_path() {
    let mut attribs = vec![
        VertexAttrib::new(VertexAttribType::Int2, false, "cell".to_string()),
        VertexAttrib::new(VertexAttribType::Byte, true, "flags".to_string()),
        VertexAttrib::new(VertexAttribType::Float, false, "weight".to_string()),
    ];
    let plan = plan_vertex_attribs(&mut attribs);

    assert_eq!(plan.stride, 8 + 1 + 4);
    let offsets: Vec<u32> = plan.commands.iter().map(|c| c.offset).collect();
    assert_eq!(offsets, vec![0, 8, 9]);
    assert!(plan.commands[0].integer_path);
    assert_eq!(plan.commands[0].gl_type, GL_INT);
    assert!(plan.commands[1].integer_path);
    assert_eq!(plan.commands[1].gl_type, GL_BYTE);
    assert!(plan.commands[1].normalize);
    assert!(!plan.commands[2].integer_path);
    assert_eq!(plan.commands[2].gl_type, GL_FLOAT);
}

#[test]
fn slot_indices_cover_input_order_without_gaps() {
    let types = [
        VertexAttribType::Float4,
        VertexAttribType::Mat3,
        VertexAttribType::Int,
        VertexAttribType::Byte,
        VertexAttribType::Float,
    ];
    let mut attribs: Vec<VertexAttrib> = types
        .iter()
        .enumerate()
        .map(|(i, t)| VertexAttrib::new(*t, false, format!("a{}", i)))
        .collect();
    let plan = plan_vertex_attribs(&mut attribs);
    assert_eq!(plan.commands.len(), 5);
    for (i, command) in plan.commands.iter().enumerate() {
        assert_eq!(command.index, i as u32);
    }
}

#[test]
fn byte_size_of_vectors() {
    let floats: Vec<f32> = vec![0.5, 0.5, 0.0, 1.0];
    assert_eq!(calc_bytes_size(&floats), 16);
    let bytes: Vec<u8> = vec![1, 2, 3];
    assert_eq!(calc_bytes_size(&bytes), 3);
    let indices: Vec<i32> = vec![0, 1, 3, 1, 2, 3];
    assert_eq!(calc_bytes_size(&indices), 24);
    let empty: Vec<u64> = Vec::new();
    assert_eq!(calc_bytes_size(&empty), 0);
}
