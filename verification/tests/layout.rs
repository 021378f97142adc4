use aurora::renderer::{
    LineInstance, TwoDInstance, VertexAttribute, VertexBufferLayout, VertexFormat, VertexStepMode,
};

fn attribute(format: VertexFormat, offset: u64, shader_location: u32) -> VertexAttribute {
    VertexAttribute { format, offset, shader_location }
}

fn is_packed(layout: &VertexBufferLayout) -> bool {
    let mut offset = 0;
    let mut location = 4;
    for attribute in &layout.attributes {
        if attribute.offset != offset || attribute.shader_location != location {
            return false;
        }
        offset += attribute.format.size();
        location += 1;
    }
    offset == layout.array_stride
}

#[test]
fn the_sizes_of_the_formats() {
    assert_eq!(VertexFormat::Float32.size(), 4);
    assert_eq!(VertexFormat::Float32x2.size(), 8);
    assert_eq!(VertexFormat::Float32x4.size(), 16);
    assert_eq!(VertexFormat::Uint32.size(), 4);
}

#[test]
fn the_layout_of_a_line_instance() {
    let layout = LineInstance::desc();
    assert_eq!(
        layout,
        VertexBufferLayout {
            array_stride: 36,
            step_mode: VertexStepMode::Instance,
            attributes: vec![
                attribute(VertexFormat::Float32x2, 0, 4),
                attribute(VertexFormat::Float32x2, 8, 5),
                attribute(VertexFormat::Float32x4, 16, 6),
                attribute(VertexFormat::Float32, 32, 7),
            ],
        }
    );
    assert!(is_packed(&layout));
    assert_eq!(layout.array_stride as usize, std::mem::size_of::<[f32; 9]>());
}

#[test]
fn the_layout_of_a_shape_instance() {
    let layout = TwoDInstance::desc();
    assert_eq!(
        layout,
        VertexBufferLayout {
            array_stride: 68,
            step_mode: VertexStepMode::Instance,
            attributes: vec![
                attribute(VertexFormat::Float32x2, 0, 4),
                attribute(VertexFormat::Float32x2, 8, 5),
                attribute(VertexFormat::Float32x4, 16, 6),
                attribute(VertexFormat::Float32x4, 32, 7),
                attribute(VertexFormat::Float32, 48, 8),
                attribute(VertexFormat::Float32, 52, 9),
                attribute(VertexFormat::Float32, 56, 10),
                attribute(VertexFormat::Float32, 60, 11),
                attribute(VertexFormat::Uint32, 64, 12),
            ],
        }
    );
    assert!(is_packed(&layout));
    assert_eq!(layout.array_stride as usize, std::mem::size_of::<[f32; 17]>());
}
