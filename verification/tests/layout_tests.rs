use irid::layout::{VertexAttribute, VertexBufferLayout, VertexFormat, VertexStepMode};

fn offsets(layout: &VertexBufferLayout) -> Vec<(u64, u32)> {
    layout.attributes.iter().map(|a| (a.offset, a.shader_location)).collect()
}

#[test]
fn model_vertex_layout() {
    let layout = VertexBufferLayout::desc(&[
        VertexFormat::Float32x3,
        VertexFormat::Float32x2,
        VertexFormat::Float32x3,
    ]);
    assert_eq!(layout.array_stride, 32);
    assert_eq!(layout.step_mode, VertexStepMode::Vertex);
    assert_eq!(offsets(&layout), vec![(0, 0), (12, 1), (20, 2)]);
}

#[test]
fn textured_vertex_layout() {
    let layout = VertexBufferLayout::desc(&[VertexFormat::Float32x3, VertexFormat::Float32x2]);
    assert_eq!(layout.array_stride, 20);
    assert_eq!(offsets(&layout), vec![(0, 0), (12, 1)]);
    assert_eq!(layout.attributes[1].format, VertexFormat::Float32x2);
}

#[test]
fn colored_vertex_layout() {
    let layout = VertexBufferLayout::desc(&[VertexFormat::Float32x3, VertexFormat::Float32x3]);
    assert_eq!(layout.array_stride, 24);
    assert_eq!(offsets(&layout), vec![(0, 0), (12, 1)]);
}

#[test]
fn instance_layout() {
    let layout = VertexBufferLayout::instance_raw_desc();
    assert_eq!(layout.step_mode, VertexStepMode::Instance);
    assert_eq!(layout.array_stride, 64);
    assert_eq!(offsets(&layout), vec![(0, 5), (16, 6), (32, 7), (48, 8)]);
    assert_eq!(
        layout.attributes[3],
        VertexAttribute { format: VertexFormat::Float32x4, offset: 48, shader_location: 8 }
    );
}

#[test]
fn empty_layout() {
    let layout = VertexBufferLayout::from_formats(&[], 3, VertexStepMode::Vertex);
    assert_eq!(layout.array_stride, 0);
    assert!(layout.attributes.is_empty());
}

#[test]
fn format_sizes() {
    assert_eq!(VertexFormat::Uint8x2.size(), 2);
    assert_eq!(VertexFormat::Float32.size(), 4);
    assert_eq!(VertexFormat::Float16x4.size(), 8);
    assert_eq!(VertexFormat::Sint32x3.size(), 12);
    assert_eq!(VertexFormat::Float64x2.size(), 16);
    assert_eq!(VertexFormat::Float64x3.size(), 24);
    assert_eq!(VertexFormat::Float64x4.size(), 32);
}

#[test]
fn mixed_formats_pack_without_gaps() {
    let layout = VertexBufferLayout::from_formats(
        &[VertexFormat::Unorm8x4, VertexFormat::Float64, VertexFormat::Uint16x2],
        2,
        VertexStepMode::Vertex,
    );
    assert_eq!(offsets(&layout), vec![(0, 2), (4, 3), (12, 4)]);
    assert_eq!(layout.array_stride, 16);
}
