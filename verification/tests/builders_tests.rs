use irid::pipeline::{
    Face, FrontFace, IndexFormat, MultisampleState, PipelineLayoutBuilder, PolygonMode,
    PrimitiveState, PrimitiveStateBuilder, PrimitiveTopology, RenderPipelineBuilder,
};
use irid::shader::{
    label, FragmentStateBuilder, ShaderModuleBuilder, VertexStateBuilder,
    DEFAULT_FRAGMENT_ENTRY_POINT, DEFAULT_VERTEX_ENTRY_POINT,
};

#[test]
fn labels() {
    assert_eq!(label(""), None);
    assert_eq!(label("Main"), Some("Main"));
    let desc = ShaderModuleBuilder::new(42u8).build();
    assert_eq!(desc.label, Some("Render Pipeline Descriptor Default Label"));
    assert_eq!(desc.source, 42);
    let desc = ShaderModuleBuilder::new(1u8).with_label("").with_source(2).build();
    assert_eq!(desc.label, None);
    assert_eq!(desc.source, 2);
}

#[test]
fn vertex_state_defaults() {
    let module = String::from("module");
    let state = VertexStateBuilder::<String, u32>::new(&module).build();
    assert_eq!(state.entry_point, "vs_main");
    assert_eq!(state.entry_point, DEFAULT_VERTEX_ENTRY_POINT);
    assert!(state.buffers.is_empty());
    let buffers = [1u32, 2];
    let state = VertexStateBuilder::new(&module)
        .with_entry_point("main")
        .with_buffers(&buffers)
        .build();
    assert_eq!(state.entry_point, "main");
    assert_eq!(state.buffers, &[1, 2]);
    let state = VertexStateBuilder::<String, u32>::new(&module).with_entry_point("").build();
    assert_eq!(state.entry_point, "vs_main");
}

#[test]
fn fragment_state_defaults() {
    let module = 7u64;
    let surface_targets = [9u8];
    let state = FragmentStateBuilder::<u64, u8>::new(&module).build(&surface_targets);
    assert_eq!(state.entry_point, DEFAULT_FRAGMENT_ENTRY_POINT);
    assert_eq!(state.targets, &[9]);
    let own = [1u8, 2, 3];
    let other = 8u64;
    let state = FragmentStateBuilder::new(&module)
        .with_targets(&own)
        .with_entry_point("")
        .with_module(&other)
        .build(&surface_targets);
    assert_eq!(state.entry_point, "fs_main");
    assert_eq!(state.targets, &[1, 2, 3]);
    assert_eq!(*state.module, 8);
}

#[test]
fn pipeline_layout_builder() {
    let desc = PipelineLayoutBuilder::<u8, u16>::new().build();
    assert_eq!(desc.label, Some("Pipeline Layout Default Label"));
    assert!(desc.bind_group_layouts.is_empty());
    let layouts = [3u8, 4];
    let ranges = [5u16];
    let desc = PipelineLayoutBuilder::new()
        .with_label("")
        .with_bind_group_layouts(&layouts)
        .with_push_constant_ranges(&ranges)
        .build();
    assert_eq!(desc.label, None);
    assert_eq!(desc.bind_group_layouts, &[3, 4]);
    assert_eq!(desc.push_constant_ranges, &[5]);
}

#[test]
fn primitive_state_builder() {
    let p = PrimitiveStateBuilder::new().build();
    assert_eq!(p.topology, PrimitiveTopology::TriangleList);
    assert_eq!(p.front_face, FrontFace::Ccw);
    assert_eq!(p.cull_mode, Some(Face::Back));
    assert_eq!(p.polygon_mode, PolygonMode::Fill);
    let p = PrimitiveStateBuilder::new()
        .with_topology(PrimitiveTopology::LineStrip)
        .with_strip_index_format(IndexFormat::Uint16)
        .with_front_face(FrontFace::Cw)
        .with_cull_mode(Face::Front)
        .with_polygon_mode(PolygonMode::Line)
        .with_clamp_depth(true)
        .with_conservative(true)
        .build();
    assert_eq!(
        p,
        PrimitiveState {
            topology: PrimitiveTopology::LineStrip,
            strip_index_format: Some(IndexFormat::Uint16),
            front_face: FrontFace::Cw,
            cull_mode: Some(Face::Front),
            polygon_mode: PolygonMode::Line,
            clamp_depth: true,
            conservative: true,
        }
    );
}

#[test]
fn render_pipeline_builder_defaults() {
    let desc = RenderPipelineBuilder::<u8, &str, u16, u32>::new("vertex").build(99);
    assert_eq!(desc.label, None);
    assert!(desc.layout.is_none());
    assert_eq!(desc.vertex, "vertex");
    assert_eq!(desc.primitive, PrimitiveState::api_default());
    assert_eq!(desc.primitive.cull_mode, None);
    assert_eq!(desc.depth_stencil, Some(99));
    assert_eq!(desc.multisample, MultisampleState::single_sample());
    assert_eq!(desc.multisample.mask, u64::MAX);
    assert!(desc.fragment.is_none());
}

#[test]
fn render_pipeline_builder_settings() {
    let layout = 1u8;
    let desc = RenderPipelineBuilder::<u8, &str, u16, u32>::new("v")
        .with_label("Pipeline")
        .with_layout(&layout)
        .with_vertex("w")
        .with_primitive(PrimitiveStateBuilder::new().build())
        .with_depth_stencil(5)
        .with_multisample(MultisampleState { count: 4, mask: 1, alpha_to_coverage_enabled: true })
        .with_fragment(6)
        .build(99);
    assert_eq!(desc.label, Some("Pipeline"));
    assert_eq!(desc.layout, Some(&1));
    assert_eq!(desc.vertex, "w");
    assert_eq!(desc.primitive.cull_mode, Some(Face::Back));
    assert_eq!(desc.depth_stencil, Some(5));
    assert_eq!(desc.multisample.count, 4);
    assert_eq!(desc.fragment, Some(6));
}
