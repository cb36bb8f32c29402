use irid::config::PhysicalSize;
use irid::render::{
    instance_offsets, pipeline_bind_group_layouts, render_pass_commands, renderer_resources,
    BindGroupKind, BufferKind, InstanceOffset, RenderCommand, RenderResources, SurfaceSize,
    NUM_INSTANCES_PER_ROW,
};

#[test]
fn layouts_put_texture_before_camera() {
    assert_eq!(pipeline_bind_group_layouts(true, true), vec![BindGroupKind::Texture, BindGroupKind::Camera]);
    assert_eq!(pipeline_bind_group_layouts(true, false), vec![BindGroupKind::Texture]);
    assert_eq!(pipeline_bind_group_layouts(false, true), vec![BindGroupKind::Camera]);
    assert!(pipeline_bind_group_layouts(false, false).is_empty());
}

#[test]
fn full_render_pass() {
    let res = renderer_resources(true, true, true, true, Some(9));
    assert_eq!(res.instance_count, Some(100));
    assert_eq!(res.index_count, Some(9));
    let cmds = render_pass_commands(&res);
    assert_eq!(
        cmds,
        vec![
            RenderCommand::SetPipeline,
            RenderCommand::SetBindGroup { index: 0, group: BindGroupKind::Texture },
            RenderCommand::SetBindGroup { index: 1, group: BindGroupKind::Camera },
            RenderCommand::SetVertexBuffer { slot: 0, buffer: BufferKind::Vertices },
            RenderCommand::SetVertexBuffer { slot: 1, buffer: BufferKind::Instances },
            RenderCommand::SetIndexBuffer,
            RenderCommand::DrawIndexed { index_count: 9, instance_count: 100 },
        ]
    );
}

#[test]
fn camera_only_pass_binds_camera_first() {
    let res = renderer_resources(true, false, true, false, None);
    let cmds = render_pass_commands(&res);
    assert_eq!(
        cmds,
        vec![
            RenderCommand::SetPipeline,
            RenderCommand::SetBindGroup { index: 0, group: BindGroupKind::Camera },
            RenderCommand::Draw { vertex_count: 3, instance_count: 1 },
        ]
    );
}

#[test]
fn no_pipeline_no_commands() {
    let res = renderer_resources(false, true, true, true, Some(3));
    assert!(render_pass_commands(&res).is_empty());
}

#[test]
fn plain_triangle_pass() {
    let res = RenderResources {
        has_pipeline: true,
        has_texture: false,
        has_camera: false,
        has_vertex_buffer: false,
        instance_count: None,
        index_count: None,
    };
    assert_eq!(
        render_pass_commands(&res),
        vec![RenderCommand::SetPipeline, RenderCommand::Draw { vertex_count: 3, instance_count: 1 }]
    );
}

#[test]
fn instance_grid_of_ten() {
    let grid = instance_offsets(NUM_INSTANCES_PER_ROW);
    assert_eq!(grid.len(), 100);
    assert_eq!(grid[0], InstanceOffset { x2: -10, z2: -10 });
    assert_eq!(grid[9], InstanceOffset { x2: 8, z2: -10 });
    assert_eq!(grid[10], InstanceOffset { x2: -10, z2: -8 });
    assert!(grid[55].is_origin());
    assert_eq!(grid.iter().filter(|o| o.is_origin()).count(), 1);
}

#[test]
fn odd_grid_has_no_origin() {
    let grid = instance_offsets(3);
    assert_eq!(grid.len(), 9);
    assert_eq!(grid[4], InstanceOffset { x2: -1, z2: -1 });
    assert!(grid.iter().all(|o| !o.is_origin()));
    assert!(instance_offsets(0).is_empty());
}

#[test]
fn surface_ignores_zero_sizes() {
    let mut s = SurfaceSize::new(PhysicalSize { width: 800, height: 600 });
    assert!(!s.resize(PhysicalSize { width: 0, height: 600 }));
    assert_eq!(s.get_size(), PhysicalSize { width: 0, height: 600 });
    assert_eq!(s.configured_size(), PhysicalSize { width: 800, height: 600 });
    assert!(s.resize(PhysicalSize { width: 1024, height: 768 }));
    assert_eq!(s.configured_size(), PhysicalSize { width: 1024, height: 768 });
    s.resize(PhysicalSize { width: 0, height: 0 });
    s.refresh_current_size();
    assert_eq!(s.configured_size(), PhysicalSize { width: 0, height: 0 });
}

#[test]
fn index_count_truncates_like_a_cast() {
    let res = renderer_resources(true, false, false, true, Some(3));
    assert_eq!(res.index_count, Some(3));
    assert_eq!(renderer_resources(true, false, false, false, None).index_count, None);
}
