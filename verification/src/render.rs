//! What the renderer does with the resources it was built with: the bind
//! group layouts of its pipeline, the commands of each render pass, the
//! grid of model instances, and when the surface is reconfigured.

use vstd::prelude::*;
use crate::config::PhysicalSize;

verus! {

/// Instances drawn per row (and rows drawn) when vertices are given.
pub const NUM_INSTANCES_PER_ROW: u32 = 10;

/// A kind of bind group the renderer uses.
#[derive(Clone, Copy, Debug, PartialEq, Eq, Structural)]
pub enum BindGroupKind {
    Texture,
    Camera,
}

/// A kind of vertex buffer the renderer binds.
#[derive(Clone, Copy, Debug, PartialEq, Eq, Structural)]
pub enum BufferKind {
    Vertices,
    Instances,
}

/// One command recorded into a render pass.
#[derive(Clone, Copy, Debug, PartialEq, Eq, Structural)]
pub enum RenderCommand {
    SetPipeline,
    SetBindGroup { index: u32, group: BindGroupKind },
    SetVertexBuffer { slot: u32, buffer: BufferKind },
    SetIndexBuffer,
    DrawIndexed { index_count: u32, instance_count: u32 },
    Draw { vertex_count: u32, instance_count: u32 },
}

/// The resources a renderer was built with.
#[derive(Clone, Copy, Debug, PartialEq, Eq, Structural)]
pub struct RenderResources {
    /// A render pipeline exists (a shader was given).
    pub has_pipeline: bool,
    /// Texture bind groups exist (a texture was given).
    pub has_texture: bool,
    /// A camera, and so a camera bind group, exists.
    pub has_camera: bool,
    /// A vertex buffer exists (vertices were given).
    pub has_vertex_buffer: bool,
    /// An instance buffer exists, holding this many instances.
    pub instance_count: Option<usize>,
    /// An index buffer exists, holding this many indices.
    pub index_count: Option<u32>,
}

/// The bind group layouts of the pipeline, in order: the texture's first
/// when there is one, then the camera's when there is one.
pub open spec fn bind_group_layout_order(has_texture: bool, has_camera: bool) -> Seq<
    BindGroupKind,
> {
    if has_texture {
        if has_camera {
            seq![BindGroupKind::Texture, BindGroupKind::Camera]
        } else {
            seq![BindGroupKind::Texture]
        }
    } else {
        if has_camera {
            seq![BindGroupKind::Camera]
        } else {
            seq![]
        }
    }
}

/// The bind group layouts of the render pipeline.
pub fn pipeline_bind_group_layouts(has_texture: bool, has_camera: bool) -> (r: Vec<BindGroupKind>)
    ensures
        r@ == bind_group_layout_order(has_texture, has_camera),
{
    let mut r: Vec<BindGroupKind> = Vec::new();
    if has_texture {
        r.push(BindGroupKind::Texture);
    }
    if has_camera {
        r.push(BindGroupKind::Camera);
    }
    proof {
        assert(r@ =~= bind_group_layout_order(has_texture, has_camera));
    }
    r
}

/// Binding the groups at the indices of their layouts.
pub open spec fn bind_commands(has_texture: bool, has_camera: bool) -> Seq<RenderCommand> {
    let order = bind_group_layout_order(has_texture, has_camera);
    Seq::new(order.len(), |i: int| RenderCommand::SetBindGroup { index: i as u32, group: order[i] })
}

/// The vertex buffers bound: vertices at slot 0, instances at slot 1.
pub open spec fn vertex_buffer_commands(res: RenderResources) -> Seq<RenderCommand> {
    (if res.has_vertex_buffer {
        seq![RenderCommand::SetVertexBuffer { slot: 0, buffer: BufferKind::Vertices }]
    } else {
        seq![]
    }) + (if res.instance_count is Some {
        seq![RenderCommand::SetVertexBuffer { slot: 1, buffer: BufferKind::Instances }]
    } else {
        seq![]
    })
}

/// The draw: indexed over every instance when there is an index buffer,
/// otherwise three vertices of one instance.
pub open spec fn draw_commands(res: RenderResources) -> Seq<RenderCommand> {
    match res.index_count {
        Some(n) => seq![
            RenderCommand::SetIndexBuffer,
            RenderCommand::DrawIndexed {
                index_count: n,
                instance_count: res.instance_count->0 as u32,
            },
        ],
        None => seq![RenderCommand::Draw { vertex_count: 3, instance_count: 1 }],
    }
}

/// The commands of one render pass: none without a pipeline; otherwise
/// the pipeline, the bind groups, the vertex buffers and the draw.
pub open spec fn pass_commands(res: RenderResources) -> Seq<RenderCommand> {
    if !res.has_pipeline {
        seq![]
    } else {
        seq![RenderCommand::SetPipeline] + bind_commands(res.has_texture, res.has_camera)
            + vertex_buffer_commands(res) + draw_commands(res)
    }
}

/// With an index buffer, a pass ends by setting it and drawing every index
/// over every instance of the instance buffer, whatever bind groups it has;
/// without one it ends with a plain draw of three vertices, once.
pub proof fn lemma_draw_covers_resources(res: RenderResources)
    requires
        res.has_pipeline,
    ensures
        pass_commands(res).len() >= 2,
        res.index_count is Some ==> pass_commands(res).last() == (RenderCommand::DrawIndexed {
            index_count: res.index_count->0,
            instance_count: res.instance_count->0 as u32,
        }) && pass_commands(res)[pass_commands(res).len() - 2] == RenderCommand::SetIndexBuffer,
        res.index_count is None ==> pass_commands(res).last() == (RenderCommand::Draw {
            vertex_count: 3,
            instance_count: 1,
        }),
{
    let b = bind_commands(res.has_texture, res.has_camera);
    let v = vertex_buffer_commands(res);
    let d = draw_commands(res);
    let cmds = pass_commands(res);
    assert(cmds == seq![RenderCommand::SetPipeline] + b + v + d);
    if res.index_count is Some {
        assert(cmds[cmds.len() - 2] == d[0]);
    }
}

/// A renderer built with vertices and indices draws all its indices over
/// the full grid of instances, with or without a texture or a camera.
pub proof fn lemma_built_renderer_draws_every_instance(
    has_texture: bool,
    has_camera: bool,
    index_len: usize,
)
    requires
        index_len <= u32::MAX,
    ensures
        pass_commands(built_resources(true, has_texture, has_camera, true, Some(index_len))).last()
            == (RenderCommand::DrawIndexed {
            index_count: index_len as u32,
            instance_count: (NUM_INSTANCES_PER_ROW * NUM_INSTANCES_PER_ROW) as u32,
        }),
{
    lemma_draw_covers_resources(
        built_resources(true, has_texture, has_camera, true, Some(index_len)),
    );
}

/// An indexed draw needs the instance count.
pub open spec fn drawable(res: RenderResources) -> bool {
    res.index_count is Some ==> res.instance_count is Some
}

/// The commands to record into a render pass, given the renderer's resources.
pub fn render_pass_commands(res: &RenderResources) -> (r: Vec<RenderCommand>)
    requires
        drawable(*res),
    ensures
        r@ == pass_commands(*res),
        res.has_pipeline && res.index_count is Some ==> r@.last() == (RenderCommand::DrawIndexed {
            index_count: res.index_count->0,
            instance_count: res.instance_count->0 as u32,
        }),
        res.has_pipeline && res.index_count is None ==> r@.last() == (RenderCommand::Draw {
            vertex_count: 3,
            instance_count: 1,
        }),
{
    let mut r: Vec<RenderCommand> = Vec::new();
    if !res.has_pipeline {
        proof {
            assert(r@ =~= pass_commands(*res));
        }
        return r;
    }
    r.push(RenderCommand::SetPipeline);
    let layouts = pipeline_bind_group_layouts(res.has_texture, res.has_camera);
    let mut i: usize = 0;
    while i < layouts.len()
        invariant
            0 <= i <= layouts@.len(),
            layouts@ == bind_group_layout_order(res.has_texture, res.has_camera),
            r@ =~= seq![RenderCommand::SetPipeline] + bind_commands(
                res.has_texture,
                res.has_camera,
            ).take(i as int),
        decreases layouts@.len() - i,
    {
        r.push(RenderCommand::SetBindGroup { index: i as u32, group: layouts[i] });
        proof {
            let b = bind_commands(res.has_texture, res.has_camera);
            assert(b.take(i + 1) =~= b.take(i as int).push(b[i as int]));
        }
        i = i + 1;
    }
    proof {
        let b = bind_commands(res.has_texture, res.has_camera);
        assert(b.take(layouts@.len() as int) =~= b);
    }
    let ghost before_buffers = r@;
    if res.has_vertex_buffer {
        r.push(RenderCommand::SetVertexBuffer { slot: 0, buffer: BufferKind::Vertices });
    }
    if res.instance_count.is_some() {
        r.push(RenderCommand::SetVertexBuffer { slot: 1, buffer: BufferKind::Instances });
    }
    proof {
        assert(r@ =~= before_buffers + vertex_buffer_commands(*res));
    }
    let ghost before_draw = r@;
    match res.index_count {
        Some(n) => {
            let instances: usize = match res.instance_count {
                Some(c) => c,
                None => 0,
            };
            r.push(RenderCommand::SetIndexBuffer);
            r.push(
                RenderCommand::DrawIndexed {
                    index_count: n,
                    instance_count: #[verifier::truncate] (instances as u32),
                },
            );
        },
        None => {
            r.push(RenderCommand::Draw { vertex_count: 3, instance_count: 1 });
        },
    }
    proof {
        assert(r@ =~= before_draw + draw_commands(*res));
        lemma_draw_covers_resources(*res);
    }
    r
}

/// The resources that building a renderer from these inputs creates: a
/// pipeline when a shader is given, texture bind groups when a texture is
/// given, a camera bind group when a camera is given, a vertex buffer and a
/// full grid of instances when vertices are given, and an index buffer
/// holding all the indices when indices are given.
pub open spec fn built_resources(
    has_shader: bool,
    has_texture: bool,
    has_camera: bool,
    has_vertices: bool,
    index_len: Option<usize>,
) -> RenderResources {
    RenderResources {
        has_pipeline: has_shader,
        has_texture,
        has_camera,
        has_vertex_buffer: has_vertices,
        instance_count: if has_vertices {
            Some((NUM_INSTANCES_PER_ROW * NUM_INSTANCES_PER_ROW) as usize)
        } else {
            None
        },
        index_count: match index_len {
            Some(n) => Some(n as u32),
            None => None,
        },
    }
}

/// The resources a renderer gets from what its configuration holds.
/// `index_len` is the number of indices given, if any; the index count
/// is that number as a `u32`.
pub fn renderer_resources(
    has_shader: bool,
    has_texture: bool,
    has_camera: bool,
    has_vertices: bool,
    index_len: Option<usize>,
) -> (r: RenderResources)
    ensures
        r == built_resources(has_shader, has_texture, has_camera, has_vertices, index_len),
{
    let per_row: usize = NUM_INSTANCES_PER_ROW as usize;
    RenderResources {
        has_pipeline: has_shader,
        has_texture,
        has_camera,
        has_vertex_buffer: has_vertices,
        instance_count: if has_vertices {
            Some(per_row * per_row)
        } else {
            None
        },
        index_count: match index_len {
            Some(n) => Some(#[verifier::truncate] (n as u32)),
            None => None,
        },
    }
}

/// The command at position `k` of the pass, if it sets a bind group, sets
/// it at the index its layout has in the pipeline.
pub open spec fn bind_matches_layout_at(res: RenderResources, k: int) -> bool {
    let order = bind_group_layout_order(res.has_texture, res.has_camera);
    match pass_commands(res)[k] {
        RenderCommand::SetBindGroup { index, group } => index < order.len() && order[index as int]
            == group,
        _ => true,
    }
}

/// Every layout of the pipeline gets its group, right after the pipeline.
pub open spec fn every_layout_bound(res: RenderResources) -> bool {
    let order = bind_group_layout_order(res.has_texture, res.has_camera);
    forall|i: int|
        0 <= i < order.len() ==> #[trigger] pass_commands(res)[1 + i]
            == (RenderCommand::SetBindGroup { index: i as u32, group: order[i] })
}

/// Whether a command draws.
pub open spec fn is_draw(c: RenderCommand) -> bool {
    c is DrawIndexed || c is Draw
}

/// The pass ends with its only draw, indexed exactly when there is an
/// index buffer.
pub open spec fn ends_with_single_draw(res: RenderResources) -> bool {
    let cmds = pass_commands(res);
    &&& cmds.len() > 0
    &&& is_draw(cmds.last())
    &&& (cmds.last() is DrawIndexed <==> res.index_count is Some)
    &&& forall|k: int| 0 <= k < cmds.len() - 1 ==> !is_draw(#[trigger] cmds[k])
}

/// Every bind group a render pass sets is set at the index its layout has
/// in the pipeline, and every layout of the pipeline gets its group.
pub proof fn lemma_pass_binds_match_pipeline(res: RenderResources, k: int)
    requires
        res.has_pipeline,
        0 <= k < pass_commands(res).len(),
    ensures
        bind_matches_layout_at(res, k),
        every_layout_bound(res),
{
    let order = bind_group_layout_order(res.has_texture, res.has_camera);
    let b = bind_commands(res.has_texture, res.has_camera);
    let v = vertex_buffer_commands(res);
    let d = draw_commands(res);
    let all = seq![RenderCommand::SetPipeline] + b + v + d;
    assert(pass_commands(res) == all);
    assert(order.len() <= 2);
    assert forall|i: int| 0 <= i < order.len() implies #[trigger] all[1 + i] == b[i] by {}
    if k >= 1 + b.len() {
        assert(all[k] == (v + d)[k - 1 - b.len()]);
        assert(!((v + d)[k - 1 - b.len()] is SetBindGroup));
    }
}

/// A render pass with a pipeline ends with exactly one draw, which is
/// indexed exactly when there is an index buffer.
pub proof fn lemma_pass_ends_with_one_draw(res: RenderResources)
    requires
        res.has_pipeline,
    ensures
        ends_with_single_draw(res),
{
    let b = bind_commands(res.has_texture, res.has_camera);
    let v = vertex_buffer_commands(res);
    let d = draw_commands(res);
    let cmds = pass_commands(res);
    assert(cmds == seq![RenderCommand::SetPipeline] + b + v + d);
    assert forall|k: int| 0 <= k < cmds.len() - 1 implies !is_draw(#[trigger] cmds[k]) by {
        if k >= 1 + b.len() + v.len() {
            assert(cmds[k] == d[k - 1 - b.len() - v.len()]);
        } else if k >= 1 + b.len() {
            assert(cmds[k] == v[k - 1 - b.len()]);
        } else if k >= 1 {
            assert(cmds[k] == b[k - 1]);
        }
    }
}

/// Where an instance of the grid sits, in half units on the ground plane:
/// the instance at column `x` and row `z` of an `n` by `n` grid is at
/// `(x - n/2, 0, z - n/2)`, so `x2 == 2x - n` and `z2 == 2z - n`.
#[derive(Clone, Copy, Debug, PartialEq, Eq, Structural)]
pub struct InstanceOffset {
    pub x2: i64,
    pub z2: i64,
}

/// The offset of the instance at column `x`, row `z` of an `n` by `n` grid.
pub open spec fn grid_offset(n: u32, x: int, z: int) -> InstanceOffset {
    InstanceOffset { x2: (2 * x - n) as i64, z2: (2 * z - n) as i64 }
}

impl InstanceOffset {
    /// Whether the instance sits at the origin; such an instance gets no
    /// rotation axis of its own.
    pub fn is_origin(&self) -> (r: bool)
        ensures
            r == (self.x2 == 0 && self.z2 == 0),
    {
        self.x2 == 0 && self.z2 == 0
    }
}

/// The instances of an `per_row` by `per_row` grid, row by row: the one at
/// column `x`, row `z` comes at position `z * per_row + x`.
pub fn instance_offsets(per_row: u32) -> (r: Vec<InstanceOffset>)
    requires
        per_row <= 0xffff,
    ensures
        r@.len() == per_row * per_row,
        forall|x: int, z: int|
            0 <= x < per_row && 0 <= z < per_row ==> #[trigger] r@[z * per_row + x]
                == grid_offset(per_row, x, z),
{
    let n: u32 = per_row;
    let mut r: Vec<InstanceOffset> = Vec::new();
    let mut z: u32 = 0;
    while z < n
        invariant
            n == per_row,
            n <= 0xffff,
            0 <= z <= n,
            r@.len() == z * n,
            forall|xx: int, zz: int|
                0 <= xx < n && 0 <= zz < z ==> #[trigger] r@[zz * n + xx] == grid_offset(n, xx, zz),
        decreases n - z,
    {
        let mut x: u32 = 0;
        while x < n
            invariant
                n == per_row,
                n <= 0xffff,
                0 <= z < n,
                0 <= x <= n,
                r@.len() == z * n + x,
                forall|xx: int, zz: int|
                    0 <= xx < n && 0 <= zz < z ==> #[trigger] r@[zz * n + xx] == grid_offset(
                        n,
                        xx,
                        zz,
                    ),
                forall|xx: int| 0 <= xx < x ==> #[trigger] r@[z * n + xx] == grid_offset(n, xx, z as int),
            decreases n - x,
        {
            let x2: i64 = 2 * (x as i64) - (n as i64);
            let z2: i64 = 2 * (z as i64) - (n as i64);
            proof {
                assert(z * n + x < n * n) by (nonlinear_arith)
                    requires
                        z < n,
                        x < n,
                ;
            }
            r.push(InstanceOffset { x2, z2 });
            proof {
                assert forall|xx: int, zz: int|
                    0 <= xx < n && 0 <= zz < z implies #[trigger] r@[zz * n + xx] == grid_offset(
                    n,
                    xx,
                    zz,
                ) by {
                    assert(zz * n + xx < z * n) by (nonlinear_arith)
                        requires
                            zz < z,
                            xx < n,
                            0 <= xx,
                    ;
                }
            }
            x = x + 1;
        }
        proof {
            assert((z + 1) * n == z * n + n) by (nonlinear_arith);
            assert forall|xx: int, zz: int|
                0 <= xx < n && 0 <= zz < z + 1 implies #[trigger] r@[zz * n + xx] == grid_offset(
                n,
                xx,
                zz,
            ) by {
                if zz == z {
                    assert(r@[z * n + xx] == grid_offset(n, xx, z as int));
                }
            }
        }
        z = z + 1;
    }
    r
}

/// Tracks the window size and the size the surface was last configured
/// with. A resize to a size with a zero side leaves the surface as it was.
#[derive(Debug)]
pub struct SurfaceSize {
    window_size: PhysicalSize,
    configured_size: PhysicalSize,
}

/// What a [`SurfaceSize`] holds.
pub struct SurfaceSizeModel {
    pub window_size: PhysicalSize,
    pub configured_size: PhysicalSize,
}

impl View for SurfaceSize {
    type V = SurfaceSizeModel;

    closed spec fn view(&self) -> SurfaceSizeModel {
        SurfaceSizeModel { window_size: self.window_size, configured_size: self.configured_size }
    }
}

/// Whether a size has no zero side.
pub open spec fn is_drawable_size(s: PhysicalSize) -> bool {
    s.width > 0 && s.height > 0
}

impl SurfaceSize {
    /// A surface configured with the window's size.
    pub fn new(window_size: PhysicalSize) -> (r: Self)
        ensures
            r@.window_size == window_size,
            r@.configured_size == window_size,
    {
        SurfaceSize { window_size, configured_size: window_size }
    }

    /// The window's physical size.
    pub fn get_size(&self) -> (r: PhysicalSize)
        ensures
            r == self@.window_size,
    {
        self.window_size
    }

    /// The size the surface is configured with.
    pub fn configured_size(&self) -> (r: PhysicalSize)
        ensures
            r == self@.configured_size,
    {
        self.configured_size
    }

    /// The window was resized. The new size is remembered; when neither side
    /// is zero the surface (and the depth texture) must be recreated with it,
    /// and the result is true.
    pub fn resize(&mut self, new_size: PhysicalSize) -> (r: bool)
        ensures
            r == is_drawable_size(new_size),
            final(self)@.window_size == new_size,
            final(self)@.configured_size == (if r {
                new_size
            } else {
                old(self)@.configured_size
            }),
    {
        self.window_size = new_size;
        if new_size.width > 0 && new_size.height > 0 {
            self.configured_size = new_size;
            true
        } else {
            false
        }
    }

    /// Reconfigure the surface with the current window size (after the
    /// surface was lost).
    pub fn refresh_current_size(&mut self)
        ensures
            final(self)@.window_size == old(self)@.window_size,
            final(self)@.configured_size == old(self)@.window_size,
    {
        self.configured_size = self.window_size;
    }
}

} // verus!
