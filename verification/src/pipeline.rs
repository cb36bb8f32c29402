//! Builders for a render pipeline: its layout, its primitive state and the
//! pipeline descriptor itself.
//!
//! The builders are generic over the graphics API's layout, stage and
//! depth-stencil types, which they only pass through.

use vstd::prelude::*;
use crate::shader::{label, label_of, label_view};

verus! {

/// The label a pipeline layout gets unless told otherwise.
pub const DEFAULT_PIPELINE_LAYOUT_LABEL: &'static str = "Pipeline Layout Default Label";

/// What a pipeline layout is created from.
pub struct PipelineLayoutDescriptor<'a, L, P> {
    pub label: Option<&'a str>,
    pub bind_group_layouts: &'a [L],
    pub push_constant_ranges: &'a [P],
}

/// Builds the descriptor of a pipeline layout.
pub struct PipelineLayoutBuilder<'a, L, P> {
    desc: PipelineLayoutDescriptor<'a, L, P>,
}

impl<'a, L, P> PipelineLayoutBuilder<'a, L, P> {
    /// The descriptor built so far.
    pub closed spec fn desc(&self) -> PipelineLayoutDescriptor<'a, L, P> {
        self.desc
    }

    /// A builder with the default label, no bind group layouts and no push
    /// constant ranges.
    pub fn new() -> (r: Self)
        ensures
            label_view(r.desc().label) == Some(DEFAULT_PIPELINE_LAYOUT_LABEL@),
            r.desc().bind_group_layouts@.len() == 0,
            r.desc().push_constant_ranges@.len() == 0,
    {
        PipelineLayoutBuilder {
            desc: PipelineLayoutDescriptor {
                label: Some(DEFAULT_PIPELINE_LAYOUT_LABEL),
                bind_group_layouts: &[],
                push_constant_ranges: &[],
            },
        }
    }

    /// Set the label; an empty text removes it.
    pub fn with_label(self, label_text: &'a str) -> (r: Self)
        ensures
            label_view(r.desc().label) == label_of(label_text@),
            r.desc().bind_group_layouts == self.desc().bind_group_layouts,
            r.desc().push_constant_ranges == self.desc().push_constant_ranges,
    {
        PipelineLayoutBuilder {
            desc: PipelineLayoutDescriptor {
                label: label(label_text),
                bind_group_layouts: self.desc.bind_group_layouts,
                push_constant_ranges: self.desc.push_constant_ranges,
            },
        }
    }

    /// Set the bind group layouts, in binding order.
    pub fn with_bind_group_layouts(self, bind_group_layouts: &'a [L]) -> (r: Self)
        ensures
            r.desc().label == self.desc().label,
            r.desc().bind_group_layouts == bind_group_layouts,
            r.desc().push_constant_ranges == self.desc().push_constant_ranges,
    {
        PipelineLayoutBuilder {
            desc: PipelineLayoutDescriptor {
                label: self.desc.label,
                bind_group_layouts,
                push_constant_ranges: self.desc.push_constant_ranges,
            },
        }
    }

    /// Set the push constant ranges.
    pub fn with_push_constant_ranges(self, push_constant_ranges: &'a [P]) -> (r: Self)
        ensures
            r.desc().label == self.desc().label,
            r.desc().bind_group_layouts == self.desc().bind_group_layouts,
            r.desc().push_constant_ranges == push_constant_ranges,
    {
        PipelineLayoutBuilder {
            desc: PipelineLayoutDescriptor {
                label: self.desc.label,
                bind_group_layouts: self.desc.bind_group_layouts,
                push_constant_ranges,
            },
        }
    }

    /// The descriptor of the pipeline layout.
    pub fn build(self) -> (r: PipelineLayoutDescriptor<'a, L, P>)
        ensures
            r == self.desc(),
    {
        self.desc
    }
}

/// How vertices are assembled into primitives.
#[derive(Clone, Copy, Debug, PartialEq, Eq, Structural)]
pub enum PrimitiveTopology {
    PointList,
    LineList,
    LineStrip,
    TriangleList,
    TriangleStrip,
}

/// The integer type of an index buffer.
#[derive(Clone, Copy, Debug, PartialEq, Eq, Structural)]
pub enum IndexFormat {
    Uint16,
    Uint32,
}

/// Which winding makes a triangle face front.
#[derive(Clone, Copy, Debug, PartialEq, Eq, Structural)]
pub enum FrontFace {
    Ccw,
    Cw,
}

/// A side of a triangle.
#[derive(Clone, Copy, Debug, PartialEq, Eq, Structural)]
pub enum Face {
    Front,
    Back,
}

/// How triangles are rasterized.
#[derive(Clone, Copy, Debug, PartialEq, Eq, Structural)]
pub enum PolygonMode {
    Fill,
    Line,
    Point,
}

/// How primitives are assembled and rasterized.
#[derive(Clone, Copy, Debug, PartialEq, Eq, Structural)]
pub struct PrimitiveState {
    pub topology: PrimitiveTopology,
    pub strip_index_format: Option<IndexFormat>,
    pub front_face: FrontFace,
    pub cull_mode: Option<Face>,
    pub polygon_mode: PolygonMode,
    pub clamp_depth: bool,
    pub conservative: bool,
}

/// The primitive state of the graphics API's own default: triangle lists,
/// counter-clockwise front faces, no culling, filled polygons.
pub open spec fn api_default_primitive_state() -> PrimitiveState {
    PrimitiveState {
        topology: PrimitiveTopology::TriangleList,
        strip_index_format: None,
        front_face: FrontFace::Ccw,
        cull_mode: None,
        polygon_mode: PolygonMode::Fill,
        clamp_depth: false,
        conservative: false,
    }
}

/// The primitive state a [`PrimitiveStateBuilder`] starts from: as the
/// API's default, but with back faces culled.
pub open spec fn builder_primitive_state() -> PrimitiveState {
    PrimitiveState { cull_mode: Some(Face::Back), ..api_default_primitive_state() }
}

impl PrimitiveState {
    /// The graphics API's default primitive state.
    pub fn api_default() -> (r: Self)
        ensures
            r == api_default_primitive_state(),
    {
        PrimitiveState {
            topology: PrimitiveTopology::TriangleList,
            strip_index_format: None,
            front_face: FrontFace::Ccw,
            cull_mode: None,
            polygon_mode: PolygonMode::Fill,
            clamp_depth: false,
            conservative: false,
        }
    }
}

/// Builds a primitive state.
pub struct PrimitiveStateBuilder {
    primitive_state: PrimitiveState,
}

impl View for PrimitiveStateBuilder {
    type V = PrimitiveState;

    closed spec fn view(&self) -> PrimitiveState {
        self.primitive_state
    }
}

impl PrimitiveStateBuilder {
    /// A builder for counter-clockwise filled triangle lists with back
    /// faces culled.
    pub fn new() -> (r: Self)
        ensures
            r@ == builder_primitive_state(),
    {
        PrimitiveStateBuilder {
            primitive_state: PrimitiveState {
                topology: PrimitiveTopology::TriangleList,
                strip_index_format: None,
                front_face: FrontFace::Ccw,
                cull_mode: Some(Face::Back),
                polygon_mode: PolygonMode::Fill,
                clamp_depth: false,
                conservative: false,
            },
        }
    }

    /// Set the topology.
    pub fn with_topology(self, topology: PrimitiveTopology) -> (r: Self)
        ensures
            r@ == (PrimitiveState { topology, ..self@ }),
    {
        PrimitiveStateBuilder { primitive_state: PrimitiveState { topology, ..self.primitive_state } }
    }

    /// Set the index format of strips.
    pub fn with_strip_index_format(self, strip_index_format: IndexFormat) -> (r: Self)
        ensures
            r@ == (PrimitiveState { strip_index_format: Some(strip_index_format), ..self@ }),
    {
        PrimitiveStateBuilder {
            primitive_state: PrimitiveState {
                strip_index_format: Some(strip_index_format),
                ..self.primitive_state
            },
        }
    }

    /// Set which winding faces front.
    pub fn with_front_face(self, front_face: FrontFace) -> (r: Self)
        ensures
            r@ == (PrimitiveState { front_face, ..self@ }),
    {
        PrimitiveStateBuilder { primitive_state: PrimitiveState { front_face, ..self.primitive_state } }
    }

    /// Set which faces are culled.
    pub fn with_cull_mode(self, cull_mode: Face) -> (r: Self)
        ensures
            r@ == (PrimitiveState { cull_mode: Some(cull_mode), ..self@ }),
    {
        PrimitiveStateBuilder {
            primitive_state: PrimitiveState { cull_mode: Some(cull_mode), ..self.primitive_state },
        }
    }

    /// Set how polygons are rasterized.
    pub fn with_polygon_mode(self, polygon_mode: PolygonMode) -> (r: Self)
        ensures
            r@ == (PrimitiveState { polygon_mode, ..self@ }),
    {
        PrimitiveStateBuilder { primitive_state: PrimitiveState { polygon_mode, ..self.primitive_state } }
    }

    /// Set whether depth is clamped instead of clipped.
    pub fn with_clamp_depth(self, clamp_depth: bool) -> (r: Self)
        ensures
            r@ == (PrimitiveState { clamp_depth, ..self@ }),
    {
        PrimitiveStateBuilder { primitive_state: PrimitiveState { clamp_depth, ..self.primitive_state } }
    }

    /// Set whether rasterization is conservative.
    pub fn with_conservative(self, conservative: bool) -> (r: Self)
        ensures
            r@ == (PrimitiveState { conservative, ..self@ }),
    {
        PrimitiveStateBuilder { primitive_state: PrimitiveState { conservative, ..self.primitive_state } }
    }

    /// The primitive state.
    pub fn build(self) -> (r: PrimitiveState)
        ensures
            r == self@,
    {
        self.primitive_state
    }
}

/// How many samples a pixel has and which are written.
#[derive(Clone, Copy, Debug, PartialEq, Eq, Structural)]
pub struct MultisampleState {
    pub count: u32,
    pub mask: u64,
    pub alpha_to_coverage_enabled: bool,
}

impl MultisampleState {
    /// One sample per pixel, all written, no alpha to coverage.
    pub fn single_sample() -> (r: Self)
        ensures
            r == (MultisampleState { count: 1, mask: u64::MAX, alpha_to_coverage_enabled: false }),
    {
        MultisampleState { count: 1, mask: u64::MAX, alpha_to_coverage_enabled: false }
    }
}

/// What a render pipeline is created from. `L` is the pipeline layout type,
/// `V` and `F` the vertex and fragment stages, `D` the depth-stencil state.
pub struct RenderPipelineDescriptor<'a, L, V, F, D> {
    pub label: Option<&'a str>,
    pub layout: Option<&'a L>,
    pub vertex: V,
    pub primitive: PrimitiveState,
    pub depth_stencil: Option<D>,
    pub multisample: MultisampleState,
    pub fragment: Option<F>,
}

/// Builds the descriptor of a render pipeline.
pub struct RenderPipelineBuilder<'a, L, V, F, D> {
    label: Option<&'a str>,
    layout: Option<&'a L>,
    vertex: V,
    primitive: Option<PrimitiveState>,
    depth_stencil: Option<D>,
    multisample: Option<MultisampleState>,
    fragment: Option<F>,
}

/// What a [`RenderPipelineBuilder`] holds: the values set so far.
pub struct RenderPipelineSettings<'a, L, V, F, D> {
    pub label: Option<&'a str>,
    pub layout: Option<&'a L>,
    pub vertex: V,
    pub primitive: Option<PrimitiveState>,
    pub depth_stencil: Option<D>,
    pub multisample: Option<MultisampleState>,
    pub fragment: Option<F>,
}

impl<'a, L, V, F, D> View for RenderPipelineBuilder<'a, L, V, F, D> {
    type V = RenderPipelineSettings<'a, L, V, F, D>;

    closed spec fn view(&self) -> RenderPipelineSettings<'a, L, V, F, D> {
        RenderPipelineSettings {
            label: self.label,
            layout: self.layout,
            vertex: self.vertex,
            primitive: self.primitive,
            depth_stencil: self.depth_stencil,
            multisample: self.multisample,
            fragment: self.fragment,
        }
    }
}

impl<'a, L, V, F, D> RenderPipelineBuilder<'a, L, V, F, D> {
    /// A builder for a pipeline with the given vertex stage and nothing
    /// else set.
    pub fn new(vertex: V) -> (r: Self)
        ensures
            r@ == (RenderPipelineSettings::<'a, L, V, F, D> {
                label: None,
                layout: None,
                vertex,
                primitive: None,
                depth_stencil: None,
                multisample: None,
                fragment: None,
            }),
    {
        RenderPipelineBuilder {
            label: None,
            layout: None,
            vertex,
            primitive: None,
            depth_stencil: None,
            multisample: None,
            fragment: None,
        }
    }

    /// Set the label; an empty text removes it.
    pub fn with_label(self, label_text: &'a str) -> (r: Self)
        ensures
            label_view(r@.label) == label_of(label_text@),
            r@.layout == self@.layout && r@.vertex == self@.vertex && r@.primitive
                == self@.primitive && r@.depth_stencil == self@.depth_stencil && r@.multisample
                == self@.multisample && r@.fragment == self@.fragment,
    {
        RenderPipelineBuilder { label: label(label_text), ..self }
    }

    /// Set the pipeline layout.
    pub fn with_layout(self, layout: &'a L) -> (r: Self)
        ensures
            r@ == (RenderPipelineSettings { layout: Some(layout), ..self@ }),
    {
        RenderPipelineBuilder { layout: Some(layout), ..self }
    }

    /// Set the vertex stage.
    pub fn with_vertex(self, vertex: V) -> (r: Self)
        ensures
            r@ == (RenderPipelineSettings { vertex, ..self@ }),
    {
        RenderPipelineBuilder { vertex, ..self }
    }

    /// Set the primitive state.
    pub fn with_primitive(self, primitive: PrimitiveState) -> (r: Self)
        ensures
            r@ == (RenderPipelineSettings { primitive: Some(primitive), ..self@ }),
    {
        RenderPipelineBuilder { primitive: Some(primitive), ..self }
    }

    /// Set the depth-stencil state.
    pub fn with_depth_stencil(self, depth_stencil: D) -> (r: Self)
        ensures
            r@ == (RenderPipelineSettings { depth_stencil: Some(depth_stencil), ..self@ }),
    {
        RenderPipelineBuilder { depth_stencil: Some(depth_stencil), ..self }
    }

    /// Set the multisample state.
    pub fn with_multisample(self, multisample: MultisampleState) -> (r: Self)
        ensures
            r@ == (RenderPipelineSettings { multisample: Some(multisample), ..self@ }),
    {
        RenderPipelineBuilder { multisample: Some(multisample), ..self }
    }

    /// Set the fragment stage.
    pub fn with_fragment(self, fragment: F) -> (r: Self)
        ensures
            r@ == (RenderPipelineSettings { fragment: Some(fragment), ..self@ }),
    {
        RenderPipelineBuilder { fragment: Some(fragment), ..self }
    }

    /// The descriptor of the pipeline. What was not set takes the graphics
    /// API's default; a depth test is always on, with `default_depth_stencil`
    /// when none was set.
    pub fn build(self, default_depth_stencil: D) -> (r: RenderPipelineDescriptor<'a, L, V, F, D>)
        ensures
            r.label == self@.label,
            r.layout == self@.layout,
            r.vertex == self@.vertex,
            r.primitive == match self@.primitive {
                Some(p) => p,
                None => api_default_primitive_state(),
            },
            r.depth_stencil == Some(
                match self@.depth_stencil {
                    Some(d) => d,
                    None => default_depth_stencil,
                },
            ),
            r.multisample == match self@.multisample {
                Some(m) => m,
                None => MultisampleState { count: 1, mask: u64::MAX, alpha_to_coverage_enabled: false },
            },
            r.fragment == self@.fragment,
    {
        let primitive = match self.primitive {
            Some(p) => p,
            None => PrimitiveState::api_default(),
        };
        let depth_stencil = match self.depth_stencil {
            Some(d) => d,
            None => default_depth_stencil,
        };
        let multisample = match self.multisample {
            Some(m) => m,
            None => MultisampleState::single_sample(),
        };
        RenderPipelineDescriptor {
            label: self.label,
            layout: self.layout,
            vertex: self.vertex,
            primitive,
            depth_stencil: Some(depth_stencil),
            multisample,
            fragment: self.fragment,
        }
    }
}

} // verus!
