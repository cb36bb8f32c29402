//! Builders for the shader stages of a render pipeline: the shader module
//! descriptor, and the vertex and fragment states with their entry points.
//!
//! The builders are generic over the shader module, buffer layout and
//! colour target types of the graphics API, which they only pass through.

use vstd::prelude::*;

verus! {

/// The entry point the vertex stage uses unless told otherwise.
pub const DEFAULT_VERTEX_ENTRY_POINT: &'static str = "vs_main";

/// The entry point the fragment stage uses unless told otherwise.
pub const DEFAULT_FRAGMENT_ENTRY_POINT: &'static str = "fs_main";

/// The label a shader module gets unless told otherwise.
pub const DEFAULT_SHADER_LABEL: &'static str = "Render Pipeline Descriptor Default Label";

/// A label: none for the empty text, else the text.
pub open spec fn label_of(text: Seq<char>) -> Option<Seq<char>> {
    if text.len() == 0 {
        None
    } else {
        Some(text)
    }
}

/// The view of a label that may be absent.
pub open spec fn label_view(label: Option<&str>) -> Option<Seq<char>> {
    match label {
        Some(s) => Some(s@),
        None => None,
    }
}

/// An entry point: the default one for the empty text, else the text.
pub open spec fn entry_point_of(text: Seq<char>, default: Seq<char>) -> Seq<char> {
    if text.len() == 0 {
        default
    } else {
        text
    }
}

/// A label for the given text: none when it is empty.
pub fn label<'a>(text: &'a str) -> (r: Option<&'a str>)
    ensures
        label_view(r) == label_of(text@),
{
    if text.is_empty() {
        None
    } else {
        Some(text)
    }
}

/// What a shader module is created from: a label and the shader source.
pub struct ShaderModuleDescriptor<'a, S> {
    pub label: Option<&'a str>,
    pub source: S,
}

/// Builds the descriptor of a shader module.
pub struct ShaderModuleBuilder<'a, S> {
    label: Option<&'a str>,
    source: S,
}

impl<'a, S> ShaderModuleBuilder<'a, S> {
    /// A builder for the given source, with the default label.
    pub fn new(source: S) -> (r: Self)
        ensures
            label_view(r.label()) == Some(DEFAULT_SHADER_LABEL@),
            r.source() == source,
    {
        ShaderModuleBuilder { label: Some(DEFAULT_SHADER_LABEL), source }
    }

    /// The label set so far.
    pub closed spec fn label(&self) -> Option<&'a str> {
        self.label
    }

    /// The source set so far.
    pub closed spec fn source(&self) -> S {
        self.source
    }

    /// Set the label; an empty text removes it.
    pub fn with_label(self, label_text: &'a str) -> (r: Self)
        ensures
            label_view(r.label()) == label_of(label_text@),
            r.source() == self.source(),
    {
        ShaderModuleBuilder { label: label(label_text), source: self.source }
    }

    /// Set the shader source.
    pub fn with_source(self, source: S) -> (r: Self)
        ensures
            r.label() == self.label(),
            r.source() == source,
    {
        ShaderModuleBuilder { label: self.label, source }
    }

    /// The descriptor of the shader module.
    pub fn build(self) -> (r: ShaderModuleDescriptor<'a, S>)
        ensures
            r.label == self.label(),
            r.source == self.source(),
    {
        ShaderModuleDescriptor { label: self.label, source: self.source }
    }
}

/// The vertex stage of a pipeline: its module, entry point and the layouts
/// of its vertex buffers.
pub struct VertexState<'a, M, B> {
    pub module: &'a M,
    pub entry_point: &'a str,
    pub buffers: &'a [B],
}

/// Builds the vertex stage of a pipeline.
pub struct VertexStateBuilder<'a, M, B> {
    module: &'a M,
    entry_point: Option<&'a str>,
    buffers: Option<&'a [B]>,
}

impl<'a, M, B> VertexStateBuilder<'a, M, B> {
    /// The module set so far.
    pub closed spec fn module(&self) -> &'a M {
        self.module
    }

    /// The entry point set so far, if any.
    pub closed spec fn entry_point(&self) -> Option<&'a str> {
        self.entry_point
    }

    /// The buffer layouts set so far, if any.
    pub closed spec fn buffers(&self) -> Option<&'a [B]> {
        self.buffers
    }

    /// A builder for the given module, with no entry point nor buffers yet.
    pub fn new(module: &'a M) -> (r: Self)
        ensures
            r.module() == module,
            r.entry_point() is None,
            r.buffers() is None,
    {
        VertexStateBuilder { module, entry_point: None, buffers: None }
    }

    /// Set the module.
    pub fn with_module(self, module: &'a M) -> (r: Self)
        ensures
            r.module() == module,
            r.entry_point() == self.entry_point(),
            r.buffers() == self.buffers(),
    {
        VertexStateBuilder { module, entry_point: self.entry_point, buffers: self.buffers }
    }

    /// Set the entry point; an empty text sets the default one instead.
    pub fn with_entry_point(self, entry_point: &'a str) -> (r: Self)
        ensures
            r.module() == self.module(),
            r.entry_point() matches Some(e) && e@ == entry_point_of(
                entry_point@,
                DEFAULT_VERTEX_ENTRY_POINT@,
            ),
            r.buffers() == self.buffers(),
    {
        let e: &'a str = if entry_point.is_empty() {
            DEFAULT_VERTEX_ENTRY_POINT
        } else {
            entry_point
        };
        VertexStateBuilder { module: self.module, entry_point: Some(e), buffers: self.buffers }
    }

    /// Set the layouts of the vertex buffers.
    pub fn with_buffers(self, buffers: &'a [B]) -> (r: Self)
        ensures
            r.module() == self.module(),
            r.entry_point() == self.entry_point(),
            r.buffers() == Some(buffers),
    {
        VertexStateBuilder { module: self.module, entry_point: self.entry_point, buffers: Some(buffers) }
    }

    /// The vertex stage: the default entry point when none was set, and no
    /// buffers when none were set.
    pub fn build(self) -> (r: VertexState<'a, M, B>)
        ensures
            r.module == self.module(),
            r.entry_point@ == match self.entry_point() {
                Some(e) => e@,
                None => DEFAULT_VERTEX_ENTRY_POINT@,
            },
            r.buffers@ == match self.buffers() {
                Some(b) => b@,
                None => Seq::<B>::empty(),
            },
    {
        let entry_point: &'a str = match self.entry_point {
            Some(e) => e,
            None => DEFAULT_VERTEX_ENTRY_POINT,
        };
        let buffers: &'a [B] = match self.buffers {
            Some(b) => b,
            None => &[],
        };
        VertexState { module: self.module, entry_point, buffers }
    }
}

/// The fragment stage of a pipeline: its module, entry point and the
/// colour targets it writes.
pub struct FragmentState<'a, M, T> {
    pub module: &'a M,
    pub entry_point: &'a str,
    pub targets: &'a [T],
}

/// Builds the fragment stage of a pipeline.
pub struct FragmentStateBuilder<'a, M, T> {
    module: &'a M,
    entry_point: Option<&'a str>,
    targets: Option<&'a [T]>,
}

impl<'a, M, T> FragmentStateBuilder<'a, M, T> {
    /// The module set so far.
    pub closed spec fn module(&self) -> &'a M {
        self.module
    }

    /// The entry point set so far, if any.
    pub closed spec fn entry_point(&self) -> Option<&'a str> {
        self.entry_point
    }

    /// The colour targets set so far, if any.
    pub closed spec fn targets(&self) -> Option<&'a [T]> {
        self.targets
    }

    /// A builder for the given module, with no entry point nor targets yet.
    pub fn new(module: &'a M) -> (r: Self)
        ensures
            r.module() == module,
            r.entry_point() is None,
            r.targets() is None,
    {
        FragmentStateBuilder { module, entry_point: None, targets: None }
    }

    /// Set the module.
    pub fn with_module(self, module: &'a M) -> (r: Self)
        ensures
            r.module() == module,
            r.entry_point() == self.entry_point(),
            r.targets() == self.targets(),
    {
        FragmentStateBuilder { module, entry_point: self.entry_point, targets: self.targets }
    }

    /// Set the entry point; an empty text sets the default one instead.
    pub fn with_entry_point(self, entry_point: &'a str) -> (r: Self)
        ensures
            r.module() == self.module(),
            r.entry_point() matches Some(e) && e@ == entry_point_of(
                entry_point@,
                DEFAULT_FRAGMENT_ENTRY_POINT@,
            ),
            r.targets() == self.targets(),
    {
        let e: &'a str = if entry_point.is_empty() {
            DEFAULT_FRAGMENT_ENTRY_POINT
        } else {
            entry_point
        };
        FragmentStateBuilder { module: self.module, entry_point: Some(e), targets: self.targets }
    }

    /// Set the colour targets.
    pub fn with_targets(self, targets: &'a [T]) -> (r: Self)
        ensures
            r.module() == self.module(),
            r.entry_point() == self.entry_point(),
            r.targets() == Some(targets),
    {
        FragmentStateBuilder { module: self.module, entry_point: self.entry_point, targets: Some(targets) }
    }

    /// The fragment stage: the default entry point when none was set, and
    /// the given default targets (those of the surface) when none were set.
    pub fn build(self, default_targets: &'a [T]) -> (r: FragmentState<'a, M, T>)
        ensures
            r.module == self.module(),
            r.entry_point@ == match self.entry_point() {
                Some(e) => e@,
                None => DEFAULT_FRAGMENT_ENTRY_POINT@,
            },
            r.targets@ == match self.targets() {
                Some(t) => t@,
                None => default_targets@,
            },
    {
        let entry_point: &'a str = match self.entry_point {
            Some(e) => e,
            None => DEFAULT_FRAGMENT_ENTRY_POINT,
        };
        let targets: &'a [T] = match self.targets {
            Some(t) => t,
            None => default_targets,
        };
        FragmentState { module: self.module, entry_point, targets }
    }
}

} // verus!
