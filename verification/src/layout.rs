//! Vertex buffer layouts: how the attributes of one vertex (or one
//! instance) are packed one after another in a GPU buffer.

use vstd::prelude::*;

verus! {

/// The format of one vertex attribute, as the GPU reads it.
#[derive(Clone, Copy, Debug, PartialEq, Eq, Structural)]
pub enum VertexFormat {
    Uint8x2,
    Uint8x4,
    Sint8x2,
    Sint8x4,
    Unorm8x2,
    Unorm8x4,
    Snorm8x2,
    Snorm8x4,
    Uint16x2,
    Uint16x4,
    Sint16x2,
    Sint16x4,
    Unorm16x2,
    Unorm16x4,
    Snorm16x2,
    Snorm16x4,
    Float16x2,
    Float16x4,
    Float32,
    Float32x2,
    Float32x3,
    Float32x4,
    Uint32,
    Uint32x2,
    Uint32x3,
    Uint32x4,
    Sint32,
    Sint32x2,
    Sint32x3,
    Sint32x4,
    Float64,
    Float64x2,
    Float64x3,
    Float64x4,
}

/// Byte size of an attribute of the given format.
pub open spec fn format_size(f: VertexFormat) -> nat {
    match f {
        VertexFormat::Uint8x2 | VertexFormat::Sint8x2 | VertexFormat::Unorm8x2
        | VertexFormat::Snorm8x2 => 2,
        VertexFormat::Uint8x4 | VertexFormat::Sint8x4 | VertexFormat::Unorm8x4
        | VertexFormat::Snorm8x4 | VertexFormat::Uint16x2 | VertexFormat::Sint16x2
        | VertexFormat::Unorm16x2 | VertexFormat::Snorm16x2 | VertexFormat::Float16x2
        | VertexFormat::Float32 | VertexFormat::Uint32 | VertexFormat::Sint32 => 4,
        VertexFormat::Uint16x4 | VertexFormat::Sint16x4 | VertexFormat::Unorm16x4
        | VertexFormat::Snorm16x4 | VertexFormat::Float16x4 | VertexFormat::Float32x2
        | VertexFormat::Uint32x2 | VertexFormat::Sint32x2 | VertexFormat::Float64 => 8,
        VertexFormat::Float32x3 | VertexFormat::Uint32x3 | VertexFormat::Sint32x3 => 12,
        VertexFormat::Float32x4 | VertexFormat::Uint32x4 | VertexFormat::Sint32x4
        | VertexFormat::Float64x2 => 16,
        VertexFormat::Float64x3 => 24,
        VertexFormat::Float64x4 => 32,
    }
}

impl VertexFormat {
    /// Returns the byte size of the format.
    pub fn size(&self) -> (r: u64)
        ensures
            r == format_size(*self),
            2 <= r <= 32,
    {
        match self {
            VertexFormat::Uint8x2 | VertexFormat::Sint8x2 | VertexFormat::Unorm8x2
            | VertexFormat::Snorm8x2 => 2,
            VertexFormat::Uint8x4 | VertexFormat::Sint8x4 | VertexFormat::Unorm8x4
            | VertexFormat::Snorm8x4 | VertexFormat::Uint16x2 | VertexFormat::Sint16x2
            | VertexFormat::Unorm16x2 | VertexFormat::Snorm16x2 | VertexFormat::Float16x2
            | VertexFormat::Float32 | VertexFormat::Uint32 | VertexFormat::Sint32 => 4,
            VertexFormat::Uint16x4 | VertexFormat::Sint16x4 | VertexFormat::Unorm16x4
            | VertexFormat::Snorm16x4 | VertexFormat::Float16x4 | VertexFormat::Float32x2
            | VertexFormat::Uint32x2 | VertexFormat::Sint32x2 | VertexFormat::Float64 => 8,
            VertexFormat::Float32x3 | VertexFormat::Uint32x3 | VertexFormat::Sint32x3 => 12,
            VertexFormat::Float32x4 | VertexFormat::Uint32x4 | VertexFormat::Sint32x4
            | VertexFormat::Float64x2 => 16,
            VertexFormat::Float64x3 => 24,
            VertexFormat::Float64x4 => 32,
        }
    }
}

/// Whether buffer data advances once per vertex or once per instance.
#[derive(Clone, Copy, Debug, PartialEq, Eq, Structural)]
pub enum VertexStepMode {
    Vertex,
    Instance,
}

/// One input of a vertex shader: its format, its byte offset inside the
/// vertex and the shader location it is bound to.
#[derive(Clone, Copy, Debug, PartialEq, Eq, Structural)]
pub struct VertexAttribute {
    pub format: VertexFormat,
    pub offset: u64,
    pub shader_location: u32,
}

/// Byte offset of attribute `i` when the attributes are packed in order
/// with no gaps: the sum of the sizes of the ones before it.
pub open spec fn packed_offset(formats: Seq<VertexFormat>, i: int) -> nat
    decreases i,
{
    if i <= 0 {
        0
    } else {
        packed_offset(formats, i - 1) + format_size(formats[i - 1])
    }
}

/// The attribute list that packing `formats` from `first_location` gives.
pub open spec fn packed_attribute(
    formats: Seq<VertexFormat>,
    first_location: u32,
    i: int,
) -> VertexAttribute {
    VertexAttribute {
        format: formats[i],
        offset: packed_offset(formats, i) as u64,
        shader_location: (first_location + i) as u32,
    }
}

/// How a vertex buffer is laid out: the stride between consecutive
/// elements, how it steps, and the attributes of one element.
#[derive(Clone, Debug)]
pub struct VertexBufferLayout {
    pub array_stride: u64,
    pub step_mode: VertexStepMode,
    pub attributes: Vec<VertexAttribute>,
}

/// Packing offsets grow with the index, and never exceed 32 bytes per attribute.
pub proof fn lemma_packed_offset_monotone(formats: Seq<VertexFormat>, i: int, j: int)
    requires
        0 <= i <= j,
    ensures
        packed_offset(formats, i) <= packed_offset(formats, j),
        packed_offset(formats, j) <= 32 * j,
    decreases j,
{
    if j > 0 {
        if i < j {
            lemma_packed_offset_monotone(formats, i, j - 1);
        } else {
            lemma_packed_offset_monotone(formats, i - 1, j - 1);
        }
    }
}

/// Packed attributes never overlap: an attribute ends at or before the
/// start of every later one, and every attribute ends within the stride.
pub proof fn lemma_packed_attributes_disjoint(formats: Seq<VertexFormat>, i: int, j: int)
    requires
        0 <= i < j < formats.len(),
    ensures
        packed_offset(formats, i) + format_size(formats[i]) <= packed_offset(formats, j),
        packed_offset(formats, j) + format_size(formats[j]) <= packed_offset(
            formats,
            formats.len() as int,
        ),
{
    lemma_packed_offset_monotone(formats, i + 1, j);
    lemma_packed_offset_monotone(formats, j + 1, formats.len() as int);
}

/// The first packed attribute starts at byte zero, and each next one starts
/// right where the previous one ends: at its offset plus its format's size.
pub proof fn lemma_packed_offset_step(formats: Seq<VertexFormat>, i: int)
    requires
        0 <= i < formats.len(),
    ensures
        packed_offset(formats, 0) == 0,
        packed_offset(formats, i + 1) == packed_offset(formats, i) + format_size(formats[i]),
{
}

impl VertexBufferLayout {
    /// The layout of an element whose attributes have the given formats, in
    /// order, packed with no gaps, bound to consecutive shader locations
    /// starting at `first_location`. The stride is the total size.
    pub fn from_formats(
        formats: &[VertexFormat],
        first_location: u32,
        step_mode: VertexStepMode,
    ) -> (r: Self)
        requires
            first_location + formats@.len() <= u32::MAX + 1,
        ensures
            r.step_mode == step_mode,
            r.array_stride == packed_offset(formats@, formats@.len() as int),
            r.attributes@.len() == formats@.len(),
            forall|i: int|
                0 <= i < formats@.len() ==> #[trigger] r.attributes@[i] == packed_attribute(
                    formats@,
                    first_location,
                    i,
                ),
            forall|i: int|
                0 <= i < formats@.len() ==> (#[trigger] r.attributes@[i]).format == formats@[i]
                    && r.attributes@[i].shader_location == first_location + i,
            formats@.len() > 0 ==> r.attributes@[0].offset == 0,
            forall|i: int|
                0 <= i < formats@.len() - 1 ==> (#[trigger] r.attributes@[i + 1]).offset
                    == r.attributes@[i].offset + format_size(formats@[i]),
            formats@.len() == 0 ==> r.array_stride == 0,
            formats@.len() > 0 ==> r.array_stride == r.attributes@[formats@.len() - 1].offset
                + format_size(formats@[formats@.len() - 1]),
    {
        let mut attributes: Vec<VertexAttribute> = Vec::new();
        let mut offset: u64 = 0;
        let mut i: usize = 0;
        while i < formats.len()
            invariant
                0 <= i <= formats@.len(),
                first_location + formats@.len() <= u32::MAX + 1,
                offset == packed_offset(formats@, i as int),
                attributes@.len() == i,
                forall|k: int|
                    0 <= k < i ==> #[trigger] attributes@[k] == packed_attribute(
                        formats@,
                        first_location,
                        k,
                    ),
            decreases formats@.len() - i,
        {
            proof {
                lemma_packed_offset_monotone(formats@, i as int, i as int);
            }
            let location: u32 = first_location + i as u32;
            attributes.push(VertexAttribute { format: formats[i], offset, shader_location: location });
            let size: u64 = formats[i].size();
            offset = offset + size;
            i = i + 1;
        }
        proof {
            let f = formats@;
            let n = f.len() as int;
            assert forall|i: int| 0 <= i < n - 1 implies (#[trigger] attributes@[i + 1]).offset
                == attributes@[i].offset + format_size(f[i]) by {
                lemma_packed_offset_step(f, i);
                lemma_packed_offset_monotone(f, i + 1, i + 1);
                lemma_packed_offset_monotone(f, i, i);
                assert(attributes@[i + 1] == packed_attribute(f, first_location, i + 1));
                assert(attributes@[i] == packed_attribute(f, first_location, i));
            }
            if n > 0 {
                lemma_packed_offset_step(f, n - 1);
                lemma_packed_offset_monotone(f, n - 1, n - 1);
                assert(attributes@[n - 1] == packed_attribute(f, first_location, n - 1));
                assert(attributes@[0] == packed_attribute(f, first_location, 0));
            }
        }
        VertexBufferLayout { array_stride: offset, step_mode, attributes }
    }

    /// The layout of the per-instance buffer of model matrices: a 4x4
    /// matrix of 32-bit floats takes four attributes of four floats each,
    /// bound to shader locations 5 to 8 (locations 0 to 4 are left to the
    /// vertices).
    pub fn instance_raw_desc() -> (r: Self)
        ensures
            r.step_mode == VertexStepMode::Instance,
            r.array_stride == 64,
            r.attributes@ == seq![
                VertexAttribute { format: VertexFormat::Float32x4, offset: 0, shader_location: 5 },
                VertexAttribute { format: VertexFormat::Float32x4, offset: 16, shader_location: 6 },
                VertexAttribute { format: VertexFormat::Float32x4, offset: 32, shader_location: 7 },
                VertexAttribute { format: VertexFormat::Float32x4, offset: 48, shader_location: 8 },
            ],
    {
        let formats: [VertexFormat; 4] = [
            VertexFormat::Float32x4,
            VertexFormat::Float32x4,
            VertexFormat::Float32x4,
            VertexFormat::Float32x4,
        ];
        let r = VertexBufferLayout::from_formats(&formats, 5, VertexStepMode::Instance);
        proof {
            let f = formats@;
            reveal_with_fuel(packed_offset, 5);
            assert(packed_offset(f, 4) == 64);
            assert(r.attributes@ =~= seq![
                VertexAttribute { format: VertexFormat::Float32x4, offset: 0, shader_location: 5 },
                VertexAttribute { format: VertexFormat::Float32x4, offset: 16, shader_location: 6 },
                VertexAttribute { format: VertexFormat::Float32x4, offset: 32, shader_location: 7 },
                VertexAttribute { format: VertexFormat::Float32x4, offset: 48, shader_location: 8 },
            ]) by {
                assert(r.attributes@[0] == packed_attribute(f, 5, 0));
                assert(r.attributes@[1] == packed_attribute(f, 5, 1));
                assert(r.attributes@[2] == packed_attribute(f, 5, 2));
                assert(r.attributes@[3] == packed_attribute(f, 5, 3));
            }
        }
        r
    }

    /// The layout of a per-vertex buffer whose attributes have the given
    /// formats, bound from shader location 0.
    pub fn desc(formats: &[VertexFormat]) -> (r: Self)
        requires
            formats@.len() <= u32::MAX + 1,
        ensures
            r.step_mode == VertexStepMode::Vertex,
            r.array_stride == packed_offset(formats@, formats@.len() as int),
            r.attributes@.len() == formats@.len(),
            forall|i: int|
                0 <= i < formats@.len() ==> #[trigger] r.attributes@[i] == packed_attribute(
                    formats@,
                    0,
                    i,
                ),
            forall|i: int|
                0 <= i < formats@.len() ==> (#[trigger] r.attributes@[i]).format == formats@[i]
                    && r.attributes@[i].shader_location == i,
            formats@.len() > 0 ==> r.attributes@[0].offset == 0,
            forall|i: int|
                0 <= i < formats@.len() - 1 ==> (#[trigger] r.attributes@[i + 1]).offset
                    == r.attributes@[i].offset + format_size(formats@[i]),
            formats@.len() == 0 ==> r.array_stride == 0,
            formats@.len() > 0 ==> r.array_stride == r.attributes@[formats@.len() - 1].offset
                + format_size(formats@[formats@.len() - 1]),
    {
        VertexBufferLayout::from_formats(formats, 0, VertexStepMode::Vertex)
    }
}

} // verus!
