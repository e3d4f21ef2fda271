//! Packed vertex buffer layouts: attributes laid out one after another.
use vstd::prelude::*;

verus! {

/// Formats of a vertex attribute (floating-point vectors of 1 to 4 lanes).
#[derive(Debug, Clone, Copy, PartialEq, Eq, Structural)]
pub enum VertexFormat {
    Float32,
    Float32x2,
    Float32x3,
    Float32x4,
}

/// Whether the buffer advances per vertex or per instance.
#[derive(Debug, Clone, Copy, PartialEq, Eq, Structural)]
pub enum VertexStepMode {
    Vertex,
    Instance,
}

/// One attribute of a vertex: where it starts in the vertex, which shader
/// location reads it, and its format.
#[derive(Debug, Clone, Copy, PartialEq, Eq, Structural)]
pub struct VertexAttribute {
    pub offset: u64,
    pub shader_location: u32,
    pub format: VertexFormat,
}

/// The layout of one vertex buffer.
pub struct VertexBufferLayout {
    pub array_stride: u64,
    pub step_mode: VertexStepMode,
    pub attributes: Vec<VertexAttribute>,
}

/// Size in bytes of an attribute of the given format.
pub open spec fn format_size(f: VertexFormat) -> nat {
    match f {
        VertexFormat::Float32 => 4,
        VertexFormat::Float32x2 => 8,
        VertexFormat::Float32x3 => 12,
        VertexFormat::Float32x4 => 16,
    }
}

/// Total size of the first `n` formats of `formats`.
pub open spec fn size_of_prefix(formats: Seq<VertexFormat>, n: int) -> nat
    decreases n,
{
    if n <= 0 {
        0
    } else {
        size_of_prefix(formats, n - 1) + format_size(formats[n - 1])
    }
}

/// `layout` is the per-vertex layout that packs `formats` one after another,
/// the i-th format at shader location i, with a stride of their total size.
pub open spec fn is_packed_layout(layout: VertexBufferLayout, formats: Seq<VertexFormat>) -> bool {
    &&& layout.step_mode == VertexStepMode::Vertex
    &&& layout.array_stride == size_of_prefix(formats, formats.len() as int)
    &&& layout.attributes@.len() == formats.len()
    &&& forall|i: int|
        #![trigger layout.attributes@[i]]
        0 <= i < formats.len() ==> {
            &&& layout.attributes@[i].offset == size_of_prefix(formats, i)
            &&& layout.attributes@[i].shader_location == i
            &&& layout.attributes@[i].format == formats[i]
        }
}

impl VertexFormat {
    /// Size in bytes of an attribute of this format.
    pub fn size(&self) -> (r: u64)
        ensures
            r == format_size(*self),
            r % 4 == 0,
            4 <= r <= 16,
    {
        match self {
            VertexFormat::Float32 => 4,
            VertexFormat::Float32x2 => 8,
            VertexFormat::Float32x3 => 12,
            VertexFormat::Float32x4 => 16,
        }
    }
}

/// Each format takes four bytes per 32-bit lane: 4, 8, 12 or 16 bytes for
/// one to four lanes.
pub proof fn lemma_format_sizes()
    ensures
        format_size(VertexFormat::Float32) == 4,
        format_size(VertexFormat::Float32x2) == 8,
        format_size(VertexFormat::Float32x3) == 12,
        format_size(VertexFormat::Float32x4) == 16,
{
}

/// Every format takes between 4 and 16 bytes, so `n` formats take at most `16 * n`.
proof fn lemma_prefix_bounded(formats: Seq<VertexFormat>, n: int)
    requires
        0 <= n <= formats.len(),
    ensures
        size_of_prefix(formats, n) <= 16 * n,
    decreases n,
{
    if n > 0 {
        lemma_prefix_bounded(formats, n - 1);
    }
}

/// A longer prefix is at least as large as a shorter one, by the sizes in between.
proof fn lemma_prefix_monotonic(formats: Seq<VertexFormat>, i: int, j: int)
    requires
        0 <= i <= j <= formats.len(),
    ensures
        size_of_prefix(formats, i) <= size_of_prefix(formats, j),
        i < j ==> size_of_prefix(formats, i) + format_size(formats[i]) <= size_of_prefix(
            formats,
            j,
        ),
    decreases j - i,
{
    if i < j {
        lemma_prefix_monotonic(formats, i, j - 1);
        if i < j - 1 {
            lemma_prefix_monotonic(formats, i + 1, j - 1);
        }
    }
}

/// Lays out `formats` one after another in a per-vertex buffer: attribute i
/// starts where attribute i - 1 ends, is read at shader location i, and the
/// stride is the total size.
pub fn packed_layout(formats: &Vec<VertexFormat>) -> (layout: VertexBufferLayout)
    requires
        formats.len() <= u32::MAX,
    ensures
        is_packed_layout(layout, formats@),
{
    let mut attributes: Vec<VertexAttribute> = Vec::new();
    let mut offset: u64 = 0;
    let mut i: usize = 0;
    while i < formats.len()
        invariant
            i <= formats.len() <= u32::MAX,
            offset == size_of_prefix(formats@, i as int),
            attributes@.len() == i,
            forall|k: int|
                #![trigger attributes@[k]]
                0 <= k < i ==> {
                    &&& attributes@[k].offset == size_of_prefix(formats@, k)
                    &&& attributes@[k].shader_location == k
                    &&& attributes@[k].format == formats@[k]
                },
        decreases formats.len() - i,
    {
        proof {
            lemma_prefix_bounded(formats@, i as int + 1);
        }
        let format = formats[i];
        attributes.push(VertexAttribute { offset, shader_location: i as u32, format });
        offset = offset + format.size();
        i = i + 1;
    }
    VertexBufferLayout { array_stride: offset, step_mode: VertexStepMode::Vertex, attributes }
}

/// In a packed layout the attributes do not overlap, come in order of their
/// offsets, and each lies wholly inside the stride of one vertex.
pub proof fn lemma_packed_attributes_disjoint(layout: VertexBufferLayout, formats: Seq<VertexFormat>)
    requires
        is_packed_layout(layout, formats),
    ensures
        forall|i: int, j: int|
            #![trigger layout.attributes@[i], layout.attributes@[j]]
            0 <= i < j < formats.len() ==> layout.attributes@[i].offset + format_size(
                layout.attributes@[i].format,
            ) <= layout.attributes@[j].offset,
        forall|i: int|
            #![trigger layout.attributes@[i]]
            0 <= i < formats.len() ==> layout.attributes@[i].offset + format_size(
                layout.attributes@[i].format,
            ) <= layout.array_stride,
{
    assert forall|i: int, j: int|
        #![trigger layout.attributes@[i], layout.attributes@[j]]
        0 <= i < j < formats.len() implies layout.attributes@[i].offset + format_size(
            layout.attributes@[i].format,
        ) <= layout.attributes@[j].offset by {
        lemma_prefix_monotonic(formats, i, j);
    }
    assert forall|i: int|
        #![trigger layout.attributes@[i]]
        0 <= i < formats.len() implies layout.attributes@[i].offset + format_size(
            layout.attributes@[i].format,
        ) <= layout.array_stride by {
        lemma_prefix_monotonic(formats, i, formats.len() as int);
    }
}

/// A packed layout leaves no gaps: the first attribute starts at offset 0,
/// each next one starts where the one before it ends, and the stride is where
/// the last one ends (0 when there are none).
pub proof fn lemma_packed_attributes_adjacent(layout: VertexBufferLayout, formats: Seq<VertexFormat>)
    requires
        is_packed_layout(layout, formats),
    ensures
        formats.len() > 0 ==> layout.attributes@[0].offset == 0,
        forall|i: int|
            #![trigger layout.attributes@[i + 1]]
            0 <= i < formats.len() - 1 ==> layout.attributes@[i + 1].offset
                == layout.attributes@[i].offset + format_size(layout.attributes@[i].format),
        formats.len() == 0 ==> layout.array_stride == 0,
        formats.len() > 0 ==> layout.array_stride == layout.attributes@[formats.len() - 1].offset
            + format_size(layout.attributes@[formats.len() - 1].format),
{
    assert forall|i: int|
        #![trigger layout.attributes@[i + 1]]
        0 <= i < formats.len() - 1 implies layout.attributes@[i + 1].offset
            == layout.attributes@[i].offset + format_size(layout.attributes@[i].format) by {
        assert(layout.attributes@[i].offset == size_of_prefix(formats, i));
        assert(layout.attributes@[i + 1].offset == size_of_prefix(formats, i + 1));
    }
    if formats.len() > 0 {
        assert(layout.attributes@[formats.len() - 1].offset == size_of_prefix(
            formats,
            formats.len() - 1,
        ));
    }
}

} // verus!
