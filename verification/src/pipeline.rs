use vstd::prelude::*;

use crate::shader::ShaderInfo;

verus! {

/// The code of the shader stage set `ALL_GRAPHICS`.
pub const SHADER_STAGE_ALL_GRAPHICS: u32 = 0x1f;

/// The code of the shader stage `COMPUTE`.
pub const SHADER_STAGE_COMPUTE: u32 = 0x20;

/// The type of a vertex attribute.
#[derive(Clone, Copy, Debug, PartialEq, Eq, Structural)]
pub enum RasterVertexAttributeType {
    Float,
    Vec2,
    Vec3,
    Vec4,
}

impl RasterVertexAttributeType {
    pub open spec fn spec_size(&self) -> u32 {
        match self {
            RasterVertexAttributeType::Float => 4,
            RasterVertexAttributeType::Vec2 => 8,
            RasterVertexAttributeType::Vec3 => 12,
            RasterVertexAttributeType::Vec4 => 16,
        }
    }

    /// The size of the attribute in bytes.
    #[verifier::when_used_as_spec(spec_size)]
    pub fn size(&self) -> (r: u32)
        ensures
            r == self.spec_size(),
    {
        match self {
            RasterVertexAttributeType::Float => 4,
            RasterVertexAttributeType::Vec2 => 8,
            RasterVertexAttributeType::Vec3 => 12,
            RasterVertexAttributeType::Vec4 => 16,
        }
    }

    pub open spec fn spec_vk_format(&self) -> i32 {
        match self {
            RasterVertexAttributeType::Float => 100,
            RasterVertexAttributeType::Vec2 => 103,
            RasterVertexAttributeType::Vec3 => 106,
            RasterVertexAttributeType::Vec4 => 109,
        }
    }

    /// The code of the format of the attribute in the graphics API: one to
    /// four 32-bit floats.
    #[verifier::when_used_as_spec(spec_vk_format)]
    pub fn vk_format(&self) -> (r: i32)
        ensures
            r == self.spec_vk_format(),
    {
        match self {
            RasterVertexAttributeType::Float => 100,
            RasterVertexAttributeType::Vec2 => 103,
            RasterVertexAttributeType::Vec3 => 106,
            RasterVertexAttributeType::Vec4 => 109,
        }
    }
}

/// Where one vertex attribute lies in a vertex of binding 0.
#[derive(Clone, Copy, Debug, PartialEq, Eq, Structural)]
pub struct VertexAttribute {
    pub location: u32,
    pub offset: u32,
    pub format: i32,
}

/// The layout of the vertices of binding 0: its attributes and its stride.
pub struct VertexLayout {
    pub attributes: Vec<VertexAttribute>,
    pub stride: u32,
}

/// The size of the first `count` of `attributes` together.
pub open spec fn packed_size(attributes: Seq<RasterVertexAttributeType>, count: int) -> int
    decreases count,
{
    if count <= 0 {
        0
    } else {
        packed_size(attributes, count - 1) + attributes[count - 1].size()
    }
}

/// Packs `attributes` one behind the other: attribute `i` gets the location
/// `i` and the offset at which the attributes before it end, and the stride
/// is the size of all of them. Attributes that do not fit 32 bits have no
/// layout.
pub fn vertex_layout(attributes: &Vec<RasterVertexAttributeType>) -> (r: Option<VertexLayout>)
    ensures
        match r {
            Some(layout) => {
                &&& packed_size(attributes@, attributes@.len() as int) <= u32::MAX
                &&& layout.stride == packed_size(attributes@, attributes@.len() as int)
                &&& layout.attributes@.len() == attributes@.len()
                &&& forall|i: int|
                    0 <= i < attributes@.len() ==> #[trigger] layout.attributes@[i] == (VertexAttribute {
                        location: i as u32,
                        offset: packed_size(attributes@, i) as u32,
                        format: attributes@[i].vk_format(),
                    })
            },
            None => packed_size(attributes@, attributes@.len() as int) > u32::MAX,
        },
{
    let mut out: Vec<VertexAttribute> = Vec::new();
    let mut stride: u32 = 0;
    let mut i: usize = 0;
    while i < attributes.len()
        invariant
            i <= attributes@.len(),
            stride == packed_size(attributes@, i as int),
            out@.len() == i,
            i <= u32::MAX,
            forall|j: int|
                0 <= j < i ==> #[trigger] out@[j] == (VertexAttribute {
                    location: j as u32,
                    offset: packed_size(attributes@, j) as u32,
                    format: attributes@[j].vk_format(),
                }),
        decreases attributes@.len() - i,
    {
        let attribute = attributes[i];
        proof {
            lemma_packed_size_grows(attributes@, i as int + 1, attributes@.len() as int);
        }
        if attribute.size() > u32::MAX - stride {
            return None;
        }
        proof {
            lemma_packed_size_counts(attributes@, i as int + 1);
        }
        out.push(VertexAttribute { location: i as u32, offset: stride, format: attribute.vk_format() });
        stride = stride + attribute.size();
        i += 1;
    }
    Some(VertexLayout { attributes: out, stride })
}

/// The packed size does not shrink with more attributes.
proof fn lemma_packed_size_grows(attributes: Seq<RasterVertexAttributeType>, fewer: int, more: int)
    requires
        0 <= fewer <= more,
    ensures
        packed_size(attributes, fewer) <= packed_size(attributes, more),
    decreases more - fewer,
{
    if fewer < more {
        lemma_packed_size_grows(attributes, fewer, more - 1);
    }
}

/// Every attribute takes at least four bytes.
proof fn lemma_packed_size_counts(attributes: Seq<RasterVertexAttributeType>, count: int)
    requires
        0 <= count,
    ensures
        packed_size(attributes, count) >= 4 * count,
    decreases count,
{
    if count > 0 {
        lemma_packed_size_counts(attributes, count - 1);
    }
}

/// A range of push constants: the stages that see it, its offset and size.
#[derive(Clone, Copy, Debug, PartialEq, Eq, Structural)]
pub struct PushConstantRange {
    pub stage_flags: u32,
    pub offset: u32,
    pub size: u32,
}

/// The push constant ranges of a pipeline layout: one range from offset 0
/// for the stages `stage_flags` where the pipeline has push constants, and
/// none where it has not.
pub fn push_constant_ranges(stage_flags: u32, push_constant_size: u32) -> (r: Vec<PushConstantRange>)
    ensures
        r@ == (if push_constant_size > 0 {
            seq![PushConstantRange { stage_flags, offset: 0, size: push_constant_size }]
        } else {
            Seq::empty()
        }),
{
    let mut out: Vec<PushConstantRange> = Vec::new();
    if push_constant_size > 0 {
        out.push(PushConstantRange { stage_flags, offset: 0, size: push_constant_size });
    }
    assert(out@ =~= (if push_constant_size > 0 {
        seq![PushConstantRange { stage_flags, offset: 0, size: push_constant_size }]
    } else {
        Seq::empty()
    }));
    out
}

/// What a compute pipeline is created with.
pub struct ComputePipelineInfo {
    pub shader: ShaderInfo,
    pub push_constant_size: u32,
}

} // verus!
