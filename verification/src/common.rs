use vstd::prelude::*;

use crate::gpu_resources::{BufferId, ImageId};

verus! {

/// How an image may be used.
#[derive(Debug, Clone, Copy, PartialEq, Eq, Structural, PartialOrd, Ord, Hash)]
pub struct ImageUsageFlags {
    bits: u32,
}

impl ImageUsageFlags {
    /// Source of a transfer.
    pub const TRANSFER_SRC: u32 = 0x1;

    /// Destination of a transfer.
    pub const TRANSFER_DST: u32 = 0x2;

    /// Sampled by a shader.
    pub const SAMPLED: u32 = 0x4;

    /// Read and written by a shader as a storage image.
    pub const STORAGE: u32 = 0x8;

    /// Colour attachment.
    pub const COLOR_ATTACHMENT: u32 = 0x10;

    /// Depth and stencil attachment.
    pub const DEPTH_STENCIL_ATTACHMENT: u32 = 0x20;

    /// Attachment whose memory may be lazily allocated.
    pub const TRANSIENT_ATTACHMENT: u32 = 0x40;

    /// Input attachment.
    pub const INPUT_ATTACHMENT: u32 = 0x80;

    /// Every bit that has a name.
    pub const ALL: u32 = 0xff;

    pub closed spec fn spec_bits(&self) -> u32 {
        self.bits
    }

    /// The flags as the graphics API encodes them.
    #[verifier::when_used_as_spec(spec_bits)]
    pub fn bits(&self) -> (r: u32)
        ensures
            r == self.spec_bits(),
            r & !Self::ALL == 0,
    {
        proof {
            use_type_invariant(self);
        }
        self.bits
    }

    #[verifier::type_invariant]
    spec fn only_named_bits(self) -> bool {
        self.bits & !Self::ALL == 0
    }

    /// No flag set.
    pub fn empty() -> (r: Self)
        ensures
            r.bits() == 0,
    {
        assert(0u32 & !Self::ALL == 0) by (bit_vector);
        ImageUsageFlags { bits: 0 }
    }

    /// The named flags among `bits`; bits without a name are dropped.
    pub fn from_bits_truncate(bits: u32) -> (r: Self)
        ensures
            r.bits() == bits & Self::ALL,
    {
        assert((bits & Self::ALL) & !Self::ALL == 0) by (bit_vector);
        ImageUsageFlags { bits: bits & Self::ALL }
    }

    /// Whether no flag is set.
    pub fn is_empty(&self) -> (r: bool)
        ensures
            r == (self.bits() == 0),
    {
        self.bits == 0
    }

    /// Whether every flag of `other` is set in `self`.
    pub fn contains(&self, other: Self) -> (r: bool)
        ensures
            r == (self.bits() & other.bits() == other.bits()),
    {
        self.bits & other.bits == other.bits
    }

    /// Whether every bit of `mask` is set in `self`.
    pub fn has(&self, mask: u32) -> (r: bool)
        ensures
            r == (self.bits() & mask == mask),
    {
        self.bits & mask == mask
    }

    /// The flags of `self` together with those of `other`.
    pub fn union(self, other: Self) -> (r: Self)
        ensures
            r.bits() == self.bits() | other.bits(),
    {
        proof {
            use_type_invariant(self);
            use_type_invariant(other);
        }
        let a = self.bits;
        let b = other.bits;
        assert((a | b) & !Self::ALL == 0) by (bit_vector)
            requires
                a & !Self::ALL == 0,
                b & !Self::ALL == 0,
        ;
        ImageUsageFlags { bits: a | b }
    }
}

/// How a buffer may be used.
#[derive(Debug, Clone, Copy, PartialEq, Eq, Structural, PartialOrd, Ord, Hash)]
pub struct BufferUsageFlags {
    bits: u32,
}

impl BufferUsageFlags {
    /// Source of a transfer.
    pub const TRANSFER_SRC: u32 = 0x1;

    /// Destination of a transfer.
    pub const TRANSFER_DST: u32 = 0x2;

    /// Uniform buffer.
    pub const UNIFORM: u32 = 0x10;

    /// Storage buffer.
    pub const STORAGE: u32 = 0x20;

    /// Index buffer.
    pub const INDEX: u32 = 0x40;

    /// Vertex buffer.
    pub const VERTEX: u32 = 0x80;

    /// Source of indirect commands.
    pub const INDIRECT: u32 = 0x100;

    /// Every bit that has a name.
    pub const ALL: u32 = 0x1f3;

    pub closed spec fn spec_bits(&self) -> u32 {
        self.bits
    }

    /// The flags as the graphics API encodes them.
    #[verifier::when_used_as_spec(spec_bits)]
    pub fn bits(&self) -> (r: u32)
        ensures
            r == self.spec_bits(),
            r & !Self::ALL == 0,
    {
        proof {
            use_type_invariant(self);
        }
        self.bits
    }

    #[verifier::type_invariant]
    spec fn only_named_bits(self) -> bool {
        self.bits & !Self::ALL == 0
    }

    /// No flag set.
    pub fn empty() -> (r: Self)
        ensures
            r.bits() == 0,
    {
        assert(0u32 & !Self::ALL == 0) by (bit_vector);
        BufferUsageFlags { bits: 0 }
    }

    /// The named flags among `bits`; bits without a name are dropped.
    pub fn from_bits_truncate(bits: u32) -> (r: Self)
        ensures
            r.bits() == bits & Self::ALL,
    {
        assert((bits & Self::ALL) & !Self::ALL == 0) by (bit_vector);
        BufferUsageFlags { bits: bits & Self::ALL }
    }

    /// Whether no flag is set.
    pub fn is_empty(&self) -> (r: bool)
        ensures
            r == (self.bits() == 0),
    {
        self.bits == 0
    }

    /// Whether every flag of `other` is set in `self`.
    pub fn contains(&self, other: Self) -> (r: bool)
        ensures
            r == (self.bits() & other.bits() == other.bits()),
    {
        self.bits & other.bits == other.bits
    }

    /// Whether every bit of `mask` is set in `self`.
    pub fn has(&self, mask: u32) -> (r: bool)
        ensures
            r == (self.bits() & mask == mask),
    {
        self.bits & mask == mask
    }

    /// The flags of `self` together with those of `other`.
    pub fn union(self, other: Self) -> (r: Self)
        ensures
            r.bits() == self.bits() | other.bits(),
    {
        proof {
            use_type_invariant(self);
            use_type_invariant(other);
        }
        let a = self.bits;
        let b = other.bits;
        assert((a | b) & !Self::ALL == 0) by (bit_vector)
            requires
                a & !Self::ALL == 0,
                b & !Self::ALL == 0,
        ;
        BufferUsageFlags { bits: a | b }
    }
}

/// The kinds of memory access that a barrier orders.
#[derive(Debug, Clone, Copy, PartialEq, Eq, Structural, PartialOrd, Ord, Hash)]
pub struct AccessFlags {
    bits: u32,
}

impl AccessFlags {
    /// A read of indirect command data.
    pub const INDIRECT_COMMAND_READ: u32 = 0x1;

    /// A read of index data.
    pub const INDEX_READ: u32 = 0x2;

    /// A read of vertex attribute data.
    pub const VERTEX_ATTRIBUTE_READ: u32 = 0x4;

    /// A read of uniform data.
    pub const UNIFORM_READ: u32 = 0x8;

    /// A read of input attachment data.
    pub const INPUT_ATTACHMENT_READ: u32 = 0x10;

    /// A read of shader data.
    pub const SHADER_READ: u32 = 0x20;

    /// A write of shader data.
    pub const SHADER_WRITE: u32 = 0x40;

    /// A read of color attachment data.
    pub const COLOR_ATTACHMENT_READ: u32 = 0x80;

    /// A write of color attachment data.
    pub const COLOR_ATTACHMENT_WRITE: u32 = 0x100;

    /// A read of depth stencil attachment data.
    pub const DEPTH_STENCIL_ATTACHMENT_READ: u32 = 0x200;

    /// A write of depth stencil attachment data.
    pub const DEPTH_STENCIL_ATTACHMENT_WRITE: u32 = 0x400;

    /// A read of transfer data.
    pub const TRANSFER_READ: u32 = 0x800;

    /// A write of transfer data.
    pub const TRANSFER_WRITE: u32 = 0x1000;

    /// A read of host data.
    pub const HOST_READ: u32 = 0x2000;

    /// A write of host data.
    pub const HOST_WRITE: u32 = 0x4000;

    /// A read of memory data.
    pub const MEMORY_READ: u32 = 0x8000;

    /// A write of memory data.
    pub const MEMORY_WRITE: u32 = 0x10000;

    /// Every bit that has a name.
    pub const ALL: u32 = 0x1ffff;

    pub closed spec fn spec_bits(&self) -> u32 {
        self.bits
    }

    /// The flags as the graphics API encodes them.
    #[verifier::when_used_as_spec(spec_bits)]
    pub fn bits(&self) -> (r: u32)
        ensures
            r == self.spec_bits(),
            r & !Self::ALL == 0,
    {
        proof {
            use_type_invariant(self);
        }
        self.bits
    }

    #[verifier::type_invariant]
    spec fn only_named_bits(self) -> bool {
        self.bits & !Self::ALL == 0
    }

    /// No flag set.
    pub fn empty() -> (r: Self)
        ensures
            r.bits() == 0,
    {
        assert(0u32 & !Self::ALL == 0) by (bit_vector);
        AccessFlags { bits: 0 }
    }

    /// The named flags among `bits`; bits without a name are dropped.
    pub fn from_bits_truncate(bits: u32) -> (r: Self)
        ensures
            r.bits() == bits & Self::ALL,
    {
        assert((bits & Self::ALL) & !Self::ALL == 0) by (bit_vector);
        AccessFlags { bits: bits & Self::ALL }
    }

    /// Whether no flag is set.
    pub fn is_empty(&self) -> (r: bool)
        ensures
            r == (self.bits() == 0),
    {
        self.bits == 0
    }

    /// Whether every flag of `other` is set in `self`.
    pub fn contains(&self, other: Self) -> (r: bool)
        ensures
            r == (self.bits() & other.bits() == other.bits()),
    {
        self.bits & other.bits == other.bits
    }

    /// Whether every bit of `mask` is set in `self`.
    pub fn has(&self, mask: u32) -> (r: bool)
        ensures
            r == (self.bits() & mask == mask),
    {
        self.bits & mask == mask
    }

    /// The flags of `self` together with those of `other`.
    pub fn union(self, other: Self) -> (r: Self)
        ensures
            r.bits() == self.bits() | other.bits(),
    {
        proof {
            use_type_invariant(self);
            use_type_invariant(other);
        }
        let a = self.bits;
        let b = other.bits;
        assert((a | b) & !Self::ALL == 0) by (bit_vector)
            requires
                a & !Self::ALL == 0,
                b & !Self::ALL == 0,
        ;
        AccessFlags { bits: a | b }
    }
}

/// The pipeline stages that a barrier waits for or holds back.
#[derive(Debug, Clone, Copy, PartialEq, Eq, Structural)]
pub struct PipelineStageFlags {
    bits: u32,
}

impl PipelineStageFlags {
    /// The stage `top_of_pipe`.
    pub const TOP_OF_PIPE: u32 = 0x1;

    /// The stage `draw_indirect`.
    pub const DRAW_INDIRECT: u32 = 0x2;

    /// The stage `vertex_input`.
    pub const VERTEX_INPUT: u32 = 0x4;

    /// The stage `vertex_shader`.
    pub const VERTEX_SHADER: u32 = 0x8;

    /// The stage `tessellation_control_shader`.
    pub const TESSELLATION_CONTROL_SHADER: u32 = 0x10;

    /// The stage `tessellation_evaluation_shader`.
    pub const TESSELLATION_EVALUATION_SHADER: u32 = 0x20;

    /// The stage `geometry_shader`.
    pub const GEOMETRY_SHADER: u32 = 0x40;

    /// The stage `fragment_shader`.
    pub const FRAGMENT_SHADER: u32 = 0x80;

    /// The stage `early_fragment_tests`.
    pub const EARLY_FRAGMENT_TESTS: u32 = 0x100;

    /// The stage `late_fragment_tests`.
    pub const LATE_FRAGMENT_TESTS: u32 = 0x200;

    /// The stage `color_attachment_output`.
    pub const COLOR_ATTACHMENT_OUTPUT: u32 = 0x400;

    /// The stage `compute_shader`.
    pub const COMPUTE_SHADER: u32 = 0x800;

    /// The stage `transfer`.
    pub const TRANSFER: u32 = 0x1000;

    /// The stage `bottom_of_pipe`.
    pub const BOTTOM_OF_PIPE: u32 = 0x2000;

    /// The stage `host`.
    pub const HOST: u32 = 0x4000;

    /// The stage `all_graphics`.
    pub const ALL_GRAPHICS: u32 = 0x8000;

    /// The stage `all_commands`.
    pub const ALL_COMMANDS: u32 = 0x10000;

    /// Every bit that has a name.
    pub const ALL: u32 = 0x1ffff;

    pub closed spec fn spec_bits(&self) -> u32 {
        self.bits
    }

    /// The flags as the graphics API encodes them.
    #[verifier::when_used_as_spec(spec_bits)]
    pub fn bits(&self) -> (r: u32)
        ensures
            r == self.spec_bits(),
            r & !Self::ALL == 0,
    {
        proof {
            use_type_invariant(self);
        }
        self.bits
    }

    #[verifier::type_invariant]
    spec fn only_named_bits(self) -> bool {
        self.bits & !Self::ALL == 0
    }

    /// No flag set.
    pub fn empty() -> (r: Self)
        ensures
            r.bits() == 0,
    {
        assert(0u32 & !Self::ALL == 0) by (bit_vector);
        PipelineStageFlags { bits: 0 }
    }

    /// The named flags among `bits`; bits without a name are dropped.
    pub fn from_bits_truncate(bits: u32) -> (r: Self)
        ensures
            r.bits() == bits & Self::ALL,
    {
        assert((bits & Self::ALL) & !Self::ALL == 0) by (bit_vector);
        PipelineStageFlags { bits: bits & Self::ALL }
    }

    /// Whether no flag is set.
    pub fn is_empty(&self) -> (r: bool)
        ensures
            r == (self.bits() == 0),
    {
        self.bits == 0
    }

    /// Whether every flag of `other` is set in `self`.
    pub fn contains(&self, other: Self) -> (r: bool)
        ensures
            r == (self.bits() & other.bits() == other.bits()),
    {
        self.bits & other.bits == other.bits
    }

    /// Whether every bit of `mask` is set in `self`.
    pub fn has(&self, mask: u32) -> (r: bool)
        ensures
            r == (self.bits() & mask == mask),
    {
        self.bits & mask == mask
    }

    /// The flags of `self` together with those of `other`.
    pub fn union(self, other: Self) -> (r: Self)
        ensures
            r.bits() == self.bits() | other.bits(),
    {
        proof {
            use_type_invariant(self);
            use_type_invariant(other);
        }
        let a = self.bits;
        let b = other.bits;
        assert((a | b) & !Self::ALL == 0) by (bit_vector)
            requires
                a & !Self::ALL == 0,
                b & !Self::ALL == 0,
        ;
        PipelineStageFlags { bits: a | b }
    }
}

impl ImageUsageFlags {
    /// The usages for which an image needs a view.
    pub const VIEW_USAGES: u32 = 0xbc;

    /// Whether an image of this usage needs a view: it is sampled, a storage
    /// image, or a colour, depth-stencil or input attachment.
    pub fn needs_view(&self) -> (r: bool)
        ensures
            r == (self.bits() & Self::VIEW_USAGES != 0),
            r == (self.bits() & Self::SAMPLED != 0 || self.bits() & Self::STORAGE != 0 || self.bits()
                & Self::COLOR_ATTACHMENT != 0 || self.bits() & Self::DEPTH_STENCIL_ATTACHMENT != 0
                || self.bits() & Self::INPUT_ATTACHMENT != 0),
    {
        let bits = self.bits;
        assert((bits & 0xbc != 0) == (bits & 0x4 != 0 || bits & 0x8 != 0 || bits & 0x10 != 0 || bits
            & 0x20 != 0 || bits & 0x80 != 0)) by (bit_vector);
        bits & Self::VIEW_USAGES != 0
    }
}

/// The stages of one row of the access table: `stages` if `access` holds a
/// kind of access of `kinds`, and nothing otherwise.
pub open spec fn stages_of_row(access: u32, kinds: u32, stages: u32) -> u32 {
    if access & kinds != 0 {
        stages
    } else {
        0
    }
}

/// The stage mask of an access mask: the stages of every row of the table
/// that the access mask touches, and `TOP_OF_PIPE` when it touches none.
pub open spec fn stages_of_access(access: u32) -> u32 {
    let stages = stages_of_row(access, AccessFlags::INDIRECT_ACCESS, PipelineStageFlags::DRAW_INDIRECT)
        | stages_of_row(access, AccessFlags::SHADER_ACCESS, PipelineStageFlags::ALL_SHADERS)
        | stages_of_row(
        access,
        AccessFlags::COLOR_ATTACHMENT_ACCESS,
        PipelineStageFlags::COLOR_ATTACHMENT_OUTPUT,
    ) | stages_of_row(access, AccessFlags::DEPTH_STENCIL_ACCESS, PipelineStageFlags::FRAGMENT_TESTS)
        | stages_of_row(access, AccessFlags::TRANSFER_ACCESS, PipelineStageFlags::TRANSFER)
        | stages_of_row(access, AccessFlags::HOST_ACCESS, PipelineStageFlags::HOST) | stages_of_row(
        access,
        AccessFlags::MEMORY_ACCESS,
        PipelineStageFlags::BOTTOM_OF_PIPE,
    );
    if stages == 0 {
        PipelineStageFlags::TOP_OF_PIPE
    } else {
        stages
    }
}

impl PipelineStageFlags {
    /// The vertex, fragment and compute shader stages.
    pub const ALL_SHADERS: u32 = 0x888;

    /// The early and late fragment tests.
    pub const FRAGMENT_TESTS: u32 = 0x300;
}

impl AccessFlags {
    /// Reads of indirect commands.
    pub const INDIRECT_ACCESS: u32 = 0x1;

    /// Every access that a shader stage makes.
    pub const SHADER_ACCESS: u32 = 0x7e;

    /// Reads and writes of a colour attachment.
    pub const COLOR_ATTACHMENT_ACCESS: u32 = 0x180;

    /// Reads and writes of a depth-stencil attachment.
    pub const DEPTH_STENCIL_ACCESS: u32 = 0x600;

    /// Reads and writes of a transfer.
    pub const TRANSFER_ACCESS: u32 = 0x1800;

    /// Reads and writes of the host.
    pub const HOST_ACCESS: u32 = 0x6000;

    /// Reads and writes of any kind.
    pub const MEMORY_ACCESS: u32 = 0x18000;

    fn row(&self, kinds: u32, stages: u32) -> (r: u32)
        ensures
            r == stages_of_row(self.bits(), kinds, stages),
    {
        if self.bits & kinds != 0 {
            stages
        } else {
            0
        }
    }

    /// A conservative stage mask for a barrier on this access mask.
    pub fn vk_stages(&self) -> (r: PipelineStageFlags)
        ensures
            r.bits() == stages_of_access(self.bits()),
    {
        let r1 = self.row(Self::INDIRECT_ACCESS, PipelineStageFlags::DRAW_INDIRECT);
        let r2 = self.row(Self::SHADER_ACCESS, PipelineStageFlags::ALL_SHADERS);
        let r3 = self.row(Self::COLOR_ATTACHMENT_ACCESS, PipelineStageFlags::COLOR_ATTACHMENT_OUTPUT);
        let r4 = self.row(Self::DEPTH_STENCIL_ACCESS, PipelineStageFlags::FRAGMENT_TESTS);
        let r5 = self.row(Self::TRANSFER_ACCESS, PipelineStageFlags::TRANSFER);
        let r6 = self.row(Self::HOST_ACCESS, PipelineStageFlags::HOST);
        let r7 = self.row(Self::MEMORY_ACCESS, PipelineStageFlags::BOTTOM_OF_PIPE);
        let stages = r1 | r2 | r3 | r4 | r5 | r6 | r7;
        assert(stages & 0x1ffff == stages) by (bit_vector)
            requires
                stages == r1 | r2 | r3 | r4 | r5 | r6 | r7,
                r1 == 0 || r1 == 0x2,
                r2 == 0 || r2 == 0x888,
                r3 == 0 || r3 == 0x400,
                r4 == 0 || r4 == 0x300,
                r5 == 0 || r5 == 0x1000,
                r6 == 0 || r6 == 0x4000,
                r7 == 0 || r7 == 0x2000,
        ;
        assert(0x1u32 & 0x1ffff == 0x1u32) by (bit_vector);
        if stages == 0 {
            PipelineStageFlags::from_bits_truncate(PipelineStageFlags::TOP_OF_PIPE)
        } else {
            PipelineStageFlags::from_bits_truncate(stages)
        }
    }
}

/// The texel formats that the library knows.
#[derive(Debug, Clone, Copy, PartialEq, Eq, Structural)]
pub enum Format {
    R8G8B8A8Unorm,
    R8G8B8A8Srgb,
    B8G8R8A8Unorm,
    B8G8R8A8Srgb,
}

impl Format {
    pub open spec fn spec_raw(&self) -> i32 {
        match self {
            Format::R8G8B8A8Unorm => 37,
            Format::R8G8B8A8Srgb => 43,
            Format::B8G8R8A8Unorm => 44,
            Format::B8G8R8A8Srgb => 50,
        }
    }

    /// The code of this value in the graphics API.
    #[verifier::when_used_as_spec(spec_raw)]
    pub fn raw(&self) -> (r: i32)
        ensures
            r == self.spec_raw(),
    {
        match self {
            Format::R8G8B8A8Unorm => 37,
            Format::R8G8B8A8Srgb => 43,
            Format::B8G8R8A8Unorm => 44,
            Format::B8G8R8A8Srgb => 50,
        }
    }

    /// The value with the code `raw`, if the library knows that code.
    pub fn from_raw(raw: i32) -> (r: Option<Format>)
        ensures
            match r {
                Some(value) => value.raw() == raw,
                None => forall|value: Format| value.raw() != raw,
            },
    {
        if raw == 37 {
            Some(Format::R8G8B8A8Unorm)
        } else if raw == 43 {
            Some(Format::R8G8B8A8Srgb)
        } else if raw == 44 {
            Some(Format::B8G8R8A8Unorm)
        } else if raw == 50 {
            Some(Format::B8G8R8A8Srgb)
        } else {
            None
        }
    }
}

/// How the texels of an image are laid out in memory.
#[derive(Debug, Clone, Copy, PartialEq, Eq, Structural)]
pub enum ImageTiling {
    Optimal,
    Linear,
}

impl ImageTiling {
    pub open spec fn spec_raw(&self) -> i32 {
        match self {
            ImageTiling::Optimal => 0,
            ImageTiling::Linear => 1,
        }
    }

    /// The code of this value in the graphics API.
    #[verifier::when_used_as_spec(spec_raw)]
    pub fn raw(&self) -> (r: i32)
        ensures
            r == self.spec_raw(),
    {
        match self {
            ImageTiling::Optimal => 0,
            ImageTiling::Linear => 1,
        }
    }
}

/// The layouts that an image can be in.
#[derive(Debug, Clone, Copy, PartialEq, Eq, Structural, PartialOrd, Ord, Hash)]
pub enum ImageLayout {
    Undefined,
    General,
    ColorAttachmentOptimal,
    DepthStencilAttachmentOptimal,
    DepthStencilReadOnlyOptimal,
    ShaderReadOnlyOptimal,
    TransferSrcOptimal,
    TransferDstOptimal,
    Preinitialized,
    PresentSrc,
}

impl ImageLayout {
    pub open spec fn spec_raw(&self) -> i32 {
        match self {
            ImageLayout::Undefined => 0,
            ImageLayout::General => 1,
            ImageLayout::ColorAttachmentOptimal => 2,
            ImageLayout::DepthStencilAttachmentOptimal => 3,
            ImageLayout::DepthStencilReadOnlyOptimal => 4,
            ImageLayout::ShaderReadOnlyOptimal => 5,
            ImageLayout::TransferSrcOptimal => 6,
            ImageLayout::TransferDstOptimal => 7,
            ImageLayout::Preinitialized => 8,
            ImageLayout::PresentSrc => 1000001002,
        }
    }

    /// The code of this value in the graphics API.
    #[verifier::when_used_as_spec(spec_raw)]
    pub fn raw(&self) -> (r: i32)
        ensures
            r == self.spec_raw(),
    {
        match self {
            ImageLayout::Undefined => 0,
            ImageLayout::General => 1,
            ImageLayout::ColorAttachmentOptimal => 2,
            ImageLayout::DepthStencilAttachmentOptimal => 3,
            ImageLayout::DepthStencilReadOnlyOptimal => 4,
            ImageLayout::ShaderReadOnlyOptimal => 5,
            ImageLayout::TransferSrcOptimal => 6,
            ImageLayout::TransferDstOptimal => 7,
            ImageLayout::Preinitialized => 8,
            ImageLayout::PresentSrc => 1000001002,
        }
    }
}

/// How polygons are rasterised.
#[derive(Debug, Clone, Copy, PartialEq, Eq, Structural)]
pub enum PolygonMode {
    Line,
    Fill,
}

impl PolygonMode {
    pub open spec fn spec_raw(&self) -> i32 {
        match self {
            PolygonMode::Line => 1,
            PolygonMode::Fill => 0,
        }
    }

    /// The code of this value in the graphics API.
    #[verifier::when_used_as_spec(spec_raw)]
    pub fn raw(&self) -> (r: i32)
        ensures
            r == self.spec_raw(),
    {
        match self {
            PolygonMode::Line => 1,
            PolygonMode::Fill => 0,
        }
    }
}

/// What happens to an attachment when rendering begins: its contents are dropped, cleared or kept.
#[derive(Debug, Clone, Copy, PartialEq, Eq, Structural)]
pub enum AttachmentLoadOp {
    Undefined,
    Clear,
    Store,
}

impl AttachmentLoadOp {
    pub open spec fn spec_raw(&self) -> i32 {
        match self {
            AttachmentLoadOp::Undefined => 2,
            AttachmentLoadOp::Clear => 1,
            AttachmentLoadOp::Store => 0,
        }
    }

    /// The code of this value in the graphics API.
    #[verifier::when_used_as_spec(spec_raw)]
    pub fn raw(&self) -> (r: i32)
        ensures
            r == self.spec_raw(),
    {
        match self {
            AttachmentLoadOp::Undefined => 2,
            AttachmentLoadOp::Clear => 1,
            AttachmentLoadOp::Store => 0,
        }
    }
}

/// What happens to an attachment when rendering ends: its contents are dropped or kept.
#[derive(Debug, Clone, Copy, PartialEq, Eq, Structural)]
pub enum AttachmentStoreOp {
    Undefined,
    Store,
}

impl AttachmentStoreOp {
    pub open spec fn spec_raw(&self) -> i32 {
        match self {
            AttachmentStoreOp::Undefined => 1,
            AttachmentStoreOp::Store => 0,
        }
    }

    /// The code of this value in the graphics API.
    #[verifier::when_used_as_spec(spec_raw)]
    pub fn raw(&self) -> (r: i32)
        ensures
            r == self.spec_raw(),
    {
        match self {
            AttachmentStoreOp::Undefined => 1,
            AttachmentStoreOp::Store => 0,
        }
    }
}

/// How vertices are assembled into primitives.
#[derive(Debug, Clone, Copy, PartialEq, Eq, Structural)]
pub enum Topology {
    TriangleList,
}

impl Topology {
    pub open spec fn spec_raw(&self) -> i32 {
        match self {
            Topology::TriangleList => 3,
        }
    }

    /// The code of this value in the graphics API.
    #[verifier::when_used_as_spec(spec_raw)]
    pub fn raw(&self) -> (r: i32)
        ensures
            r == self.spec_raw(),
    {
        match self {
            Topology::TriangleList => 3,
        }
    }
}

/// A width and a height in texels.
#[derive(Debug, Clone, Copy, PartialEq, Eq, Structural, PartialOrd, Ord, Hash)]
pub struct Extent2D {
    pub width: u32,
    pub height: u32,
}

impl Extent2D {
    pub fn new(width: u32, height: u32) -> (r: Self)
        ensures
            r == (Extent2D { width, height }),
    {
        Self { width, height }
    }

    /// This extent with another width.
    pub fn width(self, width: u32) -> (r: Self)
        ensures
            r == (Extent2D { width, height: self.height }),
    {
        Self { width, height: self.height }
    }

    /// This extent with another height.
    pub fn height(self, height: u32) -> (r: Self)
        ensures
            r == (Extent2D { width: self.width, height }),
    {
        Self { width: self.width, height }
    }

    /// The width and height of `value`; its depth is dropped.
    pub fn from_extent_3d(value: Extent3D) -> (r: Self)
        ensures
            r == (Extent2D { width: value.width, height: value.height }),
    {
        Self { width: value.width, height: value.height }
    }
}

/// A width, a height and a depth in texels.
#[derive(Debug, Clone, Copy, PartialEq, Eq, Structural, PartialOrd, Ord, Hash)]
pub struct Extent3D {
    pub width: u32,
    pub height: u32,
    pub depth: u32,
}

impl Extent3D {
    pub fn new(width: u32, height: u32, depth: u32) -> (r: Self)
        ensures
            r == (Extent3D { width, height, depth }),
    {
        Self { width, height, depth }
    }

    /// This extent with another width.
    pub fn width(self, width: u32) -> (r: Self)
        ensures
            r == (Extent3D { width, height: self.height, depth: self.depth }),
    {
        Self { width, height: self.height, depth: self.depth }
    }

    /// This extent with another height.
    pub fn height(self, height: u32) -> (r: Self)
        ensures
            r == (Extent3D { width: self.width, height, depth: self.depth }),
    {
        Self { width: self.width, height, depth: self.depth }
    }

    /// This extent with another depth.
    pub fn depth(self, depth: u32) -> (r: Self)
        ensures
            r == (Extent3D { width: self.width, height: self.height, depth }),
    {
        Self { width: self.width, height: self.height, depth }
    }

    /// The extent of one layer: `value` with a depth of 1.
    pub fn from_extent_2d(value: Extent2D) -> (r: Self)
        ensures
            r == (Extent3D { width: value.width, height: value.height, depth: 1 }),
    {
        Self { width: value.width, height: value.height, depth: 1 }
    }
}

/// A change of layout and access of one image, for a pipeline barrier.
pub struct ImageTransition {
    pub image: ImageId,
    pub src_layout: ImageLayout,
    pub dst_layout: ImageLayout,
    pub src_access: AccessFlags,
    pub dst_access: AccessFlags,
}

/// A change of access of one buffer, for a pipeline barrier.
pub struct BufferTransition {
    pub buffer: BufferId,
    pub src_access: AccessFlags,
    pub dst_access: AccessFlags,
}

} // verus!
