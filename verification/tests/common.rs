use ash::vk;
use paya::allocator::{Allocation, AllocationId, MemoryFlags, MemoryLocation, MemoryType};
use paya::common::{
    AccessFlags, AttachmentLoadOp, AttachmentStoreOp, BufferUsageFlags, Extent2D, Extent3D, Format, ImageLayout,
    ImageTiling, ImageUsageFlags, PipelineStageFlags, PolygonMode, Topology,
};
use paya::pipeline::{
    push_constant_ranges, vertex_layout, PushConstantRange, RasterVertexAttributeType, VertexAttribute,
    SHADER_STAGE_ALL_GRAPHICS, SHADER_STAGE_COMPUTE,
};

#[test]
fn flag_bits_are_those_of_the_graphics_api() {
    assert_eq!(ImageUsageFlags::TRANSFER_SRC, vk::ImageUsageFlags::TRANSFER_SRC.as_raw());
    assert_eq!(ImageUsageFlags::TRANSFER_DST, vk::ImageUsageFlags::TRANSFER_DST.as_raw());
    assert_eq!(ImageUsageFlags::SAMPLED, vk::ImageUsageFlags::SAMPLED.as_raw());
    assert_eq!(ImageUsageFlags::STORAGE, vk::ImageUsageFlags::STORAGE.as_raw());
    assert_eq!(ImageUsageFlags::COLOR_ATTACHMENT, vk::ImageUsageFlags::COLOR_ATTACHMENT.as_raw());
    assert_eq!(ImageUsageFlags::DEPTH_STENCIL_ATTACHMENT, vk::ImageUsageFlags::DEPTH_STENCIL_ATTACHMENT.as_raw());
    assert_eq!(ImageUsageFlags::TRANSIENT_ATTACHMENT, vk::ImageUsageFlags::TRANSIENT_ATTACHMENT.as_raw());
    assert_eq!(ImageUsageFlags::INPUT_ATTACHMENT, vk::ImageUsageFlags::INPUT_ATTACHMENT.as_raw());
    assert_eq!(BufferUsageFlags::UNIFORM, vk::BufferUsageFlags::UNIFORM_BUFFER.as_raw());
    assert_eq!(BufferUsageFlags::STORAGE, vk::BufferUsageFlags::STORAGE_BUFFER.as_raw());
    assert_eq!(BufferUsageFlags::TRANSFER_SRC, vk::BufferUsageFlags::TRANSFER_SRC.as_raw());
    assert_eq!(BufferUsageFlags::TRANSFER_DST, vk::BufferUsageFlags::TRANSFER_DST.as_raw());
    assert_eq!(BufferUsageFlags::INDEX, vk::BufferUsageFlags::INDEX_BUFFER.as_raw());
    assert_eq!(BufferUsageFlags::VERTEX, vk::BufferUsageFlags::VERTEX_BUFFER.as_raw());
    assert_eq!(BufferUsageFlags::INDIRECT, vk::BufferUsageFlags::INDIRECT_BUFFER.as_raw());
    assert_eq!(AccessFlags::INDIRECT_COMMAND_READ, vk::AccessFlags::INDIRECT_COMMAND_READ.as_raw());
    assert_eq!(AccessFlags::INDEX_READ, vk::AccessFlags::INDEX_READ.as_raw());
    assert_eq!(AccessFlags::VERTEX_ATTRIBUTE_READ, vk::AccessFlags::VERTEX_ATTRIBUTE_READ.as_raw());
    assert_eq!(AccessFlags::UNIFORM_READ, vk::AccessFlags::UNIFORM_READ.as_raw());
    assert_eq!(AccessFlags::INPUT_ATTACHMENT_READ, vk::AccessFlags::INPUT_ATTACHMENT_READ.as_raw());
    assert_eq!(AccessFlags::SHADER_READ, vk::AccessFlags::SHADER_READ.as_raw());
    assert_eq!(AccessFlags::SHADER_WRITE, vk::AccessFlags::SHADER_WRITE.as_raw());
    assert_eq!(AccessFlags::COLOR_ATTACHMENT_READ, vk::AccessFlags::COLOR_ATTACHMENT_READ.as_raw());
    assert_eq!(AccessFlags::COLOR_ATTACHMENT_WRITE, vk::AccessFlags::COLOR_ATTACHMENT_WRITE.as_raw());
    assert_eq!(AccessFlags::DEPTH_STENCIL_ATTACHMENT_READ, vk::AccessFlags::DEPTH_STENCIL_ATTACHMENT_READ.as_raw());
    assert_eq!(AccessFlags::DEPTH_STENCIL_ATTACHMENT_WRITE, vk::AccessFlags::DEPTH_STENCIL_ATTACHMENT_WRITE.as_raw());
    assert_eq!(AccessFlags::TRANSFER_READ, vk::AccessFlags::TRANSFER_READ.as_raw());
    assert_eq!(AccessFlags::TRANSFER_WRITE, vk::AccessFlags::TRANSFER_WRITE.as_raw());
    assert_eq!(AccessFlags::HOST_READ, vk::AccessFlags::HOST_READ.as_raw());
    assert_eq!(AccessFlags::HOST_WRITE, vk::AccessFlags::HOST_WRITE.as_raw());
    assert_eq!(AccessFlags::MEMORY_READ, vk::AccessFlags::MEMORY_READ.as_raw());
    assert_eq!(AccessFlags::MEMORY_WRITE, vk::AccessFlags::MEMORY_WRITE.as_raw());
    assert_eq!(MemoryFlags::DEVICE_LOCAL, vk::MemoryPropertyFlags::DEVICE_LOCAL.as_raw());
    assert_eq!(MemoryFlags::HOST_VISIBLE, vk::MemoryPropertyFlags::HOST_VISIBLE.as_raw());
    assert_eq!(MemoryFlags::HOST_COHERENT, vk::MemoryPropertyFlags::HOST_COHERENT.as_raw());
    assert_eq!(MemoryFlags::HOST_CACHED, vk::MemoryPropertyFlags::HOST_CACHED.as_raw());
    assert_eq!(PipelineStageFlags::TOP_OF_PIPE, vk::PipelineStageFlags::TOP_OF_PIPE.as_raw());
    assert_eq!(PipelineStageFlags::BOTTOM_OF_PIPE, vk::PipelineStageFlags::BOTTOM_OF_PIPE.as_raw());
    assert_eq!(PipelineStageFlags::ALL_COMMANDS, vk::PipelineStageFlags::ALL_COMMANDS.as_raw());
    assert_eq!(SHADER_STAGE_ALL_GRAPHICS, vk::ShaderStageFlags::ALL_GRAPHICS.as_raw());
    assert_eq!(SHADER_STAGE_COMPUTE, vk::ShaderStageFlags::COMPUTE.as_raw());
}

fn stages(access: u32) -> u32 {
    AccessFlags::from_bits_truncate(access).vk_stages().bits()
}

#[test]
fn access_masks_map_to_stage_masks() {
    let shaders = (vk::PipelineStageFlags::VERTEX_SHADER
        | vk::PipelineStageFlags::FRAGMENT_SHADER
        | vk::PipelineStageFlags::COMPUTE_SHADER)
        .as_raw();
    let tests = (vk::PipelineStageFlags::EARLY_FRAGMENT_TESTS | vk::PipelineStageFlags::LATE_FRAGMENT_TESTS).as_raw();
    assert_eq!(stages(0), vk::PipelineStageFlags::TOP_OF_PIPE.as_raw());
    assert_eq!(stages(AccessFlags::INDIRECT_COMMAND_READ), vk::PipelineStageFlags::DRAW_INDIRECT.as_raw());
    for access in [
        AccessFlags::INDEX_READ,
        AccessFlags::VERTEX_ATTRIBUTE_READ,
        AccessFlags::UNIFORM_READ,
        AccessFlags::INPUT_ATTACHMENT_READ,
        AccessFlags::SHADER_READ,
        AccessFlags::SHADER_WRITE,
    ] {
        assert_eq!(stages(access), shaders);
    }
    let output = vk::PipelineStageFlags::COLOR_ATTACHMENT_OUTPUT.as_raw();
    assert_eq!(stages(AccessFlags::COLOR_ATTACHMENT_READ), output);
    assert_eq!(stages(AccessFlags::COLOR_ATTACHMENT_WRITE), output);
    assert_eq!(stages(AccessFlags::DEPTH_STENCIL_ATTACHMENT_READ), tests);
    assert_eq!(stages(AccessFlags::DEPTH_STENCIL_ATTACHMENT_WRITE), tests);
    assert_eq!(stages(AccessFlags::TRANSFER_READ), vk::PipelineStageFlags::TRANSFER.as_raw());
    assert_eq!(stages(AccessFlags::TRANSFER_WRITE), vk::PipelineStageFlags::TRANSFER.as_raw());
    assert_eq!(stages(AccessFlags::HOST_READ), vk::PipelineStageFlags::HOST.as_raw());
    assert_eq!(stages(AccessFlags::HOST_WRITE), vk::PipelineStageFlags::HOST.as_raw());
    assert_eq!(stages(AccessFlags::MEMORY_READ), vk::PipelineStageFlags::BOTTOM_OF_PIPE.as_raw());
    assert_eq!(stages(AccessFlags::MEMORY_WRITE), vk::PipelineStageFlags::BOTTOM_OF_PIPE.as_raw());
    assert_eq!(
        stages(AccessFlags::SHADER_WRITE | AccessFlags::TRANSFER_READ | AccessFlags::HOST_WRITE),
        shaders | 0x1000 | 0x4000
    );
    assert_eq!(stages(AccessFlags::ALL), 0x2 | shaders | output | tests | 0x1000 | 0x4000 | 0x2000);
    assert_eq!(stages(0xfff0_0000), 0x1);
}

#[test]
fn flag_operations() {
    let none = ImageUsageFlags::empty();
    assert!(none.is_empty());
    assert!(!none.needs_view());
    let storage = ImageUsageFlags::from_bits_truncate(ImageUsageFlags::STORAGE);
    let transfer = ImageUsageFlags::from_bits_truncate(ImageUsageFlags::TRANSFER_SRC | ImageUsageFlags::TRANSFER_DST);
    let both = storage.union(transfer);
    assert_eq!(both.bits(), 0xb);
    assert!(both.contains(storage) && both.contains(transfer) && both.contains(none));
    assert!(!storage.contains(transfer));
    assert!(both.has(ImageUsageFlags::STORAGE) && !transfer.has(ImageUsageFlags::STORAGE));
    assert_eq!(ImageUsageFlags::from_bits_truncate(0xffff_ffff).bits(), 0xff);
    assert_eq!(BufferUsageFlags::from_bits_truncate(0xffff_ffff).bits(), 0x1f3);
    assert_eq!(AccessFlags::from_bits_truncate(0xffff_ffff).bits(), 0x1ffff);
    assert_eq!(MemoryFlags::from_bits_truncate(0xffff_ffff).bits(), 0xf);
    assert!(!transfer.needs_view());
    assert!(!ImageUsageFlags::from_bits_truncate(ImageUsageFlags::TRANSIENT_ATTACHMENT).needs_view());
    for usage in [
        ImageUsageFlags::SAMPLED,
        ImageUsageFlags::STORAGE,
        ImageUsageFlags::COLOR_ATTACHMENT,
        ImageUsageFlags::DEPTH_STENCIL_ATTACHMENT,
        ImageUsageFlags::INPUT_ATTACHMENT,
    ] {
        assert!(ImageUsageFlags::from_bits_truncate(usage | ImageUsageFlags::TRANSFER_SRC).needs_view());
    }
}

#[test]
fn enum_codes_are_those_of_the_graphics_api() {
    assert_eq!(Format::R8G8B8A8Unorm.raw(), vk::Format::R8G8B8A8_UNORM.as_raw());
    assert_eq!(Format::R8G8B8A8Srgb.raw(), vk::Format::R8G8B8A8_SRGB.as_raw());
    assert_eq!(Format::B8G8R8A8Unorm.raw(), vk::Format::B8G8R8A8_UNORM.as_raw());
    assert_eq!(Format::B8G8R8A8Srgb.raw(), vk::Format::B8G8R8A8_SRGB.as_raw());
    assert_eq!(Format::from_raw(vk::Format::B8G8R8A8_UNORM.as_raw()), Some(Format::B8G8R8A8Unorm));
    assert_eq!(Format::from_raw(vk::Format::R8G8B8A8_SRGB.as_raw()), Some(Format::R8G8B8A8Srgb));
    assert_eq!(Format::from_raw(vk::Format::R8_UNORM.as_raw()), None);
    assert_eq!(ImageTiling::Optimal.raw(), vk::ImageTiling::OPTIMAL.as_raw());
    assert_eq!(ImageTiling::Linear.raw(), vk::ImageTiling::LINEAR.as_raw());
    assert_eq!(ImageLayout::Undefined.raw(), vk::ImageLayout::UNDEFINED.as_raw());
    assert_eq!(ImageLayout::General.raw(), vk::ImageLayout::GENERAL.as_raw());
    assert_eq!(ImageLayout::ColorAttachmentOptimal.raw(), vk::ImageLayout::COLOR_ATTACHMENT_OPTIMAL.as_raw());
    assert_eq!(
        ImageLayout::DepthStencilAttachmentOptimal.raw(),
        vk::ImageLayout::DEPTH_STENCIL_ATTACHMENT_OPTIMAL.as_raw()
    );
    assert_eq!(
        ImageLayout::DepthStencilReadOnlyOptimal.raw(),
        vk::ImageLayout::DEPTH_STENCIL_READ_ONLY_OPTIMAL.as_raw()
    );
    assert_eq!(ImageLayout::ShaderReadOnlyOptimal.raw(), vk::ImageLayout::SHADER_READ_ONLY_OPTIMAL.as_raw());
    assert_eq!(ImageLayout::TransferSrcOptimal.raw(), vk::ImageLayout::TRANSFER_SRC_OPTIMAL.as_raw());
    assert_eq!(ImageLayout::TransferDstOptimal.raw(), vk::ImageLayout::TRANSFER_DST_OPTIMAL.as_raw());
    assert_eq!(ImageLayout::Preinitialized.raw(), vk::ImageLayout::PREINITIALIZED.as_raw());
    assert_eq!(ImageLayout::PresentSrc.raw(), vk::ImageLayout::PRESENT_SRC_KHR.as_raw());
    assert_eq!(PolygonMode::Line.raw(), vk::PolygonMode::LINE.as_raw());
    assert_eq!(PolygonMode::Fill.raw(), vk::PolygonMode::FILL.as_raw());
    assert_eq!(AttachmentLoadOp::Undefined.raw(), vk::AttachmentLoadOp::DONT_CARE.as_raw());
    assert_eq!(AttachmentLoadOp::Clear.raw(), vk::AttachmentLoadOp::CLEAR.as_raw());
    assert_eq!(AttachmentLoadOp::Store.raw(), vk::AttachmentLoadOp::LOAD.as_raw());
    assert_eq!(AttachmentStoreOp::Undefined.raw(), vk::AttachmentStoreOp::DONT_CARE.as_raw());
    assert_eq!(AttachmentStoreOp::Store.raw(), vk::AttachmentStoreOp::STORE.as_raw());
    assert_eq!(Topology::TriangleList.raw(), vk::PrimitiveTopology::TRIANGLE_LIST.as_raw());
    assert_eq!(RasterVertexAttributeType::Float.vk_format(), vk::Format::R32_SFLOAT.as_raw());
    assert_eq!(RasterVertexAttributeType::Vec2.vk_format(), vk::Format::R32G32_SFLOAT.as_raw());
    assert_eq!(RasterVertexAttributeType::Vec3.vk_format(), vk::Format::R32G32B32_SFLOAT.as_raw());
    assert_eq!(RasterVertexAttributeType::Vec4.vk_format(), vk::Format::R32G32B32A32_SFLOAT.as_raw());
}

#[test]
fn extents() {
    let e = Extent2D::new(3, 4);
    assert_eq!((e.width, e.height), (3, 4));
    assert_eq!(e.width(9), Extent2D::new(9, 4));
    assert_eq!(e.height(9), Extent2D::new(3, 9));
    let f = Extent3D::new(1, 2, 3);
    assert_eq!((f.width, f.height, f.depth), (1, 2, 3));
    assert_eq!(f.width(7), Extent3D::new(7, 2, 3));
    assert_eq!(f.height(7), Extent3D::new(1, 7, 3));
    assert_eq!(f.depth(7), Extent3D::new(1, 2, 7));
    assert_eq!(Extent2D::from_extent_3d(f), Extent2D::new(1, 2));
    assert_eq!(Extent3D::from_extent_2d(e), Extent3D::new(3, 4, 1));
}

#[test]
fn allocation_ids() {
    let plain = AllocationId::new(false, 5);
    assert!(!plain.is_dedicated());
    assert_eq!((plain.raw(), plain.index()), (5, 5));
    let dedicated = AllocationId::new(true, 5);
    assert!(dedicated.is_dedicated());
    assert_eq!(dedicated.raw(), 5 | (1 << 63));
    assert_eq!(dedicated.index(), 5);
    let top = AllocationId::new(true, (1usize << 63) - 1);
    assert_eq!(top.raw(), u64::MAX);
    assert_ne!(plain, dedicated);
    assert_eq!(AllocationId::new(false, 0).raw(), 0);
    assert_eq!(MemoryLocation::GpuOnly.raw(), gpu_allocator::MemoryLocation::GpuOnly as u32);
    assert_eq!(MemoryLocation::CpuToGpu.raw(), gpu_allocator::MemoryLocation::CpuToGpu as u32);
    assert_eq!(MemoryLocation::GpuToCpu.raw(), gpu_allocator::MemoryLocation::GpuToCpu as u32);
    assert_eq!(
        MemoryLocation::for_flags(MemoryFlags::from_bits_truncate(MemoryFlags::HOST_VISIBLE | MemoryFlags::DEVICE_LOCAL)),
        MemoryLocation::CpuToGpu
    );
    assert_eq!(
        MemoryLocation::for_flags(MemoryFlags::from_bits_truncate(MemoryFlags::DEVICE_LOCAL | MemoryFlags::HOST_CACHED)),
        MemoryLocation::GpuOnly
    );
    assert_eq!(MemoryLocation::for_flags(MemoryFlags::empty()), MemoryLocation::GpuOnly);
    let allocation = Allocation { memory: 7, offset: 256 };
    assert_eq!((allocation.memory(), allocation.offset()), (7, 256));
    assert_ne!(MemoryType::Managed, MemoryType::DedicatedBuffer(1));
    assert_ne!(MemoryType::DedicatedImage(1), MemoryType::DedicatedBuffer(1));
}

#[test]
fn vertex_layouts() {
    let (float, vec2, vec3, vec4) = (
        RasterVertexAttributeType::Float,
        RasterVertexAttributeType::Vec2,
        RasterVertexAttributeType::Vec3,
        RasterVertexAttributeType::Vec4,
    );
    assert_eq!((float.size(), vec2.size(), vec3.size(), vec4.size()), (4, 8, 12, 16));
    let layout = vertex_layout(&vec![vec3, vec2, float, vec4]).unwrap();
    assert_eq!(layout.stride, 40);
    assert_eq!(
        layout.attributes,
        vec![
            VertexAttribute { location: 0, offset: 0, format: 106 },
            VertexAttribute { location: 1, offset: 12, format: 103 },
            VertexAttribute { location: 2, offset: 20, format: 100 },
            VertexAttribute { location: 3, offset: 24, format: 109 },
        ]
    );
    let empty = vertex_layout(&vec![]).unwrap();
    assert_eq!((empty.stride, empty.attributes.len()), (0, 0));
}

#[test]
fn push_constants() {
    assert_eq!(push_constant_ranges(SHADER_STAGE_COMPUTE, 0), vec![]);
    assert_eq!(
        push_constant_ranges(SHADER_STAGE_COMPUTE, 12),
        vec![PushConstantRange { stage_flags: 0x20, offset: 0, size: 12 }]
    );
    assert_eq!(
        push_constant_ranges(SHADER_STAGE_ALL_GRAPHICS, 64),
        vec![PushConstantRange { stage_flags: 0x1f, offset: 0, size: 64 }]
    );
}

#[test]
fn values_are_ordered_and_hashed() {
    let mut extents = vec![Extent2D::new(2, 1), Extent2D::new(1, 9), Extent2D::new(1, 2)];
    extents.sort();
    assert_eq!(extents, vec![Extent2D::new(1, 2), Extent2D::new(1, 9), Extent2D::new(2, 1)]);
    assert!(Extent3D::new(1, 2, 3) < Extent3D::new(1, 2, 4));
    assert!(ImageLayout::Undefined < ImageLayout::General && ImageLayout::Preinitialized < ImageLayout::PresentSrc);
    assert!(MemoryLocation::GpuOnly < MemoryLocation::CpuToGpu && MemoryLocation::CpuToGpu < MemoryLocation::GpuToCpu);
    assert!(AllocationId::new(false, 7) < AllocationId::new(false, 8));
    assert!(AllocationId::new(false, 8) < AllocationId::new(true, 0));
    assert!(
        ImageUsageFlags::from_bits_truncate(ImageUsageFlags::SAMPLED)
            < ImageUsageFlags::from_bits_truncate(ImageUsageFlags::STORAGE)
    );
    assert!(
        BufferUsageFlags::from_bits_truncate(BufferUsageFlags::TRANSFER_SRC)
            < BufferUsageFlags::from_bits_truncate(BufferUsageFlags::UNIFORM)
    );
    assert!(AccessFlags::empty() < AccessFlags::from_bits_truncate(AccessFlags::INDEX_READ));
    assert!(MemoryFlags::empty() < MemoryFlags::from_bits_truncate(MemoryFlags::DEVICE_LOCAL));
    assert!(paya::command_recorder::CommandRecorderId(1) < paya::command_recorder::CommandRecorderId(2));
    let mut seen = std::collections::HashSet::new();
    assert!(seen.insert(Extent2D::new(1, 2)));
    assert!(!seen.insert(Extent2D::new(1, 2)));
    let mut ids = std::collections::HashSet::new();
    assert!(ids.insert(AllocationId::new(true, 1)));
    assert!(ids.insert(AllocationId::new(false, 1)));
    assert!(!ids.insert(AllocationId::new(true, 1)));
    let mut layouts = std::collections::HashSet::new();
    assert!(layouts.insert(ImageLayout::General) && !layouts.insert(ImageLayout::General));
}
