use vstd::prelude::*;

use crate::allocator::Allocation;
use crate::command_recorder::{
    known_recorders, resets_of, CommandList, CommandRecorder, CommandRecorderId, CommandRecorderPool,
    RecorderReset,
};
use crate::common::{Extent3D, Format, ImageUsageFlags, PipelineStageFlags};
use crate::error::ErrorKind;
use crate::frame_buckets::{in_window, FrameBuckets};
use crate::gpu_resources::{
    buffer_handles, image_handles, AddressWrite, Buffer, BufferId, DescriptorWrite, GpuResourcePool,
    ImageId, PoolTeardown,
};
use crate::slot_arena::{occupied_values, removed_values, slots_after_removals, stale_count};
use crate::swapchain::Swapchain;
use crate::sync::{BinarySemaphore, TimelineSemaphore};

verus! {

/// The kind of a physical device.
#[derive(Clone, Copy, Debug, PartialEq, Eq, Structural)]
pub enum DeviceType {
    Integrated,
    Discrete,
    Other,
}

impl DeviceType {
    /// The kind that the graphics API reports under the code `raw`: 1 is an
    /// integrated GPU, 2 a discrete one, and every other code another device.
    pub fn from_raw(raw: i32) -> (r: Self)
        ensures
            r == (if raw == 1 {
                DeviceType::Integrated
            } else if raw == 2 {
                DeviceType::Discrete
            } else {
                DeviceType::Other
            }),
    {
        if raw == 1 {
            DeviceType::Integrated
        } else if raw == 2 {
            DeviceType::Discrete
        } else {
            DeviceType::Other
        }
    }
}

/// What a device selector gets to see of a physical device.
pub struct DeviceProperties {
    pub device_type: DeviceType,
    pub device_name: String,
}

impl DeviceProperties {
    /// The properties of a device of the kind with the code `device_type`.
    pub fn new(device_type: i32, device_name: String) -> (r: Self)
        ensures
            r.device_type == (if device_type == 1 {
                DeviceType::Integrated
            } else if device_type == 2 {
                DeviceType::Discrete
            } else {
                DeviceType::Other
            }),
            r.device_name == device_name,
    {
        DeviceProperties { device_type: DeviceType::from_raw(device_type), device_name }
    }
}

/// Whether `best` is the device to select among `scores`: its score is
/// positive, no score is higher, and no earlier device scores as high.
pub open spec fn is_selected(scores: Seq<i32>, best: int) -> bool {
    &&& 0 <= best < scores.len()
    &&& scores[best] > 0
    &&& forall|i: int| 0 <= i < scores.len() ==> scores[i] <= scores[best]
    &&& forall|i: int| 0 <= i < best ==> scores[i] < scores[best]
}

/// Picks the physical device with the highest score, the first of them where
/// several score alike. A device that does not score above zero is never
/// picked, and without a pick the result is `Unsupported`.
pub fn select_physical_device(scores: &Vec<i32>) -> (r: Result<usize, ErrorKind>)
    ensures
        match r {
            Ok(best) => is_selected(scores@, best as int),
            Err(kind) => kind == ErrorKind::Unsupported && forall|i: int|
                0 <= i < scores@.len() ==> scores@[i] <= 0,
        },
{
    let mut best: Option<usize> = None;
    let mut i: usize = 0;
    while i < scores.len()
        invariant
            i <= scores@.len(),
            match best {
                Some(b) => b < i && is_selected(scores@.take(i as int), b as int),
                None => forall|j: int| 0 <= j < i ==> scores@[j] <= 0,
            },
        decreases scores@.len() - i,
    {
        let score = scores[i];
        let better = match best {
            Some(b) => score > scores[b],
            None => score > 0,
        };
        if better {
            best = Some(i);
        }
        i += 1;
    }
    assert(scores@.take(scores@.len() as int) =~= scores@);
    match best {
        Some(b) => Ok(b),
        None => Err(ErrorKind::Unsupported),
    }
}

/// What an image is created with.
#[derive(Debug, Clone, Copy, PartialEq, Eq, Structural)]
pub struct ImageInfo {
    pub dimensions: u32,
    pub extent: Extent3D,
    pub format: Format,
    pub usage: ImageUsageFlags,
}

impl ImageInfo {
    /// This description with another number of dimensions.
    pub fn dimensions(self, dimensions: u32) -> (r: Self)
        ensures
            r == (ImageInfo { dimensions, ..self }),
    {
        ImageInfo { dimensions, extent: self.extent, format: self.format, usage: self.usage }
    }

    /// This description with another extent.
    pub fn extent(self, extent: Extent3D) -> (r: Self)
        ensures
            r == (ImageInfo { extent, ..self }),
    {
        ImageInfo { dimensions: self.dimensions, extent, format: self.format, usage: self.usage }
    }

    /// This description with another format.
    pub fn format(self, format: Format) -> (r: Self)
        ensures
            r == (ImageInfo { format, ..self }),
    {
        ImageInfo { dimensions: self.dimensions, extent: self.extent, format, usage: self.usage }
    }

    /// This description with another usage.
    pub fn usage(self, usage: ImageUsageFlags) -> (r: Self)
        ensures
            r == (ImageInfo { usage, ..self }),
    {
        ImageInfo { dimensions: self.dimensions, extent: self.extent, format: self.format, usage }
    }

    /// Whether the image has one, two or three dimensions.
    pub open spec fn has_valid_dimensions(&self) -> bool {
        1 <= self.dimensions <= 3
    }

    /// The code of the image type, and of the view type, in the graphics
    /// API: one less than the number of dimensions. Another number of
    /// dimensions than one, two or three is a fault of the caller.
    pub fn image_type(&self) -> (r: Result<i32, ErrorKind>)
        ensures
            self.has_valid_dimensions() ==> r == Ok::<i32, ErrorKind>((self.dimensions - 1) as i32),
            !self.has_valid_dimensions() ==> r == Err::<i32, ErrorKind>(ErrorKind::ProgrammingFault),
    {
        if self.dimensions == 1 {
            Ok(0)
        } else if self.dimensions == 2 {
            Ok(1)
        } else if self.dimensions == 3 {
            Ok(2)
        } else {
            Err(ErrorKind::ProgrammingFault)
        }
    }
}

impl Default for ImageInfo {
    /// A two-dimensional image without extent or usage, in `R8G8B8A8Unorm`.
    fn default() -> (r: Self)
        ensures
            r.dimensions == 2,
            r.extent == (Extent3D { width: 0, height: 0, depth: 0 }),
            r.format == Format::R8G8B8A8Unorm,
            r.usage.bits() == 0,
    {
        ImageInfo {
            dimensions: 2,
            extent: Extent3D::new(0, 0, 0),
            format: Format::R8G8B8A8Unorm,
            usage: ImageUsageFlags::empty(),
        }
    }
}

/// An image of the resource pool. An image that a swapchain owns has a
/// handle that the pool must not destroy, and no allocation.
#[derive(Debug, Clone, Copy, PartialEq, Eq, Structural)]
pub struct Image {
    pub handle: u64,
    pub view: Option<u64>,
    pub info: ImageInfo,
    pub allocation: Option<Allocation>,
    pub is_swapchain_image: bool,
}

/// What has to be released when an image leaves the pool.
#[derive(Debug, Clone, Copy, PartialEq, Eq, Structural)]
pub struct ImageTeardown {
    /// The view to destroy.
    pub view: Option<u64>,
    /// The image handle to destroy.
    pub image: Option<u64>,
    /// The allocation to free.
    pub allocation: Option<Allocation>,
}

impl Image {
    /// What to release for this image: its view if it has one, its handle
    /// unless a swapchain owns it, and its allocation if it has one.
    pub fn teardown(&self) -> (r: ImageTeardown)
        ensures
            r.view == self.view,
            r.image == (if self.is_swapchain_image {
                None
            } else {
                Some(self.handle)
            }),
            r.allocation == self.allocation,
    {
        ImageTeardown {
            view: self.view,
            image: if self.is_swapchain_image {
                None
            } else {
                Some(self.handle)
            },
            allocation: self.allocation,
        }
    }
}

/// What to submit to the queue.
pub struct SubmitInfo {
    pub commands: Vec<CommandList>,
    pub wait_semaphores: Vec<BinarySemaphore>,
    pub signal_semaphores: Vec<BinarySemaphore>,
    pub signal_timeline_semaphores: Vec<(TimelineSemaphore, u64)>,
}

/// The queue submission that `Device::submit` has prepared, as the handles
/// and values to pass to the graphics API.
pub struct QueueSubmit {
    pub wait_semaphores: Vec<u64>,
    pub wait_dst_stage_mask: Vec<u32>,
    pub command_buffers: Vec<u64>,
    pub signal_semaphores: Vec<u64>,
    pub signal_values: Vec<u64>,
}

/// What to present.
pub struct PresentInfo<'a> {
    pub swapchain: &'a Swapchain,
    pub wait_semaphores: Vec<BinarySemaphore>,
}

/// The queue presentation that `Device::present` has prepared.
pub struct QueuePresent {
    pub wait_semaphores: Vec<u64>,
    pub swapchain: u64,
    pub image_index: u32,
}

/// What a collection has taken out of the device, to be released by the
/// caller: the recorders to reset, the buffers and images to destroy, and
/// of each kind the number of deferred ids that named nothing any more.
pub struct Garbage {
    pub recorders: Vec<RecorderReset>,
    pub buffers: Vec<Buffer>,
    pub images: Vec<Image>,
    pub stale_recorders: usize,
    pub stale_buffers: usize,
    pub stale_images: usize,
}

/// The handles of a list of binary semaphores.
pub open spec fn binary_handles(semaphores: Seq<BinarySemaphore>) -> Seq<u64> {
    Seq::new(semaphores.len(), |i: int| semaphores[i].handle())
}

/// The handles of a list of timeline semaphores with their values.
pub open spec fn timeline_handles(semaphores: Seq<(TimelineSemaphore, u64)>) -> Seq<u64> {
    Seq::new(semaphores.len(), |i: int| semaphores[i].0.handle())
}

/// The values of a list of timeline semaphores with their values.
pub open spec fn timeline_values(semaphores: Seq<(TimelineSemaphore, u64)>) -> Seq<u64> {
    Seq::new(semaphores.len(), |i: int| semaphores[i].1)
}

/// The command buffers of a list of command lists.
pub open spec fn command_buffers(commands: Seq<CommandList>) -> Seq<u64> {
    Seq::new(commands.len(), |i: int| commands[i].command_buffer)
}

/// The recorders of a list of command lists.
pub open spec fn recorder_ids(commands: Seq<CommandList>) -> Seq<CommandRecorderId> {
    Seq::new(commands.len(), |i: int| commands[i].id)
}

/// The buffers that a list of command lists wants destroyed, list by list.
pub open spec fn deferred_deletes(commands: Seq<CommandList>) -> Seq<BufferId>
    decreases commands.len(),
{
    if commands.len() == 0 {
        Seq::empty()
    } else {
        deferred_deletes(commands.drop_last()) + commands.last().deferred_delete_buffers@
    }
}

fn semaphore_handles(semaphores: &Vec<BinarySemaphore>) -> (r: Vec<u64>)
    ensures
        r@ == binary_handles(semaphores@),
{
    let mut out: Vec<u64> = Vec::new();
    let mut i: usize = 0;
    while i < semaphores.len()
        invariant
            i <= semaphores@.len(),
            out@ == binary_handles(semaphores@.take(i as int)),
        decreases semaphores@.len() - i,
    {
        out.push(semaphores[i].handle());
        i += 1;
        assert(out@ =~= binary_handles(semaphores@.take(i as int)));
    }
    assert(semaphores@.take(semaphores@.len() as int) =~= semaphores@);
    out
}

/// Whether bucket `frame` can hold items at the frame count `cpu_frame_index`:
/// it is the bucket of a frame from 1 up to the frame after the current one.
pub open spec fn bucket_in_use(cpu_frame_index: u64, frame: u64) -> bool {
    1 <= frame <= cpu_frame_index + 1
}

/// The frame engine of a device: its resource pool, its recorders, the
/// count of submitted frames, and what waits for the device to reach a frame.
pub struct Device {
    main_queue: u64,
    main_queue_family_index: u32,
    gpu_resources: GpuResourcePool,
    command_recorder_pool: CommandRecorderPool,
    deferred_destruct_recorders: FrameBuckets<CommandRecorderId>,
    deferred_destruct_buffers: FrameBuckets<BufferId>,
    deferred_destruct_images: FrameBuckets<ImageId>,
    frame_index: u64,
    submit_pending: bool,
}

impl Device {
    /// The resource pool.
    pub closed spec fn resources(&self) -> GpuResourcePool {
        self.gpu_resources
    }

    /// The recorder pool.
    pub closed spec fn recorder_pool(&self) -> CommandRecorderPool {
        self.command_recorder_pool
    }

    /// The recorders to free once the device has reached `frame`.
    pub closed spec fn deferred_recorders(&self, frame: u64) -> Seq<CommandRecorderId> {
        self.deferred_destruct_recorders.at(frame)
    }

    /// The buffers to destroy once the device has reached `frame`.
    pub closed spec fn deferred_buffers(&self, frame: u64) -> Seq<BufferId> {
        self.deferred_destruct_buffers.at(frame)
    }

    /// The images to destroy once the device has reached `frame`.
    pub closed spec fn deferred_images(&self, frame: u64) -> Seq<ImageId> {
        self.deferred_destruct_images.at(frame)
    }

    pub closed spec fn spec_cpu_frame_index(&self) -> u64 {
        self.frame_index
    }

    pub closed spec fn spec_main_queue(&self) -> u64 {
        self.main_queue
    }

    pub closed spec fn spec_main_queue_family_index(&self) -> u32 {
        self.main_queue_family_index
    }

    pub closed spec fn spec_has_pending_submit(&self) -> bool {
        self.submit_pending
    }

    /// The representation invariant: the pools are well formed, and items
    /// wait only in the buckets of frame 1 up to the frame after the
    /// current one.
    pub closed spec fn wf(&self) -> bool {
        &&& self.gpu_resources.wf()
        &&& self.command_recorder_pool.wf()
        &&& forall|frame: u64|
            !bucket_in_use(self.frame_index, frame) ==> (#[trigger] self.deferred_destruct_recorders.at(
                frame,
            )).len() == 0
        &&& forall|frame: u64|
            !bucket_in_use(self.frame_index, frame) ==> (#[trigger] self.deferred_destruct_buffers.at(
                frame,
            )).len() == 0
        &&& forall|frame: u64|
            !bucket_in_use(self.frame_index, frame) ==> (#[trigger] self.deferred_destruct_images.at(
                frame,
            )).len() == 0
    }

    /// No bucket at frame 0, or beyond the frame after the current one, holds
    /// items.
    pub proof fn lemma_buckets_in_range(&self, frame: u64)
        requires
            self.wf(),
            !bucket_in_use(self.cpu_frame_index(), frame),
        ensures
            self.deferred_recorders(frame).len() == 0,
            self.deferred_buffers(frame).len() == 0,
            self.deferred_images(frame).len() == 0,
    {
    }

    /// Whether `post` has the frame count, the queue and the deferred items
    /// of `self`.
    pub open spec fn same_timeline(&self, post: Device) -> bool {
        &&& post.cpu_frame_index() == self.cpu_frame_index()
        &&& post.has_pending_submit() == self.has_pending_submit()
        &&& post.main_queue() == self.main_queue()
        &&& post.main_queue_family_index() == self.main_queue_family_index()
        &&& post.recorder_pool().recorders() == self.recorder_pool().recorders()
        &&& post.recorder_pool().free_recorders() == self.recorder_pool().free_recorders()
        &&& forall|frame: u64| #[trigger] post.deferred_recorders(frame) == self.deferred_recorders(frame)
        &&& forall|frame: u64| #[trigger] post.deferred_buffers(frame) == self.deferred_buffers(frame)
        &&& forall|frame: u64| #[trigger] post.deferred_images(frame) == self.deferred_images(frame)
    }

    /// Whether `post` has the resources of `self`.
    pub open spec fn same_resources(&self, post: Device) -> bool {
        &&& post.resources().images() == self.resources().images()
        &&& post.resources().buffers() == self.resources().buffers()
        &&& post.resources().address_table() == self.resources().address_table()
        &&& post.resources().storage_image_descriptors() == self.resources().storage_image_descriptors()
    }

    /// A device at frame 0 around `gpu_resources`, without recorders and with
    /// nothing deferred.
    pub fn new(main_queue: u64, main_queue_family_index: u32, gpu_resources: GpuResourcePool) -> (r:
        Self)
        requires
            gpu_resources.wf(),
        ensures
            r.wf(),
            r.resources() == gpu_resources,
            r.cpu_frame_index() == 0,
            !r.has_pending_submit(),
            r.main_queue() == main_queue,
            r.main_queue_family_index() == main_queue_family_index,
            r.recorder_pool().recorders().len() == 0,
            r.recorder_pool().free_recorders().len() == 0,
            forall|frame: u64| (#[trigger] r.deferred_recorders(frame)).len() == 0,
            forall|frame: u64| (#[trigger] r.deferred_buffers(frame)).len() == 0,
            forall|frame: u64| (#[trigger] r.deferred_images(frame)).len() == 0,
    {
        Device {
            main_queue,
            main_queue_family_index,
            gpu_resources,
            command_recorder_pool: CommandRecorderPool::new(),
            deferred_destruct_recorders: FrameBuckets::new(),
            deferred_destruct_buffers: FrameBuckets::new(),
            deferred_destruct_images: FrameBuckets::new(),
            frame_index: 0,
            submit_pending: false,
        }
    }

    /// The number of frames submitted so far.
    #[verifier::when_used_as_spec(spec_cpu_frame_index)]
    pub fn cpu_frame_index(&self) -> (r: u64)
        ensures
            r == self.spec_cpu_frame_index(),
    {
        self.frame_index
    }

    /// Whether a submission was prepared and the answer of the queue is
    /// still to come.
    #[verifier::when_used_as_spec(spec_has_pending_submit)]
    pub fn has_pending_submit(&self) -> (r: bool)
        ensures
            r == self.spec_has_pending_submit(),
    {
        self.submit_pending
    }

    /// The handle of the queue that the device submits to.
    #[verifier::when_used_as_spec(spec_main_queue)]
    pub fn main_queue(&self) -> (r: u64)
        ensures
            r == self.spec_main_queue(),
    {
        self.main_queue
    }

    /// The family of the queue that the device submits to.
    #[verifier::when_used_as_spec(spec_main_queue_family_index)]
    pub fn main_queue_family_index(&self) -> (r: u32)
        ensures
            r == self.spec_main_queue_family_index(),
    {
        self.main_queue_family_index
    }

    /// The resource pool, to read from.
    pub fn gpu_resources(&self) -> (r: &GpuResourcePool)
        ensures
            *r == self.resources(),
    {
        &self.gpu_resources
    }

    /// Enters an image that a swapchain owns; see `GpuResourcePool::create_image`.
    pub fn create_swapchain_image(&mut self, image_handle: u64, view: Option<u64>, info: &ImageInfo) -> (r:
        Result<(ImageId, Option<DescriptorWrite>), ErrorKind>)
        requires
            old(self).wf(),
        ensures
            final(self).wf(),
            old(self).same_timeline(*final(self)),
            old(self).resources().image_created(
                final(self).resources(),
                Image { handle: image_handle, view, info: *info, allocation: None, is_swapchain_image: true },
                r,
            ),
    {
        self.gpu_resources.create_image(
            Image { handle: image_handle, view, info: *info, allocation: None, is_swapchain_image: true },
        )
    }

    /// Enters an image; see `GpuResourcePool::create_image`.
    pub fn create_image(&mut self, image: Image) -> (r: Result<(ImageId, Option<DescriptorWrite>), ErrorKind>)
        requires
            old(self).wf(),
        ensures
            final(self).wf(),
            old(self).same_timeline(*final(self)),
            old(self).resources().image_created(final(self).resources(), image, r),
    {
        self.gpu_resources.create_image(image)
    }

    /// The image behind `id`, or `InvalidHandle`.
    pub fn get_image(&self, id: ImageId) -> (r: Result<&Image, ErrorKind>)
        requires
            self.wf(),
        ensures
            crate::slot_arena::is_live(self.resources().images(), id.0) ==> r == Ok::<&Image, ErrorKind>(
                &self.resources().images()[id.0.index() as int].value->0,
            ),
            !crate::slot_arena::is_live(self.resources().images(), id.0) ==> r == Err::<&Image, ErrorKind>(
                ErrorKind::InvalidHandle,
            ),
    {
        self.gpu_resources.get_image(id)
    }

    /// Takes an image out of the pool now; see `GpuResourcePool::destroy_image`.
    pub fn destroy_image(&mut self, id: ImageId) -> (r: Result<ImageTeardown, ErrorKind>)
        requires
            old(self).wf(),
        ensures
            final(self).wf(),
            old(self).same_timeline(*final(self)),
            old(self).resources().image_destroyed(final(self).resources(), id, r),
    {
        self.gpu_resources.destroy_image(id)
    }

    /// Leaves image `id` to be destroyed once the device has reached the
    /// frame after the one being recorded.
    pub fn destroy_image_deferred(&mut self, id: ImageId)
        requires
            old(self).wf(),
            old(self).cpu_frame_index() < u64::MAX,
        ensures
            final(self).wf(),
            old(self).same_resources(*final(self)),
            final(self).cpu_frame_index() == old(self).cpu_frame_index(),
            final(self).has_pending_submit() == old(self).has_pending_submit(),
            final(self).deferred_images((old(self).cpu_frame_index() + 1) as u64) == old(
                self,
            ).deferred_images((old(self).cpu_frame_index() + 1) as u64).push(id),
            forall|frame: u64|
                frame != old(self).cpu_frame_index() + 1 ==> #[trigger] final(self).deferred_images(frame)
                    == old(self).deferred_images(frame),
            forall|frame: u64| #[trigger] final(self).deferred_buffers(frame) == old(self).deferred_buffers(frame),
            forall|frame: u64|
                #[trigger] final(self).deferred_recorders(frame) == old(self).deferred_recorders(frame),
    {
        self.deferred_destruct_images.push(self.frame_index + 1, id);
    }

    /// Enters a buffer; see `GpuResourcePool::create_buffer`.
    pub fn create_buffer(&mut self, buffer: Buffer) -> (r: Result<(BufferId, AddressWrite), ErrorKind>)
        requires
            old(self).wf(),
        ensures
            final(self).wf(),
            old(self).same_timeline(*final(self)),
            old(self).resources().buffer_created(final(self).resources(), buffer, r),
    {
        self.gpu_resources.create_buffer(buffer)
    }

    /// The buffer behind `id`, or `InvalidHandle`.
    pub fn get_buffer(&self, id: BufferId) -> (r: Result<&Buffer, ErrorKind>)
        requires
            self.wf(),
        ensures
            crate::slot_arena::is_live(self.resources().buffers(), id.0) ==> r == Ok::<&Buffer, ErrorKind>(
                &self.resources().buffers()[id.0.index() as int].value->0,
            ),
            !crate::slot_arena::is_live(self.resources().buffers(), id.0) ==> r == Err::<
                &Buffer,
                ErrorKind,
            >(ErrorKind::InvalidHandle),
    {
        self.gpu_resources.get_buffer(id)
    }

    /// Takes a buffer out of the pool now; see `GpuResourcePool::destroy_buffer`.
    pub fn destroy_buffer(&mut self, id: BufferId) -> (r: Result<Buffer, ErrorKind>)
        requires
            old(self).wf(),
        ensures
            final(self).wf(),
            old(self).same_timeline(*final(self)),
            old(self).resources().buffer_destroyed(final(self).resources(), id, r),
    {
        self.gpu_resources.destroy_buffer(id)
    }

    /// Leaves buffer `id` to be destroyed once the device has reached the
    /// frame after the one being recorded.
    pub fn destroy_buffer_deferred(&mut self, id: BufferId)
        requires
            old(self).wf(),
            old(self).cpu_frame_index() < u64::MAX,
        ensures
            final(self).wf(),
            old(self).same_resources(*final(self)),
            final(self).cpu_frame_index() == old(self).cpu_frame_index(),
            final(self).has_pending_submit() == old(self).has_pending_submit(),
            final(self).deferred_buffers((old(self).cpu_frame_index() + 1) as u64) == old(
                self,
            ).deferred_buffers((old(self).cpu_frame_index() + 1) as u64).push(id),
            forall|frame: u64|
                frame != old(self).cpu_frame_index() + 1 ==> #[trigger] final(self).deferred_buffers(frame)
                    == old(self).deferred_buffers(frame),
            forall|frame: u64| #[trigger] final(self).deferred_images(frame) == old(self).deferred_images(frame),
            forall|frame: u64|
                #[trigger] final(self).deferred_recorders(frame) == old(self).deferred_recorders(frame),
    {
        self.deferred_destruct_buffers.push(self.frame_index + 1, id);
    }
}

impl Device {
    /// Rents a recorder that is free, if there is one; see
    /// `CommandRecorderPool::rent`.
    pub fn rent_command_recorder(&mut self) -> (r: Option<CommandRecorder>)
        requires
            old(self).wf(),
        ensures
            final(self).wf(),
            old(self).same_resources(*final(self)),
            final(self).cpu_frame_index() == old(self).cpu_frame_index(),
            final(self).has_pending_submit() == old(self).has_pending_submit(),
            final(self).recorder_pool().recorders() == old(self).recorder_pool().recorders(),
            r is Some <==> old(self).recorder_pool().free_recorders().len() > 0,
            r is None ==> final(self).recorder_pool().free_recorders() == old(
                self,
            ).recorder_pool().free_recorders(),
            r is Some ==> ({
                let id = old(self).recorder_pool().free_recorders().last();
                &&& final(self).recorder_pool().free_recorders() == old(
                    self,
                ).recorder_pool().free_recorders().drop_last()
                &&& r->0.wf()
                &&& r->0.id() == id
                &&& (r->0.pool(), r->0.command_buffer()) == old(self).recorder_pool().recorders()[id.0 as int]
                &&& r->0.deferred_delete_buffers().len() == 0
            }),
            forall|frame: u64|
                #[trigger] final(self).deferred_recorders(frame) == old(self).deferred_recorders(frame),
            forall|frame: u64| #[trigger] final(self).deferred_buffers(frame) == old(self).deferred_buffers(frame),
            forall|frame: u64| #[trigger] final(self).deferred_images(frame) == old(self).deferred_images(frame),
    {
        self.command_recorder_pool.rent()
    }

    /// Whether one more recorder can be created.
    pub fn can_create_command_recorder(&self) -> (r: bool)
        ensures
            r == self.recorder_pool().has_room(),
    {
        self.command_recorder_pool.recorder_count() < u32::MAX as usize
    }

    /// Adds a recorder around a new command pool and its command buffer and
    /// rents it out; see `CommandRecorderPool::create_command_recorder`.
    pub fn create_command_recorder(&mut self, command_pool: u64, command_buffer: u64) -> (r:
        CommandRecorder)
        requires
            old(self).wf(),
            old(self).recorder_pool().has_room(),
        ensures
            final(self).wf(),
            old(self).same_resources(*final(self)),
            final(self).cpu_frame_index() == old(self).cpu_frame_index(),
            final(self).has_pending_submit() == old(self).has_pending_submit(),
            final(self).recorder_pool().recorders() == old(self).recorder_pool().recorders().push(
                (command_pool, command_buffer),
            ),
            final(self).recorder_pool().free_recorders() == old(self).recorder_pool().free_recorders(),
            r.wf(),
            r.id().0 == old(self).recorder_pool().recorders().len(),
            r.pool() == command_pool,
            r.command_buffer() == command_buffer,
            r.deferred_delete_buffers().len() == 0,
            forall|frame: u64|
                #[trigger] final(self).deferred_recorders(frame) == old(self).deferred_recorders(frame),
            forall|frame: u64| #[trigger] final(self).deferred_buffers(frame) == old(self).deferred_buffers(frame),
            forall|frame: u64| #[trigger] final(self).deferred_images(frame) == old(self).deferred_images(frame),
    {
        self.command_recorder_pool.create_command_recorder(command_pool, command_buffer)
    }

    /// What `submit` does: the submission `r` that it prepares from `info`,
    /// and what it leaves in the bucket of the next frame.
    pub open spec fn submitted(&self, post: Device, info: SubmitInfo, r: QueueSubmit) -> bool {
        let next = (self.cpu_frame_index() + 1) as u64;
        &&& self.same_resources(post)
        &&& post.cpu_frame_index() == self.cpu_frame_index()
        &&& post.has_pending_submit()
        &&& post.recorder_pool().recorders() == self.recorder_pool().recorders()
        &&& post.recorder_pool().free_recorders() == self.recorder_pool().free_recorders()
        &&& r.wait_semaphores@ == binary_handles(info.wait_semaphores@)
        &&& r.wait_dst_stage_mask@ == Seq::new(
            info.wait_semaphores@.len(),
            |i: int| PipelineStageFlags::BOTTOM_OF_PIPE,
        )
        &&& r.command_buffers@ == command_buffers(info.commands@)
        &&& r.signal_semaphores@ == binary_handles(info.signal_semaphores@) + timeline_handles(
            info.signal_timeline_semaphores@,
        )
        &&& r.signal_values@ == Seq::new(info.signal_semaphores@.len(), |i: int| 0u64) + timeline_values(
            info.signal_timeline_semaphores@,
        )
        &&& post.deferred_recorders(next) == self.deferred_recorders(next) + recorder_ids(info.commands@)
        &&& post.deferred_buffers(next) == self.deferred_buffers(next) + deferred_deletes(info.commands@)
        &&& forall|frame: u64|
            frame != next ==> #[trigger] post.deferred_recorders(frame) == self.deferred_recorders(frame)
        &&& forall|frame: u64|
            frame != next ==> #[trigger] post.deferred_buffers(frame) == self.deferred_buffers(frame)
        &&& forall|frame: u64| #[trigger] post.deferred_images(frame) == self.deferred_images(frame)
    }

    /// Prepares a queue submission: the semaphores to wait for, each at the
    /// bottom of the pipe, the command buffers, and the semaphores to signal,
    /// the binary ones with the value 0 before the timeline ones with their
    /// values. The recorders of the command lists, and the buffers that the
    /// lists want destroyed, go into the bucket of the next frame. The
    /// submission is then pending: the frame count moves on in
    /// `complete_submit`, once the queue has taken it, and no other
    /// submission is prepared before that.
    pub fn submit(&mut self, info: SubmitInfo) -> (r: QueueSubmit)
        requires
            old(self).wf(),
            old(self).cpu_frame_index() < u64::MAX,
            !old(self).has_pending_submit(),
        ensures
            final(self).wf(),
            old(self).submitted(*final(self), info, r),
    {
        let wait_semaphores = semaphore_handles(&info.wait_semaphores);
        let mut wait_dst_stage_mask: Vec<u32> = Vec::new();
        let mut w: usize = 0;
        while w < info.wait_semaphores.len()
            invariant
                w <= info.wait_semaphores@.len(),
                wait_dst_stage_mask@ == Seq::new(w as nat, |i: int| PipelineStageFlags::BOTTOM_OF_PIPE),
            decreases info.wait_semaphores@.len() - w,
        {
            wait_dst_stage_mask.push(PipelineStageFlags::BOTTOM_OF_PIPE);
            w += 1;
            assert(wait_dst_stage_mask@ =~= Seq::new(w as nat, |i: int| PipelineStageFlags::BOTTOM_OF_PIPE));
        }
        let mut signal_semaphores = semaphore_handles(&info.signal_semaphores);
        let mut signal_values: Vec<u64> = Vec::new();
        let mut b: usize = 0;
        while b < info.signal_semaphores.len()
            invariant
                b <= info.signal_semaphores@.len(),
                signal_values@ == Seq::new(b as nat, |i: int| 0u64),
            decreases info.signal_semaphores@.len() - b,
        {
            signal_values.push(0);
            b += 1;
            assert(signal_values@ =~= Seq::new(b as nat, |i: int| 0u64));
        }
        let ghost timelines = info.signal_timeline_semaphores@;
        let mut t: usize = 0;
        while t < info.signal_timeline_semaphores.len()
            invariant
                t <= timelines.len(),
                timelines == info.signal_timeline_semaphores@,
                signal_semaphores@ == binary_handles(info.signal_semaphores@) + timeline_handles(
                    timelines.take(t as int),
                ),
                signal_values@ == Seq::new(info.signal_semaphores@.len(), |i: int| 0u64) + timeline_values(
                    timelines.take(t as int),
                ),
            decreases timelines.len() - t,
        {
            let entry = &info.signal_timeline_semaphores[t];
            signal_semaphores.push(entry.0.handle());
            signal_values.push(entry.1);
            t += 1;
            assert(signal_semaphores@ =~= binary_handles(info.signal_semaphores@) + timeline_handles(
                timelines.take(t as int),
            ));
            assert(signal_values@ =~= Seq::new(info.signal_semaphores@.len(), |i: int| 0u64)
                + timeline_values(timelines.take(t as int)));
        }
        assert(timelines.take(timelines.len() as int) =~= timelines);
        let ghost commands = info.commands@;
        let mut buffers: Vec<u64> = Vec::new();
        let mut recorders: Vec<CommandRecorderId> = Vec::new();
        let mut deletes: Vec<BufferId> = Vec::new();
        let mut c: usize = 0;
        while c < info.commands.len()
            invariant
                c <= commands.len(),
                commands == info.commands@,
                buffers@ == command_buffers(commands.take(c as int)),
                recorders@ == recorder_ids(commands.take(c as int)),
                deletes@ == deferred_deletes(commands.take(c as int)),
            decreases commands.len() - c,
        {
            let list = &info.commands[c];
            buffers.push(list.command_buffer);
            recorders.push(list.id);
            let mut k: usize = 0;
            let ghost before = deletes@;
            while k < list.deferred_delete_buffers.len()
                invariant
                    k <= list.deferred_delete_buffers@.len(),
                    deletes@ == before + list.deferred_delete_buffers@.take(k as int),
                decreases list.deferred_delete_buffers@.len() - k,
            {
                deletes.push(list.deferred_delete_buffers[k]);
                k += 1;
                assert(deletes@ =~= before + list.deferred_delete_buffers@.take(k as int));
            }
            proof {
                assert(list.deferred_delete_buffers@.take(k as int) =~= list.deferred_delete_buffers@);
                assert(commands.take(c + 1).drop_last() =~= commands.take(c as int));
                assert(commands.take(c + 1).last() == commands[c as int]);
            }
            c += 1;
            assert(buffers@ =~= command_buffers(commands.take(c as int)));
            assert(recorders@ =~= recorder_ids(commands.take(c as int)));
        }
        assert(commands.take(commands.len() as int) =~= commands);
        let next = self.frame_index + 1;
        self.deferred_destruct_recorders.extend(next, recorders);
        self.deferred_destruct_buffers.extend(next, deletes);
        self.submit_pending = true;
        QueueSubmit {
            wait_semaphores,
            wait_dst_stage_mask,
            command_buffers: buffers,
            signal_semaphores,
            signal_values,
        }
    }

    /// Takes note of how the queue answered the pending submission: the
    /// frame count goes up by one if the queue took it, and stays as it is,
    /// with the fault handed on, if it did not. Either way no submission is
    /// pending any more.
    pub fn complete_submit(&mut self, outcome: Result<(), ErrorKind>) -> (r: Result<(), ErrorKind>)
        requires
            old(self).wf(),
            old(self).cpu_frame_index() < u64::MAX,
            old(self).has_pending_submit(),
        ensures
            final(self).wf(),
            !final(self).has_pending_submit(),
            r == outcome,
            old(self).same_resources(*final(self)),
            final(self).cpu_frame_index() == (if outcome is Ok {
                old(self).cpu_frame_index() + 1
            } else {
                old(self).cpu_frame_index() as int
            }),
            final(self).recorder_pool().recorders() == old(self).recorder_pool().recorders(),
            final(self).recorder_pool().free_recorders() == old(self).recorder_pool().free_recorders(),
            forall|frame: u64|
                #[trigger] final(self).deferred_recorders(frame) == old(self).deferred_recorders(frame),
            forall|frame: u64| #[trigger] final(self).deferred_buffers(frame) == old(self).deferred_buffers(frame),
            forall|frame: u64| #[trigger] final(self).deferred_images(frame) == old(self).deferred_images(frame),
    {
        if outcome.is_ok() {
            self.frame_index += 1;
        }
        self.submit_pending = false;
        outcome
    }
}

/// The items of the buckets that a collection at the device value
/// `gpu_value` sweeps, given the items of every bucket: those of the bucket
/// of that value, then those of the two buckets before it.
pub open spec fn items_in_window<T>(bucket: spec_fn(u64) -> Seq<T>, gpu_value: u64) -> Seq<T> {
    bucket(gpu_value) + (if gpu_value >= 1 {
        bucket((gpu_value - 1) as u64)
    } else {
        Seq::empty()
    }) + (if gpu_value >= 2 {
        bucket((gpu_value - 2) as u64)
    } else {
        Seq::empty()
    })
}

impl Device {
    /// What `collect_garbage` does at the device value `gpu_value`: the
    /// buckets in the window are emptied, their recorders are freed, their
    /// buffers and images leave the pool, and every other bucket stays.
    pub open spec fn collected(&self, post: Device, gpu_value: u64, r: Garbage) -> bool {
        let recorders = items_in_window(|frame: u64| self.deferred_recorders(frame), gpu_value);
        let buffers = buffer_handles(
            items_in_window(|frame: u64| self.deferred_buffers(frame), gpu_value),
        );
        let images = image_handles(items_in_window(|frame: u64| self.deferred_images(frame), gpu_value));
        let known = known_recorders(self.recorder_pool().recorders().len(), recorders);
        &&& post.cpu_frame_index() == self.cpu_frame_index()
        &&& post.has_pending_submit() == self.has_pending_submit()
        &&& post.main_queue() == self.main_queue()
        &&& post.main_queue_family_index() == self.main_queue_family_index()
        &&& forall|frame: u64|
            in_window(gpu_value, frame) ==> (#[trigger] post.deferred_recorders(frame)).len() == 0
        &&& forall|frame: u64|
            in_window(gpu_value, frame) ==> (#[trigger] post.deferred_buffers(frame)).len() == 0
        &&& forall|frame: u64|
            in_window(gpu_value, frame) ==> (#[trigger] post.deferred_images(frame)).len() == 0
        &&& forall|frame: u64|
            !in_window(gpu_value, frame) ==> #[trigger] post.deferred_recorders(frame)
                == self.deferred_recorders(frame)
        &&& forall|frame: u64|
            !in_window(gpu_value, frame) ==> #[trigger] post.deferred_buffers(frame)
                == self.deferred_buffers(frame)
        &&& forall|frame: u64|
            !in_window(gpu_value, frame) ==> #[trigger] post.deferred_images(frame)
                == self.deferred_images(frame)
        &&& post.recorder_pool().recorders() == self.recorder_pool().recorders()
        &&& post.recorder_pool().free_recorders() == self.recorder_pool().free_recorders() + known
        &&& r.recorders@ == resets_of(self.recorder_pool().recorders(), known)
        &&& r.stale_recorders == recorders.len() - known.len()
        &&& post.resources().address_table() == self.resources().address_table()
        &&& post.resources().storage_image_descriptors() == self.resources().storage_image_descriptors()
        &&& post.resources().buffers() == slots_after_removals(self.resources().buffers(), buffers)
        &&& r.buffers@ == removed_values(self.resources().buffers(), buffers)
        &&& r.stale_buffers == stale_count(self.resources().buffers(), buffers)
        &&& post.resources().images() == slots_after_removals(self.resources().images(), images)
        &&& r.images@ == removed_values(self.resources().images(), images)
        &&& r.stale_images == stale_count(self.resources().images(), images)
    }

    /// Reclaims what waited for the device to reach `gpu_value`, the value
    /// that the device was seen to have reached on its timeline: the
    /// buckets of that value and of the two before it are emptied, their
    /// recorders go back on the free list, and their buffers and images
    /// leave the pool. What comes back is for the caller to reset and to
    /// destroy. A bucket of a later frame is left alone.
    pub fn collect_garbage(&mut self, gpu_value: u64) -> (r: Garbage)
        requires
            old(self).wf(),
        ensures
            final(self).wf(),
            old(self).collected(*final(self), gpu_value, r),
    {
        let recorder_ids = self.deferred_destruct_recorders.take_window(gpu_value);
        let buffer_ids = self.deferred_destruct_buffers.take_window(gpu_value);
        let image_ids = self.deferred_destruct_images.take_window(gpu_value);
        proof {
            assert(recorder_ids@ =~= items_in_window(
                |frame: u64| old(self).deferred_recorders(frame),
                gpu_value,
            ));
            assert(buffer_ids@ =~= items_in_window(
                |frame: u64| old(self).deferred_buffers(frame),
                gpu_value,
            ));
            assert(image_ids@ =~= items_in_window(|frame: u64| old(self).deferred_images(frame), gpu_value));
        }
        let (recorders, stale_recorders) = self.command_recorder_pool.free_command_recorders(
            &recorder_ids,
        );
        let (buffers, stale_buffers) = self.gpu_resources.destroy_buffers(&buffer_ids);
        let (images, stale_images) = self.gpu_resources.destroy_images(&image_ids);
        Garbage { recorders, buffers, images, stale_recorders, stale_buffers, stale_images }
    }

    /// Deferred reclamation safety: a collection at the device value
    /// `gpu_value` leaves every bucket of a later frame as it was, and does
    /// not touch the frame count. So what was enqueued for frame `k + 1` is
    /// not destroyed before a collection has seen the device at `k + 1` or
    /// beyond.
    pub proof fn lemma_collection_waits(&self, post: Device, gpu_value: u64, r: Garbage, frame: u64)
        requires
            self.collected(post, gpu_value, r),
            frame > gpu_value,
        ensures
            post.cpu_frame_index() == self.cpu_frame_index(),
            post.deferred_recorders(frame) == self.deferred_recorders(frame),
            post.deferred_buffers(frame) == self.deferred_buffers(frame),
            post.deferred_images(frame) == self.deferred_images(frame),
    {
    }
}

impl Device {
    /// Prepares the presentation of the image that the swapchain acquired
    /// last. Without such an image the result is a `ProgrammingFault`.
    pub fn present(&self, info: &PresentInfo) -> (r: Result<QueuePresent, ErrorKind>)
        ensures
            match info.swapchain.last_aquired_image_index() {
                Some(index) => r is Ok && r->Ok_0.image_index == index && r->Ok_0.swapchain
                    == info.swapchain.handle() && r->Ok_0.wait_semaphores@ == binary_handles(
                    info.wait_semaphores@,
                ),
                None => r is Err && r->Err_0 == ErrorKind::ProgrammingFault,
            },
    {
        match info.swapchain.last_aquired_image_index() {
            Some(image_index) => Ok(
                QueuePresent {
                    wait_semaphores: semaphore_handles(&info.wait_semaphores),
                    swapchain: info.swapchain.handle(),
                    image_index,
                },
            ),
            None => Err(ErrorKind::ProgrammingFault),
        }
    }
}

impl Device {
    /// The command pools of the recorders, by recorder id, to be destroyed
    /// when the device is torn down.
    pub fn command_pools(&self) -> (r: Vec<u64>)
        ensures
            r@.len() == self.recorder_pool().recorders().len(),
            forall|i: int| 0 <= i < r@.len() ==> r@[i] == self.recorder_pool().recorders()[i].0,
    {
        self.command_recorder_pool.command_pools()
    }

    /// Shuts the device down: what is left in its resource pool comes back,
    /// in the order in which it is to be released. What was still deferred
    /// is among it.
    pub fn shutdown(self) -> (r: PoolTeardown)
        requires
            self.wf(),
        ensures
            r.images@ == occupied_values(self.resources().images()),
            r.buffers@ == occupied_values(self.resources().buffers()),
            r.buffer_addresses_buffer == self.resources().spec_buffer_addresses_buffer(),
            r.bindless_descriptor_set_layout == self.resources().bindless_descriptor_set_layout(),
            r.descriptor_pool == self.resources().descriptor_pool(),
    {
        self.gpu_resources.shutdown()
    }
}

} // verus!
