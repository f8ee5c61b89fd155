use vstd::prelude::*;

use crate::allocator::{Allocation, MemoryFlags};
use crate::common::{BufferUsageFlags, ImageUsageFlags};
use crate::device::{Image, ImageInfo, ImageTeardown};
use crate::error::ErrorKind;
use crate::slot_arena::{
    inserted_index, inserted_version, is_live, occupied_values, removed_values, slots_after_insert,
    slots_after_remove, slots_after_removals, stale_count, SlotView,
};

pub use crate::slot_arena::{ResourceEntry, ResourceSlot, ResourceVersionEntry};

verus! {

/// Number of entries in the buffer address table.
pub const MAX_BUFFERS: u64 = 1000;

/// Number of storage image descriptors in the bindless set.
pub const MAX_IMAGES: u64 = 1000;

/// Binding of the buffer address table in the bindless set.
pub const BUFFER_ADDRESSES_BINDING: u32 = 0;

/// Binding of the storage image array in the bindless set.
pub const STORAGE_IMAGE_BINDING: u32 = 1;

/// A versioned handle: the slot it names and the version the slot had when
/// the handle was issued.
#[derive(Clone, Copy, Debug, PartialEq, Eq, Structural)]
pub struct GpuResourceId {
    index: u32,
    version: u16,
}

impl GpuResourceId {
    /// The handle of slot `index` at `version`.
    pub fn from_parts(index: u32, version: u16) -> (r: Self)
        ensures
            r.index() == index,
            r.version() == version,
    {
        GpuResourceId { index, version }
    }

    pub closed spec fn spec_index(&self) -> u32 {
        self.index
    }

    pub closed spec fn spec_version(&self) -> u16 {
        self.version
    }

    /// The slot this handle names.
    #[verifier::when_used_as_spec(spec_index)]
    pub fn index(&self) -> (r: u32)
        ensures
            r == self.spec_index(),
    {
        self.index
    }

    /// The version the slot had when this handle was issued.
    #[verifier::when_used_as_spec(spec_version)]
    pub fn version(&self) -> (r: u16)
        ensures
            r == self.spec_version(),
    {
        self.version
    }
}

/// The shader-visible form of a handle: the slot index alone.
#[derive(Clone, Copy, Debug, PartialEq, Eq, Structural)]
pub struct PackedGpuResourceId(u32);

impl PackedGpuResourceId {
    pub closed spec fn spec_raw(&self) -> u32 {
        self.0
    }

    pub fn new(id: GpuResourceId) -> (r: Self)
        ensures
            r.raw() == id.index(),
    {
        PackedGpuResourceId(id.index)
    }

    /// The 32-bit value uploaded to shaders.
    #[verifier::when_used_as_spec(spec_raw)]
    pub fn raw(&self) -> (r: u32)
        ensures
            r == self.spec_raw(),
    {
        self.0
    }
}

/// Handle of an image in the resource pool.
#[derive(Clone, Copy, Debug, PartialEq, Eq, Structural)]
pub struct ImageId(pub GpuResourceId);

impl ImageId {
    pub fn pack(&self) -> (r: PackedGpuResourceId)
        ensures
            r.raw() == self.0.index(),
    {
        PackedGpuResourceId::new(self.0)
    }
}

/// Handle of a buffer in the resource pool.
#[derive(Clone, Copy, Debug, PartialEq, Eq, Structural)]
pub struct BufferId(pub GpuResourceId);

impl BufferId {
    pub fn pack(&self) -> (r: PackedGpuResourceId)
        ensures
            r.raw() == self.0.index(),
    {
        PackedGpuResourceId::new(self.0)
    }
}

/// What a packed id refers to on the shader side.
#[derive(Debug, Clone, Copy, PartialEq, Eq, Structural)]
pub enum GpuResourceType {
    Undefined,
    StorageImage,
    Buffer,
}

impl GpuResourceType {
    pub open spec fn spec_raw(&self) -> u32 {
        match self {
            GpuResourceType::Undefined => 0,
            GpuResourceType::StorageImage => 1,
            GpuResourceType::Buffer => 2,
        }
    }

    /// The number that stands for this kind.
    #[verifier::when_used_as_spec(spec_raw)]
    pub fn raw(&self) -> (r: u32)
        ensures
            r == self.spec_raw(),
    {
        match self {
            GpuResourceType::Undefined => 0,
            GpuResourceType::StorageImage => 1,
            GpuResourceType::Buffer => 2,
        }
    }
}

/// What a buffer is created with.
#[derive(Clone, Debug)]
pub struct BufferInfo {
    pub name: String,
    pub size: u64,
    pub memory_flags: MemoryFlags,
    pub usage: BufferUsageFlags,
}

/// A buffer of the resource pool, with the device address under which
/// shaders reach it.
#[derive(Clone, Debug)]
pub struct Buffer {
    pub handle: u64,
    pub offset: u64,
    pub size: u64,
    pub allocation: Allocation,
    pub info: BufferInfo,
    pub address: u64,
}

/// A write of one storage image descriptor into the bindless set, in the
/// general layout and without a sampler.
#[derive(Clone, Copy, Debug, PartialEq, Eq, Structural)]
pub struct DescriptorWrite {
    pub binding: u32,
    pub element: u32,
    pub view: u64,
}

/// A write of one device address into the address table.
#[derive(Clone, Copy, Debug, PartialEq, Eq, Structural)]
pub struct AddressWrite {
    pub index: u32,
    pub byte_offset: u64,
    pub address: u64,
}

/// What has to be created for an image before it can enter the pool.
#[derive(Clone, Copy, Debug, PartialEq, Eq, Structural)]
pub struct ImagePlan {
    /// Whether to create the image; an adopted image exists already.
    pub create_image: bool,
    /// Whether to allocate and bind device-local memory.
    pub allocate: bool,
    /// Whether to create a view.
    pub create_view: bool,
}

/// Decides what to create for an image: the image and its memory unless an
/// existing image is adopted, and a view where the usage needs one. Where
/// something has to be created, the number of dimensions must be valid.
pub fn plan_image(existing_image: Option<u64>, info: &ImageInfo) -> (r: Result<ImagePlan, ErrorKind>)
    ensures
        ({
            let needed = existing_image is None || info.usage.bits() & ImageUsageFlags::VIEW_USAGES != 0;
            if needed && !info.has_valid_dimensions() {
                r == Err::<ImagePlan, ErrorKind>(ErrorKind::ProgrammingFault)
            } else {
                r == Ok::<ImagePlan, ErrorKind>(
                    ImagePlan {
                        create_image: existing_image is None,
                        allocate: existing_image is None,
                        create_view: info.usage.bits() & ImageUsageFlags::VIEW_USAGES != 0,
                    },
                )
            }
        }),
{
    let create = existing_image.is_none();
    let view = info.usage.needs_view();
    if (create || view) && info.image_type().is_err() {
        return Err(ErrorKind::ProgrammingFault);
    }
    Ok(ImagePlan { create_image: create, allocate: create, create_view: view })
}

/// The registry of images and buffers behind the bindless descriptor set.
/// It keeps what was last written to the address table and to the storage
/// image descriptors, so that every write it hands out is on record.
pub struct GpuResourcePool {
    descriptor_pool: u64,
    bindless_descriptor_set_layout: u64,
    descriptor_set: u64,
    buffer_addresses_buffer: Buffer,
    address_table: Vec<u64>,
    storage_images: Vec<Option<u64>>,
    images: ResourceSlot<Image>,
    buffers: ResourceSlot<Buffer>,
}

impl GpuResourcePool {
    /// The image slots.
    pub closed spec fn images(&self) -> Seq<SlotView<Image>> {
        self.images@
    }

    /// The buffer slots.
    pub closed spec fn buffers(&self) -> Seq<SlotView<Buffer>> {
        self.buffers@
    }

    /// The address table: entry `i` is the address last written for slot `i`.
    pub closed spec fn address_table(&self) -> Seq<u64> {
        self.address_table@
    }

    /// The storage image descriptors of the bindless set: element `i` is the
    /// view last written for slot `i`, if any was.
    pub closed spec fn storage_image_descriptors(&self) -> Seq<Option<u64>> {
        self.storage_images@
    }

    /// The representation invariant: both arenas are well formed and fit the
    /// table and the descriptor array, the table holds the address of every
    /// live buffer at its slot, and the descriptor array holds the view of
    /// every live storage image at its slot.
    pub closed spec fn wf(&self) -> bool {
        &&& self.images.wf()
        &&& self.buffers.wf()
        &&& self.address_table@.len() == MAX_BUFFERS
        &&& self.storage_images@.len() == MAX_IMAGES
        &&& self.buffers@.len() <= MAX_BUFFERS
        &&& self.images@.len() <= MAX_IMAGES
        &&& forall|i: int|
            0 <= i < self.buffers@.len() && (#[trigger] self.buffers@[i]).value is Some
                ==> self.address_table@[i] == self.buffers@[i].value->0.address
        &&& forall|i: int|
            0 <= i < self.images@.len() && is_storage_image((#[trigger] self.images@[i]).value)
                ==> self.storage_images@[i] == self.images@[i].value->0.view
    }

    /// Whether a slot is left for one more buffer.
    pub open spec fn has_buffer_room(&self) -> bool {
        inserted_index(self.buffers()) < MAX_BUFFERS
    }

    /// Whether a slot is left for one more image.
    pub open spec fn has_image_room(&self) -> bool {
        inserted_index(self.images()) < MAX_IMAGES
    }

    /// The address table has an entry for each buffer slot there can be, the
    /// descriptor array an element for each image slot, and no arena has
    /// more slots than that.
    pub proof fn lemma_table_sizes(&self)
        requires
            self.wf(),
        ensures
            self.address_table().len() == MAX_BUFFERS,
            self.storage_image_descriptors().len() == MAX_IMAGES,
            self.buffers().len() <= MAX_BUFFERS,
            self.images().len() <= MAX_IMAGES,
    {
    }

    /// Address table coherence: the table entry at the slot of a live
    /// buffer is the device address of that buffer.
    pub proof fn lemma_address_table_coherent(&self, id: BufferId)
        requires
            self.wf(),
            is_live(self.buffers(), id.0),
        ensures
            self.address_table().len() == MAX_BUFFERS,
            self.buffers().len() <= MAX_BUFFERS,
            id.0.index() < MAX_BUFFERS,
            self.address_table()[id.0.index() as int] == self.buffers()[id.0.index() as int].value->0.address,
    {
    }

    /// Bindless image coherence: the descriptor at the slot of a live image
    /// that is a storage image and has a view refers to that view.
    pub proof fn lemma_storage_image_coherent(&self, id: ImageId)
        requires
            self.wf(),
            is_live(self.images(), id.0),
            is_storage_image(self.images()[id.0.index() as int].value),
        ensures
            self.storage_image_descriptors().len() == MAX_IMAGES,
            self.images().len() <= MAX_IMAGES,
            id.0.index() < MAX_IMAGES,
            self.storage_image_descriptors()[id.0.index() as int] == self.images()[id.0.index() as int].value->0.view,
    {
    }
}

impl GpuResourcePool {
    /// A pool without resources around the bindless set `descriptor_set` and
    /// the address table buffer. The address table starts out zeroed and no
    /// storage image descriptor is written.
    pub fn new(
        descriptor_pool: u64,
        bindless_descriptor_set_layout: u64,
        descriptor_set: u64,
        buffer_addresses_buffer: Buffer,
    ) -> (r: Self)
        ensures
            r.wf(),
            r.images().len() == 0,
            r.buffers().len() == 0,
            r.address_table() == Seq::new(MAX_BUFFERS as nat, |i: int| 0u64),
            r.storage_image_descriptors() == Seq::new(MAX_IMAGES as nat, |i: int| None::<u64>),
            r.spec_descriptor_set() == descriptor_set,
            r.spec_bindless_descriptor_set_layout() == bindless_descriptor_set_layout,
            r.spec_descriptor_pool() == descriptor_pool,
            r.spec_buffer_addresses_buffer() == buffer_addresses_buffer,
    {
        let mut address_table: Vec<u64> = Vec::new();
        let mut i: u64 = 0;
        while i < MAX_BUFFERS
            invariant
                i <= MAX_BUFFERS,
                address_table@ == Seq::new(i as nat, |j: int| 0u64),
            decreases MAX_BUFFERS - i,
        {
            address_table.push(0);
            i += 1;
            assert(address_table@ =~= Seq::new(i as nat, |j: int| 0u64));
        }
        let mut storage_images: Vec<Option<u64>> = Vec::new();
        let mut k: u64 = 0;
        while k < MAX_IMAGES
            invariant
                k <= MAX_IMAGES,
                storage_images@ == Seq::new(k as nat, |j: int| None::<u64>),
            decreases MAX_IMAGES - k,
        {
            storage_images.push(None);
            k += 1;
            assert(storage_images@ =~= Seq::new(k as nat, |j: int| None::<u64>));
        }
        GpuResourcePool {
            descriptor_pool,
            bindless_descriptor_set_layout,
            descriptor_set,
            buffer_addresses_buffer,
            address_table,
            storage_images,
            images: ResourceSlot::new(),
            buffers: ResourceSlot::new(),
        }
    }

    pub closed spec fn spec_descriptor_pool(&self) -> u64 {
        self.descriptor_pool
    }

    pub closed spec fn spec_bindless_descriptor_set_layout(&self) -> u64 {
        self.bindless_descriptor_set_layout
    }

    pub closed spec fn spec_descriptor_set(&self) -> u64 {
        self.descriptor_set
    }

    /// The handle of the descriptor pool.
    #[verifier::when_used_as_spec(spec_descriptor_pool)]
    pub fn descriptor_pool(&self) -> (r: u64)
        ensures
            r == self.spec_descriptor_pool(),
    {
        self.descriptor_pool
    }

    /// The handle of the layout of the bindless set.
    #[verifier::when_used_as_spec(spec_bindless_descriptor_set_layout)]
    pub fn bindless_descriptor_set_layout(&self) -> (r: u64)
        ensures
            r == self.spec_bindless_descriptor_set_layout(),
    {
        self.bindless_descriptor_set_layout
    }

    /// The handle of the bindless set.
    #[verifier::when_used_as_spec(spec_descriptor_set)]
    pub fn descriptor_set(&self) -> (r: u64)
        ensures
            r == self.spec_descriptor_set(),
    {
        self.descriptor_set
    }

    pub closed spec fn spec_buffer_addresses_buffer(&self) -> Buffer {
        self.buffer_addresses_buffer
    }

    /// The buffer that holds the address table.
    pub fn buffer_addresses_buffer(&self) -> (r: &Buffer)
        ensures
            *r == self.spec_buffer_addresses_buffer(),
    {
        &self.buffer_addresses_buffer
    }

    /// The address last written to entry `index` of the address table.
    pub fn address_table_entry(&self, index: u32) -> (r: Option<u64>)
        requires
            self.wf(),
        ensures
            r == (if index < MAX_BUFFERS {
                Some(self.address_table()[index as int])
            } else {
                None
            }),
    {
        if (index as u64) < MAX_BUFFERS {
            Some(self.address_table[index as usize])
        } else {
            None
        }
    }

    /// The view last written to element `index` of the storage image
    /// descriptors, if one was written.
    pub fn storage_image_descriptor(&self, index: u32) -> (r: Option<u64>)
        requires
            self.wf(),
        ensures
            r == (if index < MAX_IMAGES {
                self.storage_image_descriptors()[index as int]
            } else {
                None
            }),
    {
        if (index as u64) < MAX_IMAGES {
            self.storage_images[index as usize]
        } else {
            None
        }
    }

    /// Whether `create_image` has a slot left.
    pub fn can_create_image(&self) -> (r: bool)
        requires
            self.wf(),
        ensures
            r == self.has_image_room(),
    {
        (self.images.next_index() as u64) < MAX_IMAGES
    }

    /// Whether `create_buffer` has a slot left.
    pub fn can_create_buffer(&self) -> (r: bool)
        requires
            self.wf(),
        ensures
            r == self.has_buffer_room(),
    {
        (self.buffers.next_index() as u64) < MAX_BUFFERS
    }

    /// Enters an image into the pool: the image takes the lowest free slot,
    /// and where it has a view and storage usage, the view is recorded for
    /// the storage image descriptor of that slot and handed back as the
    /// write to perform. Without a slot left the pool stays as it is and the
    /// result is `OutOfDeviceMemory`.
    pub fn create_image(&mut self, image: Image) -> (r: Result<(ImageId, Option<DescriptorWrite>), ErrorKind>)
        requires
            old(self).wf(),
        ensures
            final(self).wf(),
            old(self).image_created(*final(self), image, r),
    {
        if !self.can_create_image() {
            return Err(ErrorKind::OutOfDeviceMemory);
        }
        let view = image.view;
        let storage = image.info.usage.has(ImageUsageFlags::STORAGE);
        proof {
            let bits = image.info.usage.bits();
            assert((bits & 0x8 == 0x8) == (bits & 0x8 != 0)) by (bit_vector);
            crate::slot_arena::lemma_lowest_free(self.images@);
        }
        let id = self.images.insert_resource(image);
        let mut write: Option<DescriptorWrite> = None;
        if let Some(view) = view {
            if storage {
                self.storage_images.set(id.index() as usize, Some(view));
                write = Some(
                    DescriptorWrite { binding: STORAGE_IMAGE_BINDING, element: id.index(), view },
                );
            }
        }
        Ok((ImageId(id), write))
    }

    /// The image behind `id`, or `InvalidHandle`.
    pub fn get_image(&self, id: ImageId) -> (r: Result<&Image, ErrorKind>)
        requires
            self.wf(),
        ensures
            is_live(self.images(), id.0) ==> r == Ok::<&Image, ErrorKind>(
                &self.images()[id.0.index() as int].value->0,
            ),
            !is_live(self.images(), id.0) ==> r == Err::<&Image, ErrorKind>(ErrorKind::InvalidHandle),
    {
        self.images.get_resource(id.0)
    }

    /// Takes the image behind `id` out of the pool and says what to release
    /// for it. Fails with `InvalidHandle`, and changes nothing, when `id` is
    /// not live.
    pub fn destroy_image(&mut self, id: ImageId) -> (r: Result<ImageTeardown, ErrorKind>)
        requires
            old(self).wf(),
        ensures
            final(self).wf(),
            old(self).image_destroyed(*final(self), id, r),
    {
        match self.images.remove_resource(id.0) {
            Ok(image) => Ok(image.teardown()),
            Err(kind) => Err(kind),
        }
    }

    /// Enters a buffer into the pool: the buffer takes the lowest free slot,
    /// and its device address is recorded for the address table entry of
    /// that slot and handed back as the write to perform. Without a slot
    /// left the pool stays as it is and the result is `OutOfDeviceMemory`.
    pub fn create_buffer(&mut self, buffer: Buffer) -> (r: Result<(BufferId, AddressWrite), ErrorKind>)
        requires
            old(self).wf(),
        ensures
            final(self).wf(),
            old(self).buffer_created(*final(self), buffer, r),
    {
        if !self.can_create_buffer() {
            return Err(ErrorKind::OutOfDeviceMemory);
        }
        let address = buffer.address;
        proof {
            crate::slot_arena::lemma_lowest_free(self.buffers@);
        }
        let id = self.buffers.insert_resource(buffer);
        self.address_table.set(id.index() as usize, address);
        let write = AddressWrite { index: id.index(), byte_offset: id.index() as u64 * 8, address };
        Ok((BufferId(id), write))
    }

    /// The buffer behind `id`, or `InvalidHandle`.
    pub fn get_buffer(&self, id: BufferId) -> (r: Result<&Buffer, ErrorKind>)
        requires
            self.wf(),
        ensures
            is_live(self.buffers(), id.0) ==> r == Ok::<&Buffer, ErrorKind>(
                &self.buffers()[id.0.index() as int].value->0,
            ),
            !is_live(self.buffers(), id.0) ==> r == Err::<&Buffer, ErrorKind>(ErrorKind::InvalidHandle),
    {
        self.buffers.get_resource(id.0)
    }

    /// Takes the buffer behind `id` out of the pool and hands it back, so
    /// that its handle can be destroyed and its allocation freed. Fails with
    /// `InvalidHandle`, and changes nothing, when `id` is not live.
    pub fn destroy_buffer(&mut self, id: BufferId) -> (r: Result<Buffer, ErrorKind>)
        requires
            old(self).wf(),
        ensures
            final(self).wf(),
            old(self).buffer_destroyed(*final(self), id, r),
    {
        self.buffers.remove_resource(id.0)
    }
}

/// The handles behind a list of buffer ids.
pub open spec fn buffer_handles(ids: Seq<BufferId>) -> Seq<GpuResourceId> {
    Seq::new(ids.len(), |i: int| ids[i].0)
}

/// The handles behind a list of image ids.
pub open spec fn image_handles(ids: Seq<ImageId>) -> Seq<GpuResourceId> {
    Seq::new(ids.len(), |i: int| ids[i].0)
}

/// What is left of a pool that was shut down, in the order in which it is
/// to be released: the images, the buffers, the address table buffer, the
/// layout of the bindless set, and the descriptor pool.
pub struct PoolTeardown {
    pub images: Vec<Image>,
    pub buffers: Vec<Buffer>,
    pub buffer_addresses_buffer: Buffer,
    pub bindless_descriptor_set_layout: u64,
    pub descriptor_pool: u64,
}

impl GpuResourcePool {
    /// Takes the buffers behind `ids` out of the pool, one after the other,
    /// and hands them back together with the number of ids that were not
    /// live when their turn came.
    pub fn destroy_buffers(&mut self, ids: &Vec<BufferId>) -> (r: (Vec<Buffer>, usize))
        requires
            old(self).wf(),
        ensures
            final(self).wf(),
            old(self).buffers_destroyed(*final(self), ids@, r),
    {
        let ghost handles = buffer_handles(ids@);
        let ghost start = self.buffers();
        let mut out: Vec<Buffer> = Vec::new();
        let mut stale: usize = 0;
        let mut i: usize = 0;
        while i < ids.len()
            invariant
                i <= ids@.len(),
                handles == buffer_handles(ids@),
                self.wf(),
                self.images() == old(self).images(),
                self.address_table() == old(self).address_table(),
                self.storage_image_descriptors() == old(self).storage_image_descriptors(),
                self.buffers() == slots_after_removals(start, handles.take(i as int)),
                out@ == removed_values(start, handles.take(i as int)),
                stale == stale_count(start, handles.take(i as int)),
                stale <= i,
            decreases ids@.len() - i,
        {
            proof {
                assert(handles.take(i + 1).drop_last() =~= handles.take(i as int));
                assert(handles.take(i + 1).last() == ids@[i as int].0);
            }
            match self.destroy_buffer(ids[i]) {
                Ok(buffer) => {
                    out.push(buffer);
                },
                Err(_) => {
                    stale += 1;
                },
            }
            i += 1;
        }
        assert(handles.take(ids@.len() as int) =~= handles);
        (out, stale)
    }

    /// Takes the images behind `ids` out of the pool, one after the other,
    /// and hands them back together with the number of ids that were not
    /// live when their turn came.
    pub fn destroy_images(&mut self, ids: &Vec<ImageId>) -> (r: (Vec<Image>, usize))
        requires
            old(self).wf(),
        ensures
            final(self).wf(),
            old(self).images_destroyed(*final(self), ids@, r),
    {
        let ghost handles = image_handles(ids@);
        let ghost start = self.images();
        let mut out: Vec<Image> = Vec::new();
        let mut stale: usize = 0;
        let mut i: usize = 0;
        while i < ids.len()
            invariant
                i <= ids@.len(),
                handles == image_handles(ids@),
                self.wf(),
                self.buffers() == old(self).buffers(),
                self.address_table() == old(self).address_table(),
                self.storage_image_descriptors() == old(self).storage_image_descriptors(),
                self.images() == slots_after_removals(start, handles.take(i as int)),
                out@ == removed_values(start, handles.take(i as int)),
                stale == stale_count(start, handles.take(i as int)),
                stale <= i,
            decreases ids@.len() - i,
        {
            proof {
                assert(handles.take(i + 1).drop_last() =~= handles.take(i as int));
                assert(handles.take(i + 1).last() == ids@[i as int].0);
            }
            match self.images.remove_resource(ids[i].0) {
                Ok(image) => {
                    out.push(image);
                },
                Err(_) => {
                    stale += 1;
                },
            }
            i += 1;
        }
        assert(handles.take(ids@.len() as int) =~= handles);
        (out, stale)
    }

    /// Shuts the pool down: every image and every buffer that is left
    /// leaves its arena, in slot order, and is handed back together with
    /// what the pool itself holds.
    pub fn shutdown(self) -> (r: PoolTeardown)
        requires
            self.wf(),
        ensures
            r.images@ == occupied_values(self.images()),
            r.buffers@ == occupied_values(self.buffers()),
            r.buffer_addresses_buffer == self.spec_buffer_addresses_buffer(),
            r.bindless_descriptor_set_layout == self.bindless_descriptor_set_layout(),
            r.descriptor_pool == self.descriptor_pool(),
    {
        let mut pool = self;
        let images = pool.images.collect_existing();
        let buffers = pool.buffers.collect_existing();
        PoolTeardown {
            images,
            buffers,
            buffer_addresses_buffer: pool.buffer_addresses_buffer,
            bindless_descriptor_set_layout: pool.bindless_descriptor_set_layout,
            descriptor_pool: pool.descriptor_pool,
        }
    }
}

impl GpuResourcePool {
    /// What `create_image` does: how the pool `post` and the result `r` follow
    /// from the pool `self` and the image.
    pub open spec fn image_created(
        &self,
        post: GpuResourcePool,
        image: Image,
        r: Result<(ImageId, Option<DescriptorWrite>), ErrorKind>,
    ) -> bool {
        &&& post.buffers() == self.buffers()
        &&& post.address_table() == self.address_table()
        &&& !self.has_image_room() ==> r == Err::<(ImageId, Option<DescriptorWrite>), ErrorKind>(
            ErrorKind::OutOfDeviceMemory,
        ) && post.images() == self.images() && post.storage_image_descriptors()
            == self.storage_image_descriptors()
        &&& self.has_image_room() ==> r is Ok && ({
            let (id, write) = r->Ok_0;
            let index = inserted_index(self.images());
            &&& post.images() == slots_after_insert(self.images(), image)
            &&& id.0.index() == index
            &&& id.0.version() == inserted_version(self.images())
            &&& is_live(post.images(), id.0)
            &&& write == (if is_storage_image(Some(image)) {
                Some(
                    DescriptorWrite {
                        binding: STORAGE_IMAGE_BINDING,
                        element: index as u32,
                        view: image.view->0,
                    },
                )
            } else {
                None
            })
            &&& post.storage_image_descriptors() == (if is_storage_image(Some(image)) {
                self.storage_image_descriptors().update(index, image.view)
            } else {
                self.storage_image_descriptors()
            })
        })
    }

    /// What `destroy_image` does.
    pub open spec fn image_destroyed(
        &self,
        post: GpuResourcePool,
        id: ImageId,
        r: Result<ImageTeardown, ErrorKind>,
    ) -> bool {
        &&& post.buffers() == self.buffers()
        &&& post.address_table() == self.address_table()
        &&& post.storage_image_descriptors() == self.storage_image_descriptors()
        &&& is_live(self.images(), id.0) ==> post.images() == slots_after_remove(self.images(), id.0)
            && r is Ok && ({
            let image = self.images()[id.0.index() as int].value->0;
            &&& r->Ok_0.view == image.view
            &&& r->Ok_0.allocation == image.allocation
            &&& r->Ok_0.image == (if image.is_swapchain_image {
                None
            } else {
                Some(image.handle)
            })
        })
        &&& !is_live(self.images(), id.0) ==> r == Err::<ImageTeardown, ErrorKind>(
            ErrorKind::InvalidHandle,
        ) && post.images() == self.images()
    }

    /// What `create_buffer` does.
    pub open spec fn buffer_created(
        &self,
        post: GpuResourcePool,
        buffer: Buffer,
        r: Result<(BufferId, AddressWrite), ErrorKind>,
    ) -> bool {
        &&& post.images() == self.images()
        &&& post.storage_image_descriptors() == self.storage_image_descriptors()
        &&& !self.has_buffer_room() ==> r == Err::<(BufferId, AddressWrite), ErrorKind>(
            ErrorKind::OutOfDeviceMemory,
        ) && post.buffers() == self.buffers() && post.address_table() == self.address_table()
        &&& self.has_buffer_room() ==> r is Ok && ({
            let (id, write) = r->Ok_0;
            let index = inserted_index(self.buffers());
            &&& post.buffers() == slots_after_insert(self.buffers(), buffer)
            &&& id.0.index() == index
            &&& id.0.version() == inserted_version(self.buffers())
            &&& is_live(post.buffers(), id.0)
            &&& write == (AddressWrite {
                index: index as u32,
                byte_offset: (index * 8) as u64,
                address: buffer.address,
            })
            &&& post.address_table() == self.address_table().update(index, buffer.address)
        })
    }

    /// What `destroy_buffer` does.
    pub open spec fn buffer_destroyed(
        &self,
        post: GpuResourcePool,
        id: BufferId,
        r: Result<Buffer, ErrorKind>,
    ) -> bool {
        &&& post.images() == self.images()
        &&& post.address_table() == self.address_table()
        &&& post.storage_image_descriptors() == self.storage_image_descriptors()
        &&& is_live(self.buffers(), id.0) ==> post.buffers() == slots_after_remove(
            self.buffers(),
            id.0,
        ) && r == Ok::<Buffer, ErrorKind>(self.buffers()[id.0.index() as int].value->0)
        &&& !is_live(self.buffers(), id.0) ==> r == Err::<Buffer, ErrorKind>(ErrorKind::InvalidHandle)
            && post.buffers() == self.buffers()
    }

    /// What `destroy_buffers` does.
    pub open spec fn buffers_destroyed(
        &self,
        post: GpuResourcePool,
        ids: Seq<BufferId>,
        r: (Vec<Buffer>, usize),
    ) -> bool {
        &&& post.images() == self.images()
        &&& post.address_table() == self.address_table()
        &&& post.storage_image_descriptors() == self.storage_image_descriptors()
        &&& post.buffers() == slots_after_removals(self.buffers(), buffer_handles(ids))
        &&& r.0@ == removed_values(self.buffers(), buffer_handles(ids))
        &&& r.1 == stale_count(self.buffers(), buffer_handles(ids))
    }

    /// What `destroy_images` does.
    pub open spec fn images_destroyed(
        &self,
        post: GpuResourcePool,
        ids: Seq<ImageId>,
        r: (Vec<Image>, usize),
    ) -> bool {
        &&& post.buffers() == self.buffers()
        &&& post.address_table() == self.address_table()
        &&& post.storage_image_descriptors() == self.storage_image_descriptors()
        &&& post.images() == slots_after_removals(self.images(), image_handles(ids))
        &&& r.0@ == removed_values(self.images(), image_handles(ids))
        &&& r.1 == stale_count(self.images(), image_handles(ids))
    }
}

/// The code of the descriptor type `COMBINED_IMAGE_SAMPLER`.
pub const DESCRIPTOR_TYPE_COMBINED_IMAGE_SAMPLER: i32 = 1;

/// The code of the descriptor type `STORAGE_IMAGE`.
pub const DESCRIPTOR_TYPE_STORAGE_IMAGE: i32 = 3;

/// The code of the descriptor type `STORAGE_BUFFER`.
pub const DESCRIPTOR_TYPE_STORAGE_BUFFER: i32 = 7;

/// The binding flags of the bindless bindings: partially bound, and update
/// after bind.
pub const BINDLESS_BINDING_FLAGS: u32 = 0x5;

/// The flag `UPDATE_AFTER_BIND` of a descriptor pool, which is also the flag
/// `UPDATE_AFTER_BIND_POOL` of a descriptor set layout.
pub const UPDATE_AFTER_BIND: u32 = 0x2;

/// The buffer usage `SHADER_DEVICE_ADDRESS`.
pub const BUFFER_USAGE_SHADER_DEVICE_ADDRESS: u32 = 0x20000;

/// The memory allocate flag `DEVICE_ADDRESS`.
pub const MEMORY_ALLOCATE_DEVICE_ADDRESS: u32 = 0x2;

/// The shader stage set `ALL`.
pub const SHADER_STAGE_ALL: u32 = 0x7fff_ffff;

/// The size of the address table in bytes: eight for each buffer slot.
pub const ADDRESS_TABLE_SIZE: u64 = 8000;

/// How many descriptors of one type the descriptor pool holds.
#[derive(Clone, Copy, Debug, PartialEq, Eq, Structural)]
pub struct DescriptorPoolSize {
    pub descriptor_type: i32,
    pub descriptor_count: u32,
}

/// One binding of the bindless set.
#[derive(Clone, Copy, Debug, PartialEq, Eq, Structural)]
pub struct LayoutBinding {
    pub binding: u32,
    pub descriptor_type: i32,
    pub descriptor_count: u32,
    pub stage_flags: u32,
    pub binding_flags: u32,
}

/// The sizes of the descriptor pool, which holds a single set: one storage
/// buffer, and as many combined image samplers and storage images as there
/// are image slots.
pub fn descriptor_pool_sizes() -> (r: Vec<DescriptorPoolSize>)
    ensures
        r@ == seq![
            DescriptorPoolSize { descriptor_type: DESCRIPTOR_TYPE_STORAGE_BUFFER, descriptor_count: 1 },
            DescriptorPoolSize {
                descriptor_type: DESCRIPTOR_TYPE_COMBINED_IMAGE_SAMPLER,
                descriptor_count: 1000,
            },
            DescriptorPoolSize { descriptor_type: DESCRIPTOR_TYPE_STORAGE_IMAGE, descriptor_count: 1000 },
        ],
{
    let mut out: Vec<DescriptorPoolSize> = Vec::new();
    out.push(DescriptorPoolSize { descriptor_type: DESCRIPTOR_TYPE_STORAGE_BUFFER, descriptor_count: 1 });
    out.push(
        DescriptorPoolSize { descriptor_type: DESCRIPTOR_TYPE_COMBINED_IMAGE_SAMPLER, descriptor_count: 1000 },
    );
    out.push(DescriptorPoolSize { descriptor_type: DESCRIPTOR_TYPE_STORAGE_IMAGE, descriptor_count: 1000 });
    assert(out@ =~= seq![
        DescriptorPoolSize { descriptor_type: DESCRIPTOR_TYPE_STORAGE_BUFFER, descriptor_count: 1 },
        DescriptorPoolSize { descriptor_type: DESCRIPTOR_TYPE_COMBINED_IMAGE_SAMPLER, descriptor_count: 1000 },
        DescriptorPoolSize { descriptor_type: DESCRIPTOR_TYPE_STORAGE_IMAGE, descriptor_count: 1000 },
    ]);
    out
}

/// The bindings of the bindless set for the stages `stage_flags`: at
/// binding 0 the one storage buffer that holds the address table, at
/// binding 1 the array of storage images, both partially bound and updated
/// after bind.
pub fn bindless_layout_bindings(stage_flags: u32) -> (r: Vec<LayoutBinding>)
    ensures
        r@ == seq![
            LayoutBinding {
                binding: BUFFER_ADDRESSES_BINDING,
                descriptor_type: DESCRIPTOR_TYPE_STORAGE_BUFFER,
                descriptor_count: 1,
                stage_flags,
                binding_flags: BINDLESS_BINDING_FLAGS,
            },
            LayoutBinding {
                binding: STORAGE_IMAGE_BINDING,
                descriptor_type: DESCRIPTOR_TYPE_STORAGE_IMAGE,
                descriptor_count: MAX_IMAGES as u32,
                stage_flags,
                binding_flags: BINDLESS_BINDING_FLAGS,
            },
        ],
{
    let mut out: Vec<LayoutBinding> = Vec::new();
    out.push(
        LayoutBinding {
            binding: BUFFER_ADDRESSES_BINDING,
            descriptor_type: DESCRIPTOR_TYPE_STORAGE_BUFFER,
            descriptor_count: 1,
            stage_flags,
            binding_flags: BINDLESS_BINDING_FLAGS,
        },
    );
    out.push(
        LayoutBinding {
            binding: STORAGE_IMAGE_BINDING,
            descriptor_type: DESCRIPTOR_TYPE_STORAGE_IMAGE,
            descriptor_count: MAX_IMAGES as u32,
            stage_flags,
            binding_flags: BINDLESS_BINDING_FLAGS,
        },
    );
    assert(out@ =~= seq![
        LayoutBinding {
            binding: BUFFER_ADDRESSES_BINDING,
            descriptor_type: DESCRIPTOR_TYPE_STORAGE_BUFFER,
            descriptor_count: 1,
            stage_flags,
            binding_flags: BINDLESS_BINDING_FLAGS,
        },
        LayoutBinding {
            binding: STORAGE_IMAGE_BINDING,
            descriptor_type: DESCRIPTOR_TYPE_STORAGE_IMAGE,
            descriptor_count: MAX_IMAGES as u32,
            stage_flags,
            binding_flags: BINDLESS_BINDING_FLAGS,
        },
    ]);
    out
}

/// What the address table buffer is created with: eight bytes for each
/// buffer slot, storage usage, and memory that is device local and host
/// visible.
pub fn address_table_info() -> (r: BufferInfo)
    ensures
        r.name@ == "paya_buffer_addresses_buffer"@,
        r.size == ADDRESS_TABLE_SIZE,
        r.size == MAX_BUFFERS * 8,
        r.memory_flags.bits() == MemoryFlags::DEVICE_LOCAL | MemoryFlags::HOST_VISIBLE,
        r.usage.bits() == BufferUsageFlags::STORAGE,
{
    assert((0x1u32 | 0x2u32) & 0xfu32 == 0x1u32 | 0x2u32) by (bit_vector);
    assert(0x20u32 & 0x1f3u32 == 0x20u32) by (bit_vector);
    BufferInfo {
        name: "paya_buffer_addresses_buffer".to_owned(),
        size: ADDRESS_TABLE_SIZE,
        memory_flags: MemoryFlags::from_bits_truncate(
            MemoryFlags::DEVICE_LOCAL | MemoryFlags::HOST_VISIBLE,
        ),
        usage: BufferUsageFlags::from_bits_truncate(BufferUsageFlags::STORAGE),
    }
}

/// The usage to create a buffer with in the graphics API: the usage asked
/// for, and the use of its device address in shaders.
pub fn buffer_create_usage(info: &BufferInfo) -> (r: u32)
    ensures
        r == info.usage.bits() | BUFFER_USAGE_SHADER_DEVICE_ADDRESS,
{
    info.usage.bits() | BUFFER_USAGE_SHADER_DEVICE_ADDRESS
}

/// Whether a slot holds an image with storage usage and a view.
pub open spec fn is_storage_image(value: Option<Image>) -> bool {
    match value {
        Some(image) => image.view is Some && image.info.usage.bits() & ImageUsageFlags::STORAGE != 0,
        None => false,
    }
}

} // verus!
