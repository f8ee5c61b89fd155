use vstd::prelude::*;

use crate::common::{Extent2D, Extent3D, Format, ImageUsageFlags};
use crate::device::ImageInfo;
use crate::error::{
    ErrorKind, RESULT_NOT_READY, RESULT_OUT_OF_DATE, RESULT_SUBOPTIMAL, RESULT_SUCCESS,
    RESULT_SURFACE_LOST, RESULT_TIMEOUT,
};
use crate::gpu_resources::ImageId;
use crate::sync::{BinarySemaphore, TimelineSemaphore};

verus! {

/// The code of the colour space `SRGB_NONLINEAR`.
pub const COLOR_SPACE_SRGB_NONLINEAR: i32 = 0;

/// The code of the present mode `MAILBOX`.
pub const PRESENT_MODE_MAILBOX: i32 = 1;

/// The code of the present mode `FIFO`.
pub const PRESENT_MODE_FIFO: i32 = 2;

/// The time that an acquire waits for an image, in nanoseconds.
pub const ACQUIRE_TIMEOUT_NS: u64 = 5_000_000_000;

/// A format that a surface offers, by the codes of the graphics API.
#[derive(Clone, Copy, Debug, PartialEq, Eq, Structural)]
pub struct SurfaceFormat {
    pub format: i32,
    pub color_space: i32,
}

/// What a swapchain was created with.
#[derive(Clone, Copy, Debug, PartialEq, Eq, Structural)]
pub struct SwapchainInfo {
    pub format: Format,
    pub extent: Extent2D,
    pub image_usage: ImageUsageFlags,
    pub max_frames_in_flight: u32,
}

/// The preferred surface format: `B8G8R8A8_SRGB` in the colour space
/// `SRGB_NONLINEAR`.
pub open spec fn preferred_format() -> SurfaceFormat {
    SurfaceFormat { format: 50, color_space: COLOR_SPACE_SRGB_NONLINEAR }
}

/// The format to pick among `formats`: the preferred one where the surface
/// offers it, else the first one. An empty list has no pick.
pub open spec fn chosen_surface_format(formats: Seq<SurfaceFormat>) -> Option<SurfaceFormat> {
    if formats.len() == 0 {
        None
    } else if formats.contains(preferred_format()) {
        Some(preferred_format())
    } else {
        Some(formats[0])
    }
}

/// Picks the preferred format where the surface offers it, and the first
/// format otherwise.
pub fn choose_surface_format(formats: &Vec<SurfaceFormat>) -> (r: Option<SurfaceFormat>)
    ensures
        r == chosen_surface_format(formats@),
{
    let mut i: usize = 0;
    while i < formats.len()
        invariant
            i <= formats@.len(),
            forall|j: int| 0 <= j < i ==> formats@[j] != preferred_format(),
        decreases formats@.len() - i,
    {
        let candidate = formats[i];
        if candidate.format == Format::B8G8R8A8Srgb.raw() && candidate.color_space
            == COLOR_SPACE_SRGB_NONLINEAR {
            assert(formats@[i as int] == preferred_format());
            return Some(candidate);
        }
        i += 1;
    }
    if formats.len() > 0 {
        Some(formats[0])
    } else {
        None
    }
}

/// Picks `MAILBOX` where the surface offers it, and `FIFO` otherwise.
pub fn choose_present_mode(modes: &Vec<i32>) -> (r: i32)
    ensures
        r == (if modes@.contains(PRESENT_MODE_MAILBOX) {
            PRESENT_MODE_MAILBOX
        } else {
            PRESENT_MODE_FIFO
        }),
{
    let mut i: usize = 0;
    while i < modes.len()
        invariant
            i <= modes@.len(),
            forall|j: int| 0 <= j < i ==> modes@[j] != PRESENT_MODE_MAILBOX,
        decreases modes@.len() - i,
    {
        if modes[i] == PRESENT_MODE_MAILBOX {
            return PRESENT_MODE_MAILBOX;
        }
        i += 1;
    }
    PRESENT_MODE_FIFO
}

/// The number of images to ask for: what the surface needs at least, and
/// never fewer than two.
pub fn choose_image_count(min_image_count: u32) -> (r: u32)
    ensures
        r == (if min_image_count >= 2 {
            min_image_count
        } else {
            2
        }),
{
    if min_image_count >= 2 {
        min_image_count
    } else {
        2
    }
}

/// What a swapchain is created with in the graphics API.
#[derive(Clone, Copy, Debug, PartialEq, Eq, Structural)]
pub struct SwapchainPlan {
    pub min_image_count: u32,
    pub format: SurfaceFormat,
    pub present_mode: i32,
    pub extent: Extent2D,
    pub image_usage: ImageUsageFlags,
    /// The swapchain to replace. After the new one was created, the device
    /// is left to go idle and the old one is destroyed.
    pub old_swapchain: Option<u64>,
    /// What the library keeps of the new swapchain.
    pub info: SwapchainInfo,
}

/// Decides what a swapchain is created with: the image count, format and
/// present mode that `choose_image_count`, `choose_surface_format` and
/// `choose_present_mode` pick, and the extent that the caller prefers, as it
/// is. A surface without formats, or with a format picked that the library
/// does not know by its code, is `Unsupported`.
pub fn plan_swapchain(
    min_image_count: u32,
    formats: &Vec<SurfaceFormat>,
    present_modes: &Vec<i32>,
    preferred_extent: Extent2D,
    image_usage: ImageUsageFlags,
    max_frames_in_flight: u32,
    old_swapchain: Option<u64>,
) -> (r: Result<SwapchainPlan, ErrorKind>)
    ensures
        r == (match chosen_surface_format(formats@) {
            None => Err::<SwapchainPlan, ErrorKind>(ErrorKind::Unsupported),
            Some(format) => if exists|known: Format| known.raw() == format.format {
                Ok::<SwapchainPlan, ErrorKind>(
                    SwapchainPlan {
                        min_image_count: if min_image_count >= 2 {
                            min_image_count
                        } else {
                            2
                        },
                        format,
                        present_mode: if present_modes@.contains(PRESENT_MODE_MAILBOX) {
                            PRESENT_MODE_MAILBOX
                        } else {
                            PRESENT_MODE_FIFO
                        },
                        extent: preferred_extent,
                        image_usage,
                        old_swapchain,
                        info: SwapchainInfo {
                            format: choose|known: Format| known.raw() == format.format,
                            extent: preferred_extent,
                            image_usage,
                            max_frames_in_flight,
                        },
                    },
                )
            } else {
                Err::<SwapchainPlan, ErrorKind>(ErrorKind::Unsupported)
            },
        }),
{
    let format = match choose_surface_format(formats) {
        Some(format) => format,
        None => {
            return Err(ErrorKind::Unsupported);
        },
    };
    let known = match Format::from_raw(format.format) {
        Some(known) => known,
        None => {
            return Err(ErrorKind::Unsupported);
        },
    };
    Ok(
        SwapchainPlan {
            min_image_count: choose_image_count(min_image_count),
            format,
            present_mode: choose_present_mode(present_modes),
            extent: preferred_extent,
            image_usage,
            old_swapchain,
            info: SwapchainInfo { format: known, extent: preferred_extent, image_usage, max_frames_in_flight },
        },
    )
}

/// What the images of a swapchain are entered into the pool with: two
/// dimensions, the extent of the swapchain in one layer, its format and its
/// usage.
pub fn swapchain_image_info(info: &SwapchainInfo) -> (r: ImageInfo)
    ensures
        r == (ImageInfo {
            dimensions: 2,
            extent: Extent3D { width: info.extent.width, height: info.extent.height, depth: 1 },
            format: info.format,
            usage: info.image_usage,
        }),
{
    ImageInfo {
        dimensions: 2,
        extent: Extent3D::new(info.extent.width, info.extent.height, 1),
        format: info.format,
        usage: info.image_usage,
    }
}

/// How the graphics API answered an acquire.
#[derive(Clone, Copy, Debug, PartialEq, Eq, Structural)]
pub enum AcquireOutcome {
    /// An image was acquired; its index among the images of the swapchain.
    Success(u32),
    /// The swapchain still works but no longer matches the surface.
    Suboptimal,
    /// The swapchain no longer works with the surface.
    OutOfDate,
    /// No image came within the timeout.
    Timeout,
    /// The surface is gone.
    SurfaceLost,
    /// Any other answer, by its code.
    Failed(i32),
}

impl AcquireOutcome {
    /// Reads the answer of an acquire: the result code of the graphics API,
    /// and the image index that came with it.
    pub fn from_result_code(code: i32, image_index: u32) -> (r: Self)
        ensures
            r == (if code == RESULT_SUCCESS {
                AcquireOutcome::Success(image_index)
            } else if code == RESULT_SUBOPTIMAL {
                AcquireOutcome::Suboptimal
            } else if code == RESULT_OUT_OF_DATE {
                AcquireOutcome::OutOfDate
            } else if code == RESULT_TIMEOUT || code == RESULT_NOT_READY {
                AcquireOutcome::Timeout
            } else if code == RESULT_SURFACE_LOST {
                AcquireOutcome::SurfaceLost
            } else {
                AcquireOutcome::Failed(code)
            }),
    {
        if code == RESULT_SUCCESS {
            AcquireOutcome::Success(image_index)
        } else if code == RESULT_SUBOPTIMAL {
            AcquireOutcome::Suboptimal
        } else if code == RESULT_OUT_OF_DATE {
            AcquireOutcome::OutOfDate
        } else if code == RESULT_TIMEOUT || code == RESULT_NOT_READY {
            AcquireOutcome::Timeout
        } else if code == RESULT_SURFACE_LOST {
            AcquireOutcome::SurfaceLost
        } else {
            AcquireOutcome::Failed(code)
        }
    }
}

/// The ring slot of the semaphore that the next acquire signals at the
/// timeline value `cpu_timeline`, with `frames` frames in flight.
pub open spec fn acquire_slot(cpu_timeline: u64, frames: u32) -> int {
    (cpu_timeline + 1) % (frames as int)
}

/// The ring slot of the semaphores in use at the timeline value
/// `cpu_timeline`.
pub open spec fn current_slot(cpu_timeline: u64, frames: u32) -> int {
    (cpu_timeline as int) % (frames as int)
}

/// The state of a swapchain between acquires: its images, its rings of
/// semaphores, and the count of images acquired so far.
pub struct Swapchain {
    swapchain: u64,
    surface: u64,
    images: Vec<ImageId>,
    info: SwapchainInfo,
    acquire_image_semaphores: Vec<BinarySemaphore>,
    present_image_semaphores: Vec<BinarySemaphore>,
    gpu_timeline_semaphore: TimelineSemaphore,
    cpu_timeline: u64,
    last_aquired_image_index: Option<u32>,
}

impl Swapchain {
    pub closed spec fn spec_handle(&self) -> u64 {
        self.swapchain
    }

    pub closed spec fn spec_surface(&self) -> u64 {
        self.surface
    }

    /// The images of the swapchain, by their index in the swapchain.
    pub closed spec fn images(&self) -> Seq<ImageId> {
        self.images@
    }

    pub closed spec fn spec_info(&self) -> SwapchainInfo {
        self.info
    }

    /// The ring of semaphores that acquires signal.
    pub closed spec fn acquire_semaphores(&self) -> Seq<BinarySemaphore> {
        self.acquire_image_semaphores@
    }

    /// The ring of semaphores set aside for presents.
    pub closed spec fn present_semaphores(&self) -> Seq<BinarySemaphore> {
        self.present_image_semaphores@
    }

    pub closed spec fn spec_gpu_timeline_semaphore(&self) -> TimelineSemaphore {
        self.gpu_timeline_semaphore
    }

    pub closed spec fn spec_cpu_timeline(&self) -> u64 {
        self.cpu_timeline
    }

    pub closed spec fn spec_last_aquired_image_index(&self) -> Option<u32> {
        self.last_aquired_image_index
    }

    /// The representation invariant: at least one frame is in flight, and
    /// each ring has one semaphore for each frame in flight.
    pub closed spec fn wf(&self) -> bool {
        &&& self.info.max_frames_in_flight > 0
        &&& self.acquire_image_semaphores@.len() == self.info.max_frames_in_flight
        &&& self.present_image_semaphores@.len() == self.info.max_frames_in_flight
    }

    /// The state of a new swapchain: nothing acquired, timeline at 0. The
    /// rings must have one semaphore for each frame in flight, and one frame
    /// at least must be in flight; otherwise the result is a
    /// `ProgrammingFault`.
    pub fn new(
        swapchain: u64,
        surface: u64,
        images: Vec<ImageId>,
        info: SwapchainInfo,
        acquire_image_semaphores: Vec<BinarySemaphore>,
        present_image_semaphores: Vec<BinarySemaphore>,
        gpu_timeline_semaphore: TimelineSemaphore,
    ) -> (r: Result<Self, ErrorKind>)
        ensures
            ({
                let fits = info.max_frames_in_flight > 0 && acquire_image_semaphores@.len()
                    == info.max_frames_in_flight && present_image_semaphores@.len()
                    == info.max_frames_in_flight;
                match r {
                    Ok(s) => {
                        &&& fits
                        &&& s.wf()
                        &&& s.handle() == swapchain
                        &&& s.surface() == surface
                        &&& s.images() == images@
                        &&& s.spec_info() == info
                        &&& s.acquire_semaphores() == acquire_image_semaphores@
                        &&& s.present_semaphores() == present_image_semaphores@
                        &&& s.spec_gpu_timeline_semaphore() == gpu_timeline_semaphore
                        &&& s.cpu_timeline() == 0
                        &&& s.last_aquired_image_index() is None
                    },
                    Err(kind) => !fits && kind == ErrorKind::ProgrammingFault,
                }
            }),
    {
        if info.max_frames_in_flight == 0 || acquire_image_semaphores.len()
            != info.max_frames_in_flight as usize || present_image_semaphores.len()
            != info.max_frames_in_flight as usize {
            return Err(ErrorKind::ProgrammingFault);
        }
        Ok(
            Swapchain {
                swapchain,
                surface,
                images,
                info,
                acquire_image_semaphores,
                present_image_semaphores,
                gpu_timeline_semaphore,
                cpu_timeline: 0,
                last_aquired_image_index: None,
            },
        )
    }

    /// The handle of the swapchain.
    #[verifier::when_used_as_spec(spec_handle)]
    pub fn handle(&self) -> (r: u64)
        ensures
            r == self.spec_handle(),
    {
        self.swapchain
    }

    /// The handle of the surface.
    #[verifier::when_used_as_spec(spec_surface)]
    pub fn surface(&self) -> (r: u64)
        ensures
            r == self.spec_surface(),
    {
        self.surface
    }

    /// What the swapchain was created with, with the extent of the last
    /// resize.
    pub fn info(&self) -> (r: &SwapchainInfo)
        ensures
            *r == self.spec_info(),
    {
        &self.info
    }

    /// The count of images acquired so far.
    #[verifier::when_used_as_spec(spec_cpu_timeline)]
    pub fn cpu_timeline(&self) -> (r: u64)
        ensures
            r == self.spec_cpu_timeline(),
    {
        self.cpu_timeline
    }

    /// The timeline semaphore of the swapchain.
    pub fn gpu_timeline_semaphore(&self) -> (r: &TimelineSemaphore)
        ensures
            *r == self.spec_gpu_timeline_semaphore(),
    {
        &self.gpu_timeline_semaphore
    }

    /// The index of the image that the last acquire brought, if it brought
    /// one.
    #[verifier::when_used_as_spec(spec_last_aquired_image_index)]
    pub fn last_aquired_image_index(&self) -> (r: Option<u32>)
        ensures
            r == self.spec_last_aquired_image_index(),
    {
        self.last_aquired_image_index
    }

    /// The semaphore that the next acquire is to signal.
    pub fn next_acquire_semaphore(&self) -> (r: &BinarySemaphore)
        requires
            self.wf(),
            self.cpu_timeline() < u64::MAX,
        ensures
            *r == self.acquire_semaphores()[acquire_slot(
                self.cpu_timeline(),
                self.spec_info().max_frames_in_flight,
            )],
    {
        let slot = (self.cpu_timeline + 1) % (self.info.max_frames_in_flight as u64);
        &self.acquire_image_semaphores[slot as usize]
    }

    /// The semaphore to wait for before the acquired image is used.
    pub fn current_acquire_semaphore(&self) -> (r: &BinarySemaphore)
        requires
            self.wf(),
        ensures
            *r == self.acquire_semaphores()[current_slot(
                self.cpu_timeline(),
                self.spec_info().max_frames_in_flight,
            )],
    {
        let slot = self.cpu_timeline % (self.info.max_frames_in_flight as u64);
        &self.acquire_image_semaphores[slot as usize]
    }

    /// The semaphore to wait for before the image is presented. It is taken
    /// from the ring of the acquires, at the slot in use, as
    /// `current_acquire_semaphore` is.
    pub fn current_present_semaphore(&self) -> (r: &BinarySemaphore)
        requires
            self.wf(),
        ensures
            *r == self.acquire_semaphores()[current_slot(
                self.cpu_timeline(),
                self.spec_info().max_frames_in_flight,
            )],
    {
        let slot = self.cpu_timeline % (self.info.max_frames_in_flight as u64);
        &self.acquire_image_semaphores[slot as usize]
    }

    /// What `acquire_next_image` does with the answer `outcome`.
    pub open spec fn acquired(
        &self,
        post: Swapchain,
        outcome: AcquireOutcome,
        r: Result<Option<ImageId>, ErrorKind>,
    ) -> bool {
        &&& post.handle() == self.handle()
        &&& post.surface() == self.surface()
        &&& post.images() == self.images()
        &&& post.spec_info() == self.spec_info()
        &&& post.acquire_semaphores() == self.acquire_semaphores()
        &&& post.present_semaphores() == self.present_semaphores()
        &&& post.spec_gpu_timeline_semaphore() == self.spec_gpu_timeline_semaphore()
        &&& match outcome {
            AcquireOutcome::Success(index) => if index < self.images().len() {
                &&& r == Ok::<Option<ImageId>, ErrorKind>(Some(self.images()[index as int]))
                &&& post.cpu_timeline() == self.cpu_timeline() + 1
                &&& post.last_aquired_image_index() == Some(index)
            } else {
                &&& r == Err::<Option<ImageId>, ErrorKind>(ErrorKind::ProgrammingFault)
                &&& post.cpu_timeline() == self.cpu_timeline()
                &&& post.last_aquired_image_index() == self.last_aquired_image_index()
            },
            AcquireOutcome::Suboptimal | AcquireOutcome::OutOfDate => {
                &&& r == Ok::<Option<ImageId>, ErrorKind>(None)
                &&& post.cpu_timeline() == self.cpu_timeline()
                &&& post.last_aquired_image_index() is None
            },
            AcquireOutcome::Timeout => {
                &&& r == Err::<Option<ImageId>, ErrorKind>(ErrorKind::Timeout)
                &&& post.cpu_timeline() == self.cpu_timeline()
                &&& post.last_aquired_image_index() == self.last_aquired_image_index()
            },
            AcquireOutcome::SurfaceLost => {
                &&& r == Err::<Option<ImageId>, ErrorKind>(ErrorKind::SurfaceLost)
                &&& post.cpu_timeline() == self.cpu_timeline()
                &&& post.last_aquired_image_index() == self.last_aquired_image_index()
            },
            AcquireOutcome::Failed(_) => {
                &&& r == Err::<Option<ImageId>, ErrorKind>(ErrorKind::ProgrammingFault)
                &&& post.cpu_timeline() == self.cpu_timeline()
                &&& post.last_aquired_image_index() == self.last_aquired_image_index()
            },
        }
    }

    /// Takes note of how the graphics API answered the acquire that
    /// signalled `next_acquire_semaphore`. On success the image index is
    /// kept, the timeline goes up by one and the image comes back. A
    /// swapchain that is suboptimal or out of date yields no image and
    /// leaves the timeline alone: the caller resizes and tries again. Every
    /// other answer is a fault and changes nothing.
    pub fn acquire_next_image(&mut self, outcome: AcquireOutcome) -> (r: Result<Option<ImageId>, ErrorKind>)
        requires
            old(self).wf(),
            old(self).cpu_timeline() < u64::MAX,
        ensures
            final(self).wf(),
            old(self).acquired(*final(self), outcome, r),
    {
        match outcome {
            AcquireOutcome::Success(index) => {
                if (index as usize) < self.images.len() {
                    self.last_aquired_image_index = Some(index);
                    self.cpu_timeline += 1;
                    Ok(Some(self.images[index as usize]))
                } else {
                    Err(ErrorKind::ProgrammingFault)
                }
            },
            AcquireOutcome::Suboptimal => {
                self.last_aquired_image_index = None;
                Ok(None)
            },
            AcquireOutcome::OutOfDate => {
                self.last_aquired_image_index = None;
                Ok(None)
            },
            AcquireOutcome::Timeout => Err(ErrorKind::Timeout),
            AcquireOutcome::SurfaceLost => Err(ErrorKind::SurfaceLost),
            AcquireOutcome::Failed(_) => Err(ErrorKind::ProgrammingFault),
        }
    }

    /// Moves to a swapchain that was created anew for another extent: its
    /// handle, its images and the extent replace the old ones, and the
    /// images of the old swapchain come back, to be taken out of the pool.
    /// The timeline and the rings stay.
    pub fn resize(&mut self, swapchain: u64, images: Vec<ImageId>, width: u32, height: u32) -> (r: Vec<
        ImageId,
    >)
        requires
            old(self).wf(),
        ensures
            final(self).wf(),
            r@ == old(self).images(),
            final(self).handle() == swapchain,
            final(self).images() == images@,
            final(self).spec_info() == (SwapchainInfo {
                extent: Extent2D { width, height },
                ..old(self).spec_info()
            }),
            final(self).surface() == old(self).surface(),
            final(self).acquire_semaphores() == old(self).acquire_semaphores(),
            final(self).present_semaphores() == old(self).present_semaphores(),
            final(self).spec_gpu_timeline_semaphore() == old(self).spec_gpu_timeline_semaphore(),
            final(self).cpu_timeline() == old(self).cpu_timeline(),
            final(self).last_aquired_image_index() == old(self).last_aquired_image_index(),
    {
        let mut images = images;
        std::mem::swap(&mut self.images, &mut images);
        self.swapchain = swapchain;
        self.info.extent = Extent2D::new(width, height);
        images
    }
}

/// The ring slot that the `k`-th acquire from the timeline value `start`
/// signals, where every acquire before it succeeded: `acquire_slot` at the
/// timeline value that `k - 1` successes lead to.
pub open spec fn slot_of_acquire(start: nat, frames: nat, k: int) -> int {
    (start + k) % (frames as int)
}

/// The acquire ring: over `frames` acquires in a row that succeed, starting
/// at any timeline value, no ring slot is signalled twice, and every ring
/// slot is signalled.
pub proof fn law_acquire_ring(start: nat, frames: nat, slot: nat)
    requires
        frames > 0,
        slot < frames,
    ensures
        forall|j: int, k: int|
            1 <= j < k <= frames ==> #[trigger] slot_of_acquire(start, frames, j) != #[trigger] slot_of_acquire(
                start,
                frames,
                k,
            ),
        exists|k: int| 1 <= k <= frames && #[trigger] slot_of_acquire(start, frames, k) == slot,
{
    let n = frames as int;
    let st = start as int;
    assert forall|j: int, k: int| 1 <= j < k <= frames implies #[trigger] slot_of_acquire(start, frames, j)
        != #[trigger] slot_of_acquire(start, frames, k) by {
        if (st + j) % n == (st + k) % n {
            vstd::arithmetic::div_mod::lemma_fundamental_div_mod(st + j, n);
            vstd::arithmetic::div_mod::lemma_fundamental_div_mod(st + k, n);
            let qj = (st + j) / n;
            let qk = (st + k) / n;
            assert(k - j == n * (qk - qj)) by (nonlinear_arith)
                requires
                    st + j == n * qj + (st + j) % n,
                    st + k == n * qk + (st + k) % n,
                    (st + j) % n == (st + k) % n,
            ;
            assert(false) by (nonlinear_arith)
                requires
                    0 < k - j < n,
                    k - j == n * (qk - qj),
            ;
        }
    }
    let s = slot as int;
    let base = (st + 1) % n;
    let k: int = if s >= base {
        1 + s - base
    } else {
        1 + s - base + n
    };
    assert(slot_of_acquire(start, frames, k) == s) by {
        vstd::arithmetic::div_mod::lemma_fundamental_div_mod(st + 1, n);
        let q = (st + 1) / n;
        if s >= base {
            assert(st + k == q * n + s) by (nonlinear_arith)
                requires
                    st + 1 == n * q + base,
                    k == 1 + s - base,
            ;
            vstd::arithmetic::div_mod::lemma_fundamental_div_mod_converse(st + k, n, q, s);
        } else {
            assert(st + k == (q + 1) * n + s) by (nonlinear_arith)
                requires
                    st + 1 == n * q + base,
                    k == 1 + s - base + n,
            ;
            vstd::arithmetic::div_mod::lemma_fundamental_div_mod_converse(st + k, n, q + 1, s);
        }
    }
}

} // verus!
