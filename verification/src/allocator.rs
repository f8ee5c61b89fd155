use vstd::prelude::*;

verus! {

/// The properties that a buffer's memory must have.
#[derive(Debug, Clone, Copy, PartialEq, Eq, Structural, PartialOrd, Ord, Hash)]
pub struct MemoryFlags {
    bits: u32,
}

impl MemoryFlags {
    /// Memory that is fastest for the device.
    pub const DEVICE_LOCAL: u32 = 0x1;

    /// Memory that the host can map.
    pub const HOST_VISIBLE: u32 = 0x2;

    /// Host writes are visible without a flush.
    pub const HOST_COHERENT: u32 = 0x4;

    /// Memory that is cached on the host.
    pub const HOST_CACHED: u32 = 0x8;

    /// Every bit that has a name.
    pub const ALL: u32 = 0xf;

    pub closed spec fn spec_bits(&self) -> u32 {
        self.bits
    }

    /// The flags as the graphics API encodes them.
    #[verifier::when_used_as_spec(spec_bits)]
    pub fn bits(&self) -> (r: u32)
        ensures
            r == self.spec_bits(),
            r & !Self::ALL == 0,
    {
        proof {
            use_type_invariant(self);
        }
        self.bits
    }

    #[verifier::type_invariant]
    spec fn only_named_bits(self) -> bool {
        self.bits & !Self::ALL == 0
    }

    /// No flag set.
    pub fn empty() -> (r: Self)
        ensures
            r.bits() == 0,
    {
        assert(0u32 & !Self::ALL == 0) by (bit_vector);
        MemoryFlags { bits: 0 }
    }

    /// The named flags among `bits`; bits without a name are dropped.
    pub fn from_bits_truncate(bits: u32) -> (r: Self)
        ensures
            r.bits() == bits & Self::ALL,
    {
        assert((bits & Self::ALL) & !Self::ALL == 0) by (bit_vector);
        MemoryFlags { bits: bits & Self::ALL }
    }

    /// Whether no flag is set.
    pub fn is_empty(&self) -> (r: bool)
        ensures
            r == (self.bits() == 0),
    {
        self.bits == 0
    }

    /// Whether every flag of `other` is set in `self`.
    pub fn contains(&self, other: Self) -> (r: bool)
        ensures
            r == (self.bits() & other.bits() == other.bits()),
    {
        self.bits & other.bits == other.bits
    }

    /// Whether every bit of `mask` is set in `self`.
    pub fn has(&self, mask: u32) -> (r: bool)
        ensures
            r == (self.bits() & mask == mask),
    {
        self.bits & mask == mask
    }

    /// The flags of `self` together with those of `other`.
    pub fn union(self, other: Self) -> (r: Self)
        ensures
            r.bits() == self.bits() | other.bits(),
    {
        proof {
            use_type_invariant(self);
            use_type_invariant(other);
        }
        let a = self.bits;
        let b = other.bits;
        assert((a | b) & !Self::ALL == 0) by (bit_vector)
            requires
                a & !Self::ALL == 0,
                b & !Self::ALL == 0,
        ;
        MemoryFlags { bits: a | b }
    }
}

/// Where an allocation should live, by who reads and writes it.
#[derive(Debug, Clone, Copy, PartialEq, Eq, Structural, PartialOrd, Ord, Hash)]
pub enum MemoryLocation {
    GpuOnly,
    CpuToGpu,
    GpuToCpu,
}

impl MemoryLocation {
    pub open spec fn spec_raw(&self) -> u32 {
        match self {
            MemoryLocation::GpuOnly => 1,
            MemoryLocation::CpuToGpu => 2,
            MemoryLocation::GpuToCpu => 3,
        }
    }

    /// The position of this location among the locations of the block allocator, which start with an unknown location at 0.
    #[verifier::when_used_as_spec(spec_raw)]
    pub fn raw(&self) -> (r: u32)
        ensures
            r == self.spec_raw(),
    {
        match self {
            MemoryLocation::GpuOnly => 1,
            MemoryLocation::CpuToGpu => 2,
            MemoryLocation::GpuToCpu => 3,
        }
    }
}

impl MemoryLocation {
    /// Where memory with the properties `flags` is allocated: memory that
    /// the host can see is written by the host and read by the device, and
    /// all other memory stays on the device.
    pub fn for_flags(flags: MemoryFlags) -> (r: Self)
        ensures
            r == (if flags.bits() & MemoryFlags::HOST_VISIBLE != 0 {
                MemoryLocation::CpuToGpu
            } else {
                MemoryLocation::GpuOnly
            }),
    {
        let bits = flags.bits();
        assert((bits & 0x2 == 0x2) == (bits & 0x2 != 0)) by (bit_vector);
        if flags.has(MemoryFlags::HOST_VISIBLE) {
            MemoryLocation::CpuToGpu
        } else {
            MemoryLocation::GpuOnly
        }
    }
}

/// The identity of an allocation: its index among the allocations of its
/// kind, and in the highest bit whether it has a memory block of its own.
#[derive(Clone, Copy, Debug, PartialEq, Eq, Structural, PartialOrd, Ord, Hash)]
pub struct AllocationId(u64);

impl AllocationId {
    /// The bit that marks a dedicated allocation.
    pub const DEDICATED_BIT: u64 = 0x8000_0000_0000_0000;

    pub closed spec fn spec_raw(&self) -> u64 {
        self.0
    }

    /// The packed value.
    #[verifier::when_used_as_spec(spec_raw)]
    pub fn raw(&self) -> (r: u64)
        ensures
            r == self.spec_raw(),
    {
        self.0
    }

    /// The id of allocation `index`. An index that reaches into the
    /// dedicated bit has no id.
    pub fn new(is_dedicated: bool, index: usize) -> (r: Self)
        requires
            index < Self::DEDICATED_BIT,
        ensures
            r.raw() == (if is_dedicated {
                index as u64 | Self::DEDICATED_BIT
            } else {
                index as u64
            }),
            r.spec_is_dedicated() == is_dedicated,
            r.spec_index() == index,
    {
        let low = index as u64;
        assert(low & 0x8000_0000_0000_0000 == 0 && low & 0x7fff_ffff_ffff_ffff == low && (low
            | 0x8000_0000_0000_0000) & 0x8000_0000_0000_0000 != 0 && (low | 0x8000_0000_0000_0000)
            & 0x7fff_ffff_ffff_ffff == low) by (bit_vector)
            requires
                low < 0x8000_0000_0000_0000,
        ;
        if is_dedicated {
            AllocationId(low | Self::DEDICATED_BIT)
        } else {
            AllocationId(low)
        }
    }

    pub open spec fn spec_is_dedicated(&self) -> bool {
        self.raw() & Self::DEDICATED_BIT != 0
    }

    /// Whether the allocation has a memory block of its own.
    #[verifier::when_used_as_spec(spec_is_dedicated)]
    pub fn is_dedicated(&self) -> (r: bool)
        ensures
            r == self.spec_is_dedicated(),
    {
        (self.0 & Self::DEDICATED_BIT) != 0
    }

    pub open spec fn spec_index(&self) -> u64 {
        self.raw() & 0x7fff_ffff_ffff_ffff
    }

    /// The index of the allocation among those of its kind.
    #[verifier::when_used_as_spec(spec_index)]
    pub fn index(&self) -> (r: u64)
        ensures
            r == self.spec_index(),
    {
        self.0 & 0x7fff_ffff_ffff_ffff
    }
}

/// How the memory behind an allocation is obtained: from the blocks that the
/// allocator manages, or as a block of its own for one buffer or one image,
/// named by its handle.
#[derive(Clone, Copy, Debug, PartialEq, Eq, Structural)]
pub enum MemoryType {
    Managed,
    DedicatedBuffer(u64),
    DedicatedImage(u64),
}

/// What the library keeps of an allocation: the device memory it lies in and
/// its offset there.
#[derive(Clone, Copy, Debug, PartialEq, Eq, Structural)]
pub struct Allocation {
    pub memory: u64,
    pub offset: u64,
}

impl Allocation {
    /// The handle of the device memory.
    pub fn memory(&self) -> (r: u64)
        ensures
            r == self.memory,
    {
        self.memory
    }

    /// The offset of the allocation in its device memory.
    pub fn offset(&self) -> (r: u64)
        ensures
            r == self.offset,
    {
        self.offset
    }
}

} // verus!
