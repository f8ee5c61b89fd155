use vstd::prelude::*;

use crate::error::ErrorKind;
use crate::gpu_resources::GpuResourceId;

verus! {

/// The link value that ends the free list.
pub const FREE_LIST_END: usize = usize::MAX;

/// What a slot holds: a live value, or the link to the next free slot.
pub enum ResourceEntry<T> {
    Occupied(T),
    Free(usize),
}

/// A slot together with its version counter.
pub struct ResourceVersionEntry<T> {
    entry: ResourceEntry<T>,
    version: u16,
}

/// A slot as the contracts see it: the value it holds, if any, and its version.
pub struct SlotView<T> {
    pub value: Option<T>,
    pub version: u16,
}

/// A generational arena: values live in numbered slots, a removed slot is
/// reused by a later insert under a new version, and free slots are chained
/// in ascending order of their index.
pub struct ResourceSlot<T> {
    entries: Vec<ResourceVersionEntry<T>>,
    free_head: usize,
    free_list: Ghost<Seq<usize>>,
}

/// The version a slot gets when it is reused.
pub open spec fn next_version(version: u16) -> u16 {
    if version == u16::MAX {
        0
    } else {
        (version + 1) as u16
    }
}

/// The lowest vacant slot, if there is one.
pub open spec fn lowest_free<T>(slots: Seq<SlotView<T>>) -> Option<int>
    decreases slots.len(),
{
    if slots.len() == 0 {
        None
    } else {
        match lowest_free(slots.drop_last()) {
            Some(i) => Some(i),
            None => if slots.last().value is None {
                Some(slots.len() - 1)
            } else {
                None
            },
        }
    }
}

/// Whether `id` names an occupied slot of the version it was issued for.
pub open spec fn is_live<T>(slots: Seq<SlotView<T>>, id: GpuResourceId) -> bool {
    &&& id.index() < slots.len()
    &&& slots[id.index() as int].version == id.version()
    &&& slots[id.index() as int].value is Some
}

/// The slots after `value` was inserted: the lowest vacant slot is reused
/// under its next version, and without one a slot of version 0 is appended.
pub open spec fn slots_after_insert<T>(slots: Seq<SlotView<T>>, value: T) -> Seq<SlotView<T>> {
    match lowest_free(slots) {
        Some(i) => slots.update(
            i,
            SlotView { value: Some(value), version: next_version(slots[i].version) },
        ),
        None => slots.push(SlotView { value: Some(value), version: 0 }),
    }
}

/// The slot index that an insert uses.
pub open spec fn inserted_index<T>(slots: Seq<SlotView<T>>) -> int {
    match lowest_free(slots) {
        Some(i) => i,
        None => slots.len() as int,
    }
}

/// The version that an insert hands out.
pub open spec fn inserted_version<T>(slots: Seq<SlotView<T>>) -> u16 {
    match lowest_free(slots) {
        Some(i) => next_version(slots[i].version),
        None => 0,
    }
}

/// The slots after the value behind a live `id` was taken out.
pub open spec fn slots_after_remove<T>(slots: Seq<SlotView<T>>, id: GpuResourceId) -> Seq<
    SlotView<T>,
> {
    slots.update(id.index() as int, SlotView { value: None, version: id.version() })
}

/// The values of the occupied slots, in slot order.
pub open spec fn occupied_values<T>(slots: Seq<SlotView<T>>) -> Seq<T>
    decreases slots.len(),
{
    if slots.len() == 0 {
        Seq::empty()
    } else {
        let front = occupied_values(slots.drop_last());
        match slots.last().value {
            Some(value) => front.push(value),
            None => front,
        }
    }
}

/// The slots after the values behind `ids` were taken out one after the
/// other. An id that is not live when its turn comes changes nothing.
pub open spec fn slots_after_removals<T>(slots: Seq<SlotView<T>>, ids: Seq<GpuResourceId>) -> Seq<
    SlotView<T>,
>
    decreases ids.len(),
{
    if ids.len() == 0 {
        slots
    } else {
        let before = slots_after_removals(slots, ids.drop_last());
        if is_live(before, ids.last()) {
            slots_after_remove(before, ids.last())
        } else {
            before
        }
    }
}

/// The values that taking out `ids` one after the other yields, in that
/// order. An id that is not live when its turn comes yields nothing.
pub open spec fn removed_values<T>(slots: Seq<SlotView<T>>, ids: Seq<GpuResourceId>) -> Seq<T>
    decreases ids.len(),
{
    if ids.len() == 0 {
        Seq::empty()
    } else {
        let before = slots_after_removals(slots, ids.drop_last());
        let earlier = removed_values(slots, ids.drop_last());
        if is_live(before, ids.last()) {
            earlier.push(before[ids.last().index() as int].value->0)
        } else {
            earlier
        }
    }
}

/// How many of `ids` are not live when their turn comes.
pub open spec fn stale_count<T>(slots: Seq<SlotView<T>>, ids: Seq<GpuResourceId>) -> nat
    decreases ids.len(),
{
    if ids.len() == 0 {
        0
    } else {
        let before = slots_after_removals(slots, ids.drop_last());
        let earlier = stale_count(slots, ids.drop_last());
        if is_live(before, ids.last()) {
            earlier
        } else {
            earlier + 1
        }
    }
}

/// How many members of `chain` lie below `index`.
pub open spec fn slots_below(chain: Seq<usize>, index: usize) -> int
    decreases chain.len(),
{
    if chain.len() == 0 {
        0
    } else {
        slots_below(chain.drop_last(), index) + (if chain.last() < index {
            1int
        } else {
            0int
        })
    }
}

/// `lowest_free` returns a vacant slot below which every slot is occupied, and
/// returns nothing only when every slot is occupied.
pub proof fn lemma_lowest_free<T>(slots: Seq<SlotView<T>>)
    ensures
        match lowest_free(slots) {
            Some(i) => {
                &&& 0 <= i < slots.len()
                &&& slots[i].value is None
                &&& forall|j: int| 0 <= j < i ==> (#[trigger] slots[j]).value is Some
            },
            None => forall|j: int| 0 <= j < slots.len() ==> (#[trigger] slots[j]).value is Some,
        },
    decreases slots.len(),
{
    if slots.len() > 0 {
        let front = slots.drop_last();
        lemma_lowest_free(front);
        assert(forall|j: int| 0 <= j < front.len() ==> front[j] == slots[j]);
    }
}

impl<T> ResourceVersionEntry<T> {
    spec fn slot_view(self) -> SlotView<T> {
        SlotView {
            value: match self.entry {
                ResourceEntry::Occupied(value) => Some(value),
                ResourceEntry::Free(_) => None,
            },
            version: self.version,
        }
    }
}

spec fn link_after(chain: Seq<usize>, k: int) -> usize {
    if k + 1 < chain.len() {
        chain[k + 1]
    } else {
        FREE_LIST_END
    }
}

spec fn ascends(chain: Seq<usize>) -> bool {
    forall|j: int, k: int| 0 <= j < k < chain.len() ==> #[trigger] chain[j] < #[trigger] chain[k]
}

spec fn links_follow<T>(entries: Seq<ResourceVersionEntry<T>>, chain: Seq<usize>) -> bool {
    forall|k: int|
        0 <= k < chain.len() ==> (#[trigger] chain[k]) < entries.len() && entries[chain[k] as int].entry
            == ResourceEntry::<T>::Free(link_after(chain, k))
}

spec fn holds_every_free<T>(entries: Seq<ResourceVersionEntry<T>>, chain: Seq<usize>) -> bool {
    forall|i: int|
        0 <= i < entries.len() && (#[trigger] entries[i]).entry is Free ==> chain.contains(i as usize)
}

spec fn chain_wf<T>(entries: Seq<ResourceVersionEntry<T>>, head: usize, chain: Seq<usize>) -> bool {
    &&& entries.len() <= 0x1_0000_0000
    &&& head == (if chain.len() == 0 {
        FREE_LIST_END
    } else {
        chain[0]
    })
    &&& links_follow(entries, chain)
    &&& ascends(chain)
    &&& holds_every_free(entries, chain)
}

/// An index between its lower and higher neighbours keeps the chain ascending.
proof fn lemma_insert_ascends(chain: Seq<usize>, position: int, index: usize)
    requires
        ascends(chain),
        0 <= position <= chain.len(),
        forall|j: int| 0 <= j < position ==> (#[trigger] chain[j]) < index,
        forall|j: int| position <= j < chain.len() ==> index < #[trigger] chain[j],
    ensures
        ascends(chain.insert(position, index)),
{
    let after = chain.insert(position, index);
    assert forall|j: int, k: int| 0 <= j < k < after.len() implies #[trigger] after[j]
        < #[trigger] after[k] by {
        if k < position {
            assert(after[j] == chain[j] && after[k] == chain[k]);
        } else if k == position {
            assert(after[j] == chain[j] && after[k] == index);
        } else if j < position {
            assert(after[j] == chain[j] && after[k] == chain[k - 1]);
        } else if j == position {
            assert(after[j] == index && after[k] == chain[k - 1]);
        } else {
            assert(after[j] == chain[j - 1] && after[k] == chain[k - 1]);
        }
    }
}

/// Once the slot below points at `index` and `index` points at the slot above,
/// the links follow the chain with `index` in it.
proof fn lemma_insert_links<T>(
    entries: Seq<ResourceVersionEntry<T>>,
    chain: Seq<usize>,
    position: int,
    index: usize,
    linked: Seq<ResourceVersionEntry<T>>,
)
    requires
        links_follow(entries, chain),
        index < entries.len(),
        0 <= position <= chain.len(),
        forall|j: int| 0 <= j < chain.len() ==> (#[trigger] chain[j]) != index,
        position > 0 ==> forall|j: int|
            0 <= j < chain.len() && j != position - 1 ==> (#[trigger] chain[j]) != chain[position - 1],
        linked.len() == entries.len(),
        linked[index as int].entry == ResourceEntry::<T>::Free(
            if position < chain.len() {
                chain[position]
            } else {
                FREE_LIST_END
            },
        ),
        position > 0 ==> linked[chain[position - 1] as int].entry == ResourceEntry::<T>::Free(index),
        forall|i: int|
            0 <= i < entries.len() && i != index && (position == 0 || i != chain[position - 1])
                ==> #[trigger] linked[i] == entries[i],
    ensures
        links_follow(linked, chain.insert(position, index)),
{
    let after = chain.insert(position, index);
    assert forall|k: int| 0 <= k < after.len() implies (#[trigger] after[k]) < linked.len()
        && linked[after[k] as int].entry == ResourceEntry::<T>::Free(link_after(after, k)) by {
        if k < position {
            assert(after[k] == chain[k]);
            if k + 1 < position {
                assert(after[k + 1] == chain[k + 1]);
                assert(linked[chain[k] as int] == entries[chain[k] as int]);
            } else {
                assert(after[k + 1] == index);
            }
        } else if k == position {
            assert(after[k] == index);
            if position < chain.len() {
                assert(after[k + 1] == chain[position]);
            }
        } else {
            assert(after[k] == chain[k - 1]);
            if k + 1 < after.len() {
                assert(after[k + 1] == chain[k]);
            }
            assert(linked[chain[k - 1] as int] == entries[chain[k - 1] as int]);
        }
    }
}

/// The chain with `index` in it holds every free slot once `index` is free.
proof fn lemma_insert_holds<T>(
    entries: Seq<ResourceVersionEntry<T>>,
    chain: Seq<usize>,
    position: int,
    index: usize,
    linked: Seq<ResourceVersionEntry<T>>,
)
    requires
        holds_every_free(entries, chain),
        0 <= position <= chain.len(),
        entries.len() <= usize::MAX,
        linked.len() == entries.len(),
        forall|i: int|
            0 <= i < entries.len() && i != index && !chain.contains(i as usize)
                ==> #[trigger] linked[i] == entries[i],
    ensures
        holds_every_free(linked, chain.insert(position, index)),
{
    let after = chain.insert(position, index);
    assert forall|i: int| 0 <= i < linked.len() && (#[trigger] linked[i]).entry is Free implies after.contains(
        i as usize,
    ) by {
        if i == index {
            assert(after[position] == i);
        } else {
            if !chain.contains(i as usize) {
                assert(entries[i].entry is Free);
            }
            let k = choose|k: int| 0 <= k < chain.len() && chain[k] == i as usize;
            if k < position {
                assert(after[k] == i);
            } else {
                assert(after[k + 1] == i);
            }
        }
    }
}

/// Whether `index` lies above the first `position` members of the chain and
/// below the rest.
spec fn fits_at(chain: Seq<usize>, position: int, index: usize) -> bool {
    &&& 0 <= position <= chain.len()
    &&& forall|j: int| 0 <= j < position ==> (#[trigger] chain[j]) < index
    &&& forall|j: int| position <= j < chain.len() ==> index < #[trigger] chain[j]
}

/// Where `index` fits into the chain, as many members lie below it.
proof fn lemma_fits_at_count(chain: Seq<usize>, position: int, index: usize)
    requires
        fits_at(chain, position, index),
    ensures
        slots_below(chain, index) == position,
    decreases chain.len(),
{
    if chain.len() > 0 {
        let front = chain.drop_last();
        if position == chain.len() {
            assert(chain[chain.len() - 1] < index);
            lemma_fits_at_count(front, position - 1, index);
        } else {
            assert(index < chain[chain.len() - 1]);
            lemma_fits_at_count(front, position, index);
        }
    }
}

/// Linking the occupied slot `index` into the chain where it fits keeps the
/// chain well formed.
proof fn lemma_insert_chain<T>(
    entries: Seq<ResourceVersionEntry<T>>,
    head: usize,
    chain: Seq<usize>,
    position: int,
    index: usize,
    linked: Seq<ResourceVersionEntry<T>>,
)
    requires
        chain_wf(entries, head, chain),
        entries.len() <= usize::MAX,
        index < entries.len(),
        fits_at(chain, position, index),
        linked.len() == entries.len(),
        linked[index as int].entry == ResourceEntry::<T>::Free(
            if position < chain.len() {
                chain[position]
            } else {
                FREE_LIST_END
            },
        ),
        position > 0 ==> linked[chain[position - 1] as int].entry == ResourceEntry::<T>::Free(index),
        forall|i: int|
            0 <= i < entries.len() && i != index && (position == 0 || i != chain[position - 1])
                ==> #[trigger] linked[i] == entries[i],
    ensures
        chain_wf(
            linked,
            if position == 0 {
                index
            } else {
                head
            },
            chain.insert(position, index),
        ),
{
    if position > 0 {
        assert forall|j: int| 0 <= j < chain.len() && j != position - 1 implies (#[trigger] chain[j])
            != chain[position - 1] by {
            if j < position - 1 {
                assert(chain[j] < chain[position - 1]);
            } else {
                assert(chain[position - 1] < chain[j]);
            }
        }
    }
    lemma_insert_ascends(chain, position, index);
    lemma_insert_links(entries, chain, position, index, linked);
    assert forall|i: int|
        0 <= i < entries.len() && i != index && !chain.contains(i as usize) implies #[trigger] linked[i]
        == entries[i] by {
        if position > 0 {
            assert(chain.contains(chain[position - 1]));
        }
    }
    lemma_insert_holds(entries, chain, position, index, linked);
    let after = chain.insert(position, index);
    assert(after[0] == (if position == 0 {
        index
    } else {
        chain[0]
    }));
}

impl<T> ResourceSlot<T> {
    /// The slots of the arena, by index.
    pub closed spec fn view(&self) -> Seq<SlotView<T>> {
        Seq::new(self.entries@.len(), |i: int| self.entries@[i].slot_view())
    }

    /// The slot indices met when the free list is walked from its head.
    pub closed spec fn free_list(&self) -> Seq<usize> {
        self.free_list@
    }

    /// The representation invariant: the free list starts at the head, follows
    /// the links of the free slots, ascends strictly, and holds every free slot.
    pub closed spec fn wf(&self) -> bool {
        chain_wf(self.entries@, self.free_head, self.free_list@)
    }

    /// Whether an insert can hand out a handle: a slot is free, or the next
    /// slot index still fits a handle.
    pub open spec fn has_room(&self) -> bool {
        self.free_list().len() > 0 || self@.len() <= u32::MAX
    }

    /// The free list ascends strictly and holds exactly the vacant slots, so
    /// its head is the lowest vacant slot.
    pub proof fn lemma_free_list(&self)
        requires
            self.wf(),
        ensures
            forall|j: int, k: int|
                0 <= j < k < self.free_list().len() ==> #[trigger] self.free_list()[j]
                    < #[trigger] self.free_list()[k],
            forall|k: int|
                0 <= k < self.free_list().len() ==> (#[trigger] self.free_list()[k]) < self@.len()
                    && self@[self.free_list()[k] as int].value is None,
            forall|i: int|
                0 <= i < self@.len() && (#[trigger] self@[i]).value is None
                    ==> self.free_list().contains(i as usize),
            self@.len() <= 0x1_0000_0000,
            match lowest_free(self@) {
                Some(i) => self.free_list().len() > 0 && self.free_list()[0] == i,
                None => self.free_list().len() == 0,
            },
    {
        let chain = self.free_list@;
        let entries = self.entries@;
        assert forall|i: int| 0 <= i < self@.len() && (#[trigger] self@[i]).value is None implies chain.contains(
            i as usize,
        ) by {
            assert(entries[i].entry is Free);
        }
        lemma_lowest_free(self@);
        match lowest_free(self@) {
            Some(i) => {
                assert(entries[i].entry is Free);
                let k = choose|k: int| 0 <= k < chain.len() && chain[k] == i as usize;
                if k > 0 {
                    assert(chain[0] < chain[k]);
                    assert(self@[chain[0] as int].value is None);
                }
            },
            None => {
                if chain.len() > 0 {
                    assert(self@[chain[0] as int].value is None);
                }
            },
        }
    }

    /// An arena without slots.
    pub fn new() -> (r: Self)
        ensures
            r.wf(),
            r@.len() == 0,
            r.free_list().len() == 0,
    {
        ResourceSlot { entries: Vec::new(), free_head: FREE_LIST_END, free_list: Ghost(Seq::empty()) }
    }

    /// The number of slots, occupied or free.
    pub fn slot_count(&self) -> (r: usize)
        ensures
            r == self@.len(),
    {
        self.entries.len()
    }

    /// The slot that the next insert will use.
    pub fn next_index(&self) -> (r: usize)
        requires
            self.wf(),
        ensures
            r == inserted_index(self@),
    {
        proof {
            self.lemma_free_list();
        }
        if self.free_head == FREE_LIST_END {
            self.entries.len()
        } else {
            self.free_head
        }
    }

    /// Whether `insert_resource` may be called.
    pub fn can_insert(&self) -> (r: bool)
        requires
            self.wf(),
        ensures
            r == self.has_room(),
    {
        self.free_head != FREE_LIST_END || self.entries.len() <= u32::MAX as usize
    }

    /// Stores `resource` in the lowest free slot, or in a new slot when none
    /// is free, and returns the handle of that slot.
    pub fn insert_resource(&mut self, resource: T) -> (id: GpuResourceId)
        requires
            old(self).wf(),
            old(self).has_room(),
        ensures
            final(self).wf(),
            final(self)@ == slots_after_insert(old(self)@, resource),
            final(self).free_list() == (if old(self).free_list().len() > 0 {
                old(self).free_list().drop_first()
            } else {
                old(self).free_list()
            }),
            id.index() == inserted_index(old(self)@),
            id.version() == inserted_version(old(self)@),
            is_live(final(self)@, id),
    {
        proof {
            self.lemma_free_list();
        }
        if self.free_head == FREE_LIST_END {
            let index = self.entries.len() as u32;
            self.entries.push(
                ResourceVersionEntry { entry: ResourceEntry::Occupied(resource), version: 0 },
            );
            proof {
                assert(self@ =~= slots_after_insert(old(self)@, resource));
            }
            return GpuResourceId::from_parts(index, 0);
        }
        let head = self.free_head;
        let ghost chain = self.free_list@;
        assert(chain[0] == head);
        let next = match &self.entries[head].entry {
            ResourceEntry::Free(next) => *next,
            ResourceEntry::Occupied(_) => FREE_LIST_END,
        };
        let version = self.entries[head].version.wrapping_add(1);
        self.entries.set(
            head,
            ResourceVersionEntry { entry: ResourceEntry::Occupied(resource), version },
        );
        self.free_head = next;
        self.free_list = Ghost(chain.drop_first());
        proof {
            let rest = chain.drop_first();
            assert(next == link_after(chain, 0));
            assert forall|k: int| 0 <= k < rest.len() implies (#[trigger] rest[k]) < self.entries@.len()
                && self.entries@[rest[k] as int].entry == ResourceEntry::<T>::Free(
                link_after(rest, k),
            ) by {
                assert(rest[k] == chain[k + 1]);
                assert(chain[0] < chain[k + 1]);
                assert(link_after(rest, k) == link_after(chain, k + 1));
            }
            assert forall|j: int, k: int| 0 <= j < k < rest.len() implies #[trigger] rest[j]
                < #[trigger] rest[k] by {
                assert(chain[j + 1] < chain[k + 1]);
            }
            assert forall|i: int|
                0 <= i < self.entries@.len() && (#[trigger] self.entries@[i]).entry is Free implies rest.contains(
                i as usize,
            ) by {
                assert(old(self).entries@[i].entry is Free);
                let k = choose|k: int| 0 <= k < chain.len() && chain[k] == i as usize;
                assert(rest[k - 1] == i);
            }
            assert(self@ =~= slots_after_insert(old(self)@, resource));
        }
        GpuResourceId::from_parts(head as u32, version)
    }

    /// The value behind `id`, or `InvalidHandle` when `id` is out of bounds,
    /// names a free slot, or carries another version than the slot has.
    pub fn get_resource(&self, id: GpuResourceId) -> (r: Result<&T, ErrorKind>)
        requires
            self.wf(),
        ensures
            is_live(self@, id) ==> r == Ok::<&T, ErrorKind>(&self@[id.index() as int].value->0),
            !is_live(self@, id) ==> r == Err::<&T, ErrorKind>(ErrorKind::InvalidHandle),
    {
        let index = id.index() as usize;
        if index >= self.entries.len() {
            return Err(ErrorKind::InvalidHandle);
        }
        let versioned_entry = &self.entries[index];
        if versioned_entry.version != id.version() {
            return Err(ErrorKind::InvalidHandle);
        }
        match &versioned_entry.entry {
            ResourceEntry::Occupied(resource) => Ok(resource),
            ResourceEntry::Free(_) => Err(ErrorKind::InvalidHandle),
        }
    }

    /// The slot indices on the free list, in the order in which the list
    /// links them.
    pub fn free_slots(&self) -> (r: Vec<usize>)
        requires
            self.wf(),
        ensures
            r@ == self.free_list(),
    {
        let mut out: Vec<usize> = Vec::new();
        let mut p = self.free_head;
        while p != FREE_LIST_END
            invariant
                self.wf(),
                out@.len() <= self.free_list@.len(),
                out@ == self.free_list@.take(out@.len() as int),
                p == (if out@.len() < self.free_list@.len() {
                    self.free_list@[out@.len() as int]
                } else {
                    FREE_LIST_END
                }),
            decreases self.free_list@.len() - out@.len(),
        {
            let ghost k = out@.len() as int;
            assert(self.free_list@[k] == p);
            let next = match &self.entries[p].entry {
                ResourceEntry::Free(next) => *next,
                ResourceEntry::Occupied(_) => FREE_LIST_END,
            };
            assert(next == link_after(self.free_list@, k));
            out.push(p);
            assert(out@ =~= self.free_list@.take(k + 1));
            p = next;
        }
        assert(out@.len() == self.free_list@.len()) by {
            if out@.len() < self.free_list@.len() {
                assert(self.free_list@[out@.len() as int] < self.entries.len());
            }
        }
        assert(out@ =~= self.free_list@);
        out
    }

    /// The last free slot below `index`, if the free list has one, together
    /// with the place in the free list where `index` belongs.
    fn free_slot_below(&self, index: usize) -> (r: (Option<usize>, Ghost<int>))
        requires
            self.wf(),
            index < self.entries@.len(),
            self.entries@[index as int].entry is Occupied,
        ensures
            fits_at(self.free_list@, r.1@, index),
            match r.0 {
                None => r.1@ == 0,
                Some(p) => r.1@ > 0 && p == self.free_list@[r.1@ - 1],
            },
    {
        let ghost chain = self.free_list@;
        if self.free_head > index {
            proof {
                assert forall|j: int| 0 <= j < chain.len() implies index < #[trigger] chain[j] by {
                    if 0 < j {
                        assert(chain[0] < chain[j]);
                    }
                }
            }
            return (None, Ghost(0));
        }
        let mut p = self.free_head;
        let ghost mut k: int = 0;
        assert(index < self.entries.len());
        assert(chain.len() > 0 && chain[0] == p);
        assert(self.entries@[chain[0] as int].entry is Free);
        loop
            invariant
                self.wf(),
                chain == self.free_list@,
                index < self.entries@.len(),
                self.entries@[index as int].entry is Occupied,
                0 <= k < chain.len(),
                p == chain[k],
                forall|j: int| 0 <= j <= k ==> (#[trigger] chain[j]) < index,
                index < FREE_LIST_END,
            ensures
                0 <= k < chain.len(),
                p == chain[k],
                forall|j: int| 0 <= j <= k ==> (#[trigger] chain[j]) < index,
                index < link_after(chain, k),
            decreases chain.len() - k,
        {
            let link = match &self.entries[p].entry {
                ResourceEntry::Free(link) => *link,
                ResourceEntry::Occupied(_) => FREE_LIST_END,
            };
            assert(link == link_after(chain, k));
            if link > index {
                break;
            }
            proof {
                assert(k + 1 < chain.len());
                assert(chain[k + 1] == link);
                assert(self.entries@[chain[k + 1] as int].entry is Free);
                k = k + 1;
            }
            p = link;
        }
        proof {
            assert forall|j: int| k + 1 <= j < chain.len() implies index < #[trigger] chain[j] by {
                if k + 1 < j {
                    assert(chain[k + 1] < chain[j]);
                }
            }
        }
        (Some(p), Ghost(k + 1))
    }

    /// Takes the value out of the occupied slot `index` and links the slot
    /// into the free list at `position`, behind the free slot `below`.
    fn unlink(&mut self, index: usize, version: u16, below: Option<usize>, position: Ghost<int>) -> (r:
        ResourceVersionEntry<T>)
        requires
            old(self).wf(),
            index < old(self).entries@.len(),
            old(self).entries@[index as int].entry is Occupied,
            old(self).entries@[index as int].version == version,
            fits_at(old(self).free_list@, position@, index),
            match below {
                None => position@ == 0,
                Some(p) => position@ > 0 && p == old(self).free_list@[position@ - 1],
            },
        ensures
            final(self).wf(),
            r == old(self).entries@[index as int],
            final(self).free_list@ == old(self).free_list@.insert(position@, index),
            final(self).entries@.len() == old(self).entries@.len(),
            final(self).entries@[index as int].slot_view() == (SlotView::<T> { value: None, version }),
            forall|i: int|
                0 <= i < old(self).entries@.len() && i != index ==> (#[trigger] final(self).entries@[i]).slot_view()
                    == old(self).entries@[i].slot_view(),
    {
        let ghost chain = self.free_list@;
        let ghost place = position@;
        let next = match below {
            None => self.free_head,
            Some(p) => match &self.entries[p].entry {
                ResourceEntry::Free(link) => *link,
                ResourceEntry::Occupied(_) => FREE_LIST_END,
            },
        };
        assert(next == (if place < chain.len() {
            chain[place]
        } else {
            FREE_LIST_END
        })) by {
            if place > 0 {
                assert(chain[place - 1] < self.entries@.len());
            }
        }
        match below {
            None => {
                self.free_head = index;
            },
            Some(p) => {
                let kept = self.entries[p].version;
                self.entries.set(
                    p,
                    ResourceVersionEntry { entry: ResourceEntry::Free(index), version: kept },
                );
            },
        }
        let ghost walked = self.entries@;
        self.entries.push(ResourceVersionEntry { entry: ResourceEntry::Free(next), version });
        let removed = self.entries.swap_remove(index);
        self.free_list = Ghost(chain.insert(place, index));
        proof {
            assert(self.entries@ =~= walked.update(index as int, self.entries@[index as int]));
            assert(self.entries.len() <= usize::MAX);
            assert(place > 0 ==> chain[place - 1] != index);
            lemma_insert_chain(
                old(self).entries@,
                old(self).free_head,
                chain,
                place,
                index,
                self.entries@,
            );
        }
        removed
    }

    /// Takes the value behind `id` out of the arena and puts its slot on the
    /// free list, before the first free slot of a higher index. Fails with
    /// `InvalidHandle`, and changes nothing, when `id` is out of bounds, names
    /// a free slot, or carries another version than the slot has.
    pub fn remove_resource(&mut self, id: GpuResourceId) -> (r: Result<T, ErrorKind>)
        requires
            old(self).wf(),
        ensures
            final(self).wf(),
            is_live(old(self)@, id) ==> r == Ok::<T, ErrorKind>(old(self)@[id.index() as int].value->0)
                && final(self)@ == slots_after_remove(old(self)@, id) && final(self).free_list() == old(
                self,
            ).free_list().insert(
                slots_below(old(self).free_list(), id.index() as usize),
                id.index() as usize,
            ),
            !is_live(old(self)@, id) ==> r == Err::<T, ErrorKind>(ErrorKind::InvalidHandle)
                && final(self)@ == old(self)@ && final(self).free_list() == old(self).free_list(),
    {
        let index = id.index() as usize;
        if index >= self.entries.len() {
            return Err(ErrorKind::InvalidHandle);
        }
        if self.entries[index].version != id.version() {
            return Err(ErrorKind::InvalidHandle);
        }
        match &self.entries[index].entry {
            ResourceEntry::Free(_) => {
                return Err(ErrorKind::InvalidHandle);
            },
            ResourceEntry::Occupied(_) => {},
        }
        let (below, position) = self.free_slot_below(index);
        let removed = self.unlink(index, id.version(), below, position);
        proof {
            assert(self@ =~= slots_after_remove(old(self)@, id));
            lemma_fits_at_count(old(self).free_list@, position@, index);
        }
        match removed.entry {
            ResourceEntry::Occupied(resource) => Ok(resource),
            ResourceEntry::Free(_) => Err(ErrorKind::InvalidHandle),
        }
    }

    /// Takes every value out of the arena, in slot order, and leaves the
    /// arena without slots.
    pub fn collect_existing(&mut self) -> (r: Vec<T>)
        requires
            old(self).wf(),
        ensures
            final(self).wf(),
            final(self)@.len() == 0,
            final(self).free_list().len() == 0,
            r@ == occupied_values(old(self)@),
    {
        let mut drained: Vec<ResourceVersionEntry<T>> = Vec::new();
        std::mem::swap(&mut self.entries, &mut drained);
        self.free_head = FREE_LIST_END;
        self.free_list = Ghost(Seq::empty());
        let ghost slots = old(self)@;
        let mut out: Vec<T> = Vec::new();
        assert(slots.take(0) =~= Seq::empty());
        for entry in it: drained
            invariant
                it.seq() == old(self).entries@,
                slots == old(self)@,
                out@ == occupied_values(slots.take(it.index() as int)),
        {
            proof {
                let n = it.index() as int;
                assert(slots.take(n + 1).drop_last() =~= slots.take(n));
                assert(slots.take(n + 1).last() == entry.slot_view());
            }
            match entry.entry {
                ResourceEntry::Occupied(resource) => {
                    out.push(resource);
                },
                ResourceEntry::Free(_) => {},
            }
        }
        assert(slots.take(slots.len() as int) =~= slots);
        out
    }
}

} // verus!
