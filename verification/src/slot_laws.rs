use vstd::prelude::*;

use crate::gpu_resources::GpuResourceId;
use crate::slot_arena::{
    inserted_index, inserted_version, is_live, lemma_lowest_free, lowest_free, slots_after_insert,
    slots_after_remove, SlotView,
};

verus! {

/// One step in the life of an arena.
pub enum ArenaOp<T> {
    Insert(T),
    Remove(GpuResourceId),
}

/// The slots after one step. Removing through a handle that is not live
/// changes nothing.
pub open spec fn slots_after_op<T>(slots: Seq<SlotView<T>>, op: ArenaOp<T>) -> Seq<SlotView<T>> {
    match op {
        ArenaOp::Insert(value) => slots_after_insert(slots, value),
        ArenaOp::Remove(id) => if is_live(slots, id) {
            slots_after_remove(slots, id)
        } else {
            slots
        },
    }
}

/// The slots of an arena that started empty and went through `ops`.
pub open spec fn slots_after_ops<T>(ops: Seq<ArenaOp<T>>) -> Seq<SlotView<T>>
    decreases ops.len(),
{
    if ops.len() == 0 {
        Seq::empty()
    } else {
        slots_after_op(slots_after_ops(ops.drop_last()), ops.last())
    }
}

/// The `(index, version)` pairs of the handles that the inserts among `ops`
/// returned, in the order of the inserts.
pub open spec fn issued_handles<T>(ops: Seq<ArenaOp<T>>) -> Seq<(int, u16)>
    decreases ops.len(),
{
    if ops.len() == 0 {
        Seq::empty()
    } else {
        let earlier = issued_handles(ops.drop_last());
        let slots = slots_after_ops(ops.drop_last());
        match ops.last() {
            ArenaOp::Insert(_) => earlier.push((inserted_index(slots), inserted_version(slots))),
            ArenaOp::Remove(_) => earlier,
        }
    }
}

/// Whether the next insert would reuse a slot whose version is the highest
/// one, so that the version starts again at 0.
pub open spec fn insert_wraps<T>(slots: Seq<SlotView<T>>) -> bool {
    match lowest_free(slots) {
        Some(i) => slots[i].version == u16::MAX,
        None => false,
    }
}

/// Whether no insert among `ops` made a version start again at 0.
pub open spec fn never_wraps<T>(ops: Seq<ArenaOp<T>>) -> bool
    decreases ops.len(),
{
    if ops.len() == 0 {
        true
    } else {
        &&& never_wraps(ops.drop_last())
        &&& ops.last() is Insert ==> !insert_wraps(slots_after_ops(ops.drop_last()))
    }
}

/// Every handle issued so far names an existing slot, and its version is at
/// most the one of that slot now.
proof fn lemma_issued_bounded<T>(ops: Seq<ArenaOp<T>>)
    requires
        never_wraps(ops),
    ensures
        forall|a: int|
            0 <= a < issued_handles(ops).len() ==> 0 <= (#[trigger] issued_handles(ops)[a]).0
                < slots_after_ops(ops).len() && issued_handles(ops)[a].1 <= slots_after_ops(
                ops,
            )[issued_handles(ops)[a].0].version,
        forall|a: int, b: int|
            0 <= a < b < issued_handles(ops).len() ==> #[trigger] issued_handles(ops)[a]
                != #[trigger] issued_handles(ops)[b],
    decreases ops.len(),
{
    if ops.len() > 0 {
        let before = ops.drop_last();
        lemma_issued_bounded(before);
        let slots = slots_after_ops(before);
        lemma_lowest_free(slots);
    }
}

/// Handle uniqueness: as long as no slot has been reused so often that its
/// version started again at 0, no two inserts in the life of an arena return
/// the same `(index, version)` pair.
pub proof fn law_handles_unique<T>(ops: Seq<ArenaOp<T>>, a: int, b: int)
    requires
        never_wraps(ops),
        0 <= a < b < issued_handles(ops).len(),
    ensures
        issued_handles(ops)[a] != issued_handles(ops)[b],
{
    lemma_issued_bounded(ops);
}

/// Version guard: a handle is dead once its value was removed, and stays dead
/// after the next insert, whether or not that insert reuses the handle's slot.
pub proof fn law_version_guard<T>(slots: Seq<SlotView<T>>, id: GpuResourceId, value: T)
    requires
        is_live(slots, id),
    ensures
        !is_live(slots_after_remove(slots, id), id),
        !is_live(slots_after_insert(slots_after_remove(slots, id), value), id),
{
    lemma_lowest_free(slots_after_remove(slots, id));
}

} // verus!
