use std::collections::HashMap;
use vstd::prelude::*;

verus! {

broadcast use vstd::std_specs::hash::group_hash_axioms;

/// Items waiting for the device to reach a frame, bucketed by that frame.
pub struct FrameBuckets<T> {
    map: HashMap<u64, Vec<T>>,
}

/// Whether bucket `frame` lies in the window that a collection at the
/// device value `gpu_value` sweeps: the bucket of that value and the two
/// before it.
pub open spec fn in_window(gpu_value: u64, frame: u64) -> bool {
    frame <= gpu_value && gpu_value - frame <= 2
}

impl<T> FrameBuckets<T> {
    /// The items of bucket `frame`, in the order in which they came.
    pub closed spec fn at(&self, frame: u64) -> Seq<T> {
        if self.map@.contains_key(frame) {
            self.map@[frame]@
        } else {
            Seq::empty()
        }
    }

    /// The items that a collection at the device value `gpu_value` takes:
    /// those of the bucket of that value, then those of the two buckets
    /// before it, as far as there are such buckets.
    pub open spec fn window_items(&self, gpu_value: u64) -> Seq<T> {
        self.at(gpu_value) + (if gpu_value >= 1 {
            self.at((gpu_value - 1) as u64)
        } else {
            Seq::empty()
        }) + (if gpu_value >= 2 {
            self.at((gpu_value - 2) as u64)
        } else {
            Seq::empty()
        })
    }

    /// No items in any bucket.
    pub fn new() -> (r: Self)
        ensures
            forall|frame: u64| (#[trigger] r.at(frame)).len() == 0,
    {
        FrameBuckets { map: HashMap::new() }
    }

    /// Takes every item out of bucket `frame`.
    pub fn take(&mut self, frame: u64) -> (r: Vec<T>)
        ensures
            r@ == old(self).at(frame),
            final(self).at(frame).len() == 0,
            forall|other: u64| other != frame ==> #[trigger] final(self).at(other) == old(self).at(other),
    {
        match self.map.remove(&frame) {
            Some(items) => items,
            None => Vec::new(),
        }
    }

    /// Appends `items` to bucket `frame`.
    pub fn extend(&mut self, frame: u64, items: Vec<T>)
        ensures
            final(self).at(frame) == old(self).at(frame) + items@,
            forall|other: u64| other != frame ==> #[trigger] final(self).at(other) == old(self).at(other),
    {
        let mut bucket = self.take(frame);
        let mut items = items;
        bucket.append(&mut items);
        let ghost emptied = *self;
        self.map.insert(frame, bucket);
        proof {
            assert forall|other: u64| other != frame implies #[trigger] self.at(other) == old(self).at(
                other,
            ) by {
                assert(emptied.at(other) == old(self).at(other));
            }
        }
    }

    /// Appends `item` to bucket `frame`.
    pub fn push(&mut self, frame: u64, item: T)
        ensures
            final(self).at(frame) == old(self).at(frame).push(item),
            forall|other: u64| other != frame ==> #[trigger] final(self).at(other) == old(self).at(other),
    {
        let mut bucket = self.take(frame);
        bucket.push(item);
        let ghost emptied = *self;
        self.map.insert(frame, bucket);
        proof {
            assert forall|other: u64| other != frame implies #[trigger] self.at(other) == old(self).at(
                other,
            ) by {
                assert(emptied.at(other) == old(self).at(other));
            }
        }
    }

    /// Takes the items that a collection at the device value `gpu_value`
    /// sweeps. Buckets outside the window keep their items.
    pub fn take_window(&mut self, gpu_value: u64) -> (r: Vec<T>)
        ensures
            r@ == old(self).window_items(gpu_value),
            forall|frame: u64|
                in_window(gpu_value, frame) ==> (#[trigger] final(self).at(frame)).len() == 0,
            forall|frame: u64|
                !in_window(gpu_value, frame) ==> #[trigger] final(self).at(frame) == old(self).at(frame),
    {
        let mut out = self.take(gpu_value);
        let mut second = self.take(gpu_value.saturating_sub(1));
        out.append(&mut second);
        let mut third = self.take(gpu_value.saturating_sub(2));
        out.append(&mut third);
        out
    }
}

} // verus!
