use vstd::prelude::*;

use crate::error::ErrorKind;
use crate::gpu_resources::BufferId;

verus! {

/// The number of a recorder in its pool.
#[derive(Clone, Copy, Debug, PartialEq, Eq, Structural, PartialOrd, Ord, Hash)]
pub struct CommandRecorderId(pub u32);

/// A finished command list: the recorder it came from, its command buffer,
/// and the buffers to destroy once its submission has retired.
#[derive(Clone, Debug)]
pub struct CommandList {
    pub id: CommandRecorderId,
    pub command_pool: u64,
    pub command_buffer: u64,
    pub deferred_delete_buffers: Vec<BufferId>,
}

impl CommandList {
    /// The handle of the command buffer.
    pub fn handle(&self) -> (r: u64)
        ensures
            r == self.command_buffer,
    {
        self.command_buffer
    }
}

/// A recorder: one transient command pool with one command list in
/// recording.
#[derive(Clone, Debug)]
pub struct CommandRecorder {
    id: CommandRecorderId,
    pool: u64,
    current_command_list: CommandList,
}

/// The handles to reset before a recorder is used again: the command pool is
/// reset, then the command buffer is begun for a single submission.
#[derive(Clone, Copy, Debug, PartialEq, Eq, Structural)]
pub struct RecorderReset {
    pub command_pool: u64,
    pub command_buffer: u64,
}

impl CommandRecorder {
    /// Recorder `id` around a command pool and the command buffer that was
    /// allocated from it and begun. No buffer awaits deletion.
    pub fn new(id: CommandRecorderId, command_pool: u64, command_buffer: u64) -> (r: Self)
        ensures
            r.wf(),
            r.id() == id,
            r.pool() == command_pool,
            r.command_buffer() == command_buffer,
            r.deferred_delete_buffers().len() == 0,
    {
        CommandRecorder {
            id,
            pool: command_pool,
            current_command_list: CommandList {
                id,
                command_pool,
                command_buffer,
                deferred_delete_buffers: Vec::new(),
            },
        }
    }

    pub closed spec fn spec_id(&self) -> CommandRecorderId {
        self.id
    }

    pub closed spec fn spec_pool(&self) -> u64 {
        self.pool
    }

    pub closed spec fn spec_command_buffer(&self) -> u64 {
        self.current_command_list.command_buffer
    }

    /// The buffers to destroy once the submission of this recorder's list
    /// has retired, in the order in which they were named.
    pub closed spec fn deferred_delete_buffers(&self) -> Seq<BufferId> {
        self.current_command_list.deferred_delete_buffers@
    }

    /// Whether the list in recording belongs to this recorder.
    pub closed spec fn wf(&self) -> bool {
        self.current_command_list.id == self.id && self.current_command_list.command_pool == self.pool
    }

    #[verifier::when_used_as_spec(spec_id)]
    pub fn id(&self) -> (r: CommandRecorderId)
        ensures
            r == self.spec_id(),
    {
        self.id
    }

    /// The handle of the command pool.
    #[verifier::when_used_as_spec(spec_pool)]
    pub fn pool(&self) -> (r: u64)
        ensures
            r == self.spec_pool(),
    {
        self.pool
    }

    /// The handle of the command buffer in recording.
    #[verifier::when_used_as_spec(spec_command_buffer)]
    pub fn command_buffer(&self) -> (r: u64)
        ensures
            r == self.spec_command_buffer(),
    {
        self.current_command_list.command_buffer
    }

    /// Marks buffer `id` for destruction once the submission of this
    /// recorder's list has retired.
    pub fn destroy_buffer_deferred(&mut self, id: BufferId)
        ensures
            final(self).deferred_delete_buffers() == old(self).deferred_delete_buffers().push(id),
            final(self).id() == old(self).id(),
            final(self).pool() == old(self).pool(),
            final(self).command_buffer() == old(self).command_buffer(),
            old(self).wf() ==> final(self).wf(),
    {
        self.current_command_list.deferred_delete_buffers.push(id);
    }

    /// Hands out the command list, after its command buffer was ended.
    pub fn finish(self) -> (r: CommandList)
        ensures
            r.command_buffer == self.command_buffer(),
            r.deferred_delete_buffers@ == self.deferred_delete_buffers(),
            self.wf() ==> r.id == self.id() && r.command_pool == self.pool(),
    {
        self.current_command_list
    }
}

/// The recorders of a device and the list of those that are free to rent.
pub struct CommandRecorderPool {
    recorders: Vec<CommandRecorder>,
    free_recorders: Vec<CommandRecorderId>,
}

impl CommandRecorderPool {
    /// The `(command pool, command buffer)` pair of each recorder, by id.
    pub closed spec fn recorders(&self) -> Seq<(u64, u64)> {
        Seq::new(
            self.recorders@.len(),
            |i: int| (self.recorders@[i].pool, self.recorders@[i].current_command_list.command_buffer),
        )
    }

    /// The ids that are free to rent; the last one is rented first.
    pub closed spec fn free_recorders(&self) -> Seq<CommandRecorderId> {
        self.free_recorders@
    }

    /// The representation invariant: recorder `i` carries the id `i` and an
    /// empty list of its own, and every free id names a recorder.
    pub closed spec fn wf(&self) -> bool {
        &&& self.recorders@.len() <= u32::MAX
        &&& forall|i: int|
            0 <= i < self.recorders@.len() ==> (#[trigger] self.recorders@[i]).id.0 == i
                && self.recorders@[i].wf() && self.recorders@[i].deferred_delete_buffers().len() == 0
        &&& forall|k: int|
            0 <= k < self.free_recorders@.len() ==> (#[trigger] self.free_recorders@[k]).0
                < self.recorders@.len()
    }

    /// A pool without recorders.
    pub fn new() -> (r: Self)
        ensures
            r.wf(),
            r.recorders().len() == 0,
            r.free_recorders().len() == 0,
    {
        CommandRecorderPool { recorders: Vec::new(), free_recorders: Vec::new() }
    }

    /// The number of recorders, rented or free.
    pub fn recorder_count(&self) -> (r: usize)
        ensures
            r == self.recorders().len(),
    {
        self.recorders.len()
    }

    /// Rents the recorder that was freed last, if one is free.
    pub fn rent(&mut self) -> (r: Option<CommandRecorder>)
        requires
            old(self).wf(),
        ensures
            final(self).wf(),
            final(self).recorders() == old(self).recorders(),
            old(self).free_recorders().len() == 0 ==> r is None && final(self).free_recorders() == old(
                self,
            ).free_recorders(),
            old(self).free_recorders().len() > 0 ==> r is Some && ({
                let id = old(self).free_recorders().last();
                let recorder = r->0;
                &&& final(self).free_recorders() == old(self).free_recorders().drop_last()
                &&& recorder.wf()
                &&& recorder.id() == id
                &&& (recorder.pool(), recorder.command_buffer()) == old(self).recorders()[id.0 as int]
                &&& recorder.deferred_delete_buffers().len() == 0
            }),
    {
        match self.free_recorders.pop() {
            None => None,
            Some(id) => {
                let stored = &self.recorders[id.0 as usize];
                Some(
                    CommandRecorder::new(
                        stored.id,
                        stored.pool,
                        stored.current_command_list.command_buffer,
                    ),
                )
            },
        }
    }

    /// Whether the pool can take one more recorder.
    pub open spec fn has_room(&self) -> bool {
        self.recorders().len() < u32::MAX
    }

    /// Adds a recorder around a new command pool and its command buffer, and
    /// rents it out at once. Its id is the number of recorders before.
    pub fn create_command_recorder(&mut self, command_pool: u64, command_buffer: u64) -> (r:
        CommandRecorder)
        requires
            old(self).wf(),
            old(self).has_room(),
        ensures
            final(self).wf(),
            final(self).recorders() == old(self).recorders().push((command_pool, command_buffer)),
            final(self).free_recorders() == old(self).free_recorders(),
            r.wf(),
            r.id().0 == old(self).recorders().len(),
            r.pool() == command_pool,
            r.command_buffer() == command_buffer,
            r.deferred_delete_buffers().len() == 0,
    {
        let id = CommandRecorderId(self.recorders.len() as u32);
        self.recorders.push(CommandRecorder::new(id, command_pool, command_buffer));
        proof {
            assert(final(self).recorders() =~= old(self).recorders().push((command_pool, command_buffer))) by {
                assert(self.recorders() =~= old(self).recorders().push((command_pool, command_buffer)));
            }
        }
        CommandRecorder::new(id, command_pool, command_buffer)
    }

    /// Puts recorder `id` back on the free list and says which handles to
    /// reset for it. An id that names no recorder is an `InvalidHandle`, and
    /// nothing changes.
    pub fn free_command_recorder(&mut self, id: CommandRecorderId) -> (r: Result<RecorderReset, ErrorKind>)
        requires
            old(self).wf(),
        ensures
            final(self).wf(),
            final(self).recorders() == old(self).recorders(),
            id.0 < old(self).recorders().len() ==> final(self).free_recorders() == old(
                self,
            ).free_recorders().push(id) && r == Ok::<RecorderReset, ErrorKind>(
                RecorderReset {
                    command_pool: old(self).recorders()[id.0 as int].0,
                    command_buffer: old(self).recorders()[id.0 as int].1,
                },
            ),
            id.0 >= old(self).recorders().len() ==> final(self).free_recorders() == old(
                self,
            ).free_recorders() && r == Err::<RecorderReset, ErrorKind>(ErrorKind::InvalidHandle),
    {
        if id.0 as usize >= self.recorders.len() {
            return Err(ErrorKind::InvalidHandle);
        }
        let stored = &self.recorders[id.0 as usize];
        let reset = RecorderReset {
            command_pool: stored.pool,
            command_buffer: stored.current_command_list.command_buffer,
        };
        self.free_recorders.push(id);
        Ok(reset)
    }

    /// The command pools to destroy when the pool is torn down, by id.
    pub fn command_pools(&self) -> (r: Vec<u64>)
        ensures
            r@.len() == self.recorders().len(),
            forall|i: int| 0 <= i < r@.len() ==> r@[i] == self.recorders()[i].0,
    {
        let mut out: Vec<u64> = Vec::new();
        let mut i: usize = 0;
        while i < self.recorders.len()
            invariant
                i <= self.recorders@.len(),
                out@.len() == i,
                forall|j: int| 0 <= j < i ==> out@[j] == self.recorders()[j].0,
            decreases self.recorders@.len() - i,
        {
            out.push(self.recorders[i].pool);
            i += 1;
        }
        out
    }
}

/// Those of `ids` that name one of `count` recorders, in their order.
pub open spec fn known_recorders(count: nat, ids: Seq<CommandRecorderId>) -> Seq<CommandRecorderId>
    decreases ids.len(),
{
    if ids.len() == 0 {
        Seq::empty()
    } else {
        let earlier = known_recorders(count, ids.drop_last());
        if ids.last().0 < count {
            earlier.push(ids.last())
        } else {
            earlier
        }
    }
}

/// The handles to reset for each of `ids`, given the handles of every
/// recorder.
pub open spec fn resets_of(recorders: Seq<(u64, u64)>, ids: Seq<CommandRecorderId>) -> Seq<RecorderReset> {
    Seq::new(
        ids.len(),
        |i: int|
            RecorderReset {
                command_pool: recorders[ids[i].0 as int].0,
                command_buffer: recorders[ids[i].0 as int].1,
            },
    )
}

impl CommandRecorderPool {
    /// What `free_command_recorders` does.
    pub open spec fn recorders_freed(
        &self,
        post: CommandRecorderPool,
        ids: Seq<CommandRecorderId>,
        r: (Vec<RecorderReset>, usize),
    ) -> bool {
        let known = known_recorders(self.recorders().len(), ids);
        &&& post.recorders() == self.recorders()
        &&& post.free_recorders() == self.free_recorders() + known
        &&& r.0@ == resets_of(self.recorders(), known)
        &&& r.1 == ids.len() - known.len()
    }

    /// Puts the recorders `ids` back on the free list, one after the other,
    /// and says which handles to reset for them, together with the number
    /// of ids that name no recorder.
    pub fn free_command_recorders(&mut self, ids: &Vec<CommandRecorderId>) -> (r: (
        Vec<RecorderReset>,
        usize,
    ))
        requires
            old(self).wf(),
        ensures
            final(self).wf(),
            old(self).recorders_freed(*final(self), ids@, r),
    {
        let ghost count = self.recorders().len();
        let mut out: Vec<RecorderReset> = Vec::new();
        let mut stale: usize = 0;
        let mut i: usize = 0;
        while i < ids.len()
            invariant
                i <= ids@.len(),
                self.wf(),
                count == old(self).recorders().len(),
                self.recorders() == old(self).recorders(),
                self.free_recorders() == old(self).free_recorders() + known_recorders(
                    count,
                    ids@.take(i as int),
                ),
                out@ == resets_of(old(self).recorders(), known_recorders(count, ids@.take(i as int))),
                stale == i - known_recorders(count, ids@.take(i as int)).len(),
                known_recorders(count, ids@.take(i as int)).len() <= i,
            decreases ids@.len() - i,
        {
            proof {
                assert(ids@.take(i + 1).drop_last() =~= ids@.take(i as int));
                assert(ids@.take(i + 1).last() == ids@[i as int]);
            }
            let ghost before = known_recorders(count, ids@.take(i as int));
            match self.free_command_recorder(ids[i]) {
                Ok(reset) => {
                    out.push(reset);
                    proof {
                        let after = known_recorders(count, ids@.take(i + 1));
                        assert(after == before.push(ids@[i as int]));
                        assert(self.free_recorders() =~= old(self).free_recorders() + after);
                        assert(out@ =~= resets_of(old(self).recorders(), after));
                    }
                },
                Err(_) => {
                    stale += 1;
                },
            }
            i += 1;
        }
        assert(ids@.take(ids@.len() as int) =~= ids@);
        (out, stale)
    }
}

/// One region of a copy between two buffers.
#[derive(Clone, Copy, Debug, PartialEq, Eq, Structural)]
pub struct CopyRegion {
    pub src_offset: u64,
    pub dst_offset: u64,
    pub size: u64,
}

} // verus!
