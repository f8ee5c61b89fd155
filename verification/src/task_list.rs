use vstd::prelude::*;

use crate::command_recorder::CommandRecorder;

verus! {

/// A named piece of work, `task` being what is called to do it.
pub struct Task<F> {
    pub name: String,
    pub task: F,
}

/// What a task of a frame works with.
pub struct FrameContext {
    pub frame_index: u64,
    pub command_recorder: CommandRecorder,
}

/// A list of tasks, in the order in which they were added.
pub struct TaskList<F> {
    tasks: Vec<Task<F>>,
}

impl<F> TaskList<F> {
    /// The tasks, in the order in which they were added.
    pub closed spec fn view(&self) -> Seq<Task<F>> {
        self.tasks@
    }

    pub fn new() -> (r: Self)
        ensures
            r@.len() == 0,
    {
        TaskList { tasks: Vec::new() }
    }

    pub fn add_task(&mut self, task: Task<F>)
        ensures
            final(self)@ == old(self)@.push(task),
    {
        self.tasks.push(task);
    }

    /// The number of tasks.
    pub fn len(&self) -> (r: usize)
        ensures
            r == self@.len(),
    {
        self.tasks.len()
    }
}

} // verus!
