use vstd::prelude::*;

verus! {

/// A semaphore with two states, signalled by one queue operation and waited
/// for by another.
#[derive(Clone, Copy, Debug, PartialEq, Eq, Structural)]
pub struct BinarySemaphore {
    handle: u64,
}

impl BinarySemaphore {
    /// The semaphore behind `handle`.
    pub fn new(handle: u64) -> (r: Self)
        ensures
            r.handle() == handle,
    {
        BinarySemaphore { handle }
    }

    pub closed spec fn spec_handle(&self) -> u64 {
        self.handle
    }

    #[verifier::when_used_as_spec(spec_handle)]
    pub fn handle(&self) -> (r: u64)
        ensures
            r == self.spec_handle(),
    {
        self.handle
    }
}

/// A semaphore that counts upwards: the device signals values, and the host
/// reads the value reached.
#[derive(Clone, Copy, Debug, PartialEq, Eq, Structural)]
pub struct TimelineSemaphore {
    handle: u64,
    value: u64,
}

impl TimelineSemaphore {
    /// The semaphore behind `handle`, created with the counter at `value`.
    pub fn new(handle: u64, value: u64) -> (r: Self)
        ensures
            r.handle() == handle,
            r.initial_value() == value,
    {
        TimelineSemaphore { handle, value }
    }

    pub closed spec fn spec_handle(&self) -> u64 {
        self.handle
    }

    pub closed spec fn spec_initial_value(&self) -> u64 {
        self.value
    }

    #[verifier::when_used_as_spec(spec_handle)]
    pub fn handle(&self) -> (r: u64)
        ensures
            r == self.spec_handle(),
    {
        self.handle
    }

    /// The value that the counter was created with.
    #[verifier::when_used_as_spec(spec_initial_value)]
    pub fn initial_value(&self) -> (r: u64)
        ensures
            r == self.spec_initial_value(),
    {
        self.value
    }
}

} // verus!
