use vstd::prelude::*;

verus! {

/// The kinds of failure that the library reports to its caller.
#[derive(Clone, Copy, Debug, PartialEq, Eq, Structural)]
pub enum ErrorKind {
    /// A physical device lacks a required capability, or no device was selected.
    Unsupported,
    /// The host ran out of memory during a create call.
    OutOfHostMemory,
    /// The device ran out of memory during a create call.
    OutOfDeviceMemory,
    /// A handle's slot is out of bounds, free, or of another version.
    InvalidHandle,
    /// The surface behind a swapchain is gone.
    SurfaceLost,
    /// The swapchain no longer matches its surface.
    SwapchainStale,
    /// An acquire did not finish within its window.
    Timeout,
    /// The caller broke an invariant of the API.
    ProgrammingFault,
}

/// The result code `SUCCESS` of the graphics API.
pub const RESULT_SUCCESS: i32 = 0;

/// The result code `NOT_READY`.
pub const RESULT_NOT_READY: i32 = 1;

/// The result code `TIMEOUT`.
pub const RESULT_TIMEOUT: i32 = 2;

/// The result code `ERROR_OUT_OF_HOST_MEMORY`.
pub const RESULT_OUT_OF_HOST_MEMORY: i32 = -1;

/// The result code `ERROR_OUT_OF_DEVICE_MEMORY`.
pub const RESULT_OUT_OF_DEVICE_MEMORY: i32 = -2;

/// The result code `ERROR_SURFACE_LOST_KHR`.
pub const RESULT_SURFACE_LOST: i32 = -1_000_000_000;

/// The result code `SUBOPTIMAL_KHR`.
pub const RESULT_SUBOPTIMAL: i32 = 1_000_001_003;

/// The result code `ERROR_OUT_OF_DATE_KHR`.
pub const RESULT_OUT_OF_DATE: i32 = -1_000_001_004;

impl ErrorKind {
    /// The kind of failure that a result code of the graphics API stands
    /// for, and none for success. A code without a kind of its own is a
    /// `ProgrammingFault`.
    pub fn from_result_code(code: i32) -> (r: Option<ErrorKind>)
        ensures
            r == (if code == RESULT_SUCCESS {
                None
            } else if code == RESULT_OUT_OF_HOST_MEMORY {
                Some(ErrorKind::OutOfHostMemory)
            } else if code == RESULT_OUT_OF_DEVICE_MEMORY {
                Some(ErrorKind::OutOfDeviceMemory)
            } else if code == RESULT_SURFACE_LOST {
                Some(ErrorKind::SurfaceLost)
            } else if code == RESULT_SUBOPTIMAL || code == RESULT_OUT_OF_DATE {
                Some(ErrorKind::SwapchainStale)
            } else if code == RESULT_TIMEOUT || code == RESULT_NOT_READY {
                Some(ErrorKind::Timeout)
            } else {
                Some(ErrorKind::ProgrammingFault)
            }),
    {
        if code == RESULT_SUCCESS {
            None
        } else if code == RESULT_OUT_OF_HOST_MEMORY {
            Some(ErrorKind::OutOfHostMemory)
        } else if code == RESULT_OUT_OF_DEVICE_MEMORY {
            Some(ErrorKind::OutOfDeviceMemory)
        } else if code == RESULT_SURFACE_LOST {
            Some(ErrorKind::SurfaceLost)
        } else if code == RESULT_SUBOPTIMAL || code == RESULT_OUT_OF_DATE {
            Some(ErrorKind::SwapchainStale)
        } else if code == RESULT_TIMEOUT || code == RESULT_NOT_READY {
            Some(ErrorKind::Timeout)
        } else {
            Some(ErrorKind::ProgrammingFault)
        }
    }
}

} // verus!
