//! The core of a thin, bindless abstraction over an explicit graphics API:
//! versioned resource handles, the slot arenas behind them, and the bookkeeping
//! of the frame timeline. Everything here works on plain values; the driver
//! calls themselves are made by the program that embeds this library.

pub mod allocator;
pub mod command_recorder;
pub mod common;
pub mod device;
pub mod error;
pub mod frame_buckets;
pub mod gpu_resources;
pub mod include_laws;
pub mod pipeline;
pub mod preamble;
pub mod shader;
pub mod slot_arena;
pub mod slot_laws;
pub mod swapchain;
pub mod sync;
pub mod task_list;
pub mod text;
