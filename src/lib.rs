//! Batch conversion of RAW camera images: the worker-pool sizing, the
//! hand-off protocol between the prefetch stage, the dispatch bridge and the
//! workers, and the decode and demosaic step applied to each file.

mod io_prefetch;
mod raw_image_util;
mod thread_pool;
mod util;

pub use io_prefetch::{ImageData, PrefetchCursor, PrefetchStep, channel_bound, create_channel};
pub use raw_image_util::{
    DecodeError, RgbImage, load_raw_image_as_0rgb, rgb_from_samples, rgb_triples, scale_to_u8,
};
pub use thread_pool::{
    BridgeAction, DispatchBridge, NextWorkloadOrStop, ProtocolViolation, ShutdownStep, WorkerAction,
    WorkerState, worker_step,
};
pub use util::{ParallelizationInfo, ReadableByteSlice};
