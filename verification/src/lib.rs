//! Grain segmentation, edge tapering and silence screening for offline
//! granular analysis of audio recordings.
//!
//! The library owns the index arithmetic of the pipeline: where grains
//! start and end, which samples a taper touches, which grains count as
//! silent, how long recordings are cut into chunks and how large the
//! transform buffer of a profile is.  It never does arithmetic on a
//! sample: samples are a type parameter, and the one place that scales
//! them takes the multiplication from its caller.
pub mod analysis;
pub mod chunk;
pub mod config;
pub mod discovery;
pub mod profile;
pub mod quality;
pub mod segment;
pub mod text;
pub mod window;

pub use analysis::{check_grain_sizes, extract_grain, zero_pad, GrainError};
pub use chunk::{split_into_chunks, AudioChunk};
pub use config::GranulatorConfig;
pub use discovery::search_patterns;
pub use profile::{fft_size_for, plan_chunk, ChunkPlan, GrainProfile};
pub use quality::{check_zeros, is_silent};
pub use segment::extract_grain_frames;
pub use window::{apply_window, window_length};
