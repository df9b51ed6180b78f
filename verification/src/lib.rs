//! An audio device and stream engine: it enumerates capture and playback
//! hardware, derives each device's supported configurations, and runs
//! bounded producer/consumer pipelines that move fixed-format sample
//! buffers between a hardware-driven real-time callback and the caller,
//! under pause/resume/close lifecycle control. The hardware itself stands
//! behind the embedding; the decisions, registries, and buffer handling
//! live here, with their behaviour stated in each function's contract.

pub mod channel;
pub mod devices;
pub mod streams;
pub mod types;
