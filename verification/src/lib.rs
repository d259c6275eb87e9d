//! A verified core for a real-time audio playback engine.
//!
//! The library owns everything that can be stated and proved about
//! playback: the fixed-point sample model, mono/stereo channel
//! adaptation, per-format quantization, the shared sample buffer with
//! its read cursor, and the transport state machine (play, pause,
//! seek, time queries). Decoding a file and driving a hardware output
//! stream are I/O and live in the surrounding application, which hands
//! this library plain values and calls its verified transitions.

mod buffer;
mod channel;
mod format;
mod geometry;
mod manager;

pub use buffer::SampleBuffer;
pub use buffer::fill_buffer;
pub use buffer::fill_buffer_raw;
pub use channel::downmix_stereo_to_mono;
pub use channel::upmix_mono_to_stereo;
pub use format::SAMPLE_UNIT;
pub use format::SampleFormat;
pub use format::WireSample;
pub use geometry::n_gon_index_buffer;
pub use manager::AudioError;
pub use manager::AudioStreamManager;
pub use manager::BufferSizePolicy;
pub use manager::BufferSizeRange;
pub use manager::DecodedAudio;
pub use manager::OutputDeviceConfig;
