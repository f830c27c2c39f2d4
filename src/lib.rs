//! Live audio capture core: sample conversion to 16-bit PCM, channel
//! downmixing, device selection and the capture session's state and queue.

pub mod convert;
pub mod downmix;
pub mod queue;
pub mod recorder;

pub use convert::{scaled_to_i16, u16_to_i16};
pub use downmix::{downmix, downmix_frame, to_canonical, u16_chunk};
pub use recorder::{
    list_devices, resolve_device, CaptureError, ChunkProducer, DeviceChoice, Recorder,
    RecorderConfig, SampleKind, StreamParams,
};
